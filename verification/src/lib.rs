//! Supervision core for running an external `msbuild` process against a
//! solution: construction of the fixed argument list, an ordered registry of
//! per-stream line sinks, a line-splitting output router, a one-shot
//! cancellation token, and the supervisor that combines them into a single
//! run outcome.
//!
//! The process spawning, the reader threads and the watcher thread live in
//! the surrounding application; everything that decides what a run observes
//! and reports is here, with contracts.

mod adapter;
mod args;
mod cancel;
mod router;
mod sinks;
mod supervisor;

pub use adapter::{BuildAdapter, ErrorUiAdapter};
pub use args::{BuildConfig, Config, MsBuildArg, Operation, Platform};
pub use cancel::{CancelToken, Interrupt, lemma_request_idempotent, request_next, should_kill,
    signal_requests_cancel};
pub use router::{drain_stderr, drain_stdout, split_from, split_lines, split_lines_spec, strip_cr};
pub use sinks::{RecordingSink, Sink, Sinks, all_pushed};
pub use supervisor::{BuildError, ExitOutcome, RunIo, RunState, SlnOperations, cancel_delivered,
    decide_outcome, lemma_cancel_after_exit, lemma_cancel_before_run,
    lemma_cancelled_only_from_running, lemma_request_cancel_idempotent, request_cancel_next,
    run_killed, run_outcome, state_step_allowed, tool_command};
