//! The supervisor of one external build run. It owns the solution path, the
//! fixed build configuration, the sink registry and the optional one-shot
//! cancellation token, and it turns what one run of the child process
//! produced — whether the spawn succeeded, the bytes of both streams, the
//! exit code, and what the cancellation watcher observed — into sink
//! deliveries and a single exit outcome.
//!
//! The surrounding application performs the spawning, the two reader
//! threads and the blocking watcher; every decision of the run — the
//! argument list, which sink observes which line and in what order, whether
//! the child is killed, and what outcome is reported — is made by the
//! functions of this module. An outcome is reported only after both streams
//! have been fully drained, so no captured line is lost.

use vstd::prelude::*;

use crate::args::{BuildConfig, MsBuildArg, Operation};
use crate::cancel::{CancelToken, Interrupt, request_next, signal_requests_cancel};
use crate::router::{drain_stderr, drain_stdout, split_lines_spec};
use crate::sinks::{Sink, Sinks, all_pushed};

verus! {

/// Where a supervisor stands: no run yet, a run in flight, or the terminal
/// state of the last run. `Cancelled` is reached only by a termination
/// request that stopped a running child; `Failed` covers a spawn that did
/// not produce a child. No sink is invoked once a terminal state is
/// reached.
#[derive(Clone, Copy, Debug, PartialEq, Eq, Structural)]
pub enum RunState {
    NotStarted,
    Running,
    Completed,
    Cancelled,
    Failed,
}

/// What one finished run reports: the raw exit code of the child, and a
/// flag telling a cancelled run apart from a naturally failing one.
#[derive(Clone, Copy, Debug, PartialEq, Eq, Structural)]
pub struct ExitOutcome {
    pub status_code: i32,
    pub was_cancelled: bool,
}

/// Why a run produced no outcome. `Spawn` is fatal and never retried: the
/// executable could not be found or launched.
#[derive(Clone, Copy, Debug, PartialEq, Eq, Structural)]
pub enum BuildError {
    Spawn,
}

/// Everything the outside world contributed to one run: whether the child
/// could be spawned, the bytes each of its two streams produced before
/// closing, its exit code, the cancellation message the watcher received
/// while the run was in flight (if any), and whether the liveness probe
/// still found the child running when the watcher handled the request.
pub struct RunIo {
    pub spawn_ok: bool,
    pub stdout_data: Vec<u8>,
    pub stderr_data: Vec<u8>,
    pub exit_code: i32,
    pub cancel_signal: Option<Interrupt>,
    pub alive_at_signal: bool,
}

/// Whether a termination request reached the watcher of a run: the token
/// was armed, and either a request was already pending when the run began
/// or an effective message arrived while it was in flight.
pub open spec fn cancel_delivered(armed: bool, pending: bool, signal: Option<Interrupt>) -> bool {
    armed && (pending || signal_requests_cancel(signal))
}

/// Whether the child of a run was killed: a termination request was
/// delivered and the liveness probe still found the child running.
pub open spec fn run_killed(armed: bool, pending: bool, run: RunIo) -> bool {
    cancel_delivered(armed, pending, run.cancel_signal) && run.alive_at_signal
}

/// The outcome a run reports, given the cancellation state when it began
/// and what the outside world contributed: the raw exit code, cancelled
/// exactly when the child was killed.
pub open spec fn run_outcome(armed: bool, pending: bool, run: RunIo) -> ExitOutcome {
    ExitOutcome { status_code: run.exit_code, was_cancelled: run_killed(armed, pending, run) }
}

/// The pending flag of a supervisor after one call of `request_cancel`
/// carrying `signal`: without an armed token the call is a no-op.
pub open spec fn request_cancel_next(armed: bool, pending: bool, signal: Interrupt) -> bool {
    armed && request_next(pending, signal)
}

/// The name of the external build tool invoked for every run.
pub fn tool_command() -> (r: &'static str)
    ensures
        r@ == "msbuild"@,
{
    "msbuild"
}

/// The supervisor's final report of a run: the raw exit code, marked
/// cancelled exactly when the child was killed on request.
pub fn decide_outcome(killed: bool, exit_code: i32) -> (r: ExitOutcome)
    ensures
        r == (ExitOutcome { status_code: exit_code, was_cancelled: killed }),
{
    ExitOutcome { status_code: exit_code, was_cancelled: killed }
}

/// One solution under build: the path handed to the external tool, the
/// fixed configuration, the registered sinks, the optional cancellation
/// token, and the state of the last run.
pub struct SlnOperations<S: Sink> {
    sln_path: String,
    config: BuildConfig,
    sinks: Sinks<S>,
    cancel: Option<CancelToken>,
    state: RunState,
}

impl<S: Sink> SlnOperations<S> {
    /// The solution path of every run of this supervisor.
    pub closed spec fn spec_sln_path(&self) -> Seq<char> {
        self.sln_path@
    }

    /// The configuration and platform of every run of this supervisor.
    pub closed spec fn spec_config(&self) -> BuildConfig {
        self.config
    }

    /// The registered standard-output sinks, in registration order.
    pub closed spec fn spec_out_sinks(&self) -> Seq<S> {
        self.sinks.spec_out()
    }

    /// The registered standard-error sinks, in registration order.
    pub closed spec fn spec_err_sinks(&self) -> Seq<S> {
        self.sinks.spec_err()
    }

    /// Whether a cancellation token is armed for the next run.
    pub closed spec fn cancel_armed(&self) -> bool {
        self.cancel is Some
    }

    /// Whether a request to cancel is already pending for the next run.
    pub closed spec fn cancel_pending(&self) -> bool {
        match self.cancel {
            Some(tok) => tok.spec_pending(),
            None => false,
        }
    }

    /// The state of the last run, or `NotStarted` before the first.
    pub closed spec fn spec_state(&self) -> RunState {
        self.state
    }

    /// A supervisor for one solution, with no sink registered, no
    /// cancellation token armed, and no run performed.
    pub fn from_env(sln_path: &str, config: BuildConfig) -> (r: Self)
        ensures
            r.spec_sln_path() == sln_path@,
            r.spec_config() == config,
            r.spec_out_sinks() == Seq::<S>::empty(),
            r.spec_err_sinks() == Seq::<S>::empty(),
            !r.cancel_armed(),
            !r.cancel_pending(),
            r.spec_state() == RunState::NotStarted,
    {
        SlnOperations {
            sln_path: sln_path.to_owned(),
            config,
            sinks: Sinks::default(),
            cancel: None,
            state: RunState::NotStarted,
        }
    }

    /// Arm a fresh one-shot cancellation token for the next run. Arming
    /// must happen before the run starts for a request to be guaranteed
    /// delivery; arming again replaces the token, discarding any pending
    /// request.
    pub fn interrupter(&mut self)
        ensures
            final(self).cancel_armed(),
            !final(self).cancel_pending(),
            final(self).spec_sln_path() == old(self).spec_sln_path(),
            final(self).spec_config() == old(self).spec_config(),
            final(self).spec_out_sinks() == old(self).spec_out_sinks(),
            final(self).spec_err_sinks() == old(self).spec_err_sinks(),
            final(self).spec_state() == old(self).spec_state(),
    {
        self.cancel = Some(CancelToken::new());
    }

    /// Deliver one cancellation message. Without an armed token, or with a
    /// message carrying `false`, this is a documented no-op; it may be
    /// repeated at any time, before or after the run, without error.
    pub fn request_cancel(&mut self, signal: Interrupt)
        ensures
            final(self).cancel_armed() == old(self).cancel_armed(),
            final(self).cancel_pending() == request_cancel_next(
                old(self).cancel_armed(),
                old(self).cancel_pending(),
                signal,
            ),
            final(self).spec_sln_path() == old(self).spec_sln_path(),
            final(self).spec_config() == old(self).spec_config(),
            final(self).spec_out_sinks() == old(self).spec_out_sinks(),
            final(self).spec_err_sinks() == old(self).spec_err_sinks(),
            final(self).spec_state() == old(self).spec_state(),
    {
        match &mut self.cancel {
            Some(tok) => tok.request(signal),
            None => {},
        }
    }

    /// Append a sink for the child's standard-output lines. A sink added
    /// after some lines were already delivered only observes later lines.
    pub fn add_stdout_sink(&mut self, sink: S)
        ensures
            final(self).spec_out_sinks() == old(self).spec_out_sinks().push(sink),
            final(self).spec_err_sinks() == old(self).spec_err_sinks(),
            final(self).spec_sln_path() == old(self).spec_sln_path(),
            final(self).spec_config() == old(self).spec_config(),
            final(self).cancel_armed() == old(self).cancel_armed(),
            final(self).cancel_pending() == old(self).cancel_pending(),
            final(self).spec_state() == old(self).spec_state(),
    {
        self.sinks.register_out(sink);
    }

    /// Append a sink for the child's standard-error lines. A sink added
    /// after some lines were already delivered only observes later lines.
    pub fn add_stderr_sink(&mut self, sink: S)
        ensures
            final(self).spec_err_sinks() == old(self).spec_err_sinks().push(sink),
            final(self).spec_out_sinks() == old(self).spec_out_sinks(),
            final(self).spec_sln_path() == old(self).spec_sln_path(),
            final(self).spec_config() == old(self).spec_config(),
            final(self).cancel_armed() == old(self).cancel_armed(),
            final(self).cancel_pending() == old(self).cancel_pending(),
            final(self).spec_state() == old(self).spec_state(),
    {
        self.sinks.register_err(sink);
    }

    /// The registered standard-output sinks, for inspection: delivery to
    /// them stays with the supervisor.
    pub fn stdout_sinks(&self) -> (r: &Vec<S>)
        ensures
            r@ == self.spec_out_sinks(),
    {
        self.sinks.out_sinks()
    }

    /// The registered standard-error sinks, for inspection: delivery to
    /// them stays with the supervisor.
    pub fn stderr_sinks(&self) -> (r: &Vec<S>)
        ensures
            r@ == self.spec_err_sinks(),
    {
        self.sinks.err_sinks()
    }

    /// The state of the last run, or `NotStarted` before the first.
    pub fn state(&self) -> (r: RunState)
        ensures
            r == self.spec_state(),
    {
        self.state
    }

    /// The fixed argument sequence of one run: the solution path, the two
    /// restore switches, the verb, the configuration and the platform, in
    /// exactly this order — the external tool's command-line contract.
    pub fn get_args(&self, op: &Operation) -> (r: Vec<String>)
        ensures
            r@.len() == 6,
            r@[0]@ == self.spec_sln_path(),
            r@[1]@ == "/t:restore"@,
            r@[2]@ == "/p:RestorePackagesConfig=true"@,
            r@[3]@ == op.arg_spec(),
            r@[4]@ == self.spec_config().config.arg_spec(),
            r@[5]@ == self.spec_config().plat.arg_spec(),
    {
        let mut r: Vec<String> = Vec::new();
        r.push(self.sln_path.clone());
        r.push("/t:restore".to_owned());
        r.push("/p:RestorePackagesConfig=true".to_owned());
        r.push(op.get_arg().to_owned());
        r.push(self.config.config.get_arg().to_owned());
        r.push(self.config.plat.get_arg().to_owned());
        r
    }

    /// Perform one run over what the outside world contributed. The verb
    /// selects the argument list the spawn site hands the external tool,
    /// through `get_args`; what the child then did arrives in `run`. A failed
    /// spawn is fatal: nothing is delivered and the run fails. Otherwise
    /// every line of each stream reaches every sink of that stream — and
    /// no sink of the other — in stream order, the one-shot token is
    /// consumed, and the outcome is reported only after both streams are
    /// fully drained: cancelled exactly when a delivered termination
    /// request found the child still running, the natural exit code
    /// otherwise.
    #[allow(unused_variables)]
    pub fn build(&mut self, operation: Operation, run: RunIo) -> (r: Result<
        ExitOutcome,
        BuildError,
    >)
        ensures
            final(self).spec_sln_path() == old(self).spec_sln_path(),
            final(self).spec_config() == old(self).spec_config(),
            !run.spawn_ok ==> {
                &&& r == Err::<ExitOutcome, BuildError>(BuildError::Spawn)
                &&& final(self).spec_out_sinks() == old(self).spec_out_sinks()
                &&& final(self).spec_err_sinks() == old(self).spec_err_sinks()
                &&& final(self).cancel_armed() == old(self).cancel_armed()
                &&& final(self).cancel_pending() == old(self).cancel_pending()
                &&& final(self).spec_state() == RunState::Failed
            },
            run.spawn_ok ==> {
                &&& r == Ok::<ExitOutcome, BuildError>(run_outcome(
                    old(self).cancel_armed(),
                    old(self).cancel_pending(),
                    run,
                ))
                &&& all_pushed(
                    old(self).spec_out_sinks(),
                    final(self).spec_out_sinks(),
                    split_lines_spec(run.stdout_data@),
                )
                &&& all_pushed(
                    old(self).spec_err_sinks(),
                    final(self).spec_err_sinks(),
                    split_lines_spec(run.stderr_data@),
                )
                &&& !final(self).cancel_armed()
                &&& !final(self).cancel_pending()
                &&& final(self).spec_state() == (if run_killed(
                    old(self).cancel_armed(),
                    old(self).cancel_pending(),
                    run,
                ) {
                    RunState::Cancelled
                } else {
                    RunState::Completed
                })
            },
    {
        self.state = RunState::Running;
        if !run.spawn_ok {
            self.state = RunState::Failed;
            return Err(BuildError::Spawn);
        }
        // The watcher consumes the one-shot token for this run: it blocks
        // for the signal, and on waking re-validates liveness before acting.
        let delivered: bool = match self.cancel.take() {
            Some(mut tok) => {
                match run.cancel_signal {
                    Some(sig) => tok.request(sig),
                    None => {},
                }
                tok.is_pending()
            },
            None => false,
        };
        let killed = crate::cancel::should_kill(delivered, run.alive_at_signal);
        // Both routers drain their stream to the end before any outcome is
        // reported; the two streams never touch each other's sinks.
        drain_stdout(&mut self.sinks, run.stdout_data.as_slice());
        drain_stderr(&mut self.sinks, run.stderr_data.as_slice());
        self.state = if killed {
            RunState::Cancelled
        } else {
            RunState::Completed
        };
        Ok(decide_outcome(killed, run.exit_code))
    }
}

/// The per-run state machine: a supervisor leaves `NotStarted` only by
/// starting a run, and a running one ends in exactly one of the three
/// terminal states. A later run starts again from the terminal state of
/// the last.
pub open spec fn state_step_allowed(pre: RunState, post: RunState) -> bool {
    match (pre, post) {
        (RunState::NotStarted, RunState::Running) => true,
        (RunState::Completed, RunState::Running) => true,
        (RunState::Cancelled, RunState::Running) => true,
        (RunState::Failed, RunState::Running) => true,
        (RunState::Running, RunState::Completed) => true,
        (RunState::Running, RunState::Cancelled) => true,
        (RunState::Running, RunState::Failed) => true,
        _ => false,
    }
}

/// A run is cancelled only while it is running: no allowed step reaches
/// `Cancelled` from any state but `Running`.
pub proof fn lemma_cancelled_only_from_running(pre: RunState)
    ensures
        state_step_allowed(pre, RunState::Cancelled) ==> pre == RunState::Running,
{
}

/// A termination request pending before the run began, with the child
/// still found running when the watcher handled it, yields a cancelled
/// outcome: the request is not lost, however early it was made.
pub proof fn lemma_cancel_before_run(armed: bool, pending: bool, run: RunIo)
    requires
        armed,
        pending,
        run.alive_at_signal,
    ensures
        run_outcome(armed, pending, run).was_cancelled,
{
}

/// A termination request handled after the child already exited naturally
/// is a no-op: the run reports the natural exit code, not a cancelled
/// outcome.
pub proof fn lemma_cancel_after_exit(armed: bool, pending: bool, run: RunIo)
    requires
        !run.alive_at_signal,
    ensures
        run_outcome(armed, pending, run) == (ExitOutcome {
            status_code: run.exit_code,
            was_cancelled: false,
        }),
{
}

/// Requesting cancellation twice in succession leaves the supervisor in the
/// same state as requesting it once, and every later run reports the same
/// outcome either way.
pub proof fn lemma_request_cancel_idempotent(
    armed: bool,
    pending: bool,
    signal: Interrupt,
    run: RunIo,
)
    ensures
        request_cancel_next(
            armed,
            request_cancel_next(armed, pending, signal),
            signal,
        ) == request_cancel_next(armed, pending, signal),
        run_outcome(
            armed,
            request_cancel_next(armed, request_cancel_next(armed, pending, signal), signal),
            run,
        ) == run_outcome(armed, request_cancel_next(armed, pending, signal), run),
{
}

} // verus!
