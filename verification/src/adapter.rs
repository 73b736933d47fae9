//! The thin adapter a user interface drives: it owns one supervisor fixed
//! to the Release / x64 configuration, holds the interface's log sink until
//! the first build, and maps the supervisor's errors into its own.

use vstd::prelude::*;

use crate::args::{BuildConfig, Config, Operation, Platform};
use crate::router::split_lines_spec;
use crate::sinks::{Sink, all_pushed};
use crate::supervisor::{BuildError, RunIo, RunState, SlnOperations, run_killed};

verus! {

/// Why the adapter could not run a build: a supervisor error, or a misuse
/// of the adapter itself.
#[derive(Debug)]
pub enum ErrorUiAdapter {
    Io(BuildError),
    Other(String),
}

/// One-build adapter around a supervisor: created with the log sink of the
/// interface, it registers that sink on the first build and refuses a
/// second one.
pub struct BuildAdapter<S: Sink> {
    sln_ops: SlnOperations<S>,
    log_sink: Option<S>,
}

impl<S: Sink> BuildAdapter<S> {
    /// The supervisor this adapter drives.
    pub closed spec fn spec_ops(&self) -> SlnOperations<S> {
        self.sln_ops
    }

    /// The log sink still waiting to be registered, if any.
    pub closed spec fn spec_log_sink(&self) -> Option<S> {
        self.log_sink
    }

    /// The supervisor this adapter drives, for inspection.
    pub fn ops(&self) -> (r: &SlnOperations<S>)
        ensures
            *r == self.spec_ops(),
    {
        &self.sln_ops
    }

    /// An adapter for one solution, fixed to the Release configuration on
    /// the x64 platform, holding the interface's log sink for the first
    /// build.
    pub fn new(sln_path: &str, log_sink: S) -> (r: Self)
        ensures
            r.spec_ops().spec_sln_path() == sln_path@,
            r.spec_ops().spec_config() == (BuildConfig {
                config: Config::Release,
                plat: Platform::x64,
            }),
            r.spec_ops().spec_out_sinks() == Seq::<S>::empty(),
            r.spec_ops().spec_err_sinks() == Seq::<S>::empty(),
            !r.spec_ops().cancel_armed(),
            !r.spec_ops().cancel_pending(),
            r.spec_ops().spec_state() == RunState::NotStarted,
            r.spec_log_sink() == Some(log_sink),
    {
        BuildAdapter {
            sln_ops: SlnOperations::from_env(
                sln_path,
                BuildConfig { config: Config::Release, plat: Platform::x64 },
            ),
            log_sink: Some(log_sink),
        }
    }

    /// Run one build. The held log sink is registered for standard-output
    /// lines first, so it observes every line of the run; a second build
    /// finds no sink left and is refused. Supervisor errors are passed
    /// through as `Io`.
    pub fn build(&mut self, run: RunIo) -> (r: Result<(), ErrorUiAdapter>)
        ensures
            old(self).spec_log_sink() is None ==> {
                &&& *final(self) == *old(self)
                &&& r matches Err(ErrorUiAdapter::Other(m)) && m@ == "log sink is not set."@
            },
            (old(self).spec_log_sink() is Some) ==> {
                let s = old(self).spec_log_sink()->Some_0;
                &&& final(self).spec_log_sink() is None
                &&& final(self).spec_ops().spec_sln_path() == old(self).spec_ops().spec_sln_path()
                &&& final(self).spec_ops().spec_config() == old(self).spec_ops().spec_config()
                &&& (!run.spawn_ok ==> {
                    &&& r matches Err(ErrorUiAdapter::Io(BuildError::Spawn))
                    &&& final(self).spec_ops().spec_out_sinks() == old(
                        self,
                    ).spec_ops().spec_out_sinks().push(s)
                    &&& final(self).spec_ops().spec_err_sinks() == old(
                        self,
                    ).spec_ops().spec_err_sinks()
                    &&& final(self).spec_ops().spec_state() == RunState::Failed
                })
                &&& (run.spawn_ok ==> {
                    &&& r matches Ok(u) && u == ()
                    &&& all_pushed(
                        old(self).spec_ops().spec_out_sinks().push(s),
                        final(self).spec_ops().spec_out_sinks(),
                        split_lines_spec(run.stdout_data@),
                    )
                    &&& all_pushed(
                        old(self).spec_ops().spec_err_sinks(),
                        final(self).spec_ops().spec_err_sinks(),
                        split_lines_spec(run.stderr_data@),
                    )
                    &&& final(self).spec_ops().spec_state() == (if run_killed(
                        old(self).spec_ops().cancel_armed(),
                        old(self).spec_ops().cancel_pending(),
                        run,
                    ) {
                        RunState::Cancelled
                    } else {
                        RunState::Completed
                    })
                })
            },
    {
        let sink = match self.log_sink.take() {
            Some(s) => s,
            None => {
                return Err(ErrorUiAdapter::Other("log sink is not set.".to_owned()));
            },
        };
        self.sln_ops.add_stdout_sink(sink);
        match self.sln_ops.build(Operation::Build, run) {
            Ok(_) => Ok(()),
            Err(e) => Err(ErrorUiAdapter::Io(e)),
        }
    }
}

} // verus!
