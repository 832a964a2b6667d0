//! The run lifecycle state machine and completion sequencer. The surrounding
//! application performs the filesystem writes, the spawns, the waits and the
//! deletes, and reports each step here; the machine decides what each report
//! means, accumulates output, resolves the exit code, and will not emit a
//! terminal result until cleanup has been handed out.
//!
//! Every exit path goes through `take_cleanup` (or `abort`) before a
//! terminal result can exist, so a completed run never leaves an artifact
//! behind in the model.

use vstd::prelude::*;
use crate::language::{Artifact, RunPlan};
use crate::streamer::{ExecutionOutput, OutputLog, StreamTag};

verus! {

/// The exit code reported when the real one is unknown: the process was
/// killed, was already untracked by an explicit stop, or ended on a signal.
pub const SENTINEL_EXIT_CODE: i32 = -1;

/// The single terminal outcome of one accepted execution request.
#[derive(Clone, Debug)]
pub struct ExecutionResult {
    pub stdout: String,
    pub stderr: String,
    pub exit_code: i32,
    pub duration_ms: u64,
}

/// Where one run stands in its lifecycle.
#[derive(Clone, Copy, Debug, PartialEq, Eq, Structural)]
pub enum Phase {
    /// Accepted; no scratch artifact exists yet.
    New,
    /// The scratch artifacts are written.
    Prepared,
    /// The compile step succeeded.
    Compiled,
    /// The compile step failed; the run short-circuits without spawning.
    CompileFailed,
    /// The process is live and its streams are being drained.
    Running,
    /// Both streams reached end of stream.
    Drained,
    /// Torn down by a setup failure before any result could be owed.
    Aborted,
    /// The terminal result has been emitted.
    Done,
}

/// Translates what the platform reported at process exit into the result's
/// exit code: the reported code when the handle was still tracked and a code
/// exists, else the sentinel (killed, already untracked, or no reportable
/// code).
pub fn resolve_exit_code(untracked: bool, status_code: Option<i32>) -> (r: i32)
    ensures
        r == (if untracked {
            match status_code {
                Some(c) => c,
                None => SENTINEL_EXIT_CODE,
            }
        } else {
            SENTINEL_EXIT_CODE
        }),
{
    if untracked {
        match status_code {
            Some(c) => c,
            None => SENTINEL_EXIT_CODE,
        }
    } else {
        SENTINEL_EXIT_CODE
    }
}

/// One run, from acceptance to its terminal result.
pub struct RunTask {
    /// The session key the run belongs to.
    pub session: String,
    /// The per-language recipe of the run.
    pub plan: RunPlan,
    /// Where the run stands.
    pub phase: Phase,
    /// The scratch artifacts that currently exist for this run.
    pub created: Vec<Artifact>,
    /// Whether cleanup has been handed out; set exactly once per run.
    pub cleaned: bool,
    /// Accumulated stdout.
    pub stdout: OutputLog,
    /// Accumulated stderr.
    pub stderr: OutputLog,
    /// The compiler's diagnostics, kept when the compile step failed.
    pub compile_diagnostics: String,
    /// The compiler's resolved exit code, kept when the compile step failed.
    pub compile_code: i32,
}

impl RunTask {
    /// The lifecycle invariant:
    /// - each buffer is the concatenation of that stream's emitted lines;
    /// - no output event exists before the process runs, and none ever
    ///   exists for a run that short-circuited on a compile failure;
    /// - a failed compile step carries a nonzero exit code;
    /// - once cleanup is handed out no artifact remains, and a terminal
    ///   phase is reached only after cleanup.
    pub open spec fn wf(self) -> bool {
        &&& self.stdout.wf()
        &&& self.stderr.wf()
        &&& (self.phase is New || self.phase is Prepared || self.phase is Compiled
            || self.phase is CompileFailed) ==> self.stdout.spec_lines().len() == 0
            && self.stderr.spec_lines().len() == 0
        &&& (self.phase is New ==> self.created@.len() == 0 && !self.cleaned)
        &&& (self.cleaned ==> self.created@.len() == 0)
        &&& (self.cleaned ==> self.phase is CompileFailed || self.phase is Drained
            || self.phase is Aborted || self.phase is Done)
        &&& (self.phase is Done ==> self.cleaned)
        &&& (self.phase is Aborted ==> self.cleaned)
        &&& (self.phase is CompileFailed ==> self.compile_code != 0)
    }

    /// Whether the session's process is live: exactly in the running phase.
    pub open spec fn is_running(self) -> bool {
        self.phase is Running
    }

    /// Whether the session's process is live, as the running-state shown to
    /// the user: it flips to true when the process is spawned and back to
    /// false when the terminal result is emitted or the run is torn down.
    pub fn is_live(&self) -> (r: bool)
        ensures
            r == self.is_running(),
    {
        matches!(self.phase, Phase::Running)
    }

    /// Accepts a request: a fresh run for the plan, owning nothing yet.
    pub fn new(plan: RunPlan, session: String) -> (r: RunTask)
        ensures
            r.wf(),
            r.phase is New,
            r.plan == plan,
            r.session == session,
            r.created@.len() == 0,
            !r.cleaned,
            r.stdout.spec_lines().len() == 0,
            r.stderr.spec_lines().len() == 0,
    {
        RunTask {
            session,
            plan,
            phase: Phase::New,
            created: Vec::new(),
            cleaned: false,
            stdout: OutputLog::new(),
            stderr: OutputLog::new(),
            compile_diagnostics: String::new(),
            compile_code: 0,
        }
    }

    /// Records that the scratch artifacts were written: from now on the run
    /// owns its initial artifact (the scratch directory where one is used,
    /// else the source file).
    pub fn prepared(&mut self)
        requires
            old(self).wf(),
            old(self).phase is New,
        ensures
            final(self).wf(),
            final(self).phase is Prepared,
            final(self).created@.len() == 1,
            final(self).created@[0] == old(self).plan.initial_artifact(),
            final(self).plan == old(self).plan,
            final(self).session == old(self).session,
            !final(self).cleaned,
    {
        let artifact = match &self.plan.scratch_dir {
            Some(d) => Artifact::Dir(d.clone()),
            None => Artifact::File(self.plan.source_path.clone()),
        };
        self.created.push(artifact);
        self.phase = Phase::Prepared;
    }

    /// Records a successful compile step: the compiled artifact, where the
    /// plan names one, now exists and is owned by the run.
    pub fn compile_succeeded(&mut self)
        requires
            old(self).wf(),
            old(self).phase is Prepared,
            old(self).plan.compile is Some,
        ensures
            final(self).wf(),
            final(self).phase is Compiled,
            final(self).plan == old(self).plan,
            final(self).session == old(self).session,
            !final(self).cleaned,
            match old(self).plan.compiled_artifact {
                Some(b) => final(self).created@ == old(self).created@.push(
                    Artifact::File(b),
                ),
                None => final(self).created@ == old(self).created@,
            },
    {
        match &self.plan.compiled_artifact {
            Some(b) => {
                let path = b.clone();
                self.created.push(Artifact::File(path));
            },
            None => {},
        }
        self.phase = Phase::Compiled;
    }

    /// Records a failed compile step: the run short-circuits. The compiler's
    /// diagnostics and resolved exit code are kept for the terminal result;
    /// no process is ever spawned and no output event is ever emitted on
    /// this path.
    pub fn compile_failed(&mut self, status_code: Option<i32>, diagnostics: String)
        requires
            old(self).wf(),
            old(self).phase is Prepared,
            old(self).plan.compile is Some,
            status_code != Some(0i32),
        ensures
            final(self).wf(),
            final(self).phase is CompileFailed,
            final(self).plan == old(self).plan,
            final(self).session == old(self).session,
            final(self).created@ == old(self).created@,
            !final(self).cleaned,
            final(self).compile_diagnostics == diagnostics,
            final(self).compile_code == (match status_code {
                Some(c) => c,
                None => SENTINEL_EXIT_CODE,
            }),
            final(self).compile_code != 0,
    {
        self.compile_code = resolve_exit_code(true, status_code);
        self.compile_diagnostics = diagnostics;
        self.phase = Phase::CompileFailed;
    }

    /// Records that the run process was spawned and tracked: the session is
    /// now running and its streams are being drained.
    pub fn spawned(&mut self)
        requires
            old(self).wf(),
            old(self).phase is Prepared && old(self).plan.compile is None || old(
                self,
            ).phase is Compiled,
        ensures
            final(self).wf(),
            final(self).phase is Running,
            final(self).is_running(),
            final(self).plan == old(self).plan,
            final(self).session == old(self).session,
            final(self).created@ == old(self).created@,
            !final(self).cleaned,
            final(self).stdout == old(self).stdout,
            final(self).stderr == old(self).stderr,
    {
        self.phase = Phase::Running;
    }

    /// Accumulates one line read from one stream and builds the one
    /// incremental event to emit for it, tagged with its stream.
    pub fn observe_line(&mut self, tag: StreamTag, line: &str) -> (event: ExecutionOutput)
        requires
            old(self).wf(),
            old(self).phase is Running,
        ensures
            final(self).wf(),
            final(self).phase is Running,
            final(self).plan == old(self).plan,
            final(self).session == old(self).session,
            final(self).created@ == old(self).created@,
            final(self).cleaned == old(self).cleaned,
            event.line@ == line@,
            match tag {
                StreamTag::Stdout => {
                    &&& event.stream@ == "stdout"@
                    &&& final(self).stdout.spec_lines() == old(self).stdout.spec_lines().push(
                        line@,
                    )
                    &&& final(self).stdout.buffer() == old(self).stdout.buffer() + line@
                    &&& final(self).stderr == old(self).stderr
                },
                StreamTag::Stderr => {
                    &&& event.stream@ == "stderr"@
                    &&& final(self).stderr.spec_lines() == old(self).stderr.spec_lines().push(
                        line@,
                    )
                    &&& final(self).stderr.buffer() == old(self).stderr.buffer() + line@
                    &&& final(self).stdout == old(self).stdout
                },
            },
    {
        let stream_name = match tag {
            StreamTag::Stdout => {
                self.stdout.push_line(line);
                "stdout"
            },
            StreamTag::Stderr => {
                self.stderr.push_line(line);
                "stderr"
            },
        };
        ExecutionOutput { line: String::from_str(line), stream: String::from_str(stream_name) }
    }

    /// Records that both streams reached end of stream: the process closed
    /// its descriptors, typically by exiting (naturally or killed).
    pub fn streams_drained(&mut self)
        requires
            old(self).wf(),
            old(self).phase is Running,
        ensures
            final(self).wf(),
            final(self).phase is Drained,
            final(self).plan == old(self).plan,
            final(self).session == old(self).session,
            final(self).created@ == old(self).created@,
            final(self).cleaned == old(self).cleaned,
            final(self).stdout == old(self).stdout,
            final(self).stderr == old(self).stderr,
            !final(self).is_running(),
    {
        self.phase = Phase::Drained;
    }

    /// Hands out every artifact the run still owns, exactly once, for the
    /// caller to delete (best-effort; deletion failures are swallowed).
    /// Terminal results exist only after this step, on every exit path.
    pub fn take_cleanup(&mut self) -> (r: Vec<Artifact>)
        requires
            old(self).wf(),
            old(self).phase is Drained || old(self).phase is CompileFailed,
            !old(self).cleaned,
        ensures
            final(self).wf(),
            final(self).phase == old(self).phase,
            final(self).plan == old(self).plan,
            final(self).session == old(self).session,
            final(self).cleaned,
            final(self).created@.len() == 0,
            r@ == old(self).created@,
            final(self).stdout == old(self).stdout,
            final(self).stderr == old(self).stderr,
            final(self).compile_diagnostics == old(self).compile_diagnostics,
            final(self).compile_code == old(self).compile_code,
    {
        let mut out: Vec<Artifact> = Vec::new();
        core::mem::swap(&mut self.created, &mut out);
        self.cleaned = true;
        out
    }

    /// Tears the run down after a setup failure (a scratch write or a spawn
    /// that failed): hands out whatever was created, exactly once. No
    /// terminal result is owed on this path; the failure is surfaced as a
    /// call error instead.
    pub fn abort(&mut self) -> (r: Vec<Artifact>)
        requires
            old(self).wf(),
            !(old(self).phase is Done),
            !(old(self).phase is Aborted),
            !old(self).cleaned,
        ensures
            final(self).wf(),
            final(self).phase is Aborted,
            final(self).cleaned,
            final(self).created@.len() == 0,
            r@ == old(self).created@,
            !final(self).is_running(),
    {
        let mut out: Vec<Artifact> = Vec::new();
        core::mem::swap(&mut self.created, &mut out);
        self.cleaned = true;
        self.phase = Phase::Aborted;
        out
    }

    /// Emits the terminal result of a run whose process was spawned: the
    /// full buffers, the resolved exit code, and the elapsed duration. The
    /// caller reports whether the completion sequencer itself untracked the
    /// handle (`untracked`) and what the platform reported at exit; a run
    /// already untracked by an explicit stop resolves to the sentinel.
    /// Requires cleanup to have been handed out: a completed run owns no
    /// artifact.
    pub fn finish(&mut self, untracked: bool, status_code: Option<i32>, duration_ms: u64) -> (r:
        ExecutionResult)
        requires
            old(self).wf(),
            old(self).phase is Drained,
            old(self).cleaned,
        ensures
            final(self).wf(),
            final(self).phase is Done,
            !final(self).is_running(),
            final(self).created@.len() == 0,
            final(self).stdout == old(self).stdout,
            final(self).stderr == old(self).stderr,
            r.stdout@ == old(self).stdout.buffer(),
            r.stderr@ == old(self).stderr.buffer(),
            r.stdout@ == old(self).stdout.spec_lines().flatten(),
            r.stderr@ == old(self).stderr.spec_lines().flatten(),
            r.exit_code == (if untracked {
                match status_code {
                    Some(c) => c,
                    None => SENTINEL_EXIT_CODE,
                }
            } else {
                SENTINEL_EXIT_CODE
            }),
            !untracked ==> r.exit_code == SENTINEL_EXIT_CODE,
            r.duration_ms == duration_ms,
    {
        let exit_code = resolve_exit_code(untracked, status_code);
        let stdout = self.stdout.buffer_string();
        let stderr = self.stderr.buffer_string();
        self.phase = Phase::Done;
        ExecutionResult { stdout, stderr, exit_code, duration_ms }
    }

    /// Emits the short-circuit terminal result of a failed compile step:
    /// empty stdout, the compiler's diagnostics as stderr, its nonzero exit
    /// code, and the elapsed duration. No output event was emitted and no
    /// process was ever tracked for this run. Requires cleanup to have been
    /// handed out first.
    pub fn finish_compile_failure(&mut self, duration_ms: u64) -> (r: ExecutionResult)
        requires
            old(self).wf(),
            old(self).phase is CompileFailed,
            old(self).cleaned,
        ensures
            final(self).wf(),
            final(self).phase is Done,
            !final(self).is_running(),
            final(self).created@.len() == 0,
            r.stdout@.len() == 0,
            r.stderr == old(self).compile_diagnostics,
            r.exit_code == old(self).compile_code,
            r.exit_code != 0,
            r.duration_ms == duration_ms,
            old(self).stdout.spec_lines().len() == 0,
            old(self).stderr.spec_lines().len() == 0,
    {
        let stderr = self.compile_diagnostics.clone();
        let exit_code = self.compile_code;
        self.phase = Phase::Done;
        ExecutionResult { stdout: String::new(), stderr, exit_code, duration_ms }
    }

    /// For every completed run, all artifacts it created are absent once the
    /// terminal state is reached: cleanup precedes every terminal result,
    /// and an aborted run is torn down the same way.
    pub proof fn lemma_completed_run_leaves_no_artifacts(self)
        requires
            self.wf(),
            self.phase is Done || self.phase is Aborted,
        ensures
            self.created@.len() == 0,
    {
    }

    /// Each stream's buffer is exactly the concatenation of that stream's
    /// emitted output events, so a run that emitted N stdout lines and M
    /// stderr lines carries buffers equal to their respective
    /// concatenations.
    pub proof fn lemma_buffers_equal_event_concatenation(self)
        requires
            self.wf(),
        ensures
            self.stdout.buffer() == self.stdout.spec_lines().flatten(),
            self.stderr.buffer() == self.stderr.spec_lines().flatten(),
    {
    }

    /// A run that short-circuited on a compile failure emitted no output
    /// event at all.
    pub proof fn lemma_compile_failure_emits_no_events(self)
        requires
            self.wf(),
            self.phase is CompileFailed,
        ensures
            self.stdout.spec_lines().len() == 0,
            self.stderr.spec_lines().len() == 0,
            self.compile_code != 0,
    {
    }
}

} // verus!
