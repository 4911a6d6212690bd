//! The outcome of one sandboxed program run: status classification and
//! resource accounting, together with the termination-decision logic used
//! while the child process is monitored.

use vstd::prelude::*;

use crate::text::str_eq;

verus! {

/// Why a run is considered to have misbehaved.
///
/// The two-letter wire forms `RE`, `SG`, `TO` and `XX` are the durable
/// external contract for consumers that parse results.
#[derive(Debug, Clone, Copy, PartialEq, Eq, Structural)]
pub enum Status {
    /// Program exited with non-zero exit code.
    RuntimeError,
    /// Program terminated by signal.
    SignalError,
    /// Program exceeded a time limit.
    Timeout,
    /// Internal sandbox error.
    InternalError,
}

/// The canonical two-letter code of a status.
pub open spec fn spec_status_code(s: Status) -> Seq<char> {
    match s {
        Status::RuntimeError => "RE"@,
        Status::SignalError => "SG"@,
        Status::Timeout => "TO"@,
        Status::InternalError => "XX"@,
    }
}

/// The status a two-letter code parses to; an unrecognized code maps to
/// `RuntimeError` rather than failing.
pub open spec fn spec_status_from(code: Seq<char>) -> Status {
    if code == "SG"@ {
        Status::SignalError
    } else if code == "TO"@ {
        Status::Timeout
    } else if code == "XX"@ {
        Status::InternalError
    } else {
        Status::RuntimeError
    }
}

impl Status {
    /// Renders the canonical two-letter code.
    pub fn code(&self) -> (r: String)
        ensures
            r@ == spec_status_code(*self),
    {
        match self {
            Status::RuntimeError => "RE".to_owned(),
            Status::SignalError => "SG".to_owned(),
            Status::Timeout => "TO".to_owned(),
            Status::InternalError => "XX".to_owned(),
        }
    }
}

impl<'a> From<&'a str> for Status {
    /// Parses a two-letter code; anything unrecognized becomes
    /// `RuntimeError`.
    fn from(code: &'a str) -> (r: Self) {
        if str_eq(code, "SG") {
            Status::SignalError
        } else if str_eq(code, "TO") {
            Status::Timeout
        } else if str_eq(code, "XX") {
            Status::InternalError
        } else {
            Status::RuntimeError
        }
    }
}

impl<'a> vstd::std_specs::convert::FromSpecImpl<&'a str> for Status {
    open spec fn obeys_from_spec() -> bool {
        true
    }

    open spec fn from_spec(code: &'a str) -> Self {
        spec_status_from(code@)
    }
}

/// Law: parsing the canonical code of any status yields that status back.
pub proof fn lemma_status_code_round_trip(s: Status)
    ensures
        spec_status_from(spec_status_code(s)) == s,
{
    reveal_strlit("RE");
    reveal_strlit("SG");
    reveal_strlit("TO");
    reveal_strlit("XX");
    assert("RE"@ =~= seq!['R', 'E']);
    assert("SG"@ =~= seq!['S', 'G']);
    assert("TO"@ =~= seq!['T', 'O']);
    assert("XX"@ =~= seq!['X', 'X']);
    match s {
        Status::RuntimeError => {
            assert(spec_status_code(s) != "SG"@);
            assert(spec_status_code(s) != "TO"@);
            assert(spec_status_code(s) != "XX"@);
        },
        Status::SignalError => {
            assert(spec_status_code(s) == "SG"@);
        },
        Status::Timeout => {
            assert(spec_status_code(s) != "SG"@);
            assert(spec_status_code(s) == "TO"@);
        },
        Status::InternalError => {
            assert(spec_status_code(s) != "SG"@);
            assert(spec_status_code(s) != "TO"@);
            assert(spec_status_code(s) == "XX"@);
        },
    }
}

/// Law: any code other than the four canonical ones parses to
/// `RuntimeError`.
pub proof fn lemma_status_from_unknown(code: Seq<char>)
    requires
        code != spec_status_code(Status::SignalError),
        code != spec_status_code(Status::Timeout),
        code != spec_status_code(Status::InternalError),
    ensures
        spec_status_from(code) == Status::RuntimeError,
{
}

/// What the monitored child process reported when it stopped, as plain
/// values, before classification.
#[derive(Debug, Default)]
pub struct RawTermination {
    /// Exit code, when the program exited normally.
    pub exit_code: Option<i32>,
    /// Terminating signal, when the program was killed by one.
    pub termination_signal: Option<i32>,
    /// Whether the sandbox itself terminated the program because a time
    /// limit fired.
    pub terminated_by_sandbox: bool,
    /// CPU time used, in milliseconds.
    pub cpu_time_ms: u64,
    /// Elapsed wall-clock time, in milliseconds.
    pub wall_time_ms: u64,
    /// Peak resident set size, in kilobytes.
    pub peak_memory_kb: u32,
    /// Total memory accounted to the control group, in kilobytes.
    pub cgroup_memory_kb: u32,
    /// Whether the out-of-memory killer terminated the program.
    pub killed_by_oom: bool,
    /// Voluntary context switches.
    pub context_switches_voluntary: u32,
    /// Involuntary context switches.
    pub context_switches_forced: u32,
    /// Captured standard output, where redirected to the sandbox.
    pub stdout: String,
    /// Captured standard error, where redirected to the sandbox.
    pub stderr: String,
}

/// The outcome of one execution.
///
/// `status` is `None` when the program completed normally within its
/// limits; callers distinguish a returned error (the request was invalid)
/// from a successful call whose result carries a non-success status (the
/// program misbehaved).
#[derive(Debug, Default)]
pub struct ExecutionResult {
    /// Total memory usage of the control group in kilobytes.
    pub cgroup_memory_kb: u32,
    /// Number of involuntary context switches (forced by the kernel).
    pub context_switches_forced: u32,
    /// Number of voluntary context switches (process yielded the CPU).
    pub context_switches_voluntary: u32,
    /// CPU time used by the process in milliseconds.
    pub cpu_time_ms: u64,
    /// Process exit code (if terminated normally).
    pub exit_code: i32,
    /// Whether the program was terminated by the OOM killer.
    pub killed_by_oom: bool,
    /// Peak memory usage (resident set size) in kilobytes.
    pub peak_memory_kb: u32,
    /// Program's standard error.
    pub stderr: String,
    /// Program's standard output.
    pub stdout: String,
    /// Status classification; `None` when the program completed normally.
    pub status: Option<Status>,
    /// Human-readable status description.
    pub status_message: String,
    /// Whether the sandbox terminated the process (e.g. due to timeout).
    pub terminated_by_sandbox: bool,
    /// Signal that terminated the process (if killed by signal).
    pub termination_signal: i32,
    /// Total wall clock time in milliseconds.
    pub wall_time_ms: u64,
}

/// How one raw termination is classified: a sandbox-initiated kill is a
/// timeout, then death by signal, then a non-zero exit; a normal exit with
/// code zero carries no status.
pub open spec fn spec_classify(
    terminated_by_sandbox: bool,
    signal: Option<i32>,
    exit_code: Option<i32>,
) -> Option<Status> {
    if terminated_by_sandbox {
        Option::Some(Status::Timeout)
    } else if signal is Some {
        Option::Some(Status::SignalError)
    } else if exit_code is Some && exit_code->0 != 0 {
        Option::Some(Status::RuntimeError)
    } else {
        Option::None
    }
}

/// The human-readable description of a classification.
pub open spec fn spec_status_description(status: Option<Status>) -> Seq<char> {
    match status {
        Option::Some(Status::Timeout) => "Time limit exceeded"@,
        Option::Some(Status::SignalError) => "Caught fatal signal"@,
        Option::Some(Status::RuntimeError) => "Exited with error status"@,
        Option::Some(Status::InternalError) => "Internal error"@,
        Option::None => "OK"@,
    }
}

/// Turns what the monitored child reported into the result handed to the
/// caller, classifying the outcome and carrying every accounting value over.
pub fn build_execution_result(raw: RawTermination) -> (r: ExecutionResult)
    ensures
        r.status == spec_classify(raw.terminated_by_sandbox, raw.termination_signal, raw.exit_code),
        r.status_message@ == spec_status_description(r.status),
        r.exit_code == (if raw.exit_code is Some {
            raw.exit_code->0
        } else {
            0
        }),
        r.termination_signal == (if raw.termination_signal is Some {
            raw.termination_signal->0
        } else {
            0
        }),
        r.terminated_by_sandbox == raw.terminated_by_sandbox,
        r.cpu_time_ms == raw.cpu_time_ms,
        r.wall_time_ms == raw.wall_time_ms,
        r.peak_memory_kb == raw.peak_memory_kb,
        r.cgroup_memory_kb == raw.cgroup_memory_kb,
        r.killed_by_oom == raw.killed_by_oom,
        r.context_switches_voluntary == raw.context_switches_voluntary,
        r.context_switches_forced == raw.context_switches_forced,
        r.stdout == raw.stdout,
        r.stderr == raw.stderr,
{
    let exited_nonzero = match raw.exit_code {
        Option::Some(c) => c != 0,
        Option::None => false,
    };
    let status = if raw.terminated_by_sandbox {
        Option::Some(Status::Timeout)
    } else if raw.termination_signal.is_some() {
        Option::Some(Status::SignalError)
    } else if exited_nonzero {
        Option::Some(Status::RuntimeError)
    } else {
        Option::None
    };
    let status_message = match status {
        Option::Some(Status::Timeout) => "Time limit exceeded".to_owned(),
        Option::Some(Status::SignalError) => "Caught fatal signal".to_owned(),
        Option::Some(Status::RuntimeError) => "Exited with error status".to_owned(),
        Option::Some(Status::InternalError) => "Internal error".to_owned(),
        Option::None => "OK".to_owned(),
    };
    ExecutionResult {
        cgroup_memory_kb: raw.cgroup_memory_kb,
        context_switches_forced: raw.context_switches_forced,
        context_switches_voluntary: raw.context_switches_voluntary,
        cpu_time_ms: raw.cpu_time_ms,
        exit_code: match raw.exit_code {
            Option::Some(c) => c,
            Option::None => 0,
        },
        killed_by_oom: raw.killed_by_oom,
        peak_memory_kb: raw.peak_memory_kb,
        stderr: raw.stderr,
        stdout: raw.stdout,
        status,
        status_message,
        terminated_by_sandbox: raw.terminated_by_sandbox,
        termination_signal: match raw.termination_signal {
            Option::Some(s) => s,
            Option::None => 0,
        },
        wall_time_ms: raw.wall_time_ms,
    }
}

/// A failure of the sandbox itself after the point of no return, together
/// with whatever resource accounting had been gathered when it struck, so
/// that the accounting is not lost with the failure.
#[derive(Debug, Default)]
pub struct RunFailure {
    /// What went wrong.
    pub message: String,
    /// The accounting gathered so far; fields not yet measured stay at
    /// their zero values.
    pub accounting: RawTermination,
}

/// The result reported when the sandbox itself failed after the point of no
/// return: classified `InternalError`, carrying the failure text, with
/// every piece of resource accounting gathered so far retained.
pub fn internal_error_result(failure: RunFailure) -> (r: ExecutionResult)
    ensures
        r.status == Option::Some(Status::InternalError),
        r.status_message == failure.message,
        r.exit_code == (if failure.accounting.exit_code is Some {
            failure.accounting.exit_code->0
        } else {
            0
        }),
        r.termination_signal == (if failure.accounting.termination_signal is Some {
            failure.accounting.termination_signal->0
        } else {
            0
        }),
        r.terminated_by_sandbox == failure.accounting.terminated_by_sandbox,
        r.cpu_time_ms == failure.accounting.cpu_time_ms,
        r.wall_time_ms == failure.accounting.wall_time_ms,
        r.peak_memory_kb == failure.accounting.peak_memory_kb,
        r.cgroup_memory_kb == failure.accounting.cgroup_memory_kb,
        r.killed_by_oom == failure.accounting.killed_by_oom,
        r.context_switches_voluntary == failure.accounting.context_switches_voluntary,
        r.context_switches_forced == failure.accounting.context_switches_forced,
        r.stdout == failure.accounting.stdout,
        r.stderr == failure.accounting.stderr,
{
    let accounting = failure.accounting;
    ExecutionResult {
        cgroup_memory_kb: accounting.cgroup_memory_kb,
        context_switches_forced: accounting.context_switches_forced,
        context_switches_voluntary: accounting.context_switches_voluntary,
        cpu_time_ms: accounting.cpu_time_ms,
        exit_code: match accounting.exit_code {
            Option::Some(c) => c,
            Option::None => 0,
        },
        killed_by_oom: accounting.killed_by_oom,
        peak_memory_kb: accounting.peak_memory_kb,
        stderr: accounting.stderr,
        stdout: accounting.stdout,
        status: Option::Some(Status::InternalError),
        status_message: failure.message,
        terminated_by_sandbox: accounting.terminated_by_sandbox,
        termination_signal: match accounting.termination_signal {
            Option::Some(s) => s,
            Option::None => 0,
        },
        wall_time_ms: accounting.wall_time_ms,
    }
}

/// What the monitor decides after one look at the running child.
#[derive(Debug, Clone, Copy, PartialEq, Eq, Structural)]
pub enum MonitorVerdict {
    /// No limit has fired; keep waiting for the child.
    KeepWaiting,
    /// A time limit has fired; forcibly terminate the child.
    Terminate,
}

/// Whether a time limit has fired: the wall-clock limit is exceeded, or the
/// CPU-time limit is exceeded and the grace ("extra time") window has also
/// elapsed.
pub open spec fn spec_time_limit_fired(
    time_limit_ms: Option<u64>,
    extra_time_ms: Option<u64>,
    wall_time_limit_ms: Option<u64>,
    cpu_used_ms: u64,
    wall_elapsed_ms: u64,
) -> bool {
    ||| (wall_time_limit_ms is Some && wall_elapsed_ms > wall_time_limit_ms->0)
    ||| (time_limit_ms is Some && cpu_used_ms > time_limit_ms->0 + (if extra_time_ms is Some {
        extra_time_ms->0 as int
    } else {
        0
    }))
}

/// One step of the monitoring protocol: given the limits in effect and the
/// time the child has consumed so far, decide whether the child must be
/// forcibly terminated.
///
/// The caller runs the blocking wait loop and performs the termination; the
/// decision itself is taken here.
pub fn monitor_poll(
    time_limit_ms: Option<u64>,
    extra_time_ms: Option<u64>,
    wall_time_limit_ms: Option<u64>,
    cpu_used_ms: u64,
    wall_elapsed_ms: u64,
) -> (r: MonitorVerdict)
    ensures
        r == MonitorVerdict::Terminate <==> spec_time_limit_fired(
            time_limit_ms,
            extra_time_ms,
            wall_time_limit_ms,
            cpu_used_ms,
            wall_elapsed_ms,
        ),
{
    if let Option::Some(wall_limit) = wall_time_limit_ms {
        if wall_elapsed_ms > wall_limit {
            return MonitorVerdict::Terminate;
        }
    }
    if let Option::Some(cpu_limit) = time_limit_ms {
        if cpu_used_ms > cpu_limit {
            let grace = match extra_time_ms {
                Option::Some(g) => g,
                Option::None => 0,
            };
            if cpu_used_ms - cpu_limit > grace {
                return MonitorVerdict::Terminate;
            }
        }
    }
    MonitorVerdict::KeepWaiting
}

} // verus!
