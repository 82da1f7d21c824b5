//! The portable classification of a POSIX wait result.

use vstd::prelude::*;
use crate::unix::codes::exit_success;
use crate::unix::codes::Codes;

verus! {

/// What became of a process, as far as the operating system tells.
#[derive(Clone, Copy, Debug, PartialEq, Eq, Structural)]
pub enum ExitStatusKind {
    /// A stopped process was continued.
    Continued,
    /// A signal killed the process, which left a core dump.
    Dumped,
    /// The process exited by itself.
    Exited,
    /// A signal killed the process.
    Killed,
    /// A signal stopped the process, which is still alive.
    Stopped,
    /// The operating system reported something that has no other kind.
    Uncategorized,
}

impl ExitStatusKind {
    /// The kind that a disposition code of the wait result stands for on a
    /// system that numbers the dispositions as `codes` says. A code that is
    /// none of them has no kind of its own.
    pub open spec fn of_code(code: int, codes: Codes) -> Self {
        if code == codes.continued {
            ExitStatusKind::Continued
        } else if code == codes.dumped {
            ExitStatusKind::Dumped
        } else if code == codes.exited {
            ExitStatusKind::Exited
        } else if code == codes.killed {
            ExitStatusKind::Killed
        } else if code == codes.stopped {
            ExitStatusKind::Stopped
        } else {
            ExitStatusKind::Uncategorized
        }
    }

    /// Classifies the disposition code of a wait result.
    pub fn new(raw: i32, codes: Codes) -> (kind: Self)
        ensures
            kind == Self::of_code(raw as int, codes),
    {
        if raw == codes.continued {
            ExitStatusKind::Continued
        } else if raw == codes.dumped {
            ExitStatusKind::Dumped
        } else if raw == codes.exited {
            ExitStatusKind::Exited
        } else if raw == codes.killed {
            ExitStatusKind::Killed
        } else if raw == codes.stopped {
            ExitStatusKind::Stopped
        } else {
            ExitStatusKind::Uncategorized
        }
    }
}

/// What the standard library reports of a wait status: each field is the
/// answer of the accessor of the same name.
#[derive(Clone, Copy, Debug, PartialEq, Eq, Structural)]
pub struct StdStatus {
    /// The exit code, if the process exited by itself.
    pub code: Option<i32>,
    /// The signal that killed the process, if one did.
    pub signal: Option<i32>,
    /// Whether the process left a core dump.
    pub core_dumped: bool,
    /// The signal that stopped the process, if one did.
    pub stopped_signal: Option<i32>,
    /// Whether the process was continued after a stop.
    pub continued: bool,
    /// The wait status as the operating system wrote it.
    pub raw: i32,
}

/// The status of a process: a kind, and the exit code or signal number that
/// goes with it.
#[derive(Clone, Copy, Debug, PartialEq, Eq, Structural)]
pub struct ExitStatus {
    /// An exit code for `Exited`, a signal number for `Killed`, `Dumped` and
    /// `Stopped`, the raw status otherwise.
    pub value: i32,
    /// What became of the process.
    pub kind: ExitStatusKind,
}

impl StdStatus {
    /// What holds of every report of the standard library: a process has
    /// either exited with a code, or was killed by a signal, or was stopped
    /// by a signal, or was continued, or none of these, and only a killed
    /// process has left a core dump.
    pub open spec fn wf(self) -> bool {
        &&& self.code.is_some() ==> self.signal.is_none() && self.stopped_signal.is_none()
            && !self.continued
        &&& self.signal.is_some() ==> self.stopped_signal.is_none() && !self.continued
        &&& self.stopped_signal.is_some() ==> !self.continued
        &&& self.core_dumped ==> self.signal.is_some()
    }
}

impl ExitStatus {
    /// The status that a wait result with disposition code `si_code` and
    /// status field `si_status` describes, on a system that numbers the
    /// dispositions as `codes` says.
    pub fn new(si_code: i32, si_status: i32, codes: Codes) -> (status: Self)
        ensures
            status.kind == ExitStatusKind::of_code(si_code as int, codes),
            status.value == si_status,
    {
        ExitStatus { value: si_status, kind: ExitStatusKind::new(si_code, codes) }
    }

    /// The status that the standard library's report amounts to: the first
    /// of exit code, killing signal and stopping signal that is present
    /// decides, and the raw status is kept where none is.
    pub open spec fn of_std(status: StdStatus) -> Self {
        if let Some(exit_code) = status.code {
            ExitStatus { value: exit_code, kind: ExitStatusKind::Exited }
        } else if let Some(signal) = status.signal {
            ExitStatus {
                value: signal,
                kind: if status.core_dumped {
                    ExitStatusKind::Dumped
                } else {
                    ExitStatusKind::Killed
                },
            }
        } else if let Some(signal) = status.stopped_signal {
            ExitStatus { value: signal, kind: ExitStatusKind::Stopped }
        } else {
            ExitStatus {
                value: status.raw,
                kind: if status.continued {
                    ExitStatusKind::Continued
                } else {
                    ExitStatusKind::Uncategorized
                },
            }
        }
    }

    /// Converts the standard library's report of a wait status. The
    /// converted status answers as the report does wherever the report is
    /// one that the standard library can give.
    pub fn from_std(status: StdStatus) -> (converted: Self)
        ensures
            converted == Self::of_std(status),
            status.wf() ==> {
                &&& converted.spec_code() == status.code
                &&& converted.spec_signal() == status.signal
                &&& converted.spec_stopped_signal() == status.stopped_signal
                &&& (converted.kind == ExitStatusKind::Continued) == status.continued
                &&& (converted.kind == ExitStatusKind::Dumped) == status.core_dumped
            },
    {
        if let Some(exit_code) = status.code {
            ExitStatus { value: exit_code, kind: ExitStatusKind::Exited }
        } else if let Some(signal) = status.signal {
            let kind = if status.core_dumped {
                ExitStatusKind::Dumped
            } else {
                ExitStatusKind::Killed
            };
            ExitStatus { value: signal, kind }
        } else if let Some(signal) = status.stopped_signal {
            ExitStatus { value: signal, kind: ExitStatusKind::Stopped }
        } else {
            let kind = if status.continued {
                ExitStatusKind::Continued
            } else {
                ExitStatusKind::Uncategorized
            };
            ExitStatus { value: status.raw, kind }
        }
    }

    /// The exit code, if the process exited by itself.
    pub open spec fn spec_code(self) -> Option<i32> {
        if self.kind == ExitStatusKind::Exited {
            Some(self.value)
        } else {
            None
        }
    }

    /// The signal that ended the process, if one did.
    pub open spec fn spec_signal(self) -> Option<i32> {
        if self.kind == ExitStatusKind::Dumped || self.kind == ExitStatusKind::Killed {
            Some(self.value)
        } else {
            None
        }
    }

    /// The signal that stopped the process, if one did.
    pub open spec fn spec_stopped_signal(self) -> Option<i32> {
        if self.kind == ExitStatusKind::Stopped {
            Some(self.value)
        } else {
            None
        }
    }

    /// Whether the process exited by itself with the code for success.
    pub open spec fn spec_success(self) -> bool {
        self.kind == ExitStatusKind::Exited && self.value == 0
    }

    /// Whether the process exited by itself with the code for success.
    #[verifier::when_used_as_spec(spec_success)]
    pub fn success(self) -> (yes: bool)
        ensures
            yes == self.spec_success(),
    {
        match self.code() {
            Some(code) => code == exit_success(),
            None => false,
        }
    }

    /// Whether a stopped process was continued.
    pub fn continued(self) -> (yes: bool)
        ensures
            yes == (self.kind == ExitStatusKind::Continued),
    {
        self.kind == ExitStatusKind::Continued
    }

    /// Whether the process left a core dump.
    pub fn core_dumped(self) -> (yes: bool)
        ensures
            yes == (self.kind == ExitStatusKind::Dumped),
    {
        self.kind == ExitStatusKind::Dumped
    }

    /// The exit code, if the process exited by itself.
    #[verifier::when_used_as_spec(spec_code)]
    pub fn code(self) -> (code: Option<i32>)
        ensures
            code == self.spec_code(),
    {
        if self.kind == ExitStatusKind::Exited {
            Some(self.value)
        } else {
            None
        }
    }

    /// The signal that ended the process, if one did.
    #[verifier::when_used_as_spec(spec_signal)]
    pub fn signal(self) -> (signal: Option<i32>)
        ensures
            signal == self.spec_signal(),
    {
        if self.kind == ExitStatusKind::Dumped || self.kind == ExitStatusKind::Killed {
            Some(self.value)
        } else {
            None
        }
    }

    /// The signal that stopped the process, if one did.
    #[verifier::when_used_as_spec(spec_stopped_signal)]
    pub fn stopped_signal(self) -> (signal: Option<i32>)
        ensures
            signal == self.spec_stopped_signal(),
    {
        if self.kind == ExitStatusKind::Stopped {
            Some(self.value)
        } else {
            None
        }
    }
}

/// The digits of a number in decimal notation, the highest first.
pub open spec fn digits(value: nat) -> Seq<char>
    decreases value,
{
    if value < 10 {
        seq!["0123456789"@[value as int]]
    } else {
        digits(value / 10).push("0123456789"@[(value % 10) as int])
    }
}

/// The characters that `value` is written with in decimal notation: its
/// digits, behind a minus sign if it is negative.
pub open spec fn decimal(value: int) -> Seq<char> {
    if value < 0 {
        seq!['-'] + digits((-value) as nat)
    } else {
        digits(value as nat)
    }
}

/// Writes `before`, the number `value` and `after` one behind the other,
/// with the standard library's `format!`, which writes an integer in
/// decimal notation.
#[verifier::external_body]
fn render(before: &str, value: i32, after: &str) -> (text: String)
    ensures
        text@ == before@ + decimal(value as int) + after@,
{
    format!("{}{}{}", before, value, after)
}

impl ExitStatus {
    /// The status in words, with the exit code or signal number where the
    /// kind has one.
    pub open spec fn description(self) -> Seq<char> {
        match self.kind {
            ExitStatusKind::Continued => "continued (WIFCONTINUED)"@,
            ExitStatusKind::Dumped => "signal: "@ + decimal(self.value as int)
                + " (core dumped)"@,
            ExitStatusKind::Exited => "exit code: "@ + decimal(self.value as int),
            ExitStatusKind::Killed => "signal: "@ + decimal(self.value as int),
            ExitStatusKind::Stopped => "stopped (not terminated) by signal: "@ + decimal(
                self.value as int,
            ),
            ExitStatusKind::Uncategorized => "uncategorized wait status: "@ + decimal(
                self.value as int,
            ),
        }
    }

    /// Describes the status in words.
    pub fn describe(&self) -> (text: String)
        ensures
            text@ == self.description(),
    {
        proof {
            reveal_strlit("");
        }
        let text = match self.kind {
            ExitStatusKind::Continued => "continued (WIFCONTINUED)".to_owned(),
            ExitStatusKind::Dumped => render("signal: ", self.value, " (core dumped)"),
            ExitStatusKind::Exited => render("exit code: ", self.value, ""),
            ExitStatusKind::Killed => render("signal: ", self.value, ""),
            ExitStatusKind::Stopped => render(
                "stopped (not terminated) by signal: ",
                self.value,
                "",
            ),
            ExitStatusKind::Uncategorized => render(
                "uncategorized wait status: ",
                self.value,
                "",
            ),
        };
        assert(text@ =~= self.description());
        text
    }
}

} // verus!
