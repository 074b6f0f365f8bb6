//! Termination statuses, their normalised exit codes, and the outcome that a
//! supervision run reports.

use vstd::prelude::*;
use vstd::string::StringExecFns;

verus! {

/// How the operating system reported the end of a child process.
#[derive(Clone, Copy, Debug, PartialEq, Eq, Structural)]
pub enum ChildStatus {
    /// The child returned from `main` or called `exit` with this code.
    Exited(u32),
    /// The child was ended by the signal with this number.
    Signaled(u8),
    /// The raw status fits neither of the forms above.
    Other(i32),
    /// The child is gone but its status could not be collected.
    Undetermined,
}

/// The single non-negative number that stands for a termination status:
/// a normal exit keeps its code, death by signal `n` becomes `128 + n`,
/// and every other form has no code.
pub open spec fn normalized_code(status: ChildStatus) -> Option<u32> {
    match status {
        ChildStatus::Exited(code) => Some(code),
        ChildStatus::Signaled(signal) => Some((128 + signal) as u32),
        ChildStatus::Other(_) => None,
        ChildStatus::Undetermined => None,
    }
}

/// Normalises a termination status into one exit code, following the shell
/// convention for signal deaths. `None` means the status cannot be decoded.
pub fn get_exit_code(exit_status: ChildStatus) -> (code: Option<u32>)
    ensures
        code == normalized_code(exit_status),
{
    match exit_status {
        ChildStatus::Exited(code) => Some(code),
        ChildStatus::Signaled(signal) => {
            let wide: u32 = signal as u32;
            Some(wide + 128)
        },
        _ => None,
    }
}

/// Decoding depends on the status alone and is idempotent.
///
/// The same status always has the same code. A code, read again as the
/// code of a normal exit, stands for itself. And death by a signal never
/// has a code below 128, so it cannot be taken for a normal exit with one
/// of the codes 0 to 127.
pub proof fn decoding_is_stable(first: ChildStatus, second: ChildStatus)
    requires
        first == second,
    ensures
        normalized_code(first) == normalized_code(second),
        normalized_code(first) matches Some(code) ==> normalized_code(ChildStatus::Exited(code))
            == Some(code),
        first matches ChildStatus::Signaled(signal) ==> normalized_code(first) == Some(
            (128 + signal) as u32,
        ) && 128 <= 128 + signal <= 383,
{
}

/// Why a supervision run ended.
#[derive(Clone, Copy, Debug, PartialEq, Eq, Structural)]
pub enum ExitReason {
    /// The child ended on its own before any deadline.
    Finished,
    /// The run timeout elapsed and the child was shut down.
    TimedOut,
    /// A termination signal was latched and the child was shut down.
    SignaledToStop,
    /// An operation on the child failed or its status could not be decoded.
    InternalError,
}

/// Exit status of the supervisor after a child that finished on its own.
pub const EXIT_FINISHED: i32 = 0;

/// Exit status of the supervisor after a run timeout.
pub const EXIT_TIMED_OUT: i32 = 138;

/// Exit status of the supervisor after an externally requested stop.
pub const EXIT_SIGNALED_TO_STOP: i32 = 130;

/// Exit status of the supervisor after an internal error.
pub const EXIT_INTERNAL_ERROR: i32 = -1;

impl ExitReason {
    /// The exit status with which the supervisor itself ends.
    pub open spec fn exit_status_spec(self) -> i32 {
        match self {
            ExitReason::Finished => EXIT_FINISHED,
            ExitReason::TimedOut => EXIT_TIMED_OUT,
            ExitReason::SignaledToStop => EXIT_SIGNALED_TO_STOP,
            ExitReason::InternalError => EXIT_INTERNAL_ERROR,
        }
    }

    /// The exit status with which the supervisor itself ends: `0` after a
    /// child that finished, `138` after a timeout, `130` after a requested
    /// stop and `-1` after an internal error.
    pub fn exit_status(self) -> (status: i32)
        ensures
            status == self.exit_status_spec(),
            status == 0 <==> self == ExitReason::Finished,
    {
        match self {
            ExitReason::Finished => EXIT_FINISHED,
            ExitReason::TimedOut => EXIT_TIMED_OUT,
            ExitReason::SignaledToStop => EXIT_SIGNALED_TO_STOP,
            ExitReason::InternalError => EXIT_INTERNAL_ERROR,
        }
    }
}

/// What a supervision run reports: why it ended and, unless it failed, the
/// normalised exit code of the child.
#[derive(Clone, Copy, Debug, PartialEq, Eq, Structural)]
pub struct SupervisionOutcome {
    pub exit_reason: ExitReason,
    pub child_exit_code: Option<u32>,
}

impl SupervisionOutcome {
    /// The exit code is absent exactly when the run ended in an internal error.
    pub open spec fn wf(self) -> bool {
        self.child_exit_code is None <==> self.exit_reason == ExitReason::InternalError
    }

    /// The outcome of a run that ended for `reason` with the child's code.
    pub open spec fn completed_spec(reason: ExitReason, code: u32) -> SupervisionOutcome {
        SupervisionOutcome { exit_reason: reason, child_exit_code: Some(code) }
    }

    /// The outcome of a run that failed.
    pub open spec fn failed_spec() -> SupervisionOutcome {
        SupervisionOutcome { exit_reason: ExitReason::InternalError, child_exit_code: None }
    }

    /// The outcome of a run that failed: an internal error without a code.
    pub fn failed() -> (outcome: SupervisionOutcome)
        ensures
            outcome == Self::failed_spec(),
            outcome.wf(),
    {
        SupervisionOutcome { exit_reason: ExitReason::InternalError, child_exit_code: None }
    }

    /// The outcome of a child that ended on its own with `status`: finished
    /// with its normalised code, or an internal error where the status has
    /// none.
    pub open spec fn of_status(status: ChildStatus) -> SupervisionOutcome {
        match normalized_code(status) {
            Some(code) => Self::completed_spec(ExitReason::Finished, code),
            None => Self::failed_spec(),
        }
    }

    /// The line by which the run makes the child's exit code known: the
    /// code in decimal digits. A run without a code has no line.
    pub fn report_line(&self) -> (line: Option<String>)
        ensures
            match self.child_exit_code {
                Some(code) => line matches Some(text) && text@ == decimal(code as nat),
                None => line is None,
            },
    {
        match self.child_exit_code {
            Some(code) => Some(decimal_text(code)),
            None => None,
        }
    }

    /// The exit status with which the supervisor itself ends after this run.
    pub fn process_exit_status(&self) -> (status: i32)
        ensures
            status == self.exit_reason.exit_status_spec(),
    {
        self.exit_reason.exit_status()
    }
}

/// The character of a decimal digit.
pub open spec fn digit_char(digit: nat) -> char
    recommends
        digit < 10,
{
    if digit == 0 {
        '0'
    } else if digit == 1 {
        '1'
    } else if digit == 2 {
        '2'
    } else if digit == 3 {
        '3'
    } else if digit == 4 {
        '4'
    } else if digit == 5 {
        '5'
    } else if digit == 6 {
        '6'
    } else if digit == 7 {
        '7'
    } else if digit == 8 {
        '8'
    } else {
        '9'
    }
}

/// A number in decimal digits, without leading zeros.
pub open spec fn decimal(number: nat) -> Seq<char>
    decreases number,
{
    if number < 10 {
        seq![digit_char(number)]
    } else {
        decimal(number / 10).push(digit_char(number % 10))
    }
}

/// The text of one decimal digit.
fn digit_text(digit: u32) -> (text: &'static str)
    requires
        digit < 10,
    ensures
        text@ == seq![digit_char(digit as nat)],
{
    proof {
        reveal_strlit("0");
        reveal_strlit("1");
        reveal_strlit("2");
        reveal_strlit("3");
        reveal_strlit("4");
        reveal_strlit("5");
        reveal_strlit("6");
        reveal_strlit("7");
        reveal_strlit("8");
        reveal_strlit("9");
    }
    let text = if digit == 0 {
        "0"
    } else if digit == 1 {
        "1"
    } else if digit == 2 {
        "2"
    } else if digit == 3 {
        "3"
    } else if digit == 4 {
        "4"
    } else if digit == 5 {
        "5"
    } else if digit == 6 {
        "6"
    } else if digit == 7 {
        "7"
    } else if digit == 8 {
        "8"
    } else {
        "9"
    };
    assert(text@ =~= seq![digit_char(digit as nat)]);
    text
}

/// Writes a number in decimal digits, without leading zeros.
pub fn decimal_text(number: u32) -> (text: String)
    ensures
        text@ == decimal(number as nat),
    decreases number,
{
    if number < 10 {
        digit_text(number).to_owned()
    } else {
        let mut text = decimal_text(number / 10);
        text.append(digit_text(number % 10));
        assert(text@ =~= decimal(number as nat));
        text
    }
}

} // verus!
