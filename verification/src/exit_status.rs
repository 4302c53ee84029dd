//! How a child process ended, decoded from the integer that a POSIX `wait`
//! reports.

use vstd::prelude::*;

verus! {

/// Signal number that the runner reports for a process it killed on request.
pub const SIGKILL_CODE: i32 = 9;

/// Signal number that the runner reports for a process it killed because its
/// time was up. No operating system delivers a signal with this number.
pub const TIMEOUT_CODE: i32 = 64;

/// The way a process ended.
#[derive(Clone, Copy, Debug, PartialEq, Eq, Structural)]
pub enum ExitStatus {
    /// The process returned this code.
    ExitedWithCode(i32),
    /// The process was ended by this signal.
    TerminatedBySignal(i32),
    /// The process neither returned nor was killed (it was stopped or resumed).
    Unknown,
}

/// The low seven bits of a wait status: the signal that ended the process,
/// zero if it returned, 127 if it was stopped.
pub open spec fn wait_status_low(raw: i32) -> i32 {
    raw & 0x7f
}

/// The second byte of a wait status: the code the process returned.
pub open spec fn wait_status_code(raw: i32) -> i32 {
    (raw >> 8) & 0xff
}

/// What a wait status stands for.
pub open spec fn decode_wait_status(raw: i32) -> ExitStatus {
    if wait_status_low(raw) == 0 {
        ExitStatus::ExitedWithCode(wait_status_code(raw))
    } else if wait_status_low(raw) == 0x7f {
        ExitStatus::Unknown
    } else {
        ExitStatus::TerminatedBySignal(wait_status_low(raw))
    }
}

impl ExitStatus {
    /// The signal that ended the process, if one did.
    pub open spec fn spec_signal(self) -> Option<i32> {
        match self {
            ExitStatus::TerminatedBySignal(s) => Some(s),
            _ => None,
        }
    }

    /// The code the process returned, if it returned.
    pub open spec fn spec_code(self) -> Option<i32> {
        match self {
            ExitStatus::ExitedWithCode(c) => Some(c),
            _ => None,
        }
    }

    /// Decodes a wait status.
    pub fn from_raw(raw: i32) -> (status: ExitStatus)
        ensures
            status == decode_wait_status(raw),
    {
        let low: i32 = raw & 0x7f;
        if low == 0 {
            ExitStatus::ExitedWithCode((raw >> 8) & 0xff)
        } else if low == 0x7f {
            ExitStatus::Unknown
        } else {
            ExitStatus::TerminatedBySignal(low)
        }
    }

    /// The signal that ended the process, if one did.
    pub fn signal(&self) -> (s: Option<i32>)
        ensures
            s == self.spec_signal(),
    {
        match self {
            ExitStatus::TerminatedBySignal(s) => Some(*s),
            _ => None,
        }
    }

    /// The code the process returned, if it returned.
    pub fn code(&self) -> (c: Option<i32>)
        ensures
            c == self.spec_code(),
    {
        match self {
            ExitStatus::ExitedWithCode(c) => Some(*c),
            _ => None,
        }
    }
}

/// A wait status made of 128 plus a signal number decodes to that signal, for
/// every number a signal can have: no such value reads as a return code.
pub proof fn lemma_decode_high_bit_signal(signal: i32)
    requires
        0 < signal < 127,
    ensures
        decode_wait_status((128 + signal) as i32) == ExitStatus::TerminatedBySignal(signal),
{
    let raw: i32 = (128 + signal) as i32;
    assert(raw & 0x7f == signal) by (bit_vector)
        requires
            0 < signal < 127,
            raw == 128 + signal,
    ;
}

/// A status for a process that the runner itself ended, made from the wait
/// status that such a process would have left.
pub fn synthetic_exit_status(code: i32) -> (status: ExitStatus)
    ensures
        status == decode_wait_status(code),
        0 < code - 128 < 127 ==> status == ExitStatus::TerminatedBySignal((code - 128) as i32),
{
    proof {
        if 0 < code - 128 < 127 {
            lemma_decode_high_bit_signal((code - 128) as i32);
        }
    }
    ExitStatus::from_raw(code)
}

} // verus!
