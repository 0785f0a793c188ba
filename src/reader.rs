use vstd::prelude::*;

use crate::error::{ScaleError, ScaleResult};
use crate::parser::{parse_input_stream, parse_spec};
use crate::weight::{weight_text, Weight};

verus! {

/// Length of a scale's HID input report.
pub const DATA_SIZE: usize = 6;

/// One raw HID input report.
pub type ByteBuffer = [u8; DATA_SIZE];

/// Timed reads made by one `read` before it gives up.
pub const RECONNECT_ATTEMPTS: usize = 50;

/// Device timeout of each timed read, in milliseconds.
pub const READ_TIMEOUT_MS: i32 = 10;

/// Pause between two timed reads, in milliseconds.
pub const RETRY_DELAY_MS: u64 = 10;

/// The state the scale reports.
#[derive(Debug, Clone, Copy, PartialEq, Eq, Structural)]
pub enum ScaleStatus {
    NotConnected,
    Fault,
    Stable,
    InMotion,
    UnderZero,
    OverWeight,
    RequiresCalibration,
    RequiresTaring,
}

/// The statuses that call for calibration or taring before a reading counts.
pub open spec fn needs_calibration_spec(status: ScaleStatus) -> bool {
    status == ScaleStatus::UnderZero || status == ScaleStatus::RequiresCalibration
        || status == ScaleStatus::RequiresTaring
}

/// Human-readable name of a status.
pub open spec fn status_text(status: ScaleStatus) -> Seq<char> {
    match status {
        ScaleStatus::NotConnected => "Not Connected"@,
        ScaleStatus::Fault => "Fault"@,
        ScaleStatus::Stable => "Stable"@,
        ScaleStatus::InMotion => "In Motion"@,
        ScaleStatus::UnderZero => "Under Zero"@,
        ScaleStatus::OverWeight => "Over Weight"@,
        ScaleStatus::RequiresCalibration => "Requires Calibration"@,
        ScaleStatus::RequiresTaring => "Requires Taring"@,
    }
}

impl ScaleStatus {
    /// Whether a reading in this status can be trusted: neither a fault nor
    /// a state that needs calibration.
    pub fn is_valid(&self) -> (r: bool)
        ensures
            r == (*self != ScaleStatus::Fault && !needs_calibration_spec(*self)),
    {
        *self != ScaleStatus::Fault && !self.needs_calibration()
    }

    /// Whether the scale must be calibrated or tared (under zero,
    /// requires calibration, requires taring).
    pub fn needs_calibration(&self) -> (r: bool)
        ensures
            r == needs_calibration_spec(*self),
    {
        match self {
            ScaleStatus::UnderZero | ScaleStatus::RequiresCalibration
            | ScaleStatus::RequiresTaring => true,
            _ => false,
        }
    }
}

impl ScaleStatus {
    /// The status as text, e.g. "In Motion".
    pub fn to_string(&self) -> (r: String)
        ensures
            r@ == status_text(*self),
    {
        let s: &str = match self {
            ScaleStatus::NotConnected => "Not Connected",
            ScaleStatus::Fault => "Fault",
            ScaleStatus::Stable => "Stable",
            ScaleStatus::InMotion => "In Motion",
            ScaleStatus::UnderZero => "Under Zero",
            ScaleStatus::OverWeight => "Over Weight",
            ScaleStatus::RequiresCalibration => "Requires Calibration",
            ScaleStatus::RequiresTaring => "Requires Taring",
        };
        s.to_string()
    }
}

/// A reading as text: its status, " - ", then its weight or "No Reading".
pub open spec fn reading_text(r: ScaleReading) -> Seq<char> {
    status_text(r.status) + " - "@ + match r.weight {
        Some(w) => weight_text(w),
        None => "No Reading"@,
    }
}

/// One decoded report.
#[derive(Debug, Clone, Copy, PartialEq)]
pub struct ScaleReading {
    pub report_id: u8,
    pub status: ScaleStatus,
    pub data_scaling: u8,
    /// Absent when the status disqualifies the reading; absence is not zero.
    pub weight: Option<Weight>,
}


impl ScaleReading {
    /// The reading as text, e.g. "In Motion - 0.35lbs".
    pub fn to_string(&self) -> (r: String)
        ensures
            r@ == reading_text(*self),
    {
        let mut text = self.status.to_string();
        text.append(" - ");
        let weight = match self.weight {
            Some(w) => w.to_string(),
            None => "No Reading".to_string(),
        };
        text.append(weight.as_str());
        proof {
            reveal_strlit(" - ");
            reveal_strlit("No Reading");
            assert(text@ =~= reading_text(*self));
        }
        text
    }
}

/// What a read session does after one timed read.
#[derive(Debug)]
pub enum ReadStep {
    /// Wait `RETRY_DELAY_MS` and make another timed read.
    Retry,
    /// The read is over, with this result.
    Done(ScaleResult<ScaleReading>),
}

/// The decision after the timed read numbered `attempts` (from 0) returned
/// `read` (the byte count, or `None` on a transport error) into `bytes`:
/// a full report is decoded; otherwise retry, until the budget is spent.
pub open spec fn read_step(attempts: nat, read: Option<usize>, bytes: Seq<u8>) -> ReadStep {
    if read == Some(DATA_SIZE) {
        ReadStep::Done(parse_spec(bytes))
    } else if attempts >= RECONNECT_ATTEMPTS - 1 {
        ReadStep::Done(Err(ScaleError::ReadError))
    } else {
        ReadStep::Retry
    }
}

/// The bounded retry of one `read` of a scale: counts the timed reads made
/// and decides, after each, whether to decode, retry or give up.
pub struct ReadRetry {
    attempts: usize,
}

impl View for ReadRetry {
    type V = nat;

    /// The number of timed reads made so far.
    closed spec fn view(&self) -> nat {
        self.attempts as nat
    }
}

impl ReadRetry {
    /// A read with no timed read made yet.
    pub fn new() -> (r: ReadRetry)
        ensures
            r@ == 0,
    {
        ReadRetry { attempts: 0 }
    }

    /// The number of timed reads made so far.
    pub fn attempts(&self) -> (r: usize)
        ensures
            r == self@,
    {
        self.attempts
    }

    /// Records one timed read that returned `read` into `bytes` and decides
    /// what follows it.
    pub fn on_read(&mut self, read: Option<usize>, bytes: &ByteBuffer) -> (step: ReadStep)
        ensures
            step == read_step(old(self)@, read, bytes@),
            final(self)@ == if old(self)@ < RECONNECT_ATTEMPTS {
                old(self)@ + 1
            } else {
                old(self)@
            },
    {
        let attempts = self.attempts;
        if self.attempts < RECONNECT_ATTEMPTS {
            self.attempts = self.attempts + 1;
        }
        match read {
            Some(size) if size == DATA_SIZE => ReadStep::Done(parse_input_stream(*bytes)),
            _ => {
                if attempts >= RECONNECT_ATTEMPTS - 1 {
                    ReadStep::Done(Err(ScaleError::ReadError))
                } else {
                    ReadStep::Retry
                }
            },
        }
    }
}

/// A read whose timed reads never return a full report gives up after the
/// retry budget, with `ReadError` and no other error: each of the first
/// `RECONNECT_ATTEMPTS - 1` reads asks for a retry, and the last one ends
/// the read with `ReadError`.
pub proof fn lemma_read_exhaustion(reads: Seq<Option<usize>>)
    requires
        reads.len() == RECONNECT_ATTEMPTS,
        forall|i: int| 0 <= i < reads.len() ==> reads[i] != Some(DATA_SIZE),
    ensures
        forall|i: int, bytes: Seq<u8>|
            0 <= i < RECONNECT_ATTEMPTS - 1 ==> #[trigger] read_step(i as nat, reads[i], bytes)
                == ReadStep::Retry,
        forall|bytes: Seq<u8>|
            #[trigger] read_step((RECONNECT_ATTEMPTS - 1) as nat, reads[RECONNECT_ATTEMPTS - 1], bytes)
                == ReadStep::Done(Err(ScaleError::ReadError)),
{
}

} // verus!
