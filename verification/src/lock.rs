//! The decisions taken while locking a keyboard: how a failed grab is
//! retried, what each failure is reported as, and when the event pump that
//! swallows keystrokes stops. Grabbing, sleeping and reading events is done
//! by the caller.

use vstd::prelude::*;
use vstd::string::*;

verus! {

/// The operating-system error code for a busy device (`EBUSY`).
pub const DEVICE_BUSY_OS_ERROR: i32 = 16;

/// How many times a busy device is grabbed before giving up.
pub const GRAB_ATTEMPTS: u32 = 10;

/// Milliseconds to wait after a busy grab.
pub const GRAB_RETRY_PAUSE_MS: u64 = 25;

/// Milliseconds to wait between two reads of the locked device.
pub const EVENT_POLL_PAUSE_MS: u64 = 10;

/// The stage of locking a keyboard at which an error occurred.
#[derive(Clone, Copy, Debug, PartialEq, Eq, Structural)]
pub enum LockStage {
    /// Opening the device node.
    Open,
    /// Switching the device to non-blocking reads.
    Configure,
    /// Taking the device for exclusive use.
    Grab,
}

/// The text that starts the report of a failure at `stage`.
pub open spec fn stage_prefix(stage: LockStage) -> Seq<char> {
    match stage {
        LockStage::Open => "Could not open device: "@,
        LockStage::Configure => "Could not configure device: "@,
        LockStage::Grab => "Could not lock keyboard: "@,
    }
}

/// The report of a failure at `stage` whose error reads `detail`.
pub fn lock_failure_message(stage: LockStage, detail: &str) -> (message: String)
    ensures
        message@ == stage_prefix(stage) + detail@,
{
    let mut message = match stage {
        LockStage::Open => "Could not open device: ".to_owned(),
        LockStage::Configure => "Could not configure device: ".to_owned(),
        LockStage::Grab => "Could not lock keyboard: ".to_owned(),
    };
    message.append(detail);
    message
}

/// An input/output error: its operating-system code, if any, and its text.
pub struct IoFailure {
    pub os_code: Option<i32>,
    pub message: String,
}

/// The outcome of one attempt to grab the device.
pub enum GrabOutcome {
    Grabbed,
    Failed(IoFailure),
}

/// What to do after a grab attempt.
pub enum GrabStep {
    /// The keyboard is locked.
    Locked,
    /// Give up at once with this report.
    Fail(String),
    /// Wait `GRAB_RETRY_PAUSE_MS`, then try again.
    PauseThenRetry,
    /// Wait `GRAB_RETRY_PAUSE_MS`, then give up with this report.
    PauseThenFail(String),
}

/// The device refused the grab because something else holds it.
pub open spec fn is_busy(failure: IoFailure) -> bool {
    failure.os_code == Some(DEVICE_BUSY_OS_ERROR)
}

/// Decides what follows grab attempt number `attempt` (counted from 1): a
/// busy device is retried after a pause, up to `GRAB_ATTEMPTS` attempts;
/// any other error ends the locking at once.
pub fn next_grab_step(attempt: u32, outcome: GrabOutcome) -> (step: GrabStep)
    requires
        1 <= attempt <= GRAB_ATTEMPTS,
    ensures
        match outcome {
            GrabOutcome::Grabbed => step is Locked,
            GrabOutcome::Failed(f) => if is_busy(f) {
                if attempt < GRAB_ATTEMPTS {
                    step is PauseThenRetry
                } else {
                    step matches GrabStep::PauseThenFail(m) && m@ == stage_prefix(LockStage::Grab)
                        + f.message@
                }
            } else {
                step matches GrabStep::Fail(m) && m@ == stage_prefix(LockStage::Grab)
                    + f.message@
            },
        },
{
    match outcome {
        GrabOutcome::Grabbed => GrabStep::Locked,
        GrabOutcome::Failed(f) => {
            let busy = match f.os_code {
                Some(code) => code == DEVICE_BUSY_OS_ERROR,
                None => false,
            };
            if busy {
                if attempt < GRAB_ATTEMPTS {
                    GrabStep::PauseThenRetry
                } else {
                    GrabStep::PauseThenFail(lock_failure_message(LockStage::Grab, f.message.as_str()))
                }
            } else {
                GrabStep::Fail(lock_failure_message(LockStage::Grab, f.message.as_str()))
            }
        },
    }
}

/// The outcome of one read of the locked device.
pub enum FetchOutcome {
    /// Events were read (and are dropped).
    Events,
    /// Nothing was pending.
    NothingPending,
    /// The read failed with this error text.
    Failed(String),
}

/// What the event pump does after a read.
pub enum PumpStep {
    /// Wait `EVENT_POLL_PAUSE_MS`, then read again while locking is on.
    PauseThenContinue,
    /// Stop pumping, release the device and log this report.
    Stop(String),
}

/// The text that starts the report of a failed read.
pub open spec fn read_failure_prefix() -> Seq<char> {
    "Failed to read keyboard events: "@
}

/// Decides how the event pump goes on after a read: only a real read error
/// stops it.
pub fn after_fetch(outcome: FetchOutcome) -> (step: PumpStep)
    ensures
        match outcome {
            FetchOutcome::Failed(e) => step matches PumpStep::Stop(m) && m@ == read_failure_prefix()
                + e@,
            _ => step is PauseThenContinue,
        },
{
    match outcome {
        FetchOutcome::Failed(e) => {
            let mut m = "Failed to read keyboard events: ".to_owned();
            m.append(e.as_str());
            PumpStep::Stop(m)
        },
        _ => PumpStep::PauseThenContinue,
    }
}

/// Whether a low-level keyboard hook swallows a key event: the event is
/// meant for hooks (`code` is not negative) and the lock is running.
pub fn hook_swallows_key(code: i32, lock_running: bool) -> (swallow: bool)
    ensures
        swallow == (code >= 0 && lock_running),
{
    code >= 0 && lock_running
}

} // verus!
