//! Opening a device with a bounded number of attempts.
//!
//! A device that was just plugged in, or is still held by another program, may refuse to
//! open. The caller tries up to ten times and rests after every refusal; the state kept
//! here says whether another attempt is due and which error to report when none is.

use vstd::prelude::*;
use crate::error::Error;

verus! {

/// The number of attempts at opening a device.
pub const OPEN_ATTEMPTS: u32 = 10;

/// The rest after a refused attempt, in milliseconds.
pub const OPEN_PAUSE_MS: u64 = 200;

/// The state of opening one device: the attempts that were refused, and the last refusal.
#[derive(Debug)]
pub struct OpenRetry {
    /// The number of refused attempts.
    pub failures: u32,
    /// The error of the last refused attempt; "key not found" before the first.
    pub last_error: Error,
}

impl OpenRetry {
    /// The state before the first attempt.
    pub open spec fn spec_new() -> OpenRetry {
        OpenRetry { failures: 0, last_error: Error::KeyNotFound }
    }

    /// Whether another attempt is due: fewer than ten were refused.
    pub open spec fn spec_may_attempt(self) -> bool {
        self.failures < OPEN_ATTEMPTS
    }

    /// The state after one more refusal, with `error`.
    pub open spec fn spec_record(self, error: Error) -> OpenRetry {
        OpenRetry {
            failures: if self.failures < OPEN_ATTEMPTS {
                (self.failures + 1) as u32
            } else {
                self.failures
            },
            last_error: error,
        }
    }

    /// The state after the attempts that were refused with `errors`, in this order.
    pub open spec fn spec_after(errors: Seq<Error>) -> OpenRetry
        decreases errors.len(),
    {
        if errors.len() == 0 {
            OpenRetry::spec_new()
        } else {
            OpenRetry::spec_after(errors.drop_last()).spec_record(errors.last())
        }
    }

    /// The state before the first attempt: nothing refused yet, and "key not found" as the
    /// error to report should no attempt ever run.
    pub fn new() -> (state: OpenRetry)
        ensures
            state == OpenRetry::spec_new(),
    {
        OpenRetry { failures: 0, last_error: Error::KeyNotFound }
    }

    /// Whether another attempt is due.
    pub fn may_attempt(&self) -> (due: bool)
        ensures
            due == self.spec_may_attempt(),
    {
        self.failures < OPEN_ATTEMPTS
    }

    /// Takes note of a refused attempt and says how long to rest before going on.
    pub fn record_failure(&mut self, error: Error) -> (pause_ms: u64)
        ensures
            *final(self) == old(self).spec_record(error),
            pause_ms == OPEN_PAUSE_MS,
    {
        if self.failures < OPEN_ATTEMPTS {
            self.failures = self.failures + 1;
        }
        self.last_error = error;
        OPEN_PAUSE_MS
    }

    /// Ends the opening without a device: the error to report is that of the last
    /// refused attempt.
    pub fn give_up(self) -> (error: Error)
        ensures
            error == self.last_error,
    {
        self.last_error
    }
}

/// While every attempt is refused, another one is due after each of the first nine
/// refusals and none after the tenth: the opener runs exactly ten times. The error that
/// is reported in the end is that of the last attempt.
pub proof fn lemma_retry_bound(errors: Seq<Error>)
    requires
        1 <= errors.len() <= OPEN_ATTEMPTS,
    ensures
        OpenRetry::spec_new().spec_may_attempt(),
        OpenRetry::spec_after(errors).failures == errors.len(),
        OpenRetry::spec_after(errors).spec_may_attempt() <==> errors.len() < OPEN_ATTEMPTS,
        OpenRetry::spec_after(errors).last_error == errors.last(),
    decreases errors.len(),
{
    if errors.len() > 1 {
        lemma_retry_bound(errors.drop_last());
    } else {
        assert(OpenRetry::spec_after(errors.drop_last()) == OpenRetry::spec_new());
    }
}

} // verus!
