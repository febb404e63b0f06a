//! The connect retry discipline shared by the named-pipe and Assuan
//! connectors: which failures may be retried, when the attempt cap fires,
//! and how a whole connect loop ends.

use vstd::prelude::*;

verus! {

/// Milliseconds slept between connect attempts.
pub const POLL_INTERVAL_MS: u64 = 200;

/// The attempt cap under limited polling.
pub const MAX_POLL_ATTEMPTS: u32 = 300;

/// Whether a pipe-open failure may be retried: only "file not found" (2)
/// and "pipe busy" (231) are.
pub open spec fn spec_pipe_retryable(os_code: u32) -> bool {
    os_code == 2 || os_code == 231
}

/// Decides [`spec_pipe_retryable`] for an OS error code.
pub fn pipe_error_retryable(os_code: u32) -> (r: bool)
    ensures
        r == spec_pipe_retryable(os_code),
{
    os_code == 2 || os_code == 231
}

/// What the connect loop does after one failed attempt.
#[derive(Debug, PartialEq, Eq, Structural)]
pub enum RetryDecision {
    /// Fail now with the connection error: polling is off, or the failure
    /// is not retryable.
    GiveUp,
    /// Fail now: the retry cap was reached after this many attempts.
    LimitReached { attempts: u32 },
    /// Sleep one poll interval and try again, this many attempts spent.
    RetryAfterDelay { attempts: u32 },
}

/// One retry decision. Polling must be on *and* the failure retryable for
/// the loop to go around; with `limited_poll` the cap is
/// [`MAX_POLL_ATTEMPTS`], otherwise the 32-bit maximum.
pub open spec fn spec_retry_step(
    poll: bool,
    retryable: bool,
    limited_poll: bool,
    attempts_before: int,
) -> RetryDecision {
    if !poll || !retryable {
        RetryDecision::GiveUp
    } else {
        let attempts = attempts_before + 1;
        let cap: int = if limited_poll {
            MAX_POLL_ATTEMPTS as int
        } else {
            u32::MAX as int
        };
        if attempts >= cap {
            RetryDecision::LimitReached { attempts: attempts as u32 }
        } else {
            RetryDecision::RetryAfterDelay { attempts: attempts as u32 }
        }
    }
}

/// Decides what to do after a failed connect attempt. A retryable error
/// with polling off still gives up: `poll` is consulted first.
pub fn connect_retry_step(poll: bool, retryable: bool, limited_poll: bool, attempts_before: u32) -> (d:
    RetryDecision)
    requires
        attempts_before < u32::MAX,
    ensures
        d == spec_retry_step(poll, retryable, limited_poll, attempts_before as int),
        d matches RetryDecision::RetryAfterDelay { attempts } ==> attempts < u32::MAX,
{
    if !poll || !retryable {
        RetryDecision::GiveUp
    } else {
        let attempts = attempts_before + 1;
        let cap: u32 = if limited_poll {
            MAX_POLL_ATTEMPTS
        } else {
            u32::MAX
        };
        if attempts >= cap {
            RetryDecision::LimitReached { attempts }
        } else {
            RetryDecision::RetryAfterDelay { attempts }
        }
    }
}

/// How a connect loop ends, over a finished record of attempt outcomes.
#[derive(Debug, PartialEq, Eq, Structural)]
pub enum ConnectEnd {
    /// This attempt (counted from zero) returned a handle or stream.
    Connected { attempt_index: usize },
    /// An attempt failed and the decision was to give up; carries the OS
    /// error code of that attempt.
    FailedConnect { os_code: u32 },
    /// The retry cap was reached after this many attempts.
    FailedLimit { attempts: u32 },
    /// The recorded outcomes ran out before any stop condition fired.
    Exhausted,
}

/// How the connect loop ends when attempt `i` and those after it see the
/// given outcomes (`None` is success, `Some` the OS error code), having
/// already spent `attempts` attempts. `pipe_rules` selects the named-pipe
/// retryability rule; the TCP connector retries every failure.
pub open spec fn spec_connect_loop(
    outcomes: Seq<Option<u32>>,
    poll: bool,
    limited_poll: bool,
    pipe_rules: bool,
    i: nat,
    attempts: int,
) -> ConnectEnd
    decreases outcomes.len() - i,
{
    if i >= outcomes.len() {
        ConnectEnd::Exhausted
    } else {
        match outcomes[i as int] {
            None => ConnectEnd::Connected { attempt_index: i as usize },
            Some(code) => {
                let retryable = if pipe_rules {
                    spec_pipe_retryable(code)
                } else {
                    true
                };
                match spec_retry_step(poll, retryable, limited_poll, attempts) {
                    RetryDecision::GiveUp => ConnectEnd::FailedConnect { os_code: code },
                    RetryDecision::LimitReached { attempts: a } => ConnectEnd::FailedLimit {
                        attempts: a,
                    },
                    RetryDecision::RetryAfterDelay { attempts: a } => spec_connect_loop(
                        outcomes,
                        poll,
                        limited_poll,
                        pipe_rules,
                        i + 1,
                        a as int,
                    ),
                }
            },
        }
    }
}

/// The connect loop, run over a finished record of attempt outcomes: ends
/// exactly as [`spec_connect_loop`] says from the first attempt on. The
/// real loop performs one OS call per outcome and sleeps between retries;
/// its decisions are these.
pub fn connect_loop_model(outcomes: &Vec<Option<u32>>, poll: bool, limited_poll: bool, pipe_rules: bool) -> (end:
    ConnectEnd)
    ensures
        end == spec_connect_loop(outcomes@, poll, limited_poll, pipe_rules, 0, 0),
{
    let mut i: usize = 0;
    let mut attempts: u32 = 0;
    while i < outcomes.len()
        invariant
            i <= outcomes@.len(),
            attempts < u32::MAX,
            spec_connect_loop(outcomes@, poll, limited_poll, pipe_rules, i as nat, attempts as int)
                == spec_connect_loop(outcomes@, poll, limited_poll, pipe_rules, 0, 0),
        decreases outcomes@.len() - i,
    {
        match outcomes[i] {
            None => {
                return ConnectEnd::Connected { attempt_index: i };
            },
            Some(code) => {
                let retryable = if pipe_rules {
                    pipe_error_retryable(code)
                } else {
                    true
                };
                match connect_retry_step(poll, retryable, limited_poll, attempts) {
                    RetryDecision::GiveUp => {
                        return ConnectEnd::FailedConnect { os_code: code };
                    },
                    RetryDecision::LimitReached { attempts: a } => {
                        return ConnectEnd::FailedLimit { attempts: a };
                    },
                    RetryDecision::RetryAfterDelay { attempts: a } => {
                        attempts = a;
                    },
                }
            },
        }
        i = i + 1;
    }
    ConnectEnd::Exhausted
}

} // verus!
