//! How long to wait for the socket, and what to make of a wait that is over.
use vstd::prelude::*;

use crate::error::{IoError, IoErrorKind, IoErrorView};

verus! {

/// How long an acquire waits for its own reply before it calls the request
/// queued: a quarter of a second, in nanoseconds.
///
/// A grant or a refusal comes back in milliseconds; a queued request gets no
/// reply at all, and a short wait keeps it from stalling the caller.
pub const ACQUIRE_REPLY_WAIT_NANOS: u128 = 250_000_000;

/// One millisecond, in nanoseconds.
pub const NANOS_PER_MILLI: u128 = 1_000_000;

/// The timeout of poll(2) for a wait of so many nanoseconds, without a limit
/// for `None`: whole milliseconds, as many as the argument can hold.
pub open spec fn poll_timeout(timeout: Option<u128>) -> i32 {
    match timeout {
        None => (-1) as i32,
        Some(nanos) => if nanos / NANOS_PER_MILLI > i32::MAX {
            i32::MAX
        } else {
            (nanos / NANOS_PER_MILLI) as i32
        },
    }
}

/// The timeout of poll(2) for a wait of so many nanoseconds. `None` waits until
/// the socket can be read; anything under a millisecond polls once.
pub fn poll_timeout_ms(timeout: Option<u128>) -> (timeout_ms: i32)
    ensures
        timeout_ms == poll_timeout(timeout),
{
    match timeout {
        None => -1,
        Some(nanos) => {
            let millis: u128 = nanos / NANOS_PER_MILLI;
            if millis > i32::MAX as u128 {
                i32::MAX
            } else {
                millis as i32
            }
        },
    }
}

/// What is left of an acquire's wait for its reply.
pub open spec fn reply_wait_left(elapsed: u128) -> u128 {
    if elapsed < ACQUIRE_REPLY_WAIT_NANOS {
        (ACQUIRE_REPLY_WAIT_NANOS - elapsed) as u128
    } else {
        0
    }
}

/// What is left of an acquire's wait so many nanoseconds after its request was
/// written.
pub fn reply_wait_left_nanos(elapsed: u128) -> (left: u128)
    ensures
        left == reply_wait_left(elapsed),
{
    if elapsed < ACQUIRE_REPLY_WAIT_NANOS {
        ACQUIRE_REPLY_WAIT_NANOS - elapsed
    } else {
        0
    }
}

/// What a finished wait means.
#[derive(Debug)]
pub enum Readiness {
    /// The socket can be read.
    Readable,
    /// Nothing happened: the time is up, or a signal cut a bounded wait short.
    Quiet,
    /// A signal cut an unbounded wait short: wait again.
    Again,
    /// The wait failed.
    Failed {
        /// The failure.
        error: IoError,
    },
}

/// A [`Readiness`] with its text as a sequence.
#[verifier::ext_equal]
pub enum ReadinessView {
    Readable,
    Quiet,
    Again,
    Failed { error: IoErrorView },
}

impl View for Readiness {
    type V = ReadinessView;

    open spec fn view(&self) -> ReadinessView {
        match *self {
            Readiness::Readable => ReadinessView::Readable,
            Readiness::Quiet => ReadinessView::Quiet,
            Readiness::Again => ReadinessView::Again,
            Readiness::Failed { error } => ReadinessView::Failed { error: error@ },
        }
    }
}

/// What a wait means that ended without a failure.
pub open spec fn ready_meaning(ready: i32) -> ReadinessView {
    if ready > 0 {
        ReadinessView::Readable
    } else {
        ReadinessView::Quiet
    }
}

/// What a wait means that ended in a failure.
pub open spec fn failure_meaning(bounded: bool, error: IoErrorView) -> ReadinessView {
    if error.kind != IoErrorKind::Interrupted {
        ReadinessView::Failed { error }
    } else if bounded {
        ReadinessView::Quiet
    } else {
        ReadinessView::Again
    }
}

/// Reads the result of poll(2): the number of ready descriptors, or the
/// failure. `bounded` says whether the wait had a limit.
pub fn poll_readable(bounded: bool, polled: Result<i32, IoError>) -> (readiness: Readiness)
    ensures
        readiness@ == match polled {
            Ok(ready) => ready_meaning(ready),
            Err(error) => failure_meaning(bounded, error@),
        },
{
    match polled {
        Ok(ready) => if ready > 0 {
            Readiness::Readable
        } else {
            Readiness::Quiet
        },
        Err(error) => if error.kind != IoErrorKind::Interrupted {
            Readiness::Failed { error }
        } else if bounded {
            Readiness::Quiet
        } else {
            Readiness::Again
        },
    }
}

} // verus!
