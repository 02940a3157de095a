use vstd::prelude::*;

verus! {

/// Size in bytes of the background reader's working buffer, and of the
/// write scratch array when a socket is built.
pub const WORK_BUFFER_SIZE: usize = 32768;

/// The batch size that the reader asks of each foreign read, given the
/// maximum receive unit that the socket reported (`None` if the query failed).
pub open spec fn batch_size_of(max_packet: Option<i32>) -> int {
    match max_packet {
        Some(p) => if 0 < p <= WORK_BUFFER_SIZE {
            (WORK_BUFFER_SIZE as int / p as int) * p as int
        } else {
            WORK_BUFFER_SIZE as int
        },
        None => WORK_BUFFER_SIZE as int,
    }
}

/// The reader's batch size: the largest multiple of the reported maximum
/// receive unit that fits the working buffer, or the whole working buffer
/// when no usable unit is reported (none, not positive, or larger than the
/// buffer).
pub fn read_batch_size(max_packet: Option<i32>) -> (n: usize)
    ensures
        n == batch_size_of(max_packet),
        0 < n <= WORK_BUFFER_SIZE,
        match max_packet {
            Some(p) => 0 < p <= WORK_BUFFER_SIZE ==> (n as int) % (p as int) == 0 && n + p
                > WORK_BUFFER_SIZE,
            None => true,
        },
{
    match max_packet {
        Some(p) => {
            if 0 < p && p as usize <= WORK_BUFFER_SIZE {
                let unit = p as usize;
                proof {
                    let w = WORK_BUFFER_SIZE as int;
                    let u = unit as int;
                    assert(0 < u <= w);
                    assert((w / u) * u <= w && (w / u) * u > w - u && (w / u) >= 1)
                        by (nonlinear_arith)
                        requires
                            0 < u <= w,
                    {
                        vstd::arithmetic::div_mod::lemma_fundamental_div_mod(w, u);
                    }
                    assert(((w / u) * u) % u == 0) by {
                        vstd::arithmetic::div_mod::lemma_mod_multiples_basic(w / u, u);
                    }
                }
                let n = (WORK_BUFFER_SIZE / unit) * unit;
                n
            } else {
                WORK_BUFFER_SIZE
            }
        },
        None => WORK_BUFFER_SIZE,
    }
}

/// What one foreign blocking read came back with.
#[derive(Clone, Copy, Debug, PartialEq, Eq, Structural)]
pub enum ReadOutcome {
    /// The read returned this length without raising.
    Returned(i32),
    /// The read raised an exception; `reports_closure` tells whether its
    /// message says that the socket was closed.
    Raised { reports_closure: bool },
}

/// What the background reader does next.
#[derive(Clone, Copy, Debug, PartialEq, Eq, Structural)]
pub enum ReaderAction {
    /// Append this many bytes of the working buffer to the queue, notify
    /// the callback with the count, and read again.
    Deliver(usize),
    /// Read again at once.
    Retry,
    /// Ask the foreign socket whether it is still connected.
    CheckConnection,
    /// Close the foreign socket (best effort), notify the callback of the
    /// end of the stream, and stop.
    CloseAndFinish,
    /// Notify the callback of the end of the stream, and stop.
    Finish,
    /// Stop without notifying: the connectivity query itself failed.
    Abort,
}

/// Whether the reader stops after this action.
pub open spec fn is_terminal(a: ReaderAction) -> bool {
    a == ReaderAction::CloseAndFinish || a == ReaderAction::Finish || a == ReaderAction::Abort
}

/// The reader's decision after one foreign read.
pub open spec fn action_after_read(o: ReadOutcome) -> ReaderAction {
    match o {
        ReadOutcome::Returned(len) => if len > 0 {
            ReaderAction::Deliver(len as usize)
        } else {
            ReaderAction::Retry
        },
        ReadOutcome::Raised { reports_closure } => if reports_closure {
            ReaderAction::CloseAndFinish
        } else {
            ReaderAction::CheckConnection
        },
    }
}

/// Decides what follows one foreign read: a positive length is delivered,
/// a length of zero or less is retried, an exception whose message reports
/// closure ends the stream, and any other exception leads to a
/// connectivity check.
pub fn after_read(o: ReadOutcome) -> (a: ReaderAction)
    ensures
        a == action_after_read(o),
        a matches ReaderAction::Deliver(n) ==> n > 0,
{
    match o {
        ReadOutcome::Returned(len) => {
            if len > 0 {
                ReaderAction::Deliver(len as usize)
            } else {
                ReaderAction::Retry
            }
        },
        ReadOutcome::Raised { reports_closure } => {
            if reports_closure {
                ReaderAction::CloseAndFinish
            } else {
                ReaderAction::CheckConnection
            }
        },
    }
}

/// The reader's decision after a connectivity check that came back with
/// `connected` (`None` if the query itself failed).
pub open spec fn action_after_check(connected: Option<bool>) -> ReaderAction {
    match connected {
        Some(true) => ReaderAction::Retry,
        Some(false) => ReaderAction::Finish,
        None => ReaderAction::Abort,
    }
}

/// Decides what follows a connectivity check: a connected socket had a
/// transient error and is read again; a disconnected one ends the stream.
pub fn after_check(connected: Option<bool>) -> (a: ReaderAction)
    ensures
        a == action_after_check(connected),
{
    match connected {
        Some(true) => ReaderAction::Retry,
        Some(false) => ReaderAction::Finish,
        None => ReaderAction::Abort,
    }
}

/// Puts a callback back into its slot after it was taken out and called.
///
/// The slot is single-owner: the callback is taken out before it runs, so
/// that it may register a replacement from within itself. If it did, the
/// replacement stays (the last registration wins); otherwise the callback
/// that ran goes back.
pub fn restore_callback<T>(slot: &mut Option<T>, taken: T)
    ensures
        *final(slot) == (match *old(slot) {
            Some(newer) => Some(newer),
            None => Some(taken),
        }),
{
    if slot.is_none() {
        *slot = Some(taken);
    }
}

} // verus!
