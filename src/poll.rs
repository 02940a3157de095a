use vstd::prelude::*;

verus! {

/// The longest single wait of a blocking read, in milliseconds.
pub const POLL_INTERVAL_MS: u64 = 100;

/// What a timeout-bounded read does next.
#[derive(Clone, Copy, Debug, PartialEq, Eq, Structural)]
pub enum PollStep {
    /// Move queued bytes into the buffer from `copied()` on, then call `after_drain`.
    Drain,
    /// Ask whether the socket is connected, then call `after_check`.
    CheckConnection,
    /// Measure the time left before the deadline, then call `after_clock`.
    CheckClock,
    /// Sleep this many milliseconds, then drain again.
    Sleep(u64),
    /// Return `Ok` with this many bytes.
    Return(usize),
    /// Fail with `NotConnected`.
    NotConnected,
    /// Fail with `TimedOut`.
    TimedOut,
    /// Fail with the error of the connectivity query.
    QueryFailed,
}

/// One read call in progress: how many bytes the buffer holds and how many
/// have been copied into it.
pub struct ReadPoll {
    wanted: usize,
    copied: usize,
}

pub ghost struct ReadPollView {
    pub wanted: nat,
    pub copied: nat,
}

impl View for ReadPoll {
    type V = ReadPollView;

    closed spec fn view(&self) -> ReadPollView {
        ReadPollView { wanted: self.wanted as nat, copied: self.copied as nat }
    }
}

/// What follows a connectivity check with `copied` bytes in hand.
pub open spec fn step_after_check(copied: nat, connected: Option<bool>) -> PollStep {
    match connected {
        Some(true) => PollStep::CheckClock,
        Some(false) => if copied > 0 {
            PollStep::Return(copied as usize)
        } else {
            PollStep::NotConnected
        },
        None => if copied > 0 {
            PollStep::Return(copied as usize)
        } else {
            PollStep::QueryFailed
        },
    }
}

/// What follows a look at the clock with `copied` bytes in hand, given the
/// milliseconds left before the deadline (`None` once it has passed).
pub open spec fn step_after_clock(copied: nat, remaining_ms: Option<u64>) -> PollStep {
    match remaining_ms {
        Some(ms) => PollStep::Sleep(if ms < POLL_INTERVAL_MS {
            ms
        } else {
            POLL_INTERVAL_MS
        }),
        None => if copied > 0 {
            PollStep::Return(copied as usize)
        } else {
            PollStep::TimedOut
        },
    }
}

impl ReadPoll {
    /// Starts a read into a buffer of `wanted` bytes. An empty buffer
    /// returns 0 at once; any other read starts by draining the queue.
    pub fn start(wanted: usize) -> (r: (ReadPoll, PollStep))
        ensures
            r.0@ == (ReadPollView { wanted: wanted as nat, copied: 0 }),
            r.1 == (if wanted == 0 {
                PollStep::Return(0)
            } else {
                PollStep::Drain
            }),
    {
        let step = if wanted == 0 {
            PollStep::Return(0)
        } else {
            PollStep::Drain
        };
        (ReadPoll { wanted, copied: 0 }, step)
    }

    /// The number of bytes copied so far: the offset of the next drain.
    pub fn copied(&self) -> (n: usize)
        ensures
            n == self@.copied,
    {
        self.copied
    }

    /// Records that a drain moved `moved` more bytes. A full buffer returns
    /// its length; otherwise the connection is checked.
    pub fn after_drain(&mut self, moved: usize) -> (step: PollStep)
        requires
            old(self)@.copied + moved <= old(self)@.wanted,
        ensures
            final(self)@ == (ReadPollView { copied: (old(self)@.copied + moved) as nat, ..old(self)@ }),
            step == (if final(self)@.copied >= final(self)@.wanted {
                PollStep::Return(final(self)@.copied as usize)
            } else {
                PollStep::CheckConnection
            }),
    {
        self.copied = self.copied + moved;
        if self.copied >= self.wanted {
            PollStep::Return(self.copied)
        } else {
            PollStep::CheckConnection
        }
    }

    /// Decides after a connectivity check (`None` when the query failed). A
    /// disconnected socket ends the read: with the bytes copied if there are
    /// any, else with `NotConnected`. A connected one never gives
    /// `NotConnected`.
    pub fn after_check(&self, connected: Option<bool>) -> (step: PollStep)
        ensures
            step == step_after_check(self@.copied, connected),
    {
        match connected {
            Some(true) => PollStep::CheckClock,
            Some(false) => {
                if self.copied > 0 {
                    PollStep::Return(self.copied)
                } else {
                    PollStep::NotConnected
                }
            },
            None => {
                if self.copied > 0 {
                    PollStep::Return(self.copied)
                } else {
                    PollStep::QueryFailed
                }
            },
        }
    }

    /// Decides after a look at the clock: while time is left, sleep for at
    /// most the poll interval; once the deadline has passed, return the
    /// bytes copied, or `TimedOut` if there are none.
    pub fn after_clock(&self, remaining_ms: Option<u64>) -> (step: PollStep)
        ensures
            step == step_after_clock(self@.copied, remaining_ms),
    {
        match remaining_ms {
            Some(ms) => PollStep::Sleep(
                if ms < POLL_INTERVAL_MS {
                    ms
                } else {
                    POLL_INTERVAL_MS
                },
            ),
            None => {
                if self.copied > 0 {
                    PollStep::Return(self.copied)
                } else {
                    PollStep::TimedOut
                }
            },
        }
    }
}

/// On a connected socket a read never fails with `NotConnected`: while
/// time is left it sleeps and drains again, and once the deadline has
/// passed with nothing copied it fails with `TimedOut`.
pub proof fn lemma_connected_read_times_out(copied: nat, remaining_ms: Option<u64>)
    ensures
        step_after_check(copied, Some(true)) == PollStep::CheckClock,
        step_after_clock(copied, remaining_ms) != PollStep::NotConnected,
        copied == 0 ==> step_after_clock(copied, None) == PollStep::TimedOut,
{
}

/// A read on a disconnected socket with nothing copied fails with
/// `NotConnected`; with bytes copied it returns them.
pub proof fn lemma_disconnected_read(copied: nat)
    ensures
        copied == 0 ==> step_after_check(copied, Some(false)) == PollStep::NotConnected,
        copied > 0 ==> step_after_check(copied, Some(false)) == PollStep::Return(copied as usize),
{
}

} // verus!
