use vstd::prelude::*;

use crate::error::{BridgeError, ErrorView};
use crate::reader::WORK_BUFFER_SIZE;

verus! {

/// Where a socket bridge stands in its life.
#[derive(Clone, Copy, Debug, PartialEq, Eq, Structural)]
pub enum LinkState {
    /// Built, not connected by this bridge.
    Idle,
    /// The foreign connect call is under way.
    Connecting,
    /// Connected, with the background reader started.
    Connected,
    /// Closed; the bridge is not to be reused.
    Closed,
}

/// The state of a socket bridge that its decisions depend on. The foreign
/// objects, the queue and the reader thread are held beside it by the caller.
pub struct BridgeCore {
    state: LinkState,
    reader_running: bool,
    scratch_capacity: usize,
    read_timeout_ms: u64,
}

/// The mathematical value of a [`BridgeCore`].
pub ghost struct BridgeView {
    pub state: LinkState,
    pub reader_running: bool,
    pub scratch_capacity: nat,
    pub read_timeout_ms: nat,
}

impl View for BridgeCore {
    type V = BridgeView;

    closed spec fn view(&self) -> BridgeView {
        BridgeView {
            state: self.state,
            reader_running: self.reader_running,
            scratch_capacity: self.scratch_capacity as nat,
            read_timeout_ms: self.read_timeout_ms as nat,
        }
    }
}

/// The foreign work that one call of `close` asks for, in this order.
#[derive(Clone, Copy, Debug, PartialEq, Eq, Structural)]
pub struct ClosePlan {
    /// Flush pending writes (best effort), then call the foreign close.
    pub close_socket: bool,
    /// Join the background reader, which ends once the socket is closed.
    pub join_reader: bool,
}

/// What `close` does, given whether the socket reported itself connected
/// (`None` when the query failed: closing is then attempted all the same).
pub open spec fn close_plan_of(v: BridgeView, connected: Option<bool>) -> ClosePlan {
    ClosePlan { close_socket: connected != Some(false), join_reader: v.reader_running }
}

/// The state after `close`.
pub open spec fn closed_view(v: BridgeView) -> BridgeView {
    BridgeView { state: LinkState::Closed, reader_running: false, ..v }
}

/// How a write of `len` bytes uses the scratch array.
#[derive(Clone, Copy, Debug, PartialEq, Eq, Structural)]
pub enum WritePlan {
    /// Nothing to write: the call returns 0 at once.
    Nothing,
    /// Copy the bytes into the current scratch array.
    Reuse,
    /// Replace the scratch array by a new one holding exactly the bytes.
    Grow,
}

pub open spec fn write_plan_of(capacity: nat, len: nat) -> WritePlan {
    if len == 0 {
        WritePlan::Nothing
    } else if len <= capacity {
        WritePlan::Reuse
    } else {
        WritePlan::Grow
    }
}

/// The scratch capacity once a write of `len` bytes has been staged in it.
pub open spec fn capacity_after(capacity: nat, len: nat) -> nat {
    if len > capacity {
        len
    } else {
        capacity
    }
}

impl BridgeCore {
    /// A bridge over a socket that has been built but not connected: no
    /// reader, a scratch array of the working-buffer size, and a read
    /// timeout of zero (reads do not wait).
    pub fn new() -> (c: BridgeCore)
        ensures
            c@ == (BridgeView {
                state: LinkState::Idle,
                reader_running: false,
                scratch_capacity: WORK_BUFFER_SIZE as nat,
                read_timeout_ms: 0,
            }),
    {
        BridgeCore {
            state: LinkState::Idle,
            reader_running: false,
            scratch_capacity: WORK_BUFFER_SIZE,
            read_timeout_ms: 0,
        }
    }

    pub fn state(&self) -> (s: LinkState)
        ensures
            s == self@.state,
    {
        self.state
    }

    /// Whether a background reader was started and not yet joined.
    pub fn reader_running(&self) -> (r: bool)
        ensures
            r == self@.reader_running,
    {
        self.reader_running
    }

    /// The capacity in bytes of the write scratch array.
    pub fn scratch_capacity(&self) -> (n: usize)
        ensures
            n == self@.scratch_capacity,
    {
        self.scratch_capacity
    }

    /// The read timeout in milliseconds.
    pub fn read_timeout_ms(&self) -> (ms: u64)
        ensures
            ms == self@.read_timeout_ms,
    {
        self.read_timeout_ms
    }

    /// Sets the read timeout in milliseconds.
    pub fn set_read_timeout_ms(&mut self, ms: u64)
        ensures
            final(self)@ == (BridgeView { read_timeout_ms: ms as nat, ..old(self)@ }),
    {
        self.read_timeout_ms = ms;
    }

    /// First step of `connect`, given whether the socket reports itself
    /// connected. Returns whether the foreign connect call is to be made: a
    /// connected socket is left as it is.
    pub fn begin_connect(&mut self, connected: bool) -> (call: bool)
        ensures
            call == !connected,
            final(self)@ == (if connected {
                old(self)@
            } else {
                BridgeView { state: LinkState::Connecting, ..old(self)@ }
            }),
    {
        if connected {
            false
        } else {
            self.state = LinkState::Connecting;
            true
        }
    }

    /// Second step of `connect`, given what the foreign connect call gave:
    /// its error, or whether the socket then reported itself connected.
    /// Only a call that did not raise and left the socket connected
    /// succeeds; the caller then starts the background reader.
    pub fn finish_connect(&mut self, outcome: Result<bool, BridgeError>) -> (r: Result<
        (),
        BridgeError,
    >)
        ensures
            match outcome {
                Ok(true) => {
                    &&& r is Ok
                    &&& final(self)@ == (BridgeView {
                        state: LinkState::Connected,
                        reader_running: true,
                        ..old(self)@
                    })
                },
                Ok(false) => {
                    &&& r matches Err(e) && e@ == ErrorView::NotConnected
                    &&& final(self)@ == (BridgeView { state: LinkState::Idle, ..old(self)@ })
                },
                Err(e) => {
                    &&& r matches Err(f) && f@ == e@
                    &&& final(self)@ == (BridgeView { state: LinkState::Idle, ..old(self)@ })
                },
            },
    {
        match outcome {
            Ok(true) => {
                self.state = LinkState::Connected;
                self.reader_running = true;
                Ok(())
            },
            Ok(false) => {
                self.state = LinkState::Idle;
                Err(BridgeError::NotConnected)
            },
            Err(e) => {
                self.state = LinkState::Idle;
                Err(e)
            },
        }
    }

    /// `close`, given whether the socket reports itself connected. Returns
    /// the foreign work to do; closing never fails, and a second call finds
    /// no reader left to join.
    pub fn close(&mut self, connected: Option<bool>) -> (plan: ClosePlan)
        ensures
            plan == close_plan_of(old(self)@, connected),
            final(self)@ == closed_view(old(self)@),
    {
        let plan = ClosePlan {
            close_socket: match connected {
                Some(false) => false,
                _ => true,
            },
            join_reader: self.reader_running,
        };
        self.state = LinkState::Closed;
        self.reader_running = false;
        plan
    }

    /// How a write of `len` bytes uses the scratch array.
    pub fn write_plan(&self, len: usize) -> (p: WritePlan)
        ensures
            p == write_plan_of(self@.scratch_capacity, len as nat),
    {
        if len == 0 {
            WritePlan::Nothing
        } else if len <= self.scratch_capacity {
            WritePlan::Reuse
        } else {
            WritePlan::Grow
        }
    }

    /// Records that the scratch array now holds a write of `len` bytes: it
    /// grew to hold them if it was smaller, and it never shrinks.
    pub fn staged(&mut self, len: usize)
        ensures
            final(self)@ == (BridgeView {
                scratch_capacity: capacity_after(old(self)@.scratch_capacity, len as nat),
                ..old(self)@
            }),
    {
        if len > self.scratch_capacity {
            self.scratch_capacity = len;
        }
    }
}

/// The scratch array only grows: a write larger than its capacity grows it
/// to the write's length, and a later write no larger than that leaves it
/// as it is.
pub proof fn lemma_scratch_grows_and_stays(capacity: nat, large: nat, small: nat)
    requires
        large > capacity,
        small <= large,
    ensures
        write_plan_of(capacity, large) == WritePlan::Grow,
        capacity_after(capacity, large) == large,
        write_plan_of(capacity_after(capacity, large), small) != WritePlan::Grow,
        capacity_after(capacity_after(capacity, large), small) == large,
{
}

/// A write never shrinks the scratch array, and the array always has room
/// for the write that was made.
pub proof fn lemma_scratch_never_shrinks(capacity: nat, len: nat)
    ensures
        capacity_after(capacity, len) >= capacity,
        capacity_after(capacity, len) >= len,
{
}

/// `close` is idempotent: the first call joins the reader if one runs, a
/// second call joins nothing and leaves the state as the first left it, and
/// once the socket reports itself disconnected it asks for no foreign work.
pub proof fn lemma_close_idempotent(v: BridgeView, first: Option<bool>, second: Option<bool>)
    ensures
        close_plan_of(v, first).join_reader == v.reader_running,
        !close_plan_of(closed_view(v), second).join_reader,
        closed_view(closed_view(v)) == closed_view(v),
        !closed_view(v).reader_running,
        second == Some(false) ==> close_plan_of(closed_view(v), second) == (ClosePlan {
            close_socket: false,
            join_reader: false,
        }),
{
}

/// The error that a failed foreign write stands for, given whether the
/// socket then reported itself connected (`None` when that query failed).
pub open spec fn write_error_of(connected: Option<bool>, classified: ErrorView) -> ErrorView {
    if connected == Some(true) {
        classified
    } else {
        ErrorView::NotConnected
    }
}

/// Maps a failed foreign write to its error: `NotConnected` unless
/// the socket still reports itself connected, else the classified exception.
pub fn write_error(connected: Option<bool>, classified: BridgeError) -> (e: BridgeError)
    ensures
        e@ == write_error_of(connected, classified@),
{
    match connected {
        Some(true) => classified,
        _ => BridgeError::NotConnected,
    }
}

} // verus!
