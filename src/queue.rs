use std::collections::VecDeque;
use vstd::prelude::*;

verus! {

/// The receive queue that the background reader fills and `read` drains.
/// Bytes leave in the order in which they came.
pub struct ByteQueue {
    bytes: VecDeque<u8>,
}

/// How many bytes a drain moves: all that are queued, up to the room left.
pub open spec fn drain_count(queued: nat, room: nat) -> nat {
    if queued < room {
        queued
    } else {
        room
    }
}

impl View for ByteQueue {
    type V = Seq<u8>;

    closed spec fn view(&self) -> Seq<u8> {
        self.bytes@
    }
}

impl ByteQueue {
    /// An empty queue.
    pub fn new() -> (q: ByteQueue)
        ensures
            q@ == Seq::<u8>::empty(),
    {
        ByteQueue { bytes: VecDeque::new() }
    }

    /// The number of queued bytes.
    pub fn len(&self) -> (n: usize)
        ensures
            n == self@.len(),
    {
        proof {
            lemma_len_matches_view(self);
        }
        self.bytes.len()
    }

    /// Whether no byte is queued.
    pub fn is_empty(&self) -> (r: bool)
        ensures
            r == (self@.len() == 0),
    {
        self.len() == 0
    }

    /// Appends `data` at the back, in order.
    pub fn push_bytes(&mut self, data: &[u8])
        ensures
            final(self)@ == old(self)@ + data@,
    {
        let n = data.len();
        let mut i: usize = 0;
        while i < n
            invariant
                n == data@.len(),
                i <= n,
                self@ == old(self)@ + data@.subrange(0, i as int),
            decreases n - i,
        {
            self.bytes.push_back(data[i]);
            proof {
                assert(data@.subrange(0, i + 1) =~= data@.subrange(0, i as int).push(data@[i as int]));
            }
            i = i + 1;
        }
        assert(data@.subrange(0, n as int) =~= data@);
    }

    /// Moves queued bytes from the front into `buf[start..]`, as many as are
    /// queued and fit, and returns how many it moved. The rest of `buf` is
    /// left as it was.
    pub fn drain_into(&mut self, buf: &mut [u8], start: usize) -> (moved: usize)
        requires
            start <= old(buf)@.len(),
        ensures
            moved == drain_count(old(self)@.len(), (old(buf)@.len() - start) as nat),
            final(self)@ == old(self)@.subrange(moved as int, old(self)@.len() as int),
            final(buf)@ == old(buf)@.subrange(0, start as int) + old(self)@.subrange(0, moved as int)
                + old(buf)@.subrange(start + moved, old(buf)@.len() as int),
    {
        let room = buf.len() - start;
        let queued = self.len();
        let count = if queued < room {
            queued
        } else {
            room
        };
        let mut moved: usize = 0;
        while moved < count
            invariant
                room == old(buf)@.len() - start,
                start <= old(buf)@.len() <= usize::MAX,
                buf@.len() == old(buf)@.len(),
                count == drain_count(old(self)@.len(), room as nat),
                moved <= count,
                self@ == old(self)@.subrange(moved as int, old(self)@.len() as int),
                buf@ == old(buf)@.subrange(0, start as int) + old(self)@.subrange(0, moved as int)
                    + old(buf)@.subrange(start + moved, old(buf)@.len() as int),
            decreases count - moved,
        {
            let b = self.bytes.pop_front().unwrap();
            buf[start + moved] = b;
            proof {
                assert(old(self)@.subrange(0, moved + 1) =~= old(self)@.subrange(
                    0,
                    moved as int,
                ).push(b));
                assert(self@ =~= old(self)@.subrange(moved + 1, old(self)@.len() as int));
                assert(buf@ =~= old(buf)@.subrange(0, start as int) + old(self)@.subrange(
                    0,
                    moved + 1,
                ) + old(buf)@.subrange(start + moved + 1, old(buf)@.len() as int));
            }
            moved = moved + 1;
        }
        moved
    }
}

proof fn lemma_len_matches_view(q: &ByteQueue)
    ensures
        q.bytes.len() == q@.len(),
{
    broadcast use vstd::std_specs::vecdeque::group_vec_dequeue_axioms;
}

} // verus!
