use vstd::prelude::*;

use crate::queue::drain_count;

verus! {

/// One thing that happens to a receive queue: the reader appends a chunk,
/// or a read drains into a buffer with this much room.
pub ghost enum QueueEvent {
    Push(Seq<u8>),
    Drain(nat),
}

/// The bytes that the events append, in order.
pub open spec fn pushed(events: Seq<QueueEvent>) -> Seq<u8>
    decreases events.len(),
{
    if events.len() == 0 {
        Seq::empty()
    } else {
        match events[0] {
            QueueEvent::Push(chunk) => chunk + pushed(events.subrange(1, events.len() as int)),
            QueueEvent::Drain(_) => pushed(events.subrange(1, events.len() as int)),
        }
    }
}

/// Runs the events on a queue holding `q`, as `ByteQueue::push_bytes` and
/// `ByteQueue::drain_into` state them. Gives the bytes that the drains
/// handed out, in order, and what is left queued.
pub open spec fn run_queue(q: Seq<u8>, events: Seq<QueueEvent>) -> (Seq<u8>, Seq<u8>)
    decreases events.len(),
{
    if events.len() == 0 {
        (Seq::empty(), q)
    } else {
        let rest = events.subrange(1, events.len() as int);
        match events[0] {
            QueueEvent::Push(chunk) => run_queue(q + chunk, rest),
            QueueEvent::Drain(room) => {
                let n = drain_count(q.len(), room);
                let after = run_queue(q.subrange(n as int, q.len() as int), rest);
                (q.subrange(0, n as int) + after.0, after.1)
            },
        }
    }
}

/// The queue keeps order: whatever mix of appends and drains happens, the
/// bytes handed out followed by those still queued are exactly the bytes
/// that were queued at first followed by those appended, in order.
pub proof fn lemma_queue_keeps_order(q: Seq<u8>, events: Seq<QueueEvent>)
    ensures
        run_queue(q, events).0 + run_queue(q, events).1 == q + pushed(events),
    decreases events.len(),
{
    if events.len() > 0 {
        let rest = events.subrange(1, events.len() as int);
        match events[0] {
            QueueEvent::Push(chunk) => {
                lemma_queue_keeps_order(q + chunk, rest);
                assert(q + chunk + pushed(rest) =~= q + (chunk + pushed(rest)));
            },
            QueueEvent::Drain(room) => {
                let n = drain_count(q.len(), room);
                let tail = q.subrange(n as int, q.len() as int);
                lemma_queue_keeps_order(tail, rest);
                let after = run_queue(tail, rest);
                assert(q.subrange(0, n as int) + after.0 + after.1 =~= q.subrange(0, n as int) + (
                after.0 + after.1));
                assert(q.subrange(0, n as int) + (tail + pushed(rest)) =~= q + pushed(rest));
            },
        }
    } else {
        assert(q + Seq::<u8>::empty() =~= q);
        assert(Seq::<u8>::empty() + q =~= q);
    }
}

/// A byte stream arrives whole and in order: when the peer's reader appends
/// chunks that make up `s` to its empty queue, interleaved with the peer's
/// reads, and a last read has room for all that is still queued, the reads
/// together hand out exactly `s`.
pub proof fn lemma_stream_arrives_in_order(s: Seq<u8>, events: Seq<QueueEvent>, last_room: nat)
    requires
        pushed(events) == s,
        last_room >= run_queue(Seq::empty(), events).1.len(),
    ensures
        run_queue(Seq::empty(), events.push(QueueEvent::Drain(last_room))).0 == s,
{
    lemma_queue_keeps_order(Seq::empty(), events);
    lemma_run_then_drain(Seq::empty(), events, last_room);
    assert(Seq::<u8>::empty() + s =~= s);
}

/// Running the events and then one more drain: the drain hands out the
/// front of what the events left queued.
proof fn lemma_run_then_drain(q: Seq<u8>, events: Seq<QueueEvent>, room: nat)
    ensures
        ({
            let before = run_queue(q, events);
            let n = drain_count(before.1.len(), room);
            run_queue(q, events.push(QueueEvent::Drain(room))) == (
            before.0 + before.1.subrange(0, n as int),
            before.1.subrange(n as int, before.1.len() as int),
            )
        }),
    decreases events.len(),
{
    let all = events.push(QueueEvent::Drain(room));
    if events.len() == 0 {
        let n = drain_count(q.len(), room);
        assert(all[0] == QueueEvent::Drain(room));
        assert(all.subrange(1, all.len() as int) =~= Seq::<QueueEvent>::empty());
        let tail = q.subrange(n as int, q.len() as int);
        assert(run_queue(tail, Seq::<QueueEvent>::empty()) == (Seq::<u8>::empty(), tail));
        assert(run_queue(q, events) == (Seq::<u8>::empty(), q));
        assert(q.subrange(0, n as int) + Seq::<u8>::empty() =~= q.subrange(0, n as int));
        assert(Seq::<u8>::empty() + q.subrange(0, n as int) =~= q.subrange(0, n as int));
    } else {
        let rest = events.subrange(1, events.len() as int);
        assert(all.subrange(1, all.len() as int) =~= rest.push(QueueEvent::Drain(room)));
        assert(all[0] == events[0]);
        match events[0] {
            QueueEvent::Push(chunk) => {
                lemma_run_then_drain(q + chunk, rest, room);
            },
            QueueEvent::Drain(r) => {
                let n = drain_count(q.len(), r);
                let tail = q.subrange(n as int, q.len() as int);
                lemma_run_then_drain(tail, rest, room);
                let before = run_queue(tail, rest);
                let m = drain_count(before.1.len(), room);
                assert(q.subrange(0, n as int) + (before.0 + before.1.subrange(0, m as int))
                    =~= q.subrange(0, n as int) + before.0 + before.1.subrange(0, m as int));
            },
        }
    }
}

} // verus!
