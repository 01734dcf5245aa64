use vstd::prelude::*;

use crate::message::{assemble, wire, wire_all};
use crate::future::MultipartRequest;
use crate::sink::SinkBuffer;
use crate::worker::Worker;
use crate::wakeup::{WakeOp, bytes_written, flag_after, notifications};

verus! {

proof fn lemma_assemble_one(partial: Seq<Seq<u8>>, m: Seq<Seq<u8>>, rest: Seq<(Seq<u8>, bool)>)
    requires
        m.len() > 0,
    ensures
        assemble(partial, wire(m) + rest) == seq![partial + m] + assemble(Seq::empty(), rest),
    decreases m.len(),
{
    let w = wire(m) + rest;
    assert(w[0] == (m[0], m.len() > 1));
    assert(w.drop_first() =~= wire(m.drop_first()) + rest);
    if m.len() == 1 {
        assert(wire(m.drop_first()) =~= Seq::<(Seq<u8>, bool)>::empty());
        assert(w.drop_first() =~= rest);
        assert(partial.push(m[0]) =~= partial + m);
    } else {
        lemma_assemble_one(partial.push(m[0]), m.drop_first(), rest);
        assert(partial.push(m[0]) + m.drop_first() =~= partial + m);
    }
}

/// Framing is lossless: a reader that splits the frames of a run of
/// non-empty multiparts at the frames without the more-flag gets back
/// exactly those multiparts, in order, none merged or split.
pub proof fn lemma_framing_round_trip(ms: Seq<Seq<Seq<u8>>>)
    requires
        forall|i: int| 0 <= i < ms.len() ==> #[trigger] ms[i].len() > 0,
    ensures
        assemble(Seq::empty(), wire_all(ms)) == ms,
    decreases ms.len(),
{
    if ms.len() > 0 {
        assert(ms[0].len() > 0);
        assert forall|i: int| 0 <= i < ms.drop_first().len() implies #[trigger] ms.drop_first()[i].len() > 0 by {
            assert(ms.drop_first()[i] == ms[i + 1]);
        }
        lemma_framing_round_trip(ms.drop_first());
        lemma_assemble_one(Seq::empty(), ms[0], wire_all(ms.drop_first()));
        assert(Seq::<Seq<u8>>::empty() + ms[0] =~= ms[0]);
        assert(seq![ms[0]] + ms.drop_first() =~= ms);
    }
}

/// A one-shot send that handed its socket back without failing has put
/// on the wire exactly the frames of its multipart, in order, each with
/// the more-flag of its position; while it runs, what it has delivered is a
/// prefix of those frames.
pub proof fn lemma_request_delivers_whole<S>(req: MultipartRequest<S>)
    requires
        req.wf(),
        !req.failed(),
    ensures
        req.delivered() == wire(req.initial()).take(req.delivered().len() as int),
        req.socket() is None ==> req.delivered() == wire(req.initial()),
{
    let d = req.delivered();
    assert(wire(req.initial()).take(d.len() as int) =~= d);
    if req.socket() is None {
        assert(wire(req.remaining()) =~= Seq::<(Seq<u8>, bool)>::empty());
        assert(d + wire(req.remaining()) =~= d);
    }
}

/// Order preservation: as long as no native error has dropped a multipart,
/// the frames a sink has delivered followed by the frames it still holds are
/// exactly the frames of the multiparts it accepted, in the order
/// `start_send` accepted them; once nothing is pending, the socket has
/// received exactly those frames.
pub proof fn lemma_sink_preserves_order(s: SinkBuffer)
    requires
        s.wf(),
        s.intact(),
    ensures
        s.delivered() + s.pending_frames() == wire_all(s.accepted()),
        s.delivered().len() <= wire_all(s.accepted()).len(),
        s.delivered() == wire_all(s.accepted()).take(s.delivered().len() as int),
        s.pending_frames().len() == 0 ==> s.delivered() == wire_all(s.accepted()),
{
    let d = s.delivered();
    let w = wire_all(s.accepted());
    assert(w.take(d.len() as int) =~= d);
    if s.pending_frames().len() == 0 {
        assert(d + s.pending_frames() =~= d);
    }
}

/// Order preservation in the worker: for each socket, unless a native
/// error dropped a queued multipart, the frames it has sent followed by the
/// frames still queued are exactly the frames of the multiparts queued on
/// it, in the order their send requests were handled.
pub proof fn lemma_worker_preserves_order<K, R>(w: Worker<K, R>, id: usize)
    requires
        w.wf(),
        w.has_socket(id),
        w.pollable(id).intact(),
    ensures
        w.pollable(id).sent() + w.pollable(id).outgoing_frames() == wire_all(w.pollable(id).queued()),
        w.pollable(id).outgoing_frames().len() == 0 ==> w.pollable(id).sent() == wire_all(w.pollable(id).queued()),
{
    assert(w.sockets@.contains_key(id));
    let p = w.pollable(id);
    if p.outgoing_frames().len() == 0 {
        assert(p.sent() + p.outgoing_frames() =~= p.sent());
    }
}

/// Back-pressure: a sink never holds more accepted-but-unsent multiparts
/// than its buffer size.
pub proof fn lemma_sink_bounded(s: SinkBuffer)
    requires
        s.wf(),
    ensures
        s.outstanding() <= s.capacity(),
{
}

/// Wakeup coalescing: any run of notifications and drains writes at most
/// one byte to the self-pipe per notification, and at most one byte in all
/// when nothing drains in between; after a notification the flag stays set
/// until the worker drains it, so the worker sees every request.
pub proof fn lemma_wakeups_coalesce(unread: bool, ops: Seq<WakeOp>)
    ensures
        bytes_written(unread, ops) <= notifications(ops),
        (forall|i: int| 0 <= i < ops.len() ==> #[trigger] ops[i] is Notify) ==> bytes_written(unread, ops) <= 1,
        ops.len() > 0 && ops.last() is Notify ==> flag_after(unread, ops),
    decreases ops.len(),
{
    if ops.len() > 0 {
        let next = match ops[0] {
            WakeOp::Notify => true,
            WakeOp::Drain => false,
        };
        lemma_wakeups_coalesce(next, ops.drop_first());
        if forall|i: int| 0 <= i < ops.len() ==> #[trigger] ops[i] is Notify {
            assert forall|i: int| 0 <= i < ops.drop_first().len() implies #[trigger] ops.drop_first()[i] is Notify by {
                assert(ops.drop_first()[i] == ops[i + 1]);
            }
            lemma_notify_only_from_set(ops.drop_first());
        }
        if ops.len() > 1 {
            assert(ops.drop_first().last() == ops.last());
        }
    }
}

/// Once the flag is set, notifications alone write nothing.
proof fn lemma_notify_only_from_set(ops: Seq<WakeOp>)
    requires
        forall|i: int| 0 <= i < ops.len() ==> #[trigger] ops[i] is Notify,
    ensures
        bytes_written(true, ops) == 0,
    decreases ops.len(),
{
    if ops.len() > 0 {
        assert(ops[0] is Notify);
        assert forall|i: int| 0 <= i < ops.drop_first().len() implies #[trigger] ops.drop_first()[i] is Notify by {
            assert(ops.drop_first()[i] == ops[i + 1]);
        }
        lemma_notify_only_from_set(ops.drop_first());
    }
}

} // verus!
