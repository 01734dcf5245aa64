use vstd::prelude::*;

use std::collections::VecDeque;

use crate::error::{Error, NativeError};
use crate::message::{Frame, Multipart, wire, wire_all, views, lemma_wire_head, lemma_wire_all_push};
use crate::poll_kind::PollKind;

verus! {

/// What the worker answers to a request.
pub enum Response {
    /// Everything queued for the socket has been sent.
    Sent,
    /// A multipart arrived.
    Received(Multipart),
    /// The socket's send queue is full: the multipart is handed back.
    Full(Multipart),
    /// The operation failed.
    Error(Error),
    /// A socket was registered under this id.
    Registered(usize),
}

/// A response addressed to the responder of the request it answers.
pub struct Reply<R> {
    pub to: R,
    pub response: Response,
}

/// Dropping a multipart of wire frames from the front of a queue.
pub proof fn lemma_wire_all_front(ms: Seq<Seq<Seq<u8>>>)
    requires
        ms.len() > 0,
    ensures
        wire_all(ms) == wire(ms[0]) + wire_all(ms.drop_first()),
{
}

/// The answer to a request, if its responder is still there.
pub open spec fn reply_to<R>(waiter: Option<R>, response: Response) -> Option<Reply<R>> {
    match waiter {
        Some(to) => Some(Reply { to, response }),
        None => None,
    }
}

/// The worker's state for one socket: its arming, its queue of outgoing
/// multiparts with the responder of each, the multiparts received with
/// nobody waiting for them, the multipart being received, and the
/// responders of the receive requests waiting, oldest first.
pub struct Pollable<K, R> {
    pub(crate) sock: K,
    pub(crate) kind: PollKind,
    pub(crate) msg: VecDeque<Multipart>,
    /// The responder of each queued multipart, in step with `msg`; `None`
    /// once its requester has gone away.
    pub(crate) send_responders: Vec<Option<R>>,
    pub(crate) pending_recv_msg: VecDeque<Multipart>,
    pub(crate) partial: Multipart,
    pub(crate) recv_responders: Vec<R>,
    /// Every frame the socket has accepted, with its more-flag, in order.
    pub(crate) sent: Ghost<Seq<(Seq<u8>, bool)>>,
    /// Every multipart queued for sending, in order.
    pub(crate) queued: Ghost<Seq<Seq<Seq<u8>>>>,
    /// No native error has dropped a queued multipart.
    pub(crate) intact: Ghost<bool>,
}

impl<K, R> Pollable<K, R> {
    pub open(crate) spec fn socket(&self) -> K {
        self.sock
    }

    pub open(crate) spec fn arms(&self) -> PollKind {
        self.kind
    }

    /// The queued outgoing multiparts, head first.
    pub open(crate) spec fn outgoing(&self) -> Seq<Seq<Seq<u8>>> {
        views(self.msg@)
    }

    /// The frames still to be sent, with their more-flags, in order.
    pub open(crate) spec fn outgoing_frames(&self) -> Seq<(Seq<u8>, bool)> {
        wire_all(self.outgoing())
    }

    /// The responder of each queued outgoing multipart, in the same order.
    pub open(crate) spec fn send_waiters(&self) -> Seq<Option<R>> {
        self.send_responders@
    }

    /// The received multiparts that nobody has asked for yet, oldest first.
    pub open(crate) spec fn received(&self) -> Seq<Seq<Seq<u8>>> {
        views(self.pending_recv_msg@)
    }

    /// The frames received so far of the multipart being received.
    pub open(crate) spec fn partial(&self) -> Seq<Seq<u8>> {
        self.partial@
    }

    /// The responders of the waiting receive requests, oldest first.
    pub open(crate) spec fn recv_waiters(&self) -> Seq<R> {
        self.recv_responders@
    }

    /// The frames the socket has accepted, with their more-flags.
    pub open(crate) spec fn sent(&self) -> Seq<(Seq<u8>, bool)> {
        self.sent@
    }

    /// The multiparts queued for sending so far, in order.
    pub open(crate) spec fn queued(&self) -> Seq<Seq<Seq<u8>>> {
        self.queued@
    }

    pub open(crate) spec fn intact(&self) -> bool {
        self.intact@
    }

    /// Each queued multipart has frames and a responder slot; writing is
    /// armed exactly while something is queued; and unless an error dropped
    /// a multipart, the frames sent followed by the frames still queued are
    /// the frames of every queued multipart.
    pub open(crate) spec fn wf(&self) -> bool {
        &&& self.send_responders@.len() == self.msg@.len()
        &&& forall|i: int| 0 <= i < self.msg@.len() ==> #[trigger] self.msg@[i].frames@.len() > 0
        &&& self.kind.writes() == (self.msg@.len() > 0)
        &&& self.intact@ ==> self.sent@ + self.outgoing_frames() == wire_all(self.queued@)
    }

    /// Whether this is the state of `sock` with nothing armed, queued or
    /// waiting.
    pub open(crate) spec fn is_fresh(&self, sock: K) -> bool {
        &&& self.socket() == sock
        &&& self.arms() == PollKind::Unused
        &&& self.outgoing().len() == 0
        &&& self.received().len() == 0
        &&& self.partial().len() == 0
        &&& self.send_waiters().len() == 0
        &&& self.recv_waiters().len() == 0
        &&& self.sent().len() == 0
        &&& self.queued().len() == 0
        &&& self.intact()
        &&& self.wf()
    }

    /// How `next_frame` relates the state before, the state after and its result.
    pub open(crate) spec fn next_frame_post(
            pre: Pollable<K, R>,
            post: Pollable<K, R>,
            r: Option<Frame>,
            ) -> bool {
            &&& post == pre
            &&& pre.outgoing_frames().len() == 0 ==> r is None
            &&& pre.outgoing_frames().len() > 0 ==> r is Some && r->Some_0@ == pre.outgoing_frames()[0]
    }

    /// How `on_send` relates the state before, the state after and its result.
    pub open(crate) spec fn on_send_post(
            pre: Pollable<K, R>,
            post: Pollable<K, R>,
            outcome: Result<(), NativeError>,
            r: (Option<Reply<R>>, bool),
            ) -> bool {
            &&& post.wf()
            &&& post.queued() == pre.queued()
            &&& !(outcome is Err && !outcome->Err_0.spec_is_transient()) ==> post.intact() == pre.intact()
            &&& post.received() == pre.received()
            &&& post.partial() == pre.partial()
            &&& post.recv_waiters() == pre.recv_waiters()
            &&& post.socket() == pre.socket()
            &&& post.arms().reads() == pre.arms().reads()
            &&& outcome is Ok ==> {
                &&& post.sent() == pre.sent().push(pre.outgoing_frames()[0])
                &&& post.outgoing_frames() == pre.outgoing_frames().drop_first()
                &&& r.1 == (post.outgoing().len() > 0)
                &&& pre.outgoing()[0].len() == 1 ==> {
                    &&& post.outgoing() == pre.outgoing().drop_first()
                    &&& post.send_waiters() == pre.send_waiters().drop_first()
                    &&& r.0 == reply_to(pre.send_waiters()[0], Response::Sent)
                }
                &&& pre.outgoing()[0].len() > 1 ==> {
                    &&& post.outgoing() == pre.outgoing().update(0, pre.outgoing()[0].drop_first())
                    &&& post.send_waiters() == pre.send_waiters()
                    &&& r.0 is None
                }
            }
            &&& outcome == Err::<(), NativeError>(NativeError::WouldBlock) ==> !r.1 && r.0 is None && post == pre
            &&& outcome is Err && !outcome->Err_0.spec_is_transient() ==> {
                &&& !r.1
                &&& !post.intact()
                &&& post.sent() == pre.sent()
                &&& post.outgoing() == pre.outgoing().drop_first()
                &&& post.send_waiters() == pre.send_waiters().drop_first()
                &&& r.0 == reply_to(pre.send_waiters()[0], Response::Error(outcome->Err_0.spec_surface()))
            }
    }

    /// How `on_recv` relates the state before, the state after and its result.
    pub open(crate) spec fn on_recv_post(
            pre: Pollable<K, R>,
            post: Pollable<K, R>,
            outcome: Result<Frame, NativeError>,
            r: (Option<Reply<R>>, bool),
            ) -> bool {
            &&& post.wf()
            &&& post.queued() == pre.queued() && post.intact() == pre.intact()
            &&& post.sent() == pre.sent()
            &&& post.outgoing() == pre.outgoing()
            &&& post.send_waiters() == pre.send_waiters()
            &&& post.socket() == pre.socket()
            &&& post.arms().writes() == pre.arms().writes()
            &&& outcome is Ok && outcome->Ok_0.more ==> {
                &&& r.0 is None && r.1
                &&& post.partial() == pre.partial().push(outcome->Ok_0.data@)
                &&& post.arms() == pre.arms()
                &&& post.received() == pre.received()
                &&& post.recv_waiters() == pre.recv_waiters()
            }
            &&& outcome is Ok && !outcome->Ok_0.more ==> {
                &&& r.1
                &&& post.partial().len() == 0
                &&& post.arms().reads() == (pre.arms().reads() && post.recv_waiters().len() > 0)
                &&& pre.recv_waiters().len() > 0 ==> {
                    &&& r.0 is Some && r.0->Some_0.to == pre.recv_waiters()[0]
                    &&& r.0->Some_0.response is Received
                    &&& r.0->Some_0.response->Received_0@ == pre.partial().push(outcome->Ok_0.data@)
                    &&& post.received() == pre.received()
                    &&& post.recv_waiters() == pre.recv_waiters().drop_first()
                }
                &&& pre.recv_waiters().len() == 0 ==> {
                    &&& r.0 is None
                    &&& post.received() == pre.received().push(pre.partial().push(outcome->Ok_0.data@))
                    &&& post.recv_waiters() == pre.recv_waiters()
                }
            }
            &&& outcome is Err ==> {
                &&& !r.1
                &&& post.partial() == pre.partial()
                &&& post.received() == pre.received()
            }
            &&& outcome == Err::<Frame, NativeError>(NativeError::WouldBlock) ==> {
                &&& r.0 is None
                &&& post.arms().reads() == (pre.arms().reads() && pre.recv_waiters().len() > 0)
                &&& post.recv_waiters() == pre.recv_waiters()
            }
            &&& outcome == Err::<Frame, NativeError>(NativeError::WrongState) ==> {
                &&& r.0 is None
                &&& !post.arms().reads()
                &&& post.recv_waiters() == pre.recv_waiters()
            }
            &&& outcome is Err && outcome->Err_0 is Code ==> {
                &&& !post.arms().reads()
                &&& pre.recv_waiters().len() == 0 ==> r.0 is None && post.recv_waiters() == pre.recv_waiters()
                &&& pre.recv_waiters().len() > 0 ==> {
                    &&& r.0 == Some(Reply { to: pre.recv_waiters()[0], response: Response::Error(outcome->Err_0.spec_surface()) })
                    &&& post.recv_waiters() == pre.recv_waiters().drop_first()
                }
            }
    }

    /// How `take_send_responder` relates the state before, the state after and its result.
    pub open(crate) spec fn take_send_post(pre: Pollable<K, R>, post: Pollable<K, R>, k: usize, r: Option<R>) -> bool {
        &&& post.wf()
        &&& k >= pre.send_waiters().len() ==> r is None && post == pre
        &&& k < pre.send_waiters().len() ==> {
            &&& r == pre.send_waiters()[k as int]
            &&& post == (Pollable { send_responders: post.send_responders, ..pre })
            &&& post.send_waiters() == pre.send_waiters().update(k as int, None)
        }
    }

    /// How `restore_send_responder` relates the state before, the state after and its result.
    pub open(crate) spec fn restore_send_post(pre: Pollable<K, R>, post: Pollable<K, R>, k: usize, to: R) -> bool {
        &&& post.wf()
        &&& k >= pre.send_waiters().len() ==> post == pre
        &&& k < pre.send_waiters().len() ==> {
            &&& post == (Pollable { send_responders: post.send_responders, ..pre })
            &&& post.send_waiters() == pre.send_waiters().update(k as int, Some(to))
        }
    }

    /// How `take_recv_responder` relates the state before, the state after and its result.
    pub open(crate) spec fn take_recv_post(pre: Pollable<K, R>, post: Pollable<K, R>, k: usize, r: Option<R>) -> bool {
        &&& post.wf()
        &&& k >= pre.recv_waiters().len() ==> r is None && post == pre
        &&& k < pre.recv_waiters().len() ==> {
            &&& r == Some(pre.recv_waiters()[k as int])
            &&& post == (Pollable {
                    recv_responders: post.recv_responders,
                    kind: post.kind,
                    ..pre
            })
            &&& post.recv_waiters() == pre.recv_waiters().remove(k as int)
            &&& post.arms().writes() == pre.arms().writes()
            &&& post.arms().reads() == (pre.arms().reads() && post.recv_waiters().len() > 0)
        }
    }

    /// How `restore_recv_responder` relates the state before, the state after and its result.
    pub open(crate) spec fn restore_recv_post(pre: Pollable<K, R>, post: Pollable<K, R>, k: usize, to: R) -> bool {
        &&& post.wf()
        &&& post == (Pollable {
                recv_responders: post.recv_responders,
                kind: post.kind,
                ..pre
        })
        &&& k <= pre.recv_waiters().len() ==> post.recv_waiters() == pre.recv_waiters().insert(k as int, to)
        &&& k > pre.recv_waiters().len() ==> post.recv_waiters() == pre.recv_waiters().push(to)
        &&& post.arms().reads()
        &&& post.arms().writes() == pre.arms().writes()
    }

    /// A socket with nothing armed, queued or waiting.
    pub(crate) fn new(sock: K) -> (r: Pollable<K, R>)
        ensures
            r.is_fresh(sock),
    {
        let r = Pollable {
            sock,
            kind: PollKind::Unused,
            msg: VecDeque::new(),
            send_responders: Vec::new(),
            pending_recv_msg: VecDeque::new(),
            partial: Multipart::new(),
            recv_responders: Vec::new(),
            sent: Ghost(Seq::empty()),
            queued: Ghost(Seq::empty()),
            intact: Ghost(true),
        };
        assert(r.outgoing() =~= Seq::<Seq<Seq<u8>>>::empty());
        assert(r.outgoing_frames() =~= Seq::<(Seq<u8>, bool)>::empty());
        assert(r.sent@ + r.outgoing_frames() =~= Seq::<(Seq<u8>, bool)>::empty());
        assert(r.received() =~= Seq::<Seq<Seq<u8>>>::empty());
        r
    }

    pub(crate) fn sock(&self) -> (r: &K)
        ensures
            *r == self.socket(),
    {
        &self.sock
    }

    /// Queues a non-empty outgoing multipart with its responder and arms
    /// writing when fewer than `buffer_size` are queued; hands the multipart
    /// back otherwise.
    pub(crate) fn message(&mut self, msg: Multipart, to: R, buffer_size: usize) -> (r: Option<(Multipart, R)>)
        requires
            old(self).wf(),
            msg@.len() > 0,
        ensures
            final(self).wf(),
            old(self).outgoing().len() < buffer_size ==> {
                &&& r is None
                &&& final(self).outgoing() == old(self).outgoing().push(msg@)
                &&& final(self).outgoing_frames() == old(self).outgoing_frames() + wire(msg@)
                &&& final(self).send_waiters() == old(self).send_waiters().push(Some(to))
                &&& final(self).queued() == old(self).queued().push(msg@)
                &&& final(self).arms().writes()
                &&& final(self).arms().reads() == old(self).arms().reads()
                &&& final(self).intact() == old(self).intact()
                &&& final(self).sent() == old(self).sent()
                &&& final(self).received() == old(self).received()
                &&& final(self).partial() == old(self).partial()
                &&& final(self).recv_waiters() == old(self).recv_waiters()
                &&& final(self).socket() == old(self).socket()
            },
            old(self).outgoing().len() >= buffer_size ==> r == Some((msg, to)) && *final(self) == *old(self),
    {
        if self.msg.len() >= buffer_size {
            return Some((msg, to));
        }
        let ghost q0 = self.msg@;
        let ghost m = msg@;
        let ghost whole = msg;
        self.msg.push_back(msg);
        self.send_responders.push(Some(to));
        self.queued = Ghost(self.queued@.push(m));
        self.kind.write();
        proof {
            assert(views(self.msg@) =~= views(q0).push(m));
            lemma_wire_all_push(views(q0), m);
            lemma_wire_all_push(old(self).queued@, m);
            if self.intact@ {
                assert(self.sent@ + self.outgoing_frames() =~= wire_all(self.queued@));
            }
            assert forall|i: int| 0 <= i < self.msg@.len() implies #[trigger] self.msg@[i].frames@.len() > 0 by {
                if i < q0.len() {
                    assert(self.msg@[i] == old(self).msg@[i]);
                    assert(old(self).msg@[i].frames@.len() > 0);
                } else {
                    assert(self.msg@[i] == whole);
                    assert(whole@.len() == whole.frames@.len());
                }
            }
        }
        None
    }

    /// Adds the responder of a receive request to the waiting ones and
    /// arms reading.
    pub(crate) fn recv_responder(&mut self, to: R)
        requires
            old(self).wf(),
        ensures
            final(self).wf(),
            *final(self) == (Pollable {
                recv_responders: final(self).recv_responders,
                kind: final(self).kind,
                ..*old(self)
            }),
            final(self).recv_waiters() == old(self).recv_waiters().push(to),
            final(self).arms().reads(),
            final(self).arms().writes() == old(self).arms().writes(),
    {
        self.recv_responders.push(to);
        self.kind.read();
    }

    /// Takes out the responder of the `k`-th queued multipart, if any, so
    /// that the caller can check whether its requester went away. The
    /// multipart stays queued; unless the responder is put back, no reply
    /// reaches it.
    pub(crate) fn take_send_responder(&mut self, k: usize) -> (r: Option<R>)
        requires
            old(self).wf(),
        ensures
            Self::take_send_post(*old(self), *final(self), k, r),
    {
        if k >= self.send_responders.len() {
            return None;
        }
        let mut slot: Option<R> = None;
        std::mem::swap(&mut self.send_responders[k], &mut slot);
        slot
    }

    /// Puts back the responder of the `k`-th queued multipart.
    pub(crate) fn restore_send_responder(&mut self, k: usize, to: R)
        requires
            old(self).wf(),
        ensures
            Self::restore_send_post(*old(self), *final(self), k, to),
    {
        if k < self.send_responders.len() {
            self.send_responders.set(k, Some(to));
        }
    }

    /// Takes out the `k`-th waiting receive responder, so that the caller
    /// can check whether its requester went away; reading is disarmed when
    /// nobody is left waiting.
    pub(crate) fn take_recv_responder(&mut self, k: usize) -> (r: Option<R>)
        requires
            old(self).wf(),
        ensures
            Self::take_recv_post(*old(self), *final(self), k, r),
    {
        if k >= self.recv_responders.len() {
            return None;
        }
        let r = self.recv_responders.remove(k);
        if self.recv_responders.len() == 0 {
            self.kind.clear_read();
        }
        Some(r)
    }

    /// Puts a receive responder back at position `k` (at the end when `k`
    /// is past it) and arms reading.
    pub(crate) fn restore_recv_responder(&mut self, k: usize, to: R)
        requires
            old(self).wf(),
        ensures
            Self::restore_recv_post(*old(self), *final(self), k, to),
    {
        if k <= self.recv_responders.len() {
            self.recv_responders.insert(k, to);
        } else {
            self.recv_responders.push(to);
        }
        self.kind.read();
    }

    /// Hands the oldest unclaimed received multipart out, if any.
    pub(crate) fn take_received(&mut self) -> (r: Option<Multipart>)
        ensures
            old(self).received().len() == 0 ==> r is None && *final(self) == *old(self),
            old(self).received().len() > 0 ==> {
                &&& r is Some && r->Some_0@ == old(self).received()[0]
                &&& final(self).received() == old(self).received().drop_first()
                &&& *final(self) == (Pollable { pending_recv_msg: final(self).pending_recv_msg, ..*old(self) })
            },
    {
        if self.pending_recv_msg.len() == 0 {
            return None;
        }
        let ghost q0 = self.pending_recv_msg@;
        let r = self.pending_recv_msg.pop_front();
        assert(views(self.pending_recv_msg@) =~= views(q0).drop_first());
        r
    }

    /// The next frame to send: the head frame of the head queued multipart,
    /// with its more-flag; none when nothing is queued.
    pub(crate) fn next_frame(&self) -> (r: Option<Frame>)
        requires
            self.wf(),
        ensures
            Self::next_frame_post(*self, *self, r),
    {
        if self.msg.len() == 0 {
            assert(self.outgoing() =~= Seq::<Seq<Seq<u8>>>::empty());
            return None;
        }
        let head = &self.msg[0];
        let n = head.frames.len();
        assert(self.msg@[0].frames@.len() > 0);
        let data = head.frames[0].clone();
        proof {
            lemma_wire_all_front(self.outgoing());
            lemma_wire_head(self.outgoing()[0]);
        }
        Some(Frame { data, more: n > 1 })
    }

    /// Removes the head multipart and its responder; disarms writing once
    /// nothing is queued.
    fn pop_head(&mut self) -> (r: Option<R>)
        requires
            old(self).msg@.len() > 0,
            old(self).send_responders@.len() == old(self).msg@.len(),
            forall|i: int| 0 <= i < old(self).msg@.len() ==> #[trigger] old(self).msg@[i].frames@.len() > 0,
        ensures
            r == old(self).send_waiters()[0],
            final(self).outgoing() == old(self).outgoing().drop_first(),
            final(self).send_waiters() == old(self).send_waiters().drop_first(),
            final(self).send_responders@.len() == final(self).msg@.len(),
            forall|i: int| 0 <= i < final(self).msg@.len() ==> #[trigger] final(self).msg@[i].frames@.len() > 0,
            final(self).kind.writes() == (final(self).msg@.len() > 0),
            final(self).kind.reads() == old(self).kind.reads(),
            *final(self) == (Pollable {
                msg: final(self).msg,
                send_responders: final(self).send_responders,
                kind: final(self).kind,
                ..*old(self)
            }),
    {
        let ghost q0 = self.outgoing();
        self.msg.pop_front();
        let r = self.send_responders.remove(0);
        proof {
            assert(self.outgoing() =~= q0.drop_first());
            assert(self.send_responders@ =~= old(self).send_responders@.drop_first());
            assert forall|i: int| 0 <= i < self.msg@.len() implies #[trigger] self.msg@[i].frames@.len() > 0 by {
                assert(self.msg@[i] == old(self).msg@[i + 1]);
            }
        }
        if self.msg.len() == 0 {
            self.kind.clear_write();
        } else {
            self.kind.write();
        }
        r
    }

    /// Reports what the native send gave for the frame from `next_frame`,
    /// and says whether the round goes on with another frame.
    ///
    /// An accepted frame is recorded as sent; when it was the last frame of
    /// its multipart, that multipart's responder, if still there, is told
    /// `Sent`. When the socket would block nothing changes and the round
    /// ends. Any other error drops the head multipart, tells its responder,
    /// and ends the round; writing stays armed while more is queued.
    pub(crate) fn on_send(
        &mut self,
        outcome: Result<(), NativeError>,
    ) -> (r: (Option<Reply<R>>, bool))
        requires
            old(self).wf(),
            old(self).outgoing().len() > 0,
        ensures
            Self::on_send_post(*old(self), *final(self), outcome, r),
    {
        let ghost q0 = self.outgoing();
        proof {
            assert(old(self).msg@[0].frames@.len() > 0);
            assert(q0[0].len() > 0);
            lemma_wire_all_front(q0);
            lemma_wire_head(q0[0]);
        }
        match outcome {
            Ok(()) => {
                self.sent = Ghost(self.sent@.push((q0[0][0], q0[0].len() > 1)));
                if self.msg[0].frames.len() > 1 {
                    let ghost m0 = self.msg@;
                    let mut head = self.msg.pop_front().unwrap();
                    head.frames.remove(0);
                    self.msg.push_front(head);
                    proof {
                        assert(self.outgoing()[0] =~= q0[0].drop_first());
                        assert(self.outgoing() =~= q0.update(0, q0[0].drop_first()));
                        assert(self.outgoing().drop_first() =~= q0.drop_first());
                        lemma_wire_all_front(self.outgoing());
                        assert(self.outgoing_frames() =~= old(self).outgoing_frames().drop_first());
                        assert forall|i: int| 0 <= i < self.msg@.len() implies #[trigger] self.msg@[i].frames@.len() > 0 by {
                            if i > 0 {
                                assert(self.msg@[i] == m0[i]);
                                assert(old(self).msg@[i].frames@.len() > 0);
                            } else {
                                assert(self.msg@[0].frames@.len() + 1 == m0[0].frames@.len());
                            }
                        }
                        if self.intact@ {
                            assert(self.sent@ + self.outgoing_frames() =~= old(self).sent@ + old(self).outgoing_frames());
                        }
                    }
                    (None, true)
                } else {
                    let w = self.pop_head();
                    proof {
                        assert(wire(q0[0].drop_first()) =~= Seq::<(Seq<u8>, bool)>::empty());
                        assert(self.outgoing_frames() =~= old(self).outgoing_frames().drop_first());
                        if self.intact@ {
                            assert(self.sent@ + self.outgoing_frames() =~= old(self).sent@ + old(self).outgoing_frames());
                        }
                    }
                    let reply = match w {
                        Some(to) => Some(Reply { to, response: Response::Sent }),
                        None => None,
                    };
                    (reply, self.msg.len() > 0)
                }
            },
            Err(NativeError::WouldBlock) => (None, false),
            Err(e) => {
                self.intact = Ghost(false);
                let w = self.pop_head();
                let reply = match w {
                    Some(to) => Some(Reply { to, response: Response::Error(e.surface()) }),
                    None => None,
                };
                (reply, false)
            },
        }
    }

    /// Reports what the native receive gave, and says whether the round
    /// goes on with another read.
    ///
    /// A frame joins the multipart being received; its last frame completes
    /// it, and the multipart goes to the oldest waiting receive responder,
    /// or else to the queue of unclaimed multiparts; reading stays armed
    /// only while responders wait. When nothing is available the round
    /// ends. A wrong-state error disarms reading and ends the round; any
    /// other error also disarms reading and tells the oldest waiting
    /// responder, if any. Frames received so far are never dropped.
    pub(crate) fn on_recv(
        &mut self,
        outcome: Result<Frame, NativeError>,
    ) -> (r: (Option<Reply<R>>, bool))
        requires
            old(self).wf(),
        ensures
            Self::on_recv_post(*old(self), *final(self), outcome, r),
    {
        match outcome {
            Ok(frame) => {
                self.partial.push_back(frame.data);
                if frame.more {
                    return (None, true);
                }
                let mut done = Multipart::new();
                std::mem::swap(&mut self.partial, &mut done);
                if self.recv_responders.len() > 0 {
                    let to = self.recv_responders.remove(0);
                    if self.recv_responders.len() == 0 {
                        self.kind.clear_read();
                    }
                    (Some(Reply { to, response: Response::Received(done) }), true)
                } else {
                    self.kind.clear_read();
                    let ghost q0 = self.pending_recv_msg@;
                    let ghost m = done@;
                    self.pending_recv_msg.push_back(done);
                    assert(views(self.pending_recv_msg@) =~= views(q0).push(m));
                    (None, true)
                }
            },
            Err(NativeError::WouldBlock) => {
                if self.recv_responders.len() == 0 {
                    self.kind.clear_read();
                }
                (None, false)
            },
            Err(NativeError::WrongState) => {
                self.kind.clear_read();
                (None, false)
            },
            Err(e) => {
                self.kind.clear_read();
                if self.recv_responders.len() > 0 {
                    let to = self.recv_responders.remove(0);
                    (Some(Reply { to, response: Response::Error(e.surface()) }), false)
                } else {
                    (None, false)
                }
            },
        }
    }
}

} // verus!
