use vstd::prelude::*;

use std::collections::BTreeMap;

use vstd::std_specs::btree::{increasing_seq, spec_btree_map_iter};
use vstd::std_specs::cmp::OrdSpec;
use vstd::std_specs::iter::IteratorSpec;

use crate::error::{Error, NativeError};
use crate::message::{Frame, Multipart, wire};
use crate::pollable::{Pollable, Reply, Response};

verus! {

/// A request to the worker that owns every socket.
pub enum Request<K, R> {
    /// Register a socket; the reply carries its id.
    Init(K, R),
    /// Queue a multipart on a socket, holding at most the given number queued.
    SendMessage(usize, Multipart, usize, R),
    /// Ask for the next multipart received on a socket.
    ReceiveMessage(usize, R),
    /// Forget a socket.
    DropSocket(usize),
    /// Stop after the current iteration.
    Done,
}

/// The worker that owns every socket: it registers sockets under fresh ids,
/// queues their sends and receives, and runs their rounds of native I/O.
pub struct Worker<K, R> {
    pub(crate) next_sock_id: usize,
    pub(crate) should_stop: bool,
    pub(crate) sockets: BTreeMap<usize, Pollable<K, R>>,
}

impl<K, R> Worker<K, R> {
    /// Every registered id was issued before the next one, and every
    /// socket's state is well formed.
    pub open(crate) spec fn wf(&self) -> bool {
        forall|id: usize| #[trigger] self.sockets@.contains_key(id) ==> id < self.next_sock_id
            && self.sockets@[id].wf()
    }

    /// Whether a socket is registered under `id`.
    pub open(crate) spec fn has_socket(&self, id: usize) -> bool {
        self.sockets@.contains_key(id)
    }

    /// The state of the socket registered under `id`.
    pub open(crate) spec fn pollable(&self, id: usize) -> Pollable<K, R> {
        self.sockets@[id]
    }

    /// The id the next registered socket gets.
    pub open(crate) spec fn next_id(&self) -> usize {
        self.next_sock_id
    }

    pub open(crate) spec fn stopping(&self) -> bool {
        self.should_stop
    }

    /// Every socket but the one under `id` is as it was.
    pub open(crate) spec fn others_unchanged(&self, other: Worker<K, R>, id: usize) -> bool {
        forall|j: usize|
            j != id ==> (#[trigger] self.has_socket(j) == other.has_socket(j) && (self.has_socket(j)
                ==> self.pollable(j) == other.pollable(j)))
    }

    /// After the state under `id` was replaced, the registry is well formed
    /// and only that socket changed.
    proof fn lemma_replaced(after: Worker<K, R>, before: Worker<K, R>, id: usize)
        requires
            before.wf(),
            before.has_socket(id),
            after.next_sock_id == before.next_sock_id,
            after.sockets@ == before.sockets@.remove(id).insert(id, after.sockets@[id]),
            after.sockets@[id].wf(),
        ensures
            after.wf(),
            after.has_socket(id),
            after.others_unchanged(before, id),
    {
        assert(after.sockets@ =~= before.sockets@.insert(id, after.sockets@[id]));
    }

    /// A worker with no socket.
    pub fn new() -> (r: Worker<K, R>)
        ensures
            r.wf(),
            forall|id: usize| !r.has_socket(id),
            r.next_id() == 0,
            !r.stopping(),
    {
        Worker { next_sock_id: 0, should_stop: false, sockets: BTreeMap::new() }
    }

    pub fn should_stop(&self) -> (r: bool)
        ensures
            r == self.stopping(),
    {
        self.should_stop
    }

    /// How `init` relates the worker before and after, and its reply.
    pub open(crate) spec fn init_post(
        pre: Worker<K, R>,
        post: Worker<K, R>,
        sock: K,
        to: R,
        r: Reply<R>,
    ) -> bool {
        &&& post.wf()
        &&& post.stopping() == pre.stopping()
        &&& pre.next_id() < usize::MAX ==> {
            &&& !pre.has_socket(pre.next_id())
            &&& post.has_socket(pre.next_id())
            &&& post.pollable(pre.next_id()).is_fresh(sock)
            &&& post.next_id() == pre.next_id() + 1
            &&& r == Reply { to, response: Response::Registered(pre.next_id()) }
            &&& post.others_unchanged(pre, pre.next_id())
        }
        &&& pre.next_id() == usize::MAX ==> {
            &&& post == pre
            &&& r == Reply { to, response: Response::Error(Error::IdsExhausted) }
        }
    }

    /// Registers `sock` under the next id, which is one more than the
    /// previous one; once every id has been issued, the socket is refused.
    pub fn init(&mut self, sock: K, to: R) -> (r: Reply<R>)
        requires
            old(self).wf(),
        ensures
            Self::init_post(*old(self), *final(self), sock, to, r),
    {
        if self.next_sock_id == usize::MAX {
            return Reply { to, response: Response::Error(Error::IdsExhausted) };
        }
        let id = self.next_sock_id;
        let ghost before = *self;
        self.sockets.insert(id, Pollable::new(sock));
        self.next_sock_id = id + 1;
        proof {
            assert(!before.has_socket(id));
            assert forall|j: usize| #[trigger] self.sockets@.contains_key(j) implies j < self.next_sock_id
                && self.sockets@[j].wf() by {
                if j != id {
                    assert(before.sockets@.contains_key(j));
                }
            }
        }
        Reply { to, response: Response::Registered(id) }
    }

    /// How `drop_socket` relates the worker before and after.
    pub open(crate) spec fn drop_post(pre: Worker<K, R>, post: Worker<K, R>, id: usize) -> bool {
        &&& post.wf()
        &&& post.stopping() == pre.stopping()
        &&& post.next_id() == pre.next_id()
        &&& !post.has_socket(id)
        &&& post.others_unchanged(pre, id)
    }

    /// Forgets the socket under `id`, if any.
    pub fn drop_socket(&mut self, id: usize)
        requires
            old(self).wf(),
        ensures
            Self::drop_post(*old(self), *final(self), id),
    {
        if self.sockets.contains_key(&id) {
            let ghost before = *self;
            self.sockets.remove(&id);
            assert(self.sockets@ =~= before.sockets@.remove(id));
        }
    }

    /// How `send_message` relates the worker before and after, and its reply.
    pub open(crate) spec fn send_post(
        pre: Worker<K, R>,
        post: Worker<K, R>,
        id: usize,
        msg: Multipart,
        buffer_size: usize,
        to: R,
        r: Option<Reply<R>>,
    ) -> bool {
        let (p, q) = (pre.pollable(id), post.pollable(id));
        &&& post.wf()
        &&& !pre.has_socket(id) ==> post == pre && r is None
        &&& pre.has_socket(id) && msg@.len() == 0 ==> {
            &&& post == pre
            &&& r == Some(Reply { to, response: Response::Sent })
        }
        &&& pre.has_socket(id) && msg@.len() > 0 && p.outgoing().len() < buffer_size ==> {
            &&& r is None
            &&& post.has_socket(id)
            &&& post.others_unchanged(pre, id)
            &&& post.next_id() == pre.next_id() && post.stopping() == pre.stopping()
            &&& q.outgoing() == p.outgoing().push(msg@)
            &&& q.outgoing_frames() == p.outgoing_frames() + wire(msg@)
            &&& q.send_waiters() == p.send_waiters().push(Some(to))
            &&& q.queued() == p.queued().push(msg@) && q.intact() == p.intact()
            &&& q.arms().writes() && q.arms().reads() == p.arms().reads()
            &&& q.recv_waiters() == p.recv_waiters()
            &&& q.received() == p.received() && q.partial() == p.partial()
            &&& q.sent() == p.sent() && q.socket() == p.socket()
        }
        &&& pre.has_socket(id) && msg@.len() > 0 && p.outgoing().len() >= buffer_size ==> {
            &&& post == pre
            &&& r == Some(Reply { to, response: Response::Full(msg) })
        }
    }

    /// Queues `msg` on the socket under `id` with `to` as its own responder
    /// and arms the socket for writing, when fewer than `buffer_size`
    /// multiparts are queued there; earlier responders keep their place. A
    /// full queue hands the multipart back; a multipart without frames has
    /// nothing to send and is answered `Sent` at once. A request for an
    /// unknown socket is dropped.
    pub fn send_message(
        &mut self,
        id: usize,
        msg: Multipart,
        buffer_size: usize,
        to: R,
    ) -> (r: Option<Reply<R>>)
        requires
            old(self).wf(),
        ensures
            Self::send_post(*old(self), *final(self), id, msg, buffer_size, to, r),
    {
        if !self.sockets.contains_key(&id) {
            return None;
        }
        if msg.is_empty() {
            return Some(Reply { to, response: Response::Sent });
        }
        let queued = match self.sockets.get(&id) {
            Some(p) => p.msg.len(),
            None => 0,
        };
        if queued >= buffer_size {
            return Some(Reply { to, response: Response::Full(msg) });
        }
        let ghost before = *self;
        let mut p = self.sockets.remove(&id).unwrap();
        let _ = p.message(msg, to, buffer_size);
        self.sockets.insert(id, p);
        proof {
            Self::lemma_replaced(*self, before, id);
        }
        None
    }

    /// How `receive_message` relates the worker before and after, and its
    /// reply.
    pub open(crate) spec fn recv_post(
        pre: Worker<K, R>,
        post: Worker<K, R>,
        id: usize,
        to: R,
        r: Option<Reply<R>>,
    ) -> bool {
        let (p, q) = (pre.pollable(id), post.pollable(id));
        &&& post.wf()
        &&& !pre.has_socket(id) ==> post == pre && r is None
        &&& pre.has_socket(id) ==> {
            &&& post.has_socket(id)
            &&& post.others_unchanged(pre, id)
            &&& post.next_id() == pre.next_id() && post.stopping() == pre.stopping()
            &&& q.outgoing() == p.outgoing() && q.sent() == p.sent() && q.socket() == p.socket()
            &&& q.queued() == p.queued() && q.intact() == p.intact()
            &&& q.send_waiters() == p.send_waiters() && q.partial() == p.partial()
            &&& q.arms().writes() == p.arms().writes()
        }
        &&& pre.has_socket(id) && p.received().len() > 0 ==> {
            &&& r is Some && r->Some_0.to == to
            &&& r->Some_0.response is Received
            &&& r->Some_0.response->Received_0@ == p.received()[0]
            &&& q.received() == p.received().drop_first()
            &&& q.recv_waiters() == p.recv_waiters() && q.arms() == p.arms()
        }
        &&& pre.has_socket(id) && p.received().len() == 0 ==> {
            &&& r is None
            &&& q.received() == p.received()
            &&& q.recv_waiters() == p.recv_waiters().push(to)
            &&& q.arms().reads()
        }
    }

    /// Answers at once with the oldest unclaimed multipart of the socket
    /// under `id`; when there is none, adds `to` to the waiting responders
    /// and arms the socket for reading. A request for an unknown socket is
    /// dropped.
    pub fn receive_message(&mut self, id: usize, to: R) -> (r: Option<Reply<R>>)
        requires
            old(self).wf(),
        ensures
            Self::recv_post(*old(self), *final(self), id, to, r),
    {
        if !self.sockets.contains_key(&id) {
            return None;
        }
        let ghost before = *self;
        let mut p = self.sockets.remove(&id).unwrap();
        let r = match p.take_received() {
            Some(m) => Some(Reply { to, response: Response::Received(m) }),
            None => {
                p.recv_responder(to);
                None
            },
        };
        self.sockets.insert(id, p);
        proof {
            Self::lemma_replaced(*self, before, id);
        }
        r
    }

    /// Handles one request, and gives the reply to send at once, if any.
    pub fn handle_request(&mut self, request: Request<K, R>) -> (r: Option<Reply<R>>)
        requires
            old(self).wf(),
        ensures
            final(self).wf(),
            match request {
                Request::Init(sock, to) => r is Some && Self::init_post(*old(self), *final(self), sock, to, r->Some_0),
                Request::SendMessage(id, msg, buffer_size, to) => Self::send_post(
                    *old(self),
                    *final(self),
                    id,
                    msg,
                    buffer_size,
                    to,
                    r,
                ),
                Request::ReceiveMessage(id, to) => Self::recv_post(*old(self), *final(self), id, to, r),
                Request::DropSocket(id) => r is None && Self::drop_post(*old(self), *final(self), id),
                Request::Done => {
                    &&& r is None
                    &&& final(self).stopping()
                    &&& forall|id: usize| #[trigger] final(self).has_socket(id) == old(self).has_socket(id)
                    &&& forall|id: usize| old(self).has_socket(id) ==> #[trigger] final(self).pollable(id)
                        == old(self).pollable(id)
                    &&& final(self).next_id() == old(self).next_id()
                },
            },
    {
        match request {
            Request::Init(sock, to) => Some(self.init(sock, to)),
            Request::SendMessage(id, msg, buffer_size, to) => self.send_message(id, msg, buffer_size, to),
            Request::ReceiveMessage(id, to) => self.receive_message(id, to),
            Request::DropSocket(id) => {
                self.drop_socket(id);
                None
            },
            Request::Done => {
                self.should_stop = true;
                None
            },
        }
    }

    /// The next frame to send on the socket under `id`; see
    /// `Pollable::next_frame`. An unknown socket has none.
    pub fn next_frame(&self, id: usize) -> (r: Option<Frame>)
        requires
            self.wf(),
        ensures
            !self.has_socket(id) ==> r is None,
            self.has_socket(id) ==> Pollable::next_frame_post(self.pollable(id), self.pollable(id), r),
    {
        match self.sockets.get(&id) {
            Some(p) => p.next_frame(),
            None => None,
        }
    }

    /// Reports what the native send gave for the frame from `next_frame` on
    /// the socket under `id`, and says whether the round goes on; see
    /// `Pollable::on_send`. When that socket has no frame to send, nothing
    /// changes and the round ends.
    pub fn on_send(
        &mut self,
        id: usize,
        outcome: Result<(), NativeError>,
    ) -> (r: (Option<Reply<R>>, bool))
        requires
            old(self).wf(),
        ensures
            final(self).wf(),
            !(old(self).has_socket(id) && old(self).pollable(id).outgoing().len() > 0) ==> r.0 is None && !r.1
                && *final(self) == *old(self),
            old(self).has_socket(id) && old(self).pollable(id).outgoing().len() > 0 ==> {
                &&& final(self).has_socket(id)
                &&& final(self).others_unchanged(*old(self), id)
                &&& final(self).next_id() == old(self).next_id() && final(self).stopping() == old(self).stopping()
                &&& Pollable::on_send_post(old(self).pollable(id), final(self).pollable(id), outcome, r)
            },
    {
        if !self.sockets.contains_key(&id) {
            return (None, false);
        }
        let queued = match self.sockets.get(&id) {
            Some(p) => p.msg.len(),
            None => 0,
        };
        if queued == 0 {
            return (None, false);
        }
        let ghost before = *self;
        let mut p = self.sockets.remove(&id).unwrap();
        let r = p.on_send(outcome);
        self.sockets.insert(id, p);
        proof {
            Self::lemma_replaced(*self, before, id);
        }
        r
    }

    /// Reports what the native receive gave on the socket under `id`, and
    /// says whether the round goes on; see `Pollable::on_recv`. An unknown
    /// socket ends the round.
    pub fn on_recv(
        &mut self,
        id: usize,
        outcome: Result<Frame, NativeError>,
    ) -> (r: (Option<Reply<R>>, bool))
        requires
            old(self).wf(),
        ensures
            final(self).wf(),
            !old(self).has_socket(id) ==> r.0 is None && !r.1 && *final(self) == *old(self),
            old(self).has_socket(id) ==> {
                &&& final(self).has_socket(id)
                &&& final(self).others_unchanged(*old(self), id)
                &&& final(self).next_id() == old(self).next_id() && final(self).stopping() == old(self).stopping()
                &&& Pollable::on_recv_post(old(self).pollable(id), final(self).pollable(id), outcome, r)
            },
    {
        if !self.sockets.contains_key(&id) {
            return (None, false);
        }
        let ghost before = *self;
        let mut p = self.sockets.remove(&id).unwrap();
        let r = p.on_recv(outcome);
        self.sockets.insert(id, p);
        proof {
            Self::lemma_replaced(*self, before, id);
        }
        r
    }

    /// Takes out the responder of the `k`-th multipart queued on the socket
    /// under `id`, so that the caller can check whether its requester went
    /// away; see `Pollable::take_send_responder`. Unless it is put back, no
    /// reply reaches it.
    pub fn take_send_responder(&mut self, id: usize, k: usize) -> (r: Option<R>)
        requires
            old(self).wf(),
        ensures
            final(self).wf(),
            !old(self).has_socket(id) ==> r is None && *final(self) == *old(self),
            old(self).has_socket(id) ==> {
                &&& final(self).has_socket(id)
                &&& final(self).others_unchanged(*old(self), id)
                &&& final(self).next_id() == old(self).next_id() && final(self).stopping() == old(self).stopping()
                &&& Pollable::take_send_post(old(self).pollable(id), final(self).pollable(id), k, r)
            },
    {
        if !self.sockets.contains_key(&id) {
            return None;
        }
        let ghost before = *self;
        let mut p = self.sockets.remove(&id).unwrap();
        let r = p.take_send_responder(k);
        self.sockets.insert(id, p);
        proof {
            Self::lemma_replaced(*self, before, id);
        }
        r
    }

    /// Puts back the responder of the `k`-th multipart queued on the socket
    /// under `id`.
    pub fn restore_send_responder(&mut self, id: usize, k: usize, to: R)
        requires
            old(self).wf(),
        ensures
            final(self).wf(),
            !old(self).has_socket(id) ==> *final(self) == *old(self),
            old(self).has_socket(id) ==> {
                &&& final(self).has_socket(id)
                &&& final(self).others_unchanged(*old(self), id)
                &&& final(self).next_id() == old(self).next_id() && final(self).stopping() == old(self).stopping()
                &&& Pollable::restore_send_post(old(self).pollable(id), final(self).pollable(id), k, to)
            },
    {
        if !self.sockets.contains_key(&id) {
            return;
        }
        let ghost before = *self;
        let mut p = self.sockets.remove(&id).unwrap();
        p.restore_send_responder(k, to);
        self.sockets.insert(id, p);
        proof {
            Self::lemma_replaced(*self, before, id);
        }
    }

    /// Takes out the `k`-th waiting receive responder of the socket under
    /// `id`; see `Pollable::take_recv_responder`.
    pub fn take_recv_responder(&mut self, id: usize, k: usize) -> (r: Option<R>)
        requires
            old(self).wf(),
        ensures
            final(self).wf(),
            !old(self).has_socket(id) ==> r is None && *final(self) == *old(self),
            old(self).has_socket(id) ==> {
                &&& final(self).has_socket(id)
                &&& final(self).others_unchanged(*old(self), id)
                &&& final(self).next_id() == old(self).next_id() && final(self).stopping() == old(self).stopping()
                &&& Pollable::take_recv_post(old(self).pollable(id), final(self).pollable(id), k, r)
            },
    {
        if !self.sockets.contains_key(&id) {
            return None;
        }
        let ghost before = *self;
        let mut p = self.sockets.remove(&id).unwrap();
        let r = p.take_recv_responder(k);
        self.sockets.insert(id, p);
        proof {
            Self::lemma_replaced(*self, before, id);
        }
        r
    }

    /// Puts a receive responder back at position `k` of the socket under
    /// `id`.
    pub fn restore_recv_responder(&mut self, id: usize, k: usize, to: R)
        requires
            old(self).wf(),
        ensures
            final(self).wf(),
            !old(self).has_socket(id) ==> *final(self) == *old(self),
            old(self).has_socket(id) ==> {
                &&& final(self).has_socket(id)
                &&& final(self).others_unchanged(*old(self), id)
                &&& final(self).next_id() == old(self).next_id() && final(self).stopping() == old(self).stopping()
                &&& Pollable::restore_recv_post(old(self).pollable(id), final(self).pollable(id), k, to)
            },
    {
        if !self.sockets.contains_key(&id) {
            return;
        }
        let ghost before = *self;
        let mut p = self.sockets.remove(&id).unwrap();
        p.restore_recv_responder(k, to);
        self.sockets.insert(id, p);
        proof {
            Self::lemma_replaced(*self, before, id);
        }
    }

    /// How many queued multiparts, and so send responder slots, the socket
    /// under `id` has.
    pub fn send_waiting(&self, id: usize) -> (r: usize)
        requires
            self.wf(),
        ensures
            !self.has_socket(id) ==> r == 0,
            self.has_socket(id) ==> r == self.pollable(id).send_waiters().len(),
    {
        match self.sockets.get(&id) {
            Some(p) => p.send_responders.len(),
            None => 0,
        }
    }

    /// How many receive responders wait on the socket under `id`.
    pub fn recv_waiting(&self, id: usize) -> (r: usize)
        requires
            self.wf(),
        ensures
            !self.has_socket(id) ==> r == 0,
            self.has_socket(id) ==> r == self.pollable(id).recv_waiters().len(),
    {
        match self.sockets.get(&id) {
            Some(p) => p.recv_responders.len(),
            None => 0,
        }
    }

    /// The registered sockets, in increasing id order, each with the event
    /// mask it is armed for: what the next poll waits on.
    pub fn interests(&self) -> (r: Vec<(usize, i16)>)
        requires
            self.wf(),
        ensures
            forall|i: int| 0 <= i < r@.len() ==> #[trigger] self.has_socket(r@[i].0) && r@[i].1 == self.pollable(
                r@[i].0,
            ).arms().spec_events(),
            forall|i: int, j: int| 0 <= i < j < r@.len() ==> #[trigger] r@[i].0 < #[trigger] r@[j].0,
            forall|id: usize| #[trigger] self.has_socket(id) ==> exists|i: int| 0 <= i < r@.len() && r@[i].0 == id,
    {
        let mut r: Vec<(usize, i16)> = Vec::new();
        let ghost m = self.sockets;
        let ghost keys = spec_btree_map_iter(&self.sockets).remaining().map_values(
            |kv: (&usize, &Pollable<K, R>)| *kv.0,
        );
        for (id, p) in it: self.sockets.iter()
            invariant
                self.wf(),
                m == self.sockets,
                it.seq() == spec_btree_map_iter(&m).remaining(),
                r@.len() == it.index(),
                forall|j: int|
                    0 <= j < r@.len() ==> #[trigger] r@[j] == (*it.seq()[j].0, it.seq()[j].1.kind.spec_events()),
        {
            r.push((*id, p.kind.as_events()));
        }
        proof {
            let v = spec_btree_map_iter(&m).remaining();
            assert(increasing_seq(keys));
            assert(r@.len() == v.len());
            assert forall|i: int| 0 <= i < r@.len() implies #[trigger] self.has_socket(r@[i].0) && r@[i].1
                == self.pollable(r@[i].0).arms().spec_events() by {
                assert(m@.contains_key(*v[i].0));
            }
            assert forall|i: int, j: int| 0 <= i < j < r@.len() implies #[trigger] r@[i].0 < #[trigger] r@[j].0 by {
                assert(keys[i] == r@[i].0 && keys[j] == r@[j].0);
                assert(keys[i].cmp_spec(&keys[j]) is Less);
            }
            assert forall|id: usize| #[trigger] self.has_socket(id) implies exists|i: int|
                0 <= i < r@.len() && r@[i].0 == id by {
                assert(m@.contains_key(id));
                assert(v.contains((&id, &m@[id])));
                let i = choose|i: int| 0 <= i < v.len() && v[i] == (&id, &m@[id]);
                assert(r@[i].0 == id);
            }
        }
        r
    }

    /// The socket registered under `id`, for its native I/O.
    pub fn socket(&self, id: usize) -> (r: Option<&K>)
        requires
            self.wf(),
        ensures
            r is None <==> !self.has_socket(id),
            r is Some ==> *r->Some_0 == self.pollable(id).socket(),
    {
        match self.sockets.get(&id) {
            Some(p) => Some(p.sock()),
            None => None,
        }
    }
}

} // verus!
