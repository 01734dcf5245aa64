use futures_zmq::error::{Error, NativeError};
use futures_zmq::future::{MultipartRequest, MultipartResponse, RequestStep, ResponseStep};
use futures_zmq::message::{Frame, Multipart};
use futures_zmq::poll_kind::PollKind;
use futures_zmq::pollable::Response;
use futures_zmq::readiness::{reconcile, Direction, POLLIN, POLLOUT};
use futures_zmq::recv::{RecvMachine, RecvStep};
use futures_zmq::remote::{
    RecvReply, RemoteRecv, RemoteRecvStep, RemoteRequest, RemoteRequestStep, RemoteResponse, RemoteResponseStep,
    RemoteSend, RemoteSendStep, RemoteSink, SendReply,
};
use futures_zmq::schedule::{schedule, Action};
use futures_zmq::send::{SendMachine, SendStep};
use futures_zmq::sink::{AsyncSink, SinkBuffer};
use futures_zmq::sink_stream::MultipartSinkStream;
use futures_zmq::wakeup::WakeFlag;
use futures_zmq::worker::{Request, Worker};

fn mp(parts: &[&str]) -> Multipart {
    Multipart::from_frames(parts.iter().map(|p| p.as_bytes().to_vec()).collect())
}

fn frame(s: &str, more: bool) -> Frame {
    Frame { data: s.as_bytes().to_vec(), more }
}

fn transmitted(step: SendStep) -> Frame {
    match step {
        SendStep::Transmit(f) => f,
        _ => panic!("no frame handed out"),
    }
}

#[test]
fn sink_frames_arrive_in_acceptance_order() {
    let mut sink = SinkBuffer::new(3);
    assert!(matches!(sink.start_send(mp(&["a1", "a2"])), AsyncSink::Ready));
    assert!(matches!(sink.start_send(mp(&[])), AsyncSink::Ready));
    assert!(matches!(sink.start_send(mp(&["b1"])), AsyncSink::Ready));
    let mut wire: Vec<Frame> = Vec::new();
    let mut step = sink.poll_complete().unwrap();
    while let SendStep::Transmit(f) = step {
        wire.push(f);
        step = sink.on_send(Ok(())).unwrap();
    }
    assert!(matches!(step, SendStep::Complete));
    assert_eq!(wire, vec![frame("a1", true), frame("a2", false), frame("b1", false)]);
    assert_eq!(sink.len(), 0);

    let mut reader = RecvMachine::new();
    let mut out: Vec<Multipart> = Vec::new();
    for f in wire {
        if !reader.is_in_tick() {
            assert!(matches!(reader.poll_fetch(), Ok(RecvStep::Fetch)));
        }
        if let RecvStep::Ready(m) = reader.on_recv(Ok(f)).unwrap() {
            out.push(m);
        }
    }
    assert_eq!(out.len(), 2);
    assert_eq!(out[0].frames, mp(&["a1", "a2"]).frames);
    assert_eq!(out[1].frames, mp(&["b1"]).frames);
}

#[test]
fn sink_holds_at_most_buffer_size() {
    let mut sink = SinkBuffer::new(2);
    assert!(matches!(sink.start_send(mp(&["x"])), AsyncSink::Ready));
    assert!(matches!(sink.start_send(mp(&["y"])), AsyncSink::Ready));
    let third = mp(&["z", "zz"]);
    match sink.start_send(third.clone()) {
        AsyncSink::NotReady(back) => assert_eq!(back.frames, third.frames),
        AsyncSink::Ready => panic!("accepted a third multipart"),
    }
    assert_eq!(sink.len(), 2);
}

#[test]
fn zero_buffer_sink_accepts_nothing() {
    let mut sink = SinkBuffer::new(0);
    assert!(matches!(sink.start_send(mp(&["x"])), AsyncSink::NotReady(_)));
}

#[test]
fn completed_request_is_not_reusable() {
    let mut req = MultipartRequest::new(5u8, mp(&["only"]));
    let f = match req.poll().unwrap() {
        RequestStep::Transmit(f) => f,
        _ => panic!("no frame"),
    };
    assert_eq!(f, frame("only", false));
    assert!(matches!(req.on_send(Ok(())), Ok(RequestStep::Sent(5))));
    assert!(matches!(req.poll(), Err(Error::Reused)));
    assert!(matches!(req.poll(), Err(Error::Reused)));
}

#[test]
fn completed_response_is_not_reusable() {
    let mut resp = MultipartResponse::new('s');
    assert!(matches!(resp.poll(), Ok(ResponseStep::Fetch)));
    match resp.on_recv(Ok(frame("x", false))).unwrap() {
        ResponseStep::Received(m, s) => {
            assert_eq!(m.frames, mp(&["x"]).frames);
            assert_eq!(s, 's');
        }
        _ => panic!("nothing received"),
    }
    assert!(matches!(resp.poll(), Err(Error::Reused)));
}

#[test]
fn empty_sink_completes_at_once() {
    let mut sink = SinkBuffer::new(4);
    assert!(matches!(sink.poll_complete(), Ok(SendStep::Complete)));
    assert!(matches!(sink.poll_complete(), Ok(SendStep::Complete)));
    assert!(!sink.is_in_tick());
}

#[test]
fn send_reentrancy_keeps_frames() {
    let mut m = SendMachine::pending(mp(&["p", "q"]));
    let first = transmitted(m.poll_flush().unwrap());
    assert_eq!(first, frame("p", true));
    assert!(matches!(m.poll_flush(), Err(Error::Reentrancy)));
    let second = transmitted(m.on_send(Ok(())).unwrap());
    assert_eq!(second, frame("q", false));
    assert!(matches!(m.on_send(Ok(())), Ok(SendStep::Complete)));
    assert!(m.is_ready());
}

#[test]
fn recv_reentrancy_keeps_partial() {
    let mut r = RecvMachine::new();
    assert!(matches!(r.poll_fetch(), Ok(RecvStep::Fetch)));
    assert!(matches!(r.on_recv(Ok(frame("h", true))), Ok(RecvStep::Fetch)));
    assert!(matches!(r.poll_fetch(), Err(Error::Reentrancy)));
    match r.on_recv(Ok(frame("t", false))).unwrap() {
        RecvStep::Ready(m) => assert_eq!(m.frames, mp(&["h", "t"]).frames),
        _ => panic!("no multipart"),
    }
}

#[test]
fn sink_reentrancy_is_reported() {
    let mut sink = SinkBuffer::new(1);
    assert!(matches!(sink.start_send(mp(&["a"])), AsyncSink::Ready));
    assert!(matches!(sink.poll_complete(), Ok(SendStep::Transmit(_))));
    assert!(matches!(sink.poll_complete(), Err(Error::Reentrancy)));
    assert!(matches!(sink.on_send(Ok(())), Ok(SendStep::Complete)));
}

#[test]
fn would_block_suspends_and_resumes_same_frame() {
    let mut m = SendMachine::pending(mp(&["p", "q"]));
    transmitted(m.poll_flush().unwrap());
    assert!(matches!(m.on_send(Err(NativeError::WouldBlock)), Ok(SendStep::Suspended)));
    assert!(!m.is_in_tick());
    assert_eq!(transmitted(m.poll_flush().unwrap()), frame("p", true));
}

#[test]
fn recv_suspension_keeps_partial_frames() {
    let mut r = RecvMachine::new();
    r.poll_fetch().unwrap();
    r.on_recv(Ok(frame("one", true))).unwrap();
    assert!(matches!(r.on_recv(Err(NativeError::WouldBlock)), Ok(RecvStep::Suspended)));
    r.poll_fetch().unwrap();
    match r.on_recv(Ok(frame("two", false))).unwrap() {
        RecvStep::Ready(m) => assert_eq!(m.frames, mp(&["one", "two"]).frames),
        _ => panic!("no multipart"),
    }
}

#[test]
fn native_errors_surface() {
    let mut m = SendMachine::pending(mp(&["p"]));
    m.poll_flush().unwrap();
    assert!(matches!(m.on_send(Err(NativeError::Code(42))), Err(Error::Native(42))));
    assert!(m.is_ready());

    let mut r = RecvMachine::new();
    r.poll_fetch().unwrap();
    assert!(matches!(r.on_recv(Err(NativeError::WrongState)), Err(Error::WrongState)));

    assert!(NativeError::WouldBlock.is_transient());
    assert!(!NativeError::Code(1).is_transient());
    assert_eq!(NativeError::Code(9).surface(), Error::Native(9));
}

#[test]
fn failed_sink_send_drops_only_current() {
    let mut sink = SinkBuffer::new(2);
    sink.start_send(mp(&["bad", "x"]));
    sink.start_send(mp(&["good"]));
    sink.poll_complete().unwrap();
    assert!(matches!(sink.on_send(Err(NativeError::Code(3))), Err(Error::Native(3))));
    assert_eq!(sink.len(), 1);
    match sink.poll_complete().unwrap() {
        SendStep::Transmit(f) => assert_eq!(f, frame("good", false)),
        _ => panic!("queued multipart lost"),
    }
}

#[test]
fn worker_forgets_canceled_send() {
    let mut w: Worker<(), &str> = Worker::new();
    w.handle_request(Request::Init((), "init"));
    assert!(w.handle_request(Request::SendMessage(0, mp(&["m"]), 4, "sender")).is_none());
    assert_eq!(w.send_waiting(0), 1);
    assert_eq!(w.take_send_responder(0, 0), Some("sender"));
    assert_eq!(w.next_frame(0), Some(frame("m", false)));
    let (reply, more) = w.on_send(0, Ok(()));
    assert!(reply.is_none());
    assert!(!more);
}

#[test]
fn worker_replies_sent_after_queue_drains() {
    let mut w: Worker<(), u8> = Worker::new();
    w.handle_request(Request::Init((), 0));
    w.handle_request(Request::SendMessage(0, mp(&["a", "b"]), 4, 1));
    assert_eq!(w.interests(), vec![(0, POLLOUT)]);
    assert_eq!(w.next_frame(0), Some(frame("a", true)));
    let (reply, more) = w.on_send(0, Ok(()));
    assert!(reply.is_none() && more);
    assert_eq!(w.next_frame(0), Some(frame("b", false)));
    let (reply, more) = w.on_send(0, Ok(()));
    let reply = reply.unwrap();
    assert_eq!(reply.to, 1);
    assert!(matches!(reply.response, Response::Sent));
    assert!(!more);
    assert_eq!(w.interests(), vec![(0, 0)]);
}

#[test]
fn worker_full_queue_hands_back() {
    let mut w: Worker<(), u8> = Worker::new();
    w.handle_request(Request::Init((), 0));
    assert!(w.handle_request(Request::SendMessage(0, mp(&["a"]), 1, 1)).is_none());
    let reply = w.handle_request(Request::SendMessage(0, mp(&["b"]), 1, 2)).unwrap();
    assert_eq!(reply.to, 2);
    match reply.response {
        Response::Full(m) => assert_eq!(m.frames, mp(&["b"]).frames),
        _ => panic!("not full"),
    }
}

#[test]
fn worker_buffers_unclaimed_and_serves_later() {
    let mut w: Worker<(), u8> = Worker::new();
    w.handle_request(Request::Init((), 0));
    w.handle_request(Request::Init((), 0));
    assert!(w.handle_request(Request::ReceiveMessage(1, 9)).is_none());
    assert_eq!(w.interests(), vec![(0, 0), (1, POLLIN)]);
    let (reply, more) = w.on_recv(1, Ok(frame("x", true)));
    assert!(reply.is_none() && more);
    let (reply, more) = w.on_recv(1, Ok(frame("y", false)));
    let reply = reply.unwrap();
    assert_eq!(reply.to, 9);
    match reply.response {
        Response::Received(m) => assert_eq!(m.frames, mp(&["x", "y"]).frames),
        _ => panic!("nothing received"),
    }
    assert!(more);
    let (reply, more) = w.on_recv(1, Ok(frame("z", false)));
    assert!(reply.is_none() && more);
    let (reply, more) = w.on_recv(1, Err(NativeError::WouldBlock));
    assert!(reply.is_none() && !more);
    let reply = w.handle_request(Request::ReceiveMessage(1, 4)).unwrap();
    match reply.response {
        Response::Received(m) => assert_eq!(m.frames, mp(&["z"]).frames),
        _ => panic!("buffered multipart lost"),
    }
}

#[test]
fn worker_issues_increasing_ids_and_stops() {
    let mut w: Worker<u8, u8> = Worker::new();
    for expected in 0..3usize {
        match w.handle_request(Request::Init(expected as u8, 0)).unwrap().response {
            Response::Registered(id) => assert_eq!(id, expected),
            _ => panic!("not registered"),
        }
    }
    w.handle_request(Request::DropSocket(1));
    assert_eq!(w.interests(), vec![(0, 0), (2, 0)]);
    assert_eq!(w.socket(2), Some(&2));
    assert!(!w.should_stop());
    w.handle_request(Request::Done);
    assert!(w.should_stop());
}

#[test]
fn wakeups_coalesce() {
    let mut flag = WakeFlag::new();
    let writes: usize = (0..5).filter(|_| flag.notify()).count();
    assert_eq!(writes, 1);
    assert!(flag.drain());
    assert!(!flag.drain());
    assert!(flag.notify());
}

#[test]
fn schedule_prefers_send_and_runs_last_first() {
    let items = vec![(0usize, POLLIN | POLLOUT), (1, POLLIN), (2, POLLOUT)];
    let revents = vec![POLLIN | POLLOUT, POLLIN, POLLOUT];
    let plan = schedule(&items, &revents, 4, true);
    assert_eq!(plan, vec![Action::Snd(2), Action::Rcv(1), Action::Snd(0)]);
}

#[test]
fn schedule_stops_at_signalled_count() {
    let items = vec![(0usize, POLLIN), (1, POLLIN)];
    let revents = vec![POLLIN, POLLIN];
    assert_eq!(schedule(&items, &revents, 2, true), vec![Action::Rcv(0)]);
    assert_eq!(schedule(&items, &revents, 2, false), vec![Action::Rcv(1), Action::Rcv(0)]);
    assert_eq!(schedule(&items, &vec![0, 0], 1, false), Vec::<Action>::new());
}

#[test]
fn poll_kind_arms_as_a_set() {
    let mut k = PollKind::Unused;
    k.read();
    assert_eq!(k, PollKind::RecvMsg);
    k.write();
    assert_eq!(k, PollKind::SendRecv);
    k.read();
    assert_eq!(k, PollKind::SendRecv);
    assert_eq!(k.as_events(), POLLIN | POLLOUT);
    k.clear_read();
    assert_eq!(k, PollKind::SendMsg);
    assert!(k.is_write() && !k.is_read());
    k.clear_write();
    assert_eq!(k, PollKind::Unused);
    assert_eq!(k.as_events(), 0);
}

#[test]
fn readiness_reconciliation() {
    let r = reconcile(Direction::Read, POLLOUT, true);
    assert!(!r.proceed && r.clear_armed && r.notify_peer);
    let r = reconcile(Direction::Write, POLLOUT, true);
    assert!(r.proceed && !r.clear_armed && !r.notify_peer);
    let r = reconcile(Direction::Write, POLLIN | POLLOUT, false);
    assert!(r.proceed && !r.notify_peer);
}

#[test]
fn duplex_wakes_the_other_arm() {
    let mut d: MultipartSinkStream<(), &str> = MultipartSinkStream::new((), 2);
    assert!(!d.sink_ready("writer", POLLIN | POLLOUT).notify_peer);
    assert_eq!(d.sink_task(), Some(&"writer"));
    let r = d.stream_ready("reader", POLLOUT);
    assert!(!r.proceed && r.clear_armed && r.notify_peer);
    d.stream_ready("later", POLLIN);
    assert_eq!(d.stream_task(), Some(&"reader"));
    let r = d.sink_ready("other", POLLIN);
    assert!(!r.proceed && r.notify_peer);
    assert_eq!(d.sink_task(), Some(&"writer"));
    assert!(matches!(d.start_send(mp(&["w"])), AsyncSink::Ready));
    assert_eq!(d.len(), 1);
    assert!(matches!(d.poll_complete(), Ok(SendStep::Transmit(_))));
    assert!(matches!(d.poll(), Ok(RecvStep::Fetch)));
    assert!(d.is_sending() && d.is_receiving());
    let step = d.on_send(Ok(())).unwrap();
    assert!(matches!(step, SendStep::Complete) && step.wakes_self());
    let step = d.on_recv(Ok(frame("r", false))).unwrap();
    assert!(matches!(step, RecvStep::Ready(_)) && step.wakes_self());
    assert_eq!(d.stream_task(), Some(&"reader"));
}

#[test]
fn remote_send_retries_after_full() {
    let mut s: RemoteSend<u8> = RemoteSend::new(mp(&["m"]));
    let m = match s.poll_flush().unwrap() {
        RemoteSendStep::Submit(m) => m,
        _ => panic!("not submitted"),
    };
    assert!(matches!(s.poll_flush(), Err(Error::Reentrancy)));
    assert!(matches!(s.on_reply(SendReply::Waiting(7)), Ok(RemoteSendStep::Suspended)));
    assert!(matches!(s.poll_flush(), Ok(RemoteSendStep::Await(7))));
    assert!(matches!(s.on_reply(SendReply::Full(m)), Ok(RemoteSendStep::Suspended)));
    assert!(matches!(s.poll_flush(), Ok(RemoteSendStep::Submit(_))));
    assert!(matches!(s.on_reply(SendReply::Sent), Ok(RemoteSendStep::Complete)));
    assert!(matches!(s.poll_flush(), Ok(RemoteSendStep::Complete)));
}

#[test]
fn remote_recv_hands_out_and_restarts() {
    let mut r: RemoteRecv<u8> = RemoteRecv::new();
    assert!(matches!(r.poll_fetch(), Ok(RemoteRecvStep::Submit)));
    assert!(matches!(r.on_reply(RecvReply::Received(mp(&["x"]))), Ok(RemoteRecvStep::Ready(_))));
    assert!(matches!(r.poll_fetch(), Ok(RemoteRecvStep::Submit)));
    assert!(matches!(r.on_reply(RecvReply::Failed(Error::Canceled)), Err(Error::Canceled)));
}

#[test]
fn responses_map_to_replies() {
    assert!(matches!(Response::Sent.into_send_reply::<u8>(), SendReply::Sent));
    assert!(matches!(Response::Full(mp(&["f"])).into_send_reply::<u8>(), SendReply::Full(_)));
    assert!(matches!(Response::Error(Error::Reused).into_send_reply::<u8>(), SendReply::Failed(Error::Reused)));
    assert!(matches!(Response::Received(mp(&["r"])).into_recv_reply::<u8>(), RecvReply::Received(_)));
    assert!(matches!(Response::Error(Error::Canceled).into_recv_reply::<u8>(), RecvReply::Failed(Error::Canceled)));
}

#[test]
fn multipart_more_flags() {
    assert_eq!(mp(&["a"]).more_flags(), vec![false]);
    assert_eq!(mp(&[]).more_flags(), Vec::<bool>::new());
    let mut m = Multipart::new();
    assert!(m.is_empty());
    m.push_back(b"x".to_vec());
    m.push_back(b"y".to_vec());
    assert_eq!(m.len(), 2);
    assert_eq!(m.more_flags(), vec![true, false]);
}

#[test]
fn worker_sends_queued_multiparts_in_order() {
    let mut w: Worker<(), u8> = Worker::new();
    w.handle_request(Request::Init((), 0));
    w.handle_request(Request::SendMessage(0, mp(&["a1", "a2"]), 4, 1));
    w.handle_request(Request::SendMessage(0, mp(&["b1"]), 4, 2));
    let mut wire: Vec<Frame> = Vec::new();
    let mut replied: Vec<u8> = Vec::new();
    while let Some(f) = w.next_frame(0) {
        wire.push(f);
        let (reply, more) = w.on_send(0, Ok(()));
        if let Some(r) = reply {
            assert!(matches!(r.response, Response::Sent));
            replied.push(r.to);
        }
        if !more {
            break;
        }
    }
    assert_eq!(wire, vec![frame("a1", true), frame("a2", false), frame("b1", false)]);
    assert_eq!(replied, vec![1, 2]);
    assert_eq!(w.interests(), vec![(0, 0)]);
}

#[test]
fn second_send_keeps_first_responder() {
    let mut w: Worker<(), u8> = Worker::new();
    w.handle_request(Request::Init((), 0));
    assert!(w.handle_request(Request::SendMessage(0, mp(&["one"]), 4, 1)).is_none());
    assert!(w.handle_request(Request::SendMessage(0, mp(&["two"]), 4, 2)).is_none());
    assert_eq!(w.send_waiting(0), 2);
    let (first, more) = w.on_send(0, Ok(()));
    assert_eq!(first.unwrap().to, 1);
    assert!(more);
    let (second, more) = w.on_send(0, Ok(()));
    assert_eq!(second.unwrap().to, 2);
    assert!(!more);
}

#[test]
fn failed_send_answers_its_own_requester() {
    let mut w: Worker<(), u8> = Worker::new();
    w.handle_request(Request::Init((), 0));
    w.handle_request(Request::SendMessage(0, mp(&["bad"]), 4, 1));
    w.handle_request(Request::SendMessage(0, mp(&["good"]), 4, 2));
    let (reply, more) = w.on_send(0, Err(NativeError::Code(7)));
    let reply = reply.unwrap();
    assert_eq!(reply.to, 1);
    assert!(matches!(reply.response, Response::Error(Error::Native(7))));
    assert!(!more);
    assert_eq!(w.interests(), vec![(0, POLLOUT)]);
    assert_eq!(w.next_frame(0), Some(frame("good", false)));
}

#[test]
fn empty_multipart_is_answered_at_once() {
    let mut w: Worker<(), u8> = Worker::new();
    w.handle_request(Request::Init((), 0));
    let reply = w.handle_request(Request::SendMessage(0, mp(&[]), 4, 3)).unwrap();
    assert_eq!(reply.to, 3);
    assert!(matches!(reply.response, Response::Sent));
    assert_eq!(w.interests(), vec![(0, 0)]);
}

#[test]
fn queued_receivers_are_served_in_order() {
    let mut w: Worker<(), u8> = Worker::new();
    w.handle_request(Request::Init((), 0));
    w.handle_request(Request::ReceiveMessage(0, 1));
    w.handle_request(Request::ReceiveMessage(0, 2));
    assert_eq!(w.recv_waiting(0), 2);
    assert_eq!(w.take_recv_responder(0, 0), Some(1));
    w.restore_recv_responder(0, 0, 1);
    let (r1, _) = w.on_recv(0, Ok(frame("x", false)));
    assert_eq!(r1.unwrap().to, 1);
    assert_eq!(w.interests(), vec![(0, POLLIN)]);
    let (r2, _) = w.on_recv(0, Ok(frame("y", false)));
    assert_eq!(r2.unwrap().to, 2);
    assert_eq!(w.interests(), vec![(0, 0)]);
}

#[test]
fn canceled_receiver_is_skipped() {
    let mut w: Worker<(), u8> = Worker::new();
    w.handle_request(Request::Init((), 0));
    w.handle_request(Request::ReceiveMessage(0, 1));
    w.handle_request(Request::ReceiveMessage(0, 2));
    assert_eq!(w.take_recv_responder(0, 0), Some(1));
    let (r, _) = w.on_recv(0, Ok(frame("x", false)));
    assert_eq!(r.unwrap().to, 2);
}

#[test]
fn remote_request_is_not_reusable() {
    let mut req: RemoteRequest<u8, &str> = RemoteRequest::new("h", mp(&["m"]));
    assert!(matches!(req.poll(), Ok(RemoteRequestStep::Submit(_))));
    assert_eq!(req.handle(), Some(&"h"));
    assert!(matches!(req.on_reply(SendReply::Sent), Ok(RemoteRequestStep::Sent("h"))));
    assert!(matches!(req.poll(), Err(Error::Reused)));

    let mut resp: RemoteResponse<u8, &str> = RemoteResponse::new("h");
    assert!(matches!(resp.poll(), Ok(RemoteResponseStep::Submit)));
    assert!(matches!(resp.on_reply(RecvReply::Received(mp(&["x"]))), Ok(RemoteResponseStep::Received(_, "h"))));
    assert!(matches!(resp.poll(), Err(Error::Reused)));
}

#[test]
fn remote_sink_submits_in_order_with_back_pressure() {
    let mut sink: RemoteSink<u8> = RemoteSink::new(2);
    assert!(matches!(sink.poll_complete(), Ok(RemoteSendStep::Complete)));
    assert!(matches!(sink.start_send(mp(&["a"])), AsyncSink::Ready));
    assert!(matches!(sink.start_send(mp(&["b"])), AsyncSink::Ready));
    assert!(matches!(sink.start_send(mp(&["c"])), AsyncSink::NotReady(_)));
    let first = match sink.poll_complete().unwrap() {
        RemoteSendStep::Submit(m) => m,
        _ => panic!("nothing submitted"),
    };
    assert_eq!(first.frames, mp(&["a"]).frames);
    assert!(matches!(sink.poll_complete(), Err(Error::Reentrancy)));
    assert!(matches!(sink.on_reply(SendReply::Full(first)), Ok(RemoteSendStep::Suspended)));
    assert_eq!(sink.len(), 2);
    match sink.poll_complete().unwrap() {
        RemoteSendStep::Submit(m) => assert_eq!(m.frames, mp(&["a"]).frames),
        _ => panic!("not resubmitted"),
    }
    match sink.on_reply(SendReply::Sent).unwrap() {
        RemoteSendStep::Submit(m) => assert_eq!(m.frames, mp(&["b"]).frames),
        _ => panic!("next not submitted"),
    }
    assert!(matches!(sink.on_reply(SendReply::Sent), Ok(RemoteSendStep::Complete)));
    assert_eq!(sink.len(), 0);
}

#[test]
fn ready_steps_ask_for_a_repoll() {
    let mut req = MultipartRequest::new((), mp(&["x"]));
    let step = req.poll().unwrap();
    assert!(!step.wakes_self());
    let step = req.on_send(Ok(())).unwrap();
    assert!(matches!(step, RequestStep::Sent(())) && step.wakes_self());
    let mut resp = MultipartResponse::new(());
    assert!(!resp.poll().unwrap().wakes_self());
    let step = resp.on_recv(Ok(frame("y", false))).unwrap();
    assert!(step.wakes_self());
    assert!(!SendStep::Suspended.wakes_self());
    assert!(!RecvStep::Fetch.wakes_self());
}
