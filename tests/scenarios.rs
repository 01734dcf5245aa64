use std::collections::VecDeque;

use futures_zmq::error::{Error, NativeError};
use futures_zmq::future::{MultipartRequest, MultipartResponse, RequestStep, ResponseStep};
use futures_zmq::message::{Frame, Multipart};
use futures_zmq::pollable::Response;
use futures_zmq::recv::RecvStep;
use futures_zmq::send::SendStep;
use futures_zmq::sink::{AsyncSink, MultipartSink};
use futures_zmq::stream::MultipartStream;
use futures_zmq::worker::{Request, Worker};

/// A one-way in-memory link standing in for a native socket pair: sends
/// would block once `cap` frames are in flight.
struct Wire {
    frames: VecDeque<Frame>,
    cap: usize,
}

impl Wire {
    fn new(cap: usize) -> Wire {
        Wire { frames: VecDeque::new(), cap }
    }

    fn send(&mut self, f: Frame) -> Result<(), NativeError> {
        if self.frames.len() >= self.cap {
            return Err(NativeError::WouldBlock);
        }
        self.frames.push_back(f);
        Ok(())
    }

    fn recv(&mut self) -> Result<Frame, NativeError> {
        self.frames.pop_front().ok_or(NativeError::WouldBlock)
    }
}

fn mp(parts: &[&str]) -> Multipart {
    Multipart::from_frames(parts.iter().map(|p| p.as_bytes().to_vec()).collect())
}

fn texts(m: &Multipart) -> Vec<String> {
    m.frames.iter().map(|f| String::from_utf8(f.clone()).unwrap()).collect()
}

/// Drives a one-shot send until it hands the socket back or suspends.
fn drive_request<S>(req: &mut MultipartRequest<S>, wire: &mut Wire) -> Result<Option<S>, Error> {
    let mut step = req.poll()?;
    loop {
        match step {
            RequestStep::Sent(s) => return Ok(Some(s)),
            RequestStep::Suspended => return Ok(None),
            RequestStep::Transmit(f) => {
                let out = wire.send(f);
                step = req.on_send(out)?;
            }
        }
    }
}

/// Drives a one-shot receive until it yields or suspends.
fn drive_response<S>(resp: &mut MultipartResponse<S>, wire: &mut Wire) -> Result<Option<(Multipart, S)>, Error> {
    let mut step = resp.poll()?;
    loop {
        match step {
            ResponseStep::Received(m, s) => return Ok(Some((m, s))),
            ResponseStep::Suspended => return Ok(None),
            ResponseStep::Fetch => {
                let got = wire.recv();
                step = resp.on_recv(got)?;
            }
        }
    }
}

/// Drives a sink's pending sends until done or suspended; true when done.
fn drive_sink<S>(sink: &mut MultipartSink<S>, wire: &mut Wire) -> Result<bool, Error> {
    let mut step = sink.poll_complete()?;
    loop {
        match step {
            SendStep::Complete => return Ok(true),
            SendStep::Suspended => return Ok(false),
            SendStep::Transmit(f) => {
                let out = wire.send(f);
                step = sink.on_send(out)?;
            }
        }
    }
}

/// Reads every whole multipart available on a stream.
fn drain_stream<S>(stream: &mut MultipartStream<S>, wire: &mut Wire) -> Result<Vec<Multipart>, Error> {
    let mut got = Vec::new();
    loop {
        let mut step = stream.poll()?;
        loop {
            match step {
                RecvStep::Ready(m) => {
                    got.push(m);
                    break;
                }
                RecvStep::Suspended => return Ok(got),
                RecvStep::Fetch => {
                    let f = wire.recv();
                    step = stream.on_recv(f)?;
                }
            }
        }
    }
}

#[test]
fn echo_request_reply() {
    let mut to_rep = Wire::new(16);
    let mut to_req = Wire::new(16);

    let mut send = MultipartRequest::new("req", mp(&["hello"]));
    let req_sock = drive_request(&mut send, &mut to_rep).unwrap().unwrap();
    assert_eq!(req_sock, "req");

    let mut recv = MultipartResponse::new("rep");
    let (msg, rep_sock) = drive_response(&mut recv, &mut to_rep).unwrap().unwrap();
    assert_eq!(texts(&msg), vec!["hello"]);

    let mut reply = MultipartRequest::new(rep_sock, msg);
    drive_request(&mut reply, &mut to_req).unwrap().unwrap();

    let mut back = MultipartResponse::new(req_sock);
    let (echo, _) = drive_response(&mut back, &mut to_req).unwrap().unwrap();
    assert_eq!(texts(&echo), vec!["hello"]);
}

#[test]
fn push_pull_multipart_frames_and_flags() {
    let mut wire = Wire::new(16);
    let mut push = MultipartRequest::new((), mp(&["a", "b", "c"]));
    drive_request(&mut push, &mut wire).unwrap().unwrap();

    let flags: Vec<bool> = wire.frames.iter().map(|f| f.more).collect();
    assert_eq!(flags, vec![true, true, false]);

    let mut pull = MultipartStream::new(());
    let got = drain_stream(&mut pull, &mut wire).unwrap();
    assert_eq!(got.len(), 1);
    assert_eq!(texts(&got[0]), vec!["a", "b", "c"]);
    assert_eq!(got[0].more_flags(), vec![true, true, false]);
}

#[test]
fn dealer_throughput_in_order() {
    let mut wire = Wire::new(64);
    let mut sink = MultipartSink::new((), 25);
    let mut peer = MultipartStream::new(());
    let mut received: Vec<Multipart> = Vec::new();
    let mut sent = 0;
    while sent < 5000 {
        drive_sink(&mut sink, &mut wire).unwrap();
        match sink.start_send(mp(&["hi", &sent.to_string()])) {
            AsyncSink::Ready => sent += 1,
            AsyncSink::NotReady(_) => {
                received.extend(drain_stream(&mut peer, &mut wire).unwrap());
            }
        }
    }
    while !drive_sink(&mut sink, &mut wire).unwrap() {
        received.extend(drain_stream(&mut peer, &mut wire).unwrap());
    }
    received.extend(drain_stream(&mut peer, &mut wire).unwrap());
    assert_eq!(received.len(), 5000);
    for (i, m) in received.iter().enumerate() {
        assert_eq!(texts(m), vec!["hi".to_string(), i.to_string()]);
    }
}

#[test]
fn sync_pubsub_handshake_then_broadcast() {
    let n = 3;
    let m = 10;
    let mut to_rep = Wire::new(64);
    let mut rep_in = MultipartStream::new("rep");

    for _ in 0..n {
        let mut hs = MultipartRequest::new("req", mp(&[""]));
        drive_request(&mut hs, &mut to_rep).unwrap().unwrap();
    }
    let handshakes = drain_stream(&mut rep_in, &mut to_rep).unwrap();
    assert_eq!(handshakes.len(), n);

    let mut subs: Vec<Wire> = (0..n).map(|_| Wire::new(1000)).collect();
    for sub in subs.iter_mut() {
        let mut publisher = MultipartSink::new((), 4);
        for _ in 0..m {
            while !drive_sink(&mut publisher, sub).unwrap() {}
            assert!(matches!(publisher.start_send(mp(&["Rhubarb"])), AsyncSink::Ready));
        }
        while !drive_sink(&mut publisher, sub).unwrap() {}
        assert!(matches!(publisher.start_send(mp(&["END"])), AsyncSink::Ready));
        while !drive_sink(&mut publisher, sub).unwrap() {}
    }

    for sub in subs.iter_mut() {
        let mut stream = MultipartStream::new(());
        let got = drain_stream(&mut stream, sub).unwrap();
        let (last, rest) = got.split_last().unwrap();
        assert_eq!(texts(last), vec!["END"]);
        assert!(rest.len() <= m);
        assert!(rest.iter().all(|r| texts(r) == vec!["Rhubarb"]));
    }
}

#[test]
fn sink_back_pressure_returns_same_multipart() {
    let mut wire = Wire::new(0);
    let mut sink = MultipartSink::new((), 1);

    drive_sink(&mut sink, &mut wire).unwrap();
    assert!(matches!(sink.start_send(mp(&["first"])), AsyncSink::Ready));

    assert!(!drive_sink(&mut sink, &mut wire).unwrap());
    let second = mp(&["second", "part"]);
    match sink.start_send(second.clone()) {
        AsyncSink::NotReady(back) => assert_eq!(back.frames, second.frames),
        AsyncSink::Ready => panic!("accepted beyond the buffer size"),
    }
    assert_eq!(sink.len(), 1);
}

#[test]
fn dropped_handle_leaves_worker() {
    let mut worker: Worker<&str, u32> = Worker::new();
    let reply = worker.handle_request(Request::Init("sock", 7)).unwrap();
    let id = match reply.response {
        Response::Registered(id) => id,
        _ => panic!("not registered"),
    };
    assert_eq!(reply.to, 7);
    assert!(worker.socket(id).is_some());
    assert!(worker.handle_request(Request::DropSocket(id)).is_none());
    assert!(worker.socket(id).is_none());
    assert!(worker.interests().is_empty());
}
