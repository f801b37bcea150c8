//! Two peers negotiate a channel over an in-memory signalling relay and
//! exchange "Ping" and "Pong", the browser's part played by the test.
use async_datachannel_wasm::{
    write_result, Action, Created, Event, InboundBuffer, Message, Negotiation, Polled,
    ReadOutcome,
};
use std::collections::VecDeque;

struct Peer {
    id: String,
    negotiation: Negotiation,
    pending: Option<Event>,
    inbox: VecDeque<Message>,
    local: Option<String>,
    remote: Option<String>,
    candidates: Vec<String>,
    channel_arrived: bool,
    open: bool,
}

impl Peer {
    fn new(id: &str, initiator: bool) -> Peer {
        Peer {
            id: id.to_string(),
            negotiation: if initiator { Negotiation::dialing() } else { Negotiation::accepting() },
            pending: None,
            inbox: VecDeque::new(),
            local: None,
            remote: None,
            candidates: Vec::new(),
            channel_arrived: false,
            open: false,
        }
    }
}

/// Performs one action of `me`; messages for the other peer go to `outbox`.
fn perform(me: &mut Peer, action: Action, outbox: &mut VecDeque<Message>, other_open: bool) -> Option<Event> {
    match action {
        Action::Listen => {
            if let Some(m) = me.inbox.pop_front() {
                Some(Event::Signal(m))
            } else if !me.channel_arrived && me.remote.is_some() && me.local.is_some() {
                me.channel_arrived = true;
                Some(if matches!(me.negotiation.role(), async_datachannel_wasm::Role::Listener) {
                    Event::ChannelArrived
                } else {
                    Event::Opened
                })
            } else {
                None
            }
        }
        Action::CreateOffer => Some(Event::Created(Created::Sdp(format!("offer of {}", me.id)))),
        Action::CreateAnswer => Some(Event::Created(Created::Sdp(format!("answer of {}", me.id)))),
        Action::SetLocalDescription(_, sdp) => {
            me.local = Some(sdp);
            outbox.push_back(async_datachannel_wasm::candidate_message(
                format!("candidate of {}", me.id),
                None,
            ));
            Some(Event::Completed(Ok(())))
        }
        Action::SetRemoteDescription(_, sdp) => {
            me.remote = Some(sdp);
            Some(Event::Completed(Ok(())))
        }
        Action::AddIceCandidate(c) => {
            me.candidates.push(c.candidate);
            Some(Event::Completed(Ok(())))
        }
        Action::SendSignal(m) => {
            outbox.push_back(m);
            Some(Event::Sent(true))
        }
        Action::AwaitOpen => Some(if other_open || me.remote.is_some() { Event::Opened } else { Event::StreamEnded }),
        Action::Open => {
            me.open = true;
            None
        }
        Action::Fail(e) => panic!("{}", e.message()),
    }
}

fn turn(me: &mut Peer, outbox: &mut VecDeque<Message>, other_open: bool) {
    loop {
        let action = match me.pending.take() {
            Some(ev) => me.negotiation.step(ev),
            None => me.negotiation.action(),
        };
        if me.open {
            return;
        }
        match perform(me, action, outbox, other_open) {
            Some(ev) => me.pending = Some(ev),
            None => return,
        }
    }
}

#[test]
fn smoke() {
    let mut a = Peer::new("initiator", true);
    let mut b = Peer::new("other_peer", false);
    for _ in 0..20 {
        let mut to_b = VecDeque::new();
        turn(&mut a, &mut to_b, b.open);
        b.inbox.extend(to_b);
        let mut to_a = VecDeque::new();
        turn(&mut b, &mut to_a, a.open);
        a.inbox.extend(to_a);
        if a.open && b.open {
            break;
        }
    }
    assert!(a.open && b.open);
    assert_eq!(a.remote.as_deref(), Some("answer of other_peer"));
    assert_eq!(b.remote.as_deref(), Some("offer of initiator"));
    assert_eq!(a.candidates, vec!["candidate of other_peer".to_string()]);
    assert_eq!(b.candidates, vec!["candidate of initiator".to_string()]);

    // ping: the initiator writes, the other peer reads
    let ping = b"Ping";
    assert_eq!(write_result(ping.len(), Ok(())), Ok(4));
    let mut b_in = InboundBuffer::new();
    let mut buf = [0u8; 10];
    assert_eq!(b_in.read_buffered(&mut buf), None);
    let n = match b_in.read_polled(&mut buf, Polled::Chunk(ping.to_vec())) {
        ReadOutcome::Ready(n) => n,
        other => panic!("{:?}", other),
    };
    assert_eq!(b"Ping", &buf[..n]);

    // pong: the other way round
    let mut a_in = InboundBuffer::new();
    let mut buf = [0u8; 10];
    let n = match a_in.read_polled(&mut buf, Polled::Chunk(b"Pong".to_vec())) {
        ReadOutcome::Ready(n) => n,
        other => panic!("{:?}", other),
    };
    assert_eq!(b"Pong", &buf[..n]);
}
