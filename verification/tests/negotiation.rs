use async_datachannel_wasm::{
    Action, ConnectionError, Created, Event, IceCandidate, Message, Negotiation, Role, SdpType,
    SessionDescription,
};

fn desc(t: &str, sdp: &str) -> Message {
    Message::RemoteDescription(SessionDescription { sdp: sdp.to_string(), sdp_type: t.to_string() })
}

#[test]
fn listener_answers_an_offer() {
    let mut n = Negotiation::accepting();
    assert_eq!(n.role(), Role::Listener);
    assert_eq!(n.action(), Action::Listen);
    assert_eq!(
        n.step(Event::Signal(desc("offer", "remote-sdp"))),
        Action::SetRemoteDescription(SdpType::Offer, "remote-sdp".to_string())
    );
    assert_eq!(n.step(Event::Completed(Ok(()))), Action::CreateAnswer);
    assert_eq!(
        n.step(Event::Created(Created::Sdp("local-sdp".to_string()))),
        Action::SetLocalDescription(SdpType::Answer, "local-sdp".to_string())
    );
    assert_eq!(n.step(Event::Completed(Ok(()))), Action::SendSignal(desc("answer", "local-sdp")));
    // a refused answer is not an error for the accepting side
    assert_eq!(n.step(Event::Sent(false)), Action::Listen);
    assert_eq!(n.step(Event::ChannelArrived), Action::AwaitOpen);
    assert_eq!(n.step(Event::Opened), Action::Open);
    assert!(n.is_finished());
    // finished stays finished
    assert_eq!(n.step(Event::StreamEnded), Action::Open);
}

#[test]
fn dialer_offers_then_applies_answer() {
    let mut n = Negotiation::dialing();
    assert_eq!(n.role(), Role::Dialer);
    assert_eq!(n.action(), Action::CreateOffer);
    assert_eq!(
        n.step(Event::Created(Created::Sdp("offer-sdp".to_string()))),
        Action::SetLocalDescription(SdpType::Offer, "offer-sdp".to_string())
    );
    assert_eq!(n.step(Event::Completed(Ok(()))), Action::SendSignal(desc("offer", "offer-sdp")));
    assert_eq!(n.step(Event::Sent(true)), Action::Listen);
    // an offer is ignored by the dialing side
    assert_eq!(n.step(Event::Signal(desc("offer", "x"))), Action::Listen);
    assert_eq!(
        n.step(Event::Signal(desc("answer", "answer-sdp"))),
        Action::SetRemoteDescription(SdpType::Answer, "answer-sdp".to_string())
    );
    assert_eq!(n.step(Event::Completed(Ok(()))), Action::Listen);
    assert_eq!(n.step(Event::Opened), Action::Open);
    assert!(n.is_finished());
}

#[test]
fn dialer_fails_when_offer_is_refused() {
    let mut n = Negotiation::dialing();
    n.step(Event::Created(Created::Sdp("o".to_string())));
    n.step(Event::Completed(Ok(())));
    let a = n.step(Event::Sent(false));
    assert_eq!(a, Action::Fail(ConnectionError::SignalingClosed));
    assert_eq!(ConnectionError::SignalingClosed.message(), "Signaling channel closed");
}

#[test]
fn listener_ignores_answers_and_unknown_kinds() {
    let mut n = Negotiation::accepting();
    assert_eq!(n.step(Event::Signal(desc("answer", "a"))), Action::Listen);
    assert_eq!(n.step(Event::Signal(desc("rollback", "a"))), Action::Listen);
    // the dialer's open notification means nothing to the accepting side
    assert_eq!(n.step(Event::Opened), Action::Listen);
}

#[test]
fn candidates_are_added_with_their_mid() {
    for mut n in [Negotiation::accepting(), {
        let mut d = Negotiation::dialing();
        d.step(Event::Created(Created::Sdp("o".to_string())));
        d.step(Event::Completed(Ok(())));
        d.step(Event::Sent(true));
        d
    }] {
        let c = IceCandidate { candidate: "candidate:0".to_string(), mid: "data".to_string() };
        assert_eq!(
            n.step(Event::Signal(Message::RemoteCandidate(c.clone()))),
            Action::AddIceCandidate(c.clone())
        );
        assert_eq!(n.step(Event::Completed(Ok(()))), Action::Listen);
        n.step(Event::Signal(Message::RemoteCandidate(c)));
        assert_eq!(
            n.step(Event::Completed(Err("JsValue(bad)".to_string()))),
            Action::Fail(ConnectionError::AddIceCandidate("JsValue(bad)".to_string()))
        );
    }
}

#[test]
fn stream_end_fails_the_negotiation() {
    let mut n = Negotiation::accepting();
    assert_eq!(n.step(Event::StreamEnded), Action::Fail(ConnectionError::ChannelDidNotOpen));
    let mut n = Negotiation::accepting();
    n.step(Event::ChannelArrived);
    assert_eq!(n.step(Event::StreamEnded), Action::Fail(ConnectionError::WaitingForOpen));
    assert_eq!(ConnectionError::WaitingForOpen.message(), "Waiting for open");
    assert_eq!(ConnectionError::ChannelDidNotOpen.message(), "Channel didn't open");
}

#[test]
fn failed_steps_carry_the_report() {
    let mut n = Negotiation::dialing();
    assert_eq!(
        n.step(Event::Created(Created::Failed("e1".to_string()))),
        Action::Fail(ConnectionError::CreateOffer("e1".to_string()))
    );
    let mut n = Negotiation::dialing();
    assert_eq!(
        n.step(Event::Created(Created::NoSdp("e2".to_string()))),
        Action::Fail(ConnectionError::ExtractOfferSdp("e2".to_string()))
    );
    let mut n = Negotiation::accepting();
    n.step(Event::Signal(desc("offer", "s")));
    assert_eq!(
        n.step(Event::Completed(Err("e3".to_string()))),
        Action::Fail(ConnectionError::SetRemoteDescription("e3".to_string()))
    );
    let mut n = Negotiation::accepting();
    n.step(Event::Signal(desc("offer", "s")));
    n.step(Event::Completed(Ok(())));
    assert_eq!(
        n.step(Event::Created(Created::NoSdp("e4".to_string()))),
        Action::Fail(ConnectionError::ExtractAnswerSdp("e4".to_string()))
    );
    let mut n = Negotiation::accepting();
    n.step(Event::Signal(desc("offer", "s")));
    n.step(Event::Completed(Ok(())));
    n.step(Event::Created(Created::Sdp("a".to_string())));
    assert_eq!(
        n.step(Event::Completed(Err("e5".to_string()))),
        Action::Fail(ConnectionError::SetLocalDescription("e5".to_string()))
    );
    // an event the phase does not wait for changes nothing
    let mut n = Negotiation::accepting();
    n.step(Event::Signal(desc("offer", "s")));
    assert_eq!(n.step(Event::Sent(true)), Action::SetRemoteDescription(SdpType::Offer, "s".to_string()));
}

#[test]
fn error_messages() {
    assert_eq!(
        ConnectionError::SetRemoteDescription("JsValue(x)".to_string()).message(),
        "Error setting remote description: JsValue(x)"
    );
    assert_eq!(ConnectionError::CreateAnswer("e".to_string()).message(), "Error creating answer: e");
    assert_eq!(ConnectionError::CreateOffer("e".to_string()).message(), "Error creating offer: e");
    assert_eq!(
        ConnectionError::ExtractAnswerSdp("e".to_string()).message(),
        "Error extracting sdp from answer: e"
    );
    assert_eq!(
        ConnectionError::ExtractOfferSdp("e".to_string()).message(),
        "Error extracting sdp from offer: e"
    );
    assert_eq!(
        ConnectionError::SetLocalDescription("e".to_string()).message(),
        "Error setting local description: e"
    );
    assert_eq!(
        ConnectionError::AddIceCandidate("e".to_string()).message(),
        "Error adding ice candidate: e"
    );
    assert_eq!(
        ConnectionError::CreatePeerConnection("None".to_string()).message(),
        "Error creating peer connection None"
    );
    assert_eq!(
        ConnectionError::SetLocalDescription("e".to_string()).duplicate(),
        ConnectionError::SetLocalDescription("e".to_string())
    );
}

#[test]
fn dialer_sends_exactly_one_offer() {
    let mut n = Negotiation::dialing();
    let mut sent = Vec::new();
    let events = vec![
        Event::Created(Created::Sdp("o".to_string())),
        Event::Sent(true), // not awaited yet: ignored
        Event::Completed(Ok(())),
        Event::Sent(true),
        Event::Signal(desc("offer", "x")),
        Event::Signal(desc("answer", "a")),
        Event::Completed(Ok(())),
        Event::Signal(desc("answer", "b")),
        Event::Completed(Ok(())),
        Event::Opened,
    ];
    for e in events {
        if let Action::SendSignal(m) = n.step(e) {
            sent.push(m);
        }
    }
    assert_eq!(sent, vec![desc("offer", "o")]);
}

#[test]
fn listener_sends_one_answer_per_offer() {
    let mut n = Negotiation::accepting();
    let mut sent = Vec::new();
    for round in ["1", "2"] {
        for e in [
            Event::Signal(desc("offer", round)),
            Event::Completed(Ok(())),
            Event::Created(Created::Sdp(format!("answer {}", round))),
            Event::Completed(Ok(())),
            Event::Sent(true),
            Event::Signal(desc("answer", "ignored")),
        ] {
            if let Action::SendSignal(m) = n.step(e) {
                sent.push(m);
            }
        }
    }
    assert_eq!(sent, vec![desc("answer", "answer 1"), desc("answer", "answer 2")]);
}
