//! The offer/answer negotiation that opens a data channel.
//!
//! The dialing side creates an offer, sets it as its local description,
//! sends it to the remote peer and waits for the answer; the accepting side
//! waits for an offer, sets it as its remote description, creates an answer,
//! sets that as its local description and sends it back. Both sides add the
//! ICE candidates the remote peer announces. The dialing side is done when
//! its own channel opens; the accepting side when the remote peer's channel
//! arrives and opens.
//!
//! A [`Negotiation`] decides; it performs nothing itself. Each step takes
//! what happened (an [`Event`]) and answers with what to do next (an
//! [`Action`]), which the caller performs before reporting the outcome.
use crate::signal::{
    lemma_sdp_type_text_roundtrip, sdp_type_of, sdp_type_text, IceCandidate, IceCandidateView,
    Message, MessageView, SdpType, SessionDescription, SessionDescriptionView,
};
use vstd::prelude::*;

verus! {

/// The side of the connection a negotiation is run for.
#[derive(Clone, Copy, Debug, PartialEq, Eq, Structural)]
pub enum Role {
    /// Initiates the connection (`dial`).
    Dialer,
    /// Waits for an inbound connection (`accept`).
    Listener,
}

/// The kind of description a side creates itself.
pub open spec fn own_kind(role: Role) -> SdpType {
    match role {
        Role::Dialer => SdpType::Offer,
        Role::Listener => SdpType::Answer,
    }
}

/// The kind of description a side expects from the remote peer.
pub open spec fn remote_kind(role: Role) -> SdpType {
    match role {
        Role::Dialer => SdpType::Answer,
        Role::Listener => SdpType::Offer,
    }
}

impl Role {
    /// The kind of description this side creates itself.
    pub fn own_kind(self) -> (res: SdpType)
        ensures
            res == own_kind(self),
    {
        match self {
            Role::Dialer => SdpType::Offer,
            Role::Listener => SdpType::Answer,
        }
    }

    /// The kind of description this side expects from the remote peer.
    pub fn remote_kind(self) -> (res: SdpType)
        ensures
            res == remote_kind(self),
    {
        match self {
            Role::Dialer => SdpType::Answer,
            Role::Listener => SdpType::Offer,
        }
    }
}

/// Why a connection could not be set up. Variants with a text carry the
/// browser's report of the failure.
#[derive(Debug, PartialEq, Eq)]
pub enum ConnectionError {
    CreatePeerConnection(String),
    CreateOffer(String),
    ExtractOfferSdp(String),
    CreateAnswer(String),
    ExtractAnswerSdp(String),
    SetLocalDescription(String),
    SetRemoteDescription(String),
    AddIceCandidate(String),
    /// The signalling channel did not take the offer.
    SignalingClosed,
    /// The notification that the inbound channel opened never came.
    WaitingForOpen,
    /// The signalling and channel events ended before a channel opened.
    ChannelDidNotOpen,
}

/// The text that describes an error.
pub open spec fn error_text(e: ConnectionError) -> Seq<char> {
    match e {
        ConnectionError::CreatePeerConnection(d) => "Error creating peer connection "@ + d@,
        ConnectionError::CreateOffer(d) => "Error creating offer: "@ + d@,
        ConnectionError::ExtractOfferSdp(d) => "Error extracting sdp from offer: "@ + d@,
        ConnectionError::CreateAnswer(d) => "Error creating answer: "@ + d@,
        ConnectionError::ExtractAnswerSdp(d) => "Error extracting sdp from answer: "@ + d@,
        ConnectionError::SetLocalDescription(d) => "Error setting local description: "@ + d@,
        ConnectionError::SetRemoteDescription(d) => "Error setting remote description: "@ + d@,
        ConnectionError::AddIceCandidate(d) => "Error adding ice candidate: "@ + d@,
        ConnectionError::SignalingClosed => "Signaling channel closed"@,
        ConnectionError::WaitingForOpen => "Waiting for open"@,
        ConnectionError::ChannelDidNotOpen => "Channel didn't open"@,
    }
}

/// `prefix` followed by `detail`.
fn prefixed(prefix: &str, detail: &String) -> (res: String)
    ensures
        res@ == prefix@ + detail@,
{
    let mut s = prefix.to_owned();
    s.append(detail.as_str());
    s
}

impl ConnectionError {
    /// The text that describes this error.
    pub fn message(&self) -> (res: String)
        ensures
            res@ == error_text(*self),
    {
        match self {
            ConnectionError::CreatePeerConnection(d) => prefixed("Error creating peer connection ", d),
            ConnectionError::CreateOffer(d) => prefixed("Error creating offer: ", d),
            ConnectionError::ExtractOfferSdp(d) => prefixed("Error extracting sdp from offer: ", d),
            ConnectionError::CreateAnswer(d) => prefixed("Error creating answer: ", d),
            ConnectionError::ExtractAnswerSdp(d) => prefixed("Error extracting sdp from answer: ", d),
            ConnectionError::SetLocalDescription(d) => prefixed(
                "Error setting local description: ",
                d,
            ),
            ConnectionError::SetRemoteDescription(d) => prefixed(
                "Error setting remote description: ",
                d,
            ),
            ConnectionError::AddIceCandidate(d) => prefixed("Error adding ice candidate: ", d),
            ConnectionError::SignalingClosed => "Signaling channel closed".to_owned(),
            ConnectionError::WaitingForOpen => "Waiting for open".to_owned(),
            ConnectionError::ChannelDidNotOpen => "Channel didn't open".to_owned(),
        }
    }

    /// A copy of this error.
    pub fn duplicate(&self) -> (res: ConnectionError)
        ensures
            res == *self,
    {
        match self {
            ConnectionError::CreatePeerConnection(d) => ConnectionError::CreatePeerConnection(
                d.clone(),
            ),
            ConnectionError::CreateOffer(d) => ConnectionError::CreateOffer(d.clone()),
            ConnectionError::ExtractOfferSdp(d) => ConnectionError::ExtractOfferSdp(d.clone()),
            ConnectionError::CreateAnswer(d) => ConnectionError::CreateAnswer(d.clone()),
            ConnectionError::ExtractAnswerSdp(d) => ConnectionError::ExtractAnswerSdp(d.clone()),
            ConnectionError::SetLocalDescription(d) => ConnectionError::SetLocalDescription(
                d.clone(),
            ),
            ConnectionError::SetRemoteDescription(d) => ConnectionError::SetRemoteDescription(
                d.clone(),
            ),
            ConnectionError::AddIceCandidate(d) => ConnectionError::AddIceCandidate(d.clone()),
            ConnectionError::SignalingClosed => ConnectionError::SignalingClosed,
            ConnectionError::WaitingForOpen => ConnectionError::WaitingForOpen,
            ConnectionError::ChannelDidNotOpen => ConnectionError::ChannelDidNotOpen,
        }
    }
}

/// The outcome of creating a local description.
#[derive(Debug, PartialEq)]
pub enum Created {
    /// The description was created; this is its sdp.
    Sdp(String),
    /// Creating the description failed.
    Failed(String),
    /// The created description carries no readable sdp.
    NoSdp(String),
}

/// What happened since the last step.
#[derive(Debug, PartialEq)]
pub enum Event {
    /// A message arrived from the remote peer over the signalling channel.
    Signal(Message),
    /// The remote peer's data channel arrived (accepting side).
    ChannelArrived,
    /// The data channel opened.
    Opened,
    /// The stream of events that was waited on ended.
    StreamEnded,
    /// An awaited step (setting a description, adding a candidate) finished.
    Completed(Result<(), String>),
    /// Creating the local description finished.
    Created(Created),
    /// The signalling channel took the sent message (`true`) or refused it.
    Sent(bool),
}

/// Where a negotiation stands. The kind of the descriptions involved follows
/// from the role: a side creates its own kind and applies the remote kind.
#[derive(Debug, PartialEq)]
pub enum Phase {
    /// Creating the offer (dialing side).
    CreatingOffer,
    /// Creating the answer (accepting side).
    CreatingAnswer,
    /// Setting the created description, with this sdp, as local description.
    SettingLocal(String),
    /// Sending the local description, with this sdp, to the remote peer.
    Announcing(String),
    /// Waiting for signalling messages and channel events.
    Listening,
    /// Setting the remote peer's description, with this sdp.
    ApplyingRemote(String),
    /// Adding a remote ICE candidate.
    AddingCandidate(IceCandidate),
    /// Waiting for the arrived channel to open (accepting side).
    AwaitingOpen,
    /// The channel is open; the negotiation is over.
    Open,
    /// The negotiation failed.
    Failed(ConnectionError),
}

/// What the caller is to do next.
#[derive(Debug, PartialEq)]
pub enum Action {
    /// Wait for the next signalling message or channel event.
    Listen,
    CreateOffer,
    CreateAnswer,
    SetLocalDescription(SdpType, String),
    SetRemoteDescription(SdpType, String),
    AddIceCandidate(IceCandidate),
    /// Send this message to the remote peer.
    SendSignal(Message),
    /// Stop gathering candidates and channels, then wait for the arrived
    /// channel to open.
    AwaitOpen,
    /// Release the handlers and hand out the open channel.
    Open,
    /// Give up with this error.
    Fail(ConnectionError),
}

/// An action with its texts as character sequences.
pub enum ActionView {
    Listen,
    CreateOffer,
    CreateAnswer,
    SetLocalDescription(SdpType, Seq<char>),
    SetRemoteDescription(SdpType, Seq<char>),
    AddIceCandidate(IceCandidateView),
    SendSignal(MessageView),
    AwaitOpen,
    Open,
    Fail(ConnectionError),
}

impl View for Action {
    type V = ActionView;

    open spec fn view(&self) -> ActionView {
        match self {
            Action::Listen => ActionView::Listen,
            Action::CreateOffer => ActionView::CreateOffer,
            Action::CreateAnswer => ActionView::CreateAnswer,
            Action::SetLocalDescription(k, s) => ActionView::SetLocalDescription(*k, s@),
            Action::SetRemoteDescription(k, s) => ActionView::SetRemoteDescription(*k, s@),
            Action::AddIceCandidate(c) => ActionView::AddIceCandidate(c@),
            Action::SendSignal(m) => ActionView::SendSignal(m@),
            Action::AwaitOpen => ActionView::AwaitOpen,
            Action::Open => ActionView::Open,
            Action::Fail(e) => ActionView::Fail(*e),
        }
    }
}

/// What a side does in a phase.
pub open spec fn action_of(role: Role, phase: Phase) -> ActionView {
    match phase {
        Phase::CreatingOffer => ActionView::CreateOffer,
        Phase::CreatingAnswer => ActionView::CreateAnswer,
        Phase::SettingLocal(s) => ActionView::SetLocalDescription(own_kind(role), s@),
        Phase::Announcing(s) => ActionView::SendSignal(
            MessageView::RemoteDescription(
                (SessionDescriptionView { sdp: s@, sdp_type: sdp_type_text(own_kind(role)) }),
            ),
        ),
        Phase::Listening => ActionView::Listen,
        Phase::ApplyingRemote(s) => ActionView::SetRemoteDescription(remote_kind(role), s@),
        Phase::AddingCandidate(c) => ActionView::AddIceCandidate(c@),
        Phase::AwaitingOpen => ActionView::AwaitOpen,
        Phase::Open => ActionView::Open,
        Phase::Failed(e) => ActionView::Fail(e),
    }
}

/// The phase a side moves to when `event` happens in `phase`. An event that
/// the phase does not wait for leaves it unchanged; an open or failed
/// negotiation stays as it is.
pub open spec fn next_phase(role: Role, phase: Phase, event: Event) -> Phase {
    match phase {
        Phase::CreatingOffer => match event {
            Event::Created(Created::Sdp(s)) => Phase::SettingLocal(s),
            Event::Created(Created::Failed(e)) => Phase::Failed(ConnectionError::CreateOffer(e)),
            Event::Created(Created::NoSdp(e)) => Phase::Failed(ConnectionError::ExtractOfferSdp(e)),
            _ => phase,
        },
        Phase::CreatingAnswer => match event {
            Event::Created(Created::Sdp(s)) => Phase::SettingLocal(s),
            Event::Created(Created::Failed(e)) => Phase::Failed(ConnectionError::CreateAnswer(e)),
            Event::Created(Created::NoSdp(e)) => Phase::Failed(
                ConnectionError::ExtractAnswerSdp(e),
            ),
            _ => phase,
        },
        Phase::SettingLocal(s) => match event {
            Event::Completed(Ok(())) => Phase::Announcing(s),
            Event::Completed(Err(e)) => Phase::Failed(ConnectionError::SetLocalDescription(e)),
            _ => phase,
        },
        Phase::Announcing(_) => match event {
            Event::Sent(taken) => if taken || role == Role::Listener {
                Phase::Listening
            } else {
                Phase::Failed(ConnectionError::SignalingClosed)
            },
            _ => phase,
        },
        Phase::Listening => match event {
            Event::Signal(Message::RemoteDescription(d)) => if sdp_type_of(d.sdp_type@) == Some(
                remote_kind(role),
            ) {
                Phase::ApplyingRemote(d.sdp)
            } else {
                phase
            },
            Event::Signal(Message::RemoteCandidate(c)) => Phase::AddingCandidate(c),
            Event::ChannelArrived => if role == Role::Listener {
                Phase::AwaitingOpen
            } else {
                phase
            },
            Event::Opened => if role == Role::Dialer {
                Phase::Open
            } else {
                phase
            },
            Event::StreamEnded => Phase::Failed(ConnectionError::ChannelDidNotOpen),
            _ => phase,
        },
        Phase::ApplyingRemote(_) => match event {
            Event::Completed(Ok(())) => if role == Role::Listener {
                Phase::CreatingAnswer
            } else {
                Phase::Listening
            },
            Event::Completed(Err(e)) => Phase::Failed(ConnectionError::SetRemoteDescription(e)),
            _ => phase,
        },
        Phase::AddingCandidate(_) => match event {
            Event::Completed(Ok(())) => Phase::Listening,
            Event::Completed(Err(e)) => Phase::Failed(ConnectionError::AddIceCandidate(e)),
            _ => phase,
        },
        Phase::AwaitingOpen => match event {
            Event::Opened => Phase::Open,
            Event::StreamEnded => Phase::Failed(ConnectionError::WaitingForOpen),
            _ => phase,
        },
        Phase::Open => phase,
        Phase::Failed(_) => phase,
    }
}

/// The phases a side can be in: a dialing side never creates an answer nor
/// waits for an arrived channel, an accepting side never creates an offer.
pub open spec fn fits_role(role: Role, phase: Phase) -> bool {
    match role {
        Role::Dialer => !(phase is CreatingAnswer) && !(phase is AwaitingOpen),
        Role::Listener => !(phase is CreatingOffer),
    }
}

/// A negotiation as its role and phase.
pub struct NegotiationState {
    pub role: Role,
    pub phase: Phase,
}

/// The negotiation run by one side of a connection.
pub struct Negotiation {
    role: Role,
    phase: Phase,
}

impl View for Negotiation {
    type V = NegotiationState;

    closed spec fn view(&self) -> NegotiationState {
        NegotiationState { role: self.role, phase: self.phase }
    }
}

impl Negotiation {
    /// The negotiation of the accepting side: it starts by waiting for the
    /// remote peer's offer.
    pub fn accepting() -> (res: Negotiation)
        ensures
            res@.role == Role::Listener,
            res@.phase == Phase::Listening,
            fits_role(res@.role, res@.phase),
    {
        Negotiation { role: Role::Listener, phase: Phase::Listening }
    }

    /// The negotiation of the dialing side: it starts by creating an offer.
    pub fn dialing() -> (res: Negotiation)
        ensures
            res@.role == Role::Dialer,
            res@.phase == Phase::CreatingOffer,
            fits_role(res@.role, res@.phase),
    {
        Negotiation { role: Role::Dialer, phase: Phase::CreatingOffer }
    }

    /// The side this negotiation is run for.
    pub fn role(&self) -> (res: Role)
        ensures
            res == self@.role,
    {
        self.role
    }

    /// Whether the negotiation is over, the channel open or the attempt
    /// failed.
    pub fn is_finished(&self) -> (res: bool)
        ensures
            res == (self@.phase is Open || self@.phase is Failed),
    {
        match self.phase {
            Phase::Open => true,
            Phase::Failed(_) => true,
            _ => false,
        }
    }

    /// What the caller is to do now.
    pub fn action(&self) -> (res: Action)
        ensures
            res@ == action_of(self@.role, self@.phase),
    {
        match &self.phase {
            Phase::CreatingOffer => Action::CreateOffer,
            Phase::CreatingAnswer => Action::CreateAnswer,
            Phase::SettingLocal(s) => Action::SetLocalDescription(self.role.own_kind(), s.clone()),
            Phase::Announcing(s) => Action::SendSignal(
                Message::RemoteDescription(
                    SessionDescription::of_kind(self.role.own_kind(), s.clone()),
                ),
            ),
            Phase::Listening => Action::Listen,
            Phase::ApplyingRemote(s) => Action::SetRemoteDescription(
                self.role.remote_kind(),
                s.clone(),
            ),
            Phase::AddingCandidate(c) => Action::AddIceCandidate(c.duplicate()),
            Phase::AwaitingOpen => Action::AwaitOpen,
            Phase::Open => Action::Open,
            Phase::Failed(e) => Action::Fail(e.duplicate()),
        }
    }

    /// Takes in what happened and answers with what to do next.
    pub fn step(&mut self, event: Event) -> (res: Action)
        ensures
            final(self)@.role == old(self)@.role,
            final(self)@.phase == next_phase(old(self)@.role, old(self)@.phase, event),
            res@ == action_of(final(self)@.role, final(self)@.phase),
            fits_role(old(self)@.role, old(self)@.phase) ==> fits_role(
                final(self)@.role,
                final(self)@.phase,
            ),
    {
        let role = self.role;
        let mut phase = Phase::Listening;
        std::mem::swap(&mut phase, &mut self.phase);
        let next = match phase {
            Phase::CreatingOffer => match event {
                Event::Created(Created::Sdp(s)) => Phase::SettingLocal(s),
                Event::Created(Created::Failed(e)) => Phase::Failed(
                    ConnectionError::CreateOffer(e),
                ),
                Event::Created(Created::NoSdp(e)) => Phase::Failed(
                    ConnectionError::ExtractOfferSdp(e),
                ),
                _ => Phase::CreatingOffer,
            },
            Phase::CreatingAnswer => match event {
                Event::Created(Created::Sdp(s)) => Phase::SettingLocal(s),
                Event::Created(Created::Failed(e)) => Phase::Failed(
                    ConnectionError::CreateAnswer(e),
                ),
                Event::Created(Created::NoSdp(e)) => Phase::Failed(
                    ConnectionError::ExtractAnswerSdp(e),
                ),
                _ => Phase::CreatingAnswer,
            },
            Phase::SettingLocal(s) => match event {
                Event::Completed(Ok(())) => Phase::Announcing(s),
                Event::Completed(Err(e)) => Phase::Failed(ConnectionError::SetLocalDescription(e)),
                _ => Phase::SettingLocal(s),
            },
            Phase::Announcing(s) => match event {
                Event::Sent(taken) => {
                    if taken || role == Role::Listener {
                        Phase::Listening
                    } else {
                        Phase::Failed(ConnectionError::SignalingClosed)
                    }
                },
                _ => Phase::Announcing(s),
            },
            Phase::Listening => match event {
                Event::Signal(Message::RemoteDescription(d)) => {
                    let expected = role.remote_kind();
                    match d.kind() {
                        Some(k) => {
                            if k == expected {
                                Phase::ApplyingRemote(d.sdp)
                            } else {
                                Phase::Listening
                            }
                        },
                        None => Phase::Listening,
                    }
                },
                Event::Signal(Message::RemoteCandidate(c)) => Phase::AddingCandidate(c),
                Event::ChannelArrived => {
                    if role == Role::Listener {
                        Phase::AwaitingOpen
                    } else {
                        Phase::Listening
                    }
                },
                Event::Opened => {
                    if role == Role::Dialer {
                        Phase::Open
                    } else {
                        Phase::Listening
                    }
                },
                Event::StreamEnded => Phase::Failed(ConnectionError::ChannelDidNotOpen),
                _ => Phase::Listening,
            },
            Phase::ApplyingRemote(s) => match event {
                Event::Completed(Ok(())) => {
                    if role == Role::Listener {
                        Phase::CreatingAnswer
                    } else {
                        Phase::Listening
                    }
                },
                Event::Completed(Err(e)) => Phase::Failed(
                    ConnectionError::SetRemoteDescription(e),
                ),
                _ => Phase::ApplyingRemote(s),
            },
            Phase::AddingCandidate(c) => match event {
                Event::Completed(Ok(())) => Phase::Listening,
                Event::Completed(Err(e)) => Phase::Failed(ConnectionError::AddIceCandidate(e)),
                _ => Phase::AddingCandidate(c),
            },
            Phase::AwaitingOpen => match event {
                Event::Opened => Phase::Open,
                Event::StreamEnded => Phase::Failed(ConnectionError::WaitingForOpen),
                _ => Phase::AwaitingOpen,
            },
            Phase::Open => Phase::Open,
            Phase::Failed(e) => Phase::Failed(e),
        };
        self.phase = next;
        self.action()
    }
}

/// An open or failed negotiation is over: no event changes it.
pub proof fn lemma_finished_negotiation_stays(role: Role, phase: Phase, event: Event)
    requires
        phase is Open || phase is Failed,
    ensures
        next_phase(role, phase, event) == phase,
{
}

/// Every phase a negotiation reaches fits its role, and so a dialing side
/// never asks to create an answer or to wait for an arrived channel, and an
/// accepting side never asks to create an offer.
pub proof fn lemma_role_is_kept(role: Role, phase: Phase, event: Event)
    requires
        fits_role(role, phase),
    ensures
        fits_role(role, next_phase(role, phase, event)),
        role == Role::Dialer ==> !(action_of(role, phase) is CreateAnswer) && !(action_of(
            role,
            phase,
        ) is AwaitOpen),
        role == Role::Listener ==> !(action_of(role, phase) is CreateOffer),
{
}

/// The accepting side answers an offer: it sets the offer as remote
/// description, creates an answer, sets the answer as local description and
/// sends it to the remote peer, then waits again, whether or not the
/// signalling channel took the answer.
pub proof fn lemma_listener_answers_offer(offer: SessionDescription, answer: String, taken: bool)
    requires
        offer.sdp_type@ == "offer"@,
    ensures
        ({
            let p1 = next_phase(Role::Listener, Phase::Listening, Event::Signal(Message::RemoteDescription(offer)));
            let p2 = next_phase(Role::Listener, p1, Event::Completed(Ok(())));
            let p3 = next_phase(Role::Listener, p2, Event::Created(Created::Sdp(answer)));
            let p4 = next_phase(Role::Listener, p3, Event::Completed(Ok(())));
            let p5 = next_phase(Role::Listener, p4, Event::Sent(taken));
            &&& action_of(Role::Listener, p1) == ActionView::SetRemoteDescription(
                SdpType::Offer,
                offer.sdp@,
            )
            &&& action_of(Role::Listener, p2) == ActionView::CreateAnswer
            &&& action_of(Role::Listener, p3) == ActionView::SetLocalDescription(
                SdpType::Answer,
                answer@,
            )
            &&& action_of(Role::Listener, p4) == ActionView::SendSignal(
                MessageView::RemoteDescription(
                    (SessionDescriptionView { sdp: answer@, sdp_type: "answer"@ }),
                ),
            )
            &&& p5 == Phase::Listening
        }),
{
}

/// The dialing side offers and applies the answer: it creates an offer, sets
/// it as local description and sends it to the remote peer; once sent, it
/// waits, sets an arriving answer as remote description and waits again until
/// its channel opens. An offer the signalling channel refuses ends the
/// negotiation.
pub proof fn lemma_dialer_offers_then_applies_answer(
    offer: String,
    answer: SessionDescription,
)
    requires
        answer.sdp_type@ == "answer"@,
    ensures
        ({
            let p1 = next_phase(Role::Dialer, Phase::CreatingOffer, Event::Created(Created::Sdp(offer)));
            let p2 = next_phase(Role::Dialer, p1, Event::Completed(Ok(())));
            let p3 = next_phase(Role::Dialer, p2, Event::Sent(true));
            let p4 = next_phase(Role::Dialer, p3, Event::Signal(Message::RemoteDescription(answer)));
            let p5 = next_phase(Role::Dialer, p4, Event::Completed(Ok(())));
            let p6 = next_phase(Role::Dialer, p5, Event::Opened);
            &&& action_of(Role::Dialer, Phase::CreatingOffer) == ActionView::CreateOffer
            &&& action_of(Role::Dialer, p1) == ActionView::SetLocalDescription(
                SdpType::Offer,
                offer@,
            )
            &&& action_of(Role::Dialer, p2) == ActionView::SendSignal(
                MessageView::RemoteDescription(
                    (SessionDescriptionView { sdp: offer@, sdp_type: "offer"@ }),
                ),
            )
            &&& next_phase(Role::Dialer, p2, Event::Sent(false)) == Phase::Failed(
                ConnectionError::SignalingClosed,
            )
            &&& p3 == Phase::Listening
            &&& action_of(Role::Dialer, p4) == ActionView::SetRemoteDescription(
                SdpType::Answer,
                answer.sdp@,
            )
            &&& p5 == Phase::Listening
            &&& p6 == Phase::Open
        }),
{
    lemma_sdp_type_text_roundtrip(SdpType::Answer);
}

/// While waiting, either side adds each ICE candidate the remote peer
/// announces, with its mid, and waits again once it is added; a candidate
/// that cannot be added ends the negotiation with the browser's report.
pub proof fn lemma_candidates_are_added(role: Role, c: IceCandidate, outcome: Result<(), String>)
    ensures
        ({
            let p1 = next_phase(role, Phase::Listening, Event::Signal(Message::RemoteCandidate(c)));
            &&& action_of(role, p1) == ActionView::AddIceCandidate(c@)
            &&& next_phase(role, p1, Event::Completed(outcome)) == match outcome {
                Ok(()) => Phase::Listening,
                Err(e) => Phase::Failed(ConnectionError::AddIceCandidate(e)),
            }
        }),
{
}

/// A waiting side ignores a description of any kind but the one it expects
/// from the remote peer: an accepting side acts on offers only, a dialing
/// side on answers only.
pub proof fn lemma_unexpected_descriptions_are_ignored(role: Role, d: SessionDescription)
    requires
        sdp_type_of(d.sdp_type@) != Some(remote_kind(role)),
    ensures
        next_phase(role, Phase::Listening, Event::Signal(Message::RemoteDescription(d)))
            == Phase::Listening,
{
}

/// A side ignores a description of its own kind: an accepting side ignores
/// answers, a dialing side ignores offers.
pub proof fn lemma_own_kind_is_ignored(role: Role, d: SessionDescription)
    requires
        d.sdp_type@ == sdp_type_text(own_kind(role)),
    ensures
        next_phase(role, Phase::Listening, Event::Signal(Message::RemoteDescription(d)))
            == Phase::Listening,
{
    lemma_sdp_type_text_roundtrip(own_kind(role));
}

/// A channel opens only as the role allows: a dialing side when its own
/// channel reports open while it waits, an accepting side when the arrived
/// channel reports open.
pub proof fn lemma_open_only_when_channel_opens(role: Role, phase: Phase, event: Event)
    requires
        fits_role(role, phase),
        !(phase is Open),
        next_phase(role, phase, event) is Open,
    ensures
        event is Opened,
        role == Role::Dialer ==> phase is Listening,
        role == Role::Listener ==> phase is AwaitingOpen,
{
}

/// The accepting side waits for the arrived channel to open; if that
/// notification never comes, or the events end before any channel arrives,
/// the negotiation fails.
pub proof fn lemma_listener_opens_arrived_channel()
    ensures
        next_phase(Role::Listener, Phase::Listening, Event::ChannelArrived) == Phase::AwaitingOpen,
        action_of(Role::Listener, Phase::AwaitingOpen) == ActionView::AwaitOpen,
        next_phase(Role::Listener, Phase::AwaitingOpen, Event::Opened) == Phase::Open,
        next_phase(Role::Listener, Phase::AwaitingOpen, Event::StreamEnded) == Phase::Failed(
            ConnectionError::WaitingForOpen,
        ),
        next_phase(Role::Listener, Phase::Listening, Event::StreamEnded) == Phase::Failed(
            ConnectionError::ChannelDidNotOpen,
        ),
        next_phase(Role::Dialer, Phase::Listening, Event::StreamEnded) == Phase::Failed(
            ConnectionError::ChannelDidNotOpen,
        ),
{
}

/// A failed step is never passed over: when setting a description or adding
/// a candidate fails, or creating a description fails, the negotiation ends
/// with an error that carries the browser's report.
pub proof fn lemma_failures_end_negotiation(role: Role, phase: Phase, e: String)
    requires
        phase is SettingLocal || phase is ApplyingRemote || phase is AddingCandidate,
    ensures
        next_phase(role, phase, Event::Completed(Err(e))) == Phase::Failed(
            match phase {
                Phase::SettingLocal(_) => ConnectionError::SetLocalDescription(e),
                Phase::ApplyingRemote(_) => ConnectionError::SetRemoteDescription(e),
                _ => ConnectionError::AddIceCandidate(e),
            },
        ),
        next_phase(role, Phase::CreatingOffer, Event::Created(Created::Failed(e))) == Phase::Failed(
            ConnectionError::CreateOffer(e),
        ),
        next_phase(role, Phase::CreatingAnswer, Event::Created(Created::Failed(e))) == Phase::Failed(
            ConnectionError::CreateAnswer(e),
        ),
        next_phase(role, Phase::CreatingOffer, Event::Created(Created::NoSdp(e))) == Phase::Failed(
            ConnectionError::ExtractOfferSdp(e),
        ),
        next_phase(role, Phase::CreatingAnswer, Event::Created(Created::NoSdp(e))) == Phase::Failed(
            ConnectionError::ExtractAnswerSdp(e),
        ),
{
}

/// The phase a side reaches after the events of `events`, one after the
/// other.
pub open spec fn run(role: Role, phase: Phase, events: Seq<Event>) -> Phase
    decreases events.len(),
{
    if events.len() == 0 {
        phase
    } else {
        run(role, next_phase(role, phase, events[0]), events.drop_first())
    }
}

/// A step that starts sending the local description: it enters the
/// announcing phase, whose action sends it.
pub open spec fn starts_announcing(from: Phase, to: Phase) -> bool {
    to is Announcing && !(from is Announcing)
}

/// A step that takes a remote description in and starts applying it.
pub open spec fn starts_applying(from: Phase, to: Phase) -> bool {
    to is ApplyingRemote && !(from is ApplyingRemote)
}

/// How many times a side sends its local description over a run.
pub open spec fn announcements(role: Role, phase: Phase, events: Seq<Event>) -> nat
    decreases events.len(),
{
    if events.len() == 0 {
        0
    } else {
        let next = next_phase(role, phase, events[0]);
        (if starts_announcing(phase, next) {
            1nat
        } else {
            0nat
        }) + announcements(role, next, events.drop_first())
    }
}

/// How many remote descriptions a side takes in over a run.
pub open spec fn applications(role: Role, phase: Phase, events: Seq<Event>) -> nat
    decreases events.len(),
{
    if events.len() == 0 {
        0
    } else {
        let next = next_phase(role, phase, events[0]);
        (if starts_applying(phase, next) {
            1nat
        } else {
            0nat
        }) + applications(role, next, events.drop_first())
    }
}

/// A side sends its description only right after setting it as local
/// description, and it sends the very sdp it set; what it sends is a
/// description of its own kind: offers from a dialing side, answers from an
/// accepting side.
pub proof fn lemma_announce_follows_local_description(role: Role, phase: Phase, event: Event)
    requires
        starts_announcing(phase, next_phase(role, phase, event)),
    ensures
        phase is SettingLocal,
        event matches Event::Completed(Ok(_)),
        next_phase(role, phase, event) == Phase::Announcing(phase->SettingLocal_0),
        action_of(role, next_phase(role, phase, event)) == ActionView::SendSignal(
            MessageView::RemoteDescription(
                (SessionDescriptionView {
                    sdp: phase->SettingLocal_0@,
                    sdp_type: sdp_type_text(own_kind(role)),
                }),
            ),
        ),
{
}

/// A side takes in a remote description only while waiting, and only one of
/// the kind it expects: an accepting side takes offers, a dialing side
/// answers.
pub proof fn lemma_applies_only_expected_kind(role: Role, phase: Phase, event: Event)
    requires
        starts_applying(phase, next_phase(role, phase, event)),
    ensures
        phase is Listening,
        event matches Event::Signal(Message::RemoteDescription(d)) && sdp_type_of(d.sdp_type@)
            == Some(remote_kind(role)) && next_phase(role, phase, event) == Phase::ApplyingRemote(
            d.sdp,
        ),
{
}

/// The phases of a dialing side before it has sent its offer.
pub open spec fn before_offer_sent(phase: Phase) -> bool {
    match phase {
        Phase::CreatingOffer => true,
        Phase::SettingLocal(_) => true,
        Phase::Failed(ConnectionError::CreateOffer(_)) => true,
        Phase::Failed(ConnectionError::ExtractOfferSdp(_)) => true,
        Phase::Failed(ConnectionError::SetLocalDescription(_)) => true,
        _ => false,
    }
}

/// Whether a dialing side has sent its offer, as a number.
pub open spec fn offers_sent(phase: Phase) -> nat {
    if before_offer_sent(phase) {
        0
    } else {
        1
    }
}

proof fn lemma_dialer_step_counts(phase: Phase, event: Event)
    requires
        fits_role(Role::Dialer, phase),
    ensures
        offers_sent(phase) <= offers_sent(next_phase(Role::Dialer, phase, event)),
        (if starts_announcing(phase, next_phase(Role::Dialer, phase, event)) {
            1int
        } else {
            0int
        }) == offers_sent(next_phase(Role::Dialer, phase, event)) - offers_sent(phase),
{
}

proof fn lemma_dialer_run_counts(phase: Phase, events: Seq<Event>)
    requires
        fits_role(Role::Dialer, phase),
    ensures
        announcements(Role::Dialer, phase, events) == offers_sent(run(Role::Dialer, phase, events))
            - offers_sent(phase),
    decreases events.len(),
{
    if events.len() > 0 {
        let next = next_phase(Role::Dialer, phase, events[0]);
        lemma_dialer_step_counts(phase, events[0]);
        lemma_role_is_kept(Role::Dialer, phase, events[0]);
        lemma_dialer_run_counts(next, events.drop_first());
    }
}

/// Over any run, a dialing side sends exactly one description, its offer,
/// once it got past setting the offer as local description, and none before
/// (or when creating or setting the offer failed). It never sends an answer.
pub proof fn lemma_dialer_sends_one_offer(events: Seq<Event>)
    ensures
        announcements(Role::Dialer, Phase::CreatingOffer, events) == if before_offer_sent(
            run(Role::Dialer, Phase::CreatingOffer, events),
        ) {
            0nat
        } else {
            1nat
        },
        sdp_type_text(own_kind(Role::Dialer)) == "offer"@,
{
    lemma_dialer_run_counts(Phase::CreatingOffer, events);
}

/// Whether an accepting side is answering an offer it took in.
pub open spec fn answering(phase: Phase) -> nat {
    match phase {
        Phase::ApplyingRemote(_) => 1,
        Phase::CreatingAnswer => 1,
        Phase::SettingLocal(_) => 1,
        _ => 0,
    }
}

proof fn lemma_listener_step_counts(phase: Phase, event: Event)
    requires
        fits_role(Role::Listener, phase),
    ensures
        ({
            let next = next_phase(Role::Listener, phase, event);
            (if starts_announcing(phase, next) {
                1int
            } else {
                0int
            }) + answering(next) <= (if starts_applying(phase, next) {
                1int
            } else {
                0int
            }) + answering(phase)
        }),
{
}

proof fn lemma_listener_run_counts(phase: Phase, events: Seq<Event>)
    requires
        fits_role(Role::Listener, phase),
    ensures
        announcements(Role::Listener, phase, events) + answering(run(Role::Listener, phase, events))
            <= applications(Role::Listener, phase, events) + answering(phase),
    decreases events.len(),
{
    if events.len() > 0 {
        let next = next_phase(Role::Listener, phase, events[0]);
        lemma_listener_step_counts(phase, events[0]);
        lemma_role_is_kept(Role::Listener, phase, events[0]);
        lemma_listener_run_counts(next, events.drop_first());
    }
}

/// Over any run, an accepting side sends at most one answer for each offer
/// it took in, and it never sends an offer.
pub proof fn lemma_listener_answers_each_offer_at_most_once(events: Seq<Event>)
    ensures
        announcements(Role::Listener, Phase::Listening, events) <= applications(
            Role::Listener,
            Phase::Listening,
            events,
        ),
        sdp_type_text(own_kind(Role::Listener)) == "answer"@,
{
    lemma_listener_run_counts(Phase::Listening, events);
}

/// Two peers whose signalling is cross-wired connect: the offer the dialing
/// side sends, handed to the accepting side, is applied and answered; the
/// answer, handed back, is applied by the dialing side; each side then opens
/// once its channel reports open.
pub proof fn lemma_two_peers_connect(offer: String, answer: String, to_listener: Message, to_dialer: Message)
    requires
        to_listener@ == MessageView::RemoteDescription(
            (SessionDescriptionView { sdp: offer@, sdp_type: sdp_type_text(SdpType::Offer) }),
        ),
        to_dialer@ == MessageView::RemoteDescription(
            (SessionDescriptionView { sdp: answer@, sdp_type: sdp_type_text(SdpType::Answer) }),
        ),
    ensures
        ({
            // the dialing side creates, sets and sends its offer
            let d1 = next_phase(Role::Dialer, Phase::CreatingOffer, Event::Created(Created::Sdp(offer)));
            let d2 = next_phase(Role::Dialer, d1, Event::Completed(Ok(())));
            let d3 = next_phase(Role::Dialer, d2, Event::Sent(true));
            // the accepting side takes the offer in and answers it
            let l1 = next_phase(Role::Listener, Phase::Listening, Event::Signal(to_listener));
            let l2 = next_phase(Role::Listener, l1, Event::Completed(Ok(())));
            let l3 = next_phase(Role::Listener, l2, Event::Created(Created::Sdp(answer)));
            let l4 = next_phase(Role::Listener, l3, Event::Completed(Ok(())));
            let l5 = next_phase(Role::Listener, l4, Event::Sent(true));
            // the dialing side applies the answer
            let d4 = next_phase(Role::Dialer, d3, Event::Signal(to_dialer));
            let d5 = next_phase(Role::Dialer, d4, Event::Completed(Ok(())));
            // the channels open
            let d6 = next_phase(Role::Dialer, d5, Event::Opened);
            let l6 = next_phase(Role::Listener, l5, Event::ChannelArrived);
            let l7 = next_phase(Role::Listener, l6, Event::Opened);
            &&& action_of(Role::Dialer, d2) == ActionView::SendSignal(to_listener@)
            &&& action_of(Role::Listener, l1) == ActionView::SetRemoteDescription(
                SdpType::Offer,
                offer@,
            )
            &&& action_of(Role::Listener, l4) == ActionView::SendSignal(to_dialer@)
            &&& action_of(Role::Dialer, d4) == ActionView::SetRemoteDescription(
                SdpType::Answer,
                answer@,
            )
            &&& d6 == Phase::Open
            &&& l7 == Phase::Open
        }),
{
    lemma_sdp_type_text_roundtrip(SdpType::Offer);
    lemma_sdp_type_text_roundtrip(SdpType::Answer);
}

/// A failed negotiation asks the caller to give up, with the very error it
/// failed with, whatever the side.
pub proof fn lemma_failed_negotiation_gives_up(role: Role, e: ConnectionError)
    ensures
        action_of(role, Phase::Failed(e)) == ActionView::Fail(e),
{
}

/// The action tells the phase: each kind of action is asked for in exactly
/// one kind of phase. In particular the caller is told to hand out the
/// channel only when the negotiation is open, to wait for signalling only
/// while listening, and to give up exactly when the negotiation failed, with
/// its error. A set description carries the sdp of the phase and the side's
/// own kind (local) or the remote kind (remote).
pub proof fn lemma_action_tells_phase(role: Role, phase: Phase)
    ensures
        action_of(role, phase) is Open <==> phase is Open,
        action_of(role, phase) is Listen <==> phase is Listening,
        action_of(role, phase) is AwaitOpen <==> phase is AwaitingOpen,
        action_of(role, phase) is CreateOffer <==> phase is CreatingOffer,
        action_of(role, phase) is CreateAnswer <==> phase is CreatingAnswer,
        action_of(role, phase) is Fail <==> phase is Failed,
        action_of(role, phase) is SendSignal <==> phase is Announcing,
        action_of(role, phase) is AddIceCandidate <==> phase is AddingCandidate,
        action_of(role, phase) is SetLocalDescription <==> phase is SettingLocal,
        action_of(role, phase) is SetRemoteDescription <==> phase is ApplyingRemote,
        phase matches Phase::Failed(e) ==> action_of(role, phase) == ActionView::Fail(e),
        phase matches Phase::SettingLocal(s) ==> action_of(role, phase)
            == ActionView::SetLocalDescription(own_kind(role), s@),
        phase matches Phase::ApplyingRemote(s) ==> action_of(role, phase)
            == ActionView::SetRemoteDescription(remote_kind(role), s@),
        phase matches Phase::AddingCandidate(c) ==> action_of(role, phase)
            == ActionView::AddIceCandidate(c@),
{
}

/// Every failing step makes the caller give up, with the error that names
/// the failed step and carries the browser's report `d`: a rejected remote
/// description, a failed or sdp-less offer or answer, a rejected local
/// description, a rejected candidate, an offer the signalling channel
/// refused (dialing side), and events that end before the channel opens.
pub proof fn lemma_failing_steps_give_up(role: Role, s: String, c: IceCandidate, d: String)
    ensures
        action_of(role, next_phase(role, Phase::ApplyingRemote(s), Event::Completed(Err(d))))
            == ActionView::Fail(ConnectionError::SetRemoteDescription(d)),
        action_of(role, next_phase(role, Phase::SettingLocal(s), Event::Completed(Err(d))))
            == ActionView::Fail(ConnectionError::SetLocalDescription(d)),
        action_of(role, next_phase(role, Phase::AddingCandidate(c), Event::Completed(Err(d))))
            == ActionView::Fail(ConnectionError::AddIceCandidate(d)),
        action_of(role, next_phase(role, Phase::CreatingOffer, Event::Created(Created::Failed(d))))
            == ActionView::Fail(ConnectionError::CreateOffer(d)),
        action_of(role, next_phase(role, Phase::CreatingOffer, Event::Created(Created::NoSdp(d))))
            == ActionView::Fail(ConnectionError::ExtractOfferSdp(d)),
        action_of(role, next_phase(role, Phase::CreatingAnswer, Event::Created(Created::Failed(d))))
            == ActionView::Fail(ConnectionError::CreateAnswer(d)),
        action_of(role, next_phase(role, Phase::CreatingAnswer, Event::Created(Created::NoSdp(d))))
            == ActionView::Fail(ConnectionError::ExtractAnswerSdp(d)),
        action_of(role, next_phase(role, Phase::Listening, Event::StreamEnded)) == ActionView::Fail(
            ConnectionError::ChannelDidNotOpen,
        ),
        action_of(Role::Listener, next_phase(Role::Listener, Phase::AwaitingOpen, Event::StreamEnded))
            == ActionView::Fail(ConnectionError::WaitingForOpen),
        action_of(Role::Dialer, next_phase(Role::Dialer, Phase::Announcing(s), Event::Sent(false)))
            == ActionView::Fail(ConnectionError::SignalingClosed),
{
}

/// A phase moves only on the events it waits for: creating a description on
/// its creation, setting a description or adding a candidate on its
/// completion, sending on the send's outcome, listening on signalling, an
/// arrived or opened channel, or the end of the events, and waiting for the
/// channel to open on its opening or the end of the events. Any other event
/// leaves the negotiation where it is.
pub proof fn lemma_only_awaited_events_move(role: Role, phase: Phase, event: Event)
    requires
        next_phase(role, phase, event) != phase,
    ensures
        phase is CreatingOffer || phase is CreatingAnswer ==> event is Created,
        phase is SettingLocal || phase is ApplyingRemote || phase is AddingCandidate
            ==> event is Completed,
        phase is Announcing ==> event is Sent,
        phase is Listening ==> event is Signal || event is ChannelArrived || event is Opened
            || event is StreamEnded,
        phase is AwaitingOpen ==> event is Opened || event is StreamEnded,
        !(phase is Open) && !(phase is Failed),
{
}

} // verus!
