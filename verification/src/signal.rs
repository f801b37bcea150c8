//! Messages exchanged with the remote peer over an external signalling system.
use vstd::prelude::*;

verus! {

/// The two kinds of session description in an offer/answer exchange.
#[derive(Clone, Copy, Debug, PartialEq, Eq, Structural)]
pub enum SdpType {
    Offer,
    Answer,
}

/// The text by which a session description names its kind on the wire.
pub open spec fn sdp_type_text(kind: SdpType) -> Seq<char> {
    match kind {
        SdpType::Offer => "offer"@,
        SdpType::Answer => "answer"@,
    }
}

/// The kind that a wire text names, if it names one.
pub open spec fn sdp_type_of(text: Seq<char>) -> Option<SdpType> {
    if text == "offer"@ {
        Some(SdpType::Offer)
    } else if text == "answer"@ {
        Some(SdpType::Answer)
    } else {
        None
    }
}

impl SdpType {
    /// The wire text of this kind: `"offer"` or `"answer"`.
    pub fn text(self) -> (res: String)
        ensures
            res@ == sdp_type_text(self),
    {
        match self {
            SdpType::Offer => "offer".to_owned(),
            SdpType::Answer => "answer".to_owned(),
        }
    }
}

/// An ICE candidate gathered by one peer, to be handed to the other.
#[derive(Debug, Clone, PartialEq)]
pub struct IceCandidate {
    pub candidate: String,
    /// The media stream identification tag (`sdpMid`); empty when the
    /// browser reported none.
    pub mid: String,
}

/// A session description, carried opaquely between the peers.
#[derive(Debug, PartialEq)]
pub struct SessionDescription {
    pub sdp: String,
    /// `"offer"` or `"answer"`; other texts are carried but never acted upon.
    pub sdp_type: String,
}

/// Messages to be used for external signalling.
#[derive(Debug, PartialEq)]
pub enum Message {
    RemoteDescription(SessionDescription),
    RemoteCandidate(IceCandidate),
}

/// An ICE candidate as text.
pub struct IceCandidateView {
    pub candidate: Seq<char>,
    pub mid: Seq<char>,
}

/// A session description as text.
pub struct SessionDescriptionView {
    pub sdp: Seq<char>,
    pub sdp_type: Seq<char>,
}

/// A signalling message as text.
pub enum MessageView {
    RemoteDescription(SessionDescriptionView),
    RemoteCandidate(IceCandidateView),
}

impl View for IceCandidate {
    type V = IceCandidateView;

    open spec fn view(&self) -> IceCandidateView {
        IceCandidateView { candidate: self.candidate@, mid: self.mid@ }
    }
}

impl View for SessionDescription {
    type V = SessionDescriptionView;

    open spec fn view(&self) -> SessionDescriptionView {
        SessionDescriptionView { sdp: self.sdp@, sdp_type: self.sdp_type@ }
    }
}

impl View for Message {
    type V = MessageView;

    open spec fn view(&self) -> MessageView {
        match self {
            Message::RemoteDescription(d) => MessageView::RemoteDescription(d@),
            Message::RemoteCandidate(c) => MessageView::RemoteCandidate(c@),
        }
    }
}

/// Equality of a string with a wire text.
fn text_is(s: &String, text: &str) -> (res: bool)
    ensures
        res == (s@ == text@),
{
    let owned = text.to_owned();
    *s == owned
}

impl IceCandidate {
    /// A copy with the same text.
    pub fn duplicate(&self) -> (res: IceCandidate)
        ensures
            res == *self,
    {
        IceCandidate { candidate: self.candidate.clone(), mid: self.mid.clone() }
    }
}

impl SessionDescription {
    /// A description of the given kind, carrying `sdp`.
    pub fn of_kind(kind: SdpType, sdp: String) -> (res: SessionDescription)
        ensures
            res.sdp == sdp,
            res.sdp_type@ == sdp_type_text(kind),
    {
        SessionDescription { sdp, sdp_type: kind.text() }
    }

    /// The kind this description names, if its type text is `"offer"` or
    /// `"answer"`.
    pub fn kind(&self) -> (res: Option<SdpType>)
        ensures
            res == sdp_type_of(self.sdp_type@),
    {
        if text_is(&self.sdp_type, "offer") {
            Some(SdpType::Offer)
        } else if text_is(&self.sdp_type, "answer") {
            Some(SdpType::Answer)
        } else {
            None
        }
    }
}

/// The signalling message that announces a locally gathered ICE candidate;
/// a candidate without `sdpMid` is announced with an empty mid.
pub fn candidate_message(candidate: String, sdp_mid: Option<String>) -> (res: Message)
    ensures
        res@ == MessageView::RemoteCandidate(
            (IceCandidateView {
                candidate: candidate@,
                mid: match sdp_mid {
                    Some(m) => m@,
                    None => ""@,
                },
            }),
        ),
{
    let mid = match sdp_mid {
        Some(m) => m,
        None => "".to_owned(),
    };
    Message::RemoteCandidate(IceCandidate { candidate, mid })
}

/// What to send for one ICE candidate event: the candidate's announcement
/// when the event carries one (its text and its `sdpMid`), and nothing when
/// it carries none, which marks the end of candidate gathering.
pub fn candidate_announcement(candidate: Option<(String, Option<String>)>) -> (res: Option<Message>)
    ensures
        match candidate {
            None => res is None,
            Some((c, sdp_mid)) => res matches Some(m) && m@ == MessageView::RemoteCandidate(
                (IceCandidateView {
                    candidate: c@,
                    mid: match sdp_mid {
                        Some(mid) => mid@,
                        None => ""@,
                    },
                }),
            ),
        },
{
    match candidate {
        None => None,
        Some((c, sdp_mid)) => Some(candidate_message(c, sdp_mid)),
    }
}

/// Kinds and their texts correspond one to one: the text of a kind names
/// that kind, and the two kinds have different texts.
pub proof fn lemma_sdp_type_text_roundtrip(kind: SdpType)
    ensures
        sdp_type_of(sdp_type_text(kind)) == Some(kind),
        sdp_type_text(SdpType::Offer) != sdp_type_text(SdpType::Answer),
{
    reveal_strlit("offer");
    reveal_strlit("answer");
    assert(sdp_type_text(SdpType::Offer)[0] != sdp_type_text(SdpType::Answer)[0]);
}

} // verus!
