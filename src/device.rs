//! The device's side of the session: connectivity state, the answerer's
//! handshake, and what its signaling client does with each message.
use vstd::prelude::*;
use crate::protocol::{
    SignalEnum, SignalV, TankCommand, TankCommandV, TankId, TankMessage, TankMessageV, UserId,
};
use crate::wire::{decode, decode_spec, enc, encode};

verus! {

/// Connectivity of the device's one peer connection.
#[derive(Debug, Clone, Copy, PartialEq, Eq, Structural)]
pub enum ConnState {
    NotConnected,
    Connected,
    Failed,
}

impl ConnState {
    /// The transport reported an ICE connectivity change; `connected` says
    /// whether it reported "connected". Only a connection that has not yet
    /// connected or failed moves.
    pub fn on_ice_state(self, connected: bool) -> (r: ConnState)
        ensures
            r == if connected && self == ConnState::NotConnected {
                ConnState::Connected
            } else {
                self
            },
    {
        if connected && self == ConnState::NotConnected {
            ConnState::Connected
        } else {
            self
        }
    }

    /// The transport reported an overall connection-state change; `failed`
    /// says whether it reported "failed", which is final.
    pub fn on_peer_state(self, failed: bool) -> (r: ConnState)
        ensures
            r == if failed {
                ConnState::Failed
            } else {
                self
            },
    {
        if failed {
            ConnState::Failed
        } else {
            self
        }
    }

    /// Whether frames should be captured and sent.
    pub fn is_live(self) -> (r: bool)
        ensures
            r == (self == ConnState::Connected),
    {
        self == ConnState::Connected
    }
}

/// Commands for the peer-connection task.
#[derive(Debug, Clone, PartialEq, Eq)]
pub enum WebRtcEnumCommand {
    ReceiveSdpOffer(UserId, String),
    ReceiveIceHandshake(UserId, String),
    CloseConn,
}

/// Commands for the signaling client.
#[derive(Debug, Clone, PartialEq, Eq)]
pub enum WebSocketCommand {
    ConnectToSignalServer(String),
    SendSignal(SignalEnum),
}

/// What the signaling client does with one inbound text.
#[derive(Debug, Clone, PartialEq, Eq)]
pub enum Inbound {
    /// Not an envelope; dropped.
    Unreadable,
    /// The service acknowledged the login with this identity.
    LoginAck(TankId),
    /// A handshake for the peer-connection task.
    Handshake(WebRtcEnumCommand),
    /// Not for a device; dropped.
    Ignored,
}

/// What one inbound text of the signaling channel calls for.
pub fn inbound_command(text: &str) -> (r: Inbound)
    ensures
        match decode_spec(text@) {
            None => r is Unreadable,
            Some(SignalV::TankMessage(TankMessageV::LoginResponse(t))) => r matches Inbound::LoginAck(id)
                && id@ == t,
            Some(SignalV::TankMessage(TankMessageV::IceConnectionOffer(u, d))) => r matches Inbound::Handshake(
                WebRtcEnumCommand::ReceiveIceHandshake(id, p),
            ) && id@ == u && p@ == d,
            Some(SignalV::TankMessage(TankMessageV::SdpConnectionOffer(u, d))) => r matches Inbound::Handshake(
                WebRtcEnumCommand::ReceiveSdpOffer(id, p),
            ) && id@ == u && p@ == d,
            Some(_) => r is Ignored,
        },
{
    match decode(text) {
        None => Inbound::Unreadable,
        Some(SignalEnum::TankMessage(m)) => match m {
            TankMessage::LoginResponse(t) => Inbound::LoginAck(t),
            TankMessage::IceConnectionOffer(u, d) => Inbound::Handshake(
                WebRtcEnumCommand::ReceiveIceHandshake(u, d),
            ),
            TankMessage::SdpConnectionOffer(u, d) => Inbound::Handshake(
                WebRtcEnumCommand::ReceiveSdpOffer(u, d),
            ),
        },
        Some(_) => Inbound::Ignored,
    }
}

/// What the signaling client writes for one outbound command.
#[derive(Debug, Clone, PartialEq, Eq)]
pub enum Outbound {
    /// Open the connection to this address, then send this login text.
    Connect(String, String),
    /// Send this text.
    Send(String),
}

pub open spec fn login_text() -> Seq<char> {
    enc(SignalV::TankCommand(TankCommandV::Login))
}

/// What one outbound command of the signaling client writes.
pub fn outbound_command(cmd: WebSocketCommand) -> (r: Outbound)
    ensures
        match cmd {
            WebSocketCommand::ConnectToSignalServer(url) => r matches Outbound::Connect(u, t) && u@
                == url@ && t@ == login_text(),
            WebSocketCommand::SendSignal(s) => r matches Outbound::Send(t) && t@ == enc(s@),
        },
{
    match cmd {
        WebSocketCommand::ConnectToSignalServer(url) => {
            let login = encode(&SignalEnum::TankCommand(TankCommand::Login));
            Outbound::Connect(url, login)
        },
        WebSocketCommand::SendSignal(s) => Outbound::Send(encode(&s)),
    }
}

/// The reply to a handshake: the answer, addressed to the operator that
/// sent the offer, in the kind that matches the offer's kind.
pub fn answer_for(cmd: &WebRtcEnumCommand, answer: String) -> (r: Option<WebSocketCommand>)
    ensures
        match cmd {
            WebRtcEnumCommand::ReceiveIceHandshake(u, _) => r matches Some(
                WebSocketCommand::SendSignal(s),
            ) && s@ == SignalV::TankCommand(TankCommandV::IceAnswer(u@, answer@)),
            WebRtcEnumCommand::ReceiveSdpOffer(u, _) => r matches Some(
                WebSocketCommand::SendSignal(s),
            ) && s@ == SignalV::TankCommand(TankCommandV::SdpAnswer(u@, answer@)),
            WebRtcEnumCommand::CloseConn => r is None,
        },
{
    match cmd {
        WebRtcEnumCommand::ReceiveIceHandshake(u, _) => Some(
            WebSocketCommand::SendSignal(
                SignalEnum::TankCommand(TankCommand::IceAnswer(u.duplicate(), answer)),
            ),
        ),
        WebRtcEnumCommand::ReceiveSdpOffer(u, _) => Some(
            WebSocketCommand::SendSignal(
                SignalEnum::TankCommand(TankCommand::SdpAnswer(u.duplicate(), answer)),
            ),
        ),
        WebRtcEnumCommand::CloseConn => None,
    }
}

/// Where an answerer's handshake stands.
#[derive(Debug, Clone, Copy, PartialEq, Eq, Structural)]
pub enum HandshakeStep {
    ParseOffer,
    SetRemote,
    CreateAnswer,
    SetLocal,
    AwaitGathering,
    ReadLocal,
    Done,
    Failed,
}

/// What the transport reported for the step that was asked for.
#[derive(Debug, Clone, Copy, PartialEq, Eq, Structural)]
pub enum HandshakeEvent {
    /// The offer text was read (`true`) or could not be read (`false`).
    OfferParsed(bool),
    RemoteDescriptionSet(bool),
    AnswerCreated(bool),
    LocalDescriptionSet(bool),
    GatheringComplete,
    /// Whether a local description was there after gathering.
    LocalDescriptionRead(bool),
}

/// Why a handshake failed.
#[derive(Debug, Clone, Copy, PartialEq, Eq, Structural)]
pub enum HandshakeError {
    BadOffer,
    RemoteDescription,
    Answer,
    LocalDescription,
    NoLocalDescription,
    OutOfOrder,
}

/// What the transport is to do next.
#[derive(Debug, Clone, Copy, PartialEq, Eq, Structural)]
pub enum HandshakeAction {
    SetRemoteDescription,
    CreateAnswer,
    /// Arm the gathering-complete signal, then set the local description.
    SetLocalDescription,
    AwaitGathering,
    ReadLocalDescription,
    /// Send the local description back to the offer's sender.
    Reply,
    Fail(HandshakeError),
}

/// One answerer handshake: offer in, answer out, with candidate gathering
/// completed before the answer leaves.
pub struct Handshake {
    pub step: HandshakeStep,
    pub remote_set: bool,
    pub gathered: bool,
}

impl Handshake {
    pub open spec fn step(&self) -> HandshakeStep {
        self.step
    }

    /// The remote description has been applied.
    pub open spec fn remote_applied(&self) -> bool {
        self.remote_set
    }

    /// The gathering-complete signal has fired.
    pub open spec fn gathering_done(&self) -> bool {
        self.gathered
    }

    /// Steps from reading the local description on come only after
    /// gathering completed, and nothing is applied before the offer is read.
    pub open spec fn wf(&self) -> bool {
        &&& (self.step == HandshakeStep::ReadLocal || self.step == HandshakeStep::Done)
            ==> self.gathered
        &&& (self.step == HandshakeStep::ParseOffer || self.step == HandshakeStep::SetRemote)
            ==> !self.remote_set && !self.gathered
    }

    /// A handshake that first reads the offer.
    pub fn new() -> (r: Self)
        ensures
            r == after(seq![]),
            r.wf(),
            r.step() == HandshakeStep::ParseOffer,
            !r.remote_applied(),
            !r.gathering_done(),
    {
        Handshake { step: HandshakeStep::ParseOffer, remote_set: false, gathered: false }
    }

    /// Takes the transport's report on the current step and says what to do
    /// next. An event that does not belong to the current step fails the
    /// handshake.
    pub fn advance(&mut self, ev: HandshakeEvent) -> (r: HandshakeAction)
        ensures
            (*final(self), r) == transition(*old(self), ev),
            old(self).wf() ==> final(self).wf(),
            old(self).wf() && r == HandshakeAction::Reply ==> old(self).gathering_done()
                && final(self).gathering_done(),
    {
        proof {
            if self.wf() {
                lemma_reply_needs_gathering(*self, ev);
            }
        }
        let (next, action) = match (self.step, ev) {
            (HandshakeStep::ParseOffer, HandshakeEvent::OfferParsed(ok)) => if ok {
                (HandshakeStep::SetRemote, HandshakeAction::SetRemoteDescription)
            } else {
                (HandshakeStep::Failed, HandshakeAction::Fail(HandshakeError::BadOffer))
            },
            (HandshakeStep::SetRemote, HandshakeEvent::RemoteDescriptionSet(ok)) => if ok {
                self.remote_set = true;
                (HandshakeStep::CreateAnswer, HandshakeAction::CreateAnswer)
            } else {
                (HandshakeStep::Failed, HandshakeAction::Fail(HandshakeError::RemoteDescription))
            },
            (HandshakeStep::CreateAnswer, HandshakeEvent::AnswerCreated(ok)) => if ok {
                (HandshakeStep::SetLocal, HandshakeAction::SetLocalDescription)
            } else {
                (HandshakeStep::Failed, HandshakeAction::Fail(HandshakeError::Answer))
            },
            (HandshakeStep::SetLocal, HandshakeEvent::LocalDescriptionSet(ok)) => if ok {
                (HandshakeStep::AwaitGathering, HandshakeAction::AwaitGathering)
            } else {
                (HandshakeStep::Failed, HandshakeAction::Fail(HandshakeError::LocalDescription))
            },
            (HandshakeStep::AwaitGathering, HandshakeEvent::GatheringComplete) => {
                self.gathered = true;
                (HandshakeStep::ReadLocal, HandshakeAction::ReadLocalDescription)
            },
            (HandshakeStep::ReadLocal, HandshakeEvent::LocalDescriptionRead(ok)) => if ok {
                (HandshakeStep::Done, HandshakeAction::Reply)
            } else {
                (HandshakeStep::Failed, HandshakeAction::Fail(HandshakeError::NoLocalDescription))
            },
            _ => (HandshakeStep::Failed, HandshakeAction::Fail(HandshakeError::OutOfOrder)),
        };
        self.step = next;
        action
    }
}

/// One step of the handshake: the state after a report and the action it
/// calls for.
pub open spec fn transition(h: Handshake, ev: HandshakeEvent) -> (Handshake, HandshakeAction) {
    let fail = |e: HandshakeError| (Handshake { step: HandshakeStep::Failed, ..h }, HandshakeAction::Fail(e));
    match (h.step, ev) {
        (HandshakeStep::ParseOffer, HandshakeEvent::OfferParsed(ok)) => if ok {
            (Handshake { step: HandshakeStep::SetRemote, ..h }, HandshakeAction::SetRemoteDescription)
        } else {
            fail(HandshakeError::BadOffer)
        },
        (HandshakeStep::SetRemote, HandshakeEvent::RemoteDescriptionSet(ok)) => if ok {
            (
                Handshake { step: HandshakeStep::CreateAnswer, remote_set: true, ..h },
                HandshakeAction::CreateAnswer,
            )
        } else {
            fail(HandshakeError::RemoteDescription)
        },
        (HandshakeStep::CreateAnswer, HandshakeEvent::AnswerCreated(ok)) => if ok {
            (Handshake { step: HandshakeStep::SetLocal, ..h }, HandshakeAction::SetLocalDescription)
        } else {
            fail(HandshakeError::Answer)
        },
        (HandshakeStep::SetLocal, HandshakeEvent::LocalDescriptionSet(ok)) => if ok {
            (Handshake { step: HandshakeStep::AwaitGathering, ..h }, HandshakeAction::AwaitGathering)
        } else {
            fail(HandshakeError::LocalDescription)
        },
        (HandshakeStep::AwaitGathering, HandshakeEvent::GatheringComplete) => (
            Handshake { step: HandshakeStep::ReadLocal, gathered: true, ..h },
            HandshakeAction::ReadLocalDescription,
        ),
        (HandshakeStep::ReadLocal, HandshakeEvent::LocalDescriptionRead(ok)) => if ok {
            (Handshake { step: HandshakeStep::Done, ..h }, HandshakeAction::Reply)
        } else {
            fail(HandshakeError::NoLocalDescription)
        },
        _ => fail(HandshakeError::OutOfOrder),
    }
}

/// The handshake after a run of reports, from a new one.
pub open spec fn after(evs: Seq<HandshakeEvent>) -> Handshake
    decreases evs.len(),
{
    if evs.len() == 0 {
        Handshake { step: HandshakeStep::ParseOffer, remote_set: false, gathered: false }
    } else {
        transition(after(evs.drop_last()), evs.last()).0
    }
}

proof fn lemma_run_invariant(evs: Seq<HandshakeEvent>)
    ensures
        after(evs).wf(),
        after(evs).gathering_done() ==> exists|j: int|
            0 <= j < evs.len() && evs[j] == HandshakeEvent::GatheringComplete,
    decreases evs.len(),
{
    if evs.len() > 0 {
        let prev = evs.drop_last();
        lemma_run_invariant(prev);
        if after(prev).gathering_done() {
            let j = choose|j: int| 0 <= j < prev.len() && prev[j] == HandshakeEvent::GatheringComplete;
            assert(evs[j] == prev[j]);
        } else if after(evs).gathering_done() {
            assert(evs[evs.len() - 1] == HandshakeEvent::GatheringComplete);
        }
    }
}

/// From any well-formed handshake, one report keeps it well-formed, and it
/// leads to sending the answer only where the gathering-complete signal has
/// already been reported.
pub proof fn lemma_reply_needs_gathering(h: Handshake, ev: HandshakeEvent)
    requires
        h.wf(),
    ensures
        transition(h, ev).0.wf(),
        transition(h, ev).1 == HandshakeAction::Reply ==> h.gathering_done() && transition(
            h,
            ev,
        ).0.gathering_done(),
{
}

/// Whatever the transport reports, and in whatever order, a handshake asks
/// for the answer to be sent only once the gathering-complete signal has
/// been reported.
pub proof fn lemma_reply_after_gathering(evs: Seq<HandshakeEvent>, ev: HandshakeEvent)
    ensures
        transition(after(evs), ev).1 == HandshakeAction::Reply ==> exists|j: int|
            0 <= j < evs.len() && evs[j] == HandshakeEvent::GatheringComplete,
{
    lemma_run_invariant(evs);
}

/// An offer that cannot be read fails the handshake at once, and no later
/// report applies a remote description.
pub proof fn lemma_bad_offer_applies_nothing(evs: Seq<HandshakeEvent>)
    requires
        evs.len() > 0,
        evs[0] == HandshakeEvent::OfferParsed(false),
    ensures
        !after(evs).remote_applied(),
        after(evs).step() == HandshakeStep::Failed,
        transition(after(seq![]), evs[0]).1 == HandshakeAction::Fail(HandshakeError::BadOffer),
    decreases evs.len(),
{
    if evs.len() > 1 {
        let prev = evs.drop_last();
        assert(prev[0] == evs[0]);
        lemma_bad_offer_applies_nothing(prev);
    } else {
        assert(evs.drop_last() =~= seq![]);
    }
}

} // verus!
