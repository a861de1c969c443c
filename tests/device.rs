use tankcam::device::{
    answer_for, inbound_command, outbound_command, ConnState, Handshake, HandshakeAction,
    HandshakeError, HandshakeEvent, Inbound, Outbound, WebRtcEnumCommand, WebSocketCommand,
};
use tankcam::protocol::{SignalEnum, TankCommand, TankId, TankMessage, UserCommand, UserId};
use tankcam::wire::encode;

fn u(s: &str) -> UserId {
    UserId::new(s.to_string())
}

#[test]
fn connectivity_transitions() {
    assert_eq!(ConnState::NotConnected.on_ice_state(true), ConnState::Connected);
    assert_eq!(ConnState::NotConnected.on_ice_state(false), ConnState::NotConnected);
    assert_eq!(ConnState::Failed.on_ice_state(true), ConnState::Failed);
    assert_eq!(ConnState::NotConnected.on_peer_state(true), ConnState::Failed);
    assert_eq!(ConnState::Connected.on_peer_state(true), ConnState::Failed);
    assert_eq!(ConnState::Connected.on_peer_state(false), ConnState::Connected);
    assert!(ConnState::Connected.is_live());
    assert!(!ConnState::Failed.is_live());
}

#[test]
fn inbound_offers_become_handshakes() {
    let text = encode(&SignalEnum::TankMessage(TankMessage::SdpConnectionOffer(u("U"), "offerX".to_string())));
    assert_eq!(
        inbound_command(&text),
        Inbound::Handshake(WebRtcEnumCommand::ReceiveSdpOffer(u("U"), "offerX".to_string()))
    );
    let text = encode(&SignalEnum::TankMessage(TankMessage::IceConnectionOffer(u("U"), "ice".to_string())));
    assert_eq!(
        inbound_command(&text),
        Inbound::Handshake(WebRtcEnumCommand::ReceiveIceHandshake(u("U"), "ice".to_string()))
    );
}

#[test]
fn inbound_other_texts() {
    let text = encode(&SignalEnum::TankMessage(TankMessage::LoginResponse(TankId::new("123".to_string()))));
    assert_eq!(inbound_command(&text), Inbound::LoginAck(TankId::new("123".to_string())));
    assert_eq!(inbound_command("{garbage"), Inbound::Unreadable);
    assert_eq!(inbound_command(&encode(&SignalEnum::Start)), Inbound::Ignored);
    let text = encode(&SignalEnum::UserCommand(UserCommand::Login));
    assert_eq!(inbound_command(&text), Inbound::Ignored);
}

#[test]
fn outbound_connect_sends_login() {
    let r = outbound_command(WebSocketCommand::ConnectToSignalServer("ws://127.0.0.1:9002".to_string()));
    assert_eq!(
        r,
        Outbound::Connect("ws://127.0.0.1:9002".to_string(), "{\"TankCommand\":\"Login\"}".to_string())
    );
    let r = outbound_command(WebSocketCommand::SendSignal(SignalEnum::Start));
    assert_eq!(r, Outbound::Send("\"Start\"".to_string()));
}

#[test]
fn answers_go_back_to_sender() {
    let cmd = WebRtcEnumCommand::ReceiveSdpOffer(u("U"), "offerX".to_string());
    assert_eq!(
        answer_for(&cmd, "answerY".to_string()),
        Some(WebSocketCommand::SendSignal(SignalEnum::TankCommand(TankCommand::SdpAnswer(u("U"), "answerY".to_string()))))
    );
    let cmd = WebRtcEnumCommand::ReceiveIceHandshake(u("V"), "o".to_string());
    assert_eq!(
        answer_for(&cmd, "a".to_string()),
        Some(WebSocketCommand::SendSignal(SignalEnum::TankCommand(TankCommand::IceAnswer(u("V"), "a".to_string()))))
    );
    assert_eq!(answer_for(&WebRtcEnumCommand::CloseConn, "a".to_string()), None);
}

#[test]
fn handshake_runs_in_order() {
    let mut h = Handshake::new();
    assert_eq!(h.advance(HandshakeEvent::OfferParsed(true)), HandshakeAction::SetRemoteDescription);
    assert_eq!(h.advance(HandshakeEvent::RemoteDescriptionSet(true)), HandshakeAction::CreateAnswer);
    assert_eq!(h.advance(HandshakeEvent::AnswerCreated(true)), HandshakeAction::SetLocalDescription);
    assert_eq!(h.advance(HandshakeEvent::LocalDescriptionSet(true)), HandshakeAction::AwaitGathering);
    assert_eq!(h.advance(HandshakeEvent::GatheringComplete), HandshakeAction::ReadLocalDescription);
    assert_eq!(h.advance(HandshakeEvent::LocalDescriptionRead(true)), HandshakeAction::Reply);
}

#[test]
fn handshake_bad_offer_fails_first() {
    let mut h = Handshake::new();
    assert_eq!(h.advance(HandshakeEvent::OfferParsed(false)), HandshakeAction::Fail(HandshakeError::BadOffer));
    assert_eq!(
        h.advance(HandshakeEvent::RemoteDescriptionSet(true)),
        HandshakeAction::Fail(HandshakeError::OutOfOrder)
    );
}

#[test]
fn handshake_no_reply_before_gathering() {
    let mut h = Handshake::new();
    h.advance(HandshakeEvent::OfferParsed(true));
    h.advance(HandshakeEvent::RemoteDescriptionSet(true));
    h.advance(HandshakeEvent::AnswerCreated(true));
    h.advance(HandshakeEvent::LocalDescriptionSet(true));
    assert_eq!(
        h.advance(HandshakeEvent::LocalDescriptionRead(true)),
        HandshakeAction::Fail(HandshakeError::OutOfOrder)
    );
}

#[test]
fn handshake_failures_name_the_step() {
    let mut h = Handshake::new();
    h.advance(HandshakeEvent::OfferParsed(true));
    assert_eq!(
        h.advance(HandshakeEvent::RemoteDescriptionSet(false)),
        HandshakeAction::Fail(HandshakeError::RemoteDescription)
    );
    let mut h = Handshake::new();
    h.advance(HandshakeEvent::OfferParsed(true));
    h.advance(HandshakeEvent::RemoteDescriptionSet(true));
    assert_eq!(h.advance(HandshakeEvent::AnswerCreated(false)), HandshakeAction::Fail(HandshakeError::Answer));
    let mut h = Handshake::new();
    h.advance(HandshakeEvent::OfferParsed(true));
    h.advance(HandshakeEvent::RemoteDescriptionSet(true));
    h.advance(HandshakeEvent::AnswerCreated(true));
    assert_eq!(
        h.advance(HandshakeEvent::LocalDescriptionSet(false)),
        HandshakeAction::Fail(HandshakeError::LocalDescription)
    );
    h = Handshake::new();
    h.advance(HandshakeEvent::OfferParsed(true));
    h.advance(HandshakeEvent::RemoteDescriptionSet(true));
    h.advance(HandshakeEvent::AnswerCreated(true));
    h.advance(HandshakeEvent::LocalDescriptionSet(true));
    h.advance(HandshakeEvent::GatheringComplete);
    assert_eq!(
        h.advance(HandshakeEvent::LocalDescriptionRead(false)),
        HandshakeAction::Fail(HandshakeError::NoLocalDescription)
    );
}
