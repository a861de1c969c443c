use tankcam::operator::{handle_message_reply, AppState, OperatorAction};
use tankcam::protocol::UserMessage;
use tankcam::wire::encode;
use tankcam::protocol::{SignalEnum, TankCommand, TankId, TankMessage, UserCommand, UserId};

#[test]
fn ids_keep_their_text() {
    assert_eq!(UserId::new("abc".to_string()).inner(), "abc");
    assert_eq!(TankId::new("123".to_string()).inner(), "123");
}

#[test]
fn login_classification() {
    assert!(SignalEnum::UserCommand(UserCommand::Login).is_login());
    assert!(SignalEnum::TankCommand(TankCommand::Login).is_login());
    assert!(!SignalEnum::Start.is_login());
    let offer = SignalEnum::UserCommand(UserCommand::SdpOffer(TankId::new("t".to_string()), "x".to_string()));
    assert!(!offer.is_login());
    assert!(offer.is_operator());
    assert!(!offer.is_tank());
}

#[test]
fn role_classification() {
    let t = SignalEnum::TankCommand(TankCommand::Login);
    assert!(t.is_tank());
    assert!(!t.is_operator());
    let m = SignalEnum::TankMessage(TankMessage::LoginResponse(TankId::new("1".to_string())));
    assert!(!m.is_tank());
    assert!(!m.is_operator());
}

#[test]
fn app_state_remembers_user() {
    let mut s = AppState::new();
    assert_eq!(s.get_user_id(), None);
    s.set_user_id(UserId::new("u1".to_string()));
    assert_eq!(s.get_user_id(), Some(UserId::new("u1".to_string())));
    assert_eq!(s.get_user_id(), Some(UserId::new("u1".to_string())));
}

#[test]
fn operator_answers_greeting_with_login() {
    let mut s = AppState::new();
    let r = handle_message_reply(&mut s, &encode(&SignalEnum::Start));
    assert_eq!(r, OperatorAction::Send("{\"UserCommand\":\"Login\"}".to_string()));
    assert_eq!(s.get_user_id(), None);
}

#[test]
fn operator_remembers_login_response() {
    let mut s = AppState::new();
    let text = encode(&SignalEnum::UserResponse(UserMessage::LoginResponse(UserId::new("Ab3".to_string()))));
    assert_eq!(handle_message_reply(&mut s, &text), OperatorAction::LoggedIn(UserId::new("Ab3".to_string())));
    assert_eq!(s.get_user_id(), Some(UserId::new("Ab3".to_string())));
}

#[test]
fn operator_hands_on_lists_and_answers() {
    let mut s = AppState::new();
    let t = TankId::new("123".to_string());
    let text = encode(&SignalEnum::UserResponse(UserMessage::CameraListGetSuccess(vec![t.clone()])));
    assert_eq!(handle_message_reply(&mut s, &text), OperatorAction::ShowTanks(vec![t.clone()]));
    let text = encode(&SignalEnum::UserResponse(UserMessage::SdpAnswer(t.clone(), "answerY".to_string())));
    assert_eq!(handle_message_reply(&mut s, &text), OperatorAction::ApplySdpAnswer(t.clone(), "answerY".to_string()));
    let text = encode(&SignalEnum::UserResponse(UserMessage::IceOfferAnswer(t.clone(), "c".to_string())));
    assert_eq!(handle_message_reply(&mut s, &text), OperatorAction::ApplyIceAnswer(t, "c".to_string()));
}

#[test]
fn operator_drops_the_rest() {
    let mut s = AppState::new();
    assert_eq!(handle_message_reply(&mut s, "nope"), OperatorAction::Unreadable);
    let text = encode(&SignalEnum::TankCommand(TankCommand::Login));
    assert_eq!(handle_message_reply(&mut s, &text), OperatorAction::Unexpected);
    assert_eq!(s.get_user_id(), None);
}
