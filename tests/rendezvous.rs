use futures_channel::mpsc::{unbounded, UnboundedReceiver};
use tankcam::protocol::{
    ProtoId, SignalEnum, TankCommand, TankId, TankMessage, UserCommand, UserId, UserMessage,
};
use tankcam::registry::{
    deliver, get_tank_list, prepare, insert_peer, insert_tank, insert_user, remove_peer, remove_tank, remove_user,
    send, send_message_to_operator, send_message_to_tank, Registry, RouteError,
};
use tankcam::router::{handle_operator_message, handle_tank_message, route_operator_message};
use tankcam::session::{ConnectionSession, Outcome};
use tankcam::wire::{decode, encode};

/// What a session step came to once its prepared message was delivered.
#[derive(Debug, PartialEq, Eq)]
enum Settled {
    Unreadable,
    LoggedIn(Result<(), RouteError>),
    NoFreshIdentity,
    Routed(Result<(), RouteError>),
    Ignored,
}

fn feed(s: &mut ConnectionSession, reg: &mut Registry, text: &str) -> Settled {
    match s.on_text(reg, text) {
        Outcome::Unreadable => Settled::Unreadable,
        Outcome::Ignored => Settled::Ignored,
        Outcome::NoFreshIdentity => Settled::NoFreshIdentity,
        Outcome::LoggedIn(r) => Settled::LoggedIn(r.and_then(deliver)),
        Outcome::Routed(r) => Settled::Routed(r.and_then(deliver)),
    }
}

fn t(s: &str) -> TankId {
    TankId::new(s.to_string())
}

fn u(s: &str) -> UserId {
    UserId::new(s.to_string())
}

fn connect(reg: &mut Registry, addr: u64) -> UnboundedReceiver<String> {
    let (tx, rx) = unbounded();
    insert_peer(reg, addr, tx);
    rx
}

fn next_message(rx: &mut UnboundedReceiver<String>) -> Option<SignalEnum> {
    match rx.try_next() {
        Ok(Some(text)) => decode(&text),
        _ => None,
    }
}

fn nothing_queued(rx: &mut UnboundedReceiver<String>) -> bool {
    rx.try_next().is_err()
}

#[test]
fn tank_list_is_the_bound_set() {
    let mut reg = Registry::new();
    assert!(get_tank_list(&reg).is_empty());
    insert_tank(&mut reg, 1, t("a"));
    insert_tank(&mut reg, 2, t("b"));
    insert_user(&mut reg, 3, u("op"));
    let mut l: Vec<String> = get_tank_list(&reg).into_iter().map(|x| x.inner()).collect();
    l.sort();
    assert_eq!(l, vec!["a".to_string(), "b".to_string()]);
    remove_tank(&mut reg, &t("a"));
    let l: Vec<String> = get_tank_list(&reg).into_iter().map(|x| x.inner()).collect();
    assert_eq!(l, vec!["b".to_string()]);
}

#[test]
fn first_binding_wins() {
    let mut reg = Registry::new();
    let mut rx1 = connect(&mut reg, 1);
    let mut rx2 = connect(&mut reg, 2);
    insert_tank(&mut reg, 1, t("123"));
    insert_tank(&mut reg, 2, t("123"));
    let msg = SignalEnum::TankMessage(TankMessage::LoginResponse(t("123")));
    assert_eq!(send_message_to_tank(&reg, &t("123"), msg.clone()), Ok(()));
    assert_eq!(next_message(&mut rx1), Some(msg));
    assert!(nothing_queued(&mut rx2));
}

#[test]
fn send_to_unknown_address_fails() {
    let reg = Registry::new();
    assert_eq!(send(&reg, &9, SignalEnum::Start), Err(RouteError::PeerGone));
}

#[test]
fn send_queues_the_envelope_text() {
    let mut reg = Registry::new();
    let mut rx = connect(&mut reg, 4);
    assert_eq!(send(&reg, &4, SignalEnum::Start), Ok(()));
    assert_eq!(rx.try_next().unwrap(), Some("\"Start\"".to_string()));
}

#[test]
fn send_to_closed_queue_fails() {
    let mut reg = Registry::new();
    let rx = connect(&mut reg, 4);
    drop(rx);
    assert_eq!(send(&reg, &4, SignalEnum::Start), Err(RouteError::SendFailed));
}

#[test]
fn identity_without_connection_is_gone() {
    let mut reg = Registry::new();
    let _rx = connect(&mut reg, 5);
    insert_user(&mut reg, 5, u("op"));
    remove_peer(&mut reg, &5);
    let m = SignalEnum::UserResponse(UserMessage::LoginResponse(u("op")));
    assert_eq!(send_message_to_operator(&reg, &u("op"), m.clone()), Err(RouteError::PeerGone));
    remove_user(&mut reg, &u("op"));
    assert_eq!(send_message_to_operator(&reg, &u("op"), m), Err(RouteError::NotOnline));
}

#[test]
fn offer_reaches_online_tank_once() {
    let mut reg = Registry::new();
    let mut tank_rx = connect(&mut reg, 10);
    let mut op_rx = connect(&mut reg, 20);
    insert_tank(&mut reg, 10, t("T"));
    insert_user(&mut reg, 20, u("U"));
    let cmd = UserCommand::SdpOffer(t("T"), "payload".to_string());
    assert_eq!(handle_operator_message(&reg, u("U"), cmd), Ok(()));
    assert_eq!(
        next_message(&mut tank_rx),
        Some(SignalEnum::TankMessage(TankMessage::SdpConnectionOffer(u("U"), "payload".to_string())))
    );
    assert!(nothing_queued(&mut tank_rx));
    assert!(nothing_queued(&mut op_rx));
}

#[test]
fn offer_to_offline_tank_fails() {
    let mut reg = Registry::new();
    let mut op_rx = connect(&mut reg, 20);
    insert_user(&mut reg, 20, u("U"));
    let cmd = UserCommand::SdpOffer(t("T"), "payload".to_string());
    assert_eq!(handle_operator_message(&reg, u("U"), cmd), Err(RouteError::NotOnline));
    let cmd = UserCommand::IceOffer(t("T"), "payload".to_string());
    assert_eq!(route_operator_message(&reg, &u("U"), cmd), Err(RouteError::NotOnline));
    assert!(nothing_queued(&mut op_rx));
}

#[test]
fn tank_answers_reach_operator() {
    let mut reg = Registry::new();
    let mut op_rx = connect(&mut reg, 20);
    let _tank_rx = connect(&mut reg, 10);
    insert_user(&mut reg, 20, u("U"));
    insert_tank(&mut reg, 10, t("T"));
    let cmd = TankCommand::SdpAnswer(u("U"), "answerY".to_string());
    assert_eq!(handle_tank_message(&reg, t("T"), cmd), Ok(()));
    assert_eq!(
        next_message(&mut op_rx),
        Some(SignalEnum::UserResponse(UserMessage::SdpAnswer(t("T"), "answerY".to_string())))
    );
    let cmd = TankCommand::IceAnswer(u("U"), "ice".to_string());
    assert_eq!(handle_tank_message(&reg, t("T"), cmd), Ok(()));
    assert_eq!(
        next_message(&mut op_rx),
        Some(SignalEnum::UserResponse(UserMessage::IceOfferAnswer(t("T"), "ice".to_string())))
    );
}

#[test]
fn new_camera_is_unsupported() {
    let mut reg = Registry::new();
    let _rx = connect(&mut reg, 10);
    insert_tank(&mut reg, 10, t("T"));
    assert_eq!(handle_tank_message(&reg, t("T"), TankCommand::NewCamera(t("x"))), Err(RouteError::Unsupported));
}

fn login_text(tank: bool) -> String {
    if tank {
        encode(&SignalEnum::TankCommand(TankCommand::Login))
    } else {
        encode(&SignalEnum::UserCommand(UserCommand::Login))
    }
}

fn tank_of(s: &ConnectionSession) -> TankId {
    match s.identity_of() {
        Some(ProtoId::Tank(x)) => x,
        other => panic!("device identity missing: {:?}", other),
    }
}

fn user_of(s: &ConnectionSession) -> UserId {
    match s.identity_of() {
        Some(ProtoId::User(x)) => x,
        other => panic!("operator identity missing: {:?}", other),
    }
}

fn is_generated(name: &str) -> bool {
    name.len() == 10 && name.chars().all(|c| c.is_ascii_alphanumeric())
}

#[test]
fn device_login_then_operator_lists_it() {
    let mut reg = Registry::new();
    let mut tank_rx = connect(&mut reg, 1);
    let mut tank = ConnectionSession::new(1);
    assert_eq!(feed(&mut tank, &mut reg, &login_text(true)), Settled::LoggedIn(Ok(())));
    let tank_id = tank_of(&tank);
    assert!(is_generated(&tank_id.clone().inner()));
    assert_eq!(
        next_message(&mut tank_rx),
        Some(SignalEnum::TankMessage(TankMessage::LoginResponse(tank_id.clone())))
    );
    assert_eq!(get_tank_list(&reg), vec![tank_id.clone()]);

    let mut op_rx = connect(&mut reg, 2);
    let mut op = ConnectionSession::new(2);
    assert_eq!(feed(&mut op, &mut reg, &login_text(false)), Settled::LoggedIn(Ok(())));
    let user = user_of(&op);
    assert!(is_generated(&user.clone().inner()));
    assert_ne!(user.clone().inner(), tank_id.clone().inner());
    assert_eq!(
        next_message(&mut op_rx),
        Some(SignalEnum::UserResponse(UserMessage::LoginResponse(user)))
    );
    assert_eq!(feed(&mut op, &mut reg, &login_text(false)), Settled::Routed(Ok(())));
    assert_eq!(
        next_message(&mut op_rx),
        Some(SignalEnum::UserResponse(UserMessage::CameraListGetSuccess(vec![tank_id])))
    );
}

#[test]
fn offer_and_answer_through_sessions() {
    let mut reg = Registry::new();
    let mut tank_rx = connect(&mut reg, 1);
    let mut op_rx = connect(&mut reg, 2);
    let mut tank = ConnectionSession::new(1);
    let mut op = ConnectionSession::new(2);
    feed(&mut tank, &mut reg, &login_text(true));
    feed(&mut op, &mut reg, &login_text(false));
    let _ = next_message(&mut tank_rx);
    let _ = next_message(&mut op_rx);
    let user = user_of(&op);
    let tank_id = tank_of(&tank);

    let offer = encode(&SignalEnum::UserCommand(UserCommand::SdpOffer(tank_id.clone(), "offerX".to_string())));
    assert_eq!(feed(&mut op, &mut reg, &offer), Settled::Routed(Ok(())));
    assert_eq!(
        next_message(&mut tank_rx),
        Some(SignalEnum::TankMessage(TankMessage::SdpConnectionOffer(user.clone(), "offerX".to_string())))
    );

    let answer = encode(&SignalEnum::TankCommand(TankCommand::SdpAnswer(user, "answerY".to_string())));
    assert_eq!(feed(&mut tank, &mut reg, &answer), Settled::Routed(Ok(())));
    assert_eq!(
        next_message(&mut op_rx),
        Some(SignalEnum::UserResponse(UserMessage::SdpAnswer(tank_id, "answerY".to_string())))
    );
}

#[test]
fn disconnected_device_is_unlisted_and_unreachable() {
    let mut reg = Registry::new();
    let _tank_rx = connect(&mut reg, 1);
    let _op_rx = connect(&mut reg, 2);
    let mut tank = ConnectionSession::new(1);
    let mut op = ConnectionSession::new(2);
    feed(&mut tank, &mut reg, &login_text(true));
    feed(&mut op, &mut reg, &login_text(false));
    let tank_id = tank_of(&tank);
    tank.disconnect(&mut reg);
    assert!(get_tank_list(&reg).is_empty());
    let offer = encode(&SignalEnum::UserCommand(UserCommand::SdpOffer(tank_id, "offerX".to_string())));
    assert_eq!(feed(&mut op, &mut reg, &offer), Settled::Routed(Err(RouteError::NotOnline)));
}

#[test]
fn second_login_keeps_identity() {
    let mut reg = Registry::new();
    let mut rx = connect(&mut reg, 2);
    let mut op = ConnectionSession::new(2);
    feed(&mut op, &mut reg, &login_text(false));
    let first = op.identity_of();
    feed(&mut op, &mut reg, &login_text(false));
    feed(&mut op, &mut reg, &login_text(true));
    assert_eq!(op.identity_of(), first);
    assert!(get_tank_list(&reg).is_empty());
    let _ = next_message(&mut rx);
    let _ = next_message(&mut rx);
    assert!(nothing_queued(&mut rx));
}

#[test]
fn device_relogin_is_acknowledged_again() {
    let mut reg = Registry::new();
    let mut rx = connect(&mut reg, 1);
    let mut tank = ConnectionSession::new(1);
    feed(&mut tank, &mut reg, &login_text(true));
    let tank_id = tank_of(&tank);
    assert_eq!(feed(&mut tank, &mut reg, &login_text(true)), Settled::Routed(Ok(())));
    assert_eq!(tank_of(&tank), tank_id);
    assert_eq!(get_tank_list(&reg), vec![tank_id.clone()]);
    let ack = Some(SignalEnum::TankMessage(TankMessage::LoginResponse(tank_id)));
    assert_eq!(next_message(&mut rx), ack.clone());
    assert_eq!(next_message(&mut rx), ack);
}

#[test]
fn session_drops_what_it_cannot_use() {
    let mut reg = Registry::new();
    let _rx = connect(&mut reg, 1);
    let mut s = ConnectionSession::new(1);
    assert_eq!(feed(&mut s, &mut reg, "not json"), Settled::Unreadable);
    let answer = encode(&SignalEnum::TankCommand(TankCommand::SdpAnswer(u("U"), "a".to_string())));
    assert_eq!(feed(&mut s, &mut reg, &answer), Settled::Ignored);
    assert_eq!(feed(&mut s, &mut reg, &encode(&SignalEnum::Start)), Settled::Ignored);
    assert_eq!(s.identity_of(), None);
}

#[test]
fn two_devices_get_distinct_identities() {
    let mut reg = Registry::new();
    let _rx1 = connect(&mut reg, 1);
    let _rx2 = connect(&mut reg, 2);
    let mut first = ConnectionSession::new(1);
    let mut second = ConnectionSession::new(2);
    feed(&mut first, &mut reg, &login_text(true));
    feed(&mut second, &mut reg, &login_text(true));
    let (a, b) = (tank_of(&first), tank_of(&second));
    assert_ne!(a, b);
    let mut listed: Vec<String> = get_tank_list(&reg).into_iter().map(|x| x.inner()).collect();
    listed.sort();
    let mut expected = vec![a.clone().inner(), b.inner()];
    expected.sort();
    assert_eq!(listed, expected);
    second.disconnect(&mut reg);
    assert_eq!(get_tank_list(&reg), vec![a]);
    first.disconnect(&mut reg);
    assert!(get_tank_list(&reg).is_empty());
}

#[test]
fn login_without_connection_reports_the_acknowledgement() {
    let mut reg = Registry::new();
    let mut s = ConnectionSession::new(7);
    assert_eq!(feed(&mut s, &mut reg, &login_text(true)), Settled::LoggedIn(Err(RouteError::PeerGone)));
    assert!(s.identity_of().is_some());
}

#[test]
fn taken_identity_is_not_given_out() {
    let mut reg = Registry::new();
    let _rx = connect(&mut reg, 1);
    insert_tank(&mut reg, 9, t("Taken00000"));
    let mut s = ConnectionSession::new(1);
    assert!(matches!(s.log_in(&mut reg, "Taken00000".to_string(), false), Outcome::NoFreshIdentity));
    assert_eq!(s.identity_of(), None);
    match s.log_in(&mut reg, "Fresh00000".to_string(), false) {
        Outcome::LoggedIn(Ok(d)) => {
            assert_eq!(d.addr, 1);
            assert_eq!(d.message, SignalEnum::UserResponse(UserMessage::LoginResponse(u("Fresh00000"))));
            assert_eq!(d.text, "{\"UserResponse\":{\"LoginResponse\":\"Fresh00000\"}}");
        }
        other => panic!("expected a login, got {:?}", other),
    }
    assert_eq!(s.identity_of(), Some(ProtoId::User(u("Fresh00000"))));
}

#[test]
fn prepared_message_holds_its_text() {
    let mut reg = Registry::new();
    let mut rx = connect(&mut reg, 3);
    assert_eq!(prepare(&reg, &4, SignalEnum::Start).err(), Some(RouteError::PeerGone));
    let d = prepare(&reg, &3, SignalEnum::Start).unwrap();
    assert_eq!((d.addr, d.text.as_str()), (3, "\"Start\""));
    assert_eq!(deliver(d), Ok(()));
    assert_eq!(rx.try_next().unwrap(), Some("\"Start\"".to_string()));
}
