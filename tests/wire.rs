use tankcam::protocol::{
    SignalEnum, TankCommand, TankId, TankMessage, UserCommand, UserId, UserMessage,
};
use tankcam::wire::{decode, encode};

fn t(s: &str) -> TankId {
    TankId::new(s.to_string())
}

fn u(s: &str) -> UserId {
    UserId::new(s.to_string())
}

fn every_kind() -> Vec<SignalEnum> {
    vec![
        SignalEnum::Start,
        SignalEnum::UserCommand(UserCommand::Login),
        SignalEnum::UserCommand(UserCommand::IceOffer(t("123"), "ice".to_string())),
        SignalEnum::UserCommand(UserCommand::SdpOffer(t("123"), "v=0\r\no=- 1 2 IN IP4 0.0.0.0\r\n".to_string())),
        SignalEnum::UserResponse(UserMessage::LoginResponse(u("Ab3dE5gH9k"))),
        SignalEnum::UserResponse(UserMessage::CameraListGetSuccess(vec![])),
        SignalEnum::UserResponse(UserMessage::CameraListGetSuccess(vec![t("a"), t("b\"c"), t("")])),
        SignalEnum::UserResponse(UserMessage::SdpAnswer(t("123"), "answer".to_string())),
        SignalEnum::UserResponse(UserMessage::IceOfferAnswer(t("123"), "{\"sdp\":\"x\"}".to_string())),
        SignalEnum::TankCommand(TankCommand::Login),
        SignalEnum::TankCommand(TankCommand::NewCamera(t("cam"))),
        SignalEnum::TankCommand(TankCommand::SdpAnswer(u("op"), "ans\\wer".to_string())),
        SignalEnum::TankCommand(TankCommand::IceAnswer(u("op"), "tab\there\u{1}\u{8}\u{c}/".to_string())),
        SignalEnum::TankMessage(TankMessage::LoginResponse(t("123"))),
        SignalEnum::TankMessage(TankMessage::SdpConnectionOffer(u("op"), "offer é ✓".to_string())),
        SignalEnum::TankMessage(TankMessage::IceConnectionOffer(u("op"), "".to_string())),
    ]
}

#[test]
fn every_envelope_reads_back() {
    for m in every_kind() {
        let text = encode(&m);
        assert_eq!(decode(&text), Some(m));
    }
}

#[test]
fn unit_variants_are_bare_names() {
    assert_eq!(encode(&SignalEnum::Start), "\"Start\"");
    assert_eq!(encode(&SignalEnum::UserCommand(UserCommand::Login)), "{\"UserCommand\":\"Login\"}");
    assert_eq!(encode(&SignalEnum::TankCommand(TankCommand::Login)), "{\"TankCommand\":\"Login\"}");
}

#[test]
fn tuple_variants_are_arrays() {
    let m = SignalEnum::UserCommand(UserCommand::SdpOffer(t("123"), "offerX".to_string()));
    assert_eq!(encode(&m), "{\"UserCommand\":{\"SdpOffer\":[\"123\",\"offerX\"]}}");
    let m = SignalEnum::TankMessage(TankMessage::SdpConnectionOffer(u("U"), "offerX".to_string()));
    assert_eq!(encode(&m), "{\"TankMessage\":{\"SdpConnectionOffer\":[\"U\",\"offerX\"]}}");
}

#[test]
fn newtype_variants_hold_the_value() {
    let m = SignalEnum::TankMessage(TankMessage::LoginResponse(t("123")));
    assert_eq!(encode(&m), "{\"TankMessage\":{\"LoginResponse\":\"123\"}}");
    let m = SignalEnum::UserResponse(UserMessage::CameraListGetSuccess(vec![t("a"), t("b")]));
    assert_eq!(encode(&m), "{\"UserResponse\":{\"CameraListGetSuccess\":[\"a\",\"b\"]}}");
    let m = SignalEnum::UserResponse(UserMessage::CameraListGetSuccess(vec![]));
    assert_eq!(encode(&m), "{\"UserResponse\":{\"CameraListGetSuccess\":[]}}");
}

#[test]
fn strings_are_escaped() {
    let m = SignalEnum::TankCommand(TankCommand::IceAnswer(u("a\"b"), "x\\y\nz\r\t\u{8}\u{c}\u{1f}".to_string()));
    assert_eq!(
        encode(&m),
        "{\"TankCommand\":{\"IceAnswer\":[\"a\\\"b\",\"x\\\\y\\nz\\r\\t\\b\\f\\u001f\"]}}"
    );
}

#[test]
fn escapes_are_read() {
    let text = "{\"TankMessage\":{\"IceConnectionOffer\":[\"op\",\"a\\/b\\u0041\\u00e9\\u000a\\u001F\"]}}";
    assert_eq!(
        decode(text),
        Some(SignalEnum::TankMessage(TankMessage::IceConnectionOffer(u("op"), "a/bAé\n\u{1f}".to_string())))
    );
}

#[test]
fn surrogate_pairs_are_read() {
    let text = "{\"TankMessage\":{\"LoginResponse\":\"x\\ud83d\\ude00y\"}}";
    assert_eq!(decode(text), Some(SignalEnum::TankMessage(TankMessage::LoginResponse(t("x\u{1F600}y")))));
    assert_eq!(decode("{\"TankMessage\":{\"LoginResponse\":\"\\ud83d\"}}"), None);
    assert_eq!(decode("{\"TankMessage\":{\"LoginResponse\":\"\\ude00\"}}"), None);
}

#[test]
fn whitespace_between_tokens_is_accepted() {
    let text = " { \"UserCommand\" : { \"SdpOffer\" : [ \"123\" ,\n\t\"offerX\" ] } }\r\n";
    assert_eq!(
        decode(text),
        Some(SignalEnum::UserCommand(UserCommand::SdpOffer(t("123"), "offerX".to_string())))
    );
    assert_eq!(decode(" \"Start\" "), Some(SignalEnum::Start));
    let text = "{\"UserResponse\": {\"CameraListGetSuccess\": [ ]}}";
    assert_eq!(decode(text), Some(SignalEnum::UserResponse(UserMessage::CameraListGetSuccess(vec![]))));
    let text = "{\"UserResponse\": {\"CameraListGetSuccess\": [\"a\" , \"b\"]}}";
    assert_eq!(
        decode(text),
        Some(SignalEnum::UserResponse(UserMessage::CameraListGetSuccess(vec![t("a"), t("b")])))
    );
}

#[test]
fn malformed_texts_are_refused() {
    assert_eq!(decode(""), None);
    assert_eq!(decode("   "), None);
    assert_eq!(decode("Start"), None);
    assert_eq!(decode("\"Stop\""), None);
    assert_eq!(decode("\"Start\" x"), None);
    assert_eq!(decode("{\"UserCommand\":\"Logout\"}"), None);
    assert_eq!(decode("{\"UserCommand\":{\"SdpOffer\":[\"123\"]}}"), None);
    assert_eq!(decode("{\"UserCommand\":{\"SdpOffer\":[\"123\",\"x\"]}"), None);
    assert_eq!(decode("{\"TankCommand\":{\"SdpOffer\":[\"123\",\"x\"]}}"), None);
    assert_eq!(decode("{\"UserCommand\":{\"SdpOffer\":[\"12\n3\",\"x\"]}}"), None);
    assert_eq!(decode("{\"UserResponse\":{\"CameraListGetSuccess\":[\"a\",]}}"), None);
    assert_eq!(decode("{\"TankMessage\":{\"LoginResponse\":\"\\u12\"}}"), None);
}
