//! What an operator's client remembers of its session with the service.
use vstd::prelude::*;
use crate::protocol::{
    tank_ids_view, SignalEnum, SignalV, TankId, UserCommand, UserCommandV, UserId, UserMessage,
    UserMessageV,
};
use crate::wire::{decode, decode_spec, enc, encode};

verus! {

/// The operator's identity, once the service has given one, and the last
/// device list it sent.
pub struct AppState {
    user_id: Option<UserId>,
    tanks: Option<Vec<TankId>>,
}

impl AppState {
    pub closed spec fn user(&self) -> Option<Seq<char>> {
        match self.user_id {
            Some(u) => Some(u@),
            None => None,
        }
    }

    pub fn new() -> (r: Self)
        ensures
            r.user() is None,
    {
        AppState { user_id: None, tanks: None }
    }

    pub fn set_user_id(&mut self, user_id: UserId)
        ensures
            final(self).user() == Some(user_id@),
    {
        self.user_id = Some(user_id)
    }

    pub fn get_user_id(&mut self) -> (r: Option<UserId>)
        ensures
            final(self).user() == old(self).user(),
            match r {
                Some(u) => old(self).user() == Some(u@),
                None => old(self).user() is None,
            },
    {
        match &self.user_id {
            Some(u) => Some(u.duplicate()),
            None => None,
        }
    }
}

/// What an operator's client does with one text from the service.
#[derive(Debug, Clone, PartialEq, Eq)]
pub enum OperatorAction {
    /// Send this text to the service.
    Send(String),
    /// The service gave this identity; it is now remembered.
    LoggedIn(UserId),
    /// The devices currently online.
    ShowTanks(Vec<TankId>),
    /// Hand this device's ICE answer to the peer connection.
    ApplyIceAnswer(TankId, String),
    /// Hand this device's SDP answer to the peer connection.
    ApplySdpAnswer(TankId, String),
    /// Not an envelope; dropped.
    Unreadable,
    /// An envelope an operator does not expect; dropped.
    Unexpected,
}

/// Handles one text from the service: the greeting is answered with a
/// login, the login acknowledgement is remembered, and device lists and
/// answers are handed on.
pub fn handle_message_reply(state: &mut AppState, message: &str) -> (r: OperatorAction)
    ensures
        match decode_spec(message@) {
            Some(SignalV::UserResponse(UserMessageV::LoginResponse(u))) => final(state).user()
                == Some(u) && (r matches OperatorAction::LoggedIn(id) && id@ == u),
            _ => final(state).user() == old(state).user(),
        },
        match decode_spec(message@) {
            None => r is Unreadable,
            Some(SignalV::Start) => r matches OperatorAction::Send(t) && t@ == enc(
                SignalV::UserCommand(UserCommandV::Login),
            ),
            Some(SignalV::UserResponse(UserMessageV::LoginResponse(_))) => r is LoggedIn,
            Some(SignalV::UserResponse(UserMessageV::CameraListGetSuccess(l))) => r matches OperatorAction::ShowTanks(v)
                && tank_ids_view(v@) == l,
            Some(SignalV::UserResponse(UserMessageV::IceOfferAnswer(t, d))) => r matches OperatorAction::ApplyIceAnswer(
                id,
                p,
            ) && id@ == t && p@ == d,
            Some(SignalV::UserResponse(UserMessageV::SdpAnswer(t, d))) => r matches OperatorAction::ApplySdpAnswer(
                id,
                p,
            ) && id@ == t && p@ == d,
            Some(_) => r is Unexpected,
        },
{
    match decode(message) {
        None => OperatorAction::Unreadable,
        Some(SignalEnum::Start) => OperatorAction::Send(
            encode(&SignalEnum::UserCommand(UserCommand::Login)),
        ),
        Some(SignalEnum::UserResponse(m)) => match m {
            UserMessage::LoginResponse(u) => {
                state.set_user_id(u.duplicate());
                OperatorAction::LoggedIn(u)
            },
            UserMessage::CameraListGetSuccess(l) => OperatorAction::ShowTanks(l),
            UserMessage::IceOfferAnswer(t, d) => OperatorAction::ApplyIceAnswer(t, d),
            UserMessage::SdpAnswer(t, d) => OperatorAction::ApplySdpAnswer(t, d),
        },
        Some(_) => OperatorAction::Unexpected,
    }
}

} // verus!
