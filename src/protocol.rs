//! Identities and the signaling envelope exchanged between devices, operators
//! and the rendezvous service.
use vstd::prelude::*;

verus! {

/// Identity of an operator connection.
#[derive(Debug, Clone, PartialEq, Eq, Hash)]
pub struct UserId(pub String);

/// Identity of a device ("tank") connection.
#[derive(Debug, Clone, PartialEq, Eq, Hash)]
pub struct TankId(pub String);

impl UserId {
    pub open spec fn view(&self) -> Seq<char> {
        self.0@
    }

    pub fn new(inner: String) -> (r: Self)
        ensures
            r@ == inner@,
    {
        UserId(inner)
    }

    pub fn inner(self) -> (r: String)
        ensures
            r@ == self@,
    {
        self.0
    }

    pub fn duplicate(&self) -> (r: Self)
        ensures
            r@ == self@,
    {
        UserId(self.0.clone())
    }
}

impl TankId {
    pub open spec fn view(&self) -> Seq<char> {
        self.0@
    }

    pub fn new(inner: String) -> (r: Self)
        ensures
            r@ == inner@,
    {
        TankId(inner)
    }

    pub fn inner(self) -> (r: String)
        ensures
            r@ == self@,
    {
        self.0
    }

    pub fn duplicate(&self) -> (r: Self)
        ensures
            r@ == self@,
    {
        TankId(self.0.clone())
    }
}

/// The identity bound to one connection.
#[derive(Debug, Clone, PartialEq, Eq, Hash)]
pub enum ProtoId {
    Tank(TankId),
    User(UserId),
}

pub enum ProtoIdV {
    Tank(Seq<char>),
    User(Seq<char>),
}

impl ProtoId {
    pub open spec fn view(&self) -> ProtoIdV {
        match self {
            ProtoId::Tank(t) => ProtoIdV::Tank(t@),
            ProtoId::User(u) => ProtoIdV::User(u@),
        }
    }
}

/// Envelope of every message on the signaling channel.
#[derive(Debug, Clone, PartialEq, Eq)]
pub enum SignalEnum {
    Start,
    UserCommand(UserCommand),
    UserResponse(UserMessage),
    TankCommand(TankCommand),
    TankMessage(TankMessage),
}

/// Operator to service.
#[derive(Debug, Clone, PartialEq, Eq)]
pub enum UserCommand {
    Login,
    IceOffer(TankId, String),
    SdpOffer(TankId, String),
}

/// Service to operator.
#[derive(Debug, Clone, PartialEq, Eq)]
pub enum UserMessage {
    LoginResponse(UserId),
    CameraListGetSuccess(Vec<TankId>),
    SdpAnswer(TankId, String),
    IceOfferAnswer(TankId, String),
}

/// Device to service.
#[derive(Debug, Clone, PartialEq, Eq)]
pub enum TankCommand {
    Login,
    NewCamera(TankId),
    SdpAnswer(UserId, String),
    IceAnswer(UserId, String),
}

/// Service to device.
#[derive(Debug, Clone, PartialEq, Eq)]
pub enum TankMessage {
    LoginResponse(TankId),
    SdpConnectionOffer(UserId, String),
    IceConnectionOffer(UserId, String),
}

// Mathematical models of the envelope: identities and payloads as character
// sequences.
pub enum UserCommandV {
    Login,
    IceOffer(Seq<char>, Seq<char>),
    SdpOffer(Seq<char>, Seq<char>),
}

pub enum UserMessageV {
    LoginResponse(Seq<char>),
    CameraListGetSuccess(Seq<Seq<char>>),
    SdpAnswer(Seq<char>, Seq<char>),
    IceOfferAnswer(Seq<char>, Seq<char>),
}

pub enum TankCommandV {
    Login,
    NewCamera(Seq<char>),
    SdpAnswer(Seq<char>, Seq<char>),
    IceAnswer(Seq<char>, Seq<char>),
}

pub enum TankMessageV {
    LoginResponse(Seq<char>),
    SdpConnectionOffer(Seq<char>, Seq<char>),
    IceConnectionOffer(Seq<char>, Seq<char>),
}

pub enum SignalV {
    Start,
    UserCommand(UserCommandV),
    UserResponse(UserMessageV),
    TankCommand(TankCommandV),
    TankMessage(TankMessageV),
}

pub open spec fn tank_ids_view(v: Seq<TankId>) -> Seq<Seq<char>> {
    v.map_values(|t: TankId| t@)
}

impl UserCommand {
    pub open spec fn view(&self) -> UserCommandV {
        match self {
            UserCommand::Login => UserCommandV::Login,
            UserCommand::IceOffer(t, d) => UserCommandV::IceOffer(t@, d@),
            UserCommand::SdpOffer(t, d) => UserCommandV::SdpOffer(t@, d@),
        }
    }
}

impl UserMessage {
    pub open spec fn view(&self) -> UserMessageV {
        match self {
            UserMessage::LoginResponse(u) => UserMessageV::LoginResponse(u@),
            UserMessage::CameraListGetSuccess(l) => UserMessageV::CameraListGetSuccess(
                tank_ids_view(l@),
            ),
            UserMessage::SdpAnswer(t, d) => UserMessageV::SdpAnswer(t@, d@),
            UserMessage::IceOfferAnswer(t, d) => UserMessageV::IceOfferAnswer(t@, d@),
        }
    }
}

impl TankCommand {
    pub open spec fn view(&self) -> TankCommandV {
        match self {
            TankCommand::Login => TankCommandV::Login,
            TankCommand::NewCamera(t) => TankCommandV::NewCamera(t@),
            TankCommand::SdpAnswer(u, d) => TankCommandV::SdpAnswer(u@, d@),
            TankCommand::IceAnswer(u, d) => TankCommandV::IceAnswer(u@, d@),
        }
    }
}

impl TankMessage {
    pub open spec fn view(&self) -> TankMessageV {
        match self {
            TankMessage::LoginResponse(t) => TankMessageV::LoginResponse(t@),
            TankMessage::SdpConnectionOffer(u, d) => TankMessageV::SdpConnectionOffer(u@, d@),
            TankMessage::IceConnectionOffer(u, d) => TankMessageV::IceConnectionOffer(u@, d@),
        }
    }
}

impl SignalEnum {
    pub open spec fn view(&self) -> SignalV {
        match self {
            SignalEnum::Start => SignalV::Start,
            SignalEnum::UserCommand(c) => SignalV::UserCommand(c@),
            SignalEnum::UserResponse(m) => SignalV::UserResponse(m@),
            SignalEnum::TankCommand(c) => SignalV::TankCommand(c@),
            SignalEnum::TankMessage(m) => SignalV::TankMessage(m@),
        }
    }

    pub open spec fn spec_is_login(&self) -> bool {
        match self {
            SignalEnum::UserCommand(UserCommand::Login) => true,
            SignalEnum::TankCommand(TankCommand::Login) => true,
            _ => false,
        }
    }

    /// A login request, from an operator or from a device.
    pub fn is_login(&self) -> (r: bool)
        ensures
            r == self.spec_is_login(),
    {
        match self {
            SignalEnum::UserCommand(cmd) => matches!(cmd, UserCommand::Login),
            SignalEnum::TankCommand(cmd) => matches!(cmd, TankCommand::Login),
            _ => false,
        }
    }

    /// A command sent by an operator.
    pub fn is_operator(&self) -> (r: bool)
        ensures
            r == (self is UserCommand),
    {
        matches!(self, SignalEnum::UserCommand(_))
    }

    /// A command sent by a device.
    pub fn is_tank(&self) -> (r: bool)
        ensures
            r == (self is TankCommand),
    {
        matches!(self, SignalEnum::TankCommand(_))
    }
}

} // verus!
