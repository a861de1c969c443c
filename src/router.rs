//! Dispatch of handshake traffic between operators and devices.
use vstd::prelude::*;
use crate::protocol::{
    SignalEnum, SignalV, TankCommand, TankCommandV, TankId, TankMessage, TankMessageV,
    UserCommand, UserCommandV, UserId, UserMessage, UserMessageV,
};
use crate::registry::{
    deliver, find_tank, find_user, get_tank_list, planned, prepare, reach, Addr, Delivery, Registry,
    RouteError,
};
use crate::wire::enc;

verus! {

/// Where a command from operator `u` goes.
pub open spec fn operator_target(reg: &Registry, u: Seq<char>, cmd: UserCommandV) -> Result<
    Addr,
    RouteError,
> {
    match cmd {
        UserCommandV::Login => reach(reg.users_view(), reg.peer_set(), u),
        UserCommandV::IceOffer(t, _) => reach(reg.tanks_view(), reg.peer_set(), t),
        UserCommandV::SdpOffer(t, _) => reach(reg.tanks_view(), reg.peer_set(), t),
    }
}

/// What a command from operator `u` becomes: the device list (each device
/// once) for a repeated login, an offer tagged with the operator's identity otherwise.
pub open spec fn operator_reply(reg: &Registry, u: Seq<char>, cmd: UserCommandV, m: SignalV) -> bool {
    match cmd {
        UserCommandV::Login => match m {
            SignalV::UserResponse(UserMessageV::CameraListGetSuccess(l)) => l.to_set()
                == reg.tanks_view().dom() && l.no_duplicates(),
            _ => false,
        },
        UserCommandV::IceOffer(_, d) => m == SignalV::TankMessage(
            TankMessageV::IceConnectionOffer(u, d),
        ),
        UserCommandV::SdpOffer(_, d) => m == SignalV::TankMessage(
            TankMessageV::SdpConnectionOffer(u, d),
        ),
    }
}

/// Where a command from device `t` goes.
pub open spec fn tank_target(reg: &Registry, t: Seq<char>, cmd: TankCommandV) -> Result<
    Addr,
    RouteError,
> {
    match cmd {
        TankCommandV::Login => reach(reg.tanks_view(), reg.peer_set(), t),
        TankCommandV::NewCamera(_) => Err(RouteError::Unsupported),
        TankCommandV::SdpAnswer(u, _) => reach(reg.users_view(), reg.peer_set(), u),
        TankCommandV::IceAnswer(u, _) => reach(reg.users_view(), reg.peer_set(), u),
    }
}

/// What a command from device `t` becomes.
pub open spec fn tank_reply(t: Seq<char>, cmd: TankCommandV) -> SignalV {
    match cmd {
        TankCommandV::Login => SignalV::TankMessage(TankMessageV::LoginResponse(t)),
        TankCommandV::NewCamera(_) => SignalV::Start,
        TankCommandV::SdpAnswer(_, d) => SignalV::UserResponse(UserMessageV::SdpAnswer(t, d)),
        TankCommandV::IceAnswer(_, d) => SignalV::UserResponse(
            UserMessageV::IceOfferAnswer(t, d),
        ),
    }
}

/// The outcome of handing a message to a target: the target's own error, or
/// whatever queuing it gave.
pub open spec fn delivered_as(r: Result<(), RouteError>, target: Result<Addr, RouteError>) -> bool {
    match target {
        Err(e) => r == Err::<(), RouteError>(e),
        Ok(_) => r == Ok::<(), RouteError>(()) || r == Err::<(), RouteError>(
            RouteError::SendFailed,
        ),
    }
}

/// The recipient and the message for a command from an operator.
pub fn route_operator_message(reg: &Registry, user_id: &UserId, cmd: UserCommand) -> (r: Result<
    (Addr, SignalEnum),
    RouteError,
>)
    ensures
        match r {
            Ok((a, m)) => operator_target(reg, user_id@, cmd@) == Ok::<Addr, RouteError>(a)
                && operator_reply(reg, user_id@, cmd@, m@),
            Err(e) => operator_target(reg, user_id@, cmd@) == Err::<Addr, RouteError>(e),
        },
{
    match cmd {
        UserCommand::IceOffer(tank_id, data) => {
            let a = find_tank(reg, &tank_id)?;
            Ok((a, SignalEnum::TankMessage(TankMessage::IceConnectionOffer(user_id.duplicate(), data))))
        },
        UserCommand::Login => {
            let a = find_user(reg, user_id)?;
            let tanks = get_tank_list(reg);
            let ghost l = tanks@;
            let m = SignalEnum::UserResponse(UserMessage::CameraListGetSuccess(tanks));
            assert(crate::protocol::tank_ids_view(l) == l.map_values(|t: TankId| t@));
            Ok((a, m))
        },
        UserCommand::SdpOffer(tank_id, data) => {
            let a = find_tank(reg, &tank_id)?;
            Ok((a, SignalEnum::TankMessage(TankMessage::SdpConnectionOffer(user_id.duplicate(), data))))
        },
    }
}

/// A delivery for a command from operator `u`, or the target's error.
pub open spec fn operator_planned(res: Result<Delivery, RouteError>, reg: &Registry, u: Seq<char>, cmd: UserCommandV) -> bool {
    match operator_target(reg, u, cmd) {
        Err(e) => res == Err::<Delivery, RouteError>(e),
        Ok(a) => match res {
            Ok(d) => d.addr == a && operator_reply(reg, u, cmd, d.message@) && d.text@ == enc(
                d.message@,
            ),
            Err(_) => false,
        },
    }
}

/// Makes the message for a command from an operator ready for its
/// recipient.
pub fn plan_operator_message(reg: &Registry, user_id: &UserId, cmd: UserCommand) -> (r: Result<
    Delivery,
    RouteError,
>)
    ensures
        operator_planned(r, reg, user_id@, cmd@),
{
    let (addr, msg) = route_operator_message(reg, user_id, cmd)?;
    let ghost m = msg@;
    let r = prepare(reg, &addr, msg);
    assert(planned(r, Ok::<Addr, RouteError>(addr), m));
    r
}

/// Handles a command from a logged-in operator.
pub fn handle_operator_message(reg: &Registry, user_id: UserId, cmd: UserCommand) -> (r: Result<
    (),
    RouteError,
>)
    ensures
        delivered_as(r, operator_target(reg, user_id@, cmd@)),
{
    let d = plan_operator_message(reg, &user_id, cmd)?;
    deliver(d)
}

/// The recipient and the message for a command from a device.
pub fn route_tank_message(reg: &Registry, tank_id: &TankId, cmd: TankCommand) -> (r: Result<
    (Addr, SignalEnum),
    RouteError,
>)
    ensures
        match r {
            Ok((a, m)) => tank_target(reg, tank_id@, cmd@) == Ok::<Addr, RouteError>(a) && m@
                == tank_reply(tank_id@, cmd@),
            Err(e) => tank_target(reg, tank_id@, cmd@) == Err::<Addr, RouteError>(e),
        },
{
    match cmd {
        TankCommand::Login => {
            let a = find_tank(reg, tank_id)?;
            Ok((a, SignalEnum::TankMessage(TankMessage::LoginResponse(tank_id.duplicate()))))
        },
        TankCommand::NewCamera(_) => Err(RouteError::Unsupported),
        TankCommand::IceAnswer(user_id, data) => {
            let a = find_user(reg, &user_id)?;
            Ok((a, SignalEnum::UserResponse(UserMessage::IceOfferAnswer(tank_id.duplicate(), data))))
        },
        TankCommand::SdpAnswer(user_id, data) => {
            let a = find_user(reg, &user_id)?;
            Ok((a, SignalEnum::UserResponse(UserMessage::SdpAnswer(tank_id.duplicate(), data))))
        },
    }
}

/// Makes the message for a command from a device ready for its recipient.
pub fn plan_tank_message(reg: &Registry, tank_id: &TankId, cmd: TankCommand) -> (r: Result<
    Delivery,
    RouteError,
>)
    ensures
        planned(r, tank_target(reg, tank_id@, cmd@), tank_reply(tank_id@, cmd@)),
{
    let (addr, msg) = route_tank_message(reg, tank_id, cmd)?;
    prepare(reg, &addr, msg)
}

/// Handles a command from a logged-in device.
pub fn handle_tank_message(reg: &Registry, tank_id: TankId, cmd: TankCommand) -> (r: Result<
    (),
    RouteError,
>)
    ensures
        delivered_as(r, tank_target(reg, tank_id@, cmd@)),
{
    let d = plan_tank_message(reg, &tank_id, cmd)?;
    deliver(d)
}

/// An SDP offer from operator `u` to device `t` becomes, when `t` is online,
/// exactly one connection offer on `t`'s connection that carries `u` and the
/// payload unchanged; when `t` is not online it is refused and nothing is
/// delivered.
pub proof fn lemma_offer_routing(reg: &Registry, u: Seq<char>, t: Seq<char>, payload: Seq<char>)
    ensures
        reg.tanks_view().contains_key(t) && reg.peer_set().contains(reg.tanks_view()[t])
            ==> operator_target(reg, u, UserCommandV::SdpOffer(t, payload)) == Ok::<
            Addr,
            RouteError,
        >(reg.tanks_view()[t]),
        forall|m: SignalV|
            operator_reply(reg, u, UserCommandV::SdpOffer(t, payload), m) <==> m
                == SignalV::TankMessage(TankMessageV::SdpConnectionOffer(u, payload)),
        !reg.tanks_view().contains_key(t) ==> operator_target(
            reg,
            u,
            UserCommandV::SdpOffer(t, payload),
        ) == Err::<Addr, RouteError>(RouteError::NotOnline),
        !(reg.tanks_view().contains_key(t) && reg.peer_set().contains(reg.tanks_view()[t]))
            ==> operator_target(reg, u, UserCommandV::SdpOffer(t, payload)) is Err,
{
}

/// A device's answer to operator `u` reaches `u`'s connection tagged with the
/// device's own identity and the payload unchanged.
pub proof fn lemma_answer_routing(reg: &Registry, t: Seq<char>, u: Seq<char>, payload: Seq<char>)
    ensures
        reg.users_view().contains_key(u) && reg.peer_set().contains(reg.users_view()[u])
            ==> tank_target(reg, t, TankCommandV::SdpAnswer(u, payload)) == Ok::<
            Addr,
            RouteError,
        >(reg.users_view()[u]),
        tank_reply(t, TankCommandV::SdpAnswer(u, payload)) == SignalV::UserResponse(
            UserMessageV::SdpAnswer(t, payload),
        ),
{
}

} // verus!
