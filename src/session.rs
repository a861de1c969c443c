//! One connection to the rendezvous service: its identity latch, and what
//! each inbound text does to the registry.
use vstd::prelude::*;
use rand::Rng;
use crate::protocol::{
    ProtoId, ProtoIdV, SignalEnum, SignalV, TankCommandV, TankId, TankMessage, TankMessageV,
    UserCommandV, UserId, UserMessage, UserMessageV,
};
use crate::registry::{
    find_tank, find_user, identity_in_use, insert_tank, insert_user, planned, prepare, reach,
    release_tank, release_user, remove_peer, unbind, Addr, Delivery, Registry, RouteError,
};
use crate::router::{operator_planned, plan_operator_message, plan_tank_message, tank_reply, tank_target};
use crate::wire::{decode, decode_spec};

verus! {

/// Length of a generated identity.
pub const ID_LEN: u8 = 10;

/// How many identities a login draws before it gives up on finding one that
/// is not bound.
pub const ID_ATTEMPTS: u32 = 8;

pub open spec fn is_id_char(c: char) -> bool {
    ('a' <= c && c <= 'z') || ('A' <= c && c <= 'Z') || ('0' <= c && c <= '9')
}

/// Relies on `rand`'s `Alphanumeric` distribution drawn through
/// `thread_rng`: `length` characters, each an ASCII letter or digit.
#[verifier::external_body]
fn generate_id(length: u8) -> (r: String)
    ensures
        r@.len() == length,
        forall|i: int| 0 <= i < r@.len() ==> is_id_char(#[trigger] r@[i]),
{
    rand::thread_rng().sample_iter(&rand::distributions::Alphanumeric).take(length as usize).map(
        char::from,
    ).collect()
}

/// The shape of a generated identity: `ID_LEN` ASCII letters or digits.
pub open spec fn id_shaped(id: Seq<char>) -> bool {
    &&& id.len() == ID_LEN
    &&& forall|i: int| 0 <= i < id.len() ==> is_id_char(#[trigger] id[i])
}

/// Bound to somebody, device or operator.
pub open spec fn in_use(reg: &Registry, id: Seq<char>) -> bool {
    reg.tanks_view().contains_key(id) || reg.users_view().contains_key(id)
}

/// No identity of the generated shape is bound.
pub open spec fn no_generated_id_bound(reg: &Registry) -> bool {
    forall|id: Seq<char>| #[trigger] id_shaped(id) ==> !in_use(reg, id)
}

/// Draws random identities until one is not bound. `None` only if every one
/// of `ID_ATTEMPTS` draws was taken, which cannot happen while no identity
/// of the generated shape is bound.
fn fresh_identity(reg: &Registry) -> (r: Option<String>)
    ensures
        r matches Some(id) ==> id_shaped(id@) && !in_use(reg, id@),
        no_generated_id_bound(reg) ==> r is Some,
{
    let mut attempt: u32 = 0;
    while attempt < ID_ATTEMPTS
        invariant
            attempt > 0 ==> !no_generated_id_bound(reg),
        decreases ID_ATTEMPTS - attempt,
    {
        let id = generate_id(ID_LEN);
        assert(id_shaped(id@));
        if !identity_in_use(reg, &id) {
            return Some(id);
        }
        attempt += 1;
    }
    None
}

/// What one inbound text led to.
#[derive(Debug)]
pub enum Outcome {
    /// The text is not an envelope; it was dropped.
    Unreadable,
    /// The connection was given an identity; the acknowledgement is ready to
    /// be delivered, or could not be made ready.
    LoggedIn(Result<Delivery, RouteError>),
    /// No unbound identity was drawn; the connection stays without one.
    NoFreshIdentity,
    /// The command was routed: its message is ready to be delivered, or the
    /// routing error.
    Routed(Result<Delivery, RouteError>),
    /// Nothing to do for this envelope on this connection.
    Ignored,
}

/// One connection: its address and the identity bound to it, set at most once.
pub struct ConnectionSession {
    addr: Addr,
    id: Option<ProtoId>,
}

pub open spec fn logs_in_as_tank(v: Option<SignalV>) -> bool {
    v == Some(SignalV::TankCommand(TankCommandV::Login))
}

pub open spec fn logs_in_as_user(v: Option<SignalV>) -> bool {
    v == Some(SignalV::UserCommand(UserCommandV::Login))
}

/// A device login that bound `t`, unbound before, to address `a` and made
/// its acknowledgement ready.
pub open spec fn logged_in_as_tank(r: Outcome, id: Option<ProtoIdV>, before: &Registry, after: &Registry, a: Addr) -> bool {
    match (r, id) {
        (Outcome::LoggedIn(ack), Some(ProtoIdV::Tank(t))) => {
            &&& !in_use(before, t)
            &&& after.tanks_view() == before.tanks_view().insert(t, a)
            &&& after.users_view() == before.users_view()
            &&& after.peer_set() == before.peer_set()
            &&& planned(
                ack,
                reach(after.tanks_view(), after.peer_set(), t),
                SignalV::TankMessage(TankMessageV::LoginResponse(t)),
            )
        },
        _ => false,
    }
}

/// An operator login that bound `u`, unbound before, to address `a` and made
/// its acknowledgement ready.
pub open spec fn logged_in_as_user(r: Outcome, id: Option<ProtoIdV>, before: &Registry, after: &Registry, a: Addr) -> bool {
    match (r, id) {
        (Outcome::LoggedIn(ack), Some(ProtoIdV::User(u))) => {
            &&& !in_use(before, u)
            &&& after.users_view() == before.users_view().insert(u, a)
            &&& after.tanks_view() == before.tanks_view()
            &&& after.peer_set() == before.peer_set()
            &&& planned(
                ack,
                reach(after.users_view(), after.peer_set(), u),
                SignalV::UserResponse(UserMessageV::LoginResponse(u)),
            )
        },
        _ => false,
    }
}

/// The identity is of the generated shape.
pub open spec fn shaped_identity(id: Option<ProtoIdV>) -> bool {
    match id {
        Some(ProtoIdV::Tank(t)) => id_shaped(t),
        Some(ProtoIdV::User(u)) => id_shaped(u),
        None => false,
    }
}

/// A routed command's outcome: its planned delivery, or the routing error.
pub open spec fn routed_tank(r: Outcome, reg: &Registry, t: Seq<char>, c: TankCommandV) -> bool {
    match r {
        Outcome::Routed(res) => planned(res, tank_target(reg, t, c), tank_reply(t, c)),
        _ => false,
    }
}

pub open spec fn routed_user(r: Outcome, reg: &Registry, u: Seq<char>, c: UserCommandV) -> bool {
    match r {
        Outcome::Routed(res) => operator_planned(res, reg, u, c),
        _ => false,
    }
}

impl ConnectionSession {
    pub closed spec fn address(&self) -> Addr {
        self.addr
    }

    pub closed spec fn identity(&self) -> Option<ProtoIdV> {
        match self.id {
            Some(p) => Some(p@),
            None => None,
        }
    }

    pub fn new(addr: Addr) -> (r: Self)
        ensures
            r.address() == addr,
            r.identity() is None,
    {
        ConnectionSession { addr, id: None }
    }

    pub fn addr(&self) -> (r: Addr)
        ensures
            r == self.address(),
    {
        self.addr
    }

    /// The identity bound to this connection.
    pub fn identity_of(&self) -> (r: Option<ProtoId>)
        ensures
            match r {
                Some(p) => self.identity() == Some(p@),
                None => self.identity() is None,
            },
    {
        match &self.id {
            Some(ProtoId::Tank(t)) => Some(ProtoId::Tank(t.duplicate())),
            Some(ProtoId::User(u)) => Some(ProtoId::User(u.duplicate())),
            None => None,
        }
    }

    /// Binds `id` to this connection, which has no identity yet, as a device
    /// (`as_tank`) or as an operator, unless somebody holds `id` already; then
    /// makes the acknowledgement ready.
    pub fn log_in(&mut self, reg: &mut Registry, id: String, as_tank: bool) -> (r: Outcome)
        requires
            old(self).identity() is None,
        ensures
            final(self).address() == old(self).address(),
            in_use(old(reg), id@) ==> r is NoFreshIdentity && final(self).identity() is None
                && final(reg).tanks_view() == old(reg).tanks_view() && final(reg).users_view()
                == old(reg).users_view() && final(reg).peer_set() == old(reg).peer_set(),
            !in_use(old(reg), id@) && as_tank ==> final(self).identity() == Some(
                ProtoIdV::Tank(id@),
            ) && logged_in_as_tank(r, final(self).identity(), old(reg), final(reg), old(self).address()),
            !in_use(old(reg), id@) && !as_tank ==> final(self).identity() == Some(
                ProtoIdV::User(id@),
            ) && logged_in_as_user(r, final(self).identity(), old(reg), final(reg), old(self).address()),
    {
        if identity_in_use(reg, &id) {
            return Outcome::NoFreshIdentity;
        }
        if as_tank {
            let tank_id = TankId::new(id);
            insert_tank(reg, self.addr, tank_id.duplicate());
            let ack = match find_tank(reg, &tank_id) {
                Ok(a) => prepare(reg, &a, SignalEnum::TankMessage(TankMessage::LoginResponse(tank_id.duplicate()))),
                Err(e) => Err(e),
            };
            self.id = Some(ProtoId::Tank(tank_id));
            Outcome::LoggedIn(ack)
        } else {
            let user_id = UserId::new(id);
            insert_user(reg, self.addr, user_id.duplicate());
            let ack = match find_user(reg, &user_id) {
                Ok(a) => prepare(reg, &a, SignalEnum::UserResponse(UserMessage::LoginResponse(user_id.duplicate()))),
                Err(e) => Err(e),
            };
            self.id = Some(ProtoId::User(user_id));
            Outcome::LoggedIn(ack)
        }
    }

    /// Handles one inbound text. A login on a connection without identity
    /// binds a freshly drawn identity that nobody holds and makes its
    /// acknowledgement ready; any other command of the connection's role is
    /// routed; the rest is dropped. Once bound, the identity never changes.
    pub fn on_text(&mut self, reg: &mut Registry, text: &str) -> (r: Outcome)
        ensures
            final(self).address() == old(self).address(),
            old(self).identity() is Some ==> final(self).identity() == old(self).identity(),
            final(reg).peer_set() == old(reg).peer_set(),
            ({
                let v = decode_spec(text@);
                let a = old(self).address();
                if old(self).identity() is None && (logs_in_as_tank(v) || logs_in_as_user(v)) {
                    ||| {
                        &&& r is NoFreshIdentity
                        &&& !no_generated_id_bound(old(reg))
                        &&& final(self).identity() is None
                        &&& final(reg).tanks_view() == old(reg).tanks_view()
                        &&& final(reg).users_view() == old(reg).users_view()
                    }
                    ||| {
                        &&& logs_in_as_tank(v)
                        &&& shaped_identity(final(self).identity())
                        &&& logged_in_as_tank(r, final(self).identity(), old(reg), final(reg), a)
                    }
                    ||| {
                        &&& logs_in_as_user(v)
                        &&& shaped_identity(final(self).identity())
                        &&& logged_in_as_user(r, final(self).identity(), old(reg), final(reg), a)
                    }
                } else {
                    &&& final(self).identity() == old(self).identity()
                    &&& final(reg).users_view() == old(reg).users_view()
                    &&& final(reg).tanks_view() == old(reg).tanks_view()
                    &&& match (v, old(self).identity()) {
                        (None, _) => r is Unreadable,
                        (Some(SignalV::TankCommand(c)), Some(ProtoIdV::Tank(t))) => routed_tank(r, old(reg), t, c),
                        (Some(SignalV::UserCommand(c)), Some(ProtoIdV::User(u))) => routed_user(r, old(reg), u, c),
                        _ => r is Ignored,
                    }
                }
            }),
    {
        let signal = match decode(text) {
            None => {
                return Outcome::Unreadable;
            },
            Some(s) => s,
        };
        if signal.is_login() && self.id.is_none() {
            return match fresh_identity(reg) {
                None => Outcome::NoFreshIdentity,
                Some(id) => self.log_in(reg, id, signal.is_tank()),
            };
        }
        match signal {
            SignalEnum::TankCommand(cmd) => match &self.id {
                Some(ProtoId::Tank(t)) => Outcome::Routed(plan_tank_message(reg, t, cmd)),
                _ => Outcome::Ignored,
            },
            SignalEnum::UserCommand(cmd) => match &self.id {
                Some(ProtoId::User(u)) => Outcome::Routed(plan_operator_message(reg, u, cmd)),
                _ => Outcome::Ignored,
            },
            _ => Outcome::Ignored,
        }
    }

    /// Tears the connection down: its address leaves the registry, and so
    /// does its identity where this connection still holds it.
    pub fn disconnect(self, reg: &mut Registry)
        ensures
            final(reg).peer_set() == old(reg).peer_set().remove(self.address()),
            final(reg).tanks_view() == match self.identity() {
                Some(ProtoIdV::Tank(t)) => unbind(old(reg).tanks_view(), t, self.address()),
                _ => old(reg).tanks_view(),
            },
            final(reg).users_view() == match self.identity() {
                Some(ProtoIdV::User(u)) => unbind(old(reg).users_view(), u, self.address()),
                _ => old(reg).users_view(),
            },
    {
        remove_peer(reg, &self.addr);
        match &self.id {
            Some(ProtoId::Tank(t)) => release_tank(reg, self.addr, t),
            Some(ProtoId::User(u)) => release_user(reg, self.addr, u),
            None => {},
        }
    }
}

/// Once a connection holds a device identity, closing it takes that identity
/// out of every later device list.
pub proof fn lemma_closed_tank_unlisted(tanks: Map<Seq<char>, Addr>, t: Seq<char>, a: Addr)
    requires
        tanks.contains_key(t),
        tanks[t] == a,
    ensures
        !unbind(tanks, t, a).dom().contains(t),
        unbind(tanks, t, a).dom() == tanks.dom().remove(t),
{
    assert(unbind(tanks, t, a).dom() =~= tanks.dom().remove(t));
}

} // verus!
