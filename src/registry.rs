//! The rendezvous registry: which connections are open, and which identity
//! each logged-in connection carries.
use vstd::prelude::*;
use crate::protocol::{SignalEnum, TankId, UserId};
use crate::protocol::SignalV;
use crate::wire::{enc, encode};

verus! {

/// Address of one connection to the service.
pub type Addr = u64;

/// Outbound queue of one connection: text frames waiting to be written.
pub type Outbox = futures_channel::mpsc::UnboundedSender<String>;

#[verifier::external_type_specification]
#[verifier::external_body]
#[verifier::reject_recursive_types(K)]
#[verifier::reject_recursive_types(V)]
#[verifier::reject_recursive_types(H)]
pub struct ExConcurrentMap<K, V, H: core::hash::BuildHasher>(scc::HashMap<K, V, H>);

#[verifier::external_type_specification]
#[verifier::external_body]
#[verifier::reject_recursive_types(T)]
pub struct ExUnboundedSender<T>(futures_channel::mpsc::UnboundedSender<T>);

#[verifier::external_type_specification]
#[verifier::external_body]
#[verifier::reject_recursive_types(T)]
pub struct ExTrySendError<T>(futures_channel::mpsc::TrySendError<T>);

/// The addresses that have an entry in a map of outboxes.
pub uninterp spec fn peer_keys(m: scc::HashMap<u64, Outbox>) -> Set<u64>;

/// What a map from identities to addresses holds.
pub uninterp spec fn id_table(m: scc::HashMap<String, u64>) -> Map<Seq<char>, u64>;

/// Relies on `scc::HashMap::new`: a new map is empty.
#[verifier::external_body]
fn new_peer_map() -> (r: scc::HashMap<u64, Outbox>)
    ensures
        peer_keys(r) == Set::<u64>::empty(),
{
    scc::HashMap::new()
}

pub open spec fn no_ids() -> Map<Seq<char>, Addr> {
    Map::empty()
}

/// Relies on `scc::HashMap::new`: a new map is empty.
#[verifier::external_body]
fn new_id_map() -> (r: scc::HashMap<String, u64>)
    ensures
        id_table(r) == no_ids(),
{
    scc::HashMap::new()
}

/// Relies on `scc::HashMap::insert`: the pair is added unless the key is
/// already present, in which case the map is left as it is.
#[verifier::external_body]
fn peer_map_insert(m: &mut scc::HashMap<u64, Outbox>, k: u64, v: Outbox)
    ensures
        peer_keys(*final(m)) == peer_keys(*old(m)).insert(k),
{
    let _ = m.insert(k, v);
}

/// Relies on `scc::HashMap::insert`: the pair is added unless the key is
/// already present, in which case the map is left as it is and `false` comes
/// back.
#[verifier::external_body]
fn id_map_insert(m: &mut scc::HashMap<String, u64>, k: String, v: u64) -> (r: bool)
    ensures
        r == !id_table(*old(m)).contains_key(k@),
        id_table(*final(m)) == if r {
            id_table(*old(m)).insert(k@, v)
        } else {
            id_table(*old(m))
        },
{
    m.insert(k, v).is_ok()
}

/// Relies on `scc::HashMap::remove`: the key has no entry afterwards.
#[verifier::external_body]
fn peer_map_remove(m: &mut scc::HashMap<u64, Outbox>, k: u64)
    ensures
        peer_keys(*final(m)) == peer_keys(*old(m)).remove(k),
{
    let _ = m.remove(&k);
}

/// Relies on `scc::HashMap::remove`: the key has no entry afterwards.
#[verifier::external_body]
fn id_map_remove(m: &mut scc::HashMap<String, u64>, k: &String)
    ensures
        id_table(*final(m)) == id_table(*old(m)).remove(k@),
{
    let _ = m.remove(k);
}

/// Relies on `scc::HashMap::read`: the value under the key, if there is one.
#[verifier::external_body]
fn id_map_get(m: &scc::HashMap<String, u64>, k: &String) -> (r: Option<u64>)
    ensures
        match r {
            Some(v) => id_table(*m).contains_key(k@) && id_table(*m)[k@] == v,
            None => !id_table(*m).contains_key(k@),
        },
{
    m.read(k, |_, v| *v)
}

/// Relies on `scc::HashMap::read`: a handle on the outbox under the key, if
/// there is one.
#[verifier::external_body]
fn peer_map_get(m: &scc::HashMap<u64, Outbox>, k: u64) -> (r: Option<Outbox>)
    ensures
        r is Some <==> peer_keys(*m).contains(k),
{
    m.read(&k, |_, v| v.clone())
}

/// Relies on `scc::HashMap::scan`: every key present is visited, once when
/// nothing else changes the map meanwhile.
#[verifier::external_body]
fn id_map_keys(m: &scc::HashMap<String, u64>) -> (r: Vec<String>)
    ensures
        r@.map_values(|s: String| s@).to_set() == id_table(*m).dom(),
        r@.map_values(|s: String| s@).no_duplicates(),
{
    let mut r = Vec::new();
    m.scan(|k, _| r.push(k.clone()));
    r
}

/// Relies on `UnboundedSender::unbounded_send`: queues the text unless the
/// receiving side is gone.
#[verifier::external_body]
fn outbox_send(tx: &Outbox, text: String) -> (r: Result<(), futures_channel::mpsc::TrySendError<String>>)
{
    tx.unbounded_send(text)
}

/// Why a message could not be handed to its recipient.
#[derive(Debug, Clone, Copy, PartialEq, Eq, Structural)]
pub enum RouteError {
    /// The target identity is not logged in.
    NotOnline,
    /// The target's connection is no longer registered.
    PeerGone,
    /// The target's outbound queue is closed.
    SendFailed,
    /// The command is not handled by the service.
    Unsupported,
}

/// Open connections and the identities bound to them.
pub struct Registry {
    peers: scc::HashMap<u64, Outbox>,
    users: scc::HashMap<String, u64>,
    tanks: scc::HashMap<String, u64>,
}

impl Registry {
    /// Addresses of the open connections.
    pub closed spec fn peer_set(&self) -> Set<Addr> {
        peer_keys(self.peers)
    }

    /// Operator identities and their addresses.
    pub closed spec fn users_view(&self) -> Map<Seq<char>, Addr> {
        id_table(self.users)
    }

    /// Device identities and their addresses.
    pub closed spec fn tanks_view(&self) -> Map<Seq<char>, Addr> {
        id_table(self.tanks)
    }

    pub fn new() -> (r: Self)
        ensures
            r.peer_set() == Set::<Addr>::empty(),
            r.users_view() == no_ids(),
            r.tanks_view() == no_ids(),
    {
        Registry { peers: new_peer_map(), users: new_id_map(), tanks: new_id_map() }
    }
}

/// Where an identity is reached: its address, if it is bound and that
/// connection is still open.
pub open spec fn reach(ids: Map<Seq<char>, Addr>, peers: Set<Addr>, id: Seq<char>) -> Result<
    Addr,
    RouteError,
> {
    if !ids.contains_key(id) {
        Err(RouteError::NotOnline)
    } else if !peers.contains(ids[id]) {
        Err(RouteError::PeerGone)
    } else {
        Ok(ids[id])
    }
}

/// Binding an identity that is already bound changes nothing.
pub open spec fn bind(ids: Map<Seq<char>, Addr>, id: Seq<char>, addr: Addr) -> Map<Seq<char>, Addr> {
    if ids.contains_key(id) {
        ids
    } else {
        ids.insert(id, addr)
    }
}

/// Unbinding an identity on behalf of a connection leaves a binding held by
/// another connection in place.
pub open spec fn unbind(ids: Map<Seq<char>, Addr>, id: Seq<char>, addr: Addr) -> Map<Seq<char>, Addr> {
    if ids.contains_key(id) && ids[id] == addr {
        ids.remove(id)
    } else {
        ids
    }
}

/// Registers a new connection with its outbound queue.
pub fn insert_peer(reg: &mut Registry, addr: Addr, tx: Outbox)
    ensures
        final(reg).peer_set() == old(reg).peer_set().insert(addr),
        final(reg).users_view() == old(reg).users_view(),
        final(reg).tanks_view() == old(reg).tanks_view(),
{
    peer_map_insert(&mut reg.peers, addr, tx);
}

/// Forgets a closed connection.
pub fn remove_peer(reg: &mut Registry, addr: &Addr)
    ensures
        final(reg).peer_set() == old(reg).peer_set().remove(*addr),
        final(reg).users_view() == old(reg).users_view(),
        final(reg).tanks_view() == old(reg).tanks_view(),
{
    peer_map_remove(&mut reg.peers, *addr);
}

/// Binds an operator identity to an address, unless it is bound already.
pub fn insert_user(reg: &mut Registry, addr: Addr, user_id: UserId)
    ensures
        final(reg).users_view() == bind(old(reg).users_view(), user_id@, addr),
        final(reg).peer_set() == old(reg).peer_set(),
        final(reg).tanks_view() == old(reg).tanks_view(),
{
    let _ = id_map_insert(&mut reg.users, user_id.0, addr);
}

/// Drops an operator identity.
pub fn remove_user(reg: &mut Registry, user_id: &UserId)
    ensures
        final(reg).users_view() == old(reg).users_view().remove(user_id@),
        final(reg).peer_set() == old(reg).peer_set(),
        final(reg).tanks_view() == old(reg).tanks_view(),
{
    id_map_remove(&mut reg.users, &user_id.0);
}

/// Binds a device identity to an address, unless it is bound already.
pub fn insert_tank(reg: &mut Registry, addr: Addr, tank_id: TankId)
    ensures
        final(reg).tanks_view() == bind(old(reg).tanks_view(), tank_id@, addr),
        final(reg).peer_set() == old(reg).peer_set(),
        final(reg).users_view() == old(reg).users_view(),
{
    let _ = id_map_insert(&mut reg.tanks, tank_id.0, addr);
}

/// Drops a device identity.
pub fn remove_tank(reg: &mut Registry, tank_id: &TankId)
    ensures
        final(reg).tanks_view() == old(reg).tanks_view().remove(tank_id@),
        final(reg).peer_set() == old(reg).peer_set(),
        final(reg).users_view() == old(reg).users_view(),
{
    id_map_remove(&mut reg.tanks, &tank_id.0);
}

/// Drops a device identity if this address holds it.
pub fn release_tank(reg: &mut Registry, addr: Addr, tank_id: &TankId)
    ensures
        final(reg).tanks_view() == unbind(old(reg).tanks_view(), tank_id@, addr),
        final(reg).peer_set() == old(reg).peer_set(),
        final(reg).users_view() == old(reg).users_view(),
{
    if id_map_get(&reg.tanks, &tank_id.0) == Some(addr) {
        id_map_remove(&mut reg.tanks, &tank_id.0);
    }
}

/// Drops an operator identity if this address holds it.
pub fn release_user(reg: &mut Registry, addr: Addr, user_id: &UserId)
    ensures
        final(reg).users_view() == unbind(old(reg).users_view(), user_id@, addr),
        final(reg).peer_set() == old(reg).peer_set(),
        final(reg).tanks_view() == old(reg).tanks_view(),
{
    if id_map_get(&reg.users, &user_id.0) == Some(addr) {
        id_map_remove(&mut reg.users, &user_id.0);
    }
}

/// The device identities that are currently bound, each once.
pub fn get_tank_list(reg: &Registry) -> (r: Vec<TankId>)
    ensures
        r@.map_values(|t: TankId| t@).to_set() == reg.tanks_view().dom(),
        r@.map_values(|t: TankId| t@).no_duplicates(),
{
    let keys = id_map_keys(&reg.tanks);
    let mut r: Vec<TankId> = Vec::new();
    let mut j: usize = 0;
    while j < keys.len()
        invariant
            j <= keys@.len(),
            r@.map_values(|t: TankId| t@) == keys@.take(j as int).map_values(|s: String| s@),
        decreases keys@.len() - j,
    {
        let ghost before = r@.map_values(|t: TankId| t@);
        r.push(TankId(keys[j].clone()));
        assert(r@.map_values(|t: TankId| t@) =~= before.push(keys@[j as int]@));
        assert(keys@.take(j as int + 1).map_values(|s: String| s@) =~= keys@.take(
            j as int,
        ).map_values(|s: String| s@).push(keys@[j as int]@));
        j += 1;
    }
    assert(keys@.take(keys@.len() as int) =~= keys@);
    r
}

/// Whether an identity is bound, as a device or as an operator.
pub fn identity_in_use(reg: &Registry, id: &String) -> (r: bool)
    ensures
        r == (reg.tanks_view().contains_key(id@) || reg.users_view().contains_key(id@)),
{
    id_map_get(&reg.tanks, id).is_some() || id_map_get(&reg.users, id).is_some()
}

/// Where a device is reached.
pub fn find_tank(reg: &Registry, tank_id: &TankId) -> (r: Result<Addr, RouteError>)
    ensures
        r == reach(reg.tanks_view(), reg.peer_set(), tank_id@),
{
    match id_map_get(&reg.tanks, &tank_id.0) {
        None => Err(RouteError::NotOnline),
        Some(a) => if peer_map_get(&reg.peers, a).is_some() {
            Ok(a)
        } else {
            Err(RouteError::PeerGone)
        },
    }
}

/// Where an operator is reached.
pub fn find_user(reg: &Registry, user_id: &UserId) -> (r: Result<Addr, RouteError>)
    ensures
        r == reach(reg.users_view(), reg.peer_set(), user_id@),
{
    match id_map_get(&reg.users, &user_id.0) {
        None => Err(RouteError::NotOnline),
        Some(a) => if peer_map_get(&reg.peers, a).is_some() {
            Ok(a)
        } else {
            Err(RouteError::PeerGone)
        },
    }
}

/// An envelope made ready for one connection: its address, the envelope,
/// its text, and a handle on that connection's outbound queue.
#[derive(Debug)]
pub struct Delivery {
    pub addr: Addr,
    pub message: SignalEnum,
    pub text: String,
    pub outbox: Outbox,
}

/// A delivery of message `m` to the target, or the target's error.
pub open spec fn planned(res: Result<Delivery, RouteError>, target: Result<Addr, RouteError>, m: SignalV) -> bool {
    match target {
        Err(e) => res == Err::<Delivery, RouteError>(e),
        Ok(a) => match res {
            Ok(d) => d.addr == a && d.message@ == m && d.text@ == enc(m),
            Err(_) => false,
        },
    }
}

/// Makes an envelope ready for the connection at `addr`; the connection must
/// be registered.
pub fn prepare(reg: &Registry, addr: &Addr, message: SignalEnum) -> (r: Result<Delivery, RouteError>)
    ensures
        planned(
            r,
            if reg.peer_set().contains(*addr) {
                Ok::<Addr, RouteError>(*addr)
            } else {
                Err::<Addr, RouteError>(RouteError::PeerGone)
            },
            message@,
        ),
{
    match peer_map_get(&reg.peers, *addr) {
        None => Err(RouteError::PeerGone),
        Some(outbox) => {
            let text = encode(&message);
            Ok(Delivery { addr: *addr, message, text, outbox })
        },
    }
}

/// Queues a delivery's text; it fails where the connection's queue is
/// closed.
pub fn deliver(d: Delivery) -> (r: Result<(), RouteError>)
    ensures
        r == Ok::<(), RouteError>(()) || r == Err::<(), RouteError>(RouteError::SendFailed),
{
    match outbox_send(&d.outbox, d.text) {
        Ok(()) => Ok(()),
        Err(_) => Err(RouteError::SendFailed),
    }
}

/// Queues the text of an envelope on a connection's outbound queue.
pub fn send(reg: &Registry, addr: &Addr, message: SignalEnum) -> (r: Result<(), RouteError>)
    ensures
        !reg.peer_set().contains(*addr) ==> r == Err::<(), RouteError>(RouteError::PeerGone),
        reg.peer_set().contains(*addr) ==> r == Ok::<(), RouteError>(()) || r == Err::<
            (),
            RouteError,
        >(RouteError::SendFailed),
{
    let d = prepare(reg, addr, message)?;
    deliver(d)
}

/// Sends an envelope to a device by its identity.
pub fn send_message_to_tank(reg: &Registry, tank_id: &TankId, message: SignalEnum) -> (r: Result<
    (),
    RouteError,
>)
    ensures
        match reach(reg.tanks_view(), reg.peer_set(), tank_id@) {
            Err(e) => r == Err::<(), RouteError>(e),
            Ok(_) => r == Ok::<(), RouteError>(()) || r == Err::<(), RouteError>(
                RouteError::SendFailed,
            ),
        },
{
    let addr = find_tank(reg, tank_id)?;
    send(reg, &addr, message)
}

/// Sends an envelope to an operator by its identity.
pub fn send_message_to_operator(reg: &Registry, operator: &UserId, message: SignalEnum) -> (r:
    Result<(), RouteError>)
    ensures
        match reach(reg.users_view(), reg.peer_set(), operator@) {
            Err(e) => r == Err::<(), RouteError>(e),
            Ok(_) => r == Ok::<(), RouteError>(()) || r == Err::<(), RouteError>(
                RouteError::SendFailed,
            ),
        },
{
    let addr = find_user(reg, operator)?;
    send(reg, &addr, message)
}

} // verus!
