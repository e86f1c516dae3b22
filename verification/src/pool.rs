//! The connection pool: the open sessions, each in a slot of its own, and the
//! remote address that each belongs to. Slots are handed out in the order in
//! which sessions were opened and never change.

use vstd::prelude::*;
use tokio_modbus::client::Context;
use tokio_modbus::slave::{Slave, SlaveContext};

verus! {

/// A remote endpoint: an IPv4 or IPv6 socket address, field by field.
#[derive(Clone, Copy, Debug, PartialEq, Eq, Structural)]
pub enum RemoteAddress {
    V4 { ipv4: u32, port: u16 },
    V6 { ipv6: u128, port: u16, flowinfo: u32, scope_id: u32 },
}

/// A Modbus client context of tokio-modbus: one live session. Nothing of its
/// inside is known here; the pool only keeps it and hands it out.
#[verifier::external_type_specification]
#[verifier::external_body]
pub struct ExContext(tokio_modbus::client::Context);

/// `SlaveContext::set_slave` of tokio-modbus on a client context, with
/// `Slave(unit)`: the context addresses that unit in the requests that follow.
/// The call returns nothing and no claim is made of the context after it.
#[verifier::external_body]
fn select_unit(session: &mut Context, unit: u8) {
    session.set_slave(Slave(unit));
}

/// The unit that every session of the pool addresses.
pub const SLAVE_UNIT: u8 = 1;

/// The open sessions and their addresses: the session to `self@[slot]` sits in `slot`.
pub struct ConnectionPool {
    addresses: Vec<RemoteAddress>,
    sessions: Vec<Context>,
}

impl View for ConnectionPool {
    type V = Seq<RemoteAddress>;

    closed spec fn view(&self) -> Seq<RemoteAddress> {
        self.addresses@
    }
}

impl ConnectionPool {
    /// The sessions held, by slot.
    pub closed spec fn sessions(&self) -> Seq<Context> {
        self.sessions@
    }

    /// No address holds two slots, and every address has its session.
    pub open spec fn wf(&self) -> bool {
        &&& self@.no_duplicates()
        &&& self.sessions().len() == self@.len()
    }
    /// A pool without sessions.
    pub fn new() -> (pool: ConnectionPool)
        ensures
            pool@ == Seq::<RemoteAddress>::empty(),
            pool.sessions() == Seq::<Context>::empty(),
            pool.wf(),
    {
        ConnectionPool { addresses: Vec::new(), sessions: Vec::new() }
    }

    /// The number of open sessions.
    pub fn len(&self) -> (count: usize)
        ensures
            count == self@.len(),
    {
        self.addresses.len()
    }

    /// The slot of the session to `address`, if one is open.
    pub fn slot_of(&self, address: RemoteAddress) -> (slot: Option<usize>)
        ensures
            slot is Some <==> self@.contains(address),
            slot is Some ==> slot.unwrap() < self@.len() && self@[slot.unwrap() as int] == address,
            slot is Some ==> forall|k: int| 0 <= k < slot.unwrap() ==> self@[k] != address,
    {
        let mut i: usize = 0;
        while i < self.addresses.len()
            invariant
                i <= self.addresses@.len(),
                forall|k: int| 0 <= k < i ==> self.addresses@[k] != address,
            decreases self.addresses.len() - i,
        {
            if self.addresses[i] == address {
                return Some(i);
            }
            i = i + 1;
        }
        None
    }

    /// Takes in the session just opened to `address`, sets it to the pool's unit
    /// and gives its slot: the next free one. Every earlier session keeps its slot.
    pub fn insert(&mut self, address: RemoteAddress, session: Context) -> (slot: usize)
        requires
            old(self).wf(),
            !old(self)@.contains(address),
        ensures
            final(self)@ == old(self)@.push(address),
            slot == old(self)@.len(),
            final(self).wf(),
            final(self).sessions().take(slot as int) == old(self).sessions(),
    {
        let slot = self.addresses.len();
        let mut session = session;
        select_unit(&mut session, SLAVE_UNIT);
        self.addresses.push(address);
        self.sessions.push(session);
        proof {
            lemma_session_is_reused(old(self)@, address);
            assert(self.sessions().take(slot as int) =~= old(self).sessions());
        }
        slot
    }

    /// The session in `slot`, for the caller's exclusive use while it holds the
    /// borrow. The pool's addresses and slots stay as they are, and so does every
    /// other session.
    pub fn session_mut(&mut self, slot: usize) -> (session: &mut Context)
        requires
            old(self).wf(),
            slot < old(self)@.len(),
        ensures
            *session == old(self).sessions()[slot as int],
            final(self).sessions() == old(self).sessions().update(slot as int, *final(session)),
            final(self)@ == old(self)@,
            final(self).wf(),
    {
        &mut self.sessions[slot]
    }
}

/// A session once opened is found again in its slot, and opening a session to
/// another address moves none.
pub proof fn lemma_session_is_reused(pool: Seq<RemoteAddress>, address: RemoteAddress)
    requires
        pool.no_duplicates(),
        !pool.contains(address),
    ensures
        pool.push(address).no_duplicates(),
        pool.push(address).contains(address),
        pool.push(address)[pool.len() as int] == address,
        forall|other: RemoteAddress| pool.contains(other) ==> pool.push(address).contains(other),
        forall|slot: int| 0 <= slot < pool.len() ==> pool.push(address)[slot] == pool[slot],
{
    let after = pool.push(address);
    assert(after[pool.len() as int] == address);
    assert forall|i: int, j: int| 0 <= i < after.len() && 0 <= j < after.len() && i != j implies after[i] != after[j] by {
        if i < pool.len() && j < pool.len() {
        } else if i < pool.len() {
            assert(pool.contains(pool[i]));
        } else {
            assert(pool.contains(pool[j]));
        }
    }
    assert forall|other: RemoteAddress| pool.contains(other) implies after.contains(other) by {
        let k = choose|k: int| 0 <= k < pool.len() && pool[k] == other;
        assert(after[k] == other);
    }
}

} // verus!
