//! The store: the identifier allocator, the collection of records and the
//! two tiers of locks that guard them.

use std::collections::BTreeMap;
use std::sync::Arc;
use vstd::prelude::*;
use vstd::rwlock::{ReadHandle, RwLock, RwLockPredicate, WriteHandle};

use crate::data::{Status, Ticket, TicketData, TicketDraft};
use crate::model::StoreModel;

verus! {

/// The handle of a ticket: unique within one store, never used twice.
#[derive(Clone, Copy, Debug, PartialEq, Eq, PartialOrd, Ord, Hash, Structural)]
pub struct TicketId(pub u64);

impl From<u64> for TicketId {
    fn from(value: u64) -> (id: TicketId) {
        TicketId(value)
    }
}

impl vstd::std_specs::convert::FromSpecImpl<u64> for TicketId {
    open spec fn obeys_from_spec() -> bool {
        true
    }

    open spec fn from_spec(value: u64) -> TicketId {
        TicketId(value)
    }
}

/// `Arc::clone`: the result points to the value that `handle` points to, so
/// the two are one and the same value.
#[verifier::external_body]
fn share<T>(handle: &Arc<T>) -> (shared: Arc<T>)
    ensures
        shared == *handle,
{
    Arc::clone(handle)
}

/// What the lock of one record admits. No operation of this crate changes a
/// record, so the lock admits the record as it was created and nothing else.
pub struct RecordInv {
    pub ticket: TicketData,
}

impl RwLockPredicate<Ticket> for RecordInv {
    open spec fn inv(self, ticket: Ticket) -> bool {
        ticket@ == self.ticket
    }
}

/// A record behind a lock of its own. The store and every caller that asked
/// for the record share it; reading it takes the record's lock and leaves
/// the lock of the store alone.
pub struct SharedTicket {
    lock: Arc<RwLock<Ticket, RecordInv>>,
}

impl View for SharedTicket {
    type V = TicketData;

    closed spec fn view(&self) -> TicketData {
        self.lock.pred().ticket
    }
}

impl SharedTicket {
    /// Puts `ticket` behind a lock of its own.
    fn new(ticket: Ticket) -> (record: SharedTicket)
        ensures
            record@ == ticket@,
    {
        let ghost admitted = RecordInv { ticket: ticket@ };
        SharedTicket { lock: Arc::new(RwLock::new(ticket, Ghost(admitted))) }
    }

    /// Takes the record's read lock, copies the record and gives the lock
    /// back.
    pub fn read(&self) -> (ticket: Ticket)
        ensures
            ticket@ == self@,
    {
        let guard = self.lock.acquire_read();
        let ticket = guard.borrow().clone();
        guard.release_read();
        ticket
    }
}

impl Clone for SharedTicket {
    /// Another handle to the same record.
    fn clone(&self) -> (copy: Self)
        ensures
            copy == *self,
    {
        SharedTicket { lock: share(&self.lock) }
    }
}

/// What the locks guard: the counter from which identifiers are taken, and
/// the records by identifier.
pub struct TicketStoreInternal {
    tickets: BTreeMap<u64, SharedTicket>,
    counter: u64,
}

impl View for TicketStoreInternal {
    type V = StoreModel;

    closed spec fn view(&self) -> StoreModel {
        StoreModel {
            tickets: Map::new(
                |id: nat| id <= u64::MAX && self.tickets@.contains_key(id as u64),
                |id: nat| self.tickets@[id as u64]@,
            ),
            counter: self.counter as nat,
        }
    }
}

impl TicketStoreInternal {
    /// The invariant of the store: see [`StoreModel::wf`]. The counter is
    /// held in 64 bits.
    pub open spec fn wf(&self) -> bool {
        self@.wf() && self@.counter <= u64::MAX
    }

    /// The empty store.
    pub fn new() -> (store: TicketStoreInternal)
        ensures
            store.wf(),
            store@ == StoreModel::empty(),
    {
        let store = TicketStoreInternal { tickets: BTreeMap::new(), counter: 0 };
        assert(store@.tickets =~= Map::empty());
        store
    }

    /// The number of tickets created so far, which is also the identifier
    /// that the next one gets.
    pub fn len(&self) -> (count: u64)
        ensures
            count == self@.counter,
    {
        self.counter
    }

    /// Whether every identifier has been handed out.
    pub fn is_full(&self) -> (full: bool)
        ensures
            full == (self@.counter >= u64::MAX),
    {
        self.counter == u64::MAX
    }

    /// Takes the next identifier, makes a ticket of `draft` in its first
    /// status, puts it behind a lock of its own and stores it.
    pub fn add_ticket(&mut self, draft: TicketDraft) -> (id: TicketId)
        requires
            old(self).wf(),
            old(self)@.counter < u64::MAX,
        ensures
            final(self).wf(),
            final(self)@ == old(self)@.add(draft@),
            id.0 == old(self)@.next_id(),
    {
        proof {
            use_type_invariant(&draft.title);
            use_type_invariant(&draft.description);
        }
        let id = TicketId(self.counter);
        let ticket = Ticket {
            id,
            title: draft.title,
            description: draft.description,
            status: Status::ToDo,
        };
        let record = SharedTicket::new(ticket);
        self.tickets.insert(id.0, record);
        self.counter = self.counter + 1;
        assert(self@.tickets =~= old(self)@.add(draft@).tickets);
        id
    }

    /// The record under `id`, if there is one.
    pub fn get(&self, id: TicketId) -> (found: Option<SharedTicket>)
        ensures
            match found {
                Some(record) => self@.get(id.0 as nat) == Some(record@),
                None => self@.get(id.0 as nat) is None,
            },
    {
        match self.tickets.get(&id.0) {
            Some(record) => Some(record.clone()),
            None => None,
        }
    }
}

/// What the lock of the store admits: every state that meets the store's
/// invariant and has grown out of the state that the store was made with.
pub struct StoreInv {
    pub origin: StoreModel,
}

impl RwLockPredicate<TicketStoreInternal> for StoreInv {
    open spec fn inv(self, state: TicketStoreInternal) -> bool {
        state.wf() && self.origin.grows_into(state@)
    }
}

/// The store, shared by reference: every clone refers to the same state.
///
/// One lock guards the counter and the collection, and each record has a
/// lock of its own. The lock of the store is taken first, a record's lock
/// after it, never the other way round. A waiting writer keeps new readers
/// out: it raises its flag first and then waits for the readers that are
/// already in to leave.
pub struct TicketStore {
    lock: Arc<RwLock<TicketStoreInternal, StoreInv>>,
}

/// The capability to look tickets up. Any number of readers may hold one at
/// the same time; none is handed out while a writer holds the store. The
/// lock is given back by [`TicketStoreReader::release`], not by dropping the
/// value.
pub struct TicketStoreReader<'a> {
    guard: ReadHandle<'a, TicketStoreInternal, StoreInv>,
}

/// The capability to add tickets. At most one writer holds it at a time, and
/// no reader meanwhile. The lock is given back by
/// [`TicketStoreWriter::release`], not by dropping the value.
pub struct TicketStoreWriter<'a> {
    state: TicketStoreInternal,
    guard: WriteHandle<'a, TicketStoreInternal, StoreInv>,
}

impl<'a> View for TicketStoreReader<'a> {
    type V = StoreModel;

    closed spec fn view(&self) -> StoreModel {
        self.guard.view()@
    }
}

impl<'a> TicketStoreReader<'a> {
    /// The state that the store of this reader was made with.
    pub closed spec fn origin(&self) -> StoreModel {
        self.guard.rwlock().pred().origin
    }

    /// The reader holds a state that the lock admits: one that meets the
    /// store's invariant and has grown out of the state that the store was
    /// made with.
    pub open spec fn wf(&self) -> bool {
        self@.wf() && self@.counter <= u64::MAX && self.origin().grows_into(self@)
    }

    /// The state that the reader holds.
    pub(crate) fn state(&self) -> (state: &TicketStoreInternal)
        ensures
            state@ == self@,
    {
        self.guard.borrow()
    }

    /// The number of tickets in the store.
    pub fn len(&self) -> (count: u64)
        ensures
            count == self@.counter,
    {
        self.guard.borrow().len()
    }

    /// The record under `id`, if there is one, as a handle that outlives
    /// this reader.
    pub fn get(&self, id: TicketId) -> (found: Option<SharedTicket>)
        ensures
            match found {
                Some(record) => self@.get(id.0 as nat) == Some(record@),
                None => self@.get(id.0 as nat) is None,
            },
    {
        self.guard.borrow().get(id)
    }

    /// Gives the read lock back.
    pub fn release(self) {
        self.guard.release_read();
    }
}

impl<'a> View for TicketStoreWriter<'a> {
    type V = StoreModel;

    closed spec fn view(&self) -> StoreModel {
        self.state@
    }
}

impl<'a> TicketStoreWriter<'a> {
    /// The state that the store of this writer was made with.
    pub closed spec fn origin(&self) -> StoreModel {
        self.guard.rwlock().pred().origin
    }

    /// The writer holds a state that the lock admits: one that meets the
    /// store's invariant and has grown out of the state that the store was
    /// made with.
    pub open spec fn wf(&self) -> bool {
        self@.wf() && self@.counter <= u64::MAX && self.origin().grows_into(self@)
    }

    /// The state that the writer holds, to work on.
    pub(crate) fn state_mut(&mut self) -> (state: &mut TicketStoreInternal)
        ensures
            state@ == old(self)@,
            final(self)@ == final(state)@,
            final(self).origin() == old(self).origin(),
    {
        &mut self.state
    }

    /// The number of tickets in the store.
    pub fn len(&self) -> (count: u64)
        ensures
            count == self@.counter,
    {
        self.state.len()
    }

    /// Whether every identifier has been handed out.
    pub fn is_full(&self) -> (full: bool)
        ensures
            full == (self@.counter >= u64::MAX),
    {
        self.state.is_full()
    }

    /// Takes the next identifier, makes a ticket of `draft` in its first
    /// status and stores it.
    pub fn add_ticket(&mut self, draft: TicketDraft) -> (id: TicketId)
        requires
            old(self).wf(),
            old(self)@.counter < u64::MAX,
        ensures
            final(self).wf(),
            final(self).origin() == old(self).origin(),
            final(self)@ == old(self)@.add(draft@),
            id.0 == old(self)@.next_id(),
    {
        self.state.add_ticket(draft)
    }

    /// Puts the state back and gives the write lock back.
    pub fn release(self)
        requires
            self.wf(),
    {
        self.guard.release_write(self.state);
    }
}

impl TicketStore {
    /// The state that the store was made with. Every state that a reader or
    /// a writer of the store is handed has grown out of it.
    pub closed spec fn origin(&self) -> StoreModel {
        self.lock.pred().origin
    }

    /// A store of its own, which starts with the empty state: no ticket,
    /// and zero as the next identifier.
    pub fn new() -> (store: TicketStore)
        ensures
            store.origin() == StoreModel::empty(),
    {
        let state = TicketStoreInternal::new();
        let ghost admitted = StoreInv { origin: state@ };
        TicketStore { lock: Arc::new(RwLock::new(state, Ghost(admitted))) }
    }

    /// Waits until no writer holds the store and hands out a reader.
    pub fn read(&self) -> (reader: TicketStoreReader<'_>)
        ensures
            reader.wf(),
            reader.origin() == self.origin(),
    {
        TicketStoreReader { guard: self.lock.acquire_read() }
    }

    /// Waits until nobody else holds the store and hands out the writer.
    pub fn write(&self) -> (writer: TicketStoreWriter<'_>)
        ensures
            writer.wf(),
            writer.origin() == self.origin(),
    {
        let (state, guard) = self.lock.acquire_write();
        TicketStoreWriter { state, guard }
    }
}

impl Clone for TicketStore {
    /// Another reference to the same store.
    fn clone(&self) -> (copy: Self)
        ensures
            copy == *self,
    {
        TicketStore { lock: share(&self.lock) }
    }
}

} // verus!
