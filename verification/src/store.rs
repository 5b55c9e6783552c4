//! The record store: keyed records that are created once, read, and grown
//! and rewritten in one step. The store holds each record's allocated size
//! as it was asked for; it never derives a size from content.

use crate::address::Address;
use crate::capability::{Allocation, Signer};
use crate::consistency::consistent;
use crate::error::ErrorCode;
use crate::records::{
    append_result, byte_len, optional_view, Contact, ContactView, ConversationView,
    DirectConversation, Group, GroupContact, GroupContactView, GroupView, Record, RecordKind,
    RecordView,
};
use crate::size::{MESSAGE_MAX, NAME_MAX};
use vstd::prelude::*;

verus! {

/// A stored record as the store's model holds it.
pub struct StoredView {
    pub allocated: u64,
    pub record: RecordView,
}

/// The model of a store: what is stored at each occupied address.
pub type StoreView = Map<Seq<u8>, StoredView>;

/// What `create_record` hands back: where the record lives, its kind and the
/// bytes allocated to it.
#[derive(Clone, Copy, Debug)]
pub struct RecordHandle {
    pub address: Address,
    pub kind: RecordKind,
    pub allocated: u64,
}

/// A change to the fields of a stored record.
#[derive(Debug)]
pub enum Mutation {
    /// Replace a contact's receiver, name and data.
    ReplaceContact { receiver: Option<Address>, name: String, data: String },
    /// Append a message to a conversation.
    AppendMessage { message: String },
    /// Replace a group's name and data.
    ReplaceGroup { name: String, data: String },
    /// Set a membership row's role.
    SetRole { role: u8 },
    /// Set a membership row's preference.
    SetPreference { preference: u8 },
}

/// What a mutation holds.
pub enum MutationView {
    ReplaceContact { receiver: Option<Seq<u8>>, name: Seq<char>, data: Seq<char> },
    AppendMessage { message: Seq<char> },
    ReplaceGroup { name: Seq<char>, data: Seq<char> },
    SetRole { role: u8 },
    SetPreference { preference: u8 },
}

impl View for Mutation {
    type V = MutationView;

    open spec fn view(&self) -> MutationView {
        match self {
            Mutation::ReplaceContact { receiver, name, data } => MutationView::ReplaceContact {
                receiver: optional_view(*receiver),
                name: name@,
                data: data@,
            },
            Mutation::AppendMessage { message } => MutationView::AppendMessage {
                message: message@,
            },
            Mutation::ReplaceGroup { name, data } => MutationView::ReplaceGroup {
                name: name@,
                data: data@,
            },
            Mutation::SetRole { role } => MutationView::SetRole { role: *role },
            Mutation::SetPreference { preference } => MutationView::SetPreference {
                preference: *preference,
            },
        }
    }
}

impl Mutation {
    /// Whether the mutation can be applied to `record`, and if not, why.
    pub fn applies_to(&self, record: &Record) -> (r: Result<(), ErrorCode>)
        ensures
            match r {
                Ok(()) => mutation_failure(record@, self@) is None,
                Err(e) => mutation_failure(record@, self@) == Some(e),
            },
    {
        match self {
            Mutation::ReplaceContact { name, .. } => match record {
                Record::Contact(_) => if name.as_str().as_bytes().len() > NAME_MAX {
                    Err(ErrorCode::NameTooLong)
                } else {
                    Ok(())
                },
                _ => Err(ErrorCode::NotFound),
            },
            Mutation::AppendMessage { message } => match record {
                Record::DirectConversation(conversation) => {
                    let len: usize = message.as_str().as_bytes().len();
                    if len > MESSAGE_MAX {
                        Err(ErrorCode::MessageTooLong)
                    } else if len as u64 > u64::MAX - conversation.total_message_bytes() {
                        Err(ErrorCode::AllocationFailed)
                    } else {
                        Ok(())
                    }
                },
                _ => Err(ErrorCode::NotFound),
            },
            Mutation::ReplaceGroup { name, .. } => match record {
                Record::Group(_) => if name.as_str().as_bytes().len() > NAME_MAX {
                    Err(ErrorCode::NameTooLong)
                } else {
                    Ok(())
                },
                _ => Err(ErrorCode::NotFound),
            },
            Mutation::SetRole { .. } => match record {
                Record::GroupContact(_) => Ok(()),
                _ => Err(ErrorCode::NotFound),
            },
            Mutation::SetPreference { .. } => match record {
                Record::GroupContact(_) => Ok(()),
                _ => Err(ErrorCode::NotFound),
            },
        }
    }

    /// Applies the mutation to `record` where `applies_to` accepts it, and
    /// leaves the record as it is where not.
    pub fn apply(self, record: &mut Record)
        ensures
            final(record)@ == (if mutation_failure(old(record)@, self@) is None {
                mutated(old(record)@, self@)
            } else {
                old(record)@
            }),
    {
        match self {
            Mutation::ReplaceContact { receiver, name, data } => match record {
                Record::Contact(contact) => {
                    let _ = contact.update(receiver, name, data);
                },
                _ => {},
            },
            Mutation::AppendMessage { message } => match record {
                Record::DirectConversation(conversation) => {
                    let _ = conversation.append(message);
                },
                _ => {},
            },
            Mutation::ReplaceGroup { name, data } => match record {
                Record::Group(group) => {
                    let _ = group.edit(name, data);
                },
                _ => {},
            },
            Mutation::SetRole { role } => match record {
                Record::GroupContact(row) => {
                    row.role = role;
                },
                _ => {},
            },
            Mutation::SetPreference { preference } => match record {
                Record::GroupContact(row) => {
                    row.preference = preference;
                },
                _ => {},
            },
        }
    }
}

/// Why a mutation cannot be applied to a record, if it cannot: `NotFound`
/// where the record is of another kind than the mutation is for, else the
/// limit that the new content breaks.
pub open spec fn mutation_failure(record: RecordView, mutation: MutationView) -> Option<ErrorCode> {
    match (record, mutation) {
        (RecordView::Contact(_), MutationView::ReplaceContact { name, .. }) => if byte_len(name)
            > NAME_MAX {
            Some(ErrorCode::NameTooLong)
        } else {
            None
        },
        (RecordView::DirectConversation(c), MutationView::AppendMessage { message }) => {
            match append_result(c.messages, message) {
                Ok(()) => None,
                Err(e) => Some(e),
            }
        },
        (RecordView::Group(_), MutationView::ReplaceGroup { name, .. }) => if byte_len(name)
            > NAME_MAX {
            Some(ErrorCode::NameTooLong)
        } else {
            None
        },
        (RecordView::GroupContact(_), MutationView::SetRole { .. }) => None,
        (RecordView::GroupContact(_), MutationView::SetPreference { .. }) => None,
        _ => Some(ErrorCode::NotFound),
    }
}

/// The record that a mutation makes of a record of its kind.
pub open spec fn mutated(record: RecordView, mutation: MutationView) -> RecordView {
    match (record, mutation) {
        (RecordView::Contact(c), MutationView::ReplaceContact { receiver, name, data }) =>
            RecordView::Contact(ContactView { receiver, name, data, ..c }),
        (RecordView::DirectConversation(c), MutationView::AppendMessage { message }) =>
            RecordView::DirectConversation(
            ConversationView { messages: c.messages.push(message), ..c },
        ),
        (RecordView::Group(g), MutationView::ReplaceGroup { name, data }) => RecordView::Group(
            GroupView { name, data, ..g },
        ),
        (RecordView::GroupContact(m), MutationView::SetRole { role }) => RecordView::GroupContact(
            GroupContactView { role, ..m },
        ),
        (RecordView::GroupContact(m), MutationView::SetPreference { preference }) =>
            RecordView::GroupContact(GroupContactView { preference, ..m }),
        _ => record,
    }
}

/// Why `create_record` fails, if it does: the address is taken, else the
/// allocator's refusal.
pub open spec fn create_failure(store: StoreView, address: Seq<u8>, funding: Allocation) -> Option<
    ErrorCode,
> {
    if store.contains_key(address) {
        Some(ErrorCode::AddressInUse)
    } else {
        funding.refusal()
    }
}

/// Why `grow_and_write` fails, if it does. In this order: no record at the
/// address; a size below the allocated one; a mutation that does not apply;
/// the allocator's refusal, asked only where the record grows.
pub open spec fn grow_failure(
    store: StoreView,
    address: Seq<u8>,
    new_size: u64,
    funding: Allocation,
    mutation: MutationView,
) -> Option<ErrorCode> {
    if !store.contains_key(address) {
        Some(ErrorCode::NotFound)
    } else if new_size < store[address].allocated {
        Some(ErrorCode::ShrinkRejected)
    } else if mutation_failure(store[address].record, mutation) is Some {
        mutation_failure(store[address].record, mutation)
    } else if new_size > store[address].allocated {
        funding.refusal()
    } else {
        None
    }
}

/// The contact stored at `address`, if one is.
pub open spec fn contact_at(store: StoreView, address: Seq<u8>) -> Option<ContactView> {
    if store.contains_key(address) {
        match store[address].record {
            RecordView::Contact(contact) => Some(contact),
            _ => None,
        }
    } else {
        None
    }
}

/// The conversation stored at `address`, if one is.
pub open spec fn conversation_at(store: StoreView, address: Seq<u8>) -> Option<ConversationView> {
    if store.contains_key(address) {
        match store[address].record {
            RecordView::DirectConversation(conversation) => Some(conversation),
            _ => None,
        }
    } else {
        None
    }
}

/// The group stored at `address`, if one is.
pub open spec fn group_at(store: StoreView, address: Seq<u8>) -> Option<GroupView> {
    if store.contains_key(address) {
        match store[address].record {
            RecordView::Group(group) => Some(group),
            _ => None,
        }
    } else {
        None
    }
}

/// The membership row stored at `address`, if one is.
pub open spec fn group_contact_at(store: StoreView, address: Seq<u8>) -> Option<GroupContactView> {
    if store.contains_key(address) {
        match store[address].record {
            RecordView::GroupContact(row) => Some(row),
            _ => None,
        }
    } else {
        None
    }
}

struct Slot {
    address: Address,
    allocated: u64,
    record: Record,
}

spec fn slot_view(slot: Slot) -> StoredView {
    StoredView { allocated: slot.allocated, record: slot.record@ }
}

spec fn sits_at(slots: Seq<Slot>, i: int, address: Seq<u8>) -> bool {
    0 <= i < slots.len() && slots[i].address@ == address
}

spec fn distinct(slots: Seq<Slot>) -> bool {
    forall|i: int, j: int|
        0 <= i < j < slots.len() ==> (#[trigger] slots[i]).address@
            != (#[trigger] slots[j]).address@
}

spec fn slots_map(slots: Seq<Slot>) -> StoreView {
    Map::new(
        |address: Seq<u8>| exists|i: int| sits_at(slots, i, address),
        |address: Seq<u8>| slot_view(slots[choose|i: int| sits_at(slots, i, address)]),
    )
}

proof fn lemma_lookup(slots: Seq<Slot>, i: int)
    requires
        distinct(slots),
        0 <= i < slots.len(),
    ensures
        slots_map(slots).contains_key(slots[i].address@),
        slots_map(slots)[slots[i].address@] == slot_view(slots[i]),
{
    let address = slots[i].address@;
    assert(sits_at(slots, i, address));
    let j = choose|j: int| sits_at(slots, j, address);
    assert(j == i);
}

proof fn lemma_push(slots: Seq<Slot>, slot: Slot)
    requires
        distinct(slots),
        !slots_map(slots).contains_key(slot.address@),
    ensures
        distinct(slots.push(slot)),
        slots_map(slots.push(slot)) == slots_map(slots).insert(slot.address@, slot_view(slot)),
{
    let after = slots.push(slot);
    assert forall|i: int, j: int| 0 <= i < j < after.len() implies (#[trigger] after[i]).address@
        != (#[trigger] after[j]).address@ by {
        if j == slots.len() {
            assert(sits_at(slots, i, after[i].address@));
        }
    }
    assert forall|address: Seq<u8>|
        slots_map(after).contains_key(address) == slots_map(slots).insert(
            slot.address@,
            slot_view(slot),
        ).contains_key(address) by {
        if slots_map(after).contains_key(address) {
            let i = choose|i: int| sits_at(after, i, address);
            if i < slots.len() {
                assert(sits_at(slots, i, address));
            }
        }
        if slots_map(slots).contains_key(address) {
            let i = choose|i: int| sits_at(slots, i, address);
            assert(sits_at(after, i, address));
        }
        if address == slot.address@ {
            assert(sits_at(after, slots.len() as int, address));
        }
    }
    assert forall|address: Seq<u8>| slots_map(after).contains_key(address) implies slots_map(
        after,
    )[address] == slots_map(slots).insert(slot.address@, slot_view(slot))[address] by {
        let i = choose|i: int| sits_at(after, i, address);
        lemma_lookup(after, i);
        if i < slots.len() {
            assert(sits_at(slots, i, address));
            lemma_lookup(slots, i);
        }
    }
    assert(slots_map(after) =~= slots_map(slots).insert(slot.address@, slot_view(slot)));
}

proof fn lemma_update(slots: Seq<Slot>, at: int, slot: Slot)
    requires
        distinct(slots),
        0 <= at < slots.len(),
        slot.address@ == slots[at].address@,
    ensures
        distinct(slots.update(at, slot)),
        slots_map(slots.update(at, slot)) == slots_map(slots).insert(
            slot.address@,
            slot_view(slot),
        ),
{
    let after = slots.update(at, slot);
    assert forall|i: int, j: int| 0 <= i < j < after.len() implies (#[trigger] after[i]).address@
        != (#[trigger] after[j]).address@ by {
        assert(slots[i].address@ != slots[j].address@);
    }
    assert forall|address: Seq<u8>|
        slots_map(after).contains_key(address) == slots_map(slots).insert(
            slot.address@,
            slot_view(slot),
        ).contains_key(address) by {
        if slots_map(after).contains_key(address) {
            let i = choose|i: int| sits_at(after, i, address);
            assert(sits_at(slots, i, address));
        }
        if slots_map(slots).contains_key(address) {
            let i = choose|i: int| sits_at(slots, i, address);
            assert(sits_at(after, i, address));
        }
        if address == slot.address@ {
            assert(sits_at(after, at, address));
        }
    }
    assert forall|address: Seq<u8>| slots_map(after).contains_key(address) implies slots_map(
        after,
    )[address] == slots_map(slots).insert(slot.address@, slot_view(slot))[address] by {
        let i = choose|i: int| sits_at(after, i, address);
        lemma_lookup(after, i);
        assert(sits_at(slots, i, address));
        lemma_lookup(slots, i);
    }
    assert(slots_map(after) =~= slots_map(slots).insert(slot.address@, slot_view(slot)));
}

/// Records keyed by address. No two records share an address, and every
/// stored record respects the limits of its kind.
pub struct RecordStore {
    slots: Vec<Slot>,
}

impl View for RecordStore {
    type V = StoreView;

    closed spec fn view(&self) -> StoreView {
        slots_map(self.slots@)
    }
}

impl RecordStore {
    #[verifier::type_invariant]
    spec fn keyed(self) -> bool {
        distinct(self.slots@)
    }

    /// A store that holds no record.
    pub fn new() -> (store: RecordStore)
        ensures
            store@ == Map::<Seq<u8>, StoredView>::empty(),
            consistent(store@),
    {
        let store = RecordStore { slots: Vec::new() };
        assert(store@ =~= Map::<Seq<u8>, StoredView>::empty());
        store
    }

    fn find(&self, address: &Address) -> (found: Option<usize>)
        ensures
            match found {
                Some(i) => sits_at(self.slots@, i as int, address@),
                None => !self@.contains_key(address@),
            },
    {
        let mut i: usize = 0;
        while i < self.slots.len()
            invariant
                i <= self.slots.len(),
                forall|j: int| 0 <= j < i ==> !sits_at(self.slots@, j, address@),
            decreases self.slots.len() - i,
        {
            if self.slots[i].address == *address {
                return Some(i);
            }
            i += 1;
        }
        None
    }

    /// Whether a record occupies `address`.
    pub fn contains(&self, address: &Address) -> (occupied: bool)
        ensures
            occupied == self@.contains_key(address@),
    {
        match self.find(address) {
            Some(i) => {
                proof {
                    use_type_invariant(self);
                    lemma_lookup(self.slots@, i as int);
                }
                true
            },
            None => false,
        }
    }

    /// The record at `address`, or `NotFound`. A stored record always
    /// respects the limits of its kind.
    pub fn read_record(&self, address: &Address) -> (r: Result<&Record, ErrorCode>)
        ensures
            match r {
                Ok(record) => self@.contains_key(address@) && record@ == self@[address@].record
                    && record@.valid(),
                Err(e) => !self@.contains_key(address@) && e == ErrorCode::NotFound,
            },
    {
        match self.find(address) {
            Some(i) => {
                proof {
                    use_type_invariant(self);
                    lemma_lookup(self.slots@, i as int);
                }
                let record = &self.slots[i].record;
                let _ = record.kind();
                Ok(record)
            },
            None => Err(ErrorCode::NotFound),
        }
    }

    /// The contact at `address`, or `NotFound` where none is stored there.
    pub fn read_contact(&self, address: &Address) -> (r: Result<&Contact, ErrorCode>)
        ensures
            match r {
                Ok(contact) => contact_at(self@, address@) == Some(contact@),
                Err(e) => contact_at(self@, address@) is None && e == ErrorCode::NotFound,
            },
    {
        match self.read_record(address) {
            Ok(Record::Contact(contact)) => Ok(contact),
            _ => Err(ErrorCode::NotFound),
        }
    }

    /// The conversation at `address`, or `NotFound` where none is stored
    /// there.
    pub fn read_conversation(
        &self,
        address: &Address,
    ) -> (r: Result<&DirectConversation, ErrorCode>)
        ensures
            match r {
                Ok(conversation) => conversation_at(self@, address@) == Some(conversation@),
                Err(e) => conversation_at(self@, address@) is None && e == ErrorCode::NotFound,
            },
    {
        match self.read_record(address) {
            Ok(Record::DirectConversation(conversation)) => Ok(conversation),
            _ => Err(ErrorCode::NotFound),
        }
    }

    /// The group at `address`, or `NotFound` where none is stored there.
    pub fn read_group(&self, address: &Address) -> (r: Result<&Group, ErrorCode>)
        ensures
            match r {
                Ok(group) => group_at(self@, address@) == Some(group@),
                Err(e) => group_at(self@, address@) is None && e == ErrorCode::NotFound,
            },
    {
        match self.read_record(address) {
            Ok(Record::Group(group)) => Ok(group),
            _ => Err(ErrorCode::NotFound),
        }
    }

    /// The membership row at `address`, or `NotFound` where none is stored
    /// there.
    pub fn read_group_contact(&self, address: &Address) -> (r: Result<&GroupContact, ErrorCode>)
        ensures
            match r {
                Ok(row) => group_contact_at(self@, address@) == Some(row@),
                Err(e) => group_contact_at(self@, address@) is None && e == ErrorCode::NotFound,
            },
    {
        match self.read_record(address) {
            Ok(Record::GroupContact(row)) => Ok(row),
            _ => Err(ErrorCode::NotFound),
        }
    }

    /// The bytes allocated to the record at `address`, or `NotFound`.
    pub fn allocated(&self, address: &Address) -> (r: Result<u64, ErrorCode>)
        ensures
            match r {
                Ok(bytes) => self@.contains_key(address@) && bytes == self@[address@].allocated,
                Err(e) => !self@.contains_key(address@) && e == ErrorCode::NotFound,
            },
    {
        match self.find(address) {
            Some(i) => {
                proof {
                    use_type_invariant(self);
                    lemma_lookup(self.slots@, i as int);
                }
                Ok(self.slots[i].allocated)
            },
            None => Err(ErrorCode::NotFound),
        }
    }

    /// Stores `record` at `address` with `initial_size` bytes charged to
    /// `payer`. Fails with `AddressInUse` where a record occupies the
    /// address, else with the allocator's refusal; a failure changes nothing.
    pub fn create_record(
        &mut self,
        address: Address,
        record: Record,
        payer: &Signer,
        initial_size: u64,
    ) -> (r: Result<RecordHandle, ErrorCode>)
        ensures
            match r {
                Ok(handle) => {
                    &&& create_failure(old(self)@, address@, payer.funding) is None
                    &&& final(self)@ == old(self)@.insert(
                        address@,
                        StoredView { allocated: initial_size, record: record@ },
                    )
                    &&& handle.address == address
                    &&& handle.kind == record@.kind()
                    &&& handle.allocated == initial_size
                },
                Err(e) => {
                    &&& create_failure(old(self)@, address@, payer.funding) == Some(e)
                    &&& final(self)@ == old(self)@
                },
            },
    {
        proof {
            use_type_invariant(&*self);
        }
        if let Some(i) = self.find(&address) {
            proof {
                lemma_lookup(self.slots@, i as int);
            }
            return Err(ErrorCode::AddressInUse);
        }
        match payer.funding.granted() {
            Ok(()) => {},
            Err(e) => {
                return Err(e);
            },
        }
        let kind = record.kind();
        let slot = Slot { address, allocated: initial_size, record };
        let mut slots: Vec<Slot> = Vec::new();
        std::mem::swap(&mut slots, &mut self.slots);
        proof {
            lemma_push(slots@, slot);
        }
        slots.push(slot);
        self.slots = slots;
        Ok(RecordHandle { address, kind, allocated: initial_size })
    }

    /// Grows the record at `address` to `new_size` bytes and applies
    /// `mutation` to its fields, in one step. Records only grow: a smaller
    /// `new_size` than the allocated one is refused with `ShrinkRejected`.
    /// `payer` is charged, and the allocator's answer heeded, only where the
    /// size increases. A failure changes nothing.
    pub fn grow_and_write(
        &mut self,
        address: &Address,
        new_size: u64,
        payer: &Signer,
        mutation: Mutation,
    ) -> (r: Result<(), ErrorCode>)
        ensures
            match r {
                Ok(()) => {
                    &&& grow_failure(old(self)@, address@, new_size, payer.funding, mutation@)
                        is None
                    &&& final(self)@ == old(self)@.insert(
                        address@,
                        StoredView {
                            allocated: new_size,
                            record: mutated(old(self)@[address@].record, mutation@),
                        },
                    )
                },
                Err(e) => {
                    &&& grow_failure(old(self)@, address@, new_size, payer.funding, mutation@)
                        == Some(e)
                    &&& final(self)@ == old(self)@
                },
            },
            old(self)@.contains_key(address@) && new_size < old(self)@[address@].allocated ==> r
                == Err::<(), ErrorCode>(ErrorCode::ShrinkRejected) && final(self)@ == old(self)@,
    {
        proof {
            use_type_invariant(&*self);
        }
        let at: usize = match self.find(address) {
            Some(i) => i,
            None => {
                return Err(ErrorCode::NotFound);
            },
        };
        proof {
            lemma_lookup(self.slots@, at as int);
        }
        let allocated: u64 = self.slots[at].allocated;
        if new_size < allocated {
            return Err(ErrorCode::ShrinkRejected);
        }
        match mutation.applies_to(&self.slots[at].record) {
            Ok(()) => {},
            Err(e) => {
                return Err(e);
            },
        }
        if new_size > allocated {
            match payer.funding.granted() {
                Ok(()) => {},
                Err(e) => {
                    return Err(e);
                },
            }
        }
        let ghost before = self.slots@;
        let mut slots: Vec<Slot> = Vec::new();
        std::mem::swap(&mut slots, &mut self.slots);
        let slot = &mut slots[at];
        slot.allocated = new_size;
        mutation.apply(&mut slot.record);
        proof {
            assert(slots@ =~= before.update(at as int, slots@[at as int]));
            lemma_update(before, at as int, slots@[at as int]);
        }
        self.slots = slots;
        Ok(())
    }
}

} // verus!
