//! What holds of every store that the operations have built.
//!
//! The store itself accepts any record at any free address. The operations
//! are stricter, and a store that only they have written to is consistent
//! in the sense defined here. `RecordStore::new` gives a consistent store,
//! and every operation keeps a consistent store consistent.

use crate::address::{
    contact_address_spec, conversation_address_spec, group_address_spec,
    group_contact_address_spec,
};
use crate::error::ErrorCode;
use crate::layout::{footprint_of, lemma_footprint_covers, serialized_len, FOOTPRINT_SLACK};
use crate::records::{RecordView, ROLE_ADMIN};
use crate::store::{contact_at, group_at, group_contact_at, StoreView, StoredView};
use vstd::prelude::*;

verus! {

/// The record sits at the address derived from its kind and its parties,
/// and holds the disambiguator that the derivation found.
pub open spec fn well_placed(address: Seq<u8>, record: RecordView) -> bool {
    match record {
        RecordView::Contact(contact) => contact_address_spec(contact.creator) == Ok::<
            (Seq<u8>, u8),
            ErrorCode,
        >((address, contact.bump)),
        RecordView::DirectConversation(conversation) => conversation_address_spec(
            conversation.participant_a,
            conversation.participant_b,
        ) == Ok::<(Seq<u8>, u8), ErrorCode>((address, conversation.bump)),
        RecordView::Group(group) => group_address_spec(group.creator, group.nonce) == Ok::<
            (Seq<u8>, u8),
            ErrorCode,
        >((address, group.bump)),
        RecordView::GroupContact(row) => group_contact_address_spec(row.group, row.contact) == Ok::<
            (Seq<u8>, u8),
            ErrorCode,
        >((address, row.bump)),
    }
}

/// Every record that the given one names is stored: a conversation's two
/// participants, a membership row's group and contact.
pub open spec fn references_exist(store: StoreView, record: RecordView) -> bool {
    match record {
        RecordView::DirectConversation(conversation) => {
            &&& contact_at(store, conversation.participant_a) is Some
            &&& contact_at(store, conversation.participant_b) is Some
        },
        RecordView::GroupContact(row) => {
            &&& group_at(store, row.group) is Some
            &&& contact_at(store, row.contact) is Some
        },
        _ => true,
    }
}

/// What holds of one stored record in a consistent store.
pub open spec fn sound_at(store: StoreView, address: Seq<u8>) -> bool {
    &&& store[address].record.valid()
    &&& store[address].allocated == footprint_of(store[address].record)
    &&& well_placed(address, store[address].record)
    &&& references_exist(store, store[address].record)
}

/// The row at `row` is a membership of `group` with the admin role.
pub open spec fn is_admin_row(store: StoreView, row: Seq<u8>, group: Seq<u8>) -> bool {
    match group_contact_at(store, row) {
        Some(membership) => membership.group == group && membership.role == ROLE_ADMIN,
        None => false,
    }
}

/// The group at `group`, if there is one, has an admin.
pub open spec fn administered(store: StoreView, group: Seq<u8>) -> bool {
    group_at(store, group) is Some ==> exists|row: Seq<u8>| is_admin_row(store, row, group)
}

/// A store is consistent when every record respects the limits of its kind,
/// is allocated exactly the footprint of its content, sits at its derived
/// address and names only stored records, and every group has an admin.
pub open spec fn consistent(store: StoreView) -> bool {
    &&& forall|address: Seq<u8>| #[trigger] store.contains_key(address) ==> sound_at(store, address)
    &&& forall|group: Seq<u8>| #[trigger] administered(store, group)
}

/// In a consistent store there is exactly one contact per creator: two
/// stored contacts of one creator are one record.
pub proof fn lemma_one_contact_per_creator(store: StoreView, first: Seq<u8>, second: Seq<u8>)
    requires
        consistent(store),
        contact_at(store, first) is Some,
        contact_at(store, second) is Some,
        contact_at(store, first)->Some_0.creator == contact_at(store, second)->Some_0.creator,
    ensures
        first == second,
{
    assert(store.contains_key(first));
    assert(store.contains_key(second));
    assert(sound_at(store, first));
    assert(sound_at(store, second));
}

/// In a consistent store every membership row names a stored group and a
/// stored contact, and every conversation two stored contacts.
pub proof fn lemma_references_resolve(store: StoreView, address: Seq<u8>)
    requires
        consistent(store),
        store.contains_key(address),
    ensures
        references_exist(store, store[address].record),
{
    assert(sound_at(store, address));
}

/// In a consistent store every group has a member with the admin role.
pub proof fn lemma_group_has_admin(store: StoreView, group: Seq<u8>)
    requires
        consistent(store),
        group_at(store, group) is Some,
    ensures
        exists|row: Seq<u8>| is_admin_row(store, row, group),
{
    assert(administered(store, group));
}

/// In a consistent store no record is under-provisioned: what is allocated
/// covers the stored length, with at most `FOOTPRINT_SLACK` bytes to spare.
pub proof fn lemma_never_under_provisioned(store: StoreView, address: Seq<u8>)
    requires
        consistent(store),
        store.contains_key(address),
    ensures
        serialized_len(store[address].record) <= store[address].allocated,
        store[address].allocated <= serialized_len(store[address].record)
            + FOOTPRINT_SLACK,
{
    assert(sound_at(store, address));
    lemma_footprint_covers(store[address].record);
}

/// What a record must meet to join, or to replace one in, a consistent
/// store: the conditions of `sound_at`, with the references looked up in the
/// store as it will be.
pub open spec fn admissible(store: StoreView, address: Seq<u8>, stored: StoredView) -> bool {
    &&& stored.record.valid()
    &&& stored.allocated == footprint_of(stored.record)
    &&& well_placed(address, stored.record)
    &&& references_exist(store.insert(address, stored), stored.record)
}

/// A record other than a group may join a consistent store at a free
/// address.
pub proof fn lemma_insert_fresh(store: StoreView, address: Seq<u8>, stored: StoredView)
    requires
        consistent(store),
        !store.contains_key(address),
        admissible(store, address, stored),
        !(stored.record is Group),
    ensures
        consistent(store.insert(address, stored)),
{
    let after = store.insert(address, stored);
    assert forall|at: Seq<u8>| #[trigger] after.contains_key(at) implies sound_at(after, at) by {
        if at != address {
            assert(store.contains_key(at));
            assert(sound_at(store, at));
        }
    }
    assert forall|group: Seq<u8>| #[trigger] administered(after, group) by {
        if group_at(after, group) is Some {
            assert(administered(store, group));
            let row = choose|row: Seq<u8>| is_admin_row(store, row, group);
            assert(is_admin_row(after, row, group));
        }
    }
}

/// A group may join a consistent store at a free address together with an
/// admin row of it at another free address.
pub proof fn lemma_insert_group(
    store: StoreView,
    group_address: Seq<u8>,
    group: StoredView,
    row_address: Seq<u8>,
    row: StoredView,
)
    requires
        consistent(store),
        !store.contains_key(group_address),
        !store.contains_key(row_address),
        group_address != row_address,
        group.record is Group,
        admissible(store, group_address, group),
        admissible(store.insert(group_address, group), row_address, row),
        row.record matches RecordView::GroupContact(membership) && membership.group
            == group_address && membership.role == ROLE_ADMIN,
    ensures
        consistent(store.insert(group_address, group).insert(row_address, row)),
{
    let after = store.insert(group_address, group).insert(row_address, row);
    assert forall|at: Seq<u8>| #[trigger] after.contains_key(at) implies sound_at(after, at) by {
        if at != group_address && at != row_address {
            assert(store.contains_key(at));
            assert(sound_at(store, at));
        }
    }
    assert forall|group: Seq<u8>| #[trigger] administered(after, group) by {
        if group_at(after, group) is Some {
            if group == group_address {
                assert(is_admin_row(after, row_address, group));
            } else {
                assert(administered(store, group));
                let witness = choose|witness: Seq<u8>| is_admin_row(store, witness, group);
                assert(is_admin_row(after, witness, group));
            }
        }
    }
}

/// A record in a consistent store may be replaced by one of its kind, as
/// long as every group that loses an admin by it keeps another.
pub proof fn lemma_replace(store: StoreView, address: Seq<u8>, stored: StoredView)
    requires
        consistent(store),
        store.contains_key(address),
        admissible(store, address, stored),
        stored.record.kind() == store[address].record.kind(),
        forall|group: Seq<u8>|
            is_admin_row(store, address, group) && !is_admin_row(
                store.insert(address, stored),
                address,
                group,
            ) ==> exists|row: Seq<u8>| #[trigger]
                is_admin_row(store.insert(address, stored), row, group),
    ensures
        consistent(store.insert(address, stored)),
{
    let after = store.insert(address, stored);
    assert forall|at: Seq<u8>| #[trigger] after.contains_key(at) implies sound_at(after, at) by {
        if at != address {
            assert(store.contains_key(at));
            assert(sound_at(store, at));
        }
    }
    assert forall|group: Seq<u8>| #[trigger] administered(after, group) by {
        if group_at(after, group) is Some {
            assert(group_at(store, group) is Some);
            assert(administered(store, group));
            let row = choose|row: Seq<u8>| is_admin_row(store, row, group);
            if row != address {
                assert(is_admin_row(after, row, group));
            } else if is_admin_row(after, address, group) {
            } else {
                let other = choose|other: Seq<u8>| is_admin_row(after, other, group);
                assert(is_admin_row(after, other, group));
            }
        }
    }
}

} // verus!
