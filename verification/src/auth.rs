//! Authorization: who may change what.
//!
//! Every rule is a predicate over the records involved, which the caller has
//! fetched. A right is never a property of one record alone: it is a
//! relation between the acting party, the contact that party created, and
//! for groups the membership row that links this contact to the group.

use crate::address::Address;
use crate::records::{Contact, ContactView, GroupContact, GroupContactView, ROLE_ADMIN};
use vstd::prelude::*;

verus! {

/// A contact may be changed by its creator only.
pub open spec fn may_mutate_contact_spec(actor: Seq<u8>, contact: ContactView) -> bool {
    actor == contact.creator
}

/// A conversation may be opened, and paid for, by the creator of either of
/// the two contacts it is between.
pub open spec fn may_start_conversation_spec(
    actor: Seq<u8>,
    contact1: ContactView,
    contact2: ContactView,
) -> bool {
    actor == contact1.creator || actor == contact2.creator
}

/// A message may be appended by the creator of either participant.
pub open spec fn may_append_message_spec(
    actor: Seq<u8>,
    participant_a: ContactView,
    participant_b: ContactView,
) -> bool {
    actor == participant_a.creator || actor == participant_b.creator
}

/// The acting party is an admin of `group`: `membership` is a row of that
/// group with the admin role, and it belongs to the contact at
/// `contact_address`, which the acting party created.
pub open spec fn is_group_admin_spec(
    actor: Seq<u8>,
    contact_address: Seq<u8>,
    contact: ContactView,
    membership: GroupContactView,
    group: Seq<u8>,
) -> bool {
    &&& contact.creator == actor
    &&& membership.contact == contact_address
    &&& membership.group == group
    &&& membership.role == ROLE_ADMIN
}

/// A member's role may be changed by an admin of the same group, through
/// another row than the admin's own.
pub open spec fn may_set_role_spec(
    actor: Seq<u8>,
    contact_address: Seq<u8>,
    contact: ContactView,
    membership_address: Seq<u8>,
    membership: GroupContactView,
    target_address: Seq<u8>,
    target: GroupContactView,
) -> bool {
    &&& is_group_admin_spec(actor, contact_address, contact, membership, target.group)
    &&& membership_address != target_address
}

/// A member's preference may be changed by that member only: the row
/// belongs to the contact at `contact_address`, which the acting party
/// created.
pub open spec fn may_set_preference_spec(
    actor: Seq<u8>,
    contact_address: Seq<u8>,
    contact: ContactView,
    membership: GroupContactView,
) -> bool {
    contact.creator == actor && membership.contact == contact_address
}

/// Whether `actor` may change `contact`.
pub fn may_mutate_contact(actor: &Address, contact: &Contact) -> (allowed: bool)
    ensures
        allowed == may_mutate_contact_spec(actor@, contact@),
{
    contact.creator() == *actor
}

/// Whether `actor` may open a conversation between the two contacts.
pub fn may_start_conversation(
    actor: &Address,
    contact1: &Contact,
    contact2: &Contact,
) -> (allowed: bool)
    ensures
        allowed == may_start_conversation_spec(actor@, contact1@, contact2@),
{
    contact1.creator() == *actor || contact2.creator() == *actor
}

/// Whether `actor` may append to the conversation of the two participants.
pub fn may_append_message(
    actor: &Address,
    participant_a: &Contact,
    participant_b: &Contact,
) -> (allowed: bool)
    ensures
        allowed == may_append_message_spec(actor@, participant_a@, participant_b@),
{
    participant_a.creator() == *actor || participant_b.creator() == *actor
}

/// Whether `actor` is an admin of `group` by the given contact and
/// membership row. This gates both editing the group and inviting into it.
pub fn is_group_admin(
    actor: &Address,
    contact_address: &Address,
    contact: &Contact,
    membership: &GroupContact,
    group: &Address,
) -> (allowed: bool)
    ensures
        allowed == is_group_admin_spec(actor@, contact_address@, contact@, membership@, group@),
{
    contact.creator() == *actor && membership.contact == *contact_address && membership.group
        == *group && membership.role == ROLE_ADMIN
}

/// Whether `actor` may change the role in the row at `target_address`.
pub fn may_set_role(
    actor: &Address,
    contact_address: &Address,
    contact: &Contact,
    membership_address: &Address,
    membership: &GroupContact,
    target_address: &Address,
    target: &GroupContact,
) -> (allowed: bool)
    ensures
        allowed == may_set_role_spec(
            actor@,
            contact_address@,
            contact@,
            membership_address@,
            membership@,
            target_address@,
            target@,
        ),
{
    is_group_admin(actor, contact_address, contact, membership, &target.group) && !(
    *membership_address == *target_address)
}

/// Whether `actor` may change the preference in `membership`.
pub fn may_set_preference(
    actor: &Address,
    contact_address: &Address,
    contact: &Contact,
    membership: &GroupContact,
) -> (allowed: bool)
    ensures
        allowed == may_set_preference_spec(actor@, contact_address@, contact@, membership@),
{
    contact.creator() == *actor && membership.contact == *contact_address
}

} // verus!
