//! The operations on contacts, conversations, groups and memberships.
//!
//! Each operation is one atomic step against the store: it checks that the
//! acting party may do what it asks, validates the new content, computes the
//! footprint, and creates or grows exactly one record (creating a group
//! makes two). It either completes or fails with a typed error and leaves
//! the store as it was. A record that an operation creates is stored at the
//! address derived from its kind and its parties, and nowhere else.
//!
//! An operation holds the store exclusively from its first read to its
//! write, so the sizes it computes a footprint from are the sizes it grows.
//! Every failure is one of `ErrorCode`; a missing record that the signer
//! names as proof of a right counts as no right (`NotAuthorized`), a missing
//! record that is to be changed or joined as `NotFound`.

use crate::address::{
    contact_address, contact_address_spec, conversation_address, conversation_address_spec,
    group_address, group_address_spec, group_contact_address, group_contact_address_spec, Address,
};
use crate::auth::{
    is_group_admin, is_group_admin_spec, may_append_message, may_append_message_spec,
    may_mutate_contact, may_mutate_contact_spec, may_set_preference, may_set_preference_spec,
    may_set_role, may_set_role_spec, may_start_conversation, may_start_conversation_spec,
};
use crate::capability::Signer;
use crate::consistency::consistent;
use crate::error::ErrorCode;
use crate::records::{
    byte_len, optional_view, total_bytes, Contact, ContactView, ConversationView,
    DirectConversation, Group, GroupContact, GroupContactView, GroupView, Record, RecordView,
    PREFERENCE_IGNORE, PREFERENCE_SUBSCRIBE, ROLE_ADMIN, ROLE_NONE,
};
use crate::laws::{
    lemma_create_contact_keeps_consistency, lemma_create_group_contact_keeps_consistency,
    lemma_create_group_keeps_consistency, lemma_edit_group_keeps_consistency,
    lemma_send_direct_message_keeps_consistency,
    lemma_set_group_contact_preference_keeps_consistency,
    lemma_set_group_contact_role_keeps_consistency,
    lemma_start_direct_conversation_keeps_consistency, lemma_update_contact_keeps_consistency,
};
use crate::size::{
    contact_footprint, contact_size, conversation_footprint, conversation_size, fitting,
    group_contact_footprint, group_contact_size, group_footprint, group_size, MESSAGE_MAX,
    NAME_MAX,
};
use crate::store::{
    contact_at, conversation_at, create_failure, group_at, group_contact_at, grow_failure, mutated,
    Mutation, MutationView, RecordStore, StoreView, StoredView,
};
use vstd::prelude::*;

verus! {

/// The parties to creating a group: the signer, who becomes its creator and
/// first admin and pays for both new records, and the signer's own contact.
#[derive(Clone, Copy, Debug)]
pub struct CreateGroup {
    pub signer: Signer,
    pub contact: Address,
}

/// Why `create_group` fails, if it does. In this order: no contact at the
/// named address; a contact that the signer did not create; a name that is
/// too long; no address for the group or for the creator's membership row; a
/// footprint beyond 64 bits; an address that is taken; the allocator's
/// refusal.
pub open spec fn create_group_failure(
    store: StoreView,
    ctx: CreateGroup,
    nonce: u16,
    name: Seq<char>,
    data: Seq<char>,
) -> Option<ErrorCode> {
    match contact_at(store, ctx.contact@) {
        None => Some(ErrorCode::NotFound),
        Some(contact) => if !may_mutate_contact_spec(ctx.signer.key@, contact) {
            Some(ErrorCode::NotAuthorized)
        } else if byte_len(name) > NAME_MAX {
            Some(ErrorCode::NameTooLong)
        } else {
            match group_address_spec(ctx.signer.key@, nonce) {
                Err(e) => Some(e),
                Ok((group, _)) => match group_contact_address_spec(group, ctx.contact@) {
                    Err(e) => Some(e),
                    Ok((row, _)) => if fitting(group_footprint(byte_len(data))) is None {
                        Some(ErrorCode::AllocationFailed)
                    } else if store.contains_key(group) || store.contains_key(row) || group == row {
                        Some(ErrorCode::AddressInUse)
                    } else {
                        ctx.signer.funding.refusal()
                    },
                },
            }
        },
    }
}

/// The store after a successful `create_group`: the group at its derived
/// address, and at the address derived from the group and the creator's
/// contact a membership row with the admin role and the subscribe
/// preference.
pub open spec fn create_group_effect(
    store: StoreView,
    ctx: CreateGroup,
    nonce: u16,
    name: Seq<char>,
    data: Seq<char>,
) -> StoreView {
    match group_address_spec(ctx.signer.key@, nonce) {
        Ok((group, group_bump)) => match group_contact_address_spec(group, ctx.contact@) {
            Ok((row, row_bump)) => store.insert(
                group,
                StoredView {
                    allocated: group_footprint(byte_len(data)) as u64,
                    record: RecordView::Group(
                        GroupView { bump: group_bump, nonce, creator: ctx.signer.key@, name, data },
                    ),
                },
            ).insert(
                row,
                StoredView {
                    allocated: group_contact_footprint() as u64,
                    record: RecordView::GroupContact(
                        GroupContactView {
                            bump: row_bump,
                            group,
                            contact: ctx.contact@,
                            role: ROLE_ADMIN,
                            preference: PREFERENCE_SUBSCRIBE,
                        },
                    ),
                },
            ),
            Err(_) => store,
        },
        Err(_) => store,
    }
}

/// Creates the group of the signer with the given nonce, and with it the
/// signer's own membership as admin: both records or neither.
pub fn create_group(
    store: &mut RecordStore,
    ctx: &CreateGroup,
    nonce: u16,
    name: String,
    data: String,
) -> (r: Result<(), ErrorCode>)
    ensures
        match r {
            Ok(()) => {
                &&& create_group_failure(old(store)@, *ctx, nonce, name@, data@) is None
                &&& final(store)@ == create_group_effect(old(store)@, *ctx, nonce, name@, data@)
            },
            Err(e) => {
                &&& create_group_failure(old(store)@, *ctx, nonce, name@, data@) == Some(e)
                &&& final(store)@ == old(store)@
            },
        },
        consistent(old(store)@) ==> consistent(final(store)@),
{
    proof {
        if consistent(store@) && create_group_failure(store@, *ctx, nonce, name@, data@) is None {
            lemma_create_group_keeps_consistency(store@, *ctx, nonce, name@, data@);
        }
    }
    let contact = match store.read_contact(&ctx.contact) {
        Ok(contact) => contact,
        Err(e) => {
            return Err(e);
        },
    };
    if !may_mutate_contact(&ctx.signer.key, contact) {
        return Err(ErrorCode::NotAuthorized);
    }
    if name.as_str().as_bytes().len() > NAME_MAX {
        return Err(ErrorCode::NameTooLong);
    }
    let (group_at, group_bump) = match group_address(&ctx.signer.key, nonce) {
        Ok(found) => found,
        Err(e) => {
            return Err(e);
        },
    };
    let (row_at, row_bump) = match group_contact_address(&group_at, &ctx.contact) {
        Ok(found) => found,
        Err(e) => {
            return Err(e);
        },
    };
    let size: u64 = match group_size(data.as_str().as_bytes().len()) {
        Some(size) => size,
        None => {
            return Err(ErrorCode::AllocationFailed);
        },
    };
    if store.contains(&group_at) || store.contains(&row_at) || group_at == row_at {
        return Err(ErrorCode::AddressInUse);
    }
    match ctx.signer.funding.granted() {
        Ok(()) => {},
        Err(e) => {
            return Err(e);
        },
    }
    let group = match Group::new(group_bump, nonce, ctx.signer.key, name, data) {
        Ok(group) => group,
        Err(e) => {
            return Err(e);
        },
    };
    let row = GroupContact {
        bump: row_bump,
        group: group_at,
        contact: ctx.contact,
        role: ROLE_ADMIN,
        preference: PREFERENCE_SUBSCRIBE,
    };
    let _ = store.create_record(group_at, Record::Group(group), &ctx.signer, size);
    let row_size: u64 = group_contact_size();
    let _ = store.create_record(row_at, Record::GroupContact(row), &ctx.signer, row_size);
    Ok(())
}

/// Whether the row at `membership` makes `actor` an admin of `group`: the row
/// is stored, it is a row of `group` with the admin role, and the contact it
/// belongs to is stored and was created by `actor`.
pub open spec fn admin_in_store(
    store: StoreView,
    actor: Seq<u8>,
    membership: Seq<u8>,
    group: Seq<u8>,
) -> bool {
    match group_contact_at(store, membership) {
        None => false,
        Some(row) => match contact_at(store, row.contact) {
            None => false,
            Some(contact) => is_group_admin_spec(actor, row.contact, contact, row, group),
        },
    }
}

/// Looks up the row at `membership` and the contact behind it, and decides
/// whether they make `actor` an admin of `group`.
pub fn holds_admin_row(
    store: &RecordStore,
    actor: &Address,
    membership: &Address,
    group: &Address,
) -> (held: bool)
    ensures
        held == admin_in_store(store@, actor@, membership@, group@),
{
    match store.read_group_contact(membership) {
        Err(_) => false,
        Ok(row) => match store.read_contact(&row.contact) {
            Err(_) => false,
            Ok(contact) => is_group_admin(actor, &row.contact, contact, row, group),
        },
    }
}

/// The parties to editing a group: the signer, who pays for growth, the
/// group, and the membership row by which the signer claims to be its admin.
#[derive(Clone, Copy, Debug)]
pub struct EditGroup {
    pub signer: Signer,
    pub group: Address,
    pub signer_group_contact: Address,
}

/// What `edit_group` writes.
pub open spec fn edit_group_mutation(name: Seq<char>, data: Seq<char>) -> MutationView {
    MutationView::ReplaceGroup { name, data }
}

/// Why `edit_group` fails, if it does. In this order: a signer who is no
/// admin of the group; no group at the named address; a name that is too
/// long; a footprint beyond 64 bits; what the store refuses (a footprint
/// below the allocated size, the allocator's refusal of growth).
pub open spec fn edit_group_failure(
    store: StoreView,
    ctx: EditGroup,
    name: Seq<char>,
    data: Seq<char>,
) -> Option<ErrorCode> {
    if !admin_in_store(store, ctx.signer.key@, ctx.signer_group_contact@, ctx.group@) {
        Some(ErrorCode::NotAuthorized)
    } else if group_at(store, ctx.group@) is None {
        Some(ErrorCode::NotFound)
    } else if byte_len(name) > NAME_MAX {
        Some(ErrorCode::NameTooLong)
    } else if fitting(group_footprint(byte_len(data))) is None {
        Some(ErrorCode::AllocationFailed)
    } else {
        grow_failure(
            store,
            ctx.group@,
            group_footprint(byte_len(data)) as u64,
            ctx.signer.funding,
            edit_group_mutation(name, data),
        )
    }
}

/// The store after a successful `edit_group`: the group holds the new name
/// and data, in a footprint computed from the new data.
pub open spec fn edit_group_effect(
    store: StoreView,
    ctx: EditGroup,
    name: Seq<char>,
    data: Seq<char>,
) -> StoreView {
    store.insert(
        ctx.group@,
        StoredView {
            allocated: group_footprint(byte_len(data)) as u64,
            record: mutated(store[ctx.group@].record, edit_group_mutation(name, data)),
        },
    )
}

/// Replaces the name and data of a group. Only an admin of the group may:
/// any other signer gets `NotAuthorized`, whatever else is asked, and the
/// group stays as it was.
pub fn edit_group(
    store: &mut RecordStore,
    ctx: &EditGroup,
    name: String,
    data: String,
) -> (r: Result<(), ErrorCode>)
    ensures
        match r {
            Ok(()) => {
                &&& edit_group_failure(old(store)@, *ctx, name@, data@) is None
                &&& final(store)@ == edit_group_effect(old(store)@, *ctx, name@, data@)
            },
            Err(e) => {
                &&& edit_group_failure(old(store)@, *ctx, name@, data@) == Some(e)
                &&& final(store)@ == old(store)@
            },
        },
        !admin_in_store(old(store)@, ctx.signer.key@, ctx.signer_group_contact@, ctx.group@) ==> r
            == Err::<(), ErrorCode>(ErrorCode::NotAuthorized) && final(store)@ == old(store)@,
        consistent(old(store)@) ==> consistent(final(store)@),
{
    proof {
        if consistent(store@) && edit_group_failure(store@, *ctx, name@, data@) is None {
            lemma_edit_group_keeps_consistency(store@, *ctx, name@, data@);
        }
    }
    if !holds_admin_row(store, &ctx.signer.key, &ctx.signer_group_contact, &ctx.group) {
        return Err(ErrorCode::NotAuthorized);
    }
    if store.read_group(&ctx.group).is_err() {
        return Err(ErrorCode::NotFound);
    }
    if name.as_str().as_bytes().len() > NAME_MAX {
        return Err(ErrorCode::NameTooLong);
    }
    let size: u64 = match group_size(data.as_str().as_bytes().len()) {
        Some(size) => size,
        None => {
            return Err(ErrorCode::AllocationFailed);
        },
    };
    store.grow_and_write(&ctx.group, size, &ctx.signer, Mutation::ReplaceGroup { name, data })
}

/// The party to creating a contact: its creator, who pays for it.
#[derive(Clone, Copy, Debug)]
pub struct CreateContact {
    pub creator: Signer,
}

/// Why `create_contact` fails, if it does. In this order: a name that is too
/// long; no address for the contact; a footprint beyond 64 bits; a contact
/// that the creator already has; the allocator's refusal.
pub open spec fn create_contact_failure(
    store: StoreView,
    ctx: CreateContact,
    name: Seq<char>,
    data: Seq<char>,
) -> Option<ErrorCode> {
    if byte_len(name) > NAME_MAX {
        Some(ErrorCode::NameTooLong)
    } else {
        match contact_address_spec(ctx.creator.key@) {
            Err(e) => Some(e),
            Ok((contact, _)) => if fitting(contact_footprint(byte_len(data))) is None {
                Some(ErrorCode::AllocationFailed)
            } else {
                create_failure(store, contact, ctx.creator.funding)
            },
        }
    }
}

/// The store after a successful `create_contact`: the contact at the address
/// derived from its creator, with the given name, data and receiver.
pub open spec fn create_contact_effect(
    store: StoreView,
    ctx: CreateContact,
    name: Seq<char>,
    data: Seq<char>,
    receiver: Option<Seq<u8>>,
) -> StoreView {
    match contact_address_spec(ctx.creator.key@) {
        Ok((contact, bump)) => store.insert(
            contact,
            StoredView {
                allocated: contact_footprint(byte_len(data)) as u64,
                record: RecordView::Contact(
                    ContactView { bump, creator: ctx.creator.key@, receiver, name, data },
                ),
            },
        ),
        Err(_) => store,
    }
}

/// Creates the contact of the signing creator. A name of more than
/// `NAME_MAX` bytes always fails with `NameTooLong` and creates nothing.
pub fn create_contact(
    store: &mut RecordStore,
    ctx: &CreateContact,
    name: String,
    data: String,
    receiver: Option<Address>,
) -> (r: Result<(), ErrorCode>)
    ensures
        match r {
            Ok(()) => {
                &&& create_contact_failure(old(store)@, *ctx, name@, data@) is None
                &&& final(store)@ == create_contact_effect(
                    old(store)@,
                    *ctx,
                    name@,
                    data@,
                    optional_view(receiver),
                )
            },
            Err(e) => {
                &&& create_contact_failure(old(store)@, *ctx, name@, data@) == Some(e)
                &&& final(store)@ == old(store)@
            },
        },
        byte_len(name@) > NAME_MAX ==> r == Err::<(), ErrorCode>(ErrorCode::NameTooLong)
            && final(store)@ == old(store)@,
        consistent(old(store)@) ==> consistent(final(store)@),
{
    proof {
        if consistent(store@) && create_contact_failure(store@, *ctx, name@, data@) is None {
            lemma_create_contact_keeps_consistency(
                store@,
                *ctx,
                name@,
                data@,
                optional_view(receiver),
            );
        }
    }
    if name.as_str().as_bytes().len() > NAME_MAX {
        return Err(ErrorCode::NameTooLong);
    }
    let (at, bump) = match contact_address(&ctx.creator.key) {
        Ok(found) => found,
        Err(e) => {
            return Err(e);
        },
    };
    let size: u64 = match contact_size(data.as_str().as_bytes().len()) {
        Some(size) => size,
        None => {
            return Err(ErrorCode::AllocationFailed);
        },
    };
    let contact = match Contact::new(bump, ctx.creator.key, receiver, name, data) {
        Ok(contact) => contact,
        Err(e) => {
            return Err(e);
        },
    };
    match store.create_record(at, Record::Contact(contact), &ctx.creator, size) {
        Ok(_) => Ok(()),
        Err(e) => Err(e),
    }
}

/// The parties to opening a conversation: the payer, and the two contacts
/// it is between, in the order that fixes its address.
#[derive(Clone, Copy, Debug)]
pub struct StartDirectConversation {
    pub payer: Signer,
    pub contact1: Address,
    pub contact2: Address,
}

/// Why `start_direct_conversation` fails, if it does. In this order: no
/// contact at one of the two named addresses; a payer who created neither
/// contact; a message that is too long; no address for the conversation; a
/// conversation that the two already have in this order; the allocator's
/// refusal.
pub open spec fn start_direct_conversation_failure(
    store: StoreView,
    ctx: StartDirectConversation,
    message: Seq<char>,
) -> Option<ErrorCode> {
    match (contact_at(store, ctx.contact1@), contact_at(store, ctx.contact2@)) {
        (Some(contact1), Some(contact2)) => if !may_start_conversation_spec(
            ctx.payer.key@,
            contact1,
            contact2,
        ) {
            Some(ErrorCode::NotAuthorized)
        } else if byte_len(message) > MESSAGE_MAX {
            Some(ErrorCode::MessageTooLong)
        } else {
            match conversation_address_spec(ctx.contact1@, ctx.contact2@) {
                Err(e) => Some(e),
                Ok((conversation, _)) => create_failure(store, conversation, ctx.payer.funding),
            }
        },
        _ => Some(ErrorCode::NotFound),
    }
}

/// The store after a successful `start_direct_conversation`: at the address
/// derived from the two contacts, a conversation that holds the first
/// message and nothing else, in the footprint of a log of one message.
pub open spec fn start_direct_conversation_effect(
    store: StoreView,
    ctx: StartDirectConversation,
    message: Seq<char>,
) -> StoreView {
    match conversation_address_spec(ctx.contact1@, ctx.contact2@) {
        Ok((conversation, bump)) => store.insert(
            conversation,
            StoredView {
                allocated: conversation_footprint(1, byte_len(message)) as u64,
                record: RecordView::DirectConversation(
                    ConversationView {
                        bump,
                        participant_a: ctx.contact1@,
                        participant_b: ctx.contact2@,
                        messages: seq![message],
                    },
                ),
            },
        ),
        Err(_) => store,
    }
}

/// Opens the conversation between two contacts with a first message. Only
/// the creator of one of the two contacts may open, and pay for, it.
pub fn start_direct_conversation(
    store: &mut RecordStore,
    ctx: &StartDirectConversation,
    message: String,
) -> (r: Result<(), ErrorCode>)
    ensures
        match r {
            Ok(()) => {
                &&& start_direct_conversation_failure(old(store)@, *ctx, message@) is None
                &&& final(store)@ == start_direct_conversation_effect(old(store)@, *ctx, message@)
            },
            Err(e) => {
                &&& start_direct_conversation_failure(old(store)@, *ctx, message@) == Some(e)
                &&& final(store)@ == old(store)@
            },
        },
        consistent(old(store)@) ==> consistent(final(store)@),
{
    proof {
        if consistent(store@) && start_direct_conversation_failure(store@, *ctx, message@) is None {
            lemma_start_direct_conversation_keeps_consistency(store@, *ctx, message@);
        }
    }
    let contact1 = match store.read_contact(&ctx.contact1) {
        Ok(contact) => contact,
        Err(e) => {
            return Err(e);
        },
    };
    let contact2 = match store.read_contact(&ctx.contact2) {
        Ok(contact) => contact,
        Err(e) => {
            return Err(e);
        },
    };
    if !may_start_conversation(&ctx.payer.key, contact1, contact2) {
        return Err(ErrorCode::NotAuthorized);
    }
    let len: usize = message.as_str().as_bytes().len();
    if len > MESSAGE_MAX {
        return Err(ErrorCode::MessageTooLong);
    }
    let (at, bump) = match conversation_address(&ctx.contact1, &ctx.contact2) {
        Ok(found) => found,
        Err(e) => {
            return Err(e);
        },
    };
    let size: u64 = match conversation_size(0, 0, len) {
        Some(size) => size,
        None => {
            return Err(ErrorCode::AllocationFailed);
        },
    };
    let conversation = match DirectConversation::start(bump, ctx.contact1, ctx.contact2, message) {
        Ok(conversation) => conversation,
        Err(e) => {
            return Err(e);
        },
    };
    match store.create_record(at, Record::DirectConversation(conversation), &ctx.payer, size) {
        Ok(_) => Ok(()),
        Err(e) => Err(e),
    }
}

/// The parties to updating a contact: the signer, who pays for growth, and
/// the contact.
#[derive(Clone, Copy, Debug)]
pub struct UpdateContact {
    pub creator: Signer,
    pub contact: Address,
}

/// What `update_contact` writes.
pub open spec fn update_contact_mutation(
    name: Seq<char>,
    data: Seq<char>,
    receiver: Option<Seq<u8>>,
) -> MutationView {
    MutationView::ReplaceContact { receiver, name, data }
}

/// Why `update_contact` fails, if it does. In this order: no contact at the
/// named address; a signer who did not create it; a name that is too long; a
/// footprint beyond 64 bits; what the store refuses (a footprint below the
/// allocated size, the allocator's refusal of growth).
pub open spec fn update_contact_failure(
    store: StoreView,
    ctx: UpdateContact,
    name: Seq<char>,
    data: Seq<char>,
    receiver: Option<Seq<u8>>,
) -> Option<ErrorCode> {
    match contact_at(store, ctx.contact@) {
        None => Some(ErrorCode::NotFound),
        Some(contact) => if !may_mutate_contact_spec(ctx.creator.key@, contact) {
            Some(ErrorCode::NotAuthorized)
        } else if byte_len(name) > NAME_MAX {
            Some(ErrorCode::NameTooLong)
        } else if fitting(contact_footprint(byte_len(data))) is None {
            Some(ErrorCode::AllocationFailed)
        } else {
            grow_failure(
                store,
                ctx.contact@,
                contact_footprint(byte_len(data)) as u64,
                ctx.creator.funding,
                update_contact_mutation(name, data, receiver),
            )
        },
    }
}

/// The store after a successful `update_contact`: the contact holds the new
/// name, data and receiver, in a footprint computed from the new data.
pub open spec fn update_contact_effect(
    store: StoreView,
    ctx: UpdateContact,
    name: Seq<char>,
    data: Seq<char>,
    receiver: Option<Seq<u8>>,
) -> StoreView {
    store.insert(
        ctx.contact@,
        StoredView {
            allocated: contact_footprint(byte_len(data)) as u64,
            record: mutated(
                store[ctx.contact@].record,
                update_contact_mutation(name, data, receiver),
            ),
        },
    )
}

/// Replaces the name, data and receiver of a contact. Only its creator may.
pub fn update_contact(
    store: &mut RecordStore,
    ctx: &UpdateContact,
    name: String,
    data: String,
    receiver: Option<Address>,
) -> (r: Result<(), ErrorCode>)
    ensures
        match r {
            Ok(()) => {
                &&& update_contact_failure(old(store)@, *ctx, name@, data@, optional_view(receiver))
                    is None
                &&& final(store)@ == update_contact_effect(
                    old(store)@,
                    *ctx,
                    name@,
                    data@,
                    optional_view(receiver),
                )
            },
            Err(e) => {
                &&& update_contact_failure(old(store)@, *ctx, name@, data@, optional_view(receiver))
                    == Some(e)
                &&& final(store)@ == old(store)@
            },
        },
        consistent(old(store)@) ==> consistent(final(store)@),
{
    proof {
        if consistent(store@) && update_contact_failure(
            store@,
            *ctx,
            name@,
            data@,
            optional_view(receiver),
        ) is None {
            lemma_update_contact_keeps_consistency(
                store@,
                *ctx,
                name@,
                data@,
                optional_view(receiver),
            );
        }
    }
    let contact = match store.read_contact(&ctx.contact) {
        Ok(contact) => contact,
        Err(e) => {
            return Err(e);
        },
    };
    if !may_mutate_contact(&ctx.creator.key, contact) {
        return Err(ErrorCode::NotAuthorized);
    }
    if name.as_str().as_bytes().len() > NAME_MAX {
        return Err(ErrorCode::NameTooLong);
    }
    let size: u64 = match contact_size(data.as_str().as_bytes().len()) {
        Some(size) => size,
        None => {
            return Err(ErrorCode::AllocationFailed);
        },
    };
    store.grow_and_write(
        &ctx.contact,
        size,
        &ctx.creator,
        Mutation::ReplaceContact { receiver, name, data },
    )
}

/// The parties to appending a message: the payer and the conversation.
#[derive(Clone, Copy, Debug)]
pub struct SendDirectMessage {
    pub payer: Signer,
    pub conversation: Address,
}

/// Whether `actor` may append to `conversation`: both participants' contacts
/// are stored and `actor` created one of them.
pub open spec fn participant_in_store(
    store: StoreView,
    actor: Seq<u8>,
    conversation: ConversationView,
) -> bool {
    match (
        contact_at(store, conversation.participant_a),
        contact_at(store, conversation.participant_b),
    ) {
        (Some(participant_a), Some(participant_b)) => may_append_message_spec(
            actor,
            participant_a,
            participant_b,
        ),
        _ => false,
    }
}

/// The footprint of `conversation` once `message` has joined it.
pub open spec fn appended_footprint(conversation: ConversationView, message: Seq<char>) -> nat {
    conversation_footprint(
        conversation.messages.len() + 1,
        total_bytes(conversation.messages) + byte_len(message),
    )
}

/// Why `send_direct_message` fails, if it does. In this order: no
/// conversation at the named address; a payer who created neither
/// participant; a message that is too long; a footprint beyond 64 bits; what
/// the store refuses (a footprint below the allocated size, the allocator's
/// refusal of growth).
pub open spec fn send_direct_message_failure(
    store: StoreView,
    ctx: SendDirectMessage,
    message: Seq<char>,
) -> Option<ErrorCode> {
    match conversation_at(store, ctx.conversation@) {
        None => Some(ErrorCode::NotFound),
        Some(conversation) => if !participant_in_store(store, ctx.payer.key@, conversation) {
            Some(ErrorCode::NotAuthorized)
        } else if byte_len(message) > MESSAGE_MAX {
            Some(ErrorCode::MessageTooLong)
        } else if fitting(appended_footprint(conversation, message)) is None {
            Some(ErrorCode::AllocationFailed)
        } else {
            grow_failure(
                store,
                ctx.conversation@,
                appended_footprint(conversation, message) as u64,
                ctx.payer.funding,
                MutationView::AppendMessage { message },
            )
        },
    }
}

/// The store after a successful `send_direct_message`: the conversation
/// holds the message after those it held, in the footprint of the longer
/// log.
pub open spec fn send_direct_message_effect(
    store: StoreView,
    ctx: SendDirectMessage,
    message: Seq<char>,
) -> StoreView {
    match conversation_at(store, ctx.conversation@) {
        Some(conversation) => store.insert(
            ctx.conversation@,
            StoredView {
                allocated: appended_footprint(conversation, message) as u64,
                record: RecordView::DirectConversation(
                    ConversationView {
                        messages: conversation.messages.push(message),
                        ..conversation
                    },
                ),
            },
        ),
        None => store,
    }
}

/// Appends a message to a conversation. Only the creator of one of its two
/// participants may.
pub fn send_direct_message(
    store: &mut RecordStore,
    ctx: &SendDirectMessage,
    message: String,
) -> (r: Result<(), ErrorCode>)
    ensures
        match r {
            Ok(()) => {
                &&& send_direct_message_failure(old(store)@, *ctx, message@) is None
                &&& final(store)@ == send_direct_message_effect(old(store)@, *ctx, message@)
            },
            Err(e) => {
                &&& send_direct_message_failure(old(store)@, *ctx, message@) == Some(e)
                &&& final(store)@ == old(store)@
            },
        },
        consistent(old(store)@) ==> consistent(final(store)@),
{
    proof {
        if consistent(store@) && send_direct_message_failure(store@, *ctx, message@) is None {
            lemma_send_direct_message_keeps_consistency(store@, *ctx, message@);
        }
    }
    let conversation = match store.read_conversation(&ctx.conversation) {
        Ok(conversation) => conversation,
        Err(e) => {
            return Err(e);
        },
    };
    let allowed: bool = match store.read_contact(&conversation.participant_a()) {
        Err(_) => false,
        Ok(participant_a) => match store.read_contact(&conversation.participant_b()) {
            Err(_) => false,
            Ok(participant_b) => may_append_message(&ctx.payer.key, participant_a, participant_b),
        },
    };
    if !allowed {
        return Err(ErrorCode::NotAuthorized);
    }
    let len: usize = message.as_str().as_bytes().len();
    if len > MESSAGE_MAX {
        return Err(ErrorCode::MessageTooLong);
    }
    let size: u64 = match conversation_size(
        conversation.messages().len(),
        conversation.total_message_bytes(),
        len,
    ) {
        Some(size) => size,
        None => {
            return Err(ErrorCode::AllocationFailed);
        },
    };
    store.grow_and_write(&ctx.conversation, size, &ctx.payer, Mutation::AppendMessage { message })
}

/// The parties to inviting a contact into a group: the signer, who pays for
/// the new row, the group, the membership row by which the signer claims to
/// be its admin, and the invited contact.
#[derive(Clone, Copy, Debug)]
pub struct CreateGroupContact {
    pub signer: Signer,
    pub group: Address,
    pub signer_group_contact: Address,
    pub contact: Address,
}

/// Why `create_group_contact` fails, if it does. In this order: a signer who
/// is no admin of the group; no group or no contact at the named addresses;
/// no address for the new row; a row that the contact already has in this
/// group; the allocator's refusal.
pub open spec fn create_group_contact_failure(
    store: StoreView,
    ctx: CreateGroupContact,
) -> Option<ErrorCode> {
    if !admin_in_store(store, ctx.signer.key@, ctx.signer_group_contact@, ctx.group@) {
        Some(ErrorCode::NotAuthorized)
    } else if group_at(store, ctx.group@) is None || contact_at(store, ctx.contact@) is None {
        Some(ErrorCode::NotFound)
    } else {
        match group_contact_address_spec(ctx.group@, ctx.contact@) {
            Err(e) => Some(e),
            Ok((row, _)) => create_failure(store, row, ctx.signer.funding),
        }
    }
}

/// The store after a successful `create_group_contact`: at the address
/// derived from the group and the contact, a row with no role and the ignore
/// preference, whoever invited.
pub open spec fn create_group_contact_effect(
    store: StoreView,
    ctx: CreateGroupContact,
) -> StoreView {
    match group_contact_address_spec(ctx.group@, ctx.contact@) {
        Ok((row, bump)) => store.insert(
            row,
            StoredView {
                allocated: group_contact_footprint() as u64,
                record: RecordView::GroupContact(
                    GroupContactView {
                        bump,
                        group: ctx.group@,
                        contact: ctx.contact@,
                        role: ROLE_NONE,
                        preference: PREFERENCE_IGNORE,
                    },
                ),
            },
        ),
        Err(_) => store,
    }
}

/// Invites a contact into a group. Only an admin of the group may. Being
/// added grants nothing: the new row has no role and no subscription.
pub fn create_group_contact(
    store: &mut RecordStore,
    ctx: &CreateGroupContact,
) -> (r: Result<(), ErrorCode>)
    ensures
        match r {
            Ok(()) => {
                &&& create_group_contact_failure(old(store)@, *ctx) is None
                &&& final(store)@ == create_group_contact_effect(old(store)@, *ctx)
            },
            Err(e) => {
                &&& create_group_contact_failure(old(store)@, *ctx) == Some(e)
                &&& final(store)@ == old(store)@
            },
        },
        consistent(old(store)@) ==> consistent(final(store)@),
{
    proof {
        if consistent(store@) && create_group_contact_failure(store@, *ctx) is None {
            lemma_create_group_contact_keeps_consistency(store@, *ctx);
        }
    }
    if !holds_admin_row(store, &ctx.signer.key, &ctx.signer_group_contact, &ctx.group) {
        return Err(ErrorCode::NotAuthorized);
    }
    if store.read_group(&ctx.group).is_err() || store.read_contact(&ctx.contact).is_err() {
        return Err(ErrorCode::NotFound);
    }
    let (at, bump) = match group_contact_address(&ctx.group, &ctx.contact) {
        Ok(found) => found,
        Err(e) => {
            return Err(e);
        },
    };
    let row = GroupContact {
        bump,
        group: ctx.group,
        contact: ctx.contact,
        role: ROLE_NONE,
        preference: PREFERENCE_IGNORE,
    };
    match store.create_record(at, Record::GroupContact(row), &ctx.signer, group_contact_size()) {
        Ok(_) => Ok(()),
        Err(e) => Err(e),
    }
}

/// The parties to changing a member's role: the signer, the membership row
/// by which the signer claims to be an admin, and the row to change.
#[derive(Clone, Copy, Debug)]
pub struct SetGroupContactRole {
    pub signer: Signer,
    pub signer_group_contact: Address,
    pub group_contact: Address,
}

/// Whether the row at `membership` makes `actor` an admin of the group that
/// this row belongs to.
pub open spec fn admin_by_row(store: StoreView, actor: Seq<u8>, membership: Seq<u8>) -> bool {
    match group_contact_at(store, membership) {
        None => false,
        Some(row) => admin_in_store(store, actor, membership, row.group),
    }
}

/// Whether `actor`, by the row at `membership`, may change the role in the
/// row at `target`. Both rows are stored.
pub open spec fn role_change_allowed(
    store: StoreView,
    actor: Seq<u8>,
    membership: Seq<u8>,
    target: Seq<u8>,
) -> bool {
    match (group_contact_at(store, membership), group_contact_at(store, target)) {
        (Some(row), Some(target_row)) => match contact_at(store, row.contact) {
            Some(contact) => may_set_role_spec(
                actor,
                row.contact,
                contact,
                membership,
                row,
                target,
                target_row,
            ),
            None => false,
        },
        _ => false,
    }
}

/// Why `set_group_contact_role` fails, if it does. In this order: a signer
/// who is no admin by the row they name; no row at the target address; a
/// target in another group, or the signer's own row; what the store refuses.
pub open spec fn set_group_contact_role_failure(
    store: StoreView,
    ctx: SetGroupContactRole,
    role: u8,
) -> Option<ErrorCode> {
    if !admin_by_row(store, ctx.signer.key@, ctx.signer_group_contact@) {
        Some(ErrorCode::NotAuthorized)
    } else if group_contact_at(store, ctx.group_contact@) is None {
        Some(ErrorCode::NotFound)
    } else if !role_change_allowed(
        store,
        ctx.signer.key@,
        ctx.signer_group_contact@,
        ctx.group_contact@,
    ) {
        Some(ErrorCode::NotAuthorized)
    } else {
        grow_failure(
            store,
            ctx.group_contact@,
            group_contact_footprint() as u64,
            ctx.signer.funding,
            MutationView::SetRole { role },
        )
    }
}

/// The store after a successful `set_group_contact_role`: the target row
/// holds the new role; nothing else changes.
pub open spec fn set_group_contact_role_effect(
    store: StoreView,
    ctx: SetGroupContactRole,
    role: u8,
) -> StoreView {
    store.insert(
        ctx.group_contact@,
        StoredView {
            allocated: group_contact_footprint() as u64,
            record: mutated(store[ctx.group_contact@].record, MutationView::SetRole { role }),
        },
    )
}

/// Changes the role of a member. Only an admin of the same group may, and
/// only in another row than their own.
pub fn set_group_contact_role(
    store: &mut RecordStore,
    ctx: &SetGroupContactRole,
    role: u8,
) -> (r: Result<(), ErrorCode>)
    ensures
        match r {
            Ok(()) => {
                &&& set_group_contact_role_failure(old(store)@, *ctx, role) is None
                &&& final(store)@ == set_group_contact_role_effect(old(store)@, *ctx, role)
            },
            Err(e) => {
                &&& set_group_contact_role_failure(old(store)@, *ctx, role) == Some(e)
                &&& final(store)@ == old(store)@
            },
        },
        consistent(old(store)@) ==> consistent(final(store)@),
{
    proof {
        if consistent(store@) && set_group_contact_role_failure(store@, *ctx, role) is None {
            lemma_set_group_contact_role_keeps_consistency(store@, *ctx, role);
        }
    }
    let row = match store.read_group_contact(&ctx.signer_group_contact) {
        Ok(row) => row,
        Err(_) => {
            return Err(ErrorCode::NotAuthorized);
        },
    };
    let contact = match store.read_contact(&row.contact) {
        Ok(contact) => contact,
        Err(_) => {
            return Err(ErrorCode::NotAuthorized);
        },
    };
    if !is_group_admin(&ctx.signer.key, &row.contact, contact, row, &row.group) {
        return Err(ErrorCode::NotAuthorized);
    }
    let target = match store.read_group_contact(&ctx.group_contact) {
        Ok(target) => target,
        Err(e) => {
            return Err(e);
        },
    };
    if !may_set_role(
        &ctx.signer.key,
        &row.contact,
        contact,
        &ctx.signer_group_contact,
        row,
        &ctx.group_contact,
        target,
    ) {
        return Err(ErrorCode::NotAuthorized);
    }
    store.grow_and_write(
        &ctx.group_contact,
        group_contact_size(),
        &ctx.signer,
        Mutation::SetRole { role },
    )
}

/// The parties to changing a member's preference: the signer and the
/// membership row to change, which must be the signer's own.
#[derive(Clone, Copy, Debug)]
pub struct SetGroupContactPreference {
    pub signer: Signer,
    pub signer_group_contact: Address,
}

/// Whether the row belongs to `actor`: the contact it names is stored and
/// was created by `actor`.
pub open spec fn owner_in_store(store: StoreView, actor: Seq<u8>, row: GroupContactView) -> bool {
    match contact_at(store, row.contact) {
        Some(contact) => may_set_preference_spec(actor, row.contact, contact, row),
        None => false,
    }
}

/// Why `set_group_contact_preference` fails, if it does. In this order: no
/// row at the named address; a row that is not the signer's; what the store
/// refuses.
pub open spec fn set_group_contact_preference_failure(
    store: StoreView,
    ctx: SetGroupContactPreference,
    preference: u8,
) -> Option<ErrorCode> {
    match group_contact_at(store, ctx.signer_group_contact@) {
        None => Some(ErrorCode::NotFound),
        Some(row) => if !owner_in_store(store, ctx.signer.key@, row) {
            Some(ErrorCode::NotAuthorized)
        } else {
            grow_failure(
                store,
                ctx.signer_group_contact@,
                group_contact_footprint() as u64,
                ctx.signer.funding,
                MutationView::SetPreference { preference },
            )
        },
    }
}

/// The store after a successful `set_group_contact_preference`: the row
/// holds the new preference; nothing else changes.
pub open spec fn set_group_contact_preference_effect(
    store: StoreView,
    ctx: SetGroupContactPreference,
    preference: u8,
) -> StoreView {
    store.insert(
        ctx.signer_group_contact@,
        StoredView {
            allocated: group_contact_footprint() as u64,
            record: mutated(
                store[ctx.signer_group_contact@].record,
                MutationView::SetPreference { preference },
            ),
        },
    )
}

/// Changes a member's own preference. Nobody else may, not even an admin.
pub fn set_group_contact_preference(
    store: &mut RecordStore,
    ctx: &SetGroupContactPreference,
    preference: u8,
) -> (r: Result<(), ErrorCode>)
    ensures
        match r {
            Ok(()) => {
                &&& set_group_contact_preference_failure(old(store)@, *ctx, preference) is None
                &&& final(store)@ == set_group_contact_preference_effect(
                    old(store)@,
                    *ctx,
                    preference,
                )
            },
            Err(e) => {
                &&& set_group_contact_preference_failure(old(store)@, *ctx, preference) == Some(e)
                &&& final(store)@ == old(store)@
            },
        },
        consistent(old(store)@) ==> consistent(final(store)@),
{
    proof {
        if consistent(store@) && set_group_contact_preference_failure(store@, *ctx, preference)
            is None {
            lemma_set_group_contact_preference_keeps_consistency(store@, *ctx, preference);
        }
    }
    let row = match store.read_group_contact(&ctx.signer_group_contact) {
        Ok(row) => row,
        Err(e) => {
            return Err(e);
        },
    };
    let allowed: bool = match store.read_contact(&row.contact) {
        Ok(contact) => may_set_preference(&ctx.signer.key, &row.contact, contact, row),
        Err(_) => false,
    };
    if !allowed {
        return Err(ErrorCode::NotAuthorized);
    }
    store.grow_and_write(
        &ctx.signer_group_contact,
        group_contact_size(),
        &ctx.signer,
        Mutation::SetPreference { preference },
    )
}

} // verus!
