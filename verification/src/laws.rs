//! Laws of the operations, stated over their models and proved.

use crate::address::{
    contact_address_spec, conversation_address_spec, group_address_spec,
    group_contact_address_spec,
};
use crate::consistency::{
    consistent, is_admin_row, lemma_insert_fresh, lemma_insert_group, lemma_replace, sound_at,
};
use crate::error::ErrorCode;
use crate::operations::{
    appended_footprint, create_contact_effect, create_contact_failure, create_group_contact_effect,
    create_group_contact_failure, create_group_effect, create_group_failure, edit_group_effect,
    edit_group_failure, send_direct_message_effect, send_direct_message_failure,
    set_group_contact_preference_effect, set_group_contact_preference_failure,
    set_group_contact_role_effect, set_group_contact_role_failure,
    start_direct_conversation_effect, start_direct_conversation_failure, update_contact_effect,
    update_contact_failure, CreateContact, CreateGroup, CreateGroupContact, EditGroup,
    SendDirectMessage, SetGroupContactPreference, SetGroupContactRole, StartDirectConversation,
    UpdateContact,
};
use crate::records::{
    byte_len, lemma_total_bytes_push, total_bytes, ContactView, ConversationView,
};
use crate::size::NAME_MAX;
use crate::store::{contact_at, conversation_at, StoreView};
use vstd::prelude::*;

verus! {

/// Creating a contact keeps a consistent store consistent.
pub proof fn lemma_create_contact_keeps_consistency(
    store: StoreView,
    ctx: CreateContact,
    name: Seq<char>,
    data: Seq<char>,
    receiver: Option<Seq<u8>>,
)
    requires
        consistent(store),
        create_contact_failure(store, ctx, name, data) is None,
    ensures
        consistent(create_contact_effect(store, ctx, name, data, receiver)),
{
    let (at, bump) = contact_address_spec(ctx.creator.key@)->Ok_0;
    let after = create_contact_effect(store, ctx, name, data, receiver);
    lemma_insert_fresh(store, at, after[at]);
}

/// Updating a contact keeps a consistent store consistent.
pub proof fn lemma_update_contact_keeps_consistency(
    store: StoreView,
    ctx: UpdateContact,
    name: Seq<char>,
    data: Seq<char>,
    receiver: Option<Seq<u8>>,
)
    requires
        consistent(store),
        update_contact_failure(store, ctx, name, data, receiver) is None,
    ensures
        consistent(update_contact_effect(store, ctx, name, data, receiver)),
{
    let at = ctx.contact@;
    let after = update_contact_effect(store, ctx, name, data, receiver);
    assert(store.contains_key(at));
    assert(sound_at(store, at));
    lemma_replace(store, at, after[at]);
}

/// Opening a conversation keeps a consistent store consistent.
pub proof fn lemma_start_direct_conversation_keeps_consistency(
    store: StoreView,
    ctx: StartDirectConversation,
    message: Seq<char>,
)
    requires
        consistent(store),
        start_direct_conversation_failure(store, ctx, message) is None,
    ensures
        consistent(start_direct_conversation_effect(store, ctx, message)),
{
    let (at, bump) = conversation_address_spec(ctx.contact1@, ctx.contact2@)->Ok_0;
    let after = start_direct_conversation_effect(store, ctx, message);
    assert(Seq::<Seq<char>>::empty().push(message) =~= seq![message]);
    lemma_total_bytes_push(Seq::empty(), message);
    lemma_insert_fresh(store, at, after[at]);
}

/// Appending a message keeps a consistent store consistent.
pub proof fn lemma_send_direct_message_keeps_consistency(
    store: StoreView,
    ctx: SendDirectMessage,
    message: Seq<char>,
)
    requires
        consistent(store),
        send_direct_message_failure(store, ctx, message) is None,
    ensures
        consistent(send_direct_message_effect(store, ctx, message)),
{
    let at = ctx.conversation@;
    let before = conversation_at(store, at)->Some_0;
    let after = send_direct_message_effect(store, ctx, message);
    assert(store.contains_key(at));
    assert(sound_at(store, at));
    lemma_total_bytes_push(before.messages, message);
    lemma_replace(store, at, after[at]);
}

/// Creating a group keeps a consistent store consistent: the new group has
/// its creator as admin from the start.
pub proof fn lemma_create_group_keeps_consistency(
    store: StoreView,
    ctx: CreateGroup,
    nonce: u16,
    name: Seq<char>,
    data: Seq<char>,
)
    requires
        consistent(store),
        create_group_failure(store, ctx, nonce, name, data) is None,
    ensures
        consistent(create_group_effect(store, ctx, nonce, name, data)),
{
    let (group, group_bump) = group_address_spec(ctx.signer.key@, nonce)->Ok_0;
    let (row, row_bump) = group_contact_address_spec(group, ctx.contact@)->Ok_0;
    let after = create_group_effect(store, ctx, nonce, name, data);
    let with_group = store.insert(group, after[group]);
    assert(after == with_group.insert(row, after[row]));
    lemma_insert_group(store, group, after[group], row, after[row]);
}

/// Editing a group keeps a consistent store consistent.
pub proof fn lemma_edit_group_keeps_consistency(
    store: StoreView,
    ctx: EditGroup,
    name: Seq<char>,
    data: Seq<char>,
)
    requires
        consistent(store),
        edit_group_failure(store, ctx, name, data) is None,
    ensures
        consistent(edit_group_effect(store, ctx, name, data)),
{
    let at = ctx.group@;
    let after = edit_group_effect(store, ctx, name, data);
    assert(store.contains_key(at));
    assert(sound_at(store, at));
    lemma_replace(store, at, after[at]);
}

/// Inviting a contact keeps a consistent store consistent.
pub proof fn lemma_create_group_contact_keeps_consistency(store: StoreView, ctx: CreateGroupContact)
    requires
        consistent(store),
        create_group_contact_failure(store, ctx) is None,
    ensures
        consistent(create_group_contact_effect(store, ctx)),
{
    let (at, bump) = group_contact_address_spec(ctx.group@, ctx.contact@)->Ok_0;
    let after = create_group_contact_effect(store, ctx);
    lemma_insert_fresh(store, at, after[at]);
}

/// Changing a role keeps a consistent store consistent. A group never loses
/// its last admin: an admin can change only the rows of others, so the
/// admin who acts remains.
pub proof fn lemma_set_group_contact_role_keeps_consistency(
    store: StoreView,
    ctx: SetGroupContactRole,
    role: u8,
)
    requires
        consistent(store),
        set_group_contact_role_failure(store, ctx, role) is None,
    ensures
        consistent(set_group_contact_role_effect(store, ctx, role)),
{
    let at = ctx.group_contact@;
    let own = ctx.signer_group_contact@;
    let after = set_group_contact_role_effect(store, ctx, role);
    assert(store.contains_key(at));
    assert(sound_at(store, at));
    assert forall|group: Seq<u8>|
        is_admin_row(store, at, group) && !is_admin_row(after, at, group) implies exists|
        row: Seq<u8>,
    | #[trigger] is_admin_row(after, row, group) by {
        assert(is_admin_row(after, own, group));
    }
    lemma_replace(store, at, after[at]);
}

/// Changing a preference keeps a consistent store consistent.
pub proof fn lemma_set_group_contact_preference_keeps_consistency(
    store: StoreView,
    ctx: SetGroupContactPreference,
    preference: u8,
)
    requires
        consistent(store),
        set_group_contact_preference_failure(store, ctx, preference) is None,
    ensures
        consistent(set_group_contact_preference_effect(store, ctx, preference)),
{
    let at = ctx.signer_group_contact@;
    let after = set_group_contact_preference_effect(store, ctx, preference);
    assert(store.contains_key(at));
    assert(sound_at(store, at));
    lemma_replace(store, at, after[at]);
}

/// A contact that was created is read back as it was given: reading at the
/// address derived from its creator finds the same name, data and receiver.
pub proof fn lemma_created_contact_reads_back(
    store: StoreView,
    ctx: CreateContact,
    name: Seq<char>,
    data: Seq<char>,
    receiver: Option<Seq<u8>>,
)
    requires
        create_contact_failure(store, ctx, name, data) is None,
    ensures
        byte_len(name) <= NAME_MAX,
        contact_address_spec(ctx.creator.key@) is Ok,
        contact_at(
            create_contact_effect(store, ctx, name, data, receiver),
            contact_address_spec(ctx.creator.key@)->Ok_0.0,
        ) == Some(
            ContactView {
                bump: contact_address_spec(ctx.creator.key@)->Ok_0.1,
                creator: ctx.creator.key@,
                receiver,
                name,
                data,
            },
        ),
{
}

/// The store after a call of `send_direct_message`, whatever it answered.
pub open spec fn after_send(
    store: StoreView,
    ctx: SendDirectMessage,
    message: Seq<char>,
) -> StoreView {
    if send_direct_message_failure(store, ctx, message) is None {
        send_direct_message_effect(store, ctx, message)
    } else {
        store
    }
}

/// The store after a series of calls of `send_direct_message`, in order.
pub open spec fn after_sends(
    store: StoreView,
    sends: Seq<(SendDirectMessage, Seq<char>)>,
) -> StoreView
    decreases sends.len(),
{
    if sends.len() == 0 {
        store
    } else {
        after_send(after_sends(store, sends.drop_last()), sends.last().0, sends.last().1)
    }
}

/// The messages that a series of calls of `send_direct_message` appended to
/// the conversation at `conversation`: those of the calls that named it and
/// succeeded, in order.
pub open spec fn appended(
    store: StoreView,
    conversation: Seq<u8>,
    sends: Seq<(SendDirectMessage, Seq<char>)>,
) -> Seq<Seq<char>>
    decreases sends.len(),
{
    if sends.len() == 0 {
        Seq::empty()
    } else {
        let earlier = appended(store, conversation, sends.drop_last());
        let (ctx, message) = sends.last();
        if ctx.conversation@ == conversation && send_direct_message_failure(
            after_sends(store, sends.drop_last()),
            ctx,
            message,
        ) is None {
            earlier.push(message)
        } else {
            earlier
        }
    }
}

/// After any series of sends a conversation holds the messages it held,
/// followed by those that were appended to it, and nothing else of it has
/// changed. So it holds one message for the one that opened it and one for
/// each append, and its byte counter, which the model defines as
/// `total_bytes` of the messages, has grown by exactly the appended bytes.
pub proof fn lemma_log_after_sends(
    store: StoreView,
    conversation: Seq<u8>,
    sends: Seq<(SendDirectMessage, Seq<char>)>,
)
    requires
        conversation_at(store, conversation) is Some,
    ensures
        conversation_at(after_sends(store, sends), conversation) == Some(
            ConversationView {
                messages: conversation_at(store, conversation)->Some_0.messages + appended(
                    store,
                    conversation,
                    sends,
                ),
                ..conversation_at(store, conversation)->Some_0
            },
        ),
        conversation_at(after_sends(store, sends), conversation)->Some_0.messages.len()
            == conversation_at(store, conversation)->Some_0.messages.len() + appended(
            store,
            conversation,
            sends,
        ).len(),
        total_bytes(conversation_at(after_sends(store, sends), conversation)->Some_0.messages)
            == total_bytes(conversation_at(store, conversation)->Some_0.messages) + total_bytes(
            appended(store, conversation, sends),
        ),
    decreases sends.len(),
{
    let held = conversation_at(store, conversation)->Some_0;
    if sends.len() == 0 {
        assert(held.messages + Seq::<Seq<char>>::empty() =~= held.messages);
    } else {
        let earlier = sends.drop_last();
        let (ctx, message) = sends.last();
        lemma_log_after_sends(store, conversation, earlier);
        let before = after_sends(store, earlier);
        let grown = appended(store, conversation, earlier);
        if ctx.conversation@ == conversation && send_direct_message_failure(before, ctx, message)
            is None {
            assert((held.messages + grown).push(message) =~= held.messages + grown.push(message));
            lemma_total_bytes_push(held.messages + grown, message);
            lemma_total_bytes_push(grown, message);
        }
    }
}

/// A conversation that was opened holds its first message and no other.
pub proof fn lemma_started_conversation_holds_first(
    store: StoreView,
    ctx: StartDirectConversation,
    message: Seq<char>,
)
    requires
        start_direct_conversation_failure(store, ctx, message) is None,
    ensures
        conversation_address_spec(ctx.contact1@, ctx.contact2@) is Ok,
        conversation_at(
            start_direct_conversation_effect(store, ctx, message),
            conversation_address_spec(ctx.contact1@, ctx.contact2@)->Ok_0.0,
        ) matches Some(conversation) && conversation.messages == seq![message],
{
}

/// A conversation holds the message that opened it and, after it, the
/// messages that were appended to it: one message more than there were
/// appends, in bytes the sum of all of them.
pub proof fn lemma_conversation_log(
    store: StoreView,
    ctx: StartDirectConversation,
    first: Seq<char>,
    sends: Seq<(SendDirectMessage, Seq<char>)>,
)
    requires
        start_direct_conversation_failure(store, ctx, first) is None,
    ensures
        ({
            let opened = start_direct_conversation_effect(store, ctx, first);
            let at = conversation_address_spec(ctx.contact1@, ctx.contact2@)->Ok_0.0;
            let log = appended(opened, at, sends);
            &&& conversation_at(after_sends(opened, sends), at) matches Some(conversation)
            &&& conversation.messages == seq![first] + log
            &&& conversation.messages.len() == log.len() + 1
            &&& total_bytes(conversation.messages) == byte_len(first) + total_bytes(log)
        }),
{
    let opened = start_direct_conversation_effect(store, ctx, first);
    let at = conversation_address_spec(ctx.contact1@, ctx.contact2@)->Ok_0.0;
    lemma_started_conversation_holds_first(store, ctx, first);
    lemma_log_after_sends(opened, at, sends);
    assert(Seq::<Seq<char>>::empty().push(first) =~= seq![first]);
    lemma_total_bytes_push(Seq::empty(), first);
}

/// In a consistent store an append is never refused as a shrink: the log
/// with one more message has a strictly larger footprint than the one
/// allocated.
pub proof fn lemma_append_is_growth(store: StoreView, ctx: SendDirectMessage, message: Seq<char>)
    requires
        consistent(store),
    ensures
        send_direct_message_failure(store, ctx, message) != Some(ErrorCode::ShrinkRejected),
        conversation_at(store, ctx.conversation@) matches Some(conversation) ==> {
            store[ctx.conversation@].allocated < appended_footprint(conversation, message)
        },
{
    if store.contains_key(ctx.conversation@) {
        assert(sound_at(store, ctx.conversation@));
    }
}

} // verus!
