//! The stored form of a record, as far as its length goes, and the guarantee
//! that size accounting gives against it.
//!
//! A record is stored as an 8-byte kind marker followed by its fields in
//! declaration order. An address takes 32 bytes, an optional address one
//! byte more when present and one byte alone when absent, an integer its
//! width, and every text or sequence a 4-byte length or count followed by
//! its content.

use crate::records::{
    byte_len, total_bytes, ContactView, ConversationView, GroupContactView, GroupView, RecordView,
};
use crate::size::{
    contact_footprint, conversation_footprint, group_contact_footprint, group_footprint,
    LENGTH_PREFIX_SIZE,
};
use vstd::prelude::*;

verus! {

/// Bytes of the given messages as they are stored: each its length prefix
/// and its bytes.
pub open spec fn framed_bytes(messages: Seq<Seq<char>>) -> nat
    decreases messages.len(),
{
    if messages.len() == 0 {
        0
    } else {
        framed_bytes(messages.drop_last()) + LENGTH_PREFIX_SIZE as nat + byte_len(messages.last())
    }
}

/// Length of a stored contact.
pub open spec fn contact_serialized_len(contact: ContactView) -> nat {
    8 + 1 + 32 + (if contact.receiver is Some {
        33nat
    } else {
        1nat
    }) + (4 + byte_len(contact.name)) + (4 + byte_len(contact.data))
}

/// Length of a stored conversation.
pub open spec fn conversation_serialized_len(conversation: ConversationView) -> nat {
    8 + 1 + 32 + 32 + 8 + 4 + framed_bytes(conversation.messages)
}

/// Length of a stored group.
pub open spec fn group_serialized_len(group: GroupView) -> nat {
    8 + 1 + 2 + 32 + (4 + byte_len(group.name)) + (4 + byte_len(group.data))
}

/// Length of a stored membership row.
pub open spec fn group_contact_serialized_len(row: GroupContactView) -> nat {
    8 + 1 + 32 + 32 + 1 + 1
}

/// Length of a stored record.
pub open spec fn serialized_len(record: RecordView) -> nat {
    match record {
        RecordView::Contact(contact) => contact_serialized_len(contact),
        RecordView::DirectConversation(conversation) => conversation_serialized_len(conversation),
        RecordView::Group(group) => group_serialized_len(group),
        RecordView::GroupContact(row) => group_contact_serialized_len(row),
    }
}

/// The footprint that size accounting computes for a record's content.
pub open spec fn footprint_of(record: RecordView) -> nat {
    match record {
        RecordView::Contact(contact) => contact_footprint(byte_len(contact.data)),
        RecordView::DirectConversation(conversation) => conversation_footprint(
            conversation.messages.len(),
            total_bytes(conversation.messages),
        ),
        RecordView::Group(group) => group_footprint(byte_len(group.data)),
        RecordView::GroupContact(_) => group_contact_footprint(),
    }
}

/// Most bytes by which a footprint may exceed the stored length: the unused
/// part of a name's slot and an absent receiver.
pub const FOOTPRINT_SLACK: u64 = 100 + 32;

/// The stored messages take their bytes and one length prefix each.
pub proof fn lemma_framed_bytes(messages: Seq<Seq<char>>)
    ensures
        framed_bytes(messages) == LENGTH_PREFIX_SIZE * messages.len() + total_bytes(messages),
    decreases messages.len(),
{
    if messages.len() > 0 {
        lemma_framed_bytes(messages.drop_last());
    }
}

/// Size accounting never under-provisions: the footprint of a record that
/// respects the limits of its kind covers its stored length, and exceeds it
/// by no more than `FOOTPRINT_SLACK`. For a conversation and for a
/// membership row the two are equal.
pub proof fn lemma_footprint_covers(record: RecordView)
    requires
        record.valid(),
    ensures
        serialized_len(record) <= footprint_of(record) <= serialized_len(record) + FOOTPRINT_SLACK,
        record is DirectConversation || record is GroupContact ==> footprint_of(record)
            == serialized_len(record),
{
    match record {
        RecordView::DirectConversation(conversation) => {
            lemma_framed_bytes(conversation.messages);
        },
        _ => {},
    }
}

/// Before an append the footprint asked for is the fixed part, the stored
/// messages each with its prefix, and the new message with its prefix.
pub proof fn lemma_append_footprint(messages: Seq<Seq<char>>, message: Seq<char>)
    ensures
        conversation_footprint(messages.len() + 1, total_bytes(messages) + byte_len(message))
            == (8 + 1 + 32 + 32 + 8 + 4) + framed_bytes(messages) + (LENGTH_PREFIX_SIZE + byte_len(
            message,
        )),
{
    lemma_framed_bytes(messages);
}

} // verus!
