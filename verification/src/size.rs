//! Size accounting: the storage footprint of each record kind.
//!
//! A footprint is the 8-byte kind marker, the fixed fields, and for every
//! variable-length field a 4-byte length prefix and its bytes. A name is
//! bounded, so its whole slot is part of the fixed fields; free-form data and
//! message logs are charged by their current length.

use vstd::prelude::*;

verus! {

/// Longest contact or group name, in bytes.
pub const NAME_MAX: usize = 100;

/// Longest single message, in bytes.
pub const MESSAGE_MAX: usize = 1024;

/// Bytes of the marker that starts every stored record.
pub const DISCRIMINATOR_SIZE: u64 = 8;

/// Bytes of the count or length that precedes every variable-length field.
pub const LENGTH_PREFIX_SIZE: u64 = 4;

/// Fixed bytes of a contact: disambiguator, creator, optional receiver,
/// the name's prefix and slot, the data's prefix.
pub const CONTACT_SIZE: u64 = 1 + 32 + (1 + 32) + (4 + 100) + 4;

/// Fixed bytes of a conversation: disambiguator, two participants, the byte
/// counter, the message count.
pub const DIRECT_CONVERSATION_SIZE: u64 = 1 + 32 + 32 + 8 + 4;

/// Fixed bytes of a group: disambiguator, nonce, creator, the name's prefix
/// and slot, the data's prefix.
pub const GROUP_SIZE: u64 = 1 + 2 + 32 + (4 + 100) + 4;

/// Bytes of a membership row: disambiguator, group, contact, role, preference.
pub const GROUP_CONTACT_SIZE: u64 = 1 + 32 + 32 + 1 + 1;

/// Footprint of a contact whose data holds `data_len` bytes.
pub open spec fn contact_footprint(data_len: nat) -> nat {
    (DISCRIMINATOR_SIZE + CONTACT_SIZE + data_len) as nat
}

/// Footprint of a group whose data holds `data_len` bytes.
pub open spec fn group_footprint(data_len: nat) -> nat {
    (DISCRIMINATOR_SIZE + GROUP_SIZE + data_len) as nat
}

/// Footprint of a membership row.
pub open spec fn group_contact_footprint() -> nat {
    (DISCRIMINATOR_SIZE + GROUP_CONTACT_SIZE) as nat
}

/// Footprint of a conversation that holds `message_count` messages of
/// `message_bytes` bytes in all: each message is charged its length prefix
/// and its bytes.
pub open spec fn conversation_footprint(message_count: nat, message_bytes: nat) -> nat {
    (DISCRIMINATOR_SIZE + DIRECT_CONVERSATION_SIZE + LENGTH_PREFIX_SIZE * message_count
        + message_bytes) as nat
}

/// A footprint as the allocator takes it, where it fits.
pub open spec fn fitting(footprint: nat) -> Option<u64> {
    if footprint <= u64::MAX {
        Some(footprint as u64)
    } else {
        None
    }
}

/// Bytes to provide for a contact whose data holds `data_len` bytes, or
/// `None` where that number does not fit in 64 bits.
pub fn contact_size(data_len: usize) -> (size: Option<u64>)
    ensures
        size == fitting(contact_footprint(data_len as nat)),
{
    let fixed: u64 = DISCRIMINATOR_SIZE + CONTACT_SIZE;
    let len: u64 = data_len as u64;
    if len > u64::MAX - fixed {
        None
    } else {
        Some(fixed + len)
    }
}

/// Bytes to provide for a group whose data holds `data_len` bytes, or `None`
/// where that number does not fit in 64 bits.
pub fn group_size(data_len: usize) -> (size: Option<u64>)
    ensures
        size == fitting(group_footprint(data_len as nat)),
{
    let fixed: u64 = DISCRIMINATOR_SIZE + GROUP_SIZE;
    let len: u64 = data_len as u64;
    if len > u64::MAX - fixed {
        None
    } else {
        Some(fixed + len)
    }
}

/// Bytes to provide for a membership row.
pub fn group_contact_size() -> (size: u64)
    ensures
        size == group_contact_footprint(),
{
    DISCRIMINATOR_SIZE + GROUP_CONTACT_SIZE
}

/// Bytes to provide for a conversation before a message of `new_message_len`
/// bytes joins the `message_count` messages of `total_message_bytes` bytes it
/// holds: the footprint of the log with the new message in it. `None` where
/// that number does not fit in 64 bits.
pub fn conversation_size(
    message_count: usize,
    total_message_bytes: u64,
    new_message_len: usize,
) -> (size: Option<u64>)
    ensures
        size == fitting(
            conversation_footprint(
                (message_count + 1) as nat,
                (total_message_bytes + new_message_len) as nat,
            ),
        ),
{
    let fixed: u64 = DISCRIMINATOR_SIZE + DIRECT_CONVERSATION_SIZE + LENGTH_PREFIX_SIZE;
    let count: u64 = message_count as u64;
    let added: u64 = new_message_len as u64;
    if count > (u64::MAX - fixed) / LENGTH_PREFIX_SIZE {
        return None;
    }
    let framed: u64 = fixed + LENGTH_PREFIX_SIZE * count;
    if total_message_bytes > u64::MAX - framed {
        return None;
    }
    let held: u64 = framed + total_message_bytes;
    if added > u64::MAX - held {
        return None;
    }
    Some(held + added)
}

/// Size accounting never shrinks as content grows: a contact's or a group's
/// footprint is monotonic in the length of its data, and a conversation's in
/// the number and the bytes of its messages.
pub proof fn lemma_footprints_monotonic(
    data_len: nat,
    longer_data_len: nat,
    message_count: nat,
    message_bytes: nat,
    more_messages: nat,
    more_bytes: nat,
)
    requires
        data_len <= longer_data_len,
        message_count <= more_messages,
        message_bytes <= more_bytes,
    ensures
        contact_footprint(data_len) <= contact_footprint(longer_data_len),
        group_footprint(data_len) <= group_footprint(longer_data_len),
        conversation_footprint(message_count, message_bytes) <= conversation_footprint(
            more_messages,
            more_bytes,
        ),
{
}

/// Appending a message makes a conversation's footprint strictly larger, by
/// the message's bytes and its length prefix.
pub proof fn lemma_append_grows(message_count: nat, message_bytes: nat, new_message_len: nat)
    ensures
        conversation_footprint(message_count + 1, message_bytes + new_message_len)
            == conversation_footprint(message_count, message_bytes) + LENGTH_PREFIX_SIZE
            + new_message_len,
{
}

} // verus!
