//! The four record kinds and what may be written into them.

use crate::address::Address;
use crate::error::ErrorCode;
use crate::size::{MESSAGE_MAX, NAME_MAX};
use vstd::prelude::*;
use vstd::utf8::{encode_utf8, is_ascii_chars, is_ascii_chars_encode_utf8};

verus! {

/// Role of a member that holds no rights in the group.
pub const ROLE_NONE: u8 = 0;

/// Reserved role value; no rule refers to it.
pub const ROLE_READ: u8 = 1;

/// Reserved role value; no rule refers to it.
pub const ROLE_WRITE: u8 = 2;

/// Role of a member that may edit the group and alter other members' roles.
pub const ROLE_ADMIN: u8 = 4;

/// Preference of a member that does not follow the group.
pub const PREFERENCE_IGNORE: u8 = 0;

/// Preference of a member that follows the group.
pub const PREFERENCE_SUBSCRIBE: u8 = 1;

/// Number of bytes that a text occupies.
pub open spec fn byte_len(text: Seq<char>) -> nat {
    encode_utf8(text).len()
}

/// A text of `n` characters occupies between `n` and `4 * n` bytes, and
/// exactly `n` where all of them are ASCII.
pub proof fn lemma_byte_len_bounds(text: Seq<char>)
    ensures
        text.len() <= byte_len(text) <= 4 * text.len(),
        is_ascii_chars(text) ==> byte_len(text) == text.len(),
    decreases text.len(),
{
    if text.len() > 0 {
        lemma_byte_len_bounds(text.drop_first());
        if is_ascii_chars(text) {
            is_ascii_chars_encode_utf8(text);
        }
    }
}

/// The texts that a list of strings holds.
pub open spec fn texts(strings: Seq<String>) -> Seq<Seq<char>> {
    Seq::new(strings.len(), |i: int| strings[i]@)
}

/// Sum of the byte lengths of the given messages.
pub open spec fn total_bytes(messages: Seq<Seq<char>>) -> nat
    decreases messages.len(),
{
    if messages.len() == 0 {
        0
    } else {
        total_bytes(messages.drop_last()) + byte_len(messages.last())
    }
}

/// An optional address as plain bytes.
pub open spec fn optional_view(address: Option<Address>) -> Option<Seq<u8>> {
    match address {
        Some(a) => Some(a@),
        None => None,
    }
}

/// What a contact holds.
pub struct ContactView {
    pub bump: u8,
    pub creator: Seq<u8>,
    pub receiver: Option<Seq<u8>>,
    pub name: Seq<char>,
    pub data: Seq<char>,
}

/// What a conversation holds. Its byte counter is no field of its own: it is
/// `total_bytes` of the messages.
pub struct ConversationView {
    pub bump: u8,
    pub participant_a: Seq<u8>,
    pub participant_b: Seq<u8>,
    pub messages: Seq<Seq<char>>,
}

/// What a group holds.
pub struct GroupView {
    pub bump: u8,
    pub nonce: u16,
    pub creator: Seq<u8>,
    pub name: Seq<char>,
    pub data: Seq<char>,
}

/// What a membership row holds.
pub struct GroupContactView {
    pub bump: u8,
    pub group: Seq<u8>,
    pub contact: Seq<u8>,
    pub role: u8,
    pub preference: u8,
}

/// An identity record, one per creator. Its name never exceeds `NAME_MAX`
/// bytes.
#[derive(Debug, PartialEq, Eq)]
pub struct Contact {
    bump: u8,
    creator: Address,
    receiver: Option<Address>,
    name: String,
    data: String,
}

impl View for Contact {
    type V = ContactView;

    closed spec fn view(&self) -> ContactView {
        ContactView {
            bump: self.bump,
            creator: self.creator@,
            receiver: optional_view(self.receiver),
            name: self.name@,
            data: self.data@,
        }
    }
}

impl Clone for Contact {
    fn clone(&self) -> (copy: Contact)
        ensures
            copy@ == self@,
    {
        proof {
            use_type_invariant(self);
        }
        Contact {
            bump: self.bump,
            creator: self.creator,
            receiver: self.receiver,
            name: self.name.clone(),
            data: self.data.clone(),
        }
    }
}

impl Contact {
    #[verifier::type_invariant]
    spec fn name_fits(self) -> bool {
        byte_len(self.name@) <= NAME_MAX
    }

    /// A contact with the given fields, or `NameTooLong`.
    pub fn new(
        bump: u8,
        creator: Address,
        receiver: Option<Address>,
        name: String,
        data: String,
    ) -> (r: Result<Contact, ErrorCode>)
        ensures
            match r {
                Ok(contact) => byte_len(name@) <= NAME_MAX && contact@ == (ContactView {
                    bump,
                    creator: creator@,
                    receiver: optional_view(receiver),
                    name: name@,
                    data: data@,
                }),
                Err(e) => byte_len(name@) > NAME_MAX && e == ErrorCode::NameTooLong,
            },
    {
        if name.as_str().as_bytes().len() > NAME_MAX {
            return Err(ErrorCode::NameTooLong);
        }
        Ok(Contact { bump, creator, receiver, name, data })
    }

    /// Replaces receiver, name and data, or fails with `NameTooLong` and
    /// changes nothing. Disambiguator and creator stay.
    pub fn update(&mut self, receiver: Option<Address>, name: String, data: String) -> (r: Result<
        (),
        ErrorCode,
    >)
        ensures
            match r {
                Ok(()) => byte_len(name@) <= NAME_MAX && final(self)@ == (ContactView {
                    receiver: optional_view(receiver),
                    name: name@,
                    data: data@,
                    ..old(self)@
                }),
                Err(e) => byte_len(name@) > NAME_MAX && e == ErrorCode::NameTooLong && final(self)@
                    == old(self)@,
            },
    {
        if name.as_str().as_bytes().len() > NAME_MAX {
            return Err(ErrorCode::NameTooLong);
        }
        *self = Contact { bump: self.bump, creator: self.creator, receiver, name, data };
        Ok(())
    }

    /// The disambiguator that the address derivation found.
    pub fn bump(&self) -> (bump: u8)
        ensures
            bump == self@.bump,
    {
        self.bump
    }

    /// The party that created the record.
    pub fn creator(&self) -> (creator: Address)
        ensures
            creator@ == self@.creator,
    {
        self.creator
    }

    /// The intended counterpart, if one is named. It has no rights by this.
    pub fn receiver(&self) -> (receiver: Option<Address>)
        ensures
            optional_view(receiver) == self@.receiver,
    {
        self.receiver
    }

    /// The name; it holds at most `NAME_MAX` bytes.
    pub fn name(&self) -> (name: &String)
        ensures
            name@ == self@.name,
            byte_len(name@) <= NAME_MAX,
    {
        proof {
            use_type_invariant(self);
        }
        &self.name
    }

    /// The free-form data.
    pub fn data(&self) -> (data: &String)
        ensures
            data@ == self@.data,
    {
        &self.data
    }
}

/// A named group, one per creator and nonce. Its name never exceeds
/// `NAME_MAX` bytes.
#[derive(Debug, PartialEq, Eq)]
pub struct Group {
    bump: u8,
    nonce: u16,
    creator: Address,
    name: String,
    data: String,
}

impl View for Group {
    type V = GroupView;

    closed spec fn view(&self) -> GroupView {
        GroupView {
            bump: self.bump,
            nonce: self.nonce,
            creator: self.creator@,
            name: self.name@,
            data: self.data@,
        }
    }
}

impl Clone for Group {
    fn clone(&self) -> (copy: Group)
        ensures
            copy@ == self@,
    {
        proof {
            use_type_invariant(self);
        }
        Group {
            bump: self.bump,
            nonce: self.nonce,
            creator: self.creator,
            name: self.name.clone(),
            data: self.data.clone(),
        }
    }
}

impl Group {
    #[verifier::type_invariant]
    spec fn name_fits(self) -> bool {
        byte_len(self.name@) <= NAME_MAX
    }

    /// A group with the given fields, or `NameTooLong`.
    pub fn new(bump: u8, nonce: u16, creator: Address, name: String, data: String) -> (r: Result<
        Group,
        ErrorCode,
    >)
        ensures
            match r {
                Ok(group) => byte_len(name@) <= NAME_MAX && group@ == (GroupView {
                    bump,
                    nonce,
                    creator: creator@,
                    name: name@,
                    data: data@,
                }),
                Err(e) => byte_len(name@) > NAME_MAX && e == ErrorCode::NameTooLong,
            },
    {
        if name.as_str().as_bytes().len() > NAME_MAX {
            return Err(ErrorCode::NameTooLong);
        }
        Ok(Group { bump, nonce, creator, name, data })
    }

    /// Replaces name and data, or fails with `NameTooLong` and changes
    /// nothing. Disambiguator, nonce and creator stay.
    pub fn edit(&mut self, name: String, data: String) -> (r: Result<(), ErrorCode>)
        ensures
            match r {
                Ok(()) => byte_len(name@) <= NAME_MAX && final(self)@ == (GroupView {
                    name: name@,
                    data: data@,
                    ..old(self)@
                }),
                Err(e) => byte_len(name@) > NAME_MAX && e == ErrorCode::NameTooLong && final(self)@
                    == old(self)@,
            },
    {
        if name.as_str().as_bytes().len() > NAME_MAX {
            return Err(ErrorCode::NameTooLong);
        }
        *self = Group { bump: self.bump, nonce: self.nonce, creator: self.creator, name, data };
        Ok(())
    }

    /// The disambiguator that the address derivation found.
    pub fn bump(&self) -> (bump: u8)
        ensures
            bump == self@.bump,
    {
        self.bump
    }

    /// The number that tells the groups of one creator apart.
    pub fn nonce(&self) -> (nonce: u16)
        ensures
            nonce == self@.nonce,
    {
        self.nonce
    }

    /// The party that created the record.
    pub fn creator(&self) -> (creator: Address)
        ensures
            creator@ == self@.creator,
    {
        self.creator
    }

    /// The name; it holds at most `NAME_MAX` bytes.
    pub fn name(&self) -> (name: &String)
        ensures
            name@ == self@.name,
            byte_len(name@) <= NAME_MAX,
    {
        proof {
            use_type_invariant(self);
        }
        &self.name
    }

    /// The free-form data.
    pub fn data(&self) -> (data: &String)
        ensures
            data@ == self@.data,
    {
        &self.data
    }
}

/// One member's row in one group.
#[derive(Clone, Copy, Debug, PartialEq, Eq)]
pub struct GroupContact {
    pub bump: u8,
    pub group: Address,
    pub contact: Address,
    pub role: u8,
    pub preference: u8,
}

impl View for GroupContact {
    type V = GroupContactView;

    open spec fn view(&self) -> GroupContactView {
        GroupContactView {
            bump: self.bump,
            group: self.group@,
            contact: self.contact@,
            role: self.role,
            preference: self.preference,
        }
    }
}

/// An append-only log of messages between two contacts. Every message holds
/// at most `MESSAGE_MAX` bytes, the log is never empty, and its byte counter
/// always equals the sum of the byte lengths of its messages.
#[derive(Debug, PartialEq, Eq)]
pub struct DirectConversation {
    bump: u8,
    participant_a: Address,
    participant_b: Address,
    total_message_bytes: u64,
    messages: Vec<String>,
}

impl View for DirectConversation {
    type V = ConversationView;

    closed spec fn view(&self) -> ConversationView {
        ConversationView {
            bump: self.bump,
            participant_a: self.participant_a@,
            participant_b: self.participant_b@,
            messages: texts(self.messages@),
        }
    }
}

/// Whether every message holds at most `MESSAGE_MAX` bytes.
pub open spec fn messages_fit(messages: Seq<Seq<char>>) -> bool {
    forall|i: int| 0 <= i < messages.len() ==> byte_len(#[trigger] messages[i]) <= MESSAGE_MAX
}

/// `total_bytes` of a log with one more message.
pub proof fn lemma_total_bytes_push(messages: Seq<Seq<char>>, message: Seq<char>)
    ensures
        total_bytes(messages.push(message)) == total_bytes(messages) + byte_len(message),
{
    assert(messages.push(message).drop_last() =~= messages);
}

impl DirectConversation {
    #[verifier::type_invariant]
    spec fn counted(self) -> bool {
        &&& self.messages@.len() >= 1
        &&& messages_fit(texts(self.messages@))
        &&& self.total_message_bytes == total_bytes(texts(self.messages@))
    }

    /// A conversation between the two participants that holds `message` as
    /// its first message, or `MessageTooLong`.
    pub fn start(bump: u8, participant_a: Address, participant_b: Address, message: String) -> (r:
        Result<DirectConversation, ErrorCode>)
        ensures
            match r {
                Ok(conversation) => byte_len(message@) <= MESSAGE_MAX && conversation@ == (
                ConversationView {
                    bump,
                    participant_a: participant_a@,
                    participant_b: participant_b@,
                    messages: seq![message@],
                }),
                Err(e) => byte_len(message@) > MESSAGE_MAX && e == ErrorCode::MessageTooLong,
            },
    {
        let len: usize = message.as_str().as_bytes().len();
        if len > MESSAGE_MAX {
            return Err(ErrorCode::MessageTooLong);
        }
        let ghost text = message@;
        let mut messages: Vec<String> = Vec::new();
        messages.push(message);
        proof {
            assert(texts(messages@) =~= seq![text]);
            lemma_total_bytes_push(Seq::empty(), text);
            assert(Seq::<Seq<char>>::empty().push(text) =~= seq![text]);
        }
        Ok(
            DirectConversation {
                bump,
                participant_a,
                participant_b,
                total_message_bytes: len as u64,
                messages,
            },
        )
    }

    /// Appends `message` to the log. Fails with `MessageTooLong` where the
    /// message holds more than `MESSAGE_MAX` bytes, else with
    /// `AllocationFailed` where the byte counter would leave 64 bits; a
    /// failure changes nothing.
    pub fn append(&mut self, message: String) -> (r: Result<(), ErrorCode>)
        ensures
            r == append_result(old(self)@.messages, message@),
            final(self)@ == (if r is Ok {
                ConversationView { messages: old(self)@.messages.push(message@), ..old(self)@ }
            } else {
                old(self)@
            }),
    {
        proof {
            use_type_invariant(&*self);
        }
        let len: usize = message.as_str().as_bytes().len();
        if len > MESSAGE_MAX {
            return Err(ErrorCode::MessageTooLong);
        }
        let added: u64 = len as u64;
        if added > u64::MAX - self.total_message_bytes {
            return Err(ErrorCode::AllocationFailed);
        }
        let ghost before = texts(self.messages@);
        let ghost text = message@;
        let mut taken: Vec<String> = Vec::new();
        taken.push(String::new());
        proof {
            let nothing = Seq::<char>::empty();
            assert(texts(taken@) =~= seq![nothing]);
            assert(Seq::<Seq<char>>::empty().push(nothing) =~= seq![nothing]);
            lemma_total_bytes_push(Seq::empty(), nothing);
        }
        let mut parked = DirectConversation {
            bump: 0,
            participant_a: self.participant_a,
            participant_b: self.participant_b,
            total_message_bytes: 0,
            messages: taken,
        };
        std::mem::swap(self, &mut parked);
        let DirectConversation {
            bump,
            participant_a,
            participant_b,
            total_message_bytes,
            mut messages,
        } = parked;
        messages.push(message);
        proof {
            assert(texts(messages@) =~= before.push(text));
            lemma_total_bytes_push(before, text);
        }
        *self = DirectConversation {
            bump,
            participant_a,
            participant_b,
            total_message_bytes: total_message_bytes + added,
            messages,
        };
        Ok(())
    }

    /// The disambiguator that the address derivation found.
    pub fn bump(&self) -> (bump: u8)
        ensures
            bump == self@.bump,
    {
        self.bump
    }

    /// The first participant: the address of a contact.
    pub fn participant_a(&self) -> (participant: Address)
        ensures
            participant@ == self@.participant_a,
    {
        self.participant_a
    }

    /// The second participant: the address of a contact.
    pub fn participant_b(&self) -> (participant: Address)
        ensures
            participant@ == self@.participant_b,
    {
        self.participant_b
    }

    /// The byte counter: at every observation the sum of the byte lengths of
    /// the stored messages.
    pub fn total_message_bytes(&self) -> (total: u64)
        ensures
            total == total_bytes(self@.messages),
    {
        proof {
            use_type_invariant(self);
        }
        self.total_message_bytes
    }

    /// The messages, oldest first: at least one, each of at most
    /// `MESSAGE_MAX` bytes.
    pub fn messages(&self) -> (messages: &Vec<String>)
        ensures
            texts(messages@) == self@.messages,
            messages@.len() >= 1,
            messages_fit(self@.messages),
    {
        proof {
            use_type_invariant(self);
        }
        &self.messages
    }
}

/// What `append` answers for a log and a new message.
pub open spec fn append_result(
    messages: Seq<Seq<char>>,
    message: Seq<char>,
) -> Result<(), ErrorCode> {
    if byte_len(message) > MESSAGE_MAX {
        Err(ErrorCode::MessageTooLong)
    } else if total_bytes(messages) + byte_len(message) > u64::MAX {
        Err(ErrorCode::AllocationFailed)
    } else {
        Ok(())
    }
}

/// The kinds of record.
#[derive(Clone, Copy, Debug, PartialEq, Eq, Hash, Structural)]
pub enum RecordKind {
    Contact,
    DirectConversation,
    Group,
    GroupContact,
}

/// What a record of any kind holds.
pub enum RecordView {
    Contact(ContactView),
    DirectConversation(ConversationView),
    Group(GroupView),
    GroupContact(GroupContactView),
}

impl RecordView {
    /// The kind of the record.
    pub open spec fn kind(self) -> RecordKind {
        match self {
            RecordView::Contact(_) => RecordKind::Contact,
            RecordView::DirectConversation(_) => RecordKind::DirectConversation,
            RecordView::Group(_) => RecordKind::Group,
            RecordView::GroupContact(_) => RecordKind::GroupContact,
        }
    }

    /// Whether the content respects the limits of its kind: a name of at
    /// most `NAME_MAX` bytes; at least one message, each of at most
    /// `MESSAGE_MAX` bytes, with a sum that fits the 64-bit counter.
    pub open spec fn valid(self) -> bool {
        match self {
            RecordView::Contact(c) => byte_len(c.name) <= NAME_MAX,
            RecordView::DirectConversation(c) => {
                &&& c.messages.len() >= 1
                &&& messages_fit(c.messages)
                &&& total_bytes(c.messages) <= u64::MAX
            },
            RecordView::Group(g) => byte_len(g.name) <= NAME_MAX,
            RecordView::GroupContact(_) => true,
        }
    }
}

/// A record of any kind.
#[derive(Debug, PartialEq, Eq)]
pub enum Record {
    Contact(Contact),
    DirectConversation(DirectConversation),
    Group(Group),
    GroupContact(GroupContact),
}

impl View for Record {
    type V = RecordView;

    open spec fn view(&self) -> RecordView {
        match self {
            Record::Contact(c) => RecordView::Contact(c@),
            Record::DirectConversation(c) => RecordView::DirectConversation(c@),
            Record::Group(g) => RecordView::Group(g@),
            Record::GroupContact(m) => RecordView::GroupContact(m@),
        }
    }
}

impl Record {
    /// The kind of the record. Every record respects the limits of its kind.
    pub fn kind(&self) -> (kind: RecordKind)
        ensures
            kind == self@.kind(),
            self@.valid(),
    {
        match self {
            Record::Contact(c) => {
                let _ = c.name();
                RecordKind::Contact
            },
            Record::DirectConversation(c) => {
                let _ = c.messages();
                let _ = c.total_message_bytes();
                RecordKind::DirectConversation
            },
            Record::Group(g) => {
                let _ = g.name();
                RecordKind::Group
            },
            Record::GroupContact(_) => RecordKind::GroupContact,
        }
    }
}

} // verus!
