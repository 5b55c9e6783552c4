use solchat::address::Address;
use solchat::error::{ErrorCategory, ErrorCode};
use solchat::records::{
    Contact, DirectConversation, Group, GroupContact, Record, RecordKind, PREFERENCE_IGNORE,
    PREFERENCE_SUBSCRIBE, ROLE_ADMIN, ROLE_NONE, ROLE_READ, ROLE_WRITE,
};

fn party(tag: u8) -> Address {
    Address::new([tag; 32])
}

#[test]
fn role_and_preference_values_are_fixed() {
    assert_eq!(ROLE_NONE, 0);
    assert_eq!(ROLE_READ, 1);
    assert_eq!(ROLE_WRITE, 2);
    assert_eq!(ROLE_ADMIN, 4);
    assert_eq!(PREFERENCE_IGNORE, 0);
    assert_eq!(PREFERENCE_SUBSCRIBE, 1);
}

#[test]
fn contact_keeps_what_it_is_given() {
    let contact =
        Contact::new(254, party(1), Some(party(2)), "Alice".to_string(), "{}".to_string()).unwrap();
    assert_eq!(contact.bump(), 254);
    assert_eq!(contact.creator(), party(1));
    assert_eq!(contact.receiver(), Some(party(2)));
    assert_eq!(contact.name(), "Alice");
    assert_eq!(contact.data(), "{}");
}

#[test]
fn contact_name_of_100_bytes_is_accepted() {
    let name = "n".repeat(100);
    let contact = Contact::new(1, party(1), None, name.clone(), String::new()).unwrap();
    assert_eq!(contact.name(), &name);
}

#[test]
fn contact_name_of_101_bytes_is_rejected() {
    let r = Contact::new(1, party(1), None, "n".repeat(101), String::new());
    assert_eq!(r, Err(ErrorCode::NameTooLong));
}

#[test]
fn name_limit_counts_bytes_not_characters() {
    // 34 characters of 3 bytes each: 102 bytes
    let r = Contact::new(1, party(1), None, "\u{20ac}".repeat(34), String::new());
    assert_eq!(r, Err(ErrorCode::NameTooLong));
    // 33 of them: 99 bytes
    assert!(Contact::new(1, party(1), None, "\u{20ac}".repeat(33), String::new()).is_ok());
}

#[test]
fn contact_update_replaces_receiver_name_and_data() {
    let mut contact =
        Contact::new(9, party(1), None, "Alice".to_string(), "{}".to_string()).unwrap();
    assert_eq!(contact.update(Some(party(3)), "Al".to_string(), "{\"x\":1}".to_string()), Ok(()));
    assert_eq!(contact.bump(), 9);
    assert_eq!(contact.creator(), party(1));
    assert_eq!(contact.receiver(), Some(party(3)));
    assert_eq!(contact.name(), "Al");
    assert_eq!(contact.data(), "{\"x\":1}");
}

#[test]
fn rejected_contact_update_changes_nothing() {
    let mut contact =
        Contact::new(9, party(1), None, "Alice".to_string(), "{}".to_string()).unwrap();
    let before = contact.clone();
    assert_eq!(
        contact.update(Some(party(3)), "n".repeat(101), "other".to_string()),
        Err(ErrorCode::NameTooLong)
    );
    assert_eq!(contact, before);
}

#[test]
fn group_keeps_what_it_is_given() {
    let group = Group::new(3, 7, party(1), "Chess".to_string(), "club".to_string()).unwrap();
    assert_eq!(group.bump(), 3);
    assert_eq!(group.nonce(), 7);
    assert_eq!(group.creator(), party(1));
    assert_eq!(group.name(), "Chess");
    assert_eq!(group.data(), "club");
}

#[test]
fn group_name_limit_is_100_bytes() {
    assert!(Group::new(3, 7, party(1), "g".repeat(100), String::new()).is_ok());
    assert_eq!(
        Group::new(3, 7, party(1), "g".repeat(101), String::new()),
        Err(ErrorCode::NameTooLong)
    );
}

#[test]
fn group_edit_replaces_name_and_data() {
    let mut group = Group::new(3, 7, party(1), "Chess".to_string(), "club".to_string()).unwrap();
    assert_eq!(group.edit("Go".to_string(), "circle".to_string()), Ok(()));
    assert_eq!(group.name(), "Go");
    assert_eq!(group.data(), "circle");
    assert_eq!(group.nonce(), 7);
    assert_eq!(group.creator(), party(1));
    let before = group.clone();
    assert_eq!(group.edit("g".repeat(101), "x".to_string()), Err(ErrorCode::NameTooLong));
    assert_eq!(group, before);
}

#[test]
fn conversation_starts_with_its_first_message() {
    let conversation =
        DirectConversation::start(250, party(1), party(2), "hi".to_string()).unwrap();
    assert_eq!(conversation.bump(), 250);
    assert_eq!(conversation.participant_a(), party(1));
    assert_eq!(conversation.participant_b(), party(2));
    assert_eq!(conversation.messages(), &vec!["hi".to_string()]);
    assert_eq!(conversation.total_message_bytes(), 2);
}

#[test]
fn byte_counter_is_the_first_message_length_not_the_limit() {
    let conversation = DirectConversation::start(250, party(1), party(2), String::new()).unwrap();
    assert_eq!(conversation.total_message_bytes(), 0);
    assert_eq!(conversation.messages().len(), 1);
}

#[test]
fn appending_keeps_the_byte_counter_equal_to_the_sum() {
    let mut conversation =
        DirectConversation::start(250, party(1), party(2), "hi".to_string()).unwrap();
    let more = ["hello", "", "\u{20ac}uro", "a longer message, still short"];
    let mut appends = 0;
    for message in more {
        assert_eq!(conversation.append(message.to_string()), Ok(()));
        appends += 1;
        let sum: usize = conversation.messages().iter().map(|m| m.len()).sum();
        assert_eq!(conversation.total_message_bytes(), sum as u64);
        assert_eq!(conversation.messages().len(), appends + 1);
    }
    assert_eq!(conversation.total_message_bytes(), 2 + 5 + 0 + 6 + 29);
    assert_eq!(conversation.messages()[0], "hi");
    assert_eq!(conversation.messages()[4], "a longer message, still short");
}

#[test]
fn message_of_1024_bytes_is_accepted() {
    let mut conversation =
        DirectConversation::start(250, party(1), party(2), "m".repeat(1024)).unwrap();
    assert_eq!(conversation.append("m".repeat(1024)), Ok(()));
    assert_eq!(conversation.total_message_bytes(), 2048);
}

#[test]
fn message_of_1025_bytes_is_rejected() {
    assert_eq!(
        DirectConversation::start(250, party(1), party(2), "m".repeat(1025)),
        Err(ErrorCode::MessageTooLong)
    );
    let mut conversation =
        DirectConversation::start(250, party(1), party(2), "hi".to_string()).unwrap();
    assert_eq!(conversation.append("m".repeat(1025)), Err(ErrorCode::MessageTooLong));
    assert_eq!(conversation.messages(), &vec!["hi".to_string()]);
    assert_eq!(conversation.total_message_bytes(), 2);
}

#[test]
fn record_reports_its_kind() {
    let contact = Contact::new(1, party(1), None, String::new(), String::new()).unwrap();
    let group = Group::new(1, 0, party(1), String::new(), String::new()).unwrap();
    let conversation = DirectConversation::start(1, party(1), party(2), String::new()).unwrap();
    let row = GroupContact {
        bump: 1,
        group: party(5),
        contact: party(6),
        role: ROLE_NONE,
        preference: PREFERENCE_IGNORE,
    };
    assert_eq!(Record::Contact(contact).kind(), RecordKind::Contact);
    assert_eq!(Record::Group(group).kind(), RecordKind::Group);
    assert_eq!(Record::DirectConversation(conversation).kind(), RecordKind::DirectConversation);
    assert_eq!(Record::GroupContact(row).kind(), RecordKind::GroupContact);
}

#[test]
fn error_codes_fall_into_four_categories() {
    assert_eq!(ErrorCode::NameTooLong.category(), ErrorCategory::Validation);
    assert_eq!(ErrorCode::MessageTooLong.category(), ErrorCategory::Validation);
    assert_eq!(ErrorCode::NotAuthorized.category(), ErrorCategory::Authorization);
    assert_eq!(ErrorCode::AddressInUse.category(), ErrorCategory::Address);
    assert_eq!(ErrorCode::AddressSpaceExhausted.category(), ErrorCategory::Address);
    assert_eq!(ErrorCode::NotFound.category(), ErrorCategory::Address);
    assert_eq!(ErrorCode::InsufficientFunds.category(), ErrorCategory::Resource);
    assert_eq!(ErrorCode::ShrinkRejected.category(), ErrorCategory::Resource);
    assert_eq!(ErrorCode::AllocationFailed.category(), ErrorCategory::Resource);
}

#[test]
fn error_codes_have_their_messages() {
    assert_eq!(ErrorCode::NameTooLong.message(), "name is more than 100 characters");
    assert_eq!(ErrorCode::MessageTooLong.message(), "message is more than 1024 characters");
    assert_eq!(ErrorCode::NotAuthorized.message(), "Not Authorized");
    let all = [
        ErrorCode::NameTooLong,
        ErrorCode::MessageTooLong,
        ErrorCode::NotAuthorized,
        ErrorCode::AddressInUse,
        ErrorCode::AddressSpaceExhausted,
        ErrorCode::NotFound,
        ErrorCode::InsufficientFunds,
        ErrorCode::ShrinkRejected,
        ErrorCode::AllocationFailed,
    ];
    for (i, a) in all.iter().enumerate() {
        assert!(!a.message().is_empty());
        for b in all.iter().skip(i + 1) {
            assert_ne!(a.message(), b.message());
        }
    }
}
