use solchat::address::{
    contact_address, conversation_address, group_address, group_contact_address, Address,
};
use solchat::capability::{Allocation, Signer};
use solchat::error::ErrorCode;
use solchat::operations::{
    create_contact, create_group, create_group_contact, edit_group, holds_admin_row,
    send_direct_message, set_group_contact_preference, set_group_contact_role,
    start_direct_conversation, update_contact, CreateContact, CreateGroup, CreateGroupContact,
    EditGroup, SendDirectMessage, SetGroupContactPreference, SetGroupContactRole,
    StartDirectConversation, UpdateContact,
};
use solchat::records::{
    Contact, GroupContact, Record, PREFERENCE_IGNORE, PREFERENCE_SUBSCRIBE, ROLE_ADMIN, ROLE_NONE,
};
use solchat::store::RecordStore;

fn party(tag: u8) -> Address {
    Address::new([tag; 32])
}

fn signer(tag: u8) -> Signer {
    Signer::new(party(tag), Allocation::Granted)
}

fn broke(tag: u8) -> Signer {
    Signer::new(party(tag), Allocation::InsufficientFunds)
}

/// Creates the contact of `tag` and returns its address.
fn join(store: &mut RecordStore, tag: u8, name: &str) -> Address {
    let ctx = CreateContact { creator: signer(tag) };
    assert_eq!(create_contact(store, &ctx, name.to_string(), "{}".to_string(), None), Ok(()));
    contact_address(&party(tag)).unwrap().0
}

/// Creates the group of `tag` with `nonce`; returns the group's address and
/// the address of the creator's membership row.
fn found(store: &mut RecordStore, tag: u8, nonce: u16, name: &str) -> (Address, Address) {
    let contact = contact_address(&party(tag)).unwrap().0;
    let ctx = CreateGroup { signer: signer(tag), contact };
    assert_eq!(create_group(store, &ctx, nonce, name.to_string(), "about".to_string()), Ok(()));
    let group = group_address(&party(tag), nonce).unwrap().0;
    let row = group_contact_address(&group, &contact).unwrap().0;
    (group, row)
}

#[test]
fn created_contact_is_read_back_as_given() {
    let mut store = RecordStore::new();
    let ctx = CreateContact { creator: signer(1) };
    let name = "Alice";
    let data = "{\"mood\":\"fine\"}";
    let r = create_contact(&mut store, &ctx, name.to_string(), data.to_string(), Some(party(2)));
    assert_eq!(r, Ok(()));
    let (at, bump) = contact_address(&party(1)).unwrap();
    let read = store.read_contact(&at).unwrap();
    assert_eq!(read.name(), name);
    assert_eq!(read.data(), data);
    assert_eq!(read.receiver(), Some(party(2)));
    assert_eq!(read.creator(), party(1));
    assert_eq!(read.bump(), bump);
    assert_eq!(store.allocated(&at), Ok(182 + data.len() as u64));
}

#[test]
fn contact_with_name_of_100_bytes_is_created() {
    let mut store = RecordStore::new();
    let ctx = CreateContact { creator: signer(1) };
    assert_eq!(create_contact(&mut store, &ctx, "n".repeat(100), String::new(), None), Ok(()));
    let at = contact_address(&party(1)).unwrap().0;
    assert_eq!(store.read_contact(&at).unwrap().name().len(), 100);
    assert_eq!(store.allocated(&at), Ok(182));
}

#[test]
fn contact_with_too_long_name_is_never_created() {
    let at = contact_address(&party(1)).unwrap().0;
    for funding in [Allocation::Granted, Allocation::InsufficientFunds, Allocation::AllocationFailed] {
        let mut store = RecordStore::new();
        let ctx = CreateContact { creator: Signer::new(party(1), funding) };
        assert_eq!(
            create_contact(&mut store, &ctx, "n".repeat(101), "{}".to_string(), None),
            Err(ErrorCode::NameTooLong)
        );
        assert!(!store.contains(&at));
    }
    // also where the creator already has a contact
    let mut store = RecordStore::new();
    join(&mut store, 1, "Alice");
    let ctx = CreateContact { creator: signer(1) };
    assert_eq!(
        create_contact(&mut store, &ctx, "n".repeat(101), "{}".to_string(), None),
        Err(ErrorCode::NameTooLong)
    );
    assert_eq!(store.read_contact(&at).unwrap().name(), "Alice");
}

#[test]
fn one_contact_per_creator() {
    let mut store = RecordStore::new();
    let at = join(&mut store, 1, "Alice");
    let ctx = CreateContact { creator: signer(1) };
    assert_eq!(
        create_contact(&mut store, &ctx, "Alice 2".to_string(), "{}".to_string(), None),
        Err(ErrorCode::AddressInUse)
    );
    assert_eq!(store.read_contact(&at).unwrap().name(), "Alice");
    let other = join(&mut store, 2, "Bob");
    assert_ne!(at, other);
}

#[test]
fn create_contact_passes_on_the_allocators_refusal() {
    let at = contact_address(&party(1)).unwrap().0;
    let mut store = RecordStore::new();
    let ctx = CreateContact { creator: broke(1) };
    assert_eq!(
        create_contact(&mut store, &ctx, "Alice".to_string(), "{}".to_string(), None),
        Err(ErrorCode::InsufficientFunds)
    );
    assert!(!store.contains(&at));
    let ctx = CreateContact { creator: Signer::new(party(1), Allocation::AllocationFailed) };
    assert_eq!(
        create_contact(&mut store, &ctx, "Alice".to_string(), "{}".to_string(), None),
        Err(ErrorCode::AllocationFailed)
    );
    assert!(!store.contains(&at));
}

#[test]
fn creator_updates_own_contact() {
    let mut store = RecordStore::new();
    let at = join(&mut store, 1, "Alice");
    let ctx = UpdateContact { creator: signer(1), contact: at };
    let r = update_contact(&mut store, &ctx, "Al".to_string(), "{\"a\":1}".to_string(), Some(party(9)));
    assert_eq!(r, Ok(()));
    let read = store.read_contact(&at).unwrap();
    assert_eq!(read.name(), "Al");
    assert_eq!(read.data(), "{\"a\":1}");
    assert_eq!(read.receiver(), Some(party(9)));
    assert_eq!(read.creator(), party(1));
    assert_eq!(store.allocated(&at), Ok(182 + 7));
}

#[test]
fn only_the_creator_updates_a_contact() {
    let mut store = RecordStore::new();
    let at = join(&mut store, 1, "Alice");
    join(&mut store, 2, "Bob");
    let ctx = UpdateContact { creator: signer(2), contact: at };
    assert_eq!(
        update_contact(&mut store, &ctx, "Mallory".to_string(), "{}".to_string(), None),
        Err(ErrorCode::NotAuthorized)
    );
    // authorization comes before validation
    assert_eq!(
        update_contact(&mut store, &ctx, "n".repeat(101), "{}".to_string(), None),
        Err(ErrorCode::NotAuthorized)
    );
    assert_eq!(store.read_contact(&at).unwrap().name(), "Alice");
}

#[test]
fn update_of_a_missing_contact_finds_nothing() {
    let mut store = RecordStore::new();
    let ctx = UpdateContact { creator: signer(1), contact: party(77) };
    assert_eq!(
        update_contact(&mut store, &ctx, "Alice".to_string(), "{}".to_string(), None),
        Err(ErrorCode::NotFound)
    );
}

#[test]
fn update_with_too_long_name_changes_nothing() {
    let mut store = RecordStore::new();
    let at = join(&mut store, 1, "Alice");
    let ctx = UpdateContact { creator: signer(1), contact: at };
    assert_eq!(
        update_contact(&mut store, &ctx, "n".repeat(101), "{\"longer\":true}".to_string(), None),
        Err(ErrorCode::NameTooLong)
    );
    let read = store.read_contact(&at).unwrap();
    assert_eq!(read.name(), "Alice");
    assert_eq!(read.data(), "{}");
    assert_eq!(store.allocated(&at), Ok(184));
}

#[test]
fn contacts_only_grow() {
    let mut store = RecordStore::new();
    let at = join(&mut store, 1, "Alice");
    let ctx = UpdateContact { creator: signer(1), contact: at };
    // data of the same length: same footprint
    assert_eq!(update_contact(&mut store, &ctx, "Bob".to_string(), "[]".to_string(), None), Ok(()));
    // shorter data: a smaller footprint
    assert_eq!(
        update_contact(&mut store, &ctx, "Bob".to_string(), "".to_string(), None),
        Err(ErrorCode::ShrinkRejected)
    );
    assert_eq!(store.read_contact(&at).unwrap().data(), "[]");
    assert_eq!(store.allocated(&at), Ok(184));
}

#[test]
fn update_pays_only_for_growth() {
    let mut store = RecordStore::new();
    let at = join(&mut store, 1, "Alice");
    let ctx = UpdateContact { creator: broke(1), contact: at };
    assert_eq!(update_contact(&mut store, &ctx, "Al".to_string(), "[]".to_string(), None), Ok(()));
    assert_eq!(
        update_contact(&mut store, &ctx, "Al".to_string(), "[1]".to_string(), None),
        Err(ErrorCode::InsufficientFunds)
    );
    assert_eq!(store.read_contact(&at).unwrap().data(), "[]");
}

#[test]
fn direct_conversation_scenario() {
    let mut store = RecordStore::new();
    // C1 creates a contact
    let c1 = CreateContact { creator: signer(1) };
    assert_eq!(
        create_contact(&mut store, &c1, "Alice".to_string(), "{}".to_string(), None),
        Ok(())
    );
    let a1 = contact_address(&party(1)).unwrap().0;
    assert_eq!(store.read_contact(&a1).unwrap().receiver(), None);
    let a2 = join(&mut store, 2, "Bob");
    join(&mut store, 3, "Carol");

    // C1 opens the conversation with "hi"
    let start = StartDirectConversation { payer: signer(1), contact1: a1, contact2: a2 };
    assert_eq!(start_direct_conversation(&mut store, &start, "hi".to_string()), Ok(()));
    let (at, bump) = conversation_address(&a1, &a2).unwrap();
    {
        let read = store.read_conversation(&at).unwrap();
        assert_eq!(read.messages(), &vec!["hi".to_string()]);
        assert_eq!(read.total_message_bytes(), 2);
        assert_eq!(read.participant_a(), a1);
        assert_eq!(read.participant_b(), a2);
        assert_eq!(read.bump(), bump);
    }
    assert_eq!(store.allocated(&at), Ok(85 + 4 + 2));

    // C2 appends "hello"
    let send = SendDirectMessage { payer: signer(2), conversation: at };
    assert_eq!(send_direct_message(&mut store, &send, "hello".to_string()), Ok(()));
    {
        let read = store.read_conversation(&at).unwrap();
        assert_eq!(read.messages(), &vec!["hi".to_string(), "hello".to_string()]);
        assert_eq!(read.total_message_bytes(), 7);
    }
    assert_eq!(store.allocated(&at), Ok(85 + 4 + 2 + 4 + 5));

    // C3 is no participant
    let intruder = SendDirectMessage { payer: signer(3), conversation: at };
    assert_eq!(
        send_direct_message(&mut store, &intruder, "psst".to_string()),
        Err(ErrorCode::NotAuthorized)
    );
    let read = store.read_conversation(&at).unwrap();
    assert_eq!(read.messages(), &vec!["hi".to_string(), "hello".to_string()]);
    assert_eq!(read.total_message_bytes(), 7);
    assert_eq!(store.allocated(&at), Ok(100));
}

#[test]
fn byte_counter_follows_every_append() {
    let mut store = RecordStore::new();
    let a1 = join(&mut store, 1, "Alice");
    let a2 = join(&mut store, 2, "Bob");
    let start = StartDirectConversation { payer: signer(2), contact1: a1, contact2: a2 };
    assert_eq!(start_direct_conversation(&mut store, &start, "first".to_string()), Ok(()));
    let at = conversation_address(&a1, &a2).unwrap().0;
    let messages = ["a", "", "\u{20ac}", "four", &"m".repeat(1024), "tail"];
    let mut expected = vec!["first".to_string()];
    for (i, message) in messages.iter().enumerate() {
        let payer = if i % 2 == 0 { signer(1) } else { signer(2) };
        let send = SendDirectMessage { payer, conversation: at };
        assert_eq!(send_direct_message(&mut store, &send, message.to_string()), Ok(()));
        expected.push(message.to_string());
        let read = store.read_conversation(&at).unwrap();
        let sum: usize = read.messages().iter().map(|m| m.len()).sum();
        assert_eq!(read.total_message_bytes(), sum as u64);
        assert_eq!(read.messages().len(), i + 2);
        assert_eq!(read.messages(), &expected);
        assert_eq!(store.allocated(&at), Ok(85 + 4 * (i as u64 + 2) + sum as u64));
    }
    let read = store.read_conversation(&at).unwrap();
    assert_eq!(read.total_message_bytes(), 5 + 1 + 0 + 3 + 4 + 1024 + 4);
}

#[test]
fn rejected_append_is_not_counted() {
    let mut store = RecordStore::new();
    let a1 = join(&mut store, 1, "Alice");
    let a2 = join(&mut store, 2, "Bob");
    let start = StartDirectConversation { payer: signer(1), contact1: a1, contact2: a2 };
    start_direct_conversation(&mut store, &start, "hi".to_string()).unwrap();
    let at = conversation_address(&a1, &a2).unwrap().0;
    let send = SendDirectMessage { payer: signer(1), conversation: at };
    assert_eq!(
        send_direct_message(&mut store, &send, "m".repeat(1025)),
        Err(ErrorCode::MessageTooLong)
    );
    let unfunded = SendDirectMessage { payer: broke(1), conversation: at };
    assert_eq!(
        send_direct_message(&mut store, &unfunded, "hello".to_string()),
        Err(ErrorCode::InsufficientFunds)
    );
    let read = store.read_conversation(&at).unwrap();
    assert_eq!(read.messages(), &vec!["hi".to_string()]);
    assert_eq!(read.total_message_bytes(), 2);
    assert_eq!(store.allocated(&at), Ok(91));
    assert_eq!(send_direct_message(&mut store, &send, "m".repeat(1024)), Ok(()));
    assert_eq!(store.read_conversation(&at).unwrap().total_message_bytes(), 1026);
}

#[test]
fn only_a_named_contacts_creator_opens_a_conversation() {
    let mut store = RecordStore::new();
    let a1 = join(&mut store, 1, "Alice");
    let a2 = join(&mut store, 2, "Bob");
    join(&mut store, 3, "Carol");
    let at = conversation_address(&a1, &a2).unwrap().0;
    let start = StartDirectConversation { payer: signer(3), contact1: a1, contact2: a2 };
    assert_eq!(
        start_direct_conversation(&mut store, &start, "hi".to_string()),
        Err(ErrorCode::NotAuthorized)
    );
    assert!(!store.contains(&at));
    // the second contact's creator may open it as well
    let start = StartDirectConversation { payer: signer(2), contact1: a1, contact2: a2 };
    assert_eq!(start_direct_conversation(&mut store, &start, "hi".to_string()), Ok(()));
    assert!(store.contains(&at));
}

#[test]
fn conversation_needs_both_contacts() {
    let mut store = RecordStore::new();
    let a1 = join(&mut store, 1, "Alice");
    let missing = contact_address(&party(2)).unwrap().0;
    let start = StartDirectConversation { payer: signer(1), contact1: a1, contact2: missing };
    assert_eq!(
        start_direct_conversation(&mut store, &start, "hi".to_string()),
        Err(ErrorCode::NotFound)
    );
    let start = StartDirectConversation { payer: signer(1), contact1: missing, contact2: a1 };
    assert_eq!(
        start_direct_conversation(&mut store, &start, "hi".to_string()),
        Err(ErrorCode::NotFound)
    );
}

#[test]
fn conversation_is_opened_once_per_order() {
    let mut store = RecordStore::new();
    let a1 = join(&mut store, 1, "Alice");
    let a2 = join(&mut store, 2, "Bob");
    let start = StartDirectConversation { payer: signer(1), contact1: a1, contact2: a2 };
    assert_eq!(start_direct_conversation(&mut store, &start, "hi".to_string()), Ok(()));
    assert_eq!(
        start_direct_conversation(&mut store, &start, "again".to_string()),
        Err(ErrorCode::AddressInUse)
    );
    let at = conversation_address(&a1, &a2).unwrap().0;
    assert_eq!(store.read_conversation(&at).unwrap().messages(), &vec!["hi".to_string()]);
    // the other order is another conversation
    let reverse = StartDirectConversation { payer: signer(1), contact1: a2, contact2: a1 };
    assert_eq!(start_direct_conversation(&mut store, &reverse, "yo".to_string()), Ok(()));
    let other = conversation_address(&a2, &a1).unwrap().0;
    assert_ne!(at, other);
    assert_eq!(store.read_conversation(&other).unwrap().messages(), &vec!["yo".to_string()]);
}

#[test]
fn too_long_first_message_opens_nothing() {
    let mut store = RecordStore::new();
    let a1 = join(&mut store, 1, "Alice");
    let a2 = join(&mut store, 2, "Bob");
    let start = StartDirectConversation { payer: signer(1), contact1: a1, contact2: a2 };
    assert_eq!(
        start_direct_conversation(&mut store, &start, "m".repeat(1025)),
        Err(ErrorCode::MessageTooLong)
    );
    assert!(!store.contains(&conversation_address(&a1, &a2).unwrap().0));
    let unfunded = StartDirectConversation { payer: broke(1), contact1: a1, contact2: a2 };
    assert_eq!(
        start_direct_conversation(&mut store, &unfunded, "hi".to_string()),
        Err(ErrorCode::InsufficientFunds)
    );
    assert!(!store.contains(&conversation_address(&a1, &a2).unwrap().0));
}

#[test]
fn message_to_a_missing_conversation_finds_nothing() {
    let mut store = RecordStore::new();
    let a1 = join(&mut store, 1, "Alice");
    let send = SendDirectMessage { payer: signer(1), conversation: party(42) };
    assert_eq!(send_direct_message(&mut store, &send, "hi".to_string()), Err(ErrorCode::NotFound));
    // a contact is no conversation
    let send = SendDirectMessage { payer: signer(1), conversation: a1 };
    assert_eq!(send_direct_message(&mut store, &send, "hi".to_string()), Err(ErrorCode::NotFound));
}

#[test]
fn group_scenario() {
    let mut store = RecordStore::new();
    let a1 = join(&mut store, 1, "Alice");
    let a2 = join(&mut store, 2, "Bob");

    // C1 creates group G with nonce 1
    let create = CreateGroup { signer: signer(1), contact: a1 };
    assert_eq!(create_group(&mut store, &create, 1, "G".to_string(), "about".to_string()), Ok(()));
    let (g, g_bump) = group_address(&party(1), 1).unwrap();
    let (row1, row1_bump) = group_contact_address(&g, &a1).unwrap();
    {
        let group = store.read_group(&g).unwrap();
        assert_eq!(group.name(), "G");
        assert_eq!(group.data(), "about");
        assert_eq!(group.nonce(), 1);
        assert_eq!(group.creator(), party(1));
        assert_eq!(group.bump(), g_bump);
    }
    assert_eq!(store.allocated(&g), Ok(151 + 5));
    assert_eq!(
        *store.read_group_contact(&row1).unwrap(),
        GroupContact {
            bump: row1_bump,
            group: g,
            contact: a1,
            role: ROLE_ADMIN,
            preference: PREFERENCE_SUBSCRIBE
        }
    );
    assert_eq!(store.allocated(&row1), Ok(75));

    // C1 invites C2
    let invite =
        CreateGroupContact { signer: signer(1), group: g, signer_group_contact: row1, contact: a2 };
    assert_eq!(create_group_contact(&mut store, &invite), Ok(()));
    let (row2, row2_bump) = group_contact_address(&g, &a2).unwrap();
    assert_eq!(
        *store.read_group_contact(&row2).unwrap(),
        GroupContact {
            bump: row2_bump,
            group: g,
            contact: a2,
            role: ROLE_NONE,
            preference: PREFERENCE_IGNORE
        }
    );
    assert_eq!(store.allocated(&row2), Ok(75));

    // C2 is a member, but no admin
    let edit = EditGroup { signer: signer(2), group: g, signer_group_contact: row2 };
    assert_eq!(
        edit_group(&mut store, &edit, "Mine".to_string(), "taken over".to_string()),
        Err(ErrorCode::NotAuthorized)
    );
    assert_eq!(store.read_group(&g).unwrap().name(), "G");
    assert_eq!(store.read_group(&g).unwrap().data(), "about");

    // C1 makes C2 an admin
    let promote =
        SetGroupContactRole { signer: signer(1), signer_group_contact: row1, group_contact: row2 };
    assert_eq!(set_group_contact_role(&mut store, &promote, ROLE_ADMIN), Ok(()));
    assert_eq!(store.read_group_contact(&row2).unwrap().role, ROLE_ADMIN);
    assert_eq!(store.read_group_contact(&row2).unwrap().preference, PREFERENCE_IGNORE);

    // now C2 can edit
    assert_eq!(
        edit_group(&mut store, &edit, "G2".to_string(), "about us".to_string()),
        Ok(())
    );
    let group = store.read_group(&g).unwrap();
    assert_eq!(group.name(), "G2");
    assert_eq!(group.data(), "about us");
    assert_eq!(group.creator(), party(1));
    assert_eq!(store.allocated(&g), Ok(151 + 8));
}

#[test]
fn non_member_never_edits_a_group() {
    let mut store = RecordStore::new();
    join(&mut store, 1, "Alice");
    let a3 = join(&mut store, 3, "Carol");
    let (g, row1) = found(&mut store, 1, 1, "G");
    let no_row = group_contact_address(&g, &a3).unwrap().0;
    let attempts = [
        // the row a member would have
        EditGroup { signer: signer(3), group: g, signer_group_contact: no_row },
        // the admin's row, which is not the signer's
        EditGroup { signer: signer(3), group: g, signer_group_contact: row1 },
        // something that is no row at all
        EditGroup { signer: signer(3), group: g, signer_group_contact: a3 },
        EditGroup { signer: broke(3), group: g, signer_group_contact: row1 },
    ];
    for attempt in attempts {
        for name in ["Mine".to_string(), "n".repeat(101)] {
            assert_eq!(
                edit_group(&mut store, &attempt, name, "x".repeat(500)),
                Err(ErrorCode::NotAuthorized)
            );
            let group = store.read_group(&g).unwrap();
            assert_eq!(group.name(), "G");
            assert_eq!(group.data(), "about");
            assert_eq!(store.allocated(&g), Ok(156));
        }
    }
    // not even for a group that does not exist
    let nowhere = EditGroup { signer: signer(3), group: party(99), signer_group_contact: row1 };
    assert_eq!(
        edit_group(&mut store, &nowhere, "Mine".to_string(), String::new()),
        Err(ErrorCode::NotAuthorized)
    );
}

#[test]
fn admin_of_one_group_is_none_of_another() {
    let mut store = RecordStore::new();
    join(&mut store, 1, "Alice");
    join(&mut store, 2, "Bob");
    let (g1, row1) = found(&mut store, 1, 1, "One");
    let (g2, row2) = found(&mut store, 2, 1, "Two");
    assert!(holds_admin_row(&store, &party(1), &row1, &g1));
    assert!(holds_admin_row(&store, &party(2), &row2, &g2));
    assert!(!holds_admin_row(&store, &party(1), &row1, &g2));
    assert!(!holds_admin_row(&store, &party(1), &row2, &g2));
    assert!(!holds_admin_row(&store, &party(2), &row1, &g1));
    let edit = EditGroup { signer: signer(1), group: g2, signer_group_contact: row1 };
    assert_eq!(
        edit_group(&mut store, &edit, "Mine".to_string(), "about".to_string()),
        Err(ErrorCode::NotAuthorized)
    );
    assert_eq!(store.read_group(&g2).unwrap().name(), "Two");
}

#[test]
fn edit_group_checks_name_and_size_after_the_right() {
    let mut store = RecordStore::new();
    join(&mut store, 1, "Alice");
    let (g, row1) = found(&mut store, 1, 7, "G");
    let edit = EditGroup { signer: signer(1), group: g, signer_group_contact: row1 };
    assert_eq!(
        edit_group(&mut store, &edit, "n".repeat(101), "about".to_string()),
        Err(ErrorCode::NameTooLong)
    );
    assert_eq!(
        edit_group(&mut store, &edit, "G".to_string(), "abou".to_string()),
        Err(ErrorCode::ShrinkRejected)
    );
    let unfunded = EditGroup { signer: broke(1), group: g, signer_group_contact: row1 };
    assert_eq!(
        edit_group(&mut store, &unfunded, "G".to_string(), "about more".to_string()),
        Err(ErrorCode::InsufficientFunds)
    );
    assert_eq!(store.read_group(&g).unwrap().name(), "G");
    assert_eq!(store.read_group(&g).unwrap().data(), "about");
    assert_eq!(edit_group(&mut store, &edit, "n".repeat(100), "about".to_string()), Ok(()));
    assert_eq!(store.read_group(&g).unwrap().name().len(), 100);
}

#[test]
fn group_and_admin_row_are_created_together_or_not_at_all() {
    let mut store = RecordStore::new();
    let a1 = join(&mut store, 1, "Alice");
    let g = group_address(&party(1), 1).unwrap().0;
    let row = group_contact_address(&g, &a1).unwrap().0;

    let unfunded = CreateGroup { signer: broke(1), contact: a1 };
    assert_eq!(
        create_group(&mut store, &unfunded, 1, "G".to_string(), String::new()),
        Err(ErrorCode::InsufficientFunds)
    );
    assert!(!store.contains(&g));
    assert!(!store.contains(&row));

    // the row's address is taken: no group either
    let squatter = Record::GroupContact(GroupContact {
        bump: 0,
        group: party(0),
        contact: party(0),
        role: ROLE_NONE,
        preference: PREFERENCE_IGNORE,
    });
    store.create_record(row, squatter, &signer(9), 75).unwrap();
    let create = CreateGroup { signer: signer(1), contact: a1 };
    assert_eq!(
        create_group(&mut store, &create, 1, "G".to_string(), String::new()),
        Err(ErrorCode::AddressInUse)
    );
    assert!(!store.contains(&g));
    assert_eq!(store.read_group_contact(&row).unwrap().role, ROLE_NONE);

    // another nonce is another group
    assert_eq!(create_group(&mut store, &create, 2, "G".to_string(), String::new()), Ok(()));
    let g2 = group_address(&party(1), 2).unwrap().0;
    assert!(store.contains(&g2));
    assert!(store.contains(&group_contact_address(&g2, &a1).unwrap().0));
}

#[test]
fn group_is_created_once_per_nonce() {
    let mut store = RecordStore::new();
    let a1 = join(&mut store, 1, "Alice");
    let (g, _) = found(&mut store, 1, 1, "G");
    let create = CreateGroup { signer: signer(1), contact: a1 };
    assert_eq!(
        create_group(&mut store, &create, 1, "Again".to_string(), String::new()),
        Err(ErrorCode::AddressInUse)
    );
    assert_eq!(store.read_group(&g).unwrap().name(), "G");
}

#[test]
fn group_creation_needs_the_signers_own_contact() {
    let mut store = RecordStore::new();
    let a1 = join(&mut store, 1, "Alice");
    let missing = contact_address(&party(2)).unwrap().0;
    let create = CreateGroup { signer: signer(2), contact: missing };
    assert_eq!(
        create_group(&mut store, &create, 1, "G".to_string(), String::new()),
        Err(ErrorCode::NotFound)
    );
    let create = CreateGroup { signer: signer(2), contact: a1 };
    assert_eq!(
        create_group(&mut store, &create, 1, "G".to_string(), String::new()),
        Err(ErrorCode::NotAuthorized)
    );
    let create = CreateGroup { signer: signer(1), contact: a1 };
    assert_eq!(
        create_group(&mut store, &create, 1, "g".repeat(101), String::new()),
        Err(ErrorCode::NameTooLong)
    );
    assert!(!store.contains(&group_address(&party(1), 1).unwrap().0));
    assert!(!store.contains(&group_address(&party(2), 1).unwrap().0));
}

#[test]
fn only_an_admin_invites() {
    let mut store = RecordStore::new();
    join(&mut store, 1, "Alice");
    let a2 = join(&mut store, 2, "Bob");
    let a3 = join(&mut store, 3, "Carol");
    let (g, row1) = found(&mut store, 1, 1, "G");
    let invite =
        CreateGroupContact { signer: signer(1), group: g, signer_group_contact: row1, contact: a2 };
    assert_eq!(create_group_contact(&mut store, &invite), Ok(()));
    let row2 = group_contact_address(&g, &a2).unwrap().0;
    let row3 = group_contact_address(&g, &a3).unwrap().0;
    // a plain member cannot invite
    let by_member =
        CreateGroupContact { signer: signer(2), group: g, signer_group_contact: row2, contact: a3 };
    assert_eq!(create_group_contact(&mut store, &by_member), Err(ErrorCode::NotAuthorized));
    // nor can a stranger who points at the admin's row
    let by_stranger =
        CreateGroupContact { signer: signer(3), group: g, signer_group_contact: row1, contact: a3 };
    assert_eq!(create_group_contact(&mut store, &by_stranger), Err(ErrorCode::NotAuthorized));
    assert!(!store.contains(&row3));
    // inviting twice
    assert_eq!(create_group_contact(&mut store, &invite), Err(ErrorCode::AddressInUse));
    assert_eq!(store.read_group_contact(&row2).unwrap().role, ROLE_NONE);
}

#[test]
fn invitation_needs_group_contact_and_funds() {
    let mut store = RecordStore::new();
    join(&mut store, 1, "Alice");
    let a2 = join(&mut store, 2, "Bob");
    let (g, row1) = found(&mut store, 1, 1, "G");
    let nobody = contact_address(&party(8)).unwrap().0;
    let invite = CreateGroupContact {
        signer: signer(1),
        group: g,
        signer_group_contact: row1,
        contact: nobody,
    };
    assert_eq!(create_group_contact(&mut store, &invite), Err(ErrorCode::NotFound));
    // a group is no contact
    let invite =
        CreateGroupContact { signer: signer(1), group: g, signer_group_contact: row1, contact: g };
    assert_eq!(create_group_contact(&mut store, &invite), Err(ErrorCode::NotFound));
    let unfunded =
        CreateGroupContact { signer: broke(1), group: g, signer_group_contact: row1, contact: a2 };
    assert_eq!(create_group_contact(&mut store, &unfunded), Err(ErrorCode::InsufficientFunds));
    assert!(!store.contains(&group_contact_address(&g, &a2).unwrap().0));
}

#[test]
fn new_member_starts_without_role_or_subscription_whoever_invites() {
    let mut store = RecordStore::new();
    join(&mut store, 1, "Alice");
    let a2 = join(&mut store, 2, "Bob");
    let a3 = join(&mut store, 3, "Carol");
    let (g, row1) = found(&mut store, 1, 1, "G");
    let invite =
        CreateGroupContact { signer: signer(1), group: g, signer_group_contact: row1, contact: a2 };
    create_group_contact(&mut store, &invite).unwrap();
    let row2 = group_contact_address(&g, &a2).unwrap().0;
    let promote =
        SetGroupContactRole { signer: signer(1), signer_group_contact: row1, group_contact: row2 };
    set_group_contact_role(&mut store, &promote, ROLE_ADMIN).unwrap();
    // the second admin invites
    let invite =
        CreateGroupContact { signer: signer(2), group: g, signer_group_contact: row2, contact: a3 };
    assert_eq!(create_group_contact(&mut store, &invite), Ok(()));
    let row3 = *store.read_group_contact(&group_contact_address(&g, &a3).unwrap().0).unwrap();
    assert_eq!(row3.role, ROLE_NONE);
    assert_eq!(row3.preference, PREFERENCE_IGNORE);
    assert_eq!(row3.group, g);
    assert_eq!(row3.contact, a3);
}

#[test]
fn role_changes_are_for_admins_of_the_same_group_and_for_other_rows() {
    let mut store = RecordStore::new();
    join(&mut store, 1, "Alice");
    let a2 = join(&mut store, 2, "Bob");
    join(&mut store, 3, "Carol");
    let (g, row1) = found(&mut store, 1, 1, "G");
    let (_, other_row) = found(&mut store, 3, 1, "Other");
    let invite =
        CreateGroupContact { signer: signer(1), group: g, signer_group_contact: row1, contact: a2 };
    create_group_contact(&mut store, &invite).unwrap();
    let row2 = group_contact_address(&g, &a2).unwrap().0;

    // a member without the admin role
    let by_member =
        SetGroupContactRole { signer: signer(2), signer_group_contact: row2, group_contact: row1 };
    assert_eq!(
        set_group_contact_role(&mut store, &by_member, ROLE_NONE),
        Err(ErrorCode::NotAuthorized)
    );
    // self-promotion
    let own =
        SetGroupContactRole { signer: signer(2), signer_group_contact: row2, group_contact: row2 };
    assert_eq!(set_group_contact_role(&mut store, &own, ROLE_ADMIN), Err(ErrorCode::NotAuthorized));
    // an admin of another group
    let foreign = SetGroupContactRole {
        signer: signer(3),
        signer_group_contact: other_row,
        group_contact: row2,
    };
    assert_eq!(
        set_group_contact_role(&mut store, &foreign, ROLE_ADMIN),
        Err(ErrorCode::NotAuthorized)
    );
    // a stranger who points at the admin's row
    let forged =
        SetGroupContactRole { signer: signer(3), signer_group_contact: row1, group_contact: row2 };
    assert_eq!(
        set_group_contact_role(&mut store, &forged, ROLE_ADMIN),
        Err(ErrorCode::NotAuthorized)
    );
    // an admin on their own row
    let demote_self =
        SetGroupContactRole { signer: signer(1), signer_group_contact: row1, group_contact: row1 };
    assert_eq!(
        set_group_contact_role(&mut store, &demote_self, ROLE_NONE),
        Err(ErrorCode::NotAuthorized)
    );
    assert_eq!(store.read_group_contact(&row1).unwrap().role, ROLE_ADMIN);
    assert_eq!(store.read_group_contact(&row2).unwrap().role, ROLE_NONE);
    // a missing target
    let missing = SetGroupContactRole {
        signer: signer(1),
        signer_group_contact: row1,
        group_contact: party(123),
    };
    assert_eq!(set_group_contact_role(&mut store, &missing, ROLE_ADMIN), Err(ErrorCode::NotFound));
    // the admin on another member's row
    let promote =
        SetGroupContactRole { signer: signer(1), signer_group_contact: row1, group_contact: row2 };
    assert_eq!(set_group_contact_role(&mut store, &promote, 2), Ok(()));
    assert_eq!(store.read_group_contact(&row2).unwrap().role, 2);
}

#[test]
fn a_group_keeps_an_admin() {
    let mut store = RecordStore::new();
    join(&mut store, 1, "Alice");
    let a2 = join(&mut store, 2, "Bob");
    let (g, row1) = found(&mut store, 1, 1, "G");
    let invite =
        CreateGroupContact { signer: signer(1), group: g, signer_group_contact: row1, contact: a2 };
    create_group_contact(&mut store, &invite).unwrap();
    let row2 = group_contact_address(&g, &a2).unwrap().0;
    let promote =
        SetGroupContactRole { signer: signer(1), signer_group_contact: row1, group_contact: row2 };
    set_group_contact_role(&mut store, &promote, ROLE_ADMIN).unwrap();
    // the second admin demotes the first
    let demote =
        SetGroupContactRole { signer: signer(2), signer_group_contact: row2, group_contact: row1 };
    assert_eq!(set_group_contact_role(&mut store, &demote, ROLE_NONE), Ok(()));
    assert_eq!(store.read_group_contact(&row1).unwrap().role, ROLE_NONE);
    // the first can no longer act, and the second cannot demote themselves
    assert_eq!(
        set_group_contact_role(&mut store, &promote, ROLE_NONE),
        Err(ErrorCode::NotAuthorized)
    );
    let own =
        SetGroupContactRole { signer: signer(2), signer_group_contact: row2, group_contact: row2 };
    assert_eq!(set_group_contact_role(&mut store, &own, ROLE_NONE), Err(ErrorCode::NotAuthorized));
    assert!(holds_admin_row(&store, &party(2), &row2, &g));
}

#[test]
fn preference_is_set_by_the_member_alone() {
    let mut store = RecordStore::new();
    join(&mut store, 1, "Alice");
    let a2 = join(&mut store, 2, "Bob");
    let (g, row1) = found(&mut store, 1, 1, "G");
    let invite =
        CreateGroupContact { signer: signer(1), group: g, signer_group_contact: row1, contact: a2 };
    create_group_contact(&mut store, &invite).unwrap();
    let row2 = group_contact_address(&g, &a2).unwrap().0;
    // not even the admin may
    let by_admin = SetGroupContactPreference { signer: signer(1), signer_group_contact: row2 };
    assert_eq!(
        set_group_contact_preference(&mut store, &by_admin, PREFERENCE_SUBSCRIBE),
        Err(ErrorCode::NotAuthorized)
    );
    assert_eq!(store.read_group_contact(&row2).unwrap().preference, PREFERENCE_IGNORE);
    let own = SetGroupContactPreference { signer: signer(2), signer_group_contact: row2 };
    assert_eq!(set_group_contact_preference(&mut store, &own, PREFERENCE_SUBSCRIBE), Ok(()));
    let read = *store.read_group_contact(&row2).unwrap();
    assert_eq!(read.preference, PREFERENCE_SUBSCRIBE);
    assert_eq!(read.role, ROLE_NONE);
    assert_eq!(set_group_contact_preference(&mut store, &own, PREFERENCE_IGNORE), Ok(()));
    assert_eq!(store.read_group_contact(&row2).unwrap().preference, PREFERENCE_IGNORE);
    // no growth, nothing to fund
    let unfunded = SetGroupContactPreference { signer: broke(2), signer_group_contact: row2 };
    assert_eq!(set_group_contact_preference(&mut store, &unfunded, PREFERENCE_SUBSCRIBE), Ok(()));
    // a missing row
    let missing = SetGroupContactPreference { signer: signer(2), signer_group_contact: party(5) };
    assert_eq!(
        set_group_contact_preference(&mut store, &missing, PREFERENCE_SUBSCRIBE),
        Err(ErrorCode::NotFound)
    );
}

#[test]
fn membership_rows_name_stored_records() {
    let mut store = RecordStore::new();
    join(&mut store, 1, "Alice");
    let a2 = join(&mut store, 2, "Bob");
    let (g, row1) = found(&mut store, 1, 1, "G");
    let invite =
        CreateGroupContact { signer: signer(1), group: g, signer_group_contact: row1, contact: a2 };
    create_group_contact(&mut store, &invite).unwrap();
    for row in [row1, group_contact_address(&g, &a2).unwrap().0] {
        let membership = *store.read_group_contact(&row).unwrap();
        assert!(store.read_group(&membership.group).is_ok());
        assert!(store.read_contact(&membership.contact).is_ok());
        assert_eq!(group_contact_address(&membership.group, &membership.contact).unwrap().0, row);
    }
}

#[test]
fn record_behind_a_forged_row_gives_no_right() {
    // a row that claims the admin role but names a contact of someone else
    let mut store = RecordStore::new();
    let a1 = join(&mut store, 1, "Alice");
    join(&mut store, 3, "Carol");
    let (g, _) = found(&mut store, 1, 1, "G");
    let forged = Record::GroupContact(GroupContact {
        bump: 0,
        group: g,
        contact: a1,
        role: ROLE_ADMIN,
        preference: PREFERENCE_IGNORE,
    });
    store.create_record(party(200), forged, &signer(3), 75).unwrap();
    let edit = EditGroup { signer: signer(3), group: g, signer_group_contact: party(200) };
    assert_eq!(
        edit_group(&mut store, &edit, "Mine".to_string(), "about".to_string()),
        Err(ErrorCode::NotAuthorized)
    );
    // a row whose contact is not stored
    let dangling = Record::GroupContact(GroupContact {
        bump: 0,
        group: g,
        contact: party(201),
        role: ROLE_ADMIN,
        preference: PREFERENCE_IGNORE,
    });
    store.create_record(party(202), dangling, &signer(3), 75).unwrap();
    let edit = EditGroup { signer: signer(3), group: g, signer_group_contact: party(202) };
    assert_eq!(
        edit_group(&mut store, &edit, "Mine".to_string(), "about".to_string()),
        Err(ErrorCode::NotAuthorized)
    );
    let own = SetGroupContactPreference { signer: signer(3), signer_group_contact: party(202) };
    assert_eq!(
        set_group_contact_preference(&mut store, &own, PREFERENCE_SUBSCRIBE),
        Err(ErrorCode::NotAuthorized)
    );
    assert_eq!(store.read_group(&g).unwrap().name(), "G");
}

#[test]
fn contact_stored_elsewhere_by_another_creator_is_not_the_signers() {
    let mut store = RecordStore::new();
    let stray =
        Record::Contact(Contact::new(0, party(1), None, "Alice".to_string(), String::new()).unwrap());
    store.create_record(party(150), stray, &signer(1), 182).unwrap();
    let ctx = UpdateContact { creator: signer(2), contact: party(150) };
    assert_eq!(
        update_contact(&mut store, &ctx, "Bob".to_string(), String::new(), None),
        Err(ErrorCode::NotAuthorized)
    );
    let ctx = UpdateContact { creator: signer(1), contact: party(150) };
    assert_eq!(update_contact(&mut store, &ctx, "Al".to_string(), String::new(), None), Ok(()));
}
