use solchat::size::{
    contact_size, conversation_size, group_contact_size, group_size, CONTACT_SIZE,
    DIRECT_CONVERSATION_SIZE, DISCRIMINATOR_SIZE, GROUP_CONTACT_SIZE, GROUP_SIZE,
    LENGTH_PREFIX_SIZE, MESSAGE_MAX, NAME_MAX,
};

#[test]
fn limits_have_their_fixed_values() {
    assert_eq!(NAME_MAX, 100);
    assert_eq!(MESSAGE_MAX, 1024);
    assert_eq!(DISCRIMINATOR_SIZE, 8);
    assert_eq!(LENGTH_PREFIX_SIZE, 4);
}

#[test]
fn fixed_parts_have_their_values() {
    assert_eq!(CONTACT_SIZE, 174);
    assert_eq!(DIRECT_CONVERSATION_SIZE, 77);
    assert_eq!(GROUP_SIZE, 143);
    assert_eq!(GROUP_CONTACT_SIZE, 67);
}

#[test]
fn contact_size_counts_data() {
    assert_eq!(contact_size(0), Some(182));
    assert_eq!(contact_size(2), Some(184));
    assert_eq!(contact_size(1000), Some(1182));
}

#[test]
fn group_size_counts_data() {
    assert_eq!(group_size(0), Some(151));
    assert_eq!(group_size(10), Some(161));
}

#[test]
fn group_contact_size_is_fixed() {
    assert_eq!(group_contact_size(), 75);
}

#[test]
fn conversation_size_counts_every_message_with_its_prefix() {
    // first message "hi": fixed part, one prefix, two bytes
    assert_eq!(conversation_size(0, 0, 2), Some(85 + 4 + 2));
    // "hello" joins ["hi"]
    assert_eq!(conversation_size(1, 2, 5), Some(85 + (4 + 2) + (4 + 5)));
    // a third message of 10 bytes joins ["hi", "hello"]
    assert_eq!(conversation_size(2, 7, 10), Some(85 + (4 + 2) + (4 + 5) + (4 + 10)));
    // an empty message still costs its prefix
    assert_eq!(conversation_size(0, 0, 0), Some(89));
    assert_eq!(conversation_size(0, 0, 1024), Some(85 + 4 + 1024));
}

#[test]
fn conversation_size_is_not_seeded_with_the_message_limit() {
    assert_ne!(conversation_size(0, 0, 2), Some(81 + 1024));
    assert_eq!(conversation_size(1, 2, 5).unwrap() - conversation_size(0, 0, 2).unwrap(), 9);
}

#[test]
fn sizes_never_shrink_as_content_grows() {
    let mut last_contact = 0;
    let mut last_group = 0;
    for len in [0usize, 1, 2, 50, 99, 100, 101, 4096, 1 << 20] {
        let contact = contact_size(len).unwrap();
        let group = group_size(len).unwrap();
        assert!(contact >= last_contact);
        assert!(group >= last_group);
        last_contact = contact;
        last_group = group;
    }
    let mut count = 0usize;
    let mut total = 0u64;
    let mut last = 0u64;
    for len in [2usize, 5, 0, 1024, 17] {
        let size = conversation_size(count, total, len).unwrap();
        assert!(size > last);
        last = size;
        count += 1;
        total += len as u64;
    }
    assert_eq!(last, 85 + 4 * 5 + 1048);
}

#[test]
fn sizes_beyond_64_bits_are_refused() {
    assert_eq!(contact_size(usize::MAX), None);
    assert_eq!(group_size(usize::MAX), None);
    assert_eq!(conversation_size(usize::MAX, 0, 0), None);
    assert_eq!(conversation_size(0, u64::MAX, 0), None);
    assert_eq!(conversation_size(0, u64::MAX - 100, 12), None);
    assert_eq!(conversation_size(0, u64::MAX - 89, 0), Some(u64::MAX));
    assert_eq!(conversation_size(0, u64::MAX - 89, 1), None);
    assert_eq!(contact_size(usize::MAX - 182), Some(u64::MAX));
    assert_eq!(contact_size(usize::MAX - 181), None);
}
