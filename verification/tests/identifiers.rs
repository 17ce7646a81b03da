use per_oxo::message_id::MessageId;

#[test]
fn hyphenated_text_reads_back() {
    let id = MessageId::parse("1e752a1f-3b49-658c-802a-010203040506").unwrap();
    assert_eq!(id.value, 0x1e752a1f_3b49_658c_802a_010203040506u128);
    assert_eq!(id.to_text(), "1e752a1f-3b49-658c-802a-010203040506");
    assert_eq!(MessageId::parse(&id.to_text()), Ok(id));
}

#[test]
fn text_that_is_no_identifier_is_refused() {
    assert!(MessageId::parse("not-an-id").is_err());
    assert!(MessageId::parse("").is_err());
}

#[test]
fn generated_identifiers_are_time_ordered_and_carry_the_node() {
    let node = [1u8, 2, 3, 4, 5, 6];
    let id = MessageId::generate(&node);
    assert_eq!((id.value >> 76) & 0xF, 6);
    assert_eq!((id.value >> 62) & 0x3, 2);
    assert_eq!(id.value & 0xFFFF_FFFF_FFFF, 0x0102_0304_0506);
}

#[test]
fn random_identifiers_have_version_four() {
    let id = MessageId::random();
    assert_eq!((id.value >> 76) & 0xF, 4);
    assert_eq!((id.value >> 62) & 0x3, 2);
}
