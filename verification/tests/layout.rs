use anchor_lang::prelude::{borsh, Pubkey};
use message_board::record::{
    AUTHOR_LENGTH, AUTHOR_OFFSET, CONTENT_OFFSET, DISCRIMINATOR_LENGTH, LENGTH_PREFIX_LENGTH,
    LENGTH_PREFIX_OFFSET, TIMESTAMP_LENGTH,
};
use message_board::{MessageAccount, MessageError, MAX_CONTENT_LENGTH, MESSAGE_SPACE};

const TAG: [u8; 8] = [0xd0, 0xd1, 0xd2, 0xd3, 0xd4, 0xd5, 0xd6, 0xd7];

fn author_bytes() -> [u8; 32] {
    let mut bytes = [0u8; 32];
    for (i, b) in bytes.iter_mut().enumerate() {
        *b = 0x40 + i as u8;
    }
    bytes
}

fn record(content: &str, timestamp: i64) -> MessageAccount {
    MessageAccount {
        author: Pubkey::new_from_array(author_bytes()),
        content: String::from(content),
        timestamp,
    }
}

#[test]
fn space_follows_the_formula() {
    assert_eq!(DISCRIMINATOR_LENGTH, 8);
    assert_eq!(AUTHOR_LENGTH, 32);
    assert_eq!(LENGTH_PREFIX_LENGTH, 4);
    assert_eq!(TIMESTAMP_LENGTH, 8);
    assert_eq!(AUTHOR_OFFSET, 8);
    assert_eq!(LENGTH_PREFIX_OFFSET, 40);
    assert_eq!(CONTENT_OFFSET, 44);
    assert_eq!(MESSAGE_SPACE, 8 + 32 + 4 + 280 + 8);
    assert_eq!(MESSAGE_SPACE, 332);
}

#[test]
fn hello_is_stored_field_by_field() {
    let bytes = record("hello", 1_700_000_000).serialize(&TAG).unwrap();
    assert_eq!(bytes.len(), 57);
    assert_eq!(&bytes[0..8], &TAG);
    assert_eq!(&bytes[8..40], &author_bytes());
    assert_eq!(&bytes[40..44], &[5, 0, 0, 0]);
    assert_eq!(&bytes[44..49], b"hello");
    // 1_700_000_000 is 0x6553_f100.
    assert_eq!(&bytes[49..57], &[0x00, 0xf1, 0x53, 0x65, 0, 0, 0, 0]);
}

#[test]
fn empty_content_is_stored_as_a_zero_length() {
    let bytes = record("", 0).serialize(&TAG).unwrap();
    assert_eq!(bytes.len(), 52);
    assert_eq!(&bytes[40..44], &[0, 0, 0, 0]);
    assert_eq!(&bytes[44..52], &[0; 8]);
}

#[test]
fn negative_timestamps_are_stored_in_twos_complement() {
    let bytes = record("a", -1).serialize(&TAG).unwrap();
    assert_eq!(&bytes[45..53], &[0xff; 8]);
    let bytes = record("a", -2).serialize(&TAG).unwrap();
    assert_eq!(&bytes[45..53], &[0xfe, 0xff, 0xff, 0xff, 0xff, 0xff, 0xff, 0xff]);
    let bytes = record("a", i64::MIN).serialize(&TAG).unwrap();
    assert_eq!(&bytes[45..53], &[0, 0, 0, 0, 0, 0, 0, 0x80]);
    let bytes = record("a", i64::MAX).serialize(&TAG).unwrap();
    assert_eq!(&bytes[45..53], &[0xff, 0xff, 0xff, 0xff, 0xff, 0xff, 0xff, 0x7f]);
}

#[test]
fn length_prefix_uses_its_second_byte() {
    let text = "q".repeat(280);
    let bytes = record(&text, 1).serialize(&TAG).unwrap();
    // 280 is 0x0118.
    assert_eq!(&bytes[40..44], &[0x18, 0x01, 0, 0]);
    assert_eq!(&bytes[44..324], text.as_bytes());
    assert_eq!(&bytes[324..332], &[1, 0, 0, 0, 0, 0, 0, 0]);
}

#[test]
fn longest_content_fills_the_space_exactly() {
    let bytes = record(&"q".repeat(MAX_CONTENT_LENGTH), 1).serialize(&TAG).unwrap();
    assert_eq!(bytes.len(), MESSAGE_SPACE);
}

#[test]
fn a_record_that_does_not_fit_is_not_stored() {
    assert_eq!(
        record(&"q".repeat(281), 1).serialize(&TAG),
        Err(MessageError::ContentTooLong)
    );
    assert_eq!(
        record(&"\u{1f600}".repeat(71), 1).serialize(&TAG),
        Err(MessageError::ContentTooLong)
    );
}

#[test]
fn multi_byte_content_is_stored_as_utf8() {
    let bytes = record("caf\u{e9}", 2).serialize(&TAG).unwrap();
    assert_eq!(&bytes[40..44], &[5, 0, 0, 0]);
    assert_eq!(&bytes[44..49], &[b'c', b'a', b'f', 0xc3, 0xa9]);
    assert_eq!(bytes.len(), 57);
}

#[test]
fn stored_bytes_are_what_borsh_writes_behind_the_tag() {
    for (content, timestamp) in [
        ("", 0i64),
        ("hello", 1_700_000_000),
        ("caf\u{e9} \u{1f600}", -5),
        ("0123456789".repeat(28).as_str(), i64::MIN),
    ] {
        let r = record(content, timestamp);
        let mut expected = TAG.to_vec();
        expected.extend(borsh::to_vec(&r.author).unwrap());
        expected.extend(borsh::to_vec(&r.content).unwrap());
        expected.extend(borsh::to_vec(&r.timestamp).unwrap());
        assert_eq!(r.serialize(&TAG).unwrap(), expected);
    }
}
