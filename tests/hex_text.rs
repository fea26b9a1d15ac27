use ssri::hex::{decode_hex, parse_tx_hash};

#[test]
fn decodes_with_and_without_prefix() {
    assert_eq!(decode_hex("0x0102"), Some(vec![1, 2]));
    assert_eq!(decode_hex("abCD"), Some(vec![0xab, 0xcd]));
    assert_eq!(decode_hex(""), Some(vec![]));
    assert_eq!(decode_hex("0x"), Some(vec![]));
}

#[test]
fn rejects_bad_hex() {
    assert_eq!(decode_hex("0x123"), None);
    assert_eq!(decode_hex("zz"), None);
    assert_eq!(decode_hex("0X12"), None);
}

#[test]
fn parses_transaction_hashes() {
    let text = "0xaa".to_string() + &"00".repeat(31);
    let mut expected = vec![0u8; 32];
    expected[0] = 0xaa;
    assert_eq!(parse_tx_hash(&text), Some(expected.clone()));
    assert_eq!(parse_tx_hash(&text[2..]), Some(expected));
    assert_eq!(parse_tx_hash("0xaa"), None);
    assert_eq!(parse_tx_hash(&("g".to_string() + &"0".repeat(63))), None);
}
