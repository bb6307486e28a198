use guidra::hexcode::{
    decode_hex, decode_hex_multiline, encode_hex, HexError,
};

#[test]
fn encode_exact() {
    assert_eq!(encode_hex(&[0xde, 0xad, 0xbe, 0xef]), "deadbeef");
    assert_eq!(encode_hex(&[0x00]), "00");
    assert_eq!(encode_hex(&[0x0f, 0xf0]), "0ff0");
}

#[test]
fn encode_empty() {
    assert_eq!(encode_hex(&[]), "");
}

#[test]
fn decode_exact() {
    assert_eq!(decode_hex("deadbeef").unwrap(), vec![0xde, 0xad, 0xbe, 0xef]);
    assert_eq!(decode_hex("00").unwrap(), vec![0x00]);
    assert_eq!(decode_hex("ff").unwrap(), vec![0xff]);
}

#[test]
fn decode_empty() {
    assert_eq!(decode_hex("").unwrap(), Vec::<u8>::new());
}

#[test]
fn decode_uppercase() {
    assert_eq!(decode_hex("DEADBEEF").unwrap(), vec![0xde, 0xad, 0xbe, 0xef]);
    assert_eq!(decode_hex("aB").unwrap(), vec![0xab]);
}

#[test]
fn decode_odd_length() {
    assert_eq!(decode_hex("abc"), Err(HexError::OddLength));
    assert_eq!(decode_hex("0"), Err(HexError::OddLength));
}

#[test]
fn decode_invalid_char() {
    assert_eq!(decode_hex("0g"), Err(HexError::InvalidChar { index: 1 }));
    assert_eq!(decode_hex("zz"), Err(HexError::InvalidChar { index: 0 }));
    assert_eq!(decode_hex("55 b"), Err(HexError::InvalidChar { index: 2 }));
}

#[test]
fn error_message() {
    assert_eq!(HexError::OddLength.message(), "Invalid hex string");
    assert_eq!(HexError::InvalidChar { index: 3 }.message(), "Invalid hex string");
}

#[test]
fn multiline_strips_newlines() {
    assert_eq!(decode_hex_multiline("55\n48").unwrap(), vec![0x55, 0x48]);
    assert_eq!(decode_hex_multiline("5\n5").unwrap(), vec![0x55]);
    assert_eq!(decode_hex_multiline("\n\n").unwrap(), Vec::<u8>::new());
}

#[test]
fn multiline_reports_stripped_positions() {
    // After the newline is dropped the bad character stands at index 2.
    assert_eq!(
        decode_hex_multiline("55\nx8"),
        Err(HexError::InvalidChar { index: 2 })
    );
}

#[test]
fn round_trip_all_bytes() {
    let mut bytes = Vec::new();
    let mut b: u16 = 0;
    while b < 256 {
        bytes.push(b as u8);
        b += 1;
    }
    let text = encode_hex(&bytes);
    assert_eq!(decode_hex(&text).unwrap(), bytes);
}

#[test]
fn canonical_round_trip() {
    let s = "00ff10abcdef";
    let bytes = decode_hex(s).unwrap();
    assert_eq!(encode_hex(&bytes), s);
}

#[test]
fn matches_reference_codec() {
    let samples: Vec<Vec<u8>> = vec![
        vec![],
        vec![0x00],
        vec![0xff],
        vec![0x55, 0x48, 0x8b, 0x05, 0xb8, 0x13, 0x00, 0x00],
        vec![0x12, 0x34, 0x56, 0x78, 0x9a, 0xbc, 0xde, 0xf0],
    ];
    for bytes in samples {
        let mine = encode_hex(&bytes);
        assert_eq!(mine, hex::encode(&bytes));
        assert_eq!(decode_hex(&mine).unwrap(), hex::decode(&mine).unwrap());
    }
    assert!(hex::decode("0g").is_err());
    assert!(decode_hex("0g").is_err());
    assert!(hex::decode("abc").is_err());
    assert!(decode_hex("abc").is_err());
}
