use chain_spec::evm_account::{build_evm_account, encode_evm_address, parse_evm_address};
use chain_spec::GenesisError;

const WELL_KNOWN: &str = "6Be02d1d3665660d22FF9624b7BE0551ee1Ac91b";

const WELL_KNOWN_BYTES: [u8; 20] = [
    0x6b, 0xe0, 0x2d, 0x1d, 0x36, 0x65, 0x66, 0x0d, 0x22, 0xff, 0x96, 0x24, 0xb7, 0xbe, 0x05,
    0x51, 0xee, 0x1a, 0xc9, 0x1b,
];

#[test]
fn parses_well_known_address() {
    let address = parse_evm_address(WELL_KNOWN).unwrap();
    assert_eq!(address.bytes, WELL_KNOWN_BYTES.to_vec());
}

#[test]
fn parses_with_prefix_and_any_case() {
    let lower = parse_evm_address("0x6be02d1d3665660d22ff9624b7be0551ee1ac91b").unwrap();
    let upper = parse_evm_address("0X6BE02D1D3665660D22FF9624B7BE0551EE1AC91B").unwrap();
    assert_eq!(lower.bytes, WELL_KNOWN_BYTES.to_vec());
    assert_eq!(upper.bytes, WELL_KNOWN_BYTES.to_vec());
}

#[test]
fn round_trips_twenty_bytes_through_lowercase_hex() {
    let mut encoded = String::new();
    for b in WELL_KNOWN_BYTES.iter() {
        encoded.push_str(&format!("{:02x}", b));
    }
    let account = build_evm_account(&encoded, 7, 0).unwrap();
    assert_eq!(account.address.bytes, WELL_KNOWN_BYTES.to_vec());
}

#[test]
fn encoder_matches_parser() {
    let address = parse_evm_address(WELL_KNOWN).unwrap();
    let encoded = encode_evm_address(&address);
    assert_eq!(encoded, WELL_KNOWN.to_lowercase());
    let reparsed = parse_evm_address(&encoded).unwrap();
    assert_eq!(reparsed.bytes, address.bytes);
}

#[test]
fn rejects_thirty_nine_characters() {
    let short = &WELL_KNOWN[..39];
    assert_eq!(short.len(), 39);
    assert_eq!(parse_evm_address(short), Err(GenesisError::MalformedAddress));
}

#[test]
fn rejects_non_hex_characters() {
    let bad = "6Be02d1d3665660d22FF9624b7BE0551ee1Ac91g";
    assert_eq!(parse_evm_address(bad), Err(GenesisError::MalformedAddress));
    assert_eq!(
        build_evm_account(bad, 1, 0),
        Err(GenesisError::MalformedAddress)
    );
}

#[test]
fn rejects_forty_one_characters() {
    let long = format!("{}0", WELL_KNOWN);
    assert_eq!(parse_evm_address(&long), Err(GenesisError::MalformedAddress));
}

#[test]
fn built_account_is_minimal() {
    let account = build_evm_account(WELL_KNOWN, 12345, 9).unwrap();
    assert_eq!(account.balance, 12345);
    assert_eq!(account.nonce, 9);
    assert!(account.storage.is_empty());
    assert!(account.code.is_empty());
}
