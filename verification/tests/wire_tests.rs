use broadnym::network::Network;
use broadnym::wire::{decode, encode, DecodeError, TransactionRequest};

fn request(tx_hex: &str, network: Network) -> TransactionRequest {
    TransactionRequest { tx_hex: tx_hex.to_string(), network }
}

#[test]
fn round_trip_mainnet() {
    let original = request("0100deadbeef", Network::Mainnet);
    let bytes = encode(&original);
    let decoded = decode(&bytes).expect("encoded envelope must decode");
    assert_eq!(decoded, original);
}

#[test]
fn round_trip_testnet() {
    let original = request("02ffff", Network::Testnet);
    let bytes = encode(&original);
    let decoded = decode(&bytes).expect("encoded envelope must decode");
    assert_eq!(decoded, original);
}

#[test]
fn round_trip_empty_text() {
    let original = request("", Network::Mainnet);
    let bytes = encode(&original);
    let decoded = decode(&bytes).expect("encoded envelope must decode");
    assert_eq!(decoded, original);
}

#[test]
fn round_trip_non_ascii_text() {
    let original = request("héx✓", Network::Testnet);
    let bytes = encode(&original);
    let decoded = decode(&bytes).expect("encoded envelope must decode");
    assert_eq!(decoded, original);
}

#[test]
fn encoded_layout_is_tag_length_text() {
    let bytes = encode(&request("ab", Network::Testnet));
    let mut expected: Vec<u8> = Vec::new();
    expected.push(1u8);
    expected.extend_from_slice(&2u64.to_le_bytes());
    expected.extend_from_slice(b"ab");
    assert_eq!(bytes, expected);
}

#[test]
fn decode_empty_input_is_truncated() {
    let bytes: Vec<u8> = Vec::new();
    assert_eq!(decode(&bytes), Err(DecodeError::Truncated));
}

#[test]
fn decode_short_header_is_truncated() {
    let bytes = vec![0u8, 1, 2, 3, 4];
    assert_eq!(decode(&bytes), Err(DecodeError::Truncated));
}

#[test]
fn decode_unknown_network_tag() {
    let mut bytes: Vec<u8> = Vec::new();
    bytes.push(2u8);
    bytes.extend_from_slice(&0u64.to_le_bytes());
    assert_eq!(decode(&bytes), Err(DecodeError::UnknownNetwork));
}

#[test]
fn decode_truncated_text_is_truncated() {
    let mut bytes: Vec<u8> = Vec::new();
    bytes.push(0u8);
    bytes.extend_from_slice(&5u64.to_le_bytes());
    bytes.extend_from_slice(b"ab");
    assert_eq!(decode(&bytes), Err(DecodeError::Truncated));
}

#[test]
fn decode_trailing_bytes_are_rejected() {
    let mut bytes: Vec<u8> = Vec::new();
    bytes.push(0u8);
    bytes.extend_from_slice(&1u64.to_le_bytes());
    bytes.extend_from_slice(b"abc");
    assert_eq!(decode(&bytes), Err(DecodeError::TrailingData));
}

#[test]
fn decode_invalid_utf8_is_invalid_text() {
    let mut bytes: Vec<u8> = Vec::new();
    bytes.push(1u8);
    bytes.extend_from_slice(&2u64.to_le_bytes());
    bytes.push(0xffu8);
    bytes.push(0xfeu8);
    assert_eq!(decode(&bytes), Err(DecodeError::InvalidText));
}

#[test]
fn decode_never_panics_on_assorted_inputs() {
    let mut inputs: Vec<Vec<u8>> = vec![
        Vec::new(),
        vec![0],
        vec![1],
        vec![255],
        vec![0; 8],
        vec![0; 9],
        vec![255; 64],
    ];
    for len in 0..40usize {
        inputs.push((0..len).map(|i| (i * 37 % 256) as u8).collect());
    }
    for bytes in &inputs {
        let _ = decode(bytes);
    }
}
