//! The wire envelope: a `TransactionRequest` and its self-describing binary
//! encoding. The envelope is the entire transport payload. Layout: one tag
//! byte naming the network, eight bytes holding the payload length in
//! little-endian order, then the transaction text as UTF-8 bytes.

use vstd::prelude::*;
use vstd::bytes::{spec_u64_from_le_bytes, spec_u64_to_le_bytes, u64_from_le_bytes, u64_to_le_bytes,
    lemma_auto_spec_u64_to_from_le_bytes};
use vstd::utf8::{valid_utf8, decode_utf8, encode_utf8, encode_utf8_valid_utf8,
    encode_utf8_decode_utf8};
use vstd::slice::{slice_subrange, slice_to_vec};
use crate::network::Network;

verus! {

/// The wire envelope. `tx_hex` is opaque transaction text: this layer never
/// parses it, only forwards it. The envelope is immutable once built.
#[derive(Clone, Debug)]
pub struct TransactionRequest {
    pub tx_hex: String,
    pub network: Network,
}

impl PartialEq for TransactionRequest {
    fn eq(&self, other: &TransactionRequest) -> (r: bool) {
        self.tx_hex == other.tx_hex && self.network == other.network
    }
}

impl vstd::std_specs::cmp::PartialEqSpecImpl for TransactionRequest {
    open spec fn obeys_eq_spec() -> bool {
        true
    }

    open spec fn eq_spec(&self, other: &TransactionRequest) -> bool {
        self.tx_hex@ == other.tx_hex@ && self.network == other.network
    }
}

/// Why a byte payload was rejected by `decode`.
#[derive(Clone, Copy, Debug, PartialEq, Eq, Structural)]
pub enum DecodeError {
    /// The payload ends before the header or the announced text does.
    Truncated,
    /// The network tag byte names no known network.
    UnknownNetwork,
    /// Bytes follow the announced text; the envelope must be the whole payload.
    TrailingData,
    /// The announced text is not valid UTF-8.
    InvalidText,
}

/// The tag byte that names `n` on the wire.
pub open spec fn spec_network_tag(n: Network) -> u8 {
    match n {
        Network::Mainnet => 0u8,
        Network::Testnet => 1u8,
    }
}

/// The encoding of an envelope with text `tx_hex` and network `network`:
/// tag byte, then the UTF-8 length as eight little-endian bytes, then the
/// UTF-8 bytes themselves.
pub open spec fn spec_encode(tx_hex: Seq<char>, network: Network) -> Seq<u8> {
    seq![spec_network_tag(network)] + spec_u64_to_le_bytes(encode_utf8(tx_hex).len() as u64)
        + encode_utf8(tx_hex)
}

/// What `decode` returns on any byte sequence: the decoded text and network,
/// or the first error the layout rules find, checking the header, the tag,
/// the announced length and the text encoding in that order.
pub open spec fn spec_decode(b: Seq<u8>) -> Result<(Seq<char>, Network), DecodeError> {
    if b.len() < 9 {
        Err(DecodeError::Truncated)
    } else if b[0] != 0 && b[0] != 1 {
        Err(DecodeError::UnknownNetwork)
    } else {
        let network = if b[0] == 0 { Network::Mainnet } else { Network::Testnet };
        let n = spec_u64_from_le_bytes(b.subrange(1, 9)) as int;
        if b.len() < 9 + n {
            Err(DecodeError::Truncated)
        } else if b.len() > 9 + n {
            Err(DecodeError::TrailingData)
        } else if valid_utf8(b.subrange(9, 9 + n)) {
            Ok((decode_utf8(b.subrange(9, 9 + n)), network))
        } else {
            Err(DecodeError::InvalidText)
        }
    }
}

/// Relies on `String::from_utf8`: it returns `Ok` exactly when the bytes
/// are valid UTF-8, and the returned string's UTF-8 bytes are the input
/// bytes unchanged.
#[verifier::external_body]
fn bytes_to_string(v: &Vec<u8>) -> (r: Option<String>)
    ensures
        r is Some <==> valid_utf8(v@),
        r matches Some(s) ==> encode_utf8(s@) == v@,
{
    String::from_utf8(v.clone()).ok()
}

/// Encode `req` into the byte payload that `decode` accepts back.
pub fn encode(req: &TransactionRequest) -> (r: Vec<u8>)
    ensures
        r@ == spec_encode(req.tx_hex@, req.network),
{
    let tag: u8 = match req.network {
        Network::Mainnet => 0,
        Network::Testnet => 1,
    };
    let text: &[u8] = req.tx_hex.as_str().as_bytes();
    let mut out: Vec<u8> = Vec::new();
    out.push(tag);
    let mut len_bytes = u64_to_le_bytes(text.len() as u64);
    out.append(&mut len_bytes);
    let mut payload = slice_to_vec(text);
    out.append(&mut payload);
    proof {
        assert(out@ =~= spec_encode(req.tx_hex@, req.network));
    }
    out
}

/// Decode a byte payload into an envelope. Total over all finite byte
/// sequences: every input yields either the envelope or a `DecodeError`,
/// and verification rules out panics.
pub fn decode(bytes: &Vec<u8>) -> (r: Result<TransactionRequest, DecodeError>)
    ensures
        r matches Ok(req) ==> spec_decode(bytes@) matches Ok(p) && req.tx_hex@ == p.0
            && req.network == p.1,
        r matches Err(e) ==> spec_decode(bytes@) matches Err(e2) && e == e2,
{
    if bytes.len() < 9 {
        return Err(DecodeError::Truncated);
    }
    let tag: u8 = bytes[0];
    let network = if tag == 0 {
        Network::Mainnet
    } else if tag == 1 {
        Network::Testnet
    } else {
        return Err(DecodeError::UnknownNetwork);
    };
    let len_bytes = slice_subrange(bytes.as_slice(), 1, 9);
    let announced: u64 = u64_from_le_bytes(len_bytes);
    let remaining: usize = bytes.len() - 9;
    if announced > remaining as u64 {
        return Err(DecodeError::Truncated);
    }
    if announced < remaining as u64 {
        return Err(DecodeError::TrailingData);
    }
    let text_bytes = slice_to_vec(slice_subrange(bytes.as_slice(), 9, bytes.len()));
    match bytes_to_string(&text_bytes) {
        Some(s) => {
            proof {
                encode_utf8_decode_utf8(s@);
            }
            Ok(TransactionRequest { tx_hex: s, network })
        },
        None => Err(DecodeError::InvalidText),
    }
}

/// Round trip: decoding an encoded envelope yields the envelope back, for
/// every text whose UTF-8 form fits the eight-byte length field.
pub proof fn lemma_decode_encode(tx_hex: Seq<char>, network: Network)
    requires
        encode_utf8(tx_hex).len() <= u64::MAX,
    ensures
        spec_decode(spec_encode(tx_hex, network)) matches Ok(p) && p.0 == tx_hex
            && p.1 == network,
{
    let b = spec_encode(tx_hex, network);
    let payload = encode_utf8(tx_hex);
    lemma_auto_spec_u64_to_from_le_bytes();
    assert(spec_u64_to_le_bytes(payload.len() as u64).len() == 8);
    assert(b.len() == 9 + payload.len());
    assert(b.subrange(1, 9) =~= spec_u64_to_le_bytes(payload.len() as u64));
    assert(spec_u64_from_le_bytes(b.subrange(1, 9)) == payload.len() as u64);
    assert(b.subrange(9, b.len() as int) =~= payload);
    encode_utf8_valid_utf8(tx_hex);
    encode_utf8_decode_utf8(tx_hex);
    assert(b[0] == spec_network_tag(network));
}

} // verus!
