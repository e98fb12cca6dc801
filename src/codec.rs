use vstd::prelude::*;
use crate::error::ClientError;

verus! {

/// Code point of the lowercase hex digit for a nibble.
pub open spec fn digit_code(n: int) -> int {
    if n < 10 { 48 + n } else { 87 + n }
}

/// `s` is the lowercase hex text of `b`: two digits per byte, high nibble first.
pub open spec fn lower_hex_of(s: Seq<char>, b: Seq<u8>) -> bool {
    &&& s.len() == 2 * b.len()
    &&& forall|i: int| 0 <= i < b.len() ==> {
        &&& #[trigger] (s[2 * i] as int) == digit_code(b[i] as int / 16)
        &&& (s[2 * i + 1] as int) == digit_code(b[i] as int % 16)
    }
}

pub open spec fn is_hex_char(c: char) -> bool {
    ||| 48 <= (c as int) <= 57
    ||| 97 <= (c as int) <= 102
    ||| 65 <= (c as int) <= 70
}

/// Value of a hex digit of either case.
pub open spec fn hex_value(c: char) -> int {
    let v = c as int;
    if v <= 57 { v - 48 } else if v <= 70 { v - 55 } else { v - 87 }
}

/// The text of an identifier: exactly 64 hex digits.
pub open spec fn is_id_hex(s: Seq<char>) -> bool {
    s.len() == 64 && forall|i: int| 0 <= i < 64 ==> #[trigger] is_hex_char(s[i])
}

/// The bytes that a run of hex digits stands for, two digits per byte.
pub open spec fn hex_decoded(s: Seq<char>) -> Seq<u8> {
    Seq::new(s.len() / 2, |i: int| (16 * hex_value(s[2 * i]) + hex_value(s[2 * i + 1])) as u8)
}

#[verifier::external_type_specification]
#[verifier::external_body]
pub struct ExFromHexError(hex::FromHexError);

/// Relies on hex::encode: each byte becomes two lowercase hex digits, high nibble first.
#[verifier::external_body]
fn hex_encode(data: &[u8]) -> (r: String)
    ensures
        lower_hex_of(r@, data@),
{
    hex::encode(data)
}

/// Relies on hex::decode_to_slice into 32 bytes: it succeeds exactly when the text is
/// 64 hex digits of either case, and then each pair of digits gives one byte.
#[verifier::external_body]
fn hex_decode_32(text: &str) -> (r: Result<[u8; 32], hex::FromHexError>)
    ensures
        r is Ok <==> is_id_hex(text@),
        r matches Ok(b) ==> b@ == hex_decoded(text@),
{
    let mut out = [0u8; 32];
    match hex::decode_to_slice(text, &mut out) {
        Ok(()) => Ok(out),
        Err(e) => Err(e),
    }
}

/// A 32-byte message identifier.
#[derive(Debug, Clone, Copy, PartialEq, Eq)]
pub struct MessageId {
    pub bytes: [u8; 32],
}

impl MessageId {
    pub fn new(bytes: [u8; 32]) -> (r: MessageId)
        ensures
            r.bytes == bytes,
    {
        MessageId { bytes }
    }

    /// The canonical text of the identifier: 64 lowercase hex digits.
    pub fn to_hex(&self) -> (r: String)
        ensures
            lower_hex_of(r@, self.bytes@),
            r@.len() == 64,
    {
        encode_identifier(&self.bytes)
    }

    /// Reads an identifier from 64 hex digits of either case.
    pub fn from_hex(s: &str) -> (r: Result<MessageId, ClientError>)
        ensures
            r is Ok <==> is_id_hex(s@),
            r matches Ok(id) ==> id.bytes@ == hex_decoded(s@),
            r matches Err(e) ==> (e matches ClientError::MalformedIdentifier { text } && text@ == s@),
    {
        match decode_identifier(s) {
            Ok(bytes) => Ok(MessageId { bytes }),
            Err(e) => Err(e),
        }
    }
}

/// Lowercase hex text of an identifier's bytes.
pub fn encode_identifier(bytes: &[u8; 32]) -> (r: String)
    ensures
        lower_hex_of(r@, bytes@),
        r@.len() == 64,
{
    hex_encode(bytes.as_slice())
}

/// Strict decoding of an identifier: anything but 64 hex digits is refused.
pub fn decode_identifier(s: &str) -> (r: Result<[u8; 32], ClientError>)
    ensures
        r is Ok <==> is_id_hex(s@),
        r matches Ok(b) ==> b@ == hex_decoded(s@),
        r matches Err(e) ==> (e matches ClientError::MalformedIdentifier { text } && text@ == s@),
{
    match hex_decode_32(s) {
        Ok(b) => Ok(b),
        Err(_) => Err(ClientError::MalformedIdentifier { text: s.to_owned() }),
    }
}

/// Hex text of an index, as it is put in a search query.
pub fn encode_index_bytes(bytes: &[u8]) -> (r: String)
    ensures
        lower_hex_of(r@, bytes@),
{
    hex_encode(bytes)
}

/// Decoding the lowercase hex text of 32 bytes gives the same bytes back, and the
/// text is accepted by the strict decoder.
pub proof fn lemma_identifier_round_trip(b: [u8; 32], s: Seq<char>)
    requires
        lower_hex_of(s, b@),
    ensures
        is_id_hex(s),
        hex_decoded(s) == b@,
{
    assert forall|i: int| 0 <= i < 64 implies #[trigger] is_hex_char(s[i]) by {
        let j = i / 2;
        assert(0 <= j < 32);
        if i % 2 == 0 {
            assert(i == 2 * j);
        } else {
            assert(i == 2 * j + 1);
        }
        assert((s[2 * j] as int) == digit_code(b@[j] as int / 16));
    }
    assert forall|j: int| 0 <= j < 32 implies #[trigger] hex_decoded(s)[j] == b@[j] by {
        assert((s[2 * j] as int) == digit_code(b@[j] as int / 16));
        let hi = b@[j] as int / 16;
        let lo = b@[j] as int % 16;
        assert(hex_value(s[2 * j]) == hi);
        assert(hex_value(s[2 * j + 1]) == lo);
        assert(16 * hi + lo == b@[j]);
    }
    assert(hex_decoded(s) =~= b@);
}

} // verus!
