//! The text form of a payload: base64 with the standard alphabet and
//! padding (RFC 4648), written and read by the `base64` crate.

use vstd::prelude::*;

verus! {

/// `base64::DecodeError`, the error of a text that cannot be decoded.
#[verifier::external_type_specification]
#[verifier::external_body]
pub struct ExDecodeError(base64::DecodeError);

/// The base64 character for a value below 64.
pub open spec fn base64_symbol(value: int) -> char {
    "ABCDEFGHIJKLMNOPQRSTUVWXYZabcdefghijklmnopqrstuvwxyz0123456789+/"@[value]
}

/// The base64 text of a byte string. Every three bytes give four characters
/// of six bits each, the high bits first. One or two bytes that are left at
/// the end are filled up with zero bits, and `=` pads their group to four
/// characters.
pub open spec fn base64_text(bytes: Seq<u8>) -> Seq<char>
    decreases bytes.len(),
{
    if bytes.len() == 0 {
        Seq::<char>::empty()
    } else if bytes.len() == 1 {
        let first = bytes[0] as int;
        seq![base64_symbol(first / 4), base64_symbol(first % 4 * 16), '=', '=']
    } else if bytes.len() == 2 {
        let first = bytes[0] as int;
        let second = bytes[1] as int;
        seq![
            base64_symbol(first / 4),
            base64_symbol(first % 4 * 16 + second / 16),
            base64_symbol(second % 16 * 4),
            '=',
        ]
    } else {
        let first = bytes[0] as int;
        let second = bytes[1] as int;
        let third = bytes[2] as int;
        seq![
            base64_symbol(first / 4),
            base64_symbol(first % 4 * 16 + second / 16),
            base64_symbol(second % 16 * 4 + third / 64),
            base64_symbol(third % 64),
        ] + base64_text(bytes.skip(3))
    }
}

/// The bytes that a text is the base64 text of; `None` where it is that of none.
pub open spec fn base64_bytes(text: Seq<char>) -> Option<Seq<u8>> {
    if exists|bytes: Seq<u8>| base64_text(bytes) == text {
        Some(choose|bytes: Seq<u8>| base64_text(bytes) == text)
    } else {
        None
    }
}

/// The length of the base64 text of `len` bytes.
pub open spec fn base64_len(len: int) -> int {
    len / 3 * 4 + if len % 3 > 0 {
        4int
    } else {
        0int
    }
}

/// Whether a payload of `len` bytes is short enough to be written as text
/// in the memory of the machine.
pub open spec fn encodable_len(len: int) -> bool {
    base64_len(len) <= isize::MAX
}

/// Calls `base64::Engine::encode` on `engine::general_purpose::STANDARD`,
/// which writes base64 with the standard alphabet and padding. The encoder
/// gives up where the text would be longer than a buffer can be, which
/// `requires` leaves out.
#[verifier::external_body]
fn base64_encode(bytes: &[u8]) -> (text: String)
    requires
        encodable_len(bytes@.len() as int),
    ensures
        text@ == base64_text(bytes@),
{
    base64::Engine::encode(&base64::engine::general_purpose::STANDARD, bytes)
}

/// Calls `base64::Engine::decode` on `engine::general_purpose::STANDARD`.
/// That engine reads the standard alphabet, asks for canonical padding and
/// refuses stray trailing bits: it decodes exactly the texts that the encoder
/// writes, each to bytes that the encoder writes it for.
#[verifier::external_body]
fn base64_decode(text: &str) -> (decoded: Result<Vec<u8>, base64::DecodeError>)
    ensures
        decoded is Ok ==> base64_text(decoded->Ok_0@) == text@,
        decoded is Err ==> forall|bytes: Seq<u8>| base64_text(bytes) != text@,
{
    base64::Engine::decode(&base64::engine::general_purpose::STANDARD, text)
}

/// The base64 characters stand for different values, and none of them is the padding.
pub proof fn base64_symbols_differ(a: int, b: int)
    requires
        0 <= a < 64,
        0 <= b < 64,
    ensures
        base64_symbol(a) != '=',
        base64_symbol(b) != '=',
        base64_symbol(a) == base64_symbol(b) ==> a == b,
{
    reveal_strlit("ABCDEFGHIJKLMNOPQRSTUVWXYZabcdefghijklmnopqrstuvwxyz0123456789+/");
}

/// The base64 text of a byte string begins with four characters for its
/// first three bytes, and goes on with the text of the rest.
proof fn base64_text_unfolds(bytes: Seq<u8>)
    ensures
        base64_text(bytes).len() == base64_len(bytes.len() as int),
        bytes.len() >= 3 ==> base64_text(bytes).skip(4) == base64_text(bytes.skip(3)),
    decreases bytes.len(),
{
    if bytes.len() >= 3 {
        base64_text_unfolds(bytes.skip(3));
        assert(base64_text(bytes).skip(4) =~= base64_text(bytes.skip(3)));
    }
}

/// Two byte strings with the same base64 text are the same.
pub proof fn base64_text_is_injective(a: Seq<u8>, b: Seq<u8>)
    requires
        base64_text(a) == base64_text(b),
    ensures
        a == b,
    decreases a.len(),
{
    base64_text_unfolds(a);
    base64_text_unfolds(b);
    if a.len() == 0 || b.len() == 0 {
        assert(a.len() == 0 && b.len() == 0);
        assert(a =~= b);
    } else {
        let ta = base64_text(a);
        let tb = base64_text(b);
        assert(ta[0] == tb[0] && ta[1] == tb[1] && ta[2] == tb[2] && ta[3] == tb[3]);
        let a0 = a[0] as int;
        let b0 = b[0] as int;
        let a1 = if a.len() > 1 { a[1] as int } else { 0 };
        let b1 = if b.len() > 1 { b[1] as int } else { 0 };
        let a2 = if a.len() > 2 { a[2] as int } else { 0 };
        let b2 = if b.len() > 2 { b[2] as int } else { 0 };
        base64_symbols_differ(a0 / 4, b0 / 4);
        base64_symbols_differ(a0 % 4 * 16 + a1 / 16, b0 % 4 * 16 + b1 / 16);
        base64_symbols_differ(a1 % 16 * 4 + a2 / 64, b1 % 16 * 4 + b2 / 64);
        base64_symbols_differ(a2 % 64, b2 % 64);
        assert(a.len() == 1 <==> b.len() == 1);
        assert(a.len() == 2 <==> b.len() == 2);
        assert(a0 == b0 && a1 == b1 && a2 == b2);
        if a.len() <= 2 {
            assert(a =~= b);
        } else {
            assert(base64_text(a.skip(3)) == base64_text(b.skip(3)));
            base64_text_is_injective(a.skip(3), b.skip(3));
            assert(a =~= a.take(3) + a.skip(3));
            assert(b =~= b.take(3) + b.skip(3));
            assert(a.take(3) =~= b.take(3));
        }
    }
}

/// The encoding is lossless: the text of a byte string decodes to that byte
/// string and to no other.
pub proof fn base64_text_decodes_back(bytes: Seq<u8>)
    ensures
        base64_bytes(base64_text(bytes)) == Some(bytes),
{
    let decoded = choose|decoded: Seq<u8>| base64_text(decoded) == base64_text(bytes);
    base64_text_is_injective(decoded, bytes);
}

/// Decoding and encoding again gives the text back: a text that decodes is
/// the base64 text of what it decodes to.
pub proof fn base64_bytes_encode_back(text: Seq<char>)
    requires
        base64_bytes(text) is Some,
    ensures
        base64_text(base64_bytes(text)->Some_0) == text,
{
}

/// Writes payload bytes as base64 text; `None` where the text would be too
/// long for the machine.
pub fn encode_payload(bytes: &[u8]) -> (text: Option<String>)
    ensures
        text is Some <==> encodable_len(bytes@.len() as int),
        text is Some ==> text->Some_0@ == base64_text(bytes@),
{
    let len: usize = bytes.len();
    let padding: usize = if len % 3 > 0 { 4 } else { 0 };
    let limit: usize = isize::MAX as usize;
    if len / 3 > (limit - padding) / 4 {
        None
    } else {
        Some(base64_encode(bytes))
    }
}

/// Reads payload bytes from base64 text; `None` where the text is not the
/// base64 text of any bytes.
pub fn decode_payload(text: &str) -> (bytes: Option<Vec<u8>>)
    ensures
        bytes is Some ==> base64_bytes(text@) == Some(bytes->Some_0@),
        bytes is None ==> base64_bytes(text@).is_none(),
{
    match base64_decode(text) {
        Ok(decoded) => {
            proof {
                base64_text_decodes_back(decoded@);
            }
            Some(decoded)
        },
        Err(_) => None,
    }
}

} // verus!
