use vstd::prelude::*;
use vstd::string::*;
use uuid::Uuid;

verus! {

/// The lower-case hex digit of a number below sixteen.
pub open spec fn hex_digit(n: int) -> char {
    seq!['0', '1', '2', '3', '4', '5', '6', '7', '8', '9', 'a', 'b', 'c', 'd', 'e', 'f'][n]
}

/// Two lower-case hex digits for each byte, high half first.
pub open spec fn hex_of(bytes: Seq<u8>) -> Seq<char>
    decreases bytes.len(),
{
    if bytes.len() == 0 {
        Seq::empty()
    } else {
        seq![hex_digit(bytes[0] as int / 16), hex_digit(bytes[0] as int % 16)] + hex_of(bytes.drop_first())
    }
}

/// The hyphenated text of a 16-byte UUID: groups of 4, 2, 2, 2 and 6 bytes
/// in lower-case hex, joined by `-`.
pub open spec fn hyphenated(bytes: Seq<u8>) -> Seq<char> {
    hex_of(bytes.subrange(0, 4)) + seq!['-'] + hex_of(bytes.subrange(4, 6)) + seq!['-']
        + hex_of(bytes.subrange(6, 8)) + seq!['-'] + hex_of(bytes.subrange(8, 10)) + seq!['-']
        + hex_of(bytes.subrange(10, 16))
}

/// The bytes of a random (version 4, RFC 4122 variant) UUID: the high half of
/// byte 6 is 4 and the two high bits of byte 8 are `10`.
pub open spec fn is_v4(bytes: Seq<u8>) -> bool {
    &&& bytes.len() == 16
    &&& bytes[6] / 16 == 4
    &&& bytes[8] / 64 == 2
}

/// The suffix of every stored object's key.
pub open spec fn key_suffix() -> Seq<char> {
    seq!['.', 't', 'x', 't']
}

/// A key under which a message is stored: the text of a random UUID followed
/// by `.txt`.
pub open spec fn is_message_key(key: Seq<char>) -> bool {
    exists|bytes: Seq<u8>| is_v4(bytes) && key == #[trigger] hyphenated(bytes) + key_suffix()
}

/// Calls `uuid::Uuid::new_v4` and hands out the UUID's 16 bytes.
/// Claimed: the version half-byte is 4 and the variant bits are `10`, as
/// `new_v4` masks them in; the other 122 bits are random and nothing is said
/// of them.
#[verifier::external_body]
fn random_uuid_bytes() -> (bytes: [u8; 16])
    ensures
        is_v4(bytes@),
{
    Uuid::new_v4().into_bytes()
}

/// Formats the UUID made of `bytes` with its `Display` impl
/// (`uuid::Uuid::from_bytes`, then `to_string`).
/// Claimed: the text is the lower-case hyphenated form, 8-4-4-4-12 hex digits,
/// as the crate's `format_hyphenated` writes it.
#[verifier::external_body]
fn uuid_text(bytes: [u8; 16]) -> (text: String)
    ensures
        text@ == hyphenated(bytes@),
{
    Uuid::from_bytes(bytes).to_string()
}

/// The key `id` followed by `.txt`.
pub fn message_key(id: &str) -> (key: String)
    ensures
        key@ == id@ + key_suffix(),
{
    let suffix = ".txt";
    proof {
        reveal_strlit(".txt");
    }
    assert(suffix@ =~= key_suffix());
    let key = String::from_str(id).concat(suffix);
    key
}

/// The key for the UUID made of `bytes`: its hyphenated text followed by `.txt`.
pub fn uuid_key(bytes: [u8; 16]) -> (key: String)
    ensures
        key@ == hyphenated(bytes@) + key_suffix(),
{
    let text = uuid_text(bytes);
    message_key(text.as_str())
}

/// A fresh key for a message to store: a random UUID's text followed by `.txt`.
pub fn new_message_key() -> (key: String)
    ensures
        is_message_key(key@),
{
    let bytes = random_uuid_bytes();
    let key = uuid_key(bytes);
    assert(is_v4(bytes@) && key@ == hyphenated(bytes@) + key_suffix());
    key
}

/// Hex text is two digits per byte.
pub proof fn lemma_hex_len(bytes: Seq<u8>)
    ensures
        hex_of(bytes).len() == 2 * bytes.len(),
    decreases bytes.len(),
{
    if bytes.len() > 0 {
        lemma_hex_len(bytes.drop_first());
    }
}

/// Every message key is 40 characters long: 36 of UUID text and `.txt`.
pub proof fn lemma_message_key_len(key: Seq<char>)
    requires
        is_message_key(key),
    ensures
        key.len() == 40,
        key.subrange(36, 40) == key_suffix(),
{
    let bytes = choose|bytes: Seq<u8>| is_v4(bytes) && key == #[trigger] hyphenated(bytes) + key_suffix();
    lemma_hex_len(bytes.subrange(0, 4));
    lemma_hex_len(bytes.subrange(4, 6));
    lemma_hex_len(bytes.subrange(6, 8));
    lemma_hex_len(bytes.subrange(8, 10));
    lemma_hex_len(bytes.subrange(10, 16));
    assert(hyphenated(bytes).len() == 36);
    assert(key.subrange(36, 40) =~= key_suffix());
}

} // verus!
