//! Workflow identifiers: version-4 UUIDs held as their 128-bit value.
use vstd::prelude::*;

verus! {

/// The version field (bits 76..80) of a UUID held as a big-endian `u128`.
pub open spec fn uuid_version(id: u128) -> u128 {
    (id >> 76u128) & 0xfu128
}

/// The two variant bits (bits 62..64) of a UUID held as a big-endian `u128`.
pub open spec fn uuid_variant(id: u128) -> u128 {
    (id >> 62u128) & 0x3u128
}

/// Calls `uuid::Uuid::new_v4()` and returns `Uuid::as_u128` of it.
/// `new_v4` takes 128 random bits and overwrites the version nibble with 4 and the variant bits
/// with `10`; only those bits are stated, the rest are random.
#[verifier::external_body]
pub fn new_workflow_id() -> (id: u128)
    ensures
        uuid_version(id) == 4,
        uuid_variant(id) == 2,
{
    uuid::Uuid::new_v4().as_u128()
}

/// The lower-case hexadecimal digit for `d < 16`.
pub open spec fn hex_digit(d: u128) -> char {
    if d < 10 {
        (('0' as u8) + (d as u8)) as char
    } else {
        (('a' as u8) + (d as u8) - 10) as char
    }
}

/// The nibble of `id` at position `k` (0 is the most significant of the 32).
pub open spec fn nibble(id: u128, k: int) -> u128 {
    (id >> ((124 - 4 * k) as u128)) & 0xfu128
}

/// The hyphenated lower-case form of a UUID, `xxxxxxxx-xxxx-xxxx-xxxx-xxxxxxxxxxxx`.
pub open spec fn uuid_text(id: u128) -> Seq<char> {
    Seq::new(
        36,
        |i: int|
            if i == 8 || i == 13 || i == 18 || i == 23 {
                '-'
            } else {
                let k = if i < 8 {
                    i
                } else if i < 13 {
                    i - 1
                } else if i < 18 {
                    i - 2
                } else if i < 23 {
                    i - 3
                } else {
                    i - 4
                };
                hex_digit(nibble(id, k))
            },
    )
}

/// Formats `uuid::Uuid::from_u128(id)` with its `Display` impl, which writes the hyphenated
/// lower-case hexadecimal form of the sixteen big-endian bytes.
#[verifier::external_body]
pub fn workflow_id_text(id: u128) -> (s: String)
    ensures
        s@ == uuid_text(id),
{
    uuid::Uuid::from_u128(id).to_string()
}

} // verus!
