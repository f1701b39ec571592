//! Device and peer identifiers.

use crate::text;
use uuid::Uuid;
use vstd::prelude::*;

verus! {

/// The sixteen bytes of some random (version 4) UUID.
pub open spec fn is_uuid_v4(bytes: Seq<u8>) -> bool {
    bytes.len() == 16 && bytes[6] / 16 == 4 && bytes[8] / 64 == 2
}

/// `Uuid::new_v4` of the `uuid` crate, as bytes: random but for the version and
/// variant bits. Panics where the system has no source of randomness.
#[verifier::external_body]
pub(crate) fn new_v4() -> (bytes: [u8; 16])
    ensures
        is_uuid_v4(bytes@),
{
    Uuid::new_v4().into_bytes()
}

/// The lower-case hexadecimal digit for a number below sixteen.
pub open spec fn hex_digit_lower(n: nat) -> char {
    if n < 10 {
        text::decimal_digit(n)
    } else {
        (n - 10 + 97) as char
    }
}

/// Bytes in lower-case hexadecimal, two digits each.
pub open spec fn hex_lower(bytes: Seq<u8>) -> Seq<char> {
    Seq::new(
        2 * bytes.len(),
        |i: int|
            if i % 2 == 0 {
                hex_digit_lower((bytes[i / 2] / 16) as nat)
            } else {
                hex_digit_lower((bytes[i / 2] % 16) as nat)
            },
    )
}

/// The usual text form of a UUID: 8, 4, 4, 4 and 12 lower-case hexadecimal
/// digits, joined by hyphens.
pub open spec fn uuid_text(bytes: Seq<u8>) -> Seq<char> {
    hex_lower(bytes.subrange(0, 4)) + seq!['-'] + hex_lower(bytes.subrange(4, 6)) + seq!['-']
        + hex_lower(bytes.subrange(6, 8)) + seq!['-'] + hex_lower(bytes.subrange(8, 10)) + seq!['-']
        + hex_lower(bytes.subrange(10, 16))
}

/// `Uuid`'s `Display` of the `uuid` crate: the hyphenated lower-case form.
#[verifier::external_body]
pub(crate) fn hyphenated(bytes: [u8; 16]) -> (res: String)
    ensures
        res@ == uuid_text(bytes@),
{
    Uuid::from_bytes(bytes).to_string()
}

/// The ID of a device made from random bytes: the first four, in upper-case
/// hexadecimal.
pub open spec fn device_id_text(bytes: Seq<u8>) -> Seq<char> {
    text::hex_upper(bytes.subrange(0, 4))
}

/// A device ID spells the first four bytes: eight upper-case hexadecimal digits,
/// two for each, from which the bytes read back. So different bytes give
/// different IDs.
pub proof fn law_device_ids_spell_their_bytes(bytes: Seq<u8>, i: int)
    requires
        bytes.len() == 16,
        0 <= i < 4,
    ensures
        device_id_text(bytes).len() == 8,
        0 <= text::hex_value(device_id_text(bytes)[2 * i]) < 16,
        0 <= text::hex_value(device_id_text(bytes)[2 * i + 1]) < 16,
        text::hex_value(device_id_text(bytes)[2 * i]) * 16 + text::hex_value(
            device_id_text(bytes)[2 * i + 1],
        ) == bytes[i],
{
    text::law_hexadecimal_reads_back(bytes.subrange(0, 4), i);
}

/// Where the two digits of the byte at `i` begin in the text of a UUID.
pub open spec fn uuid_position(i: int) -> int {
    if i < 4 {
        2 * i
    } else if i < 6 {
        2 * i + 1
    } else if i < 8 {
        2 * i + 2
    } else if i < 10 {
        2 * i + 3
    } else {
        2 * i + 4
    }
}

/// The number that a lower-case hexadecimal digit stands for.
pub open spec fn hex_value_lower(digit: char) -> int {
    if '0' <= digit <= '9' {
        digit as int - '0' as int
    } else if 'a' <= digit <= 'f' {
        digit as int - 'a' as int + 10
    } else {
        -1
    }
}

/// The text of a UUID has 36 characters, hyphens at their four places, and the
/// digits of every byte, from which the bytes read back.
pub proof fn law_uuids_spell_their_bytes(bytes: Seq<u8>, i: int)
    requires
        bytes.len() == 16,
        0 <= i < 16,
    ensures
        ({
            let id = uuid_text(bytes);
            let p = uuid_position(i);
            &&& id.len() == 36
            &&& id[8] == '-' && id[13] == '-' && id[18] == '-' && id[23] == '-'
            &&& hex_value_lower(id[p]) * 16 + hex_value_lower(id[p + 1]) == bytes[i]
            &&& 0 <= hex_value_lower(id[p]) < 16
            &&& 0 <= hex_value_lower(id[p + 1]) < 16
        }),
{
    let start = if i < 4 {
        0
    } else if i < 6 {
        4
    } else if i < 8 {
        6
    } else if i < 10 {
        8
    } else {
        10int
    };
    let end = if i < 4 {
        4
    } else if i < 6 {
        6
    } else if i < 8 {
        8
    } else if i < 10 {
        10
    } else {
        16int
    };
    let id = uuid_text(bytes);
    let p = uuid_position(i);
    let part = bytes.subrange(start, end);
    assert(part[i - start] == bytes[i]);
    let k = 2 * (i - start);
    assert(k / 2 == i - start && (k + 1) / 2 == i - start);
    assert(id[p] == hex_lower(part)[k]);
    assert(id[p + 1] == hex_lower(part)[k + 1]);
}

/// An 8-character upper-case hexadecimal ID made from random bytes.
pub fn device_id_from(bytes: [u8; 16]) -> (id: String)
    ensures
        id@ == device_id_text(bytes@),
        id@.len() == 8,
{
    let head: [u8; 4] = [bytes[0], bytes[1], bytes[2], bytes[3]];
    proof {
        reveal_with_fuel(text::hex_upper, 5);
        assert(head@ =~= bytes@.subrange(0, 4));
    }
    text::to_hex_upper(&head)
}

/// A new random device ID.
pub fn new_device_id() -> (id: String)
    ensures
        exists|bytes: Seq<u8>| #[trigger] is_uuid_v4(bytes) && id@ == device_id_text(bytes),
        id@.len() == 8,
{
    device_id_from(new_v4())
}

/// The ID of a client's session made from random bytes.
pub fn peer_id_from(bytes: [u8; 16]) -> (id: String)
    ensures
        id@ == uuid_text(bytes@),
{
    hyphenated(bytes)
}

/// A new random ID for a client's session.
pub fn new_peer_id() -> (id: String)
    ensures
        exists|bytes: Seq<u8>| #[trigger] is_uuid_v4(bytes) && id@ == uuid_text(bytes),
{
    peer_id_from(new_v4())
}

} // verus!
