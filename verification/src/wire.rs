//! The layout of one VLAN tag on the wire.
//!
//! ```text
//! byte 0     bits 7-5  priority code point
//!            bit  4    drop eligible indicator
//!            bits 3-0  VLAN identifier, bits 11-8
//! byte 1               VLAN identifier, bits 7-0
//! byte 2, 3            ether type, big-endian
//! ```
//!
//! The layout is stated here as arithmetic on the bytes. The lemmas at the
//! end tie the shifts and masks of the executable code to that arithmetic.

use crate::big_endian;
use vstd::prelude::*;

verus! {

/// The largest priority code point that three bits can carry.
pub const MAX_PRIORITY_CODE_POINT: u8 = 0x7;

/// The largest VLAN identifier that twelve bits can carry.
pub const MAX_VLAN_IDENTIFIER: u16 = 0xfff;

/// The priority code point carried by `bytes`: the upper three bits of the
/// first byte.
pub open spec fn priority_code_point(bytes: Seq<u8>) -> u8
    recommends
        bytes.len() >= 1,
{
    bytes[0] / 32
}

/// The drop eligible indicator carried by `bytes`: bit 4 of the first byte.
pub open spec fn drop_eligible_indicator(bytes: Seq<u8>) -> bool
    recommends
        bytes.len() >= 1,
{
    (bytes[0] / 16) % 2 == 1
}

/// The VLAN identifier carried by `bytes`: the lower four bits of the first
/// byte followed by the second byte.
pub open spec fn vlan_identifier(bytes: Seq<u8>) -> u16
    recommends
        bytes.len() >= 2,
{
    big_endian::from_bytes(bytes[0] % 16, bytes[1])
}

/// The ether type carried by `bytes`: the third and fourth byte.
pub open spec fn ether_type(bytes: Seq<u8>) -> u16
    recommends
        bytes.len() >= 4,
{
    big_endian::from_bytes(bytes[2], bytes[3])
}

/// The first byte of a tag with the given fields.
pub open spec fn first_byte(
    priority_code_point: u8,
    drop_eligible_indicator: bool,
    vlan_identifier: u16,
) -> u8
    recommends
        priority_code_point <= MAX_PRIORITY_CODE_POINT,
        vlan_identifier <= MAX_VLAN_IDENTIFIER,
{
    (priority_code_point as int * 32 + (if drop_eligible_indicator {
        16int
    } else {
        0int
    }) + vlan_identifier as int / 256) as u8
}

/// The four bytes of a tag with the given fields.
pub open spec fn tag_bytes(
    priority_code_point: u8,
    drop_eligible_indicator: bool,
    vlan_identifier: u16,
    ether_type: u16,
) -> Seq<u8>
    recommends
        priority_code_point <= MAX_PRIORITY_CODE_POINT,
        vlan_identifier <= MAX_VLAN_IDENTIFIER,
{
    seq![
        first_byte(priority_code_point, drop_eligible_indicator, vlan_identifier),
        big_endian::low_byte(vlan_identifier),
        big_endian::high_byte(ether_type),
        big_endian::low_byte(ether_type),
    ]
}

/// Shifting a byte right by five leaves its upper three bits.
pub proof fn lemma_upper_three_bits(byte: u8)
    by (bit_vector)
    ensures
        byte >> 5 == byte / 32,
        byte >> 5 <= 7,
{
}

/// Masking a byte with `0x10` tests its bit 4.
pub proof fn lemma_bit_four(byte: u8)
    by (bit_vector)
    ensures
        (byte & 0x10 != 0) <==> (byte / 16) % 2 == 1,
{
}

/// Masking a byte with `0xf` leaves its lower four bits.
pub proof fn lemma_lower_four_bits(byte: u8)
    by (bit_vector)
    ensures
        byte & 0xf == byte % 16,
        byte & 0xf <= 15,
{
}

/// Setting bit 4 of a byte below sixteen adds sixteen to it.
pub proof fn lemma_set_bit_four(byte: u8)
    by (bit_vector)
    requires
        byte < 16,
    ensures
        byte | 0x10 == byte + 16,
{
}

/// Placing a three bit number above the lower five bits of a byte adds
/// thirty-two times that number.
pub proof fn lemma_set_upper_three_bits(byte: u8, upper: u8)
    by (bit_vector)
    requires
        byte < 32,
        upper <= 7,
    ensures
        byte | (upper << 5) == byte + upper * 32,
{
}

} // verus!
