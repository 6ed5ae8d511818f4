//! Sixteen bit numbers in network byte order.
//!
//! The conversions themselves are done by the `byteorder` crate. Verus does
//! not look into that crate: what it does is stated here and taken on trust.

use crate::errors::IoError;
use crate::reader::ByteReader;
use byteorder::{BigEndian, ByteOrder};
use vstd::prelude::*;

verus! {

/// The number whose big-endian form is `high` followed by `low`.
pub open spec fn from_bytes(high: u8, low: u8) -> u16 {
    (high as int * 256 + low as int) as u16
}

/// The first byte of the big-endian form of `n`: its upper eight bits.
pub open spec fn high_byte(n: u16) -> u8 {
    (n as int / 256) as u8
}

/// The second byte of the big-endian form of `n`: its lower eight bits.
pub open spec fn low_byte(n: u16) -> u8 {
    (n as int % 256) as u8
}

/// Calls `byteorder::BigEndian::read_u16` (trait `ByteOrder`).
///
/// Trusted: the call is taken to return the first two bytes of `buf` read as
/// a big-endian number, as `u16::from_be_bytes` does. The crate panics on a
/// buffer of fewer than two bytes, which the precondition rules out.
#[verifier::external_body]
pub(crate) fn read_u16(buf: &[u8]) -> (n: u16)
    requires
        buf@.len() >= 2,
    ensures
        n == from_bytes(buf@[0], buf@[1]),
{
    BigEndian::read_u16(buf)
}

/// Calls `byteorder::BigEndian::write_u16` (trait `ByteOrder`).
///
/// Trusted: the call is taken to overwrite the first two bytes of `buf` with
/// the big-endian form of `n`, as `u16::to_be_bytes` gives it, and to leave
/// the rest of `buf` as it was. The crate panics on a buffer of fewer than
/// two bytes, which the precondition rules out.
#[verifier::external_body]
pub(crate) fn write_u16(buf: &mut [u8], n: u16)
    requires
        old(buf)@.len() >= 2,
    ensures
        final(buf)@ == old(buf)@.update(0, high_byte(n)).update(1, low_byte(n)),
{
    BigEndian::write_u16(buf, n)
}

/// Takes the next two bytes from `reader` and reads them as a big-endian
/// number. If fewer than two bytes are left, nothing is taken.
pub fn read_u16_from(reader: &mut ByteReader) -> (r: Result<u16, IoError>)
    ensures
        r is Ok <==> old(reader).remaining().len() >= 2,
        r matches Ok(n) ==> {
            &&& n == from_bytes(old(reader).remaining()[0], old(reader).remaining()[1])
            &&& final(reader).remaining() == old(reader).remaining().skip(2)
            &&& final(reader).consumed() == old(reader).consumed() + 2
        },
        r matches Err(e) ==> {
            &&& e == IoError::UnexpectedEof
            &&& final(reader).remaining() == old(reader).remaining()
            &&& final(reader).consumed() == old(reader).consumed()
        },
{
    let mut buffer: [u8; 2] = [0; 2];
    match reader.read_exact(&mut buffer) {
        Ok(()) => Ok(read_u16(&buffer)),
        Err(e) => Err(e),
    }
}

/// Appends the big-endian form of `n` to `writer`.
pub fn write_u16_to(writer: &mut Vec<u8>, n: u16)
    ensures
        final(writer)@ == old(writer)@ + seq![high_byte(n), low_byte(n)],
{
    let mut buffer: [u8; 2] = [0; 2];
    write_u16(&mut buffer, n);
    writer.extend_from_slice(&buffer);
}

} // verus!
