//! Errors reported when a header is decoded or encoded.

use vstd::prelude::*;

verus! {

/// The header field that a value error refers to.
#[derive(Clone, Copy, Debug, PartialEq, Eq, Structural)]
pub enum ErrorField {
    /// The 3 bit priority code point of a VLAN tag.
    VlanTagPriorityCodePoint,
    /// The 12 bit VLAN identifier of a VLAN tag.
    VlanTagVlanId,
}

/// A field holds a value that its place on the wire cannot carry.
#[derive(Clone, Copy, Debug, PartialEq, Eq, Structural)]
#[allow(inconsistent_fields)]
pub enum ValueError {
    /// An 8 bit field is above its maximum.
    U8TooLarge { value: u8, max: u8, field: ErrorField },
    /// A 16 bit field is above its maximum.
    U16TooLarge { value: u16, max: u16, field: ErrorField },
}

/// Why a header could not be written.
#[derive(Clone, Copy, Debug, PartialEq, Eq, Structural)]
pub enum WriteError {
    /// A field of the header is out of range; nothing of that header was written.
    ValueError(ValueError),
}

/// Why bytes could not be taken from a byte source.
#[derive(Clone, Copy, Debug, PartialEq, Eq, Structural)]
pub enum IoError {
    /// The source ended before the requested number of bytes.
    UnexpectedEof,
}

/// Why a header could not be decoded.
#[derive(Clone, Copy, Debug, PartialEq, Eq, Structural)]
pub enum ReadError {
    /// The bytes could not be taken from the source.
    IoError(IoError),
    /// The outer tag of a double tagged header does not announce a further
    /// VLAN tag; the value is the ether type that was found instead.
    VlanDoubleTaggingUnexpectedOuterTpid(u16),
}

/// The outcome of checking `value` against `max` for an 8 bit field.
pub open spec fn max_check_u8_spec(value: u8, max: u8, field: ErrorField) -> Result<
    (),
    ValueError,
> {
    if value <= max {
        Ok(())
    } else {
        Err(ValueError::U8TooLarge { value, max, field })
    }
}

/// The outcome of checking `value` against `max` for a 16 bit field.
pub open spec fn max_check_u16_spec(value: u16, max: u16, field: ErrorField) -> Result<
    (),
    ValueError,
> {
    if value <= max {
        Ok(())
    } else {
        Err(ValueError::U16TooLarge { value, max, field })
    }
}

/// Accepts `value` if it is at most `max`, and otherwise reports it for `field`.
pub fn max_check_u8(value: u8, max: u8, field: ErrorField) -> (r: Result<(), ValueError>)
    ensures
        r == max_check_u8_spec(value, max, field),
{
    if value <= max {
        Ok(())
    } else {
        Err(ValueError::U8TooLarge { value, max, field })
    }
}

/// Accepts `value` if it is at most `max`, and otherwise reports it for `field`.
pub fn max_check_u16(value: u16, max: u16, field: ErrorField) -> (r: Result<(), ValueError>)
    ensures
        r == max_check_u16_spec(value, max, field),
{
    if value <= max {
        Ok(())
    } else {
        Err(ValueError::U16TooLarge { value, max, field })
    }
}

} // verus!
