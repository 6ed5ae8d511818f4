//! The single tagged header as an owned value.

use crate::big_endian;
use crate::errors::{max_check_u16, max_check_u16_spec, max_check_u8, max_check_u8_spec};
use crate::errors::{ErrorField, IoError, WriteError};
use crate::reader::ByteReader;
use crate::wire;
use vstd::prelude::*;

verus! {

/// IEEE 802.1Q VLAN tagging header.
#[derive(Clone, Copy, Debug, PartialEq, Eq, Structural)]
pub struct SingleVlanHeader {
    /// A 3 bit number which refers to the IEEE 802.1p class of service and
    /// maps to the frame priority level.
    pub priority_code_point: u8,
    /// Indicates that the frame may be dropped under the presence of
    /// congestion.
    pub drop_eligible_indicator: bool,
    /// 12 bit VLAN identifier.
    pub vlan_identifier: u16,
    /// "Tag protocol identifier": type id of the content after this header.
    pub ether_type: u16,
}

impl Default for SingleVlanHeader {
    fn default() -> (header: SingleVlanHeader)
        ensures
            header == (SingleVlanHeader {
                priority_code_point: 0,
                drop_eligible_indicator: false,
                vlan_identifier: 0,
                ether_type: 0,
            }),
    {
        SingleVlanHeader {
            priority_code_point: 0,
            drop_eligible_indicator: false,
            vlan_identifier: 0,
            ether_type: 0,
        }
    }
}

impl SingleVlanHeader {
    /// Serialized size of the header in bytes.
    pub const SERIALIZED_SIZE: usize = 4;

    /// Every field fits the bits that the wire format gives it.
    pub open spec fn is_valid(&self) -> bool {
        &&& self.priority_code_point <= wire::MAX_PRIORITY_CODE_POINT
        &&& self.vlan_identifier <= wire::MAX_VLAN_IDENTIFIER
    }

    /// What checking the fields before a write gives: the priority code
    /// point is looked at first, then the VLAN identifier.
    pub open spec fn range_check(&self) -> Result<(), WriteError> {
        match max_check_u8_spec(
            self.priority_code_point,
            wire::MAX_PRIORITY_CODE_POINT,
            ErrorField::VlanTagPriorityCodePoint,
        ) {
            Err(e) => Err(WriteError::ValueError(e)),
            Ok(()) => match max_check_u16_spec(
                self.vlan_identifier,
                wire::MAX_VLAN_IDENTIFIER,
                ErrorField::VlanTagVlanId,
            ) {
                Err(e) => Err(WriteError::ValueError(e)),
                Ok(()) => Ok(()),
            },
        }
    }

    /// The four bytes that stand for this header on the wire. Meaningful for
    /// a valid header only.
    pub open spec fn encoded(&self) -> Seq<u8>
        recommends
            self.is_valid(),
    {
        wire::tag_bytes(
            self.priority_code_point,
            self.drop_eligible_indicator,
            self.vlan_identifier,
            self.ether_type,
        )
    }

    /// The header that the first four bytes of `bytes` stand for.
    pub open spec fn decode(bytes: Seq<u8>) -> SingleVlanHeader
        recommends
            bytes.len() >= 4,
    {
        SingleVlanHeader {
            priority_code_point: wire::priority_code_point(bytes),
            drop_eligible_indicator: wire::drop_eligible_indicator(bytes),
            vlan_identifier: wire::vlan_identifier(bytes),
            ether_type: wire::ether_type(bytes),
        }
    }

    /// What reading a header from a source that still holds `bytes` gives.
    pub open spec fn read_result(bytes: Seq<u8>) -> Result<SingleVlanHeader, IoError> {
        if bytes.len() >= 4 {
            Ok(Self::decode(bytes))
        } else {
            Err(IoError::UnexpectedEof)
        }
    }

    /// How many bytes reading a header takes from a source that still holds
    /// `bytes`. The header is taken in two halves of two bytes, so a source
    /// that ends within the second half has lost the first.
    pub open spec fn read_length(bytes: Seq<u8>) -> nat {
        if bytes.len() >= 4 {
            4
        } else if bytes.len() >= 2 {
            2
        } else {
            0
        }
    }

    /// Reads an IEEE 802.1Q VLAN tagging header.
    pub fn read(reader: &mut ByteReader) -> (r: Result<SingleVlanHeader, IoError>)
        ensures
            r == Self::read_result(old(reader).remaining()),
            r matches Ok(header) ==> header.is_valid(),
            final(reader).consumed() == old(reader).consumed() + Self::read_length(
                old(reader).remaining(),
            ),
            final(reader).remaining() == old(reader).remaining().skip(
                Self::read_length(old(reader).remaining()) as int,
            ),
    {
        let ghost bytes = reader.remaining();
        let mut buffer: [u8; 2] = [0; 2];
        match reader.read_exact(&mut buffer) {
            Ok(()) => {},
            Err(e) => {
                return Err(e);
            },
        }
        let drop_eligible_indicator: bool = 0 != (buffer[0] & 0x10);
        let priority_code_point: u8 = buffer[0] >> 5;
        //mask and read the vlan id
        buffer[0] = buffer[0] & 0xf;
        let vlan_identifier: u16 = big_endian::read_u16(&buffer);
        proof {
            wire::lemma_bit_four(bytes[0]);
            wire::lemma_upper_three_bits(bytes[0]);
            wire::lemma_lower_four_bits(bytes[0]);
        }
        match big_endian::read_u16_from(reader) {
            Ok(ether_type) => Ok(
                SingleVlanHeader {
                    priority_code_point,
                    drop_eligible_indicator,
                    vlan_identifier,
                    ether_type,
                },
            ),
            Err(e) => Err(e),
        }
    }

    /// Writes the IEEE 802.1Q VLAN tagging header.
    ///
    /// The fields are checked first. If one is out of range nothing is
    /// written.
    pub fn write(&self, writer: &mut Vec<u8>) -> (r: Result<(), WriteError>)
        ensures
            r == self.range_check(),
            r is Ok <==> self.is_valid(),
            r is Ok ==> final(writer)@ == old(writer)@ + self.encoded(),
            r is Err ==> final(writer)@ == old(writer)@,
    {
        //check value ranges
        match max_check_u8(
            self.priority_code_point,
            wire::MAX_PRIORITY_CODE_POINT,
            ErrorField::VlanTagPriorityCodePoint,
        ) {
            Ok(()) => {},
            Err(e) => {
                return Err(WriteError::ValueError(e));
            },
        }
        match max_check_u16(
            self.vlan_identifier,
            wire::MAX_VLAN_IDENTIFIER,
            ErrorField::VlanTagVlanId,
        ) {
            Ok(()) => {},
            Err(e) => {
                return Err(WriteError::ValueError(e));
            },
        }
        let mut buffer: [u8; 2] = [0; 2];
        big_endian::write_u16(&mut buffer, self.vlan_identifier);
        let ghost high: u8 = buffer[0];
        if self.drop_eligible_indicator {
            proof {
                wire::lemma_set_bit_four(high);
            }
            buffer[0] = buffer[0] | 0x10;
        }
        proof {
            wire::lemma_set_upper_three_bits(buffer[0], self.priority_code_point);
        }
        buffer[0] = buffer[0] | (self.priority_code_point << 5);
        writer.extend_from_slice(&buffer);
        big_endian::write_u16_to(writer, self.ether_type);
        Ok(())
    }
}

/// A header read from the wire is valid whatever the bytes were: each field
/// is cut from as many bits as it may have.
pub proof fn lemma_decoded_is_valid(bytes: Seq<u8>)
    ensures
        SingleVlanHeader::decode(bytes).is_valid(),
{
}

/// Writing a valid header and reading it back gives the header again, and
/// the read takes exactly the four bytes that were written, whatever bytes
/// `rest` follow them.
pub proof fn lemma_write_then_read(header: SingleVlanHeader, rest: Seq<u8>)
    requires
        header.is_valid(),
    ensures
        header.range_check() is Ok,
        header.encoded().len() == 4,
        SingleVlanHeader::read_result(header.encoded() + rest) == Ok::<
            SingleVlanHeader,
            IoError,
        >(header),
        SingleVlanHeader::read_length(header.encoded() + rest) == 4,
        (header.encoded() + rest).skip(4) == rest,
{
}

/// Reading a header and writing it again gives back the four bytes that
/// were read.
pub proof fn lemma_read_then_write(bytes: Seq<u8>)
    requires
        bytes.len() >= 4,
    ensures
        SingleVlanHeader::decode(bytes).encoded() == bytes.take(4),
{
}

} // verus!
