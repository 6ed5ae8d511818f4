//! Headers looked at in place: views over borrowed bytes that compute each
//! field when it is asked for.
//!
//! A view checks the length of the bytes it is given and nothing else. In
//! particular the view of a double tagged header does not ask what its outer
//! tag announces; that is checked where a header is read from a source.

use crate::big_endian;
use crate::double::DoubleVlanHeader;
use crate::errors::{IoError, ReadError};
use crate::single::SingleVlanHeader;
use crate::wire;
use vstd::prelude::*;

verus! {

/// A slice containing a single VLAN header of a network package.
#[derive(Clone, Copy, Debug, PartialEq, Eq)]
pub struct SingleVlanHeaderSlice<'a> {
    slice: &'a [u8],
}

impl<'a> View for SingleVlanHeaderSlice<'a> {
    type V = Seq<u8>;

    /// The four bytes of the header.
    closed spec fn view(&self) -> Seq<u8> {
        self.slice@
    }
}

impl<'a> SingleVlanHeaderSlice<'a> {
    #[verifier::type_invariant]
    spec fn holds_one_header(&self) -> bool {
        self.slice@.len() == SingleVlanHeader::SERIALIZED_SIZE
    }

    /// Creates a VLAN header slice from a slice: a view of its first four
    /// bytes. A slice that is shorter is refused.
    pub fn from_slice(slice: &'a [u8]) -> (r: Result<SingleVlanHeaderSlice<'a>, ReadError>)
        ensures
            r is Ok <==> slice@.len() >= 4,
            r matches Ok(header) ==> header@ == slice@.take(4),
            r matches Err(e) ==> e == ReadError::IoError(IoError::UnexpectedEof),
    {
        //check length
        if slice.len() < SingleVlanHeader::SERIALIZED_SIZE {
            return Err(ReadError::IoError(IoError::UnexpectedEof));
        }
        //all done
        Ok(SingleVlanHeaderSlice { slice: &slice[0..SingleVlanHeader::SERIALIZED_SIZE] })
    }

    /// Returns the slice containing the single VLAN header.
    pub fn slice(&self) -> (slice: &'a [u8])
        ensures
            slice@ == self@,
            slice@.len() == 4,
    {
        proof {
            use_type_invariant(self);
        }
        self.slice
    }

    /// Read the "priority_code_point" field from the slice. This is a 3 bit
    /// number which refers to the IEEE 802.1p class of service and maps to
    /// the frame priority level.
    pub fn priority_code_point(&self) -> (value: u8)
        ensures
            value == wire::priority_code_point(self@),
            value <= wire::MAX_PRIORITY_CODE_POINT,
    {
        proof {
            use_type_invariant(self);
            wire::lemma_upper_three_bits(self.slice@[0]);
        }
        self.slice[0] >> 5
    }

    /// Read the "drop_eligible_indicator" flag from the slice. Indicates that
    /// the frame may be dropped under the presence of congestion.
    pub fn drop_eligible_indicator(&self) -> (value: bool)
        ensures
            value == wire::drop_eligible_indicator(self@),
    {
        proof {
            use_type_invariant(self);
            wire::lemma_bit_four(self.slice@[0]);
        }
        0 != (self.slice[0] & 0x10)
    }

    /// Reads the 12 bit "VLAN identifier" field from the slice.
    pub fn vlan_identifier(&self) -> (value: u16)
        ensures
            value == wire::vlan_identifier(self@),
            value <= wire::MAX_VLAN_IDENTIFIER,
    {
        proof {
            use_type_invariant(self);
            wire::lemma_lower_four_bits(self.slice@[0]);
        }
        let buffer: [u8; 2] = [self.slice[0] & 0xf, self.slice[1]];
        big_endian::read_u16(&buffer)
    }

    /// Read the "Tag protocol identifier" field from the slice.
    pub fn ether_type(&self) -> (value: u16)
        ensures
            value == wire::ether_type(self@),
    {
        proof {
            use_type_invariant(self);
        }
        big_endian::read_u16(&self.slice[2..4])
    }

    /// Decode all the fields and copy the results to a `SingleVlanHeader`
    /// struct.
    pub fn to_header(&self) -> (header: SingleVlanHeader)
        ensures
            header == SingleVlanHeader::decode(self@),
            header.is_valid(),
    {
        SingleVlanHeader {
            priority_code_point: self.priority_code_point(),
            drop_eligible_indicator: self.drop_eligible_indicator(),
            vlan_identifier: self.vlan_identifier(),
            ether_type: self.ether_type(),
        }
    }
}

/// A slice containing a double VLAN header of a network package.
#[derive(Clone, Copy, Debug, PartialEq, Eq)]
pub struct DoubleVlanHeaderSlice<'a> {
    slice: &'a [u8],
}

impl<'a> View for DoubleVlanHeaderSlice<'a> {
    type V = Seq<u8>;

    /// The eight bytes of the header.
    closed spec fn view(&self) -> Seq<u8> {
        self.slice@
    }
}

impl<'a> DoubleVlanHeaderSlice<'a> {
    #[verifier::type_invariant]
    spec fn holds_two_headers(&self) -> bool {
        self.slice@.len() == DoubleVlanHeader::SERIALIZED_SIZE
    }

    /// Creates a double header slice from a slice: a view of its first eight
    /// bytes. A slice that is shorter is refused. What the outer tag
    /// announces is not looked at.
    pub fn from_slice(slice: &'a [u8]) -> (r: Result<DoubleVlanHeaderSlice<'a>, ReadError>)
        ensures
            r is Ok <==> slice@.len() >= 8,
            r matches Ok(header) ==> header@ == slice@.take(8),
            r matches Err(e) ==> e == ReadError::IoError(IoError::UnexpectedEof),
    {
        //check length
        if slice.len() < DoubleVlanHeader::SERIALIZED_SIZE {
            return Err(ReadError::IoError(IoError::UnexpectedEof));
        }
        //all done
        Ok(DoubleVlanHeaderSlice { slice: &slice[0..DoubleVlanHeader::SERIALIZED_SIZE] })
    }

    /// Returns the slice containing the double VLAN header.
    pub fn slice(&self) -> (slice: &'a [u8])
        ensures
            slice@ == self@,
            slice@.len() == 8,
    {
        proof {
            use_type_invariant(self);
        }
        self.slice
    }

    /// Returns a slice with the outer VLAN header.
    pub fn outer(&self) -> (outer: SingleVlanHeaderSlice<'a>)
        ensures
            outer@ == self@.take(4),
    {
        proof {
            use_type_invariant(self);
        }
        SingleVlanHeaderSlice { slice: &self.slice[0..SingleVlanHeader::SERIALIZED_SIZE] }
    }

    /// Returns a slice with the inner VLAN header.
    pub fn inner(&self) -> (inner: SingleVlanHeaderSlice<'a>)
        ensures
            inner@ == self@.skip(4),
    {
        proof {
            use_type_invariant(self);
        }
        SingleVlanHeaderSlice {
            slice: &self.slice[SingleVlanHeader::SERIALIZED_SIZE..SingleVlanHeader::SERIALIZED_SIZE
                * 2],
        }
    }

    /// Decode all the fields and copy the results to a `DoubleVlanHeader`
    /// struct.
    pub fn to_header(&self) -> (header: DoubleVlanHeader)
        ensures
            header == DoubleVlanHeader::decode(self@),
            header.outer.is_valid(),
            header.inner.is_valid(),
    {
        let header = DoubleVlanHeader {
            outer: self.outer().to_header(),
            inner: self.inner().to_header(),
        };
        proof {
            use_type_invariant(self);
            lemma_decode_reads_four_bytes(self@);
        }
        header
    }
}

/// A view over bytes and a read from a source that holds the same bytes
/// agree: the view exists where the read succeeds, each field seen through
/// the view is that field of the header read, and the header that the view
/// gives is the header read.
pub proof fn lemma_view_agrees_with_read(bytes: Seq<u8>)
    requires
        bytes.len() >= 4,
    ensures
        SingleVlanHeader::read_result(bytes) == Ok::<SingleVlanHeader, IoError>(
            SingleVlanHeader::decode(bytes.take(4)),
        ),
        wire::priority_code_point(bytes.take(4)) == SingleVlanHeader::decode(
            bytes,
        ).priority_code_point,
        wire::drop_eligible_indicator(bytes.take(4)) == SingleVlanHeader::decode(
            bytes,
        ).drop_eligible_indicator,
        wire::vlan_identifier(bytes.take(4)) == SingleVlanHeader::decode(bytes).vlan_identifier,
        wire::ether_type(bytes.take(4)) == SingleVlanHeader::decode(bytes).ether_type,
{
}

/// A view over the bytes of a valid header shows the fields of that header,
/// whatever bytes `rest` follow them.
pub proof fn lemma_view_of_written(header: SingleVlanHeader, rest: Seq<u8>)
    requires
        header.is_valid(),
    ensures
        (header.encoded() + rest).len() >= 4,
        (header.encoded() + rest).take(4) == header.encoded(),
        wire::priority_code_point(header.encoded()) == header.priority_code_point,
        wire::drop_eligible_indicator(header.encoded()) == header.drop_eligible_indicator,
        wire::vlan_identifier(header.encoded()) == header.vlan_identifier,
        wire::ether_type(header.encoded()) == header.ether_type,
        SingleVlanHeader::decode(header.encoded()) == header,
{
}

/// Wherever a double tagged header can be read from a source, the view over
/// the same bytes gives the same header. The view gives a header also where
/// the read refuses the outer tag.
pub proof fn lemma_double_view_agrees_with_read(bytes: Seq<u8>)
    requires
        bytes.len() >= 8,
    ensures
        DoubleVlanHeader::read_result(bytes) matches Ok(header) ==> header
            == DoubleVlanHeader::decode(bytes.take(8)),
        DoubleVlanHeader::read_result(bytes) is Ok <==> DoubleVlanHeader::outer_announces_tag(
            DoubleVlanHeader::decode(bytes.take(8)).outer,
        ),
{
    lemma_decode_reads_four_bytes(bytes.skip(4));
}

/// A header is decoded from the first four bytes alone.
pub proof fn lemma_decode_reads_four_bytes(bytes: Seq<u8>)
    requires
        bytes.len() >= 4,
    ensures
        SingleVlanHeader::decode(bytes.take(4)) == SingleVlanHeader::decode(bytes),
{
}

} // verus!
