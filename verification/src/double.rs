//! The double tagged header as an owned value.

use crate::errors::{IoError, ReadError, WriteError};
use crate::ether_type::EtherType;
use crate::reader::ByteReader;
use crate::single::{lemma_write_then_read, SingleVlanHeader};
use crate::wire;
use vstd::prelude::*;

verus! {

/// IEEE 802.1Q double VLAN tagging header.
#[derive(Clone, Copy, Debug, PartialEq, Eq, Structural)]
pub struct DoubleVlanHeader {
    /// The outer VLAN tagging header.
    pub outer: SingleVlanHeader,
    /// The inner VLAN tagging header.
    pub inner: SingleVlanHeader,
}

impl DoubleVlanHeader {
    /// Serialized size of the header in bytes.
    pub const SERIALIZED_SIZE: usize = 8;

    /// The outer tag announces a further VLAN tag.
    pub open spec fn outer_announces_tag(outer: SingleVlanHeader) -> bool {
        outer.ether_type == EtherType::VlanTaggedFrame.value()
    }

    /// The eight bytes that stand for this header on the wire: the outer tag
    /// followed by the inner tag. Meaningful where both tags are valid.
    pub open spec fn encoded(&self) -> Seq<u8>
        recommends
            self.outer.is_valid(),
            self.inner.is_valid(),
    {
        self.outer.encoded() + self.inner.encoded()
    }

    /// The header that the first eight bytes of `bytes` stand for, whatever
    /// the outer tag announces.
    pub open spec fn decode(bytes: Seq<u8>) -> DoubleVlanHeader
        recommends
            bytes.len() >= 8,
    {
        DoubleVlanHeader {
            outer: SingleVlanHeader::decode(bytes),
            inner: SingleVlanHeader::decode(bytes.skip(4)),
        }
    }

    /// What reading a double tagged header from a source that still holds
    /// `bytes` gives. The inner tag is only looked at where the outer tag
    /// announces it.
    pub open spec fn read_result(bytes: Seq<u8>) -> Result<DoubleVlanHeader, ReadError> {
        if bytes.len() < 4 {
            Err(ReadError::IoError(IoError::UnexpectedEof))
        } else if wire::ether_type(bytes) != EtherType::VlanTaggedFrame.value() {
            Err(ReadError::VlanDoubleTaggingUnexpectedOuterTpid(wire::ether_type(bytes)))
        } else if bytes.len() < 8 {
            Err(ReadError::IoError(IoError::UnexpectedEof))
        } else {
            Ok(Self::decode(bytes))
        }
    }

    /// How many bytes reading a double tagged header takes from a source
    /// that still holds `bytes`: those of the outer tag, and those of the
    /// inner tag where the outer tag was read and announces it.
    pub open spec fn read_length(bytes: Seq<u8>) -> nat {
        if bytes.len() >= 4 && wire::ether_type(bytes) == EtherType::VlanTaggedFrame.value() {
            4 + SingleVlanHeader::read_length(bytes.skip(4))
        } else {
            SingleVlanHeader::read_length(bytes)
        }
    }

    /// What checking the fields before a write gives: the first complaint
    /// about the outer tag, or else the first about the inner tag.
    pub open spec fn range_check(&self) -> Result<(), WriteError> {
        if self.outer.range_check() is Err {
            self.outer.range_check()
        } else {
            self.inner.range_check()
        }
    }

    /// The bytes that a write leaves behind. The tags are written one after
    /// the other, each checked on its own, so a valid outer tag is written
    /// even where the inner tag is then refused.
    pub open spec fn written(&self) -> Seq<u8> {
        if !self.outer.is_valid() {
            Seq::empty()
        } else if !self.inner.is_valid() {
            self.outer.encoded()
        } else {
            self.encoded()
        }
    }

    /// Checks that `outer` can be the outer tag of a double tagged header:
    /// its ether type has to announce a further VLAN tag. Otherwise the
    /// ether type found is reported.
    pub fn check_outer(outer: &SingleVlanHeader) -> (r: Result<(), ReadError>)
        ensures
            Self::outer_announces_tag(*outer) ==> r is Ok,
            !Self::outer_announces_tag(*outer) ==> r == Err::<(), ReadError>(
                ReadError::VlanDoubleTaggingUnexpectedOuterTpid(outer.ether_type),
            ),
    {
        //check that the tagging protocol identifier is correct
        if EtherType::VlanTaggedFrame.value() != outer.ether_type {
            Err(ReadError::VlanDoubleTaggingUnexpectedOuterTpid(outer.ether_type))
        } else {
            Ok(())
        }
    }

    /// Reads a double tagging header from the given source.
    ///
    /// Where the outer tag does not announce a further VLAN tag, the read
    /// stops after the outer tag and leaves the bytes behind it in the source.
    pub fn read(reader: &mut ByteReader) -> (r: Result<DoubleVlanHeader, ReadError>)
        ensures
            r == Self::read_result(old(reader).remaining()),
            r matches Ok(header) ==> {
                &&& header.outer.is_valid()
                &&& header.inner.is_valid()
                &&& Self::outer_announces_tag(header.outer)
            },
            final(reader).consumed() == old(reader).consumed() + Self::read_length(
                old(reader).remaining(),
            ),
            final(reader).remaining() == old(reader).remaining().skip(
                Self::read_length(old(reader).remaining()) as int,
            ),
    {
        let outer = match SingleVlanHeader::read(reader) {
            Ok(outer) => outer,
            Err(e) => {
                return Err(ReadError::IoError(e));
            },
        };
        match Self::check_outer(&outer) {
            Ok(()) => {},
            Err(e) => {
                return Err(e);
            },
        }
        match SingleVlanHeader::read(reader) {
            Ok(inner) => Ok(DoubleVlanHeader { outer, inner }),
            Err(e) => Err(ReadError::IoError(e)),
        }
    }

    /// Writes the double IEEE 802.1Q VLAN tagging header.
    ///
    /// The outer tag is checked and written, then the inner tag. An error
    /// from either is handed on as it is.
    pub fn write(&self, writer: &mut Vec<u8>) -> (r: Result<(), WriteError>)
        ensures
            r == self.range_check(),
            r is Ok <==> self.outer.is_valid() && self.inner.is_valid(),
            final(writer)@ == old(writer)@ + self.written(),
    {
        match self.outer.write(writer) {
            Ok(()) => {},
            Err(e) => {
                return Err(e);
            },
        }
        self.inner.write(writer)
    }
}

/// Writing a double tagged header whose tags are valid and whose outer tag
/// announces the inner one, and reading it back, gives the header again, and
/// the read takes exactly the eight bytes that were written, whatever bytes
/// `rest` follow them.
pub proof fn lemma_double_write_then_read(header: DoubleVlanHeader, rest: Seq<u8>)
    requires
        header.outer.is_valid(),
        header.inner.is_valid(),
        DoubleVlanHeader::outer_announces_tag(header.outer),
    ensures
        header.range_check() is Ok,
        header.written() == header.encoded(),
        header.encoded().len() == 8,
        DoubleVlanHeader::read_result(header.encoded() + rest) == Ok::<
            DoubleVlanHeader,
            ReadError,
        >(header),
        DoubleVlanHeader::read_length(header.encoded() + rest) == 8,
        (header.encoded() + rest).skip(8) == rest,
{
    lemma_write_then_read(header.outer, header.inner.encoded() + rest);
    lemma_write_then_read(header.inner, rest);
}

/// Where the first four bytes of a source carry an ether type that does not
/// announce a further VLAN tag, reading a double tagged header fails with
/// that ether type and takes the first four bytes only.
pub proof fn lemma_unexpected_outer_tpid(bytes: Seq<u8>)
    requires
        bytes.len() >= 4,
        wire::ether_type(bytes) != EtherType::VlanTaggedFrame.value(),
    ensures
        DoubleVlanHeader::read_result(bytes) == Err::<DoubleVlanHeader, ReadError>(
            ReadError::VlanDoubleTaggingUnexpectedOuterTpid(wire::ether_type(bytes)),
        ),
        DoubleVlanHeader::read_length(bytes) == 4,
{
}

} // verus!
