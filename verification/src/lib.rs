//! IEEE 802.1Q VLAN tagging headers, single and double tagged.
//!
//! A header exists in two forms. [`SingleVlanHeader`] and
//! [`DoubleVlanHeader`] are owned values that are read from a [`ByteReader`]
//! and written to a `Vec<u8>`. [`SingleVlanHeaderSlice`] and
//! [`DoubleVlanHeaderSlice`] are views over borrowed bytes that compute each
//! field when it is asked for.
//!
//! What the bytes of a header mean is stated once, as arithmetic, in
//! [`wire`]. Every function that reads or writes a header is proved against
//! that statement. The conversion of sixteen bit numbers to and from network
//! byte order is left to the `byteorder` crate; [`big_endian`] states what is
//! taken on trust about it.

pub mod big_endian;
pub mod double;
pub mod errors;
pub mod ether_type;
pub mod reader;
pub mod single;
pub mod slice;
pub mod tagging;
pub mod wire;

pub use crate::double::DoubleVlanHeader;
pub use crate::errors::{ErrorField, IoError, ReadError, ValueError, WriteError};
pub use crate::ether_type::EtherType;
pub use crate::reader::ByteReader;
pub use crate::single::SingleVlanHeader;
pub use crate::slice::{DoubleVlanHeaderSlice, SingleVlanHeaderSlice};
pub use crate::tagging::VlanHeader;
