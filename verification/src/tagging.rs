//! Whatever VLAN tagging a frame carries.

use crate::double::DoubleVlanHeader;
use crate::single::SingleVlanHeader;
use vstd::prelude::*;

verus! {

/// IEEE 802.1Q VLAN tagging header (can be single or double tagged).
#[derive(Clone, Copy, Debug, PartialEq, Eq, Structural)]
pub enum VlanHeader {
    /// IEEE 802.1Q VLAN tagging header.
    Single(SingleVlanHeader),
    /// IEEE 802.1Q double VLAN tagging header.
    Double(DoubleVlanHeader),
}

} // verus!
