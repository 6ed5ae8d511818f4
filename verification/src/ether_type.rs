//! Ether type numbers of the protocols that can follow a VLAN tag.

use vstd::prelude::*;

verus! {

/// Ether type enum, for the protocols whose 16 bit number is known here.
#[derive(Clone, Copy, Debug, PartialEq, Eq, Structural)]
pub enum EtherType {
    Ipv4,
    Ipv6,
    Arp,
    WakeOnLan,
    VlanTaggedFrame,
    ProviderBridging,
    VlanDoubleTaggedFrame,
}

impl EtherType {
    /// The number that stands for this protocol in an ether type field.
    pub open spec fn spec_value(self) -> u16 {
        match self {
            EtherType::Ipv4 => 0x0800,
            EtherType::Ipv6 => 0x86dd,
            EtherType::Arp => 0x0806,
            EtherType::WakeOnLan => 0x0842,
            EtherType::VlanTaggedFrame => 0x8100,
            EtherType::ProviderBridging => 0x88A8,
            EtherType::VlanDoubleTaggedFrame => 0x9100,
        }
    }

    /// The number that stands for this protocol in an ether type field.
    #[verifier::when_used_as_spec(spec_value)]
    pub fn value(self) -> (value: u16)
        ensures
            value == self.spec_value(),
    {
        match self {
            EtherType::Ipv4 => 0x0800,
            EtherType::Ipv6 => 0x86dd,
            EtherType::Arp => 0x0806,
            EtherType::WakeOnLan => 0x0842,
            EtherType::VlanTaggedFrame => 0x8100,
            EtherType::ProviderBridging => 0x88A8,
            EtherType::VlanDoubleTaggedFrame => 0x9100,
        }
    }
}

} // verus!
