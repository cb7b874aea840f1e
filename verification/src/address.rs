//! Mesh addresses: unicast, group, virtual and the unassigned address.
//!
//! A 16-bit address value classifies by its top bits: `0x0000` is
//! unassigned, values with the top bit clear are unicast (15-bit, non-zero),
//! `0b10xxxxxx_xxxxxxxx` values are virtual-address hashes, and
//! `0b11xxxxxx_xxxxxxxx` values are group addresses.

use vstd::prelude::*;

verus! {

/// A non-zero 15-bit unicast address.
#[derive(Clone, Copy, Debug, PartialEq, Eq, Structural, Hash)]
pub struct UnicastAddress(pub u16);

impl UnicastAddress {
    /// The raw 16-bit value of the address.
    pub open spec fn value_spec(self) -> u16 {
        self.0
    }

    /// Well-formedness: non-zero with the top bit clear.
    pub open spec fn wf(self) -> bool {
        self.0 != 0 && self.0 < 0x8000
    }

    /// Whether a raw value denotes a unicast address.
    pub open spec fn is_unicast_value(v: u16) -> bool {
        v != 0 && v < 0x8000
    }

    /// Validates a raw value as a unicast address. Exactly the non-zero
    /// values below `0x8000` are accepted.
    pub fn parse(v: u16) -> (r: Option<UnicastAddress>)
        ensures
            r is Some <==> Self::is_unicast_value(v),
            r is Some ==> r->Some_0 == (UnicastAddress(v)) && r->Some_0.wf(),
    {
        if v != 0 && v < 0x8000 {
            Some(UnicastAddress(v))
        } else {
            None
        }
    }

    /// The raw 16-bit value of the address.
    pub fn value(&self) -> (v: u16)
        ensures
            v == self.value_spec(),
    {
        self.0
    }
}

/// A classified destination address.
#[derive(Clone, Copy, Debug, PartialEq, Eq, Structural, Hash)]
pub enum Address {
    /// The all-zero, unassigned address.
    Unassigned,
    /// A unicast address.
    Unicast(UnicastAddress),
    /// The 14-bit hash of a virtual address label.
    Virtual(u16),
    /// A group address.
    Group(u16),
}

impl Address {
    /// The classification of a raw 16-bit address value.
    pub open spec fn parse_spec(v: u16) -> Address {
        if v == 0 {
            Address::Unassigned
        } else if v < 0x8000 {
            Address::Unicast(UnicastAddress(v))
        } else if v < 0xC000 {
            Address::Virtual(v)
        } else {
            Address::Group(v)
        }
    }

    /// Well-formedness: each variant carries a value in its own range.
    pub open spec fn wf(self) -> bool {
        match self {
            Address::Unassigned => true,
            Address::Unicast(u) => u.wf(),
            Address::Virtual(v) => 0x8000 <= v < 0xC000,
            Address::Group(v) => 0xC000 <= v,
        }
    }

    /// Classifies a raw 16-bit address value. Total: every value falls in
    /// exactly one of the four classes.
    pub fn parse(v: u16) -> (r: Address)
        ensures
            r == Self::parse_spec(v),
            r.wf(),
    {
        if v == 0 {
            Address::Unassigned
        } else if v < 0x8000 {
            Address::Unicast(UnicastAddress(v))
        } else if v < 0xC000 {
            Address::Virtual(v)
        } else {
            Address::Group(v)
        }
    }
}

} // verus!
