//! Wire opcodes: the 1-3 leading bytes of a mesh access message.
//!
//! The width of an opcode is determined by the two most significant bits of
//! its first byte: `0b0xxxxxxx` is a single-octet opcode (with `0x7F`
//! reserved and rejected), `0b10xxxxxx` starts a two-octet opcode, and
//! `0b11xxxxxx` starts a three-octet (vendor) opcode. An opcode must
//! round-trip exactly through encode and decode.

use vstd::prelude::*;

verus! {

/// A wire opcode, stored as the exact bytes that appear on the wire.
#[derive(Clone, Copy, Debug, PartialEq, Eq, Structural, Hash)]
pub enum Opcode {
    /// Single-octet opcode: first bit zero, `0x7F` excluded.
    OneOctet(u8),
    /// Two-octet opcode: first byte `0b10xxxxxx`.
    TwoOctet(u8, u8),
    /// Three-octet (vendor) opcode: first byte `0b11xxxxxx`.
    ThreeOctet(u8, u8, u8),
}

impl Opcode {
    /// Well-formedness: the leading byte carries the tag bits of its width,
    /// and the reserved single-octet value `0x7F` is excluded.
    pub open spec fn wf(self) -> bool {
        match self {
            Opcode::OneOctet(b) => b & 0x80 == 0 && b != 0x7F,
            Opcode::TwoOctet(b0, _) => b0 & 0xC0 == 0x80,
            Opcode::ThreeOctet(b0, _, _) => b0 & 0xC0 == 0xC0,
        }
    }

    /// The bytes of the opcode, in wire order.
    pub open spec fn bytes(self) -> Seq<u8> {
        match self {
            Opcode::OneOctet(b) => seq![b],
            Opcode::TwoOctet(b0, b1) => seq![b0, b1],
            Opcode::ThreeOctet(b0, b1, b2) => seq![b0, b1, b2],
        }
    }

    /// Number of bytes the opcode occupies on the wire.
    pub fn len(&self) -> (n: usize)
        ensures
            n == self.bytes().len(),
            1 <= n <= 3,
    {
        match self {
            Opcode::OneOctet(_) => 1,
            Opcode::TwoOctet(_, _) => 2,
            Opcode::ThreeOctet(_, _, _) => 3,
        }
    }

    /// Appends the opcode bytes to `out`.
    pub fn emit(&self, out: &mut Vec<u8>)
        ensures
            final(out)@ == old(out)@ + self.bytes(),
    {
        match self {
            Opcode::OneOctet(b) => {
                out.push(*b);
            }
            Opcode::TwoOctet(b0, b1) => {
                out.push(*b0);
                out.push(*b1);
            }
            Opcode::ThreeOctet(b0, b1, b2) => {
                out.push(*b0);
                out.push(*b1);
                out.push(*b2);
            }
        }
        assert(out@ =~= old(out)@ + self.bytes());
    }

    /// What parsing the leading bytes of `data` yields: the opcode and the
    /// number of bytes it occupies, or nothing if the leading bytes are not
    /// a well-formed opcode.
    pub open spec fn parse_spec(data: Seq<u8>) -> Option<(Opcode, int)> {
        if data.len() >= 1 && data[0] & 0x80 == 0 {
            if data[0] == 0x7F {
                None
            } else {
                Some((Opcode::OneOctet(data[0]), 1))
            }
        } else if data.len() >= 2 && data[0] & 0xC0 == 0x80 {
            Some((Opcode::TwoOctet(data[0], data[1]), 2))
        } else if data.len() >= 3 && data[0] & 0xC0 == 0xC0 {
            Some((Opcode::ThreeOctet(data[0], data[1], data[2]), 3))
        } else {
            None
        }
    }

    /// Parses the opcode at the start of `data`, returning it together with
    /// the number of bytes consumed.
    pub fn parse_prefix(data: &[u8]) -> (r: Option<(Opcode, usize)>)
        ensures
            match r {
                Some((op, n)) => Self::parse_spec(data@) == Some((op, n as int)) && op.wf(),
                None => Self::parse_spec(data@) is None,
            },
    {
        if data.len() >= 1 && data[0] & 0x80 == 0 {
            if data[0] == 0x7F {
                None
            } else {
                Some((Opcode::OneOctet(data[0]), 1))
            }
        } else if data.len() >= 2 && data[0] & 0xC0 == 0x80 {
            Some((Opcode::TwoOctet(data[0], data[1]), 2))
        } else if data.len() >= 3 && data[0] & 0xC0 == 0xC0 {
            Some((Opcode::ThreeOctet(data[0], data[1], data[2]), 3))
        } else {
            None
        }
    }
}

/// Law: a well-formed opcode round-trips exactly through encode and decode.
/// Parsing its emitted bytes, followed by anything, yields the same opcode
/// and consumes exactly its bytes.
pub proof fn lemma_opcode_roundtrip(op: Opcode, rest: Seq<u8>)
    requires
        op.wf(),
    ensures
        Opcode::parse_spec(op.bytes() + rest) == Some((op, op.bytes().len() as int)),
{
    let data = op.bytes() + rest;
    match op {
        Opcode::OneOctet(b) => {
            assert(data[0] == b);
        }
        Opcode::TwoOctet(b0, b1) => {
            assert(data[0] == b0 && data[1] == b1);
            assert(b0 & 0xC0 == 0x80 ==> b0 & 0x80 != 0) by (bit_vector);
        }
        Opcode::ThreeOctet(b0, b1, b2) => {
            assert(data[0] == b0 && data[1] == b1 && data[2] == b2);
            assert(b0 & 0xC0 == 0xC0 ==> b0 & 0x80 != 0) by (bit_vector);
        }
    }
}

/// Law: a successful parse reads back exactly the bytes of the opcode it
/// returns, and that opcode is well-formed. Together with
/// [`lemma_opcode_roundtrip`] this makes the wire encoding of opcodes
/// bijective.
pub proof fn lemma_opcode_parse_exact(data: Seq<u8>, op: Opcode, n: int)
    requires
        Opcode::parse_spec(data) == Some((op, n)),
    ensures
        op.wf(),
        1 <= n <= 3,
        n <= data.len(),
        op.bytes() == data.subrange(0, n),
{
    if data.len() >= 1 && data[0] & 0x80 == 0 {
        assert(op.bytes() =~= data.subrange(0, n));
    } else if data.len() >= 2 && data[0] & 0xC0 == 0x80 {
        assert(op.bytes() =~= data.subrange(0, n));
    } else {
        let b0 = data[0];
        assert(data.len() >= 3 && b0 & 0xC0 == 0xC0);
        assert(op.bytes() =~= data.subrange(0, n));
    }
}

} // verus!
