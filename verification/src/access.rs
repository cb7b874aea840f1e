//! Access payloads: an opcode followed by opaque parameter bytes, bounded
//! by the protocol's single-message capacity.

use vstd::prelude::*;
use crate::opcode::Opcode;
use crate::types::ParseError;

verus! {

/// Greatest number of bytes (opcode plus parameters) that a single access
/// payload may carry.
pub const MAX_ACCESS_PAYLOAD: usize = 380;

/// An access payload: the opcode and the parameter bytes that follow it.
#[derive(Clone, Debug, PartialEq)]
pub struct AccessPayload {
    /// The opcode identifying the message's semantic type.
    pub opcode: Opcode,
    /// The parameter bytes following the opcode.
    pub parameters: Vec<u8>,
}

impl AccessPayload {
    /// Well-formedness: the opcode is well-formed and the whole payload
    /// fits the protocol's single-message capacity.
    pub open spec fn wf(self) -> bool {
        &&& self.opcode.wf()
        &&& self.opcode.bytes().len() + self.parameters@.len() <= MAX_ACCESS_PAYLOAD
    }

    /// The payload's bytes in wire order: opcode bytes, then parameters.
    pub open spec fn bytes_spec(self) -> Seq<u8> {
        self.opcode.bytes() + self.parameters@
    }

    /// What parsing raw payload bytes yields: the opcode and the parameter
    /// bytes, an opcode error if the leading bytes are not a well-formed
    /// opcode of any width, or a length error if the payload exceeds the
    /// single-message capacity.
    pub open spec fn parse_spec(data: Seq<u8>) -> Result<(Opcode, Seq<u8>), ParseError> {
        match Opcode::parse_spec(data) {
            Option::None => Err(ParseError::UnrecognizedOpcode),
            Option::Some((op, n)) => {
                if data.len() > MAX_ACCESS_PAYLOAD {
                    Err(ParseError::InvalidLength)
                } else {
                    Ok((op, data.subrange(n, data.len() as int)))
                }
            }
        }
    }

    /// Parses raw payload bytes into an access payload.
    pub fn parse(data: &[u8]) -> (r: Result<AccessPayload, ParseError>)
        ensures
            match r {
                Ok(p) => {
                    &&& Self::parse_spec(data@) == Ok::<_, ParseError>((p.opcode, p.parameters@))
                    &&& p.wf()
                    &&& p.bytes_spec() == data@
                },
                Err(e) => Self::parse_spec(data@) == Err::<(Opcode, Seq<u8>), _>(e),
            },
    {
        match Opcode::parse_prefix(data) {
            Option::None => Err(ParseError::UnrecognizedOpcode),
            Option::Some((op, n)) => {
                if data.len() > MAX_ACCESS_PAYLOAD {
                    Err(ParseError::InvalidLength)
                } else {
                    proof {
                        crate::opcode::lemma_opcode_parse_exact(data@, op, n as int);
                    }
                    let parameters = vstd::slice::slice_to_vec(vstd::slice::slice_subrange(
                        data,
                        n,
                        data.len(),
                    ));
                    let p = AccessPayload { opcode: op, parameters };
                    proof {
                        assert(p.bytes_spec() =~= data@);
                    }
                    Ok(p)
                }
            }
        }
    }

    /// The payload's bytes in wire order: opcode bytes, then parameters.
    pub fn to_bytes(&self) -> (r: Vec<u8>)
        ensures
            r@ == self.bytes_spec(),
    {
        let mut out: Vec<u8> = Vec::new();
        self.opcode.emit(&mut out);
        let mut i: usize = 0;
        while i < self.parameters.len()
            invariant
                i <= self.parameters.len(),
                out@ == self.opcode.bytes() + self.parameters@.subrange(0, i as int),
            decreases self.parameters.len() - i,
        {
            out.push(self.parameters[i]);
            i = i + 1;
            proof {
                assert(out@ =~= self.opcode.bytes() + self.parameters@.subrange(0, i as int));
            }
        }
        proof {
            assert(self.parameters@.subrange(0, self.parameters@.len() as int) =~= self.parameters@);
        }
        out
    }
}

/// Law: a well-formed access payload round-trips exactly: parsing the bytes
/// it encodes to yields the same opcode and the same parameter bytes.
pub proof fn lemma_payload_roundtrip(p: AccessPayload)
    requires
        p.wf(),
    ensures
        AccessPayload::parse_spec(p.bytes_spec()) == Ok::<_, ParseError>((p.opcode, p.parameters@)),
{
    crate::opcode::lemma_opcode_roundtrip(p.opcode, p.parameters@);
    let data = p.bytes_spec();
    let n = p.opcode.bytes().len() as int;
    assert(data.subrange(n, data.len() as int) =~= p.parameters@);
}

} // verus!
