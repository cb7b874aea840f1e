//! The node: the client-side proxy used after a successful attach to
//! publish outbound messages.
//!
//! Publishing resolves the model's 16-bit wire identifier — for vendor
//! models the model id alone, never combined with the company id — and
//! frames opcode bytes then parameter bytes into one bounded buffer. An
//! overflow at either step fails the whole publish attempt; nothing is
//! partially sent. The runner performs the remote `Publish` call with the
//! returned frame and suspends until it is acknowledged.

use vstd::prelude::*;
use crate::access::MAX_ACCESS_PAYLOAD;
use crate::opcode::Opcode;
use crate::sink::sink_extend;
use crate::sink::sink_new;
use crate::sink::sink_to_vec;
use crate::types::ConcreteMessage;
use crate::types::ConcreteModel;
use crate::types::EncodeError;

verus! {

/// One outbound publish request, framed and ready for the daemon's
/// `Publish` procedure.
#[derive(Clone, Debug)]
pub struct PublishFrame {
    /// The path of the element publishing the message.
    pub element_path: String,
    /// The 16-bit model identifier sent on the wire.
    pub model_id: u16,
    /// The framed bytes: opcode, then parameters.
    pub data: Vec<u8>,
}

/// Frames one access message: opcode bytes, then parameter bytes, bounded
/// by the protocol's single-message capacity. Exactly the messages that
/// fit are framed; an oversize message fails with a buffer overflow.
pub fn encode_access(opcode: &Opcode, parameters: &[u8]) -> (r: Result<Vec<u8>, EncodeError>)
    ensures
        opcode.bytes().len() + parameters@.len() <= MAX_ACCESS_PAYLOAD ==> match r {
            Ok(v) => v@ == opcode.bytes() + parameters@,
            Err(_) => false,
        },
        opcode.bytes().len() + parameters@.len() > MAX_ACCESS_PAYLOAD ==> r == Err::<
            Vec<u8>,
            EncodeError,
        >(EncodeError::BufferOverflow),
{
    let mut opcode_bytes: Vec<u8> = Vec::new();
    opcode.emit(&mut opcode_bytes);
    let oplen = opcode.len();
    if parameters.len() > MAX_ACCESS_PAYLOAD - oplen {
        return Err(EncodeError::BufferOverflow);
    }
    let mut sink = sink_new();
    let first = sink_extend(&mut sink, opcode_bytes.as_slice());
    if first.is_err() {
        proof {
            assert(false);
        }
        return Err(EncodeError::BufferOverflow);
    }
    let second = sink_extend(&mut sink, parameters);
    if second.is_err() {
        proof {
            assert(false);
        }
        return Err(EncodeError::BufferOverflow);
    }
    Ok(sink_to_vec(&sink))
}

/// Interface to a mesh node obtained from a successful attach.
#[derive(Clone, Debug)]
pub struct Node {
    /// The node's object path.
    pub path: String,
}

impl Node {
    /// Creates a node proxy for the given object path.
    pub fn new(path: String) -> (r: Self)
        ensures
            r.path == path,
    {
        Node { path }
    }

    /// Frames a typed outbound message of model `M` for publication by
    /// the element at `path`.
    ///
    /// The frame carries the model's 16-bit wire identifier — for a
    /// vendor model the model id alone — and the opcode bytes followed by
    /// the parameter bytes. Exactly the messages that fit the protocol's
    /// single-message capacity are framed; an oversize message fails the
    /// whole attempt with a buffer overflow.
    pub fn publish<M: ConcreteModel>(&self, message: &M::Msg, path: String) -> (r: Result<
        PublishFrame,
        EncodeError,
    >)
        ensures
            message.opcode_spec().bytes().len() + message.params_spec().len()
                <= MAX_ACCESS_PAYLOAD ==> match r {
                Ok(f) => {
                    &&& f.element_path == path
                    &&& f.model_id == M::identifier_spec().wire_id_spec()
                    &&& f.data@ == message.opcode_spec().bytes() + message.params_spec()
                },
                Err(_) => false,
            },
            message.opcode_spec().bytes().len() + message.params_spec().len()
                > MAX_ACCESS_PAYLOAD ==> r == Err::<PublishFrame, EncodeError>(
                EncodeError::BufferOverflow,
            ),
    {
        let model_id = M::identifier().wire_id();
        let opcode = message.opcode();
        let mut sink = sink_new();
        let mut opcode_bytes: Vec<u8> = Vec::new();
        opcode.emit(&mut opcode_bytes);
        let first = sink_extend(&mut sink, opcode_bytes.as_slice());
        if first.is_err() {
            proof {
                assert(false);
            }
            return Err(EncodeError::BufferOverflow);
        }
        match message.emit_parameters(&mut sink) {
            Ok(()) => {}
            Err(_) => {
                return Err(EncodeError::BufferOverflow);
            }
        }
        let data = sink_to_vec(&sink);
        if data.len() > MAX_ACCESS_PAYLOAD {
            return Err(EncodeError::BufferOverflow);
        }
        Ok(PublishFrame { element_path: path, model_id, data })
    }
}

} // verus!
