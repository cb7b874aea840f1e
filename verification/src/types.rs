//! The model capability: identifiers, the error taxonomy, and the traits
//! through which concrete models plug their codecs in.
//!
//! Two layers mirror each other: a *concrete* model speaks the wire
//! directly, emitting into the bounded outbound buffer; the [`Model`] and
//! [`Message`] traits are the registration layer's view of it, with
//! [`FromDrogue`] adapting any concrete model and [`ModelMessage`] any
//! concrete message.

use vstd::prelude::*;
use crate::opcode::Opcode;
use crate::sink::sink_bytes;
use crate::sink::sink_new;
use crate::sink::sink_to_vec;

verus! {

/// Identity of a model type: either a standard (SIG-assigned) identifier or
/// a vendor identifier scoped by a 16-bit company identifier.
#[derive(Clone, Copy, Debug, PartialEq, Eq, Structural, Hash)]
pub enum ModelIdentifier {
    /// A standard model identifier.
    SIG(u16),
    /// A vendor model: company identifier, then model identifier.
    Vendor(u16, u16),
}

impl ModelIdentifier {
    /// The 16-bit model identifier sent on the wire in a publish call.
    /// For vendor models this is the model id alone, never combined with
    /// the company id.
    pub open spec fn wire_id_spec(self) -> u16 {
        match self {
            ModelIdentifier::SIG(id) => id,
            ModelIdentifier::Vendor(_, id) => id,
        }
    }

    /// The company identifier of a vendor model.
    pub open spec fn company_spec(self) -> Option<u16> {
        match self {
            ModelIdentifier::SIG(_) => None,
            ModelIdentifier::Vendor(company, _) => Some(company),
        }
    }

    /// The 16-bit model identifier sent on the wire in a publish call.
    pub fn wire_id(&self) -> (id: u16)
        ensures
            id == self.wire_id_spec(),
    {
        match self {
            ModelIdentifier::SIG(id) => *id,
            ModelIdentifier::Vendor(_, id) => *id,
        }
    }

    /// The company identifier, for vendor models only.
    pub fn company(&self) -> (c: Option<u16>)
        ensures
            c == self.company_spec(),
    {
        match self {
            ModelIdentifier::SIG(_) => None,
            ModelIdentifier::Vendor(company, _) => Some(*company),
        }
    }
}

/// The registry entry for one model hosted by an element: its identity and
/// capability flags, queried without requiring a parse.
#[derive(Clone, Copy, Debug, PartialEq, Eq, Structural, Hash)]
pub struct ModelInfo {
    /// The model's identifier.
    pub identifier: ModelIdentifier,
    /// Whether the model supports subscription.
    pub supports_subscription: bool,
    /// Whether the model supports publication.
    pub supports_publication: bool,
}

/// Failure to decode an inbound payload. Local to one message: the caller
/// logs and drops, and keeps serving its channel.
#[derive(Clone, Copy, Debug, PartialEq, Eq, Structural, Hash)]
pub enum ParseError {
    /// The payload carries a value that the codec rejects.
    InvalidValue,
    /// The payload has the wrong length for its opcode, or exceeds the
    /// protocol's single-message capacity.
    InvalidLength,
    /// The leading bytes are not a well-formed opcode of any width.
    UnrecognizedOpcode,
}

/// Failure to encode an outbound value into a bounded buffer. An overflow
/// fails the whole attempt; nothing is partially sent.
#[derive(Clone, Copy, Debug, PartialEq, Eq, Structural, Hash)]
pub enum EncodeError {
    /// The buffer cannot hold the encoded value.
    BufferOverflow,
}

/// A typed message of a concrete model, able to emit itself into the
/// bounded outbound buffer.
pub trait ConcreteMessage: Sized {
    /// The message's opcode, at the specification level.
    spec fn opcode_spec(&self) -> Opcode;

    /// The message's parameter bytes, at the specification level.
    spec fn params_spec(&self) -> Seq<u8>;

    /// The message's opcode.
    fn opcode(&self) -> (o: Opcode)
        ensures
            o == self.opcode_spec(),
    ;

    /// Emits the message's parameter bytes into the bounded buffer.
    /// Appends exactly the parameter bytes when they fit; fails with a
    /// capacity error, rather than truncating, when they do not.
    fn emit_parameters(&self, xmit: &mut heapless::Vec<u8, 384>) -> (r: Result<(), EncodeError>)
        ensures
            sink_bytes(*old(xmit)).len() + self.params_spec().len() <= 384 ==> r == Ok::<
                (),
                EncodeError,
            >(()) && sink_bytes(*final(xmit)) == sink_bytes(*old(xmit)) + self.params_spec(),
            sink_bytes(*old(xmit)).len() + self.params_spec().len() > 384 ==> r == Err::<
                (),
                EncodeError,
            >(EncodeError::BufferOverflow) && sink_bytes(*final(xmit)) == sink_bytes(*old(xmit)),
    ;
}

/// A concrete model: an identity, capability flags constant per type, and
/// a codec from (opcode, parameters) to its typed message.
pub trait ConcreteModel {
    /// The model's typed message.
    type Msg: ConcreteMessage;

    /// The model's identifier, at the specification level.
    spec fn identifier_spec() -> ModelIdentifier;

    /// Whether the model supports subscription, at the specification
    /// level.
    spec fn supports_subscription_spec() -> bool;

    /// Whether the model supports publication, at the specification
    /// level.
    spec fn supports_publication_spec() -> bool;

    /// The model's identifier; constant per type.
    fn identifier() -> (r: ModelIdentifier)
        ensures
            r == Self::identifier_spec(),
    ;

    /// Whether the model supports subscription; constant per type.
    fn supports_subscription() -> (r: bool)
        ensures
            r == Self::supports_subscription_spec(),
    ;

    /// Whether the model supports publication; constant per type.
    fn supports_publication() -> (r: bool)
        ensures
            r == Self::supports_publication_spec(),
    ;

    /// Parses an inbound payload. Returns `None` when the opcode belongs
    /// to a different model family — not an error — and a decode error
    /// when the opcode matches but the payload is malformed. A parsed
    /// message carries exactly the opcode and parameter bytes it was
    /// parsed from, so re-encoding it reproduces them.
    fn parse(opcode: Opcode, parameters: &[u8]) -> (r: Result<Option<Self::Msg>, ParseError>)
        ensures
            match r {
                Ok(Some(m)) => m.opcode_spec() == opcode && m.params_spec() == parameters@,
                _ => true,
            },
    ;
}

/// A typed message as the registration layer sees it, able to append its
/// parameter bytes to a growable buffer.
pub trait Message {
    /// The message's opcode, at the specification level.
    spec fn opcode_spec(&self) -> Opcode;

    /// The message's parameter bytes, at the specification level.
    spec fn params_spec(&self) -> Seq<u8>;

    /// The message's opcode.
    fn opcode(&self) -> (o: Opcode)
        ensures
            o == self.opcode_spec(),
    ;

    /// Appends the message's parameter bytes to `xmit`. The parameters
    /// must fit one outbound buffer.
    fn emit_parameters(&self, xmit: &mut Vec<u8>)
        requires
            self.params_spec().len() <= 384,
        ensures
            final(xmit)@ == old(xmit)@ + self.params_spec(),
    ;
}

/// Adapts a concrete message to the registration layer's [`Message`].
#[derive(Clone, Copy, Debug)]
pub struct ModelMessage<M> {
    /// The wrapped concrete message.
    pub m: M,
}

impl<M: ConcreteMessage> ModelMessage<M> {
    /// Wraps a concrete message.
    pub fn new(m: M) -> (r: Self)
        ensures
            r.m == m,
    {
        ModelMessage { m }
    }

    /// The wrapped message.
    pub fn inner(&self) -> (r: &M)
        ensures
            r == &self.m,
    {
        &self.m
    }
}

impl<M: ConcreteMessage> Message for ModelMessage<M> {
    open spec fn opcode_spec(&self) -> Opcode {
        self.m.opcode_spec()
    }

    open spec fn params_spec(&self) -> Seq<u8> {
        self.m.params_spec()
    }

    fn opcode(&self) -> (o: Opcode) {
        self.m.opcode()
    }

    fn emit_parameters(&self, xmit: &mut Vec<u8>) {
        let mut sink = sink_new();
        let r = self.m.emit_parameters(&mut sink);
        match r {
            Ok(()) => {
                let bytes = sink_to_vec(&sink);
                let mut i: usize = 0;
                while i < bytes.len()
                    invariant
                        i <= bytes.len(),
                        bytes@ == self.params_spec(),
                        xmit@ == old(xmit)@ + bytes@.subrange(0, i as int),
                    decreases bytes.len() - i,
                {
                    xmit.push(bytes[i]);
                    i = i + 1;
                    proof {
                        assert(xmit@ =~= old(xmit)@ + bytes@.subrange(0, i as int));
                    }
                }
                proof {
                    assert(bytes@.subrange(0, bytes@.len() as int) =~= bytes@);
                }
            }
            Err(_) => {
                proof {
                    assert(false);
                }
            }
        }
    }
}

/// The registration layer's view of a model: identity and capability
/// queries, answerable without a parse, plus the typed parse itself.
pub trait Model {
    /// The model's typed message.
    type Msg: Message;

    /// The model's identifier, at the specification level.
    spec fn identifier_spec(&self) -> ModelIdentifier;

    /// Whether the model supports subscription, at the specification
    /// level.
    spec fn supports_subscription_spec(&self) -> bool;

    /// Whether the model supports publication, at the specification
    /// level.
    spec fn supports_publication_spec(&self) -> bool;

    /// The model's identifier.
    fn identifier(&self) -> (r: ModelIdentifier)
        ensures
            r == self.identifier_spec(),
    ;

    /// Whether the model supports subscription.
    fn supports_subscription(&self) -> (r: bool)
        ensures
            r == self.supports_subscription_spec(),
    ;

    /// Whether the model supports publication.
    fn supports_publication(&self) -> (r: bool)
        ensures
            r == self.supports_publication_spec(),
    ;

    /// Parses an inbound payload; see [`ConcreteModel::parse`].
    fn parse(opcode: Opcode, parameters: &[u8]) -> (r: Result<Option<Self::Msg>, ParseError>)
        ensures
            match r {
                Ok(Some(m)) => m.opcode_spec() == opcode && m.params_spec() == parameters@,
                _ => true,
            },
    ;
}

/// The registry entry describing a model: its identity and capability
/// flags, read off without a parse.
pub fn model_info<M: Model>(m: &M) -> (r: ModelInfo)
    ensures
        r.identifier == m.identifier_spec(),
        r.supports_subscription == m.supports_subscription_spec(),
        r.supports_publication == m.supports_publication_spec(),
{
    ModelInfo {
        identifier: m.identifier(),
        supports_subscription: m.supports_subscription(),
        supports_publication: m.supports_publication(),
    }
}

/// Adapts any concrete model to the registration layer's [`Model`].
#[derive(Debug)]
pub struct FromDrogue<M> {
    _m: core::marker::PhantomData<M>,
}

impl<M: ConcreteModel> FromDrogue<M> {
    /// Wraps a concrete model. The model value itself carries no state;
    /// only its type matters.
    pub fn new(m: M) -> (r: Self) {
        let _ = m;
        FromDrogue { _m: core::marker::PhantomData }
    }
}

impl<M: ConcreteModel> Model for FromDrogue<M> {
    type Msg = ModelMessage<M::Msg>;

    open spec fn identifier_spec(&self) -> ModelIdentifier {
        M::identifier_spec()
    }

    open spec fn supports_subscription_spec(&self) -> bool {
        M::supports_subscription_spec()
    }

    open spec fn supports_publication_spec(&self) -> bool {
        M::supports_publication_spec()
    }

    fn identifier(&self) -> (r: ModelIdentifier) {
        M::identifier()
    }

    fn supports_subscription(&self) -> (r: bool) {
        M::supports_subscription()
    }

    fn supports_publication(&self) -> (r: bool) {
        M::supports_publication()
    }

    fn parse(opcode: Opcode, parameters: &[u8]) -> (r: Result<Option<Self::Msg>, ParseError>) {
        match M::parse(opcode, parameters) {
            Ok(Some(m)) => Ok(Some(ModelMessage::new(m))),
            Ok(None) => Ok(None),
            Err(e) => Err(e),
        }
    }
}

} // verus!
