//! Concrete models: a temperature sensor client and a vendor model.
//!
//! The sensor model hosts one property, id `0x4F`, one byte wide, carrying
//! a temperature in half-degree steps: raw value `0x2A` (42) reads as 21
//! degrees. Its message family is the sensor status, opcode `0x52`. The
//! vendor model is scoped by company identifier `0x05F1` with model id
//! `0x0001`; its family is the three-octet opcodes carrying that company
//! identifier, and its messages are uninterpreted parameter bytes.

use vstd::prelude::*;
use crate::opcode::Opcode;
use crate::sink::sink_bytes;
use crate::sink::sink_extend;
use crate::types::ConcreteMessage;
use crate::types::ConcreteModel;
use crate::types::EncodeError;
use crate::types::ModelIdentifier;
use crate::types::ParseError;

verus! {

/// A device property identifier.
#[derive(Clone, Copy, Debug, PartialEq, Eq, Structural, Hash)]
pub struct PropertyId(pub u16);

/// Descriptor of one sensor property: its identifier and the width of its
/// value in bytes.
#[derive(Clone, Copy, Debug, PartialEq, Eq, Structural, Hash)]
pub struct SensorDescriptor {
    /// The property this sensor reports.
    pub id: PropertyId,
    /// The width of the property value, in bytes.
    pub size: usize,
}

impl SensorDescriptor {
    /// Describes a sensor property.
    pub fn new(id: PropertyId, size: usize) -> (r: Self)
        ensures
            r == (SensorDescriptor { id, size }),
    {
        SensorDescriptor { id, size }
    }
}

/// A temperature reading in half-degree steps: the raw wire byte denotes
/// `raw / 2` degrees.
#[derive(Clone, Copy, Debug, PartialEq, Eq, Structural, Hash)]
pub struct Temperature(pub u8);

impl Default for Temperature {
    fn default() -> (r: Self)
        ensures
            r == (Temperature(0)),
    {
        Temperature(0)
    }
}

impl Temperature {
    /// Decodes a property value. Exactly property `0x4F` with a one-byte
    /// value is accepted; a different property fails with an
    /// invalid-value error and a different width with a length error,
    /// leaving the reading unchanged.
    pub fn decode(&mut self, id: PropertyId, params: &[u8]) -> (r: Result<(), ParseError>)
        ensures
            id.0 == 0x4F && params@.len() == 1 ==> r == Ok::<(), ParseError>(()) && *final(self)
                == (Temperature(params@[0])),
            id.0 != 0x4F ==> r == Err::<(), ParseError>(ParseError::InvalidValue) && *final(self)
                == *old(self),
            id.0 == 0x4F && params@.len() != 1 ==> r == Err::<(), ParseError>(
                ParseError::InvalidLength,
            ) && *final(self) == *old(self),
    {
        if id.0 != 0x4F {
            Err(ParseError::InvalidValue)
        } else if params.len() != 1 {
            Err(ParseError::InvalidLength)
        } else {
            self.0 = params[0];
            Ok(())
        }
    }

    /// Encodes the reading into the bounded buffer: one raw byte,
    /// appended when it fits, and a capacity error — nothing emitted —
    /// when the buffer is full.
    pub fn encode(&self, id: PropertyId, xmit: &mut heapless::Vec<u8, 384>) -> (r: Result<
        (),
        EncodeError,
    >)
        ensures
            sink_bytes(*old(xmit)).len() + 1 <= 384 ==> r == Ok::<(), EncodeError>(())
                && sink_bytes(*final(xmit)) == sink_bytes(*old(xmit)) + seq![self.0],
            sink_bytes(*old(xmit)).len() + 1 > 384 ==> r == Err::<(), EncodeError>(
                EncodeError::BufferOverflow,
            ) && sink_bytes(*final(xmit)) == sink_bytes(*old(xmit)),
    {
        let _ = id;
        let byte: [u8; 1] = [self.0];
        match sink_extend(xmit, byte.as_slice()) {
            Ok(()) => {
                proof {
                    assert(byte@ =~= seq![self.0]);
                }
                Ok(())
            }
            Err(()) => Err(EncodeError::BufferOverflow),
        }
    }
}

/// One sensor status report.
#[derive(Clone, Copy, Debug, PartialEq, Eq, Structural, Hash)]
pub struct SensorStatus {
    /// The reported reading.
    pub data: Temperature,
}

/// The sensor model's message family.
#[derive(Clone, Copy, Debug, PartialEq, Eq, Structural, Hash)]
pub enum SensorMessage {
    /// A sensor status report, opcode `0x52`.
    Status(SensorStatus),
}

impl ConcreteMessage for SensorMessage {
    open spec fn opcode_spec(&self) -> Opcode {
        Opcode::OneOctet(0x52)
    }

    open spec fn params_spec(&self) -> Seq<u8> {
        match self {
            SensorMessage::Status(s) => seq![s.data.0],
        }
    }

    fn opcode(&self) -> (o: Opcode) {
        Opcode::OneOctet(0x52)
    }

    fn emit_parameters(&self, xmit: &mut heapless::Vec<u8, 384>) -> (r: Result<(), EncodeError>) {
        match self {
            SensorMessage::Status(s) => s.data.encode(PropertyId(0x4F), xmit),
        }
    }
}

/// What parsing an inbound payload yields for the sensor model: a status
/// for a one-byte payload under the status opcode, a length error for any
/// other payload under it, and nothing for other opcodes.
pub open spec fn sensor_parse_spec(opcode: Opcode, params: Seq<u8>) -> Result<
    Option<SensorMessage>,
    ParseError,
> {
    if opcode == Opcode::OneOctet(0x52) {
        if params.len() == 1 {
            Ok(Some(SensorMessage::Status(SensorStatus { data: Temperature(params[0]) })))
        } else {
            Err(ParseError::InvalidLength)
        }
    } else {
        Ok(None)
    }
}

/// The temperature sensor client model.
#[derive(Clone, Copy, Debug, PartialEq, Eq, Structural, Hash)]
pub struct SensorModel;

impl SensorModel {
    /// The properties this model hosts: property `0x4F`, one byte wide.
    pub fn descriptors() -> (r: Vec<SensorDescriptor>)
        ensures
            r@.len() == 1,
            r@[0] == (SensorDescriptor { id: PropertyId(0x4F), size: 1 }),
    {
        let mut out: Vec<SensorDescriptor> = Vec::new();
        out.push(SensorDescriptor::new(PropertyId(0x4F), 1));
        out
    }
}

impl ConcreteModel for SensorModel {
    type Msg = SensorMessage;

    open spec fn identifier_spec() -> ModelIdentifier {
        ModelIdentifier::SIG(0x1102)
    }

    open spec fn supports_subscription_spec() -> bool {
        true
    }

    open spec fn supports_publication_spec() -> bool {
        true
    }

    fn identifier() -> (r: ModelIdentifier) {
        ModelIdentifier::SIG(0x1102)
    }

    fn supports_subscription() -> (r: bool) {
        true
    }

    fn supports_publication() -> (r: bool) {
        true
    }

    fn parse(opcode: Opcode, parameters: &[u8]) -> (r: Result<Option<Self::Msg>, ParseError>)
        ensures
            r == sensor_parse_spec(opcode, parameters@),
    {
        if let Opcode::OneOctet(b) = opcode {
            if b == 0x52 {
                let mut data = Temperature(0);
                match data.decode(PropertyId(0x4F), parameters) {
                    Ok(()) => {
                        proof {
                            assert(seq![parameters@[0]] =~= parameters@);
                        }
                        return Ok(Some(SensorMessage::Status(SensorStatus { data })));
                    }
                    Err(e) => {
                        return Err(e);
                    }
                }
            }
        }
        Ok(None)
    }
}

/// Law: the sensor codec round-trips. A message parsed from any accepted
/// (opcode, parameters) carries exactly those parameter bytes and that
/// opcode — so re-encoding it reproduces the bytes — and re-parsing what
/// it encodes to yields the same message again.
pub proof fn lemma_sensor_parse_roundtrip(opcode: Opcode, params: Seq<u8>, m: SensorMessage)
    requires
        sensor_parse_spec(opcode, params) == Ok::<Option<SensorMessage>, ParseError>(Some(m)),
    ensures
        m.opcode_spec() == opcode,
        m.params_spec() == params,
        sensor_parse_spec(m.opcode_spec(), m.params_spec()) == Ok::<
            Option<SensorMessage>,
            ParseError,
        >(Some(m)),
{
    assert(m.params_spec() =~= params);
}

/// The vendor model's message family: uninterpreted parameter bytes under
/// a vendor opcode.
#[derive(Clone, Debug, PartialEq)]
pub enum VendorMessage {
    /// A raw vendor message.
    Raw {
        /// The three-octet vendor opcode the message arrived under.
        opcode: Opcode,
        /// The uninterpreted parameter bytes.
        parameters: Vec<u8>,
    },
}

impl ConcreteMessage for VendorMessage {
    open spec fn opcode_spec(&self) -> Opcode {
        match self {
            VendorMessage::Raw { opcode, .. } => *opcode,
        }
    }

    open spec fn params_spec(&self) -> Seq<u8> {
        match self {
            VendorMessage::Raw { parameters, .. } => parameters@,
        }
    }

    fn opcode(&self) -> (o: Opcode) {
        match self {
            VendorMessage::Raw { opcode, .. } => *opcode,
        }
    }

    fn emit_parameters(&self, xmit: &mut heapless::Vec<u8, 384>) -> (r: Result<(), EncodeError>) {
        match self {
            VendorMessage::Raw { parameters, .. } => {
                match sink_extend(xmit, parameters.as_slice()) {
                    Ok(()) => Ok(()),
                    Err(()) => Err(EncodeError::BufferOverflow),
                }
            }
        }
    }
}

/// Whether a vendor opcode belongs to this vendor model: a three-octet
/// opcode carrying company identifier `0x05F1` in its trailing bytes,
/// least significant byte first.
pub open spec fn vendor_opcode_matches(opcode: Opcode) -> bool {
    match opcode {
        Opcode::ThreeOctet(_, b1, b2) => b1 == 0xF1 && b2 == 0x05,
        _ => false,
    }
}

/// The vendor model, company identifier `0x05F1`, model id `0x0001`.
#[derive(Clone, Copy, Debug, PartialEq, Eq, Structural, Hash)]
pub struct VendorModel;

impl ConcreteModel for VendorModel {
    type Msg = VendorMessage;

    open spec fn identifier_spec() -> ModelIdentifier {
        ModelIdentifier::Vendor(0x05F1, 0x0001)
    }

    open spec fn supports_subscription_spec() -> bool {
        true
    }

    open spec fn supports_publication_spec() -> bool {
        true
    }

    fn identifier() -> (r: ModelIdentifier) {
        ModelIdentifier::Vendor(0x05F1, 0x0001)
    }

    fn supports_subscription() -> (r: bool) {
        true
    }

    fn supports_publication() -> (r: bool) {
        true
    }

    /// Parses an inbound payload: a message of this vendor's family is
    /// any payload under a matching vendor opcode, carried uninterpreted;
    /// every other opcode is another family's.
    fn parse(opcode: Opcode, parameters: &[u8]) -> (r: Result<Option<Self::Msg>, ParseError>)
        ensures
            vendor_opcode_matches(opcode) ==> match r {
                Ok(Some(m)) => m.opcode_spec() == opcode && m.params_spec() == parameters@,
                _ => false,
            },
            !vendor_opcode_matches(opcode) ==> r == Ok::<Option<VendorMessage>, ParseError>(None),
    {
        if let Opcode::ThreeOctet(_, b1, b2) = opcode {
            if b1 == 0xF1 && b2 == 0x05 {
                let parameters = vstd::slice::slice_to_vec(parameters);
                return Ok(Some(VendorMessage::Raw { opcode, parameters }));
            }
        }
        Ok(None)
    }
}

} // verus!
