//! Elements, their control pair, and inbound routing.
//!
//! A registered element bridges one raw inbound call — source address,
//! application-key index, destination and raw bytes — into an
//! [`ElementMessage`] and hands it to the element's consumer if one is
//! attached. The consumer side is modelled by [`ElementControl`]: a bounded
//! capacity-1 message slot plus a write-once assigned-address cell. An
//! asynchronous runner owns the real channel; it performs exactly the state
//! transitions specified here, suspending whenever [`ElementControl::offer`]
//! reports the slot full.

use vstd::prelude::*;
use crate::access::AccessPayload;
use crate::address::Address;
use crate::address::UnicastAddress;
use crate::types::ModelIdentifier;
use crate::types::ModelInfo;
use crate::types::ParseError;

verus! {

/// Error response returned to the daemon for a failed remote-callable request.
#[derive(Clone, Copy, Debug, PartialEq, Eq, Structural, Hash)]
pub enum ReqError {
    /// The request failed.
    Failed,
    /// The request is already in progress.
    InProgress,
    /// The request used an invalid offset.
    InvalidOffset,
    /// The request carried a value of invalid length.
    InvalidValueLength,
    /// The request is not permitted.
    NotPermitted,
    /// The request is not authorized.
    NotAuthorized,
    /// The request is not supported.
    NotSupported,
}

impl Default for ReqError {
    fn default() -> (r: Self)
        ensures
            r == ReqError::Failed,
    {
        ReqError::Failed
    }
}

impl ReqError {
    /// Stable name of the error variant, as reported on the bus.
    pub fn name(&self) -> (r: &'static str)
        ensures
            r@ == self.name_spec(),
    {
        match self {
            ReqError::Failed => "Failed",
            ReqError::InProgress => "InProgress",
            ReqError::InvalidOffset => "InvalidOffset",
            ReqError::InvalidValueLength => "InvalidValueLength",
            ReqError::NotPermitted => "NotPermitted",
            ReqError::NotAuthorized => "NotAuthorized",
            ReqError::NotSupported => "NotSupported",
        }
    }

    /// The name of each variant, at the specification level.
    pub open spec fn name_spec(&self) -> Seq<char> {
        match self {
            ReqError::Failed => "Failed"@,
            ReqError::InProgress => "InProgress"@,
            ReqError::InvalidOffset => "InvalidOffset"@,
            ReqError::InvalidValueLength => "InvalidValueLength"@,
            ReqError::NotPermitted => "NotPermitted"@,
            ReqError::NotAuthorized => "NotAuthorized"@,
            ReqError::NotSupported => "NotSupported"@,
        }
    }
}

/// Result of a remote-callable request made of this crate.
pub type ReqResult<T> = Result<T, ReqError>;

/// Failure of the element control pair.
#[derive(Clone, Copy, Debug, PartialEq, Eq, Structural, Hash)]
pub enum ControlError {
    /// No registration confirmation has assigned an address yet.
    NotRegistered,
    /// The assigned-address cell is write-once and was already set.
    AlreadyRegistered,
}

/// An inbound message envelope: provenance plus access payload. Built only
/// by the routing path, immutable, consumed once by the element's consumer.
#[derive(Clone, Debug, PartialEq)]
pub struct ElementMessage {
    /// Application-key index the message was secured with.
    pub key: u8,
    /// Source unicast address; never the unassigned address.
    pub src: UnicastAddress,
    /// Destination address.
    pub dest: Address,
    /// The opcode and parameter bytes.
    pub payload: AccessPayload,
}

impl ElementMessage {
    /// Well-formedness of every field.
    pub open spec fn wf(self) -> bool {
        &&& self.src.wf()
        &&& self.dest.wf()
        &&& self.payload.wf()
    }
}

/// A handle stored inside an element definition to make the element
/// controllable once it has been registered. Its presence is what attaches
/// a consumer: routing to an element without one drops the message.
#[derive(Clone, Copy, Debug, Default, PartialEq, Eq, Structural)]
pub struct ElementControlHandle {
}

/// The consumer side of a registered element: a write-once assigned-address
/// cell and a bounded capacity-1 inbound message slot.
///
/// Invariant of the pair: at most one buffered unread message. A producer
/// whose [`offer`](Self::offer) is refused must hold the message and retry
/// after the consumer drains; the runner realizes this as suspension of the
/// daemon's call.
#[derive(Clone, Debug, PartialEq)]
pub struct ElementControl {
    /// The assigned unicast address, once a registration confirmation has
    /// arrived.
    pub address: Option<UnicastAddress>,
    /// The single message slot.
    pub queue: Option<ElementMessage>,
}

impl ElementControl {
    /// Effect of offering a message: an empty slot accepts it; a full slot
    /// refuses and returns the message to the caller unchanged.
    pub open spec fn offer_spec(self, msg: ElementMessage) -> (ElementControl, Result<
        (),
        ElementMessage,
    >) {
        match self.queue {
            Option::None => (
                ElementControl { queue: Some(msg), address: self.address },
                Ok(()),
            ),
            Option::Some(_) => (self, Err(msg)),
        }
    }

    /// Effect of draining: the slot empties and yields what it held.
    pub open spec fn drain_spec(self) -> (ElementControl, Option<ElementMessage>) {
        (ElementControl { queue: None, address: self.address }, self.queue)
    }

    /// Gets the assigned address of the element, or a not-yet-registered
    /// error while the cell is unset.
    pub fn handle(&self) -> (r: Result<UnicastAddress, ControlError>)
        ensures
            r == match self.address {
                Option::Some(a) => Ok::<UnicastAddress, ControlError>(a),
                Option::None => Err::<UnicastAddress, ControlError>(ControlError::NotRegistered),
            },
    {
        match self.address {
            Option::Some(a) => Ok(a),
            Option::None => Err(ControlError::NotRegistered),
        }
    }

    /// Sets the assigned address. The cell is write-once: a second set is
    /// refused and changes nothing.
    pub fn set_address(&mut self, a: UnicastAddress) -> (r: Result<(), ControlError>)
        ensures
            old(self).address is None ==> r == Ok::<(), ControlError>(()) && final(self).address
                == Some(a) && final(self).queue == old(self).queue,
            old(self).address is Some ==> r == Err::<(), ControlError>(
                ControlError::AlreadyRegistered,
            ) && *final(self) == *old(self),
    {
        match self.address {
            Option::None => {
                self.address = Some(a);
                Ok(())
            }
            Option::Some(_) => Err(ControlError::AlreadyRegistered),
        }
    }

    /// Offers one inbound message to the capacity-1 slot. A full slot
    /// refuses the message and hands it back: it is never dropped, and the
    /// producer must retry once the consumer has drained.
    pub fn offer(&mut self, msg: ElementMessage) -> (r: Result<(), ElementMessage>)
        ensures
            (*final(self), r) == old(self).offer_spec(msg),
    {
        match self.queue {
            Option::None => {
                self.queue = Some(msg);
                Ok(())
            }
            Option::Some(_) => Err(msg),
        }
    }

    /// Drains the slot, yielding the buffered message if any.
    pub fn next_message(&mut self) -> (r: Option<ElementMessage>)
        ensures
            (*final(self), r) == old(self).drain_spec(),
    {
        let msg = self.queue.take();
        msg
    }
}

/// Creates an [`ElementControl`] and its associated [`ElementControlHandle`].
///
/// Keep the control and store the handle in [`Element::control_handle`].
/// The control starts with no assigned address and an empty slot.
pub fn element_control() -> (r: (ElementControl, ElementControlHandle))
    ensures
        r.0.address is None,
        r.0.queue is None,
{
    (ElementControl { address: None, queue: None }, ElementControlHandle {  })
}

/// Law: the capacity-1 channel applies backpressure and never drops. With
/// one routed message undrained, offering a second leaves the first in
/// place and returns the second to its caller; after the first is drained,
/// the second offer is accepted.
pub proof fn lemma_capacity_one_backpressure(
    c0: ElementControl,
    m1: ElementMessage,
    m2: ElementMessage,
)
    requires
        c0.queue is None,
    ensures
        ({
            let (c1, r1) = c0.offer_spec(m1);
            let (c1b, r2) = c1.offer_spec(m2);
            let (c2, drained) = c1b.drain_spec();
            let (c3, r3) = c2.offer_spec(m2);
            &&& r1 == Ok::<(), ElementMessage>(())
            &&& c1.queue == Some(m1)
            &&& r2 == Err::<(), ElementMessage>(m2)
            &&& c1b == c1
            &&& drained == Some(m1)
            &&& r3 == Ok::<(), ElementMessage>(())
            &&& c3.queue == Some(m2)
        }),
{
}

/// Interface to a mesh element: its models, its object path, and the
/// optional control handle that attaches a consumer.
#[derive(Clone, Debug)]
pub struct Element {
    /// The models hosted by the element.
    pub models: Vec<ModelInfo>,
    /// The element's object path.
    pub path: String,
    /// Control handle for the element once it has been registered; absent
    /// if inbound messages are to be dropped.
    pub control_handle: Option<ElementControlHandle>,
}

/// The application-key index carried in an envelope: the low byte of the
/// raw index, or zero if the raw index does not fit a byte.
pub open spec fn key_index_spec(key_index: u16) -> u8 {
    if key_index <= 255 {
        key_index as u8
    } else {
        0
    }
}

/// An element as exposed on the daemon's object bus.
#[derive(Clone, Debug)]
pub struct RegisteredElement {
    /// The element definition.
    pub element: Element,
    /// Zero-based index of the element within its application.
    pub index: u8,
}

impl RegisteredElement {
    /// Wraps an element for registration under the given index.
    pub fn new(element: Element, index: u8) -> (r: Self)
        ensures
            r.element == element,
            r.index == index,
    {
        Self { element, index }
    }

    /// Handles one raw inbound call, building an envelope and routing it
    /// to the attached consumer.
    ///
    /// The source must be a non-zero unicast address; otherwise the call
    /// fails with a request error before any envelope is constructed. The
    /// leading bytes must form a well-formed opcode of one of the three
    /// widths; the remaining bytes are the parameters, rejected with a
    /// length error past the protocol's single-message capacity. An
    /// element with no attached consumer drops the message silently.
    /// `Ok(Some(m))` asks the runner to deliver `m` through
    /// [`ElementControl::offer`].
    pub fn message_received(
        &self,
        source: u16,
        key_index: u16,
        destination: u16,
        data: &[u8],
    ) -> (r: Result<Option<ElementMessage>, ReqError>)
        ensures
            source == 0 ==> r == Err::<Option<ElementMessage>, ReqError>(ReqError::Failed),
            !UnicastAddress::is_unicast_value(source) ==> r == Err::<
                Option<ElementMessage>,
                ReqError,
            >(ReqError::Failed),
            UnicastAddress::is_unicast_value(source) ==> match AccessPayload::parse_spec(data@) {
                Err(ParseError::InvalidLength) => r == Err::<Option<ElementMessage>, ReqError>(
                    ReqError::InvalidValueLength,
                ),
                Err(_) => r == Err::<Option<ElementMessage>, ReqError>(ReqError::Failed),
                Ok((op, params)) => {
                    if self.element.control_handle is None {
                        r == Ok::<Option<ElementMessage>, ReqError>(None)
                    } else {
                        match r {
                            Ok(Some(m)) => {
                                &&& m.key == key_index_spec(key_index)
                                &&& m.src == (UnicastAddress(source))
                                &&& m.dest == Address::parse_spec(destination)
                                &&& m.payload.opcode == op
                                &&& m.payload.parameters@ == params
                                &&& m.wf()
                            },
                            _ => false,
                        }
                    }
                },
            },
    {
        let src = match UnicastAddress::parse(source) {
            Option::Some(s) => s,
            Option::None => {
                return Err(ReqError::Failed);
            }
        };
        let payload = match AccessPayload::parse(data) {
            Ok(p) => p,
            Err(ParseError::InvalidLength) => {
                return Err(ReqError::InvalidValueLength);
            }
            Err(_) => {
                return Err(ReqError::Failed);
            }
        };
        let key = if key_index <= 255 {
            key_index as u8
        } else {
            0
        };
        let dest = Address::parse(destination);
        match &self.element.control_handle {
            Option::Some(_) => Ok(Some(ElementMessage { key, src, dest, payload })),
            Option::None => Ok(None),
        }
    }

    /// The `Index` property: the element's zero-based index.
    pub fn index_property(&self) -> (r: u8)
        ensures
            r == self.index,
    {
        self.index
    }

    /// The `Models` property: the identifiers of the element's standard
    /// models, in declaration order.
    pub fn sig_models(&self) -> (r: Vec<u16>)
        ensures
            r@ == sig_model_ids(self.element.models@),
    {
        let mut out: Vec<u16> = Vec::new();
        let models = &self.element.models;
        let mut i: usize = 0;
        while i < models.len()
            invariant
                i <= models.len(),
                out@ == sig_model_ids(models@.take(i as int)),
            decreases models.len() - i,
        {
            match models[i].identifier {
                ModelIdentifier::SIG(id) => {
                    out.push(id);
                }
                ModelIdentifier::Vendor(_, _) => {}
            }
            proof {
                assert(models@.take(i + 1 as int).drop_last() =~= models@.take(i as int));
                assert(models@.take(i + 1 as int).last() == models@[i as int]);
            }
            i = i + 1;
        }
        proof {
            assert(models@.take(models@.len() as int) =~= models@);
        }
        out
    }

    /// The `VendorModels` property: the (company, model) identifier pairs
    /// of the element's vendor models, in declaration order.
    pub fn vendor_models(&self) -> (r: Vec<(u16, u16)>)
        ensures
            r@ == vendor_model_ids(self.element.models@),
    {
        let mut out: Vec<(u16, u16)> = Vec::new();
        let models = &self.element.models;
        let mut i: usize = 0;
        while i < models.len()
            invariant
                i <= models.len(),
                out@ == vendor_model_ids(models@.take(i as int)),
            decreases models.len() - i,
        {
            match models[i].identifier {
                ModelIdentifier::SIG(_) => {}
                ModelIdentifier::Vendor(company, id) => {
                    out.push((company, id));
                }
            }
            proof {
                assert(models@.take(i + 1 as int).drop_last() =~= models@.take(i as int));
                assert(models@.take(i + 1 as int).last() == models@[i as int]);
            }
            i = i + 1;
        }
        proof {
            assert(models@.take(models@.len() as int) =~= models@);
        }
        out
    }
}

/// The identifiers of the standard models among `models`, in order.
pub open spec fn sig_model_ids(models: Seq<ModelInfo>) -> Seq<u16>
    decreases models.len(),
{
    if models.len() == 0 {
        Seq::empty()
    } else {
        sig_model_ids(models.drop_last()) + (match models.last().identifier {
            ModelIdentifier::SIG(id) => seq![id],
            ModelIdentifier::Vendor(_, _) => Seq::empty(),
        })
    }
}

/// The (company, model) pairs of the vendor models among `models`, in order.
pub open spec fn vendor_model_ids(models: Seq<ModelInfo>) -> Seq<(u16, u16)>
    decreases models.len(),
{
    if models.len() == 0 {
        Seq::empty()
    } else {
        vendor_model_ids(models.drop_last()) + (match models.last().identifier {
            ModelIdentifier::SIG(_) => Seq::empty(),
            ModelIdentifier::Vendor(company, id) => seq![(company, id)],
        })
    }
}

} // verus!
