use mesh_bridge::AccessPayload;
use mesh_bridge::Address;
use mesh_bridge::ControlError;
use mesh_bridge::Element;
use mesh_bridge::ElementControlHandle;
use mesh_bridge::ElementMessage;
use mesh_bridge::MAX_ACCESS_PAYLOAD;
use mesh_bridge::Opcode;
use mesh_bridge::RegisteredElement;
use mesh_bridge::ReqError;
use mesh_bridge::ModelIdentifier;
use mesh_bridge::ModelInfo;
use mesh_bridge::UnicastAddress;
use mesh_bridge::element_control;

fn attached_element() -> RegisteredElement {
    RegisteredElement::new(
        Element {
            models: Vec::new(),
            path: "/example/ele00".to_string(),
            control_handle: Some(ElementControlHandle::default()),
        },
        0,
    )
}

fn detached_element() -> RegisteredElement {
    RegisteredElement::new(
        Element { models: Vec::new(), path: "/example/ele00".to_string(), control_handle: None },
        0,
    )
}

fn sample_message() -> ElementMessage {
    ElementMessage {
        key: 0,
        src: UnicastAddress::parse(0x0042).unwrap(),
        dest: Address::parse(0xC000),
        payload: AccessPayload { opcode: Opcode::OneOctet(0x52), parameters: vec![0x2A] },
    }
}

#[test]
fn source_zero_rejected_before_envelope() {
    let reg = attached_element();
    let r = reg.message_received(0x0000, 0, 0xC000, &[0x52, 0x2A]);
    assert_eq!(r, Err(ReqError::Failed));
}

#[test]
fn non_unicast_source_rejected() {
    let reg = attached_element();
    assert_eq!(reg.message_received(0x8000, 0, 0xC000, &[0x52, 0x2A]), Err(ReqError::Failed));
    assert_eq!(reg.message_received(0xC001, 0, 0xC000, &[0x52, 0x2A]), Err(ReqError::Failed));
}

#[test]
fn unattached_message_dropped_without_error() {
    let reg = detached_element();
    let r = reg.message_received(0x0042, 1, 0xC000, &[0x52, 0x2A]);
    assert_eq!(r, Ok(None));
}

#[test]
fn attached_message_builds_envelope() {
    let reg = attached_element();
    let m = reg.message_received(0x0042, 1, 0xC000, &[0x52, 0x2A, 0x07]).unwrap().unwrap();
    assert_eq!(m.key, 1);
    assert_eq!(m.src.value(), 0x0042);
    assert_eq!(m.dest, Address::Group(0xC000));
    assert_eq!(m.payload.opcode, Opcode::OneOctet(0x52));
    assert_eq!(m.payload.parameters, vec![0x2A, 0x07]);
}

#[test]
fn multi_octet_opcodes_routed() {
    let reg = attached_element();
    let m = reg.message_received(0x0042, 0, 0x0043, &[0x80, 0x01, 0xAA]).unwrap().unwrap();
    assert_eq!(m.payload.opcode, Opcode::TwoOctet(0x80, 0x01));
    assert_eq!(m.payload.parameters, vec![0xAA]);
    let m = reg.message_received(0x0042, 0, 0x0043, &[0xC1, 0xF1, 0x05, 0x10]).unwrap().unwrap();
    assert_eq!(m.payload.opcode, Opcode::ThreeOctet(0xC1, 0xF1, 0x05));
    assert_eq!(m.payload.parameters, vec![0x10]);
}

#[test]
fn malformed_opcode_fails_request() {
    let reg = attached_element();
    assert_eq!(reg.message_received(0x0042, 0, 0xC000, &[0x7F]), Err(ReqError::Failed));
    assert_eq!(reg.message_received(0x0042, 0, 0xC000, &[0x80]), Err(ReqError::Failed));
}

#[test]
fn oversize_payload_fails_with_length_error() {
    let reg = attached_element();
    let mut data = vec![0x52u8];
    data.extend(std::iter::repeat(0u8).take(MAX_ACCESS_PAYLOAD));
    let r = reg.message_received(0x0042, 0, 0xC000, &data);
    assert_eq!(r, Err(ReqError::InvalidValueLength));
}

#[test]
fn wide_key_index_maps_to_zero() {
    let reg = attached_element();
    let m = reg.message_received(0x0042, 300, 0xC000, &[0x52, 0x2A]).unwrap().unwrap();
    assert_eq!(m.key, 0);
    let m = reg.message_received(0x0042, 255, 0xC000, &[0x52, 0x2A]).unwrap().unwrap();
    assert_eq!(m.key, 255);
}

#[test]
fn address_classification() {
    assert_eq!(Address::parse(0x0000), Address::Unassigned);
    assert!(matches!(Address::parse(0x0001), Address::Unicast(_)));
    assert!(matches!(Address::parse(0x7FFF), Address::Unicast(_)));
    assert_eq!(Address::parse(0x8000), Address::Virtual(0x8000));
    assert_eq!(Address::parse(0xBFFF), Address::Virtual(0xBFFF));
    assert_eq!(Address::parse(0xC000), Address::Group(0xC000));
    assert_eq!(Address::parse(0xFFFF), Address::Group(0xFFFF));
}

#[test]
fn unicast_address_bounds() {
    assert!(UnicastAddress::parse(0x0000).is_none());
    assert!(UnicastAddress::parse(0x8000).is_none());
    assert_eq!(UnicastAddress::parse(0x7FFF).unwrap().value(), 0x7FFF);
}

#[test]
fn capacity_one_channel_backpressure() {
    let (mut control, _handle) = element_control();
    let m1 = sample_message();
    let mut m2 = sample_message();
    m2.key = 9;

    assert_eq!(control.offer(m1.clone()), Ok(()));
    // The slot is full: the second message is refused and handed back,
    // never dropped.
    assert_eq!(control.offer(m2.clone()), Err(m2.clone()));
    // Draining yields the first message; the second can then be delivered.
    assert_eq!(control.next_message(), Some(m1));
    assert_eq!(control.offer(m2.clone()), Ok(()));
    assert_eq!(control.next_message(), Some(m2));
    assert_eq!(control.next_message(), None);
}

#[test]
fn assigned_address_cell_is_write_once() {
    let (mut control, _handle) = element_control();
    assert_eq!(control.handle(), Err(ControlError::NotRegistered));
    let a = UnicastAddress::parse(0x00BD).unwrap();
    assert_eq!(control.set_address(a), Ok(()));
    assert_eq!(control.handle(), Ok(a));
    let b = UnicastAddress::parse(0x00BE).unwrap();
    assert_eq!(control.set_address(b), Err(ControlError::AlreadyRegistered));
    assert_eq!(control.handle(), Ok(a));
}

#[test]
fn element_model_properties() {
    let info = |identifier| ModelInfo {
        identifier,
        supports_subscription: true,
        supports_publication: true,
    };
    let reg = RegisteredElement::new(
        Element {
            models: vec![
                info(ModelIdentifier::SIG(0x1102)),
                info(ModelIdentifier::Vendor(0x05F1, 0x0001)),
                info(ModelIdentifier::SIG(0x1000)),
            ],
            path: "/example/ele00".to_string(),
            control_handle: None,
        },
        3,
    );
    assert_eq!(reg.index_property(), 3);
    assert_eq!(reg.sig_models(), vec![0x1102, 0x1000]);
    assert_eq!(reg.vendor_models(), vec![(0x05F1, 0x0001)]);
}

#[test]
fn req_error_default_and_names() {
    assert_eq!(ReqError::default(), ReqError::Failed);
    assert_eq!(ReqError::Failed.name(), "Failed");
    assert_eq!(ReqError::NotSupported.name(), "NotSupported");
    assert_eq!(ReqError::InvalidValueLength.name(), "InvalidValueLength");
}
