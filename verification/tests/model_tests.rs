use mesh_bridge::ConcreteMessage;
use mesh_bridge::ConcreteModel;
use mesh_bridge::EncodeError;
use mesh_bridge::FromDrogue;
use mesh_bridge::Message;
use mesh_bridge::Model;
use mesh_bridge::ModelIdentifier;
use mesh_bridge::Node;
use mesh_bridge::Opcode;
use mesh_bridge::ParseError;
use mesh_bridge::PropertyId;
use mesh_bridge::ProvisionAgent;
use mesh_bridge::ReqError;
use mesh_bridge::SensorDescriptor;
use mesh_bridge::SensorMessage;
use mesh_bridge::SensorModel;
use mesh_bridge::SensorStatus;
use mesh_bridge::Temperature;
use mesh_bridge::VendorMessage;
use mesh_bridge::VendorModel;
use mesh_bridge::encode_access;
use mesh_bridge::model_info;

#[test]
fn temperature_decodes_half_degrees() {
    let mut t = Temperature::default();
    assert_eq!(t.decode(PropertyId(0x4F), &[0x2A]), Ok(()));
    assert_eq!(t.0, 0x2A);
    assert_eq!(t.0 as f32 / 2.0, 21.0);
}

#[test]
fn temperature_rejects_wrong_property() {
    let mut t = Temperature(5);
    assert_eq!(t.decode(PropertyId(0x50), &[0x2A]), Err(ParseError::InvalidValue));
    assert_eq!(t.0, 5);
}

#[test]
fn temperature_rejects_wrong_width() {
    let mut t = Temperature(5);
    assert_eq!(t.decode(PropertyId(0x4F), &[]), Err(ParseError::InvalidLength));
    assert_eq!(t.decode(PropertyId(0x4F), &[1, 2]), Err(ParseError::InvalidLength));
    assert_eq!(t.0, 5);
}

#[test]
fn temperature_encode_roundtrip() {
    // 21.0 degrees is raw 0x2A at half-degree scale.
    let t = Temperature((21.0f32 * 2.0) as u8);
    let mut sink: heapless::Vec<u8, 384> = heapless::Vec::new();
    assert_eq!(t.encode(PropertyId(0x4F), &mut sink), Ok(()));
    assert_eq!(sink.as_slice(), &[0x2A]);
}

#[test]
fn temperature_encode_overflows_full_sink() {
    let t = Temperature(0x2A);
    let mut sink: heapless::Vec<u8, 384> = heapless::Vec::new();
    sink.extend_from_slice(&[0u8; 384]).unwrap();
    assert_eq!(t.encode(PropertyId(0x4F), &mut sink), Err(EncodeError::BufferOverflow));
    assert_eq!(sink.len(), 384);
}

#[test]
fn sensor_descriptor_declares_property() {
    let d = SensorModel::descriptors();
    assert_eq!(d, vec![SensorDescriptor { id: PropertyId(0x4F), size: 1 }]);
}

#[test]
fn sensor_parse_status() {
    let m = SensorModel::parse(Opcode::OneOctet(0x52), &[0x2A]).unwrap().unwrap();
    let SensorMessage::Status(status) = m;
    assert_eq!(status.data, Temperature(0x2A));
}

#[test]
fn sensor_parse_other_family_is_none() {
    assert_eq!(SensorModel::parse(Opcode::OneOctet(0x51), &[0x2A]), Ok(None));
    assert_eq!(SensorModel::parse(Opcode::TwoOctet(0x80, 0x01), &[0x2A]), Ok(None));
}

#[test]
fn sensor_parse_malformed_payload() {
    assert_eq!(
        SensorModel::parse(Opcode::OneOctet(0x52), &[]),
        Err(ParseError::InvalidLength)
    );
    assert_eq!(
        SensorModel::parse(Opcode::OneOctet(0x52), &[1, 2]),
        Err(ParseError::InvalidLength)
    );
}

#[test]
fn sensor_parse_emit_roundtrip() {
    let m = SensorModel::parse(Opcode::OneOctet(0x52), &[0x2A]).unwrap().unwrap();
    assert_eq!(m.opcode(), Opcode::OneOctet(0x52));
    let mut sink: heapless::Vec<u8, 384> = heapless::Vec::new();
    m.emit_parameters(&mut sink).unwrap();
    assert_eq!(sink.as_slice(), &[0x2A]);
    let again = SensorModel::parse(m.opcode(), sink.as_slice()).unwrap().unwrap();
    assert_eq!(again, m);
}

#[test]
fn sensor_model_identity() {
    assert_eq!(SensorModel::identifier(), ModelIdentifier::SIG(0x1102));
    assert!(SensorModel::supports_subscription());
    assert!(SensorModel::supports_publication());
}

#[test]
fn vendor_identifier_roundtrip() {
    let id = ModelIdentifier::Vendor(0x05F1, 0x0001);
    assert_eq!(id.company(), Some(0x05F1));
    assert_eq!(id.wire_id(), 0x0001);
    assert_eq!(VendorModel::identifier(), id);
}

#[test]
fn vendor_parse_own_family() {
    let op = Opcode::ThreeOctet(0xC1, 0xF1, 0x05);
    let m = VendorModel::parse(op, &[9, 8, 7]).unwrap().unwrap();
    let VendorMessage::Raw { opcode, parameters } = m;
    assert_eq!(opcode, op);
    assert_eq!(parameters, vec![9, 8, 7]);
}

#[test]
fn vendor_parse_other_company_is_none() {
    assert_eq!(VendorModel::parse(Opcode::ThreeOctet(0xC1, 0x00, 0x01), &[9]), Ok(None));
    assert_eq!(VendorModel::parse(Opcode::OneOctet(0x52), &[9]), Ok(None));
}

#[test]
fn vendor_emit_roundtrip() {
    let op = Opcode::ThreeOctet(0xC1, 0xF1, 0x05);
    let m = VendorModel::parse(op, &[9, 8, 7]).unwrap().unwrap();
    let mut sink: heapless::Vec<u8, 384> = heapless::Vec::new();
    m.emit_parameters(&mut sink).unwrap();
    assert_eq!(sink.as_slice(), &[9, 8, 7]);
}

#[test]
fn from_drogue_adapts_model() {
    let model = FromDrogue::new(SensorModel);
    assert_eq!(model.identifier(), ModelIdentifier::SIG(0x1102));
    assert!(model.supports_subscription());
    assert!(model.supports_publication());
    let info = model_info(&model);
    assert_eq!(info.identifier, ModelIdentifier::SIG(0x1102));
    assert!(info.supports_subscription);
    assert!(info.supports_publication);
}

#[test]
fn model_message_emits_into_growable_buffer() {
    let m = FromDrogue::<SensorModel>::parse(Opcode::OneOctet(0x52), &[0x2A]).unwrap().unwrap();
    assert_eq!(m.opcode(), Opcode::OneOctet(0x52));
    let mut out = vec![0xEEu8];
    m.emit_parameters(&mut out);
    assert_eq!(out, vec![0xEE, 0x2A]);
}

#[test]
fn publish_frames_sensor_status() {
    let node = Node::new("/node".to_string());
    let message = SensorMessage::Status(SensorStatus { data: Temperature(0x2A) });
    let frame = node.publish::<SensorModel>(&message, "/example/ele00".to_string()).unwrap();
    assert_eq!(frame.element_path, "/example/ele00");
    assert_eq!(frame.model_id, 0x1102);
    assert_eq!(frame.data, vec![0x52, 0x2A]);
}

#[test]
fn publish_sends_vendor_model_id_alone() {
    let node = Node::new("/node".to_string());
    let message = VendorMessage::Raw {
        opcode: Opcode::ThreeOctet(0xC1, 0xF1, 0x05),
        parameters: vec![1, 2, 3],
    };
    let frame = node.publish::<VendorModel>(&message, "/example/ele00".to_string()).unwrap();
    assert_eq!(frame.model_id, 0x0001);
    assert_eq!(frame.data, vec![0xC1, 0xF1, 0x05, 1, 2, 3]);
}

#[test]
fn publish_rejects_oversize_message() {
    let node = Node::new("/node".to_string());
    let message = VendorMessage::Raw {
        opcode: Opcode::ThreeOctet(0xC1, 0xF1, 0x05),
        parameters: vec![0u8; 378],
    };
    let r = node.publish::<VendorModel>(&message, "/e".to_string());
    assert_eq!(r.err(), Some(EncodeError::BufferOverflow));
}

#[test]
fn encode_access_exact_bound() {
    let op = Opcode::OneOctet(0x52);
    let fits = vec![0u8; 379];
    let v = encode_access(&op, &fits).unwrap();
    assert_eq!(v.len(), 380);
    assert_eq!(v[0], 0x52);
    let too_big = vec![0u8; 380];
    assert_eq!(encode_access(&op, &too_big), Err(EncodeError::BufferOverflow));
}

#[test]
fn agent_capabilities() {
    let agent = ProvisionAgent::new();
    assert_eq!(agent.capabilities(), vec!["out-numeric".to_string(), "static-oob".to_string()]);
    assert_eq!(agent.display_numeric("blink", 42), Ok(()));
}

#[test]
fn prompt_static_decodes_trimmed_hex() {
    let agent = ProvisionAgent::new();
    assert_eq!(agent.prompt_static("static-oob", " 0aFF \n"), Ok(vec![0x0A, 0xFF]));
    assert_eq!(agent.prompt_static("static-oob", "00112233\r\n"), Ok(vec![0x00, 0x11, 0x22, 0x33]));
    assert_eq!(agent.prompt_static("static-oob", ""), Ok(vec![]));
}

#[test]
fn prompt_static_rejects_malformed_hex() {
    let agent = ProvisionAgent::new();
    assert_eq!(agent.prompt_static("static-oob", "0aF\n"), Err(ReqError::Failed));
    assert_eq!(agent.prompt_static("static-oob", "0g\n"), Err(ReqError::Failed));
    assert_eq!(agent.prompt_static("static-oob", "0a ff\n"), Err(ReqError::Failed));
}
