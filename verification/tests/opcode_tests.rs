use mesh_bridge::AccessPayload;
use mesh_bridge::MAX_ACCESS_PAYLOAD;
use mesh_bridge::Opcode;
use mesh_bridge::ParseError;

#[test]
fn one_octet_parse() {
    let r = Opcode::parse_prefix(&[0x52, 0x2A]);
    assert_eq!(r, Some((Opcode::OneOctet(0x52), 1)));
}

#[test]
fn one_octet_reserved_rejected() {
    assert_eq!(Opcode::parse_prefix(&[0x7F, 0x00]), None);
}

#[test]
fn two_octet_parse() {
    let r = Opcode::parse_prefix(&[0x80, 0x01, 0xAA]);
    assert_eq!(r, Some((Opcode::TwoOctet(0x80, 0x01), 2)));
}

#[test]
fn three_octet_parse() {
    let r = Opcode::parse_prefix(&[0xC1, 0xF1, 0x05, 0x01]);
    assert_eq!(r, Some((Opcode::ThreeOctet(0xC1, 0xF1, 0x05), 3)));
}

#[test]
fn truncated_multi_octet_rejected() {
    assert_eq!(Opcode::parse_prefix(&[0x80]), None);
    assert_eq!(Opcode::parse_prefix(&[0xC1, 0xF1]), None);
    assert_eq!(Opcode::parse_prefix(&[]), None);
}

#[test]
fn emit_matches_parse() {
    for op in [
        Opcode::OneOctet(0x04),
        Opcode::TwoOctet(0xB3, 0x7F),
        Opcode::ThreeOctet(0xFF, 0x00, 0x10),
    ] {
        let mut out = Vec::new();
        op.emit(&mut out);
        assert_eq!(out.len(), op.len());
        let parsed = Opcode::parse_prefix(&out);
        assert_eq!(parsed, Some((op, out.len())));
    }
}

#[test]
fn payload_parse_one_octet() {
    let p = AccessPayload::parse(&[0x52, 0x2A, 0x99]).unwrap();
    assert_eq!(p.opcode, Opcode::OneOctet(0x52));
    assert_eq!(p.parameters, vec![0x2A, 0x99]);
}

#[test]
fn payload_parse_rejects_bad_opcode() {
    assert_eq!(AccessPayload::parse(&[0x7F]), Err(ParseError::UnrecognizedOpcode));
    assert_eq!(AccessPayload::parse(&[]), Err(ParseError::UnrecognizedOpcode));
    assert_eq!(AccessPayload::parse(&[0x80]), Err(ParseError::UnrecognizedOpcode));
}

#[test]
fn payload_parse_rejects_oversize() {
    let mut data = vec![0x52u8];
    data.extend(std::iter::repeat(0u8).take(MAX_ACCESS_PAYLOAD));
    assert_eq!(data.len(), MAX_ACCESS_PAYLOAD + 1);
    assert_eq!(AccessPayload::parse(&data), Err(ParseError::InvalidLength));
}

#[test]
fn payload_parse_accepts_maximum() {
    let mut data = vec![0x52u8];
    data.extend(std::iter::repeat(7u8).take(MAX_ACCESS_PAYLOAD - 1));
    let p = AccessPayload::parse(&data).unwrap();
    assert_eq!(p.parameters.len(), MAX_ACCESS_PAYLOAD - 1);
}

#[test]
fn payload_roundtrip_bytes() {
    let data = [0xC1, 0xF1, 0x05, 0x01, 0x02];
    let p = AccessPayload::parse(&data).unwrap();
    assert_eq!(p.to_bytes(), data.to_vec());
}
