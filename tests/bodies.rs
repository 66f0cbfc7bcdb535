use bytes::BytesMut;
use dis_gateway::body::PduBody;
use dis_gateway::enumerations::{
    ServiceRequestServiceTypeRequested, SignalEncodingClass, SignalTdlType,
};
use dis_gateway::model::{
    length_padded_to_num, EntityId, EntityType, PduType, SupportedVersion,
};
use dis_gateway::other::Other;
use dis_gateway::service_request::{ServiceRequest, SupplyQuantity};
use dis_gateway::signal::{EncodingScheme, Signal};

#[test]
fn other_keeps_raw_bytes_and_ids() {
    let other = Other::new(vec![1, 2, 3, 4, 5])
        .with_origin(Some(EntityId::new(1, 1, 1)))
        .with_receiver(None);
    assert_eq!(other.body_length(), 5);
    assert_eq!(other.body_type(), PduType::Other);
    assert_eq!(other.originator(), Some(&EntityId::new(1, 1, 1)));
    assert_eq!(other.receiver(), None);
    let built = Other::builder().body(vec![9]).receiver(Some(EntityId::new(2, 2, 2))).build();
    assert_eq!(built.body, vec![9]);
    assert_eq!(built.originator(), None);
    assert_eq!(built.receiver(), Some(&EntityId::new(2, 2, 2)));
    assert!(matches!(built.as_pdu_body(), PduBody::Other(_)));
}

#[test]
fn signal_data_is_padded_to_four_octets() {
    assert_eq!(Signal::new().data_length_padded(), 4);
    assert_eq!(Signal::new().with_data(vec![1, 2, 3]).data_length_padded(), 4);
    assert_eq!(Signal::new().with_data(vec![1, 2, 3, 4]).data_length_padded(), 8);
    assert_eq!(Signal::new().with_data(vec![0; 5]).data_length_padded(), 8);
    assert_eq!(Signal::new().with_data(vec![0; 5]).body_length(), 28);
}

#[test]
fn signal_builder_sets_fields() {
    let signal = Signal::default()
        .with_radio_reference_id(EntityId::new(3, 2, 1))
        .with_radio_number(7)
        .with_encoding_scheme(EncodingScheme::RawBinaryData {
            encoding_class: SignalEncodingClass::Rawbinarydata,
            nr_of_messages: 2,
        })
        .with_tdl_type(SignalTdlType::Link16Legacy_100)
        .with_sample_rate(8000)
        .with_samples(160);
    assert_eq!(signal.radio_number, 7);
    assert_eq!(signal.sample_rate, 8000);
    assert_eq!(signal.samples, 160);
    assert_eq!(signal.tdl_type, SignalTdlType::Link16Legacy_100);
    assert_eq!(signal.originator(), Some(&EntityId::new(3, 2, 1)));
    assert_eq!(signal.receiver(), None);
    assert_eq!(signal.body_type(), PduType::Signal);
    assert!(matches!(signal.into_pdu_body(), PduBody::Signal(_)));
}

#[test]
fn padding_lengths() {
    let l = length_padded_to_num(11, 8);
    assert_eq!((l.data_length, l.padding_length, l.record_length), (11, 5, 16));
    let l = length_padded_to_num(16, 8);
    assert_eq!((l.data_length, l.padding_length, l.record_length), (16, 0, 16));
    let l = length_padded_to_num(0, 8);
    assert_eq!(l.record_length, 0);
}

#[test]
fn service_request_serialization() {
    let request = ServiceRequest {
        requesting_id: EntityId::new(1, 1, 2),
        servicing_id: EntityId::new(9, 1, 1),
        service_type_requested: ServiceRequestServiceTypeRequested::Resupply,
        supplies: vec![SupplyQuantity::new(
            EntityType::new(8, 0, 0x0102, 0, 0, 0, 0),
            678.0f32.to_bits(),
        )],
    };
    let mut buf = BytesMut::new();
    let written = request.serialize_pdu(SupportedVersion::V6, &mut buf);
    assert_eq!(written, 28);
    let mut expected: Vec<u8> = vec![0, 1, 0, 1, 0, 2, 0, 9, 0, 1, 0, 1, 1, 1, 0, 0, 8, 0, 1, 2, 0, 0, 0, 0];
    expected.extend_from_slice(&678.0f32.to_be_bytes());
    assert_eq!(buf.to_vec(), expected);
}

#[test]
fn service_request_round_trip() {
    let request = ServiceRequest {
        requesting_id: EntityId::new(1, 1, 2),
        servicing_id: EntityId::new(9, 1, 1),
        service_type_requested: ServiceRequestServiceTypeRequested::Repair,
        supplies: vec![
            SupplyQuantity::new(EntityType::new(8, 0, 0, 1, 0, 0, 0), 678.0f32.to_bits()),
            SupplyQuantity::new(EntityType::new(8, 0, 0, 2, 0, 0, 0), 1.5f32.to_bits()),
        ],
    };
    let mut buf = BytesMut::new();
    assert_eq!(request.serialize_pdu(SupportedVersion::V7, &mut buf), 40);
    buf.extend_from_slice(&[0xEE, 0xEE]);
    let (parsed, n) = ServiceRequest::parse(&buf).unwrap();
    assert_eq!(n, 40);
    assert_eq!(parsed, request);
    assert_eq!(
        ServiceRequest::parse(&buf[..39]),
        Err(dis_gateway::model::ParseError::Truncated)
    );
}

#[test]
fn service_request_body_length_matches_octets() {
    let request = ServiceRequest {
        requesting_id: EntityId::new(1, 1, 2),
        servicing_id: EntityId::new(9, 1, 1),
        service_type_requested: ServiceRequestServiceTypeRequested::Resupply,
        supplies: vec![SupplyQuantity::new(EntityType::new(8, 0, 0, 1, 0, 0, 0), 0); 3],
    };
    assert_eq!(request.body_length(), 52);
    let mut buf = BytesMut::new();
    assert_eq!(request.serialize_pdu(SupportedVersion::V6, &mut buf), request.body_length());
    assert_eq!(buf.len(), 52);
}
