use bytes::BytesMut;
use dis_gateway::body::PduBody;
use dis_gateway::comment::Comment;
use dis_gateway::enumerations::ReceiverState;
use dis_gateway::fire::{BurstDescriptor, EventId, Fire, Location, VectorF32};
use dis_gateway::model::{EntityId, EntityType, ParseError, PduType, VariableDatum};
use dis_gateway::other::Other;
use dis_gateway::pdu::{parse_many, parse_pdu, Pdu, PduHeader};
use dis_gateway::receiver::Receiver;
use dis_gateway::enumerations::ServiceRequestServiceTypeRequested;
use dis_gateway::service_request::{ServiceRequest, SupplyQuantity};

fn header(pdu_type: PduType) -> PduHeader {
    PduHeader {
        protocol_version: 6,
        exercise_id: 1,
        pdu_type,
        protocol_family: 0,
        time_stamp: 0,
        pdu_length: 0,
        pdu_status: 0,
    }
}

fn sample_fire() -> Fire {
    Fire {
        firing_entity_id: EntityId::new(1, 1, 10),
        target_entity_id: EntityId::new(2, 1, 5),
        munition_id: EntityId::new(1, 1, 99),
        event_id: EventId { site: 1, application: 1, event_id: 7 },
        fire_mission_index: 0,
        location_in_world: Location { x: 0f64.to_bits(), y: 0f64.to_bits(), z: 0f64.to_bits() },
        burst_descriptor: BurstDescriptor {
            munition: EntityType::new(2, 2, 225, 2, 1, 0, 0),
            warhead: 1000,
            fuse: 100,
            quantity: 1,
            rate: 0,
        },
        velocity: VectorF32 { x: 0f32.to_bits(), y: 0f32.to_bits(), z: 0f32.to_bits() },
        range: 1500.0f32.to_bits(),
    }
}

fn same_pdu(a: &Pdu, b: &Pdu) -> bool {
    a.header == b.header
        && match (&a.body, &b.body) {
            (PduBody::Comment(x), PduBody::Comment(y)) => x == y,
            (PduBody::Fire(x), PduBody::Fire(y)) => x == y,
            (PduBody::Receiver(x), PduBody::Receiver(y)) => x == y,
            (PduBody::ServiceRequest(x), PduBody::ServiceRequest(y)) => x == y,
            (PduBody::Other(x), PduBody::Other(y)) => {
                x.body == y.body
                    && x.originating_entity_id == y.originating_entity_id
                    && x.receiving_entity_id == y.receiving_entity_id
            }
            _ => false,
        }
}

#[test]
fn fire_pdu_round_trip() {
    let fire = sample_fire();
    assert_eq!(fire.originator(), Some(&EntityId::new(1, 1, 10)));
    assert_eq!(fire.receiver(), Some(&EntityId::new(2, 1, 5)));
    let mut body_buf = BytesMut::new();
    assert_eq!(fire.serialize(&mut body_buf), 84);
    assert_eq!(Fire::parse(&body_buf), Ok((fire, 84)));
    assert_eq!(f32::from_bits(Fire::parse(&body_buf).unwrap().0.range), 1500.0);
    let pdu = Pdu::finalize_from_parts(header(PduType::Fire), PduBody::Fire(fire), 100);
    assert_eq!(pdu.header.pdu_length, 96);
    let mut buf = BytesMut::new();
    assert_eq!(pdu.serialize(&mut buf), 96);
    let (parsed, n) = parse_pdu(&buf).unwrap();
    assert_eq!(n, 96);
    assert!(same_pdu(&parsed, &pdu));
}

#[test]
fn receiver_body_wire_form() {
    let receiver = Receiver::builder()
        .with_radio_reference_id(EntityId::new(7, 1, 2))
        .with_radio_number(3)
        .with_receiver_state(ReceiverState::OnAndReceiving)
        .with_received_power((-42.5f32).to_bits())
        .build();
    let mut buf = BytesMut::new();
    assert_eq!(receiver.serialize(&mut buf), 24);
    let mut expected = vec![0, 7, 0, 1, 0, 2, 0, 3, 0, 2, 0, 0];
    expected.extend_from_slice(&(-42.5f32).to_be_bytes());
    expected.extend_from_slice(&[0, 0, 0, 0, 0, 0, 0, 0]);
    assert_eq!(buf.to_vec(), expected);
    assert_eq!(Receiver::parse(&buf), Ok((receiver, 24)));
}

#[test]
fn unknown_type_is_kept_as_other() {
    let mut raw = vec![7u8, 1, 200, 0, 0, 0, 0, 0, 0, 17, 0, 0];
    raw.extend_from_slice(&[1, 2, 3, 4, 5]);
    let (pdu, n) = parse_pdu(&raw).unwrap();
    assert_eq!(n, 17);
    assert_eq!(pdu.header.pdu_type, PduType::Unspecified(200));
    match pdu.body {
        PduBody::Other(o) => {
            assert_eq!(o.body, vec![1, 2, 3, 4, 5]);
            assert_eq!(o.originating_entity_id, None);
        }
        _ => panic!("expected an Other body"),
    }
}

#[test]
fn known_untyped_body_extracts_interaction() {
    let body = vec![0, 1, 0, 2, 0, 3, 0, 4, 0, 5, 0, 6, 9, 9];
    let pdu = Pdu::finalize_from_parts(
        header(PduType::Detonation),
        PduBody::Other(Other::new(body.clone())),
        0,
    );
    let mut buf = BytesMut::new();
    pdu.serialize(&mut buf);
    let (parsed, _) = parse_pdu(&buf).unwrap();
    match parsed.body {
        PduBody::Other(o) => {
            assert_eq!(o.body, body);
            assert_eq!(o.originating_entity_id, Some(EntityId::new(1, 2, 3)));
            assert_eq!(o.receiving_entity_id, Some(EntityId::new(4, 5, 6)));
        }
        _ => panic!("expected an Other body"),
    }
}

#[test]
fn header_errors() {
    assert_eq!(parse_pdu(&[6, 1, 22]).err(), Some(ParseError::Truncated));
    let mut raw = vec![5u8, 1, 22, 5, 0, 0, 0, 0, 0, 12, 0, 0];
    assert_eq!(parse_pdu(&raw).err(), Some(ParseError::UnsupportedVersion));
    raw[0] = 7;
    raw[9] = 11;
    assert_eq!(parse_pdu(&raw).err(), Some(ParseError::MalformedHeader));
    raw[9] = 40;
    assert_eq!(parse_pdu(&raw).err(), Some(ParseError::Truncated));
    raw[9] = 12;
    assert_eq!(parse_pdu(&raw).err(), Some(ParseError::MalformedBody(PduType::Comment, 12)));
}

#[test]
fn concatenated_pdus() {
    let comment = Comment::builder()
        .with_origin_id(EntityId::new(1, 2, 3))
        .with_variable_datum(VariableDatum::new(0x1000, vec![1, 2, 3]))
        .build();
    let a = Pdu::finalize_from_parts(header(PduType::Comment), comment.into_pdu_body(), 5);
    let b = Pdu::finalize_from_parts(header(PduType::Fire), PduBody::Fire(sample_fire()), 6);
    let mut buf = BytesMut::new();
    a.serialize(&mut buf);
    b.serialize(&mut buf);
    let (pdus, consumed, error) = parse_many(&buf);
    assert_eq!(pdus.len(), 2);
    assert!(same_pdu(&pdus[0], &a));
    assert!(same_pdu(&pdus[1], &b));
    assert_eq!(consumed, buf.len());
    assert_eq!(error, None);
    let mut again = BytesMut::new();
    pdus[0].serialize(&mut again);
    pdus[1].serialize(&mut again);
    assert_eq!(again, buf);
    let (pdus, consumed, error) = parse_many(&buf[..buf.len() - 1]);
    assert_eq!(pdus.len(), 1);
    assert_eq!(consumed, 48);
    assert_eq!(error, Some(ParseError::Truncated));
}

#[test]
fn finalize_takes_the_tag_from_the_body() {
    let comment = Comment::default();
    let pdu = Pdu::finalize_from_parts(header(PduType::Fire), comment.into_pdu_body(), 1);
    assert_eq!(pdu.header.pdu_type, PduType::Comment);
    assert_eq!(pdu.body.body_type(), PduType::Comment);
    assert_eq!(pdu.header.pdu_length, 32);
    let other = Other::new(vec![1, 2]);
    let pdu = Pdu::finalize_from_parts(header(PduType::Unspecified(99)), PduBody::Other(other), 1);
    assert_eq!(pdu.header.pdu_type, PduType::Unspecified(99));
    assert_eq!(pdu.body.body_type(), PduType::Other);
}

#[test]
fn body_interaction() {
    let body = PduBody::Fire(sample_fire());
    assert_eq!(body.body_type(), PduType::Fire);
    assert_eq!(body.originator(), Some(&EntityId::new(1, 1, 10)));
    assert_eq!(body.receiver(), Some(&EntityId::new(2, 1, 5)));
    let body = Other::new(vec![]).with_origin(Some(EntityId::new(3, 3, 3))).as_pdu_body();
    assert_eq!(body.originator(), Some(&EntityId::new(3, 3, 3)));
    assert_eq!(body.receiver(), None);
}

#[test]
fn service_request_pdu_round_trip() {
    let request = ServiceRequest {
        requesting_id: EntityId::new(1, 1, 2),
        servicing_id: EntityId::new(9, 1, 1),
        service_type_requested: ServiceRequestServiceTypeRequested::Resupply,
        supplies: vec![SupplyQuantity::new(EntityType::new(8, 0, 0, 0, 0, 0, 0), 678.0f32.to_bits())],
    };
    let pdu = Pdu::finalize_from_parts(header(PduType::Other), PduBody::ServiceRequest(request), 100);
    assert_eq!(pdu.header.pdu_type, PduType::ServiceRequest);
    assert_eq!(pdu.header.pdu_length, 40);
    assert_eq!(pdu.body.originator(), Some(&EntityId::new(1, 1, 2)));
    assert_eq!(pdu.body.receiver(), Some(&EntityId::new(9, 1, 1)));
    let mut buf = BytesMut::new();
    assert_eq!(pdu.serialize(&mut buf), 40);
    let (parsed, n) = parse_pdu(&buf).unwrap();
    assert_eq!(n, 40);
    assert!(same_pdu(&parsed, &pdu));
    let mut again = BytesMut::new();
    parsed.serialize(&mut again);
    assert_eq!(again, buf);
}
