use dis_gateway::bit_buffer::{
    bit_buffer_from_octets, datagram_octets, read_bits, write_bits, BitBuffer,
};
use dis_gateway::cdis::{
    CdisEntityId, RemoveEntity, Uvint16, Uvint16BitSize, Uvint32, Uvint32BitSize,
};
use dis_gateway::cdis::Receiver as CdisReceiver;
use dis_gateway::enumerations::ReceiverState;
use dis_gateway::model::EntityId;
use dis_gateway::receiver::Receiver;

#[test]
fn bits_are_written_most_significant_first() {
    let mut buf = BitBuffer::new();
    let c = write_bits(&mut buf, 3, 5, 0b10110);
    assert_eq!(c, 8);
    assert_eq!(read_bits(&buf, 0, 8), 0b0001_0110);
    assert_eq!(read_bits(&buf, 3, 5), 0b10110);
    let c = write_bits(&mut buf, c, 32, 0xDEAD_BEEF);
    assert_eq!(c, 40);
    assert_eq!(read_bits(&buf, 8, 32), 0xDEAD_BEEF);
    assert_eq!(read_bits(&buf, 8, 4), 0xD);
}

#[test]
fn uvint_widths() {
    assert_eq!(Uvint16::from(255).bit_size, Uvint16BitSize::Eight);
    assert_eq!(Uvint16::from(256).bit_size, Uvint16BitSize::Sixteen);
    assert_eq!(Uvint32::from(0xFF).bit_size, Uvint32BitSize::Eight);
    assert_eq!(Uvint32::from(0xFFFF).bit_size, Uvint32BitSize::Sixteen);
    assert_eq!(Uvint32::from(0xFF_FFFF).bit_size, Uvint32BitSize::TwentyFour);
    assert_eq!(Uvint32::from(0x100_0000).bit_size, Uvint32BitSize::ThirtyTwo);
    let mut buf = BitBuffer::new();
    let c = Uvint16::from(5).serialize(&mut buf, 0);
    assert_eq!(c, 9);
    assert_eq!(read_bits(&buf, 0, 9), 5);
    let c = Uvint16::from(300).serialize(&mut buf, c);
    assert_eq!(c, 26);
    assert_eq!(read_bits(&buf, 9, 17), (1 << 16) | 300);
    assert_eq!(Uvint16::parse(&buf, 0), (Uvint16::from(5), 9));
    assert_eq!(Uvint16::parse(&buf, 9), (Uvint16::from(300), 26));
}

#[test]
fn remove_entity_round_trip() {
    let body = RemoveEntity {
        originating_id: CdisEntityId::encode(&EntityId::new(1, 2, 300)),
        receiving_id: CdisEntityId::encode(&EntityId::new(7, 8, 9)),
        request_id: Uvint32::from(70_000),
    };
    let mut buf = BitBuffer::new();
    let end = body.serialize(&mut buf, 0);
    assert_eq!(end, 9 + 9 + 17 + 27 + 26);
    assert_eq!(RemoveEntity::parse(&buf, 0), (body, end));
}

#[test]
fn remove_entity_concatenation() {
    let a = RemoveEntity {
        originating_id: CdisEntityId::encode(&EntityId::new(1, 1, 1)),
        receiving_id: CdisEntityId::encode(&EntityId::new(2, 2, 2)),
        request_id: Uvint32::from(1),
    };
    let b = RemoveEntity {
        originating_id: CdisEntityId::encode(&EntityId::new(65535, 1, 1)),
        receiving_id: CdisEntityId::encode(&EntityId::new(2, 256, 2)),
        request_id: Uvint32::from(u32::MAX),
    };
    let mut buf = BitBuffer::new();
    let mid = a.serialize(&mut buf, 5);
    let end = b.serialize(&mut buf, mid);
    let (first, c1) = RemoveEntity::parse(&buf, 5);
    let (second, c2) = RemoveEntity::parse(&buf, c1);
    assert_eq!(first, a);
    assert_eq!(second, b);
    assert_eq!(c1, mid);
    assert_eq!(c2, end);
}

#[test]
fn cdis_receiver_bits_round_trip() {
    let dis = Receiver::builder()
        .with_radio_reference_id(EntityId::new(7, 1, 2))
        .with_radio_number(3)
        .with_receiver_state(ReceiverState::OnAndReceiving)
        .with_received_power((-42.5f32).to_bits())
        .with_transmitter_radio_reference_id(EntityId::new(1, 300, 2))
        .with_transmitter_radio_number(1000)
        .build();
    let cdis = CdisReceiver::encode(&dis);
    let mut buf = BitBuffer::new();
    let end = cdis.serialize(&mut buf, 3);
    assert_eq!(end, 3 + 27 + 9 + 2 + 16 + 35 + 17);
    assert_eq!(read_bits(&buf, 3 + 27 + 9, 2), 2);
    assert_eq!(read_bits(&buf, 3 + 27 + 9 + 2, 16), (-43i16) as u16 as u32);
    assert_eq!(CdisReceiver::parse(&buf, 3), (cdis, end));
    assert_eq!(f32::from_bits(CdisReceiver::parse(&buf, 3).0.decode().received_power), -43.0);
}

#[test]
fn datagram_framing() {
    let mut buf = BitBuffer::new();
    let end = write_bits(&mut buf, 0, 12, 0xABC);
    assert_eq!(datagram_octets(&buf, end), vec![0xAB, 0xC0]);
    let received = bit_buffer_from_octets(&[0x12, 0x34, 0x56]);
    assert_eq!(read_bits(&received, 4, 16), 0x2345);
    assert_eq!(datagram_octets(&received, 24), vec![0x12, 0x34, 0x56]);
    let body = RemoveEntity {
        originating_id: CdisEntityId::encode(&EntityId::new(1, 2, 3)),
        receiving_id: CdisEntityId::encode(&EntityId::new(4, 5, 6)),
        request_id: Uvint32::from(9),
    };
    let mut out = BitBuffer::new();
    let bits = body.serialize(&mut out, 0);
    let octets = datagram_octets(&out, bits);
    assert_eq!(octets.len(), (bits + 7) / 8);
    let back = bit_buffer_from_octets(&octets);
    assert_eq!(RemoveEntity::parse(&back, 0), (body, bits));
}

#[test]
fn narrow_values_fit_at_the_end_of_the_buffer() {
    let body = RemoveEntity {
        originating_id: CdisEntityId::encode(&EntityId::new(1, 1, 1)),
        receiving_id: CdisEntityId::encode(&EntityId::new(2, 2, 2)),
        request_id: Uvint32::from(3),
    };
    let bits = 6 * 9 + 10;
    let start = 11200 - bits;
    let mut buf = BitBuffer::new();
    assert_eq!(body.serialize(&mut buf, start), 11200);
    assert_eq!(RemoveEntity::parse(&buf, start), (body, 11200));
}
