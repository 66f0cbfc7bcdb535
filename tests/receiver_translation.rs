use dis_gateway::cdis::{CdisEntityId, Receiver as CdisReceiver, Uvint16, Uvint16BitSize};
use dis_gateway::enumerations::ReceiverState;
use dis_gateway::float_bits::{f32_bits_to_i16_rounded, i16_to_f32_bits};
use dis_gateway::model::EntityId;
use dis_gateway::receiver::Receiver;

fn dis_receiver(power: f32) -> Receiver {
    Receiver::builder()
        .with_radio_reference_id(EntityId::new(7, 1, 2))
        .with_radio_number(3)
        .with_receiver_state(ReceiverState::OnAndReceiving)
        .with_received_power(power.to_bits())
        .with_transmitter_radio_reference_id(EntityId::new(1, 300, 2))
        .with_transmitter_radio_number(1000)
        .build()
}

#[test]
fn receiver_translation() {
    let dis = dis_receiver(-42.5);
    let cdis = CdisReceiver::encode(&dis);
    assert_eq!(cdis.received_power, -43);
    assert_eq!(cdis.radio_number, Uvint16 { bit_size: Uvint16BitSize::Eight, value: 3 });
    assert_eq!(cdis.transmitter_radio_number.bit_size, Uvint16BitSize::Sixteen);
    assert_eq!(cdis.transmitter_radio_reference_id.application.bit_size, Uvint16BitSize::Sixteen);
    let back = cdis.decode();
    assert_eq!(f32::from_bits(back.received_power), -43.0);
    assert_eq!(back.radio_reference_id, EntityId::new(7, 1, 2));
    assert_eq!(back.radio_number, 3);
    assert_eq!(back.receiver_state, ReceiverState::OnAndReceiving);
    assert_eq!(back.transmitter_radio_reference_id, EntityId::new(1, 300, 2));
    assert_eq!(back.transmitter_radio_number, 1000);
    assert_eq!(CdisReceiver::encode(&back), cdis);
}

#[test]
fn received_power_rounding() {
    let cases: [(f32, i16); 12] = [
        (0.0, 0),
        (-0.0, 0),
        (1.4, 1),
        (2.5, 3),
        (-2.5, -3),
        (0.49, 0),
        (32767.0, 32767),
        (-32768.0, -32768),
        (32767.6, 0),
        (40000.0, 0),
        (f32::INFINITY, 0),
        (f32::NAN, 0),
    ];
    for (value, expected) in cases {
        assert_eq!(f32_bits_to_i16_rounded(value.to_bits()), expected, "value {value}");
    }
}

#[test]
fn received_power_rounding_matches_float_rounding() {
    for bits in (0..=u32::MAX).step_by(4099) {
        let value = f32::from_bits(bits);
        let rounded = value.round();
        let expected = if value.is_finite() && rounded >= -32768.0 && rounded <= 32767.0 {
            rounded as i16
        } else {
            0
        };
        assert_eq!(f32_bits_to_i16_rounded(bits), expected, "bits {bits:#x}");
    }
}

#[test]
fn every_i16_widens_exactly() {
    for x in i16::MIN..=i16::MAX {
        let bits = i16_to_f32_bits(x);
        assert_eq!(f32::from_bits(bits), x as f32);
        assert_eq!(bits, (x as f32).to_bits());
        assert_eq!(f32_bits_to_i16_rounded(bits), x);
    }
}

#[test]
fn entity_id_translation() {
    let id = EntityId::new(255, 256, 65535);
    let c = CdisEntityId::encode(&id);
    assert_eq!(c.site.bit_size, Uvint16BitSize::Eight);
    assert_eq!(c.application.bit_size, Uvint16BitSize::Sixteen);
    assert_eq!(c.decode(), id);
}
