use dis_gateway::enumerations::{
    ReceiverState, ServiceRequestServiceTypeRequested, SignalEncodingClass, SignalEncodingType,
    SignalTdlType, SignalUserProtocolIdentificationNumber,
};
use dis_gateway::model::PduType;

#[test]
fn pdu_type_every_raw_value_round_trips() {
    for raw in 0..=u8::MAX {
        let t = PduType::from_u8(raw);
        assert_eq!(t.to_u8(), raw);
        assert_eq!(PduType::from_u8(t.to_u8()), t);
    }
    assert_eq!(PduType::from_u8(22), PduType::Comment);
    assert_eq!(PduType::from_u8(200), PduType::Unspecified(200));
}

#[test]
fn sixteen_bit_enumerations_round_trip() {
    for raw in 0..=u16::MAX {
        assert_eq!(ReceiverState::from_raw(raw).to_raw(), raw);
        assert_eq!(SignalEncodingClass::from_raw(raw).to_raw(), raw);
        assert_eq!(SignalEncodingType::from_raw(raw).to_raw(), raw);
        assert_eq!(SignalTdlType::from_raw(raw).to_raw(), raw);
    }
    assert_eq!(ReceiverState::from_raw(2), ReceiverState::OnAndReceiving);
    assert_eq!(ReceiverState::from_raw(3), ReceiverState::Unspecified(3));
}

#[test]
fn eight_and_thirty_two_bit_enumerations_round_trip() {
    for raw in 0..=u8::MAX {
        assert_eq!(ServiceRequestServiceTypeRequested::from_raw(raw).to_raw(), raw);
    }
    for raw in (0..=u32::MAX).step_by(65_521).chain([1, 200, 201, u32::MAX]) {
        let e = SignalUserProtocolIdentificationNumber::from_raw(raw);
        assert_eq!(e.to_raw(), raw);
        assert_eq!(SignalUserProtocolIdentificationNumber::from_raw(e.to_raw()), e);
    }
    assert_eq!(
        SignalUserProtocolIdentificationNumber::from_raw(1),
        SignalUserProtocolIdentificationNumber::CCSIL_1
    );
}
