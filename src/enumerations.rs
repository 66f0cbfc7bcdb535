use vstd::prelude::*;

verus! {

/// State of a radio receiver. Values without a named variant are kept as `Unspecified`.
#[allow(non_camel_case_types)]
#[derive(Clone, Copy, Debug, PartialEq, Eq, Structural)]
pub enum ReceiverState {
    Off,
    OnButNotReceiving,
    OnAndReceiving,
    Unspecified(u16),
}

/// The variant that a raw value denotes.
pub open spec fn receiver_state_of(raw: u16) -> ReceiverState {
    if raw == 0 {
        ReceiverState::Off
    } else if raw == 1 {
        ReceiverState::OnButNotReceiving
    } else if raw == 2 {
        ReceiverState::OnAndReceiving
    } else {
        ReceiverState::Unspecified(raw)
    }
}

/// The raw value of a variant.
pub open spec fn receiver_state_value(e: ReceiverState) -> u16 {
    match e {
        ReceiverState::Off => 0,
        ReceiverState::OnButNotReceiving => 1,
        ReceiverState::OnAndReceiving => 2,
        ReceiverState::Unspecified(raw) => raw,
    }
}

impl ReceiverState {
    pub fn from_raw(raw: u16) -> (r: ReceiverState)
        ensures
            r == receiver_state_of(raw),
    {
        match raw {
            0 => ReceiverState::Off,
            1 => ReceiverState::OnButNotReceiving,
            2 => ReceiverState::OnAndReceiving,
            _ => ReceiverState::Unspecified(raw),
        }
    }

    pub fn to_raw(&self) -> (r: u16)
        ensures
            r == receiver_state_value(*self),
    {
        match self {
            ReceiverState::Off => 0,
            ReceiverState::OnButNotReceiving => 1,
            ReceiverState::OnAndReceiving => 2,
            ReceiverState::Unspecified(raw) => *raw,
        }
    }
}

/// Every raw value of `ReceiverState` is kept through reading and writing.
pub proof fn lemma_receiver_state_round_trip(raw: u16)
    ensures
        receiver_state_value(receiver_state_of(raw)) == raw,
        receiver_state_of(receiver_state_value(receiver_state_of(raw))) == receiver_state_of(raw),
{
}

/// Class of the data carried by a Signal PDU: the two top bits of its encoding scheme. Values without a named variant are kept as `Unspecified`.
#[allow(non_camel_case_types)]
#[derive(Clone, Copy, Debug, PartialEq, Eq, Structural)]
pub enum SignalEncodingClass {
    Encodedaudio,
    Rawbinarydata,
    Applicationspecificdata,
    Databaseindex,
    Unspecified(u16),
}

/// The variant that a raw value denotes.
pub open spec fn signal_encoding_class_of(raw: u16) -> SignalEncodingClass {
    if raw == 0 {
        SignalEncodingClass::Encodedaudio
    } else if raw == 1 {
        SignalEncodingClass::Rawbinarydata
    } else if raw == 2 {
        SignalEncodingClass::Applicationspecificdata
    } else if raw == 3 {
        SignalEncodingClass::Databaseindex
    } else {
        SignalEncodingClass::Unspecified(raw)
    }
}

/// The raw value of a variant.
pub open spec fn signal_encoding_class_value(e: SignalEncodingClass) -> u16 {
    match e {
        SignalEncodingClass::Encodedaudio => 0,
        SignalEncodingClass::Rawbinarydata => 1,
        SignalEncodingClass::Applicationspecificdata => 2,
        SignalEncodingClass::Databaseindex => 3,
        SignalEncodingClass::Unspecified(raw) => raw,
    }
}

impl SignalEncodingClass {
    pub fn from_raw(raw: u16) -> (r: SignalEncodingClass)
        ensures
            r == signal_encoding_class_of(raw),
    {
        match raw {
            0 => SignalEncodingClass::Encodedaudio,
            1 => SignalEncodingClass::Rawbinarydata,
            2 => SignalEncodingClass::Applicationspecificdata,
            3 => SignalEncodingClass::Databaseindex,
            _ => SignalEncodingClass::Unspecified(raw),
        }
    }

    pub fn to_raw(&self) -> (r: u16)
        ensures
            r == signal_encoding_class_value(*self),
    {
        match self {
            SignalEncodingClass::Encodedaudio => 0,
            SignalEncodingClass::Rawbinarydata => 1,
            SignalEncodingClass::Applicationspecificdata => 2,
            SignalEncodingClass::Databaseindex => 3,
            SignalEncodingClass::Unspecified(raw) => *raw,
        }
    }
}

/// Every raw value of `SignalEncodingClass` is kept through reading and writing.
pub proof fn lemma_signal_encoding_class_round_trip(raw: u16)
    ensures
        signal_encoding_class_value(signal_encoding_class_of(raw)) == raw,
        signal_encoding_class_of(signal_encoding_class_value(signal_encoding_class_of(raw))) == signal_encoding_class_of(raw),
{
}

/// Encoding of audio carried by a Signal PDU. Values without a named variant are kept as `Unspecified`.
#[allow(non_camel_case_types)]
#[derive(Clone, Copy, Debug, PartialEq, Eq, Structural)]
pub enum SignalEncodingType {
    _8bitmulaw_ITUTG_711_1,
    CVSD_MILSTD188113_2,
    ADPCM_ITUTG_726_3,
    _16bitLinearPCM2sComplement_BigEndian_4,
    _8bitLinearPCM_Unsigned_5,
    Unspecified(u16),
}

/// The variant that a raw value denotes.
pub open spec fn signal_encoding_type_of(raw: u16) -> SignalEncodingType {
    if raw == 1 {
        SignalEncodingType::_8bitmulaw_ITUTG_711_1
    } else if raw == 2 {
        SignalEncodingType::CVSD_MILSTD188113_2
    } else if raw == 3 {
        SignalEncodingType::ADPCM_ITUTG_726_3
    } else if raw == 4 {
        SignalEncodingType::_16bitLinearPCM2sComplement_BigEndian_4
    } else if raw == 5 {
        SignalEncodingType::_8bitLinearPCM_Unsigned_5
    } else {
        SignalEncodingType::Unspecified(raw)
    }
}

/// The raw value of a variant.
pub open spec fn signal_encoding_type_value(e: SignalEncodingType) -> u16 {
    match e {
        SignalEncodingType::_8bitmulaw_ITUTG_711_1 => 1,
        SignalEncodingType::CVSD_MILSTD188113_2 => 2,
        SignalEncodingType::ADPCM_ITUTG_726_3 => 3,
        SignalEncodingType::_16bitLinearPCM2sComplement_BigEndian_4 => 4,
        SignalEncodingType::_8bitLinearPCM_Unsigned_5 => 5,
        SignalEncodingType::Unspecified(raw) => raw,
    }
}

impl SignalEncodingType {
    pub fn from_raw(raw: u16) -> (r: SignalEncodingType)
        ensures
            r == signal_encoding_type_of(raw),
    {
        match raw {
            1 => SignalEncodingType::_8bitmulaw_ITUTG_711_1,
            2 => SignalEncodingType::CVSD_MILSTD188113_2,
            3 => SignalEncodingType::ADPCM_ITUTG_726_3,
            4 => SignalEncodingType::_16bitLinearPCM2sComplement_BigEndian_4,
            5 => SignalEncodingType::_8bitLinearPCM_Unsigned_5,
            _ => SignalEncodingType::Unspecified(raw),
        }
    }

    pub fn to_raw(&self) -> (r: u16)
        ensures
            r == signal_encoding_type_value(*self),
    {
        match self {
            SignalEncodingType::_8bitmulaw_ITUTG_711_1 => 1,
            SignalEncodingType::CVSD_MILSTD188113_2 => 2,
            SignalEncodingType::ADPCM_ITUTG_726_3 => 3,
            SignalEncodingType::_16bitLinearPCM2sComplement_BigEndian_4 => 4,
            SignalEncodingType::_8bitLinearPCM_Unsigned_5 => 5,
            SignalEncodingType::Unspecified(raw) => *raw,
        }
    }
}

/// Every raw value of `SignalEncodingType` is kept through reading and writing.
pub proof fn lemma_signal_encoding_type_round_trip(raw: u16)
    ensures
        signal_encoding_type_value(signal_encoding_type_of(raw)) == raw,
        signal_encoding_type_of(signal_encoding_type_value(signal_encoding_type_of(raw))) == signal_encoding_type_of(raw),
{
}

/// Tactical data link type of a Signal PDU. Values without a named variant are kept as `Unspecified`.
#[allow(non_camel_case_types)]
#[derive(Clone, Copy, Debug, PartialEq, Eq, Structural)]
pub enum SignalTdlType {
    Other_0,
    PADIL_1,
    NATOLink1_2,
    ATDL1_3,
    Link16Legacy_100,
    Unspecified(u16),
}

/// The variant that a raw value denotes.
pub open spec fn signal_tdl_type_of(raw: u16) -> SignalTdlType {
    if raw == 0 {
        SignalTdlType::Other_0
    } else if raw == 1 {
        SignalTdlType::PADIL_1
    } else if raw == 2 {
        SignalTdlType::NATOLink1_2
    } else if raw == 3 {
        SignalTdlType::ATDL1_3
    } else if raw == 100 {
        SignalTdlType::Link16Legacy_100
    } else {
        SignalTdlType::Unspecified(raw)
    }
}

/// The raw value of a variant.
pub open spec fn signal_tdl_type_value(e: SignalTdlType) -> u16 {
    match e {
        SignalTdlType::Other_0 => 0,
        SignalTdlType::PADIL_1 => 1,
        SignalTdlType::NATOLink1_2 => 2,
        SignalTdlType::ATDL1_3 => 3,
        SignalTdlType::Link16Legacy_100 => 100,
        SignalTdlType::Unspecified(raw) => raw,
    }
}

impl SignalTdlType {
    pub fn from_raw(raw: u16) -> (r: SignalTdlType)
        ensures
            r == signal_tdl_type_of(raw),
    {
        match raw {
            0 => SignalTdlType::Other_0,
            1 => SignalTdlType::PADIL_1,
            2 => SignalTdlType::NATOLink1_2,
            3 => SignalTdlType::ATDL1_3,
            100 => SignalTdlType::Link16Legacy_100,
            _ => SignalTdlType::Unspecified(raw),
        }
    }

    pub fn to_raw(&self) -> (r: u16)
        ensures
            r == signal_tdl_type_value(*self),
    {
        match self {
            SignalTdlType::Other_0 => 0,
            SignalTdlType::PADIL_1 => 1,
            SignalTdlType::NATOLink1_2 => 2,
            SignalTdlType::ATDL1_3 => 3,
            SignalTdlType::Link16Legacy_100 => 100,
            SignalTdlType::Unspecified(raw) => *raw,
        }
    }
}

/// Every raw value of `SignalTdlType` is kept through reading and writing.
pub proof fn lemma_signal_tdl_type_round_trip(raw: u16)
    ensures
        signal_tdl_type_value(signal_tdl_type_of(raw)) == raw,
        signal_tdl_type_of(signal_tdl_type_value(signal_tdl_type_of(raw))) == signal_tdl_type_of(raw),
{
}

/// Kind of service asked for in a Service Request PDU. Values without a named variant are kept as `Unspecified`.
#[allow(non_camel_case_types)]
#[derive(Clone, Copy, Debug, PartialEq, Eq, Structural)]
pub enum ServiceRequestServiceTypeRequested {
    Other,
    Resupply,
    Repair,
    AerialRefuelingHighFidelity,
    AerialRefuelingLowFidelity,
    Unspecified(u8),
}

/// The variant that a raw value denotes.
pub open spec fn service_type_requested_of(raw: u8) -> ServiceRequestServiceTypeRequested {
    if raw == 0 {
        ServiceRequestServiceTypeRequested::Other
    } else if raw == 1 {
        ServiceRequestServiceTypeRequested::Resupply
    } else if raw == 2 {
        ServiceRequestServiceTypeRequested::Repair
    } else if raw == 3 {
        ServiceRequestServiceTypeRequested::AerialRefuelingHighFidelity
    } else if raw == 4 {
        ServiceRequestServiceTypeRequested::AerialRefuelingLowFidelity
    } else {
        ServiceRequestServiceTypeRequested::Unspecified(raw)
    }
}

/// The raw value of a variant.
pub open spec fn service_type_requested_value(e: ServiceRequestServiceTypeRequested) -> u8 {
    match e {
        ServiceRequestServiceTypeRequested::Other => 0,
        ServiceRequestServiceTypeRequested::Resupply => 1,
        ServiceRequestServiceTypeRequested::Repair => 2,
        ServiceRequestServiceTypeRequested::AerialRefuelingHighFidelity => 3,
        ServiceRequestServiceTypeRequested::AerialRefuelingLowFidelity => 4,
        ServiceRequestServiceTypeRequested::Unspecified(raw) => raw,
    }
}

impl ServiceRequestServiceTypeRequested {
    pub fn from_raw(raw: u8) -> (r: ServiceRequestServiceTypeRequested)
        ensures
            r == service_type_requested_of(raw),
    {
        match raw {
            0 => ServiceRequestServiceTypeRequested::Other,
            1 => ServiceRequestServiceTypeRequested::Resupply,
            2 => ServiceRequestServiceTypeRequested::Repair,
            3 => ServiceRequestServiceTypeRequested::AerialRefuelingHighFidelity,
            4 => ServiceRequestServiceTypeRequested::AerialRefuelingLowFidelity,
            _ => ServiceRequestServiceTypeRequested::Unspecified(raw),
        }
    }

    pub fn to_raw(&self) -> (r: u8)
        ensures
            r == service_type_requested_value(*self),
    {
        match self {
            ServiceRequestServiceTypeRequested::Other => 0,
            ServiceRequestServiceTypeRequested::Resupply => 1,
            ServiceRequestServiceTypeRequested::Repair => 2,
            ServiceRequestServiceTypeRequested::AerialRefuelingHighFidelity => 3,
            ServiceRequestServiceTypeRequested::AerialRefuelingLowFidelity => 4,
            ServiceRequestServiceTypeRequested::Unspecified(raw) => *raw,
        }
    }
}

/// Every raw value of `ServiceRequestServiceTypeRequested` is kept through reading and writing.
pub proof fn lemma_service_type_requested_round_trip(raw: u8)
    ensures
        service_type_requested_value(service_type_requested_of(raw)) == raw,
        service_type_requested_of(service_type_requested_value(service_type_requested_of(raw))) == service_type_requested_of(raw),
{
}

/// User protocol of application-specific data in a Signal PDU. Values without a named variant are kept as `Unspecified`.
#[allow(non_camel_case_types)]
#[derive(Clone, Copy, Debug, PartialEq, Eq, Structural)]
pub enum SignalUserProtocolIdentificationNumber {
    CCSIL_1,
    A2ATDSINCGARSERF_200,
    A2ATDCAC2_201,
    Unspecified(u32),
}

/// The variant that a raw value denotes.
pub open spec fn signal_user_protocol_of(raw: u32) -> SignalUserProtocolIdentificationNumber {
    if raw == 1 {
        SignalUserProtocolIdentificationNumber::CCSIL_1
    } else if raw == 200 {
        SignalUserProtocolIdentificationNumber::A2ATDSINCGARSERF_200
    } else if raw == 201 {
        SignalUserProtocolIdentificationNumber::A2ATDCAC2_201
    } else {
        SignalUserProtocolIdentificationNumber::Unspecified(raw)
    }
}

/// The raw value of a variant.
pub open spec fn signal_user_protocol_value(e: SignalUserProtocolIdentificationNumber) -> u32 {
    match e {
        SignalUserProtocolIdentificationNumber::CCSIL_1 => 1,
        SignalUserProtocolIdentificationNumber::A2ATDSINCGARSERF_200 => 200,
        SignalUserProtocolIdentificationNumber::A2ATDCAC2_201 => 201,
        SignalUserProtocolIdentificationNumber::Unspecified(raw) => raw,
    }
}

impl SignalUserProtocolIdentificationNumber {
    pub fn from_raw(raw: u32) -> (r: SignalUserProtocolIdentificationNumber)
        ensures
            r == signal_user_protocol_of(raw),
    {
        match raw {
            1 => SignalUserProtocolIdentificationNumber::CCSIL_1,
            200 => SignalUserProtocolIdentificationNumber::A2ATDSINCGARSERF_200,
            201 => SignalUserProtocolIdentificationNumber::A2ATDCAC2_201,
            _ => SignalUserProtocolIdentificationNumber::Unspecified(raw),
        }
    }

    pub fn to_raw(&self) -> (r: u32)
        ensures
            r == signal_user_protocol_value(*self),
    {
        match self {
            SignalUserProtocolIdentificationNumber::CCSIL_1 => 1,
            SignalUserProtocolIdentificationNumber::A2ATDSINCGARSERF_200 => 200,
            SignalUserProtocolIdentificationNumber::A2ATDCAC2_201 => 201,
            SignalUserProtocolIdentificationNumber::Unspecified(raw) => *raw,
        }
    }
}

/// Every raw value of `SignalUserProtocolIdentificationNumber` is kept through reading and writing.
pub proof fn lemma_signal_user_protocol_round_trip(raw: u32)
    ensures
        signal_user_protocol_value(signal_user_protocol_of(raw)) == raw,
        signal_user_protocol_of(signal_user_protocol_value(signal_user_protocol_of(raw))) == signal_user_protocol_of(raw),
{
}

} // verus!
