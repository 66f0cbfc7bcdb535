use vstd::prelude::*;
use crate::model::{EntityId, PduType};
use crate::enumerations::{
    SignalEncodingClass, SignalEncodingType, SignalTdlType, SignalUserProtocolIdentificationNumber,
};
use crate::body::PduBody;

verus! {

/// Octets of a Signal body before its data.
pub const BASE_SIGNAL_BODY_LENGTH: u16 = 20;

/// Signal data is aligned to this many octets.
pub const FOUR_OCTETS: usize = 4;

/// How the data of a Signal PDU is encoded, by encoding class.
#[derive(Clone, Copy, Debug, PartialEq, Eq, Structural)]
pub enum EncodingScheme {
    EncodedAudio { encoding_class: SignalEncodingClass, encoding_type: SignalEncodingType },
    RawBinaryData { encoding_class: SignalEncodingClass, nr_of_messages: u16 },
    ApplicationSpecificData {
        encoding_class: SignalEncodingClass,
        user_protocol_id: SignalUserProtocolIdentificationNumber,
    },
    DatabaseIndex {
        encoding_class: SignalEncodingClass,
        index: u32,
        offset_milli_secs: u32,
        duration_milli_secs: u32,
    },
}

/// The encoding scheme of a new Signal: 8-bit mu-law audio.
pub open spec fn default_encoding_scheme() -> EncodingScheme {
    EncodingScheme::EncodedAudio {
        encoding_class: SignalEncodingClass::Encodedaudio,
        encoding_type: SignalEncodingType::_8bitmulaw_ITUTG_711_1,
    }
}

/// Octets that the data of a Signal takes on the wire: always followed by one to four
/// octets of padding, up to the next multiple of four.
pub open spec fn signal_data_padded_len(n: nat) -> nat {
    n + (4 - n % 4) as nat
}

/// 5.8.4 / 7.7.3 Signal PDU: the audio or digital data that a radio transmits.
pub struct Signal {
    pub radio_reference_id: EntityId,
    pub radio_number: u16,
    pub encoding_scheme: EncodingScheme,
    pub tdl_type: SignalTdlType,
    pub sample_rate: u32,
    pub samples: u16,
    pub data: Vec<u8>,
}

impl Default for Signal {
    fn default() -> (r: Signal)
        ensures
            r.radio_reference_id == (EntityId { site: 0, application: 0, entity: 0 }),
            r.radio_number == 0,
            r.encoding_scheme == default_encoding_scheme(),
            r.tdl_type == SignalTdlType::Other_0,
            r.sample_rate == 0,
            r.samples == 0,
            r.data@ == Seq::<u8>::empty(),
    {
        Signal::new()
    }
}

impl Signal {
    pub fn new() -> (r: Signal)
        ensures
            r.radio_reference_id == (EntityId { site: 0, application: 0, entity: 0 }),
            r.radio_number == 0,
            r.encoding_scheme == default_encoding_scheme(),
            r.tdl_type == SignalTdlType::Other_0,
            r.sample_rate == 0,
            r.samples == 0,
            r.data@ == Seq::<u8>::empty(),
    {
        Signal {
            radio_reference_id: EntityId::new(0, 0, 0),
            radio_number: 0,
            encoding_scheme: EncodingScheme::EncodedAudio {
                encoding_class: SignalEncodingClass::Encodedaudio,
                encoding_type: SignalEncodingType::_8bitmulaw_ITUTG_711_1,
            },
            tdl_type: SignalTdlType::Other_0,
            sample_rate: 0,
            samples: 0,
            data: Vec::new(),
        }
    }

    /// All fields but the data are equal, and the data holds the same octets.
    pub open spec fn same_but_data(&self, o: &Signal) -> bool {
        &&& self.radio_reference_id == o.radio_reference_id
        &&& self.radio_number == o.radio_number
        &&& self.encoding_scheme == o.encoding_scheme
        &&& self.tdl_type == o.tdl_type
        &&& self.sample_rate == o.sample_rate
        &&& self.samples == o.samples
    }

    pub fn with_radio_reference_id(self, radio_reference_id: EntityId) -> (r: Signal)
        ensures
            r == (Signal { radio_reference_id, ..self }),
    {
        let mut s = self;
        s.radio_reference_id = radio_reference_id;
        s
    }

    pub fn with_radio_number(self, radio_number: u16) -> (r: Signal)
        ensures
            r == (Signal { radio_number, ..self }),
    {
        let mut s = self;
        s.radio_number = radio_number;
        s
    }

    pub fn with_encoding_scheme(self, encoding_scheme: EncodingScheme) -> (r: Signal)
        ensures
            r == (Signal { encoding_scheme, ..self }),
    {
        let mut s = self;
        s.encoding_scheme = encoding_scheme;
        s
    }

    pub fn with_tdl_type(self, tdl_type: SignalTdlType) -> (r: Signal)
        ensures
            r == (Signal { tdl_type, ..self }),
    {
        let mut s = self;
        s.tdl_type = tdl_type;
        s
    }

    pub fn with_sample_rate(self, sample_rate: u32) -> (r: Signal)
        ensures
            r == (Signal { sample_rate, ..self }),
    {
        let mut s = self;
        s.sample_rate = sample_rate;
        s
    }

    pub fn with_samples(self, samples: u16) -> (r: Signal)
        ensures
            r == (Signal { samples, ..self }),
    {
        let mut s = self;
        s.samples = samples;
        s
    }

    pub fn with_data(self, data: Vec<u8>) -> (r: Signal)
        ensures
            r.same_but_data(&self),
            r.data@ == data@,
    {
        let mut s = self;
        s.data = data;
        s
    }

    /// Octets that the data takes on the wire, padding included.
    pub fn data_length_padded(&self) -> (r: usize)
        requires
            self.data@.len() + FOUR_OCTETS <= usize::MAX,
        ensures
            r == signal_data_padded_len(self.data@.len()),
            r % 4 == 0,
    {
        let data_remaining_bytes = self.data.len() % FOUR_OCTETS;
        let padding_bytes = FOUR_OCTETS - data_remaining_bytes;
        let padded_data_bytes = self.data.len() + padding_bytes;
        assert(padded_data_bytes % 4 == 0) by {
            let n = self.data@.len() as int;
            vstd::arithmetic::div_mod::lemma_fundamental_div_mod(n, 4);
            vstd::arithmetic::div_mod::lemma_mod_multiples_basic(n / 4 + 1, 4);
            assert(n + (4 - n % 4) == (n / 4 + 1) * 4) by (nonlinear_arith)
                requires
                    n == 4 * (n / 4) + n % 4,
            ;
        }
        padded_data_bytes
    }

    pub fn into_pdu_body(self) -> (r: PduBody)
        ensures
            r == PduBody::Signal(self),
    {
        PduBody::Signal(self)
    }

    /// Octets of this body on the wire.
    pub fn body_length(&self) -> (r: u16)
        requires
            BASE_SIGNAL_BODY_LENGTH + signal_data_padded_len(self.data@.len()) <= u16::MAX,
        ensures
            r == BASE_SIGNAL_BODY_LENGTH + signal_data_padded_len(self.data@.len()),
    {
        BASE_SIGNAL_BODY_LENGTH + self.data_length_padded() as u16
    }

    pub fn body_type(&self) -> (r: PduType)
        ensures
            r == PduType::Signal,
    {
        PduType::Signal
    }

    pub fn originator(&self) -> (r: Option<&EntityId>)
        ensures
            r == Some(&self.radio_reference_id),
    {
        Some(&self.radio_reference_id)
    }

    pub fn receiver(&self) -> (r: Option<&EntityId>)
        ensures
            r is None,
    {
        None
    }
}

} // verus!
