use vstd::prelude::*;
use bytes::BytesMut;
use crate::model::{EntityId, ParseError, PduType};
use crate::enumerations::{
    ReceiverState, receiver_state_of, receiver_state_value, lemma_receiver_state_round_trip,
};
use crate::records::{
    entity_id_bytes, entity_id_at, serialize_entity_id, read_entity_id, lemma_entity_id_at_bytes,
    lemma_entity_id_at_reproduces,
};
use crate::wire::{
    buffer_contents, put_u16, put_u32, read_u16, read_u32, be_u16, be_u32, u16_at, u32_at,
    MAX_BUFFER_LEN, lemma_u16_at_be, lemma_u32_at_be, lemma_u16_at_bytes, lemma_u32_at_bytes,
};
use crate::body::PduBody;

verus! {

/// 5.8.5 / 7.7.4 Receiver PDU: the state of a radio receiver.
///
/// `received_power` is the single-precision value in dB milliwatt, carried as its
/// IEEE-754 bit pattern as on the wire.
#[derive(Clone, Copy, Debug, PartialEq, Eq, Structural)]
pub struct Receiver {
    pub radio_reference_id: EntityId,
    pub radio_number: u16,
    pub receiver_state: ReceiverState,
    pub received_power: u32,
    pub transmitter_radio_reference_id: EntityId,
    pub transmitter_radio_number: u16,
}

/// Octets of a Receiver body.
pub const RECEIVER_BODY_LENGTH: u16 = 24;

/// Wire form of a Receiver body; two octets of padding follow the state.
pub open spec fn receiver_bytes(r: Receiver) -> Seq<u8> {
    entity_id_bytes(r.radio_reference_id) + be_u16(r.radio_number) + be_u16(
        receiver_state_value(r.receiver_state),
    ) + be_u16(0) + be_u32(r.received_power) + entity_id_bytes(r.transmitter_radio_reference_id)
        + be_u16(r.transmitter_radio_number)
}

/// The Receiver body whose wire form starts at the front of `s`.
pub open spec fn receiver_at(s: Seq<u8>) -> Receiver {
    Receiver {
        radio_reference_id: entity_id_at(s, 0),
        radio_number: u16_at(s, 6),
        receiver_state: receiver_state_of(u16_at(s, 8)),
        received_power: u32_at(s, 12),
        transmitter_radio_reference_id: entity_id_at(s, 16),
        transmitter_radio_number: u16_at(s, 22),
    }
}

/// The state is the one its raw value denotes: `Unspecified` holds no named value.
pub open spec fn receiver_wf(r: Receiver) -> bool {
    receiver_state_of(receiver_state_value(r.receiver_state)) == r.receiver_state
}

/// Reading back a written Receiver body gives the same body, whatever follows it.
pub proof fn lemma_receiver_round_trip(r: Receiver, rest: Seq<u8>)
    requires
        receiver_wf(r),
    ensures
        receiver_bytes(r).len() == RECEIVER_BODY_LENGTH,
        receiver_at(receiver_bytes(r) + rest) == r,
{
    let s = receiver_bytes(r) + rest;
    assert(s.subrange(0, 6) =~= entity_id_bytes(r.radio_reference_id));
    lemma_entity_id_at_bytes(s, 0, r.radio_reference_id);
    assert(s.subrange(6, 8) =~= be_u16(r.radio_number));
    lemma_u16_at_be(s, 6, r.radio_number);
    assert(s.subrange(8, 10) =~= be_u16(receiver_state_value(r.receiver_state)));
    lemma_u16_at_be(s, 8, receiver_state_value(r.receiver_state));
    assert(s.subrange(12, 16) =~= be_u32(r.received_power));
    lemma_u32_at_be(s, 12, r.received_power);
    assert(s.subrange(16, 22) =~= entity_id_bytes(r.transmitter_radio_reference_id));
    lemma_entity_id_at_bytes(s, 16, r.transmitter_radio_reference_id);
    assert(s.subrange(22, 24) =~= be_u16(r.transmitter_radio_number));
    lemma_u16_at_be(s, 22, r.transmitter_radio_number);
}

/// Any 24 octets whose padding is zero, read as a Receiver body, write back as the same octets.
pub proof fn lemma_receiver_bytes_reproduced(s: Seq<u8>)
    requires
        s.len() >= 24,
        s[10] == 0,
        s[11] == 0,
    ensures
        receiver_bytes(receiver_at(s)) == s.subrange(0, 24),
{
    lemma_entity_id_at_reproduces(s, 0);
    lemma_u16_at_bytes(s, 6);
    lemma_u16_at_bytes(s, 8);
    lemma_receiver_state_round_trip(u16_at(s, 8));
    lemma_u32_at_bytes(s, 12);
    lemma_entity_id_at_reproduces(s, 16);
    lemma_u16_at_bytes(s, 22);
    assert(be_u16(0) =~= seq![0u8, 0u8]) by {
        assert((0u16 >> 8u16) as u8 == 0u8 && 0u16 as u8 == 0u8) by (bit_vector);
    }
    assert(receiver_bytes(receiver_at(s)) =~= s.subrange(0, 24));
}

/// The Receiver body that a new builder starts from.
pub open spec fn default_receiver() -> Receiver {
    Receiver {
        radio_reference_id: EntityId { site: 0, application: 0, entity: 0 },
        radio_number: 0,
        receiver_state: ReceiverState::Off,
        received_power: 0,
        transmitter_radio_reference_id: EntityId { site: 0, application: 0, entity: 0 },
        transmitter_radio_number: 0,
    }
}

/// Builds a Receiver body field by field.
pub struct ReceiverBuilder {
    pub body: Receiver,
}

impl ReceiverBuilder {
    pub fn new() -> (r: ReceiverBuilder)
        ensures
            r.body == default_receiver(),
    {
        ReceiverBuilder {
            body: Receiver {
                radio_reference_id: EntityId::new(0, 0, 0),
                radio_number: 0,
                receiver_state: ReceiverState::Off,
                received_power: 0,
                transmitter_radio_reference_id: EntityId::new(0, 0, 0),
                transmitter_radio_number: 0,
            },
        }
    }

    pub fn with_radio_reference_id(self, radio_reference_id: EntityId) -> (r: ReceiverBuilder)
        ensures
            r.body == (Receiver { radio_reference_id, ..self.body }),
    {
        let mut s = self;
        s.body.radio_reference_id = radio_reference_id;
        s
    }

    pub fn with_radio_number(self, radio_number: u16) -> (r: ReceiverBuilder)
        ensures
            r.body == (Receiver { radio_number, ..self.body }),
    {
        let mut s = self;
        s.body.radio_number = radio_number;
        s
    }

    pub fn with_receiver_state(self, receiver_state: ReceiverState) -> (r: ReceiverBuilder)
        ensures
            r.body == (Receiver { receiver_state, ..self.body }),
    {
        let mut s = self;
        s.body.receiver_state = receiver_state;
        s
    }

    /// Sets the received power from its IEEE-754 single-precision bit pattern.
    pub fn with_received_power(self, received_power: u32) -> (r: ReceiverBuilder)
        ensures
            r.body == (Receiver { received_power, ..self.body }),
    {
        let mut s = self;
        s.body.received_power = received_power;
        s
    }

    pub fn with_transmitter_radio_reference_id(self, transmitter_radio_reference_id: EntityId) -> (r:
        ReceiverBuilder)
        ensures
            r.body == (Receiver { transmitter_radio_reference_id, ..self.body }),
    {
        let mut s = self;
        s.body.transmitter_radio_reference_id = transmitter_radio_reference_id;
        s
    }

    pub fn with_transmitter_radio_number(self, transmitter_radio_number: u16) -> (r: ReceiverBuilder)
        ensures
            r.body == (Receiver { transmitter_radio_number, ..self.body }),
    {
        let mut s = self;
        s.body.transmitter_radio_number = transmitter_radio_number;
        s
    }

    pub fn build(self) -> (r: Receiver)
        ensures
            r == self.body,
    {
        self.body
    }
}

impl Receiver {
    pub fn builder() -> (r: ReceiverBuilder)
        ensures
            r.body == default_receiver(),
    {
        ReceiverBuilder::new()
    }

    pub fn into_pdu_body(self) -> (r: PduBody)
        ensures
            r == PduBody::Receiver(self),
    {
        PduBody::Receiver(self)
    }

    /// Appends the wire form of this body and returns the number of octets written.
    pub fn serialize(&self, buf: &mut BytesMut) -> (r: u16)
        requires
            buffer_contents(*old(buf)).len() + 24 <= MAX_BUFFER_LEN,
        ensures
            buffer_contents(*final(buf)) == buffer_contents(*old(buf)) + receiver_bytes(*self),
            r == RECEIVER_BODY_LENGTH,
    {
        let ghost start = buffer_contents(*buf);
        serialize_entity_id(&self.radio_reference_id, buf);
        put_u16(buf, self.radio_number);
        put_u16(buf, self.receiver_state.to_raw());
        put_u16(buf, 0);
        put_u32(buf, self.received_power);
        serialize_entity_id(&self.transmitter_radio_reference_id, buf);
        put_u16(buf, self.transmitter_radio_number);
        assert(buffer_contents(*buf) =~= start + receiver_bytes(*self));
        RECEIVER_BODY_LENGTH
    }

    /// Reads a Receiver body at the start of `s`, with the number of octets it took.
    pub fn parse(s: &[u8]) -> (r: Result<(Receiver, usize), ParseError>)
        ensures
            s@.len() < 24 ==> r == Err::<(Receiver, usize), ParseError>(ParseError::Truncated),
            s@.len() >= 24 ==> r == Ok::<(Receiver, usize), ParseError>((receiver_at(s@), 24)),
    {
        if s.len() < 24 {
            return Err(ParseError::Truncated);
        }
        let body = Receiver {
            radio_reference_id: read_entity_id(s, 0),
            radio_number: read_u16(s, 6),
            receiver_state: ReceiverState::from_raw(read_u16(s, 8)),
            received_power: read_u32(s, 12),
            transmitter_radio_reference_id: read_entity_id(s, 16),
            transmitter_radio_number: read_u16(s, 22),
        };
        Ok((body, 24))
    }

    pub fn body_length(&self) -> (r: u16)
        ensures
            r == RECEIVER_BODY_LENGTH,
    {
        RECEIVER_BODY_LENGTH
    }

    pub fn body_type(&self) -> (r: PduType)
        ensures
            r == PduType::Receiver,
    {
        PduType::Receiver
    }

    pub fn originator(&self) -> (r: Option<&EntityId>)
        ensures
            r == Some(&self.radio_reference_id),
    {
        Some(&self.radio_reference_id)
    }

    pub fn receiver(&self) -> (r: Option<&EntityId>)
        ensures
            r is None,
    {
        None
    }
}

} // verus!
