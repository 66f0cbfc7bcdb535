use vstd::prelude::*;
use bytes::BytesMut;
use crate::model::{EntityId, EntityType, ParseError, PduType};
use crate::records::{
    entity_id_bytes, entity_id_at, entity_type_bytes, entity_type_at, serialize_entity_id,
    serialize_entity_type, read_entity_id, read_entity_type, lemma_entity_id_at_bytes,
    lemma_entity_type_at_bytes, lemma_entity_id_at_reproduces, lemma_entity_type_at_reproduces,
};
use crate::wire::{
    buffer_contents, put_u16, put_u32, put_u64, read_u16, read_u32, read_u64, be_u16, be_u32, be_u64,
    u16_at, u32_at, u64_at, MAX_BUFFER_LEN, lemma_u16_at_be, lemma_u32_at_be, lemma_u64_at_be,
    lemma_u16_at_bytes, lemma_u32_at_bytes, lemma_u64_at_bytes,
};

verus! {

/// Octets of a Fire body.
pub const FIRE_BODY_LENGTH: u16 = 84;

/// Identifies an event: the simulation that issued it and its number there.
#[derive(Clone, Copy, Debug, PartialEq, Eq, Structural)]
pub struct EventId {
    pub site: u16,
    pub application: u16,
    pub event_id: u16,
}

/// A geocentric location; each coordinate is a double-precision value carried as its
/// IEEE-754 bit pattern.
#[derive(Clone, Copy, Debug, PartialEq, Eq, Structural)]
pub struct Location {
    pub x: u64,
    pub y: u64,
    pub z: u64,
}

/// A vector of three single-precision values, each carried as its IEEE-754 bit pattern.
#[derive(Clone, Copy, Debug, PartialEq, Eq, Structural)]
pub struct VectorF32 {
    pub x: u32,
    pub y: u32,
    pub z: u32,
}

/// What was fired: munition type, warhead, fuse, quantity and rate.
#[derive(Clone, Copy, Debug, PartialEq, Eq, Structural)]
pub struct BurstDescriptor {
    pub munition: EntityType,
    pub warhead: u16,
    pub fuse: u16,
    pub quantity: u16,
    pub rate: u16,
}

/// 5.4.3 / 7.3.2 Fire PDU. `range` is the single-precision range in metres, carried as its
/// IEEE-754 bit pattern.
#[derive(Clone, Copy, Debug, PartialEq, Eq, Structural)]
pub struct Fire {
    pub firing_entity_id: EntityId,
    pub target_entity_id: EntityId,
    pub munition_id: EntityId,
    pub event_id: EventId,
    pub fire_mission_index: u32,
    pub location_in_world: Location,
    pub burst_descriptor: BurstDescriptor,
    pub velocity: VectorF32,
    pub range: u32,
}

pub open spec fn event_id_bytes(e: EventId) -> Seq<u8> {
    be_u16(e.site) + be_u16(e.application) + be_u16(e.event_id)
}

pub open spec fn burst_descriptor_bytes(b: BurstDescriptor) -> Seq<u8> {
    entity_type_bytes(b.munition) + be_u16(b.warhead) + be_u16(b.fuse) + be_u16(b.quantity)
        + be_u16(b.rate)
}

/// Wire form of a Fire body.
pub open spec fn fire_bytes(f: Fire) -> Seq<u8> {
    entity_id_bytes(f.firing_entity_id) + entity_id_bytes(f.target_entity_id) + entity_id_bytes(
        f.munition_id,
    ) + event_id_bytes(f.event_id) + be_u32(f.fire_mission_index) + be_u64(f.location_in_world.x)
        + be_u64(f.location_in_world.y) + be_u64(f.location_in_world.z) + burst_descriptor_bytes(
        f.burst_descriptor,
    ) + be_u32(f.velocity.x) + be_u32(f.velocity.y) + be_u32(f.velocity.z) + be_u32(f.range)
}

/// The Fire body whose wire form starts at the front of `s`.
pub open spec fn fire_at(s: Seq<u8>) -> Fire {
    Fire {
        firing_entity_id: entity_id_at(s, 0),
        target_entity_id: entity_id_at(s, 6),
        munition_id: entity_id_at(s, 12),
        event_id: EventId {
            site: u16_at(s, 18),
            application: u16_at(s, 20),
            event_id: u16_at(s, 22),
        },
        fire_mission_index: u32_at(s, 24),
        location_in_world: Location { x: u64_at(s, 28), y: u64_at(s, 36), z: u64_at(s, 44) },
        burst_descriptor: BurstDescriptor {
            munition: entity_type_at(s, 52),
            warhead: u16_at(s, 60),
            fuse: u16_at(s, 62),
            quantity: u16_at(s, 64),
            rate: u16_at(s, 66),
        },
        velocity: VectorF32 { x: u32_at(s, 68), y: u32_at(s, 72), z: u32_at(s, 76) },
        range: u32_at(s, 80),
    }
}

impl Fire {
    /// Appends the wire form of this body and returns the number of octets written.
    pub fn serialize(&self, buf: &mut BytesMut) -> (r: u16)
        requires
            buffer_contents(*old(buf)).len() + 84 <= MAX_BUFFER_LEN,
        ensures
            buffer_contents(*final(buf)) == buffer_contents(*old(buf)) + fire_bytes(*self),
            r == FIRE_BODY_LENGTH,
    {
        let ghost start = buffer_contents(*buf);
        serialize_entity_id(&self.firing_entity_id, buf);
        serialize_entity_id(&self.target_entity_id, buf);
        serialize_entity_id(&self.munition_id, buf);
        put_u16(buf, self.event_id.site);
        put_u16(buf, self.event_id.application);
        put_u16(buf, self.event_id.event_id);
        put_u32(buf, self.fire_mission_index);
        put_u64(buf, self.location_in_world.x);
        put_u64(buf, self.location_in_world.y);
        put_u64(buf, self.location_in_world.z);
        serialize_entity_type(&self.burst_descriptor.munition, buf);
        put_u16(buf, self.burst_descriptor.warhead);
        put_u16(buf, self.burst_descriptor.fuse);
        put_u16(buf, self.burst_descriptor.quantity);
        put_u16(buf, self.burst_descriptor.rate);
        put_u32(buf, self.velocity.x);
        put_u32(buf, self.velocity.y);
        put_u32(buf, self.velocity.z);
        put_u32(buf, self.range);
        assert(buffer_contents(*buf) =~= start + fire_bytes(*self));
        FIRE_BODY_LENGTH
    }

    /// Reads a Fire body at the start of `s`, with the number of octets it took.
    pub fn parse(s: &[u8]) -> (r: Result<(Fire, usize), ParseError>)
        ensures
            s@.len() < 84 ==> r == Err::<(Fire, usize), ParseError>(ParseError::Truncated),
            s@.len() >= 84 ==> r == Ok::<(Fire, usize), ParseError>((fire_at(s@), 84)),
    {
        if s.len() < 84 {
            return Err(ParseError::Truncated);
        }
        let fire = Fire {
            firing_entity_id: read_entity_id(s, 0),
            target_entity_id: read_entity_id(s, 6),
            munition_id: read_entity_id(s, 12),
            event_id: EventId {
                site: read_u16(s, 18),
                application: read_u16(s, 20),
                event_id: read_u16(s, 22),
            },
            fire_mission_index: read_u32(s, 24),
            location_in_world: Location {
                x: read_u64(s, 28),
                y: read_u64(s, 36),
                z: read_u64(s, 44),
            },
            burst_descriptor: BurstDescriptor {
                munition: read_entity_type(s, 52),
                warhead: read_u16(s, 60),
                fuse: read_u16(s, 62),
                quantity: read_u16(s, 64),
                rate: read_u16(s, 66),
            },
            velocity: VectorF32 { x: read_u32(s, 68), y: read_u32(s, 72), z: read_u32(s, 76) },
            range: read_u32(s, 80),
        };
        Ok((fire, 84))
    }

    pub fn body_length(&self) -> (r: u16)
        ensures
            r == FIRE_BODY_LENGTH,
    {
        FIRE_BODY_LENGTH
    }

    pub fn body_type(&self) -> (r: PduType)
        ensures
            r == PduType::Fire,
    {
        PduType::Fire
    }

    pub fn originator(&self) -> (r: Option<&EntityId>)
        ensures
            r == Some(&self.firing_entity_id),
    {
        Some(&self.firing_entity_id)
    }

    pub fn receiver(&self) -> (r: Option<&EntityId>)
        ensures
            r == Some(&self.target_entity_id),
    {
        Some(&self.target_entity_id)
    }
}

/// Reading back a written Fire body gives the same body, whatever follows it; the length
/// written is the body length.
pub proof fn lemma_fire_round_trip(f: Fire, rest: Seq<u8>)
    ensures
        fire_bytes(f).len() == FIRE_BODY_LENGTH,
        fire_at(fire_bytes(f) + rest) == f,
{
    let s = fire_bytes(f) + rest;
    let b = fire_bytes(f);
    assert(b.len() == 84);
    assert(s.subrange(0, 6) =~= entity_id_bytes(f.firing_entity_id));
    lemma_entity_id_at_bytes(s, 0, f.firing_entity_id);
    assert(s.subrange(6, 12) =~= entity_id_bytes(f.target_entity_id));
    lemma_entity_id_at_bytes(s, 6, f.target_entity_id);
    assert(s.subrange(12, 18) =~= entity_id_bytes(f.munition_id));
    lemma_entity_id_at_bytes(s, 12, f.munition_id);
    assert(s.subrange(18, 20) =~= be_u16(f.event_id.site));
    lemma_u16_at_be(s, 18, f.event_id.site);
    assert(s.subrange(20, 22) =~= be_u16(f.event_id.application));
    lemma_u16_at_be(s, 20, f.event_id.application);
    assert(s.subrange(22, 24) =~= be_u16(f.event_id.event_id));
    lemma_u16_at_be(s, 22, f.event_id.event_id);
    assert(s.subrange(24, 28) =~= be_u32(f.fire_mission_index));
    lemma_u32_at_be(s, 24, f.fire_mission_index);
    assert(s.subrange(28, 36) =~= be_u64(f.location_in_world.x));
    lemma_u64_at_be(s, 28, f.location_in_world.x);
    assert(s.subrange(36, 44) =~= be_u64(f.location_in_world.y));
    lemma_u64_at_be(s, 36, f.location_in_world.y);
    assert(s.subrange(44, 52) =~= be_u64(f.location_in_world.z));
    lemma_u64_at_be(s, 44, f.location_in_world.z);
    assert(s.subrange(52, 60) =~= entity_type_bytes(f.burst_descriptor.munition));
    lemma_entity_type_at_bytes(s, 52, f.burst_descriptor.munition);
    assert(s.subrange(60, 62) =~= be_u16(f.burst_descriptor.warhead));
    lemma_u16_at_be(s, 60, f.burst_descriptor.warhead);
    assert(s.subrange(62, 64) =~= be_u16(f.burst_descriptor.fuse));
    lemma_u16_at_be(s, 62, f.burst_descriptor.fuse);
    assert(s.subrange(64, 66) =~= be_u16(f.burst_descriptor.quantity));
    lemma_u16_at_be(s, 64, f.burst_descriptor.quantity);
    assert(s.subrange(66, 68) =~= be_u16(f.burst_descriptor.rate));
    lemma_u16_at_be(s, 66, f.burst_descriptor.rate);
    assert(s.subrange(68, 72) =~= be_u32(f.velocity.x));
    lemma_u32_at_be(s, 68, f.velocity.x);
    assert(s.subrange(72, 76) =~= be_u32(f.velocity.y));
    lemma_u32_at_be(s, 72, f.velocity.y);
    assert(s.subrange(76, 80) =~= be_u32(f.velocity.z));
    lemma_u32_at_be(s, 76, f.velocity.z);
    assert(s.subrange(80, 84) =~= be_u32(f.range));
    lemma_u32_at_be(s, 80, f.range);
}

/// Any 84 octets read as a Fire body write back as the same octets.
pub proof fn lemma_fire_bytes_reproduced(s: Seq<u8>)
    requires
        s.len() >= 84,
    ensures
        fire_bytes(fire_at(s)) == s.subrange(0, 84),
{
    lemma_entity_id_at_reproduces(s, 0);
    lemma_entity_id_at_reproduces(s, 6);
    lemma_entity_id_at_reproduces(s, 12);
    lemma_u16_at_bytes(s, 18);
    lemma_u16_at_bytes(s, 20);
    lemma_u16_at_bytes(s, 22);
    lemma_u32_at_bytes(s, 24);
    lemma_u64_at_bytes(s, 28);
    lemma_u64_at_bytes(s, 36);
    lemma_u64_at_bytes(s, 44);
    lemma_entity_type_at_reproduces(s, 52);
    lemma_u16_at_bytes(s, 60);
    lemma_u16_at_bytes(s, 62);
    lemma_u16_at_bytes(s, 64);
    lemma_u16_at_bytes(s, 66);
    lemma_u32_at_bytes(s, 68);
    lemma_u32_at_bytes(s, 72);
    lemma_u32_at_bytes(s, 76);
    lemma_u32_at_bytes(s, 80);
    assert(fire_bytes(fire_at(s)) =~= s.subrange(0, 84));
}

} // verus!
