use vstd::prelude::*;
use bytes::BytesMut;
use crate::model::{EntityId, EntityType};
use crate::wire::{
    buffer_contents, put_u8, put_u16, read_u16, be_u16, u16_at, MAX_BUFFER_LEN, lemma_u16_at_be,
    lemma_u16_at_bytes,
};

verus! {

/// Wire form of an entity identifier: three 16-bit values in network byte order.
pub open spec fn entity_id_bytes(e: EntityId) -> Seq<u8> {
    be_u16(e.site) + be_u16(e.application) + be_u16(e.entity)
}

/// The entity identifier whose wire form starts at `pos`.
pub open spec fn entity_id_at(s: Seq<u8>, pos: int) -> EntityId {
    EntityId { site: u16_at(s, pos), application: u16_at(s, pos + 2), entity: u16_at(s, pos + 4) }
}

/// Appends the wire form of `e` and returns the number of octets written.
pub fn serialize_entity_id(e: &EntityId, buf: &mut BytesMut) -> (r: u16)
    requires
        buffer_contents(*old(buf)).len() + 6 <= MAX_BUFFER_LEN,
    ensures
        buffer_contents(*final(buf)) == buffer_contents(*old(buf)) + entity_id_bytes(*e),
        r == 6,
{
    let ghost start = buffer_contents(*buf);
    put_u16(buf, e.site);
    put_u16(buf, e.application);
    put_u16(buf, e.entity);
    assert(buffer_contents(*buf) =~= start + entity_id_bytes(*e));
    6
}

/// Reads the entity identifier at `pos`.
pub fn read_entity_id(s: &[u8], pos: usize) -> (r: EntityId)
    requires
        pos + 6 <= s@.len(),
    ensures
        r == entity_id_at(s@, pos as int),
{
    let len = s.len();
    assert(pos + 6 <= len);
    EntityId { site: read_u16(s, pos), application: read_u16(s, pos + 2), entity: read_u16(s, pos + 4) }
}

/// An entity identifier written at `pos` reads back unchanged.
pub proof fn lemma_entity_id_at_bytes(s: Seq<u8>, pos: int, e: EntityId)
    requires
        0 <= pos,
        pos + 6 <= s.len(),
        s.subrange(pos, pos + 6) == entity_id_bytes(e),
    ensures
        entity_id_at(s, pos) == e,
{
    let b = entity_id_bytes(e);
    assert(s.subrange(pos, pos + 2) =~= b.subrange(0, 2));
    assert(s.subrange(pos + 2, pos + 4) =~= b.subrange(2, 4));
    assert(s.subrange(pos + 4, pos + 6) =~= b.subrange(4, 6));
    assert(b.subrange(0, 2) =~= be_u16(e.site));
    assert(b.subrange(2, 4) =~= be_u16(e.application));
    assert(b.subrange(4, 6) =~= be_u16(e.entity));
    lemma_u16_at_be(s, pos, e.site);
    lemma_u16_at_be(s, pos + 2, e.application);
    lemma_u16_at_be(s, pos + 4, e.entity);
}

/// Wire form of an entity type: kind, domain, country (16 bits), category, subcategory,
/// specific and extra.
pub open spec fn entity_type_bytes(t: EntityType) -> Seq<u8> {
    seq![t.kind, t.domain] + be_u16(t.country) + seq![t.category, t.subcategory, t.specific, t.extra]
}

/// Appends the wire form of `t` and returns the number of octets written.
pub fn serialize_entity_type(t: &EntityType, buf: &mut BytesMut) -> (r: u16)
    requires
        buffer_contents(*old(buf)).len() + 8 <= MAX_BUFFER_LEN,
    ensures
        buffer_contents(*final(buf)) == buffer_contents(*old(buf)) + entity_type_bytes(*t),
        r == 8,
{
    let ghost start = buffer_contents(*buf);
    put_u8(buf, t.kind);
    put_u8(buf, t.domain);
    put_u16(buf, t.country);
    put_u8(buf, t.category);
    put_u8(buf, t.subcategory);
    put_u8(buf, t.specific);
    put_u8(buf, t.extra);
    assert(buffer_contents(*buf) =~= start + entity_type_bytes(*t));
    8
}

/// The entity type whose wire form starts at `pos`.
pub open spec fn entity_type_at(s: Seq<u8>, pos: int) -> EntityType {
    EntityType {
        kind: s[pos],
        domain: s[pos + 1],
        country: u16_at(s, pos + 2),
        category: s[pos + 4],
        subcategory: s[pos + 5],
        specific: s[pos + 6],
        extra: s[pos + 7],
    }
}

/// Reads the entity type at `pos`.
pub fn read_entity_type(s: &[u8], pos: usize) -> (r: EntityType)
    requires
        pos + 8 <= s@.len(),
    ensures
        r == entity_type_at(s@, pos as int),
{
    let len = s.len();
    assert(pos + 8 <= len);
    EntityType {
        kind: s[pos],
        domain: s[pos + 1],
        country: read_u16(s, pos + 2),
        category: s[pos + 4],
        subcategory: s[pos + 5],
        specific: s[pos + 6],
        extra: s[pos + 7],
    }
}

/// An entity type written at `pos` reads back unchanged.
pub proof fn lemma_entity_type_at_bytes(s: Seq<u8>, pos: int, t: EntityType)
    requires
        0 <= pos,
        pos + 8 <= s.len(),
        s.subrange(pos, pos + 8) == entity_type_bytes(t),
    ensures
        entity_type_at(s, pos) == t,
{
    let b = entity_type_bytes(t);
    assert(s.subrange(pos + 2, pos + 4) =~= b.subrange(2, 4));
    assert(b.subrange(2, 4) =~= be_u16(t.country));
    lemma_u16_at_be(s, pos + 2, t.country);
    assert(s[pos] == b[0]);
    assert(s[pos + 1] == b[1]);
    assert(s[pos + 4] == b[4]);
    assert(s[pos + 5] == b[5]);
    assert(s[pos + 6] == b[6]);
    assert(s[pos + 7] == b[7]);
}

/// Writing the entity identifier read at `pos` gives back the same six octets.
pub proof fn lemma_entity_id_at_reproduces(s: Seq<u8>, pos: int)
    requires
        0 <= pos,
        pos + 6 <= s.len(),
    ensures
        entity_id_bytes(entity_id_at(s, pos)) == s.subrange(pos, pos + 6),
{
    lemma_u16_at_bytes(s, pos);
    lemma_u16_at_bytes(s, pos + 2);
    lemma_u16_at_bytes(s, pos + 4);
    assert(entity_id_bytes(entity_id_at(s, pos)) =~= s.subrange(pos, pos + 6));
}

/// Writing the entity type read at `pos` gives back the same eight octets.
pub proof fn lemma_entity_type_at_reproduces(s: Seq<u8>, pos: int)
    requires
        0 <= pos,
        pos + 8 <= s.len(),
    ensures
        entity_type_bytes(entity_type_at(s, pos)) == s.subrange(pos, pos + 8),
{
    lemma_u16_at_bytes(s, pos + 2);
    assert(entity_type_bytes(entity_type_at(s, pos)) =~= s.subrange(pos, pos + 8));
}

} // verus!
