use vstd::prelude::*;
use bytes::BytesMut;
use crate::model::{EntityId, EntityType, ParseError, PduType, SupportedVersion};
use crate::enumerations::{
    ServiceRequestServiceTypeRequested, service_type_requested_value, service_type_requested_of,
};
use crate::records::{
    entity_id_bytes, entity_type_bytes, serialize_entity_id, serialize_entity_type, entity_id_at,
    entity_type_at, read_entity_id, read_entity_type, lemma_entity_id_at_bytes,
    lemma_entity_type_at_bytes, lemma_entity_id_at_reproduces, lemma_entity_type_at_reproduces,
};
use crate::wire::{
    buffer_contents, put_u8, put_u16, put_u32, read_u32, be_u16, be_u32, u32_at, MAX_BUFFER_LEN,
    lemma_u32_at_be, lemma_u32_at_bytes,
};

verus! {

/// A quantity of one type of supply. `quantity` is the single-precision value carried as
/// its IEEE-754 bit pattern.
#[derive(Clone, Copy, Debug, PartialEq, Eq, Structural)]
pub struct SupplyQuantity {
    pub supply_type: EntityType,
    pub quantity: u32,
}

/// Wire form of a supply quantity: the entity type, then the quantity.
pub open spec fn supply_quantity_bytes(sq: SupplyQuantity) -> Seq<u8> {
    entity_type_bytes(sq.supply_type) + be_u32(sq.quantity)
}

/// Wire form of a list of supply quantities, in order.
pub open spec fn supplies_bytes(s: Seq<SupplyQuantity>) -> Seq<u8>
    decreases s.len(),
{
    if s.len() == 0 {
        Seq::empty()
    } else {
        supplies_bytes(s.drop_last()) + supply_quantity_bytes(s.last())
    }
}

pub proof fn lemma_supplies_bytes_len(s: Seq<SupplyQuantity>)
    ensures
        supplies_bytes(s).len() == 12 * s.len(),
    decreases s.len(),
{
    if s.len() > 0 {
        lemma_supplies_bytes_len(s.drop_last());
    }
}

impl SupplyQuantity {
    pub fn new(supply_type: EntityType, quantity: u32) -> (r: SupplyQuantity)
        ensures
            r == (SupplyQuantity { supply_type, quantity }),
    {
        SupplyQuantity { supply_type, quantity }
    }

    /// Appends the wire form and returns the number of octets written.
    pub fn serialize(&self, buf: &mut BytesMut) -> (r: u16)
        requires
            buffer_contents(*old(buf)).len() + 12 <= MAX_BUFFER_LEN,
        ensures
            buffer_contents(*final(buf)) == buffer_contents(*old(buf)) + supply_quantity_bytes(*self),
            r == 12,
    {
        let ghost start = buffer_contents(*buf);
        let type_bytes = serialize_entity_type(&self.supply_type, buf);
        put_u32(buf, self.quantity);
        assert(buffer_contents(*buf) =~= start + supply_quantity_bytes(*self));
        type_bytes + 4
    }
}

/// 5.5.5 / 7.4.2 Service Request PDU: one entity asks another for supplies or repair.
#[derive(Clone, Debug, PartialEq, Eq)]
pub struct ServiceRequest {
    pub requesting_id: EntityId,
    pub servicing_id: EntityId,
    pub service_type_requested: ServiceRequestServiceTypeRequested,
    pub supplies: Vec<SupplyQuantity>,
}

/// A Service Request body as requester, server, service type and supplies.
pub type ServiceRequestView = (EntityId, EntityId, ServiceRequestServiceTypeRequested, Seq<SupplyQuantity>);

pub open spec fn service_request_view(sr: ServiceRequest) -> ServiceRequestView {
    (sr.requesting_id, sr.servicing_id, sr.service_type_requested, sr.supplies@)
}

/// Wire form of a Service Request body: identifiers, service type, supply count, two octets
/// of padding, then the supplies.
pub open spec fn service_request_view_bytes(v: ServiceRequestView) -> Seq<u8> {
    entity_id_bytes(v.0) + entity_id_bytes(v.1) + seq![
        service_type_requested_value(v.2),
        v.3.len() as u8,
    ] + be_u16(0) + supplies_bytes(v.3)
}

pub open spec fn service_request_bytes(sr: ServiceRequest) -> Seq<u8> {
    service_request_view_bytes(service_request_view(sr))
}

impl ServiceRequest {
    pub fn body_type(&self) -> (r: PduType)
        ensures
            r == PduType::ServiceRequest,
    {
        PduType::ServiceRequest
    }

    pub fn originator(&self) -> (r: Option<&EntityId>)
        ensures
            r == Some(&self.requesting_id),
    {
        Some(&self.requesting_id)
    }

    pub fn receiver(&self) -> (r: Option<&EntityId>)
        ensures
            r == Some(&self.servicing_id),
    {
        Some(&self.servicing_id)
    }

    /// Octets of this body on the wire: sixteen, then twelve for each supply.
    pub fn body_length(&self) -> (r: u16)
        requires
            self.supplies@.len() <= u8::MAX,
        ensures
            r == service_request_bytes(*self).len(),
            r == 16 + 12 * self.supplies@.len(),
    {
        proof {
            lemma_supplies_bytes_len(self.supplies@);
        }
        16 + 12 * self.supplies.len() as u16
    }

    /// Appends the wire form of this body and returns the number of octets written.
    pub fn serialize_pdu(&self, _version: SupportedVersion, buf: &mut BytesMut) -> (r: u16)
        requires
            self.supplies@.len() <= u8::MAX,
            buffer_contents(*old(buf)).len() + 16 + 12 * self.supplies@.len() <= MAX_BUFFER_LEN,
        ensures
            buffer_contents(*final(buf)) == buffer_contents(*old(buf)) + service_request_bytes(*self),
            r == 16 + 12 * self.supplies@.len(),
    {
        let ghost start = buffer_contents(*buf);
        let ghost v = self.supplies@;
        let requesting_id_bytes = serialize_entity_id(&self.requesting_id, buf);
        let servicing_id_bytes = serialize_entity_id(&self.servicing_id, buf);
        put_u8(buf, self.service_type_requested.to_raw());
        put_u8(buf, self.supplies.len() as u8);
        put_u16(buf, 0u16);
        let ghost header = buffer_contents(*buf);
        assert(header =~= start + entity_id_bytes(self.requesting_id) + entity_id_bytes(
            self.servicing_id,
        ) + seq![service_type_requested_value(self.service_type_requested), v.len() as u8]
            + be_u16(0));
        let mut supply_quantity_bytes: u16 = 0;
        let mut i: usize = 0;
        while i < self.supplies.len()
            invariant
                i <= v.len() <= u8::MAX,
                v == self.supplies@,
                header.len() == start.len() + 16,
                start.len() + 16 + 12 * v.len() <= MAX_BUFFER_LEN,
                supply_quantity_bytes == 12 * i,
                buffer_contents(*buf) == header + supplies_bytes(v.take(i as int)),
            decreases v.len() - i,
        {
            proof {
                lemma_supplies_bytes_len(v.take(i as int));
                assert(v.take(i + 1).drop_last() =~= v.take(i as int));
            }
            let written = self.supplies[i].serialize(buf);
            supply_quantity_bytes = supply_quantity_bytes + written;
            i = i + 1;
            assert(buffer_contents(*buf) =~= header + supplies_bytes(v.take(i as int)));
        }
        assert(v.take(v.len() as int) =~= v);
        assert(buffer_contents(*buf) =~= start + service_request_bytes(*self));
        requesting_id_bytes + servicing_id_bytes + 4 + supply_quantity_bytes
    }
}

/// The supply quantity whose wire form starts at `pos`.
pub open spec fn supply_quantity_at(s: Seq<u8>, pos: int) -> SupplyQuantity {
    SupplyQuantity { supply_type: entity_type_at(s, pos), quantity: u32_at(s, pos + 8) }
}

/// Reads a Service Request body at the start of `s`; the count of supplies is its
/// fourteenth octet.
pub open spec fn parse_service_request_spec(s: Seq<u8>) -> Option<(ServiceRequestView, nat)> {
    if s.len() < 16 || s.len() < 16 + 12 * s[13] {
        None
    } else {
        Some(
            (
                (
                    entity_id_at(s, 0),
                    entity_id_at(s, 6),
                    service_type_requested_of(s[12]),
                    Seq::new(s[13] as nat, |k: int| supply_quantity_at(s, 16 + 12 * k)),
                ),
                16 + 12 * s[13] as nat,
            ),
        )
    }
}

/// Supply `k` occupies octets `12 * k` to `12 * k + 12` of the list's wire form.
pub proof fn lemma_supplies_bytes_index(v: Seq<SupplyQuantity>, k: int)
    requires
        0 <= k < v.len(),
    ensures
        supplies_bytes(v).subrange(12 * k, 12 * k + 12) == supply_quantity_bytes(v[k]),
    decreases v.len(),
{
    lemma_supplies_bytes_len(v);
    lemma_supplies_bytes_len(v.drop_last());
    if k < v.len() - 1 {
        lemma_supplies_bytes_index(v.drop_last(), k);
        assert(supplies_bytes(v).subrange(12 * k, 12 * k + 12) =~= supplies_bytes(
            v.drop_last(),
        ).subrange(12 * k, 12 * k + 12));
    } else {
        assert(supplies_bytes(v).subrange(12 * k, 12 * k + 12) =~= supply_quantity_bytes(v.last()));
    }
}

/// A written Service Request body reads back unchanged, whatever follows it, when its
/// service type is the one its raw value denotes.
pub proof fn lemma_service_request_round_trip(sr: ServiceRequest, rest: Seq<u8>)
    requires
        sr.supplies@.len() <= u8::MAX,
        service_type_requested_of(service_type_requested_value(sr.service_type_requested))
            == sr.service_type_requested,
    ensures
        service_request_bytes(sr).len() == 16 + 12 * sr.supplies@.len(),
        parse_service_request_spec(service_request_bytes(sr) + rest) == Some(
            (service_request_view(sr), 16 + 12 * sr.supplies@.len()),
        ),
{
    let v = sr.supplies@;
    let s = service_request_bytes(sr) + rest;
    lemma_supplies_bytes_len(v);
    assert(s.subrange(0, 6) =~= entity_id_bytes(sr.requesting_id));
    lemma_entity_id_at_bytes(s, 0, sr.requesting_id);
    assert(s.subrange(6, 12) =~= entity_id_bytes(sr.servicing_id));
    lemma_entity_id_at_bytes(s, 6, sr.servicing_id);
    assert(s[12] == service_type_requested_value(sr.service_type_requested));
    assert(s[13] == v.len() as u8);
    let supplies = Seq::new(s[13] as nat, |k: int| supply_quantity_at(s, 16 + 12 * k));
    assert forall|k: int| 0 <= k < v.len() implies supplies[k] == v[k] by {
        lemma_supplies_bytes_index(v, k);
        let p = 16 + 12 * k;
        assert(s.subrange(p, p + 12) =~= supplies_bytes(v).subrange(12 * k, 12 * k + 12));
        assert(s.subrange(p, p + 8) =~= entity_type_bytes(v[k].supply_type));
        lemma_entity_type_at_bytes(s, p, v[k].supply_type);
        let b = supply_quantity_bytes(v[k]);
        assert(s.subrange(p + 8, p + 12) =~= s.subrange(p, p + 12).subrange(8, 12));
        assert(b.subrange(8, 12) =~= be_u32(v[k].quantity));
        assert(s.subrange(p + 8, p + 12) =~= be_u32(v[k].quantity));
        lemma_u32_at_be(s, p + 8, v[k].quantity);
    }
    assert(supplies =~= v);
}

impl ServiceRequest {
    /// Reads a Service Request body at the start of `s`, with the number of octets it took.
    pub fn parse(s: &[u8]) -> (r: Result<(ServiceRequest, usize), ParseError>)
        ensures
            match parse_service_request_spec(s@) {
                Some((v, n)) => r matches Ok((sr, m)) && service_request_view(sr) == v && m == n,
                None => r == Err::<(ServiceRequest, usize), ParseError>(ParseError::Truncated),
            },
    {
        let len = s.len();
        if len < 16 {
            return Err(ParseError::Truncated);
        }
        let count = s[13] as usize;
        if len < 16 + 12 * count {
            return Err(ParseError::Truncated);
        }
        let ghost expected = Seq::new(count as nat, |k: int| supply_quantity_at(s@, 16 + 12 * k));
        let mut supplies: Vec<SupplyQuantity> = Vec::new();
        let mut k: usize = 0;
        while k < count
            invariant
                k <= count <= 255,
                len == s@.len(),
                16 + 12 * count <= len,
                expected == Seq::new(count as nat, |k: int| supply_quantity_at(s@, 16 + 12 * k)),
                supplies@ == expected.take(k as int),
            decreases count - k,
        {
            let p = 16 + 12 * k;
            let supply = SupplyQuantity { supply_type: read_entity_type(s, p), quantity: read_u32(s, p + 8) };
            supplies.push(supply);
            assert(supplies@ =~= expected.take(k + 1));
            k = k + 1;
        }
        assert(expected.take(count as int) =~= expected);
        let sr = ServiceRequest {
            requesting_id: read_entity_id(s, 0),
            servicing_id: read_entity_id(s, 6),
            service_type_requested: ServiceRequestServiceTypeRequested::from_raw(s[12]),
            supplies,
        };
        Ok((sr, 16 + 12 * count))
    }
}

/// Octets read as a Service Request body and written back give the same octets, when the
/// two padding octets are zero.
pub proof fn lemma_service_request_bytes_reproduced(s: Seq<u8>)
    requires
        parse_service_request_spec(s) is Some,
        s[14] == 0,
        s[15] == 0,
    ensures
        service_request_view_bytes(parse_service_request_spec(s).unwrap().0) == s.subrange(
            0,
            parse_service_request_spec(s).unwrap().1 as int,
        ),
{
    let (v, n) = parse_service_request_spec(s).unwrap();
    let count = s[13] as int;
    lemma_entity_id_at_reproduces(s, 0);
    lemma_entity_id_at_reproduces(s, 6);
    crate::enumerations::lemma_service_type_requested_round_trip(s[12]);
    lemma_supplies_bytes_len(v.3);
    assert forall|k: int| 0 <= k < count implies #[trigger] supplies_bytes(v.3).subrange(
        12 * k,
        12 * k + 12,
    ) == s.subrange(16 + 12 * k, 16 + 12 * k + 12) by {
        lemma_supplies_bytes_index(v.3, k);
        lemma_entity_type_at_reproduces(s, 16 + 12 * k);
        lemma_u32_at_bytes(s, 16 + 12 * k + 8);
        assert(supply_quantity_bytes(v.3[k]) =~= s.subrange(16 + 12 * k, 16 + 12 * k + 12));
    }
    assert forall|i: int| 0 <= i < 12 * count implies supplies_bytes(v.3)[i] == s[16 + i] by {
        let k = i / 12;
        assert(0 <= k < count) by (nonlinear_arith)
            requires
                0 <= i < 12 * count,
                k == i / 12,
        ;
        assert(12 * k <= i < 12 * k + 12) by (nonlinear_arith)
            requires
                k == i / 12,
                0 <= i,
        ;
        assert(supplies_bytes(v.3).subrange(12 * k, 12 * k + 12)[i - 12 * k] == s.subrange(
            16 + 12 * k,
            16 + 12 * k + 12,
        )[i - 12 * k]);
    }
    assert(supplies_bytes(v.3) =~= s.subrange(16, n as int));
    assert(be_u16(0) =~= seq![0u8, 0u8]) by {
        assert((0u16 >> 8u16) as u8 == 0u8 && 0u16 as u8 == 0u8) by (bit_vector);
    }
    assert(service_request_view_bytes(v) =~= s.subrange(0, n as int));
}

} // verus!
