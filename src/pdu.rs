use vstd::prelude::*;
use bytes::BytesMut;
use crate::model::{
    EntityId, ParseError, PduType, pdu_type_of, pdu_type_value, lemma_pdu_type_raw_round_trip,
};
use crate::body::{PduBody, pdu_body_type};
use crate::comment::{Comment, parse_comment_spec, comment_bytes, comment_body_len, lemma_comment_round_trip};
use crate::fire::{Fire, fire_at, fire_bytes, lemma_fire_round_trip, lemma_fire_bytes_reproduced};
use crate::receiver::{
    Receiver, receiver_at, receiver_bytes, receiver_wf, lemma_receiver_round_trip,
    lemma_receiver_bytes_reproduced,
};
use crate::other::Other;
use crate::service_request::{
    ServiceRequest, parse_service_request_spec, service_request_view, service_request_bytes,
    service_request_view_bytes, lemma_service_request_round_trip,
    lemma_service_request_bytes_reproduced,
};
use crate::enumerations::{service_type_requested_of, service_type_requested_value};
use crate::records::{entity_id_at, read_entity_id};
use crate::wire::{
    buffer_contents, put_u8, put_u16, put_u32, put_slice, read_u16, read_u32, be_u16, be_u32,
    u16_at, u32_at, MAX_BUFFER_LEN, lemma_u16_at_be, lemma_u32_at_be, lemma_u16_at_bytes,
    lemma_u32_at_bytes,
};

verus! {

/// Octets of a PDU header.
pub const PDU_HEADER_LEN: u16 = 12;

/// The header of a DIS PDU.
#[derive(Clone, Copy, Debug, PartialEq, Eq, Structural)]
pub struct PduHeader {
    pub protocol_version: u8,
    pub exercise_id: u8,
    pub pdu_type: PduType,
    pub protocol_family: u8,
    pub time_stamp: u32,
    pub pdu_length: u16,
    pub pdu_status: u8,
}

/// Wire form of a header; one octet of padding ends it.
pub open spec fn header_bytes(h: PduHeader) -> Seq<u8> {
    seq![h.protocol_version, h.exercise_id, pdu_type_value(h.pdu_type), h.protocol_family] + be_u32(
        h.time_stamp,
    ) + be_u16(h.pdu_length) + seq![h.pdu_status, 0u8]
}

/// The header whose wire form starts at the front of `s`.
pub open spec fn header_at(s: Seq<u8>) -> PduHeader {
    PduHeader {
        protocol_version: s[0],
        exercise_id: s[1],
        pdu_type: pdu_type_of(s[2]),
        protocol_family: s[3],
        time_stamp: u32_at(s, 4),
        pdu_length: u16_at(s, 8),
        pdu_status: s[10],
    }
}

/// PDU types whose body starts with the originating entity.
pub open spec fn carries_originator(t: PduType) -> bool {
    match t {
        PduType::EntityState | PduType::Fire | PduType::Detonation | PduType::ServiceRequest
        | PduType::ResupplyOffer | PduType::ResupplyReceived | PduType::ResupplyCancel
        | PduType::RemoveEntity | PduType::Comment | PduType::Transmitter | PduType::Signal
        | PduType::Receiver | PduType::IsGroupOf => true,
        _ => false,
    }
}

/// PDU types whose body holds the receiving entity right after the originating one.
pub open spec fn carries_receiver(t: PduType) -> bool {
    match t {
        PduType::Fire | PduType::Detonation | PduType::ServiceRequest | PduType::ResupplyOffer
        | PduType::ResupplyReceived | PduType::ResupplyCancel | PduType::RemoveEntity
        | PduType::Comment => true,
        _ => false,
    }
}

pub open spec fn extracted_originator(t: PduType, b: Seq<u8>) -> Option<EntityId> {
    if carries_originator(t) && b.len() >= 6 {
        Some(entity_id_at(b, 0))
    } else {
        None
    }
}

pub open spec fn extracted_receiver(t: PduType, b: Seq<u8>) -> Option<EntityId> {
    if carries_receiver(t) && b.len() >= 12 {
        Some(entity_id_at(b, 6))
    } else {
        None
    }
}

/// PDU types that are read into a body of their own; every other type is kept as `Other`.
pub open spec fn has_typed_body(t: PduType) -> bool {
    t == PduType::Comment || t == PduType::Fire || t == PduType::Receiver || t
        == PduType::ServiceRequest
}

/// Why the body octets `b` of a PDU of type `t` cannot be read, if they cannot.
pub open spec fn body_error(t: PduType, b: Seq<u8>) -> Option<ParseError> {
    if t == PduType::Comment {
        match parse_comment_spec(b) {
            Some((c, n)) => if n == b.len() {
                None
            } else {
                Some(ParseError::MalformedBody(t, 12))
            },
            None => Some(ParseError::MalformedBody(t, 12)),
        }
    } else if t == PduType::Fire {
        if b.len() == 84 {
            None
        } else {
            Some(ParseError::MalformedBody(t, 12))
        }
    } else if t == PduType::Receiver {
        if b.len() == 24 {
            None
        } else {
            Some(ParseError::MalformedBody(t, 12))
        }
    } else if t == PduType::ServiceRequest {
        match parse_service_request_spec(b) {
            Some((v, n)) => if n == b.len() {
                None
            } else {
                Some(ParseError::MalformedBody(t, 12))
            },
            None => Some(ParseError::MalformedBody(t, 12)),
        }
    } else {
        None
    }
}

/// Why the PDU at the front of `s` cannot be read, if it cannot: the header is checked
/// first (size, version 6 or 7, declared length), then the body.
pub open spec fn pdu_error(s: Seq<u8>) -> Option<ParseError> {
    if s.len() < 12 {
        Some(ParseError::Truncated)
    } else if s[0] != 6 && s[0] != 7 {
        Some(ParseError::UnsupportedVersion)
    } else if u16_at(s, 8) < 12 {
        Some(ParseError::MalformedHeader)
    } else if u16_at(s, 8) > s.len() {
        Some(ParseError::Truncated)
    } else {
        body_error(pdu_type_of(s[2]), s.subrange(12, u16_at(s, 8) as int))
    }
}

/// `body` is what the octets `b` of a PDU of type `t` read as.
pub open spec fn body_matches(body: PduBody, t: PduType, b: Seq<u8>) -> bool {
    match body {
        PduBody::Comment(c) => t == PduType::Comment && parse_comment_spec(b) == Some((c@, b.len())),
        PduBody::Fire(f) => t == PduType::Fire && f == fire_at(b),
        PduBody::Receiver(r) => t == PduType::Receiver && r == receiver_at(b),
        PduBody::ServiceRequest(sr) => t == PduType::ServiceRequest && parse_service_request_spec(b)
            == Some((service_request_view(sr), b.len())),
        PduBody::Other(o) => !has_typed_body(t) && o.body@ == b && o.originating_entity_id
            == extracted_originator(t, b) && o.receiving_entity_id == extracted_receiver(t, b),
        PduBody::Signal(_) => false,
    }
}

/// A PDU: header and body.
pub struct Pdu {
    pub header: PduHeader,
    pub body: PduBody,
}

/// `p` is what the PDU at the front of `s` reads as.
pub open spec fn pdu_matches(p: Pdu, s: Seq<u8>) -> bool {
    &&& pdu_error(s) is None
    &&& p.header == header_at(s)
    &&& body_matches(p.body, p.header.pdu_type, s.subrange(12, p.header.pdu_length as int))
}

/// Body types that can be written.
pub open spec fn body_serializable(b: PduBody) -> bool {
    match b {
        PduBody::Comment(c) => comment_body_len(c@) <= u16::MAX - 12,
        PduBody::Other(o) => o.body@.len() <= u16::MAX - 12,
        PduBody::Signal(_) => false,
        PduBody::ServiceRequest(sr) => sr.supplies@.len() <= u8::MAX,
        _ => true,
    }
}

/// Wire form of a body.
pub open spec fn body_bytes(b: PduBody) -> Seq<u8> {
    match b {
        PduBody::Comment(c) => comment_bytes(c@),
        PduBody::Fire(f) => fire_bytes(f),
        PduBody::Receiver(r) => receiver_bytes(r),
        PduBody::ServiceRequest(sr) => service_request_bytes(sr),
        PduBody::Other(o) => o.body@,
        PduBody::Signal(_) => Seq::empty(),
    }
}

pub open spec fn pdu_bytes(p: Pdu) -> Seq<u8> {
    header_bytes(p.header) + body_bytes(p.body)
}

pub proof fn lemma_body_bytes_len(b: PduBody)
    requires
        body_serializable(b),
    ensures
        body_bytes(b).len() <= u16::MAX - 12,
{
    match b {
        PduBody::Comment(c) => {
            lemma_comment_round_trip(c@, Seq::empty());
        },
        PduBody::Fire(f) => {
            lemma_fire_round_trip(f, Seq::empty());
        },
        PduBody::Receiver(r) => {
            assert(receiver_bytes(r).len() == 24);
        },
        PduBody::ServiceRequest(sr) => {
            crate::service_request::lemma_supplies_bytes_len(sr.supplies@);
        },
        _ => {},
    }
}

/// Appends the wire form of a body and returns the number of octets written.
pub fn serialize_body(body: &PduBody, buf: &mut BytesMut) -> (r: u16)
    requires
        body_serializable(*body),
        buffer_contents(*old(buf)).len() + u16::MAX <= MAX_BUFFER_LEN,
    ensures
        buffer_contents(*final(buf)) == buffer_contents(*old(buf)) + body_bytes(*body),
        r == body_bytes(*body).len(),
{
    proof {
        lemma_body_bytes_len(*body);
    }
    match body {
        PduBody::Comment(c) => {
            proof {
                lemma_comment_round_trip(c@, Seq::empty());
            }
            c.serialize(buf)
        },
        PduBody::Fire(f) => {
            proof {
                lemma_fire_round_trip(*f, Seq::empty());
            }
            f.serialize(buf)
        },
        PduBody::Receiver(r) => r.serialize(buf),
        PduBody::ServiceRequest(sr) => {
            proof {
                crate::service_request::lemma_supplies_bytes_len(sr.supplies@);
            }
            sr.serialize_pdu(crate::model::SupportedVersion::V7, buf)
        },
        PduBody::Other(o) => {
            put_slice(buf, o.body.as_slice());
            o.body.len() as u16
        },
        PduBody::Signal(_) => 0,
    }
}

impl Pdu {
    /// Appends the wire form of this PDU, header first, and returns the octets written.
    pub fn serialize(&self, buf: &mut BytesMut) -> (r: u16)
        requires
            body_serializable(self.body),
            buffer_contents(*old(buf)).len() + 12 + u16::MAX <= MAX_BUFFER_LEN,
        ensures
            buffer_contents(*final(buf)) == buffer_contents(*old(buf)) + pdu_bytes(*self),
            r == pdu_bytes(*self).len(),
    {
        let ghost start = buffer_contents(*buf);
        let h = &self.header;
        put_u8(buf, h.protocol_version);
        put_u8(buf, h.exercise_id);
        put_u8(buf, h.pdu_type.to_u8());
        put_u8(buf, h.protocol_family);
        put_u32(buf, h.time_stamp);
        put_u16(buf, h.pdu_length);
        put_u8(buf, h.pdu_status);
        put_u8(buf, 0);
        assert(buffer_contents(*buf) =~= start + header_bytes(self.header));
        let n = serialize_body(&self.body, buf);
        proof {
            lemma_body_bytes_len(self.body);
        }
        assert(buffer_contents(*buf) =~= start + pdu_bytes(*self));
        PDU_HEADER_LEN + n
    }

    /// Puts a header and a body together, setting the declared length and the time stamp.
    /// The type tag is taken from the body, so that the two agree; a body kept as raw
    /// octets (`Other`) keeps the header's tag, which says what those octets are.
    pub fn finalize_from_parts(header: PduHeader, body: PduBody, time_stamp: u32) -> (r: Pdu)
        requires
            body_serializable(body),
        ensures
            r.header == (PduHeader {
                pdu_type: if body is Other {
                    header.pdu_type
                } else {
                    pdu_body_type(body)
                },
                pdu_length: (12 + body_bytes(body).len()) as u16,
                time_stamp,
                ..header
            }),
            !(body is Other) ==> r.header.pdu_type == pdu_body_type(body),
            r.body == body,
    {
        proof {
            lemma_body_bytes_len(body);
        }
        let body_length = body_length_of(&body);
        let pdu_type = match &body {
            PduBody::Other(_) => header.pdu_type,
            _ => body.body_type(),
        };
        Pdu {
            header: PduHeader {
                pdu_type,
                pdu_length: PDU_HEADER_LEN + body_length,
                time_stamp,
                ..header
            },
            body,
        }
    }
}

/// Octets of a body on the wire.
pub fn body_length_of(body: &PduBody) -> (r: u16)
    requires
        body_serializable(*body),
    ensures
        r == body_bytes(*body).len(),
{
    proof {
        lemma_body_bytes_len(*body);
    }
    match body {
        PduBody::Comment(c) => {
            proof {
                lemma_comment_round_trip(c@, Seq::empty());
            }
            c.body_length()
        },
        PduBody::Fire(f) => {
            proof {
                lemma_fire_round_trip(*f, Seq::empty());
            }
            f.body_length()
        },
        PduBody::Receiver(r) => r.body_length(),
        PduBody::ServiceRequest(sr) => sr.body_length(),
        PduBody::Other(o) => o.body.len() as u16,
        PduBody::Signal(_) => 0,
    }
}

/// The originator and receiver found at fixed positions in the body of a PDU of type `t`.
pub fn extract_interaction(t: PduType, b: &[u8]) -> (r: (Option<EntityId>, Option<EntityId>))
    ensures
        r.0 == extracted_originator(t, b@),
        r.1 == extracted_receiver(t, b@),
{
    let carries_originator = match t {
        PduType::EntityState | PduType::Fire | PduType::Detonation | PduType::ServiceRequest
        | PduType::ResupplyOffer | PduType::ResupplyReceived | PduType::ResupplyCancel
        | PduType::RemoveEntity | PduType::Comment | PduType::Transmitter | PduType::Signal
        | PduType::Receiver | PduType::IsGroupOf => true,
        _ => false,
    };
    let carries_receiver = match t {
        PduType::Fire | PduType::Detonation | PduType::ServiceRequest | PduType::ResupplyOffer
        | PduType::ResupplyReceived | PduType::ResupplyCancel | PduType::RemoveEntity
        | PduType::Comment => true,
        _ => false,
    };
    let originator = if carries_originator && b.len() >= 6 {
        Some(read_entity_id(b, 0))
    } else {
        None
    };
    let receiver = if carries_receiver && b.len() >= 12 {
        Some(read_entity_id(b, 6))
    } else {
        None
    };
    (originator, receiver)
}

/// Reads one PDU at the front of `s`, with the number of octets it took; what follows is
/// left for the next PDU.
pub fn parse_pdu(s: &[u8]) -> (r: Result<(Pdu, usize), ParseError>)
    ensures
        match r {
            Ok((p, n)) => pdu_matches(p, s@) && n == p.header.pdu_length,
            Err(e) => pdu_error(s@) == Some(e),
        },
{
    let len = s.len();
    if len < 12 {
        return Err(ParseError::Truncated);
    }
    let protocol_version = s[0];
    if protocol_version != 6 && protocol_version != 7 {
        return Err(ParseError::UnsupportedVersion);
    }
    let pdu_length = read_u16(s, 8);
    if pdu_length < 12 {
        return Err(ParseError::MalformedHeader);
    }
    if pdu_length as usize > len {
        return Err(ParseError::Truncated);
    }
    let header = PduHeader {
        protocol_version,
        exercise_id: s[1],
        pdu_type: PduType::from_u8(s[2]),
        protocol_family: s[3],
        time_stamp: read_u32(s, 4),
        pdu_length,
        pdu_status: s[10],
    };
    let b = vstd::slice::slice_subrange(s, 12, pdu_length as usize);
    let t = header.pdu_type;
    let body = match t {
        PduType::Comment => {
            match Comment::parse(b) {
                Ok((c, n)) => {
                    if n != b.len() {
                        return Err(ParseError::MalformedBody(t, 12));
                    }
                    PduBody::Comment(c)
                },
                Err(_) => {
                    return Err(ParseError::MalformedBody(t, 12));
                },
            }
        },
        PduType::Fire => {
            if b.len() != 84 {
                return Err(ParseError::MalformedBody(t, 12));
            }
            match Fire::parse(b) {
                Ok((f, _)) => PduBody::Fire(f),
                Err(_) => {
                    return Err(ParseError::MalformedBody(t, 12));
                },
            }
        },
        PduType::Receiver => {
            if b.len() != 24 {
                return Err(ParseError::MalformedBody(t, 12));
            }
            match Receiver::parse(b) {
                Ok((r, _)) => PduBody::Receiver(r),
                Err(_) => {
                    return Err(ParseError::MalformedBody(t, 12));
                },
            }
        },
        PduType::ServiceRequest => {
            match ServiceRequest::parse(b) {
                Ok((sr, n)) => {
                    if n != b.len() {
                        return Err(ParseError::MalformedBody(t, 12));
                    }
                    PduBody::ServiceRequest(sr)
                },
                Err(_) => {
                    return Err(ParseError::MalformedBody(t, 12));
                },
            }
        },
        _ => {
            let (originator, receiver) = extract_interaction(t, b);
            PduBody::Other(
                Other::new(vstd::slice::slice_to_vec(b)).with_origin(originator).with_receiver(receiver),
            )
        },
    };
    Ok((Pdu { header, body }, pdu_length as usize))
}

/// A PDU that writes and reads back as itself: a supported version, a tag that names its
/// body, the declared length of what is written, and for `Other` the identifiers found
/// at the fixed positions of its type.
pub open spec fn pdu_wf(p: Pdu) -> bool {
    let t = p.header.pdu_type;
    &&& p.header.protocol_version == 6 || p.header.protocol_version == 7
    &&& pdu_type_of(pdu_type_value(t)) == t
    &&& body_serializable(p.body)
    &&& p.header.pdu_length == 12 + body_bytes(p.body).len()
    &&& match p.body {
        PduBody::Comment(_) => t == PduType::Comment,
        PduBody::Fire(_) => t == PduType::Fire,
        PduBody::Receiver(r) => t == PduType::Receiver && receiver_wf(r),
        PduBody::ServiceRequest(sr) => t == PduType::ServiceRequest && service_type_requested_of(
            service_type_requested_value(sr.service_type_requested),
        ) == sr.service_type_requested,
        PduBody::Other(o) => !has_typed_body(t) && o.originating_entity_id == extracted_originator(
            t,
            o.body@,
        ) && o.receiving_entity_id == extracted_receiver(t, o.body@),
        PduBody::Signal(_) => false,
    }
}

/// A written PDU reads back as itself, whatever follows it.
#[verifier::rlimit(80)]
pub proof fn lemma_pdu_round_trip(p: Pdu, rest: Seq<u8>)
    requires
        pdu_wf(p),
    ensures
        pdu_matches(p, pdu_bytes(p) + rest),
        pdu_bytes(p).len() == p.header.pdu_length,
{
    let s = pdu_bytes(p) + rest;
    let h = p.header;
    let b = body_bytes(p.body);
    lemma_body_bytes_len(p.body);
    assert(s[0] == h.protocol_version);
    assert(s[1] == h.exercise_id);
    assert(s[2] == pdu_type_value(h.pdu_type));
    assert(s[3] == h.protocol_family);
    assert(s[10] == h.pdu_status);
    assert(s.subrange(4, 8) =~= be_u32(h.time_stamp));
    lemma_u32_at_be(s, 4, h.time_stamp);
    assert(s.subrange(8, 10) =~= be_u16(h.pdu_length));
    lemma_u16_at_be(s, 8, h.pdu_length);
    assert(header_at(s) == h);
    assert(s.subrange(12, h.pdu_length as int) =~= b);
    assert(b + Seq::<u8>::empty() =~= b);
    match p.body {
        PduBody::Comment(c) => {
            lemma_comment_round_trip(c@, Seq::empty());
        },
        PduBody::Fire(f) => {
            lemma_fire_round_trip(f, Seq::empty());
        },
        PduBody::Receiver(r) => {
            lemma_receiver_round_trip(r, Seq::empty());
        },
        PduBody::ServiceRequest(sr) => {
            lemma_service_request_round_trip(sr, Seq::empty());
        },
        _ => {},
    }
}

/// Two PDUs written one after the other read back in order: the first takes exactly its
/// own octets and leaves the second.
pub proof fn lemma_pdu_concatenation(a: Pdu, b: Pdu)
    requires
        pdu_wf(a),
        pdu_wf(b),
    ensures
        pdu_matches(a, pdu_bytes(a) + pdu_bytes(b)),
        (pdu_bytes(a) + pdu_bytes(b)).skip(a.header.pdu_length as int) == pdu_bytes(b),
        pdu_matches(b, (pdu_bytes(a) + pdu_bytes(b)).skip(a.header.pdu_length as int)),
{
    lemma_pdu_round_trip(a, pdu_bytes(b));
    lemma_pdu_round_trip(b, Seq::empty());
    assert((pdu_bytes(a) + pdu_bytes(b)).skip(a.header.pdu_length as int) =~= pdu_bytes(b));
    assert(pdu_bytes(b) + Seq::<u8>::empty() =~= pdu_bytes(b));
}

/// `ps` are the PDUs that the front of `s` holds, one after the other.
pub open spec fn pdus_match(ps: Seq<Pdu>, s: Seq<u8>) -> bool
    decreases ps.len(),
{
    if ps.len() == 0 {
        true
    } else {
        pdu_matches(ps[0], s) && pdus_match(ps.drop_first(), s.skip(ps[0].header.pdu_length as int))
    }
}

/// Octets that the PDUs `ps` take.
pub open spec fn pdus_len(ps: Seq<Pdu>) -> nat
    decreases ps.len(),
{
    if ps.len() == 0 {
        0
    } else {
        ps[0].header.pdu_length as nat + pdus_len(ps.drop_first())
    }
}

pub proof fn lemma_pdus_match_push(ps: Seq<Pdu>, p: Pdu, s: Seq<u8>)
    requires
        pdus_match(ps, s),
        pdus_len(ps) <= s.len(),
        pdu_matches(p, s.skip(pdus_len(ps) as int)),
    ensures
        pdus_match(ps.push(p), s),
        pdus_len(ps.push(p)) == pdus_len(ps) + p.header.pdu_length,
    decreases ps.len(),
{
    let q = ps.push(p);
    if ps.len() == 0 {
        assert(q.drop_first() =~= Seq::<Pdu>::empty());
        assert(s.skip(0) =~= s);
        assert(q[0] == p);
        assert(pdus_len(q.drop_first()) == 0);
        assert(pdus_match(q.drop_first(), s.skip(p.header.pdu_length as int)));
    } else {
        let l0 = ps[0].header.pdu_length as int;
        assert(pdu_matches(ps[0], s));
        assert(l0 <= s.len());
        assert(q.drop_first() =~= ps.drop_first().push(p));
        assert(q[0] == ps[0]);
        assert(s.skip(l0).skip(pdus_len(ps.drop_first()) as int) =~= s.skip(pdus_len(ps) as int));
        lemma_pdus_match_push(ps.drop_first(), p, s.skip(l0));
    }
}

/// Reads PDUs one after the other until the octets run out or one cannot be read. Returns
/// the PDUs read, the octets they took, and the error that stopped the reading, if any.
pub fn parse_many(s: &[u8]) -> (r: (Vec<Pdu>, usize, Option<ParseError>))
    ensures
        pdus_match(r.0@, s@),
        r.1 == pdus_len(r.0@),
        r.1 <= s@.len(),
        r.2 is None ==> r.1 == s@.len(),
        r.2 matches Some(e) ==> pdu_error(s@.skip(r.1 as int)) == Some(e),
{
    let len = s.len();
    let mut pdus: Vec<Pdu> = Vec::new();
    let mut pos: usize = 0;
    while pos < len
        invariant
            pos <= len,
            len == s@.len(),
            pdus_match(pdus@, s@),
            pdus_len(pdus@) == pos,
        decreases len - pos,
    {
        let rest = vstd::slice::slice_subrange(s, pos, len);
        assert(rest@ =~= s@.skip(pos as int));
        match parse_pdu(rest) {
            Ok((p, n)) => {
                proof {
                    lemma_pdus_match_push(pdus@, p, s@);
                }
                pdus.push(p);
                pos = pos + n;
            },
            Err(e) => {
                return (pdus, pos, Some(e));
            },
        }
    }
    (pdus, pos, None)
}

/// A PDU read from octets whose padding is zero writes back as those same octets. This
/// holds for every body but Comment, whose datum lengths and padding the reader normalises.
/// Padding is the header's last octet and the pad octets of Receiver and Service Request.
#[verifier::rlimit(80)]
pub proof fn lemma_pdu_bytes_reproduced(p: Pdu, s: Seq<u8>)
    requires
        pdu_matches(p, s),
        !(p.body is Comment),
        s[11] == 0,
        p.body is Receiver ==> s[22] == 0 && s[23] == 0,
        p.body is ServiceRequest ==> s[26] == 0 && s[27] == 0,
    ensures
        pdu_bytes(p) == s.subrange(0, p.header.pdu_length as int),
{
    let l = p.header.pdu_length as int;
    let b = s.subrange(12, l);
    lemma_pdu_type_raw_round_trip(s[2]);
    lemma_u32_at_bytes(s, 4);
    lemma_u16_at_bytes(s, 8);
    assert(header_bytes(p.header) =~= s.subrange(0, 12));
    match p.body {
        PduBody::Fire(f) => {
            lemma_fire_bytes_reproduced(b);
            assert(b.subrange(0, 84) =~= b);
        },
        PduBody::Receiver(r) => {
            assert(b[10] == s[22] && b[11] == s[23]);
            lemma_receiver_bytes_reproduced(b);
            assert(b.subrange(0, 24) =~= b);
        },
        PduBody::ServiceRequest(sr) => {
            assert(b[14] == s[26] && b[15] == s[27]);
            lemma_service_request_bytes_reproduced(b);
            assert(b.subrange(0, b.len() as int) =~= b);
        },
        _ => {},
    }
    assert(pdu_bytes(p) =~= s.subrange(0, l));
}

} // verus!
