use vstd::prelude::*;
use crate::model::{EntityId, PduType};
use crate::comment::Comment;
use crate::other::Other;
use crate::signal::Signal;
use crate::receiver::Receiver;
use crate::fire::Fire;
use crate::service_request::ServiceRequest;

verus! {

/// The body of a PDU, one variant per supported PDU type.
pub enum PduBody {
    Other(Other),
    Comment(Comment),
    Signal(Signal),
    Receiver(Receiver),
    Fire(Fire),
    ServiceRequest(ServiceRequest),
}

/// The type tag that agrees with a body variant; `Other` for a body kept as raw octets.
pub open spec fn pdu_body_type(b: PduBody) -> PduType {
    match b {
        PduBody::Other(_) => PduType::Other,
        PduBody::Comment(_) => PduType::Comment,
        PduBody::Signal(_) => PduType::Signal,
        PduBody::Receiver(_) => PduType::Receiver,
        PduBody::Fire(_) => PduType::Fire,
        PduBody::ServiceRequest(_) => PduType::ServiceRequest,
    }
}

/// The entity that sent a body, where its type names one.
pub open spec fn pdu_body_originator(b: PduBody) -> Option<EntityId> {
    match b {
        PduBody::Other(o) => o.originating_entity_id,
        PduBody::Comment(c) => Some(c.originating_id),
        PduBody::Signal(s) => Some(s.radio_reference_id),
        PduBody::Receiver(r) => Some(r.radio_reference_id),
        PduBody::Fire(f) => Some(f.firing_entity_id),
        PduBody::ServiceRequest(sr) => Some(sr.requesting_id),
    }
}

/// The entity that a body is addressed to, where its type names one.
pub open spec fn pdu_body_receiver(b: PduBody) -> Option<EntityId> {
    match b {
        PduBody::Other(o) => o.receiving_entity_id,
        PduBody::Comment(c) => Some(c.receiving_id),
        PduBody::Signal(_) => None,
        PduBody::Receiver(_) => None,
        PduBody::Fire(f) => Some(f.target_entity_id),
        PduBody::ServiceRequest(sr) => Some(sr.servicing_id),
    }
}

impl PduBody {
    pub fn body_type(&self) -> (r: PduType)
        ensures
            r == pdu_body_type(*self),
    {
        match self {
            PduBody::Other(o) => o.body_type(),
            PduBody::Comment(c) => c.body_type(),
            PduBody::Signal(s) => s.body_type(),
            PduBody::Receiver(r) => r.body_type(),
            PduBody::Fire(f) => f.body_type(),
            PduBody::ServiceRequest(sr) => sr.body_type(),
        }
    }

    pub fn originator(&self) -> (r: Option<&EntityId>)
        ensures
            r == match pdu_body_originator(*self) {
                Some(e) => Some(&e),
                None => None::<&EntityId>,
            },
    {
        match self {
            PduBody::Other(o) => o.originator(),
            PduBody::Comment(c) => c.originator(),
            PduBody::Signal(s) => s.originator(),
            PduBody::Receiver(r) => r.originator(),
            PduBody::Fire(f) => f.originator(),
            PduBody::ServiceRequest(sr) => sr.originator(),
        }
    }

    pub fn receiver(&self) -> (r: Option<&EntityId>)
        ensures
            r == match pdu_body_receiver(*self) {
                Some(e) => Some(&e),
                None => None::<&EntityId>,
            },
    {
        match self {
            PduBody::Other(o) => o.receiver(),
            PduBody::Comment(c) => c.receiver(),
            PduBody::Signal(s) => s.receiver(),
            PduBody::Receiver(r) => r.receiver(),
            PduBody::Fire(f) => f.receiver(),
            PduBody::ServiceRequest(sr) => sr.receiver(),
        }
    }
}

} // verus!
