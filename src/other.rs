use vstd::prelude::*;
use crate::model::{EntityId, PduType};
use crate::body::PduBody;

verus! {

/// The body of a PDU of a type that is not (yet) supported, kept as raw octets.
///
/// The originator and receiver are those found at fixed positions for PDU types that
/// convey an interaction between entities, or that can be attributed to a sending entity.
pub struct Other {
    pub originating_entity_id: Option<EntityId>,
    pub receiving_entity_id: Option<EntityId>,
    pub body: Vec<u8>,
}

/// Builds an `Other` body field by field.
pub struct OtherBuilder {
    pub body: Other,
}

impl OtherBuilder {
    pub fn new() -> (r: OtherBuilder)
        ensures
            r.body.originating_entity_id is None,
            r.body.receiving_entity_id is None,
            r.body.body@ == Seq::<u8>::empty(),
    {
        OtherBuilder { body: Other::new(Vec::new()) }
    }

    pub fn body(self, bytes: Vec<u8>) -> (r: OtherBuilder)
        ensures
            r.body.originating_entity_id == self.body.originating_entity_id,
            r.body.receiving_entity_id == self.body.receiving_entity_id,
            r.body.body@ == bytes@,
    {
        let mut s = self;
        s.body.body = bytes;
        s
    }

    pub fn origin(self, origin: Option<EntityId>) -> (r: OtherBuilder)
        ensures
            r.body.originating_entity_id == origin,
            r.body.receiving_entity_id == self.body.receiving_entity_id,
            r.body.body@ == self.body.body@,
    {
        OtherBuilder { body: self.body.with_origin(origin) }
    }

    pub fn receiver(self, receiver: Option<EntityId>) -> (r: OtherBuilder)
        ensures
            r.body.originating_entity_id == self.body.originating_entity_id,
            r.body.receiving_entity_id == receiver,
            r.body.body@ == self.body.body@,
    {
        OtherBuilder { body: self.body.with_receiver(receiver) }
    }

    pub fn build(self) -> (r: Other)
        ensures
            r.originating_entity_id == self.body.originating_entity_id,
            r.receiving_entity_id == self.body.receiving_entity_id,
            r.body@ == self.body.body@,
    {
        self.body
    }
}

impl Other {
    pub fn builder() -> (r: OtherBuilder)
        ensures
            r.body.originating_entity_id is None,
            r.body.receiving_entity_id is None,
            r.body.body@ == Seq::<u8>::empty(),
    {
        OtherBuilder::new()
    }

    pub fn new(bytes: Vec<u8>) -> (r: Other)
        ensures
            r.originating_entity_id is None,
            r.receiving_entity_id is None,
            r.body@ == bytes@,
    {
        Other { originating_entity_id: None, receiving_entity_id: None, body: bytes }
    }

    pub fn with_origin(self, origin: Option<EntityId>) -> (r: Other)
        ensures
            r.originating_entity_id == origin,
            r.receiving_entity_id == self.receiving_entity_id,
            r.body@ == self.body@,
    {
        let mut s = self;
        s.originating_entity_id = origin;
        s
    }

    pub fn with_receiver(self, receiver: Option<EntityId>) -> (r: Other)
        ensures
            r.originating_entity_id == self.originating_entity_id,
            r.receiving_entity_id == receiver,
            r.body@ == self.body@,
    {
        let mut s = self;
        s.receiving_entity_id = receiver;
        s
    }

    pub fn as_pdu_body(self) -> (r: PduBody)
        ensures
            r == PduBody::Other(self),
    {
        PduBody::Other(self)
    }

    /// Octets of this body on the wire: the raw octets themselves.
    pub fn body_length(&self) -> (r: u16)
        requires
            self.body@.len() <= u16::MAX,
        ensures
            r == self.body@.len(),
    {
        self.body.len() as u16
    }

    pub fn body_type(&self) -> (r: PduType)
        ensures
            r == PduType::Other,
    {
        PduType::Other
    }

    pub fn originator(&self) -> (r: Option<&EntityId>)
        ensures
            r == match self.originating_entity_id {
                Some(e) => Some(&e),
                None => None::<&EntityId>,
            },
    {
        match &self.originating_entity_id {
            Some(entity) => Some(entity),
            None => None,
        }
    }

    pub fn receiver(&self) -> (r: Option<&EntityId>)
        ensures
            r == match self.receiving_entity_id {
                Some(e) => Some(&e),
                None => None::<&EntityId>,
            },
    {
        match &self.receiving_entity_id {
            Some(entity) => Some(entity),
            None => None,
        }
    }
}

} // verus!
