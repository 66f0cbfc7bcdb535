use vstd::prelude::*;

verus! {

/// Three-part identifier of a simulated entity: site, application and entity number.
#[derive(Clone, Copy, Debug, PartialEq, Eq, Structural)]
pub struct EntityId {
    pub site: u16,
    pub application: u16,
    pub entity: u16,
}

impl EntityId {
    pub fn new(site: u16, application: u16, entity: u16) -> (r: EntityId)
        ensures
            r == (EntityId { site, application, entity }),
    {
        EntityId { site, application, entity }
    }
}

impl Default for EntityId {
    fn default() -> (r: EntityId)
        ensures
            r == (EntityId { site: 0, application: 0, entity: 0 }),
    {
        EntityId { site: 0, application: 0, entity: 0 }
    }
}

/// The kind of an entity, as the seven fields of an entity type record.
#[derive(Clone, Copy, Debug, PartialEq, Eq, Structural)]
pub struct EntityType {
    pub kind: u8,
    pub domain: u8,
    pub country: u16,
    pub category: u8,
    pub subcategory: u8,
    pub specific: u8,
    pub extra: u8,
}

impl EntityType {
    pub fn new(
        kind: u8,
        domain: u8,
        country: u16,
        category: u8,
        subcategory: u8,
        specific: u8,
        extra: u8,
    ) -> (r: EntityType)
        ensures
            r == (EntityType { kind, domain, country, category, subcategory, specific, extra }),
    {
        EntityType { kind, domain, country, category, subcategory, specific, extra }
    }
}

/// The DIS protocol versions that PDUs are written in.
#[derive(Clone, Copy, Debug, PartialEq, Eq, Structural)]
pub enum SupportedVersion {
    V6,
    V7,
}

/// The type tag of a PDU. Values without a named variant are kept as `Unspecified`.
#[derive(Clone, Copy, Debug, PartialEq, Eq, Structural)]
pub enum PduType {
    Other,
    EntityState,
    Fire,
    Detonation,
    ServiceRequest,
    ResupplyOffer,
    ResupplyReceived,
    ResupplyCancel,
    RemoveEntity,
    Comment,
    Transmitter,
    Signal,
    Receiver,
    IsGroupOf,
    Unspecified(u8),
}

/// The enumeration value that a raw octet denotes.
pub open spec fn pdu_type_of(raw: u8) -> PduType {
    if raw == 0 {
        PduType::Other
    } else if raw == 1 {
        PduType::EntityState
    } else if raw == 2 {
        PduType::Fire
    } else if raw == 3 {
        PduType::Detonation
    } else if raw == 5 {
        PduType::ServiceRequest
    } else if raw == 6 {
        PduType::ResupplyOffer
    } else if raw == 7 {
        PduType::ResupplyReceived
    } else if raw == 8 {
        PduType::ResupplyCancel
    } else if raw == 12 {
        PduType::RemoveEntity
    } else if raw == 22 {
        PduType::Comment
    } else if raw == 25 {
        PduType::Transmitter
    } else if raw == 26 {
        PduType::Signal
    } else if raw == 27 {
        PduType::Receiver
    } else if raw == 34 {
        PduType::IsGroupOf
    } else {
        PduType::Unspecified(raw)
    }
}

/// The raw octet that an enumeration value is written as.
pub open spec fn pdu_type_value(t: PduType) -> u8 {
    match t {
        PduType::Other => 0,
        PduType::EntityState => 1,
        PduType::Fire => 2,
        PduType::Detonation => 3,
        PduType::ServiceRequest => 5,
        PduType::ResupplyOffer => 6,
        PduType::ResupplyReceived => 7,
        PduType::ResupplyCancel => 8,
        PduType::RemoveEntity => 12,
        PduType::Comment => 22,
        PduType::Transmitter => 25,
        PduType::Signal => 26,
        PduType::Receiver => 27,
        PduType::IsGroupOf => 34,
        PduType::Unspecified(raw) => raw,
    }
}

impl PduType {
    /// Total conversion from the wire value.
    pub fn from_u8(raw: u8) -> (r: PduType)
        ensures
            r == pdu_type_of(raw),
    {
        match raw {
            0 => PduType::Other,
            1 => PduType::EntityState,
            2 => PduType::Fire,
            3 => PduType::Detonation,
            5 => PduType::ServiceRequest,
            6 => PduType::ResupplyOffer,
            7 => PduType::ResupplyReceived,
            8 => PduType::ResupplyCancel,
            12 => PduType::RemoveEntity,
            22 => PduType::Comment,
            25 => PduType::Transmitter,
            26 => PduType::Signal,
            27 => PduType::Receiver,
            34 => PduType::IsGroupOf,
            _ => PduType::Unspecified(raw),
        }
    }

    /// The wire value of this tag.
    pub fn to_u8(&self) -> (r: u8)
        ensures
            r == pdu_type_value(*self),
    {
        match self {
            PduType::Other => 0,
            PduType::EntityState => 1,
            PduType::Fire => 2,
            PduType::Detonation => 3,
            PduType::ServiceRequest => 5,
            PduType::ResupplyOffer => 6,
            PduType::ResupplyReceived => 7,
            PduType::ResupplyCancel => 8,
            PduType::RemoveEntity => 12,
            PduType::Comment => 22,
            PduType::Transmitter => 25,
            PduType::Signal => 26,
            PduType::Receiver => 27,
            PduType::IsGroupOf => 34,
            PduType::Unspecified(raw) => *raw,
        }
    }
}

/// Writing the tag of any raw value and reading it back gives the raw value again.
pub proof fn lemma_pdu_type_raw_round_trip(raw: u8)
    ensures
        pdu_type_value(pdu_type_of(raw)) == raw,
{
}

/// Reading a raw value, writing it and reading it again gives the first reading.
pub proof fn lemma_pdu_type_total(raw: u8)
    ensures
        pdu_type_of(pdu_type_value(pdu_type_of(raw))) == pdu_type_of(raw),
{
}

/// Why a PDU could not be read.
#[derive(Clone, Copy, Debug, PartialEq, Eq, Structural)]
pub enum ParseError {
    Truncated,
    UnsupportedVersion,
    MalformedHeader,
    MalformedBody(PduType, usize),
}

/// Lengths of a record whose data is padded up to a multiple of some octet count.
#[derive(Clone, Copy, Debug, PartialEq, Eq, Structural)]
pub struct PaddedRecordLengths {
    pub data_length: usize,
    pub padding_length: usize,
    pub record_length: usize,
}

/// The least multiple of `to` that is at least `n`.
pub open spec fn padded_len(n: nat, to: nat) -> nat {
    if n % to == 0 {
        n
    } else {
        (n + (to - n % to)) as nat
    }
}

/// Splits a record of `data_length` octets into data and the padding that aligns it to `pad_to_num`.
pub fn length_padded_to_num(data_length: usize, pad_to_num: usize) -> (r: PaddedRecordLengths)
    requires
        pad_to_num > 0,
        data_length + pad_to_num <= usize::MAX,
    ensures
        r.data_length == data_length,
        r.record_length == padded_len(data_length as nat, pad_to_num as nat),
        r.record_length == r.data_length + r.padding_length,
        r.padding_length < pad_to_num,
        r.record_length % pad_to_num == 0,
{
    let data_remaining = data_length % pad_to_num;
    let padding_num: usize = if data_remaining == 0 {
        0
    } else {
        pad_to_num - data_remaining
    };
    let record_length = data_length + padding_num;
    proof {
        lemma_padded_len_aligned(data_length as nat, pad_to_num as nat);
    }
    PaddedRecordLengths { data_length, padding_length: padding_num, record_length }
}

pub proof fn lemma_padded_len_aligned(n: nat, to: nat)
    requires
        to > 0,
    ensures
        padded_len(n, to) % to == 0,
        padded_len(n, to) >= n,
        padded_len(n, to) < n + to,
{
    if n % to != 0 {
        vstd::arithmetic::div_mod::lemma_fundamental_div_mod(n as int, to as int);
        let q = n / to;
        let r = n % to;
        vstd::arithmetic::div_mod::lemma_mod_multiples_basic((q + 1) as int, to as int);
        assert(n + (to - r) == (q + 1) * to) by (nonlinear_arith)
            requires
                n == to * q + r,
        ;
    }
}

/// A variable datum record: an identifier and a value of whole octets.
#[derive(Clone, Debug, PartialEq, Eq)]
pub struct VariableDatum {
    pub variable_datum_id: u32,
    pub datum_value: Vec<u8>,
}

impl View for VariableDatum {
    type V = (u32, Seq<u8>);

    open spec fn view(&self) -> (u32, Seq<u8>) {
        (self.variable_datum_id, self.datum_value@)
    }
}

impl VariableDatum {
    pub fn new(variable_datum_id: u32, datum_value: Vec<u8>) -> (r: VariableDatum)
        ensures
            r@ == (variable_datum_id, datum_value@),
    {
        VariableDatum { variable_datum_id, datum_value }
    }
}

} // verus!
