use vstd::prelude::*;
use bytes::BytesMut;
use crate::model::{
    EntityId, PduType, VariableDatum, ParseError, padded_len, length_padded_to_num,
    lemma_padded_len_aligned,
};
use crate::wire::{
    buffer_contents, put_u8, put_u32, put_slice, read_u32, be_u32, u32_at, MAX_BUFFER_LEN,
    lemma_u32_at_be,
};
use crate::records::{entity_id_bytes, entity_id_at, serialize_entity_id, read_entity_id, lemma_entity_id_at_bytes};
use crate::body::PduBody;

verus! {

/// Octets of a Comment body before its variable datum records.
pub const BASE_COMMENT_BODY_LENGTH: u16 = 20;

/// Octets of a variable datum record before its value.
pub const BASE_VARIABLE_DATUM_LENGTH: usize = 8;

/// Variable datum records are aligned to this many octets.
pub const EIGHT_OCTETS: usize = 8;

/// A variable datum as identifier and value.
pub type DatumView = (u32, Seq<u8>);

/// Octets that one variable datum record occupies, padding included.
pub open spec fn datum_record_len(d: DatumView) -> nat {
    padded_len(8 + d.1.len(), 8)
}

/// Octets that a list of variable datum records occupies.
pub open spec fn datums_len(s: Seq<DatumView>) -> nat
    decreases s.len(),
{
    if s.len() == 0 {
        0
    } else {
        datums_len(s.drop_last()) + datum_record_len(s.last())
    }
}

/// `n` zero octets.
pub open spec fn zeros(n: nat) -> Seq<u8> {
    Seq::new(n, |i: int| 0u8)
}

/// Wire form of one variable datum: identifier, length in bits, value, zero padding.
pub open spec fn datum_bytes(d: DatumView) -> Seq<u8> {
    be_u32(d.0) + be_u32((d.1.len() * 8) as u32) + d.1 + zeros(
        (datum_record_len(d) - (8 + d.1.len())) as nat,
    )
}

/// Wire form of a list of variable datum records, in order.
pub open spec fn datums_bytes(s: Seq<DatumView>) -> Seq<u8>
    decreases s.len(),
{
    if s.len() == 0 {
        Seq::empty()
    } else {
        datums_bytes(s.drop_last()) + datum_bytes(s.last())
    }
}

/// A Comment body as originator, receiver and variable datum records.
pub type CommentView = (EntityId, EntityId, Seq<DatumView>);

/// Octets of a Comment body on the wire.
pub open spec fn comment_body_len(c: CommentView) -> nat {
    20 + datums_len(c.2)
}

/// Wire form of a Comment body: no fixed datum records, then the variable ones.
pub open spec fn comment_bytes(c: CommentView) -> Seq<u8> {
    entity_id_bytes(c.0) + entity_id_bytes(c.1) + be_u32(0) + be_u32(c.2.len() as u32)
        + datums_bytes(c.2)
}

/// Reads one variable datum record at `pos`; the value length on the wire is in bits.
pub open spec fn parse_datum_spec(s: Seq<u8>, pos: nat) -> Option<(DatumView, nat)> {
    if pos + 8 > s.len() {
        None
    } else {
        let id = u32_at(s, pos as int);
        let n = (u32_at(s, pos + 4 as int) as nat + 7) / 8;
        let total = padded_len(8 + n, 8);
        if pos + total > s.len() {
            None
        } else {
            Some(((id, s.subrange(pos + 8 as int, (pos + 8 + n) as int)), pos + total))
        }
    }
}

/// Reads `count` variable datum records starting at `pos`.
pub open spec fn parse_datums_spec(s: Seq<u8>, pos: nat, count: nat) -> Option<(Seq<DatumView>, nat)>
    decreases count,
{
    if count == 0 {
        Some((Seq::empty(), pos))
    } else {
        match parse_datum_spec(s, pos) {
            None => None,
            Some((d, p)) => match parse_datums_spec(s, p, (count - 1) as nat) {
                None => None,
                Some((ds, q)) => Some((seq![d] + ds, q)),
            },
        }
    }
}

/// Reads a Comment body at the start of `s`; the count of fixed datum records is skipped.
pub open spec fn parse_comment_spec(s: Seq<u8>) -> Option<(CommentView, nat)> {
    if s.len() < 20 {
        None
    } else {
        match parse_datums_spec(s, 20, u32_at(s, 16) as nat) {
            None => None,
            Some((ds, p)) => Some(((entity_id_at(s, 0), entity_id_at(s, 6), ds), p)),
        }
    }
}

/// 5.6.5.13 / 7.5.13 Comment PDU: free-form data sent from one entity to another.
#[derive(Debug, PartialEq)]
pub struct Comment {
    pub originating_id: EntityId,
    pub receiving_id: EntityId,
    pub variable_datum_records: Vec<VariableDatum>,
}

/// The view of a list of variable datum records.
pub open spec fn datums_view(v: Seq<VariableDatum>) -> Seq<DatumView> {
    v.map_values(|d: VariableDatum| d@)
}

impl View for Comment {
    type V = CommentView;

    open spec fn view(&self) -> CommentView {
        (self.originating_id, self.receiving_id, datums_view(self.variable_datum_records@))
    }
}

/// Builds a Comment body field by field.
pub struct CommentBuilder {
    pub body: Comment,
}

impl CommentBuilder {
    pub fn new() -> (r: CommentBuilder)
        ensures
            r.body@ == (EntityId { site: 0, application: 0, entity: 0 }, EntityId {
                site: 0,
                application: 0,
                entity: 0,
            }, Seq::<DatumView>::empty()),
    {
        let r = CommentBuilder {
            body: Comment {
                originating_id: EntityId::new(0, 0, 0),
                receiving_id: EntityId::new(0, 0, 0),
                variable_datum_records: Vec::new(),
            },
        };
        assert(r.body@.2 =~= Seq::<DatumView>::empty());
        r
    }

    pub fn new_from_body(body: Comment) -> (r: CommentBuilder)
        ensures
            r.body@ == body@,
    {
        CommentBuilder { body }
    }

    pub fn with_origin_id(self, originating_id: EntityId) -> (r: CommentBuilder)
        ensures
            r.body@ == (originating_id, self.body@.1, self.body@.2),
    {
        let mut s = self;
        s.body.originating_id = originating_id;
        s
    }

    pub fn with_receiver_id(self, receiving_id: EntityId) -> (r: CommentBuilder)
        ensures
            r.body@ == (self.body@.0, receiving_id, self.body@.2),
    {
        let mut s = self;
        s.body.receiving_id = receiving_id;
        s
    }

    pub fn with_variable_datum(self, datum: VariableDatum) -> (r: CommentBuilder)
        ensures
            r.body@ == (self.body@.0, self.body@.1, self.body@.2.push(datum@)),
    {
        let mut s = self;
        let ghost old_records = s.body.variable_datum_records@;
        s.body.variable_datum_records.push(datum);
        assert(datums_view(s.body.variable_datum_records@) =~= datums_view(old_records).push(datum@));
        s
    }

    pub fn build(self) -> (r: Comment)
        ensures
            r@ == self.body@,
    {
        self.body
    }
}

impl Default for Comment {
    fn default() -> (r: Comment)
        ensures
            r@ == (EntityId { site: 0, application: 0, entity: 0 }, EntityId {
                site: 0,
                application: 0,
                entity: 0,
            }, Seq::<DatumView>::empty()),
    {
        CommentBuilder::new().build()
    }
}

impl Comment {
    /// The body fits in a PDU: its length is representable in 16 bits.
    pub open spec fn wf(&self) -> bool {
        comment_body_len(self@) <= u16::MAX
    }

    pub fn builder() -> (r: CommentBuilder)
        ensures
            r.body@ == (EntityId { site: 0, application: 0, entity: 0 }, EntityId {
                site: 0,
                application: 0,
                entity: 0,
            }, Seq::<DatumView>::empty()),
    {
        CommentBuilder::new()
    }

    pub fn into_builder(self) -> (r: CommentBuilder)
        ensures
            r.body@ == self@,
    {
        CommentBuilder::new_from_body(self)
    }

    pub fn into_pdu_body(self) -> (r: PduBody)
        ensures
            r == PduBody::Comment(self),
    {
        PduBody::Comment(self)
    }

    pub fn body_type(&self) -> (r: PduType)
        ensures
            r == PduType::Comment,
    {
        PduType::Comment
    }

    pub fn originator(&self) -> (r: Option<&EntityId>)
        ensures
            r == Some(&self.originating_id),
    {
        Some(&self.originating_id)
    }

    pub fn receiver(&self) -> (r: Option<&EntityId>)
        ensures
            r == Some(&self.receiving_id),
    {
        Some(&self.receiving_id)
    }
}


/// The wire form of a datum has the length that its record claims.
pub proof fn lemma_datum_bytes_len(d: DatumView)
    ensures
        datum_bytes(d).len() == datum_record_len(d),
        datum_record_len(d) >= 8 + d.1.len(),
        datum_record_len(d) % 8 == 0,
{
    lemma_padded_len_aligned(8 + d.1.len(), 8);
}

pub proof fn lemma_datums_bytes_len(s: Seq<DatumView>)
    ensures
        datums_bytes(s).len() == datums_len(s),
        datums_len(s) >= 8 * s.len(),
    decreases s.len(),
{
    if s.len() > 0 {
        lemma_datums_bytes_len(s.drop_last());
        lemma_datum_bytes_len(s.last());
    }
}

pub proof fn lemma_datums_len_prefix(s: Seq<DatumView>, i: int, j: int)
    requires
        0 <= i <= j <= s.len(),
    ensures
        datums_len(s.take(i)) <= datums_len(s.take(j)),
    decreases j - i,
{
    if i < j {
        assert(s.take(j).drop_last() =~= s.take(j - 1));
        lemma_datums_len_prefix(s, i, j - 1);
    }
}

/// One more record appends its wire form.
pub proof fn lemma_datums_take_step(s: Seq<DatumView>, i: int)
    requires
        0 <= i < s.len(),
    ensures
        datums_bytes(s.take(i + 1)) == datums_bytes(s.take(i)) + datum_bytes(s[i]),
        datums_len(s.take(i + 1)) == datums_len(s.take(i)) + datum_record_len(s[i]),
{
    assert(s.take(i + 1).drop_last() =~= s.take(i));
}

/// The wire form of a list starts with that of its first record.
pub proof fn lemma_datums_bytes_front(ds: Seq<DatumView>)
    requires
        ds.len() > 0,
    ensures
        datums_bytes(ds) == datum_bytes(ds[0]) + datums_bytes(ds.drop_first()),
        datums_len(ds) == datum_record_len(ds[0]) + datums_len(ds.drop_first()),
    decreases ds.len(),
{
    if ds.len() == 1 {
        assert(ds.drop_last() =~= Seq::<DatumView>::empty());
        assert(ds.drop_first() =~= Seq::<DatumView>::empty());
        assert(datums_bytes(ds) =~= datum_bytes(ds[0]) + datums_bytes(ds.drop_first()));
    } else {
        lemma_datums_bytes_front(ds.drop_last());
        assert(ds.drop_first().drop_last() =~= ds.drop_last().drop_first());
        assert(ds.drop_first().last() == ds.last());
        assert(ds.drop_last()[0] == ds[0]);
        assert(datums_bytes(ds) =~= datum_bytes(ds[0]) + datums_bytes(ds.drop_first()));
    }
}

/// A datum written at `pos` reads back unchanged.
pub proof fn lemma_parse_datum_round_trip(s: Seq<u8>, pos: nat, d: DatumView)
    requires
        d.1.len() * 8 <= u32::MAX,
        pos + datum_record_len(d) <= s.len(),
        s.subrange(pos as int, (pos + datum_record_len(d)) as int) == datum_bytes(d),
    ensures
        parse_datum_spec(s, pos) == Some((d, pos + datum_record_len(d))),
{
    let b = datum_bytes(d);
    let n = d.1.len();
    lemma_datum_bytes_len(d);
    assert(s.subrange(pos as int, pos + 4 as int) =~= b.subrange(0, 4));
    assert(b.subrange(0, 4) =~= be_u32(d.0));
    lemma_u32_at_be(s, pos as int, d.0);
    assert(s.subrange(pos + 4 as int, pos + 8 as int) =~= b.subrange(4, 8));
    assert(b.subrange(4, 8) =~= be_u32((n * 8) as u32));
    lemma_u32_at_be(s, pos + 4 as int, (n * 8) as u32);
    vstd::arithmetic::div_mod::lemma_div_multiples_vanish_fancy(n as int, 7, 8);
    assert((8 * n + 7) / 8 == n);
    assert(s.subrange(pos + 8 as int, (pos + 8 + n) as int) =~= d.1) by {
        assert forall|k: int| 0 <= k < n implies s.subrange(pos + 8 as int, (pos + 8 + n) as int)[k] == d.1[k] by {
            assert(s[pos + 8 + k] == s.subrange(pos as int, (pos + datum_record_len(d)) as int)[8 + k]);
            assert(b[8 + k] == d.1[k]);
        }
    }
}

/// Records written one after another at `pos` read back unchanged.
pub proof fn lemma_parse_datums_round_trip(s: Seq<u8>, pos: nat, ds: Seq<DatumView>)
    requires
        datums_len(ds) <= u16::MAX,
        pos + datums_len(ds) <= s.len(),
        s.subrange(pos as int, (pos + datums_len(ds)) as int) == datums_bytes(ds),
    ensures
        parse_datums_spec(s, pos, ds.len()) == Some((ds, pos + datums_len(ds))),
    decreases ds.len(),
{
    if ds.len() > 0 {
        lemma_datums_bytes_front(ds);
        lemma_datum_bytes_len(ds[0]);
        lemma_datums_bytes_len(ds);
        lemma_datums_bytes_len(ds.drop_first());
        let r0 = datum_record_len(ds[0]);
        let whole = s.subrange(pos as int, (pos + datums_len(ds)) as int);
        assert(s.subrange(pos as int, (pos + r0) as int) =~= whole.subrange(0, r0 as int));
        assert(whole.subrange(0, r0 as int) =~= datum_bytes(ds[0]));
        lemma_parse_datum_round_trip(s, pos, ds[0]);
        assert(s.subrange((pos + r0) as int, (pos + datums_len(ds)) as int) =~= whole.subrange(r0 as int, datums_len(ds) as int));
        assert(whole.subrange(r0 as int, datums_len(ds) as int) =~= datums_bytes(ds.drop_first()));
        lemma_parse_datums_round_trip(s, pos + r0, ds.drop_first());
        assert(seq![ds[0]] + ds.drop_first() =~= ds);
    }
}

/// Reading back a written Comment body gives the same body and consumes exactly its octets,
/// whatever follows it.
pub proof fn lemma_comment_round_trip(c: CommentView, rest: Seq<u8>)
    requires
        comment_body_len(c) <= u16::MAX,
    ensures
        comment_bytes(c).len() == comment_body_len(c),
        parse_comment_spec(comment_bytes(c) + rest) == Some((c, comment_body_len(c))),
{
    let b = comment_bytes(c);
    let s = b + rest;
    lemma_datums_bytes_len(c.2);
    assert(c.2.len() as u32 == c.2.len());
    assert(s.subrange(0, 6) =~= entity_id_bytes(c.0));
    lemma_entity_id_at_bytes(s, 0, c.0);
    assert(s.subrange(6, 12) =~= entity_id_bytes(c.1));
    lemma_entity_id_at_bytes(s, 6, c.1);
    assert(s.subrange(16, 20) =~= be_u32(c.2.len() as u32));
    lemma_u32_at_be(s, 16, c.2.len() as u32);
    assert(s.subrange(20, (20 + datums_len(c.2)) as int) =~= datums_bytes(c.2));
    lemma_parse_datums_round_trip(s, 20, c.2);
}

/// Appends the wire form of one variable datum record.
pub fn serialize_variable_datum(d: &VariableDatum, buf: &mut BytesMut) -> (r: u16)
    requires
        datum_record_len(d@) <= u16::MAX,
        buffer_contents(*old(buf)).len() + datum_record_len(d@) <= MAX_BUFFER_LEN,
    ensures
        buffer_contents(*final(buf)) == buffer_contents(*old(buf)) + datum_bytes(d@),
        r == datum_record_len(d@),
{
    proof {
        lemma_datum_bytes_len(d@);
    }
    let ghost start = buffer_contents(*buf);
    let n = d.datum_value.len();
    let lengths = length_padded_to_num(BASE_VARIABLE_DATUM_LENGTH + n, EIGHT_OCTETS);
    put_u32(buf, d.variable_datum_id);
    put_u32(buf, (n * 8) as u32);
    put_slice(buf, d.datum_value.as_slice());
    let ghost written = buffer_contents(*buf);
    let mut k: usize = 0;
    while k < lengths.padding_length
        invariant
            k <= lengths.padding_length,
            lengths.record_length == datum_record_len(d@),
            lengths.record_length == 8 + n + lengths.padding_length,
            start.len() + datum_record_len(d@) <= MAX_BUFFER_LEN,
            written.len() == start.len() + 8 + n,
            buffer_contents(*buf) == written + zeros(k as nat),
        decreases lengths.padding_length - k,
    {
        put_u8(buf, 0);
        assert(zeros(k as nat).push(0u8) =~= zeros((k + 1) as nat));
        k = k + 1;
    }
    assert(buffer_contents(*buf) =~= start + datum_bytes(d@));
    lengths.record_length as u16
}

/// Reads one variable datum record at `pos`, with the position after its padding.
pub fn parse_variable_datum(s: &[u8], pos: usize) -> (r: Result<(VariableDatum, usize), ParseError>)
    requires
        pos <= s@.len(),
    ensures
        match parse_datum_spec(s@, pos as nat) {
            Some((d, p)) => r matches Ok((v, q)) && v@ == d && q == p,
            None => r == Err::<(VariableDatum, usize), ParseError>(ParseError::Truncated),
        },
{
    let len = s.len();
    if len - pos < 8 {
        return Err(ParseError::Truncated);
    }
    let id = read_u32(s, pos);
    let bits = read_u32(s, pos + 4);
    let n: usize = ((bits as u64 + 7) / 8) as usize;
    let lengths = length_padded_to_num(BASE_VARIABLE_DATUM_LENGTH + n, EIGHT_OCTETS);
    if lengths.record_length > len - pos {
        return Err(ParseError::Truncated);
    }
    let start = pos + 8;
    let mut value: Vec<u8> = Vec::new();
    let mut k: usize = 0;
    while k < n
        invariant
            k <= n,
            start + n <= len,
            len == s@.len(),
            value@ == s@.subrange(start as int, start + k),
        decreases n - k,
    {
        value.push(s[start + k]);
        assert(value@ =~= s@.subrange(start as int, start + k + 1));
        k = k + 1;
    }
    Ok((VariableDatum { variable_datum_id: id, datum_value: value }, pos + lengths.record_length))
}

impl Comment {
    /// Octets of this body on the wire.
    pub fn body_length(&self) -> (r: u16)
        requires
            self.wf(),
        ensures
            r == comment_body_len(self@),
    {
        let ghost v = self@.2;
        let mut total: u16 = BASE_COMMENT_BODY_LENGTH;
        let mut i: usize = 0;
        while i < self.variable_datum_records.len()
            invariant
                i <= v.len(),
                v.len() == self.variable_datum_records@.len(),
                v == self@.2,
                20 + datums_len(v) <= u16::MAX,
                total == 20 + datums_len(v.take(i as int)),
            decreases v.len() - i,
        {
            proof {
                lemma_datums_take_step(v, i as int);
                lemma_datums_len_prefix(v, i + 1, v.len() as int);
                assert(v.take(v.len() as int) =~= v);
                lemma_datum_bytes_len(v[i as int]);
            }
            let n = self.variable_datum_records[i].datum_value.len();
            let lengths = length_padded_to_num(BASE_VARIABLE_DATUM_LENGTH + n, EIGHT_OCTETS);
            total = total + lengths.record_length as u16;
            i = i + 1;
        }
        assert(v.take(v.len() as int) =~= v);
        total
    }

    /// Appends the wire form of this body and returns the number of octets written.
    pub fn serialize(&self, buf: &mut BytesMut) -> (r: u16)
        requires
            self.wf(),
            buffer_contents(*old(buf)).len() + comment_body_len(self@) <= MAX_BUFFER_LEN,
        ensures
            buffer_contents(*final(buf)) == buffer_contents(*old(buf)) + comment_bytes(self@),
            r == comment_body_len(self@),
    {
        let ghost start = buffer_contents(*buf);
        let ghost v = self@.2;
        proof {
            lemma_datums_bytes_len(v);
        }
        let originating = serialize_entity_id(&self.originating_id, buf);
        let receiving = serialize_entity_id(&self.receiving_id, buf);
        put_u32(buf, 0);
        put_u32(buf, self.variable_datum_records.len() as u32);
        let ghost header = buffer_contents(*buf);
        assert(header =~= start + entity_id_bytes(self.originating_id) + entity_id_bytes(
            self.receiving_id,
        ) + be_u32(0) + be_u32(v.len() as u32));
        let mut total: u16 = originating + receiving + 8;
        let mut i: usize = 0;
        while i < self.variable_datum_records.len()
            invariant
                i <= v.len(),
                v.len() == self.variable_datum_records@.len(),
                v == self@.2,
                20 + datums_len(v) <= u16::MAX,
                start.len() + 20 + datums_len(v) <= MAX_BUFFER_LEN,
                header.len() == start.len() + 20,
                total == 20 + datums_len(v.take(i as int)),
                buffer_contents(*buf) == header + datums_bytes(v.take(i as int)),
            decreases v.len() - i,
        {
            proof {
                lemma_datums_take_step(v, i as int);
                lemma_datums_len_prefix(v, i + 1, v.len() as int);
                assert(v.take(v.len() as int) =~= v);
                lemma_datums_bytes_len(v.take(i as int));
            }
            let written = serialize_variable_datum(&self.variable_datum_records[i], buf);
            total = total + written;
            i = i + 1;
            assert(buffer_contents(*buf) =~= header + datums_bytes(v.take(i as int)));
        }
        assert(v.take(v.len() as int) =~= v);
        assert(buffer_contents(*buf) =~= start + comment_bytes(self@));
        total
    }

    /// Reads a Comment body at the start of `s`, with the number of octets it took.
    pub fn parse(s: &[u8]) -> (r: Result<(Comment, usize), ParseError>)
        ensures
            match parse_comment_spec(s@) {
                Some((c, n)) => r matches Ok((body, m)) && body@ == c && m == n,
                None => r == Err::<(Comment, usize), ParseError>(ParseError::Truncated),
            },
    {
        let len = s.len();
        if len < 20 {
            return Err(ParseError::Truncated);
        }
        let originating_id = read_entity_id(s, 0);
        let receiving_id = read_entity_id(s, 6);
        let count = read_u32(s, 16);
        let ghost whole = parse_datums_spec(s@, 20, count as nat);
        assert(count == u32_at(s@, 16));
        assert(whole == parse_datums_spec(s@, 20, u32_at(s@, 16) as nat));
        let mut records: Vec<VariableDatum> = Vec::new();
        let mut pos: usize = 20;
        let mut i: u32 = 0;
        while i < count
            invariant
                i <= count,
                pos <= len,
                len == s@.len(),
                whole == parse_datums_spec(s@, 20, count as nat),
                count == u32_at(s@, 16),
                len >= 20,
                whole == match parse_datums_spec(s@, pos as nat, (count - i) as nat) {
                    Some((ds, p)) => Some((datums_view(records@) + ds, p)),
                    None => None,
                },
            decreases count - i,
        {
            match parse_variable_datum(s, pos) {
                Ok((d, next)) => {
                    let ghost before = records@;
                    records.push(d);
                    assert(datums_view(records@) =~= datums_view(before).push(d@));
                    proof {
                        match parse_datums_spec(s@, next as nat, (count - i - 1) as nat) {
                            Some((ds, p)) => {
                                assert(datums_view(before) + (seq![d@] + ds) =~= datums_view(
                                    records@,
                                ) + ds);
                            },
                            None => {},
                        }
                    }
                    pos = next;
                    i = i + 1;
                },
                Err(e) => {
                    assert(parse_datums_spec(s@, pos as nat, (count - i) as nat) is None);
                    return Err(e);
                },
            }
        }
        assert(datums_view(records@) + Seq::<DatumView>::empty() =~= datums_view(records@));
        Ok((Comment { originating_id, receiving_id, variable_datum_records: records }, pos))
    }
}

} // verus!
