use vstd::prelude::*;
use crate::model::EntityId;
use crate::enumerations::{ReceiverState, receiver_state_of, receiver_state_value};
use crate::receiver::Receiver as DisReceiver;
use crate::bit_buffer::{
    BitBuffer, BIT_BUFFER_BITS, bit_buffer_contents, bit_buffer_wf, be_bits, bits_value, spliced,
    write_bits, read_bits, lemma_be_bits_len, lemma_read_after_write, lemma_spliced_twice,
    lemma_be_bits_of_value, lemma_bits_value_bound, lemma_spliced_same,
};
use vstd::arithmetic::power2::{pow2, lemma2_to64};
use crate::float_bits::{
    f32_to_i16_rounded, i16_to_f32, f32_bits_to_i16_rounded, i16_to_f32_bits,
    lemma_i16_f32_round_trip, lemma_rounding_within_half, f32_is_finite, f32_scale,
    f32_significand, rounded_magnitude, rounded_value,
};

verus! {

/// Width on the wire of a C-DIS UVINT16: a one-bit flag selects 8 or 16 bits.
#[derive(Clone, Copy, Debug, PartialEq, Eq, Structural)]
pub enum Uvint16BitSize {
    Eight,
    Sixteen,
}

/// A C-DIS unsigned variable-width 16-bit integer: the value and the width chosen for it.
#[derive(Clone, Copy, Debug, PartialEq, Eq, Structural)]
pub struct Uvint16 {
    pub bit_size: Uvint16BitSize,
    pub value: u16,
}

/// The narrowest width that holds `v`.
pub open spec fn uvint16_of(v: u16) -> Uvint16 {
    Uvint16 {
        bit_size: if v < 256 {
            Uvint16BitSize::Eight
        } else {
            Uvint16BitSize::Sixteen
        },
        value: v,
    }
}

impl Uvint16 {
    /// Chooses the narrowest width for `value`.
    pub fn from(value: u16) -> (r: Uvint16)
        ensures
            r == uvint16_of(value),
    {
        let bit_size = if value < 256 {
            Uvint16BitSize::Eight
        } else {
            Uvint16BitSize::Sixteen
        };
        Uvint16 { bit_size, value }
    }
}

/// A C-DIS entity identifier: three UVINT16 values.
#[derive(Clone, Copy, Debug, PartialEq, Eq, Structural)]
pub struct CdisEntityId {
    pub site: Uvint16,
    pub application: Uvint16,
    pub entity: Uvint16,
}

pub open spec fn cdis_entity_id_of(e: EntityId) -> CdisEntityId {
    CdisEntityId {
        site: uvint16_of(e.site),
        application: uvint16_of(e.application),
        entity: uvint16_of(e.entity),
    }
}

pub open spec fn dis_entity_id_of(c: CdisEntityId) -> EntityId {
    EntityId { site: c.site.value, application: c.application.value, entity: c.entity.value }
}

impl CdisEntityId {
    pub fn encode(item: &EntityId) -> (r: CdisEntityId)
        ensures
            r == cdis_entity_id_of(*item),
    {
        CdisEntityId {
            site: Uvint16::from(item.site),
            application: Uvint16::from(item.application),
            entity: Uvint16::from(item.entity),
        }
    }

    pub fn decode(&self) -> (r: EntityId)
        ensures
            r == dis_entity_id_of(*self),
    {
        EntityId::new(self.site.value, self.application.value, self.entity.value)
    }
}

/// The C-DIS form of a Receiver PDU. The received power is a 16-bit integer.
#[derive(Clone, Copy, Debug, PartialEq, Eq, Structural)]
pub struct Receiver {
    pub radio_reference_id: CdisEntityId,
    pub radio_number: Uvint16,
    pub receiver_state: ReceiverState,
    pub received_power: i16,
    pub transmitter_radio_reference_id: CdisEntityId,
    pub transmitter_radio_number: Uvint16,
}

/// Translation of a DIS Receiver: widths chosen narrowest, power rounded to an integer.
pub open spec fn cdis_receiver_of(d: DisReceiver) -> Receiver {
    Receiver {
        radio_reference_id: cdis_entity_id_of(d.radio_reference_id),
        radio_number: uvint16_of(d.radio_number),
        receiver_state: d.receiver_state,
        received_power: f32_to_i16_rounded(d.received_power),
        transmitter_radio_reference_id: cdis_entity_id_of(d.transmitter_radio_reference_id),
        transmitter_radio_number: uvint16_of(d.transmitter_radio_number),
    }
}

/// Translation of a C-DIS Receiver back to DIS: the power widened to single precision.
pub open spec fn dis_receiver_of(c: Receiver) -> DisReceiver {
    DisReceiver {
        radio_reference_id: dis_entity_id_of(c.radio_reference_id),
        radio_number: c.radio_number.value,
        receiver_state: c.receiver_state,
        received_power: i16_to_f32(c.received_power),
        transmitter_radio_reference_id: dis_entity_id_of(c.transmitter_radio_reference_id),
        transmitter_radio_number: c.transmitter_radio_number.value,
    }
}

/// Every variable-width field has the narrowest width for its value.
pub open spec fn cdis_receiver_is_canonical(c: Receiver) -> bool {
    &&& c.radio_reference_id == cdis_entity_id_of(dis_entity_id_of(c.radio_reference_id))
    &&& c.radio_number == uvint16_of(c.radio_number.value)
    &&& c.transmitter_radio_reference_id == cdis_entity_id_of(
        dis_entity_id_of(c.transmitter_radio_reference_id),
    )
    &&& c.transmitter_radio_number == uvint16_of(c.transmitter_radio_number.value)
}

impl Receiver {
    pub fn encode(item: &DisReceiver) -> (r: Receiver)
        ensures
            r == cdis_receiver_of(*item),
    {
        Receiver {
            radio_reference_id: CdisEntityId::encode(&item.radio_reference_id),
            radio_number: Uvint16::from(item.radio_number),
            receiver_state: item.receiver_state,
            received_power: f32_bits_to_i16_rounded(item.received_power),
            transmitter_radio_reference_id: CdisEntityId::encode(&item.transmitter_radio_reference_id),
            transmitter_radio_number: Uvint16::from(item.transmitter_radio_number),
        }
    }

    pub fn decode(&self) -> (r: DisReceiver)
        ensures
            r == dis_receiver_of(*self),
    {
        DisReceiver::builder().with_radio_reference_id(self.radio_reference_id.decode()).with_radio_number(
            self.radio_number.value,
        ).with_receiver_state(self.receiver_state).with_received_power(
            i16_to_f32_bits(self.received_power),
        ).with_transmitter_radio_reference_id(
            self.transmitter_radio_reference_id.decode(),
        ).with_transmitter_radio_number(self.transmitter_radio_number.value).build()
    }
}

/// An entity identifier survives translation to C-DIS and back.
pub proof fn lemma_entity_id_translation(e: EntityId)
    ensures
        dis_entity_id_of(cdis_entity_id_of(e)) == e,
{
}

/// DIS to C-DIS and back keeps every Receiver field but the power, which comes back
/// rounded to the nearest integer (zero where it is not finite or does not fit 16 bits).
pub proof fn lemma_receiver_dis_translation(d: DisReceiver)
    ensures
        dis_receiver_of(cdis_receiver_of(d)) == (DisReceiver {
            received_power: i16_to_f32(f32_to_i16_rounded(d.received_power)),
            ..d
        }),
{
}

/// The power that comes back from C-DIS is exactly the integer carried there, which is
/// the original value rounded: it differs from the original by at most half a unit,
/// |significand / 2^d - |x|| <= 1/2 where 2^d divides the significand.
pub proof fn lemma_receiver_power_quantisation(d: DisReceiver)
    requires
        f32_is_finite(d.received_power),
        f32_scale(d.received_power) < 0,
        i16::MIN <= rounded_value(d.received_power) <= i16::MAX,
    ensures
        ({
            let x = cdis_receiver_of(d).received_power;
            let back = dis_receiver_of(cdis_receiver_of(d)).received_power;
            let p = d.received_power;
            let dv = pow2((-f32_scale(p)) as nat) as int;
            &&& x == rounded_value(p)
            &&& back == i16_to_f32(x)
            &&& f32_to_i16_rounded(back) == x
            &&& -dv <= 2 * (f32_significand(p) as int - rounded_magnitude(p) as int * dv) < dv
        }),
{
    lemma_i16_f32_round_trip(f32_to_i16_rounded(d.received_power));
    lemma_rounding_within_half(d.received_power);
}

/// C-DIS to DIS and back gives the same record when its widths are the narrowest ones,
/// which is what `encode` chooses.
pub proof fn lemma_receiver_cdis_translation(c: Receiver)
    requires
        cdis_receiver_is_canonical(c),
    ensures
        cdis_receiver_of(dis_receiver_of(c)) == c,
{
    lemma_i16_f32_round_trip(c.received_power);
}

/// Translating twice is translating once: what `encode` produces survives `decode` and
/// `encode` again.
pub proof fn lemma_receiver_translation_idempotent(d: DisReceiver)
    ensures
        cdis_receiver_of(dis_receiver_of(cdis_receiver_of(d))) == cdis_receiver_of(d),
{
    lemma_receiver_cdis_translation(cdis_receiver_of(d));
}

/// Writing `a` then `r` after it is the same as writing `r` first and `a` over the front.
pub proof fn lemma_spliced_front(s: Seq<bool>, c: int, a: Seq<bool>, r: Seq<bool>)
    requires
        0 <= c,
        c + a.len() + r.len() <= s.len(),
    ensures
        spliced(s, c, a + r) == spliced(spliced(s, c + a.len(), r), c, a),
        spliced(s, c, a + r) == spliced(spliced(s, c, a), c + a.len(), r),
{
    assert(spliced(s, c, a + r) =~= spliced(spliced(s, c + a.len(), r), c, a));
    lemma_spliced_twice(s, c, a, r);
}

/// Bits that a UVINT16 value occupies for each width.
pub open spec fn uvint16_width(size: Uvint16BitSize) -> nat {
    match size {
        Uvint16BitSize::Eight => 8,
        Uvint16BitSize::Sixteen => 16,
    }
}

/// The value fits the width chosen for it.
pub open spec fn uvint16_wf(u: Uvint16) -> bool {
    u.value < pow2(uvint16_width(u.bit_size))
}

/// C-DIS bit form of a UVINT16: a one-bit width flag, then the value.
pub open spec fn uvint16_bits(u: Uvint16) -> Seq<bool> {
    let flag: nat = match u.bit_size {
        Uvint16BitSize::Eight => 0,
        Uvint16BitSize::Sixteen => 1,
    };
    be_bits(flag, 1) + be_bits(u.value as nat, uvint16_width(u.bit_size))
}

/// Reads a UVINT16 at `c`, with the position after it.
pub open spec fn parse_uvint16_spec(s: Seq<bool>, c: int) -> (Uvint16, int) {
    if bits_value(s.subrange(c, c + 1)) == 0 {
        (Uvint16 { bit_size: Uvint16BitSize::Eight, value: bits_value(s.subrange(c + 1, c + 9)) as u16 }, c + 9)
    } else {
        (
            Uvint16 {
                bit_size: Uvint16BitSize::Sixteen,
                value: bits_value(s.subrange(c + 1, c + 17)) as u16,
            },
            c + 17,
        )
    }
}

/// Width on the wire of a C-DIS UVINT32: a two-bit flag selects 8, 16, 24 or 32 bits.
#[derive(Clone, Copy, Debug, PartialEq, Eq, Structural)]
pub enum Uvint32BitSize {
    Eight,
    Sixteen,
    TwentyFour,
    ThirtyTwo,
}

/// A C-DIS unsigned variable-width 32-bit integer: the value and the width chosen for it.
#[derive(Clone, Copy, Debug, PartialEq, Eq, Structural)]
pub struct Uvint32 {
    pub bit_size: Uvint32BitSize,
    pub value: u32,
}

pub open spec fn uvint32_flag(size: Uvint32BitSize) -> nat {
    match size {
        Uvint32BitSize::Eight => 0,
        Uvint32BitSize::Sixteen => 1,
        Uvint32BitSize::TwentyFour => 2,
        Uvint32BitSize::ThirtyTwo => 3,
    }
}

pub open spec fn uvint32_size_of_flag(flag: nat) -> Uvint32BitSize {
    if flag == 0 {
        Uvint32BitSize::Eight
    } else if flag == 1 {
        Uvint32BitSize::Sixteen
    } else if flag == 2 {
        Uvint32BitSize::TwentyFour
    } else {
        Uvint32BitSize::ThirtyTwo
    }
}

pub open spec fn uvint32_width(size: Uvint32BitSize) -> nat {
    8 * (uvint32_flag(size) + 1)
}

/// The narrowest width that holds `v`.
pub open spec fn uvint32_of(v: u32) -> Uvint32 {
    Uvint32 {
        bit_size: if v < 0x100 {
            Uvint32BitSize::Eight
        } else if v < 0x1_0000 {
            Uvint32BitSize::Sixteen
        } else if v < 0x100_0000 {
            Uvint32BitSize::TwentyFour
        } else {
            Uvint32BitSize::ThirtyTwo
        },
        value: v,
    }
}

/// The value fits the width chosen for it.
pub open spec fn uvint32_wf(u: Uvint32) -> bool {
    u.value < pow2(uvint32_width(u.bit_size))
}

/// C-DIS bit form of a UVINT32: a two-bit width flag, then the value.
pub open spec fn uvint32_bits(u: Uvint32) -> Seq<bool> {
    be_bits(uvint32_flag(u.bit_size), 2) + be_bits(u.value as nat, uvint32_width(u.bit_size))
}

/// Reads a UVINT32 at `c`, with the position after it.
pub open spec fn parse_uvint32_spec(s: Seq<bool>, c: int) -> (Uvint32, int) {
    let size = uvint32_size_of_flag(bits_value(s.subrange(c, c + 2)));
    let w = uvint32_width(size);
    (Uvint32 { bit_size: size, value: bits_value(s.subrange(c + 2, c + 2 + w)) as u32 }, c + 2 + w)
}

impl Uvint16 {
    /// Writes the C-DIS bit form at `cursor` and returns the cursor after it.
    pub fn serialize(&self, buf: &mut BitBuffer, cursor: usize) -> (r: usize)
        requires
            bit_buffer_wf(*old(buf)),
            cursor + uvint16_bits(*self).len() <= BIT_BUFFER_BITS,
        ensures
            bit_buffer_wf(*final(buf)),
            bit_buffer_contents(*final(buf)) == spliced(
                bit_buffer_contents(*old(buf)),
                cursor as int,
                uvint16_bits(*self),
            ),
            r == cursor + uvint16_bits(*self).len(),
    {
        let ghost start = bit_buffer_contents(*buf);
        let (flag, width): (u32, usize) = match self.bit_size {
            Uvint16BitSize::Eight => (0, 8),
            Uvint16BitSize::Sixteen => (1, 16),
        };
        proof {
            lemma_uvint16_bits_len(*self);
        }
        let c = write_bits(buf, cursor, 1, flag);
        let c = write_bits(buf, c, width, self.value as u32);
        proof {
            lemma_be_bits_len(flag as nat, 1);
            lemma_be_bits_len(self.value as nat, width as nat);
            lemma_spliced_twice(start, cursor as int, be_bits(flag as nat, 1), be_bits(self.value as nat, width as nat));
        }
        c
    }

    /// Reads a UVINT16 in C-DIS bit form at `cursor`, with the cursor after it.
    pub fn parse(buf: &BitBuffer, cursor: usize) -> (r: (Uvint16, usize))
        requires
            bit_buffer_wf(*buf),
            parse_uvint16_spec(bit_buffer_contents(*buf), cursor as int).1 <= BIT_BUFFER_BITS,
        ensures
            r.0 == parse_uvint16_spec(bit_buffer_contents(*buf), cursor as int).0,
            r.1 == parse_uvint16_spec(bit_buffer_contents(*buf), cursor as int).1,
    {
        let flag = read_bits(buf, cursor, 1);
        if flag == 0 {
            let value = read_bits(buf, cursor + 1, 8);
            (Uvint16 { bit_size: Uvint16BitSize::Eight, value: value as u16 }, cursor + 9)
        } else {
            let value = read_bits(buf, cursor + 1, 16);
            (Uvint16 { bit_size: Uvint16BitSize::Sixteen, value: value as u16 }, cursor + 17)
        }
    }
}

pub proof fn lemma_uvint16_bits_len(u: Uvint16)
    ensures
        uvint16_bits(u).len() == 1 + uvint16_width(u.bit_size),
        uvint16_bits(u).len() <= 17,
{
    lemma_be_bits_len(if u.bit_size == Uvint16BitSize::Eight { 0 } else { 1 }, 1);
    lemma_be_bits_len(u.value as nat, uvint16_width(u.bit_size));
}

/// A UVINT16 written at `c` reads back unchanged.
pub proof fn lemma_uvint16_round_trip(s: Seq<bool>, c: int, u: Uvint16)
    requires
        uvint16_wf(u),
        0 <= c,
        c + uvint16_bits(u).len() <= s.len(),
    ensures
        parse_uvint16_spec(spliced(s, c, uvint16_bits(u)), c) == (u, c + uvint16_bits(u).len()),
{
    lemma2_to64();
    lemma_uvint16_bits_len(u);
    let flag: nat = if u.bit_size == Uvint16BitSize::Eight { 0 } else { 1 };
    let a = be_bits(flag, 1);
    let b = be_bits(u.value as nat, uvint16_width(u.bit_size));
    lemma_be_bits_len(flag, 1);
    lemma_spliced_front(s, c, a, b);
    lemma_read_after_write(spliced(s, c + 1, b), c, flag, 1);
    lemma_read_after_write(spliced(s, c, a), c + 1, u.value as nat, uvint16_width(u.bit_size));
}

impl Uvint32 {
    /// Chooses the narrowest width for `value`.
    pub fn from(value: u32) -> (r: Uvint32)
        ensures
            r == uvint32_of(value),
    {
        let bit_size = if value < 0x100 {
            Uvint32BitSize::Eight
        } else if value < 0x1_0000 {
            Uvint32BitSize::Sixteen
        } else if value < 0x100_0000 {
            Uvint32BitSize::TwentyFour
        } else {
            Uvint32BitSize::ThirtyTwo
        };
        Uvint32 { bit_size, value }
    }

    /// Writes the C-DIS bit form at `cursor` and returns the cursor after it.
    pub fn serialize(&self, buf: &mut BitBuffer, cursor: usize) -> (r: usize)
        requires
            bit_buffer_wf(*old(buf)),
            cursor + uvint32_bits(*self).len() <= BIT_BUFFER_BITS,
        ensures
            bit_buffer_wf(*final(buf)),
            bit_buffer_contents(*final(buf)) == spliced(
                bit_buffer_contents(*old(buf)),
                cursor as int,
                uvint32_bits(*self),
            ),
            r == cursor + uvint32_bits(*self).len(),
    {
        let ghost start = bit_buffer_contents(*buf);
        let (flag, width): (u32, usize) = match self.bit_size {
            Uvint32BitSize::Eight => (0, 8),
            Uvint32BitSize::Sixteen => (1, 16),
            Uvint32BitSize::TwentyFour => (2, 24),
            Uvint32BitSize::ThirtyTwo => (3, 32),
        };
        proof {
            lemma_uvint32_bits_len(*self);
        }
        let c = write_bits(buf, cursor, 2, flag);
        let c = write_bits(buf, c, width, self.value);
        proof {
            lemma_be_bits_len(flag as nat, 2);
            lemma_be_bits_len(self.value as nat, width as nat);
            lemma_spliced_twice(start, cursor as int, be_bits(flag as nat, 2), be_bits(self.value as nat, width as nat));
        }
        c
    }

    /// Reads a UVINT32 in C-DIS bit form at `cursor`, with the cursor after it.
    pub fn parse(buf: &BitBuffer, cursor: usize) -> (r: (Uvint32, usize))
        requires
            bit_buffer_wf(*buf),
            parse_uvint32_spec(bit_buffer_contents(*buf), cursor as int).1 <= BIT_BUFFER_BITS,
        ensures
            r.0 == parse_uvint32_spec(bit_buffer_contents(*buf), cursor as int).0,
            r.1 == parse_uvint32_spec(bit_buffer_contents(*buf), cursor as int).1,
    {
        let flag = read_bits(buf, cursor, 2);
        let (bit_size, width): (Uvint32BitSize, usize) = if flag == 0 {
            (Uvint32BitSize::Eight, 8)
        } else if flag == 1 {
            (Uvint32BitSize::Sixteen, 16)
        } else if flag == 2 {
            (Uvint32BitSize::TwentyFour, 24)
        } else {
            (Uvint32BitSize::ThirtyTwo, 32)
        };
        let value = read_bits(buf, cursor + 2, width);
        (Uvint32 { bit_size, value }, cursor + 2 + width)
    }
}

pub proof fn lemma_uvint32_bits_len(u: Uvint32)
    ensures
        uvint32_bits(u).len() == 2 + uvint32_width(u.bit_size),
        uvint32_bits(u).len() <= 34,
{
    lemma_be_bits_len(uvint32_flag(u.bit_size), 2);
    lemma_be_bits_len(u.value as nat, uvint32_width(u.bit_size));
}

/// A UVINT32 written at `c` reads back unchanged.
pub proof fn lemma_uvint32_round_trip(s: Seq<bool>, c: int, u: Uvint32)
    requires
        uvint32_wf(u),
        0 <= c,
        c + uvint32_bits(u).len() <= s.len(),
    ensures
        parse_uvint32_spec(spliced(s, c, uvint32_bits(u)), c) == (u, c + uvint32_bits(u).len()),
{
    lemma2_to64();
    lemma_uvint32_bits_len(u);
    let flag = uvint32_flag(u.bit_size);
    let a = be_bits(flag, 2);
    let b = be_bits(u.value as nat, uvint32_width(u.bit_size));
    lemma_be_bits_len(flag, 2);
    lemma_spliced_front(s, c, a, b);
    lemma_read_after_write(spliced(s, c + 2, b), c, flag, 2);
    lemma_read_after_write(spliced(s, c, a), c + 2, u.value as nat, uvint32_width(u.bit_size));
}

/// A UVINT16 written at `c` in front of more bits reads back unchanged.
pub proof fn lemma_uvint16_prefix(s: Seq<bool>, c: int, u: Uvint16, rest: Seq<bool>)
    requires
        uvint16_wf(u),
        0 <= c,
        c + uvint16_bits(u).len() + rest.len() <= s.len(),
    ensures
        parse_uvint16_spec(spliced(s, c, uvint16_bits(u) + rest), c) == (u, c + uvint16_bits(u).len()),
        spliced(s, c, uvint16_bits(u) + rest) == spliced(
            spliced(s, c, uvint16_bits(u)),
            c + uvint16_bits(u).len(),
            rest,
        ),
{
    let a = uvint16_bits(u);
    lemma_spliced_front(s, c, a, rest);
    lemma_uvint16_round_trip(spliced(s, c + a.len(), rest), c, u);
}

/// C-DIS bit form of an entity identifier.
pub open spec fn cdis_entity_id_bits(e: CdisEntityId) -> Seq<bool> {
    uvint16_bits(e.site) + uvint16_bits(e.application) + uvint16_bits(e.entity)
}

pub open spec fn cdis_entity_id_wf(e: CdisEntityId) -> bool {
    uvint16_wf(e.site) && uvint16_wf(e.application) && uvint16_wf(e.entity)
}

/// Reads a C-DIS entity identifier at `c`, with the position after it.
pub open spec fn parse_cdis_entity_id_spec(s: Seq<bool>, c: int) -> (CdisEntityId, int) {
    let (site, c1) = parse_uvint16_spec(s, c);
    let (application, c2) = parse_uvint16_spec(s, c1);
    let (entity, c3) = parse_uvint16_spec(s, c2);
    (CdisEntityId { site, application, entity }, c3)
}

/// An entity identifier written at `c` in front of more bits reads back unchanged.
pub proof fn lemma_cdis_entity_id_prefix(s: Seq<bool>, c: int, e: CdisEntityId, rest: Seq<bool>)
    requires
        cdis_entity_id_wf(e),
        0 <= c,
        c + cdis_entity_id_bits(e).len() + rest.len() <= s.len(),
    ensures
        parse_cdis_entity_id_spec(spliced(s, c, cdis_entity_id_bits(e) + rest), c) == (
            e,
            c + cdis_entity_id_bits(e).len(),
        ),
        spliced(s, c, cdis_entity_id_bits(e) + rest) == spliced(
            spliced(s, c, cdis_entity_id_bits(e)),
            c + cdis_entity_id_bits(e).len(),
            rest,
        ),
{
    let a1 = uvint16_bits(e.site);
    let a2 = uvint16_bits(e.application);
    let a3 = uvint16_bits(e.entity);
    let whole = cdis_entity_id_bits(e) + rest;
    assert(whole =~= a1 + (a2 + (a3 + rest)));
    lemma_uvint16_prefix(s, c, e.site, a2 + (a3 + rest));
    let s1 = spliced(s, c, a1);
    lemma_uvint16_prefix(s1, c + a1.len(), e.application, a3 + rest);
    let s2 = spliced(s1, c + a1.len(), a2);
    lemma_uvint16_prefix(s2, c + a1.len() + a2.len(), e.entity, rest);
    lemma_spliced_front(s, c, cdis_entity_id_bits(e), rest);
}

pub proof fn lemma_cdis_entity_id_bits_len(e: CdisEntityId)
    ensures
        cdis_entity_id_bits(e).len() <= 51,
{
    lemma_uvint16_bits_len(e.site);
    lemma_uvint16_bits_len(e.application);
    lemma_uvint16_bits_len(e.entity);
}

impl CdisEntityId {
    /// Writes the C-DIS bit form at `cursor` and returns the cursor after it.
    pub fn serialize(&self, buf: &mut BitBuffer, cursor: usize) -> (r: usize)
        requires
            bit_buffer_wf(*old(buf)),
            cursor + cdis_entity_id_bits(*self).len() <= BIT_BUFFER_BITS,
        ensures
            bit_buffer_wf(*final(buf)),
            bit_buffer_contents(*final(buf)) == spliced(
                bit_buffer_contents(*old(buf)),
                cursor as int,
                cdis_entity_id_bits(*self),
            ),
            r == cursor + cdis_entity_id_bits(*self).len(),
    {
        let ghost start = bit_buffer_contents(*buf);
        proof {
            lemma_uvint16_bits_len(self.site);
            lemma_uvint16_bits_len(self.application);
            lemma_uvint16_bits_len(self.entity);
        }
        let c = self.site.serialize(buf, cursor);
        let c = self.application.serialize(buf, c);
        let c = self.entity.serialize(buf, c);
        proof {
            let a1 = uvint16_bits(self.site);
            let a2 = uvint16_bits(self.application);
            let a3 = uvint16_bits(self.entity);
            lemma_spliced_twice(start, cursor as int, a1, a2);
            lemma_spliced_twice(start, cursor as int, a1 + a2, a3);
        }
        c
    }

    /// Reads an entity identifier in C-DIS bit form at `cursor`, with the cursor after it.
    pub fn parse(buf: &BitBuffer, cursor: usize) -> (r: (CdisEntityId, usize))
        requires
            bit_buffer_wf(*buf),
            parse_cdis_entity_id_spec(bit_buffer_contents(*buf), cursor as int).1 <= BIT_BUFFER_BITS,
        ensures
            r.0 == parse_cdis_entity_id_spec(bit_buffer_contents(*buf), cursor as int).0,
            r.1 == parse_cdis_entity_id_spec(bit_buffer_contents(*buf), cursor as int).1,
    {
        let (site, c) = Uvint16::parse(buf, cursor);
        let (application, c) = Uvint16::parse(buf, c);
        let (entity, c) = Uvint16::parse(buf, c);
        (CdisEntityId { site, application, entity }, c)
    }
}

/// The C-DIS form of a Remove Entity PDU.
#[derive(Clone, Copy, Debug, PartialEq, Eq, Structural)]
pub struct RemoveEntity {
    pub originating_id: CdisEntityId,
    pub receiving_id: CdisEntityId,
    pub request_id: Uvint32,
}

/// C-DIS bit form of a Remove Entity body.
pub open spec fn remove_entity_bits(r: RemoveEntity) -> Seq<bool> {
    cdis_entity_id_bits(r.originating_id) + cdis_entity_id_bits(r.receiving_id) + uvint32_bits(
        r.request_id,
    )
}

/// Every variable-width field holds a value that fits its width.
pub open spec fn remove_entity_wf(r: RemoveEntity) -> bool {
    cdis_entity_id_wf(r.originating_id) && cdis_entity_id_wf(r.receiving_id) && uvint32_wf(
        r.request_id,
    )
}

/// Reads a Remove Entity body at `c`, with the position after it.
pub open spec fn parse_remove_entity_spec(s: Seq<bool>, c: int) -> (RemoveEntity, int) {
    let (originating_id, c1) = parse_cdis_entity_id_spec(s, c);
    let (receiving_id, c2) = parse_cdis_entity_id_spec(s, c1);
    let (request_id, c3) = parse_uvint32_spec(s, c2);
    (RemoveEntity { originating_id, receiving_id, request_id }, c3)
}

impl RemoveEntity {
    /// Writes the C-DIS bit form at `cursor` and returns the cursor after it.
    pub fn serialize(&self, buf: &mut BitBuffer, cursor: usize) -> (r: usize)
        requires
            bit_buffer_wf(*old(buf)),
            cursor + remove_entity_bits(*self).len() <= BIT_BUFFER_BITS,
        ensures
            bit_buffer_wf(*final(buf)),
            bit_buffer_contents(*final(buf)) == spliced(
                bit_buffer_contents(*old(buf)),
                cursor as int,
                remove_entity_bits(*self),
            ),
            r == cursor + remove_entity_bits(*self).len(),
    {
        let ghost start = bit_buffer_contents(*buf);
        proof {
            lemma_cdis_entity_id_bits_len(self.originating_id);
            lemma_cdis_entity_id_bits_len(self.receiving_id);
            lemma_uvint32_bits_len(self.request_id);
        }
        let cursor2 = self.originating_id.serialize(buf, cursor);
        let cursor2 = self.receiving_id.serialize(buf, cursor2);
        let cursor2 = self.request_id.serialize(buf, cursor2);
        proof {
            let a1 = cdis_entity_id_bits(self.originating_id);
            let a2 = cdis_entity_id_bits(self.receiving_id);
            let a3 = uvint32_bits(self.request_id);
            lemma_spliced_twice(start, cursor as int, a1, a2);
            lemma_spliced_twice(start, cursor as int, a1 + a2, a3);
        }
        cursor2
    }

    /// Reads a Remove Entity body in C-DIS bit form at `cursor`, with the cursor after it.
    pub fn parse(buf: &BitBuffer, cursor: usize) -> (r: (RemoveEntity, usize))
        requires
            bit_buffer_wf(*buf),
            parse_remove_entity_spec(bit_buffer_contents(*buf), cursor as int).1 <= BIT_BUFFER_BITS,
        ensures
            r.0 == parse_remove_entity_spec(bit_buffer_contents(*buf), cursor as int).0,
            r.1 == parse_remove_entity_spec(bit_buffer_contents(*buf), cursor as int).1,
    {
        let (originating_id, c) = CdisEntityId::parse(buf, cursor);
        let (receiving_id, c) = CdisEntityId::parse(buf, c);
        let (request_id, c) = Uvint32::parse(buf, c);
        (RemoveEntity { originating_id, receiving_id, request_id }, c)
    }
}

/// A Remove Entity body written at `c` reads back unchanged and takes exactly its bits,
/// whatever the buffer held before.
pub proof fn lemma_remove_entity_round_trip(s: Seq<bool>, c: int, r: RemoveEntity)
    requires
        remove_entity_wf(r),
        0 <= c,
        c + remove_entity_bits(r).len() <= s.len(),
    ensures
        parse_remove_entity_spec(spliced(s, c, remove_entity_bits(r)), c) == (
            r,
            c + remove_entity_bits(r).len(),
        ),
{
    let a1 = cdis_entity_id_bits(r.originating_id);
    let a2 = cdis_entity_id_bits(r.receiving_id);
    let a3 = uvint32_bits(r.request_id);
    assert(remove_entity_bits(r) =~= a1 + (a2 + a3));
    lemma_cdis_entity_id_prefix(s, c, r.originating_id, a2 + a3);
    let s1 = spliced(s, c, a1);
    lemma_cdis_entity_id_prefix(s1, c + a1.len(), r.receiving_id, a3);
    let s2 = spliced(s1, c + a1.len(), a2);
    lemma_uvint32_round_trip(s2, c + a1.len() + a2.len(), r.request_id);
}

/// Two bodies written one after the other read back in order, each taking exactly its bits.
pub proof fn lemma_remove_entity_concatenation(s: Seq<bool>, c: int, a: RemoveEntity, b: RemoveEntity)
    requires
        remove_entity_wf(a),
        remove_entity_wf(b),
        0 <= c,
        c + remove_entity_bits(a).len() + remove_entity_bits(b).len() <= s.len(),
    ensures
        ({
            let t = spliced(s, c, remove_entity_bits(a) + remove_entity_bits(b));
            let (first, c1) = parse_remove_entity_spec(t, c);
            let (second, c2) = parse_remove_entity_spec(t, c1);
            first == a && second == b && c2 == c + remove_entity_bits(a).len() + remove_entity_bits(
                b,
            ).len()
        }),
{
    let x = remove_entity_bits(a);
    let y = remove_entity_bits(b);
    lemma_spliced_front(s, c, x, y);
    lemma_remove_entity_round_trip(spliced(s, c + x.len(), y), c, a);
    lemma_remove_entity_round_trip(spliced(s, c, x), c + x.len(), b);
}

/// C-DIS bit form of a Receiver: the state takes two bits and the power sixteen, in two's
/// complement.
pub open spec fn cdis_receiver_bits(r: Receiver) -> Seq<bool> {
    cdis_entity_id_bits(r.radio_reference_id) + uvint16_bits(r.radio_number) + be_bits(
        receiver_state_value(r.receiver_state) as nat,
        2,
    ) + be_bits((#[verifier::truncate] (r.received_power as u16)) as nat, 16) + cdis_entity_id_bits(
        r.transmitter_radio_reference_id,
    ) + uvint16_bits(r.transmitter_radio_number)
}

/// Every field fits its width and the state is the one its two bits denote.
pub open spec fn cdis_receiver_wf(r: Receiver) -> bool {
    &&& cdis_entity_id_wf(r.radio_reference_id)
    &&& uvint16_wf(r.radio_number)
    &&& receiver_state_value(r.receiver_state) < 4
    &&& receiver_state_of(receiver_state_value(r.receiver_state)) == r.receiver_state
    &&& cdis_entity_id_wf(r.transmitter_radio_reference_id)
    &&& uvint16_wf(r.transmitter_radio_number)
}

/// Reads a C-DIS Receiver at `c`, with the position after it.
pub open spec fn parse_cdis_receiver_spec(s: Seq<bool>, c: int) -> (Receiver, int) {
    let (radio_reference_id, c1) = parse_cdis_entity_id_spec(s, c);
    let (radio_number, c2) = parse_uvint16_spec(s, c1);
    let state = receiver_state_of(bits_value(s.subrange(c2, c2 + 2)) as u16);
    let power = #[verifier::truncate] ((bits_value(s.subrange(c2 + 2, c2 + 18)) as u16) as i16);
    let (transmitter_radio_reference_id, c3) = parse_cdis_entity_id_spec(s, c2 + 18);
    let (transmitter_radio_number, c4) = parse_uvint16_spec(s, c3);
    (
        Receiver {
            radio_reference_id,
            radio_number,
            receiver_state: state,
            received_power: power,
            transmitter_radio_reference_id,
            transmitter_radio_number,
        },
        c4,
    )
}

impl Receiver {
    /// Writes the C-DIS bit form at `cursor` and returns the cursor after it.
    pub fn serialize(&self, buf: &mut BitBuffer, cursor: usize) -> (r: usize)
        requires
            bit_buffer_wf(*old(buf)),
            cursor + cdis_receiver_bits(*self).len() <= BIT_BUFFER_BITS,
        ensures
            bit_buffer_wf(*final(buf)),
            bit_buffer_contents(*final(buf)) == spliced(
                bit_buffer_contents(*old(buf)),
                cursor as int,
                cdis_receiver_bits(*self),
            ),
            r == cursor + cdis_receiver_bits(*self).len(),
    {
        let ghost start = bit_buffer_contents(*buf);
        let ghost a1 = cdis_entity_id_bits(self.radio_reference_id);
        let ghost a2 = uvint16_bits(self.radio_number);
        let ghost a3 = be_bits(receiver_state_value(self.receiver_state) as nat, 2);
        let ghost a4 = be_bits((#[verifier::truncate] (self.received_power as u16)) as nat, 16);
        let ghost a5 = cdis_entity_id_bits(self.transmitter_radio_reference_id);
        let ghost a6 = uvint16_bits(self.transmitter_radio_number);
        proof {
            lemma_cdis_entity_id_bits_len(self.radio_reference_id);
            lemma_cdis_entity_id_bits_len(self.transmitter_radio_reference_id);
            lemma_uvint16_bits_len(self.radio_number);
            lemma_uvint16_bits_len(self.transmitter_radio_number);
            lemma_be_bits_len(receiver_state_value(self.receiver_state) as nat, 2);
            lemma_be_bits_len((#[verifier::truncate] (self.received_power as u16)) as nat, 16);
        }
        let c = self.radio_reference_id.serialize(buf, cursor);
        let c = self.radio_number.serialize(buf, c);
        let c = write_bits(buf, c, 2, self.receiver_state.to_raw() as u32);
        let c = write_bits(buf, c, 16, (self.received_power as u16) as u32);
        let c = self.transmitter_radio_reference_id.serialize(buf, c);
        let c = self.transmitter_radio_number.serialize(buf, c);
        proof {
            lemma_spliced_twice(start, cursor as int, a1, a2);
            lemma_spliced_twice(start, cursor as int, a1 + a2, a3);
            lemma_spliced_twice(start, cursor as int, a1 + a2 + a3, a4);
            lemma_spliced_twice(start, cursor as int, a1 + a2 + a3 + a4, a5);
            lemma_spliced_twice(start, cursor as int, a1 + a2 + a3 + a4 + a5, a6);
        }
        c
    }

    /// Reads a C-DIS Receiver at `cursor`, with the cursor after it.
    pub fn parse(buf: &BitBuffer, cursor: usize) -> (r: (Receiver, usize))
        requires
            bit_buffer_wf(*buf),
            parse_cdis_receiver_spec(bit_buffer_contents(*buf), cursor as int).1 <= BIT_BUFFER_BITS,
        ensures
            r.0 == parse_cdis_receiver_spec(bit_buffer_contents(*buf), cursor as int).0,
            r.1 == parse_cdis_receiver_spec(bit_buffer_contents(*buf), cursor as int).1,
    {
        let (radio_reference_id, c) = CdisEntityId::parse(buf, cursor);
        let (radio_number, c) = Uvint16::parse(buf, c);
        let state = read_bits(buf, c, 2);
        let power = read_bits(buf, c + 2, 16);
        proof {
            crate::bit_buffer::lemma_bits_value_bound(
                bit_buffer_contents(*buf).subrange(c as int, c + 2),
            );
            crate::bit_buffer::lemma_bits_value_bound(
                bit_buffer_contents(*buf).subrange(c + 2, c + 18),
            );
            lemma2_to64();
        }
        let (transmitter_radio_reference_id, c2) = CdisEntityId::parse(buf, c + 18);
        let (transmitter_radio_number, c2) = Uvint16::parse(buf, c2);
        (
            Receiver {
                radio_reference_id,
                radio_number,
                receiver_state: ReceiverState::from_raw(state as u16),
                received_power: (power as u16) as i16,
                transmitter_radio_reference_id,
                transmitter_radio_number,
            },
            c2,
        )
    }
}

/// A C-DIS Receiver written at `c` reads back unchanged.
#[verifier::rlimit(60)]
pub proof fn lemma_cdis_receiver_round_trip(s: Seq<bool>, c: int, r: Receiver)
    requires
        cdis_receiver_wf(r),
        0 <= c,
        c + cdis_receiver_bits(r).len() <= s.len(),
    ensures
        parse_cdis_receiver_spec(spliced(s, c, cdis_receiver_bits(r)), c) == (
            r,
            c + cdis_receiver_bits(r).len(),
        ),
{
    lemma2_to64();
    let a1 = cdis_entity_id_bits(r.radio_reference_id);
    let a2 = uvint16_bits(r.radio_number);
    let sv = receiver_state_value(r.receiver_state) as nat;
    let pv = (#[verifier::truncate] (r.received_power as u16)) as nat;
    let a3 = be_bits(sv, 2);
    let a4 = be_bits(pv, 16);
    let a5 = cdis_entity_id_bits(r.transmitter_radio_reference_id);
    let a6 = uvint16_bits(r.transmitter_radio_number);
    lemma_be_bits_len(sv, 2);
    lemma_be_bits_len(pv, 16);
    assert(cdis_receiver_bits(r) =~= a1 + (a2 + (a3 + (a4 + (a5 + a6)))));
    lemma_cdis_entity_id_prefix(s, c, r.radio_reference_id, a2 + (a3 + (a4 + (a5 + a6))));
    let s1 = spliced(s, c, a1);
    let c1 = c + a1.len();
    lemma_uvint16_prefix(s1, c1, r.radio_number, a3 + (a4 + (a5 + a6)));
    let s2 = spliced(s1, c1, a2);
    let c2 = c1 + a2.len();
    lemma_spliced_front(s2, c2, a3, a4 + (a5 + a6));
    lemma_read_after_write(spliced(s2, c2 + 2, a4 + (a5 + a6)), c2, sv, 2);
    let s3 = spliced(s2, c2, a3);
    lemma_spliced_front(s3, c2 + 2, a4, a5 + a6);
    lemma_read_after_write(spliced(s3, c2 + 18, a5 + a6), c2 + 2, pv, 16);
    let s4 = spliced(s3, c2 + 2, a4);
    lemma_cdis_entity_id_prefix(s4, c2 + 18, r.transmitter_radio_reference_id, a6);
    let s5 = spliced(s4, c2 + 18, a5);
    lemma_uvint16_round_trip(s5, c2 + 18 + a5.len(), r.transmitter_radio_number);
    let x = r.received_power;
    assert((#[verifier::truncate] ((#[verifier::truncate] (x as u16)) as i16)) == x) by (bit_vector);
}

/// The bits of a UVINT16 read at `c` are exactly the bits it writes.
pub proof fn lemma_uvint16_reproduced(s: Seq<bool>, c: int)
    requires
        0 <= c,
        parse_uvint16_spec(s, c).1 <= s.len(),
    ensures
        uvint16_bits(parse_uvint16_spec(s, c).0) == s.subrange(c, parse_uvint16_spec(s, c).1),
        uvint16_wf(parse_uvint16_spec(s, c).0),
{
    lemma2_to64();
    let (u, d) = parse_uvint16_spec(s, c);
    let f = s.subrange(c, c + 1);
    let w: int = if bits_value(f) == 0 { 8 } else { 16 };
    let v = s.subrange(c + 1, c + 1 + w);
    lemma_bits_value_bound(f);
    lemma_bits_value_bound(v);
    lemma_be_bits_of_value(f);
    lemma_be_bits_of_value(v);
    assert(uvint16_bits(u) =~= s.subrange(c, d));
}

/// The bits of a UVINT32 read at `c` are exactly the bits it writes.
pub proof fn lemma_uvint32_reproduced(s: Seq<bool>, c: int)
    requires
        0 <= c,
        parse_uvint32_spec(s, c).1 <= s.len(),
    ensures
        uvint32_bits(parse_uvint32_spec(s, c).0) == s.subrange(c, parse_uvint32_spec(s, c).1),
        uvint32_wf(parse_uvint32_spec(s, c).0),
{
    lemma2_to64();
    let (u, d) = parse_uvint32_spec(s, c);
    let f = s.subrange(c, c + 2);
    lemma_bits_value_bound(f);
    let w = uvint32_width(u.bit_size) as int;
    assert(uvint32_flag(u.bit_size) == bits_value(f));
    let v = s.subrange(c + 2, c + 2 + w);
    lemma_bits_value_bound(v);
    lemma_be_bits_of_value(f);
    lemma_be_bits_of_value(v);
    assert(uvint32_bits(u) =~= s.subrange(c, d));
}

/// The bits of an entity identifier read at `c` are exactly the bits it writes.
pub proof fn lemma_cdis_entity_id_reproduced(s: Seq<bool>, c: int)
    requires
        0 <= c,
        parse_cdis_entity_id_spec(s, c).1 <= s.len(),
    ensures
        cdis_entity_id_bits(parse_cdis_entity_id_spec(s, c).0) == s.subrange(
            c,
            parse_cdis_entity_id_spec(s, c).1,
        ),
        cdis_entity_id_wf(parse_cdis_entity_id_spec(s, c).0),
        c < parse_cdis_entity_id_spec(s, c).1 <= c + 51,
{
    let (u1, c1) = parse_uvint16_spec(s, c);
    let (u2, c2) = parse_uvint16_spec(s, c1);
    let (u3, c3) = parse_uvint16_spec(s, c2);
    lemma_uvint16_reproduced(s, c);
    lemma_uvint16_reproduced(s, c1);
    lemma_uvint16_reproduced(s, c2);
    assert(s.subrange(c, c3) =~= s.subrange(c, c1) + s.subrange(c1, c2) + s.subrange(c2, c3));
}

/// Any bits read as a Remove Entity body and written back at the same place leave the
/// bits as they were.
pub proof fn lemma_remove_entity_reproduced(s: Seq<bool>, c: int)
    requires
        0 <= c,
        parse_remove_entity_spec(s, c).1 <= s.len(),
    ensures
        spliced(s, c, remove_entity_bits(parse_remove_entity_spec(s, c).0)) == s,
        remove_entity_wf(parse_remove_entity_spec(s, c).0),
{
    let (o, c1) = parse_cdis_entity_id_spec(s, c);
    let (r, c2) = parse_cdis_entity_id_spec(s, c1);
    let (q, c3) = parse_uvint32_spec(s, c2);
    lemma_cdis_entity_id_reproduced(s, c);
    lemma_cdis_entity_id_reproduced(s, c1);
    lemma_uvint32_reproduced(s, c2);
    assert(remove_entity_bits(parse_remove_entity_spec(s, c).0) =~= s.subrange(c, c3));
    lemma_spliced_same(s, c, c3);
}

} // verus!
