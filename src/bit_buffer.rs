use vstd::prelude::*;
use vstd::arithmetic::power2::{pow2, lemma2_to64, lemma_pow2_unfold, lemma_pow2_pos};
use bitvec::array::BitArray;
use bitvec::order::Msb0;
use crate::float_bits::pow2_u64;

verus! {

/// Number of bits in a bit buffer: one datagram of 1400 octets.
pub const BIT_BUFFER_BITS: usize = 11200;

/// A fixed-size buffer of bits, most significant bit of each octet first, that C-DIS
/// PDUs are written into and read from.
#[verifier::external_body]
pub struct BitBuffer {
    bits: BitArray<[u8; 1400], Msb0>,
}

/// The bits of a buffer, first to last.
pub uninterp spec fn bit_buffer_contents(b: BitBuffer) -> Seq<bool>;

/// Relies on `BitArray::ZERO`: a buffer of 1400 octets with every bit clear.
#[verifier::external_body]
fn zeroed_bits() -> (r: BitBuffer)
    ensures
        bit_buffer_contents(r) == Seq::new(BIT_BUFFER_BITS as nat, |i: int| false),
{
    BitBuffer { bits: BitArray::ZERO }
}

impl BitBuffer {
    /// A buffer with every bit clear.
    pub fn new() -> (r: BitBuffer)
        ensures
            bit_buffer_wf(r),
            bit_buffer_contents(r) == Seq::new(BIT_BUFFER_BITS as nat, |i: int| false),
    {
        zeroed_bits()
    }
}

/// Relies on `BitSlice::set`: writes one bit and leaves the others.
#[verifier::external_body]
fn set_bit(buf: &mut BitBuffer, index: usize, value: bool)
    requires
        index < bit_buffer_contents(*old(buf)).len(),
    ensures
        bit_buffer_contents(*final(buf)) == bit_buffer_contents(*old(buf)).update(index as int, value),
{
    buf.bits.set(index, value)
}

/// Relies on indexing a `BitSlice`: reads one bit.
#[verifier::external_body]
fn get_bit(buf: &BitBuffer, index: usize) -> (r: bool)
    requires
        index < bit_buffer_contents(*buf).len(),
    ensures
        r == bit_buffer_contents(*buf)[index as int],
{
    buf.bits[index]
}

/// The buffer has its fixed size.
pub open spec fn bit_buffer_wf(b: BitBuffer) -> bool {
    bit_buffer_contents(b).len() == BIT_BUFFER_BITS
}

/// The `width` low bits of `v`, most significant first.
pub open spec fn be_bits(v: nat, width: nat) -> Seq<bool>
    decreases width,
{
    if width == 0 {
        Seq::empty()
    } else {
        be_bits(v / 2, (width - 1) as nat).push(v % 2 == 1)
    }
}

/// The number that a sequence of bits denotes, most significant first.
pub open spec fn bits_value(s: Seq<bool>) -> nat
    decreases s.len(),
{
    if s.len() == 0 {
        0
    } else {
        2 * bits_value(s.drop_last()) + if s.last() {
            1nat
        } else {
            0nat
        }
    }
}

/// `s` with the bits from `cursor` on replaced by `w`.
pub open spec fn spliced(s: Seq<bool>, cursor: int, w: Seq<bool>) -> Seq<bool> {
    s.subrange(0, cursor) + w + s.subrange(cursor + w.len(), s.len() as int)
}

pub proof fn lemma_be_bits_len(v: nat, width: nat)
    ensures
        be_bits(v, width).len() == width,
    decreases width,
{
    if width > 0 {
        lemma_be_bits_len(v / 2, (width - 1) as nat);
    }
}

/// Bit `j` of the `width`-bit form of `v`.
pub proof fn lemma_be_bits_index(v: nat, width: nat, j: int)
    requires
        0 <= j < width,
    ensures
        be_bits(v, width)[j] == ((v / pow2((width - 1 - j) as nat)) % 2 == 1),
    decreases width,
{
    lemma_be_bits_len(v, width);
    lemma_be_bits_len(v / 2, (width - 1) as nat);
    lemma2_to64();
    if j < width - 1 {
        lemma_be_bits_index(v / 2, (width - 1) as nat, j);
        let e = (width - 2 - j) as nat;
        lemma_pow2_unfold(e + 1);
        lemma_pow2_pos(e);
        vstd::arithmetic::div_mod::lemma_div_denominator(v as int, 2, pow2(e) as int);
        assert((width - 1 - j) as nat == e + 1);
        assert(be_bits(v, width)[j] == be_bits(v / 2, (width - 1) as nat)[j]);
    } else {
        assert(pow2((width - 1 - j) as nat) == 1);
    }
}

/// Reading back the `width`-bit form of `v` gives `v` modulo 2^width.
pub proof fn lemma_bits_value_be_bits(v: nat, width: nat)
    ensures
        bits_value(be_bits(v, width)) == v % pow2(width),
    decreases width,
{
    lemma2_to64();
    if width > 0 {
        lemma_bits_value_be_bits(v / 2, (width - 1) as nat);
        assert(be_bits(v, width).drop_last() =~= be_bits(v / 2, (width - 1) as nat));
        lemma_pow2_unfold(width);
        lemma_pow2_pos((width - 1) as nat);
        vstd::arithmetic::div_mod::lemma_breakdown(v as int, 2, pow2((width - 1) as nat) as int);
    }
}

pub proof fn lemma_bits_value_bound(s: Seq<bool>)
    ensures
        bits_value(s) < pow2(s.len()),
    decreases s.len(),
{
    lemma2_to64();
    if s.len() > 0 {
        lemma_bits_value_bound(s.drop_last());
        lemma_pow2_unfold(s.len());
    }
}

/// Writes the `width` low bits of `value` at `cursor`, most significant first, and returns
/// the cursor after them.
pub fn write_bits(buf: &mut BitBuffer, cursor: usize, width: usize, value: u32) -> (r: usize)
    requires
        width <= 32,
        bit_buffer_wf(*old(buf)),
        cursor + width <= BIT_BUFFER_BITS,
    ensures
        bit_buffer_wf(*final(buf)),
        bit_buffer_contents(*final(buf)) == spliced(
            bit_buffer_contents(*old(buf)),
            cursor as int,
            be_bits(value as nat, width as nat),
        ),
        r == cursor + width,
{
    let ghost start = bit_buffer_contents(*buf);
    let ghost w = be_bits(value as nat, width as nat);
    proof {
        lemma_be_bits_len(value as nat, width as nat);
    }
    let mut j: usize = 0;
    while j < width
        invariant
            j <= width <= 32,
            cursor + width <= start.len(),
            start.len() == BIT_BUFFER_BITS,
            w == be_bits(value as nat, width as nat),
            w.len() == width,
            bit_buffer_contents(*buf).len() == start.len(),
            forall|k: int|
                0 <= k < start.len() ==> #[trigger] bit_buffer_contents(*buf)[k] == if cursor <= k
                    < cursor + j {
                    w[k - cursor]
                } else {
                    start[k]
                },
        decreases width - j,
    {
        let d = pow2_u64((width - 1 - j) as u32);
        proof {
            lemma_be_bits_index(value as nat, width as nat, j as int);
            lemma_pow2_pos((width - 1 - j) as nat);
        }
        let bit = (value as u64 / d) % 2 == 1;
        set_bit(buf, cursor + j, bit);
        j = j + 1;
    }
    assert(bit_buffer_contents(*buf) =~= spliced(start, cursor as int, w));
    cursor + width
}

/// Reads the number that the `width` bits at `cursor` denote, most significant first.
pub fn read_bits(buf: &BitBuffer, cursor: usize, width: usize) -> (r: u32)
    requires
        width <= 32,
        bit_buffer_wf(*buf),
        cursor + width <= BIT_BUFFER_BITS,
    ensures
        r == bits_value(bit_buffer_contents(*buf).subrange(cursor as int, cursor + width)),
{
    let ghost s = bit_buffer_contents(*buf).subrange(cursor as int, cursor + width);
    let mut acc: u64 = 0;
    let mut j: usize = 0;
    while j < width
        invariant
            j <= width <= 32,
            cursor + width <= bit_buffer_contents(*buf).len(),
            bit_buffer_wf(*buf),
            s == bit_buffer_contents(*buf).subrange(cursor as int, cursor + width),
            acc == bits_value(s.take(j as int)),
        decreases width - j,
    {
        proof {
            lemma_bits_value_bound(s.take(j as int));
            lemma2_to64();
            vstd::arithmetic::power2::lemma_pow2_strictly_increases(j as nat, 33);
            lemma_pow2_unfold(33);
            assert(s.take(j + 1).drop_last() =~= s.take(j as int));
        }
        let bit = get_bit(buf, cursor + j);
        acc = 2 * acc + if bit {
            1
        } else {
            0
        };
        j = j + 1;
    }
    proof {
        assert(s.take(width as int) =~= s);
        lemma_bits_value_bound(s);
        lemma2_to64();
        if width < 32 {
            vstd::arithmetic::power2::lemma_pow2_strictly_increases(width as nat, 32);
        }
    }
    acc as u32
}

/// Writing `value` in `width` bits and reading the same bits gives `value` back.
pub proof fn lemma_read_after_write(s: Seq<bool>, cursor: int, value: nat, width: nat)
    requires
        0 <= cursor,
        cursor + width <= s.len(),
        value < pow2(width),
    ensures
        bits_value(spliced(s, cursor, be_bits(value, width)).subrange(cursor, cursor + width))
            == value,
        spliced(s, cursor, be_bits(value, width)).len() == s.len(),
{
    lemma_be_bits_len(value, width);
    assert(spliced(s, cursor, be_bits(value, width)).subrange(cursor, cursor + width)
        =~= be_bits(value, width));
    lemma_bits_value_be_bits(value, width);
    vstd::arithmetic::div_mod::lemma_small_mod(value, pow2(width));
}

/// Two writes one after the other are one write of both.
pub proof fn lemma_spliced_twice(s: Seq<bool>, cursor: int, a: Seq<bool>, b: Seq<bool>)
    requires
        0 <= cursor,
        cursor + a.len() + b.len() <= s.len(),
    ensures
        spliced(spliced(s, cursor, a), cursor + a.len(), b) == spliced(s, cursor, a + b),
{
    assert(spliced(spliced(s, cursor, a), cursor + a.len(), b) =~= spliced(s, cursor, a + b));
}

/// Writing the number that some bits denote, in as many bits, gives back those bits.
pub proof fn lemma_be_bits_of_value(t: Seq<bool>)
    ensures
        be_bits(bits_value(t), t.len()) == t,
    decreases t.len(),
{
    if t.len() > 0 {
        let v = bits_value(t);
        let d = bits_value(t.drop_last());
        let last: nat = if t.last() {
            1
        } else {
            0
        };
        assert(v == 2 * d + last);
        assert(v / 2 == d);
        assert(v % 2 == last);
        lemma_be_bits_of_value(t.drop_last());
        assert(t.drop_last().push(t.last()) =~= t);
    }
}

/// Writing at `c` the bits already there leaves the sequence as it was.
pub proof fn lemma_spliced_same(s: Seq<bool>, c: int, d: int)
    requires
        0 <= c <= d <= s.len(),
    ensures
        spliced(s, c, s.subrange(c, d)) == s,
{
    assert(spliced(s, c, s.subrange(c, d)) =~= s);
}

/// The bits of some octets, each most significant bit first.
pub open spec fn octets_bits(b: Seq<u8>) -> Seq<bool>
    decreases b.len(),
{
    if b.len() == 0 {
        Seq::empty()
    } else {
        octets_bits(b.drop_last()) + be_bits(b.last() as nat, 8)
    }
}

pub proof fn lemma_octets_bits_len(b: Seq<u8>)
    ensures
        octets_bits(b).len() == 8 * b.len(),
    decreases b.len(),
{
    if b.len() > 0 {
        lemma_octets_bits_len(b.drop_last());
        lemma_be_bits_len(b.last() as nat, 8);
    }
}

/// Octet `i` of some octets occupies bits `8 * i` to `8 * i + 8` of their bit form.
pub proof fn lemma_octets_bits_index(b: Seq<u8>, i: int)
    requires
        0 <= i < b.len(),
    ensures
        octets_bits(b).subrange(8 * i, 8 * i + 8) == be_bits(b[i] as nat, 8),
    decreases b.len(),
{
    lemma_octets_bits_len(b);
    lemma_octets_bits_len(b.drop_last());
    lemma_be_bits_len(b.last() as nat, 8);
    if i < b.len() - 1 {
        lemma_octets_bits_index(b.drop_last(), i);
        assert(octets_bits(b).subrange(8 * i, 8 * i + 8) =~= octets_bits(b.drop_last()).subrange(
            8 * i,
            8 * i + 8,
        ));
    } else {
        assert(octets_bits(b).subrange(8 * i, 8 * i + 8) =~= be_bits(b.last() as nat, 8));
    }
}

/// A buffer that holds the bits of a received datagram, followed by clear bits.
pub fn bit_buffer_from_octets(bytes: &[u8]) -> (r: BitBuffer)
    requires
        8 * bytes@.len() <= BIT_BUFFER_BITS,
    ensures
        bit_buffer_wf(r),
        bit_buffer_contents(r) == spliced(
            Seq::new(BIT_BUFFER_BITS as nat, |i: int| false),
            0,
            octets_bits(bytes@),
        ),
{
    let ghost zeros = Seq::new(BIT_BUFFER_BITS as nat, |i: int| false);
    let mut buf = BitBuffer::new();
    let mut i: usize = 0;
    while i < bytes.len()
        invariant
            i <= bytes@.len(),
            8 * bytes@.len() <= BIT_BUFFER_BITS,
            bit_buffer_wf(buf),
            zeros == Seq::new(BIT_BUFFER_BITS as nat, |i: int| false),
            bit_buffer_contents(buf) == spliced(zeros, 0, octets_bits(bytes@.take(i as int))),
        decreases bytes@.len() - i,
    {
        proof {
            lemma_octets_bits_len(bytes@.take(i as int));
            lemma_be_bits_len(bytes@[i as int] as nat, 8);
            assert(bytes@.take(i + 1).drop_last() =~= bytes@.take(i as int));
            lemma_spliced_twice(
                zeros,
                0,
                octets_bits(bytes@.take(i as int)),
                be_bits(bytes@[i as int] as nat, 8),
            );
        }
        write_bits(&mut buf, 8 * i, 8, bytes[i] as u32);
        i = i + 1;
    }
    assert(bytes@.take(bytes@.len() as int) =~= bytes@);
    buf
}

/// The octets of a datagram holding the first `n_bits` bits of a buffer, padded up to
/// whole octets with the bits that follow them in the buffer.
pub fn datagram_octets(buf: &BitBuffer, n_bits: usize) -> (r: Vec<u8>)
    requires
        bit_buffer_wf(*buf),
        n_bits <= BIT_BUFFER_BITS,
    ensures
        r@.len() == (n_bits + 7) / 8,
        forall|i: int|
            0 <= i < r@.len() ==> r@[i] as nat == bits_value(
                #[trigger] bit_buffer_contents(*buf).subrange(8 * i, 8 * i + 8),
            ),
{
    let n = (n_bits + 7) / 8;
    let mut out: Vec<u8> = Vec::new();
    let mut i: usize = 0;
    while i < n
        invariant
            i <= n,
            n == (n_bits + 7) / 8,
            n_bits <= BIT_BUFFER_BITS,
            bit_buffer_wf(*buf),
            out@.len() == i,
            forall|k: int|
                0 <= k < i ==> out@[k] as nat == bits_value(
                    #[trigger] bit_buffer_contents(*buf).subrange(8 * k, 8 * k + 8),
                ),
        decreases n - i,
    {
        let v = read_bits(buf, 8 * i, 8);
        proof {
            lemma_bits_value_bound(bit_buffer_contents(*buf).subrange(8 * i, 8 * i + 8));
            lemma2_to64();
        }
        out.push(v as u8);
        i = i + 1;
    }
    out
}

/// A received datagram, put in a buffer and read out again in as many octets, is unchanged.
pub proof fn lemma_datagram_round_trip(bytes: Seq<u8>, contents: Seq<bool>, out: Seq<u8>)
    requires
        8 * bytes.len() <= BIT_BUFFER_BITS,
        contents == spliced(Seq::new(BIT_BUFFER_BITS as nat, |i: int| false), 0, octets_bits(bytes)),
        out.len() == bytes.len(),
        forall|i: int|
            0 <= i < out.len() ==> out[i] as nat == bits_value(
                #[trigger] contents.subrange(8 * i, 8 * i + 8),
            ),
    ensures
        out == bytes,
{
    lemma_octets_bits_len(bytes);
    assert forall|i: int| 0 <= i < out.len() implies out[i] == bytes[i] by {
        lemma_octets_bits_index(bytes, i);
        assert(contents.subrange(8 * i, 8 * i + 8) =~= octets_bits(bytes).subrange(8 * i, 8 * i + 8));
        lemma_bits_value_be_bits(bytes[i] as nat, 8);
        lemma2_to64();
    }
    assert(out =~= bytes);
}

} // verus!
