use vstd::prelude::*;

verus! {

/// Characters left out of an identifier.
pub open spec fn is_stripped(c: char) -> bool {
    c == ' ' || c == '-' || c == '/' || c == '.' || c == ',' || c == '\'' || c == '#'
}

/// What one character of a name becomes in an identifier.
pub open spec fn identifier_part(c: char) -> Seq<char> {
    if is_stripped(c) {
        Seq::empty()
    } else if c == '(' || c == ')' {
        seq!['_']
    } else {
        seq![c]
    }
}

/// A name with the stripped characters left out and parentheses made `_`.
pub open spec fn sanitized(s: Seq<char>) -> Seq<char>
    decreases s.len(),
{
    if s.len() == 0 {
        Seq::empty()
    } else {
        sanitized(s.drop_last()) + identifier_part(s.last())
    }
}

pub open spec fn is_decimal_digit(c: char) -> bool {
    '0' <= c && c <= '9'
}

pub open spec fn digit_char(d: nat) -> char {
    (('0' as u32) + d) as char
}

/// The decimal digits of `n`, most significant first.
pub open spec fn decimal(n: nat) -> Seq<char>
    decreases n,
{
    if n < 10 {
        seq![digit_char(n)]
    } else {
        decimal(n / 10).push(digit_char(n % 10))
    }
}

/// The identifier for an enumeration or bitfield name: sanitized, and where it starts with a
/// digit, prefixed with `_` and ended with `_` and the uid, which keeps it unique.
pub open spec fn identifier_of(name: Seq<char>, uid: nat) -> Seq<char> {
    let t = sanitized(name);
    if t.len() > 0 && is_decimal_digit(t[0]) {
        seq!['_'] + t + seq!['_'] + decimal(uid)
    } else {
        t
    }
}

fn push_decimal(out: &mut Vec<char>, n: usize)
    ensures
        final(out)@ == old(out)@ + decimal(n as nat),
    decreases n,
{
    if n >= 10 {
        push_decimal(out, n / 10);
    }
    let d = (n % 10) as u32;
    let c = if d == 0 {
        '0'
    } else if d == 1 {
        '1'
    } else if d == 2 {
        '2'
    } else if d == 3 {
        '3'
    } else if d == 4 {
        '4'
    } else if d == 5 {
        '5'
    } else if d == 6 {
        '6'
    } else if d == 7 {
        '7'
    } else if d == 8 {
        '8'
    } else {
        '9'
    };
    assert(c == digit_char((n % 10) as nat));
    out.push(c);
}

/// Turns a name from the enumeration catalog into an identifier.
pub fn format_name(value: &[char], uid: usize) -> (r: Vec<char>)
    ensures
        r@ == identifier_of(value@, uid as nat),
{
    let mut t: Vec<char> = Vec::new();
    let mut i: usize = 0;
    while i < value.len()
        invariant
            i <= value@.len(),
            t@ == sanitized(value@.take(i as int)),
        decreases value@.len() - i,
    {
        let c = value[i];
        proof {
            assert(value@.take(i + 1).drop_last() =~= value@.take(i as int));
        }
        if c == ' ' || c == '-' || c == '/' || c == '.' || c == ',' || c == '\'' || c == '#' {
            assert(t@ =~= sanitized(value@.take(i + 1)));
        } else if c == '(' || c == ')' {
            t.push('_');
            assert(t@ =~= sanitized(value@.take(i + 1)));
        } else {
            t.push(c);
            assert(t@ =~= sanitized(value@.take(i + 1)));
        }
        i = i + 1;
    }
    assert(value@.take(value@.len() as int) =~= value@);
    if t.len() > 0 && '0' <= t[0] && t[0] <= '9' {
        let mut r: Vec<char> = Vec::new();
        r.push('_');
        let mut k: usize = 0;
        while k < t.len()
            invariant
                k <= t@.len(),
                r@ == seq!['_'] + t@.take(k as int),
            decreases t@.len() - k,
        {
            r.push(t[k]);
            assert(r@ =~= seq!['_'] + t@.take(k + 1));
            k = k + 1;
        }
        assert(t@.take(t@.len() as int) =~= t@);
        r.push('_');
        push_decimal(&mut r, uid);
        r
    } else {
        t
    }
}

} // verus!
