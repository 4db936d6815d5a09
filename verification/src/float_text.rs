use vstd::prelude::*;
use crate::json::chars_of;
use crate::text::{ascii_lower, is_digit, to_ascii_lower};

verus! {

/// A string of one or more decimal digits.
pub open spec fn digits(s: Seq<char>) -> bool {
    s.len() > 0 && forall|i: int| 0 <= i < s.len() ==> is_digit(#[trigger] s[i])
}

/// Decimal digits, possibly none.
pub open spec fn maybe_digits(s: Seq<char>) -> bool {
    forall|i: int| 0 <= i < s.len() ==> is_digit(#[trigger] s[i])
}

/// `Digit+ | Digit+ '.' Digit* | Digit* '.' Digit+`, split at `dot` when
/// there is a point.
pub open spec fn mantissa(s: Seq<char>) -> bool {
    ||| digits(s)
    ||| exists|d: int|
        0 <= d < s.len() && s[d] == '.' && maybe_digits(s.take(d)) && maybe_digits(s.skip(d + 1))
            && (d > 0 || d + 1 < s.len())
}

/// `('e' | 'E') Sign? Digit+`
pub open spec fn exponent(s: Seq<char>) -> bool {
    s.len() > 0 && (s[0] == 'e' || s[0] == 'E') && {
        let t = s.skip(1);
        digits(t) || (t.len() > 0 && (t[0] == '+' || t[0] == '-') && digits(t.skip(1)))
    }
}

/// A number without its sign: a mantissa, then an exponent or not.
pub open spec fn unsigned_number(s: Seq<char>) -> bool {
    ||| mantissa(s)
    ||| exists|e: int| 0 <= e < s.len() && mantissa(s.take(e)) && exponent(s.skip(e))
}

/// The text of a floating-point number as `f64`'s `FromStr` documents its
/// grammar: an optional sign, then `inf`, `infinity` or `nan` in any case,
/// or a decimal number with an optional exponent.
pub open spec fn float_syntax(s: Seq<char>) -> bool {
    let body = if s.len() > 0 && (s[0] == '+' || s[0] == '-') {
        s.skip(1)
    } else {
        s
    };
    let lower = ascii_lower(body);
    ||| lower == "inf"@
    ||| lower == "infinity"@
    ||| lower == "nan"@
    ||| unsigned_number(body)
}

fn all_digits_in(cs: &Vec<char>, lo: usize, hi: usize) -> (r: bool)
    requires
        lo <= hi <= cs.len(),
    ensures
        r == maybe_digits(cs@.subrange(lo as int, hi as int)),
{
    let mut i = lo;
    while i < hi
        invariant
            lo <= i <= hi <= cs.len(),
            forall|j: int| lo <= j < i ==> is_digit(cs@[j]),
        decreases hi - i,
    {
        if !('0' <= cs[i] && cs[i] <= '9') {
            assert(!is_digit(cs@.subrange(lo as int, hi as int)[i - lo]));
            return false;
        }
        i += 1;
    }
    assert forall|j: int| 0 <= j < hi - lo implies is_digit(
        #[trigger] cs@.subrange(lo as int, hi as int)[j],
    ) by {
        assert(cs@.subrange(lo as int, hi as int)[j] == cs@[lo + j]);
    }
    true
}

/// The position of the first `c` in `cs[lo..hi]`, if any.
fn find_char(cs: &Vec<char>, c: char, lo: usize, hi: usize) -> (r: Option<usize>)
    requires
        lo <= hi <= cs.len(),
    ensures
        match r {
            Some(k) => lo <= k < hi && cs@[k as int] == c && forall|j: int| lo <= j < k ==> cs@[j] != c,
            None => forall|j: int| lo <= j < hi ==> cs@[j] != c,
        },
{
    let mut i = lo;
    while i < hi
        invariant
            lo <= i <= hi <= cs.len(),
            forall|j: int| lo <= j < i ==> cs@[j] != c,
        decreases hi - i,
    {
        if cs[i] == c {
            return Some(i);
        }
        i += 1;
    }
    None
}

fn mantissa_in(cs: &Vec<char>, lo: usize, hi: usize) -> (r: bool)
    requires
        lo <= hi <= cs.len(),
    ensures
        r == mantissa(cs@.subrange(lo as int, hi as int)),
{
    let ghost s = cs@.subrange(lo as int, hi as int);
    if lo < hi && all_digits_in(cs, lo, hi) {
        return true;
    }
    match find_char(cs, '.', lo, hi) {
        None => {
            proof {
                assert forall|d: int| 0 <= d < s.len() implies s[d] != '.' by {
                    assert(s[d] == cs@[lo + d]);
                }
            }
            false
        },
        Some(k) => {
            let before = all_digits_in(cs, lo, k);
            let after = all_digits_in(cs, k + 1, hi);
            let ghost d = k - lo;
            proof {
                assert(s.take(d) =~= cs@.subrange(lo as int, k as int));
                assert(s.skip(d + 1) =~= cs@.subrange(k + 1, hi as int));
                assert(s[d] == '.');
                assert forall|d2: int| 0 <= d2 < s.len() && s[d2] == '.' implies d2 >= d by {
                    assert(s[d2] == cs@[lo + d2]);
                }
                if exists|d2: int|
                    0 <= d2 < s.len() && s[d2] == '.' && maybe_digits(s.take(d2)) && maybe_digits(
                        s.skip(d2 + 1),
                    ) && (d2 > 0 || d2 + 1 < s.len()) {
                    let d2 = choose|d2: int|
                        0 <= d2 < s.len() && s[d2] == '.' && maybe_digits(s.take(d2))
                            && maybe_digits(s.skip(d2 + 1)) && (d2 > 0 || d2 + 1 < s.len());
                    if d2 > d {
                        assert(s.take(d2)[d] == '.');
                        assert(!is_digit(s.take(d2)[d]));
                    }
                }
                if !digits(s) && (k > lo || k + 1 < hi) && before && after {
                    assert(mantissa(s));
                }
            }
            (k > lo || k + 1 < hi) && before && after
        },
    }
}

fn exponent_in(cs: &Vec<char>, lo: usize, hi: usize) -> (r: bool)
    requires
        lo <= hi <= cs.len(),
    ensures
        r == exponent(cs@.subrange(lo as int, hi as int)),
{
    let ghost s = cs@.subrange(lo as int, hi as int);
    if lo >= hi || !(cs[lo] == 'e' || cs[lo] == 'E') {
        return false;
    }
    let ghost t = s.skip(1);
    assert(t =~= cs@.subrange(lo + 1, hi as int));
    if lo + 1 < hi && all_digits_in(cs, lo + 1, hi) {
        return true;
    }
    if lo + 1 < hi && (cs[lo + 1] == '+' || cs[lo + 1] == '-') {
        assert(t.skip(1) =~= cs@.subrange(lo + 2, hi as int));
        return lo + 2 < hi && all_digits_in(cs, lo + 2, hi);
    }
    false
}

fn unsigned_number_in(cs: &Vec<char>, lo: usize, hi: usize) -> (r: bool)
    requires
        lo <= hi <= cs.len(),
    ensures
        r == unsigned_number(cs@.subrange(lo as int, hi as int)),
{
    let ghost s = cs@.subrange(lo as int, hi as int);
    if mantissa_in(cs, lo, hi) {
        return true;
    }
    let mut e = lo;
    while e < hi
        invariant
            lo <= e <= hi <= cs.len(),
            s == cs@.subrange(lo as int, hi as int),
            forall|j: int|
                0 <= j < e - lo ==> !(mantissa(s.take(j)) && exponent(#[trigger] s.skip(j))),
        decreases hi - e,
    {
        let m = mantissa_in(cs, lo, e);
        let x = exponent_in(cs, e, hi);
        proof {
            assert(s.take(e - lo) =~= cs@.subrange(lo as int, e as int));
            assert(s.skip(e - lo) =~= cs@.subrange(e as int, hi as int));
        }
        if m && x {
            return true;
        }
        e += 1;
    }
    false
}

/// Whether the text is a floating-point number as `f64`'s `FromStr`
/// reads one.
pub fn is_float_text(s: &str) -> (r: bool)
    ensures
        r == float_syntax(s@),
{
    let cs = chars_of(s);
    let lo: usize = if cs.len() > 0 && (cs[0] == '+' || cs[0] == '-') {
        1
    } else {
        0
    };
    let ghost body = cs@.subrange(lo as int, cs.len() as int);
    assert(body =~= if s@.len() > 0 && (s@[0] == '+' || s@[0] == '-') {
        s@.skip(1)
    } else {
        s@
    });
    let mut body_text = String::new();
    let mut i = lo;
    while i < cs.len()
        invariant
            lo <= i <= cs.len(),
            body_text@ == cs@.subrange(lo as int, i as int),
        decreases cs.len() - i,
    {
        crate::text::push_char(&mut body_text, cs[i]);
        assert(body_text@ =~= cs@.subrange(lo as int, i + 1));
        i += 1;
    }
    let lower = to_ascii_lower(body_text.as_str());
    crate::json::text_eq(lower.as_str(), "inf") || crate::json::text_eq(lower.as_str(), "infinity")
        || crate::json::text_eq(lower.as_str(), "nan") || unsigned_number_in(&cs, lo, cs.len())
}



/// Whether the character is `e` or `E`, which starts an exponent.
pub open spec fn is_exp_mark(c: char) -> bool {
    c == 'e' || c == 'E'
}

/// The index of the first exponent mark at or after `i`, or the length.
pub open spec fn first_exp_mark(s: Seq<char>, i: int) -> int
    decreases s.len() - i,
{
    if i < 0 || i >= s.len() {
        s.len() as int
    } else if is_exp_mark(s[i]) {
        i
    } else {
        first_exp_mark(s, i + 1)
    }
}

/// The index of the first `.` at or after `i`, or the length.
pub open spec fn first_dot(s: Seq<char>, i: int) -> int
    decreases s.len() - i,
{
    if i < 0 || i >= s.len() {
        s.len() as int
    } else if s[i] == '.' {
        i
    } else {
        first_dot(s, i + 1)
    }
}

/// The number of `0` characters that the text starts with.
pub open spec fn leading_zeros(s: Seq<char>) -> nat
    decreases s.len(),
{
    if s.len() > 0 && s[0] == '0' {
        1 + leading_zeros(s.drop_first())
    } else {
        0
    }
}

/// The value of a decimal digit (a character that is none counts 0).
pub open spec fn digit_value(c: char) -> nat {
    if is_digit(c) {
        (c as int - '0' as int) as nat
    } else {
        0
    }
}

/// The number that decimal digits write.
pub open spec fn digits_nat(s: Seq<char>) -> nat
    decreases s.len(),
{
    if s.len() == 0 {
        0
    } else {
        digits_nat(s.drop_last()) * 10 + digit_value(s.last())
    }
}

/// The value of an exponent part `e[+|-]DIGITS`; 0 where there is none.
pub open spec fn exponent_value(x: Seq<char>) -> int {
    if x.len() == 0 {
        0
    } else {
        let t = x.skip(1);
        if t.len() > 0 && t[0] == '-' {
            -digits_nat(t.skip(1))
        } else if t.len() > 0 && t[0] == '+' {
            digits_nat(t.skip(1)) as int
        } else {
            digits_nat(t) as int
        }
    }
}

/// Whether the fraction `0.A` is at most the fraction `0.B`, both written
/// by their decimal digits.
pub open spec fn digits_le(a: Seq<char>, b: Seq<char>) -> bool
    decreases a.len() + b.len(),
{
    if a.len() == 0 {
        true
    } else if b.len() == 0 {
        a[0] == '0' && digits_le(a.drop_first(), b)
    } else if (a[0] as u32) < (b[0] as u32) {
        true
    } else if (a[0] as u32) > (b[0] as u32) {
        false
    } else {
        digits_le(a.drop_first(), b.drop_first())
    }
}

/// The digits of `1 + 2^-53`, which is `0.D * 10^1`: the point halfway
/// between `1.0` and the next `f64`, which rounds (to even) to `1.0`.
pub open spec fn one_bound() -> Seq<char> {
    "100000000000000011102230246251565404236316680908203125"@
}

/// The digits of `2^-1075`, which is `0.D * 10^-323`: the point halfway
/// between `-0.0` and the negative `f64` nearest it, which rounds (to
/// even) to `-0.0`.
pub open spec fn zero_bound() -> Seq<char> {
    "24703282292062327208828439643411068618252990130716238221279284125033775363510437593264991818081799618989828234772285886546332835517796989819938739800539093906315035659515570226392290858392449105184435931802849936536152500319370457678249219365623669863658480757001585769269903706311928279558551332927834338409351978015531246597263579574622766465272827220056374006485499977096599470454020828166226237857393450736339007967761930577506740176324673600968951340535537458516661134223766678604162159680461914467291840300530057530849048765391711386591646239524912623653881879636239373280423891018672348497668235089863388587925628302755995657524455507255189313690836254779186948667994968324049705821028513185451396213837722826145437693412532098591327667236328125"@
}

/// Whether `str::parse::<f64>` reads the text as a number in `[0.0, 1.0]`.
/// `inf`, `infinity` and `nan` are none. A decimal text writes
/// `x = 0.S * 10^p`, with `S` its significant digits (the digits with the
/// point and the leading zeros taken out) and `p` given by the point, the
/// leading zeros and the exponent; the parse rounds `x` to the nearest
/// `f64`, ties to even, so the result lies in `[0.0, 1.0]` exactly when
/// `-2^-1075 <= x <= 1 + 2^-53`: when `S` is empty (`x` is zero), when
/// `x >= 0` and `p <= 0` or `p == 1` and `0.S <= 0.one_bound()`, and when
/// `x < 0` and `p <= -324` or `p == -323` and `0.S <= 0.zero_bound()`.
pub open spec fn unit_interval_text(s: Seq<char>) -> bool {
    let negative = s.len() > 0 && s[0] == '-';
    let b = if s.len() > 0 && (s[0] == '+' || s[0] == '-') {
        s.skip(1)
    } else {
        s
    };
    let lower = ascii_lower(b);
    if lower == "inf"@ || lower == "infinity"@ || lower == "nan"@ {
        false
    } else {
        let e = first_exp_mark(b, 0);
        let m = b.take(e);
        let d = first_dot(m, 0);
        let ds = if d < m.len() {
            m.take(d) + m.skip(d + 1)
        } else {
            m
        };
        let z = leading_zeros(ds);
        let sig = ds.skip(z as int);
        let p = d - z + exponent_value(b.skip(e));
        if sig.len() == 0 {
            true
        } else if !negative {
            p <= 0 || (p == 1 && digits_le(sig, one_bound()))
        } else {
            p <= -324 || (p == -323 && digits_le(sig, zero_bound()))
        }
    }
}

fn one_bound_text() -> (r: &'static str)
    ensures
        r@ == one_bound(),
{
    "100000000000000011102230246251565404236316680908203125"
}

fn zero_bound_text() -> (r: &'static str)
    ensures
        r@ == zero_bound(),
{
    "24703282292062327208828439643411068618252990130716238221279284125033775363510437593264991818081799618989828234772285886546332835517796989819938739800539093906315035659515570226392290858392449105184435931802849936536152500319370457678249219365623669863658480757001585769269903706311928279558551332927834338409351978015531246597263579574622766465272827220056374006485499977096599470454020828166226237857393450736339007967761930577506740176324673600968951340535537458516661134223766678604162159680461914467291840300530057530849048765391711386591646239524912623653881879636239373280423891018672348497668235089863388587925628302755995657524455507255189313690836254779186948667994968324049705821028513185451396213837722826145437693412532098591327667236328125"
}

/// Whether `0.A` (the digits of `a` from `from` on) is at most `0.B`.
fn digits_le_from(a: &Vec<char>, from: usize, b: &Vec<char>) -> (r: bool)
    requires
        from <= a.len(),
    ensures
        r == digits_le(a@.skip(from as int), b@),
{
    let mut i: usize = 0;
    assert(b@.skip(0) =~= b@);
    while from + i < a.len() && i < b.len()
        invariant
            from <= a.len(),
            from + i <= a.len(),
            i <= b.len(),
            digits_le(a@.skip(from as int), b@) == digits_le(a@.skip(from + i), b@.skip(i as int)),
        decreases a.len() - from - i,
    {
        let x = a[from + i] as u32;
        let y = b[i] as u32;
        assert(a@.skip(from + i)[0] == a@[from + i]);
        assert(b@.skip(i as int)[0] == b@[i as int]);
        if x < y {
            return true;
        }
        if x > y {
            return false;
        }
        assert(a@.skip(from + i).drop_first() =~= a@.skip(from + i + 1));
        assert(b@.skip(i as int).drop_first() =~= b@.skip(i + 1));
        i += 1;
    }
    if from + i == a.len() {
        return true;
    }
    let ghost rest = b@.skip(i as int);
    assert(rest.len() == 0);
    let mut j = from + i;
    while j < a.len()
        invariant
            from + i <= j <= a.len(),
            rest.len() == 0,
            digits_le(a@.skip(from as int), b@) == digits_le(a@.skip(j as int), rest),
        decreases a.len() - j,
    {
        assert(a@.skip(j as int)[0] == a@[j as int]);
        if a[j] != '0' {
            return false;
        }
        assert(a@.skip(j as int).drop_first() =~= a@.skip(j + 1));
        j += 1;
    }
    true
}

/// The bound above which a saturated exponent lies; no text is long enough
/// for its point and zeros to bring such an exponent back near zero.
pub open spec fn exponent_cap() -> nat {
    0x4_0000_0000_0000_0000
}

fn chars_from(cs: &Vec<char>, start: usize) -> (r: Vec<char>)
    requires
        start <= cs.len(),
    ensures
        r@ == cs@.subrange(start as int, cs.len() as int),
{
    let mut b: Vec<char> = Vec::new();
    let mut k = start;
    while k < cs.len()
        invariant
            start <= k <= cs.len(),
            b@ == cs@.subrange(start as int, k as int),
        decreases cs.len() - k,
    {
        b.push(cs[k]);
        assert(b@ =~= cs@.subrange(start as int, k + 1));
        k += 1;
    }
    b
}

fn is_special_word(b: &Vec<char>) -> (r: bool)
    ensures
        r == (ascii_lower(b@) == "inf"@ || ascii_lower(b@) == "infinity"@ || ascii_lower(b@) == "nan"@),
{
    let mut text = String::new();
    let mut t: usize = 0;
    while t < b.len()
        invariant
            t <= b.len(),
            text@ == b@.take(t as int),
        decreases b.len() - t,
    {
        crate::text::push_char(&mut text, b[t]);
        assert(text@ =~= b@.take(t + 1));
        t += 1;
    }
    assert(b@.take(b.len() as int) =~= b@);
    let lower = to_ascii_lower(text.as_str());
    crate::json::text_eq(lower.as_str(), "inf") || crate::json::text_eq(lower.as_str(), "infinity")
        || crate::json::text_eq(lower.as_str(), "nan")
}

fn exp_mark_index(b: &Vec<char>) -> (r: usize)
    ensures
        r == first_exp_mark(b@, 0),
        r <= b.len(),
{
    let mut e: usize = 0;
    while e < b.len() && !(b[e] == 'e' || b[e] == 'E')
        invariant
            e <= b.len(),
            first_exp_mark(b@, 0) == first_exp_mark(b@, e as int),
        decreases b.len() - e,
    {
        e += 1;
    }
    e
}

fn dot_index(b: &Vec<char>, e: usize) -> (r: usize)
    requires
        e <= b.len(),
    ensures
        r == first_dot(b@.take(e as int), 0),
        r <= e,
{
    let ghost m = b@.take(e as int);
    let mut d: usize = 0;
    while d < e && b[d] != '.'
        invariant
            d <= e <= b.len(),
            m == b@.take(e as int),
            first_dot(m, 0) == first_dot(m, d as int),
        decreases e - d,
    {
        assert(m[d as int] == b@[d as int]);
        d += 1;
    }
    if d < e {
        assert(m[d as int] == b@[d as int]);
    }
    d
}

fn digits_without_point(b: &Vec<char>, d: usize, e: usize) -> (r: Vec<char>)
    requires
        d <= e <= b.len(),
    ensures
        r@ == ({
            let m = b@.take(e as int);
            if d < m.len() {
                m.take(d as int) + m.skip(d + 1)
            } else {
                m
            }
        }),
        r.len() <= b.len(),
{
    let mut ds: Vec<char> = Vec::new();
    let mut q: usize = 0;
    while q < e
        invariant
            q <= e <= b.len(),
            d <= e,
            ds@ == if q <= d {
                b@.take(q as int)
            } else {
                b@.take(d as int) + b@.subrange(d + 1, q as int)
            },
        decreases e - q,
    {
        if q != d {
            ds.push(b[q]);
        }
        proof {
            if q < d {
                assert(ds@ =~= b@.take(q + 1));
            } else if q == d {
                assert(b@.take(d as int) + b@.subrange(d + 1, q + 1) =~= b@.take(q as int));
            } else {
                assert(ds@ =~= b@.take(d as int) + b@.subrange(d + 1, q + 1));
            }
        }
        q += 1;
    }
    let ghost m = b@.take(e as int);
    if d < e {
        assert(ds@ =~= m.take(d as int) + m.skip(d + 1));
    } else {
        assert(ds@ =~= m);
    }
    ds
}

fn count_leading_zeros(ds: &Vec<char>) -> (r: usize)
    ensures
        r == leading_zeros(ds@),
        r <= ds.len(),
{
    let mut z: usize = 0;
    assert(ds@.skip(0) =~= ds@);
    while z < ds.len() && ds[z] == '0'
        invariant
            z <= ds.len(),
            leading_zeros(ds@) == z + leading_zeros(ds@.skip(z as int)),
        decreases ds.len() - z,
    {
        assert(ds@.skip(z as int)[0] == ds@[z as int]);
        assert(ds@.skip(z as int).drop_first() =~= ds@.skip(z + 1));
        z += 1;
    }
    if z < ds.len() {
        assert(ds@.skip(z as int)[0] == ds@[z as int]);
    }
    z
}

/// The number that the digits of `b` from `from` on write, or the cap
/// where it is larger.
fn saturated_digits(b: &Vec<char>, from: usize) -> (r: u128)
    requires
        from <= b.len(),
    ensures
        r == if digits_nat(b@.subrange(from as int, b.len() as int)) < exponent_cap() {
            digits_nat(b@.subrange(from as int, b.len() as int))
        } else {
            exponent_cap()
        },
{
    let cap: u128 = 0x4_0000_0000_0000_0000;
    let mut acc: u128 = 0;
    let mut w = from;
    assert(b@.subrange(from as int, from as int) =~= Seq::<char>::empty());
    while w < b.len()
        invariant
            from <= w <= b.len(),
            cap == exponent_cap(),
            acc == if digits_nat(b@.subrange(from as int, w as int)) < exponent_cap() {
                digits_nat(b@.subrange(from as int, w as int))
            } else {
                exponent_cap()
            },
        decreases b.len() - w,
    {
        let c = b[w];
        let v: u128 = if '0' <= c && c <= '9' {
            (c as u32 - '0' as u32) as u128
        } else {
            0
        };
        assert(b@.subrange(from as int, w + 1).drop_last() =~= b@.subrange(from as int, w as int));
        assert(b@.subrange(from as int, w + 1).last() == c);
        assert(v == digit_value(c));
        if acc < cap {
            acc = acc * 10 + v;
            if acc > cap {
                acc = cap;
            }
        }
        w += 1;
    }
    acc
}

/// Where the digits of the exponent that starts at `e` begin, and whether
/// it is negative.
fn exponent_digits(b: &Vec<char>, e: usize) -> (r: (bool, usize))
    requires
        e <= b.len(),
    ensures
        e <= r.1 <= b.len(),
        exponent_value(b@.skip(e as int)) == if r.0 {
            -digits_nat(b@.subrange(r.1 as int, b.len() as int))
        } else {
            digits_nat(b@.subrange(r.1 as int, b.len() as int)) as int
        },
{
    let ghost x = b@.skip(e as int);
    if e == b.len() {
        assert(b@.subrange(e as int, e as int) =~= Seq::<char>::empty());
        return (false, e);
    }
    assert(x.skip(1) =~= b@.subrange(e + 1, b.len() as int));
    if e + 1 < b.len() && (b[e + 1] == '-' || b[e + 1] == '+') {
        assert(x.skip(1)[0] == b@[e + 1]);
        assert(x.skip(1).skip(1) =~= b@.subrange(e + 2, b.len() as int));
        (b[e + 1] == '-', e + 2)
    } else {
        if e + 1 < b.len() {
            assert(x.skip(1)[0] == b@[e + 1]);
        }
        (false, e + 1)
    }
}

/// Whether `str::parse::<f64>` reads the text as a number in `[0.0, 1.0]`.
pub fn in_unit_interval_text(s: &str) -> (r: bool)
    ensures
        r == unit_interval_text(s@),
{
    let cs = chars_of(s);
    let negative = cs.len() > 0 && cs[0] == '-';
    let start: usize = if cs.len() > 0 && (cs[0] == '+' || cs[0] == '-') {
        1
    } else {
        0
    };
    let b = chars_from(&cs, start);
    assert(b@ =~= if s@.len() > 0 && (s@[0] == '+' || s@[0] == '-') {
        s@.skip(1)
    } else {
        s@
    });
    if is_special_word(&b) {
        return false;
    }
    let e = exp_mark_index(&b);
    let d = dot_index(&b, e);
    let ds = digits_without_point(&b, d, e);
    let z = count_leading_zeros(&ds);
    let (exp_negative, from) = exponent_digits(&b, e);
    let acc = saturated_digits(&b, from);
    let signed_exp: i128 = if exp_negative {
        -(acc as i128)
    } else {
        acc as i128
    };
    let p: i128 = d as i128 - z as i128 + signed_exp;
    let ghost true_p = d - z + exponent_value(b@.skip(e as int));
    let ghost u = b@.subrange(from as int, b.len() as int);
    if z == ds.len() {
        assert(ds@.skip(z as int).len() == 0);
        return true;
    }
    let r = if !negative {
        p <= 0 || (p == 1 && digits_le_from(&ds, z, &chars_of(one_bound_text())))
    } else {
        p <= -324 || (p == -323 && digits_le_from(&ds, z, &chars_of(zero_bound_text())))
    };
    proof {
        if digits_nat(u) < exponent_cap() {
            assert(p == true_p);
        } else {
            assert(acc == exponent_cap());
            if exp_negative {
                assert(true_p <= p);
                assert(p < -324);
            } else {
                assert(true_p >= p);
                assert(p > 2);
            }
        }
    }
    r
}

} // verus!
