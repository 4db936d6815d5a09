use vstd::prelude::*;
use vstd::string::StrSliceExecFns;
use vstd::string::StringExecFns;
use crate::json::chars_of;

verus! {

/// Characters with the Unicode `White_Space` property, the ones that
/// `str::trim` removes.
pub open spec fn is_space(c: char) -> bool {
    let n = c as u32;
    ||| 0x9 <= n <= 0xd
    ||| n == 0x20
    ||| n == 0x85
    ||| n == 0xa0
    ||| n == 0x1680
    ||| 0x2000 <= n <= 0x200a
    ||| n == 0x2028
    ||| n == 0x2029
    ||| n == 0x202f
    ||| n == 0x205f
    ||| n == 0x3000
}

/// Whether the text holds only white space (or nothing).
pub open spec fn is_blank(s: Seq<char>) -> bool {
    forall|i: int| 0 <= i < s.len() ==> is_space(#[trigger] s[i])
}

/// Index of the first non-space character at or after `i`, or the length.
pub open spec fn first_non_space(s: Seq<char>, i: int) -> int
    decreases s.len() - i,
{
    if i >= s.len() || i < 0 {
        s.len() as int
    } else if !is_space(s[i]) {
        i
    } else {
        first_non_space(s, i + 1)
    }
}

/// One past the last non-space character before `j`, or `lo`.
pub open spec fn last_non_space_end(s: Seq<char>, lo: int, j: int) -> int
    decreases j - lo,
{
    if j <= lo {
        lo
    } else if !is_space(s[j - 1]) {
        j
    } else {
        last_non_space_end(s, lo, j - 1)
    }
}

/// The text without leading and trailing white space.
pub open spec fn trimmed(s: Seq<char>) -> Seq<char> {
    let lo = first_non_space(s, 0);
    s.subrange(lo, last_non_space_end(s, lo, s.len() as int))
}

pub open spec fn starts_with(s: Seq<char>, p: Seq<char>) -> bool {
    p.len() <= s.len() && s.take(p.len() as int) == p
}

/// The text with every leading copy of `p` removed, as `trim_start_matches`.
pub open spec fn strip_all(s: Seq<char>, p: Seq<char>) -> Seq<char>
    decreases s.len(),
{
    if p.len() > 0 && starts_with(s, p) {
        strip_all(s.skip(p.len() as int), p)
    } else {
        s
    }
}

pub open spec fn is_digit(c: char) -> bool {
    '0' <= c <= '9'
}

/// The number that a run of decimal digits denotes.
pub open spec fn digits_value(s: Seq<char>) -> nat
    decreases s.len(),
{
    if s.len() == 0 {
        0
    } else {
        digits_value(s.drop_last()) * 10 + ((s.last() as u32) - ('0' as u32)) as nat
    }
}

/// What `str::parse::<u64>` gives: an optional `+`, then one or more
/// decimal digits whose value fits `u64`.
pub open spec fn parse_u64_spec(s: Seq<char>) -> Option<u64> {
    let d = unsigned_part(s);
    if d.len() > 0 && all_digits(d) && digits_value(d) <= u64::MAX {
        Some(digits_value(d) as u64)
    } else {
        None
    }
}

/// The text without one leading `+`.
pub open spec fn unsigned_part(s: Seq<char>) -> Seq<char> {
    if s.len() > 0 && s[0] == '+' {
        s.drop_first()
    } else {
        s
    }
}

pub open spec fn all_digits(d: Seq<char>) -> bool {
    forall|i: int| 0 <= i < d.len() ==> is_digit(#[trigger] d[i])
}

/// Decimal text of a number, without leading zeros.
pub open spec fn decimal(n: nat) -> Seq<char>
    decreases n,
{
    if n < 10 {
        seq![(n + ('0' as u32)) as char]
    } else {
        decimal(n / 10).push(((n % 10) + ('0' as u32)) as char)
    }
}

/// Appends one character; `String::push`.
#[verifier::external_body]
pub(crate) fn push_char(s: &mut String, c: char)
    ensures
        final(s)@ == old(s)@.push(c),
{
    s.push(c)
}

/// A new text holding `a` then `b`.
pub fn cat(a: &str, b: &str) -> (r: String)
    ensures
        r@ == a@ + b@,
{
    let mut r = String::from_str(a);
    r.append(b);
    r
}

/// A new text holding `a`, `b` then `c`.
pub fn cat3(a: &str, b: &str, c: &str) -> (r: String)
    ensures
        r@ == a@ + b@ + c@,
{
    let mut r = String::from_str(a);
    r.append(b);
    r.append(c);
    r
}

/// A new text holding the four parts in order.
pub fn cat4(a: &str, b: &str, c: &str, d: &str) -> (r: String)
    ensures
        r@ == a@ + b@ + c@ + d@,
{
    let mut r = String::from_str(a);
    r.append(b);
    r.append(c);
    r.append(d);
    r
}

/// A new text holding the five parts in order.
pub fn cat5(a: &str, b: &str, c: &str, d: &str, e: &str) -> (r: String)
    ensures
        r@ == a@ + b@ + c@ + d@ + e@,
{
    let mut r = String::from_str(a);
    r.append(b);
    r.append(c);
    r.append(d);
    r.append(e);
    r
}

/// A copy of the text as an owned `String`.
pub fn owned(s: &str) -> (r: String)
    ensures
        r@ == s@,
{
    String::from_str(s)
}

/// Whether the character is white space.
pub fn char_is_space(c: char) -> (r: bool)
    ensures
        r == is_space(c),
{
    let n = c as u32;
    (0x9 <= n && n <= 0xd) || n == 0x20 || n == 0x85 || n == 0xa0 || n == 0x1680 || (0x2000 <= n
        && n <= 0x200a) || n == 0x2028 || n == 0x2029 || n == 0x202f || n == 0x205f || n == 0x3000
}

/// Whether the text holds only white space; `s.trim().is_empty()`.
pub fn blank(s: &str) -> (r: bool)
    ensures
        r == is_blank(s@),
{
    let cs = chars_of(s);
    let mut i: usize = 0;
    while i < cs.len()
        invariant
            cs@ == s@,
            i <= cs.len(),
            forall|j: int| 0 <= j < i ==> is_space(#[trigger] cs[j]),
        decreases cs.len() - i,
    {
        if !char_is_space(cs[i]) {
            return false;
        }
        i += 1;
    }
    true
}

proof fn lemma_first_non_space_bounds(s: Seq<char>, i: int)
    requires
        0 <= i <= s.len(),
    ensures
        i <= first_non_space(s, i) <= s.len(),
    decreases s.len() - i,
{
    if i < s.len() && is_space(s[i]) {
        lemma_first_non_space_bounds(s, i + 1);
    }
}

proof fn lemma_last_bounds(s: Seq<char>, lo: int, j: int)
    requires
        0 <= lo <= j <= s.len(),
    ensures
        lo <= last_non_space_end(s, lo, j) <= j,
    decreases j - lo,
{
    if j > lo && is_space(s[j - 1]) {
        lemma_last_bounds(s, lo, j - 1);
    }
}

/// The text without leading and trailing white space; `str::trim`.
pub fn trim(s: &str) -> (r: String)
    ensures
        r@ == trimmed(s@),
{
    let cs = chars_of(s);
    let mut lo: usize = 0;
    while lo < cs.len() && char_is_space(cs[lo])
        invariant
            cs@ == s@,
            lo <= cs.len(),
            first_non_space(s@, 0) == first_non_space(s@, lo as int),
        decreases cs.len() - lo,
    {
        lo += 1;
    }
    let mut hi: usize = cs.len();
    proof {
        lemma_first_non_space_bounds(s@, lo as int);
    }
    while hi > lo && char_is_space(cs[hi - 1])
        invariant
            cs@ == s@,
            lo <= hi <= cs.len(),
            last_non_space_end(s@, lo as int, s@.len() as int) == last_non_space_end(
                s@,
                lo as int,
                hi as int,
            ),
        decreases hi,
    {
        hi -= 1;
    }
    let sub = s.substring_char(lo, hi);
    String::from_str(sub)
}

/// Whether `s` begins with `p`.
pub fn has_prefix(s: &str, p: &str) -> (r: bool)
    ensures
        r == starts_with(s@, p@),
{
    let x = chars_of(s);
    let y = chars_of(p);
    if y.len() > x.len() {
        return false;
    }
    let mut i: usize = 0;
    while i < y.len()
        invariant
            x@ == s@,
            y@ == p@,
            y.len() <= x.len(),
            i <= y.len(),
            forall|j: int| 0 <= j < i ==> x[j] == y[j],
        decreases y.len() - i,
    {
        if x[i] != y[i] {
            assert(s@.take(p@.len() as int)[i as int] != p@[i as int]);
            return false;
        }
        i += 1;
    }
    assert(s@.take(p@.len() as int) =~= p@);
    true
}

/// `s` with every leading copy of `p` removed; `str::trim_start_matches`.
pub fn strip_prefixes(s: &str, p: &str) -> (r: String)
    ensures
        r@ == strip_all(s@, p@),
{
    let n = p.unicode_len();
    let total = s.unicode_len();
    if n == 0 {
        return String::from_str(s);
    }
    let mut start: usize = 0;
    let mut rest = String::from_str(s);
    while has_prefix(rest.as_str(), p)
        invariant
            n == p@.len(),
            n > 0,
            total == s@.len(),
            start <= total,
            rest@ == s@.skip(start as int),
            strip_all(s@, p@) == strip_all(rest@, p@),
        decreases total - start,
    {
        let ghost before = rest@;
        let next = rest.as_str().substring_char(n, rest.as_str().unicode_len());
        let owned_next = String::from_str(next);
        proof {
            assert(owned_next@ =~= before.skip(n as int));
            assert(s@.skip(start as int).skip(n as int) =~= s@.skip(start + n));
        }
        rest = owned_next;
        start = start + n;
    }
    rest
}

/// The text after the first `c`, or empty when `c` does not occur.
pub open spec fn after_first(s: Seq<char>, c: char) -> Seq<char>
    decreases s.len(),
{
    if s.len() == 0 {
        Seq::empty()
    } else if s[0] == c {
        s.drop_first()
    } else {
        after_first(s.drop_first(), c)
    }
}

proof fn lemma_after_first_skip(s: Seq<char>, c: char, i: int)
    requires
        0 <= i <= s.len(),
        forall|j: int| 0 <= j < i ==> s[j] != c,
    ensures
        after_first(s, c) == after_first(s.skip(i), c),
    decreases i,
{
    if i > 0 {
        lemma_after_first_skip(s.drop_first(), c, i - 1);
        assert(s.drop_first().skip(i - 1) =~= s.skip(i));
    } else {
        assert(s.skip(0) =~= s);
    }
}

/// The value half of `split_once('=')`, empty when there is no `=`.
pub fn after_equals(s: &str) -> (r: String)
    ensures
        r@ == after_first(s@, '='),
{
    let cs = chars_of(s);
    let mut i: usize = 0;
    while i < cs.len() && cs[i] != '='
        invariant
            cs@ == s@,
            i <= cs.len(),
            forall|j: int| 0 <= j < i ==> s@[j] != '=',
        decreases cs.len() - i,
    {
        i += 1;
    }
    proof {
        lemma_after_first_skip(s@, '=', i as int);
    }
    if i == cs.len() {
        assert(s@.skip(i as int) =~= Seq::<char>::empty());
        String::new()
    } else {
        let sub = s.substring_char(i + 1, cs.len());
        assert(s@.skip(i as int).drop_first() =~= s@.subrange(i + 1, cs.len() as int));
        String::from_str(sub)
    }
}

proof fn lemma_digits_value_push(d: Seq<char>, c: char)
    ensures
        digits_value(d.push(c)) == digits_value(d) * 10 + ((c as u32) - ('0' as u32)) as nat,
{
    assert(d.push(c).drop_last() =~= d);
}

/// `str::parse::<u64>`.
pub fn parse_u64(s: &str) -> (r: Option<u64>)
    ensures
        r == parse_u64_spec(s@),
{
    let cs = chars_of(s);
    let mut i: usize = 0;
    if cs.len() > 0 && cs[0] == '+' {
        i = 1;
    }
    let ghost d = unsigned_part(s@);
    assert(d =~= s@.skip(i as int));
    if i == cs.len() {
        return None;
    }
    let start = i;
    let mut value: u64 = 0;
    while i < cs.len()
        invariant
            cs@ == s@,
            start <= i <= cs.len(),
            d == s@.skip(start as int),
            d == unsigned_part(s@),
            d.len() > 0,
            forall|j: int| start <= j < i ==> is_digit(#[trigger] s@[j]),
            value as nat == digits_value(s@.subrange(start as int, i as int)),
        decreases cs.len() - i,
    {
        let c = cs[i];
        if !('0' <= c && c <= '9') {
            assert(d[i - start] == c);
            assert(!is_digit(d[(i - start) as int]));
            return None;
        }
        let digit = (c as u32 - '0' as u32) as u64;
        proof {
            lemma_digits_value_push(s@.subrange(start as int, i as int), c);
            assert(s@.subrange(start as int, i as int).push(c) =~= s@.subrange(start as int, i + 1));
        }
        if value > 1844674407370955161 || (value == 1844674407370955161 && digit > 5) {
            proof {
                let v = digits_value(s@.subrange(start as int, i + 1));
                assert(v == value * 10 + digit);
                assert(v > u64::MAX) by (nonlinear_arith)
                    requires
                        v == value * 10 + digit,
                        value > 1844674407370955161 || (value == 1844674407370955161 && digit > 5),
                ;
                if all_digits(d) {
                    assert(d.take((i - start) + 1) =~= s@.subrange(start as int, i + 1));
                    lemma_digits_prefix_bound(d, (i - start) as int);
                }
            }
            return None;
        }
        value = value * 10 + digit;
        i += 1;
    }
    assert(s@.subrange(start as int, i as int) =~= d);
    Some(value)
}

proof fn lemma_digits_prefix_bound(d: Seq<char>, k: int)
    requires
        0 <= k < d.len(),
        all_digits(d),
        digits_value(d.take(k + 1)) > u64::MAX,
    ensures
        digits_value(d) > u64::MAX,
    decreases d.len() - k,
{
    if k + 1 < d.len() {
        let t = d.take(k + 2);
        assert(t.drop_last() =~= d.take(k + 1));
        assert(digits_value(t) >= digits_value(d.take(k + 1)) * 10) by (nonlinear_arith)
            requires
                digits_value(t) == digits_value(t.drop_last()) * 10 + ((t.last() as u32) - ('0' as u32)) as nat,
                t.drop_last() == d.take(k + 1),
        ;
        lemma_digits_prefix_bound(d, k + 1);
    } else {
        assert(d.take(k + 1) =~= d);
    }
}

/// What `str::parse::<i64>` gives: an optional sign, then one or more
/// decimal digits whose value fits `i64`.
pub open spec fn parse_i64_spec(s: Seq<char>) -> Option<i64> {
    if s.len() > 0 && s[0] == '-' {
        let d = s.drop_first();
        if d.len() > 0 && all_digits(d) && digits_value(d) <= 0x8000_0000_0000_0000 {
            Some((0 - digits_value(d)) as i64)
        } else {
            None
        }
    } else {
        let d = unsigned_part(s);
        if d.len() > 0 && all_digits(d) && digits_value(d) <= i64::MAX {
            Some(digits_value(d) as i64)
        } else {
            None
        }
    }
}

/// `str::parse::<i64>`.
pub fn parse_i64(s: &str) -> (r: Option<i64>)
    ensures
        r == parse_i64_spec(s@),
{
    let cs = chars_of(s);
    if cs.len() > 0 && cs[0] == '-' {
        let rest = s.substring_char(1, cs.len());
        assert(rest@ =~= s@.drop_first());
        if cs.len() > 1 && cs[1] == '+' {
            assert(!is_digit(rest@[0]));
            return None;
        }
        assert(unsigned_part(rest@) == rest@);
        match parse_u64(rest) {
            Some(m) => if m <= 0x8000_0000_0000_0000u64 {
                if m == 0x8000_0000_0000_0000u64 {
                    Some(i64::MIN)
                } else {
                    Some(0i64 - (m as i64))
                }
            } else {
                None
            },
            None => None,
        }
    } else {
        match parse_u64(s) {
            Some(n) => if n <= 0x7fff_ffff_ffff_ffffu64 {
                Some(n as i64)
            } else {
                None
            },
            None => None,
        }
    }
}

proof fn lemma_decimal_digits(n: nat)
    ensures
        decimal(n).len() > 0,
        all_digits(decimal(n)),
        digits_value(decimal(n)) == n,
        decimal(n)[0] != '+',
    decreases n,
{
    if n < 10 {
        let c = (n + ('0' as u32)) as char;
        assert((c as u32) == n + 48);
        assert(decimal(n) == seq![c]);
        assert(seq![c] == Seq::<char>::empty().push(c));
        lemma_digits_value_push(Seq::<char>::empty(), c);
    } else {
        lemma_decimal_digits(n / 10);
        let d = decimal(n / 10);
        let c = ((n % 10) + ('0' as u32)) as char;
        assert((c as u32) == n % 10 + 48);
        vstd::arithmetic::div_mod::lemma_fundamental_div_mod(n as int, 10);
        assert(decimal(n) == d.push(c));
        lemma_digits_value_push(d, c);
        assert(digits_value(d.push(c)) == digits_value(d) * 10 + ((c as u32) - ('0' as u32)) as nat);
        assert(digits_value(d) == n / 10);
        assert((n / 10) * 10 + n % 10 == n) by (nonlinear_arith)
            requires
                n == 10 * (n / 10) + (n % 10),
        ;
        assert(d.push(c).drop_last() =~= d);
        assert(forall|i: int| 0 <= i < d.len() ==> d.push(c)[i] == d[i]);
        assert(decimal(n)[0] == d[0]);
    }
}

/// The decimal text of a number reads back as that number.
pub proof fn law_decimal_round_trip(n: u64)
    ensures
        parse_u64_spec(decimal(n as nat)) == Some(n),
        parse_i64_spec(decimal(n as nat)) == (if n <= i64::MAX as u64 {
            Some(n as i64)
        } else {
            None::<i64>
        }),
{
    lemma_decimal_digits(n as nat);
    assert(unsigned_part(decimal(n as nat)) == decimal(n as nat));
    assert(decimal(n as nat)[0] != '-') by {
        assert(is_digit(decimal(n as nat)[0]));
    }
}

/// Decimal text of a number; `u64::to_string`.
pub fn decimal_text(n: u64) -> (r: String)
    ensures
        r@ == decimal(n as nat),
    decreases n,
{
    if n < 10 {
        let mut r = String::new();
        push_char(&mut r, char_of_digit(n));
        assert(r@ =~= decimal(n as nat));
        r
    } else {
        let mut r = decimal_text(n / 10);
        push_char(&mut r, char_of_digit(n % 10));
        r
    }
}

fn char_of_digit(d: u64) -> (c: char)
    requires
        d < 10,
    ensures
        c == ((d + ('0' as u32)) as char),
{
    match d {
        0 => '0',
        1 => '1',
        2 => '2',
        3 => '3',
        4 => '4',
        5 => '5',
        6 => '6',
        7 => '7',
        8 => '8',
        _ => '9',
    }
}

/// The character in ASCII lowercase: `A` to `Z` become `a` to `z`.
pub open spec fn lower_char(c: char) -> char {
    if 'A' <= c && c <= 'Z' {
        ((c as u8) + 32) as char
    } else {
        c
    }
}

/// The text with ASCII capitals in lowercase; `str::to_ascii_lowercase`.
pub open spec fn ascii_lower(s: Seq<char>) -> Seq<char> {
    Seq::new(s.len(), |i: int| lower_char(s[i]))
}

/// The text with ASCII capitals in lowercase.
pub fn to_ascii_lower(s: &str) -> (r: String)
    ensures
        r@ == ascii_lower(s@),
{
    let cs = crate::json::chars_of(s);
    let mut r = String::new();
    let mut i: usize = 0;
    while i < cs.len()
        invariant
            cs@ == s@,
            i <= cs.len(),
            r@ == Seq::new(i as nat, |j: int| lower_char(cs@[j])),
        decreases cs.len() - i,
    {
        let c = cs[i];
        let l = if 'A' <= c && c <= 'Z' {
            ((c as u8) + 32) as char
        } else {
            c
        };
        push_char(&mut r, l);
        assert(r@ =~= Seq::new((i + 1) as nat, |j: int| lower_char(cs@[j])));
        i += 1;
    }
    r
}

/// The backend that a name asks for: trimmed and in lowercase, and none
/// when that leaves nothing.
pub open spec fn backend_choice(name: Option<Seq<char>>) -> Option<Seq<char>> {
    match name {
        Some(n) => if trimmed(n).len() == 0 {
            None
        } else {
            Some(ascii_lower(trimmed(n)))
        },
        None => None,
    }
}

/// The backend that a name asks for, trimmed and in lowercase.
pub fn normalize_backend(name: Option<String>) -> (r: Option<String>)
    ensures
        opt_text(r) == backend_choice(opt_text(name)),
{
    match name {
        Some(n) => {
            let t = trim(n.as_str());
            let l = to_ascii_lower(t.as_str());
            if l.as_str().unicode_len() == 0 {
                None
            } else {
                Some(l)
            }
        },
        None => None,
    }
}

/// An optional text by its characters.
pub open spec fn opt_text(o: Option<String>) -> Option<Seq<char>> {
    match o {
        Some(s) => Some(s@),
        None => None,
    }
}

proof fn lemma_first_non_space(s: Seq<char>, i: int, k: int)
    requires
        0 <= i <= k < s.len(),
        !is_space(s[k]),
    ensures
        i <= first_non_space(s, i) <= k,
        !is_space(s[first_non_space(s, i)]),
    decreases k - i,
{
    if is_space(s[i]) {
        lemma_first_non_space(s, i + 1, k);
    }
}

proof fn lemma_last_non_space_end(s: Seq<char>, lo: int, j: int)
    requires
        0 <= lo < j <= s.len(),
        !is_space(s[lo]),
    ensures
        lo < last_non_space_end(s, lo, j) <= j,
    decreases j - lo,
{
    if j - 1 > lo && is_space(s[j - 1]) {
        lemma_last_non_space_end(s, lo, j - 1);
    }
}

/// Trimming a text that is not blank leaves something.
pub proof fn lemma_trimmed_filled(s: Seq<char>)
    requires
        !is_blank(s),
    ensures
        trimmed(s).len() > 0,
{
    let k = choose|k: int| 0 <= k < s.len() && !is_space(s[k]);
    lemma_first_non_space(s, 0, k);
    let lo = first_non_space(s, 0);
    lemma_last_non_space_end(s, lo, s.len() as int);
}


proof fn lemma_first_non_space_found(s: Seq<char>, i: int)
    requires
        0 <= i <= s.len(),
    ensures
        first_non_space(s, i) < s.len() ==> !is_space(s[first_non_space(s, i)]),
    decreases s.len() - i,
{
    if i < s.len() && is_space(s[i]) {
        lemma_first_non_space_found(s, i + 1);
    }
}

proof fn lemma_last_end_found(s: Seq<char>, lo: int, j: int)
    requires
        0 <= lo <= j <= s.len(),
    ensures
        last_non_space_end(s, lo, j) > lo ==> !is_space(s[last_non_space_end(s, lo, j) - 1]),
    decreases j - lo,
{
    if j > lo && is_space(s[j - 1]) {
        lemma_last_end_found(s, lo, j - 1);
    }
}

/// A trimmed text that is not empty starts and ends with a character that
/// is no white space.
proof fn lemma_trimmed_ends(s: Seq<char>)
    ensures
        trimmed(s).len() > 0 ==> !is_space(trimmed(s)[0]) && !is_space(trimmed(s).last()),
{
    let lo = first_non_space(s, 0);
    lemma_first_non_space_bounds(s, 0);
    lemma_first_non_space_found(s, 0);
    lemma_last_bounds(s, lo, s.len() as int);
    lemma_last_end_found(s, lo, s.len() as int);
}

/// A text with no white space at either end is its own trim.
proof fn lemma_trimmed_fixed(t: Seq<char>)
    requires
        t.len() > 0 ==> !is_space(t[0]) && !is_space(t.last()),
    ensures
        trimmed(t) == t,
{
    if t.len() > 0 {
        assert(first_non_space(t, 0) == 0);
        assert(last_non_space_end(t, 0, t.len() as int) == t.len());
    }
    assert(trimmed(t) =~= t);
}

proof fn lemma_lower_char(c: char)
    ensures
        is_space(lower_char(c)) == is_space(c),
        lower_char(lower_char(c)) == lower_char(c),
{
    if 'A' <= c && c <= 'Z' {
        assert((c as u8) as u32 == c as u32);
        assert(((c as u8) + 32) as char as u32 == (c as u32) + 32);
    }
}

/// Choosing a backend from a name that was already chosen gives that name
/// back: trimming and lowercasing leave nothing more to do.
pub proof fn law_backend_choice_idempotent(name: Option<Seq<char>>)
    ensures
        backend_choice(backend_choice(name)) == backend_choice(name),
{
    if let Some(n) = name {
        let t = trimmed(n);
        if t.len() > 0 {
            let l = ascii_lower(t);
            lemma_trimmed_ends(n);
            lemma_lower_char(t[0]);
            lemma_lower_char(t.last());
            assert(l[0] == lower_char(t[0]));
            assert(l.last() == lower_char(t.last()));
            lemma_trimmed_fixed(l);
            assert forall|i: int| 0 <= i < l.len() implies #[trigger] ascii_lower(l)[i] == l[i] by {
                lemma_lower_char(t[i]);
            }
            assert(ascii_lower(l) =~= l);
        }
    }
}

} // verus!
