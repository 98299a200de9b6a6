//! Decimal fields of the utility's data, read as fixed-point thousandths.
use vstd::prelude::*;
use crate::text::{before_first, chars_of, copy_range, find_char, first_index, lemma_first_index};

verus! {

/// Number of fixed-point units in one whole unit: values are thousandths.
pub const SCALE: i128 = 1000;

/// Largest magnitude, in thousandths, that a field may hold (10^9 whole
/// units). This is a limit of the library: it keeps every sum and share
/// within `i128`, and a field beyond it reads as zero, like malformed text.
pub const MAX_MAGNITUDE: i128 = 1_000_000_000_000;

pub open spec fn is_digit(c: char) -> bool {
    '0' <= c && c <= '9'
}

pub open spec fn digit_value(c: char) -> int {
    c as int - '0' as int
}

pub open spec fn all_digits(s: Seq<char>) -> bool {
    forall|i: int| 0 <= i < s.len() ==> is_digit(#[trigger] s[i])
}

/// The value of a string of decimal digits, most significant first.
pub open spec fn digits_value(s: Seq<char>) -> int
    decreases s.len(),
{
    if s.len() == 0 {
        0
    } else {
        digits_value(s.drop_last()) * 10 + digit_value(s.last())
    }
}

/// The digit at `i`, or zero past the end.
pub open spec fn digit_or_zero(s: Seq<char>, i: int) -> int {
    if 0 <= i < s.len() {
        digit_value(s[i])
    } else {
        0
    }
}

/// The first three fractional digits, as thousandths (later ones are dropped).
pub open spec fn fraction_thousandths(f: Seq<char>) -> int {
    digit_or_zero(f, 0) * 100 + digit_or_zero(f, 1) * 10 + digit_or_zero(f, 2)
}

/// `s` with every thousands separator removed.
pub open spec fn without_commas(s: Seq<char>) -> Seq<char>
    decreases s.len(),
{
    if s.len() == 0 {
        s
    } else if s.last() == ',' {
        without_commas(s.drop_last())
    } else {
        without_commas(s.drop_last()).push(s.last())
    }
}

/// Magnitude in thousandths of an unsigned decimal `digits[.digits]`,
/// or `None` when it is not of that form.
pub open spec fn unsigned_decimal(u: Seq<char>) -> Option<int> {
    let ip = before_first(u, '.');
    let fp = match first_index(u, '.') {
        Some(d) => u.skip(d + 1),
        None => Seq::empty(),
    };
    if all_digits(ip) && all_digits(fp) && ip.len() + fp.len() > 0 {
        Some(digits_value(ip) * 1000 + fraction_thousandths(fp))
    } else {
        None
    }
}

/// Value in thousandths of an optionally signed decimal, `None` when
/// malformed or beyond `MAX_MAGNITUDE`.
pub open spec fn decimal_value(s: Seq<char>) -> Option<int> {
    let negative = s.len() > 0 && s[0] == '-';
    let u = if s.len() > 0 && (s[0] == '-' || s[0] == '+') {
        s.drop_first()
    } else {
        s
    };
    match unsigned_decimal(u) {
        Some(m) => if m <= MAX_MAGNITUDE {
            Some(if negative { -m } else { m })
        } else {
            None
        },
        None => None,
    }
}

/// A placeholder that stands for "no value".
pub open spec fn is_placeholder(s: Seq<char>) -> bool {
    s.len() == 0 || s == seq!['-'] || s == seq!['N', '/', 'A']
}

/// What a numeric field reads as: the text before any parenthetical note,
/// without separators; placeholders and malformed text read as zero.
pub open spec fn numeric_value(s: Seq<char>) -> int {
    let cleaned = without_commas(before_first(s, '('));
    if is_placeholder(cleaned) {
        0
    } else {
        match decimal_value(cleaned) {
            Some(v) => v,
            None => 0,
        }
    }
}

proof fn lemma_digits_value_nonneg(s: Seq<char>)
    requires
        all_digits(s),
    ensures
        digits_value(s) >= 0,
    decreases s.len(),
{
    if s.len() > 0 {
        lemma_digits_value_nonneg(s.drop_last());
    }
}

proof fn lemma_digits_prefix_le(s: Seq<char>, k: int)
    requires
        all_digits(s),
        0 <= k <= s.len(),
    ensures
        digits_value(s.take(k)) <= digits_value(s),
    decreases s.len(),
{
    if k == s.len() {
        assert(s.take(k) =~= s);
    } else {
        lemma_digits_prefix_le(s.drop_last(), k);
        lemma_digits_value_nonneg(s.drop_last());
        assert(s.drop_last().take(k) =~= s.take(k));
    }
}


/// Largest integer part, in whole units, that stays within `MAX_MAGNITUDE`.
const MAX_WHOLE: i128 = 1_000_000_000;

/// `v` without its thousands separators.
pub fn strip_commas(v: &Vec<char>) -> (r: Vec<char>)
    ensures
        r@ == without_commas(v@),
{
    let mut r: Vec<char> = Vec::new();
    let mut i: usize = 0;
    while i < v.len()
        invariant
            i <= v@.len(),
            r@ == without_commas(v@.take(i as int)),
        decreases v.len() - i,
    {
        assert(v@.take(i + 1).drop_last() =~= v@.take(i as int));
        if v[i] != ',' {
            r.push(v[i]);
        }
        i = i + 1;
    }
    assert(v@.take(v@.len() as int) =~= v@);
    r
}

fn digits_only(v: &Vec<char>) -> (r: bool)
    ensures
        r == all_digits(v@),
{
    let mut i: usize = 0;
    while i < v.len()
        invariant
            i <= v@.len(),
            all_digits(v@.take(i as int)),
        decreases v.len() - i,
    {
        if !('0' <= v[i] && v[i] <= '9') {
            assert(!is_digit(v@[i as int]));
            return false;
        }
        assert(all_digits(v@.take(i + 1))) by {
            assert forall|j: int| 0 <= j < i + 1 implies is_digit(#[trigger] v@.take(i + 1)[j]) by {
                if j < i {
                    assert(v@.take(i + 1)[j] == v@.take(i as int)[j]);
                }
            }
        }
        i = i + 1;
    }
    assert(v@.take(v@.len() as int) =~= v@);
    true
}

/// The value of a digit string, or `None` when it exceeds `MAX_WHOLE`.
fn bounded_digits_value(v: &Vec<char>) -> (r: Option<i128>)
    requires
        all_digits(v@),
    ensures
        match r {
            Some(x) => x == digits_value(v@) && 0 <= x <= MAX_WHOLE,
            None => digits_value(v@) > MAX_WHOLE,
        },
{
    let mut acc: i128 = 0;
    let mut i: usize = 0;
    while i < v.len()
        invariant
            all_digits(v@),
            i <= v@.len(),
            acc == digits_value(v@.take(i as int)),
            0 <= acc <= MAX_WHOLE,
        decreases v.len() - i,
    {
        assert(v@.take(i + 1).drop_last() =~= v@.take(i as int));
        assert(is_digit(v@[i as int]));
        acc = acc * 10 + (v[i] as i128 - '0' as i128);
        i = i + 1;
        if acc > MAX_WHOLE {
            proof {
                lemma_digits_prefix_le(v@, i as int);
            }
            return None;
        }
    }
    assert(v@.take(v@.len() as int) =~= v@);
    Some(acc)
}

proof fn lemma_fraction_nonneg(f: Seq<char>)
    requires
        all_digits(f),
    ensures
        0 <= fraction_thousandths(f) <= 999,
{
}

/// Thousandths of an unsigned decimal, `None` when malformed or too large.
fn unsigned_value(u: &Vec<char>) -> (r: Option<i128>)
    ensures
        match r {
            Some(m) => unsigned_decimal(u@) == Some(m as int) && 0 <= m <= MAX_MAGNITUDE,
            None => match unsigned_decimal(u@) {
                Some(m) => m > MAX_MAGNITUDE,
                None => true,
            },
        },
{
    let (ip, fp) = match find_char(u, '.') {
        Some(d) => (copy_range(u, 0, d), copy_range(u, d + 1, u.len())),
        None => (copy_range(u, 0, u.len()), Vec::new()),
    };
    proof {
        lemma_first_index(u@, '.');
        assert(u@.subrange(0, u@.len() as int) =~= u@);
        match first_index(u@, '.') {
            Some(d) => {
                assert(u@.subrange(d + 1, u@.len() as int) =~= u@.skip(d + 1));
            },
            None => {
                assert(fp@ =~= Seq::<char>::empty());
            },
        }
        assert(ip@ == before_first(u@, '.'));
    }
    if !digits_only(&ip) || !digits_only(&fp) || ip.len() + fp.len() == 0 {
        return None;
    }
    proof {
        lemma_fraction_nonneg(fp@);
    }
    let whole = match bounded_digits_value(&ip) {
        Some(w) => w,
        None => {
            return None;
        },
    };
    let f0: i128 = if fp.len() > 0 { fp[0] as i128 - '0' as i128 } else { 0 };
    let f1: i128 = if fp.len() > 1 { fp[1] as i128 - '0' as i128 } else { 0 };
    let f2: i128 = if fp.len() > 2 { fp[2] as i128 - '0' as i128 } else { 0 };
    proof {
        if fp@.len() > 0 { assert(is_digit(fp@[0])); }
        if fp@.len() > 1 { assert(is_digit(fp@[1])); }
        if fp@.len() > 2 { assert(is_digit(fp@[2])); }
    }
    let m = whole * 1000 + f0 * 100 + f1 * 10 + f2;
    if m <= MAX_MAGNITUDE {
        Some(m)
    } else {
        None
    }
}

/// Thousandths of an optionally signed decimal, `None` when malformed or
/// beyond `MAX_MAGNITUDE`.
pub fn parse_decimal(c: &Vec<char>) -> (r: Option<i128>)
    ensures
        match r {
            Some(x) => decimal_value(c@) == Some(x as int) && -MAX_MAGNITUDE <= x <= MAX_MAGNITUDE,
            None => decimal_value(c@) is None,
        },
{
    let signed = c.len() > 0 && (c[0] == '-' || c[0] == '+');
    let negative = c.len() > 0 && c[0] == '-';
    let u = if signed { copy_range(c, 1, c.len()) } else { copy_range(c, 0, c.len()) };
    assert(c@.subrange(0, c@.len() as int) =~= c@);
    assert(c@.len() > 0 ==> c@.subrange(1, c@.len() as int) =~= c@.drop_first());
    match unsigned_value(&u) {
        Some(m) => if negative { Some(-m) } else { Some(m) },
        None => None,
    }
}

fn placeholder(v: &Vec<char>) -> (r: bool)
    ensures
        r == is_placeholder(v@),
{
    if v.len() == 0 {
        true
    } else if v.len() == 1 {
        if v[0] == '-' {
            assert(v@ =~= seq!['-']);
            true
        } else {
            assert(v@ != seq!['-']);
            false
        }
    } else if v.len() == 3 {
        if v[0] == 'N' && v[1] == '/' && v[2] == 'A' {
            assert(v@ =~= seq!['N', '/', 'A']);
            true
        } else {
            assert(v@ != seq!['N', '/', 'A']) by {
                if v@ == seq!['N', '/', 'A'] {
                    assert(v@[0] == 'N' && v@[1] == '/' && v@[2] == 'A');
                }
            }
            false
        }
    } else {
        assert(v@ != seq!['-'] && v@ != seq!['N', '/', 'A']) by {
            if v@ == seq!['-'] { assert(v@.len() == 1); }
            if v@ == seq!['N', '/', 'A'] { assert(v@.len() == 3); }
        }
        false
    }
}

/// Reads a numeric field as thousandths. Total: every text gives a value,
/// placeholders and malformed text give zero, and the value is always
/// within `MAX_MAGNITUDE`; a well-formed value beyond that limit also
/// reads as zero.
pub fn parse_mw_value(value: &str) -> (r: i128)
    ensures
        r == numeric_value(value@),
        -MAX_MAGNITUDE <= r <= MAX_MAGNITUDE,
{
    let chars = chars_of(value);
    let head = match find_char(&chars, '(') {
        Some(p) => copy_range(&chars, 0, p),
        None => chars,
    };
    assert(head@ == before_first(value@, '(')) by {
        if first_index(value@, '(') is Some {
            assert(value@.subrange(0, first_index(value@, '(')->0) =~= value@.take(first_index(value@, '(')->0));
        }
    }
    let cleaned = strip_commas(&head);
    if placeholder(&cleaned) {
        0
    } else {
        match parse_decimal(&cleaned) {
            Some(v) => v,
            None => 0,
        }
    }
}

} // verus!
