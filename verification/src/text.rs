//! Small verified text helpers: equality of string slices and parsers for
//! the scalar value syntaxes the configuration uses.

use vstd::prelude::*;

verus! {

/// Relies on str's PartialEq: two string slices compare equal exactly when
/// their character sequences are equal.
#[verifier::external_body]
pub fn str_eq(a: &str, b: &str) -> (r: bool)
    ensures
        r == (a@ == b@),
{
    a == b
}

pub open spec fn is_ascii_digit(c: char) -> bool {
    48 <= c as int && c as int <= 57
}

pub open spec fn digit_value(c: char) -> int {
    c as int - 48
}

pub open spec fn all_digits(s: Seq<char>) -> bool {
    forall|i: int| 0 <= i < s.len() ==> is_ascii_digit(#[trigger] s[i])
}

/// The number denoted by a sequence of decimal digits, most significant
/// digit first.
pub open spec fn decimal_value(s: Seq<char>) -> int
    decreases s.len(),
{
    if s.len() == 0 {
        0
    } else {
        decimal_value(s.drop_last()) * 10 + digit_value(s.last())
    }
}

pub proof fn lemma_decimal_value_nonneg(s: Seq<char>)
    requires
        all_digits(s),
    ensures
        decimal_value(s) >= 0,
    decreases s.len(),
{
    if s.len() > 0 {
        assert(all_digits(s.drop_last()));
        lemma_decimal_value_nonneg(s.drop_last());
    }
}

/// A prefix of a digit string never denotes more than the whole string.
pub proof fn lemma_decimal_value_prefix_le(s: Seq<char>, i: int)
    requires
        all_digits(s),
        0 <= i <= s.len(),
    ensures
        decimal_value(s.take(i)) <= decimal_value(s),
    decreases s.len() - i,
{
    if i == s.len() {
        assert(s.take(i) =~= s);
    } else {
        assert(s.take(i) =~= s.drop_last().take(i));
        assert(all_digits(s.drop_last()));
        lemma_decimal_value_prefix_le(s.drop_last(), i);
        lemma_decimal_value_nonneg(s.drop_last());
        assert(decimal_value(s) == decimal_value(s.drop_last()) * 10 + digit_value(s.last()));
    }
}

/// The digits of `s` after an optional leading `+` sign.
pub open spec fn unsigned_body(s: Seq<char>) -> Seq<char> {
    if s.len() > 0 && s[0] == '+' {
        s.skip(1)
    } else {
        s
    }
}

/// What an unsigned decimal numeral denotes, bounded by `max`: an optional
/// `+` sign, then one or more digits, whose value must not exceed `max`.
pub open spec fn spec_parse_unsigned(s: Seq<char>, max: int) -> Option<int> {
    let body = unsigned_body(s);
    if body.len() > 0 && all_digits(body) && decimal_value(body) <= max {
        Some(decimal_value(body))
    } else {
        None
    }
}

/// Parse an unsigned decimal numeral of value at most `max`.
pub(crate) fn parse_unsigned(s: &str, max: u64) -> (r: Option<u64>)
    requires
        9 <= max <= u32::MAX,
    ensures
        r matches Some(v) ==> spec_parse_unsigned(s@, max as int) == Some(v as int),
        r is None ==> spec_parse_unsigned(s@, max as int) is None,
{
    let n = s.unicode_len();
    let start: usize = if n > 0 && s.get_char(0) == '+' {
        1
    } else {
        0
    };
    let ghost body = unsigned_body(s@);
    if start >= n {
        assert(body.len() == 0);
        return None;
    }
    let mut i: usize = start;
    let mut acc: u64 = 0;
    while i < n
        invariant
            start <= i <= n,
            n == s@.len(),
            start == 1 ==> s@[0] == '+',
            start == 0 || start == 1,
            start == 1 <==> n > 0 && s@[0] == '+',
            body == unsigned_body(s@),
            body =~= s@.skip(start as int),
            all_digits(s@.subrange(start as int, i as int)),
            acc == decimal_value(s@.subrange(start as int, i as int)),
            acc <= max,
            9 <= max <= u32::MAX,
        decreases n - i,
    {
        let c = s.get_char(i);
        let u = c as u32;
        if !(48 <= u && u <= 57) {
            assert(!is_ascii_digit(s@[i as int]));
            assert(body[i - start] == s@[i as int]);
            assert(!all_digits(body));
            return None;
        }
        let d = (u - 48) as u64;
        let ghost prefix = s@.subrange(start as int, i as int);
        let ghost prefix1 = s@.subrange(start as int, i + 1 as int);
        assert(prefix1.drop_last() =~= prefix);
        assert(prefix1.last() == s@[i as int]);
        if acc > (max - d) / 10 {
            // The value of the digits seen so far already exceeds max, so
            // the whole numeral either exceeds max or is malformed.
            proof {
                assert(acc * 10 + d > max) by (nonlinear_arith)
                    requires
                        acc > (max - d) / 10,
                        0 <= d <= 9,
                        0 <= max,
                        0 <= acc,
                ;
                if all_digits(body) {
                    assert(prefix1 =~= body.take(i + 1 - start as int));
                    lemma_decimal_value_prefix_le(body, i + 1 - start as int);
                    assert(decimal_value(body) >= decimal_value(prefix1));
                    assert(decimal_value(prefix1) == acc * 10 + d);
                }
            }
            return None;
        }
        proof {
            assert(acc <= (max - d) / 10);
            assert(acc * 10 + d <= max) by (nonlinear_arith)
                requires
                    acc <= (max - d) / 10,
                    0 <= d <= 9,
                    d <= max,
                    0 <= acc,
            ;
        }
        acc = acc * 10 + d;
        i = i + 1;
        proof {
            assert(all_digits(s@.subrange(start as int, i as int)));
        }
    }
    proof {
        assert(s@.subrange(start as int, n as int) =~= body);
    }
    Some(acc)
}

/// Parse an unsigned decimal numeral into a `u32`, as a window dimension or
/// an image count is written in the configuration.
pub fn parse_u32(s: &str) -> (r: Option<u32>)
    ensures
        r matches Some(v) ==> spec_parse_unsigned(s@, u32::MAX as int) == Some(v as int),
        r is None ==> spec_parse_unsigned(s@, u32::MAX as int) is None,
{
    match parse_unsigned(s, 0xffff_ffffu64) {
        Some(v) => Some(v as u32),
        None => None,
    }
}

/// Parse an unsigned decimal numeral into a `u16`, as a bit depth or a
/// refresh rate is written in the configuration.
pub fn parse_u16(s: &str) -> (r: Option<u16>)
    ensures
        r matches Some(v) ==> spec_parse_unsigned(s@, u16::MAX as int) == Some(v as int),
        r is None ==> spec_parse_unsigned(s@, u16::MAX as int) is None,
{
    match parse_unsigned(s, 0xffffu64) {
        Some(v) => Some(v as u16),
        None => None,
    }
}

/// What a boolean option value denotes: exactly `true` or `false`.
pub open spec fn spec_parse_bool(s: Seq<char>) -> Option<bool> {
    if s == "true"@ {
        Some(true)
    } else if s == "false"@ {
        Some(false)
    } else {
        None
    }
}

/// Parse a boolean option value.
pub fn parse_bool(s: &str) -> (r: Option<bool>)
    ensures
        r == spec_parse_bool(s@),
{
    if str_eq(s, "true") {
        Some(true)
    } else if str_eq(s, "false") {
        Some(false)
    } else {
        None
    }
}

pub open spec fn dot_pred() -> spec_fn(char) -> bool {
    |c: char| c == '.'
}

/// Ten to the power of `n`, for the up-to-three fraction digits a scale
/// factor may carry.
pub open spec fn spec_pow10_small(n: int) -> int {
    if n <= 0 {
        1
    } else if n == 1 {
        10
    } else if n == 2 {
        100
    } else {
        1000
    }
}

/// What a scale-factor value denotes, in thousandths: an optionally
/// `+`-signed whole part, then optionally a dot and one to three fraction
/// digits, the whole fitting a `u32`.
pub open spec fn spec_parse_scale_millis(s: Seq<char>) -> Option<int> {
    let dot = crate::search::spec_find_first(s, dot_pred());
    let whole = match dot {
        Some(i) => s.take(i),
        None => s,
    };
    let frac = match dot {
        Some(i) => s.skip(i + 1),
        None => Seq::<char>::empty(),
    };
    let whole_body = unsigned_body(whole);
    if whole_body.len() > 0 && all_digits(whole_body) && (dot is None || (1 <= frac.len() <= 3
        && all_digits(frac))) {
        let v = decimal_value(whole_body) * 1000 + decimal_value(frac) * spec_pow10_small(
            3 - frac.len(),
        );
        if v <= u32::MAX {
            Some(v)
        } else {
            None
        }
    } else {
        None
    }
}

/// The index of the first dot in `s`, or its length when there is none.
fn find_dot(s: &str) -> (r: usize)
    ensures
        r <= s@.len(),
        match crate::search::spec_find_first(s@, dot_pred()) {
            Some(i) => r as int == i && i < s@.len() && s@[i] == '.',
            None => r as int == s@.len(),
        },
{
    proof {
        crate::search::lemma_find_first_props(s@, dot_pred());
    }
    let n = s.unicode_len();
    let mut i: usize = 0;
    while i < n
        invariant
            0 <= i <= n,
            n == s@.len(),
            forall|j: int| 0 <= j < i ==> !dot_pred()(#[trigger] s@[j]),
        decreases n - i,
    {
        if s.get_char(i) == '.' {
            proof {
                crate::search::lemma_find_first_at(s@, dot_pred(), i as int);
            }
            return i;
        }
        i = i + 1;
    }
    proof {
        crate::search::lemma_find_first_none(s@, dot_pred());
    }
    n
}

/// Parse a scale-factor value into thousandths, so that the configuration
/// can carry it without floating point: `1.5` parses to 1500.
pub fn parse_scale_millis(s: &str) -> (r: Option<u32>)
    ensures
        r matches Some(v) ==> spec_parse_scale_millis(s@) == Some(v as int),
        r is None ==> spec_parse_scale_millis(s@) is None,
{
    let n = s.unicode_len();
    let dot = find_dot(s);
    let ghost spec_dot = crate::search::spec_find_first(s@, dot_pred());
    let ghost spec_whole: Seq<char> = match spec_dot {
        Some(i) => s@.take(i),
        None => s@,
    };
    let ghost spec_frac: Seq<char> = match spec_dot {
        Some(i) => s@.skip(i + 1),
        None => Seq::<char>::empty(),
    };
    let whole = s.substring_char(0, dot);
    proof {
        assert(whole@ =~= spec_whole);
    }
    let whole_val = match parse_unsigned(whole, 0xffff_ffffu64) {
        Some(v) => v,
        None => {
            proof {
                let wbody = unsigned_body(spec_whole);
                if wbody.len() > 0 && all_digits(wbody) {
                    // The numeral is well formed, so it failed only by
                    // exceeding u32::MAX; the scaled value exceeds it too.
                    lemma_decimal_value_nonneg(wbody);
                    if all_digits(spec_frac) {
                        lemma_decimal_value_nonneg(spec_frac);
                    }
                }
            }
            return None;
        },
    };
    if dot == n {
        // No fraction: scale the whole part by 1000.
        proof {
            assert(decimal_value(Seq::<char>::empty()) == 0);
        }
        if whole_val > 0xffff_ffffu64 / 1000 {
            return None;
        }
        return Some((whole_val * 1000) as u32);
    }
    // There is a dot: the fraction must be one to three plain digits.
    let frac_len = n - dot - 1;
    if frac_len < 1 || frac_len > 3 {
        return None;
    }
    let frac = s.substring_char(dot + 1, n);
    proof {
        assert(frac@ =~= spec_frac);
    }
    if frac.get_char(0) == '+' {
        proof {
            assert(!is_ascii_digit(spec_frac[0]));
        }
        return None;
    }
    proof {
        assert(unsigned_body(spec_frac) =~= spec_frac);
    }
    let frac_val = match parse_unsigned(frac, 0xffffu64) {
        Some(v) => v,
        None => {
            proof {
                // Three digits stay under 1000, so a well-formed fraction
                // cannot exceed the bound: the fraction is malformed.
                if all_digits(spec_frac) {
                    lemma_digits_bounded(spec_frac);
                }
            }
            return None;
        },
    };
    let scale: u64 = if frac_len == 1 {
        100
    } else if frac_len == 2 {
        10
    } else {
        1
    };
    proof {
        lemma_digits_bounded(spec_frac);
        assert(scale as int == spec_pow10_small(3 - spec_frac.len()));
    }
    let v: u64 = whole_val * 1000 + frac_val * scale;
    if v > 0xffff_ffffu64 {
        return None;
    }
    Some(v as u32)
}

/// A string of at most three digits denotes less than 1000.
pub proof fn lemma_digits_bounded(s: Seq<char>)
    requires
        all_digits(s),
        s.len() <= 3,
    ensures
        decimal_value(s) < spec_pow10_small(s.len() as int),
        decimal_value(s) >= 0,
    decreases s.len(),
{
    if s.len() > 0 {
        assert(all_digits(s.drop_last()));
        lemma_digits_bounded(s.drop_last());
    }
}

} // verus!
