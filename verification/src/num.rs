//! Decimal rendering and parsing of 64-bit integers.
//!
//! Integer identifiers appear in URLs and, on lenient input, as numeric
//! strings.  Rendering and parsing are specified against each other: the
//! string of an integer always parses back to it.

use vstd::prelude::*;
use vstd::string::StrSliceExecFns;
use vstd::string::StringExecFns;

verus! {

/// Whether `c` is one of the ten decimal digit characters.
pub open spec fn is_digit(c: char) -> bool {
    48 <= c as int && c as int <= 57
}

/// The numeric value of a digit character.
pub open spec fn digit_val(c: char) -> int {
    c as int - 48
}

/// The digit character of a value below ten.
pub open spec fn digit_char(d: int) -> char {
    if d == 0 {
        '0'
    } else if d == 1 {
        '1'
    } else if d == 2 {
        '2'
    } else if d == 3 {
        '3'
    } else if d == 4 {
        '4'
    } else if d == 5 {
        '5'
    } else if d == 6 {
        '6'
    } else if d == 7 {
        '7'
    } else if d == 8 {
        '8'
    } else {
        '9'
    }
}

/// Whether every character of `s` is a decimal digit.
pub open spec fn all_digits(s: Seq<char>) -> bool {
    forall|i: int| 0 <= i < s.len() ==> is_digit(s[i])
}

/// The value of a digit string, most significant digit first.
pub open spec fn digits_val(s: Seq<char>) -> int
    decreases s.len(),
{
    if s.len() == 0 {
        0
    } else {
        digits_val(s.drop_last()) * 10 + digit_val(s.last())
    }
}

/// The decimal digit string of an unsigned value.
pub open spec fn spec_u64_string(n: nat) -> Seq<char>
    decreases n,
{
    if n < 10 {
        seq![digit_char(n as int)]
    } else {
        spec_u64_string(n / 10).push(digit_char((n % 10) as int))
    }
}

/// The decimal string of a signed value: a `-` sign for negatives, then digits.
pub open spec fn spec_i64_string(n: int) -> Seq<char> {
    if n < 0 {
        seq!['-'] + spec_u64_string((-n) as nat)
    } else {
        spec_u64_string(n as nat)
    }
}

/// The string a lenient integer parse accepts: an optional sign, then at
/// least one digit, with the value in signed 64-bit range.
pub open spec fn spec_parse_i64(s: Seq<char>) -> Option<i64> {
    if s.len() == 0 {
        None
    } else if s[0] == '-' {
        let rest = s.drop_first();
        if rest.len() > 0 && all_digits(rest) && -digits_val(rest) >= i64::MIN {
            Some((-digits_val(rest)) as i64)
        } else {
            None
        }
    } else if s[0] == '+' {
        let rest = s.drop_first();
        if rest.len() > 0 && all_digits(rest) && digits_val(rest) <= i64::MAX {
            Some(digits_val(rest) as i64)
        } else {
            None
        }
    } else if all_digits(s) && digits_val(s) <= i64::MAX {
        Some(digits_val(s) as i64)
    } else {
        None
    }
}

/// A string of digits has a nonnegative value.
pub proof fn lemma_digits_val_nonneg(s: Seq<char>)
    requires
        all_digits(s),
    ensures
        digits_val(s) >= 0,
    decreases s.len(),
{
    if s.len() != 0 {
        assert(all_digits(s.drop_last()));
        lemma_digits_val_nonneg(s.drop_last());
    }
}

/// Extending a digit string never lowers its value.
pub proof fn lemma_digits_val_prefix_le(s: Seq<char>, k: int)
    requires
        all_digits(s),
        0 <= k <= s.len(),
    ensures
        digits_val(s.take(k)) <= digits_val(s),
    decreases s.len(),
{
    if k == s.len() {
        assert(s.take(k) =~= s);
    } else {
        assert(all_digits(s.drop_last()));
        assert(s.drop_last().take(k) =~= s.take(k));
        lemma_digits_val_prefix_le(s.drop_last(), k);
        lemma_digits_val_nonneg(s.drop_last());
    }
}

/// The digit string of an unsigned value is nonempty, all digits, and
/// evaluates back to the value.
pub proof fn lemma_u64_string_val(n: nat)
    ensures
        spec_u64_string(n).len() >= 1,
        all_digits(spec_u64_string(n)),
        digits_val(spec_u64_string(n)) == n,
    decreases n,
{
    if n < 10 {
        let s = spec_u64_string(n);
        assert(s.drop_last() =~= Seq::<char>::empty());
        assert(digits_val(Seq::<char>::empty()) == 0);
        assert(digit_val(digit_char(n as int)) == n);
    } else {
        lemma_u64_string_val(n / 10);
        let s = spec_u64_string(n);
        assert(s.drop_last() =~= spec_u64_string(n / 10));
        assert(s.last() == digit_char((n % 10) as int));
        assert(digit_val(digit_char((n % 10) as int)) == n % 10);
        assert(forall|i: int|
            0 <= i < s.len() ==> is_digit(#[trigger] s[i]) == if i < s.len() - 1 {
                is_digit(spec_u64_string(n / 10)[i])
            } else {
                is_digit(digit_char((n % 10) as int))
            });
    }
}

/// The decimal string of a signed 64-bit value parses back to it.
pub proof fn lemma_parse_render_i64(n: i64)
    ensures
        spec_parse_i64(spec_i64_string(n as int)) == Some(n),
{
    if n >= 0 {
        let s = spec_u64_string(n as nat);
        lemma_u64_string_val(n as nat);
        assert(is_digit(s[0]));
    } else {
        let m = (-(n as int)) as nat;
        lemma_u64_string_val(m);
        let s = seq!['-'] + spec_u64_string(m);
        assert(s[0] == '-');
        assert(s.drop_first() =~= spec_u64_string(m));
    }
}

/// The digit character of `d`, as a one-character string.
pub(crate) fn digit_str(d: u64) -> (r: &'static str)
    requires
        d < 10,
    ensures
        r@ =~= seq![digit_char(d as int)],
{
    proof {
        reveal_strlit("0");
        reveal_strlit("1");
        reveal_strlit("2");
        reveal_strlit("3");
        reveal_strlit("4");
        reveal_strlit("5");
        reveal_strlit("6");
        reveal_strlit("7");
        reveal_strlit("8");
        reveal_strlit("9");
    }
    if d == 0 {
        "0"
    } else if d == 1 {
        "1"
    } else if d == 2 {
        "2"
    } else if d == 3 {
        "3"
    } else if d == 4 {
        "4"
    } else if d == 5 {
        "5"
    } else if d == 6 {
        "6"
    } else if d == 7 {
        "7"
    } else if d == 8 {
        "8"
    } else {
        "9"
    }
}

/// Renders an unsigned value as its decimal digit string.
pub fn render_u64(n: u64) -> (r: String)
    ensures
        r@ == spec_u64_string(n as nat),
    decreases n,
{
    if n < 10 {
        digit_str(n).to_owned()
    } else {
        let mut s = render_u64(n / 10);
        s.append(digit_str(n % 10));
        proof {
            assert(spec_u64_string((n as nat) / 10).push(digit_char((n % 10) as int))
                =~= spec_u64_string((n as nat) / 10) + seq![digit_char((n % 10) as int)]);
        }
        s
    }
}

/// Renders a signed value as its decimal string.
pub fn render_i64(n: i64) -> (r: String)
    ensures
        r@ == spec_i64_string(n as int),
{
    if n >= 0 {
        render_u64(n as u64)
    } else {
        let m: u64 = if n == i64::MIN {
            9223372036854775808u64
        } else {
            (-n) as u64
        };
        let digits = render_u64(m);
        let mut s = "-".to_owned();
        s.append(digits.as_str());
        proof {
            reveal_strlit("-");
            assert("-"@ =~= seq!['-']);
        }
        s
    }
}

/// Whether `c` is a decimal digit.
pub(crate) fn is_digit_exec(c: char) -> (r: bool)
    ensures
        r == is_digit(c),
{
    let u = c as u32;
    48 <= u && u <= 57
}

/// Parses an optional sign and a run of digits as a signed 64-bit value.
///
/// Accepts exactly the strings of [`spec_parse_i64`]: anything else —
/// empty input, stray characters, or a value out of range — is rejected.
pub fn parse_i64(s: &str) -> (r: Option<i64>)
    ensures
        r == spec_parse_i64(s@),
{
    let len = s.unicode_len();
    if len == 0 {
        return None;
    }
    let c0 = s.get_char(0);
    let neg = c0 == '-';
    let signed = neg || c0 == '+';
    let start: usize = if signed {
        1
    } else {
        0
    };
    if len == start {
        return None;
    }
    let ghost rest = s@.subrange(start as int, len as int);
    proof {
        if signed {
            assert(rest =~= s@.drop_first());
        } else {
            assert(rest =~= s@);
        }
    }
    let mut i: usize = start;
    let mut acc: u128 = 0;
    while i < len
        invariant
            start <= i <= len,
            len == s@.len(),
            len >= 1,
            neg == (s@[0] == '-'),
            signed == (neg || s@[0] == '+'),
            start == if signed { 1usize } else { 0usize },
            rest == s@.subrange(start as int, len as int),
            signed ==> rest == s@.drop_first(),
            !signed ==> rest == s@,
            all_digits(s@.subrange(start as int, i as int)),
            acc == digits_val(s@.subrange(start as int, i as int)),
            acc <= u64::MAX,
        decreases len - i,
    {
        let c = s.get_char(i);
        if !is_digit_exec(c) {
            proof {
                assert(rest[i - start] == s@[i as int]);
                assert(!all_digits(rest));
                if signed {
                    assert(rest == s@.drop_first());
                } else {
                    assert(rest == s@);
                }
                assert(spec_parse_i64(s@) is None);
            }
            return None;
        }
        let d: u128 = (c as u32 - 48) as u128;
        acc = acc * 10 + d;
        proof {
            let pre = s@.subrange(start as int, i as int);
            let ext = s@.subrange(start as int, (i + 1) as int);
            assert(ext.drop_last() =~= pre);
            assert(ext.last() == s@[i as int]);
            assert(forall|j: int| 0 <= j < ext.len() ==> is_digit(#[trigger] ext[j]));
        }
        i += 1;
        if acc > u64::MAX as u128 {
            proof {
                let pre = s@.subrange(start as int, i as int);
                assert(acc == digits_val(pre));
                if all_digits(rest) {
                    assert(rest.take(i - start) =~= pre);
                    lemma_digits_val_prefix_le(rest, i - start);
                    lemma_digits_val_nonneg(rest);
                    assert(digits_val(rest) >= digits_val(pre));
                    assert(digits_val(rest) > i64::MAX);
                    assert(-digits_val(rest) < i64::MIN);
                }
                if signed {
                    assert(rest == s@.drop_first());
                } else {
                    assert(rest == s@);
                }
                assert(spec_parse_i64(s@) is None);
            }
            return None;
        }
    }
    proof {
        assert(s@.subrange(start as int, i as int) =~= rest);
        lemma_digits_val_nonneg(rest);
    }
    if neg {
        if acc > 9223372036854775808u128 {
            return None;
        }
        if acc == 9223372036854775808u128 {
            Some(i64::MIN)
        } else {
            Some(-((acc as u64) as i64))
        }
    } else {
        if acc > i64::MAX as u128 {
            return None;
        }
        Some(acc as i64)
    }
}

} // verus!
