//! Decimal text for integer fields, and the grammar of decimal number fields.
//!
//! Every numeric wire field is a decimal numeral in UTF-8 text. This module
//! defines, at the specification level, the value a numeral denotes and the
//! text an integer renders to, and provides verified executable render and
//! parse functions. Parsing mirrors the protocol's resilience policy: a field
//! that is not a well-formed numeral, or whose value does not fit the target
//! type, reads as zero rather than failing the whole message.

use vstd::prelude::*;

verus! {

pub open spec fn is_digit_char(c: char) -> bool {
    '0' <= c && c <= '9'
}

pub open spec fn digit_val(c: char) -> int {
    (c as u32) - ('0' as u32)
}

pub open spec fn all_digits(s: Seq<char>) -> bool {
    forall|i: int| 0 <= i < s.len() ==> is_digit_char(#[trigger] s[i])
}

/// The value of a non-empty digit string, most significant digit first.
pub open spec fn digits_val(s: Seq<char>) -> int
    decreases s.len(),
{
    if s.len() == 0 {
        0
    } else {
        digits_val(s.drop_last()) * 10 + digit_val(s.last())
    }
}

/// An optionally signed run of one or more digits.
pub open spec fn is_int_numeral(s: Seq<char>) -> bool {
    if s.len() == 0 {
        false
    } else if s[0] == '+' || s[0] == '-' {
        s.len() > 1 && all_digits(s.subrange(1, s.len() as int))
    } else {
        all_digits(s)
    }
}

pub open spec fn numeral_val(s: Seq<char>) -> int {
    if s.len() == 0 {
        0
    } else if s[0] == '-' {
        -digits_val(s.subrange(1, s.len() as int))
    } else if s[0] == '+' {
        digits_val(s.subrange(1, s.len() as int))
    } else {
        digits_val(s)
    }
}

/// What an `i32` wire field reads as: the numeral's value when well-formed
/// and in range, and the zero default otherwise.
pub open spec fn i32_field_value(s: Seq<char>) -> int {
    if is_int_numeral(s) && i32::MIN <= numeral_val(s) <= i32::MAX {
        numeral_val(s)
    } else {
        0
    }
}

/// What an `i64` wire field reads as.
pub open spec fn i64_field_value(s: Seq<char>) -> int {
    if is_int_numeral(s) && i64::MIN <= numeral_val(s) <= i64::MAX {
        numeral_val(s)
    } else {
        0
    }
}

pub open spec fn digit_char(d: int) -> char {
    if d == 0 {
        '0'
    } else if d == 1 {
        '1'
    } else if d == 2 {
        '2'
    } else if d == 3 {
        '3'
    } else if d == 4 {
        '4'
    } else if d == 5 {
        '5'
    } else if d == 6 {
        '6'
    } else if d == 7 {
        '7'
    } else if d == 8 {
        '8'
    } else {
        '9'
    }
}

/// The decimal rendering of a non-negative integer, without a sign.
pub open spec fn dec_digits(n: int) -> Seq<char>
    decreases n,
{
    if n < 10 {
        seq![digit_char(n)]
    } else {
        dec_digits(n / 10) + seq![digit_char(n % 10)]
    }
}

/// The decimal rendering of an integer, `-` prefixed when negative.
pub open spec fn int_to_dec(n: int) -> Seq<char> {
    if n < 0 {
        seq!['-'] + dec_digits(-n)
    } else {
        dec_digits(n)
    }
}

proof fn lemma_digit_char_val(d: int)
    requires
        0 <= d <= 9,
    ensures
        is_digit_char(digit_char(d)),
        digit_val(digit_char(d)) == d,
{
}

pub proof fn lemma_dec_digits_wf(n: int)
    requires
        n >= 0,
    ensures
        dec_digits(n).len() >= 1,
        all_digits(dec_digits(n)),
        digits_val(dec_digits(n)) == n,
    decreases n,
{
    if n < 10 {
        lemma_digit_char_val(n);
        let s = dec_digits(n);
        assert(s =~= seq![digit_char(n)]);
        assert(s.drop_last() =~= Seq::<char>::empty());
        assert(digits_val(Seq::<char>::empty()) == 0);
        assert(s.last() == digit_char(n));
        assert(digits_val(s) == digits_val(s.drop_last()) * 10 + digit_val(s.last()));
    } else {
        lemma_dec_digits_wf(n / 10);
        lemma_digit_char_val(n % 10);
        let s = dec_digits(n);
        assert(s.drop_last() =~= dec_digits(n / 10));
        assert(s.last() == digit_char(n % 10));
        assert(digits_val(s) == digits_val(s.drop_last()) * 10 + digit_val(s.last()));
    }
}

/// Rendering an integer and reading the numeral back gives the integer.
pub proof fn lemma_int_to_dec_val(n: int)
    requires
        n >= 0 || n >= i64::MIN,
    ensures
        is_int_numeral(int_to_dec(n)),
        numeral_val(int_to_dec(n)) == n,
{
    if n < 0 {
        lemma_dec_digits_wf(-n);
        let s = int_to_dec(n);
        assert(s[0] == '-');
        assert(s.subrange(1, s.len() as int) =~= dec_digits(-n));
    } else {
        lemma_dec_digits_wf(n);
        let s = int_to_dec(n);
        if s[0] == '+' || s[0] == '-' {
            assert(is_digit_char(s[0]));
            assert(false);
        }
    }
}

/// Appending digits to a non-negative numeral never shrinks its value.
proof fn lemma_digits_val_grows(s: Seq<char>, i: int)
    requires
        all_digits(s),
        0 <= i <= s.len(),
    ensures
        digits_val(s) >= digits_val(s.subrange(0, i)),
        digits_val(s) >= 0,
    decreases s.len() - i,
{
    lemma_digits_val_nonneg(s.subrange(0, i));
    if i < s.len() {
        lemma_digits_val_grows(s, i + 1);
        let p = s.subrange(0, i);
        let q = s.subrange(0, i + 1);
        assert(q.drop_last() =~= p);
        assert(digits_val(q) == digits_val(p) * 10 + digit_val(q.last()));
        lemma_digits_val_nonneg(p);
    } else {
        assert(s.subrange(0, i) =~= s);
    }
}

proof fn lemma_digits_val_nonneg(s: Seq<char>)
    requires
        all_digits(s),
    ensures
        digits_val(s) >= 0,
    decreases s.len(),
{
    if s.len() > 0 {
        assert(all_digits(s.drop_last())) by {
            assert(forall|i: int|
                0 <= i < s.len() - 1 ==> is_digit_char(#[trigger] s.drop_last()[i]));
        }
        lemma_digits_val_nonneg(s.drop_last());
    }
}

fn digit_str(d: u64) -> (r: &'static str)
    requires
        d <= 9,
    ensures
        r@ =~= seq![digit_char(d as int)],
{
    proof {
        reveal_strlit("0");
        reveal_strlit("1");
        reveal_strlit("2");
        reveal_strlit("3");
        reveal_strlit("4");
        reveal_strlit("5");
        reveal_strlit("6");
        reveal_strlit("7");
        reveal_strlit("8");
        reveal_strlit("9");
    }
    if d == 0 {
        "0"
    } else if d == 1 {
        "1"
    } else if d == 2 {
        "2"
    } else if d == 3 {
        "3"
    } else if d == 4 {
        "4"
    } else if d == 5 {
        "5"
    } else if d == 6 {
        "6"
    } else if d == 7 {
        "7"
    } else if d == 8 {
        "8"
    } else {
        "9"
    }
}

/// Renders a non-negative integer as decimal text.
pub fn u64_to_dec_string(n: u64) -> (r: String)
    ensures
        r@ == dec_digits(n as int),
    decreases n,
{
    if n < 10 {
        String::from_str(digit_str(n))
    } else {
        let mut s = u64_to_dec_string(n / 10);
        s.append(digit_str(n % 10));
        assert(s@ =~= dec_digits(n as int));
        s
    }
}

/// Renders an `i32` as decimal text, `-` prefixed when negative.
pub fn i32_to_dec_string(n: i32) -> (r: String)
    ensures
        r@ == int_to_dec(n as int),
{
    i64_to_dec_string(n as i64)
}

/// Renders an `i64` as decimal text, `-` prefixed when negative.
pub fn i64_to_dec_string(n: i64) -> (r: String)
    ensures
        r@ == int_to_dec(n as int),
{
    proof {
        reveal_strlit("-");
    }
    if n < 0 {
        let mag: u64 = if n == i64::MIN {
            9223372036854775808u64
        } else {
            (-n) as u64
        };
        let mut s = String::from_str("-");
        let digits = u64_to_dec_string(mag);
        s.append(digits.as_str());
        assert(s@ =~= int_to_dec(n as int));
        s
    } else {
        u64_to_dec_string(n as u64)
    }
}

/// Reads an `i64` wire field: the numeral's value, or zero when the text is
/// not a numeral or its value does not fit.
pub fn parse_i64_str(s: &str) -> (r: i64)
    ensures
        r as int == i64_field_value(s@),
{
    let len = s.unicode_len();
    if len == 0 {
        return 0;
    }
    let first = s.get_char(0);
    let neg = first == '-';
    let has_sign = neg || first == '+';
    let start: usize = if has_sign { 1 } else { 0 };
    if start == len {
        return 0;
    }
    let ghost digits = s@.subrange(start as int, len as int);
    let mut i: usize = start;
    let mut acc: u64 = 0;
    while i < len
        invariant
            start == 0 || start == 1,
            start <= i <= len,
            len == s@.len(),
            start == 1 <==> (s@[0] == '-' || s@[0] == '+'),
            neg <==> s@[0] == '-',
            start < len,
            digits == s@.subrange(start as int, len as int),
            all_digits(s@.subrange(start as int, i as int)),
            acc as int == digits_val(s@.subrange(start as int, i as int)),
            acc <= 9223372036854775808u64,
        decreases len - i,
    {
        let c = s.get_char(i);
        let cu = c as u32;
        if cu < 48 || cu > 57 {
            proof {
                assert(!is_digit_char(s@[i as int]));
                if is_int_numeral(s@) {
                    if start == 1 {
                        assert(s@.subrange(1, len as int)[i - 1] == s@[i as int]);
                    }
                    assert(false);
                }
            }
            return 0;
        }
        let d: u64 = (cu - 48) as u64;
        proof {
            assert(is_digit_char(s@[i as int]));
            assert(digit_val(s@[i as int]) == d as int);
        }
        if acc > 922337203685477580u64 || (acc == 922337203685477580u64 && d > 8) {
            proof {
                let p = s@.subrange(start as int, i as int);
                let q = s@.subrange(start as int, i + 1);
                assert(q.drop_last() =~= p);
                assert(q.last() == s@[i as int]);
                assert(digits_val(q) == digits_val(p) * 10 + d as int);
                assert(digits_val(q) > 9223372036854775808int);
                if is_int_numeral(s@) {
                    assert(all_digits(digits)) by {
                        if start == 1 {
                            assert(forall|k: int| 0 <= k < digits.len()
                                ==> digits[k] == #[trigger] s@.subrange(1, len as int)[k]);
                        }
                    }
                    assert(forall|k: int| 0 <= k < i + 1 - start
                        ==> is_digit_char(#[trigger] digits[k]));
                    lemma_digits_val_grows(digits, i + 1 - start);
                    assert(digits.subrange(0, i + 1 - start) =~= q);
                    assert(digits_val(digits) > 9223372036854775808int);
                    assert(numeral_val(s@) == digits_val(digits)
                        || numeral_val(s@) == -digits_val(digits)) by {
                        if start == 1 {
                            assert(s@.subrange(1, len as int) =~= digits);
                        } else {
                            assert(digits =~= s@);
                        }
                    }
                }
            }
            return 0;
        }
        acc = acc * 10 + d;
        i = i + 1;
        proof {
            let p = s@.subrange(start as int, i - 1);
            let q = s@.subrange(start as int, i as int);
            assert(q.drop_last() =~= p);
            assert(q.last() == s@[i - 1]);
        }
    }
    proof {
        assert(s@.subrange(start as int, i as int) =~= digits);
        assert(is_int_numeral(s@)) by {
            if start == 1 {
                assert(s@.subrange(1, len as int) =~= digits);
            } else {
                assert(digits =~= s@);
            }
        }
        assert(numeral_val(s@) == if neg { -(acc as int) } else { acc as int }) by {
            if start == 1 {
                assert(s@.subrange(1, len as int) =~= digits);
            } else {
                assert(digits =~= s@);
            }
        }
    }
    if neg {
        if acc == 9223372036854775808u64 {
            i64::MIN
        } else {
            -(acc as i64)
        }
    } else {
        if acc > 9223372036854775807u64 {
            return 0;
        }
        acc as i64
    }
}

/// Reads an `i32` wire field: the numeral's value, or zero when the text is
/// not a numeral or its value does not fit.
pub fn parse_i32_str(s: &str) -> (r: i32)
    ensures
        r as int == i32_field_value(s@),
{
    let v = parse_i64_str(s);
    if v > i32::MAX as i64 || v < i32::MIN as i64 {
        proof {
            if is_int_numeral(s@) && i32::MIN <= numeral_val(s@) <= i32::MAX {
                assert(v as int == numeral_val(s@));
                assert(false);
            }
        }
        0
    } else {
        proof {
            if is_int_numeral(s@) && i64::MIN <= numeral_val(s@) <= i64::MAX {
                assert(v as int == numeral_val(s@));
            } else {
                assert(v == 0);
                assert(i32_field_value(s@) == 0);
            }
        }
        v as i32
    }
}

/// Reading back the rendering of an `i32` gives the same value.
pub proof fn lemma_parse_of_i32_dec(n: int)
    requires
        i32::MIN <= n <= i32::MAX,
    ensures
        i32_field_value(int_to_dec(n)) == n,
{
    lemma_int_to_dec_val(n);
}

/// Reading back the rendering of an `i64` gives the same value.
pub proof fn lemma_parse_of_i64_dec(n: int)
    requires
        i64::MIN <= n <= i64::MAX,
    ensures
        i64_field_value(int_to_dec(n)) == n,
{
    lemma_int_to_dec_val(n);
}

} // verus!
