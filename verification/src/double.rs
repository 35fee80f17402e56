//! Decimal number fields kept in their textual wire form.
//!
//! The wire protocol carries every number as decimal text, so the library
//! models a "double" field as that text itself: either the distinguished
//! `Unset` sentinel (encoded as an empty field) or a decimal numeral. The
//! grammar accepted here is an optional sign, one or more digits, and an
//! optional fraction part; a field outside the grammar reads as the zero
//! default, mirroring the protocol's per-field resilience policy.

use vstd::prelude::*;
use crate::numbers::{all_digits, is_digit_char};

verus! {

/// A decimal number field: the unset sentinel, or the numeral's text.
#[derive(Clone, Debug)]
pub enum Double {
    Unset,
    Num(String),
}

impl View for Double {
    type V = Option<Seq<char>>;

    open spec fn view(&self) -> Option<Seq<char>> {
        match self {
            Double::Unset => None,
            Double::Num(s) => Some(s@),
        }
    }
}

pub open spec fn decimal_sign_len(s: Seq<char>) -> int {
    if s.len() > 0 && (s[0] == '-' || s[0] == '+') {
        1
    } else {
        0
    }
}

pub open spec fn decimal_body_ok(b: Seq<char>) -> bool {
    all_digits(b) || (exists|k: int|
        1 <= k && k + 1 < b.len() && #[trigger] b[k] == '.'
            && all_digits(b.subrange(0, k))
            && all_digits(b.subrange(k + 1, b.len() as int)))
}

/// An optionally signed decimal numeral with an optional fraction part.
pub open spec fn is_plain_decimal(s: Seq<char>) -> bool {
    let b = s.subrange(decimal_sign_len(s), s.len() as int);
    b.len() > 0 && decimal_body_ok(b)
}

/// A well-formed decimal whose every digit is zero.
pub open spec fn is_zero_decimal(s: Seq<char>) -> bool {
    is_plain_decimal(s) && (forall|i: int|
        0 <= i < s.len() && is_digit_char(#[trigger] s[i]) ==> s[i] == '0')
}

/// A well-formed decimal denoting a value strictly above zero.
pub open spec fn is_positive_decimal(s: Seq<char>) -> bool {
    is_plain_decimal(s) && !is_zero_decimal(s) && s[0] != '-'
}

/// What a plain double field reads as: the numeral's text, or the zero
/// default when the text is outside the grammar.
pub open spec fn dbl_field(s: Seq<char>) -> Option<Seq<char>> {
    if is_plain_decimal(s) {
        Some(s)
    } else {
        Some(seq!['0'])
    }
}

/// What an unset-aware double field reads as: the unset sentinel for an
/// empty, malformed or zero field, and the numeral's text otherwise.
pub open spec fn dbl_field_show_unset(s: Seq<char>) -> Option<Seq<char>> {
    if !is_plain_decimal(s) || is_zero_decimal(s) {
        None
    } else {
        Some(s)
    }
}

/// The text an unset-aware double encodes to: empty for the sentinel.
pub open spec fn dbl_max_text(d: Option<Seq<char>>) -> Seq<char> {
    match d {
        None => Seq::empty(),
        Some(t) => t,
    }
}

/// The decimal rendering of the largest double value, which the in-memory
/// unset sentinel prints as when a plain (not unset-aware) encoder emits it.
pub open spec fn unset_double_text() -> Seq<char> {
    "179769313486231570000000000000000000000000000000000000000000000000000000000000000000000000000000000000000000000000000000000000000000000000000000000000000000000000000000000000000000000000000000000000000000000000000000000000000000000000000000000000000000000000000000000000000000000000000000000000000000000000000"@
}

/// The text a plain double encodes to: the sentinel value's own numeral for
/// unset, the numeral's text otherwise.
pub open spec fn dbl_plain_text(d: Option<Seq<char>>) -> Seq<char> {
    match d {
        None => unset_double_text(),
        Some(t) => t,
    }
}

/// The value's numeral is well-formed (or the value is unset).
pub open spec fn dbl_valid(d: Option<Seq<char>>) -> bool {
    match d {
        None => true,
        Some(t) => is_plain_decimal(t),
    }
}

/// A set, well-formed, strictly positive value.
#[verifier::opaque]
pub open spec fn dbl_is_positive(d: Option<Seq<char>>) -> bool {
    match d {
        None => false,
        Some(t) => is_positive_decimal(t),
    }
}

/// First index in `[from, to)` whose character is not a digit.
fn scan_non_digit(s: &str, from: usize, to: usize) -> (r: Option<usize>)
    requires
        from <= to <= s@.len(),
    ensures
        match r {
            None => all_digits(s@.subrange(from as int, to as int)),
            Some(j) => from <= j < to && !is_digit_char(s@[j as int])
                && all_digits(s@.subrange(from as int, j as int)),
        },
{
    let mut i: usize = from;
    while i < to
        invariant
            from <= i <= to <= s@.len(),
            all_digits(s@.subrange(from as int, i as int)),
        decreases to - i,
    {
        let c = s.get_char(i);
        let cu = c as u32;
        if cu < 48 || cu > 57 {
            return Some(i);
        }
        i = i + 1;
        proof {
            let p = s@.subrange(from as int, i - 1);
            let q = s@.subrange(from as int, i as int);
            assert(forall|k: int| 0 <= k < q.len() - 1 ==> q[k] == p[k]);
        }
    }
    None
}

/// Checks whether the text is a well-formed decimal numeral.
pub fn check_plain_decimal(s: &str) -> (r: bool)
    ensures
        r == is_plain_decimal(s@),
{
    let len = s.unicode_len();
    if len == 0 {
        return false;
    }
    let first = s.get_char(0);
    let start: usize = if first == '-' || first == '+' {
        1
    } else {
        0
    };
    let ghost b = s@.subrange(start as int, len as int);
    if start == len {
        return false;
    }
    match scan_non_digit(s, start, len) {
        None => {
            proof {
                assert(b =~= s@.subrange(start as int, len as int));
                assert(all_digits(b));
            }
            true
        },
        Some(j) => {
            let c = s.get_char(j);
            if c != '.' {
                proof {
                    assert(!decimal_body_ok(b)) by {
                        assert(!all_digits(b)) by {
                            assert(b[j - start] == s@[j as int]);
                        }
                        assert forall|k: int|
                            1 <= k && k + 1 < b.len() && #[trigger] b[k] == '.'
                            implies !(all_digits(b.subrange(0, k))
                                && all_digits(b.subrange(k + 1, b.len() as int))) by {
                            let jj = j - start;
                            assert(b[jj] == s@[j as int]);
                            if jj < k {
                                assert(b.subrange(0, k)[jj] == b[jj]);
                            } else if jj > k {
                                assert(b.subrange(k + 1, b.len() as int)[jj - k - 1] == b[jj]);
                            }
                        }
                    }
                }
                return false;
            }
            if j == start {
                proof {
                    assert(b[0] == '.');
                    assert(!decimal_body_ok(b)) by {
                        assert(!all_digits(b)) by { assert(!is_digit_char(b[0])); }
                        assert forall|k: int|
                            1 <= k && k + 1 < b.len() && #[trigger] b[k] == '.'
                            implies !(all_digits(b.subrange(0, k))
                                && all_digits(b.subrange(k + 1, b.len() as int))) by {
                            assert(b.subrange(0, k)[0] == b[0]);
                        }
                    }
                }
                return false;
            }
            if j + 1 == len {
                proof {
                    let jj = j - start;
                    assert(b[jj] == '.');
                    assert(!decimal_body_ok(b)) by {
                        assert(!all_digits(b)) by { assert(!is_digit_char(b[jj])); }
                        assert forall|k: int|
                            1 <= k && k + 1 < b.len() && #[trigger] b[k] == '.'
                            implies !(all_digits(b.subrange(0, k))
                                && all_digits(b.subrange(k + 1, b.len() as int))) by {
                            if k < jj {
                                assert(b.subrange(k + 1, b.len() as int)[jj - k - 1] == b[jj]);
                            }
                        }
                    }
                }
                return false;
            }
            match scan_non_digit(s, j + 1, len) {
                None => {
                    proof {
                        let jj = j - start;
                        assert(decimal_body_ok(b)) by {
                            assert(b[jj] == '.');
                            assert(all_digits(b.subrange(0, jj))) by {
                                let p = s@.subrange(start as int, j as int);
                                assert(b.subrange(0, jj) =~= p);
                            }
                            assert(all_digits(b.subrange(jj + 1, b.len() as int))) by {
                                let q = s@.subrange(j + 1, len as int);
                                assert(b.subrange(jj + 1, b.len() as int) =~= q);
                            }
                        }
                    }
                    true
                },
                Some(m) => {
                    proof {
                        let jj = j - start;
                        let mm = m - start;
                        assert(b[jj] == '.');
                        assert(b[mm] == s@[m as int]);
                        assert(!is_digit_char(b[mm]));
                        assert(!decimal_body_ok(b)) by {
                            assert(!all_digits(b)) by { assert(!is_digit_char(b[jj])); }
                            assert forall|k: int|
                                1 <= k && k + 1 < b.len() && #[trigger] b[k] == '.'
                                implies !(all_digits(b.subrange(0, k))
                                    && all_digits(b.subrange(k + 1, b.len() as int))) by {
                                if k < jj {
                                    assert(b.subrange(k + 1, b.len() as int)[jj - k - 1] == b[jj]);
                                } else if k == jj {
                                    assert(b.subrange(k + 1, b.len() as int)[mm - k - 1] == b[mm]);
                                } else {
                                    assert(b.subrange(0, k)[jj] == b[jj]);
                                }
                            }
                        }
                    }
                    false
                },
            }
        },
    }
}

/// Checks whether the text is a well-formed decimal with every digit zero.
pub fn check_zero_decimal(s: &str) -> (r: bool)
    ensures
        r == is_zero_decimal(s@),
{
    if !check_plain_decimal(s) {
        return false;
    }
    let len = s.unicode_len();
    let mut i: usize = 0;
    while i < len
        invariant
            0 <= i <= len,
            len == s@.len(),
            is_plain_decimal(s@),
            forall|k: int| 0 <= k < i && is_digit_char(#[trigger] s@[k]) ==> s@[k] == '0',
        decreases len - i,
    {
        let c = s.get_char(i);
        let cu = c as u32;
        if cu >= 48 && cu <= 57 && cu != 48 {
            return false;
        }
        i = i + 1;
    }
    true
}

impl Double {
    /// The unset sentinel.
    pub fn unset() -> (r: Double)
        ensures
            r@ is None,
    {
        Double::Unset
    }

    /// A value given by its decimal text.
    pub fn from_text(t: String) -> (r: Double)
        ensures
            r@ == Some(t@),
    {
        Double::Num(t)
    }

    pub fn is_unset(&self) -> (r: bool)
        ensures
            r == (self@ is None),
    {
        match self {
            Double::Unset => true,
            Double::Num(_) => false,
        }
    }

    /// Whether the value is set, well-formed and strictly positive.
    pub fn is_positive(&self) -> (r: bool)
        ensures
            r == dbl_is_positive(self@),
    {
        proof {
            reveal(dbl_is_positive);
        }
        match self {
            Double::Unset => false,
            Double::Num(t) => {
                if !check_plain_decimal(t.as_str()) {
                    return false;
                }
                if check_zero_decimal(t.as_str()) {
                    return false;
                }
                let c = t.as_str().get_char(0);
                c != '-'
            },
        }
    }

    /// The text an unset-aware encoder writes for this value.
    pub fn to_max_text(&self) -> (r: String)
        ensures
            r@ == dbl_max_text(self@),
    {
        match self {
            Double::Unset => String::new(),
            Double::Num(t) => t.clone(),
        }
    }

    /// The text a plain encoder writes for this value.
    pub fn to_plain_text(&self) -> (r: String)
        ensures
            r@ == dbl_plain_text(self@),
    {
        match self {
            Double::Unset => String::from_str(
                "179769313486231570000000000000000000000000000000000000000000000000000000000000000000000000000000000000000000000000000000000000000000000000000000000000000000000000000000000000000000000000000000000000000000000000000000000000000000000000000000000000000000000000000000000000000000000000000000000000000000000000000",
            ),
            Double::Num(t) => t.clone(),
        }
    }

    /// Reads a plain double field.
    pub fn from_field(s: &String) -> (r: Double)
        ensures
            r@ == dbl_field(s@),
    {
        if check_plain_decimal(s.as_str()) {
            Double::Num(s.clone())
        } else {
            let z = String::from_str("0");
            proof {
                reveal_strlit("0");
                assert(z@ =~= seq!['0']);
            }
            Double::Num(z)
        }
    }

    /// Reads an unset-aware double field.
    pub fn from_field_show_unset(s: &String) -> (r: Double)
        ensures
            r@ == dbl_field_show_unset(s@),
    {
        if !check_plain_decimal(s.as_str()) {
            Double::Unset
        } else if check_zero_decimal(s.as_str()) {
            Double::Unset
        } else {
            Double::Num(s.clone())
        }
    }
}

/// An unset-aware double survives the wire: the sentinel encodes as the
/// empty field and reads back as the sentinel; a well-formed non-zero
/// numeral encodes as itself and reads back unchanged. A zero value is
/// the one lossy point: the protocol itself turns it into the sentinel.
pub proof fn lemma_double_round_trip_show_unset(d: Option<Seq<char>>)
    requires
        dbl_valid(d),
        d matches Some(t) ==> !is_zero_decimal(t),
    ensures
        dbl_field_show_unset(dbl_max_text(d)) == d,
{
    match d {
        None => {
            let e = Seq::<char>::empty();
            assert(e.subrange(decimal_sign_len(e), e.len() as int) =~= e);
            assert(!is_plain_decimal(e));
        },
        Some(t) => {},
    }
}

/// A plain double field reads back exactly what a well-formed numeral
/// encoded.
pub proof fn lemma_double_round_trip_plain(t: Seq<char>)
    requires
        is_plain_decimal(t),
    ensures
        dbl_field(dbl_plain_text(Some(t))) == Some(t),
{
}

} // verus!
