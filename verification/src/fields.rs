//! The field tokenizer: a frame payload is a run of NUL-terminated UTF-8
//! string fields. Splitting keeps the protocol convention that every field,
//! including the last, is NUL-terminated, so exactly one trailing empty
//! token is discarded.

use vstd::prelude::*;

verus! {

pub open spec fn nul_free(s: Seq<char>) -> bool {
    forall|i: int| 0 <= i < s.len() ==> #[trigger] s[i] != '\u{0}'
}

pub open spec fn all_nul_free(fs: Seq<Seq<char>>) -> bool {
    forall|i: int| 0 <= i < fs.len() ==> nul_free(#[trigger] fs[i])
}

/// The payload text of a field sequence: each field followed by a NUL.
pub open spec fn join_fields_view(fs: Seq<Seq<char>>) -> Seq<char>
    decreases fs.len(),
{
    if fs.len() == 0 {
        Seq::empty()
    } else {
        fs[0] + seq!['\u{0}'] + join_fields_view(fs.drop_first())
    }
}

/// The parts of a text split on every NUL; one more part than NULs.
pub open spec fn split_all(s: Seq<char>) -> Seq<Seq<char>>
    decreases s.len(),
{
    if s.len() == 0 {
        seq![Seq::<char>::empty()]
    } else if s[0] == '\u{0}' {
        seq![Seq::<char>::empty()] + split_all(s.drop_first())
    } else {
        let r = split_all(s.drop_first());
        seq![seq![s[0]] + r[0]] + r.drop_first()
    }
}

/// The field sequence of a payload: split on NUL, with the conventional
/// trailing token discarded.
pub open spec fn split_fields(s: Seq<char>) -> Seq<Seq<char>> {
    split_all(s).drop_last()
}

pub proof fn lemma_split_all_len(s: Seq<char>)
    ensures
        split_all(s).len() >= 1,
    decreases s.len(),
{
    if s.len() != 0 {
        lemma_split_all_len(s.drop_first());
    }
}

/// A text without NUL splits into just itself.
pub proof fn lemma_split_no_nul(s: Seq<char>)
    requires
        nul_free(s),
    ensures
        split_all(s) =~= seq![s],
    decreases s.len(),
{
    if s.len() == 0 {
        assert(s =~= Seq::<char>::empty());
    } else {
        assert(nul_free(s.drop_first())) by {
            assert(forall|i: int| 0 <= i < s.len() - 1
                ==> #[trigger] s.drop_first()[i] == s[i + 1]);
        }
        lemma_split_no_nul(s.drop_first());
        assert(split_all(s.drop_first()).drop_first() =~= Seq::<Seq<char>>::empty());
        assert(split_all(s.drop_first())[0] == s.drop_first());
        assert(seq![s[0]] + s.drop_first() =~= s);
        assert(split_all(s) =~= seq![seq![s[0]] + s.drop_first()]);
    }
}

/// Splitting at the first NUL peels off the first part.
pub proof fn lemma_split_at_first_nul(s: Seq<char>, m: int)
    requires
        0 <= m < s.len(),
        s[m] == '\u{0}',
        forall|i: int| 0 <= i < m ==> #[trigger] s[i] != '\u{0}',
    ensures
        split_all(s) =~= seq![s.subrange(0, m)] + split_all(s.subrange(m + 1, s.len() as int)),
    decreases m,
{
    if m == 0 {
        assert(s.subrange(0, 0) =~= Seq::<char>::empty());
        assert(s.subrange(1, s.len() as int) =~= s.drop_first());
    } else {
        let t = s.drop_first();
        assert(forall|i: int| 0 <= i < s.len() - 1 ==> #[trigger] t[i] == s[i + 1]);
        lemma_split_at_first_nul(t, m - 1);
        assert(t.subrange(m, t.len() as int) =~= s.subrange(m + 1, s.len() as int));
        assert(seq![s[0]] + t.subrange(0, m - 1) =~= s.subrange(0, m));
        lemma_split_all_len(t.subrange(m, t.len() as int));
    }
}

/// Joining fields that contain no NUL and re-tokenizing yields the fields
/// back, in order.
pub proof fn lemma_fields_round_trip(fs: Seq<Seq<char>>)
    requires
        all_nul_free(fs),
    ensures
        split_fields(join_fields_view(fs)) =~= fs,
    decreases fs.len(),
{
    if fs.len() == 0 {
        assert(split_all(join_fields_view(fs)) =~= seq![Seq::<char>::empty()]);
    } else {
        let s = join_fields_view(fs);
        let f0 = fs[0];
        let rest = join_fields_view(fs.drop_first());
        assert(s == f0 + seq!['\u{0}'] + rest);
        let m = f0.len() as int;
        assert(s.subrange(0, m) =~= f0);
        assert(s.subrange(m + 1, s.len() as int) =~= rest);
        assert(nul_free(f0));
        assert(s[m] == '\u{0}');
        assert(forall|i: int| 0 <= i < m ==> #[trigger] s[i] == f0[i]);
        lemma_split_at_first_nul(s, m);
        assert(split_all(s) =~= seq![f0] + split_all(rest));
        assert(all_nul_free(fs.drop_first())) by {
            assert(forall|i: int| 0 <= i < fs.len() - 1
                ==> #[trigger] fs.drop_first()[i] == fs[i + 1]);
        }
        lemma_fields_round_trip(fs.drop_first());
        lemma_split_all_len(rest);
        assert(split_fields(s) =~= seq![f0] + split_all(rest).drop_last());
        assert(seq![f0] + split_fields(rest) =~= fs);
    }
}

/// Splits a payload's text into its fields, dropping the trailing token.
pub fn read_fields(payload: &str) -> (r: Vec<String>)
    ensures
        r.deep_view() == split_fields(payload@),
{
    let len = payload.unicode_len();
    let mut r: Vec<String> = Vec::new();
    let mut start: usize = 0;
    let mut i: usize = 0;
    proof {
        assert(r.deep_view() =~= Seq::<Seq<char>>::empty());
        assert(payload@.subrange(0, len as int) =~= payload@);
    }
    while i < len
        invariant
            0 <= start <= i <= len,
            len == payload@.len(),
            forall|k: int| start <= k < i ==> #[trigger] payload@[k] != '\u{0}',
            split_all(payload@) =~= r.deep_view()
                + split_all(payload@.subrange(start as int, len as int)),
        decreases len - i,
    {
        let c = payload.get_char(i);
        if c == '\u{0}' {
            let tok = payload.substring_char(start, i).to_owned();
            proof {
                let t = payload@.subrange(start as int, len as int);
                assert(t[i - start] == '\u{0}');
                assert(forall|k: int| 0 <= k < i - start
                    ==> #[trigger] t[k] == payload@[k + start] && t[k] != '\u{0}');
                lemma_split_at_first_nul(t, i - start);
                assert(t.subrange(0, i - start) =~= payload@.subrange(start as int, i as int));
                assert(t.subrange(i - start + 1, t.len() as int)
                    =~= payload@.subrange(i + 1, len as int));
                assert(tok@ =~= payload@.subrange(start as int, i as int));
            }
            let ghost old_r = r.deep_view();
            r.push(tok);
            start = i + 1;
            proof {
                assert(r.deep_view() =~= old_r.push(tok@));
            }
        }
        i = i + 1;
    }
    proof {
        let t = payload@.subrange(start as int, len as int);
        assert(nul_free(t)) by {
            assert(forall|k: int| 0 <= k < t.len()
                ==> #[trigger] t[k] == payload@[k + start]);
        }
        lemma_split_no_nul(t);
        assert(r.deep_view() =~= (r.deep_view() + seq![t]).drop_last());
    }
    r
}

/// Joins fields into a payload text, each field NUL-terminated.
pub fn join_fields(fields: &Vec<String>) -> (r: String)
    ensures
        r@ == join_fields_view(fields.deep_view()),
{
    let mut r = String::new();
    let mut i: usize = 0;
    while i < fields.len()
        invariant
            0 <= i <= fields.len(),
            r@ == join_fields_view(fields.deep_view().subrange(0, i as int)),
        decreases fields.len() - i,
    {
        r.append(fields[i].as_str());
        r.append("\u{0}");
        proof {
            reveal_strlit("\u{0}");
            lemma_join_push(fields.deep_view().subrange(0, i as int), fields.deep_view()[i as int]);
            assert(fields.deep_view().subrange(0, i as int).push(fields.deep_view()[i as int])
                =~= fields.deep_view().subrange(0, i + 1));
            assert(("\u{0}")@ =~= seq!['\u{0}']);
        }
        i = i + 1;
    }
    proof {
        assert(fields.deep_view().subrange(0, fields.len() as int) =~= fields.deep_view());
    }
    r
}

proof fn lemma_join_push(fs: Seq<Seq<char>>, f: Seq<char>)
    ensures
        join_fields_view(fs.push(f)) =~= join_fields_view(fs) + f + seq!['\u{0}'],
    decreases fs.len(),
{
    if fs.len() == 0 {
        assert(fs.push(f).drop_first() =~= Seq::<Seq<char>>::empty());
        assert(fs.push(f)[0] == f);
        assert(join_fields_view(fs.push(f))
            == f + seq!['\u{0}'] + join_fields_view(fs.push(f).drop_first()));
        assert(join_fields_view(Seq::<Seq<char>>::empty()) =~= Seq::<char>::empty());
        assert(join_fields_view(fs) =~= Seq::<char>::empty());
    } else {
        assert(fs.push(f).drop_first() =~= fs.drop_first().push(f));
        assert(fs.push(f)[0] == fs[0]);
        assert(join_fields_view(fs.push(f))
            == fs[0] + seq!['\u{0}'] + join_fields_view(fs.drop_first().push(f)));
        lemma_join_push(fs.drop_first(), f);
    }
}

/// Relies on String::from_utf8: it succeeds exactly on valid UTF-8 and
/// the returned string's bytes are the input bytes.
#[verifier::external_body]
pub fn bytes_to_string(bytes: Vec<u8>) -> (r: Option<String>)
    ensures
        vstd::utf8::valid_utf8(bytes@) ==> r is Some,
        r matches Some(s) ==> vstd::utf8::encode_utf8(s@) == bytes@,
{
    match String::from_utf8(bytes) {
        Ok(s) => Some(s),
        Err(_) => None,
    }
}

/// Tokenizes one frame payload: the bytes must be valid UTF-8, and the
/// text splits into NUL-terminated fields. A payload that is not valid
/// UTF-8 fails the message, not the process.
pub fn tokenize_payload(payload: Vec<u8>) -> (r: Option<Vec<String>>)
    ensures
        r is Some <==> vstd::utf8::valid_utf8(payload@),
        r matches Some(fields) ==> fields.deep_view()
            == split_fields(vstd::utf8::decode_utf8(payload@)),
{
    let ghost bytes = payload@;
    match bytes_to_string(payload) {
        Some(text) => {
            proof {
                vstd::utf8::encode_utf8_valid_utf8(text@);
                vstd::utf8::encode_utf8_decode_utf8(text@);
            }
            Some(read_fields(text.as_str()))
        },
        None => None,
    }
}

} // verus!
