//! The outbound parameter builder: appends primitive values to a growing
//! field sequence in encoding order. Each primitive produces exactly one
//! wire field; the "max" variants encode the unset sentinel as an empty
//! field. Framing the finished sequence is the frame codec's job.

use vstd::prelude::*;
use crate::double::{Double, dbl_max_text, dbl_plain_text};
use crate::models::tag_value::{TagValue, TagValueV};
use crate::numbers::int_to_dec;

verus! {

/// The wire text of a boolean field.
pub open spec fn bool_text(b: bool) -> Seq<char> {
    if b {
        "1"@
    } else {
        "0"@
    }
}

/// The single field a tag-value list encodes to: `tag=value;` for each
/// pair, concatenated without further separators.
pub open spec fn tag_values_text(tvs: Seq<TagValueV>) -> Seq<char>
    decreases tvs.len(),
{
    if tvs.len() == 0 {
        Seq::empty()
    } else {
        tvs[0].tag + seq!['='] + tvs[0].value + seq![';'] + tag_values_text(tvs.drop_first())
    }
}

pub proof fn lemma_tag_values_push(tvs: Seq<TagValueV>, tv: TagValueV)
    ensures
        tag_values_text(tvs.push(tv))
            =~= tag_values_text(tvs) + tv.tag + seq!['='] + tv.value + seq![';'],
    decreases tvs.len(),
{
    if tvs.len() == 0 {
        assert(tvs.push(tv).drop_first() =~= Seq::<TagValueV>::empty());
        assert(tvs.push(tv)[0] == tv);
        assert(tag_values_text(Seq::<TagValueV>::empty()) =~= Seq::<char>::empty());
        assert(tag_values_text(tvs) =~= Seq::<char>::empty());
    } else {
        assert(tvs.push(tv).drop_first() =~= tvs.drop_first().push(tv));
        assert(tvs.push(tv)[0] == tvs[0]);
        lemma_tag_values_push(tvs.drop_first(), tv);
    }
}

/// The outbound field list under construction.
pub struct ApiParameters {
    fields: Vec<String>,
}

impl View for ApiParameters {
    type V = Seq<Seq<char>>;

    closed spec fn view(&self) -> Seq<Seq<char>> {
        self.fields.deep_view()
    }
}

impl ApiParameters {
    pub fn new() -> (r: ApiParameters)
        ensures
            r@ == Seq::<Seq<char>>::empty(),
    {
        let r = ApiParameters { fields: Vec::new() };
        proof {
            assert(r@ =~~= Seq::<Seq<char>>::empty());
        }
        r
    }

    /// Appends one string field.
    pub fn add_string(&mut self, item: &str)
        ensures
            final(self)@ == old(self)@.push(item@),
    {
        let ghost before = self@;
        self.fields.push(item.to_owned());
        proof {
            assert(self@ =~~= before.push(item@));
        }
    }

    /// Appends one integer field in decimal text.
    pub fn add_int(&mut self, item: i32)
        ensures
            final(self)@ == old(self)@.push(int_to_dec(item as int)),
    {
        let ghost before = self@;
        let s = crate::numbers::i32_to_dec_string(item);
        self.fields.push(s);
        proof {
            assert(self@ =~~= before.push(int_to_dec(item as int)));
        }
    }

    /// Appends one integer field, encoding the unset sentinel as an empty
    /// field.
    pub fn add_int_max(&mut self, item: i32)
        ensures
            final(self)@ == old(self)@.push(
                if item == i32::MAX {
                    Seq::<char>::empty()
                } else {
                    int_to_dec(item as int)
                },
            ),
    {
        if item == i32::MAX {
            let ghost before = self@;
            self.fields.push(String::new());
            proof {
                assert(self@ =~~= before.push(Seq::<char>::empty()));
            }
        } else {
            self.add_int(item);
        }
    }

    /// Appends one boolean field: `1` for true, `0` for false.
    pub fn add_bool(&mut self, item: bool)
        ensures
            final(self)@ == old(self)@.push(bool_text(item)),
    {
        if item {
            self.add_string("1");
        } else {
            self.add_string("0");
        }
    }

    /// Appends one decimal number field; the unset sentinel encodes as the
    /// sentinel value's own numeral.
    pub fn add_double(&mut self, item: &Double)
        ensures
            final(self)@ == old(self)@.push(dbl_plain_text(item@)),
    {
        let ghost before = self@;
        let s = item.to_plain_text();
        self.fields.push(s);
        proof {
            assert(self@ =~~= before.push(dbl_plain_text(item@)));
        }
    }

    /// Appends one decimal number field, encoding the unset sentinel as an
    /// empty field.
    pub fn add_double_max(&mut self, item: &Double)
        ensures
            final(self)@ == old(self)@.push(dbl_max_text(item@)),
    {
        let ghost before = self@;
        let s = item.to_max_text();
        self.fields.push(s);
        proof {
            assert(self@ =~~= before.push(dbl_max_text(item@)));
        }
    }

    /// Appends a tag-value list as one field of concatenated `tag=value;`
    /// pairs.
    pub fn add_tag_value_vec(&mut self, items: &Vec<TagValue>)
        ensures
            final(self)@ == old(self)@.push(
                tag_values_text(items@.map_values(|t: TagValue| t@)),
            ),
    {
        let ghost tvs = items@.map_values(|t: TagValue| t@);
        let mut text = String::new();
        let mut i: usize = 0;
        while i < items.len()
            invariant
                0 <= i <= items@.len(),
                tvs == items@.map_values(|t: TagValue| t@),
                text@ == tag_values_text(tvs.subrange(0, i as int)),
            decreases items@.len() - i,
        {
            text.append(items[i].tag.as_str());
            text.append("=");
            text.append(items[i].value.as_str());
            text.append(";");
            proof {
                reveal_strlit("=");
                reveal_strlit(";");
                assert(("=")@ =~= seq!['=']);
                assert((";")@ =~= seq![';']);
                lemma_tag_values_push(tvs.subrange(0, i as int), tvs[i as int]);
                assert(tvs.subrange(0, i as int).push(tvs[i as int])
                    =~= tvs.subrange(0, i + 1));
            }
            i = i + 1;
        }
        proof {
            assert(tvs.subrange(0, items@.len() as int) =~= tvs);
        }
        self.add_string(text.as_str());
    }

    /// Hands the finished field sequence over for framing.
    pub fn into_fields(self) -> (r: Vec<String>)
        ensures
            r.deep_view() == self@,
    {
        self.fields
    }
}

} // verus!
