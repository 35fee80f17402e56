//! A tag=value pair, the protocol's free-form parameter carrier.

use vstd::prelude::*;

verus! {

#[derive(Debug)]
pub struct TagValue {
    pub tag: String,
    pub value: String,
}

#[verifier::ext_equal]
pub struct TagValueV {
    pub tag: Seq<char>,
    pub value: Seq<char>,
}

impl View for TagValue {
    type V = TagValueV;

    open spec fn view(&self) -> TagValueV {
        TagValueV { tag: self.tag@, value: self.value@ }
    }
}

impl TagValue {
    pub fn new(tag: String, value: String) -> (r: TagValue)
        ensures
            r@ == (TagValueV { tag: tag@, value: value@ }),
    {
        TagValue { tag, value }
    }
}

} // verus!
