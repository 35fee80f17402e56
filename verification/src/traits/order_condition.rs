//! What every order condition offers: its kind code and the shared
//! conjunction flag that joins it to the next condition in the list.

use vstd::prelude::*;

verus! {

pub trait OrderCondition {
    /// The kind code the condition carries.
    spec fn type_code_view(&self) -> i32;

    /// The conjunction flag: true joins with "and", false with "or".
    spec fn conjunction_view(&self) -> bool;

    fn get_type(&self) -> (r: i32)
        ensures
            r == self.type_code_view(),
    ;

    fn get_conjunction(&self) -> (r: bool)
        ensures
            r == self.conjunction_view(),
    ;

    fn set_conjunction(&mut self, val: bool)
        ensures
            final(self).conjunction_view() == val,
    ;
}

} // verus!
