//! `==` and `!=` between runtime values.

use crate::objects::{same, Objects};
use vstd::prelude::*;
use vstd::std_specs::cmp::PartialEqSpecImpl;

verus! {

impl PartialEq for Objects {
    fn eq(&self, other: &Objects) -> (r: bool) {
        self.equals(other)
    }
}

impl PartialEqSpecImpl for Objects {
    open spec fn obeys_eq_spec() -> bool {
        true
    }

    /// Two values are `==` where [`same`] holds of their models.
    open spec fn eq_spec(&self, other: &Objects) -> bool {
        same(self@, other@)
    }
}

} // verus!
