//! The immediate reduced-precision float kind.
//!
//! A flonum word carries a float whose bits survive the runtime's
//! two-bit tag rotation exactly; floats outside that subset live in heap
//! float objects instead. The host float payload itself is out of this
//! crate's reach, so the wrapper offers the tag-level narrowing and
//! widening only.

use vstd::prelude::*;

use crate::value::{NonZeroValue, Value};
use crate::word::is_flonum_word;

verus! {

/// A handle known to be a flonum: the runtime's immediate encoding of
/// reduced-precision floats.
#[derive(Clone, Copy, PartialEq, Eq, Structural, Debug)]
pub struct Flonum(pub NonZeroValue);

impl Flonum {
    pub open spec fn wf(self) -> bool {
        is_flonum_word(self.0.word)
    }

    /// Narrowing: `Some` exactly when the word carries the flonum tag.
    pub fn from_value(val: Value) -> (r: Option<Self>)
        ensures
            is_flonum_word(val.word) ==> (r matches Some(f) && f.0.word == val.word && f.wf()),
            !is_flonum_word(val.word) ==> r is None,
    {
        if val.is_flonum() {
            proof {
                crate::word::lemma_nonzero_but_false(val.word);
            }
            Some(Flonum(NonZeroValue::new(val)))
        } else {
            None
        }
    }

    /// Widening back to a generic handle; infallible.
    pub fn as_value(self) -> (r: Value)
        ensures
            r.word == self.0.word,
    {
        self.0.get()
    }
}

} // verus!
