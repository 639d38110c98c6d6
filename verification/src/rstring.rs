//! A handle known to be a heap string object.
//!
//! Only what the core itself needs of strings lives here: narrowing a
//! generic handle to a string handle, and detaching the text as a host
//! string. Everything else about the runtime's strings belongs to the
//! composite-object layer above this core.

use vstd::prelude::*;

use crate::error::Error;
use crate::runtime::{HeapData, Runtime};
use crate::value::{NonZeroValue, Value};
use crate::word::is_heap_word;

verus! {

/// A handle known to name a live heap string object.
#[derive(Clone, Copy, PartialEq, Eq, Structural, Debug)]
pub struct RString(pub NonZeroValue);

impl RString {
    /// The handle names a live string object of `rt`.
    pub open spec fn wf_in(self, rt: Runtime) -> bool {
        &&& is_heap_word(self.0.word)
        &&& rt.has_object(self.0.word)
        &&& rt.object_at(self.0.word).data is Str
    }

    /// The text the object holds.
    pub open spec fn spec_contents(self, rt: Runtime) -> Seq<char> {
        match rt.object_at(self.0.word).data {
            HeapData::Str { contents } => contents@,
            _ => Seq::empty(),
        }
    }

    /// Narrowing: `Some` exactly when the handle names a live string
    /// object.
    pub fn from_value(rt: &Runtime, val: Value) -> (r: Option<Self>)
        requires
            rt.wf(),
            rt.valid_value(val),
        ensures
            is_heap_word(val.word) && rt.object_at(val.word).data is Str ==> (r matches Some(s)
                && s.0.word == val.word && s.wf_in(*rt)),
            !(is_heap_word(val.word) && rt.object_at(val.word).data is Str) ==> r is None,
    {
        if !val.is_immediate() {
            match &rt.object(val).data {
                HeapData::Str { .. } => {
                    proof {
                        crate::word::lemma_nonzero_but_false(val.word);
                    }
                    Some(RString(NonZeroValue::new(val)))
                },
                _ => None,
            }
        } else {
            None
        }
    }

    /// Widening back to a generic handle; infallible.
    pub fn as_value(self) -> (r: Value)
        ensures
            r.word == self.0.word,
    {
        self.0.get()
    }

    /// Detaches the text as an owned host string. In the foreign runtime
    /// this can fail on text that is not valid in the host's encoding;
    /// the modelled contents are host strings, so here it always
    /// succeeds, keeping the fallible shape.
    pub fn to_string(self, rt: &Runtime) -> (r: Result<String, Error>)
        requires
            rt.wf(),
            self.wf_in(*rt),
        ensures
            r matches Ok(s) && s@ == self.spec_contents(*rt),
    {
        match &rt.object(self.0.get()).data {
            HeapData::Str { contents } => Ok(contents.clone()),
            _ => vstd::pervasive::unreached(),
        }
    }
}

} // verus!
