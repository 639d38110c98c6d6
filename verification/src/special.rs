//! Narrowed wrappers for the four special constants: `false`, `nil`,
//! `true` and the undefined sentinel.
//!
//! Each wrapper is a zero-overhead refinement of the generic handle: it
//! carries the same word and statically asserts which constant it is.
//! Narrowing from a generic handle is the fallible `from_value`; widening
//! back is infallible. All but `false` store their word in
//! [`NonZeroValue`], the shared non-zero-word representation.

use vstd::prelude::*;

use crate::value::{NonZeroValue, Value};
use crate::word::{
    FALSE_WORD, NIL_WORD, TRUE_WORD, UNDEF_WORD, is_false_word, is_nil_word, is_true_word,
    is_undef_word,
};

verus! {

/// The runtime's `false` value: the all-zero word, the one immediate
/// kind excluded from the non-zero-word representation.
#[derive(Clone, Copy, PartialEq, Eq, Structural, Debug)]
pub struct Qfalse {
    pub word: u64,
}

impl Qfalse {
    pub open spec fn wf(self) -> bool {
        self.word == FALSE_WORD
    }

    pub fn new() -> (r: Self)
        ensures
            r.wf(),
    {
        Qfalse { word: FALSE_WORD }
    }

    /// Narrowing: `Some` exactly for the `false` word.
    pub fn from_value(val: Value) -> (r: Option<Self>)
        ensures
            is_false_word(val.word) ==> (r matches Some(q) && q.wf()),
            !is_false_word(val.word) ==> r is None,
    {
        if val.is_false() {
            Some(Qfalse::new())
        } else {
            None
        }
    }

    /// Widening back to a generic handle; infallible.
    pub fn as_value(self) -> (r: Value)
        ensures
            r.word == self.word,
            self.wf() ==> is_false_word(r.word),
    {
        Value::new(self.word)
    }
}

impl From<Qfalse> for Value {
    fn from(val: Qfalse) -> (r: Value) {
        val.as_value()
    }
}

impl vstd::std_specs::convert::FromSpecImpl<Qfalse> for Value {
    open spec fn obeys_from_spec() -> bool {
        true
    }

    open spec fn from_spec(val: Qfalse) -> Value {
        Value { word: val.word }
    }
}

/// The runtime's `nil` value.
#[derive(Clone, Copy, PartialEq, Eq, Structural, Debug)]
pub struct Qnil(pub NonZeroValue);

impl Qnil {
    pub open spec fn wf(self) -> bool {
        self.0.word == NIL_WORD
    }

    pub fn new() -> (r: Self)
        ensures
            r.wf(),
    {
        Qnil(NonZeroValue::new(Value::new(NIL_WORD)))
    }

    /// Narrowing: `Some` exactly for the `nil` word. `nil` and `false`
    /// are distinct words; narrowing one never accepts the other.
    pub fn from_value(val: Value) -> (r: Option<Self>)
        ensures
            is_nil_word(val.word) ==> (r matches Some(q) && q.wf()),
            !is_nil_word(val.word) ==> r is None,
    {
        if val.is_nil() {
            Some(Qnil::new())
        } else {
            None
        }
    }

    /// Widening back to a generic handle; infallible.
    pub fn as_value(self) -> (r: Value)
        ensures
            r.word == self.0.word,
            self.wf() ==> is_nil_word(r.word),
    {
        self.0.get()
    }
}

impl From<Qnil> for Value {
    fn from(val: Qnil) -> (r: Value) {
        val.as_value()
    }
}

impl vstd::std_specs::convert::FromSpecImpl<Qnil> for Value {
    open spec fn obeys_from_spec() -> bool {
        true
    }

    open spec fn from_spec(val: Qnil) -> Value {
        Value { word: val.0.word }
    }
}

/// The runtime's `true` value.
#[derive(Clone, Copy, PartialEq, Eq, Structural, Debug)]
pub struct Qtrue(pub NonZeroValue);

impl Qtrue {
    pub open spec fn wf(self) -> bool {
        self.0.word == TRUE_WORD
    }

    pub fn new() -> (r: Self)
        ensures
            r.wf(),
    {
        Qtrue(NonZeroValue::new(Value::new(TRUE_WORD)))
    }

    /// Narrowing: `Some` exactly for the `true` word.
    pub fn from_value(val: Value) -> (r: Option<Self>)
        ensures
            is_true_word(val.word) ==> (r matches Some(q) && q.wf()),
            !is_true_word(val.word) ==> r is None,
    {
        if val.is_true() {
            Some(Qtrue::new())
        } else {
            None
        }
    }

    /// Widening back to a generic handle; infallible.
    pub fn as_value(self) -> (r: Value)
        ensures
            r.word == self.0.word,
            self.wf() ==> is_true_word(r.word),
    {
        self.0.get()
    }
}

impl From<Qtrue> for Value {
    fn from(val: Qtrue) -> (r: Value) {
        val.as_value()
    }
}

impl vstd::std_specs::convert::FromSpecImpl<Qtrue> for Value {
    open spec fn obeys_from_spec() -> bool {
        true
    }

    open spec fn from_spec(val: Qtrue) -> Value {
        Value { word: val.0.word }
    }
}

/// A host boolean as a runtime value: `true` or `false` word.
impl From<bool> for Value {
    fn from(val: bool) -> (r: Value) {
        if val {
            Qtrue::new().as_value()
        } else {
            Qfalse::new().as_value()
        }
    }
}

impl vstd::std_specs::convert::FromSpecImpl<bool> for Value {
    open spec fn obeys_from_spec() -> bool {
        true
    }

    open spec fn from_spec(val: bool) -> Value {
        if val {
            Value { word: TRUE_WORD }
        } else {
            Value { word: FALSE_WORD }
        }
    }
}

/// The runtime's undefined sentinel: a placeholder that marks "no value"
/// inside the runtime's own interfaces and is never exposed to
/// runtime-level code.
#[derive(Clone, Copy, PartialEq, Eq, Structural, Debug)]
pub struct Qundef(pub NonZeroValue);

impl Qundef {
    pub open spec fn wf(self) -> bool {
        self.0.word == UNDEF_WORD
    }

    pub fn new() -> (r: Self)
        ensures
            r.wf(),
    {
        Qundef(NonZeroValue::new(Value::new(UNDEF_WORD)))
    }

    /// Narrowing: `Some` exactly for the undefined sentinel; in
    /// particular, `nil` is not undefined.
    pub fn from_value(val: Value) -> (r: Option<Self>)
        ensures
            is_undef_word(val.word) ==> (r matches Some(q) && q.wf()),
            !is_undef_word(val.word) ==> r is None,
    {
        if val.is_undef() {
            Some(Qundef::new())
        } else {
            None
        }
    }

    /// The sentinel as a generic handle. Handing this to runtime-level
    /// code is a defect; it exists for the few interfaces that expect
    /// the sentinel, which is why this is a named method and not a
    /// general widening conversion.
    pub fn to_value(self) -> (r: Value)
        ensures
            r.word == self.0.word,
            self.wf() ==> is_undef_word(r.word),
    {
        self.0.get()
    }
}

} // verus!
