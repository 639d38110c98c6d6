//! Structured failure values, and the boundary-crossing primitive that
//! turns a foreign call's possible non-local exit into an ordinary result.
//!
//! Every recoverable failure of this crate is one value of [`Error`]:
//! a narrowing that did not match ([`Error::TypeMismatch`]), a number that
//! does not fit the requested width ([`Error::Range`]), a mutation of a
//! frozen object ([`Error::Frozen`]), or an exception the foreign runtime
//! raised during a wrapped call ([`Error::Exception`]). The one fatal,
//! non-recoverable condition — a word that decodes to no kind — never
//! becomes an `Error`; it is excluded by precondition instead.

use vstd::prelude::*;
use vstd::string::StringExecFns;

use crate::value::Value;

verus! {

/// The host-side type a conversion was aiming at (or the runtime class a
/// narrowing expected), recorded so an error message can name it.
#[derive(Clone, Copy, PartialEq, Eq, Structural, Debug)]
pub enum TypeName {
    I8,
    I16,
    I32,
    I64,
    Isize,
    U8,
    U16,
    U32,
    U64,
    Usize,
    Integer,
    Fixnum,
    FalseClass,
    NilClass,
    TrueClass,
}

impl TypeName {
    /// The name as it appears in messages.
    pub open spec fn spec_str(self) -> Seq<char> {
        match self {
            TypeName::I8 => "i8"@,
            TypeName::I16 => "i16"@,
            TypeName::I32 => "i32"@,
            TypeName::I64 => "i64"@,
            TypeName::Isize => "isize"@,
            TypeName::U8 => "u8"@,
            TypeName::U16 => "u16"@,
            TypeName::U32 => "u32"@,
            TypeName::U64 => "u64"@,
            TypeName::Usize => "usize"@,
            TypeName::Integer => "Integer"@,
            TypeName::Fixnum => "Fixnum"@,
            TypeName::FalseClass => "FalseClass"@,
            TypeName::NilClass => "NilClass"@,
            TypeName::TrueClass => "TrueClass"@,
        }
    }

    pub fn as_str(self) -> (r: &'static str)
        ensures
            r@ == self.spec_str(),
    {
        match self {
            TypeName::I8 => "i8",
            TypeName::I16 => "i16",
            TypeName::I32 => "i32",
            TypeName::I64 => "i64",
            TypeName::Isize => "isize",
            TypeName::U8 => "u8",
            TypeName::U16 => "u16",
            TypeName::U32 => "u32",
            TypeName::U64 => "u64",
            TypeName::Usize => "usize",
            TypeName::Integer => "Integer",
            TypeName::Fixnum => "Fixnum",
            TypeName::FalseClass => "FalseClass",
            TypeName::NilClass => "NilClass",
            TypeName::TrueClass => "TrueClass",
        }
    }
}

/// An exception of the foreign runtime as the host sees it once captured:
/// the exception's class name paired with its message.
#[derive(Debug)]
pub struct Exception {
    pub class_name: String,
    pub message: String,
}

impl Exception {
    pub fn new(class_name: String, message: String) -> (r: Self)
        ensures
            r.class_name == class_name,
            r.message == message,
    {
        Exception { class_name, message }
    }
}

impl Clone for Exception {
    fn clone(&self) -> (r: Self)
        ensures
            r == *self,
    {
        Exception { class_name: self.class_name.clone(), message: self.message.clone() }
    }
}

/// A recoverable failure. Each variant corresponds to one failure kind:
/// narrowing mismatch, numeric range overflow, frozen-object mutation, or
/// a captured foreign exception.
#[derive(Debug)]
pub enum Error {
    /// The value's kind does not match what the conversion expected;
    /// carries the value's actual runtime class name.
    TypeMismatch { expected: TypeName, actual_class: String },
    /// An integer decoded but does not fit the requested target width;
    /// `negative` marks the rejection of a negative value for an unsigned
    /// target, which happens before any unsigned coercion is attempted.
    Range { target: TypeName, negative: bool },
    /// A mutation was attempted on a frozen object of the named class.
    Frozen { class_name: String },
    /// The foreign runtime raised during a boundary-crossing call.
    Exception(Exception),
}

impl Error {
    pub open spec fn is_type_mismatch(self) -> bool {
        self is TypeMismatch
    }

    pub open spec fn is_range(self) -> bool {
        self is Range
    }

    pub open spec fn is_frozen_violation(self) -> bool {
        self is Frozen
    }

    pub open spec fn is_exception(self) -> bool {
        self is Exception
    }

    /// The message text of this error, mirroring the foreign runtime's
    /// phrasing.
    pub open spec fn spec_message(self) -> Seq<char> {
        match self {
            Error::TypeMismatch { expected, actual_class } => "no implicit conversion of "@
                + actual_class@ + " into "@ + expected.spec_str(),
            Error::Range { target, negative } => if negative {
                "can't convert negative integer to unsigned"@
            } else if target is Fixnum {
                "integer too big for fixnum"@
            } else {
                "integer too big to convert into `"@ + target.spec_str() + "`"@
            },
            Error::Frozen { class_name } => "can't modify frozen "@ + class_name@,
            Error::Exception(e) => e.message@,
        }
    }

    /// Renders the message. Rendering never fails: every variant carries
    /// everything its text needs.
    pub fn message(&self) -> (r: String)
        ensures
            r@ == self.spec_message(),
    {
        match self {
            Error::TypeMismatch { expected, actual_class } => {
                let r = String::from_str("no implicit conversion of ").concat(
                    actual_class.as_str(),
                ).concat(" into ").concat(expected.as_str());
                proof {
                    assert(r@ =~= self.spec_message());
                }
                r
            },
            Error::Range { target, negative } => {
                if *negative {
                    String::from_str("can't convert negative integer to unsigned")
                } else if matches!(*target, TypeName::Fixnum) {
                    String::from_str("integer too big for fixnum")
                } else {
                    let r = String::from_str("integer too big to convert into `").concat(
                        target.as_str(),
                    ).concat("`");
                    proof {
                        assert(r@ =~= self.spec_message());
                    }
                    r
                }
            },
            Error::Frozen { class_name } => {
                let r = String::from_str("can't modify frozen ").concat(class_name.as_str());
                proof {
                    assert(r@ =~= self.spec_message());
                }
                r
            },
            Error::Exception(e) => e.message.clone(),
        }
    }
}

/// The runtime exception class an error raises under when it crosses
/// back into the foreign runtime.
pub open spec fn exception_class_of(e: Error) -> Seq<char> {
    match e {
        Error::TypeMismatch { .. } => "TypeError"@,
        Error::Range { .. } => "RangeError"@,
        Error::Frozen { .. } => "FrozenError"@,
        Error::Exception(exc) => exc.class_name@,
    }
}

impl Error {
    /// The exception this error becomes when handed back to the foreign
    /// runtime: a captured exception re-raises verbatim; each host-side
    /// failure raises under the runtime's corresponding exception class
    /// with the error's own message.
    pub fn into_exception(self) -> (r: Exception)
        ensures
            r.class_name@ == exception_class_of(self),
            r.message@ == self.spec_message(),
            self matches Error::Exception(e) ==> r == e,
    {
        match self {
            Error::Exception(e) => e,
            other => {
                let message = other.message();
                let class_name = match &other {
                    Error::TypeMismatch { .. } => "TypeError",
                    Error::Range { .. } => "RangeError",
                    Error::Frozen { .. } => "FrozenError",
                    Error::Exception(_) => vstd::pervasive::unreached(),
                };
                Exception { class_name: String::from_str(class_name), message }
            },
        }
    }
}

/// What a call into the foreign runtime did: returned a value normally, or
/// left by a non-local exit carrying an exception.
#[derive(Debug)]
pub enum CallOutcome {
    Return(Value),
    Raise(Exception),
}

/// The boundary-crossing primitive: observes the outcome of a call into
/// the foreign runtime and yields a structured result in its place. A
/// normal return becomes `Ok`; a non-local exit is caught exactly here,
/// exactly once, and becomes `Err` carrying the raised exception. The
/// foreign control-transfer mechanism never propagates past this point.
pub fn protect(outcome: CallOutcome) -> (r: Result<Value, Error>)
    ensures
        r == protect_spec(outcome),
        outcome is Return ==> r is Ok,
        outcome is Raise ==> r is Err,
{
    match outcome {
        CallOutcome::Return(v) => Ok(v),
        CallOutcome::Raise(e) => Err(Error::Exception(e)),
    }
}

/// What [`protect`] yields for each outcome.
pub open spec fn protect_spec(outcome: CallOutcome) -> Result<Value, Error> {
    match outcome {
        CallOutcome::Return(v) => Ok(v),
        CallOutcome::Raise(e) => Err(Error::Exception(e)),
    }
}

/// Re-raising: deliberately re-entering the foreign non-local exit with a
/// previously captured exception, used when an error must propagate back
/// out to the foreign runtime's own caller. The deliberate inverse of
/// [`protect`], and a distinct operation from it.
pub fn reraise(e: Exception) -> (r: CallOutcome)
    ensures
        r == CallOutcome::Raise(e),
        protect_spec(r) == Result::<Value, Error>::Err(Error::Exception(e)),
{
    CallOutcome::Raise(e)
}

/// Translates a host callback's result into what crosses back into the
/// foreign runtime at the callback boundary: a success returns its
/// value; an error re-enters the runtime's non-local exit as a raise,
/// so a host-side failure can never silently vanish across the
/// boundary.
pub fn callback_outcome(r: Result<Value, Error>) -> (o: CallOutcome)
    ensures
        r matches Ok(v) ==> o == CallOutcome::Return(v),
        r matches Err(e) ==> (o matches CallOutcome::Raise(exc) && exc.class_name@
            == exception_class_of(e) && exc.message@ == e.spec_message()),
{
    match r {
        Ok(v) => CallOutcome::Return(v),
        Err(e) => CallOutcome::Raise(e.into_exception()),
    }
}

} // verus!
