//! The conversion trait network: from a generic handle to host-native
//! values.
//!
//! [`TryConvert`] is the borrowing capability: produce `Self` from a
//! handle that is valid right now, with no promise past the call.
//! [`TryConvertToRust`] is its refinement for plain host data that is
//! safe to detach entirely from the runtime — no embedded heap handles.
//!
//! Every numeric conversion goes through one data-driven narrowing
//! routine, [`integer_narrow`]: read the integer (immediate fixnum or
//! heap big-integer), reject a negative value when the target is
//! unsigned before any unsigned reading, then range-check against the
//! target width. A failed kind match reports the handle's actual class
//! name.

use vstd::prelude::*;

use crate::error::{Error, TypeName};
use crate::fixnum::{Fixnum, fixnum_value_of};
use crate::runtime::{HeapData, Runtime};
use crate::special::{Qfalse, Qnil, Qtrue};
use crate::value::{NonZeroValue, Value};
use crate::word::{
    FALSE_WORD, NIL_WORD, TRUE_WORD, is_false_word, is_fixnum_word, is_heap_word, is_nil_word,
    is_true_word, is_undef_word,
};

verus! {

/// The integer a handle holds, if it holds one: an immediate fixnum or a
/// heap big-integer object.
pub open spec fn int_of(rt: Runtime, v: Value) -> Option<int> {
    if is_fixnum_word(v.word) {
        Some(fixnum_value_of(v.word))
    } else if is_heap_word(v.word) && rt.object_at(v.word).data is Bignum {
        match rt.object_at(v.word).data {
            HeapData::Bignum { value } => Some(value as int),
            _ => None,
        }
    } else {
        None
    }
}

/// The kind-mismatch error a failed integer conversion reports: the
/// handle's actual class, and `Integer` as what was expected.
pub open spec fn integer_mismatch_of(rt: Runtime, v: Value) -> Error {
    Error::TypeMismatch { expected: TypeName::Integer, actual_class: rt.classes[v.class_of(rt)].name }
}

/// What narrowing a held integer to the range `[lo, hi]` yields:
/// the integer when it fits; the pre-emptive negative rejection when the
/// target is unsigned; a range failure naming the target otherwise.
pub open spec fn integer_narrow_spec(rt: Runtime, v: Value, lo: int, hi: int, target: TypeName,
    unsigned: bool) -> Result<int, Error> {
    match int_of(rt, v) {
        None => Err(integer_mismatch_of(rt, v)),
        Some(n) => if unsigned && n < 0 {
            Err(Error::Range { target, negative: true })
        } else if lo <= n <= hi {
            Ok(n)
        } else {
            Err(Error::Range { target, negative: false })
        },
    }
}

/// Reads the integer a handle holds, or reports the kind mismatch.
fn read_integer(rt: &Runtime, val: Value) -> (r: Result<i128, Error>)
    requires
        rt.wf(),
        rt.valid_value(val),
        !is_undef_word(val.word),
    ensures
        match int_of(*rt, val) {
            Some(n) => r matches Ok(k) && k as int == n,
            None => r == Err::<i128, Error>(integer_mismatch_of(*rt, val)),
        },
{
    if val.is_fixnum() {
        let f = Fixnum(NonZeroValue { word: val.word });
        proof {
            crate::word::lemma_nonzero_but_false(val.word);
        }
        Ok(f.to_i64() as i128)
    } else if !val.is_immediate() {
        match &rt.object(val).data {
            HeapData::Bignum { value } => Ok(*value),
            _ => Err(Error::TypeMismatch {
                expected: TypeName::Integer,
                actual_class: val.classname(rt),
            }),
        }
    } else {
        Err(Error::TypeMismatch { expected: TypeName::Integer, actual_class: val.classname(rt) })
    }
}

/// The one narrowing routine behind every numeric conversion. Order
/// matters and is part of the contract: kind first, then the sign of the
/// value when the target is unsigned, then the width.
fn integer_narrow(rt: &Runtime, val: Value, lo: i128, hi: i128, target: TypeName,
    unsigned: bool) -> (r: Result<i128, Error>)
    requires
        rt.wf(),
        rt.valid_value(val),
        !is_undef_word(val.word),
        !unsigned || lo == 0,
    ensures
        match integer_narrow_spec(*rt, val, lo as int, hi as int, target, unsigned) {
            Ok(n) => r matches Ok(k) && k as int == n,
            Err(e) => r == Err::<i128, Error>(e),
        },
{
    match read_integer(rt, val) {
        Err(e) => Err(e),
        Ok(n) => {
            if unsigned && n < 0 {
                Err(Error::Range { target, negative: true })
            } else if lo <= n && n <= hi {
                Ok(n)
            } else {
                Err(Error::Range { target, negative: false })
            }
        },
    }
}

/// Borrowing conversion: produce `Self` from a handle that is valid at
/// the moment of the call. Each implementation fixes its meaning with
/// `convert_spec`, and the runtime is untouched: conversions observe.
pub trait TryConvert: Sized {
    /// What the conversion yields on each handle.
    spec fn convert_spec(rt: Runtime, v: Value) -> Result<Self, Error>;

    /// The conversion itself.
    fn try_convert(rt: &Runtime, val: Value) -> (r: Result<Self, Error>)
        requires
            rt.wf(),
            rt.valid_value(val),
            !is_undef_word(val.word),
        ensures
            r == Self::convert_spec(*rt, val),
    ;
}

/// Owning conversion: the restriction of [`TryConvert`] to plain host
/// data with no embedded handles, safe to keep past the handle's
/// validity window and in storage the collector never scans. The
/// conversion itself is the same; the trait marks which results are safe
/// to detach.
pub trait TryConvertToRust: TryConvert {
    fn try_convert_to_rust(rt: &Runtime, val: Value) -> (r: Result<Self, Error>)
        requires
            rt.wf(),
            rt.valid_value(val),
            !is_undef_word(val.word),
        ensures
            r == Self::convert_spec(*rt, val),
    ;
}

impl Value {
    /// Converts `self` to the host type `T`; see the implementations of
    /// [`TryConvert`] for what can be asked for.
    pub fn try_convert<T: TryConvert>(self, rt: &Runtime) -> (r: Result<T, Error>)
        requires
            rt.wf(),
            rt.valid_value(self),
            !is_undef_word(self.word),
        ensures
            r == T::convert_spec(*rt, self),
    {
        T::try_convert(rt, self)
    }
}

impl TryConvert for Value {
    /// The identity conversion: any handle is already a `Value`.
    open spec fn convert_spec(rt: Runtime, v: Value) -> Result<Value, Error> {
        Ok(v)
    }

    fn try_convert(rt: &Runtime, val: Value) -> (r: Result<Self, Error>) {
        Ok(val)
    }
}

impl TryConvert for bool {
    /// Infallible, by the runtime's conditional rule: `false` exactly
    /// for the `nil` and `false` words.
    open spec fn convert_spec(rt: Runtime, v: Value) -> Result<bool, Error> {
        Ok(!(is_nil_word(v.word) || is_false_word(v.word)))
    }

    fn try_convert(rt: &Runtime, val: Value) -> (r: Result<Self, Error>) {
        Ok(val.to_bool())
    }
}

impl TryConvertToRust for bool {
    fn try_convert_to_rust(rt: &Runtime, val: Value) -> (r: Result<Self, Error>) {
        Self::try_convert(rt, val)
    }
}

impl<T: TryConvert> TryConvert for Option<T> {
    /// The option-lifted conversion: `nil` becomes `None`; any other
    /// handle goes through the inner conversion, whose success or
    /// failure propagates.
    open spec fn convert_spec(rt: Runtime, v: Value) -> Result<Option<T>, Error> {
        if is_nil_word(v.word) {
            Ok(None)
        } else {
            match T::convert_spec(rt, v) {
                Ok(t) => Ok(Some(t)),
                Err(e) => Err(e),
            }
        }
    }

    fn try_convert(rt: &Runtime, val: Value) -> (r: Result<Self, Error>) {
        if val.is_nil() {
            Ok(None)
        } else {
            match T::try_convert(rt, val) {
                Ok(t) => Ok(Some(t)),
                Err(e) => Err(e),
            }
        }
    }
}

impl<T: TryConvertToRust> TryConvertToRust for Option<T> {
    fn try_convert_to_rust(rt: &Runtime, val: Value) -> (r: Result<Self, Error>) {
        Self::try_convert(rt, val)
    }
}

impl TryConvert for i8 {
    open spec fn convert_spec(rt: Runtime, v: Value) -> Result<i8, Error> {
        match integer_narrow_spec(rt, v, i8::MIN as int, i8::MAX as int, TypeName::I8, false) {
            Ok(n) => Ok(n as i8),
            Err(e) => Err(e),
        }
    }

    fn try_convert(rt: &Runtime, val: Value) -> (r: Result<Self, Error>) {
        match integer_narrow(rt, val, i8::MIN as i128, i8::MAX as i128, TypeName::I8, false) {
            Ok(n) => Ok(n as i8),
            Err(e) => Err(e),
        }
    }
}

impl TryConvertToRust for i8 {
    fn try_convert_to_rust(rt: &Runtime, val: Value) -> (r: Result<Self, Error>) {
        Self::try_convert(rt, val)
    }
}

impl TryConvert for i16 {
    open spec fn convert_spec(rt: Runtime, v: Value) -> Result<i16, Error> {
        match integer_narrow_spec(rt, v, i16::MIN as int, i16::MAX as int, TypeName::I16, false) {
            Ok(n) => Ok(n as i16),
            Err(e) => Err(e),
        }
    }

    fn try_convert(rt: &Runtime, val: Value) -> (r: Result<Self, Error>) {
        match integer_narrow(rt, val, i16::MIN as i128, i16::MAX as i128, TypeName::I16, false) {
            Ok(n) => Ok(n as i16),
            Err(e) => Err(e),
        }
    }
}

impl TryConvertToRust for i16 {
    fn try_convert_to_rust(rt: &Runtime, val: Value) -> (r: Result<Self, Error>) {
        Self::try_convert(rt, val)
    }
}

impl TryConvert for i32 {
    open spec fn convert_spec(rt: Runtime, v: Value) -> Result<i32, Error> {
        match integer_narrow_spec(rt, v, i32::MIN as int, i32::MAX as int, TypeName::I32, false) {
            Ok(n) => Ok(n as i32),
            Err(e) => Err(e),
        }
    }

    fn try_convert(rt: &Runtime, val: Value) -> (r: Result<Self, Error>) {
        match integer_narrow(rt, val, i32::MIN as i128, i32::MAX as i128, TypeName::I32, false) {
            Ok(n) => Ok(n as i32),
            Err(e) => Err(e),
        }
    }
}

impl TryConvertToRust for i32 {
    fn try_convert_to_rust(rt: &Runtime, val: Value) -> (r: Result<Self, Error>) {
        Self::try_convert(rt, val)
    }
}

impl TryConvert for i64 {
    open spec fn convert_spec(rt: Runtime, v: Value) -> Result<i64, Error> {
        match integer_narrow_spec(rt, v, i64::MIN as int, i64::MAX as int, TypeName::I64, false) {
            Ok(n) => Ok(n as i64),
            Err(e) => Err(e),
        }
    }

    fn try_convert(rt: &Runtime, val: Value) -> (r: Result<Self, Error>) {
        match integer_narrow(rt, val, i64::MIN as i128, i64::MAX as i128, TypeName::I64, false) {
            Ok(n) => Ok(n as i64),
            Err(e) => Err(e),
        }
    }
}

impl TryConvertToRust for i64 {
    fn try_convert_to_rust(rt: &Runtime, val: Value) -> (r: Result<Self, Error>) {
        Self::try_convert(rt, val)
    }
}

impl TryConvert for isize {
    open spec fn convert_spec(rt: Runtime, v: Value) -> Result<isize, Error> {
        match integer_narrow_spec(rt, v, isize::MIN as int, isize::MAX as int, TypeName::Isize,
            false) {
            Ok(n) => Ok(n as isize),
            Err(e) => Err(e),
        }
    }

    fn try_convert(rt: &Runtime, val: Value) -> (r: Result<Self, Error>) {
        match integer_narrow(rt, val, isize::MIN as i128, isize::MAX as i128, TypeName::Isize,
            false) {
            Ok(n) => Ok(n as isize),
            Err(e) => Err(e),
        }
    }
}

impl TryConvertToRust for isize {
    fn try_convert_to_rust(rt: &Runtime, val: Value) -> (r: Result<Self, Error>) {
        Self::try_convert(rt, val)
    }
}

impl TryConvert for u8 {
    open spec fn convert_spec(rt: Runtime, v: Value) -> Result<u8, Error> {
        match integer_narrow_spec(rt, v, 0, u8::MAX as int, TypeName::U8, true) {
            Ok(n) => Ok(n as u8),
            Err(e) => Err(e),
        }
    }

    fn try_convert(rt: &Runtime, val: Value) -> (r: Result<Self, Error>) {
        match integer_narrow(rt, val, 0, u8::MAX as i128, TypeName::U8, true) {
            Ok(n) => Ok(n as u8),
            Err(e) => Err(e),
        }
    }
}

impl TryConvertToRust for u8 {
    fn try_convert_to_rust(rt: &Runtime, val: Value) -> (r: Result<Self, Error>) {
        Self::try_convert(rt, val)
    }
}

impl TryConvert for u16 {
    open spec fn convert_spec(rt: Runtime, v: Value) -> Result<u16, Error> {
        match integer_narrow_spec(rt, v, 0, u16::MAX as int, TypeName::U16, true) {
            Ok(n) => Ok(n as u16),
            Err(e) => Err(e),
        }
    }

    fn try_convert(rt: &Runtime, val: Value) -> (r: Result<Self, Error>) {
        match integer_narrow(rt, val, 0, u16::MAX as i128, TypeName::U16, true) {
            Ok(n) => Ok(n as u16),
            Err(e) => Err(e),
        }
    }
}

impl TryConvertToRust for u16 {
    fn try_convert_to_rust(rt: &Runtime, val: Value) -> (r: Result<Self, Error>) {
        Self::try_convert(rt, val)
    }
}

impl TryConvert for u32 {
    open spec fn convert_spec(rt: Runtime, v: Value) -> Result<u32, Error> {
        match integer_narrow_spec(rt, v, 0, u32::MAX as int, TypeName::U32, true) {
            Ok(n) => Ok(n as u32),
            Err(e) => Err(e),
        }
    }

    fn try_convert(rt: &Runtime, val: Value) -> (r: Result<Self, Error>) {
        match integer_narrow(rt, val, 0, u32::MAX as i128, TypeName::U32, true) {
            Ok(n) => Ok(n as u32),
            Err(e) => Err(e),
        }
    }
}

impl TryConvertToRust for u32 {
    fn try_convert_to_rust(rt: &Runtime, val: Value) -> (r: Result<Self, Error>) {
        Self::try_convert(rt, val)
    }
}

impl TryConvert for u64 {
    open spec fn convert_spec(rt: Runtime, v: Value) -> Result<u64, Error> {
        match integer_narrow_spec(rt, v, 0, u64::MAX as int, TypeName::U64, true) {
            Ok(n) => Ok(n as u64),
            Err(e) => Err(e),
        }
    }

    fn try_convert(rt: &Runtime, val: Value) -> (r: Result<Self, Error>) {
        match integer_narrow(rt, val, 0, u64::MAX as i128, TypeName::U64, true) {
            Ok(n) => Ok(n as u64),
            Err(e) => Err(e),
        }
    }
}

impl TryConvertToRust for u64 {
    fn try_convert_to_rust(rt: &Runtime, val: Value) -> (r: Result<Self, Error>) {
        Self::try_convert(rt, val)
    }
}

impl TryConvert for usize {
    open spec fn convert_spec(rt: Runtime, v: Value) -> Result<usize, Error> {
        match integer_narrow_spec(rt, v, 0, usize::MAX as int, TypeName::Usize, true) {
            Ok(n) => Ok(n as usize),
            Err(e) => Err(e),
        }
    }

    fn try_convert(rt: &Runtime, val: Value) -> (r: Result<Self, Error>) {
        match integer_narrow(rt, val, 0, usize::MAX as i128, TypeName::Usize, true) {
            Ok(n) => Ok(n as usize),
            Err(e) => Err(e),
        }
    }
}

impl TryConvertToRust for usize {
    fn try_convert_to_rust(rt: &Runtime, val: Value) -> (r: Result<Self, Error>) {
        Self::try_convert(rt, val)
    }
}

impl TryConvert for Qfalse {
    /// Narrowing as a conversion: the `false` word, or a kind mismatch
    /// naming the actual class.
    open spec fn convert_spec(rt: Runtime, v: Value) -> Result<Qfalse, Error> {
        if is_false_word(v.word) {
            Ok(Qfalse { word: FALSE_WORD })
        } else {
            Err(Error::TypeMismatch {
                expected: TypeName::FalseClass,
                actual_class: rt.classes[v.class_of(rt)].name,
            })
        }
    }

    fn try_convert(rt: &Runtime, val: Value) -> (r: Result<Self, Error>) {
        match Qfalse::from_value(val) {
            Some(q) => Ok(q),
            None => Err(Error::TypeMismatch {
                expected: TypeName::FalseClass,
                actual_class: val.classname(rt),
            }),
        }
    }
}

impl TryConvertToRust for Qfalse {
    fn try_convert_to_rust(rt: &Runtime, val: Value) -> (r: Result<Self, Error>) {
        Self::try_convert(rt, val)
    }
}

impl TryConvert for Qnil {
    open spec fn convert_spec(rt: Runtime, v: Value) -> Result<Qnil, Error> {
        if is_nil_word(v.word) {
            Ok(Qnil(NonZeroValue { word: NIL_WORD }))
        } else {
            Err(Error::TypeMismatch {
                expected: TypeName::NilClass,
                actual_class: rt.classes[v.class_of(rt)].name,
            })
        }
    }

    fn try_convert(rt: &Runtime, val: Value) -> (r: Result<Self, Error>) {
        match Qnil::from_value(val) {
            Some(q) => Ok(q),
            None => Err(Error::TypeMismatch {
                expected: TypeName::NilClass,
                actual_class: val.classname(rt),
            }),
        }
    }
}

impl TryConvertToRust for Qnil {
    fn try_convert_to_rust(rt: &Runtime, val: Value) -> (r: Result<Self, Error>) {
        Self::try_convert(rt, val)
    }
}

impl TryConvert for Qtrue {
    open spec fn convert_spec(rt: Runtime, v: Value) -> Result<Qtrue, Error> {
        if is_true_word(v.word) {
            Ok(Qtrue(NonZeroValue { word: TRUE_WORD }))
        } else {
            Err(Error::TypeMismatch {
                expected: TypeName::TrueClass,
                actual_class: rt.classes[v.class_of(rt)].name,
            })
        }
    }

    fn try_convert(rt: &Runtime, val: Value) -> (r: Result<Self, Error>) {
        match Qtrue::from_value(val) {
            Some(q) => Ok(q),
            None => Err(Error::TypeMismatch {
                expected: TypeName::TrueClass,
                actual_class: val.classname(rt),
            }),
        }
    }
}

impl TryConvertToRust for Qtrue {
    fn try_convert_to_rust(rt: &Runtime, val: Value) -> (r: Result<Self, Error>) {
        Self::try_convert(rt, val)
    }
}

impl TryConvert for Fixnum {
    /// The fixnum view of a held integer: an immediate integer narrows;
    /// a big-integer object is an integer but out of fixnum range; any
    /// other kind is a mismatch.
    open spec fn convert_spec(rt: Runtime, v: Value) -> Result<Fixnum, Error> {
        if is_fixnum_word(v.word) {
            Ok(Fixnum(NonZeroValue { word: v.word }))
        } else if is_heap_word(v.word) && rt.object_at(v.word).data is Bignum {
            Err(Error::Range { target: TypeName::Fixnum, negative: false })
        } else {
            Err(integer_mismatch_of(rt, v))
        }
    }

    fn try_convert(rt: &Runtime, val: Value) -> (r: Result<Self, Error>) {
        if val.is_fixnum() {
            proof {
                crate::word::lemma_nonzero_but_false(val.word);
            }
            Ok(Fixnum(NonZeroValue::new(val)))
        } else if !val.is_immediate() {
            match &rt.object(val).data {
                HeapData::Bignum { .. } => Err(Error::Range {
                    target: TypeName::Fixnum,
                    negative: false,
                }),
                _ => Err(Error::TypeMismatch {
                    expected: TypeName::Integer,
                    actual_class: val.classname(rt),
                }),
            }
        } else {
            Err(Error::TypeMismatch {
                expected: TypeName::Integer,
                actual_class: val.classname(rt),
            })
        }
    }
}

impl TryConvertToRust for Fixnum {
    fn try_convert_to_rust(rt: &Runtime, val: Value) -> (r: Result<Self, Error>) {
        Self::try_convert(rt, val)
    }
}

/// The option-lifted conversion in one statement: a nil handle becomes
/// `None`; a non-nil handle goes through the inner conversion and its
/// own success or failure propagates unchanged.
pub proof fn lemma_option_lift<T: TryConvert>(rt: Runtime, v: Value)
    ensures
        is_nil_word(v.word) ==> <Option<T> as TryConvert>::convert_spec(rt, v) == Ok::<
            Option<T>,
            Error,
        >(None),
        !is_nil_word(v.word) ==> <Option<T> as TryConvert>::convert_spec(rt, v) == (match
            T::convert_spec(rt, v) {
            Ok(t) => Ok(Some(t)),
            Err(e) => Err::<Option<T>, Error>(e),
        }),
{
}

/// Signed narrowing round-trips exactly on the representable range: a
/// handle holding integer `n` converts to each signed width to exactly
/// `n` when `n` fits that width, and to a range failure naming the
/// width when it does not.
pub proof fn lemma_signed_narrowing_exact(rt: Runtime, v: Value, n: int)
    requires
        int_of(rt, v) == Some(n),
    ensures
        i8::MIN <= n <= i8::MAX ==> <i8 as TryConvert>::convert_spec(rt, v) == Ok::<i8, Error>(
            n as i8),
        !(i8::MIN <= n <= i8::MAX) ==> <i8 as TryConvert>::convert_spec(rt, v) == Err::<i8, Error>(
            (Error::Range { target: TypeName::I8, negative: false })),
        i16::MIN <= n <= i16::MAX ==> <i16 as TryConvert>::convert_spec(rt, v) == Ok::<i16, Error>(
            n as i16),
        !(i16::MIN <= n <= i16::MAX) ==> <i16 as TryConvert>::convert_spec(rt, v) == Err::<
            i16,
            Error,
        >((Error::Range { target: TypeName::I16, negative: false })),
        i32::MIN <= n <= i32::MAX ==> <i32 as TryConvert>::convert_spec(rt, v) == Ok::<i32, Error>(
            n as i32),
        !(i32::MIN <= n <= i32::MAX) ==> <i32 as TryConvert>::convert_spec(rt, v) == Err::<
            i32,
            Error,
        >((Error::Range { target: TypeName::I32, negative: false })),
        i64::MIN <= n <= i64::MAX ==> <i64 as TryConvert>::convert_spec(rt, v) == Ok::<i64, Error>(
            n as i64),
        !(i64::MIN <= n <= i64::MAX) ==> <i64 as TryConvert>::convert_spec(rt, v) == Err::<
            i64,
            Error,
        >((Error::Range { target: TypeName::I64, negative: false })),
        isize::MIN <= n <= isize::MAX ==> <isize as TryConvert>::convert_spec(rt, v) == Ok::<
            isize,
            Error,
        >(n as isize),
        !(isize::MIN <= n <= isize::MAX) ==> <isize as TryConvert>::convert_spec(rt, v) == Err::<
            isize,
            Error,
        >((Error::Range { target: TypeName::Isize, negative: false })),
{
}

/// Unsigned conversion rejects a negative held integer with the
/// negative-flavored range failure, for every unsigned width, before
/// any unsigned reading could wrap it to a large positive value.
pub proof fn lemma_unsigned_rejects_negative(rt: Runtime, v: Value, n: int)
    requires
        int_of(rt, v) == Some(n),
        n < 0,
    ensures
        <u8 as TryConvert>::convert_spec(rt, v) == Err::<u8, Error>(
            (Error::Range { target: TypeName::U8, negative: true })),
        <u16 as TryConvert>::convert_spec(rt, v) == Err::<u16, Error>(
            (Error::Range { target: TypeName::U16, negative: true })),
        <u32 as TryConvert>::convert_spec(rt, v) == Err::<u32, Error>(
            (Error::Range { target: TypeName::U32, negative: true })),
        <u64 as TryConvert>::convert_spec(rt, v) == Err::<u64, Error>(
            (Error::Range { target: TypeName::U64, negative: true })),
        <usize as TryConvert>::convert_spec(rt, v) == Err::<usize, Error>(
            (Error::Range { target: TypeName::Usize, negative: true })),
{
}

/// Unsigned narrowing is exact on the non-negative representable range.
pub proof fn lemma_unsigned_narrowing_exact(rt: Runtime, v: Value, n: int)
    requires
        int_of(rt, v) == Some(n),
        n >= 0,
    ensures
        n <= u8::MAX ==> <u8 as TryConvert>::convert_spec(rt, v) == Ok::<u8, Error>(n as u8),
        n > u8::MAX ==> <u8 as TryConvert>::convert_spec(rt, v) == Err::<u8, Error>(
            (Error::Range { target: TypeName::U8, negative: false })),
        n <= u16::MAX ==> <u16 as TryConvert>::convert_spec(rt, v) == Ok::<u16, Error>(n as u16),
        n > u16::MAX ==> <u16 as TryConvert>::convert_spec(rt, v) == Err::<u16, Error>(
            (Error::Range { target: TypeName::U16, negative: false })),
        n <= u32::MAX ==> <u32 as TryConvert>::convert_spec(rt, v) == Ok::<u32, Error>(n as u32),
        n > u32::MAX ==> <u32 as TryConvert>::convert_spec(rt, v) == Err::<u32, Error>(
            (Error::Range { target: TypeName::U32, negative: false })),
        n <= u64::MAX ==> <u64 as TryConvert>::convert_spec(rt, v) == Ok::<u64, Error>(n as u64),
        n > u64::MAX ==> <u64 as TryConvert>::convert_spec(rt, v) == Err::<u64, Error>(
            (Error::Range { target: TypeName::U64, negative: false })),
        n <= usize::MAX ==> <usize as TryConvert>::convert_spec(rt, v) == Ok::<usize, Error>(
            n as usize),
        n > usize::MAX ==> <usize as TryConvert>::convert_spec(rt, v) == Err::<usize, Error>(
            (Error::Range { target: TypeName::Usize, negative: false })),
{
}

} // verus!
