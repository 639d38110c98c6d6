//! Small integers encoded immediately in the word, and the heap
//! big-integer fallback.
//!
//! A fixnum word is the integer shifted left once with the low tag bit
//! set, two's complement in the 64-bit word, so the representable range
//! is one bit narrower than the host's 64-bit integers. Construction from
//! a host integer is total: a value in range becomes a fixnum, a value
//! out of range becomes a heap big-integer object — a discriminated
//! result, never a silent truncation.
//!
//! The narrowing accessors range-check against the target width, and for
//! unsigned targets reject a negative value before any unsigned reading
//! is attempted, so a negative fixnum can never wrap into a large
//! positive result.

use vstd::prelude::*;

use crate::error::{Error, TypeName};
use crate::runtime::{HeapData, HeapObject, INTEGER_CLASS, Runtime};
use crate::value::{NonZeroValue, Value};
use crate::word::{is_fixnum_word, is_heap_word};

verus! {

/// The largest and smallest integers the immediate encoding can hold.
pub const FIXNUM_MAX: i64 = 0x3FFF_FFFF_FFFF_FFFF;
pub const FIXNUM_MIN: i64 = -0x4000_0000_0000_0000;

/// The integer a fixnum word encodes: undo the tagged left shift,
/// reading the word as a two's complement 64-bit value.
pub open spec fn fixnum_value_of(w: u64) -> int {
    if w < 0x8000_0000_0000_0000 {
        (w / 2) as int
    } else {
        (w as int - 0x1_0000_0000_0000_0000 - 1) / 2
    }
}

/// The fixnum word for an in-range integer: the integer doubled, plus
/// the tag bit, two's complement in 64 bits.
pub open spec fn fixnum_word_of(n: int) -> u64
    recommends
        FIXNUM_MIN <= n <= FIXNUM_MAX,
{
    if n >= 0 {
        (2 * n + 1) as u64
    } else {
        (2 * n + 1 + 0x1_0000_0000_0000_0000) as u64
    }
}

/// Encoding an in-range integer yields a tagged, non-zero word that
/// decodes back to the same integer.
pub proof fn lemma_fixnum_round_trip(n: i64)
    requires
        FIXNUM_MIN <= n <= FIXNUM_MAX,
    ensures
        is_fixnum_word(fixnum_word_of(n as int)),
        fixnum_word_of(n as int) != 0,
        fixnum_value_of(fixnum_word_of(n as int)) == n,
        fixnum_word_of(n as int) == ((n as u64) << 1) | 1,
{
    assert((-0x4000_0000_0000_0000 <= n <= 0x3FFF_FFFF_FFFF_FFFF) ==> {
        let w = if n >= 0 {
            (2 * (n as int) + 1) as u64
        } else {
            (2 * (n as int) + 1 + 0x1_0000_0000_0000_0000) as u64
        };
        &&& w & 0x01 != 0
        &&& w != 0
        &&& w == ((n as u64) << 1) | 1
        &&& (if w < 0x8000_0000_0000_0000 {
            (w / 2) as int
        } else {
            (w as int - 0x1_0000_0000_0000_0000 - 1) / 2
        }) == n as int
    }) by (bit_vector);
}

/// Every fixnum word decodes to an in-range integer, recovered by an
/// arithmetic right shift of the word read as signed.
pub proof fn lemma_fixnum_decode(w: u64)
    requires
        is_fixnum_word(w),
    ensures
        FIXNUM_MIN <= fixnum_value_of(w) <= FIXNUM_MAX,
        fixnum_value_of(w) == ((w as i64) >> 1) as int,
        fixnum_value_of(w) < 0 <==> (w as i64) < 0,
        fixnum_word_of(fixnum_value_of(w)) == w,
{
    assert(w & 0x01 != 0 ==> {
        let v = if w < 0x8000_0000_0000_0000 {
            (w / 2) as int
        } else {
            (w as int - 0x1_0000_0000_0000_0000 - 1) / 2
        };
        &&& -0x4000_0000_0000_0000 <= v <= 0x3FFF_FFFF_FFFF_FFFF
        &&& v == ((w as i64) >> 1) as int
        &&& (v < 0 <==> (w as i64) < 0)
        &&& (if v >= 0 {
            (2 * v + 1) as u64
        } else {
            (2 * v + 1 + 0x1_0000_0000_0000_0000) as u64
        }) == w
    }) by (bit_vector);
}

/// The immediate encoding holds exactly the integers between
/// [`FIXNUM_MIN`] and [`FIXNUM_MAX`]: inside the range some fixnum word
/// carries the value, one unit beyond the boundary none does — which is
/// why construction falls back to the heap big integer there.
pub proof fn lemma_fixnum_representable(n: i64)
    ensures
        (exists|w: u64| is_fixnum_word(w) && fixnum_value_of(w) == n) <==> (FIXNUM_MIN <= n
            <= FIXNUM_MAX),
{
    if FIXNUM_MIN <= n <= FIXNUM_MAX {
        lemma_fixnum_round_trip(n);
        let w = fixnum_word_of(n as int);
        assert(is_fixnum_word(w) && fixnum_value_of(w) == n);
    }
    if exists|w: u64| is_fixnum_word(w) && fixnum_value_of(w) == n {
        let w = choose|w: u64| is_fixnum_word(w) && fixnum_value_of(w) == n;
        lemma_fixnum_decode(w);
    }
}

/// A handle known to be a fixnum: the runtime's immediate encoding of
/// small integers.
#[derive(Clone, Copy, PartialEq, Eq, Structural, Debug)]
pub struct Fixnum(pub NonZeroValue);

impl Fixnum {
    pub open spec fn wf(self) -> bool {
        is_fixnum_word(self.0.word)
    }

    /// The integer this fixnum encodes.
    pub open spec fn spec_value(self) -> int {
        fixnum_value_of(self.0.word)
    }

    /// Narrowing: `Some` exactly when the word carries the fixnum tag.
    pub fn from_value(val: Value) -> (r: Option<Self>)
        ensures
            is_fixnum_word(val.word) ==> (r matches Some(f) && f.0.word == val.word && f.wf()),
            !is_fixnum_word(val.word) ==> r is None,
    {
        if val.is_fixnum() {
            proof {
                crate::word::lemma_nonzero_but_false(val.word);
            }
            Some(Fixnum(NonZeroValue::new(val)))
        } else {
            None
        }
    }

    /// Widening back to a generic handle; infallible.
    pub fn as_value(self) -> (r: Value)
        ensures
            r.word == self.0.word,
    {
        self.0.get()
    }

    /// Builds the runtime integer for any host 64-bit signed value:
    /// an in-range value becomes a fixnum and the runtime is untouched;
    /// an out-of-range value allocates the big-integer fallback holding
    /// exactly the same value, never losing precision.
    pub fn from_i64(rt: &mut Runtime, n: i64) -> (r: Result<Self, RBignum>)
        requires
            old(rt).wf(),
            old(rt).heap.len() < crate::runtime::HEAP_CAPACITY,
        ensures
            final(rt).wf(),
            FIXNUM_MIN <= n <= FIXNUM_MAX ==> (r matches Ok(f) && f.wf() && f.spec_value()
                == n && f.0.word == fixnum_word_of(n as int) && *final(rt) == *old(rt)),
            !(FIXNUM_MIN <= n <= FIXNUM_MAX) ==> (r matches Err(b) && b.wf_in(*final(rt))
                && b.spec_value(*final(rt)) == n && final(rt).heap@ == old(rt).heap@.push(
                Some((HeapObject {
                    class: INTEGER_CLASS,
                    frozen: true,
                    data: HeapData::Bignum { value: n as i128 },
                })))),
            final(rt).classes == old(rt).classes,
            final(rt).symbols == old(rt).symbols,
            final(rt).permanent_roots == old(rt).permanent_roots,
            final(rt).boxed_roots == old(rt).boxed_roots,
            forall|v2: Value| old(rt).valid_value(v2) ==> final(rt).valid_value(v2),
    {
        if FIXNUM_MIN <= n && n <= FIXNUM_MAX {
            let w: u64 = ((n as u64) << 1) | 1;
            proof {
                lemma_fixnum_round_trip(n);
            }
            Ok(Fixnum(NonZeroValue::new(Value::new(w))))
        } else {
            let v = rt.alloc_bignum(n as i128);
            proof {
                crate::word::lemma_nonzero_but_false(v.word);
            }
            Err(RBignum(NonZeroValue::new(v)))
        }
    }

    /// As [`Fixnum::from_i64`], for unsigned host values.
    pub fn from_u64(rt: &mut Runtime, n: u64) -> (r: Result<Self, RBignum>)
        requires
            old(rt).wf(),
            old(rt).heap.len() < crate::runtime::HEAP_CAPACITY,
        ensures
            final(rt).wf(),
            n <= FIXNUM_MAX as u64 ==> (r matches Ok(f) && f.wf() && f.spec_value() == n
                && f.0.word == fixnum_word_of(n as int) && *final(rt) == *old(rt)),
            n > FIXNUM_MAX as u64 ==> (r matches Err(b) && b.wf_in(*final(rt))
                && b.spec_value(*final(rt)) == n && final(rt).heap@ == old(rt).heap@.push(
                Some((HeapObject {
                    class: INTEGER_CLASS,
                    frozen: true,
                    data: HeapData::Bignum { value: n as i128 },
                })))),
            final(rt).classes == old(rt).classes,
            final(rt).symbols == old(rt).symbols,
            final(rt).permanent_roots == old(rt).permanent_roots,
            final(rt).boxed_roots == old(rt).boxed_roots,
            forall|v2: Value| old(rt).valid_value(v2) ==> final(rt).valid_value(v2),
    {
        if n <= FIXNUM_MAX as u64 {
            let w: u64 = (n << 1) | 1;
            proof {
                lemma_fixnum_round_trip(n as i64);
                assert(n << 1 == ((n as i64) as u64) << 1) by (bit_vector)
                    requires
                        n <= 0x3FFF_FFFF_FFFF_FFFFu64,
                ;
            }
            Ok(Fixnum(NonZeroValue::new(Value::new(w))))
        } else {
            let v = rt.alloc_bignum(n as i128);
            proof {
                crate::word::lemma_nonzero_but_false(v.word);
            }
            Err(RBignum(NonZeroValue::new(v)))
        }
    }

    /// Whether the encoded integer is negative, read off the word's sign
    /// bit.
    fn is_negative(self) -> (r: bool)
        requires
            self.wf(),
        ensures
            r == (self.spec_value() < 0),
    {
        proof {
            lemma_fixnum_decode(self.0.word);
        }
        (self.0.word as i64) < 0
    }

    /// The encoded integer; infallible, since the host's 64-bit range
    /// covers every fixnum.
    pub fn to_i64(self) -> (r: i64)
        requires
            self.wf(),
        ensures
            r as int == self.spec_value(),
            FIXNUM_MIN <= r <= FIXNUM_MAX,
    {
        proof {
            lemma_fixnum_decode(self.0.word);
        }
        (self.0.word as i64) >> 1
    }

    /// The encoded integer if it fits `i8`, a range failure naming `i8`
    /// otherwise.
    pub fn to_i8(self) -> (r: Result<i8, Error>)
        requires
            self.wf(),
        ensures
            i8::MIN <= self.spec_value() <= i8::MAX ==> r == Ok::<i8, Error>(self.spec_value() as i8),
            !(i8::MIN <= self.spec_value() <= i8::MAX) ==> r == Result::<i8, Error>::Err(
                (Error::Range { target: TypeName::I8, negative: false }),
            ),
    {
        let v = self.to_i64();
        if v > i8::MAX as i64 || v < i8::MIN as i64 {
            Err(Error::Range { target: TypeName::I8, negative: false })
        } else {
            Ok(v as i8)
        }
    }

    /// The encoded integer if it fits `i16`.
    pub fn to_i16(self) -> (r: Result<i16, Error>)
        requires
            self.wf(),
        ensures
            i16::MIN <= self.spec_value() <= i16::MAX ==> r == Ok::<i16, Error>(self.spec_value() as i16),
            !(i16::MIN <= self.spec_value() <= i16::MAX) ==> r == Result::<i16, Error>::Err(
                (Error::Range { target: TypeName::I16, negative: false }),
            ),
    {
        let v = self.to_i64();
        if v > i16::MAX as i64 || v < i16::MIN as i64 {
            Err(Error::Range { target: TypeName::I16, negative: false })
        } else {
            Ok(v as i16)
        }
    }

    /// The encoded integer if it fits `i32`.
    pub fn to_i32(self) -> (r: Result<i32, Error>)
        requires
            self.wf(),
        ensures
            i32::MIN <= self.spec_value() <= i32::MAX ==> r == Ok::<i32, Error>(self.spec_value() as i32),
            !(i32::MIN <= self.spec_value() <= i32::MAX) ==> r == Result::<i32, Error>::Err(
                (Error::Range { target: TypeName::I32, negative: false }),
            ),
    {
        let v = self.to_i64();
        if v > i32::MAX as i64 || v < i32::MIN as i64 {
            Err(Error::Range { target: TypeName::I32, negative: false })
        } else {
            Ok(v as i32)
        }
    }

    /// The encoded integer if it fits the host's pointer-sized signed
    /// integer.
    pub fn to_isize(self) -> (r: Result<isize, Error>)
        requires
            self.wf(),
        ensures
            isize::MIN <= self.spec_value() <= isize::MAX ==> r == Ok::<isize, Error>(self.spec_value() as isize),
            !(isize::MIN <= self.spec_value() <= isize::MAX) ==> r == Result::<isize, Error>::Err(
                (Error::Range { target: TypeName::Isize, negative: false }),
            ),
    {
        let v = self.to_i64();
        if v > isize::MAX as i64 || v < isize::MIN as i64 {
            Err(Error::Range { target: TypeName::Isize, negative: false })
        } else {
            Ok(v as isize)
        }
    }

    /// The encoded integer if it is non-negative and fits `u8`. A
    /// negative value is rejected before any unsigned reading of the
    /// word, so it can never wrap to a large positive result.
    pub fn to_u8(self) -> (r: Result<u8, Error>)
        requires
            self.wf(),
        ensures
            self.spec_value() < 0 ==> r == Result::<u8, Error>::Err(
                (Error::Range { target: TypeName::U8, negative: true }),
            ),
            0 <= self.spec_value() <= u8::MAX ==> r == Ok::<u8, Error>(self.spec_value() as u8),
            self.spec_value() > u8::MAX ==> r == Result::<u8, Error>::Err(
                (Error::Range { target: TypeName::U8, negative: false }),
            ),
    {
        if self.is_negative() {
            return Err(Error::Range { target: TypeName::U8, negative: true });
        }
        let v = self.to_i64();
        if v > u8::MAX as i64 {
            Err(Error::Range { target: TypeName::U8, negative: false })
        } else {
            Ok(v as u8)
        }
    }

    /// The encoded integer if it is non-negative and fits `u16`.
    pub fn to_u16(self) -> (r: Result<u16, Error>)
        requires
            self.wf(),
        ensures
            self.spec_value() < 0 ==> r == Result::<u16, Error>::Err(
                (Error::Range { target: TypeName::U16, negative: true }),
            ),
            0 <= self.spec_value() <= u16::MAX ==> r == Ok::<u16, Error>(self.spec_value() as u16),
            self.spec_value() > u16::MAX ==> r == Result::<u16, Error>::Err(
                (Error::Range { target: TypeName::U16, negative: false }),
            ),
    {
        if self.is_negative() {
            return Err(Error::Range { target: TypeName::U16, negative: true });
        }
        let v = self.to_i64();
        if v > u16::MAX as i64 {
            Err(Error::Range { target: TypeName::U16, negative: false })
        } else {
            Ok(v as u16)
        }
    }

    /// The encoded integer if it is non-negative and fits `u32`.
    pub fn to_u32(self) -> (r: Result<u32, Error>)
        requires
            self.wf(),
        ensures
            self.spec_value() < 0 ==> r == Result::<u32, Error>::Err(
                (Error::Range { target: TypeName::U32, negative: true }),
            ),
            0 <= self.spec_value() <= u32::MAX ==> r == Ok::<u32, Error>(self.spec_value() as u32),
            self.spec_value() > u32::MAX ==> r == Result::<u32, Error>::Err(
                (Error::Range { target: TypeName::U32, negative: false }),
            ),
    {
        if self.is_negative() {
            return Err(Error::Range { target: TypeName::U32, negative: true });
        }
        let v = self.to_i64();
        if v > u32::MAX as i64 {
            Err(Error::Range { target: TypeName::U32, negative: false })
        } else {
            Ok(v as u32)
        }
    }

    /// The encoded integer if it is non-negative; every non-negative
    /// fixnum fits `u64`.
    pub fn to_u64(self) -> (r: Result<u64, Error>)
        requires
            self.wf(),
        ensures
            self.spec_value() < 0 ==> r == Result::<u64, Error>::Err(
                (Error::Range { target: TypeName::U64, negative: true }),
            ),
            self.spec_value() >= 0 ==> r == Ok::<u64, Error>(self.spec_value() as u64),
    {
        if self.is_negative() {
            return Err(Error::Range { target: TypeName::U64, negative: true });
        }
        let v = self.to_i64();
        Ok(v as u64)
    }

    /// The encoded integer if it is non-negative and fits the host's
    /// pointer-sized unsigned integer.
    pub fn to_usize(self) -> (r: Result<usize, Error>)
        requires
            self.wf(),
        ensures
            self.spec_value() < 0 ==> r == Result::<usize, Error>::Err(
                (Error::Range { target: TypeName::Usize, negative: true }),
            ),
            0 <= self.spec_value() <= usize::MAX ==> r == Ok::<usize, Error>(self.spec_value() as usize),
            self.spec_value() > usize::MAX ==> r == Result::<usize, Error>::Err(
                (Error::Range { target: TypeName::Usize, negative: false }),
            ),
    {
        if self.is_negative() {
            return Err(Error::Range { target: TypeName::Usize, negative: true });
        }
        let v = self.to_i64();
        if v as u64 > usize::MAX as u64 {
            Err(Error::Range { target: TypeName::Usize, negative: false })
        } else {
            Ok(v as usize)
        }
    }
}

/// A handle known to be a heap big-integer object: the fallback
/// representation for integers outside the fixnum range.
#[derive(Clone, Copy, PartialEq, Eq, Structural, Debug)]
pub struct RBignum(pub NonZeroValue);

impl RBignum {
    /// The handle names a live big-integer object of `rt`.
    pub open spec fn wf_in(self, rt: Runtime) -> bool {
        &&& is_heap_word(self.0.word)
        &&& rt.has_object(self.0.word)
        &&& rt.object_at(self.0.word).data is Bignum
    }

    /// The integer the object holds.
    pub open spec fn spec_value(self, rt: Runtime) -> int {
        match rt.object_at(self.0.word).data {
            HeapData::Bignum { value } => value as int,
            _ => 0,
        }
    }

    /// Widening back to a generic handle; infallible.
    pub fn as_value(self) -> (r: Value)
        ensures
            r.word == self.0.word,
    {
        self.0.get()
    }

    /// The held integer if it fits `i64`.
    pub fn to_i64(self, rt: &Runtime) -> (r: Result<i64, Error>)
        requires
            rt.wf(),
            self.wf_in(*rt),
        ensures
            i64::MIN <= self.spec_value(*rt) <= i64::MAX ==> r == Ok::<i64, Error>(self.spec_value(*rt) as i64),
            !(i64::MIN <= self.spec_value(*rt) <= i64::MAX) ==> r == Result::<i64, Error>::Err(
                (Error::Range { target: TypeName::I64, negative: false }),
            ),
    {
        let o = rt.object(self.0.get());
        match &o.data {
            HeapData::Bignum { value } => {
                let v: i128 = *value;
                if v > i64::MAX as i128 || v < i64::MIN as i128 {
                    Err(Error::Range { target: TypeName::I64, negative: false })
                } else {
                    Ok(v as i64)
                }
            },
            _ => vstd::pervasive::unreached(),
        }
    }

    /// The held integer if it is non-negative and fits `u64`.
    pub fn to_u64(self, rt: &Runtime) -> (r: Result<u64, Error>)
        requires
            rt.wf(),
            self.wf_in(*rt),
        ensures
            self.spec_value(*rt) < 0 ==> r == Result::<u64, Error>::Err(
                (Error::Range { target: TypeName::U64, negative: true }),
            ),
            0 <= self.spec_value(*rt) <= u64::MAX ==> r == Ok::<u64, Error>(self.spec_value(*rt) as u64),
            self.spec_value(*rt) > u64::MAX ==> r == Result::<u64, Error>::Err(
                (Error::Range { target: TypeName::U64, negative: false }),
            ),
    {
        let o = rt.object(self.0.get());
        match &o.data {
            HeapData::Bignum { value } => {
                let v: i128 = *value;
                if v < 0 {
                    Err(Error::Range { target: TypeName::U64, negative: true })
                } else if v > u64::MAX as i128 {
                    Err(Error::Range { target: TypeName::U64, negative: false })
                } else {
                    Ok(v as u64)
                }
            },
            _ => vstd::pervasive::unreached(),
        }
    }
}

} // verus!
