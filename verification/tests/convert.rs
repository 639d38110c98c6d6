//! The numeric construction and conversion network: fixnum round trips,
//! range failures, the unsigned negative rejection, the big-integer
//! fallback at the boundary, and the option lift.

use tagged_value::error::{Error, TypeName};
use tagged_value::fixnum::{FIXNUM_MAX, FIXNUM_MIN, Fixnum};
use tagged_value::runtime::{OBJECT_CLASS, Runtime};
use tagged_value::special::Qnil;
use tagged_value::value::Value;

fn fixnum(rt: &mut Runtime, n: i64) -> Fixnum {
    Fixnum::from_i64(rt, n).expect("in fixnum range")
}

#[test]
fn signed_round_trips() {
    let mut rt = Runtime::new();
    assert_eq!(fixnum(&mut rt, 127).to_i8().unwrap(), 127);
    assert_eq!(fixnum(&mut rt, -128).to_i8().unwrap(), -128);
    assert_eq!(fixnum(&mut rt, 32767).to_i16().unwrap(), 32767);
    assert_eq!(fixnum(&mut rt, -32768).to_i16().unwrap(), -32768);
    assert_eq!(fixnum(&mut rt, 2147483647).to_i32().unwrap(), 2147483647);
    assert_eq!(fixnum(&mut rt, -2147483648).to_i32().unwrap(), -2147483648);
    assert_eq!(fixnum(&mut rt, FIXNUM_MAX).to_i64(), FIXNUM_MAX);
    assert_eq!(fixnum(&mut rt, FIXNUM_MIN).to_i64(), FIXNUM_MIN);
    assert_eq!(fixnum(&mut rt, 0).to_i64(), 0);
    assert_eq!(fixnum(&mut rt, -1).to_i64(), -1);
}

#[test]
fn signed_range_failures() {
    let mut rt = Runtime::new();
    assert!(matches!(
        fixnum(&mut rt, 128).to_i8(),
        Err(Error::Range { target: TypeName::I8, negative: false })
    ));
    assert!(matches!(fixnum(&mut rt, -129).to_i8(), Err(Error::Range { .. })));
    assert!(matches!(fixnum(&mut rt, 32768).to_i16(), Err(Error::Range { .. })));
    assert!(matches!(fixnum(&mut rt, -32769).to_i16(), Err(Error::Range { .. })));
    assert!(matches!(fixnum(&mut rt, 2147483648).to_i32(), Err(Error::Range { .. })));
    assert!(matches!(fixnum(&mut rt, -2147483649).to_i32(), Err(Error::Range { .. })));
    let e = fixnum(&mut rt, 128).to_i8().unwrap_err();
    assert_eq!(e.message(), "integer too big to convert into `i8`");
}

#[test]
fn unsigned_round_trips() {
    let mut rt = Runtime::new();
    assert_eq!(fixnum(&mut rt, 255).to_u8().unwrap(), 255);
    assert_eq!(fixnum(&mut rt, 65535).to_u16().unwrap(), 65535);
    assert_eq!(fixnum(&mut rt, 4294967295).to_u32().unwrap(), 4294967295);
    assert_eq!(fixnum(&mut rt, FIXNUM_MAX).to_u64().unwrap(), FIXNUM_MAX as u64);
    assert_eq!(fixnum(&mut rt, 0).to_u8().unwrap(), 0);
}

#[test]
fn unsigned_rejects_negative_before_width_check() {
    let mut rt = Runtime::new();
    // A negative value is rejected as negative for every width — never
    // wrapped to a large positive value, never reported as too big.
    let f = fixnum(&mut rt, -1);
    assert!(matches!(f.to_u8(), Err(Error::Range { target: TypeName::U8, negative: true })));
    assert!(matches!(f.to_u16(), Err(Error::Range { target: TypeName::U16, negative: true })));
    assert!(matches!(f.to_u32(), Err(Error::Range { target: TypeName::U32, negative: true })));
    assert!(matches!(f.to_u64(), Err(Error::Range { target: TypeName::U64, negative: true })));
    assert!(matches!(
        f.to_usize(),
        Err(Error::Range { target: TypeName::Usize, negative: true })
    ));
    assert_eq!(f.to_u8().unwrap_err().message(), "can't convert negative integer to unsigned");
}

#[test]
fn unsigned_width_failures() {
    let mut rt = Runtime::new();
    assert!(matches!(
        fixnum(&mut rt, 256).to_u8(),
        Err(Error::Range { target: TypeName::U8, negative: false })
    ));
    assert!(matches!(fixnum(&mut rt, 65536).to_u16(), Err(Error::Range { .. })));
    assert!(matches!(fixnum(&mut rt, 4294967296).to_u32(), Err(Error::Range { .. })));
}

#[test]
fn construction_at_the_boundary() {
    let mut rt = Runtime::new();
    // The largest and smallest representable integers construct as
    // fixnums.
    assert!(Fixnum::from_i64(&mut rt, FIXNUM_MAX).is_ok());
    assert!(Fixnum::from_i64(&mut rt, FIXNUM_MIN).is_ok());
    // One unit beyond falls back to the big-integer object, holding
    // exactly the same value.
    let big = Fixnum::from_i64(&mut rt, FIXNUM_MAX + 1).unwrap_err();
    assert_eq!(big.to_i64(&rt).unwrap(), FIXNUM_MAX + 1);
    let small = Fixnum::from_i64(&mut rt, FIXNUM_MIN - 1).unwrap_err();
    assert_eq!(small.to_i64(&rt).unwrap(), FIXNUM_MIN - 1);
    let ubig = Fixnum::from_u64(&mut rt, FIXNUM_MAX as u64 + 1).unwrap_err();
    assert_eq!(ubig.to_u64(&rt).unwrap(), FIXNUM_MAX as u64 + 1);
    assert!(Fixnum::from_u64(&mut rt, FIXNUM_MAX as u64).is_ok());
    assert!(Fixnum::from_u64(&mut rt, u64::MAX).is_err());
}

#[test]
fn trait_conversions_cover_bignums() {
    let mut rt = Runtime::new();
    // An integer out of fixnum range still converts through the trait
    // network, reading the big-integer object.
    let big = Fixnum::from_i64(&mut rt, FIXNUM_MAX + 1).unwrap_err();
    let v = big.as_value();
    assert_eq!(v.try_convert::<i64>(&rt).unwrap(), FIXNUM_MAX + 1);
    assert_eq!(v.try_convert::<u64>(&rt).unwrap(), FIXNUM_MAX as u64 + 1);
    assert!(matches!(v.try_convert::<i32>(&rt), Err(Error::Range { .. })));
    // The fixnum view of a big integer is a range failure, distinct
    // from a kind mismatch.
    let e = v.try_convert::<Fixnum>(&rt).unwrap_err();
    assert_eq!(e.message(), "integer too big for fixnum");
}

#[test]
fn trait_conversions_on_fixnums() {
    let mut rt = Runtime::new();
    let v = fixnum(&mut rt, 42).as_value();
    assert_eq!(v.try_convert::<i8>(&rt).unwrap(), 42);
    assert_eq!(v.try_convert::<i64>(&rt).unwrap(), 42);
    assert_eq!(v.try_convert::<u8>(&rt).unwrap(), 42);
    assert_eq!(v.try_convert::<usize>(&rt).unwrap(), 42);
    assert!(v.try_convert::<bool>(&rt).unwrap());
    let f: Fixnum = v.try_convert::<Fixnum>(&rt).unwrap();
    assert_eq!(f.to_i64(), 42);
}

#[test]
fn kind_mismatch_names_the_actual_class() {
    let mut rt = Runtime::new();
    let obj = rt.alloc_object(OBJECT_CLASS);
    let e = obj.try_convert::<i64>(&rt).unwrap_err();
    assert!(matches!(e, Error::TypeMismatch { expected: TypeName::Integer, .. }));
    assert_eq!(e.message(), "no implicit conversion of Object into Integer");
    let nil = Qnil::new().as_value();
    let e2 = nil.try_convert::<i64>(&rt).unwrap_err();
    assert_eq!(e2.message(), "no implicit conversion of NilClass into Integer");
}

#[test]
fn option_lift_maps_nil_to_none() {
    let mut rt = Runtime::new();
    let nil = Qnil::new().as_value();
    assert_eq!(nil.try_convert::<Option<i64>>(&rt).unwrap(), None);
    // A non-nil handle goes through the inner conversion.
    let v = fixnum(&mut rt, 42).as_value();
    assert_eq!(v.try_convert::<Option<i64>>(&rt).unwrap(), Some(42));
    // ... and the inner conversion's failure propagates.
    let obj = rt.alloc_object(OBJECT_CLASS);
    assert!(matches!(
        obj.try_convert::<Option<i64>>(&rt),
        Err(Error::TypeMismatch { .. })
    ));
}

#[test]
fn bool_conversion_is_total() {
    let rt = Runtime::new();
    let nil = Qnil::new().as_value();
    assert!(!nil.try_convert::<bool>(&rt).unwrap());
    assert!(!Value::new(0).try_convert::<bool>(&rt).unwrap());
    assert!(Value::new(1).try_convert::<bool>(&rt).unwrap());
}
