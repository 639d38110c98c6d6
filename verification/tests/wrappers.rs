//! Narrowed-wrapper conversions and widenings: the special constants
//! through the conversion network, and the From widenings.

use tagged_value::error::{Error, TypeName};
use tagged_value::fixnum::Fixnum;
use tagged_value::flonum::Flonum;
use tagged_value::runtime::Runtime;
use tagged_value::special::{Qfalse, Qnil, Qtrue};
use tagged_value::try_convert::{TryConvert, TryConvertToRust};
use tagged_value::value::Value;

#[test]
fn special_constants_convert_exactly() {
    let mut rt = Runtime::new();
    let nil = Qnil::new().as_value();
    let tru = Qtrue::new().as_value();
    let fls = Qfalse::new().as_value();
    assert!(nil.try_convert::<Qnil>(&rt).is_ok());
    assert!(tru.try_convert::<Qtrue>(&rt).is_ok());
    assert!(fls.try_convert::<Qfalse>(&rt).is_ok());
    let fix = Fixnum::from_i64(&mut rt, 0).unwrap().as_value();
    let e = fix.try_convert::<Qnil>(&rt).unwrap_err();
    assert!(matches!(e, Error::TypeMismatch { expected: TypeName::NilClass, .. }));
    assert_eq!(e.message(), "no implicit conversion of Integer into NilClass");
    let e2 = nil.try_convert::<Qtrue>(&rt).unwrap_err();
    assert_eq!(e2.message(), "no implicit conversion of NilClass into TrueClass");
    let e3 = tru.try_convert::<Qfalse>(&rt).unwrap_err();
    assert_eq!(e3.message(), "no implicit conversion of TrueClass into FalseClass");
}

#[test]
fn owned_conversions_match_borrowed_ones() {
    let mut rt = Runtime::new();
    let fix = Fixnum::from_i64(&mut rt, 12).unwrap().as_value();
    let borrowed: i32 = i32::try_convert(&rt, fix).unwrap();
    let owned: i32 = i32::try_convert_to_rust(&rt, fix).unwrap();
    assert_eq!(borrowed, owned);
    let o: Option<u8> = Option::<u8>::try_convert_to_rust(&rt, fix).unwrap();
    assert_eq!(o, Some(12));
}

#[test]
fn widenings_keep_the_word() {
    let tru: Value = Qtrue::new().into();
    assert!(tru.is_true());
    let nil: Value = Qnil::new().into();
    assert!(nil.is_nil());
    let fls: Value = Qfalse::new().into();
    assert!(fls.is_false());
    let from_bool: Value = Value::from(true);
    assert!(from_bool.is_true());
    let from_false: Value = Value::from(false);
    assert!(from_false.is_false());
}

#[test]
fn fixnum_narrowing_checks_the_tag() {
    let mut rt = Runtime::new();
    let fix = Fixnum::from_i64(&mut rt, 21).unwrap().as_value();
    assert_eq!(Fixnum::from_value(fix).unwrap().to_i64(), 21);
    assert!(Fixnum::from_value(Value::default()).is_none());
    assert!(Fixnum::from_value(Value::new(0x10)).is_none());
}

#[test]
fn flonum_narrowing_checks_the_tag() {
    assert!(Flonum::from_value(Value::new(0x06)).is_some());
    assert!(Flonum::from_value(Value::new(0x04)).is_none());
    assert!(Flonum::from_value(Value::new(1)).is_none());
    assert!(Flonum::from_value(Value::default()).is_none());
}

#[test]
fn value_converts_to_itself() {
    let rt = Runtime::new();
    let v = Value::new(1);
    let w: Value = v.try_convert::<Value>(&rt).unwrap();
    assert_eq!(v, w);
}
