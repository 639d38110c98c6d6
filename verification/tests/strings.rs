//! Rendering: to_s, its infallible variant, inspect, the string-object
//! conversion, and class reflection.

use tagged_value::error::{Error, Exception};
use tagged_value::fixnum::Fixnum;
use tagged_value::flonum::Flonum;
use tagged_value::rstring::RString;
use tagged_value::runtime::{
    FLOAT_CLASS, INTEGER_CLASS, MethodBehavior, NIL_CLASS, OBJECT_CLASS, Runtime, STRING_CLASS,
    TRUE_CLASS,
};
use tagged_value::special::{Qfalse, Qnil, Qtrue, Qundef};
use tagged_value::value::{Value, ValueType};

#[test]
fn a_string_object_renders_as_its_text() {
    let mut rt = Runtime::new();
    let s = rt.alloc_string("hello".to_string());
    assert_eq!(s.to_s(&rt).unwrap(), "hello");
    assert_eq!(s.to_s_infallible(&rt), "hello");
}

#[test]
fn a_plain_object_renders_generically() {
    let mut rt = Runtime::new();
    let obj = rt.alloc_object(OBJECT_CLASS);
    assert_eq!(obj.to_s(&rt).unwrap(), "#<Object>");
}

#[test]
fn to_s_dispatches_to_a_string_returning_operation() {
    let mut rt = Runtime::new();
    let c = rt.define_class("Named".to_string());
    let text = rt.alloc_string("a name".to_string());
    rt.define_method(c, "to_s".to_string(), false, MethodBehavior::Returns(text));
    let obj = rt.alloc_object(c);
    assert_eq!(obj.to_s(&rt).unwrap(), "a name");
}

#[test]
fn to_s_falls_back_when_the_result_is_not_a_string() {
    let mut rt = Runtime::new();
    let c = rt.define_class("Odd".to_string());
    let not_a_string = Fixnum::from_i64(&mut rt, 9).unwrap().as_value();
    rt.define_method(c, "to_s".to_string(), false, MethodBehavior::Returns(not_a_string));
    let obj = rt.alloc_object(c);
    assert_eq!(obj.to_s(&rt).unwrap(), "#<Odd>");
}

#[test]
fn infallible_rendering_survives_a_raise() {
    let mut rt = Runtime::new();
    let c = rt.define_class("Loud".to_string());
    rt.define_method(c, "to_s".to_string(), false, MethodBehavior::Raises(Exception::new(
        "RuntimeError".to_string(),
        "no rendering today".to_string(),
    )));
    let obj = rt.alloc_object(c);
    // The fallible path reports the raise...
    assert!(matches!(obj.to_s(&rt), Err(Error::Exception(_))));
    // ... and the infallible path falls back to the generic rendering.
    assert_eq!(obj.to_s_infallible(&rt), "#<Loud>");
    assert_eq!(obj.inspect(&rt), "#<Loud>");
}

#[test]
fn inspect_prefers_the_inspect_operation() {
    let mut rt = Runtime::new();
    let c = rt.define_class("Shown".to_string());
    let text = rt.alloc_string(":shown".to_string());
    rt.define_method(c, "inspect".to_string(), false, MethodBehavior::Returns(text));
    let obj = rt.alloc_object(c);
    assert_eq!(obj.inspect(&rt), ":shown");
    // Without an inspect operation the rendering is generic.
    let plain = rt.alloc_object(OBJECT_CLASS);
    assert_eq!(plain.inspect(&rt), "#<Object>");
}

#[test]
fn to_r_string_wraps_or_allocates() {
    let mut rt = Runtime::new();
    let s = rt.alloc_string("direct".to_string());
    let wrapped = s.to_r_string(&mut rt).unwrap();
    // A string object is wrapped, not copied.
    assert_eq!(wrapped.as_value().as_rb_value(), s.as_rb_value());
    // Another kind is rendered into a fresh string object.
    let obj = rt.alloc_object(OBJECT_CLASS);
    let fresh = obj.to_r_string(&mut rt).unwrap();
    assert_ne!(fresh.as_value().as_rb_value(), obj.as_rb_value());
    assert_eq!(fresh.to_string(&rt).unwrap(), "#<Object>");
}

#[test]
fn rstring_narrows_only_string_objects() {
    let mut rt = Runtime::new();
    let s = rt.alloc_string("text".to_string());
    let r = RString::from_value(&rt, s).expect("string object narrows");
    assert_eq!(r.to_string(&rt).unwrap(), "text");
    let obj = rt.alloc_object(OBJECT_CLASS);
    assert!(RString::from_value(&rt, obj).is_none());
    let fix = Fixnum::from_i64(&mut rt, 1).unwrap().as_value();
    assert!(RString::from_value(&rt, fix).is_none());
}

#[test]
fn classes_of_immediates_and_objects() {
    let mut rt = Runtime::new();
    let fix = Fixnum::from_i64(&mut rt, 5).unwrap().as_value();
    assert_eq!(fix.class(&rt), INTEGER_CLASS);
    assert_eq!(fix.classname(&rt), "Integer");
    assert_eq!(Qnil::new().as_value().class(&rt), NIL_CLASS);
    assert_eq!(Qtrue::new().as_value().class(&rt), TRUE_CLASS);
    let s = rt.alloc_string("x".to_string());
    assert_eq!(s.class(&rt), STRING_CLASS);
    assert_eq!(s.classname(&rt), "String");
    assert!(fix.is_kind_of(&rt, INTEGER_CLASS));
    assert!(!fix.is_kind_of(&rt, STRING_CLASS));
}

#[test]
fn rb_type_reads_tag_or_header() {
    let mut rt = Runtime::new();
    assert_eq!(Value::default().rb_type(&rt), ValueType::Nil);
    assert_eq!(Qtrue::new().as_value().rb_type(&rt), ValueType::True);
    let fix = Fixnum::from_i64(&mut rt, 5).unwrap().as_value();
    assert_eq!(fix.rb_type(&rt), ValueType::Fixnum);
    let flo = Flonum::from_value(Value::new(0x06)).unwrap();
    assert_eq!(flo.as_value().rb_type(&rt), ValueType::Float);
    assert_eq!(flo.as_value().class(&rt), FLOAT_CLASS);
    let s = rt.alloc_string("x".to_string());
    assert_eq!(s.rb_type(&rt), ValueType::Str);
    let big = Fixnum::from_i64(&mut rt, i64::MAX).unwrap_err();
    assert_eq!(big.as_value().rb_type(&rt), ValueType::Bignum);
    let obj = rt.alloc_object(OBJECT_CLASS);
    assert_eq!(obj.rb_type(&rt), ValueType::Object);
}

#[test]
fn narrowing_the_special_constants() {
    let nil = Value::default();
    assert!(tagged_value::special::Qnil::from_value(nil).is_some());
    assert!(Qfalse::from_value(nil).is_none());
    assert!(Qfalse::from_value(Value::new(0)).is_some());
    assert!(Qundef::from_value(nil).is_none());
    let undef = Qundef::new();
    assert!(Qundef::from_value(undef.to_value()).is_some());
    let t = Qtrue::from_value(Value::new(tagged_value::word::TRUE_WORD)).unwrap();
    assert!(t.as_value().to_bool());
}
