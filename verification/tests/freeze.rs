//! The frozen flag: reading it, the check-before-mutate probe, and the
//! idempotence of freezing.

use tagged_value::error::Error;
use tagged_value::fixnum::Fixnum;
use tagged_value::runtime::{OBJECT_CLASS, Runtime};
use tagged_value::special::{Qnil, Qtrue};
use tagged_value::value::Value;

#[test]
fn fresh_objects_are_not_frozen() {
    let mut rt = Runtime::new();
    let obj = rt.alloc_object(OBJECT_CLASS);
    assert!(!obj.is_frozen(&rt));
    assert!(obj.check_frozen(&rt).is_ok());
}

#[test]
fn freeze_sets_the_flag() {
    let mut rt = Runtime::new();
    let obj = rt.alloc_object(OBJECT_CLASS);
    obj.freeze(&mut rt);
    assert!(obj.is_frozen(&rt));
}

#[test]
fn freeze_is_idempotent() {
    let mut rt = Runtime::new();
    let obj = rt.alloc_object(OBJECT_CLASS);
    obj.freeze(&mut rt);
    // Freezing an already-frozen value changes nothing and errors
    // nothing; the value simply stays frozen.
    obj.freeze(&mut rt);
    obj.freeze(&mut rt);
    assert!(obj.is_frozen(&rt));
}

#[test]
fn check_frozen_fails_exactly_on_frozen_values() {
    let mut rt = Runtime::new();
    let obj = rt.alloc_object(OBJECT_CLASS);
    assert!(obj.check_frozen(&rt).is_ok());
    obj.freeze(&mut rt);
    // The probe reports the violation with the object's class name...
    match obj.check_frozen(&rt) {
        Err(Error::Frozen { class_name }) => assert_eq!(class_name, "Object"),
        _ => panic!("expected a frozen violation"),
    }
    assert_eq!(obj.check_frozen(&rt).unwrap_err().message(), "can't modify frozen Object");
    // ... and probing mutates nothing: the answer is stable.
    assert!(obj.check_frozen(&rt).is_err());
    assert!(obj.is_frozen(&rt));
}

#[test]
fn immediates_are_always_frozen() {
    let mut rt = Runtime::new();
    let nil = Qnil::new().as_value();
    let tru = Qtrue::new().as_value();
    let fix = Fixnum::from_i64(&mut rt, 42).unwrap().as_value();
    assert!(nil.is_frozen(&rt));
    assert!(tru.is_frozen(&rt));
    assert!(fix.is_frozen(&rt));
    assert_eq!(fix.check_frozen(&rt).unwrap_err().message(), "can't modify frozen Integer");
    // Freezing an immediate is a no-op.
    nil.freeze(&mut rt);
    assert!(nil.is_frozen(&rt));
}

#[test]
fn freezing_one_object_leaves_others_alone() {
    let mut rt = Runtime::new();
    let a = rt.alloc_object(OBJECT_CLASS);
    let b = rt.alloc_object(OBJECT_CLASS);
    a.freeze(&mut rt);
    assert!(a.is_frozen(&rt));
    assert!(!b.is_frozen(&rt));
}

#[test]
fn frozen_violation_names_a_custom_class() {
    let mut rt = Runtime::new();
    let c = rt.define_class("Widget".to_string());
    let w = rt.alloc_object(c);
    w.freeze(&mut rt);
    assert_eq!(w.check_frozen(&rt).unwrap_err().message(), "can't modify frozen Widget");
    let _ = Value::new(0);
}
