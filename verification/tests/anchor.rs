//! Anchoring and collection: unanchored heap handles die at a
//! collection; anchored, leaked and method-table-referenced values
//! survive; releasing an anchor ends its protection.

use tagged_value::fixnum::Fixnum;
use tagged_value::runtime::{MethodBehavior, OBJECT_CLASS, Runtime};
use tagged_value::value::BoxValue;

#[test]
fn collection_frees_unanchored_objects() {
    let mut rt = Runtime::new();
    let a = rt.alloc_object(OBJECT_CLASS);
    assert!(rt.is_live(a));
    rt.collect();
    assert!(!rt.is_live(a));
}

#[test]
fn an_anchored_object_survives_collection() {
    let mut rt = Runtime::new();
    let a = rt.alloc_object(OBJECT_CLASS);
    let b = rt.alloc_object(OBJECT_CLASS);
    let anchor = BoxValue::new(&mut rt, a);
    rt.collect();
    assert!(rt.is_live(anchor.get()));
    assert!(!rt.is_live(b));
    anchor.release(&mut rt);
    rt.collect();
    assert!(!rt.is_live(a));
}

#[test]
fn a_leaked_object_survives_every_collection() {
    let mut rt = Runtime::new();
    let a = rt.alloc_object(OBJECT_CLASS);
    a.leak(&mut rt);
    rt.collect();
    rt.collect();
    assert!(rt.is_live(a));
}

#[test]
fn method_table_values_are_roots() {
    let mut rt = Runtime::new();
    let c = rt.define_class("Example".to_string());
    let held = rt.alloc_object(OBJECT_CLASS);
    rt.define_method(c, "held".to_string(), false, MethodBehavior::Returns(held));
    let stray = rt.alloc_object(OBJECT_CLASS);
    rt.collect();
    assert!(rt.is_live(held));
    assert!(!rt.is_live(stray));
}

#[test]
fn immediates_are_never_collected() {
    let mut rt = Runtime::new();
    let fix = Fixnum::from_i64(&mut rt, 7).unwrap();
    rt.collect();
    // An immediate needs no anchoring: its datum is the word itself.
    assert_eq!(fix.to_i64(), 7);
    assert!(!rt.is_live(fix.as_value()));
}

#[test]
fn anchors_are_independent() {
    let mut rt = Runtime::new();
    let a = rt.alloc_object(OBJECT_CLASS);
    let b = rt.alloc_object(OBJECT_CLASS);
    let anchor_a = BoxValue::new(&mut rt, a);
    let anchor_b = BoxValue::new(&mut rt, b);
    anchor_a.release(&mut rt);
    rt.collect();
    assert!(!rt.is_live(a));
    assert!(rt.is_live(b));
    anchor_b.release(&mut rt);
}
