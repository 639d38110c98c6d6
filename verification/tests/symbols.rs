//! Symbols: interning, ids, and the three-way narrowing (true static,
//! interned permanent, neither).

use tagged_value::fixnum::Fixnum;
use tagged_value::runtime::Runtime;
use tagged_value::symbol::StaticSymbol;
use tagged_value::value::ValueType;

#[test]
fn interning_is_idempotent() {
    let mut rt = Runtime::new();
    let a = StaticSymbol::new(&mut rt, "example".to_string());
    let b = StaticSymbol::new(&mut rt, "example".to_string());
    // The same name interns to the same symbol word.
    assert_eq!(a.as_value().as_rb_value(), b.as_value().as_rb_value());
    let c = StaticSymbol::new(&mut rt, "other".to_string());
    assert_ne!(a.as_value().as_rb_value(), c.as_value().as_rb_value());
}

#[test]
fn symbol_name_round_trips() {
    let mut rt = Runtime::new();
    let sym = StaticSymbol::new(&mut rt, "example".to_string());
    assert_eq!(sym.name(&rt).unwrap(), "example");
}

#[test]
fn id_name_round_trips() {
    let mut rt = Runtime::new();
    let sym = StaticSymbol::new(&mut rt, "example".to_string());
    let id = sym.to_id(&rt);
    assert_eq!(id.name(&rt).unwrap(), "example");
    let again = StaticSymbol::new(&mut rt, "example".to_string());
    assert_eq!(again.to_id(&rt).as_rb_id(), id.as_rb_id());
}

#[test]
fn static_symbol_words_carry_the_tag() {
    let mut rt = Runtime::new();
    let sym = StaticSymbol::new(&mut rt, "example".to_string());
    let v = sym.as_value();
    assert!(v.is_static_symbol());
    assert!(v.is_immediate());
    assert!(v.to_bool());
}

#[test]
fn narrowing_accepts_a_true_static_symbol() {
    let mut rt = Runtime::new();
    let sym = StaticSymbol::new(&mut rt, "example".to_string());
    let v = sym.as_value();
    let narrowed = StaticSymbol::from_value(&rt, v).expect("static symbol narrows");
    assert_eq!(narrowed.name(&rt).unwrap(), "example");
}

#[test]
fn narrowing_accepts_an_interned_heap_symbol() {
    let mut rt = Runtime::new();
    // A dynamic symbol object whose name is also permanently interned:
    // the narrowing consults the runtime, not just the bits.
    let _ = StaticSymbol::new(&mut rt, "shared".to_string());
    let dynamic = rt.alloc_symbol("shared".to_string());
    assert!(!dynamic.is_static_symbol());
    let narrowed = StaticSymbol::from_value(&rt, dynamic).expect("interned name narrows");
    assert_eq!(narrowed.name(&rt).unwrap(), "shared");
}

#[test]
fn narrowing_rejects_an_uninterned_heap_symbol() {
    let mut rt = Runtime::new();
    let dynamic = rt.alloc_symbol("fleeting".to_string());
    assert!(StaticSymbol::from_value(&rt, dynamic).is_none());
}

#[test]
fn narrowing_rejects_other_kinds() {
    let mut rt = Runtime::new();
    let fix = Fixnum::from_i64(&mut rt, 3).unwrap().as_value();
    assert!(StaticSymbol::from_value(&rt, fix).is_none());
    let s = rt.alloc_string("not a symbol".to_string());
    assert!(StaticSymbol::from_value(&rt, s).is_none());
}

#[test]
fn symbols_classify_as_symbols() {
    let mut rt = Runtime::new();
    let sym = StaticSymbol::new(&mut rt, "example".to_string());
    let dynamic = rt.alloc_symbol("other".to_string());
    assert_eq!(sym.as_value().rb_type(&rt), ValueType::Symbol);
    assert_eq!(dynamic.rb_type(&rt), ValueType::Symbol);
}
