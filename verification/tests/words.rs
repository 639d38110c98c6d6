//! Word-level classification: the tag decoder, kind predicates, and the
//! boolean reading of a handle.

use tagged_value::value::Value;
use tagged_value::word::{
    classify, FALSE_WORD, NIL_WORD, TRUE_WORD, UNDEF_WORD, WordClass,
};

fn predicates(v: Value) -> Vec<bool> {
    vec![
        v.is_false(),
        v.is_nil(),
        v.is_true(),
        v.is_undef(),
        v.is_fixnum(),
        v.is_static_symbol(),
        v.is_flonum(),
        !v.is_immediate(),
    ]
}

#[test]
fn classify_special_constants() {
    assert_eq!(classify(FALSE_WORD), Some(WordClass::False));
    assert_eq!(classify(NIL_WORD), Some(WordClass::Nil));
    assert_eq!(classify(TRUE_WORD), Some(WordClass::True));
    assert_eq!(classify(UNDEF_WORD), Some(WordClass::Undef));
}

#[test]
fn classify_tagged_words() {
    // Any odd word is a fixnum; low bits 0b10 mark a flonum; a low byte
    // of 0x0c marks a static symbol.
    assert_eq!(classify(1), Some(WordClass::Fixnum));
    assert_eq!(classify(0x7fff_ffff_ffff_ffff), Some(WordClass::Fixnum));
    assert_eq!(classify(0x06), Some(WordClass::Flonum));
    assert_eq!(classify(0x0c), Some(WordClass::StaticSym));
    assert_eq!(classify(0x2a0c), Some(WordClass::StaticSym));
    // Multiples of eight other than the false and nil words are heap
    // pointers.
    assert_eq!(classify(0x10), Some(WordClass::Heap));
    assert_eq!(classify(0x1000), Some(WordClass::Heap));
}

#[test]
fn classify_rejects_ill_formed_words() {
    // Immediate-tagged residue that belongs to no kind: a version
    // mismatch, not a value.
    assert_eq!(classify(0x24), None);
    assert_eq!(classify(0x1c), None);
}

#[test]
fn exactly_one_kind_holds() {
    // For every well-formed sample, exactly one kind predicate is true.
    let samples: Vec<u64> = vec![FALSE_WORD, NIL_WORD, TRUE_WORD, UNDEF_WORD, 1, 41, 0x06, 0x0c,
        0x10, 0x98];
    for w in samples {
        let v = Value::new(w);
        let count = predicates(v).into_iter().filter(|&b| b).count();
        assert_eq!(count, 1, "word {w:#x}");
    }
}

#[test]
fn nil_and_false_are_distinct() {
    let f = Value::new(FALSE_WORD);
    let n = Value::new(NIL_WORD);
    assert!(f.is_false() && !f.is_nil());
    assert!(n.is_nil() && !n.is_false());
}

#[test]
fn to_bool_is_false_exactly_for_nil_and_false() {
    assert!(!Value::new(FALSE_WORD).to_bool());
    assert!(!Value::new(NIL_WORD).to_bool());
    assert!(Value::new(TRUE_WORD).to_bool());
    // A zero-valued fixnum (word 1) is still truthy.
    assert!(Value::new(1).to_bool());
    // Static symbols, flonums and heap pointers are truthy.
    assert!(Value::new(0x0c).to_bool());
    assert!(Value::new(0x06).to_bool());
    assert!(Value::new(0x10).to_bool());
}

#[test]
fn default_value_is_nil() {
    let v: Value = Default::default();
    assert!(v.is_nil());
}
