//! Bit-level classification of a raw machine word.
//!
//! The foreign runtime encodes every object as one machine word. A small
//! number of fixed bit patterns mark the word as an immediate value (the
//! word itself is the datum); every other well-formed word is a tagged
//! pointer to a collector-managed heap object. The constants here are the
//! runtime's published encoding for its 64-bit, immediate-float
//! configuration; they are version-dependent configuration data, not
//! arbitrary choices.
//!
//! Classification is pure: it reads nothing but the word. Exactly one kind
//! applies to any well-formed word (see [`lemma_word_kinds_partition`]);
//! a word matching no kind is a fatal encoding mismatch, surfaced here as
//! `None` from [`classify`].

use vstd::prelude::*;

verus! {

/// The word for the runtime's `false`. The only immediate whose word is
/// all-zero; every other kind is provably non-zero.
pub const FALSE_WORD: u64 = 0x00;

/// The word for the runtime's `nil`.
pub const NIL_WORD: u64 = 0x08;

/// The word for the runtime's `true`.
pub const TRUE_WORD: u64 = 0x14;

/// The word for the runtime's undefined sentinel, never exposed to
/// runtime-level code.
pub const UNDEF_WORD: u64 = 0x34;

/// A word with any of these low bits set is immediate.
pub const IMMEDIATE_MASK: u64 = 0x07;

/// Low bit set: the word holds a small integer, shifted left once.
pub const FIXNUM_FLAG: u64 = 0x01;

/// The two low bits of an immediate float.
pub const FLONUM_MASK: u64 = 0x03;
pub const FLONUM_FLAG: u64 = 0x02;

/// The low byte of a static symbol; the rest of the word is the symbol id.
pub const SYMBOL_FLAG: u64 = 0x0c;
pub const SYMBOL_MASK: u64 = 0xff;

/// How far a static symbol's id is shifted into its word.
pub const SYMBOL_SHIFT: u64 = 8;

pub open spec fn is_false_word(w: u64) -> bool {
    w == FALSE_WORD
}

pub open spec fn is_nil_word(w: u64) -> bool {
    w == NIL_WORD
}

pub open spec fn is_true_word(w: u64) -> bool {
    w == TRUE_WORD
}

pub open spec fn is_undef_word(w: u64) -> bool {
    w == UNDEF_WORD
}

pub open spec fn is_fixnum_word(w: u64) -> bool {
    w & FIXNUM_FLAG != 0
}

pub open spec fn is_static_sym_word(w: u64) -> bool {
    w & SYMBOL_MASK == SYMBOL_FLAG
}

pub open spec fn is_flonum_word(w: u64) -> bool {
    w & FLONUM_MASK == FLONUM_FLAG
}

/// A word that encodes its datum directly: some immediate tag bit is set,
/// or the word is one of the two all-but-one-bit-zero specials (`false`,
/// `nil`). Such words are never heap pointers and never collected.
pub open spec fn is_immediate_word(w: u64) -> bool {
    w & IMMEDIATE_MASK != 0 || w & !NIL_WORD == 0
}

/// A tagged pointer into collector-managed memory: any well-formed word
/// that is not immediate.
pub open spec fn is_heap_word(w: u64) -> bool {
    !is_immediate_word(w)
}

/// The kinds a word can decode to without consulting the heap: one per
/// immediate kind, plus `Heap` for tagged pointers (whose precise object
/// kind lives in the pointed-to header).
#[derive(Clone, Copy, PartialEq, Eq, Structural, Debug)]
pub enum WordClass {
    False,
    Nil,
    True,
    Undef,
    Fixnum,
    StaticSym,
    Flonum,
    Heap,
}

/// Every well-formed word decodes to exactly one kind; this gives that
/// kind. `None` marks the ill-formed residue: words carrying an immediate
/// tag pattern that belongs to no kind (possible only when host and
/// runtime disagree about the encoding).
pub open spec fn classify_word(w: u64) -> Option<WordClass> {
    if is_fixnum_word(w) {
        Some(WordClass::Fixnum)
    } else if is_flonum_word(w) {
        Some(WordClass::Flonum)
    } else if is_static_sym_word(w) {
        Some(WordClass::StaticSym)
    } else if is_false_word(w) {
        Some(WordClass::False)
    } else if is_nil_word(w) {
        Some(WordClass::Nil)
    } else if is_true_word(w) {
        Some(WordClass::True)
    } else if is_undef_word(w) {
        Some(WordClass::Undef)
    } else if is_heap_word(w) {
        Some(WordClass::Heap)
    } else {
        None
    }
}

/// A word some kind applies to. All words the runtime hands out satisfy
/// this; a word outside it (for example `0x24`: immediate-tagged, yet of
/// no kind) signals a version mismatch between host and runtime.
pub open spec fn wf_word(w: u64) -> bool {
    classify_word(w) is Some
}

/// Classification is a partition: each kind predicate holds exactly on the
/// words the classifier sends to that kind, so on any word at most one
/// kind predicate holds, and on well-formed words exactly one does.
pub proof fn lemma_word_kinds_partition(w: u64)
    ensures
        is_false_word(w) <==> classify_word(w) == Some(WordClass::False),
        is_nil_word(w) <==> classify_word(w) == Some(WordClass::Nil),
        is_true_word(w) <==> classify_word(w) == Some(WordClass::True),
        is_undef_word(w) <==> classify_word(w) == Some(WordClass::Undef),
        is_fixnum_word(w) <==> classify_word(w) == Some(WordClass::Fixnum),
        is_static_sym_word(w) <==> classify_word(w) == Some(WordClass::StaticSym),
        is_flonum_word(w) <==> classify_word(w) == Some(WordClass::Flonum),
        is_heap_word(w) <==> classify_word(w) == Some(WordClass::Heap),
{
    assert(is_fixnum_word(w) ==> !is_flonum_word(w) && !is_static_sym_word(w)
        && !is_false_word(w) && !is_nil_word(w) && !is_true_word(w) && !is_undef_word(w)
        && is_immediate_word(w)) by (bit_vector);
    assert(is_flonum_word(w) ==> !is_fixnum_word(w) && !is_static_sym_word(w)
        && !is_false_word(w) && !is_nil_word(w) && !is_true_word(w) && !is_undef_word(w)
        && is_immediate_word(w)) by (bit_vector);
    assert(is_static_sym_word(w) ==> !is_fixnum_word(w) && !is_flonum_word(w)
        && !is_false_word(w) && !is_nil_word(w) && !is_true_word(w) && !is_undef_word(w)
        && is_immediate_word(w)) by (bit_vector);
    assert(is_false_word(w) ==> is_immediate_word(w) && !is_fixnum_word(w)
        && !is_flonum_word(w) && !is_static_sym_word(w)) by (bit_vector);
    assert(is_nil_word(w) ==> is_immediate_word(w) && !is_fixnum_word(w)
        && !is_flonum_word(w) && !is_static_sym_word(w)) by (bit_vector);
    assert(is_true_word(w) ==> is_immediate_word(w) && !is_fixnum_word(w)
        && !is_flonum_word(w) && !is_static_sym_word(w)) by (bit_vector);
    assert(is_undef_word(w) ==> is_immediate_word(w) && !is_fixnum_word(w)
        && !is_flonum_word(w) && !is_static_sym_word(w)) by (bit_vector);
}

/// Exactly one kind predicate holds of a well-formed word, and a word of
/// any kind is well formed.
pub proof fn lemma_word_classification_exclusive(w: u64)
    ensures
        wf_word(w) <==> (is_false_word(w) || is_nil_word(w) || is_true_word(w)
            || is_undef_word(w) || is_fixnum_word(w) || is_static_sym_word(w)
            || is_flonum_word(w) || is_heap_word(w)),
        !(is_false_word(w) && is_nil_word(w)),
        !(is_false_word(w) && is_true_word(w)),
        !(is_false_word(w) && is_undef_word(w)),
        !(is_false_word(w) && is_fixnum_word(w)),
        !(is_false_word(w) && is_static_sym_word(w)),
        !(is_false_word(w) && is_flonum_word(w)),
        !(is_false_word(w) && is_heap_word(w)),
        !(is_nil_word(w) && is_true_word(w)),
        !(is_nil_word(w) && is_undef_word(w)),
        !(is_nil_word(w) && is_fixnum_word(w)),
        !(is_nil_word(w) && is_static_sym_word(w)),
        !(is_nil_word(w) && is_flonum_word(w)),
        !(is_nil_word(w) && is_heap_word(w)),
        !(is_true_word(w) && is_undef_word(w)),
        !(is_true_word(w) && is_fixnum_word(w)),
        !(is_true_word(w) && is_static_sym_word(w)),
        !(is_true_word(w) && is_flonum_word(w)),
        !(is_true_word(w) && is_heap_word(w)),
        !(is_undef_word(w) && is_fixnum_word(w)),
        !(is_undef_word(w) && is_static_sym_word(w)),
        !(is_undef_word(w) && is_flonum_word(w)),
        !(is_undef_word(w) && is_heap_word(w)),
        !(is_fixnum_word(w) && is_static_sym_word(w)),
        !(is_fixnum_word(w) && is_flonum_word(w)),
        !(is_fixnum_word(w) && is_heap_word(w)),
        !(is_static_sym_word(w) && is_flonum_word(w)),
        !(is_static_sym_word(w) && is_heap_word(w)),
        !(is_flonum_word(w) && is_heap_word(w)),
{
    lemma_word_kinds_partition(w);
}

/// Exec mirror of [`classify_word`]: the total tag decoder on the word
/// alone.
pub fn classify(w: u64) -> (r: Option<WordClass>)
    ensures
        r == classify_word(w),
{
    if w & FIXNUM_FLAG != 0 {
        Some(WordClass::Fixnum)
    } else if w & FLONUM_MASK == FLONUM_FLAG {
        Some(WordClass::Flonum)
    } else if w & SYMBOL_MASK == SYMBOL_FLAG {
        Some(WordClass::StaticSym)
    } else if w == FALSE_WORD {
        Some(WordClass::False)
    } else if w == NIL_WORD {
        Some(WordClass::Nil)
    } else if w == TRUE_WORD {
        Some(WordClass::True)
    } else if w == UNDEF_WORD {
        Some(WordClass::Undef)
    } else if !(w & IMMEDIATE_MASK != 0 || w & !NIL_WORD == 0) {
        Some(WordClass::Heap)
    } else {
        None
    }
}

/// No immediate kind except `false` is the all-zero word; narrowed
/// wrappers for those kinds can therefore store a non-zero word and leave
/// zero free as a "no value" marker.
pub proof fn lemma_nonzero_but_false(w: u64)
    ensures
        is_nil_word(w) ==> w != 0,
        is_true_word(w) ==> w != 0,
        is_undef_word(w) ==> w != 0,
        is_fixnum_word(w) ==> w != 0,
        is_static_sym_word(w) ==> w != 0,
        is_flonum_word(w) ==> w != 0,
        is_heap_word(w) ==> w != 0,
{
    assert(w & FIXNUM_FLAG != 0 ==> w != 0) by (bit_vector);
    assert(w & FLONUM_MASK == FLONUM_FLAG ==> w != 0) by (bit_vector);
    assert(w & SYMBOL_MASK == SYMBOL_FLAG ==> w != 0) by (bit_vector);
    assert(!(0u64 & IMMEDIATE_MASK != 0 || 0u64 & !NIL_WORD == 0) ==> false) by (bit_vector);
}

} // verus!
