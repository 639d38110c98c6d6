//! Static symbols and symbol ids.
//!
//! A static symbol is an immediate word: the interned id shifted up with
//! the symbol tag in the low byte. It lives for the life of the runtime
//! and is never collected. Narrowing from a generic handle deliberately
//! goes beyond bit inspection: it also accepts a heap-allocated symbol
//! object whose name has been permanently interned, which costs a
//! runtime lookup — the three-way behavior (true static, interned
//! permanent, neither) is part of the contract.

use vstd::prelude::*;

use crate::error::Error;
use crate::runtime::{HeapData, Runtime, SYMBOL_CAPACITY};
use crate::value::{NonZeroValue, Value};
use crate::word::{SYMBOL_FLAG, SYMBOL_SHIFT, is_heap_word, is_static_sym_word};

verus! {

/// The word of the static symbol with interned id `id`.
pub open spec fn static_sym_word_of(id: int) -> u64
    recommends
        0 <= id < SYMBOL_CAPACITY,
{
    (id * 256 + SYMBOL_FLAG) as u64
}

/// The interned id a static symbol word carries.
pub open spec fn sym_id_of_word(w: u64) -> int {
    w as int / 256
}

/// Ids below the capacity round-trip through the word encoding, and the
/// encoded word carries the symbol tag.
pub proof fn lemma_static_sym_round_trip(id: u64)
    requires
        id < SYMBOL_CAPACITY as u64,
    ensures
        is_static_sym_word(static_sym_word_of(id as int)),
        static_sym_word_of(id as int) != 0,
        sym_id_of_word(static_sym_word_of(id as int)) == id as int,
        static_sym_word_of(id as int) == (id << 8) | SYMBOL_FLAG,
{
    assert(id < 0x1000_0000u64 ==> {
        let w = (id * 256 + 0x0c) as u64;
        &&& w & 0xff == 0x0c
        &&& w != 0
        &&& w / 256 == id
        &&& w == (id << 8) | 0x0c
    }) by (bit_vector);
}

/// The name of the heap symbol object `w` names, if it is one.
pub open spec fn heap_sym_name(rt: Runtime, w: u64) -> Seq<char> {
    match rt.object_at(w).data {
        HeapData::Symbol { name } => name@,
        _ => Seq::empty(),
    }
}

/// The interned id of a symbol name: an index into the runtime's symbol
/// table. Ids are stable and unique per name for the life of the
/// runtime.
#[derive(Clone, Copy, PartialEq, Eq, Structural, Debug)]
pub struct Id(pub u64);

impl Id {
    /// The raw id.
    pub fn as_rb_id(self) -> (r: u64)
        ensures
            r == self.0,
    {
        self.0
    }

    /// The name this id was interned under.
    pub fn name(self, rt: &Runtime) -> (r: Result<String, Error>)
        requires
            rt.wf(),
            (self.0 as int) < rt.symbols.len(),
        ensures
            r == Ok::<String, Error>(rt.symbols[self.0 as int]),
    {
        Ok(rt.symbols[self.0 as usize].clone())
    }
}

/// A handle known to be a symbol that will never be collected: either a
/// true static symbol (immediate word) or a heap symbol object whose
/// name is permanently interned.
#[derive(Clone, Copy, PartialEq, Eq, Structural, Debug)]
pub struct StaticSymbol(pub NonZeroValue);

impl StaticSymbol {
    /// Either the word itself is a static symbol, or it names a live
    /// heap symbol object whose name is interned.
    pub open spec fn wf_in(self, rt: Runtime) -> bool {
        if is_static_sym_word(self.0.word) {
            0 <= sym_id_of_word(self.0.word) < rt.symbols.len()
        } else {
            &&& is_heap_word(self.0.word)
            &&& rt.has_object(self.0.word)
            &&& rt.object_at(self.0.word).data is Symbol
            &&& rt.has_symbol_name(self.spec_name(rt))
        }
    }

    /// The symbol's name.
    pub open spec fn spec_name(self, rt: Runtime) -> Seq<char> {
        if is_static_sym_word(self.0.word) {
            rt.symbols[sym_id_of_word(self.0.word)]@
        } else {
            match rt.object_at(self.0.word).data {
                HeapData::Symbol { name } => name@,
                _ => Seq::empty(),
            }
        }
    }

    /// Interns `name` (if it was not already interned) and returns its
    /// static symbol. Interning the same name again gives the same
    /// symbol word.
    pub fn new(rt: &mut Runtime, name: String) -> (r: Self)
        requires
            old(rt).wf(),
            old(rt).symbols.len() < SYMBOL_CAPACITY,
        ensures
            final(rt).wf(),
            r.wf_in(*final(rt)),
            is_static_sym_word(r.0.word),
            r.spec_name(*final(rt)) == name@,
            r.0.word == static_sym_word_of(sym_id_of_word(r.0.word)),
            forall|j: int|
                0 <= j < old(rt).symbols.len() && (#[trigger] old(rt).symbols[j])@ == name@
                    ==> sym_id_of_word(r.0.word) == j,
            old(rt).has_symbol_name(name@) ==> final(rt).symbols == old(rt).symbols,
            final(rt).classes == old(rt).classes,
            final(rt).heap == old(rt).heap,
            final(rt).permanent_roots == old(rt).permanent_roots,
            final(rt).boxed_roots == old(rt).boxed_roots,
    {
        let id = rt.intern(name);
        proof {
            lemma_static_sym_round_trip(id);
        }
        let w = (id << SYMBOL_SHIFT) | SYMBOL_FLAG;
        StaticSymbol(NonZeroValue::new(Value::new(w)))
    }

    /// Narrowing, deliberately wider than the bit test: a static symbol
    /// word always narrows; a heap symbol object narrows exactly when
    /// its name is permanently interned (a runtime lookup, not a bit
    /// inspection); anything else does not.
    pub fn from_value(rt: &Runtime, val: Value) -> (r: Option<Self>)
        requires
            rt.wf(),
            rt.valid_value(val),
        ensures
            is_static_sym_word(val.word) && 0 <= sym_id_of_word(val.word) < rt.symbols.len()
                ==> (r matches Some(s) && s.0.word == val.word && s.wf_in(*rt)),
            is_static_sym_word(val.word) && !(0 <= sym_id_of_word(val.word) < rt.symbols.len())
                ==> (r matches Some(s) && s.0.word == val.word),
            (!is_static_sym_word(val.word) && is_heap_word(val.word) && rt.object_at(
                val.word).data is Symbol) ==> (if rt.has_symbol_name(heap_sym_name(*rt, val.word)) {
                r matches Some(s) && s.0.word == val.word && s.wf_in(*rt)
            } else {
                r is None
            }),
            !is_static_sym_word(val.word) && !(is_heap_word(val.word) && rt.object_at(
                val.word).data is Symbol) ==> r is None,
    {
        if val.is_static_symbol() {
            proof {
                crate::word::lemma_nonzero_but_false(val.word);
            }
            Some(StaticSymbol(NonZeroValue::new(val)))
        } else if !val.is_immediate() {
            match &rt.object(val).data {
                HeapData::Symbol { name } => {
                    match rt.lookup_symbol(name) {
                        Some(_) => {
                            proof {
                                crate::word::lemma_nonzero_but_false(val.word);
                            }
                            Some(StaticSymbol(NonZeroValue::new(val)))
                        },
                        None => None,
                    }
                },
                _ => None,
            }
        } else {
            None
        }
    }

    /// Widening back to a generic handle; infallible.
    pub fn as_value(self) -> (r: Value)
        ensures
            r.word == self.0.word,
    {
        self.0.get()
    }

    /// The interned id behind this symbol.
    pub fn to_id(self, rt: &Runtime) -> (r: Id)
        requires
            rt.wf(),
            self.wf_in(*rt),
        ensures
            (r.0 as int) < rt.symbols.len(),
            rt.symbols[r.0 as int]@ == self.spec_name(*rt),
            is_static_sym_word(self.0.word) ==> r.0 as int == sym_id_of_word(self.0.word),
    {
        if self.0.get().is_static_symbol() {
            Id(self.0.get().as_rb_value() / 256)
        } else {
            match &rt.object(self.0.get()).data {
                HeapData::Symbol { name } => {
                    match rt.lookup_symbol(name) {
                        Some(id) => Id(id),
                        None => vstd::pervasive::unreached(),
                    }
                },
                _ => vstd::pervasive::unreached(),
            }
        }
    }

    /// The symbol's name. In the foreign runtime this can fail when the
    /// name is not valid host text; the modelled names are host strings,
    /// so here it always succeeds, keeping the fallible shape.
    pub fn name(self, rt: &Runtime) -> (r: Result<String, Error>)
        requires
            rt.wf(),
            self.wf_in(*rt),
        ensures
            r matches Ok(s) && s@ == self.spec_name(*rt),
    {
        let id = self.to_id(rt);
        id.name(rt)
    }
}

} // verus!
