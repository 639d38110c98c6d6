//! An explicit model of the foreign runtime's observable state.
//!
//! The real runtime keeps this state on its own garbage-collected heap and
//! in interpreter globals; the host reaches it only through the native
//! call interface. Here the same state is data: a heap of objects (each
//! with a class, a frozen flag and kind-specific contents), the table of
//! interned symbol names, per-class method tables, and the root
//! registrations that keep heap objects alive across collections.
//!
//! Operations that the host performs through the native interface become
//! verified functions on this state. A heap handle is *valid* while its
//! slot is occupied; [`Runtime::collect`] clears every slot that no root
//! reaches, which is the model's rendering of the central lifetime hazard:
//! an unanchored heap handle does not survive a collection.

use vstd::prelude::*;
use vstd::string::StringExecFns;

use crate::error::Exception;
use crate::value::Value;
use crate::word::is_heap_word;

verus! {

/// Class table indices of the classes every runtime starts with.
pub const FALSE_CLASS: usize = 0;
pub const NIL_CLASS: usize = 1;
pub const TRUE_CLASS: usize = 2;
pub const INTEGER_CLASS: usize = 3;
pub const SYMBOL_CLASS: usize = 4;
pub const FLOAT_CLASS: usize = 5;
pub const STRING_CLASS: usize = 6;
pub const OBJECT_CLASS: usize = 7;
pub const BUILTIN_CLASS_COUNT: usize = 8;

/// Caps that keep tagged words constructible without overflow. The heap
/// cap bounds `(index + 2) * 8`; the symbol cap bounds `id << 8`.
pub const HEAP_CAPACITY: usize = 0x1000_0000;
pub const SYMBOL_CAPACITY: usize = 0x1000_0000;

/// The kind-specific contents of a heap object, as far as this core reads
/// them: a big integer's value, a string's text, a dynamic symbol's name,
/// or nothing for a plain object.
#[derive(Debug)]
pub enum HeapData {
    Bignum { value: i128 },
    Str { contents: String },
    Symbol { name: String },
    Object,
}

/// One collector-managed object: its class, the frozen bit of its header,
/// and its contents.
#[derive(Debug)]
pub struct HeapObject {
    pub class: usize,
    pub frozen: bool,
    pub data: HeapData,
}

/// What a defined operation does when invoked: return a value normally,
/// leave by the runtime's non-local exit carrying an exception, or
/// yield the given values to the caller's block once and return what
/// the block hands back. Invoking a yielding operation without a block
/// is the runtime's "no block given" error.
#[derive(Debug)]
pub enum MethodBehavior {
    Returns(Value),
    Raises(Exception),
    Yields { args: Vec<Value> },
}

/// One entry of a class's method table.
#[derive(Debug)]
pub struct MethodDef {
    pub name: String,
    pub private: bool,
    pub behavior: MethodBehavior,
}

/// One class: its name and its method table. Method names within one
/// class are unique; redefinition replaces.
#[derive(Debug)]
pub struct ClassDef {
    pub name: String,
    pub methods: Vec<MethodDef>,
}

/// The modelled runtime state.
#[derive(Debug)]
pub struct Runtime {
    pub classes: Vec<ClassDef>,
    pub heap: Vec<Option<HeapObject>>,
    pub symbols: Vec<String>,
    /// Words registered to never be collected.
    pub permanent_roots: Vec<u64>,
    /// Registration slots of scoped anchors; a released slot is `None`.
    pub boxed_roots: Vec<Option<u64>>,
}

/// The heap slot a heap-tagged word names. Heap words are the multiples
/// of eight other than the `false` and `nil` words, so slot `i` is word
/// `(i + 2) * 8`.
pub open spec fn heap_index_of_word(w: u64) -> int {
    w as int / 8 - 2
}

pub open spec fn word_of_heap_index(i: int) -> int {
    (i + 2) * 8
}

/// Exec construction of the word for a heap slot.
pub fn heap_word_for_index(i: usize) -> (w: u64)
    requires
        i < HEAP_CAPACITY,
    ensures
        w == word_of_heap_index(i as int),
        is_heap_word(w),
        heap_index_of_word(w) == i as int,
{
    let n: u64 = i as u64;
    let w: u64 = (n + 2) * 8;
    proof {
        assert(w & 0x07 == 0 && w & !0x08u64 != 0 && w / 8 == n + 2) by (bit_vector)
            requires
                n < 0x1000_0000 && w == (n + 2) * 8,
        ;
        assert(is_heap_word(w));
        assert(w as int / 8 - 2 == i as int);
    }
    w
}

/// Exec recovery of the heap slot from a heap word.
pub fn heap_index_for_word(w: u64) -> (i: usize)
    requires
        is_heap_word(w),
        0 <= heap_index_of_word(w) < HEAP_CAPACITY,
    ensures
        i as int == heap_index_of_word(w),
{
    proof {
        assert((w & 0x07 == 0 && w & !0x08u64 != 0) ==> w / 8 >= 2) by (bit_vector);
    }
    (w / 8 - 2) as usize
}

impl Runtime {
    /// A heap-tagged word names an object that is still on the heap.
    pub open spec fn has_object(self, w: u64) -> bool {
        &&& is_heap_word(w)
        &&& 0 <= heap_index_of_word(w) < self.heap.len()
        &&& self.heap[heap_index_of_word(w)] is Some
    }

    pub open spec fn object_at(self, w: u64) -> HeapObject {
        self.heap[heap_index_of_word(w)]->Some_0
    }

    /// A handle may be used with this runtime: its word decodes to some
    /// kind, and if it is heap-tagged its object has not been collected.
    pub open spec fn valid_value(self, v: Value) -> bool {
        &&& v.wf()
        &&& (is_heap_word(v.word) ==> self.has_object(v.word))
    }

    pub open spec fn class_name_is(self, c: int, s: Seq<char>) -> bool {
        self.classes[c].name@ == s
    }

    /// Well-formedness: the builtin classes are in place under their
    /// names, every object's class is a real class, every method table
    /// has unique names and hands out only live values, interned symbol
    /// names are unique, and the capacity bounds hold.
    pub open spec fn wf(self) -> bool {
        &&& self.classes.len() >= BUILTIN_CLASS_COUNT
        &&& self.class_name_is(FALSE_CLASS as int, "FalseClass"@)
        &&& self.class_name_is(NIL_CLASS as int, "NilClass"@)
        &&& self.class_name_is(TRUE_CLASS as int, "TrueClass"@)
        &&& self.class_name_is(INTEGER_CLASS as int, "Integer"@)
        &&& self.class_name_is(SYMBOL_CLASS as int, "Symbol"@)
        &&& self.class_name_is(FLOAT_CLASS as int, "Float"@)
        &&& self.class_name_is(STRING_CLASS as int, "String"@)
        &&& self.class_name_is(OBJECT_CLASS as int, "Object"@)
        &&& self.heap.len() <= HEAP_CAPACITY
        &&& self.symbols.len() <= SYMBOL_CAPACITY
        &&& forall|i: int|
            0 <= i < self.heap.len() && self.heap[i] is Some
                ==> (#[trigger] self.heap[i])->Some_0.class < self.classes.len()
        &&& forall|i: int, j: int|
            0 <= i < j < self.symbols.len()
                ==> (#[trigger] self.symbols[i])@ != (#[trigger] self.symbols[j])@
        &&& forall|c: int, m1: int, m2: int|
            #![trigger self.classes[c].methods[m1], self.classes[c].methods[m2]]
            0 <= c < self.classes.len() && 0 <= m1 < m2 < self.classes[c].methods.len()
                ==> self.classes[c].methods[m1].name@ != self.classes[c].methods[m2].name@
        &&& forall|c: int, m: int|
            #![trigger self.classes[c].methods[m]]
            0 <= c < self.classes.len() && 0 <= m < self.classes[c].methods.len()
                ==> self.behavior_ok(self.classes[c].methods[m].behavior)
    }

    /// Every value a behavior can hand out stays dereferenceable.
    pub open spec fn behavior_ok(self, b: MethodBehavior) -> bool {
        match b {
            MethodBehavior::Returns(v) => self.behavior_value_ok(v),
            MethodBehavior::Raises(_) => true,
            MethodBehavior::Yields { args } => forall|k: int|
                0 <= k < args.len() ==> self.behavior_value_ok(#[trigger] args[k]),
        }
    }

    /// What a behavior handed to [`Runtime::define_method`] must
    /// satisfy: every value it can hand out is live and is not the
    /// undefined sentinel.
    pub open spec fn behavior_admissible(self, b: MethodBehavior) -> bool {
        match b {
            MethodBehavior::Returns(v) => self.valid_value(v) && !crate::word::is_undef_word(
                v.word),
            MethodBehavior::Raises(_) => true,
            MethodBehavior::Yields { args } => forall|k: int|
                0 <= k < args.len() ==> self.valid_value(#[trigger] args[k])
                    && !crate::word::is_undef_word(args[k].word),
        }
    }

    /// A value stored in a method table stays dereferenceable, and is
    /// never the undefined sentinel, which the runtime keeps to itself.
    pub open spec fn behavior_value_ok(self, v: Value) -> bool {
        &&& v.wf()
        &&& !crate::word::is_undef_word(v.word)
        &&& (is_heap_word(v.word) ==> (0 <= heap_index_of_word(v.word) < self.heap.len()
            && self.heap[heap_index_of_word(v.word)] is Some))
    }

    /// A fresh runtime: the builtin classes, an empty heap, no interned
    /// symbols, no roots.
    pub fn new() -> (r: Self)
        ensures
            r.wf(),
            r.classes.len() == BUILTIN_CLASS_COUNT,
            r.heap@ =~= Seq::<Option<HeapObject>>::empty(),
            r.symbols@ =~= Seq::<String>::empty(),
            r.permanent_roots@ =~= Seq::<u64>::empty(),
            r.boxed_roots@ =~= Seq::<Option<u64>>::empty(),
    {
        let mut classes: Vec<ClassDef> = Vec::new();
        classes.push(ClassDef { name: String::from_str("FalseClass"), methods: Vec::new() });
        classes.push(ClassDef { name: String::from_str("NilClass"), methods: Vec::new() });
        classes.push(ClassDef { name: String::from_str("TrueClass"), methods: Vec::new() });
        classes.push(ClassDef { name: String::from_str("Integer"), methods: Vec::new() });
        classes.push(ClassDef { name: String::from_str("Symbol"), methods: Vec::new() });
        classes.push(ClassDef { name: String::from_str("Float"), methods: Vec::new() });
        classes.push(ClassDef { name: String::from_str("String"), methods: Vec::new() });
        classes.push(ClassDef { name: String::from_str("Object"), methods: Vec::new() });
        Runtime {
            classes,
            heap: Vec::new(),
            symbols: Vec::new(),
            permanent_roots: Vec::new(),
            boxed_roots: Vec::new(),
        }
    }

    /// Registers a new class under `name` and returns its class index.
    pub fn define_class(&mut self, name: String) -> (id: usize)
        requires
            old(self).wf(),
        ensures
            final(self).wf(),
            id == old(self).classes.len(),
            final(self).classes.len() == old(self).classes.len() + 1,
            final(self).classes[id as int].name == name,
            final(self).classes[id as int].methods@ =~= Seq::<MethodDef>::empty(),
            forall|c: int|
                0 <= c < old(self).classes.len()
                    ==> final(self).classes[c] == old(self).classes[c],
            final(self).heap == old(self).heap,
            final(self).symbols == old(self).symbols,
            final(self).permanent_roots == old(self).permanent_roots,
            final(self).boxed_roots == old(self).boxed_roots,
    {
        let id = self.classes.len();
        self.classes.push(ClassDef { name, methods: Vec::new() });
        id
    }

    /// The position of `name` in a method table, if defined.
    pub fn find_method_index(methods: &Vec<MethodDef>, name: &String) -> (r: Option<usize>)
        ensures
            match r {
                Some(k) => k < methods.len() && methods[k as int].name@ == name@,
                None => forall|m: int|
                    0 <= m < methods.len() ==> (#[trigger] methods[m]).name@ != name@,
            },
    {
        let mut i: usize = 0;
        while i < methods.len()
            invariant
                i <= methods.len(),
                forall|m: int| 0 <= m < i ==> (#[trigger] methods[m]).name@ != name@,
            decreases methods.len() - i,
        {
            if methods[i].name == *name {
                return Some(i);
            }
            i = i + 1;
        }
        None
    }

    /// The named class defines the named operation.
    pub open spec fn has_method(self, c: int, name: Seq<char>) -> bool {
        exists|m: int|
            0 <= m < self.classes[c].methods.len()
                && (#[trigger] self.classes[c].methods[m]).name@ == name
    }

    /// The position of a defined operation in its class's table; well
    /// defined because method names are unique within a class.
    pub open spec fn method_index_of(self, c: int, name: Seq<char>) -> int {
        choose|m: int|
            0 <= m < self.classes[c].methods.len()
                && (#[trigger] self.classes[c].methods[m]).name@ == name
    }

    /// The table entry for a defined operation.
    pub open spec fn method_at(self, c: int, name: Seq<char>) -> MethodDef {
        self.classes[c].methods[self.method_index_of(c, name)]
    }

    /// With unique names, any matching index is the resolved one.
    pub proof fn lemma_method_resolution(self, c: int, name: Seq<char>, m: int)
        requires
            self.wf(),
            0 <= c < self.classes.len(),
            0 <= m < self.classes[c].methods.len(),
            self.classes[c].methods[m].name@ == name,
        ensures
            self.has_method(c, name),
            self.method_index_of(c, name) == m,
            self.method_at(c, name) == self.classes[c].methods[m],
    {
        assert(self.has_method(c, name));
        let m2 = self.method_index_of(c, name);
        assert(0 <= m2 < self.classes[c].methods.len()
            && self.classes[c].methods[m2].name@ == name);
        if m != m2 {
            assert(self.classes[c].methods[m].name@ != self.classes[c].methods[m2].name@);
        }
    }

    /// One method table changed at or past its end; everything the
    /// well-formedness predicate watches is preserved, and the new entry
    /// resolves under its name.
    proof fn lemma_define_method_shape(post: Self, pre: Self, class: usize, def: MethodDef, k: int)
        requires
            pre.wf(),
            class < pre.classes.len(),
            pre.behavior_admissible(def.behavior),
            post.heap == pre.heap,
            post.symbols == pre.symbols,
            post.classes.len() == pre.classes.len(),
            forall|c2: int|
                0 <= c2 < pre.classes.len() && c2 != class
                    ==> post.classes[c2] == pre.classes[c2],
            post.classes[class as int].name == pre.classes[class as int].name,
            0 <= k <= pre.classes[class as int].methods.len(),
            k < pre.classes[class as int].methods.len()
                ==> pre.classes[class as int].methods[k].name@ == def.name@
                    && post.classes[class as int].methods@ == pre.classes[
                class as int].methods@.update(k, def),
            k == pre.classes[class as int].methods.len()
                ==> post.classes[class as int].methods@ == pre.classes[
                class as int].methods@.push(def) && (forall|m: int|
                0 <= m < k ==> (#[trigger] pre.classes[class as int].methods[m]).name@
                    != def.name@),
        ensures
            post.wf(),
            post.has_method(class as int, def.name@),
            post.method_index_of(class as int, def.name@) == k,
            post.method_at(class as int, def.name@) == def,
    {
        let c = class as int;
        let oldm = pre.classes[c].methods@;
        let newm = post.classes[c].methods@;
        assert(newm[k] == def);
        assert forall|m1: int, m2: int| 0 <= m1 < m2 < newm.len() implies (
            #[trigger] newm[m1]).name@ != (#[trigger] newm[m2]).name@ by {
            if k < oldm.len() {
                assert(newm[m1].name@ == oldm[m1].name@);
                assert(newm[m2].name@ == oldm[m2].name@);
                assert(oldm[m1].name@ != oldm[m2].name@);
            } else {
                if m2 < k {
                    assert(oldm[m1].name@ != oldm[m2].name@);
                } else {
                    assert(m2 == k);
                    assert(oldm[m1].name@ != def.name@);
                }
            }
        }
        assert forall|c2: int, m1: int, m2: int|
            0 <= c2 < post.classes.len() && 0 <= m1 < m2 < post.classes[c2].methods.len() implies (
            #[trigger] post.classes[c2].methods[m1]).name@ != (
            #[trigger] post.classes[c2].methods[m2]).name@ by {
            if c2 != c {
                assert(post.classes[c2] == pre.classes[c2]);
                assert(pre.classes[c2].methods[m1].name@ != pre.classes[c2].methods[m2].name@);
            } else {
                assert(newm[m1].name@ != newm[m2].name@);
            }
        }
        assert forall|c2: int, m: int|
            0 <= c2 < post.classes.len() && 0 <= m < post.classes[c2].methods.len() implies
            post.behavior_ok((#[trigger] post.classes[c2].methods[m]).behavior) by {
            if c2 != c {
                assert(post.classes[c2] == pre.classes[c2]);
                assert(pre.behavior_ok(pre.classes[c2].methods[m].behavior));
                lemma_behavior_ok_same_heap(pre, post, pre.classes[c2].methods[m].behavior);
            } else {
                if m == k {
                    assert(newm[m] == def);
                    lemma_behavior_admissible_ok(pre, post, def.behavior);
                } else {
                    assert(newm[m] == oldm[m]);
                    assert(pre.behavior_ok(oldm[m].behavior));
                    lemma_behavior_ok_same_heap(pre, post, oldm[m].behavior);
                }
            }
        }
        assert(post.wf());
        assert(post.has_method(c, def.name@));
        post.lemma_method_resolution(c, def.name@, k);
    }

    /// Defines (or redefines) an operation on a class. A value returned
    /// by the operation must be live, and stays rooted from the table.
    pub fn define_method(&mut self, class: usize, name: String, private: bool,
        behavior: MethodBehavior) -> (replaced: bool)
        requires
            old(self).wf(),
            class < old(self).classes.len(),
            old(self).behavior_admissible(behavior),
        ensures
            final(self).wf(),
            final(self).has_method(class as int, name@),
            final(self).method_at(class as int, name@).name@ == name@,
            final(self).method_at(class as int, name@).private == private,
            final(self).method_at(class as int, name@).behavior == behavior,
            replaced == old(self).has_method(class as int, name@),
            forall|c: int|
                0 <= c < old(self).classes.len() && c != class
                    ==> final(self).classes[c] == old(self).classes[c],
            final(self).classes.len() == old(self).classes.len(),
            final(self).classes[class as int].name == old(self).classes[class as int].name,
            replaced ==> final(self).classes[class as int].methods@ == old(
                self).classes[class as int].methods@.update(old(self).method_index_of(
                class as int, name@), (MethodDef { name, private, behavior })),
            !replaced ==> final(self).classes[class as int].methods@ == old(
                self).classes[class as int].methods@.push(
                (MethodDef { name, private, behavior })),
            final(self).heap == old(self).heap,
            final(self).symbols == old(self).symbols,
            final(self).permanent_roots == old(self).permanent_roots,
            final(self).boxed_roots == old(self).boxed_roots,
    {
        let def = MethodDef { name, private, behavior };
        let ghost gdef = def;
        let ghost c = class as int;
        let ghost oldm = self.classes[c].methods@;
        let cd = &mut self.classes[class];
        let found = Self::find_method_index(&cd.methods, &def.name);
        match found {
            Some(k) => {
                cd.methods[k] = def;
                proof {
                    old(self).lemma_method_resolution(c, gdef.name@, k as int);
                    let newm = self.classes[c].methods@;
                    assert(newm =~= oldm.update(k as int, gdef));
                    Self::lemma_define_method_shape(*self, *old(self), class, gdef, k as int);
                }
                true
            },
            None => {
                cd.methods.push(def);
                proof {
                    let newm = self.classes[c].methods@;
                    assert(newm =~= oldm.push(gdef));
                    assert(forall|m: int|
                        0 <= m < oldm.len() ==> (#[trigger] oldm[m]).name@ != gdef.name@);
                    Self::lemma_define_method_shape(*self, *old(self), class, gdef,
                        oldm.len() as int);
                }
                false
            },
        }
    }

    /// Allocates a heap object and returns a fresh handle to it. Models
    /// the runtime's allocator: the new word names the next heap slot and
    /// named nothing before; every handle valid before stays valid.
    pub fn allocate(&mut self, obj: HeapObject) -> (v: Value)
        requires
            old(self).wf(),
            old(self).heap.len() < HEAP_CAPACITY,
            obj.class < old(self).classes.len(),
        ensures
            final(self).wf(),
            v.wf(),
            is_heap_word(v.word),
            heap_index_of_word(v.word) == old(self).heap.len(),
            !old(self).has_object(v.word),
            final(self).valid_value(v),
            final(self).object_at(v.word) == obj,
            final(self).heap@ == old(self).heap@.push(Some(obj)),
            forall|w: u64|
                old(self).has_object(w) ==> final(self).has_object(w) && final(self).object_at(w)
                    == old(self).object_at(w),
            forall|v2: Value| old(self).valid_value(v2) ==> final(self).valid_value(v2),
            final(self).classes == old(self).classes,
            final(self).symbols == old(self).symbols,
            final(self).permanent_roots == old(self).permanent_roots,
            final(self).boxed_roots == old(self).boxed_roots,
    {
        let i = self.heap.len();
        let w = heap_word_for_index(i);
        self.heap.push(Some(obj));
        proof {
            crate::word::lemma_word_kinds_partition(w);
            assert forall|c2: int, m: int|
                0 <= c2 < self.classes.len() && 0 <= m < self.classes[c2].methods.len() implies
                self.behavior_ok((#[trigger] self.classes[c2].methods[m]).behavior) by {
                assert(old(self).behavior_ok(old(self).classes[c2].methods[m].behavior));
                lemma_behavior_values_preserved(*old(self), *self,
                    old(self).classes[c2].methods[m].behavior);
            }
            assert(self.wf());
        }
        Value { word: w }
    }

    /// Convenience allocators for each object kind this core reads.
    pub fn alloc_object(&mut self, class: usize) -> (v: Value)
        requires
            old(self).wf(),
            old(self).heap.len() < HEAP_CAPACITY,
            class < old(self).classes.len(),
        ensures
            final(self).wf(),
            final(self).valid_value(v),
            is_heap_word(v.word),
            !old(self).has_object(v.word),
            final(self).object_at(v.word) == (HeapObject {
                class,
                frozen: false,
                data: HeapData::Object,
            }),
            final(self).heap@ == old(self).heap@.push(
                Some(HeapObject { class, frozen: false, data: HeapData::Object })),
            forall|v2: Value| old(self).valid_value(v2) ==> final(self).valid_value(v2),
            forall|w: u64|
                old(self).has_object(w) ==> final(self).has_object(w) && final(self).object_at(w)
                    == old(self).object_at(w),
            final(self).classes == old(self).classes,
            final(self).symbols == old(self).symbols,
            final(self).permanent_roots == old(self).permanent_roots,
            final(self).boxed_roots == old(self).boxed_roots,
    {
        self.allocate(HeapObject { class, frozen: false, data: HeapData::Object })
    }

    /// A heap string object holding `contents`, of the builtin string
    /// class.
    pub fn alloc_string(&mut self, contents: String) -> (v: Value)
        requires
            old(self).wf(),
            old(self).heap.len() < HEAP_CAPACITY,
        ensures
            final(self).wf(),
            final(self).valid_value(v),
            is_heap_word(v.word),
            !old(self).has_object(v.word),
            final(self).object_at(v.word) == (HeapObject {
                class: STRING_CLASS,
                frozen: false,
                data: HeapData::Str { contents },
            }),
            final(self).heap@ == old(self).heap@.push(
                Some((HeapObject { class: STRING_CLASS, frozen: false, data: HeapData::Str { contents } }))),
            forall|v2: Value| old(self).valid_value(v2) ==> final(self).valid_value(v2),
            forall|w: u64|
                old(self).has_object(w) ==> final(self).has_object(w) && final(self).object_at(w)
                    == old(self).object_at(w),
            final(self).classes == old(self).classes,
            final(self).symbols == old(self).symbols,
            final(self).permanent_roots == old(self).permanent_roots,
            final(self).boxed_roots == old(self).boxed_roots,
    {
        self.allocate(HeapObject { class: STRING_CLASS, frozen: false, data: HeapData::Str { contents } })
    }

    /// A heap big-integer object. The runtime marks its integers frozen.
    pub fn alloc_bignum(&mut self, value: i128) -> (v: Value)
        requires
            old(self).wf(),
            old(self).heap.len() < HEAP_CAPACITY,
        ensures
            final(self).wf(),
            final(self).valid_value(v),
            is_heap_word(v.word),
            !old(self).has_object(v.word),
            final(self).object_at(v.word) == (HeapObject {
                class: INTEGER_CLASS,
                frozen: true,
                data: HeapData::Bignum { value },
            }),
            final(self).heap@ == old(self).heap@.push(
                Some((HeapObject { class: INTEGER_CLASS, frozen: true, data: HeapData::Bignum { value } }))),
            forall|v2: Value| old(self).valid_value(v2) ==> final(self).valid_value(v2),
            forall|w: u64|
                old(self).has_object(w) ==> final(self).has_object(w) && final(self).object_at(w)
                    == old(self).object_at(w),
            final(self).classes == old(self).classes,
            final(self).symbols == old(self).symbols,
            final(self).permanent_roots == old(self).permanent_roots,
            final(self).boxed_roots == old(self).boxed_roots,
    {
        self.allocate(HeapObject { class: INTEGER_CLASS, frozen: true, data: HeapData::Bignum { value } })
    }

    /// A dynamic (heap-allocated) symbol object. The runtime marks its
    /// symbols frozen.
    pub fn alloc_symbol(&mut self, name: String) -> (v: Value)
        requires
            old(self).wf(),
            old(self).heap.len() < HEAP_CAPACITY,
        ensures
            final(self).wf(),
            final(self).valid_value(v),
            is_heap_word(v.word),
            !old(self).has_object(v.word),
            final(self).object_at(v.word) == (HeapObject {
                class: SYMBOL_CLASS,
                frozen: true,
                data: HeapData::Symbol { name },
            }),
            final(self).heap@ == old(self).heap@.push(
                Some((HeapObject { class: SYMBOL_CLASS, frozen: true, data: HeapData::Symbol { name } }))),
            forall|v2: Value| old(self).valid_value(v2) ==> final(self).valid_value(v2),
            forall|w: u64|
                old(self).has_object(w) ==> final(self).has_object(w) && final(self).object_at(w)
                    == old(self).object_at(w),
            final(self).classes == old(self).classes,
            final(self).symbols == old(self).symbols,
            final(self).permanent_roots == old(self).permanent_roots,
            final(self).boxed_roots == old(self).boxed_roots,
    {
        self.allocate(HeapObject { class: SYMBOL_CLASS, frozen: true, data: HeapData::Symbol { name } })
    }

    /// Reads the header and contents of the object a heap handle names.
    /// The precondition is the crate's central lifetime rule: the object
    /// must not have been collected.
    pub fn object(&self, v: Value) -> (o: &HeapObject)
        requires
            self.wf(),
            self.has_object(v.word),
        ensures
            *o == self.object_at(v.word),
    {
        let i = heap_index_for_word(v.word);
        match &self.heap[i] {
            Some(o) => o,
            None => vstd::pervasive::unreached(),
        }
    }

    /// Sets the frozen bit in a heap object's header, leaving everything
    /// else as it was.
    pub fn freeze_object(&mut self, v: Value)
        requires
            old(self).wf(),
            old(self).has_object(v.word),
        ensures
            final(self).wf(),
            final(self).has_object(v.word),
            final(self).object_at(v.word).frozen,
            final(self).object_at(v.word).class == old(self).object_at(v.word).class,
            final(self).object_at(v.word).data == old(self).object_at(v.word).data,
            final(self).heap.len() == old(self).heap.len(),
            final(self).heap@ == old(self).heap@.update(heap_index_of_word(v.word),
                Some((HeapObject {
                    class: old(self).object_at(v.word).class,
                    frozen: true,
                    data: old(self).object_at(v.word).data,
                }))),
            forall|w: u64|
                w != v.word && old(self).has_object(w) ==> final(self).has_object(w) && final(
                    self).object_at(w) == old(self).object_at(w),
            forall|v2: Value| old(self).valid_value(v2) ==> final(self).valid_value(v2),
            final(self).classes == old(self).classes,
            final(self).symbols == old(self).symbols,
            final(self).permanent_roots == old(self).permanent_roots,
            final(self).boxed_roots == old(self).boxed_roots,
    {
        let i = heap_index_for_word(v.word);
        match &mut self.heap[i] {
            Some(o) => {
                o.frozen = true;
            },
            None => {
                proof {
                    assert(false);
                }
            },
        }
        proof {
            assert forall|w: u64|
                w != v.word && old(self).has_object(w) implies final(self).has_object(w) && final(
                self).object_at(w) == old(self).object_at(w) by {
                assert(heap_index_of_word(w) != i as int) by {
                    if heap_index_of_word(w) == i as int {
                        lemma_heap_word_injective(w, v.word);
                    }
                };
            }
            assert forall|c2: int, m: int|
                0 <= c2 < self.classes.len() && 0 <= m < self.classes[c2].methods.len() implies
                self.behavior_ok((#[trigger] self.classes[c2].methods[m]).behavior) by {
                assert(old(self).behavior_ok(old(self).classes[c2].methods[m].behavior));
                lemma_behavior_values_preserved(*old(self), *self,
                    old(self).classes[c2].methods[m].behavior);
            }
            assert(self.wf());
        }
    }

    /// Interns a symbol name: the id of an already-interned name, or a
    /// fresh id for a new one. Equal names always give equal ids.
    pub fn intern(&mut self, name: String) -> (id: u64)
        requires
            old(self).wf(),
            old(self).symbols.len() < SYMBOL_CAPACITY,
        ensures
            final(self).wf(),
            id < SYMBOL_CAPACITY as u64,
            (id as int) < final(self).symbols.len(),
            final(self).symbols[id as int]@ == name@,
            forall|j: int|
                0 <= j < old(self).symbols.len() && (#[trigger] old(self).symbols[j])@ == name@
                    ==> id == j as u64,
            (exists|j: int|
                0 <= j < old(self).symbols.len() && (#[trigger] old(self).symbols[j])@ == name@)
                ==> final(self).symbols == old(self).symbols,
            !(exists|j: int|
                0 <= j < old(self).symbols.len() && (#[trigger] old(self).symbols[j])@
                    == name@) ==> (id == old(self).symbols.len() && final(self).symbols.len()
                == old(self).symbols.len() + 1 && (forall|j: int|
                0 <= j < old(self).symbols.len() ==> final(self).symbols[j] == old(
                    self).symbols[j])),
            final(self).classes == old(self).classes,
            final(self).heap == old(self).heap,
            final(self).permanent_roots == old(self).permanent_roots,
            final(self).boxed_roots == old(self).boxed_roots,
    {
        let n = self.symbols.len();
        let mut i: usize = 0;
        while i < n
            invariant
                *self == *old(self),
                self.wf(),
                n == self.symbols.len(),
                i <= n,
                forall|j: int| 0 <= j < i ==> (#[trigger] self.symbols[j])@ != name@,
            decreases n - i,
        {
            if self.symbols[i] == name {
                proof {
                    assert forall|j: int|
                        0 <= j < old(self).symbols.len() && (#[trigger] old(self).symbols[j])@
                            == name@ implies i as u64 == j as u64 by {
                        if j < i as int {
                            assert(self.symbols[j]@ != name@);
                        } else if j > i as int {
                            assert(self.symbols[i as int]@ != self.symbols[j]@);
                        }
                    }
                }
                return i as u64;
            }
            i = i + 1;
        }
        self.symbols.push(name);
        i as u64
    }

    /// Some interned symbol carries this name.
    pub open spec fn has_symbol_name(self, name: Seq<char>) -> bool {
        exists|j: int| 0 <= j < self.symbols.len() && (#[trigger] self.symbols[j])@ == name
    }

    /// The id of an interned name, without interning: the runtime's
    /// check for a permanently registered symbol.
    pub fn lookup_symbol(&self, name: &String) -> (r: Option<u64>)
        requires
            self.wf(),
        ensures
            match r {
                Some(id) => (id as int) < self.symbols.len() && self.symbols[id as int]@ == name@,
                None => !self.has_symbol_name(name@),
            },
            r is Some <==> self.has_symbol_name(name@),
    {
        let n = self.symbols.len();
        let mut i: usize = 0;
        while i < n
            invariant
                n == self.symbols.len(),
                i <= n,
                forall|j: int| 0 <= j < i ==> (#[trigger] self.symbols[j])@ != name@,
            decreases n - i,
        {
            if self.symbols[i] == *name {
                return Some(i as u64);
            }
            i = i + 1;
        }
        None
    }

    /// Whether a heap word still names an object: the executable view
    /// of handle liveness, for callers that must probe before they
    /// dereference.
    pub fn is_live(&self, v: Value) -> (r: bool)
        requires
            self.wf(),
        ensures
            r == self.has_object(v.word),
    {
        if v.is_immediate() {
            return false;
        }
        let w = v.as_rb_value();
        proof {
            assert((w & 0x07 == 0 && w & !0x08u64 != 0) ==> w / 8 >= 2) by (bit_vector);
        }
        let i = w / 8 - 2;
        if i >= self.heap.len() as u64 {
            return false;
        }
        let idx = i as usize;
        match &self.heap[idx] {
            Some(_) => true,
            None => false,
        }
    }

    /// A word the collector must keep: registered permanently, held in
    /// a live anchor slot, or held by some method table — as a return
    /// value or among a yield's values.
    pub open spec fn rooted(self, w: u64) -> bool {
        ||| self.permanent_roots@.contains(w)
        ||| exists|i: int|
            0 <= i < self.boxed_roots.len() && (#[trigger] self.boxed_roots[i]) == Some(w)
        ||| exists|c: int, m: int|
            #![trigger self.classes[c].methods[m]]
            0 <= c < self.classes.len() && 0 <= m < self.classes[c].methods.len()
                && behavior_roots(self.classes[c].methods[m].behavior, w)
    }

    /// Whether the collector can see a registration that keeps `w`.
    fn is_rooted(&self, w: u64) -> (r: bool)
        ensures
            r == self.rooted(w),
    {
        let mut i: usize = 0;
        let np = self.permanent_roots.len();
        while i < np
            invariant
                np == self.permanent_roots.len(),
                i <= np,
                forall|k: int| 0 <= k < i ==> self.permanent_roots[k] != w,
            decreases np - i,
        {
            if self.permanent_roots[i] == w {
                return true;
            }
            i = i + 1;
        }
        let nb = self.boxed_roots.len();
        let mut j: usize = 0;
        while j < nb
            invariant
                nb == self.boxed_roots.len(),
                j <= nb,
                forall|k: int| 0 <= k < j ==> (#[trigger] self.boxed_roots[k]) != Some(w),
            decreases nb - j,
        {
            match self.boxed_roots[j] {
                Some(bw) => {
                    if bw == w {
                        return true;
                    }
                },
                None => {},
            }
            j = j + 1;
        }
        let nc = self.classes.len();
        let mut c: usize = 0;
        while c < nc
            invariant
                nc == self.classes.len(),
                c <= nc,
                forall|k: int, m: int|
                    #![trigger self.classes[k].methods[m]]
                    0 <= k < c && 0 <= m < self.classes[k].methods.len()
                        ==> !behavior_roots(self.classes[k].methods[m].behavior, w),
                forall|k: int| 0 <= k < self.permanent_roots.len() ==> self.permanent_roots[k]
                    != w,
                forall|k: int|
                    0 <= k < self.boxed_roots.len() ==> (#[trigger] self.boxed_roots[k]) != Some(
                        w),
            decreases nc - c,
        {
            let nm = self.classes[c].methods.len();
            let mut m: usize = 0;
            while m < nm
                invariant
                    c < self.classes.len(),
                    nm == self.classes[c as int].methods.len(),
                    m <= nm,
                    forall|k: int|
                        0 <= k < m ==> !behavior_roots(
                            (#[trigger] self.classes[c as int].methods[k]).behavior, w),
                decreases nm - m,
            {
                match &self.classes[c].methods[m].behavior {
                    MethodBehavior::Returns(v) => {
                        if v.as_rb_value() == w {
                            return true;
                        }
                    },
                    MethodBehavior::Raises(_) => {},
                    MethodBehavior::Yields { args } => {
                        let na = args.len();
                        let mut a: usize = 0;
                        while a < na
                            invariant
                                c < self.classes.len(),
                                m < self.classes[c as int].methods.len(),
                                self.classes[c as int].methods[m as int].behavior matches
                                    MethodBehavior::Yields { args: gargs } && gargs == *args,
                                na == args.len(),
                                a <= na,
                                forall|k: int| 0 <= k < a ==> (#[trigger] args[k]).word != w,
                            decreases na - a,
                        {
                            if args[a].as_rb_value() == w {
                                return true;
                            }
                            a = a + 1;
                        }
                    },
                }
                m = m + 1;
            }
            c = c + 1;
        }
        false
    }

    /// Runs a collection: every heap object that no root reaches is
    /// freed, and every handle to it is dead from here on. Objects that
    /// a registration keeps — permanent roots, live anchor slots,
    /// method-table values — survive unchanged. This is the hazard the
    /// anchoring interfaces exist for: it may run inside any call into
    /// the runtime.
    pub fn collect(&mut self)
        requires
            old(self).wf(),
        ensures
            final(self).wf(),
            final(self).heap.len() == old(self).heap.len(),
            forall|w: u64|
                old(self).has_object(w) && old(self).rooted(w) ==> final(self).has_object(w)
                    && final(self).object_at(w) == old(self).object_at(w),
            forall|w: u64|
                old(self).has_object(w) && !old(self).rooted(w) ==> !final(self).has_object(w),
            forall|w: u64| !old(self).has_object(w) ==> !final(self).has_object(w),
            final(self).classes == old(self).classes,
            final(self).symbols == old(self).symbols,
            final(self).permanent_roots == old(self).permanent_roots,
            final(self).boxed_roots == old(self).boxed_roots,
    {
        let n = self.heap.len();
        let mut i: usize = 0;
        while i < n
            invariant
                n == old(self).heap.len(),
                self.heap.len() == n,
                i <= n,
                self.classes == old(self).classes,
                self.symbols == old(self).symbols,
                self.permanent_roots == old(self).permanent_roots,
                self.boxed_roots == old(self).boxed_roots,
                forall|k: int| i <= k < n ==> self.heap[k] == old(self).heap[k],
                forall|k: int|
                    0 <= k < i ==> (#[trigger] self.heap[k]) == (if old(self).heap[k] is Some
                        && old(self).rooted(word_of_heap_index(k) as u64) {
                        old(self).heap[k]
                    } else {
                        None
                    }),
                old(self).heap.len() <= HEAP_CAPACITY,
            decreases n - i,
        {
            let keep = match &self.heap[i] {
                Some(_) => {
                    let w = heap_word_for_index(i);
                    self.is_rooted(w)
                },
                None => true,
            };
            if !keep {
                self.heap[i] = None;
            }
            proof {
                assert(self.rooted(word_of_heap_index(i as int) as u64) == old(self).rooted(
                    word_of_heap_index(i as int) as u64));
            }
            i = i + 1;
        }
        proof {
            assert forall|w: u64|
                old(self).has_object(w) && old(self).rooted(w) implies final(self).has_object(w)
                && final(self).object_at(w) == old(self).object_at(w) by {
                let k = heap_index_of_word(w);
                lemma_word_index_inverse(w);
            }
            assert forall|w: u64|
                old(self).has_object(w) && !old(self).rooted(w) implies !final(self).has_object(
                w) by {
                let k = heap_index_of_word(w);
                lemma_word_index_inverse(w);
            }
            assert forall|c2: int, m: int|
                0 <= c2 < self.classes.len() && 0 <= m < self.classes[c2].methods.len() implies
                self.behavior_ok((#[trigger] self.classes[c2].methods[m]).behavior) by {
                let b = self.classes[c2].methods[m].behavior;
                assert(old(self).behavior_ok(b));
                match b {
                    MethodBehavior::Returns(v) => {
                        if is_heap_word(v.word) {
                            assert(old(self).rooted(v.word)) by {
                                assert(behavior_roots(b, v.word));
                            };
                            assert(old(self).has_object(v.word));
                        }
                    },
                    MethodBehavior::Raises(_) => {},
                    MethodBehavior::Yields { args } => {
                        assert forall|k: int| 0 <= k < args.len() implies self.behavior_value_ok(
                            #[trigger] args[k]) by {
                            let v = args[k];
                            assert(old(self).behavior_value_ok(v));
                            if is_heap_word(v.word) {
                                assert(old(self).rooted(v.word)) by {
                                    assert(behavior_roots(b, v.word));
                                };
                                assert(old(self).has_object(v.word));
                            }
                        }
                    },
                }
            }
            assert(self.wf());
        }
    }
}

/// The method-table values a behavior keeps reachable: its return
/// value, or each of its yielded values.
pub open spec fn behavior_roots(b: MethodBehavior, w: u64) -> bool {
    match b {
        MethodBehavior::Returns(v) => v.word == w,
        MethodBehavior::Raises(_) => false,
        MethodBehavior::Yields { args } => exists|k: int|
            0 <= k < args.len() && (#[trigger] args[k]).word == w,
    }
}

/// Behavior well-formedness transfers to any state with the same heap.
proof fn lemma_behavior_ok_same_heap(pre: Runtime, post: Runtime, b: MethodBehavior)
    requires
        pre.behavior_ok(b),
        post.heap == pre.heap,
    ensures
        post.behavior_ok(b),
{
    match b {
        MethodBehavior::Returns(v) => {
            assert(pre.behavior_value_ok(v));
        },
        MethodBehavior::Raises(_) => {},
        MethodBehavior::Yields { args } => {
            assert forall|k: int| 0 <= k < args.len() implies post.behavior_value_ok(
                #[trigger] args[k]) by {
                assert(pre.behavior_value_ok(args[k]));
            }
        },
    }
}

/// An admissible behavior is well formed in any state with the same
/// heap.
proof fn lemma_behavior_admissible_ok(pre: Runtime, post: Runtime, b: MethodBehavior)
    requires
        pre.behavior_admissible(b),
        post.heap == pre.heap,
    ensures
        post.behavior_ok(b),
{
    match b {
        MethodBehavior::Returns(v) => {
            assert(pre.valid_value(v));
        },
        MethodBehavior::Raises(_) => {},
        MethodBehavior::Yields { args } => {
            assert forall|k: int| 0 <= k < args.len() implies post.behavior_value_ok(
                #[trigger] args[k]) by {
                assert(pre.valid_value(args[k]));
            }
        },
    }
}

/// Behavior well-formedness survives any change that keeps each held
/// value dereferenceable.
proof fn lemma_behavior_values_preserved(pre: Runtime, post: Runtime, b: MethodBehavior)
    requires
        pre.behavior_ok(b),
        forall|v: Value| pre.behavior_value_ok(v) ==> post.behavior_value_ok(v),
    ensures
        post.behavior_ok(b),
{
    match b {
        MethodBehavior::Returns(v) => {
            assert(pre.behavior_value_ok(v));
        },
        MethodBehavior::Raises(_) => {},
        MethodBehavior::Yields { args } => {
            assert forall|k: int| 0 <= k < args.len() implies post.behavior_value_ok(
                #[trigger] args[k]) by {
                assert(pre.behavior_value_ok(args[k]));
            }
        },
    }
}

/// A heap word is recovered from its slot index.
pub proof fn lemma_word_index_inverse(w: u64)
    requires
        is_heap_word(w),
        heap_index_of_word(w) >= 0,
    ensures
        word_of_heap_index(heap_index_of_word(w)) == w,
{
    assert((w & 0x07 == 0 && w & !0x08u64 != 0) ==> (w / 8 >= 2 && (w / 8 - 2 + 2) * 8 == w))
        by (bit_vector);
}

/// Two distinct words never share a heap slot.
pub proof fn lemma_heap_word_injective(w1: u64, w2: u64)
    requires
        is_heap_word(w1),
        is_heap_word(w2),
        heap_index_of_word(w1) == heap_index_of_word(w2),
    ensures
        w1 == w2,
{
    assert((w1 & 0x07 == 0 && w1 & !0x08u64 != 0 && w2 & 0x07 == 0 && w2 & !0x08u64 != 0 && w1 / 8
        == w2 / 8) ==> w1 == w2) by (bit_vector);
}

} // verus!
