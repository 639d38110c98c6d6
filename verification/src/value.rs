//! The generic handle type for any value of the foreign runtime.
//!
//! A [`Value`] is one machine word and nothing more. For immediate words
//! the datum is in the word; for heap words the word names an object whose
//! header — class, kind, frozen flag — lives in the runtime's heap, here
//! modelled explicitly by [`crate::runtime::Runtime`]. Operations that
//! read only the word are pure; operations that read the header take the
//! runtime and require the handle to be valid in it, which is this
//! crate's rendering of the central lifetime rule: a heap handle may be
//! dereferenced only while the collector still holds its object.

use vstd::prelude::*;
use vstd::string::StringExecFns;

use crate::error::{CallOutcome, Error, Exception, protect};
use crate::runtime::{
    FALSE_CLASS, FLOAT_CLASS, HeapData, INTEGER_CLASS, MethodBehavior, NIL_CLASS, Runtime,
    SYMBOL_CLASS, TRUE_CLASS,
};
use crate::try_convert::TryConvert;
use crate::word::{
    FALSE_WORD, FIXNUM_FLAG, FLONUM_FLAG, FLONUM_MASK, IMMEDIATE_MASK, NIL_WORD, SYMBOL_FLAG,
    SYMBOL_MASK, TRUE_WORD, UNDEF_WORD, is_false_word, is_fixnum_word, is_flonum_word,
    is_heap_word, is_immediate_word, is_nil_word, is_static_sym_word, is_true_word, is_undef_word,
    lemma_word_kinds_partition, wf_word,
};

verus! {

/// The full classification of a handle, immediate kinds and heap-object
/// kinds together: what the decoder reads from the word's tag bits or,
/// for heap words, from the type field of the pointed-to header.
#[derive(Clone, Copy, PartialEq, Eq, Structural, Debug)]
pub enum ValueType {
    False,
    Nil,
    True,
    Undef,
    Fixnum,
    Symbol,
    Float,
    Bignum,
    Str,
    Object,
}

/// A handle to any value of the foreign runtime: one tagged machine word.
/// It is a name, not a container; heap words point at memory owned by the
/// runtime's collector.
#[derive(Clone, Copy, PartialEq, Eq, Structural, Debug)]
pub struct Value {
    pub word: u64,
}

impl Value {
    pub fn new(word: u64) -> (r: Self)
        ensures
            r.word == word,
    {
        Value { word }
    }

    /// The raw machine word of this handle.
    pub fn as_rb_value(self) -> (r: u64)
        ensures
            r == self.word,
    {
        self.word
    }

    /// The word decodes to some kind. All words the runtime hands out do;
    /// a word outside this set signals a host/runtime version mismatch.
    pub open spec fn wf(self) -> bool {
        wf_word(self.word)
    }

    /// Whether the datum is encoded directly in the word. Immediate
    /// values are never heap-allocated and never collected.
    pub fn is_immediate(self) -> (r: bool)
        ensures
            r == is_immediate_word(self.word),
    {
        let value_p = self.word;
        let immediate_p = value_p & IMMEDIATE_MASK != 0;
        let test = value_p & !NIL_WORD != 0;
        immediate_p || !test
    }

    pub fn is_false(self) -> (r: bool)
        ensures
            r == is_false_word(self.word),
    {
        self.word == FALSE_WORD
    }

    /// Whether `self` is the runtime's `nil`. `nil` and `false` are
    /// distinct words; neither test may shortcut through the other.
    pub fn is_nil(self) -> (r: bool)
        ensures
            r == is_nil_word(self.word),
    {
        self.word == NIL_WORD
    }

    pub fn is_true(self) -> (r: bool)
        ensures
            r == is_true_word(self.word),
    {
        self.word == TRUE_WORD
    }

    pub fn is_undef(self) -> (r: bool)
        ensures
            r == is_undef_word(self.word),
    {
        self.word == UNDEF_WORD
    }

    pub fn is_fixnum(self) -> (r: bool)
        ensures
            r == is_fixnum_word(self.word),
    {
        self.word & FIXNUM_FLAG != 0
    }

    pub fn is_static_symbol(self) -> (r: bool)
        ensures
            r == is_static_sym_word(self.word),
    {
        self.word & SYMBOL_MASK == SYMBOL_FLAG
    }

    pub fn is_flonum(self) -> (r: bool)
        ensures
            r == is_flonum_word(self.word),
    {
        self.word & FLONUM_MASK == FLONUM_FLAG
    }

    /// What [`Value::rb_type`] returns.
    pub open spec fn rb_type_spec(self, rt: Runtime) -> ValueType {
        if is_heap_word(self.word) {
            match rt.object_at(self.word).data {
                HeapData::Bignum { .. } => ValueType::Bignum,
                HeapData::Str { .. } => ValueType::Str,
                HeapData::Symbol { .. } => ValueType::Symbol,
                HeapData::Object => ValueType::Object,
            }
        } else if is_false_word(self.word) {
            ValueType::False
        } else if is_nil_word(self.word) {
            ValueType::Nil
        } else if is_true_word(self.word) {
            ValueType::True
        } else if is_undef_word(self.word) {
            ValueType::Undef
        } else if is_fixnum_word(self.word) {
            ValueType::Fixnum
        } else if is_static_sym_word(self.word) {
            ValueType::Symbol
        } else {
            ValueType::Float
        }
    }

    /// Classifies `self` completely. For a heap word this reads the
    /// pointed-to header, so the handle must still be live; for immediate
    /// words it re-tests each kind in the decoder's fixed order.
    pub fn rb_type(self, rt: &Runtime) -> (t: ValueType)
        requires
            rt.wf(),
            rt.valid_value(self),
        ensures
            t == self.rb_type_spec(*rt),
    {
        if !self.is_immediate() {
            match &rt.object(self).data {
                HeapData::Bignum { .. } => ValueType::Bignum,
                HeapData::Str { .. } => ValueType::Str,
                HeapData::Symbol { .. } => ValueType::Symbol,
                HeapData::Object => ValueType::Object,
            }
        } else if self.is_false() {
            ValueType::False
        } else if self.is_nil() {
            ValueType::Nil
        } else if self.is_true() {
            ValueType::True
        } else if self.is_undef() {
            ValueType::Undef
        } else if self.is_fixnum() {
            ValueType::Fixnum
        } else if self.is_static_symbol() {
            ValueType::Symbol
        } else if self.is_flonum() {
            ValueType::Float
        } else {
            proof {
                lemma_word_kinds_partition(self.word);
            }
            vstd::pervasive::unreached()
        }
    }

    /// The class-table index of the class `self` is an instance of. The
    /// undefined sentinel has no class.
    pub open spec fn class_of(self, rt: Runtime) -> int {
        if is_heap_word(self.word) {
            rt.object_at(self.word).class as int
        } else if is_false_word(self.word) {
            FALSE_CLASS as int
        } else if is_nil_word(self.word) {
            NIL_CLASS as int
        } else if is_true_word(self.word) {
            TRUE_CLASS as int
        } else if is_fixnum_word(self.word) {
            INTEGER_CLASS as int
        } else if is_static_sym_word(self.word) {
            SYMBOL_CLASS as int
        } else {
            FLOAT_CLASS as int
        }
    }

    /// Returns the class `self` is an instance of, as its class-table
    /// index.
    pub fn class(self, rt: &Runtime) -> (c: usize)
        requires
            rt.wf(),
            rt.valid_value(self),
            !is_undef_word(self.word),
        ensures
            c as int == self.class_of(*rt),
            c < rt.classes.len(),
    {
        if !self.is_immediate() {
            rt.object(self).class
        } else if self.is_false() {
            FALSE_CLASS
        } else if self.is_nil() {
            NIL_CLASS
        } else if self.is_true() {
            TRUE_CLASS
        } else if self.is_fixnum() {
            INTEGER_CLASS
        } else if self.is_static_symbol() {
            SYMBOL_CLASS
        } else if self.is_flonum() {
            FLOAT_CLASS
        } else {
            proof {
                lemma_word_kinds_partition(self.word);
            }
            vstd::pervasive::unreached()
        }
    }

    /// The name of `self`'s class, for error messages and reflection.
    pub fn classname(self, rt: &Runtime) -> (r: String)
        requires
            rt.wf(),
            rt.valid_value(self),
            !is_undef_word(self.word),
        ensures
            r == rt.classes[self.class_of(*rt)].name,
            r@ == rt.classes[self.class_of(*rt)].name@,
    {
        let c = self.class(rt);
        rt.classes[c].name.clone()
    }

    /// Whether `self` is an instance of the class at index `class`. The
    /// model keeps classes flat, so this is class identity.
    pub fn is_kind_of(self, rt: &Runtime, class: usize) -> (r: bool)
        requires
            rt.wf(),
            rt.valid_value(self),
            !is_undef_word(self.word),
        ensures
            r == (self.class_of(*rt) == class as int),
    {
        self.class(rt) == class
    }

    /// Whether the runtime treats `self` as frozen: the header bit for a
    /// heap object; immediate values are always frozen.
    pub open spec fn frozen_spec(self, rt: Runtime) -> bool {
        if is_heap_word(self.word) {
            rt.object_at(self.word).frozen
        } else {
            true
        }
    }

    /// Reads the frozen state. A pure probe: takes the runtime shared and
    /// so can have no side effect on it.
    pub fn is_frozen(self, rt: &Runtime) -> (r: bool)
        requires
            rt.wf(),
            rt.valid_value(self),
        ensures
            r == self.frozen_spec(*rt),
    {
        if !self.is_immediate() {
            rt.object(self).frozen
        } else {
            true
        }
    }

    /// Succeeds exactly on non-frozen values; on a frozen value reports a
    /// structured frozen-violation error naming the value's class. Also a
    /// pure probe.
    pub fn check_frozen(self, rt: &Runtime) -> (r: Result<(), Error>)
        requires
            rt.wf(),
            rt.valid_value(self),
            !is_undef_word(self.word),
        ensures
            r is Ok <==> !self.frozen_spec(*rt),
            self.frozen_spec(*rt) ==> r == Result::<(), Error>::Err(
                (Error::Frozen { class_name: rt.classes[self.class_of(*rt)].name }),
            ),
    {
        if self.is_frozen(rt) {
            Err(Error::Frozen { class_name: self.classname(rt) })
        } else {
            Ok(())
        }
    }

    /// Sets the frozen bit of a heap object's header; immediate values
    /// are frozen already and are left untouched. Freezing is idempotent:
    /// freezing an already-frozen value changes nothing at all, and
    /// freezing never errors.
    pub fn freeze(self, rt: &mut Runtime)
        requires
            old(rt).wf(),
            old(rt).valid_value(self),
        ensures
            final(rt).wf(),
            self.frozen_spec(*final(rt)),
            forall|v2: Value| old(rt).valid_value(v2) ==> final(rt).valid_value(v2),
            final(rt).heap.len() == old(rt).heap.len(),
            forall|w: u64|
                old(rt).has_object(w) ==> final(rt).has_object(w) && final(rt).object_at(w).class
                    == old(rt).object_at(w).class && final(rt).object_at(w).data == old(
                    rt).object_at(w).data,
            forall|w: u64|
                old(rt).has_object(w) && w != self.word ==> final(rt).object_at(w) == old(
                    rt).object_at(w),
            self.frozen_spec(*old(rt)) ==> final(rt).heap@ =~= old(rt).heap@,
            final(rt).classes == old(rt).classes,
            final(rt).symbols == old(rt).symbols,
            final(rt).permanent_roots == old(rt).permanent_roots,
            final(rt).boxed_roots == old(rt).boxed_roots,
    {
        if !self.is_immediate() {
            let ghost pre = *rt;
            rt.freeze_object(self);
            proof {
                if self.frozen_spec(pre) {
                    assert(rt.heap@ =~= pre.heap@);
                }
            }
        }
    }

    /// Registers `self` as a permanent collector root: it will survive
    /// every future collection for the life of the runtime. Irreversible.
    pub fn leak(self, rt: &mut Runtime)
        requires
            old(rt).wf(),
            old(rt).valid_value(self),
        ensures
            final(rt).wf(),
            final(rt).permanent_roots@ == old(rt).permanent_roots@.push(self.word),
            final(rt).rooted(self.word),
            forall|w: u64| old(rt).rooted(w) ==> final(rt).rooted(w),
            final(rt).classes == old(rt).classes,
            final(rt).heap == old(rt).heap,
            final(rt).symbols == old(rt).symbols,
            final(rt).boxed_roots == old(rt).boxed_roots,
            forall|v2: Value| old(rt).valid_value(v2) ==> final(rt).valid_value(v2),
    {
        rt.permanent_roots.push(self.word);
        proof {
            assert(rt.permanent_roots@[old(rt).permanent_roots@.len() as int] == self.word);
            assert(rt.permanent_roots@.contains(self.word));
            assert forall|w: u64| old(rt).rooted(w) implies rt.rooted(w) by {
                if old(rt).permanent_roots@.contains(w) {
                    let k = choose|k: int|
                        0 <= k < old(rt).permanent_roots@.len() && old(rt).permanent_roots@[k]
                            == w;
                    assert(rt.permanent_roots@[k] == w);
                    assert(rt.permanent_roots@.contains(w));
                }
            }
        }
    }

    /// `self` defines the named operation, visible under the given
    /// privacy rule.
    pub open spec fn responds_spec(self, rt: Runtime, name: Seq<char>,
        include_private: bool) -> bool {
        &&& rt.has_method(self.class_of(rt), name)
        &&& (include_private || !rt.method_at(self.class_of(rt), name).private)
    }

    /// Looks the named operation up on `self`'s class and performs it,
    /// yielding the raw outcome of the foreign call: the behavior's
    /// return or raise, or the runtime's "no such operation" raise when
    /// the lookup fails.
    fn invoke_raw(self, rt: &Runtime, method: &str) -> (r: CallOutcome)
        requires
            rt.wf(),
            rt.valid_value(self),
            !is_undef_word(self.word),
        ensures
            !rt.has_method(self.class_of(*rt), method@) ==> (r matches CallOutcome::Raise(e)
                && e.class_name@ == "NoMethodError"@ && e.message@ == "undefined method `"@
                + method@ + "'"@),
            rt.has_method(self.class_of(*rt), method@) ==> (match rt.method_at(
                self.class_of(*rt), method@).behavior {
                MethodBehavior::Returns(v) => r == CallOutcome::Return(v),
                MethodBehavior::Raises(e) => r == CallOutcome::Raise(e),
                MethodBehavior::Yields { .. } => r matches CallOutcome::Raise(e)
                    && e.class_name@ == "LocalJumpError"@ && e.message@
                    == "no block given (yield)"@,
            }),
    {
        let c = self.class(rt);
        let owned = method.to_owned();
        match Runtime::find_method_index(&rt.classes[c].methods, &owned) {
            Some(k) => {
                proof {
                    rt.lemma_method_resolution(c as int, method@, k as int);
                }
                match &rt.classes[c].methods[k].behavior {
                    MethodBehavior::Returns(v) => CallOutcome::Return(*v),
                    MethodBehavior::Raises(e) => CallOutcome::Raise(e.clone()),
                    MethodBehavior::Yields { .. } => CallOutcome::Raise(Exception::new(
                        String::from_str("LocalJumpError"),
                        String::from_str("no block given (yield)"),
                    )),
                }
            },
            None => {
                let message = String::from_str("undefined method `").concat(method).concat("'");
                proof {
                    assert(message@ =~= "undefined method `"@ + method@ + "'"@);
                }
                CallOutcome::Raise(Exception::new(String::from_str("NoMethodError"), message))
            },
        }
    }

    /// Calls the named operation on `self` and converts its result to
    /// `T`. Fails when the lookup fails (the runtime's "no such
    /// operation" exception), when the operation raises (that exception,
    /// observed exactly once through the boundary-crossing primitive),
    /// or when the result does not convert. The argument list is handed
    /// to the operation; the modelled behaviors do not read it.
    pub fn funcall<T: TryConvert>(self, rt: &Runtime, method: &str, args: &Vec<Value>) -> (r:
        Result<T, Error>)
        requires
            rt.wf(),
            rt.valid_value(self),
            !is_undef_word(self.word),
        ensures
            !rt.has_method(self.class_of(*rt), method@) ==> (r matches Err(e)
                && e matches Error::Exception(e) && e.class_name@ == "NoMethodError"@
                && e.message@ == "undefined method `"@ + method@ + "'"@),
            rt.has_method(self.class_of(*rt), method@) ==> (match rt.method_at(
                self.class_of(*rt), method@).behavior {
                MethodBehavior::Returns(v) => r == T::convert_spec(*rt, v),
                MethodBehavior::Raises(e) => r == Err::<T, Error>(Error::Exception(e)),
                MethodBehavior::Yields { .. } => r matches Err(er) && er matches Error::Exception(
                    e) && e.class_name@ == "LocalJumpError"@ && e.message@
                    == "no block given (yield)"@,
            }),
    {
        match protect(self.invoke_raw(rt, method)) {
            Ok(v) => T::try_convert(rt, v),
            Err(e) => Err(e),
        }
    }

    /// Calls the named operation with a host block attached. A yielding
    /// operation hands its yielded values to the block (together with
    /// the optional secondary block handle — none here), and the
    /// block's result crosses back through the callback boundary: its
    /// success value becomes the operation's result, its error becomes
    /// a raise of the corresponding runtime exception, never silently
    /// vanishing. Operations that do not yield behave as under
    /// [`Value::funcall`].
    pub fn block_call<T: TryConvert, F: FnOnce(Vec<Value>, Option<Value>) -> Result<
        Value,
        Error,
    >>(self, rt: &Runtime, method: &str, args: &Vec<Value>, block: F) -> (r: Result<T, Error>)
        requires
            rt.wf(),
            rt.valid_value(self),
            !is_undef_word(self.word),
            forall|a: Vec<Value>, b: Option<Value>| #[trigger] call_requires(block, (a, b)),
            forall|a: Vec<Value>, b: Option<Value>, br: Result<Value, Error>|
                #[trigger] call_ensures(block, (a, b), br) ==> (br matches Ok(v)
                    ==> rt.valid_value(v) && !is_undef_word(v.word)),
        ensures
            !rt.has_method(self.class_of(*rt), method@) ==> (r matches Err(e)
                && e matches Error::Exception(e) && e.class_name@ == "NoMethodError"@
                && e.message@ == "undefined method `"@ + method@ + "'"@),
            rt.has_method(self.class_of(*rt), method@) ==> (match rt.method_at(
                self.class_of(*rt), method@).behavior {
                MethodBehavior::Returns(v) => r == T::convert_spec(*rt, v),
                MethodBehavior::Raises(e) => r == Err::<T, Error>(Error::Exception(e)),
                MethodBehavior::Yields { args: ys } => exists|a: Vec<Value>, br: Result<
                    Value,
                    Error,
                >|
                    a@ == ys@ && #[trigger] call_ensures(block, (a, None), br) && (match br {
                        Ok(v) => r == T::convert_spec(*rt, v),
                        Err(e) => r matches Err(er) && er matches Error::Exception(exc)
                            && exc.class_name@ == crate::error::exception_class_of(e)
                            && exc.message@ == e.spec_message(),
                    }),
            }),
    {
        let c = self.class(rt);
        let owned = method.to_owned();
        match Runtime::find_method_index(&rt.classes[c].methods, &owned) {
            Some(k) => {
                proof {
                    rt.lemma_method_resolution(c as int, method@, k as int);
                }
                match &rt.classes[c].methods[k].behavior {
                    MethodBehavior::Yields { args: yielded } => {
                        let copied = copy_values(yielded);
                        let ghost gcopied = copied;
                        let br = block(copied, None);
                        let ghost gbr = br;
                        match protect(crate::error::callback_outcome(br)) {
                            Ok(v) => {
                                let res: Result<T, Error> = T::try_convert(rt, v);
                                proof {
                                    assert(call_ensures(block, (gcopied, None), gbr));
                                }
                                res
                            },
                            Err(e) => {
                                proof {
                                    assert(call_ensures(block, (gcopied, None), gbr));
                                }
                                Err(e)
                            },
                        }
                    },
                    _ => self.funcall(rt, method, args),
                }
            },
            None => self.funcall(rt, method, args),
        }
    }

    /// Guarded invoke: first checks whether `self` publicly defines the
    /// named operation. `None` when it does not — a distinct outcome
    /// from an operation that raised (`Some(Err(..))`) and from one that
    /// succeeded (`Some(Ok(..))`).
    pub fn check_funcall<T: TryConvert>(self, rt: &Runtime, method: &str, args: &Vec<Value>) -> (r:
        Option<Result<T, Error>>)
        requires
            rt.wf(),
            rt.valid_value(self),
            !is_undef_word(self.word),
        ensures
            !self.responds_spec(*rt, method@, false) ==> r is None,
            self.responds_spec(*rt, method@, false) ==> (match rt.method_at(
                self.class_of(*rt), method@).behavior {
                MethodBehavior::Returns(v) => r == Some(T::convert_spec(*rt, v)),
                MethodBehavior::Raises(e) => r == Some(Err::<T, Error>(Error::Exception(e))),
                MethodBehavior::Yields { .. } => r matches Some(res) && res matches Err(er)
                    && er matches Error::Exception(e) && e.class_name@ == "LocalJumpError"@
                    && e.message@ == "no block given (yield)"@,
            }),
    {
        if self.respond_to_inner(rt, method, false) {
            Some(self.funcall(rt, method, args))
        } else {
            None
        }
    }

    /// Whether `self` responds to the named operation;
    /// `include_private` widens the check to private operations. The
    /// probe itself cannot raise here, keeping the fallible shape of a
    /// boundary-crossing call.
    pub fn respond_to(self, rt: &Runtime, method: &str, include_private: bool) -> (r: Result<
        bool,
        Error,
    >)
        requires
            rt.wf(),
            rt.valid_value(self),
            !is_undef_word(self.word),
        ensures
            r == Ok::<bool, Error>(self.responds_spec(*rt, method@, include_private)),
    {
        Ok(self.respond_to_inner(rt, method, include_private))
    }

    /// The lookup behind [`Value::respond_to`] and the guarded invoke.
    fn respond_to_inner(self, rt: &Runtime, method: &str, include_private: bool) -> (r: bool)
        requires
            rt.wf(),
            rt.valid_value(self),
            !is_undef_word(self.word),
        ensures
            r == self.responds_spec(*rt, method@, include_private),
    {
        let c = self.class(rt);
        let owned = method.to_owned();
        match Runtime::find_method_index(&rt.classes[c].methods, &owned) {
            Some(k) => {
                proof {
                    rt.lemma_method_resolution(c as int, method@, k as int);
                }
                include_private || !rt.classes[c].methods[k].private
            },
            None => false,
        }
    }

    /// The generic rendering that always succeeds: the value's class
    /// name in angle brackets.
    pub open spec fn any_to_s_view(self, rt: Runtime) -> Seq<char> {
        "#<"@ + rt.classes[self.class_of(rt)].name@ + ">"@
    }

    /// Renders `self` generically, without any dispatch; never fails.
    pub fn any_to_s(self, rt: &Runtime) -> (r: String)
        requires
            rt.wf(),
            rt.valid_value(self),
            !is_undef_word(self.word),
        ensures
            r@ == self.any_to_s_view(*rt),
    {
        let name = self.classname(rt);
        let r = String::from_str("#<").concat(name.as_str()).concat(">");
        proof {
            assert(r@ =~= self.any_to_s_view(*rt));
        }
        r
    }

    /// What rendering `self` as a string yields: a string object's own
    /// text; otherwise the class's `to_s` operation — its raise
    /// propagating, its result's text when that result is a string, and
    /// the generic rendering when the result is not a string or the
    /// operation is absent.
    pub open spec fn to_s_spec(self, rt: Runtime) -> Result<Seq<char>, Error> {
        if is_heap_word(self.word) && rt.object_at(self.word).data is Str {
            Ok(str_view_of(rt, self.word))
        } else if rt.has_method(self.class_of(rt), "to_s"@) {
            match rt.method_at(self.class_of(rt), "to_s"@).behavior {
                MethodBehavior::Raises(e) => Err(Error::Exception(e)),
                MethodBehavior::Returns(v) => if is_heap_word(v.word) && rt.object_at(
                    v.word).data is Str {
                    Ok(str_view_of(rt, v.word))
                } else {
                    Ok(self.any_to_s_view(rt))
                },
                // Unreachable when the rendering is regular: a yielding
                // `to_s` is specified by the callers' own clauses.
                MethodBehavior::Yields { .. } => Ok(self.any_to_s_view(rt)),
            }
        } else {
            Ok(self.any_to_s_view(rt))
        }
    }

    /// The one irregular rendering case: `self` is not itself a string
    /// and its `to_s` yields, which without a block is the runtime's
    /// "no block given" raise.
    pub open spec fn to_s_yields(self, rt: Runtime) -> bool {
        &&& !(is_heap_word(self.word) && rt.object_at(self.word).data is Str)
        &&& rt.has_method(self.class_of(rt), "to_s"@)
        &&& rt.method_at(self.class_of(rt), "to_s"@).behavior is Yields
    }

    /// Renders `self` as a host string, dispatching `to_s` when `self`
    /// is not itself a string object. Fails only when `to_s` raises.
    pub fn to_s(self, rt: &Runtime) -> (r: Result<String, Error>)
        requires
            rt.wf(),
            rt.valid_value(self),
            !is_undef_word(self.word),
        ensures
            !self.to_s_yields(*rt) ==> (match self.to_s_spec(*rt) {
                Ok(s) => r matches Ok(x) && x@ == s,
                Err(e) => r == Err::<String, Error>(e),
            }),
            self.to_s_yields(*rt) ==> (r matches Err(er) && er matches Error::Exception(e)
                && e.class_name@ == "LocalJumpError"@ && e.message@
                == "no block given (yield)"@),
    {
        if !self.is_immediate() {
            match &rt.object(self).data {
                HeapData::Str { contents } => {
                    return Ok(contents.clone());
                },
                _ => {},
            }
        }
        if self.respond_to_inner(rt, "to_s", true) {
            match protect(self.invoke_raw(rt, "to_s")) {
                Err(e) => Err(e),
                Ok(v) => {
                    if !v.is_immediate() {
                        match &rt.object(v).data {
                            HeapData::Str { contents } => {
                                return Ok(contents.clone());
                            },
                            _ => {},
                        }
                    }
                    Ok(self.any_to_s(rt))
                },
            }
        } else {
            Ok(self.any_to_s(rt))
        }
    }

    /// Renders `self` and never fails: where [`Value::to_s`] would
    /// report a raise, this falls back to the generic rendering, so
    /// formatting can never panic or error.
    pub fn to_s_infallible(self, rt: &Runtime) -> (r: String)
        requires
            rt.wf(),
            rt.valid_value(self),
            !is_undef_word(self.word),
        ensures
            r@ == (match self.to_s_spec(*rt) {
                Ok(s) => s,
                Err(_) => self.any_to_s_view(*rt),
            }),
    {
        match self.to_s(rt) {
            Ok(s) => s,
            Err(_) => self.any_to_s(rt),
        }
    }

    /// What the debug rendering yields: the class's `inspect`
    /// operation's text when it returns a string, the generic rendering
    /// in every other case — a raise included, so inspection never
    /// fails.
    pub open spec fn inspect_view(self, rt: Runtime) -> Seq<char> {
        if rt.has_method(self.class_of(rt), "inspect"@) {
            match rt.method_at(self.class_of(rt), "inspect"@).behavior {
                MethodBehavior::Raises(_) => self.any_to_s_view(rt),
                MethodBehavior::Returns(v) => if is_heap_word(v.word) && rt.object_at(
                    v.word).data is Str {
                    str_view_of(rt, v.word)
                } else {
                    self.any_to_s_view(rt)
                },
                MethodBehavior::Yields { .. } => self.any_to_s_view(rt),
            }
        } else {
            self.any_to_s_view(rt)
        }
    }

    /// The debug rendering; never fails.
    pub fn inspect(self, rt: &Runtime) -> (r: String)
        requires
            rt.wf(),
            rt.valid_value(self),
            !is_undef_word(self.word),
        ensures
            r@ == self.inspect_view(*rt),
    {
        if self.respond_to_inner(rt, "inspect", true) {
            match protect(self.invoke_raw(rt, "inspect")) {
                Err(_) => self.any_to_s(rt),
                Ok(v) => {
                    if !v.is_immediate() {
                        match &rt.object(v).data {
                            HeapData::Str { contents } => {
                                return contents.clone();
                            },
                            _ => {},
                        }
                    }
                    self.any_to_s(rt)
                },
            }
        } else {
            self.any_to_s(rt)
        }
    }

    /// Converts `self` to a runtime string object: a string object is
    /// handed back as it is; anything else is rendered by
    /// [`Value::to_s`] and the text put in a fresh string object.
    pub fn to_r_string(self, rt: &mut Runtime) -> (r: Result<crate::rstring::RString, Error>)
        requires
            old(rt).wf(),
            old(rt).valid_value(self),
            !is_undef_word(self.word),
            old(rt).heap.len() < crate::runtime::HEAP_CAPACITY,
        ensures
            final(rt).wf(),
            is_heap_word(self.word) && old(rt).object_at(self.word).data is Str ==> (
            r matches Ok(s) && s.0.word == self.word && *final(rt) == *old(rt)),
            (!(is_heap_word(self.word) && old(rt).object_at(self.word).data is Str)
                && !self.to_s_yields(*old(rt))) ==> (match self.to_s_spec(*old(rt)) {
                Err(e) => r == Err::<crate::rstring::RString, Error>(e) && *final(rt) == *old(rt),
                Ok(sv) => r matches Ok(s) && s.wf_in(*final(rt)) && s.spec_contents(*final(rt))
                    == sv && final(rt).heap.len() == old(rt).heap.len() + 1,
            }),
            self.to_s_yields(*old(rt)) ==> (r matches Err(er) && er matches Error::Exception(e)
                && e.class_name@ == "LocalJumpError"@ && e.message@
                == "no block given (yield)"@ && *final(rt) == *old(rt)),
            forall|v2: Value| old(rt).valid_value(v2) ==> final(rt).valid_value(v2),
            forall|w: u64|
                old(rt).has_object(w) ==> final(rt).has_object(w) && final(rt).object_at(w)
                    == old(rt).object_at(w),
            final(rt).classes == old(rt).classes,
            final(rt).symbols == old(rt).symbols,
            final(rt).permanent_roots == old(rt).permanent_roots,
            final(rt).boxed_roots == old(rt).boxed_roots,
    {
        if !self.is_immediate() {
            let is_str = match &rt.object(self).data {
                HeapData::Str { .. } => true,
                _ => false,
            };
            if is_str {
                proof {
                    crate::word::lemma_nonzero_but_false(self.word);
                }
                return Ok(crate::rstring::RString(NonZeroValue::new(self)));
            }
        }
        match self.to_s(rt) {
            Err(e) => Err(e),
            Ok(s) => {
                let v = rt.alloc_string(s);
                proof {
                    crate::word::lemma_nonzero_but_false(v.word);
                }
                Ok(crate::rstring::RString(NonZeroValue::new(v)))
            },
        }
    }

    /// Value equality as the runtime defines it: identical handles are
    /// equal without any dispatch; otherwise the `==` operation of
    /// `self`'s class decides, its result read as a boolean, its raise
    /// surfacing as `Err`; with no `==` defined, distinct handles are
    /// unequal.
    pub fn equal(self, rt: &Runtime, other: Value) -> (r: Result<bool, Error>)
        requires
            rt.wf(),
            rt.valid_value(self),
            rt.valid_value(other),
            !is_undef_word(self.word),
        ensures
            self.word == other.word ==> r == Ok::<bool, Error>(true),
            self.word != other.word ==> self.dispatch_bool_spec(*rt, "=="@, r),
    {
        if self.word == other.word {
            Ok(true)
        } else {
            self.dispatch_bool(rt, "==")
        }
    }

    /// Hash-equality, delegating to the class's `eql?` operation under
    /// the same rules as [`Value::equal`].
    pub fn eql(self, rt: &Runtime, other: Value) -> (r: Result<bool, Error>)
        requires
            rt.wf(),
            rt.valid_value(self),
            rt.valid_value(other),
            !is_undef_word(self.word),
        ensures
            self.word == other.word ==> r == Ok::<bool, Error>(true),
            self.word != other.word ==> self.dispatch_bool_spec(*rt, "eql?"@, r),
    {
        if self.word == other.word {
            Ok(true)
        } else {
            self.dispatch_bool(rt, "eql?")
        }
    }

    /// What dispatching a boolean-valued operation yields: the
    /// operation's result read as a boolean, its raise, or `false` when
    /// the class leaves the operation undefined (the runtime's default
    /// of identity, already ruled out by the caller).
    pub open spec fn dispatch_bool_spec(self, rt: Runtime, name: Seq<char>, r: Result<
        bool,
        Error,
    >) -> bool {
        if rt.has_method(self.class_of(rt), name) {
            match rt.method_at(self.class_of(rt), name).behavior {
                MethodBehavior::Returns(v) => r == Ok::<bool, Error>(
                    !(is_nil_word(v.word) || is_false_word(v.word)),
                ),
                MethodBehavior::Raises(e) => r == Err::<bool, Error>(Error::Exception(e)),
                MethodBehavior::Yields { .. } => r matches Err(er) && er matches Error::Exception(
                    e) && e.class_name@ == "LocalJumpError"@ && e.message@
                    == "no block given (yield)"@,
            }
        } else {
            r == Ok::<bool, Error>(false)
        }
    }

    /// Dispatches an operation and reads its result as a boolean.
    fn dispatch_bool(self, rt: &Runtime, method: &str) -> (r: Result<bool, Error>)
        requires
            rt.wf(),
            rt.valid_value(self),
            !is_undef_word(self.word),
        ensures
            self.dispatch_bool_spec(*rt, method@, r),
    {
        if self.respond_to_inner(rt, method, true) {
            match protect(self.invoke_raw(rt, method)) {
                Ok(v) => Ok(v.to_bool()),
                Err(e) => Err(e),
            }
        } else {
            Ok(false)
        }
    }

    /// Whether `self` counts as true in the runtime's conditionals: false
    /// exactly for the `nil` and `false` words, true for everything else,
    /// including zero-valued numbers.
    pub fn to_bool(self) -> (r: bool)
        ensures
            r == !(is_nil_word(self.word) || is_false_word(self.word)),
    {
        let w = self.word;
        let r = w & !NIL_WORD != 0;
        proof {
            assert((w & !NIL_WORD != 0) == !(w == NIL_WORD || w == FALSE_WORD)) by (bit_vector);
        }
        r
    }
}

impl Default for Value {
    /// The default handle is the runtime's `nil`.
    fn default() -> (r: Self)
        ensures
            r.word == NIL_WORD,
    {
        Value { word: NIL_WORD }
    }
}

/// An owned copy of a list of handles; handles are plain words.
fn copy_values(xs: &Vec<Value>) -> (r: Vec<Value>)
    ensures
        r@ == xs@,
{
    let mut r: Vec<Value> = Vec::new();
    let mut i: usize = 0;
    while i < xs.len()
        invariant
            i <= xs.len(),
            r@ =~= xs@.take(i as int),
        decreases xs.len() - i,
    {
        r.push(xs[i]);
        i = i + 1;
    }
    proof {
        assert(r@ =~= xs@);
    }
    r
}

/// The text of the string object `w` names, if it is one.
pub open spec fn str_view_of(rt: Runtime, w: u64) -> Seq<char> {
    match rt.object_at(w).data {
        HeapData::Str { contents } => contents@,
        _ => Seq::empty(),
    }
}

/// A scoped anchor: while it is registered, the collector keeps the
/// anchored value's object alive. The acquire half is [`BoxValue::new`];
/// the release half is the explicit [`BoxValue::release`]. Compare
/// [`Value::leak`], the permanent registration that is never released.
#[derive(Clone, Copy, PartialEq, Eq, Structural, Debug)]
pub struct BoxValue {
    pub value: Value,
    pub slot: usize,
}

impl BoxValue {
    /// The anchor's registration slot is live and holds its word.
    pub open spec fn wf_in(self, rt: Runtime) -> bool {
        &&& (self.slot as int) < rt.boxed_roots.len()
        &&& rt.boxed_roots[self.slot as int] == Some(self.value.word)
    }

    /// Registers `val` with the collector and returns the anchor.
    pub fn new(rt: &mut Runtime, val: Value) -> (r: BoxValue)
        requires
            old(rt).wf(),
            old(rt).valid_value(val),
        ensures
            final(rt).wf(),
            r.value == val,
            r.wf_in(*final(rt)),
            final(rt).rooted(val.word),
            forall|w: u64| old(rt).rooted(w) ==> final(rt).rooted(w),
            final(rt).boxed_roots@ == old(rt).boxed_roots@.push(Some(val.word)),
            final(rt).classes == old(rt).classes,
            final(rt).heap == old(rt).heap,
            final(rt).symbols == old(rt).symbols,
            final(rt).permanent_roots == old(rt).permanent_roots,
            forall|v2: Value| old(rt).valid_value(v2) ==> final(rt).valid_value(v2),
    {
        let slot = rt.boxed_roots.len();
        rt.boxed_roots.push(Some(val.word));
        proof {
            assert(rt.boxed_roots[slot as int] == Some(val.word));
            assert forall|w: u64| old(rt).rooted(w) implies rt.rooted(w) by {
                if exists|i: int|
                    0 <= i < old(rt).boxed_roots.len() && (#[trigger] old(rt).boxed_roots[i])
                        == Some(w) {
                    let i = choose|i: int|
                        0 <= i < old(rt).boxed_roots.len() && (#[trigger] old(
                            rt).boxed_roots[i]) == Some(w);
                    assert(rt.boxed_roots[i] == Some(w));
                }
            }
        }
        BoxValue { value: val, slot }
    }

    /// The anchored handle.
    pub fn get(&self) -> (r: Value)
        ensures
            r == self.value,
    {
        self.value
    }

    /// Deregisters the anchor. After this the anchored value is kept
    /// only by whatever other registrations exist; the next collection
    /// may free it.
    pub fn release(self, rt: &mut Runtime)
        requires
            old(rt).wf(),
            self.wf_in(*old(rt)),
        ensures
            final(rt).wf(),
            final(rt).boxed_roots@ == old(rt).boxed_roots@.update(self.slot as int, None),
            final(rt).classes == old(rt).classes,
            final(rt).heap == old(rt).heap,
            final(rt).symbols == old(rt).symbols,
            final(rt).permanent_roots == old(rt).permanent_roots,
            forall|v2: Value| old(rt).valid_value(v2) ==> final(rt).valid_value(v2),
    {
        rt.boxed_roots[self.slot] = None;
    }
}

/// An anchored value is rooted: the collector will keep its object.
pub proof fn lemma_anchor_is_rooted(b: BoxValue, rt: Runtime)
    requires
        b.wf_in(rt),
    ensures
        rt.rooted(b.value.word),
{
    assert(rt.boxed_roots[b.slot as int] == Some(b.value.word));
}

/// Storage shared by the narrowed wrappers of all kinds whose words are
/// provably non-zero (every kind but `false`): holding a non-zero word
/// lets the all-zero pattern serve as a "no value" marker elsewhere with
/// no separate flag.
#[derive(Clone, Copy, PartialEq, Eq, Structural, Debug)]
pub struct NonZeroValue {
    pub word: u64,
}

impl NonZeroValue {
    pub open spec fn wf(self) -> bool {
        self.word != 0
    }

    pub fn new(val: Value) -> (r: Self)
        requires
            val.word != 0,
        ensures
            r.word == val.word,
            r.wf(),
    {
        NonZeroValue { word: val.word }
    }

    pub fn get(self) -> (r: Value)
        ensures
            r.word == self.word,
    {
        Value { word: self.word }
    }
}

} // verus!
