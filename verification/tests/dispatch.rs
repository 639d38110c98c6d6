//! The boundary-crossing primitive and the dispatch helpers: protect,
//! re-raise, invoke, guarded invoke, respond_to, and equality dispatch.

use tagged_value::error::{CallOutcome, Error, Exception, TypeName, callback_outcome, protect,
    reraise};
use tagged_value::fixnum::Fixnum;
use tagged_value::runtime::{MethodBehavior, Runtime};
use tagged_value::value::Value;

fn raising(class_name: &str, message: &str) -> MethodBehavior {
    MethodBehavior::Raises(Exception::new(class_name.to_string(), message.to_string()))
}

#[test]
fn protect_passes_a_normal_return_through() {
    let v = Value::new(1);
    let r = protect(CallOutcome::Return(v));
    assert_eq!(r.unwrap().as_rb_value(), 1);
}

#[test]
fn protect_captures_a_raise() {
    let exc = Exception::new("RuntimeError".to_string(), "boom".to_string());
    let r = protect(CallOutcome::Raise(exc));
    match r {
        Err(Error::Exception(e)) => {
            assert_eq!(e.class_name, "RuntimeError");
            assert_eq!(e.message, "boom");
        },
        _ => panic!("expected the raised exception to be captured"),
    }
}

#[test]
fn reraise_reenters_the_non_local_exit() {
    let exc = Exception::new("RuntimeError".to_string(), "boom".to_string());
    let outcome = reraise(exc);
    // Observing the re-raised outcome through protect yields the same
    // captured exception again: raising and catching are inverses.
    match protect(outcome) {
        Err(Error::Exception(e)) => assert_eq!(e.message, "boom"),
        _ => panic!("expected a raise"),
    }
}

#[test]
fn funcall_returns_and_converts() {
    let mut rt = Runtime::new();
    let c = rt.define_class("Example".to_string());
    let forty_two = Fixnum::from_i64(&mut rt, 42).unwrap().as_value();
    rt.define_method(c, "answer".to_string(), false, MethodBehavior::Returns(forty_two));
    let obj = rt.alloc_object(c);
    let r: i64 = obj.funcall::<i64>(&rt, "answer", &vec![]).unwrap();
    assert_eq!(r, 42);
}

#[test]
fn funcall_on_missing_operation_is_an_exception() {
    let mut rt = Runtime::new();
    let c = rt.define_class("Example".to_string());
    let obj = rt.alloc_object(c);
    let e = obj.funcall::<Value>(&rt, "missing", &vec![]).unwrap_err();
    match e {
        Error::Exception(exc) => {
            assert_eq!(exc.class_name, "NoMethodError");
            assert_eq!(exc.message, "undefined method `missing'");
        },
        _ => panic!("expected a NoMethodError-flavored exception"),
    }
}

#[test]
fn funcall_observes_a_raise_exactly_once() {
    let mut rt = Runtime::new();
    let c = rt.define_class("Example".to_string());
    rt.define_method(c, "explode".to_string(), false, raising("RuntimeError", "kaboom"));
    let obj = rt.alloc_object(c);
    match obj.funcall::<Value>(&rt, "explode", &vec![]) {
        Err(Error::Exception(e)) => assert_eq!(e.message, "kaboom"),
        _ => panic!("expected the raise to surface as Err"),
    }
}

#[test]
fn funcall_conversion_failure_is_distinct() {
    let mut rt = Runtime::new();
    let c = rt.define_class("Example".to_string());
    let forty_two = Fixnum::from_i64(&mut rt, 300).unwrap().as_value();
    rt.define_method(c, "answer".to_string(), false, MethodBehavior::Returns(forty_two));
    let obj = rt.alloc_object(c);
    assert!(matches!(
        obj.funcall::<u8>(&rt, "answer", &vec![]),
        Err(Error::Range { .. })
    ));
}

#[test]
fn guarded_invoke_distinguishes_not_found_from_raised() {
    let mut rt = Runtime::new();
    let c = rt.define_class("Example".to_string());
    rt.define_method(c, "explode".to_string(), false, raising("RuntimeError", "kaboom"));
    let nil = Value::default();
    let one = Fixnum::from_i64(&mut rt, 1).unwrap().as_value();
    rt.define_method(c, "one".to_string(), false, MethodBehavior::Returns(one));
    let obj = rt.alloc_object(c);

    // Missing: None — not an error.
    assert!(obj.check_funcall::<Value>(&rt, "missing", &vec![]).is_none());
    // Same name through plain invoke: a ForeignException-flavored error.
    assert!(matches!(
        obj.funcall::<Value>(&rt, "missing", &vec![]),
        Err(Error::Exception(_))
    ));
    // Raised: Some(Err), distinct from both.
    match obj.check_funcall::<Value>(&rt, "explode", &vec![]) {
        Some(Err(Error::Exception(e))) => assert_eq!(e.message, "kaboom"),
        _ => panic!("expected Some(Err(..))"),
    }
    // Succeeded: Some(Ok).
    match obj.check_funcall::<i64>(&rt, "one", &vec![]) {
        Some(Ok(n)) => assert_eq!(n, 1),
        _ => panic!("expected Some(Ok(..))"),
    }
    let _ = nil;
}

#[test]
fn guarded_invoke_respects_privacy() {
    let mut rt = Runtime::new();
    let c = rt.define_class("Example".to_string());
    let one = Fixnum::from_i64(&mut rt, 1).unwrap().as_value();
    rt.define_method(c, "hidden".to_string(), true, MethodBehavior::Returns(one));
    let obj = rt.alloc_object(c);
    // A private operation is not found by the guarded invoke...
    assert!(obj.check_funcall::<i64>(&rt, "hidden", &vec![]).is_none());
    // ... but the plain invoke bypasses privacy.
    assert_eq!(obj.funcall::<i64>(&rt, "hidden", &vec![]).unwrap(), 1);
}

#[test]
fn respond_to_checks_privacy_on_request() {
    let mut rt = Runtime::new();
    let c = rt.define_class("Example".to_string());
    let one = Fixnum::from_i64(&mut rt, 1).unwrap().as_value();
    rt.define_method(c, "shown".to_string(), false, MethodBehavior::Returns(one));
    rt.define_method(c, "hidden".to_string(), true, MethodBehavior::Returns(one));
    let obj = rt.alloc_object(c);
    assert!(obj.respond_to(&rt, "shown", false).unwrap());
    assert!(!obj.respond_to(&rt, "hidden", false).unwrap());
    assert!(obj.respond_to(&rt, "hidden", true).unwrap());
    assert!(!obj.respond_to(&rt, "absent", false).unwrap());
    assert!(!obj.respond_to(&rt, "absent", true).unwrap());
}

#[test]
fn method_redefinition_replaces() {
    let mut rt = Runtime::new();
    let c = rt.define_class("Example".to_string());
    let one = Fixnum::from_i64(&mut rt, 1).unwrap().as_value();
    let two = Fixnum::from_i64(&mut rt, 2).unwrap().as_value();
    assert!(!rt.define_method(c, "n".to_string(), false, MethodBehavior::Returns(one)));
    assert!(rt.define_method(c, "n".to_string(), false, MethodBehavior::Returns(two)));
    let obj = rt.alloc_object(c);
    assert_eq!(obj.funcall::<i64>(&rt, "n", &vec![]).unwrap(), 2);
}

#[test]
fn block_call_feeds_yielded_values_to_the_block() {
    let mut rt = Runtime::new();
    let c = rt.define_class("Each".to_string());
    let seven = Fixnum::from_i64(&mut rt, 7).unwrap().as_value();
    rt.define_method(c, "each".to_string(), false, MethodBehavior::Yields {
        args: vec![seven],
    });
    let obj = rt.alloc_object(c);
    let r: i64 = obj
        .block_call::<i64, _>(&rt, "each", &vec![], |ys, blk| {
            assert!(blk.is_none());
            assert_eq!(ys.len(), 1);
            Ok(ys[0])
        })
        .unwrap();
    assert_eq!(r, 7);
}

#[test]
fn block_call_turns_a_block_error_into_a_raise() {
    let mut rt = Runtime::new();
    let c = rt.define_class("Each".to_string());
    let seven = Fixnum::from_i64(&mut rt, 7).unwrap().as_value();
    rt.define_method(c, "each".to_string(), false, MethodBehavior::Yields {
        args: vec![seven],
    });
    let obj = rt.alloc_object(c);
    // A host-side error returned by the block must not vanish: it
    // crosses the callback boundary as a raise of the corresponding
    // runtime exception.
    let r = obj.block_call::<Value, _>(&rt, "each", &vec![], |ys, _blk| {
        ys[0].try_convert::<u8>(&rt).map(|_| ys[0])
    });
    match r {
        Ok(v) => assert_eq!(v.try_convert::<i64>(&rt).unwrap(), 7),
        Err(_) => panic!("7 fits u8, the block must succeed"),
    }
    let r2 = obj.block_call::<Value, _>(&rt, "each", &vec![], |_ys, _blk| {
        Err(tagged_value::error::Error::Range {
            target: tagged_value::error::TypeName::U8,
            negative: false,
        })
    });
    match r2 {
        Err(Error::Exception(e)) => {
            assert_eq!(e.class_name, "RangeError");
            assert_eq!(e.message, "integer too big to convert into `u8`");
        },
        _ => panic!("expected the block's error to surface as a raise"),
    }
}

#[test]
fn block_call_without_yield_behaves_like_funcall() {
    let mut rt = Runtime::new();
    let c = rt.define_class("Plain".to_string());
    let one = Fixnum::from_i64(&mut rt, 1).unwrap().as_value();
    rt.define_method(c, "one".to_string(), false, MethodBehavior::Returns(one));
    let obj = rt.alloc_object(c);
    let r: i64 = obj.block_call::<i64, _>(&rt, "one", &vec![], |_ys, _blk| {
        panic!("a non-yielding operation never calls the block")
    }).unwrap();
    assert_eq!(r, 1);
    assert!(matches!(
        obj.block_call::<Value, _>(&rt, "absent", &vec![], |ys, _blk| Ok(ys[0])),
        Err(Error::Exception(_))
    ));
}

#[test]
fn yield_without_a_block_is_a_local_jump_error() {
    let mut rt = Runtime::new();
    let c = rt.define_class("Each".to_string());
    let seven = Fixnum::from_i64(&mut rt, 7).unwrap().as_value();
    rt.define_method(c, "each".to_string(), false, MethodBehavior::Yields {
        args: vec![seven],
    });
    let obj = rt.alloc_object(c);
    match obj.funcall::<Value>(&rt, "each", &vec![]) {
        Err(Error::Exception(e)) => {
            assert_eq!(e.class_name, "LocalJumpError");
            assert_eq!(e.message, "no block given (yield)");
        },
        _ => panic!("yield without a block must raise"),
    }
}

#[test]
fn errors_translate_to_their_exception_classes() {
    let e = Error::Frozen { class_name: "Widget".to_string() };
    let exc = e.into_exception();
    assert_eq!(exc.class_name, "FrozenError");
    assert_eq!(exc.message, "can't modify frozen Widget");
    let e2 = Error::TypeMismatch { expected: TypeName::Integer, actual_class: "Array".to_string() };
    assert_eq!(e2.into_exception().class_name, "TypeError");
    // A captured exception re-raises verbatim.
    let e3 = Error::Exception(Exception::new("IOError".to_string(), "closed".to_string()));
    let exc3 = e3.into_exception();
    assert_eq!(exc3.class_name, "IOError");
    assert_eq!(exc3.message, "closed");
    // The callback boundary: Ok returns, Err raises.
    match callback_outcome(Ok(Value::new(1))) {
        CallOutcome::Return(v) => assert_eq!(v.as_rb_value(), 1),
        _ => panic!("expected a normal return"),
    }
    match callback_outcome(Err(Error::Frozen { class_name: "Widget".to_string() })) {
        CallOutcome::Raise(exc) => assert_eq!(exc.class_name, "FrozenError"),
        _ => panic!("expected a raise"),
    }
}

#[test]
fn equal_is_identity_without_dispatch() {
    let mut rt = Runtime::new();
    let a = rt.alloc_object(tagged_value::runtime::OBJECT_CLASS);
    let b = rt.alloc_object(tagged_value::runtime::OBJECT_CLASS);
    assert!(a.equal(&rt, a).unwrap());
    // Distinct plain objects with no `==` of their own are unequal.
    assert!(!a.equal(&rt, b).unwrap());
}

#[test]
fn equal_dispatches_and_reads_a_boolean() {
    let mut rt = Runtime::new();
    let c = rt.define_class("Always".to_string());
    let truth = Value::new(tagged_value::word::TRUE_WORD);
    rt.define_method(c, "==".to_string(), false, MethodBehavior::Returns(truth));
    let a = rt.alloc_object(c);
    let b = rt.alloc_object(c);
    assert!(a.equal(&rt, b).unwrap());
}

#[test]
fn equal_surfaces_a_raising_comparison() {
    let mut rt = Runtime::new();
    let c = rt.define_class("Example".to_string());
    rt.define_method(c, "==".to_string(), false, raising("RuntimeError", "unhandled exception"));
    let a = rt.alloc_object(c);
    let b = rt.alloc_object(c);
    assert!(a.equal(&rt, b).is_err());
    // Identity still short-circuits before the raising comparison.
    assert!(a.equal(&rt, a).unwrap());
}

#[test]
fn eql_dispatches_separately_from_equal() {
    let mut rt = Runtime::new();
    let c = rt.define_class("Example".to_string());
    let truth = Value::new(tagged_value::word::TRUE_WORD);
    rt.define_method(c, "eql?".to_string(), false, MethodBehavior::Returns(truth));
    let a = rt.alloc_object(c);
    let b = rt.alloc_object(c);
    assert!(a.eql(&rt, b).unwrap());
    // With no `==` defined, value equality still falls back to
    // identity.
    assert!(!a.equal(&rt, b).unwrap());
}
