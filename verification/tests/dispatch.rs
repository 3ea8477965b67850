use fn_register::dynamic::{Dynamic, TypeTag, Value};
use fn_register::error::Error;
use fn_register::register::{CallConv, NativeCallContext, RegisterNativeFunction};
use fn_register::sample_fns::{AddInts, ConstInt, Decrement, IndexStore, NameIsIndexSetter, StoreInt};

fn mk_int(i: i64) -> Dynamic {
    Dynamic::new(Value::Int(i))
}

fn mk_const_int(i: i64) -> Dynamic {
    Dynamic::new_read_only(Value::Int(i))
}

#[test]
fn pure_add_two_ints() {
    let f = AddInts.into_callable_function();
    let ctx = NativeCallContext::new(String::from("add"));
    let mut args = vec![mk_int(3), mk_int(4)];
    let r = f.invoke(&ctx, &mut args);
    assert_eq!(r, Ok(Dynamic::new(Value::Int(7))));
}

#[test]
fn pure_call_leaves_only_empty_scratch_slots() {
    let f = AddInts.into_callable_function();
    let ctx = NativeCallContext::new(String::from("add"));
    let mut args = vec![mk_int(3), mk_int(4)];
    f.invoke(&ctx, &mut args).unwrap();
    assert_eq!(args[0], Dynamic::unit());
    assert_eq!(args[1], Dynamic::unit());
}

#[test]
fn returned_value_has_declared_return_type() {
    let f = AddInts.into_callable_function();
    let ctx = NativeCallContext::new(String::from("add"));
    let mut args = vec![mk_int(1), mk_int(2)];
    let r = f.invoke(&ctx, &mut args).unwrap();
    assert_eq!(r.type_tag(), f.return_type);
    assert_eq!(f.return_type, TypeTag::Int);
}

#[test]
fn add_wraps_at_the_integer_boundary() {
    let f = AddInts.into_callable_function();
    let ctx = NativeCallContext::new(String::from("add"));
    let mut args = vec![mk_int(i64::MAX), mk_int(1)];
    let r = f.invoke(&ctx, &mut args);
    assert_eq!(r, Ok(Dynamic::new(Value::Int(i64::MIN))));
}

#[test]
fn method_call_mutates_slot_zero_in_place() {
    let f = StoreInt.into_callable_function();
    let ctx = NativeCallContext::new(String::from("store"));
    let mut args = vec![mk_int(10), mk_int(4)];
    let r = f.invoke(&ctx, &mut args);
    assert_eq!(r, Ok(Dynamic::new(Value::Unit)));
    assert_eq!(args[0], mk_int(4));
    assert_eq!(args[1], Dynamic::unit());
}

#[test]
fn index_set_on_constant_receiver_is_rejected() {
    let f = IndexStore.into_callable_function();
    let ctx = NativeCallContext::new(String::from("index$set$"));
    let mut args = vec![mk_const_int(10), mk_int(0), mk_int(99)];
    let r = f.invoke(&ctx, &mut args);
    assert_eq!(
        r,
        Err(Error::NonPureMethodCallOnConstant { fn_name: String::from("index$set$") })
    );
    // The guard ran before extraction: the native function never executed
    // and no slot was touched.
    assert_eq!(args[0], mk_const_int(10));
    assert_eq!(args[1], mk_int(0));
    assert_eq!(args[2], mk_int(99));
}

#[test]
fn index_set_on_mutable_receiver_succeeds() {
    let f = IndexStore.into_callable_function();
    let ctx = NativeCallContext::new(String::from("index$set$"));
    let mut args = vec![mk_int(10), mk_int(0), mk_int(99)];
    let r = f.invoke(&ctx, &mut args);
    assert_eq!(r, Ok(Dynamic::new(Value::Unit)));
    assert_eq!(args[0], mk_int(99));
}

#[test]
fn property_setter_on_constant_receiver_is_rejected() {
    let f = StoreInt.into_callable_function();
    let ctx = NativeCallContext::new(String::from("set$x"));
    let mut args = vec![mk_const_int(10), mk_int(4)];
    let r = f.invoke(&ctx, &mut args);
    assert_eq!(
        r,
        Err(Error::NonPureMethodCallOnConstant { fn_name: String::from("set$x") })
    );
    assert_eq!(args[0], mk_const_int(10));
    assert_eq!(args[1], mk_int(4));
}

#[test]
fn property_setter_on_mutable_receiver_succeeds() {
    let f = StoreInt.into_callable_function();
    let ctx = NativeCallContext::new(String::from("set$x"));
    let mut args = vec![mk_int(10), mk_int(4)];
    let r = f.invoke(&ctx, &mut args);
    assert_eq!(r, Ok(Dynamic::new(Value::Unit)));
    assert_eq!(args[0], mk_int(4));
}

#[test]
fn guard_ignores_pure_calls_whatever_the_name() {
    let f = AddInts.into_callable_function();
    let ctx = NativeCallContext::new(String::from("set$x"));
    let mut args = vec![mk_const_int(3), mk_int(4)];
    let r = f.invoke(&ctx, &mut args);
    assert_eq!(r, Ok(Dynamic::new(Value::Int(7))));
}

#[test]
fn guard_needs_the_exact_index_set_name() {
    // Three arguments, read-only receiver, but not the reserved name.
    let f = IndexStore.into_callable_function();
    let ctx = NativeCallContext::new(String::from("set$x"));
    let mut args = vec![mk_const_int(10), mk_int(0), mk_int(99)];
    let r = f.invoke(&ctx, &mut args);
    assert_eq!(r, Ok(Dynamic::new(Value::Unit)));
    assert_eq!(args[0].value, Value::Int(99));
    // The receiver keeps the caller's mutability flag.
    assert!(args[0].read_only);
}

#[test]
fn guard_needs_the_setter_arity() {
    // The reserved prefix with two arguments denies; with three it is the
    // index-assignment name that counts, and a prefixed name passes.
    let f = StoreInt.into_callable_function();
    let ctx = NativeCallContext::new(String::from("set$"));
    let mut args = vec![mk_const_int(1), mk_int(2)];
    assert!(f.invoke(&ctx, &mut args).is_err());
}

#[test]
fn native_error_passes_through_untouched() {
    let f = Decrement.into_callable_function();
    let ctx = NativeCallContext::new(String::from("dec"));
    let mut args = vec![mk_int(i64::MIN)];
    let r = f.invoke(&ctx, &mut args);
    assert_eq!(r, Err(Error::Native { code: i64::MIN }));
}

#[test]
fn fallible_function_succeeds_off_its_error_case() {
    let f = Decrement.into_callable_function();
    let ctx = NativeCallContext::new(String::from("dec"));
    let mut args = vec![mk_int(5)];
    let r = f.invoke(&ctx, &mut args);
    assert_eq!(r, Ok(Dynamic::new(Value::Int(4))));
}

#[test]
fn ill_typed_slot_gives_a_type_mismatch() {
    let f = AddInts.into_callable_function();
    let ctx = NativeCallContext::new(String::from("add"));
    let mut args = vec![mk_int(1), Dynamic::new(Value::Bool(true))];
    let r = f.invoke(&ctx, &mut args);
    assert_eq!(
        r,
        Err(Error::TypeMismatch { expected: TypeTag::Int, actual: TypeTag::Bool })
    );
    // Extraction ran left to right: the first slot was already consumed,
    // the mismatching one is untouched.
    assert_eq!(args[0], Dynamic::unit());
    assert_eq!(args[1], Dynamic::new(Value::Bool(true)));
}

#[test]
fn nullary_function_reads_the_call_context() {
    let f = NameIsIndexSetter.into_callable_function();
    let ctx = NativeCallContext::new(String::from("index$set$"));
    let mut args = Vec::new();
    let r = f.invoke(&ctx, &mut args);
    assert_eq!(r, Ok(Dynamic::new(Value::Bool(true))));

    let other = NativeCallContext::new(String::from("elsewhere"));
    let mut args = Vec::new();
    let r = f.invoke(&other, &mut args);
    assert_eq!(r, Ok(Dynamic::new(Value::Bool(false))));
}

#[test]
fn captured_state_travels_with_the_record() {
    let f = ConstInt { k: 11 }.into_callable_function();
    let ctx = NativeCallContext::new(String::from("eleven"));
    let mut args = Vec::new();
    let r = f.invoke(&ctx, &mut args);
    assert_eq!(r, Ok(Dynamic::new(Value::Int(11))));
    assert_eq!(f.param_types, Vec::new());
}

#[test]
fn record_metadata_reports_the_declared_signature() {
    let f = StoreInt.into_callable_function();
    assert_eq!(f.conv, CallConv::Method);
    assert_eq!(f.param_types, vec![TypeTag::Int, TypeTag::Int]);
    assert_eq!(f.param_names, vec![String::from("int"), String::from("int")]);
    assert_eq!(f.return_type, TypeTag::Unit);
    assert_eq!(StoreInt::return_type_name(), String::from("unit"));
    assert_eq!(AddInts::return_type_name(), String::from("int"));
}
