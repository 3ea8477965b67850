//! Native functions registered through the adapter: one per corner of the
//! design space — stateless and value-capturing, context-free and
//! context-reading, infallible and fallible, `Pure` and `Method`.

use vstd::prelude::*;
use crate::dynamic::{type_name_of, TypeTag, Value};
use crate::error::Error;
use crate::guard::index_setter_name;
use crate::register::{CallConv, CallableFunction, NativeCallContext, RegisterNativeFunction};
use crate::strutil::str_eq;
use vstd::wrapping::i64_specs;

verus! {

/// `add(a: Int, b: Int) -> Int` under the `Pure` convention: wrapping
/// addition of two integers, mutating nothing.
pub struct AddInts;

impl RegisterNativeFunction for AddInts {
    open spec fn params() -> Seq<TypeTag> {
        seq![TypeTag::Int, TypeTag::Int]
    }

    open spec fn conv() -> CallConv {
        CallConv::Pure
    }

    open spec fn return_tag() -> TypeTag {
        TypeTag::Int
    }

    open spec fn fallible() -> bool {
        false
    }

    open spec fn result(&self, name: Seq<char>, vals: Seq<Value>) -> Result<
        (Seq<Value>, Value),
        Error,
    > {
        Ok((vals, Value::Int(i64_specs::wrapping_add(vals[0]->Int_0, vals[1]->Int_0))))
    }

    proof fn lemma_result_shape(&self, name: Seq<char>, vals: Seq<Value>) {
    }

    fn call(&self, ctx: &NativeCallContext, vals: &mut Vec<Value>) -> (r: Result<Value, Error>) {
        let a = match &vals[0] {
            Value::Int(i) => *i,
            _ => 0,
        };
        let b = match &vals[1] {
            Value::Int(i) => *i,
            _ => 0,
        };
        Ok(Value::Int(a.wrapping_add(b)))
    }

    fn convention() -> (c: CallConv) {
        CallConv::Pure
    }

    fn param_types() -> (r: Vec<TypeTag>) {
        let mut r: Vec<TypeTag> = Vec::new();
        r.push(TypeTag::Int);
        r.push(TypeTag::Int);
        proof {
            assert(r@ =~= Self::params());
        }
        r
    }

    fn param_names() -> (r: Vec<String>) {
        let mut r: Vec<String> = Vec::new();
        r.push(type_name_of(TypeTag::Int));
        r.push(type_name_of(TypeTag::Int));
        r
    }

    fn return_type() -> (t: TypeTag) {
        TypeTag::Int
    }

    fn into_callable_function(self) -> (r: CallableFunction<Self>) {
        CallableFunction {
            func: self,
            conv: Self::convention(),
            param_types: Self::param_types(),
            param_names: Self::param_names(),
            return_type: Self::return_type(),
        }
    }
}

/// `set_x(obj: &mut Int, v: Int)` under the `Method` convention: stores the
/// second argument into the receiver in place and returns the empty value.
pub struct StoreInt;

impl RegisterNativeFunction for StoreInt {
    open spec fn params() -> Seq<TypeTag> {
        seq![TypeTag::Int, TypeTag::Int]
    }

    open spec fn conv() -> CallConv {
        CallConv::Method
    }

    open spec fn return_tag() -> TypeTag {
        TypeTag::Unit
    }

    open spec fn fallible() -> bool {
        false
    }

    open spec fn result(&self, name: Seq<char>, vals: Seq<Value>) -> Result<
        (Seq<Value>, Value),
        Error,
    > {
        Ok((vals.update(0, vals[1]), Value::Unit))
    }

    proof fn lemma_result_shape(&self, name: Seq<char>, vals: Seq<Value>) {
    }

    fn call(&self, ctx: &NativeCallContext, vals: &mut Vec<Value>) -> (r: Result<Value, Error>) {
        let v = match &vals[1] {
            Value::Int(i) => Value::Int(*i),
            _ => Value::Unit,
        };
        vals[0] = v;
        proof {
            assert(final(vals)@ =~= old(vals)@.update(0, old(vals)@[1]));
        }
        Ok(Value::Unit)
    }

    fn convention() -> (c: CallConv) {
        CallConv::Method
    }

    fn param_types() -> (r: Vec<TypeTag>) {
        let mut r: Vec<TypeTag> = Vec::new();
        r.push(TypeTag::Int);
        r.push(TypeTag::Int);
        proof {
            assert(r@ =~= Self::params());
        }
        r
    }

    fn param_names() -> (r: Vec<String>) {
        let mut r: Vec<String> = Vec::new();
        r.push(type_name_of(TypeTag::Int));
        r.push(type_name_of(TypeTag::Int));
        r
    }

    fn return_type() -> (t: TypeTag) {
        TypeTag::Unit
    }

    fn into_callable_function(self) -> (r: CallableFunction<Self>) {
        CallableFunction {
            func: self,
            conv: Self::convention(),
            param_types: Self::param_types(),
            param_names: Self::param_names(),
            return_type: Self::return_type(),
        }
    }
}

/// `dec(a: Int) -> Int` under the `Pure` convention, with a fallible
/// return: one less than the argument, or the function's own error when
/// that would underflow.  The error carries the offending argument and is
/// passed through the dispatcher untouched.
pub struct Decrement;

impl RegisterNativeFunction for Decrement {
    open spec fn params() -> Seq<TypeTag> {
        seq![TypeTag::Int]
    }

    open spec fn conv() -> CallConv {
        CallConv::Pure
    }

    open spec fn return_tag() -> TypeTag {
        TypeTag::Int
    }

    open spec fn fallible() -> bool {
        true
    }

    open spec fn result(&self, name: Seq<char>, vals: Seq<Value>) -> Result<
        (Seq<Value>, Value),
        Error,
    > {
        if vals[0]->Int_0 > i64::MIN {
            Ok((vals, Value::Int((vals[0]->Int_0 - 1) as i64)))
        } else {
            Err(Error::Native { code: vals[0]->Int_0 })
        }
    }

    proof fn lemma_result_shape(&self, name: Seq<char>, vals: Seq<Value>) {
    }

    fn call(&self, ctx: &NativeCallContext, vals: &mut Vec<Value>) -> (r: Result<Value, Error>) {
        proof {
            assert(old(vals)@[0].tag() == Self::params()[0]);
        }
        let a = match &vals[0] {
            Value::Int(i) => *i,
            _ => 0,
        };
        if a > i64::MIN {
            Ok(Value::Int(a - 1))
        } else {
            Err(Error::Native { code: a })
        }
    }

    fn convention() -> (c: CallConv) {
        CallConv::Pure
    }

    fn param_types() -> (r: Vec<TypeTag>) {
        let mut r: Vec<TypeTag> = Vec::new();
        r.push(TypeTag::Int);
        proof {
            assert(r@ =~= Self::params());
        }
        r
    }

    fn param_names() -> (r: Vec<String>) {
        let mut r: Vec<String> = Vec::new();
        r.push(type_name_of(TypeTag::Int));
        r
    }

    fn return_type() -> (t: TypeTag) {
        TypeTag::Int
    }

    fn into_callable_function(self) -> (r: CallableFunction<Self>) {
        CallableFunction {
            func: self,
            conv: Self::convention(),
            param_types: Self::param_types(),
            param_names: Self::param_names(),
            return_type: Self::return_type(),
        }
    }
}

/// An index-assignment-shaped function under the `Method` convention:
/// `(obj: &mut Int, index: Int, value: Int)` stores the value into the
/// receiver in place, ignoring the index, and returns the empty value.
pub struct IndexStore;

impl RegisterNativeFunction for IndexStore {
    open spec fn params() -> Seq<TypeTag> {
        seq![TypeTag::Int, TypeTag::Int, TypeTag::Int]
    }

    open spec fn conv() -> CallConv {
        CallConv::Method
    }

    open spec fn return_tag() -> TypeTag {
        TypeTag::Unit
    }

    open spec fn fallible() -> bool {
        false
    }

    open spec fn result(&self, name: Seq<char>, vals: Seq<Value>) -> Result<
        (Seq<Value>, Value),
        Error,
    > {
        Ok((vals.update(0, vals[2]), Value::Unit))
    }

    proof fn lemma_result_shape(&self, name: Seq<char>, vals: Seq<Value>) {
    }

    fn call(&self, ctx: &NativeCallContext, vals: &mut Vec<Value>) -> (r: Result<Value, Error>) {
        let v = match &vals[2] {
            Value::Int(i) => Value::Int(*i),
            _ => Value::Unit,
        };
        vals[0] = v;
        proof {
            assert(final(vals)@ =~= old(vals)@.update(0, old(vals)@[2]));
        }
        Ok(Value::Unit)
    }

    fn convention() -> (c: CallConv) {
        CallConv::Method
    }

    fn param_types() -> (r: Vec<TypeTag>) {
        let mut r: Vec<TypeTag> = Vec::new();
        r.push(TypeTag::Int);
        r.push(TypeTag::Int);
        r.push(TypeTag::Int);
        proof {
            assert(r@ =~= Self::params());
        }
        r
    }

    fn param_names() -> (r: Vec<String>) {
        let mut r: Vec<String> = Vec::new();
        r.push(type_name_of(TypeTag::Int));
        r.push(type_name_of(TypeTag::Int));
        r.push(type_name_of(TypeTag::Int));
        r
    }

    fn return_type() -> (t: TypeTag) {
        TypeTag::Unit
    }

    fn into_callable_function(self) -> (r: CallableFunction<Self>) {
        CallableFunction {
            func: self,
            conv: Self::convention(),
            param_types: Self::param_types(),
            param_names: Self::param_names(),
            return_type: Self::return_type(),
        }
    }
}

/// A nullary function carrying captured state, as a capturing closure
/// would: it always returns the integer it was registered with.
pub struct ConstInt {
    pub k: i64,
}

impl RegisterNativeFunction for ConstInt {
    open spec fn params() -> Seq<TypeTag> {
        Seq::empty()
    }

    open spec fn conv() -> CallConv {
        CallConv::Pure
    }

    open spec fn return_tag() -> TypeTag {
        TypeTag::Int
    }

    open spec fn fallible() -> bool {
        false
    }

    open spec fn result(&self, name: Seq<char>, vals: Seq<Value>) -> Result<
        (Seq<Value>, Value),
        Error,
    > {
        Ok((vals, Value::Int(self.k)))
    }

    proof fn lemma_result_shape(&self, name: Seq<char>, vals: Seq<Value>) {
    }

    fn call(&self, ctx: &NativeCallContext, vals: &mut Vec<Value>) -> (r: Result<Value, Error>) {
        Ok(Value::Int(self.k))
    }

    fn convention() -> (c: CallConv) {
        CallConv::Pure
    }

    fn param_types() -> (r: Vec<TypeTag>) {
        let r: Vec<TypeTag> = Vec::new();
        proof {
            assert(r@ =~= Self::params());
        }
        r
    }

    fn param_names() -> (r: Vec<String>) {
        Vec::new()
    }

    fn return_type() -> (t: TypeTag) {
        TypeTag::Int
    }

    fn into_callable_function(self) -> (r: CallableFunction<Self>) {
        CallableFunction {
            func: self,
            conv: Self::convention(),
            param_types: Self::param_types(),
            param_names: Self::param_names(),
            return_type: Self::return_type(),
        }
    }
}

/// A nullary function that reads the injected call context: reports whether
/// the call was made under the reserved index-assignment name.
pub struct NameIsIndexSetter;

impl RegisterNativeFunction for NameIsIndexSetter {
    open spec fn params() -> Seq<TypeTag> {
        Seq::empty()
    }

    open spec fn conv() -> CallConv {
        CallConv::Pure
    }

    open spec fn return_tag() -> TypeTag {
        TypeTag::Bool
    }

    open spec fn fallible() -> bool {
        false
    }

    open spec fn result(&self, name: Seq<char>, vals: Seq<Value>) -> Result<
        (Seq<Value>, Value),
        Error,
    > {
        Ok((vals, Value::Bool(name == index_setter_name())))
    }

    proof fn lemma_result_shape(&self, name: Seq<char>, vals: Seq<Value>) {
    }

    fn call(&self, ctx: &NativeCallContext, vals: &mut Vec<Value>) -> (r: Result<Value, Error>) {
        Ok(Value::Bool(str_eq(ctx.fn_name.as_str(), "index$set$")))
    }

    fn convention() -> (c: CallConv) {
        CallConv::Pure
    }

    fn param_types() -> (r: Vec<TypeTag>) {
        let r: Vec<TypeTag> = Vec::new();
        proof {
            assert(r@ =~= Self::params());
        }
        r
    }

    fn param_names() -> (r: Vec<String>) {
        Vec::new()
    }

    fn return_type() -> (t: TypeTag) {
        TypeTag::Bool
    }

    fn into_callable_function(self) -> (r: CallableFunction<Self>) {
        CallableFunction {
            func: self,
            conv: Self::convention(),
            param_types: Self::param_types(),
            param_names: Self::param_names(),
            return_type: Self::return_type(),
        }
    }
}

} // verus!
