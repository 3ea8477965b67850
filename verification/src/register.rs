//! The function registration mechanism: argument extraction, the calling
//! conventions, and the signature adapter that turns a native function into
//! the uniform dispatch entry point held by a registration record.

use vstd::prelude::*;
use crate::dynamic::{tag_name, type_name_of, Dynamic, TypeTag, Value};
use crate::error::Error;
use crate::guard::{check_constant, denies};

verus! {

/// Call-site metadata the engine injects into every dispatch: the declared
/// name under which the function was called.
pub struct NativeCallContext {
    pub fn_name: String,
}

impl NativeCallContext {
    /// A context for a call made under the given declared name.
    pub fn new(fn_name: String) -> (c: Self)
        ensures
            c.fn_name == fn_name,
    {
        NativeCallContext { fn_name }
    }
}

/// The concrete values held by a sequence of argument slots.
pub open spec fn values_of(args: Seq<Dynamic>) -> Seq<Value> {
    args.map(|i: int, d: Dynamic| d.value)
}

/// The extracted values agree, position by position, with the declared
/// parameter type identities.
pub open spec fn args_match(vals: Seq<Value>, params: Seq<TypeTag>) -> bool {
    vals.len() == params.len() && (forall|i: int|
        0 <= i < vals.len() ==> vals[i].tag() == params[i])
}

/// How the dispatcher hands a registered function its arguments: `Pure`
/// extracts every argument by value and mutates nothing; `Method` extracts
/// the first argument by mutable borrow, enabling in-place mutation of the
/// receiver slot, and the rest by value.
#[derive(Clone, Copy, PartialEq, Eq, Structural, Debug)]
pub enum CallConv {
    Pure,
    Method,
}

/// Marker type recording, in a registered signature, that a parameter is
/// taken by mutable reference rather than by value.  Values of it are never
/// constructed; it only distinguishes signatures.
#[allow(dead_code)]
pub struct Mut<T>(T);

/// Scoped exclusive handle into one argument slot, produced by borrowing
/// extraction.  It exposes the slot's prior value; mutations made through it
/// become visible in the slot once it is written back.
pub struct DynamicWriteLock {
    pub value: Value,
}

impl DynamicWriteLock {
    /// Surrender the handle, yielding the (possibly mutated) value.
    pub fn into_inner(self) -> (v: Value)
        ensures
            v == self.value,
    {
        self.value
    }
}

/// Consuming extraction: move the slot's value out if its runtime type
/// matches the requested one, leaving the slot in the canonical empty state;
/// otherwise reject the call and leave the slot untouched.
pub fn by_value(data: &mut Dynamic, want: TypeTag) -> (r: Result<Value, Error>)
    ensures
        old(data).value.tag() == want ==> r == Ok::<Value, Error>(old(data).value)
            && *final(data) == Dynamic::spec_unit(),
        old(data).value.tag() != want ==> r == Err::<Value, Error>(
            (Error::TypeMismatch { expected: want, actual: old(data).value.tag() }),
        ) && *final(data) == *old(data),
{
    let actual = data.value.type_tag();
    if actual == want {
        let mut taken = Value::Unit;
        core::mem::swap(&mut data.value, &mut taken);
        data.read_only = false;
        Ok(taken)
    } else {
        Err(Error::TypeMismatch { expected: want, actual })
    }
}

/// Owned-text fast path of consuming extraction: take the slot's backing
/// text storage directly instead of going through the generic downcast,
/// leaving the slot in the canonical empty state.
pub fn take_text(data: &mut Dynamic) -> (r: Result<String, Error>)
    ensures
        old(data).value matches Value::Text(s) ==> r == Ok::<String, Error>(s) && *final(data)
            == Dynamic::spec_unit(),
        !(old(data).value is Text) ==> r == Err::<String, Error>(
            (Error::TypeMismatch { expected: TypeTag::Text, actual: old(data).value.tag() }),
        ) && *final(data) == *old(data),
{
    let actual = data.value.type_tag();
    if actual == TypeTag::Text {
        let mut taken = Value::Unit;
        core::mem::swap(&mut data.value, &mut taken);
        data.read_only = false;
        match taken {
            Value::Text(s) => Ok(s),
            // Unreachable: the slot was just checked to hold text.
            _ => Err(Error::TypeMismatch { expected: TypeTag::Text, actual: TypeTag::Text }),
        }
    } else {
        Err(Error::TypeMismatch { expected: TypeTag::Text, actual })
    }
}

/// Borrowing extraction: produce an exclusive handle onto the slot's value
/// if its runtime type matches the requested one.  The slot itself is left
/// in place; mutations through the handle reach it via [`write_back`].
pub fn by_ref(data: &mut Dynamic, want: TypeTag) -> (r: Result<DynamicWriteLock, Error>)
    ensures
        *final(data) == *old(data),
        old(data).value.tag() == want ==> (r matches Ok(lock) && lock.value == old(data).value),
        old(data).value.tag() != want ==> r == Err::<DynamicWriteLock, Error>(
            (Error::TypeMismatch { expected: want, actual: old(data).value.tag() }),
        ),
{
    let actual = data.value.type_tag();
    if actual == want {
        Ok(DynamicWriteLock { value: data.value.duplicate() })
    } else {
        Err(Error::TypeMismatch { expected: want, actual })
    }
}

/// End of a borrowing extraction's scope: the handle's value replaces the
/// slot's value in place.  The slot keeps its mutability flag.
pub fn write_back(data: &mut Dynamic, v: Value)
    ensures
        final(data).value == v,
        final(data).read_only == old(data).read_only,
{
    data.value = v;
}

/// Trait to register custom native functions.
///
/// Each registrable function type declares its shape once: the ordered
/// parameter type identities (the `Method` receiver reports the same
/// identity as its `Pure` counterpart — the calling convention, not the
/// declared type, carries the mutability), the calling convention, the
/// success return type identity, and whether the return is fallible.  Its
/// behaviour is pinned by the specification function [`Self::result`]: from
/// the declared call name and the extracted argument values, the argument
/// values after the call and the returned value, or the function's own
/// error, passed through untouched.  A function that ignores the injected
/// call context is exactly the context-free variant; an infallible one
/// declares it and owes success.
pub trait RegisterNativeFunction: Sized {
    /// Declared parameter type identities, receiver first.
    spec fn params() -> Seq<TypeTag>;

    /// The calling convention the function is registered under.
    spec fn conv() -> CallConv;

    /// Type identity of the success value (for a fallible return, the inner
    /// success type, not the wrapper).
    spec fn return_tag() -> TypeTag;

    /// Whether the function's return is fallible.  An infallible function
    /// never produces an error of its own.
    spec fn fallible() -> bool;

    /// The function's behaviour on one call: given the declared call name
    /// and the extracted argument values, the argument values after the
    /// call (only a `Method` receiver may change) and the returned value,
    /// or the function's own error.
    spec fn result(&self, name: Seq<char>, vals: Seq<Value>) -> Result<(Seq<Value>, Value), Error>;

    /// Shape law every registrable function obeys: on well-typed arguments
    /// a successful call keeps the argument count, returns a value of the
    /// declared return type identity, leaves every argument after the
    /// receiver unchanged, leaves all of them unchanged under `Pure`, and
    /// keeps the receiver's type identity; a `Method` function takes at
    /// least one parameter; an infallible function succeeds.
    proof fn lemma_result_shape(&self, name: Seq<char>, vals: Seq<Value>)
        requires
            args_match(vals, Self::params()),
        ensures
            Self::conv() == CallConv::Method ==> Self::params().len() >= 1,
            !Self::fallible() ==> self.result(name, vals) is Ok,
            self.result(name, vals) matches Ok(out) ==> {
                &&& out.0.len() == vals.len()
                &&& out.1.tag() == Self::return_tag()
                &&& forall|i: int| 1 <= i < vals.len() ==> out.0[i] == vals[i]
                &&& (Self::conv() == CallConv::Pure ==> out.0 == vals)
                &&& (vals.len() > 0 ==> out.0[0].tag() == vals[0].tag())
            },
    ;

    /// Run the native function once on the extracted argument values,
    /// exactly as [`Self::result`] describes.  A `Method` function mutates
    /// `vals[0]` in place; the dispatcher writes it back to slot 0.
    fn call(&self, ctx: &NativeCallContext, vals: &mut Vec<Value>) -> (r: Result<Value, Error>)
        requires
            args_match(old(vals)@, Self::params()),
        ensures
            (match self.result(ctx.fn_name@, old(vals)@) {
                Ok(out) => r == Ok::<Value, Error>(out.1) && final(vals)@ == out.0,
                Err(e) => r == Err::<Value, Error>(e),
            }),
    ;

    /// The calling convention, as runtime data.
    fn convention() -> (c: CallConv)
        ensures
            c == Self::conv(),
    ;

    /// The type identities of this function's parameters.
    fn param_types() -> (r: Vec<TypeTag>)
        ensures
            r@ == Self::params(),
    ;

    /// The type names of this function's parameters, for introspection.
    fn param_names() -> (r: Vec<String>)
        ensures
            r@.len() == Self::params().len(),
            forall|i: int| 0 <= i < r@.len() ==> r@[i]@ == tag_name(Self::params()[i]),
    ;

    /// The type identity of this function's return value.
    fn return_type() -> (t: TypeTag)
        ensures
            t == Self::return_tag(),
    ;

    /// The type name of this function's return value, for introspection.
    fn return_type_name() -> (r: String)
        ensures
            r@ == tag_name(Self::return_tag()),
    {
        type_name_of(Self::return_type())
    }

    /// Convert this function into a [`CallableFunction`], normally by
    /// handing it to [`CallableFunction::new`].
    fn into_callable_function(self) -> (r: CallableFunction<Self>)
        ensures
            r.func == self,
            r.conv == Self::conv(),
            r.param_types@ == Self::params(),
            r.return_type == Self::return_tag(),
            r.param_names@.len() == Self::params().len(),
            forall|i: int|
                0 <= i < r.param_names@.len() ==> r.param_names@[i]@ == tag_name(
                    Self::params()[i],
                ),
    ;
}

/// Callable registration record: the adapted native function together with
/// the metadata the dispatch table reads.  Construction is the only write;
/// thereafter it is read-only and shared by every subsequent call.
pub struct CallableFunction<F> {
    pub func: F,
    pub conv: CallConv,
    pub param_types: Vec<TypeTag>,
    pub param_names: Vec<String>,
    pub return_type: TypeTag,
}

impl<F: RegisterNativeFunction> CallableFunction<F> {
    /// The stored metadata agrees with the function's declared shape.
    pub open spec fn wf(self) -> bool {
        &&& self.conv == F::conv()
        &&& self.param_types@ == F::params()
        &&& self.return_type == F::return_tag()
        &&& self.param_names@.len() == F::params().len()
        &&& forall|i: int|
            0 <= i < self.param_names@.len() ==> self.param_names@[i]@ == tag_name(F::params()[i])
    }

    /// Build the registration record for a native function.
    pub fn new(func: F) -> (r: Self)
        ensures
            r.wf(),
            r.func == func,
    {
        CallableFunction {
            func,
            conv: F::convention(),
            param_types: F::param_types(),
            param_names: F::param_names(),
            return_type: F::return_type(),
        }
    }

    /// The uniform dispatch entry point.  Runs the constant-safety guard,
    /// extracts each argument left to right — by mutable borrow for slot 0
    /// under `Method`, by value everywhere else — invokes the native
    /// function exactly once, writes a `Method` receiver back into slot 0,
    /// and wraps the result into a mutable [`Dynamic`].  Consumed slots are
    /// left in the canonical empty state.  The argument array must have
    /// length equal to the record's declared arity; a violation is a
    /// programming error in the caller, not a recoverable condition here.
    pub fn invoke(&self, ctx: &NativeCallContext, args: &mut Vec<Dynamic>) -> (r: Result<
        Dynamic,
        Error,
    >)
        requires
            self.wf(),
            old(args)@.len() == F::params().len(),
        ensures
            denies(self.conv, ctx.fn_name@, old(args)@) ==> {
                &&& (r matches Err(e) && e matches Error::NonPureMethodCallOnConstant { fn_name }
                    && fn_name@ == ctx.fn_name@)
                &&& final(args)@ == old(args)@
            },
            !denies(self.conv, ctx.fn_name@, old(args)@) && args_match(
                values_of(old(args)@),
                F::params(),
            ) ==> (match self.func.result(ctx.fn_name@, values_of(old(args)@)) {
                Ok(out) => {
                    &&& (r matches Ok(d) && d.value == out.1 && !d.read_only)
                    &&& final(args)@.len() == old(args)@.len()
                    &&& (forall|i: int|
                        0 <= i < final(args)@.len() && !(self.conv == CallConv::Method && i == 0)
                            ==> final(args)@[i] == Dynamic::spec_unit())
                    &&& (self.conv == CallConv::Method && old(args)@.len() > 0 ==> final(args)@[0]
                        == (Dynamic { value: out.0[0], read_only: old(args)@[0].read_only }))
                },
                Err(e) => {
                    &&& r == Err::<Dynamic, Error>(e)
                    &&& final(args)@.len() == old(args)@.len()
                    &&& (forall|i: int|
                        0 <= i < final(args)@.len() && !(self.conv == CallConv::Method && i == 0)
                            ==> final(args)@[i] == Dynamic::spec_unit())
                    &&& (self.conv == CallConv::Method && old(args)@.len() > 0 ==> final(args)@[0]
                        == old(args)@[0])
                },
            }),
            !denies(self.conv, ctx.fn_name@, old(args)@) && !args_match(
                values_of(old(args)@),
                F::params(),
            ) ==> (exists|k: int|
                {
                    &&& 0 <= k < old(args)@.len()
                    &&& old(args)@[k].value.tag() != F::params()[k]
                    &&& (forall|j: int|
                        0 <= j < k ==> old(args)@[j].value.tag() == F::params()[j])
                    &&& r == Err::<Dynamic, Error>(
                        (Error::TypeMismatch {
                            expected: F::params()[k],
                            actual: old(args)@[k].value.tag(),
                        }),
                    )
                    &&& final(args)@.len() == old(args)@.len()
                    &&& (forall|j: int|
                        0 <= j < final(args)@.len() ==> final(args)@[j] == (if j < k && !(self.conv
                            == CallConv::Method && j == 0) {
                            Dynamic::spec_unit()
                        } else {
                            old(args)@[j]
                        }))
                }),
            r matches Ok(d) ==> d.value.tag() == self.return_type && !d.read_only,
            !denies(self.conv, ctx.fn_name@, old(args)@) && args_match(
                values_of(old(args)@),
                F::params(),
            ) && !F::fallible() ==> r is Ok,
    {
        let conv = self.conv;
        match check_constant(conv, ctx.fn_name.as_str(), args) {
            Err(e) => {
                return Err(e);
            },
            Ok(()) => {},
        }
        let n = args.len();
        let is_method = matches!(conv, CallConv::Method);
        let mut vals: Vec<Value> = Vec::new();
        let mut i: usize = 0;
        while i < n
            invariant
                self.wf(),
                conv == self.conv,
                is_method == (self.conv == CallConv::Method),
                n == args@.len(),
                n == old(args)@.len(),
                n == F::params().len(),
                !denies(self.conv, ctx.fn_name@, old(args)@),
                0 <= i <= n,
                vals@.len() == i,
                forall|j: int| 0 <= j < i ==> vals@[j] == old(args)@[j].value,
                forall|j: int| 0 <= j < i ==> old(args)@[j].value.tag() == F::params()[j],
                forall|j: int| i <= j < n ==> args@[j] == old(args)@[j],
                forall|j: int|
                    0 <= j < i ==> args@[j] == (if is_method && j == 0 {
                        old(args)@[j]
                    } else {
                        Dynamic::spec_unit()
                    }),
            decreases n - i,
        {
            let want = self.param_types[i];
            if is_method && i == 0 {
                match by_ref(&mut args[0], want) {
                    Ok(lock) => {
                        vals.push(lock.into_inner());
                    },
                    Err(e) => {
                        return Err(e);
                    },
                }
            } else {
                match by_value(&mut args[i], want) {
                    Ok(v) => {
                        vals.push(v);
                    },
                    Err(e) => {
                        return Err(e);
                    },
                }
            }
            i = i + 1;
        }
        proof {
            assert(vals@ =~= values_of(old(args)@));
            self.func.lemma_result_shape(ctx.fn_name@, values_of(old(args)@));
        }
        let res = self.func.call(ctx, &mut vals);
        match res {
            Ok(ret) => {
                if is_method {
                    let recv = vals.swap_remove(0);
                    write_back(&mut args[0], recv);
                }
                Ok(Dynamic::new(ret))
            },
            Err(e) => Err(e),
        }
    }

}

/// Law: the calling convention alone bounds mutation.  On well-typed
/// arguments, a successful native call under the `Pure` convention leaves
/// every argument value exactly as it went in, and one under the `Method`
/// convention leaves every argument value after the receiver unchanged —
/// only slot 0 is ever mutated in place.
pub proof fn lemma_convention_bounds_mutation<F: RegisterNativeFunction>(
    f: &F,
    name: Seq<char>,
    vals: Seq<Value>,
)
    requires
        args_match(vals, F::params()),
    ensures
        (match f.result(name, vals) {
            Ok(out) => {
                &&& (F::conv() == CallConv::Pure ==> out.0 == vals)
                &&& (forall|i: int| 1 <= i < vals.len() ==> out.0[i] == vals[i])
            },
            Err(_) => true,
        }),
{
    f.lemma_result_shape(name, vals);
}

} // verus!
