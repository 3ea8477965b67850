//! The constant-safety guard: a pure policy check, run once per call before
//! argument extraction, that rejects attempts to mutate a value the caller
//! marked immutable.

use vstd::prelude::*;
use crate::dynamic::Dynamic;
use crate::error::Error;
use crate::register::CallConv;
use crate::strutil::{is_prefix_of, str_eq, str_starts_with};

verus! {

/// Reserved name the surrounding engine gives index-assignment calls.
pub open spec fn index_setter_name() -> Seq<char> {
    "index$set$"@
}

/// Reserved prefix the surrounding engine gives property-setter call names.
pub open spec fn property_setter_prefix() -> Seq<char> {
    "set$"@
}

/// The two deny patterns: a `Method`-convention call on a non-empty argument
/// array whose name is the index-assignment name with exactly 3 arguments,
/// or begins with the property-setter prefix with exactly 2 arguments, and
/// whose receiver (slot 0) is read-only.
pub open spec fn denies(conv: CallConv, name: Seq<char>, args: Seq<Dynamic>) -> bool {
    &&& conv == CallConv::Method
    &&& args.len() > 0
    &&& args[0].read_only
    &&& ((args.len() == 3 && name == index_setter_name()) || (args.len() == 2 && is_prefix_of(
        property_setter_prefix(),
        name,
    )))
}

/// Inspect the call's declared name and the mutability of slot 0; fail the
/// call with a non-pure-method-call-on-constant error, carrying the call
/// name, exactly when one of the deny patterns matches.  Performs no
/// mutation and never rejects a `Pure`-convention call.
pub fn check_constant(conv: CallConv, name: &str, args: &Vec<Dynamic>) -> (r: Result<(), Error>)
    ensures
        r is Err <==> denies(conv, name@, args@),
        r matches Err(e) ==> (e matches Error::NonPureMethodCallOnConstant { fn_name } && fn_name@
            == name@),
{
    if matches!(conv, CallConv::Method) && args.len() > 0 {
        let deny: bool = if args.len() == 3 {
            str_eq(name, "index$set$") && args[0].is_read_only()
        } else if args.len() == 2 {
            str_starts_with(name, "set$") && args[0].is_read_only()
        } else {
            false
        };
        if deny {
            return Err(Error::NonPureMethodCallOnConstant { fn_name: name.to_owned() });
        }
    }
    Ok(())
}

} // verus!
