//! The error taxonomy of the dispatch core.  Every error surfaces to the
//! immediate caller; nothing is retried, logged or swallowed.

use vstd::prelude::*;
use crate::dynamic::TypeTag;

verus! {

/// Why a dispatched call failed.
#[derive(Clone, PartialEq, Eq, Debug)]
pub enum Error {
    /// The constant-safety guard rejected a mutating call whose receiver the
    /// caller marked immutable.  Carries the call's declared name; the source
    /// position is filled in by the surrounding engine.
    NonPureMethodCallOnConstant { fn_name: String },
    /// Extraction found a slot whose runtime type does not match the declared
    /// parameter type.  Unreachable for a well-formed registration record,
    /// since arity and types were validated at dispatch-table lookup time,
    /// but the extractor is defensively total.
    TypeMismatch { expected: TypeTag, actual: TypeTag },
    /// An error the wrapped native function itself produced on a fallible
    /// path; passed through unmodified.
    Native { code: i64 },
}

} // verus!
