//! The type-erased value model: one concrete native value at a time, plus a
//! mutability flag, inside a cloneable container owned by the argument array.

use vstd::prelude::*;

verus! {

/// Opaque, comparable token identifying a concrete native type at the
/// process level.  Used to validate that an argument slot holds the type a
/// parameter expects and to build a function's registered signature.
#[derive(Clone, Copy, PartialEq, Eq, Structural, Debug)]
pub enum TypeTag {
    Unit,
    Bool,
    Int,
    Text,
}

/// A concrete native value, one variant per supported native type.
/// `Unit` doubles as the canonical empty placeholder a consumed slot is
/// left holding.
#[derive(Clone, PartialEq, Eq, Debug)]
pub enum Value {
    Unit,
    Bool(bool),
    Int(i64),
    Text(String),
}

/// The display name of a type identity, for introspection metadata.
pub open spec fn tag_name(t: TypeTag) -> Seq<char> {
    match t {
        TypeTag::Unit => "unit"@,
        TypeTag::Bool => "bool"@,
        TypeTag::Int => "int"@,
        TypeTag::Text => "text"@,
    }
}

/// The display name of a type identity, for introspection metadata.
pub fn type_name_of(t: TypeTag) -> (r: String)
    ensures
        r@ == tag_name(t),
{
    match t {
        TypeTag::Unit => "unit".to_owned(),
        TypeTag::Bool => "bool".to_owned(),
        TypeTag::Int => "int".to_owned(),
        TypeTag::Text => "text".to_owned(),
    }
}

impl Value {
    /// The type identity of the held value.
    pub open spec fn tag(self) -> TypeTag {
        match self {
            Value::Unit => TypeTag::Unit,
            Value::Bool(_) => TypeTag::Bool,
            Value::Int(_) => TypeTag::Int,
            Value::Text(_) => TypeTag::Text,
        }
    }

    /// Runtime type identity of the held value.
    pub fn type_tag(&self) -> (t: TypeTag)
        ensures
            t == self.tag(),
    {
        match self {
            Value::Unit => TypeTag::Unit,
            Value::Bool(_) => TypeTag::Bool,
            Value::Int(_) => TypeTag::Int,
            Value::Text(_) => TypeTag::Text,
        }
    }

    /// An exact copy of the value.  Unlike the derived `Clone`, the copy is
    /// known to equal the original.
    pub fn duplicate(&self) -> (r: Value)
        ensures
            r == *self,
    {
        match self {
            Value::Unit => Value::Unit,
            Value::Bool(b) => Value::Bool(*b),
            Value::Int(i) => Value::Int(*i),
            Value::Text(s) => Value::Text(s.clone()),
        }
    }
}

/// Type-erased container holding exactly one concrete native value plus a
/// read-only flag.  One per argument-array slot; never shared across calls.
#[derive(Clone, PartialEq, Eq, Debug)]
pub struct Dynamic {
    pub value: Value,
    pub read_only: bool,
}

impl Dynamic {
    /// The canonical empty state consuming extraction leaves a slot in.
    pub open spec fn spec_unit() -> Dynamic {
        Dynamic { value: Value::Unit, read_only: false }
    }

    /// The canonical empty value.
    pub fn unit() -> (d: Dynamic)
        ensures
            d == Dynamic::spec_unit(),
    {
        Dynamic { value: Value::Unit, read_only: false }
    }

    /// Wrap a concrete value back into a mutable container, as the uniform
    /// closure does with a native function's return value.
    pub fn new(value: Value) -> (d: Dynamic)
        ensures
            d.value == value,
            !d.read_only,
    {
        Dynamic { value, read_only: false }
    }

    /// Wrap a concrete value the caller has marked immutable.
    pub fn new_read_only(value: Value) -> (d: Dynamic)
        ensures
            d.value == value,
            d.read_only,
    {
        Dynamic { value, read_only: true }
    }

    /// Whether the caller marked this value immutable.
    pub fn is_read_only(&self) -> (b: bool)
        ensures
            b == self.read_only,
    {
        self.read_only
    }

    /// Runtime type identity of the held value.
    pub fn type_tag(&self) -> (t: TypeTag)
        ensures
            t == self.value.tag(),
    {
        self.value.type_tag()
    }

    /// Borrowed-text fast path: a view of the slot's text without cloning
    /// the backing storage.  Text is kept in one canonical representation
    /// here, so no prior normalization step is needed.
    pub fn as_text(&self) -> (r: Option<&str>)
        ensures
            (match self.value {
                Value::Text(s) => r matches Some(t) && t@ == s@,
                _ => r is None,
            }),
    {
        match &self.value {
            Value::Text(s) => Some(s.as_str()),
            _ => None,
        }
    }
}

} // verus!
