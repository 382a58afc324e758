//! The constant value model: the tree of values that resolvers take as
//! arguments and hand back as results, and the conversions between plain
//! Rust values and that tree.
//!
//! A conversion trait pins each implementation down through a relation
//! between the plain value and the tree: converting to the tree yields a
//! related tree, and converting from a tree yields a related plain value,
//! or an error exactly when no plain value is related to the tree.

use vstd::prelude::*;
use vstd::string::StringExecFns;

verus! {

/// A constant value of the schema's data model.
#[derive(Debug, PartialEq)]
pub enum ConstValue {
    Null,
    Number(i64),
    String(String),
    Boolean(bool),
    List(Vec<ConstValue>),
    Object(Vec<(String, ConstValue)>),
}

/// A plain value that can be turned into a constant value.
pub trait ToConstValue {
    /// The constant values this plain value may turn into.
    spec fn to_rel(&self, v: ConstValue) -> bool;

    /// Turn this value into a constant value.
    fn to_const_value(&self) -> (r: ConstValue)
        ensures
            self.to_rel(r),
    ;
}

/// A plain value that can be read back out of a constant value.
pub trait FromConstValue: Sized {
    /// The plain values a constant value may be read as.
    spec fn from_rel(v: ConstValue, r: Self) -> bool;

    /// Read a plain value out of a constant value; err exactly when the
    /// constant value holds no such plain value.
    fn from_const_value(value: &ConstValue) -> (r: Result<Self, String>)
        ensures
            r matches Ok(x) ==> Self::from_rel(*value, x),
            r is Err ==> forall|x: Self| !Self::from_rel(*value, x),
    ;
}

impl ToConstValue for i64 {
    open spec fn to_rel(&self, v: ConstValue) -> bool {
        v == ConstValue::Number(*self)
    }

    fn to_const_value(&self) -> (r: ConstValue) {
        ConstValue::Number(*self)
    }
}

impl FromConstValue for i64 {
    open spec fn from_rel(v: ConstValue, r: Self) -> bool {
        v == ConstValue::Number(r)
    }

    fn from_const_value(value: &ConstValue) -> (r: Result<Self, String>) {
        match value {
            ConstValue::Number(n) => Ok(*n),
            _ => Err("Expected number".to_owned()),
        }
    }
}

impl ToConstValue for i32 {
    open spec fn to_rel(&self, v: ConstValue) -> bool {
        v == ConstValue::Number(*self as i64)
    }

    fn to_const_value(&self) -> (r: ConstValue) {
        ConstValue::Number(*self as i64)
    }
}

impl FromConstValue for i32 {
    open spec fn from_rel(v: ConstValue, r: Self) -> bool {
        v == ConstValue::Number(r as i64)
    }

    fn from_const_value(value: &ConstValue) -> (r: Result<Self, String>) {
        match value {
            ConstValue::Number(n) => {
                if *n >= i32::MIN as i64 && *n <= i32::MAX as i64 {
                    Ok(*n as i32)
                } else {
                    Err("Expected i32".to_owned())
                }
            },
            _ => Err("Expected number".to_owned()),
        }
    }
}

impl ToConstValue for bool {
    open spec fn to_rel(&self, v: ConstValue) -> bool {
        v == ConstValue::Boolean(*self)
    }

    fn to_const_value(&self) -> (r: ConstValue) {
        ConstValue::Boolean(*self)
    }
}

impl FromConstValue for bool {
    open spec fn from_rel(v: ConstValue, r: Self) -> bool {
        v == ConstValue::Boolean(r)
    }

    fn from_const_value(value: &ConstValue) -> (r: Result<Self, String>) {
        match value {
            ConstValue::Boolean(b) => Ok(*b),
            _ => Err("Expected boolean".to_owned()),
        }
    }
}

impl ToConstValue for String {
    open spec fn to_rel(&self, v: ConstValue) -> bool {
        v matches ConstValue::String(s) && s@ == self@
    }

    fn to_const_value(&self) -> (r: ConstValue) {
        ConstValue::String(self.clone())
    }
}

impl FromConstValue for String {
    open spec fn from_rel(v: ConstValue, r: Self) -> bool {
        v matches ConstValue::String(s) && s@ == r@
    }

    fn from_const_value(value: &ConstValue) -> (r: Result<Self, String>) {
        match value {
            ConstValue::String(s) => Ok(s.clone()),
            _ => Err("Expected string".to_owned()),
        }
    }
}

impl<T: ToConstValue> ToConstValue for Option<T> {
    open spec fn to_rel(&self, v: ConstValue) -> bool {
        match *self {
            Some(x) => x.to_rel(v),
            None => v == ConstValue::Null,
        }
    }

    fn to_const_value(&self) -> (r: ConstValue) {
        match self {
            Some(x) => x.to_const_value(),
            None => ConstValue::Null,
        }
    }
}

impl<T: FromConstValue> FromConstValue for Option<T> {
    open spec fn from_rel(v: ConstValue, r: Self) -> bool {
        match r {
            Some(x) => !(v is Null) && T::from_rel(v, x),
            None => v is Null,
        }
    }

    fn from_const_value(value: &ConstValue) -> (r: Result<Self, String>) {
        match value {
            ConstValue::Null => Ok(None),
            v => match T::from_const_value(v) {
                Ok(x) => Ok(Some(x)),
                Err(e) => Err(e),
            },
        }
    }
}

impl<T: ToConstValue> ToConstValue for Vec<T> {
    open spec fn to_rel(&self, v: ConstValue) -> bool {
        v matches ConstValue::List(items) && items@.len() == self@.len() && forall|i: int|
            0 <= i < self@.len() ==> self@[i].to_rel(#[trigger] items@[i])
    }

    fn to_const_value(&self) -> (r: ConstValue) {
        let mut items: Vec<ConstValue> = Vec::new();
        let mut i: usize = 0;
        while i < self.len()
            invariant
                0 <= i <= self@.len(),
                items@.len() == i,
                forall|j: int| 0 <= j < i ==> self@[j].to_rel(#[trigger] items@[j]),
            decreases self@.len() - i,
        {
            items.push(self[i].to_const_value());
            i = i + 1;
        }
        ConstValue::List(items)
    }
}

impl<T: FromConstValue> FromConstValue for Vec<T> {
    open spec fn from_rel(v: ConstValue, r: Self) -> bool {
        v matches ConstValue::List(items) && items@.len() == r@.len() && forall|i: int|
            0 <= i < r@.len() ==> T::from_rel(#[trigger] items@[i], r@[i])
    }

    fn from_const_value(value: &ConstValue) -> (r: Result<Self, String>) {
        match value {
            ConstValue::List(items) => {
                let mut out: Vec<T> = Vec::new();
                let mut i: usize = 0;
                while i < items.len()
                    invariant
                        0 <= i <= items@.len(),
                        out@.len() == i,
                        *value matches ConstValue::List(l) && l@ == items@,
                        forall|j: int| 0 <= j < i ==> T::from_rel(#[trigger] items@[j], out@[j]),
                    decreases items@.len() - i,
                {
                    match T::from_const_value(&items[i]) {
                        Ok(x) => {
                            out.push(x);
                        },
                        Err(e) => {
                            proof {
                                let ghost bad = i as int;
                                assert(*value matches ConstValue::List(l) && l@ == items@);
                                assert forall|x: Vec<T>| !Vec::<T>::from_rel(*value, x) by {
                                    if Vec::<T>::from_rel(*value, x) {
                                        assert(x@.len() == items@.len());
                                        assert(T::from_rel(items@[bad], x@[bad]));
                                        assert(false);
                                    }
                                }
                            }
                            return Err(e);
                        },
                    }
                    i = i + 1;
                }
                Ok(out)
            },
            _ => Err("Expected list".to_owned()),
        }
    }
}

/// How a plain type shows up in the schema: its scalar name, or the name of
/// its element type for options and lists.
pub trait GraphQLType {
    /// The schema-level name of this type.
    fn graphql_name() -> &'static str;

    /// Whether this type is a scalar.
    fn is_scalar() -> bool {
        false
    }
}

impl GraphQLType for i32 {
    fn graphql_name() -> &'static str {
        "Int"
    }

    fn is_scalar() -> bool {
        true
    }
}

impl GraphQLType for i64 {
    fn graphql_name() -> &'static str {
        "Int"
    }

    fn is_scalar() -> bool {
        true
    }
}

impl GraphQLType for bool {
    fn graphql_name() -> &'static str {
        "Boolean"
    }

    fn is_scalar() -> bool {
        true
    }
}

impl GraphQLType for String {
    fn graphql_name() -> &'static str {
        "String"
    }

    fn is_scalar() -> bool {
        true
    }
}

impl<T: GraphQLType> GraphQLType for Option<T> {
    fn graphql_name() -> &'static str {
        T::graphql_name()
    }

    fn is_scalar() -> bool {
        T::is_scalar()
    }
}

impl<T: GraphQLType> GraphQLType for Vec<T> {
    fn graphql_name() -> &'static str {
        T::graphql_name()
    }

    fn is_scalar() -> bool {
        false
    }
}

} // verus!
