//! The per-request resolver context: the parent value, the call arguments,
//! and request metadata (headers and variables).

use vstd::prelude::*;
use vstd::hash_map::StringHashMap;
use crate::value::{ConstValue, FromConstValue};

verus! {

/// Request-scoped metadata a resolver may consult.
pub struct RequestMetadata {
    pub headers: StringHashMap<String>,
    pub vars: StringHashMap<String>,
}

impl RequestMetadata {
    /// Metadata with no headers and no variables.
    pub fn new() -> (r: Self)
        ensures
            r.headers@ == Map::<Seq<char>, String>::empty(),
            r.vars@ == Map::<Seq<char>, String>::empty(),
    {
        RequestMetadata { headers: StringHashMap::new(), vars: StringHashMap::new() }
    }
}

impl Default for RequestMetadata {
    /// Metadata with no headers and no variables.
    fn default() -> (r: Self)
        ensures
            r.headers@ == Map::<Seq<char>, String>::empty(),
            r.vars@ == Map::<Seq<char>, String>::empty(),
    {
        RequestMetadata::new()
    }
}

/// The value associated with a name in an ordered argument list: the first
/// pair holding the name decides.
pub open spec fn assoc_lookup(pairs: Seq<(String, ConstValue)>, name: Seq<char>) -> Option<
    ConstValue,
>
    decreases pairs.len(),
{
    if pairs.len() == 0 {
        None
    } else if pairs.first().0@ == name {
        Some(pairs.first().1)
    } else {
        assoc_lookup(pairs.drop_first(), name)
    }
}

/// Find the value associated with a name in an ordered argument list.
fn assoc_find<'a>(pairs: &'a Vec<(String, ConstValue)>, name: &str) -> (r: Option<&'a ConstValue>)
    ensures
        match r {
            Some(v) => assoc_lookup(pairs@, name@) == Some(*v),
            None => assoc_lookup(pairs@, name@) is None,
        },
{
    let owned: String = name.to_owned();
    let mut i: usize = 0;
    proof {
        assert(pairs@.skip(0) =~= pairs@);
    }
    while i < pairs.len()
        invariant
            0 <= i <= pairs.len(),
            assoc_lookup(pairs@, name@) == assoc_lookup(pairs@.skip(i as int), name@),
            owned@ == name@,
        decreases pairs.len() - i,
    {
        proof {
            assert(pairs@.skip(i as int).first() == pairs@[i as int]);
            assert(pairs@.skip(i as int).drop_first() =~= pairs@.skip(i as int + 1));
        }
        if pairs[i].0 == owned {
            return Some(&pairs[i].1);
        }
        i = i + 1;
    }
    proof {
        assert(pairs@.skip(pairs@.len() as int) =~= Seq::empty());
    }
    None
}

/// The context handed to one resolver invocation.
pub struct Ctx<'a> {
    pub value: Option<&'a ConstValue>,
    pub args: Option<&'a Vec<(String, ConstValue)>>,
    pub metadata: &'a RequestMetadata,
}

impl<'a> Ctx<'a> {
    /// Assemble the context of one invocation: the parent value it resolves
    /// under, its named arguments, and the request metadata.
    pub fn new(
        value: Option<&'a ConstValue>,
        args: Option<&'a Vec<(String, ConstValue)>>,
        metadata: &'a RequestMetadata,
    ) -> (r: Self)
        ensures
            r.value == value,
            r.args == args,
            r.metadata == metadata,
    {
        Ctx { value, args, metadata }
    }

    /// The argument of the given name, if one was supplied.
    pub fn arg(&self, name: &str) -> (r: Option<&ConstValue>)
        ensures
            match r {
                Some(v) => self.args matches Some(a) && assoc_lookup(a@, name@) == Some(*v),
                None => match self.args {
                    Some(a) => assoc_lookup(a@, name@) is None,
                    None => true,
                },
            },
    {
        match self.args {
            Some(a) => assoc_find(a, name),
            None => None,
        }
    }

    /// The argument of the given name, read as a plain value; `None` when
    /// the argument is missing or cannot be read as one.
    pub fn arg_as<T: FromConstValue>(&self, name: &str) -> (r: Option<T>)
        ensures
            match r {
                Some(x) => self.args matches Some(a) && assoc_lookup(a@, name@) matches Some(v)
                    && T::from_rel(v, x),
                None => match self.args {
                    Some(a) => match assoc_lookup(a@, name@) {
                        Some(v) => forall|x: T| !T::from_rel(v, x),
                        None => true,
                    },
                    None => true,
                },
            },
    {
        match self.arg(name) {
            Some(v) => match T::from_const_value(v) {
                Ok(x) => Some(x),
                Err(_) => None,
            },
            None => None,
        }
    }

    /// The parent value this invocation resolves under.
    pub fn parent(&self) -> (r: Option<&ConstValue>)
        ensures
            r == self.value,
    {
        self.value
    }

    /// The parent value, read as a plain value; `None` when there is no
    /// parent or it cannot be read as one.
    pub fn parent_as<T: FromConstValue>(&self) -> (r: Option<T>)
        ensures
            match r {
                Some(x) => self.value matches Some(v) && T::from_rel(*v, x),
                None => match self.value {
                    Some(v) => forall|x: T| !T::from_rel(*v, x),
                    None => true,
                },
            },
    {
        match self.value {
            Some(v) => match T::from_const_value(v) {
                Ok(x) => Some(x),
                Err(_) => None,
            },
            None => None,
        }
    }

    /// The named field of the parent value, when the parent is an object.
    pub fn parent_field(&self, name: &str) -> (r: Option<&ConstValue>)
        ensures
            match r {
                Some(v) => self.value matches Some(p) && *p matches ConstValue::Object(obj)
                    && assoc_lookup(obj@, name@) == Some(*v),
                None => match self.value {
                    Some(p) => match *p {
                        ConstValue::Object(obj) => assoc_lookup(obj@, name@) is None,
                        _ => true,
                    },
                    None => true,
                },
            },
    {
        match self.value {
            Some(p) => match p {
                ConstValue::Object(obj) => assoc_find(obj, name),
                _ => None,
            },
            None => None,
        }
    }

    /// The request header of the given name, if one was supplied.
    pub fn header(&self, name: &str) -> (r: Option<&str>)
        ensures
            match r {
                Some(v) => self.metadata.headers@.contains_key(name@) && v@
                    == self.metadata.headers@[name@]@,
                None => !self.metadata.headers@.contains_key(name@),
            },
    {
        match self.metadata.headers.get(name) {
            Some(s) => Some(s.as_str()),
            None => None,
        }
    }

    /// The request variable of the given name, if one was supplied.
    pub fn var(&self, name: &str) -> (r: Option<&str>)
        ensures
            match r {
                Some(v) => self.metadata.vars@.contains_key(name@) && v@
                    == self.metadata.vars@[name@]@,
                None => !self.metadata.vars@.contains_key(name@),
            },
    {
        match self.metadata.vars.get(name) {
            Some(s) => Some(s.as_str()),
            None => None,
        }
    }
}

} // verus!
