//! Object-type descriptions: the input shape of the schema graph builder.
//!
//! A schema description is a module of object types.  Each type declares data
//! fields and computed resolvers; both carry a cardinality (scalar or list of
//! some inner type) that is derived from the shape of the declared Rust-like
//! type expression.

use vstd::prelude::*;
use vstd::string::StringExecFns;
use crate::BatchConfig;

verus! {

/// Arguments accepted by the schema description facility itself.
#[derive(Debug, Clone)]
pub struct MacroArgs {
    pub generate: Option<String>,
}

impl Default for MacroArgs {
    fn default() -> (r: Self)
        ensures
            r.generate is None,
    {
        MacroArgs { generate: None }
    }
}

/// The shape of a declared type, as far as cardinality analysis reads it:
/// a plain named type, a single-argument generic application (`Vec<T>`,
/// `Option<T>`, `Result<T, _>`, `Box<T>` keep only their first argument),
/// or anything else.
#[derive(Debug)]
pub enum TypeExpr {
    Named(String),
    Apply(String, Box<TypeExpr>),
    Other,
}

/// Cardinality of a type expression: whether it is a list, and of which
/// inner type.  `Option` and `Result` are transparent wrappers.
pub open spec fn list_shape(t: TypeExpr) -> (bool, Option<Seq<char>>)
    decreases t,
{
    match t {
        TypeExpr::Named(_) => (false, None),
        TypeExpr::Apply(head, inner) => {
            if head@ == "Vec"@ {
                (true, Some(spec_inner_type_ident(*inner)))
            } else if head@ == "Option"@ || head@ == "Result"@ {
                list_shape(*inner)
            } else {
                (false, None)
            }
        },
        TypeExpr::Other => (false, None),
    }
}

/// The name a type expression contributes as a list element: wrappers
/// (`Option`, `Result`, `Box`) are looked through, a named type is itself,
/// and an unrecognized shape reads as `Unknown`.
pub open spec fn spec_inner_type_ident(t: TypeExpr) -> Seq<char>
    decreases t,
{
    match t {
        TypeExpr::Named(n) => n@,
        TypeExpr::Apply(head, inner) => {
            if head@ == "Option"@ || head@ == "Result"@ || head@ == "Box"@ {
                spec_inner_type_ident(*inner)
            } else {
                head@
            }
        },
        TypeExpr::Other => "Unknown"@,
    }
}

/// True when the string and the literal hold the same characters.
pub(crate) fn str_matches(s: &String, lit: &str) -> (b: bool)
    ensures
        b == (s@ == lit@),
{
    let owned: String = lit.to_owned();
    *s == owned
}

/// The name a type expression contributes as a list element.
pub fn extract_inner_type_ident(t: &TypeExpr) -> (r: String)
    ensures
        r@ == spec_inner_type_ident(*t),
    decreases *t,
{
    match t {
        TypeExpr::Named(n) => n.clone(),
        TypeExpr::Apply(head, inner) => {
            if str_matches(head, "Option") || str_matches(head, "Result") || str_matches(
                head,
                "Box",
            ) {
                extract_inner_type_ident(inner)
            } else {
                head.clone()
            }
        },
        TypeExpr::Other => String::from_str("Unknown"),
    }
}

/// Cardinality of a type expression, executable form of [`list_shape`].
pub fn analyze_type(t: &TypeExpr) -> (r: (bool, Option<String>))
    ensures
        r.0 == list_shape(*t).0,
        match (r.1, list_shape(*t).1) {
            (Some(s), Some(m)) => s@ == m,
            (None, None) => true,
            _ => false,
        },
    decreases *t,
{
    match t {
        TypeExpr::Named(_) => (false, None),
        TypeExpr::Apply(head, inner) => {
            if str_matches(head, "Vec") {
                (true, Some(extract_inner_type_ident(inner)))
            } else if str_matches(head, "Option") || str_matches(head, "Result") {
                analyze_type(inner)
            } else {
                (false, None)
            }
        },
        TypeExpr::Other => (false, None),
    }
}

/// Cardinality of a resolver's declared return type.
pub fn analyze_return_type(t: &TypeExpr) -> (r: (bool, Option<String>))
    ensures
        r.0 == list_shape(*t).0,
        match (r.1, list_shape(*t).1) {
            (Some(s), Some(m)) => s@ == m,
            (None, None) => true,
            _ => false,
        },
{
    analyze_type(t)
}

/// Abstract value of a batch configuration.
pub struct BatchConfigView {
    pub key: Seq<char>,
    pub delay_ms: u64,
}

impl View for BatchConfig {
    type V = BatchConfigView;

    open spec fn view(&self) -> BatchConfigView {
        BatchConfigView { key: self.key@, delay_ms: self.delay_ms }
    }
}

/// A declared data field of an object type.
#[derive(Debug)]
pub struct ParsedField {
    pub name: String,
    pub ty: TypeExpr,
    pub is_list: bool,
    pub inner_type: Option<String>,
}

/// Abstract value of a data field.
pub struct FieldView {
    pub name: Seq<char>,
    pub is_list: bool,
    pub inner_type: Option<Seq<char>>,
}

impl View for ParsedField {
    type V = FieldView;

    open spec fn view(&self) -> FieldView {
        FieldView {
            name: self.name@,
            is_list: self.is_list,
            inner_type: match self.inner_type {
                Some(s) => Some(s@),
                None => None,
            },
        }
    }
}

impl ParsedField {
    /// A field's recorded cardinality agrees with the shape of its type.
    pub open spec fn wf(self) -> bool {
        self@.is_list == list_shape(self.ty).0 && self@.inner_type == list_shape(self.ty).1
    }

    /// Describe a data field, deriving its cardinality from its type shape.
    pub fn new(name: String, ty: TypeExpr) -> (r: Self)
        ensures
            r.wf(),
            r.name == name,
            r.ty == ty,
    {
        let (is_list, inner_type) = analyze_type(&ty);
        ParsedField { name, ty, is_list, inner_type }
    }
}

/// One object type of the schema description.
#[derive(Debug)]
pub struct ParsedStruct {
    pub name: String,
    pub graphql_name: String,
    pub is_query: bool,
    pub is_mutation: bool,
    pub is_subscription: bool,
    pub fields: Vec<ParsedField>,
}

/// Abstract value of an object type.
pub struct StructView {
    pub name: Seq<char>,
    pub graphql_name: Seq<char>,
    pub is_query: bool,
    pub is_mutation: bool,
    pub is_subscription: bool,
    pub fields: Seq<FieldView>,
}

impl View for ParsedStruct {
    type V = StructView;

    open spec fn view(&self) -> StructView {
        StructView {
            name: self.name@,
            graphql_name: self.graphql_name@,
            is_query: self.is_query,
            is_mutation: self.is_mutation,
            is_subscription: self.is_subscription,
            fields: self.fields@.map_values(|f: ParsedField| f@),
        }
    }
}

/// A declared argument of a resolver.
#[derive(Debug)]
pub struct ParsedArg {
    pub name: String,
    pub ty: TypeExpr,
}

/// One computed resolver of an object type.
#[derive(Debug)]
pub struct ParsedMethod {
    pub name: String,
    pub args: Vec<ParsedArg>,
    pub return_type: TypeExpr,
    pub batch_config: Option<BatchConfig>,
    pub is_list_return: bool,
    pub inner_return_type: Option<String>,
}

/// Abstract value of a resolver.
pub struct MethodView {
    pub name: Seq<char>,
    pub batch_config: Option<BatchConfigView>,
    pub is_list_return: bool,
    pub inner_return_type: Option<Seq<char>>,
}

impl View for ParsedMethod {
    type V = MethodView;

    open spec fn view(&self) -> MethodView {
        MethodView {
            name: self.name@,
            batch_config: match self.batch_config {
                Some(b) => Some(b@),
                None => None,
            },
            is_list_return: self.is_list_return,
            inner_return_type: match self.inner_return_type {
                Some(s) => Some(s@),
                None => None,
            },
        }
    }
}

impl ParsedMethod {
    /// A resolver's recorded return cardinality agrees with its return type.
    pub open spec fn wf(self) -> bool {
        self@.is_list_return == list_shape(self.return_type).0 && self@.inner_return_type
            == list_shape(self.return_type).1
    }

    /// Describe a resolver, deriving its return cardinality from the shape
    /// of its declared return type.
    pub fn new(
        name: String,
        args: Vec<ParsedArg>,
        return_type: TypeExpr,
        batch_config: Option<BatchConfig>,
    ) -> (r: Self)
        ensures
            r.wf(),
            r.name == name,
            r.args == args,
            r.return_type == return_type,
            r.batch_config == batch_config,
    {
        let (is_list_return, inner_return_type) = analyze_return_type(&return_type);
        ParsedMethod { name, args, return_type, batch_config, is_list_return, inner_return_type }
    }
}

/// The resolver block of one object type.
#[derive(Debug)]
pub struct ParsedImpl {
    pub type_ident: String,
    pub methods: Vec<ParsedMethod>,
}

/// Abstract value of a resolver block.
pub struct ImplView {
    pub type_ident: Seq<char>,
    pub methods: Seq<MethodView>,
}

impl View for ParsedImpl {
    type V = ImplView;

    open spec fn view(&self) -> ImplView {
        ImplView {
            type_ident: self.type_ident@,
            methods: self.methods@.map_values(|m: ParsedMethod| m@),
        }
    }
}

/// A whole schema description: object types plus their resolver blocks.
#[derive(Debug)]
pub struct ParsedModule {
    pub name: String,
    pub args: MacroArgs,
    pub structs: Vec<ParsedStruct>,
    pub impls: Vec<ParsedImpl>,
}

/// Abstract value of a schema description.
pub struct ModuleView {
    pub name: Seq<char>,
    pub structs: Seq<StructView>,
    pub impls: Seq<ImplView>,
}

impl View for ParsedModule {
    type V = ModuleView;

    open spec fn view(&self) -> ModuleView {
        ModuleView {
            name: self.name@,
            structs: self.structs@.map_values(|s: ParsedStruct| s@),
            impls: self.impls@.map_values(|i: ParsedImpl| i@),
        }
    }
}

impl ModuleView {
    /// The description names a query root.
    pub open spec fn has_query_root(self) -> bool {
        exists|i: int| 0 <= i < self.structs.len() && is_query_struct(#[trigger] self.structs[i])
    }
}

/// True of the object type that serves as the query root.
pub open spec fn is_query_struct(s: StructView) -> bool {
    s.is_query || s.name == "Query"@
}

/// True of the object type that serves as the mutation root.
pub open spec fn is_mutation_struct(s: StructView) -> bool {
    s.is_mutation || s.name == "Mutation"@
}

/// True of the object type that serves as the subscription root.
pub open spec fn is_subscription_struct(s: StructView) -> bool {
    s.is_subscription || s.name == "Subscription"@
}

impl ParsedModule {
    /// The struct at position `i` is the first one serving the query role.
    pub open spec fn query_found_at(self, i: int) -> bool {
        &&& 0 <= i < self.structs@.len()
        &&& is_query_struct(self.structs@[i]@)
        &&& forall|j: int| 0 <= j < i ==> !is_query_struct(#[trigger] self.structs@[j]@)
    }

    /// The struct at position `i` is the first one serving the mutation role.
    pub open spec fn mutation_found_at(self, i: int) -> bool {
        &&& 0 <= i < self.structs@.len()
        &&& is_mutation_struct(self.structs@[i]@)
        &&& forall|j: int| 0 <= j < i ==> !is_mutation_struct(#[trigger] self.structs@[j]@)
    }

    /// The struct at position `i` is the first one serving the subscription role.
    pub open spec fn subscription_found_at(self, i: int) -> bool {
        &&& 0 <= i < self.structs@.len()
        &&& is_subscription_struct(self.structs@[i]@)
        &&& forall|j: int| 0 <= j < i ==> !is_subscription_struct(#[trigger] self.structs@[j]@)
    }

    /// The query root type: marked as the query role or named `Query`.
    pub fn query_type(&self) -> (r: Option<&ParsedStruct>)
        ensures
            match r {
                Some(s) => exists|i: int| #[trigger] self.query_found_at(i) && *s == self.structs@[i],
                None => forall|i: int|
                    0 <= i < self.structs@.len() ==> !is_query_struct(#[trigger] self.structs@[i]@),
            },
            r is Some <==> self@.has_query_root(),
    {
        let mut i: usize = 0;
        while i < self.structs.len()
            invariant
                0 <= i <= self.structs.len(),
                forall|j: int| 0 <= j < i ==> !is_query_struct(#[trigger] self.structs@[j]@),
            decreases self.structs.len() - i,
        {
            let s = &self.structs[i];
            if s.is_query || str_matches(&s.name, "Query") {
                proof {
                    assert(self.query_found_at(i as int));
                    assert(is_query_struct(self@.structs[i as int]));
                }
                return Some(s);
            }
            i = i + 1;
        }
        proof {
            assert forall|i: int| 0 <= i < self@.structs.len() implies !is_query_struct(
                #[trigger] self@.structs[i],
            ) by {
                assert(self@.structs[i] == self.structs@[i]@);
            }
        }
        None
    }

    /// The mutation root type: marked as the mutation role or named `Mutation`.
    pub fn mutation_type(&self) -> (r: Option<&ParsedStruct>)
        ensures
            match r {
                Some(s) => exists|i: int| #[trigger] self.mutation_found_at(i) && *s == self.structs@[i],
                None => forall|i: int|
                    0 <= i < self.structs@.len() ==> !is_mutation_struct(
                        #[trigger] self.structs@[i]@,
                    ),
            },
    {
        let mut i: usize = 0;
        while i < self.structs.len()
            invariant
                0 <= i <= self.structs.len(),
                forall|j: int| 0 <= j < i ==> !is_mutation_struct(#[trigger] self.structs@[j]@),
            decreases self.structs.len() - i,
        {
            let s = &self.structs[i];
            if s.is_mutation || str_matches(&s.name, "Mutation") {
                proof {
                    assert(self.mutation_found_at(i as int));
                }
                return Some(s);
            }
            i = i + 1;
        }
        None
    }

    /// The subscription root type: marked as such or named `Subscription`.
    pub fn subscription_type(&self) -> (r: Option<&ParsedStruct>)
        ensures
            match r {
                Some(s) => exists|i: int|
                    #[trigger] self.subscription_found_at(i) && *s == self.structs@[i],
                None => forall|i: int|
                    0 <= i < self.structs@.len() ==> !is_subscription_struct(
                        #[trigger] self.structs@[i]@,
                    ),
            },
    {
        let mut i: usize = 0;
        while i < self.structs.len()
            invariant
                0 <= i <= self.structs.len(),
                forall|j: int| 0 <= j < i ==> !is_subscription_struct(#[trigger] self.structs@[j]@),
            decreases self.structs.len() - i,
        {
            let s = &self.structs[i];
            if s.is_subscription || str_matches(&s.name, "Subscription") {
                proof {
                    assert(self.subscription_found_at(i as int));
                }
                return Some(s);
            }
            i = i + 1;
        }
        None
    }

    /// The resolver block at position `i` is the first one for the named type.
    pub open spec fn impl_found_at(self, i: int, name: Seq<char>) -> bool {
        &&& 0 <= i < self.impls@.len()
        &&& self.impls@[i]@.type_ident == name
        &&& forall|j: int| 0 <= j < i ==> #[trigger] self.impls@[j]@.type_ident != name
    }

    /// The resolver block declared for the named type, if any.
    pub fn impl_for(&self, name: &str) -> (r: Option<&ParsedImpl>)
        ensures
            match r {
                Some(b) => exists|i: int| #[trigger] self.impl_found_at(i, name@) && *b
                    == self.impls@[i],
                None => forall|i: int|
                    0 <= i < self.impls@.len() ==> #[trigger] self.impls@[i]@.type_ident != name@,
            },
    {
        let mut i: usize = 0;
        while i < self.impls.len()
            invariant
                0 <= i <= self.impls.len(),
                forall|j: int| 0 <= j < i ==> #[trigger] self.impls@[j]@.type_ident != name@,
            decreases self.impls.len() - i,
        {
            let b = &self.impls[i];
            let owned: String = name.to_owned();
            if b.type_ident == owned {
                proof {
                    assert(self.impl_found_at(i as int, name@));
                }
                return Some(b);
            }
            i = i + 1;
        }
        None
    }
}

} // verus!
