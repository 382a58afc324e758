//! The schema graph: object types plus the directed list-containment edges
//! derived from them.
//!
//! Every data field and every resolver whose declared type is a list of some
//! named inner type contributes one edge from its container type to that
//! inner type.  The set of edges targeting a type is that type's
//! "list-context evidence": it decides which types the analyzer must check.

use vstd::prelude::*;
use vstd::string::StringExecFns;
use crate::error::SchemaError;
use crate::schema::{
    FieldView, ImplView, MethodView, ParsedImpl, ParsedModule, ParsedStruct, StructView,
};

verus! {

/// Abstract value of one list-containment edge.
pub struct EdgeView {
    pub container: Seq<char>,
    pub member: Seq<char>,
    pub target: Seq<char>,
    pub is_resolver: bool,
}

/// One list-containment edge: `container.member` exposes a list of `target`.
/// `is_resolver` tells a computed resolver edge from a declared field edge.
#[derive(Debug)]
pub struct ContainmentEdge {
    pub container: String,
    pub member: String,
    pub target: String,
    pub is_resolver: bool,
}

impl View for ContainmentEdge {
    type V = EdgeView;

    open spec fn view(&self) -> EdgeView {
        EdgeView {
            container: self.container@,
            member: self.member@,
            target: self.target@,
            is_resolver: self.is_resolver,
        }
    }
}

/// The edge a single data field contributes: one list edge, or none.
pub open spec fn field_edges(container: Seq<char>, f: FieldView) -> Seq<EdgeView> {
    match f.inner_type {
        Some(t) => if f.is_list {
            seq![EdgeView { container, member: f.name, target: t, is_resolver: false }]
        } else {
            Seq::empty()
        },
        None => Seq::empty(),
    }
}

/// The edges the data fields of one object type contribute, in order.
pub open spec fn edges_of_fields(container: Seq<char>, fields: Seq<FieldView>) -> Seq<EdgeView>
    decreases fields.len(),
{
    if fields.len() == 0 {
        Seq::empty()
    } else {
        edges_of_fields(container, fields.drop_last()) + field_edges(container, fields.last())
    }
}

/// The edges all object types contribute through their data fields.
pub open spec fn edges_of_structs(structs: Seq<StructView>) -> Seq<EdgeView>
    decreases structs.len(),
{
    if structs.len() == 0 {
        Seq::empty()
    } else {
        edges_of_structs(structs.drop_last()) + edges_of_fields(
            structs.last().name,
            structs.last().fields,
        )
    }
}

/// The edge a single resolver contributes: one list edge, or none.
pub open spec fn method_edges(container: Seq<char>, m: MethodView) -> Seq<EdgeView> {
    match m.inner_return_type {
        Some(t) => if m.is_list_return {
            seq![EdgeView { container, member: m.name, target: t, is_resolver: true }]
        } else {
            Seq::empty()
        },
        None => Seq::empty(),
    }
}

/// The edges the resolvers of one resolver block contribute, in order.
pub open spec fn edges_of_methods(container: Seq<char>, methods: Seq<MethodView>) -> Seq<EdgeView>
    decreases methods.len(),
{
    if methods.len() == 0 {
        Seq::empty()
    } else {
        edges_of_methods(container, methods.drop_last()) + method_edges(container, methods.last())
    }
}

/// The edges all resolver blocks contribute.
pub open spec fn edges_of_impls(impls: Seq<ImplView>) -> Seq<EdgeView>
    decreases impls.len(),
{
    if impls.len() == 0 {
        Seq::empty()
    } else {
        edges_of_impls(impls.drop_last()) + edges_of_methods(
            impls.last().type_ident,
            impls.last().methods,
        )
    }
}

/// Every list-containment edge of a schema description: field edges first,
/// then resolver edges, each group in declaration order.
pub open spec fn module_edges(structs: Seq<StructView>, impls: Seq<ImplView>) -> Seq<EdgeView> {
    edges_of_structs(structs) + edges_of_impls(impls)
}

/// Abstract contents of a vector of edges.
pub open spec fn edge_views(edges: Seq<ContainmentEdge>) -> Seq<EdgeView> {
    edges.map_values(|e: ContainmentEdge| e@)
}

/// A type is list-reachable when some edge exposes it as a list element.
pub open spec fn list_reachable(edges: Seq<EdgeView>, target: Seq<char>) -> bool {
    exists|k: int| 0 <= k < edges.len() && #[trigger] edges[k].target == target
}

/// The built schema graph: the object types and resolver blocks of the
/// description, together with every list-containment edge derived from them.
#[derive(Debug)]
pub struct SchemaGraph {
    pub structs: Vec<ParsedStruct>,
    pub impls: Vec<ParsedImpl>,
    pub edges: Vec<ContainmentEdge>,
}

impl SchemaGraph {
    /// Abstract values of the graph's object types.
    pub open spec fn structs_view(self) -> Seq<StructView> {
        self.structs@.map_values(|s: ParsedStruct| s@)
    }

    /// Abstract values of the graph's resolver blocks.
    pub open spec fn impls_view(self) -> Seq<ImplView> {
        self.impls@.map_values(|i: ParsedImpl| i@)
    }

    /// The graph records exactly the list edges its description induces.
    pub open spec fn wf(self) -> bool {
        edge_views(self.edges@) == module_edges(self.structs_view(), self.impls_view())
    }
}

/// Collect every list-containment edge of the description, field edges
/// first, then resolver edges.
pub(crate) fn collect_edges(module: &ParsedModule) -> (edges: Vec<ContainmentEdge>)
    ensures
        edge_views(edges@) == module_edges(module@.structs, module@.impls),
{
    let mut edges: Vec<ContainmentEdge> = Vec::new();

    let mut i: usize = 0;
    while i < module.structs.len()
        invariant
            0 <= i <= module.structs.len(),
            edge_views(edges@) =~= edges_of_structs(module@.structs.take(i as int)),
        decreases module.structs.len() - i,
    {
        let s = &module.structs[i];
        let mut j: usize = 0;
        while j < s.fields.len()
            invariant
                0 <= j <= s.fields.len(),
                0 <= i < module.structs.len(),
                *s == module.structs@[i as int],
                edge_views(edges@) =~= edges_of_structs(module@.structs.take(i as int))
                    + edges_of_fields(s@.name, s@.fields.take(j as int)),
            decreases s.fields.len() - j,
        {
            let f = &s.fields[j];
            let ghost pre = edges@;
            if f.is_list {
                match &f.inner_type {
                    Some(t) => {
                        let e = ContainmentEdge {
                            container: s.name.clone(),
                            member: f.name.clone(),
                            target: t.clone(),
                            is_resolver: false,
                        };
                        let ghost ev = e@;
                        edges.push(e);
                        proof {
                            assert(field_edges(s@.name, f@) =~= seq![ev]);
                            assert(edge_views(edges@) =~= edge_views(pre).push(ev));
                            assert(edge_views(edges@) =~= edge_views(pre) + field_edges(
                                s@.name,
                                f@,
                            ));
                        }
                    },
                    None => {
                        proof {
                            assert(field_edges(s@.name, f@) =~= Seq::empty());
                        }
                    },
                }
            } else {
                proof {
                    assert(field_edges(s@.name, f@) =~= Seq::empty());
                }
            }
            proof {
                assert(s@.fields.take(j as int + 1).drop_last() =~= s@.fields.take(j as int));
                assert(s@.fields.take(j as int + 1).last() == s@.fields[j as int]);
                assert(s@.fields[j as int] == f@);
                assert(edges_of_fields(s@.name, s@.fields.take(j as int + 1)) == edges_of_fields(
                    s@.name,
                    s@.fields.take(j as int),
                ) + field_edges(s@.name, f@));
            }
            j = j + 1;
        }
        proof {
            assert(s@.fields.take(s.fields@.len() as int) =~= s@.fields);
            assert(module@.structs.take(i as int + 1).drop_last() =~= module@.structs.take(i as int));
            assert(module@.structs.take(i as int + 1).last() == module@.structs[i as int]);
            assert(module@.structs[i as int] == s@);
        }
        i = i + 1;
    }
    proof {
        assert(module@.structs.take(module.structs@.len() as int) =~= module@.structs);
    }

    let ghost field_part = edges_of_structs(module@.structs);

    let mut k: usize = 0;
    while k < module.impls.len()
        invariant
            0 <= k <= module.impls.len(),
            edge_views(edges@) =~= field_part + edges_of_impls(module@.impls.take(k as int)),
        decreases module.impls.len() - k,
    {
        let b = &module.impls[k];
        let mut j: usize = 0;
        while j < b.methods.len()
            invariant
                0 <= j <= b.methods.len(),
                0 <= k < module.impls.len(),
                *b == module.impls@[k as int],
                edge_views(edges@) =~= field_part + edges_of_impls(module@.impls.take(k as int))
                    + edges_of_methods(b@.type_ident, b@.methods.take(j as int)),
            decreases b.methods.len() - j,
        {
            let m = &b.methods[j];
            let ghost pre = edges@;
            if m.is_list_return {
                match &m.inner_return_type {
                    Some(t) => {
                        let e = ContainmentEdge {
                            container: b.type_ident.clone(),
                            member: m.name.clone(),
                            target: t.clone(),
                            is_resolver: true,
                        };
                        let ghost ev = e@;
                        edges.push(e);
                        proof {
                            assert(method_edges(b@.type_ident, m@) =~= seq![ev]);
                            assert(edge_views(edges@) =~= edge_views(pre).push(ev));
                            assert(edge_views(edges@) =~= edge_views(pre) + method_edges(
                                b@.type_ident,
                                m@,
                            ));
                        }
                    },
                    None => {
                        proof {
                            assert(method_edges(b@.type_ident, m@) =~= Seq::empty());
                        }
                    },
                }
            } else {
                proof {
                    assert(method_edges(b@.type_ident, m@) =~= Seq::empty());
                }
            }
            proof {
                assert(b@.methods.take(j as int + 1).drop_last() =~= b@.methods.take(j as int));
                assert(b@.methods.take(j as int + 1).last() == b@.methods[j as int]);
                assert(b@.methods[j as int] == m@);
                assert(edges_of_methods(b@.type_ident, b@.methods.take(j as int + 1))
                    == edges_of_methods(b@.type_ident, b@.methods.take(j as int)) + method_edges(
                    b@.type_ident,
                    m@,
                ));
            }
            j = j + 1;
        }
        proof {
            assert(b@.methods.take(b.methods@.len() as int) =~= b@.methods);
            assert(module@.impls.take(k as int + 1).drop_last() =~= module@.impls.take(k as int));
            assert(module@.impls.take(k as int + 1).last() == module@.impls[k as int]);
            assert(module@.impls[k as int] == b@);
        }
        k = k + 1;
    }
    proof {
        assert(module@.impls.take(module.impls@.len() as int) =~= module@.impls);
        assert(edge_views(edges@) =~= module_edges(module@.structs, module@.impls));
    }

    edges
}

/// The message reported when a description names no query root.
pub open spec fn missing_query_root_message() -> Seq<char> {
    "GraphQLSchema module must contain a Query type (struct named `Query` or marked with #[query])"@
}

/// Build the schema graph for a description, or fail when the description
/// names no query root.
pub fn build_graph(module: ParsedModule) -> (r: Result<SchemaGraph, SchemaError>)
    ensures
        match r {
            Ok(g) => {
                &&& module@.has_query_root()
                &&& g.structs_view() == module@.structs
                &&& g.impls_view() == module@.impls
                &&& g.wf()
            },
            Err(e) => {
                &&& !module@.has_query_root()
                &&& e matches SchemaError::BuildError { message } && message@
                    == missing_query_root_message()
            },
        },
{
    if module.query_type().is_none() {
        return Err(
            SchemaError::BuildError {
                message: String::from_str(
                    "GraphQLSchema module must contain a Query type (struct named `Query` or marked with #[query])",
                ),
            },
        );
    }
    let edges = collect_edges(&module);
    let g = SchemaGraph { structs: module.structs, impls: module.impls, edges };
    proof {
        assert(g.structs_view() =~= module@.structs);
        assert(g.impls_view() =~= module@.impls);
    }
    Ok(g)
}

/// Does some edge expose the named type as a list element?
pub fn is_list_reachable(edges: &Vec<ContainmentEdge>, target: &String) -> (r: bool)
    ensures
        r == list_reachable(edge_views(edges@), target@),
{
    let mut k: usize = 0;
    while k < edges.len()
        invariant
            0 <= k <= edges.len(),
            forall|j: int| 0 <= j < k ==> #[trigger] edge_views(edges@)[j].target != target@,
        decreases edges.len() - k,
    {
        if edges[k].target == *target {
            proof {
                assert(edge_views(edges@)[k as int].target == target@);
            }
            return true;
        }
        k = k + 1;
    }
    false
}

} // verus!
