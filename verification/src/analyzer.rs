//! The N+1 analyzer.
//!
//! A resolver is a violation when it returns a list, carries no batch
//! configuration, and belongs to a non-root type that some edge of the graph
//! exposes as a list element.  Violations are collected exhaustively, in
//! declaration order, never stopping at the first finding.

use vstd::prelude::*;
use crate::diagnostics::{render_edge, render_edge_line, string_views};
use crate::error::SchemaError;
use crate::graph::{
    edge_views, is_list_reachable, list_reachable, ContainmentEdge, EdgeView, SchemaGraph,
};
use crate::schema::{ImplView, MethodView, ParsedImpl, ParsedModule, ParsedStruct, StructView, str_matches};

verus! {

/// One analyzer finding: an unbatched list resolver on a list-reachable type,
/// with the rendered edges that put the type in list context.
#[derive(Debug)]
pub struct Violation {
    pub container_type: String,
    pub resolver_name: String,
    pub evidence_lines: Vec<String>,
}

/// Abstract value of a violation.
pub struct ViolationView {
    pub container: Seq<char>,
    pub resolver: Seq<char>,
    pub evidence: Seq<Seq<char>>,
}

impl View for Violation {
    type V = ViolationView;

    open spec fn view(&self) -> ViolationView {
        ViolationView {
            container: self.container_type@,
            resolver: self.resolver_name@,
            evidence: string_views(self.evidence_lines@),
        }
    }
}

/// Abstract contents of a vector of violations.
pub open spec fn violation_views(vs: Seq<Violation>) -> Seq<ViolationView> {
    vs.map_values(|v: Violation| v@)
}

/// The rendered evidence lines for a type: every edge that exposes it as a
/// list element, in edge order.
pub open spec fn evidence_for(edges: Seq<EdgeView>, target: Seq<char>) -> Seq<Seq<char>>
    decreases edges.len(),
{
    if edges.len() == 0 {
        Seq::empty()
    } else {
        evidence_for(edges.drop_last(), target) + (if edges.last().target == target {
            seq![render_edge(edges.last())]
        } else {
            Seq::empty()
        })
    }
}

/// A type has evidence lines exactly when it is list-reachable.
pub proof fn lemma_reachable_evidence(edges: Seq<EdgeView>, target: Seq<char>)
    ensures
        list_reachable(edges, target) <==> evidence_for(edges, target).len() > 0,
    decreases edges.len(),
{
    if edges.len() == 0 {
    } else {
        lemma_reachable_evidence(edges.drop_last(), target);
        if list_reachable(edges, target) {
            let k = choose|k: int| 0 <= k < edges.len() && #[trigger] edges[k].target == target;
            if k < edges.len() - 1 {
                assert(edges.drop_last()[k].target == target);
            }
        }
        if evidence_for(edges.drop_last(), target).len() > 0 {
            let k = choose|k: int|
                0 <= k < edges.drop_last().len() && #[trigger] edges.drop_last()[k].target
                    == target;
            assert(edges[k].target == target);
        }
        if edges.last().target == target {
            assert(edges[edges.len() - 1].target == target);
        }
    }
}

/// Collect the rendered evidence lines for a type.
pub fn collect_evidence(edges: &Vec<ContainmentEdge>, target: &String) -> (r: Vec<String>)
    ensures
        string_views(r@) == evidence_for(edge_views(edges@), target@),
{
    let mut r: Vec<String> = Vec::new();
    let mut k: usize = 0;
    while k < edges.len()
        invariant
            0 <= k <= edges.len(),
            string_views(r@) =~= evidence_for(edge_views(edges@).take(k as int), target@),
        decreases edges.len() - k,
    {
        let e = &edges[k];
        if e.target == *target {
            r.push(render_edge_line(e));
        }
        proof {
            let ev = edge_views(edges@);
            assert(ev.take(k as int + 1).drop_last() =~= ev.take(k as int));
            assert(ev.take(k as int + 1).last() == ev[k as int]);
            assert(ev[k as int] == e@);
        }
        k = k + 1;
    }
    proof {
        assert(edge_views(edges@).take(edges@.len() as int) =~= edge_views(edges@));
    }
    r
}

/// The conventional names of the two entry-point types.
pub open spec fn is_root_name(name: Seq<char>) -> bool {
    name == "Query"@ || name == "Mutation"@
}

/// A type is a root — a query or mutation entry point — when a struct of
/// that name carries the role, or when the name itself is `Query` or
/// `Mutation`.  Root types are exempt from the batching requirement
/// regardless of how they are referenced.
pub open spec fn is_root_type(structs: Seq<StructView>, name: Seq<char>) -> bool {
    ||| is_root_name(name)
    ||| exists|i: int|
        0 <= i < structs.len() && (#[trigger] structs[i]).name == name && (structs[i].is_query
            || structs[i].is_mutation)
}

/// Is the named type a root: by a role flag on a struct of that name, or by
/// the name itself?
fn is_root_ident(structs: &Vec<ParsedStruct>, name: &String) -> (r: bool)
    ensures
        r == is_root_type(structs@.map_values(|s: ParsedStruct| s@), name@),
{
    if str_matches(name, "Query") || str_matches(name, "Mutation") {
        return true;
    }
    let ghost svs = structs@.map_values(|s: ParsedStruct| s@);
    let mut i: usize = 0;
    while i < structs.len()
        invariant
            0 <= i <= structs.len(),
            svs == structs@.map_values(|s: ParsedStruct| s@),
            forall|j: int|
                0 <= j < i ==> !((#[trigger] svs[j]).name == name@ && (svs[j].is_query
                    || svs[j].is_mutation)),
        decreases structs.len() - i,
    {
        let s = &structs[i];
        if (s.is_query || s.is_mutation) && s.name == *name {
            proof {
                assert(svs[i as int] == s@);
                assert(svs[i as int].name == name@ && (svs[i as int].is_query || svs[
                    i as int
                ].is_mutation));
            }
            return true;
        }
        i = i + 1;
    }
    false
}

/// A resolver is in violation shape when it returns a list without a batch
/// configuration.
pub open spec fn method_violates(m: MethodView) -> bool {
    m.is_list_return && m.batch_config is None
}

/// The violation recorded for one resolver of a list-reachable container.
pub open spec fn violation_of(edges: Seq<EdgeView>, container: Seq<char>, m: MethodView)
    -> ViolationView {
    ViolationView { container, resolver: m.name, evidence: evidence_for(edges, container) }
}

/// The violations of one checked container's resolvers, in order.
pub open spec fn method_violations(
    edges: Seq<EdgeView>,
    container: Seq<char>,
    methods: Seq<MethodView>,
) -> Seq<ViolationView>
    decreases methods.len(),
{
    if methods.len() == 0 {
        Seq::empty()
    } else {
        method_violations(edges, container, methods.drop_last()) + (if method_violates(
            methods.last(),
        ) {
            seq![violation_of(edges, container, methods.last())]
        } else {
            Seq::empty()
        })
    }
}

/// The violations of one resolver block: none when its type is a root or is
/// not list-reachable, else those of its resolvers.
pub open spec fn block_violations(
    structs: Seq<StructView>,
    edges: Seq<EdgeView>,
    b: ImplView,
) -> Seq<ViolationView> {
    if is_root_type(structs, b.type_ident) || !list_reachable(edges, b.type_ident) {
        Seq::empty()
    } else {
        method_violations(edges, b.type_ident, b.methods)
    }
}

/// Every violation of the description, block by block, exhaustively.
pub open spec fn impl_violations(
    structs: Seq<StructView>,
    edges: Seq<EdgeView>,
    impls: Seq<ImplView>,
) -> Seq<ViolationView>
    decreases impls.len(),
{
    if impls.len() == 0 {
        Seq::empty()
    } else {
        impl_violations(structs, edges, impls.drop_last()) + block_violations(
            structs,
            edges,
            impls.last(),
        )
    }
}

/// Every violation of a built schema graph.
pub open spec fn graph_violations(g: SchemaGraph) -> Seq<ViolationView> {
    impl_violations(g.structs_view(), edge_views(g.edges@), g.impls_view())
}

/// Every violation of one container's resolvers is recorded: if resolver `j`
/// is in violation shape, its violation stands somewhere in the collected
/// sequence.
proof fn lemma_method_exhaustive(
    edges: Seq<EdgeView>,
    container: Seq<char>,
    methods: Seq<MethodView>,
    j: int,
)
    requires
        0 <= j < methods.len(),
        method_violates(methods[j]),
    ensures
        exists|n: int|
            0 <= n < method_violations(edges, container, methods).len()
                && #[trigger] method_violations(edges, container, methods)[n] == violation_of(
                edges,
                container,
                methods[j],
            ),
    decreases methods.len(),
{
    let all = method_violations(edges, container, methods);
    let prefix = method_violations(edges, container, methods.drop_last());
    if j == methods.len() - 1 {
        assert(all[prefix.len() as int] == violation_of(edges, container, methods[j]));
    } else {
        assert(methods.drop_last()[j] == methods[j]);
        lemma_method_exhaustive(edges, container, methods.drop_last(), j);
        let n = choose|n: int|
            0 <= n < prefix.len() && #[trigger] prefix[n] == violation_of(
                edges,
                container,
                methods[j],
            );
        assert(all[n] == violation_of(edges, container, methods[j]));
    }
}

/// Analyzer exhaustiveness: every resolver in violation shape — an unbatched
/// list resolver of a non-root, list-reachable container — contributes its
/// violation to the analyzer's findings, never only the first one found.
pub proof fn lemma_analyzer_exhaustive(
    structs: Seq<StructView>,
    edges: Seq<EdgeView>,
    impls: Seq<ImplView>,
    k: int,
    j: int,
)
    requires
        0 <= k < impls.len(),
        0 <= j < impls[k].methods.len(),
        !is_root_type(structs, impls[k].type_ident),
        list_reachable(edges, impls[k].type_ident),
        method_violates(impls[k].methods[j]),
    ensures
        exists|n: int|
            0 <= n < impl_violations(structs, edges, impls).len()
                && #[trigger] impl_violations(structs, edges, impls)[n] == violation_of(
                edges,
                impls[k].type_ident,
                impls[k].methods[j],
            ),
    decreases impls.len(),
{
    let all = impl_violations(structs, edges, impls);
    let prefix = impl_violations(structs, edges, impls.drop_last());
    let target = violation_of(edges, impls[k].type_ident, impls[k].methods[j]);
    if k == impls.len() - 1 {
        let b = impls.last();
        lemma_method_exhaustive(edges, b.type_ident, b.methods, j);
        let n = choose|n: int|
            0 <= n < method_violations(edges, b.type_ident, b.methods).len()
                && #[trigger] method_violations(edges, b.type_ident, b.methods)[n] == target;
        assert(all[prefix.len() + n] == target);
    } else {
        assert(impls.drop_last()[k] == impls[k]);
        lemma_analyzer_exhaustive(structs, edges, impls.drop_last(), k, j);
        let n = choose|n: int| 0 <= n < prefix.len() && #[trigger] prefix[n] == target;
        assert(all[n] == target);
    }
}

/// Every violation collected for one container carries that container's name
/// and its evidence, and stems from a resolver in violation shape.
proof fn lemma_method_sound(edges: Seq<EdgeView>, container: Seq<char>, methods: Seq<MethodView>)
    ensures
        forall|n: int|
            0 <= n < method_violations(edges, container, methods).len()
                ==> (#[trigger] method_violations(edges, container, methods)[n]).container
                == container && method_violations(edges, container, methods)[n].evidence
                == evidence_for(edges, container),
    decreases methods.len(),
{
    if methods.len() == 0 {
    } else {
        lemma_method_sound(edges, container, methods.drop_last());
        let all = method_violations(edges, container, methods);
        let prefix = method_violations(edges, container, methods.drop_last());
        assert forall|n: int| 0 <= n < all.len() implies (#[trigger] all[n]).container == container
            && all[n].evidence == evidence_for(edges, container) by {
            if n < prefix.len() {
                assert(all[n] == prefix[n]);
            } else {
                assert(method_violates(methods.last()));
                assert(all[n] == violation_of(edges, container, methods.last()));
            }
        }
    }
}

/// Analyzer soundness: every reported violation names a container that is
/// list-reachable and not a root type, with that container's evidence.
pub proof fn lemma_analyzer_sound(
    structs: Seq<StructView>,
    edges: Seq<EdgeView>,
    impls: Seq<ImplView>,
)
    ensures
        forall|n: int|
            0 <= n < impl_violations(structs, edges, impls).len() ==> {
                &&& list_reachable(
                    edges,
                    (#[trigger] impl_violations(structs, edges, impls)[n]).container,
                )
                &&& !is_root_type(structs, impl_violations(structs, edges, impls)[n].container)
                &&& impl_violations(structs, edges, impls)[n].evidence == evidence_for(
                    edges,
                    impl_violations(structs, edges, impls)[n].container,
                )
            },
    decreases impls.len(),
{
    if impls.len() == 0 {
    } else {
        lemma_analyzer_sound(structs, edges, impls.drop_last());
        let b = impls.last();
        if !is_root_type(structs, b.type_ident) && list_reachable(edges, b.type_ident) {
            lemma_method_sound(edges, b.type_ident, b.methods);
        }
        let all = impl_violations(structs, edges, impls);
        let prefix = impl_violations(structs, edges, impls.drop_last());
        assert forall|n: int| 0 <= n < all.len() implies {
            &&& list_reachable(edges, (#[trigger] all[n]).container)
            &&& !is_root_type(structs, all[n].container)
            &&& all[n].evidence == evidence_for(edges, all[n].container)
        } by {
            if n < prefix.len() {
                assert(all[n] == prefix[n]);
            } else {
                assert(!is_root_type(structs, b.type_ident) && list_reachable(
                    edges,
                    b.type_ident,
                ));
                assert(all[n] == method_violations(edges, b.type_ident, b.methods)[n
                    - prefix.len()]);
            }
        }
    }
}

/// Analyzer exemption: a type that no edge exposes as a list element is
/// never the container of a reported violation, whatever its resolvers
/// return.
pub proof fn lemma_analyzer_exemption(
    structs: Seq<StructView>,
    edges: Seq<EdgeView>,
    impls: Seq<ImplView>,
    t: Seq<char>,
)
    requires
        !list_reachable(edges, t),
    ensures
        forall|n: int|
            0 <= n < impl_violations(structs, edges, impls).len()
                ==> (#[trigger] impl_violations(structs, edges, impls)[n]).container != t,
{
    lemma_analyzer_sound(structs, edges, impls);
}

/// Root exemption: a root type — by role flag or by name — is never the
/// container of a reported violation, however it is referenced.
pub proof fn lemma_root_exemption(
    structs: Seq<StructView>,
    edges: Seq<EdgeView>,
    impls: Seq<ImplView>,
    t: Seq<char>,
)
    requires
        is_root_type(structs, t),
    ensures
        forall|n: int|
            0 <= n < impl_violations(structs, edges, impls).len()
                ==> (#[trigger] impl_violations(structs, edges, impls)[n]).container != t,
{
    lemma_analyzer_sound(structs, edges, impls);
}

/// Every reported violation has at least one evidence line: its container is
/// list-reachable, so some edge renders into evidence.
pub proof fn lemma_violation_evidence_nonempty(
    structs: Seq<StructView>,
    edges: Seq<EdgeView>,
    impls: Seq<ImplView>,
)
    ensures
        forall|n: int|
            0 <= n < impl_violations(structs, edges, impls).len()
                ==> (#[trigger] impl_violations(structs, edges, impls)[n]).evidence.len() > 0,
{
    lemma_analyzer_sound(structs, edges, impls);
    assert forall|n: int| 0 <= n < impl_violations(structs, edges, impls).len() implies (
    #[trigger] impl_violations(structs, edges, impls)[n]).evidence.len() > 0 by {
        lemma_reachable_evidence(edges, impl_violations(structs, edges, impls)[n].container);
    }
}

/// Collect every violation of the given resolver blocks against the given
/// edge set, with root exemption judged against the given object types.
fn analyze_impls(
    structs: &Vec<ParsedStruct>,
    edges: &Vec<ContainmentEdge>,
    impls: &Vec<ParsedImpl>,
) -> (vs: Vec<Violation>)
    ensures
        violation_views(vs@) == impl_violations(
            structs@.map_values(|s: ParsedStruct| s@),
            edge_views(edges@),
            impls@.map_values(|b: ParsedImpl| b@),
        ),
{
    let ghost svs = structs@.map_values(|s: ParsedStruct| s@);
    let ghost ev = edge_views(edges@);
    let ghost ivs = impls@.map_values(|b: ParsedImpl| b@);
    let mut vs: Vec<Violation> = Vec::new();
    let mut k: usize = 0;
    while k < impls.len()
        invariant
            0 <= k <= impls.len(),
            svs == structs@.map_values(|s: ParsedStruct| s@),
            ev == edge_views(edges@),
            ivs == impls@.map_values(|b: ParsedImpl| b@),
            violation_views(vs@) =~= impl_violations(svs, ev, ivs.take(k as int)),
        decreases impls.len() - k,
    {
        let b = &impls[k];
        let root = is_root_ident(structs, &b.type_ident);
        let reachable = is_list_reachable(edges, &b.type_ident);
        if !root && reachable {
            let mut j: usize = 0;
            while j < b.methods.len()
                invariant
                    0 <= j <= b.methods.len(),
                    0 <= k < impls.len(),
                    *b == impls@[k as int],
                    !is_root_type(svs, b@.type_ident),
                    list_reachable(ev, b@.type_ident),
                    svs == structs@.map_values(|s: ParsedStruct| s@),
                    ev == edge_views(edges@),
                    ivs == impls@.map_values(|bb: ParsedImpl| bb@),
                    violation_views(vs@) =~= impl_violations(svs, ev, ivs.take(k as int))
                        + method_violations(ev, b@.type_ident, b@.methods.take(j as int)),
                decreases b.methods.len() - j,
            {
                let m = &b.methods[j];
                let ghost pre = vs@;
                if m.is_list_return && m.batch_config.is_none() {
                    let v = Violation {
                        container_type: b.type_ident.clone(),
                        resolver_name: m.name.clone(),
                        evidence_lines: collect_evidence(edges, &b.type_ident),
                    };
                    proof {
                        assert(v@ == violation_of(ev, b@.type_ident, m@));
                    }
                    vs.push(v);
                    proof {
                        assert(method_violates(m@));
                        assert(violation_views(vs@) =~= violation_views(pre).push(
                            violation_of(ev, b@.type_ident, m@),
                        ));
                    }
                } else {
                    proof {
                        assert(!method_violates(m@));
                    }
                }
                proof {
                    assert(b@.methods.take(j as int + 1).drop_last() =~= b@.methods.take(j as int));
                    assert(b@.methods.take(j as int + 1).last() == b@.methods[j as int]);
                    assert(b@.methods[j as int] == m@);
                    assert(method_violations(ev, b@.type_ident, b@.methods.take(j as int + 1))
                        == method_violations(ev, b@.type_ident, b@.methods.take(j as int)) + (
                    if method_violates(m@) {
                        seq![violation_of(ev, b@.type_ident, m@)]
                    } else {
                        Seq::empty()
                    }));
                }
                j = j + 1;
            }
            proof {
                assert(b@.methods.take(b.methods@.len() as int) =~= b@.methods);
                assert(block_violations(svs, ev, b@) == method_violations(
                    ev,
                    b@.type_ident,
                    b@.methods,
                ));
            }
        } else {
            proof {
                assert(block_violations(svs, ev, b@) =~= Seq::empty());
            }
        }
        proof {
            assert(ivs.take(k as int + 1).drop_last() =~= ivs.take(k as int));
            assert(ivs.take(k as int + 1).last() == ivs[k as int]);
            assert(ivs[k as int] == b@);
        }
        k = k + 1;
    }
    proof {
        assert(ivs.take(impls@.len() as int) =~= ivs);
    }
    vs
}

/// Analyze a built schema graph: succeed when no resolver is open to the
/// N+1 problem, else report every violation.
pub fn analyze(g: &SchemaGraph) -> (r: Result<(), SchemaError>)
    ensures
        match r {
            Ok(()) => graph_violations(*g).len() == 0,
            Err(e) => {
                &&& e matches SchemaError::NPlusOne { violations } && violation_views(violations@)
                    == graph_violations(*g)
                &&& graph_violations(*g).len() > 0
            },
        },
{
    let vs = analyze_impls(&g.structs, &g.edges, &g.impls);
    if vs.len() == 0 {
        Ok(())
    } else {
        Err(SchemaError::NPlusOne { violations: vs })
    }
}

/// Every violation of a schema description, straight from the descriptors.
pub open spec fn module_violations(m: crate::schema::ModuleView) -> Seq<ViolationView> {
    impl_violations(m.structs, crate::graph::module_edges(m.structs, m.impls), m.impls)
}

/// A batch configuration that names no grouping key is unusable.
pub open spec fn bad_batch(m: MethodView) -> bool {
    m.batch_config matches Some(b) && b.key.len() == 0
}

/// Some resolver carries a batch configuration without a grouping key.
pub open spec fn has_bad_batch(impls: Seq<ImplView>) -> bool {
    exists|k: int, j: int|
        0 <= k < impls.len() && 0 <= j < impls[k].methods.len() && bad_batch(
            #[trigger] impls[k].methods[j],
        )
}

/// Resolver `j` of block `k` is the first one whose batch configuration
/// names no grouping key.
pub open spec fn bad_batch_found_at(impls: Seq<ImplView>, k: int, j: int) -> bool {
    &&& 0 <= k < impls.len()
    &&& 0 <= j < impls[k].methods.len()
    &&& bad_batch(impls[k].methods[j])
    &&& forall|k2: int, j2: int|
        0 <= k2 < impls.len() && 0 <= j2 < impls[k2].methods.len() && (k2 < k || (k2 == k && j2
            < j)) ==> !bad_batch(#[trigger] impls[k2].methods[j2])
}

/// The message reported for a batch configuration without a grouping key.
pub open spec fn bad_batch_message(resolver: Seq<char>) -> Seq<char> {
    "batch attribute on resolver `"@ + resolver
        + "` requires `key` parameter: #[batch(key = \"field\")]"@
}

/// Check that every batch configuration of the description names a grouping
/// key; fail on the first resolver whose configuration does not.
pub fn validate_batch_keys(module: &ParsedModule) -> (r: Result<(), SchemaError>)
    ensures
        match r {
            Ok(()) => !has_bad_batch(module@.impls),
            Err(e) => {
                &&& has_bad_batch(module@.impls)
                &&& e matches SchemaError::ParseError { message } && exists|k: int, j: int|
                    #[trigger] bad_batch_found_at(module@.impls, k, j) && message@
                        == bad_batch_message(module@.impls[k].methods[j].name)
            },
        },
{
    let ghost ivs = module@.impls;
    let mut k: usize = 0;
    while k < module.impls.len()
        invariant
            0 <= k <= module.impls.len(),
            ivs == module@.impls,
            forall|k2: int, j2: int|
                0 <= k2 < k && 0 <= j2 < ivs[k2].methods.len() ==> !bad_batch(
                    #[trigger] ivs[k2].methods[j2],
                ),
        decreases module.impls.len() - k,
    {
        let b = &module.impls[k];
        let mut j: usize = 0;
        while j < b.methods.len()
            invariant
                0 <= j <= b.methods.len(),
                0 <= k < module.impls.len(),
                *b == module.impls@[k as int],
                ivs == module@.impls,
                forall|k2: int, j2: int|
                    0 <= k2 < k && 0 <= j2 < ivs[k2].methods.len() ==> !bad_batch(
                        #[trigger] ivs[k2].methods[j2],
                    ),
                forall|j2: int| 0 <= j2 < j ==> !bad_batch(#[trigger] ivs[k as int].methods[j2]),
            decreases b.methods.len() - j,
        {
            let m = &b.methods[j];
            let bad = match &m.batch_config {
                Some(c) => c.key.as_str().is_empty(),
                None => false,
            };
            if bad {
                proof {
                    assert(ivs[k as int].methods[j as int] == m@);
                    assert(bad_batch_found_at(ivs, k as int, j as int));
                }
                let message = String::from_str("batch attribute on resolver `").concat(
                    m.name.as_str(),
                ).concat("` requires `key` parameter: #[batch(key = \"field\")]");
                return Err(SchemaError::ParseError { message });
            }
            proof {
                assert(ivs[k as int].methods[j as int] == m@);
            }
            j = j + 1;
        }
        k = k + 1;
    }
    Ok(())
}

/// Check a whole description for the N+1 problem: succeed when no resolver
/// is in violation, else report every violation.
pub fn validate_n_plus_one(module: &ParsedModule) -> (r: Result<(), SchemaError>)
    ensures
        match r {
            Ok(()) => module_violations(module@).len() == 0,
            Err(e) => {
                &&& e matches SchemaError::NPlusOne { violations } && violation_views(violations@)
                    == module_violations(module@)
                &&& module_violations(module@).len() > 0
            },
        },
{
    let edges = crate::graph::collect_edges(module);
    let vs = analyze_impls(&module.structs, &edges, &module.impls);
    if vs.len() == 0 {
        Ok(())
    } else {
        Err(SchemaError::NPlusOne { violations: vs })
    }
}

} // verus!
