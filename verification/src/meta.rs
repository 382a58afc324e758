//! Per-resolver metadata that generated schema code registers, and the
//! capability traits it implements for described object types.

use vstd::prelude::*;

verus! {

/// What generated code records about one resolver: its name, whether and how
/// it batches, and its return cardinality.
#[derive(Debug, Clone, Copy)]
pub struct ResolverMeta {
    pub name: &'static str,
    pub is_batched: bool,
    pub batch_key: Option<&'static str>,
    pub batch_delay_ms: u64,
    pub is_list_return: bool,
    pub inner_return_type: Option<&'static str>,
}

/// Identity of a described object type, implemented by generated code.
pub trait GraphQLObjectInfo {
    /// The type's name in the schema.
    fn graphql_name() -> &'static str;

    /// Whether this type is the query root.
    fn is_query() -> bool;

    /// Whether this type is the mutation root.
    fn is_mutation() -> bool;

    /// The inner type names of this type's list-cardinality fields.
    fn list_field_types() -> Vec<&'static str>;
}

/// Marker for a type whose resolvers are all batched; generated code
/// implements it so schema authors can assert batching statically.
pub trait BatchEnabled {

}

/// The names of the unbatched resolvers, in declaration order.
pub open spec fn unbatched_names(metas: Seq<ResolverMeta>) -> Seq<&'static str>
    decreases metas.len(),
{
    if metas.len() == 0 {
        Seq::empty()
    } else {
        unbatched_names(metas.drop_last()) + (if !metas.last().is_batched {
            seq![metas.last().name]
        } else {
            Seq::empty()
        })
    }
}

/// Are all of the given resolvers batched?
pub fn all_batched_in(metas: &Vec<ResolverMeta>) -> (r: bool)
    ensures
        r == forall|i: int| 0 <= i < metas@.len() ==> (#[trigger] metas@[i]).is_batched,
{
    let mut i: usize = 0;
    while i < metas.len()
        invariant
            0 <= i <= metas.len(),
            forall|j: int| 0 <= j < i ==> (#[trigger] metas@[j]).is_batched,
        decreases metas.len() - i,
    {
        if !metas[i].is_batched {
            return false;
        }
        i = i + 1;
    }
    true
}

/// The names of the unbatched resolvers among the given ones.
pub fn unbatched_in(metas: &Vec<ResolverMeta>) -> (r: Vec<&'static str>)
    ensures
        r@ == unbatched_names(metas@),
{
    let mut r: Vec<&'static str> = Vec::new();
    let mut i: usize = 0;
    while i < metas.len()
        invariant
            0 <= i <= metas.len(),
            r@ =~= unbatched_names(metas@.take(i as int)),
        decreases metas.len() - i,
    {
        if !metas[i].is_batched {
            r.push(metas[i].name);
        }
        proof {
            assert(metas@.take(i as int + 1).drop_last() =~= metas@.take(i as int));
            assert(metas@.take(i as int + 1).last() == metas@[i as int]);
        }
        i = i + 1;
    }
    proof {
        assert(metas@.take(metas@.len() as int) =~= metas@);
    }
    r
}

/// Resolver metadata of a described object type, implemented by generated
/// code for each type that declares resolvers.
pub trait ResolverMetadata {
    /// The metadata this type's generated code registers.
    spec fn spec_resolver_meta() -> Seq<ResolverMeta>;

    /// The metadata of every resolver of this type, in declaration order.
    fn resolver_meta() -> (v: Vec<ResolverMeta>)
        ensures
            v@ == Self::spec_resolver_meta(),
    ;

    /// Are all of this type's resolvers batched?
    fn all_batched() -> (r: bool)
        ensures
            r == forall|i: int|
                0 <= i < Self::spec_resolver_meta().len()
                    ==> (#[trigger] Self::spec_resolver_meta()[i]).is_batched,
    {
        let v = Self::resolver_meta();
        all_batched_in(&v)
    }

    /// The names of this type's unbatched resolvers.
    fn unbatched_resolvers() -> (r: Vec<&'static str>)
        ensures
            r@ == unbatched_names(Self::spec_resolver_meta()),
    {
        let v = Self::resolver_meta();
        unbatched_in(&v)
    }
}

} // verus!
