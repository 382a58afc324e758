//! A schema-description core for a graph API framework.
//!
//! The crate covers three verified subsystems:
//! - the schema graph builder, which turns object-type descriptions into a
//!   directed graph of list-cardinality containment edges;
//! - the N+1 analyzer, which exhaustively flags every resolver that returns a
//!   list of a list-reachable type without a batch configuration;
//! - the batch-loader core, the coalescing-window state machine and the
//!   per-key result distribution that the asynchronous loader runtime drives.

pub mod analyzer;
pub mod context;
pub mod diagnostics;
pub mod error;
pub mod graph;
pub mod loader;
pub mod meta;
pub mod schema;
pub mod value;

pub use analyzer::{analyze, validate_batch_keys, validate_n_plus_one, Violation};
pub use context::{Ctx, RequestMetadata};
pub use error::{Error, SchemaError};
pub use graph::{build_graph, is_list_reachable, ContainmentEdge, SchemaGraph};
pub use loader::{distribute, LoaderKey, LoaderValue, PendingBatch};
pub use meta::{BatchEnabled, GraphQLObjectInfo, ResolverMeta, ResolverMetadata};
pub use schema::{
    analyze_return_type, analyze_type, extract_inner_type_ident, MacroArgs, ParsedArg,
    ParsedField, ParsedImpl, ParsedMethod, ParsedModule, ParsedStruct, TypeExpr,
};
pub use value::{ConstValue, FromConstValue, GraphQLType, ToConstValue};

use vstd::prelude::*;

verus! {

/// A resolver opts into batched execution by naming a grouping key and a
/// coalescing delay in milliseconds.
#[derive(Debug, Clone)]
pub struct BatchConfig {
    pub key: String,
    pub delay_ms: u64,
}

} // verus!
