//! Rendering of analyzer findings into human-readable messages.
//!
//! Each evidence edge reads `Container.field: List<Target>` for a declared
//! field and `Container::resolver() -> List<Target>` for a computed resolver;
//! a violation message names the offending type and resolver, a `note:` line
//! with the evidence, and a `help:` line with the remediation.

use vstd::prelude::*;
use vstd::string::StringExecFns;
use crate::analyzer::{Violation, ViolationView};
use crate::error::{Error, SchemaError};
use crate::graph::{ContainmentEdge, EdgeView};

verus! {

/// The rendered form of one evidence edge.
pub open spec fn render_edge(e: EdgeView) -> Seq<char> {
    if e.is_resolver {
        e.container + "::"@ + e.member + "() -> List<"@ + e.target + ">"@
    } else {
        e.container + "."@ + e.member + ": List<"@ + e.target + ">"@
    }
}

/// Render one evidence edge.
pub fn render_edge_line(e: &ContainmentEdge) -> (r: String)
    ensures
        r@ == render_edge(e@),
{
    if e.is_resolver {
        e.container.clone().concat("::").concat(e.member.as_str()).concat("() -> List<").concat(
            e.target.as_str(),
        ).concat(">")
    } else {
        e.container.clone().concat(".").concat(e.member.as_str()).concat(": List<").concat(
            e.target.as_str(),
        ).concat(">")
    }
}

/// The given parts joined by the separator.
pub open spec fn join_with(parts: Seq<Seq<char>>, sep: Seq<char>) -> Seq<char>
    decreases parts.len(),
{
    if parts.len() == 0 {
        Seq::empty()
    } else if parts.len() == 1 {
        parts[0]
    } else {
        join_with(parts.drop_last(), sep) + sep + parts.last()
    }
}

/// Abstract contents of a vector of strings.
pub open spec fn string_views(parts: Seq<String>) -> Seq<Seq<char>> {
    parts.map_values(|s: String| s@)
}

/// Join the parts with the separator.
pub fn join_strings(parts: &Vec<String>, sep: &str) -> (r: String)
    ensures
        r@ == join_with(string_views(parts@), sep@),
{
    let mut r = String::new();
    let mut j: usize = 0;
    while j < parts.len()
        invariant
            0 <= j <= parts.len(),
            r@ =~= join_with(string_views(parts@).take(j as int), sep@),
        decreases parts.len() - j,
    {
        if j > 0 {
            r = r.concat(sep);
        }
        r = r.concat(parts[j].as_str());
        proof {
            let pv = string_views(parts@);
            assert(pv.take(j as int + 1).drop_last() =~= pv.take(j as int));
            assert(pv.take(j as int + 1).last() == pv[j as int]);
        }
        j = j + 1;
    }
    proof {
        assert(string_views(parts@).take(parts@.len() as int) =~= string_views(parts@));
    }
    r
}

/// The rendered form of one violation: the offending resolver, a `note:`
/// line with its list-context evidence, and a `help:` line.
pub open spec fn violation_message_view(v: ViolationView) -> Seq<char> {
    "N+1 query detected! `"@ + v.container + "::"@ + v.resolver
        + "` returns a list but is not batched.\n   = note: `"@ + v.container
        + "` appears in list context via: "@ + join_with(v.evidence, ", "@)
        + "\n   = help: add #[batch(key = \"field\")] to enable batching"@
}

impl Violation {
    /// Render this violation as a diagnostic message.
    pub fn message(&self) -> (r: String)
        ensures
            r@ == violation_message_view(self@),
    {
        let joined = join_strings(&self.evidence_lines, ", ");
        String::from_str("N+1 query detected! `").concat(self.container_type.as_str()).concat(
            "::",
        ).concat(self.resolver_name.as_str()).concat(
            "` returns a list but is not batched.\n   = note: `",
        ).concat(self.container_type.as_str()).concat("` appears in list context via: ").concat(
            joined.as_str(),
        ).concat("\n   = help: add #[batch(key = \"field\")] to enable batching")
    }
}

/// The rendered forms of a list of violations.
pub open spec fn violation_messages_view(vs: Seq<ViolationView>) -> Seq<Seq<char>> {
    vs.map_values(|v: ViolationView| violation_message_view(v))
}

impl SchemaError {
    /// The rendered form of this error.
    pub open spec fn message_view(self) -> Seq<char> {
        match self {
            SchemaError::BuildError { message } => "Failed to build GraphQL schema: "@ + message@,
            SchemaError::ParseError { message } => "Failed to parse: "@ + message@,
            SchemaError::NPlusOne { violations } => join_with(
                violation_messages_view(violations@.map_values(|v: Violation| v@)),
                "\n\n"@,
            ),
        }
    }

    /// Render this error as a diagnostic message.
    pub fn message(&self) -> (r: String)
        ensures
            r@ == self.message_view(),
    {
        match self {
            SchemaError::BuildError { message } => String::from_str(
                "Failed to build GraphQL schema: ",
            ).concat(message.as_str()),
            SchemaError::ParseError { message } => String::from_str("Failed to parse: ").concat(
                message.as_str(),
            ),
            SchemaError::NPlusOne { violations } => {
                let mut lines: Vec<String> = Vec::new();
                let mut i: usize = 0;
                while i < violations.len()
                    invariant
                        0 <= i <= violations.len(),
                        string_views(lines@) =~= violation_messages_view(
                            violations@.map_values(|v: Violation| v@),
                        ).take(i as int),
                    decreases violations.len() - i,
                {
                    let msg = violations[i].message();
                    let ghost pre = lines@;
                    lines.push(msg);
                    proof {
                        let all = violation_messages_view(
                            violations@.map_values(|v: Violation| v@),
                        );
                        assert(all[i as int] == violation_message_view(violations@[i as int]@));
                        assert(string_views(lines@) =~= string_views(pre).push(msg@));
                        assert(all.take(i as int + 1) =~= all.take(i as int).push(all[i as int]));
                    }
                    i = i + 1;
                }
                proof {
                    let all = violation_messages_view(violations@.map_values(|v: Violation| v@));
                    assert(all.take(violations@.len() as int) =~= all);
                }
                join_strings(&lines, "\n\n")
            },
        }
    }
}

impl Error {
    /// The rendered form of this error: that of the schema error it wraps.
    pub open spec fn message_view(self) -> Seq<char> {
        match self {
            Error::Schema(e) => e.message_view(),
        }
    }

    /// Render this error as a diagnostic message.
    pub fn message(&self) -> (r: String)
        ensures
            r@ == self.message_view(),
    {
        match self {
            Error::Schema(e) => e.message(),
        }
    }
}

} // verus!
