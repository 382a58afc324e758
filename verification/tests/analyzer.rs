use convoy_graphql::{analyze, build_graph, validate_batch_keys, validate_n_plus_one};
use convoy_graphql::{BatchConfig, MacroArgs, SchemaError};
use convoy_graphql::{ParsedField, ParsedImpl, ParsedMethod, ParsedModule, ParsedStruct, TypeExpr};

fn vec_of(name: &str) -> TypeExpr {
    TypeExpr::Apply("Vec".to_string(), Box::new(TypeExpr::Named(name.to_string())))
}

fn object(name: &str, fields: Vec<ParsedField>) -> ParsedStruct {
    ParsedStruct {
        name: name.to_string(),
        graphql_name: name.to_string(),
        is_query: false,
        is_mutation: false,
        is_subscription: false,
        fields,
    }
}

fn field(name: &str, ty: TypeExpr) -> ParsedField {
    ParsedField::new(name.to_string(), ty)
}

fn resolver(name: &str, ty: TypeExpr, batch: Option<BatchConfig>) -> ParsedMethod {
    ParsedMethod::new(name.to_string(), Vec::new(), ty, batch)
}

fn module(structs: Vec<ParsedStruct>, impls: Vec<ParsedImpl>) -> ParsedModule {
    ParsedModule {
        name: "schema".to_string(),
        args: MacroArgs { generate: None },
        structs,
        impls,
    }
}

/// The end-to-end schema of the Author/Post/Comment scenario: `Author.posts`
/// is a declared list of `Post`, and `Post::comments` is an unbatched list
/// resolver of `Comment`.
fn author_post_comment(batch: Option<BatchConfig>) -> ParsedModule {
    module(
        vec![
            object("Query", Vec::new()),
            object("Author", vec![field("posts", vec_of("Post"))]),
            object("Post", Vec::new()),
            object("Comment", Vec::new()),
        ],
        vec![ParsedImpl {
            type_ident: "Post".to_string(),
            methods: vec![resolver("comments", vec_of("Comment"), batch)],
        }],
    )
}

#[test]
fn test_author_post_comment_single_violation() {
    let m = author_post_comment(None);
    match validate_n_plus_one(&m) {
        Ok(()) => panic!("expected one violation"),
        Err(SchemaError::NPlusOne { violations }) => {
            assert_eq!(violations.len(), 1);
            assert_eq!(violations[0].container_type, "Post");
            assert_eq!(violations[0].resolver_name, "comments");
            assert_eq!(violations[0].evidence_lines, vec!["Author.posts: List<Post>".to_string()]);
        }
        Err(_) => panic!("unexpected error kind"),
    }
}

#[test]
fn test_batched_resolver_passes() {
    let m = author_post_comment(Some(BatchConfig { key: "post_id".to_string(), delay_ms: 10 }));
    assert!(validate_n_plus_one(&m).is_ok());
}

#[test]
fn test_analyzer_reports_all_violations() {
    // Two distinct violating resolvers: Post::comments and Author::drafts,
    // with both Post and Author exposed as list elements.
    let m = module(
        vec![
            object("Query", vec![field("authors", vec_of("Author"))]),
            object("Author", vec![field("posts", vec_of("Post"))]),
            object("Post", Vec::new()),
        ],
        vec![
            ParsedImpl {
                type_ident: "Author".to_string(),
                methods: vec![resolver("drafts", vec_of("Post"), None)],
            },
            ParsedImpl {
                type_ident: "Post".to_string(),
                methods: vec![resolver("comments", vec_of("Comment"), None)],
            },
        ],
    );
    match validate_n_plus_one(&m) {
        Err(SchemaError::NPlusOne { violations }) => {
            assert_eq!(violations.len(), 2);
            assert_eq!(violations[0].container_type, "Author");
            assert_eq!(violations[0].resolver_name, "drafts");
            assert_eq!(violations[1].container_type, "Post");
            assert_eq!(violations[1].resolver_name, "comments");
        }
        _ => panic!("expected two violations"),
    }
}

#[test]
fn test_analyzer_exempts_unreferenced_type() {
    // Tag is never the target of any list edge, so its unbatched list
    // resolver is no violation.
    let m = module(
        vec![object("Query", Vec::new()), object("Tag", Vec::new())],
        vec![ParsedImpl {
            type_ident: "Tag".to_string(),
            methods: vec![resolver("members", vec_of("User"), None)],
        }],
    );
    assert!(validate_n_plus_one(&m).is_ok());
}

#[test]
fn test_root_types_exempt() {
    // Query is exposed as a list element, but root types are entry points
    // and stay exempt from the batching requirement.
    let m = module(
        vec![
            object("Query", Vec::new()),
            object("Weird", vec![field("queries", vec_of("Query"))]),
        ],
        vec![ParsedImpl {
            type_ident: "Query".to_string(),
            methods: vec![resolver("posts", vec_of("Post"), None)],
        }],
    );
    assert!(validate_n_plus_one(&m).is_ok());
}

/// A module whose query root is a struct named `name` marked with the query
/// role, exposed as a list element, with an unbatched list resolver.
fn renamed_root_module(name: &str, mark_query: bool) -> ParsedModule {
    let mut root = object(name, Vec::new());
    root.is_query = mark_query;
    let mut structs = vec![root, object("Holder", vec![field("roots", vec_of(name))])];
    if !mark_query {
        structs.push(object("Query", Vec::new()));
    }
    module(
        structs,
        vec![ParsedImpl {
            type_ident: name.to_string(),
            methods: vec![resolver("posts", vec_of("Post"), None)],
        }],
    )
}

#[test]
fn test_renamed_query_root_exempt() {
    // Root types are exempt however they are referenced, and the root is
    // whatever type carries the role, not only one named `Query`.
    let m = renamed_root_module("Root", true);
    assert!(validate_n_plus_one(&m).is_ok());
}

#[test]
fn test_renamed_mutation_root_exempt() {
    let mut root = object("Changes", Vec::new());
    root.is_mutation = true;
    let m = module(
        vec![
            object("Query", Vec::new()),
            root,
            object("Holder", vec![field("changes", vec_of("Changes"))]),
        ],
        vec![ParsedImpl {
            type_ident: "Changes".to_string(),
            methods: vec![resolver("entries", vec_of("Entry"), None)],
        }],
    );
    assert!(validate_n_plus_one(&m).is_ok());
}

#[test]
fn test_unmarked_type_of_same_shape_flagged() {
    // The same schema without the role flag is an ordinary type, and its
    // unbatched list resolver is reported.
    let m = renamed_root_module("Root", false);
    match validate_n_plus_one(&m) {
        Err(SchemaError::NPlusOne { violations }) => {
            assert_eq!(violations.len(), 1);
            assert_eq!(violations[0].container_type, "Root");
            assert_eq!(violations[0].resolver_name, "posts");
        }
        _ => panic!("expected one violation"),
    }
}

#[test]
fn test_self_referential_type_flagged() {
    // A type whose own resolver exposes it as a list element is checked
    // against its own edge: the check is symmetric, not cross-type only.
    let m = module(
        vec![object("Query", Vec::new()), object("Node", Vec::new())],
        vec![ParsedImpl {
            type_ident: "Node".to_string(),
            methods: vec![resolver("children", vec_of("Node"), None)],
        }],
    );
    match validate_n_plus_one(&m) {
        Err(SchemaError::NPlusOne { violations }) => {
            assert_eq!(violations.len(), 1);
            assert_eq!(violations[0].container_type, "Node");
            assert_eq!(violations[0].resolver_name, "children");
            assert_eq!(
                violations[0].evidence_lines,
                vec!["Node::children() -> List<Node>".to_string()]
            );
        }
        _ => panic!("expected one violation"),
    }
}

#[test]
fn test_build_graph_requires_query_root() {
    let m = module(vec![object("Author", Vec::new())], Vec::new());
    match build_graph(m) {
        Err(SchemaError::BuildError { message }) => {
            assert!(message.contains("must contain a Query type"));
        }
        _ => panic!("expected a build error"),
    }
}

#[test]
fn test_build_graph_records_edges() {
    let m = author_post_comment(None);
    let g = build_graph(m).unwrap();
    assert_eq!(g.edges.len(), 2);
    assert_eq!(g.edges[0].container, "Author");
    assert_eq!(g.edges[0].member, "posts");
    assert_eq!(g.edges[0].target, "Post");
    assert!(!g.edges[0].is_resolver);
    assert_eq!(g.edges[1].container, "Post");
    assert_eq!(g.edges[1].member, "comments");
    assert_eq!(g.edges[1].target, "Comment");
    assert!(g.edges[1].is_resolver);
    match analyze(&g) {
        Err(SchemaError::NPlusOne { violations }) => assert_eq!(violations.len(), 1),
        _ => panic!("expected one violation"),
    }
}

#[test]
fn test_violation_message_text() {
    let m = author_post_comment(None);
    match validate_n_plus_one(&m) {
        Err(SchemaError::NPlusOne { violations }) => {
            let text = violations[0].message();
            assert_eq!(
                text,
                "N+1 query detected! `Post::comments` returns a list but is not batched.\n   \
                 = note: `Post` appears in list context via: Author.posts: List<Post>\n   \
                 = help: add #[batch(key = \"field\")] to enable batching"
            );
        }
        _ => panic!("expected one violation"),
    }
}

#[test]
fn test_schema_error_messages() {
    let build = SchemaError::BuildError { message: "no good".to_string() };
    assert_eq!(build.message(), "Failed to build GraphQL schema: no good");
    let parse = SchemaError::ParseError { message: "bad token".to_string() };
    assert_eq!(parse.message(), "Failed to parse: bad token");
}

#[test]
fn test_error_wraps_schema_error() {
    let inner = SchemaError::ParseError { message: "bad token".to_string() };
    let wrapped = convoy_graphql::Error::from(inner);
    assert!(matches!(&wrapped, convoy_graphql::Error::Schema(_)));
    assert_eq!(wrapped.message(), "Failed to parse: bad token");
}

#[test]
fn test_validate_batch_keys_rejects_empty_key() {
    let m = module(
        vec![object("Query", Vec::new())],
        vec![ParsedImpl {
            type_ident: "Post".to_string(),
            methods: vec![resolver(
                "comments",
                vec_of("Comment"),
                Some(BatchConfig { key: String::new(), delay_ms: 5 }),
            )],
        }],
    );
    match validate_batch_keys(&m) {
        Err(SchemaError::ParseError { message }) => {
            assert_eq!(
                message,
                "batch attribute on resolver `comments` requires `key` parameter: \
                 #[batch(key = \"field\")]"
            );
        }
        _ => panic!("expected a parse error"),
    }
}

#[test]
fn test_validate_batch_keys_accepts_named_key() {
    let m = author_post_comment(Some(BatchConfig { key: "post_id".to_string(), delay_ms: 5 }));
    assert!(validate_batch_keys(&m).is_ok());
}
