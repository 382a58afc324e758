use convoy_graphql::{analyze_return_type, analyze_type, extract_inner_type_ident};
use convoy_graphql::{MacroArgs, ParsedField, ParsedImpl, ParsedModule, ParsedStruct, TypeExpr};

fn named(name: &str) -> TypeExpr {
    TypeExpr::Named(name.to_string())
}

fn apply(head: &str, inner: TypeExpr) -> TypeExpr {
    TypeExpr::Apply(head.to_string(), Box::new(inner))
}

#[test]
fn test_analyze_type_scalar() {
    assert_eq!(analyze_type(&named("Post")), (false, None));
    assert_eq!(analyze_type(&named("i64")), (false, None));
    assert_eq!(analyze_type(&TypeExpr::Other), (false, None));
}

#[test]
fn test_analyze_type_vec() {
    assert_eq!(analyze_type(&apply("Vec", named("Post"))), (true, Some("Post".to_string())));
}

#[test]
fn test_analyze_type_through_wrappers() {
    // Option and Result are transparent for cardinality.
    assert_eq!(
        analyze_type(&apply("Option", apply("Vec", named("Post")))),
        (true, Some("Post".to_string()))
    );
    assert_eq!(
        analyze_return_type(&apply("Result", apply("Vec", named("Post")))),
        (true, Some("Post".to_string()))
    );
    assert_eq!(analyze_type(&apply("Option", named("Post"))), (false, None));
}

#[test]
fn test_inner_type_ident_unwraps() {
    assert_eq!(extract_inner_type_ident(&named("Comment")), "Comment");
    assert_eq!(extract_inner_type_ident(&apply("Box", named("Comment"))), "Comment");
    assert_eq!(extract_inner_type_ident(&apply("Option", named("Comment"))), "Comment");
    assert_eq!(extract_inner_type_ident(&apply("Vec", named("Comment"))), "Vec");
    assert_eq!(extract_inner_type_ident(&TypeExpr::Other), "Unknown");
}

#[test]
fn test_parsed_field_derives_cardinality() {
    let f = ParsedField::new("posts".to_string(), apply("Vec", named("Post")));
    assert!(f.is_list);
    assert_eq!(f.inner_type, Some("Post".to_string()));
    let g = ParsedField::new("title".to_string(), named("String"));
    assert!(!g.is_list);
    assert_eq!(g.inner_type, None);
}

fn role_struct(name: &str, is_query: bool, is_mutation: bool, is_subscription: bool) -> ParsedStruct {
    ParsedStruct {
        name: name.to_string(),
        graphql_name: name.to_string(),
        is_query,
        is_mutation,
        is_subscription,
        fields: Vec::new(),
    }
}

#[test]
fn test_role_finders() {
    let m = ParsedModule {
        name: "schema".to_string(),
        args: MacroArgs::default(),
        structs: vec![
            role_struct("Query", false, false, false),
            role_struct("Mutation", false, false, false),
            role_struct("Events", false, false, true),
        ],
        impls: Vec::new(),
    };
    assert_eq!(m.query_type().unwrap().name, "Query");
    assert_eq!(m.mutation_type().unwrap().name, "Mutation");
    assert_eq!(m.subscription_type().unwrap().name, "Events");
}

#[test]
fn test_role_finders_by_flag() {
    // A struct marked with a role counts even under another name.
    let m = ParsedModule {
        name: "schema".to_string(),
        args: MacroArgs::default(),
        structs: vec![role_struct("Root", true, false, false)],
        impls: Vec::new(),
    };
    assert_eq!(m.query_type().unwrap().name, "Root");
    assert!(m.mutation_type().is_none());
    assert!(m.subscription_type().is_none());
}

#[test]
fn test_impl_for_finds_block() {
    let m = ParsedModule {
        name: "schema".to_string(),
        args: MacroArgs::default(),
        structs: vec![role_struct("Query", false, false, false)],
        impls: vec![
            ParsedImpl { type_ident: "Post".to_string(), methods: Vec::new() },
            ParsedImpl { type_ident: "Author".to_string(), methods: Vec::new() },
        ],
    };
    assert_eq!(m.impl_for("Author").unwrap().type_ident, "Author");
    assert!(m.impl_for("Comment").is_none());
}

#[test]
fn test_macro_args_default() {
    let args = MacroArgs::default();
    assert!(args.generate.is_none());
}
