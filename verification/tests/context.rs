use convoy_graphql::{ConstValue, Ctx, RequestMetadata, ResolverMeta};
use convoy_graphql::meta::{all_batched_in, unbatched_in};

fn sample_args() -> Vec<(String, ConstValue)> {
    vec![
        ("id".to_string(), ConstValue::Number(7)),
        ("name".to_string(), ConstValue::String("Ada".to_string())),
    ]
}

#[test]
fn test_ctx_arg_lookup() {
    let args = sample_args();
    let metadata = RequestMetadata::default();
    let ctx = Ctx::new(None, Some(&args), &metadata);
    assert_eq!(ctx.arg("id"), Some(&ConstValue::Number(7)));
    assert_eq!(ctx.arg("missing"), None);
    let id: Option<i64> = ctx.arg_as("id");
    assert_eq!(id, Some(7));
    let name: Option<String> = ctx.arg_as("name");
    assert_eq!(name, Some("Ada".to_string()));
    // A present argument of the wrong shape reads as None.
    let id_as_bool: Option<bool> = ctx.arg_as("id");
    assert_eq!(id_as_bool, None);
}

#[test]
fn test_ctx_parent_access() {
    let parent = ConstValue::Object(vec![("title".to_string(), ConstValue::String(
        "Dune".to_string(),
    ))]);
    let metadata = RequestMetadata::default();
    let ctx = Ctx::new(Some(&parent), None, &metadata);
    assert_eq!(ctx.parent(), Some(&parent));
    assert_eq!(
        ctx.parent_field("title"),
        Some(&ConstValue::String("Dune".to_string()))
    );
    assert_eq!(ctx.parent_field("author"), None);
    assert_eq!(ctx.arg("anything"), None);
}

#[test]
fn test_ctx_parent_as_plain_value() {
    let parent = ConstValue::Number(99);
    let metadata = RequestMetadata::default();
    let ctx = Ctx::new(Some(&parent), None, &metadata);
    let n: Option<i64> = ctx.parent_as();
    assert_eq!(n, Some(99));
    let s: Option<String> = ctx.parent_as();
    assert_eq!(s, None);
}

#[test]
fn test_ctx_metadata_lookup() {
    let mut metadata = RequestMetadata::new();
    metadata.headers.insert("accept-language".to_string(), "en".to_string());
    metadata.vars.insert("tenant".to_string(), "acme".to_string());
    let ctx = Ctx::new(None, None, &metadata);
    assert_eq!(ctx.header("accept-language"), Some("en"));
    assert_eq!(ctx.header("accept"), None);
    assert_eq!(ctx.var("tenant"), Some("acme"));
    assert_eq!(ctx.var("region"), None);
}

fn meta(name: &'static str, is_batched: bool) -> ResolverMeta {
    ResolverMeta {
        name,
        is_batched,
        batch_key: if is_batched { Some("id") } else { None },
        batch_delay_ms: if is_batched { 10 } else { 0 },
        is_list_return: true,
        inner_return_type: Some("Post"),
    }
}

#[test]
fn test_resolver_meta_all_batched() {
    let all = vec![meta("posts", true), meta("drafts", true)];
    assert!(all_batched_in(&all));
    let mixed = vec![meta("posts", true), meta("comments", false)];
    assert!(!all_batched_in(&mixed));
    assert!(all_batched_in(&Vec::new()));
}

#[test]
fn test_resolver_meta_unbatched_names() {
    let mixed = vec![meta("posts", true), meta("comments", false), meta("tags", false)];
    assert_eq!(unbatched_in(&mixed), vec!["comments", "tags"]);
    let all = vec![meta("posts", true)];
    assert_eq!(unbatched_in(&all), Vec::<&'static str>::new());
}
