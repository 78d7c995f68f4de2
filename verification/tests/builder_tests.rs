use serde_json::Value;
use snowflake_perms::builder::{EditMessage, SUPPRESS_EMBEDS_FLAG};

fn embed_doc(title: &str) -> Value {
    let mut map = serde_json::Map::new();
    map.insert(String::from("title"), Value::String(String::from(title)));
    Value::Object(map)
}

#[test]
fn content_sets_the_content_field() {
    let m = EditMessage::new().content(String::from("hello"));
    let (content, embeds, components, flags) = m.into_parts();
    assert_eq!(content.as_deref(), Some("hello"));
    assert!(embeds.is_none());
    assert!(components.is_none());
    assert!(flags.is_none());
}

#[test]
fn add_embed_appends_in_order() {
    let m = EditMessage::new()
        .add_embed(embed_doc("first"))
        .add_embed(embed_doc("second"));
    let (_, embeds, _, _) = m.into_parts();
    assert_eq!(
        embeds,
        Some(vec![embed_doc("first"), embed_doc("second")])
    );
}

#[test]
fn set_embed_replaces_existing_embeds() {
    let m = EditMessage::new()
        .add_embed(embed_doc("first"))
        .set_embed(embed_doc("only"));
    let (_, embeds, _, _) = m.into_parts();
    assert_eq!(embeds, Some(vec![embed_doc("only")]));

    let m = EditMessage::new().embed(embed_doc("only"));
    let (_, embeds, _, _) = m.into_parts();
    assert_eq!(embeds, Some(vec![embed_doc("only")]));
}

#[test]
fn set_embeds_appends_all() {
    let m = EditMessage::new()
        .add_embed(embed_doc("a"))
        .set_embeds(vec![embed_doc("b"), embed_doc("c")]);
    let (_, embeds, _, _) = m.into_parts();
    assert_eq!(
        embeds,
        Some(vec![embed_doc("a"), embed_doc("b"), embed_doc("c")])
    );

    // With no embeds yet and nothing to add, the key stays absent.
    let m = EditMessage::new().set_embeds(Vec::new());
    let (_, embeds, _, _) = m.into_parts();
    assert!(embeds.is_none());
}

#[test]
fn components_set_the_components_field() {
    let m = EditMessage::new().components(vec![Value::Null]);
    let (_, _, components, _) = m.into_parts();
    assert_eq!(components, Some(vec![Value::Null]));
}

#[test]
fn suppress_embeds_sets_and_clears_the_flag() {
    let m = EditMessage::new().suppress_embeds(true);
    let (_, _, _, flags) = m.into_parts();
    assert_eq!(flags, Some(SUPPRESS_EMBEDS_FLAG));
    assert_eq!(flags, Some(1 << 2));

    let m = EditMessage::new().suppress_embeds(true).suppress_embeds(false);
    let (_, _, _, flags) = m.into_parts();
    assert!(flags.is_none());
}

#[test]
fn default_touches_no_field() {
    let (content, embeds, components, flags) = EditMessage::default().into_parts();
    assert!(content.is_none());
    assert!(embeds.is_none());
    assert!(components.is_none());
    assert!(flags.is_none());
}
