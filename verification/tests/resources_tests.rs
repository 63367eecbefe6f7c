use render_core::resources::{Identifier, Resources};

#[test]
fn new_keeps_namespace_and_path() {
    let id = Identifier::new("minecraft", "texts/end.txt");
    assert_eq!(id.namespace, "minecraft");
    assert_eq!(id.path, "texts/end.txt");
}

#[test]
fn split_without_colon_uses_the_default_namespace() {
    let parts = Identifier::split("stone");
    assert_eq!(parts, vec!["minecraft", "stone"]);
}

#[test]
fn split_with_colon_takes_both_halves() {
    let parts = Identifier::split("mymod:blocks/ore");
    assert_eq!(parts, vec!["mymod", "blocks/ore"]);
}

#[test]
fn split_with_leading_colon_falls_back_to_the_default_namespace() {
    let parts = Identifier::split(":stone");
    assert_eq!(parts, vec!["minecraft", "stone"]);
}

#[test]
fn split_cuts_at_the_first_colon_only() {
    let parts = Identifier::split("a:b:c");
    assert_eq!(parts, vec!["a", "b:c"]);
}

#[test]
fn split_of_empty_text() {
    let parts = Identifier::split("");
    assert_eq!(parts, vec!["minecraft", ""]);
}

#[test]
fn get_utf8_decodes_loaded_bytes() {
    let data = "See you on the other side.".as_bytes().to_vec();
    assert_eq!(Resources::get_utf8(Some(data)), Some("See you on the other side.".to_string()));
    assert_eq!(Resources::get_utf8(None), None);
}

#[test]
fn asset_path_joins_namespace_and_path() {
    let id = Identifier::new("minecraft", "texts/end.txt");
    assert_eq!(id.asset_path(), "assets/minecraft/texts/end.txt");
}
