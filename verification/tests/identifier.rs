use rimecraft::util::Identifier;

#[test]
fn new_accepts_valid_components() {
    let id = Identifier::new("mod", "stone").unwrap();
    assert_eq!(id.namespace(), "mod");
    assert_eq!(id.path(), "stone");
}

#[test]
fn new_accepts_full_character_set() {
    let id = Identifier::new("my_mod-2.x", "a/b_c-d.e9").unwrap();
    assert_eq!(id.namespace(), "my_mod-2.x");
    assert_eq!(id.path(), "a/b_c-d.e9");
}

#[test]
fn new_rejects_uppercase() {
    assert!(Identifier::new("Mod", "stone").is_err());
    assert!(Identifier::new("mod", "Stone").is_err());
}

#[test]
fn new_rejects_empty_components() {
    assert!(Identifier::new("", "stone").is_err());
    assert!(Identifier::new("mod", "").is_err());
}

#[test]
fn new_rejects_disallowed_characters() {
    assert!(Identifier::new("mod!", "stone").is_err());
    assert!(Identifier::new("mod", "sto ne").is_err());
    assert!(Identifier::new("mo/d", "stone").is_err());
    assert!(Identifier::new("mod", "sto:ne").is_err());
}

#[test]
fn slash_allowed_in_path_only() {
    assert!(Identifier::new("mod", "a/b").is_ok());
    assert!(Identifier::new("a/b", "c").is_err());
}

#[test]
fn round_trip_through_text() {
    let id = Identifier::new("mod", "block/stone").unwrap();
    let text = id.to_text();
    assert_eq!(text, "mod:block/stone");
    let back = Identifier::parse(&text);
    assert_eq!(back.namespace(), id.namespace());
    assert_eq!(back.path(), id.path());
    assert!(back == id);
}

#[test]
fn try_parse_splits_on_first_colon() {
    let id = Identifier::try_parse("mod:stone").unwrap();
    assert_eq!(id.namespace(), "mod");
    assert_eq!(id.path(), "stone");
}

#[test]
fn try_parse_defaults_namespace() {
    let id = Identifier::try_parse("stone").unwrap();
    assert_eq!(id.namespace(), "rimecraft");
    assert_eq!(id.path(), "stone");
}

#[test]
fn try_parse_rejects_invalid_text() {
    assert!(Identifier::try_parse("Mod:stone").is_err());
    assert!(Identifier::try_parse("mod:").is_err());
    assert!(Identifier::try_parse(":stone").is_err());
    assert!(Identifier::try_parse("a:b:c").is_err());
}

#[test]
fn split_on_other_delimiter() {
    let id = Identifier::split_on("mod/stone", '/').unwrap();
    assert_eq!(id.namespace(), "mod");
    assert_eq!(id.path(), "stone");
}

#[test]
fn equality_is_structural() {
    let a = Identifier::new("mod", "stone").unwrap();
    let b = Identifier::new("mod", "stone").unwrap();
    let c = Identifier::new("mod", "dirt").unwrap();
    assert!(a == b);
    assert!(a != c);
    assert!(a.clone() == b);
}
