use rimecraft::item::Item;
use rimecraft::registry::tag::TagKey;
use rimecraft::registry::{root_key, Builder, Registration, Registry, RegistryKey};
use rimecraft::util::{Freeze, Freezer, Identifier};

fn id(text: &str) -> Identifier {
    Identifier::try_parse(text).unwrap()
}

fn items_key() -> RegistryKey<Registry<Item>> {
    RegistryKey::of_reg(id("mod:items"))
}

fn build_abc() -> Registry<Item> {
    let mut builder: Builder<Item> = Builder::new();
    builder.register(Item::new(), id("mod:a")).unwrap();
    builder.register(Item::new(), id("mod:b")).unwrap();
    builder.register(Item::new(), id("mod:c")).unwrap();
    let registry: Registry<Item> = builder.build((items_key(), None));
    registry
}

#[test]
fn register_returns_positions() {
    let mut builder: Builder<Item> = Builder::new();
    assert_eq!(builder.register(Item::new(), id("mod:a")).unwrap(), 0);
    assert_eq!(builder.register(Item::new(), id("mod:b")).unwrap(), 1);
    assert_eq!(builder.register(Item::new(), id("mod:c")).unwrap(), 2);
}

#[test]
fn duplicate_registration_rejected() {
    let mut builder: Builder<Item> = Builder::new();
    builder.register(Item::new(), id("mod:a")).unwrap();
    assert!(builder.register(Item::new(), id("mod:a")).is_err());
    // the failed call left the builder unchanged: the next raw id is still 1
    assert_eq!(builder.register(Item::new(), id("mod:b")).unwrap(), 1);
}

#[test]
fn raw_ids_follow_registration_order() {
    let registry = build_abc();
    assert_eq!(registry.len(), 3);
    let (raw_a, _) = registry.get_from_id(&id("mod:a")).unwrap();
    let (raw_b, _) = registry.get_from_id(&id("mod:b")).unwrap();
    let (raw_c, _) = registry.get_from_id(&id("mod:c")).unwrap();
    assert_eq!((raw_a, raw_b, raw_c), (0, 1, 2));
    let holder = registry.get_from_raw(1).unwrap();
    assert_eq!(holder.key().value().path(), "b");
}

#[test]
fn values_accept_their_raw_ids() {
    let registry = build_abc();
    for i in 0..3 {
        assert_eq!(registry.get_from_raw(i).unwrap().value().raw_id(), i);
    }
}

#[test]
fn lookups_agree_on_raw_ids() {
    let registry = build_abc();
    for i in 0..registry.len() {
        let holder = registry.get_from_raw(i).unwrap();
        let (by_id, _) = registry.get_from_id(holder.key().value()).unwrap();
        let (by_key, _) = registry.get_from_key(holder.key()).unwrap();
        assert_eq!(by_id, i);
        assert_eq!(by_key, i);
    }
}

#[test]
fn contains_checks() {
    let registry = build_abc();
    assert!(registry.contains_id(&id("mod:b")));
    assert!(!registry.contains_id(&id("mod:zzz")));
    let key = RegistryKey::new(&items_key(), id("mod:b"));
    assert!(registry.contains_ket(&key));
    let missing = RegistryKey::new(&items_key(), id("mod:zzz"));
    assert!(!registry.contains_ket(&missing));
}

#[test]
fn get_from_raw_out_of_range() {
    let registry = build_abc();
    assert!(registry.get_from_raw(3).is_none());
}

#[test]
fn resolved_default_entry() {
    let mut builder: Builder<Item> = Builder::new();
    builder.register(Item::new(), id("mod:a")).unwrap();
    builder.register(Item::new(), id("mod:b")).unwrap();
    let registry: Registry<Item> = builder.build((items_key(), Some(id("mod:b"))));
    assert!(registry.is_defaulted());
    let (raw, holder) = registry.default_entry();
    assert_eq!(raw, 1);
    assert_eq!(holder.key().value().path(), "b");
}

#[test]
fn unresolved_default_is_silently_absent() {
    let mut builder: Builder<Item> = Builder::new();
    builder.register(Item::new(), id("mod:a")).unwrap();
    let registry: Registry<Item> = builder.build((items_key(), Some(id("mod:never"))));
    assert!(!registry.is_defaulted());
}

#[test]
fn freezer_seals_once() {
    let mut builder: Builder<Item> = Builder::new();
    builder.register(Item::new(), id("mod:a")).unwrap();
    let mut freezer: Freezer<Registry<Item>, Builder<Item>> = Freezer::new(builder);
    assert!(!freezer.is_freezed());
    freezer.freeze((items_key(), None));
    assert!(freezer.is_freezed());
    let registry = freezer.get();
    assert_eq!(registry.len(), 1);
    assert!(registry.contains_id(&id("mod:a")));
}

#[test]
fn freezer_seed_grows_before_sealing() {
    let mut freezer: Freezer<Registry<Item>, Builder<Item>> = Freezer::new(Builder::new());
    freezer
        .seed_mut()
        .expect("the freezer is still open")
        .register(Item::new(), id("mod:a"))
        .unwrap();
    freezer
        .seed_mut()
        .expect("the freezer is still open")
        .register(Item::new(), id("mod:b"))
        .unwrap();
    freezer.freeze((items_key(), None));
    assert!(freezer.seed_mut().is_none());
    assert_eq!(freezer.get().len(), 2);
}

#[test]
fn identity_freeze() {
    let mut freezer: Freezer<u64> = Freezer::new(7u64);
    assert!(!freezer.is_freezed());
    freezer.freeze(());
    assert!(freezer.is_freezed());
    assert_eq!(*freezer.get(), 7);
}

#[test]
fn key_cast_matches_registry() {
    let items = items_key();
    let blocks: RegistryKey<Registry<Item>> = RegistryKey::of_reg(id("mod:blocks"));
    let key = RegistryKey::new(&items, id("mod:apple"));
    assert!(key.is_of(&items));
    assert!(!key.is_of(&blocks));
    let cast: Option<RegistryKey<u32>> = key.cast(&RegistryKey::of_reg(id("mod:items")));
    let cast = cast.unwrap();
    assert!(cast.reg() == key.reg());
    assert!(cast.value() == key.value());
    let cast_wrong: Option<RegistryKey<u32>> = key.cast(&RegistryKey::of_reg(id("mod:blocks")));
    assert!(cast_wrong.is_none());
}

#[test]
fn key_components() {
    let key = RegistryKey::new(&items_key(), id("mod:apple"));
    assert_eq!(key.reg().path(), "items");
    assert_eq!(key.value().path(), "apple");
    assert_eq!(root_key().namespace(), "rimecraft");
    assert_eq!(root_key().path(), "root");
    assert_eq!(items_key().reg().path(), "root");
    assert!(key.clone() == key);
    assert_eq!(key.to_text(), "RegistryKey[mod:items / mod:apple]");
}

#[test]
fn tags_replace_wholesale() {
    let mut registry = build_abc();
    let food: TagKey<Item> = TagKey::new(id("mod:items"), id("mod:food"));
    let heavy: TagKey<Item> = TagKey::new(id("mod:items"), id("mod:heavy"));
    registry.replace_tags(vec![(food.clone(), vec![0, 2]), (heavy.clone(), vec![1])]);
    assert_eq!(registry.tag_entries(&food).unwrap(), &vec![0, 2]);
    assert_eq!(registry.tag_entries(&heavy).unwrap(), &vec![1]);
    assert!(registry.get_from_raw(0).unwrap().is_in(&food));
    assert!(!registry.get_from_raw(1).unwrap().is_in(&food));
    assert!(registry.get_from_raw(1).unwrap().is_in(&heavy));
    assert!(registry.get_from_raw(2).unwrap().is_in(&food));

    // a second update fully replaces the first
    registry.replace_tags(vec![(heavy.clone(), vec![0])]);
    assert!(registry.tag_entries(&food).is_none());
    assert_eq!(registry.tag_entries(&heavy).unwrap(), &vec![0]);
    assert!(!registry.get_from_raw(2).unwrap().is_in(&food));
    assert!(registry.get_from_raw(0).unwrap().is_in(&heavy));
}

#[test]
fn entries_iterate_in_raw_id_order() {
    let registry = build_abc();
    let paths: Vec<String> = registry
        .entries()
        .iter()
        .map(|h| h.key().value().path().to_string())
        .collect();
    assert_eq!(paths, vec!["a".to_string(), "b".to_string(), "c".to_string()]);
}
