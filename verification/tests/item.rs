use rimecraft::item::{AsItem, Item, ItemStack};
use rimecraft::nbt::{NbtCompound, NbtElement};
use rimecraft::registry::Registration;

#[test]
fn item_starts_at_zero() {
    let item = Item::new();
    assert_eq!(item.id(), 0);
    assert_eq!(Item::default().id(), 0);
}

#[test]
fn item_accepts_raw_id() {
    let mut item = Item::new();
    item.accept(42);
    assert_eq!(item.id(), 42);
    assert_eq!(item.raw_id(), 42);
    assert_eq!(item.as_item().id(), 42);
}

#[test]
fn stack_new_has_no_nbt() {
    let mut item = Item::new();
    item.accept(3);
    let stack = ItemStack::new(&item, 5);
    assert_eq!(stack.count, 5);
    assert_eq!(stack.item().id(), 3);
    assert!(stack.nbt().is_none());
}

#[test]
fn empty_checks() {
    let mut item = Item::new();
    item.accept(3);
    assert!(ItemStack::new(&item, 0).is_empty());
    assert!(!ItemStack::new(&item, 1).is_empty());
    // the fallback item is always empty
    assert!(ItemStack::new(&Item::default(), 10).is_empty());
    assert!(ItemStack::default().is_empty());
}

#[test]
fn take_splits_counts() {
    let mut item = Item::new();
    item.accept(2);
    let mut stack = ItemStack::new(&item, 10);
    let taken = stack.take(3);
    assert_eq!(taken.count, 3);
    assert_eq!(stack.count, 7);
    assert_eq!(taken.item().id(), 2);
    // taking more than the stack holds takes everything left
    let mut rest = stack;
    let all = rest.take(200);
    assert_eq!(all.count, 7);
    assert_eq!(rest.count, 0);
}

#[test]
fn take_all_empties_the_stack() {
    let mut item = Item::new();
    item.accept(2);
    let mut stack = ItemStack::new(&item, 4);
    let taken = stack.take_all();
    assert_eq!(taken.count, 4);
    assert_eq!(stack.count, 0);
}

#[test]
fn damage_round_trip() {
    let item = Item::new();
    let mut stack = ItemStack::new(&item, 1);
    assert_eq!(stack.damage(), 0);
    stack.set_damage(17);
    assert_eq!(stack.damage(), 17);
    stack.set_damage(3);
    assert_eq!(stack.damage(), 3);
    let nbt = stack.nbt().unwrap();
    assert_eq!(nbt.get_int("Damage"), Some(3));
}

#[test]
fn nbt_accessors() {
    let item = Item::new();
    let mut stack = ItemStack::new(&item, 1);
    assert!(stack.nbt_mut().is_none());
    let c = stack.get_or_init_nbt();
    c.insert_int("x".to_string(), 8);
    assert_eq!(stack.nbt().unwrap().get_int("x"), Some(8));
    match stack.nbt_mut() {
        Some(c2) => {
            c2.insert_int("x".to_string(), 9);
        },
        None => panic!("tag data was just created"),
    }
    assert_eq!(stack.nbt().unwrap().get_int("x"), Some(9));
}

#[test]
fn can_combine_rules() {
    let mut apple = Item::new();
    apple.accept(1);
    let mut stone = Item::new();
    stone.accept(2);

    let a = ItemStack::new(&apple, 3);
    let b = ItemStack::new(&apple, 9);
    let c = ItemStack::new(&stone, 3);
    assert!(a.can_combine(&b));
    assert!(!a.can_combine(&c));

    // same item, differing tag data
    let mut d = ItemStack::new(&apple, 1);
    d.set_damage(5);
    assert!(!a.can_combine(&d));
    let mut e = ItemStack::new(&apple, 2);
    e.set_damage(5);
    assert!(d.can_combine(&e));

    // two empty stacks of one item always combine
    let mut f = ItemStack::new(&apple, 0);
    f.set_damage(1);
    let g = ItemStack::new(&apple, 0);
    assert!(f.can_combine(&g));
}

#[test]
fn stack_equality() {
    let mut apple = Item::new();
    apple.accept(1);
    let mut a = ItemStack::new(&apple, 3);
    let mut b = ItemStack::new(&apple, 3);
    assert!(a == b);
    a.set_damage(1);
    assert!(a != b);
    b.set_damage(1);
    assert!(a == b);
    assert!(a.clone() == a);
}

#[test]
fn stack_nbt_holds_elements() {
    let item = Item::new();
    let mut stack = ItemStack::new(&item, 1);
    let c = stack.get_or_init_nbt();
    let mut inner = NbtCompound::new();
    inner.insert_int("depth".to_string(), 2);
    c.put("child".to_string(), NbtElement::Compound(inner));
    let child = stack.nbt().unwrap().get("child").unwrap();
    match child {
        NbtElement::Compound(m) => assert_eq!(m.get_int("depth"), Some(2)),
        _ => panic!("expected a compound element"),
    }
}

struct FixedEvents {
    max_count: u8,
    max_damage: u32,
}

impl rimecraft::item::ItemEvents for FixedEvents {
    fn get_max_count(&self, _stack: &ItemStack) -> u8 {
        self.max_count
    }

    fn get_max_damage(&self, _stack: &ItemStack) -> u32 {
        self.max_damage
    }

    fn post_process_nbt(&self, _item: Item, nbt: &mut NbtCompound) {
        nbt.insert_int("seen".to_string(), 1);
    }
}

#[test]
fn stackability_follows_events() {
    let mut apple = Item::new();
    apple.accept(1);
    let stack = ItemStack::new(&apple, 3);
    let single = FixedEvents { max_count: 1, max_damage: 0 };
    let many = FixedEvents { max_count: 64, max_damage: 0 };
    assert_eq!(stack.max_count(&single), 1);
    assert_eq!(stack.max_count(&many), 64);
    assert!(!stack.is_stackable(&single));
    assert!(stack.is_stackable(&many));
}

#[test]
fn damageability_rules() {
    let mut apple = Item::new();
    apple.accept(1);
    let breakable = FixedEvents { max_count: 1, max_damage: 10 };
    let unbreakable_kind = FixedEvents { max_count: 1, max_damage: 0 };

    let mut stack = ItemStack::new(&apple, 1);
    assert!(stack.is_damageable(&breakable));
    assert_eq!(stack.max_damage(&breakable), 10);
    assert!(!stack.is_damageable(&unbreakable_kind));

    // an empty stack takes no damage
    let empty = ItemStack::new(&apple, 0);
    assert!(!empty.is_damageable(&breakable));

    // the Unbreakable flag wins over the damage limit
    stack.get_or_init_nbt().put("Unbreakable".to_string(), NbtElement::U8(1));
    assert!(!stack.is_damageable(&breakable));

    let mut damaged = ItemStack::new(&apple, 1);
    assert!(!damaged.is_damaged(&breakable));
    damaged.set_damage(4);
    assert!(damaged.is_damaged(&breakable));
}

#[test]
fn set_nbt_renormalizes_and_post_processes() {
    let mut apple = Item::new();
    apple.accept(1);
    let events = FixedEvents { max_count: 1, max_damage: 10 };
    let mut stack = ItemStack::new(&apple, 1);
    let mut tag = NbtCompound::new();
    tag.insert_int("Damage".to_string(), 6);
    stack.set_nbt(Some(tag), &events);
    let nbt = stack.nbt().unwrap();
    assert_eq!(nbt.get_int("Damage"), Some(6));
    // the registered hook amended the data after the swap
    assert_eq!(nbt.get_int("seen"), Some(1));
    // clearing the tag data of a damageable stack recreates it: the damage
    // entry is renormalized to zero and the hook runs on the new data
    stack.set_nbt(None, &events);
    let recreated = stack.nbt().unwrap();
    assert_eq!(recreated.get_int("Damage"), Some(0));
    assert_eq!(recreated.get_int("seen"), Some(1));

    // a stack that cannot take damage keeps the cleared state
    let blunt = FixedEvents { max_count: 1, max_damage: 0 };
    stack.set_nbt(None, &blunt);
    assert!(stack.nbt().is_none());
}
