use itemizer::{Item, Itemizer};

#[test]
fn test_new_itemizer() {
    let itemizer: Itemizer<String> = Itemizer::new();
    assert_eq!(itemizer.len(), 0);
}

#[test]
fn test_id_of() {
    let mut itemizer = Itemizer::new();
    let item1 = itemizer.id_of(&"item1".to_string());
    let item2 = itemizer.id_of(&"item2".to_string());
    let item3 = itemizer.id_of(&"item1".to_string());

    assert_eq!(item1.as_index(), 0);
    assert_eq!(item2.as_index(), 1);
    assert_eq!(item3.as_index(), 0);
    assert_eq!(itemizer.len(), 2);
}

#[test]
fn test_id_of_opt() {
    let mut itemizer = Itemizer::new();
    let item1 = itemizer.id_of(&"item1".to_string());
    let item2 = itemizer.id_of_opt(&"item2".to_string());
    let item3 = itemizer.id_of_opt(&"item1".to_string());

    assert_eq!(item1.as_index(), 0);
    assert_eq!(item2, None);
    assert_eq!(item3, Some(Item::with_id(0)));
}

#[test]
fn test_value_of() {
    let mut itemizer = Itemizer::new();
    let item1 = itemizer.id_of(&"item1".to_string());
    let item2 = itemizer.id_of(&"item2".to_string());

    assert_eq!(itemizer.value_of(&item1), &"item1".to_string());
    assert_eq!(itemizer.value_of(&item2), &"item2".to_string());
}

#[test]
fn test_len() {
    let mut itemizer = Itemizer::new();
    assert_eq!(itemizer.len(), 0);
    itemizer.id_of(&"item1".to_string());
    assert_eq!(itemizer.len(), 1);
    itemizer.id_of(&"item2".to_string());
    assert_eq!(itemizer.len(), 2);
    itemizer.id_of(&"item1".to_string());
    assert_eq!(itemizer.len(), 2);
}

#[test]
fn test_iter() {
    let mut itemizer = Itemizer::new();
    itemizer.id_of(&"item1".to_string());
    itemizer.id_of(&"item2".to_string());

    let mut iter = itemizer.iter();
    assert_eq!(iter.next(), Some(&"item1".to_string()));
    assert_eq!(iter.next(), Some(&"item2".to_string()));
    assert_eq!(iter.next(), None);
}

#[test]
fn test_different_types() {
    let mut itemizer_str: Itemizer<String> = Itemizer::new();
    let mut itemizer_int: Itemizer<i32> = Itemizer::new();

    let item_str1 = itemizer_str.id_of(&"hello".to_string());
    let item_str2 = itemizer_str.id_of(&"world".to_string());

    let item_int1 = itemizer_int.id_of(&1);
    let item_int2 = itemizer_int.id_of(&2);

    assert_eq!(item_str1.as_index(), 0);
    assert_eq!(item_str2.as_index(), 1);
    assert_eq!(itemizer_str.len(), 2);

    assert_eq!(item_int1.as_index(), 0);
    assert_eq!(item_int2.as_index(), 1);
    assert_eq!(itemizer_int.len(), 2);
}

#[test]
fn test_lookup_never_inserted() {
    let mut itemizer = Itemizer::new();
    assert_eq!(itemizer.id_of_opt(&"item2".to_string()), None);

    let item2 = itemizer.id_of(&"item2".to_string());
    assert_eq!(itemizer.id_of_opt(&"item2".to_string()), Some(item2));
    assert_eq!(item2.as_index(), 0);

    assert_eq!(itemizer.id_of_opt(&"itemX".to_string()), None);
}

#[test]
fn test_resolve_created() {
    let mut itemizer = Itemizer::new();
    itemizer.id_of(&"item1".to_string());
    itemizer.id_of(&"item2".to_string());

    assert_eq!(itemizer.value_of(&Item::with_id(0)), &"item1".to_string());
    assert_eq!(itemizer.value_of(&Item::with_id(1)), &"item2".to_string());
}

#[test]
fn test_iter_after_duplicates() {
    let mut itemizer = Itemizer::new();
    itemizer.id_of(&"a".to_string());
    itemizer.id_of(&"b".to_string());
    itemizer.id_of(&"a".to_string());
    itemizer.id_of(&"c".to_string());

    let collected: Vec<&String> = itemizer.iter().collect();
    assert_eq!(collected.len(), 3);
    assert_eq!(collected[0], &"a".to_string());
    assert_eq!(collected[1], &"b".to_string());
    assert_eq!(collected[2], &"c".to_string());
}

#[test]
fn test_item_equality_and_order() {
    assert_eq!(Item::with_id(7), Item::with_id(7));
    assert_ne!(Item::with_id(7), Item::with_id(8));
    assert!(Item::with_id(0) < Item::with_id(1));
    assert!(Item::with_id(1) > Item::with_id(0));
    assert_eq!(Item::with_id(3).as_index(), 3);
}

#[test]
fn test_debug_listing() {
    let mut itemizer: Itemizer<String> = Itemizer::new();
    assert_eq!(itemizer.debug_listing(), "");
    itemizer.id_of(&"item1".to_string());
    itemizer.id_of(&"item2".to_string());
    assert_eq!(itemizer.debug_listing(), "item1: 0\nitem2: 1\n");
}
