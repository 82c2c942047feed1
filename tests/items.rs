use dream_collections::gql::MARKET_QUERY;
use dream_collections::items::{
    str_eq, AllSets, DecodeError, Item, ItemOptionType, ItemOptions, ItemType, SetItems,
};

const ALL_KINDS: [ItemOptionType; 6] = [
    ItemOptionType::MH,
    ItemOptionType::SD,
    ItemOptionType::DD,
    ItemOptionType::Ref,
    ItemOptionType::Dsr,
    ItemOptionType::Zen,
];

#[test]
fn new_item_shows_six_disabled_options_in_order() {
    let item = Item::new("Pad".to_string(), ItemType::Helm);
    let shown = item.display_options();
    let expected: Vec<(ItemOptionType, bool)> = ALL_KINDS.iter().map(|k| (*k, false)).collect();
    assert_eq!(shown, expected);
    assert_eq!(item.name, "Pad");
    assert_eq!(item.item_type, ItemType::Helm);
}

#[test]
fn set_option_changes_only_that_kind() {
    for kind in ALL_KINDS {
        for enabled in [true, false] {
            let mut item = Item::new("Bone".to_string(), ItemType::Armor);
            item.set_option(ItemOptionType::Zen, true);
            let before = item.display_options();
            item.set_option(kind, enabled);
            let after = item.display_options();
            assert_eq!(after.len(), 6);
            for i in 0..6 {
                assert_eq!(after[i].0, ALL_KINDS[i]);
                if ALL_KINDS[i] == kind {
                    assert_eq!(after[i].1, enabled);
                } else {
                    assert_eq!(after[i].1, before[i].1);
                }
            }
        }
    }
}

#[test]
fn option_ordinals_and_labels() {
    for (i, k) in ALL_KINDS.iter().enumerate() {
        assert_eq!(k.ordinal(), i);
        assert_eq!(ItemOptionType::at(i), *k);
    }
    assert_eq!(ItemOptionType::MH.label(), "Maximum Life (MH)");
    assert_eq!(ItemOptionType::Zen.label(), "Additional Zen drop rate (ZEN)");
    assert_eq!(ItemOptionType::Ref.label(), "Damage Reflection (REF)");
}

#[test]
fn default_options_are_disabled() {
    let o = ItemOptions::default();
    for k in ALL_KINDS {
        assert!(!o.get(k));
    }
    let mut o = o;
    o.set(ItemOptionType::Dsr, true);
    assert!(o.get(ItemOptionType::Dsr));
    assert!(!o.get(ItemOptionType::DD));
}

#[test]
fn slot_labels_round_trip_exactly() {
    for t in [ItemType::Helm, ItemType::Armor, ItemType::Pants, ItemType::Gloves, ItemType::Boots] {
        assert_eq!(ItemType::from_label(t.label()), Ok(t));
        assert_eq!(t.lower_label(), t.label().to_lowercase());
    }
    assert_eq!(ItemType::from_label("helm"), Err(DecodeError::UnknownItemType));
    assert_eq!(ItemType::from_label(""), Err(DecodeError::UnknownItemType));
    assert_eq!(ItemType::at(3), ItemType::Gloves);
    assert_eq!(ItemType::Boots.index(), 4);
}

#[test]
fn set_labels_round_trip_exactly() {
    assert_eq!(AllSets::GrandSoul.label(), "Grand Soul");
    assert_eq!(AllSets::from_label("Grand Soul"), Ok(AllSets::GrandSoul));
    assert_eq!(AllSets::from_label("Phoenix Soul"), Ok(AllSets::PhoenixSoul));
    assert_eq!(AllSets::from_label("grand soul"), Err(DecodeError::UnknownSet));
    assert_eq!(AllSets::from_label("GrandSoul"), Err(DecodeError::UnknownSet));
}

#[test]
fn set_entry_from_label() {
    let e = SetItems::from_label("Dark Soul").unwrap();
    assert_eq!(e.set, AllSets::DarkSoul);
    assert_eq!(e.set_string, "Dark Soul");
    assert_eq!(e.label(), "Dark Soul");
    assert!(e.is_well_formed());
    let slots: Vec<ItemType> = e.items.iter().map(|i| i.item_type).collect();
    assert_eq!(
        slots,
        vec![ItemType::Helm, ItemType::Armor, ItemType::Pants, ItemType::Gloves, ItemType::Boots]
    );
    for item in e.items.iter() {
        assert_eq!(item.name, "Dark Soul");
        assert!(item.display_options().iter().all(|(_, on)| !on));
    }
    assert_eq!(SetItems::from_label("Unknown Set"), Err(DecodeError::UnknownSet));
}

#[test]
fn set_entry_check_rejects_bad_shapes() {
    let mut e = SetItems::new(AllSets::Pad);
    assert!(e.is_well_formed());
    e.items.swap(0, 1);
    assert!(!e.is_well_formed());
    let mut e = SetItems::new(AllSets::Pad);
    e.items.pop();
    assert!(!e.is_well_formed());
    let mut e = SetItems::new(AllSets::Pad);
    e.set_string = "Bone".to_string();
    assert!(!e.is_well_formed());
}

#[test]
fn item_title_joins_name_and_slot() {
    let item = Item::new("Grand Soul".to_string(), ItemType::Gloves);
    assert_eq!(item.title(), "Grand Soul Gloves");
}

#[test]
fn query_filters_follow_enabled_options() {
    let mut item = Item::new("Pad".to_string(), ItemType::Helm);
    item.set_option(ItemOptionType::DD, true);
    item.set_option(ItemOptionType::Zen, true);
    let vars = item.generate_gql_vars();
    let tiers: Vec<u8> = vec![0, 1, 2, 3, 4];
    assert_eq!(vars.filter.dd, Some(tiers.clone()));
    assert_eq!(vars.filter.izdr, Some(tiers));
    assert_eq!(vars.filter.iml, None);
    assert_eq!(vars.filter.imsd, None);
    assert_eq!(vars.filter.rd, None);
    assert_eq!(vars.filter.dsr, None);
    assert_eq!(vars.filter.item_type, Some(vec!["helm".to_string()]));
    assert_eq!(vars.filter.name, Some("Pad".to_string()));
    assert_eq!(vars.limit, 200);
    assert_eq!(vars.offset, 0);
    assert_eq!(vars.sort.field, "LOT_FIELD_MIN_PRICE");
    assert_eq!(vars.sort.sort_type, "SORT_TYPE_ASC");
}

#[test]
fn query_filter_names_map_each_option() {
    let mut item = Item::new("Bone".to_string(), ItemType::Boots);
    item.set_option(ItemOptionType::MH, true);
    item.set_option(ItemOptionType::SD, true);
    item.set_option(ItemOptionType::Ref, true);
    item.set_option(ItemOptionType::Dsr, true);
    let vars = item.generate_gql_vars();
    assert!(vars.filter.iml.is_some());
    assert!(vars.filter.imsd.is_some());
    assert!(vars.filter.rd.is_some());
    assert!(vars.filter.dsr.is_some());
    assert!(vars.filter.dd.is_none());
    assert!(vars.filter.izdr.is_none());
    assert_eq!(vars.filter.item_type, Some(vec!["boots".to_string()]));
}

#[test]
fn market_query_is_the_lots_document() {
    let item = Item::new("Pad".to_string(), ItemType::Helm);
    let q = item.generate_market_query();
    assert_eq!(q, MARKET_QUERY);
    assert!(q.contains("query GET_ALL_LOTS"));
    assert!(q.contains("lots(limit: $limit, offset: $offset, sort: $sort, filter: $filter)"));
}

#[test]
fn string_equality() {
    assert!(str_eq("Pad", "Pad"));
    assert!(!str_eq("Pad", "Pads"));
    assert!(!str_eq("Pad", "pad"));
    assert!(str_eq("", ""));
}
