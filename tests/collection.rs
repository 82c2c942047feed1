use dream_collections::app::{
    Action, AppModel, CollectionError, ItemKey, Message, OfferList, Page,
    PlayerCollection,
};
use dream_collections::gql::MARKET_QUERY;
use dream_collections::items::{AllSets, ClassSets, ItemOptionType, ItemType, SetItems};

fn key(class: Page, set: AllSets, slot: ItemType) -> ItemKey {
    ItemKey { class, set, slot }
}

fn set_names(c: &ClassSets) -> Vec<AllSets> {
    c.sets().iter().map(|s| s.set).collect()
}

#[test]
fn default_collection_has_every_class_in_order() {
    let pc = PlayerCollection::default();
    assert_eq!(pc.collection.len(), 7);
    let classes: Vec<Page> = pc.collection.iter().map(|c| c.class()).collect();
    assert_eq!(classes, Page::all());
    assert_eq!(
        set_names(&pc.collection[0]),
        vec![
            AllSets::Pad,
            AllSets::Bone,
            AllSets::Sphinx,
            AllSets::Legendary,
            AllSets::GrandSoul,
            AllSets::DarkSoul,
            AllSets::VenomMist
        ]
    );
    assert_eq!(set_names(&pc.collection[4]).len(), 14);
    for (i, c) in pc.collection.iter().enumerate() {
        assert_eq!(set_names(c), Page::at(i).sets());
        for s in c.sets() {
            assert!(s.is_well_formed());
            assert_eq!(s.items.len(), 5);
            for item in s.items.iter() {
                assert!(item.display_options().iter().all(|(_, on)| !on));
            }
        }
    }
}

#[test]
fn page_labels_and_positions() {
    assert_eq!(Page::DarkWizard.label(), "Dark Wizard");
    assert_eq!(Page::MagicGladiator.label(), "Magic Gladiator");
    assert_eq!(Page::RageFighter.index(), 6);
    assert_eq!(Page::at(3), Page::Summoner);
    assert!(!Page::Elf.sets().contains(&AllSets::SylphidRay));
}

#[test]
fn find_set_in_its_class() {
    let pc = PlayerCollection::default();
    let e = pc.find_set(Page::MagicGladiator, AllSets::Pad).unwrap();
    assert_eq!(e.set, AllSets::Pad);
    assert_eq!(e.set_string, "Pad");
    let e = pc.find_set(Page::RageFighter, AllSets::PhoenixSoul).unwrap();
    assert_eq!(e.set_string, "Phoenix Soul");
}

#[test]
fn find_set_of_another_class_is_not_found() {
    let pc = PlayerCollection::default();
    assert_eq!(
        pc.find_set(Page::DarkWizard, AllSets::Leather).err(),
        Some(CollectionError::NotFound)
    );
    assert_eq!(
        pc.find_set(Page::Elf, AllSets::GrandSoul).err(),
        Some(CollectionError::NotFound)
    );
    assert_eq!(
        pc.find_set(Page::Summoner, AllSets::Pad).err(),
        Some(CollectionError::NotFound)
    );
}

#[test]
fn update_class_item_toggles_one_flag() {
    let mut pc = PlayerCollection::default();
    let k = key(Page::DarkKnight, AllSets::Dragon, ItemType::Pants);
    assert_eq!(pc.update_class_item(k, ItemOptionType::DD, true), Ok(()));
    let e = pc.find_set(Page::DarkKnight, AllSets::Dragon).unwrap();
    assert!(e.items[2].options.get(ItemOptionType::DD));
    assert!(!e.items[2].options.get(ItemOptionType::MH));
    assert!(!e.items[1].options.get(ItemOptionType::DD));
    let other = pc.find_set(Page::MagicGladiator, AllSets::Dragon).unwrap();
    assert!(!other.items[2].options.get(ItemOptionType::DD));
    assert_eq!(pc.update_class_item(k, ItemOptionType::DD, false), Ok(()));
    assert_eq!(pc, PlayerCollection::default());
}

#[test]
fn update_class_item_with_foreign_set_changes_nothing() {
    let mut pc = PlayerCollection::default();
    let k = key(Page::DarkWizard, AllSets::Leather, ItemType::Helm);
    assert_eq!(pc.update_class_item(k, ItemOptionType::Zen, true), Err(CollectionError::NotFound));
    assert_eq!(pc, PlayerCollection::default());
}

#[test]
fn stored_collection_decodes_to_itself() {
    let fresh = PlayerCollection::default();
    assert_eq!(PlayerCollection::from_classes(fresh.collection.clone()), Ok(fresh));
    let mut pc = PlayerCollection::default();
    pc.update_class_item(key(Page::Elf, AllSets::Vine, ItemType::Boots), ItemOptionType::SD, true)
        .unwrap();
    pc.update_class_item(key(Page::DarkLord, AllSets::Sunlight, ItemType::Helm), ItemOptionType::Ref, true)
        .unwrap();
    let decoded = PlayerCollection::from_classes(pc.collection.clone()).unwrap();
    assert_eq!(decoded, pc);
}

#[test]
fn nothing_read_gives_the_default_collection() {
    assert_eq!(PlayerCollection::from_saved(None), PlayerCollection::default());
}

#[test]
fn empty_class_list_gives_the_default_collection() {
    assert_eq!(PlayerCollection::from_saved(Some(Vec::new())), PlayerCollection::default());
    assert_eq!(
        PlayerCollection::from_classes(Vec::new()),
        Err(CollectionError::Malformed)
    );
}

#[test]
fn malformed_classes_give_the_default_collection() {
    let mut classes = PlayerCollection::default().collection;
    classes.swap(0, 1);
    assert_eq!(PlayerCollection::from_saved(Some(classes)), PlayerCollection::default());

    let mut classes = PlayerCollection::default().collection;
    let sets = classes.remove(2).into_sets();
    let mut sets = sets;
    sets.pop();
    classes.insert(2, ClassSets::new(Page::Elf, sets));
    assert_eq!(PlayerCollection::from_classes(classes.clone()), Err(CollectionError::Malformed));
    assert_eq!(PlayerCollection::from_saved(Some(classes)), PlayerCollection::default());

    let mut classes = PlayerCollection::default().collection;
    let mut sets = classes.remove(0).into_sets();
    sets[3] = SetItems::new(AllSets::Leather);
    classes.insert(0, ClassSets::new(Page::DarkWizard, sets));
    assert_eq!(PlayerCollection::from_saved(Some(classes)), PlayerCollection::default());
}

#[test]
fn saved_classes_are_kept() {
    let mut pc = PlayerCollection::default();
    pc.update_class_item(key(Page::Summoner, AllSets::Succubus, ItemType::Armor), ItemOptionType::MH, true)
        .unwrap();
    let loaded = PlayerCollection::from_saved(Some(pc.collection.clone()));
    assert_eq!(loaded, pc);
    assert_ne!(loaded, PlayerCollection::default());
}

#[test]
fn offer_list_receives_in_order_and_clears() {
    let mut list: OfferList<u32> = OfferList::new();
    list.receive("Pad Helm".to_string(), vec![3, 1]);
    list.receive("Pad Helm".to_string(), vec![2]);
    assert_eq!(list.offers, vec![3, 1, 2]);
    assert_eq!(list.source, "Pad Helm");
    list.clear();
    assert!(list.offers.is_empty());
    assert_eq!(list.source, "");
}

fn model() -> AppModel<u32> {
    AppModel::new(PlayerCollection::default())
}

#[test]
fn new_search_replaces_earlier_offers() {
    let mut m = model();
    m.update(Message::MarketSearchResult("Bone Armor".to_string(), Some(vec![7, 8, 9])));
    assert_eq!(m.offers.offers, vec![7, 8, 9]);
    let action = m.update(Message::SearchMarket(key(Page::DarkWizard, AllSets::Pad, ItemType::Helm)));
    assert!(m.offers.offers.is_empty());
    match action {
        Action::SearchMarket(req) => {
            assert_eq!(req.item_title, "Pad Helm");
            assert_eq!(req.query, MARKET_QUERY);
            assert_eq!(req.vars.filter.name, Some("Pad".to_string()));
            assert_eq!(req.vars.filter.item_type, Some(vec!["helm".to_string()]));
            m.update(Message::MarketSearchResult(req.item_title, Some(vec![1, 2])));
        }
        _ => panic!("a search was expected"),
    }
    assert_eq!(m.offers.offers, vec![1, 2]);
    assert_eq!(m.offers.source, "Pad Helm");
}

#[test]
fn search_uses_the_item_options() {
    let mut m = model();
    let k = key(Page::DarkWizard, AllSets::Pad, ItemType::Helm);
    m.update(Message::UpdateItem(k, ItemOptionType::DD, true));
    m.update(Message::UpdateItem(k, ItemOptionType::Zen, true));
    match m.update(Message::SearchMarket(k)) {
        Action::SearchMarket(req) => {
            assert_eq!(req.vars.filter.dd, Some(vec![0, 1, 2, 3, 4]));
            assert_eq!(req.vars.filter.izdr, Some(vec![0, 1, 2, 3, 4]));
            assert_eq!(req.vars.filter.iml, None);
        }
        _ => panic!("a search was expected"),
    }
}

#[test]
fn failed_search_leaves_offers() {
    let mut m = model();
    m.update(Message::MarketSearchResult("Bone Armor".to_string(), Some(vec![4])));
    m.update(Message::MarketSearchFailed("timed out".to_string()));
    assert_eq!(m.offers.offers, vec![4]);
    assert_eq!(m.search_error, Some("timed out".to_string()));
    m.update(Message::MarketSearchResult("Bone Armor".to_string(), None));
    assert_eq!(m.offers.offers, vec![4]);
    assert_eq!(m.search_error, None);
}

#[test]
fn clear_offers_empties_the_list() {
    let mut m = model();
    m.update(Message::MarketSearchResult("Bone Armor".to_string(), Some(vec![4, 5])));
    assert_eq!(m.update(Message::ClearOffers), Action::Nothing);
    assert!(m.offers.offers.is_empty());
    assert_eq!(m.offers.source, "");
}

#[test]
fn selecting_class_and_set() {
    let mut m = model();
    assert_eq!(m.set_options().len(), 7);
    m.update(Message::ChangePage(Page::Elf));
    assert_eq!(m.page, Page::Elf);
    assert_eq!(m.set_options()[0], "Vine");
    m.update(Message::ChangeSet("Holy Spirit".to_string()));
    assert_eq!(m.current_set, Some(AllSets::HolySpirit));
    assert_eq!(m.current_items().unwrap().set_string, "Holy Spirit");
    m.update(Message::ChangeSet("Pad".to_string()));
    assert_eq!(m.current_set, None);
    assert_eq!(m.set_selected, Some("Pad".to_string()));
    assert!(m.current_items().is_none());
}

#[test]
fn save_asks_for_a_write_and_changes_nothing() {
    let mut m = model();
    let before = m.clone();
    assert_eq!(m.update(Message::SaveCollections), Action::SaveCollections);
    assert_eq!(m, before);
}

#[test]
fn search_for_foreign_key_does_nothing() {
    let mut m = model();
    m.update(Message::MarketSearchResult("Bone Armor".to_string(), Some(vec![4])));
    let action = m.update(Message::SearchMarket(key(Page::Elf, AllSets::Pad, ItemType::Helm)));
    assert_eq!(action, Action::Nothing);
    assert_eq!(m.offers.offers, vec![4]);
}

#[test]
fn every_catalog_set_label_reads_back() {
    let mut seen: Vec<AllSets> = vec![AllSets::SylphidRay];
    for page in Page::all() {
        for set in page.sets() {
            if !seen.contains(&set) {
                seen.push(set);
            }
        }
    }
    assert_eq!(seen.len(), 44);
    for set in seen {
        assert_eq!(AllSets::from_label(set.label()), Ok(set));
        assert_eq!(SetItems::from_label(set.label()).unwrap().set, set);
    }
}
