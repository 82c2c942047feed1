use vstd::prelude::*;

use crate::gql::{Vars, MARKET_QUERY};
use crate::items::{str_eq, AllSets, ClassSets, Item, ItemOptionType, ItemOptions, ItemType, SetItems};

verus! {

/// The seven character classes, in the order the collection keeps them.
#[derive(Clone, Copy, Debug, PartialEq, Eq, Structural)]
pub enum Page {
    DarkWizard,
    DarkKnight,
    Elf,
    Summoner,
    MagicGladiator,
    DarkLord,
    RageFighter,
}

/// The class at position `i` of a collection.
pub open spec fn page_at(i: int) -> Page {
    if i == 0 {
        Page::DarkWizard
    } else if i == 1 {
        Page::DarkKnight
    } else if i == 2 {
        Page::Elf
    } else if i == 3 {
        Page::Summoner
    } else if i == 4 {
        Page::MagicGladiator
    } else if i == 5 {
        Page::DarkLord
    } else {
        Page::RageFighter
    }
}

/// The sets that belong to class `c`, in display order.
pub open spec fn class_catalog(c: Page) -> Seq<AllSets> {
    match c {
        Page::DarkWizard => seq![
            AllSets::Pad,
            AllSets::Bone,
            AllSets::Sphinx,
            AllSets::Legendary,
            AllSets::GrandSoul,
            AllSets::DarkSoul,
            AllSets::VenomMist,
        ],
        Page::DarkKnight => seq![
            AllSets::Leather,
            AllSets::Bronze,
            AllSets::Scale,
            AllSets::Brass,
            AllSets::Plate,
            AllSets::Dragon,
            AllSets::BlackDragon,
            AllSets::DarkPhoenix,
            AllSets::GreatDragon,
            AllSets::DragonKnight,
        ],
        Page::Elf => seq![
            AllSets::Vine,
            AllSets::Silk,
            AllSets::Wind,
            AllSets::Spirit,
            AllSets::Guardian,
            AllSets::HolySpirit,
            AllSets::RedSpirit,
        ],
        Page::Summoner => seq![
            AllSets::ViolentWind,
            AllSets::RedWinged,
            AllSets::Ancient,
            AllSets::Demonic,
            AllSets::StormBlitz,
            AllSets::Succubus,
        ],
        Page::MagicGladiator => seq![
            AllSets::Pad,
            AllSets::Leather,
            AllSets::Bronze,
            AllSets::Bone,
            AllSets::Scale,
            AllSets::Sphinx,
            AllSets::Brass,
            AllSets::Plate,
            AllSets::Legendary,
            AllSets::Dragon,
            AllSets::StormCrow,
            AllSets::ThunderHawk,
            AllSets::Hurricane,
            AllSets::Volcano,
        ],
        Page::DarkLord => seq![
            AllSets::Leather,
            AllSets::Bronze,
            AllSets::Scale,
            AllSets::LightPlate,
            AllSets::Adamantine,
            AllSets::DarkSteel,
            AllSets::DarkMaster,
            AllSets::Sunlight,
        ],
        Page::RageFighter => seq![
            AllSets::Leather,
            AllSets::Scale,
            AllSets::Brass,
            AllSets::Plate,
            AllSets::SacredFire,
            AllSets::StormZahard,
            AllSets::PiercingGrove,
            AllSets::PhoenixSoul,
        ],
    }
}

impl Page {
    pub open spec fn spec_index(self) -> int {
        match self {
            Page::DarkWizard => 0,
            Page::DarkKnight => 1,
            Page::Elf => 2,
            Page::Summoner => 3,
            Page::MagicGladiator => 4,
            Page::DarkLord => 5,
            Page::RageFighter => 6,
        }
    }

    pub open spec fn spec_label(self) -> Seq<char> {
        match self {
            Page::DarkWizard => "Dark Wizard"@,
            Page::DarkKnight => "Dark Knight"@,
            Page::Elf => "Elf"@,
            Page::Summoner => "Summoner"@,
            Page::MagicGladiator => "Magic Gladiator"@,
            Page::DarkLord => "Dark Lord"@,
            Page::RageFighter => "Rage Fighter"@,
        }
    }

    /// Position of the class in a collection.
    pub fn index(&self) -> (r: usize)
        ensures
            r as int == self.spec_index(),
            r < 7,
            page_at(r as int) == *self,
    {
        match self {
            Page::DarkWizard => 0,
            Page::DarkKnight => 1,
            Page::Elf => 2,
            Page::Summoner => 3,
            Page::MagicGladiator => 4,
            Page::DarkLord => 5,
            Page::RageFighter => 6,
        }
    }

    /// The class at a position of a collection.
    pub fn at(i: usize) -> (r: Page)
        requires
            i < 7,
        ensures
            r == page_at(i as int),
            r.spec_index() == i as int,
    {
        if i == 0 {
            Page::DarkWizard
        } else if i == 1 {
            Page::DarkKnight
        } else if i == 2 {
            Page::Elf
        } else if i == 3 {
            Page::Summoner
        } else if i == 4 {
            Page::MagicGladiator
        } else if i == 5 {
            Page::DarkLord
        } else {
            Page::RageFighter
        }
    }

    /// Every class, in collection order.
    pub fn all() -> (r: Vec<Page>)
        ensures
            r@.len() == 7,
            forall|i: int| 0 <= i < 7 ==> r@[i] == page_at(i),
    {
        let r = vec![Page::DarkWizard, Page::DarkKnight, Page::Elf, Page::Summoner, Page::MagicGladiator, Page::DarkLord, Page::RageFighter];
        r
    }

    /// The display name of the class ("Dark Wizard").
    pub fn label(&self) -> (r: &'static str)
        ensures
            r@ == self.spec_label(),
    {
        match self {
            Page::DarkWizard => "Dark Wizard",
            Page::DarkKnight => "Dark Knight",
            Page::Elf => "Elf",
            Page::Summoner => "Summoner",
            Page::MagicGladiator => "Magic Gladiator",
            Page::DarkLord => "Dark Lord",
            Page::RageFighter => "Rage Fighter",
        }
    }

    /// The sets that belong to the class, in display order.
    pub fn sets(&self) -> (r: Vec<AllSets>)
        ensures
            r@ == class_catalog(*self),
    {
        let r = match self {
            Page::DarkWizard => vec![
                AllSets::Pad,
                AllSets::Bone,
                AllSets::Sphinx,
                AllSets::Legendary,
                AllSets::GrandSoul,
                AllSets::DarkSoul,
                AllSets::VenomMist,
            ],
            Page::DarkKnight => vec![
                AllSets::Leather,
                AllSets::Bronze,
                AllSets::Scale,
                AllSets::Brass,
                AllSets::Plate,
                AllSets::Dragon,
                AllSets::BlackDragon,
                AllSets::DarkPhoenix,
                AllSets::GreatDragon,
                AllSets::DragonKnight,
            ],
            Page::Elf => vec![
                AllSets::Vine,
                AllSets::Silk,
                AllSets::Wind,
                AllSets::Spirit,
                AllSets::Guardian,
                AllSets::HolySpirit,
                AllSets::RedSpirit,
            ],
            Page::Summoner => vec![
                AllSets::ViolentWind,
                AllSets::RedWinged,
                AllSets::Ancient,
                AllSets::Demonic,
                AllSets::StormBlitz,
                AllSets::Succubus,
            ],
            Page::MagicGladiator => vec![
                AllSets::Pad,
                AllSets::Leather,
                AllSets::Bronze,
                AllSets::Bone,
                AllSets::Scale,
                AllSets::Sphinx,
                AllSets::Brass,
                AllSets::Plate,
                AllSets::Legendary,
                AllSets::Dragon,
                AllSets::StormCrow,
                AllSets::ThunderHawk,
                AllSets::Hurricane,
                AllSets::Volcano,
            ],
            Page::DarkLord => vec![
                AllSets::Leather,
                AllSets::Bronze,
                AllSets::Scale,
                AllSets::LightPlate,
                AllSets::Adamantine,
                AllSets::DarkSteel,
                AllSets::DarkMaster,
                AllSets::Sunlight,
            ],
            Page::RageFighter => vec![
                AllSets::Leather,
                AllSets::Scale,
                AllSets::Brass,
                AllSets::Plate,
                AllSets::SacredFire,
                AllSets::StormZahard,
                AllSets::PiercingGrove,
                AllSets::PhoenixSoul,
            ],
        };
        r
    }
}

/// Where an item lives in a collection: its class, its set and its slot.
#[derive(Clone, Copy, Debug, PartialEq, Eq, Structural)]
pub struct ItemKey {
    pub class: Page,
    pub set: AllSets,
    pub slot: ItemType,
}

impl ItemKey {
    /// The key names a set that belongs to its class.
    pub open spec fn valid(self) -> bool {
        class_catalog(self.class).contains(self.set)
    }
}

/// Why an operation on a collection failed.
#[derive(Clone, Copy, Debug, PartialEq, Eq, Structural)]
pub enum CollectionError {
    /// The set does not belong to the class.
    NotFound,
    /// Stored data does not have the shape of the catalog.
    Malformed,
}

/// `j` is the first position of `s` in `q`.
pub open spec fn is_first_pos(q: Seq<AllSets>, s: AllSets, j: int) -> bool {
    &&& 0 <= j < q.len()
    &&& q[j] == s
    &&& forall|k: int| 0 <= k < j ==> q[k] != s
}

/// The position of set `s` in the catalog of class `c`.
pub open spec fn catalog_pos(c: Page, s: AllSets) -> int {
    choose|j: int| is_first_pos(class_catalog(c), s, j)
}

proof fn lemma_first_pos_exists(q: Seq<AllSets>, s: AllSets, n: int)
    requires
        0 <= n <= q.len(),
        exists|j: int| 0 <= j < n && q[j] == s,
    ensures
        exists|j: int| is_first_pos(q, s, j),
    decreases n,
{
    if exists|j: int| 0 <= j < n - 1 && q[j] == s {
        lemma_first_pos_exists(q, s, n - 1);
    } else {
        assert(is_first_pos(q, s, n - 1));
    }
}

/// A set that belongs to a class has a first position in the class's catalog.
pub proof fn lemma_catalog_pos(c: Page, s: AllSets)
    requires
        class_catalog(c).contains(s),
    ensures
        is_first_pos(class_catalog(c), s, catalog_pos(c, s)),
{
    let q = class_catalog(c);
    lemma_first_pos_exists(q, s, q.len() as int);
}

/// A list of classes has the shape of the catalog: the seven classes in order,
/// each holding exactly its catalog's sets.
pub open spec fn classes_wf(classes: Seq<ClassSets>) -> bool {
    &&& classes.len() == 7
    &&& forall|i: int|
        0 <= i < 7 ==> {
            &&& (#[trigger] classes[i]).spec_class() == page_at(i)
            &&& classes[i].wf()
        }
}

/// Every item of every set of the classes has all options disabled.
pub open spec fn classes_all_disabled(classes: Seq<ClassSets>) -> bool {
    forall|i: int, j: int, t: int|
        0 <= i < classes.len() && 0 <= j < classes[i].spec_sets().len() && 0 <= t < 5 ==> (
        #[trigger] classes[i].spec_sets()[j].items@[t]).options == ItemOptions::spec_none()
}

/// The option flags of the item at `k` in a list of classes.
pub open spec fn classes_options_of(classes: Seq<ClassSets>, k: ItemKey) -> ItemOptions {
    classes[k.class.spec_index()].spec_sets()[catalog_pos(k.class, k.set)].items@[k.slot.spec_index()].options
}

/// A collection as it is held, with any options toggled, is accepted again
/// when its classes are read back: decoding what was stored gives the same classes.
pub proof fn lemma_stored_collection_decodes(pc: PlayerCollection)
    requires
        pc.wf(),
    ensures
        classes_wf(pc.collection@),
{
}

/// The player's whole collection: every class, every set, every item.
#[derive(Clone, Debug, PartialEq, Eq)]
pub struct PlayerCollection {
    pub collection: Vec<ClassSets>,
}

fn default_class(class: Page) -> (r: ClassSets)
    ensures
        r.spec_class() == class,
        r.wf(),
        forall|j: int, t: int|
            0 <= j < r.spec_sets().len() && 0 <= t < 5 ==> (
            #[trigger] r.spec_sets()[j].items@[t]).options == ItemOptions::spec_none(),
{
    let names = class.sets();
    let mut sets: Vec<SetItems> = Vec::new();
    let mut j: usize = 0;
    while j < names.len()
        invariant
            names@ == class_catalog(class),
            j <= names@.len(),
            sets@.len() == j,
            forall|k: int|
                0 <= k < j ==> {
                    &&& (#[trigger] sets@[k]).wf()
                    &&& sets@[k].set == names@[k]
                    &&& forall|t: int| 0 <= t < 5 ==> (#[trigger] sets@[k].items@[t]).options == ItemOptions::spec_none()
                },
        decreases names@.len() - j,
    {
        sets.push(SetItems::new(names[j]));
        j = j + 1;
    }
    ClassSets::new(class, sets)
}

fn class_is_well_formed(c: &ClassSets) -> (r: bool)
    ensures
        r == c.wf(),
{
    let names = c.class().sets();
    let sets = c.sets();
    if sets.len() != names.len() {
        return false;
    }
    let mut j: usize = 0;
    while j < sets.len()
        invariant
            names@ == class_catalog(c.spec_class()),
            sets@ == c.spec_sets(),
            sets@.len() == names@.len(),
            j <= sets@.len(),
            forall|k: int|
                0 <= k < j ==> {
                    &&& (#[trigger] sets@[k]).wf()
                    &&& sets@[k].set == names@[k]
                },
        decreases sets@.len() - j,
    {
        if !sets[j].is_well_formed() {
            return false;
        }
        if sets[j].set != names[j] {
            return false;
        }
        j = j + 1;
    }
    true
}

impl PlayerCollection {
    pub open spec fn wf(&self) -> bool {
        classes_wf(self.collection@)
    }

    /// The entry of set `s` in class `c`.
    pub open spec fn spec_entry(&self, c: Page, s: AllSets) -> SetItems {
        self.collection@[c.spec_index()].spec_sets()[catalog_pos(c, s)]
    }

    /// The option flags of the item at `k`.
    pub open spec fn options_of(&self, k: ItemKey) -> ItemOptions {
        classes_options_of(self.collection@, k)
    }

    /// The collection a first run starts from: the full catalog, every option disabled.
    pub open spec fn is_default(&self) -> bool {
        self.wf() && classes_all_disabled(self.collection@)
    }

    /// Accepts a list of classes read back from storage if it has the shape of
    /// the catalog.
    pub fn from_classes(classes: Vec<ClassSets>) -> (r: Result<PlayerCollection, CollectionError>)
        ensures
            r is Ok <==> classes_wf(classes@),
            r matches Ok(pc) ==> pc.collection@ == classes@,
            r matches Err(e) ==> e == CollectionError::Malformed,
    {
        if classes.len() != 7 {
            return Err(CollectionError::Malformed);
        }
        let mut i: usize = 0;
        while i < 7
            invariant
                classes@.len() == 7,
                i <= 7,
                forall|k: int|
                    0 <= k < i ==> {
                        &&& (#[trigger] classes@[k]).spec_class() == page_at(k)
                        &&& classes@[k].wf()
                    },
            decreases 7 - i,
        {
            if classes[i].class() != Page::at(i) {
                return Err(CollectionError::Malformed);
            }
            if !class_is_well_formed(&classes[i]) {
                return Err(CollectionError::Malformed);
            }
            i = i + 1;
        }
        Ok(PlayerCollection { collection: classes })
    }

    /// The collection to start from, given what was read back from storage:
    /// the stored classes where they have the catalog's shape, the default
    /// collection where nothing could be read or decoded or the shape is wrong.
    pub fn from_saved(decoded: Option<Vec<ClassSets>>) -> (r: PlayerCollection)
        ensures
            r.wf(),
            match decoded {
                Some(c) => if classes_wf(c@) {
                    r.collection@ == c@
                } else {
                    r.is_default()
                },
                None => r.is_default(),
            },
    {
        match decoded {
            Some(c) => match PlayerCollection::from_classes(c) {
                Ok(pc) => pc,
                Err(_) => PlayerCollection::default(),
            },
            None => PlayerCollection::default(),
        }
    }

    /// Position of set `set` within the sets of class `class`.
    fn set_position(&self, class: Page, set: AllSets) -> (r: Option<usize>)
        requires
            self.wf(),
        ensures
            r is Some <==> class_catalog(class).contains(set),
            r matches Some(j) ==> j as int == catalog_pos(class, set) && j < class_catalog(
                class,
            ).len(),
    {
        let ghost q = class_catalog(class);
        let sets = self.collection[class.index()].sets();
        assert(self.collection@[class.spec_index()].spec_class() == class);
        let mut j: usize = 0;
        while j < sets.len()
            invariant
                q == class_catalog(class),
                sets@ == self.collection@[class.spec_index()].spec_sets(),
                sets@.len() == q.len(),
                forall|k: int| 0 <= k < sets@.len() ==> (#[trigger] sets@[k]).set == q[k],
                j <= sets@.len(),
                forall|k: int| 0 <= k < j ==> q[k] != set,
            decreases sets@.len() - j,
        {
            if sets[j].set == set {
                proof {
                    assert(is_first_pos(q, set, j as int));
                    assert(q[j as int] == set);
                    assert(q.contains(set));
                    lemma_catalog_pos(class, set);
                }
                return Some(j);
            }
            j = j + 1;
        }
        assert(!q.contains(set));
        None
    }

    /// Sets option `option` of the item at `key` to `enabled`. Every other
    /// flag of the collection stays as it was; a key whose set does not belong
    /// to its class changes nothing and gives `NotFound`.
    #[verifier::rlimit(40)]
    pub fn update_class_item(&mut self, key: ItemKey, option: ItemOptionType, enabled: bool) -> (r:
        Result<(), CollectionError>)
        requires
            old(self).wf(),
        ensures
            final(self).wf(),
            r is Ok <==> key.valid(),
            r matches Err(e) ==> e == CollectionError::NotFound && final(self).collection@ == old(
                self,
            ).collection@,
            r is Ok ==> forall|k: ItemKey|
                k.valid() ==> #[trigger] final(self).options_of(k) == if k == key {
                    old(self).options_of(k).spec_set(option, enabled)
                } else {
                    old(self).options_of(k)
                },
    {
        let j = match self.set_position(key.class, key.set) {
            Some(j) => j,
            None => return Err(CollectionError::NotFound),
        };
        let ci = key.class.index();
        let t = key.slot.index();
        let ghost old_classes = self.collection@;
        let ghost old_sets = old_classes[ci as int].spec_sets();
        let ghost old_items = old_sets[j as int].items@;
        proof {
            lemma_catalog_pos(key.class, key.set);
            assert(old_classes[ci as int].wf());
            assert(old_sets[j as int].wf());
        }
        let cls = self.collection.remove(ci);
        let mut sets = cls.into_sets();
        let mut entry = sets.remove(j);
        let mut item = entry.items.remove(t);
        item.set_option(option, enabled);
        let ghost new_item = item;
        entry.items.insert(t, item);
        let ghost new_entry = entry;
        sets.insert(j, entry);
        let ghost new_sets = sets@;
        let c = ClassSets::new(key.class, sets);
        let ghost new_class = c;
        self.collection.insert(ci, c);
        proof {
            assert(new_entry.items@ =~= old_items.update(t as int, new_item));
            assert(new_sets =~= old_sets.update(j as int, new_entry));
            assert(self.collection@ =~= old_classes.update(ci as int, new_class));
            assert(new_entry.wf());
            assert(new_class.wf());
            assert(self.wf());
            assert forall|k: ItemKey| k.valid() implies #[trigger] self.options_of(k) == if k == key {
                classes_options_of(old_classes, k).spec_set(option, enabled)
            } else {
                classes_options_of(old_classes, k)
            } by {
                lemma_catalog_pos(k.class, k.set);
                if k.class == key.class && k.set == key.set {
                    assert(catalog_pos(k.class, k.set) == j as int);
                } else if k.class == key.class {
                    assert(class_catalog(k.class)[catalog_pos(k.class, k.set)] == k.set);
                    assert(catalog_pos(k.class, k.set) != j as int);
                }
            }
        }
        Ok(())
    }

    /// The entry of set `set` in class `class`, or `NotFound` where the set
    /// does not belong to the class. Sets of other classes never match.
    pub fn find_set(&self, class: Page, set: AllSets) -> (r: Result<&SetItems, CollectionError>)
        requires
            self.wf(),
        ensures
            r is Ok <==> class_catalog(class).contains(set),
            r matches Ok(e) ==> *e == self.spec_entry(class, set) && e.set == set && e.wf(),
            r matches Err(e) ==> e == CollectionError::NotFound,
    {
        match self.set_position(class, set) {
            Some(j) => {
                let ci = class.index();
                let sets = self.collection[ci].sets();
                proof {
                    lemma_catalog_pos(class, set);
                    let c = self.collection@[ci as int];
                    assert(c.spec_class() == class);
                    assert(c.wf());
                    assert(sets@[j as int] == c.spec_sets()[j as int]);
                    assert(sets@[j as int].wf());
                }
                Ok(&sets[j])
            },
            None => Err(CollectionError::NotFound),
        }
    }
}

impl Default for PlayerCollection {
    /// The full catalog with every option of every item disabled.
    fn default() -> (r: PlayerCollection)
        ensures
            r.is_default(),
    {
        let mut collection: Vec<ClassSets> = Vec::new();
        let mut i: usize = 0;
        while i < 7
            invariant
                i <= 7,
                collection@.len() == i,
                forall|k: int|
                    0 <= k < i ==> {
                        &&& (#[trigger] collection@[k]).spec_class() == page_at(k)
                        &&& collection@[k].wf()
                    },
                classes_all_disabled(collection@),
            decreases 7 - i,
        {
            let c = default_class(Page::at(i));
            collection.push(c);
            i = i + 1;
        }
        PlayerCollection { collection }
    }
}

/// The results of the last market search: the title of the item searched for
/// and the lots in the order the market sent them.
#[derive(Clone, Debug, PartialEq, Eq)]
pub struct OfferList<T> {
    pub source: String,
    pub offers: Vec<T>,
}

impl<T> View for OfferList<T> {
    type V = (Seq<char>, Seq<T>);

    open spec fn view(&self) -> (Seq<char>, Seq<T>) {
        (self.source@, self.offers@)
    }
}

/// An offer list with no title and no lots.
pub open spec fn cleared_offers<T>() -> (Seq<char>, Seq<T>) {
    (Seq::empty(), Seq::empty())
}

/// The offer list `before` once a new search started: whatever it held is dropped.
pub open spec fn search_started<T>(before: (Seq<char>, Seq<T>)) -> (Seq<char>, Seq<T>) {
    cleared_offers::<T>()
}

/// The offer list `v` once the results `lots` of a search for `source` came in.
pub open spec fn received_offers<T>(v: (Seq<char>, Seq<T>), source: Seq<char>, lots: Seq<T>) -> (
    Seq<char>,
    Seq<T>,
) {
    (source, v.1 + lots)
}

impl<T> OfferList<T> {
    /// An empty offer list.
    pub fn new() -> (r: OfferList<T>)
        ensures
            r@ == cleared_offers::<T>(),
    {
        OfferList { source: String::new(), offers: Vec::new() }
    }

    /// Drops the title and every lot.
    pub fn clear(&mut self)
        ensures
            final(self)@ == cleared_offers::<T>(),
    {
        self.source = String::new();
        self.offers.clear();
    }

    /// Takes in the results of a search for `source`: the title becomes
    /// `source` and the lots are added after those already held, in order.
    pub fn receive(&mut self, source: String, lots: Vec<T>)
        ensures
            final(self)@ == received_offers(old(self)@, source@, lots@),
    {
        let mut lots = lots;
        self.source = source;
        self.offers.append(&mut lots);
    }
}

/// Starting a search and then taking in its results leaves exactly those
/// results: nothing of an earlier search survives.
pub proof fn lemma_new_search_replaces_offers<T>(
    before: (Seq<char>, Seq<T>),
    source: Seq<char>,
    lots: Seq<T>,
)
    ensures
        received_offers(search_started(before), source, lots) == (source, lots),
{
    assert(Seq::<T>::empty() + lots =~= lots);
}

/// A market search to run: the request document, its variables, and the
/// title of the item searched for.
#[derive(Clone, Debug, PartialEq, Eq)]
pub struct MarketRequest {
    pub query: String,
    pub vars: Vars,
    pub item_title: String,
}

/// What the application must do after a message was handled.
#[derive(Clone, Debug, PartialEq, Eq)]
pub enum Action {
    Nothing,
    /// Write the whole collection back to storage.
    SaveCollections,
    /// Run a market search and hand back its outcome as a message.
    SearchMarket(MarketRequest),
}

/// The events the application reacts to. `T` is the type of one market lot.
#[derive(Clone, Debug, PartialEq, Eq)]
pub enum Message<T> {
    ChangePage(Page),
    ChangeSet(String),
    UpdateItem(ItemKey, ItemOptionType, bool),
    SaveCollections,
    SearchMarket(ItemKey),
    ClearOffers,
    /// The lots a search for the titled item found (`None`: the market sent no data).
    MarketSearchResult(String, Option<Vec<T>>),
    /// A search failed; the text says why.
    MarketSearchFailed(String),
}

/// The state of the application: the selected class and set, the collection,
/// and the results of the last search.
#[derive(Clone, Debug, PartialEq, Eq)]
pub struct AppModel<T> {
    pub page: Page,
    pub collections: PlayerCollection,
    pub current_set: Option<AllSets>,
    pub set_selected: Option<String>,
    pub offers: OfferList<T>,
    pub search_error: Option<String>,
}

impl<T> AppModel<T> {
    /// The collection has the catalog's shape and a selected set belongs to the selected class.
    pub open spec fn wf(&self) -> bool {
        &&& self.collections.wf()
        &&& self.current_set matches Some(s) ==> class_catalog(self.page).contains(s)
    }

    /// The item at `k`.
    pub open spec fn spec_item(&self, k: ItemKey) -> Item {
        self.collections.spec_entry(k.class, k.set).items@[k.slot.spec_index()]
    }

    /// The application as it starts: the first class selected, no set, no offers.
    pub fn new(collections: PlayerCollection) -> (r: AppModel<T>)
        requires
            collections.wf(),
        ensures
            r.wf(),
            r.page == Page::DarkWizard,
            r.collections == collections,
            r.current_set is None,
            r.set_selected is None,
            r.offers@ == cleared_offers::<T>(),
            r.search_error is None,
    {
        AppModel {
            page: Page::DarkWizard,
            collections,
            current_set: None,
            set_selected: None,
            offers: OfferList::new(),
            search_error: None,
        }
    }

    /// The labels of the selected class's sets, in display order.
    pub fn set_options(&self) -> (r: Vec<String>)
        requires
            self.wf(),
        ensures
            r@.len() == class_catalog(self.page).len(),
            forall|j: int|
                0 <= j < r@.len() ==> (#[trigger] r@[j])@ == class_catalog(self.page)[j].spec_label(),
    {
        let names = self.page.sets();
        let mut r: Vec<String> = Vec::new();
        let mut j: usize = 0;
        while j < names.len()
            invariant
                names@ == class_catalog(self.page),
                j <= names@.len(),
                r@.len() == j,
                forall|k: int| 0 <= k < j ==> (#[trigger] r@[k])@ == names@[k].spec_label(),
            decreases names@.len() - j,
        {
            r.push(String::from_str(names[j].label()));
            j = j + 1;
        }
        r
    }

    /// The entry of the selected set, if one is selected.
    pub fn current_items(&self) -> (r: Option<&SetItems>)
        requires
            self.wf(),
        ensures
            r is Some <==> self.current_set is Some,
            r matches Some(e) ==> *e == self.collections.spec_entry(self.page, self.current_set->0),
    {
        match self.current_set {
            Some(s) => match self.collections.find_set(self.page, s) {
                Ok(e) => Some(e),
                Err(_) => None,
            },
            None => None,
        }
    }

    /// The set of the selected class whose label is `label`.
    fn set_with_label(&self, label: &str) -> (r: Option<AllSets>)
        requires
            self.wf(),
        ensures
            r matches Some(s) ==> class_catalog(self.page).contains(s) && s.spec_label() == label@,
            r is None ==> forall|j: int|
                0 <= j < class_catalog(self.page).len() ==> (#[trigger] class_catalog(
                    self.page,
                )[j]).spec_label() != label@,
    {
        let names = self.page.sets();
        let mut j: usize = 0;
        while j < names.len()
            invariant
                names@ == class_catalog(self.page),
                j <= names@.len(),
                forall|k: int| 0 <= k < j ==> (#[trigger] names@[k]).spec_label() != label@,
            decreases names@.len() - j,
        {
            if str_eq(names[j].label(), label) {
                return Some(names[j]);
            }
            j = j + 1;
        }
        None
    }

    /// Handles one message and says what the application must do next.
    pub fn update(&mut self, message: Message<T>) -> (r: Action)
        requires
            old(self).wf(),
        ensures
            final(self).wf(),
            match message {
                Message::ChangePage(p) => {
                    &&& final(self).page == p
                    &&& final(self).current_set is None
                    &&& final(self).set_selected is None
                    &&& final(self).collections == old(self).collections
                    &&& final(self).offers == old(self).offers
                    &&& r == Action::Nothing
                },
                Message::ChangeSet(label) => {
                    &&& final(self).page == old(self).page
                    &&& final(self).set_selected matches Some(l) && l@ == label@
                    &&& (final(self).current_set matches Some(s) ==> s.spec_label() == label@)
                    &&& (final(self).current_set is None ==> forall|j: int|
                        0 <= j < class_catalog(old(self).page).len() ==> (#[trigger] class_catalog(
                            old(self).page,
                        )[j]).spec_label() != label@)
                    &&& final(self).collections == old(self).collections
                    &&& final(self).offers == old(self).offers
                    &&& r == Action::Nothing
                },
                Message::UpdateItem(key, option, enabled) => {
                    &&& final(self).page == old(self).page
                    &&& final(self).current_set == old(self).current_set
                    &&& final(self).offers == old(self).offers
                    &&& (!key.valid() ==> final(self).collections.collection@ == old(
                        self,
                    ).collections.collection@)
                    &&& (key.valid() ==> forall|k: ItemKey|
                        k.valid() ==> #[trigger] final(self).collections.options_of(k) == if k
                            == key {
                            old(self).collections.options_of(k).spec_set(option, enabled)
                        } else {
                            old(self).collections.options_of(k)
                        })
                    &&& r == Action::Nothing
                },
                Message::SaveCollections => {
                    &&& *final(self) == *old(self)
                    &&& r == Action::SaveCollections
                },
                Message::SearchMarket(key) => {
                    &&& final(self).page == old(self).page
                    &&& final(self).current_set == old(self).current_set
                    &&& final(self).collections == old(self).collections
                    &&& if key.valid() {
                        &&& final(self).offers@ == search_started(old(self).offers@)
                        &&& final(self).search_error is None
                        &&& r matches Action::SearchMarket(req) && {
                            &&& req.query@ == MARKET_QUERY@
                            &&& old(self).spec_item(key).spec_vars_match(req.vars)
                            &&& req.item_title@ == old(self).spec_item(key).name@ + " "@ + key.slot.spec_label()
                        }
                    } else {
                        &&& final(self).offers == old(self).offers
                        &&& r == Action::Nothing
                    }
                },
                Message::ClearOffers => {
                    &&& final(self).page == old(self).page
                    &&& final(self).current_set == old(self).current_set
                    &&& final(self).collections == old(self).collections
                    &&& final(self).offers@ == cleared_offers::<T>()
                    &&& r == Action::Nothing
                },
                Message::MarketSearchResult(source, lots) => {
                    &&& final(self).page == old(self).page
                    &&& final(self).current_set == old(self).current_set
                    &&& final(self).collections == old(self).collections
                    &&& final(self).offers@ == received_offers(
                        old(self).offers@,
                        source@,
                        match lots {
                            Some(v) => v@,
                            None => Seq::empty(),
                        },
                    )
                    &&& final(self).search_error is None
                    &&& r == Action::Nothing
                },
                Message::MarketSearchFailed(why) => {
                    &&& final(self).page == old(self).page
                    &&& final(self).current_set == old(self).current_set
                    &&& final(self).collections == old(self).collections
                    &&& final(self).offers == old(self).offers
                    &&& final(self).search_error matches Some(e) && e@ == why@
                    &&& r == Action::Nothing
                },
            },
    {
        match message {
            Message::ChangePage(p) => {
                self.page = p;
                self.current_set = None;
                self.set_selected = None;
                Action::Nothing
            },
            Message::ChangeSet(label) => {
                let found = self.set_with_label(label.as_str());
                self.current_set = found;
                self.set_selected = Some(label);
                Action::Nothing
            },
            Message::UpdateItem(key, option, enabled) => {
                let _ = self.collections.update_class_item(key, option, enabled);
                Action::Nothing
            },
            Message::SaveCollections => Action::SaveCollections,
            Message::SearchMarket(key) => {
                match self.collections.find_set(key.class, key.set) {
                    Ok(entry) => {
                        let item = &entry.items[key.slot.index()];
                        let req = MarketRequest {
                            query: item.generate_market_query(),
                            vars: item.generate_gql_vars(),
                            item_title: item.title(),
                        };
                        proof {
                            assert(entry.wf());
                        }
                        self.offers.clear();
                        self.search_error = None;
                        Action::SearchMarket(req)
                    },
                    Err(_) => Action::Nothing,
                }
            },
            Message::ClearOffers => {
                self.offers.clear();
                Action::Nothing
            },
            Message::MarketSearchResult(source, lots) => {
                let found = match lots {
                    Some(v) => v,
                    None => Vec::new(),
                };
                self.offers.receive(source, found);
                self.search_error = None;
                Action::Nothing
            },
            Message::MarketSearchFailed(why) => {
                self.search_error = Some(why);
                Action::Nothing
            },
        }
    }
}

} // verus!
