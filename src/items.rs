use vstd::prelude::*;
use vstd::string::*;

use crate::app::{class_catalog, Page};
use crate::gql::{Filter, Sort, Vars, MARKET_QUERY};

verus! {

/// Whether two strings hold the same characters.
pub fn str_eq(a: &str, b: &str) -> (r: bool)
    ensures
        r == (a@ == b@),
{
    let n = a.unicode_len();
    let m = b.unicode_len();
    if n != m {
        return false;
    }
    let mut i: usize = 0;
    while i < n
        invariant
            n == a@.len(),
            m == b@.len(),
            n == m,
            i <= n,
            forall|j: int| 0 <= j < i ==> a@[j] == b@[j],
        decreases n - i,
    {
        if a.get_char(i) != b.get_char(i) {
            return false;
        }
        i = i + 1;
    }
    assert(a@ =~= b@);
    true
}

/// Why a label read back from stored data could not be decoded.
#[derive(Clone, Copy, Debug, PartialEq, Eq, Structural)]
pub enum DecodeError {
    UnknownItemType,
    UnknownSet,
}

/// The five equipment slots that every set fills exactly once.
#[derive(Clone, Copy, Debug, PartialEq, Eq, Structural)]
pub enum ItemType {
    Helm,
    Armor,
    Pants,
    Gloves,
    Boots,
}

/// The slot at position `i` of a set, in the fixed order Helm, Armor, Pants, Gloves, Boots.
pub open spec fn slot_at(i: int) -> ItemType {
    if i == 0 {
        ItemType::Helm
    } else if i == 1 {
        ItemType::Armor
    } else if i == 2 {
        ItemType::Pants
    } else if i == 3 {
        ItemType::Gloves
    } else {
        ItemType::Boots
    }
}

impl ItemType {
    pub open spec fn spec_index(self) -> int {
        match self {
            ItemType::Helm => 0,
            ItemType::Armor => 1,
            ItemType::Pants => 2,
            ItemType::Gloves => 3,
            ItemType::Boots => 4,
        }
    }

    pub open spec fn spec_label(self) -> Seq<char> {
        match self {
            ItemType::Helm => "Helm"@,
            ItemType::Armor => "Armor"@,
            ItemType::Pants => "Pants"@,
            ItemType::Gloves => "Gloves"@,
            ItemType::Boots => "Boots"@,
        }
    }

    pub open spec fn spec_lower_label(self) -> Seq<char> {
        match self {
            ItemType::Helm => "helm"@,
            ItemType::Armor => "armor"@,
            ItemType::Pants => "pants"@,
            ItemType::Gloves => "gloves"@,
            ItemType::Boots => "boots"@,
        }
    }

    /// Position of the slot within a set.
    pub fn index(&self) -> (r: usize)
        ensures
            r as int == self.spec_index(),
            r < 5,
            slot_at(r as int) == *self,
    {
        match self {
            ItemType::Helm => 0,
            ItemType::Armor => 1,
            ItemType::Pants => 2,
            ItemType::Gloves => 3,
            ItemType::Boots => 4,
        }
    }

    /// The slot at a position of a set.
    pub fn at(i: usize) -> (r: ItemType)
        requires
            i < 5,
        ensures
            r == slot_at(i as int),
            r.spec_index() == i as int,
    {
        if i == 0 {
            ItemType::Helm
        } else if i == 1 {
            ItemType::Armor
        } else if i == 2 {
            ItemType::Pants
        } else if i == 3 {
            ItemType::Gloves
        } else {
            ItemType::Boots
        }
    }

    /// The display name of the slot ("Helm", "Armor", ...).
    pub fn label(&self) -> (r: &'static str)
        ensures
            r@ == self.spec_label(),
    {
        match self {
            ItemType::Helm => "Helm",
            ItemType::Armor => "Armor",
            ItemType::Pants => "Pants",
            ItemType::Gloves => "Gloves",
            ItemType::Boots => "Boots",
        }
    }

    /// The lower-case name of the slot, as the market expects it in a type filter.
    pub fn lower_label(&self) -> (r: &'static str)
        ensures
            r@ == self.spec_lower_label(),
    {
        match self {
            ItemType::Helm => "helm",
            ItemType::Armor => "armor",
            ItemType::Pants => "pants",
            ItemType::Gloves => "gloves",
            ItemType::Boots => "boots",
        }
    }

    /// Reads a slot back from its display name; the match is exact and case-sensitive.
    pub fn from_label(s: &str) -> (r: Result<ItemType, DecodeError>)
        ensures
            r matches Ok(t) ==> t.spec_label() == s@,
            r is Err <==> (forall|t: ItemType| #[trigger] t.spec_label() != s@),
            r matches Err(e) ==> e == DecodeError::UnknownItemType,
    {
        let r = if str_eq(s, "Helm") {
            Ok(ItemType::Helm)
        } else if str_eq(s, "Armor") {
            Ok(ItemType::Armor)
        } else if str_eq(s, "Pants") {
            Ok(ItemType::Pants)
        } else if str_eq(s, "Gloves") {
            Ok(ItemType::Gloves)
        } else if str_eq(s, "Boots") {
            Ok(ItemType::Boots)
        } else {
            Err(DecodeError::UnknownItemType)
        };
        proof {
            if let Ok(t) = r {
                assert(t.spec_label() == s@);
            }
        }
        r
    }
}

/// No two slots share a display name, so reading a slot's name back with
/// `ItemType::from_label` gives that slot.
pub proof fn lemma_slot_labels_distinct(t: ItemType, u: ItemType)
    ensures
        t.spec_label() == u.spec_label() ==> t == u,
{
    reveal_strlit("Helm");
    reveal_strlit("Armor");
    reveal_strlit("Pants");
    reveal_strlit("Gloves");
    reveal_strlit("Boots");
    if t.spec_label() == u.spec_label() {
        assert(t.spec_label().len() == u.spec_label().len());
        assert(t.spec_label()[0] == u.spec_label()[0]);
    }
}

/// The six boolean attributes a player may want on an item. Their order here is
/// the fixed display order.
#[derive(Clone, Copy, Debug, PartialEq, Eq, Structural)]
pub enum ItemOptionType {
    MH,
    SD,
    DD,
    Ref,
    Dsr,
    Zen,
}

/// The option kind with ordinal `i`.
pub open spec fn option_at(i: int) -> ItemOptionType {
    if i == 0 {
        ItemOptionType::MH
    } else if i == 1 {
        ItemOptionType::SD
    } else if i == 2 {
        ItemOptionType::DD
    } else if i == 3 {
        ItemOptionType::Ref
    } else if i == 4 {
        ItemOptionType::Dsr
    } else {
        ItemOptionType::Zen
    }
}

impl ItemOptionType {
    pub open spec fn spec_ordinal(self) -> int {
        match self {
            ItemOptionType::MH => 0,
            ItemOptionType::SD => 1,
            ItemOptionType::DD => 2,
            ItemOptionType::Ref => 3,
            ItemOptionType::Dsr => 4,
            ItemOptionType::Zen => 5,
        }
    }

    pub open spec fn spec_label(self) -> Seq<char> {
        match self {
            ItemOptionType::MH => "Maximum Life (MH)"@,
            ItemOptionType::SD => "Increase Maximum SD (SD)"@,
            ItemOptionType::DD => "Damage Decrease (DD)"@,
            ItemOptionType::Ref => "Damage Reflection (REF)"@,
            ItemOptionType::Dsr => "Defense Success Rate (DSR)"@,
            ItemOptionType::Zen => "Additional Zen drop rate (ZEN)"@,
        }
    }

    /// The fixed position of the kind in display order.
    pub fn ordinal(&self) -> (r: usize)
        ensures
            r as int == self.spec_ordinal(),
            r < 6,
            option_at(r as int) == *self,
    {
        match self {
            ItemOptionType::MH => 0,
            ItemOptionType::SD => 1,
            ItemOptionType::DD => 2,
            ItemOptionType::Ref => 3,
            ItemOptionType::Dsr => 4,
            ItemOptionType::Zen => 5,
        }
    }

    /// The kind with a given ordinal.
    pub fn at(i: usize) -> (r: ItemOptionType)
        requires
            i < 6,
        ensures
            r == option_at(i as int),
            r.spec_ordinal() == i as int,
    {
        if i == 0 {
            ItemOptionType::MH
        } else if i == 1 {
            ItemOptionType::SD
        } else if i == 2 {
            ItemOptionType::DD
        } else if i == 3 {
            ItemOptionType::Ref
        } else if i == 4 {
            ItemOptionType::Dsr
        } else {
            ItemOptionType::Zen
        }
    }

    /// The label shown next to the option's checkbox.
    pub fn label(&self) -> (r: &'static str)
        ensures
            r@ == self.spec_label(),
    {
        match self {
            ItemOptionType::MH => "Maximum Life (MH)",
            ItemOptionType::SD => "Increase Maximum SD (SD)",
            ItemOptionType::DD => "Damage Decrease (DD)",
            ItemOptionType::Ref => "Damage Reflection (REF)",
            ItemOptionType::Dsr => "Defense Success Rate (DSR)",
            ItemOptionType::Zen => "Additional Zen drop rate (ZEN)",
        }
    }
}

/// One flag per option kind. All six kinds are always present: the set of keys
/// is fixed by the type itself.
#[derive(Clone, Copy, Debug, PartialEq, Eq, Structural)]
pub struct ItemOptions {
    pub mh: bool,
    pub sd: bool,
    pub dd: bool,
    pub reflection: bool,
    pub dsr: bool,
    pub zen: bool,
}

impl ItemOptions {
    /// Whether option `k` is enabled.
    pub open spec fn spec_get(self, k: ItemOptionType) -> bool {
        match k {
            ItemOptionType::MH => self.mh,
            ItemOptionType::SD => self.sd,
            ItemOptionType::DD => self.dd,
            ItemOptionType::Ref => self.reflection,
            ItemOptionType::Dsr => self.dsr,
            ItemOptionType::Zen => self.zen,
        }
    }

    /// The same flags with option `k` set to `enabled`.
    pub open spec fn spec_set(self, k: ItemOptionType, enabled: bool) -> ItemOptions {
        match k {
            ItemOptionType::MH => ItemOptions { mh: enabled, ..self },
            ItemOptionType::SD => ItemOptions { sd: enabled, ..self },
            ItemOptionType::DD => ItemOptions { dd: enabled, ..self },
            ItemOptionType::Ref => ItemOptions { reflection: enabled, ..self },
            ItemOptionType::Dsr => ItemOptions { dsr: enabled, ..self },
            ItemOptionType::Zen => ItemOptions { zen: enabled, ..self },
        }
    }

    /// Every option disabled.
    pub open spec fn spec_none() -> ItemOptions {
        ItemOptions { mh: false, sd: false, dd: false, reflection: false, dsr: false, zen: false }
    }

    /// The (kind, enabled) pairs in ordinal order.
    pub open spec fn spec_entries(self) -> Seq<(ItemOptionType, bool)> {
        Seq::new(6, |i: int| (option_at(i), self.spec_get(option_at(i))))
    }

    /// Whether option `k` is enabled.
    pub fn get(&self, k: ItemOptionType) -> (r: bool)
        ensures
            r == self.spec_get(k),
    {
        match k {
            ItemOptionType::MH => self.mh,
            ItemOptionType::SD => self.sd,
            ItemOptionType::DD => self.dd,
            ItemOptionType::Ref => self.reflection,
            ItemOptionType::Dsr => self.dsr,
            ItemOptionType::Zen => self.zen,
        }
    }

    /// Sets option `k` to `enabled`, leaving the other kinds as they were.
    pub fn set(&mut self, k: ItemOptionType, enabled: bool)
        ensures
            *final(self) == old(self).spec_set(k, enabled),
            final(self).spec_get(k) == enabled,
            forall|j: ItemOptionType| j != k ==> #[trigger] final(self).spec_get(j) == old(self).spec_get(j),
    {
        match k {
            ItemOptionType::MH => self.mh = enabled,
            ItemOptionType::SD => self.sd = enabled,
            ItemOptionType::DD => self.dd = enabled,
            ItemOptionType::Ref => self.reflection = enabled,
            ItemOptionType::Dsr => self.dsr = enabled,
            ItemOptionType::Zen => self.zen = enabled,
        }
    }

    /// The six (kind, enabled) pairs in ordinal order.
    pub fn entries(&self) -> (r: Vec<(ItemOptionType, bool)>)
        ensures
            r@ == self.spec_entries(),
    {
        let mut r: Vec<(ItemOptionType, bool)> = Vec::new();
        let mut i: usize = 0;
        while i < 6
            invariant
                i <= 6,
                r@.len() == i,
                forall|j: int| 0 <= j < i ==> r@[j] == (option_at(j), self.spec_get(option_at(j))),
            decreases 6 - i,
        {
            let k = ItemOptionType::at(i);
            r.push((k, self.get(k)));
            i = i + 1;
        }
        assert(r@ =~= self.spec_entries());
        r
    }
}

impl Default for ItemOptions {
    /// Every option disabled.
    fn default() -> (r: ItemOptions)
        ensures
            r == ItemOptions::spec_none(),
    {
        ItemOptions { mh: false, sd: false, dd: false, reflection: false, dsr: false, zen: false }
    }
}

/// Every tier of an option: the value a filter takes for an enabled option.
pub open spec fn all_tiers() -> Seq<u8> {
    seq![0u8, 1u8, 2u8, 3u8, 4u8]
}

/// An option filter is present, with every tier, exactly when the option is enabled.
pub open spec fn tier_filter_matches(f: Option<Vec<u8>>, enabled: bool) -> bool {
    match f {
        Some(v) => enabled && v@ == all_tiers(),
        None => !enabled,
    }
}

/// The field the market sorts by: the lowest price of a lot.
pub open spec fn spec_sort_field() -> Seq<char> {
    "LOT_FIELD_MIN_PRICE"@
}

/// Ascending order.
pub open spec fn spec_sort_ascending() -> Seq<char> {
    "SORT_TYPE_ASC"@
}

fn tier_filter(enabled: bool) -> (r: Option<Vec<u8>>)
    ensures
        tier_filter_matches(r, enabled),
{
    if enabled {
        let v: Vec<u8> = vec![0u8, 1u8, 2u8, 3u8, 4u8];
        assert(v@ =~= all_tiers());
        Some(v)
    } else {
        None
    }
}

/// A freshly built item shows exactly the six option kinds, all disabled, in
/// ordinal order.
pub proof fn lemma_new_item_shows_all_disabled(name: String, item_type: ItemType, item: Item)
    requires
        item.options == ItemOptions::spec_none(),
        item.item_type == item_type,
        item.name@ == name@,
    ensures
        item.options.spec_entries() == seq![
            (ItemOptionType::MH, false),
            (ItemOptionType::SD, false),
            (ItemOptionType::DD, false),
            (ItemOptionType::Ref, false),
            (ItemOptionType::Dsr, false),
            (ItemOptionType::Zen, false),
        ],
{
    assert(item.options.spec_entries() =~= seq![
        (ItemOptionType::MH, false),
        (ItemOptionType::SD, false),
        (ItemOptionType::DD, false),
        (ItemOptionType::Ref, false),
        (ItemOptionType::Dsr, false),
        (ItemOptionType::Zen, false),
    ]);
}

/// After an option is set, the displayed options show the new value for that
/// kind, and every other kind as it was, still in ordinal order.
pub proof fn lemma_set_option_then_display(options: ItemOptions, k: ItemOptionType, enabled: bool)
    ensures
        options.spec_set(k, enabled).spec_entries().len() == 6,
        options.spec_set(k, enabled).spec_entries()[k.spec_ordinal()] == (k, enabled),
        forall|i: int|
            0 <= i < 6 && i != k.spec_ordinal() ==> #[trigger] options.spec_set(
                k,
                enabled,
            ).spec_entries()[i] == options.spec_entries()[i],
{
    let after = options.spec_set(k, enabled);
    assert(option_at(k.spec_ordinal()) == k);
    assert forall|i: int| 0 <= i < 6 && i != k.spec_ordinal() implies #[trigger] after.spec_entries()[i]
        == options.spec_entries()[i] by {
        assert(option_at(i) != k);
    }
}

/// One piece of equipment: its slot, its name and its option flags.
#[derive(Clone, Debug, PartialEq, Eq)]
pub struct Item {
    pub options: ItemOptions,
    pub item_type: ItemType,
    pub name: String,
}

impl Item {
    /// An item named `name` in slot `item_type` with every option disabled.
    pub fn new(name: String, item_type: ItemType) -> (r: Item)
        ensures
            r.options == ItemOptions::spec_none(),
            r.item_type == item_type,
            r.name@ == name@,
    {
        Item { options: ItemOptions::default(), item_type, name }
    }

    /// Sets option `k` of the item to `enabled`; slot, name and the other kinds stay.
    pub fn set_option(&mut self, k: ItemOptionType, enabled: bool)
        ensures
            final(self).options == old(self).options.spec_set(k, enabled),
            final(self).options.spec_get(k) == enabled,
            forall|j: ItemOptionType| j != k ==> #[trigger] final(self).options.spec_get(j) == old(self).options.spec_get(j),
            final(self).item_type == old(self).item_type,
            final(self).name@ == old(self).name@,
    {
        self.options.set(k, enabled);
    }

    /// The six (kind, enabled) pairs of the item in ordinal order.
    pub fn display_options(&self) -> (r: Vec<(ItemOptionType, bool)>)
        ensures
            r@ == self.options.spec_entries(),
    {
        self.options.entries()
    }

    /// The item's title: its name, a space, then its slot ("Pad Helm").
    pub fn title(&self) -> (r: String)
        ensures
            r@ == self.name@ + " "@ + self.item_type.spec_label(),
    {
        let mut t = self.name.clone();
        t.append(" ");
        t.append(self.item_type.label());
        t
    }
}

/// The name of a set of items. A set may belong to several classes.
#[derive(Clone, Copy, Debug, PartialEq, Eq, Structural)]
pub enum AllSets {
    Pad,
    Bone,
    Sphinx,
    Legendary,
    GrandSoul,
    DarkSoul,
    VenomMist,
    Leather,
    Bronze,
    Scale,
    Brass,
    Plate,
    Dragon,
    BlackDragon,
    DarkPhoenix,
    GreatDragon,
    DragonKnight,
    Vine,
    Silk,
    Wind,
    Spirit,
    Guardian,
    HolySpirit,
    RedSpirit,
    SylphidRay,
    StormCrow,
    ThunderHawk,
    Hurricane,
    Volcano,
    LightPlate,
    Adamantine,
    DarkSteel,
    DarkMaster,
    Sunlight,
    ViolentWind,
    RedWinged,
    Ancient,
    Demonic,
    StormBlitz,
    Succubus,
    SacredFire,
    StormZahard,
    PiercingGrove,
    PhoenixSoul,
}

impl AllSets {
    pub open spec fn spec_label(self) -> Seq<char> {
        match self {
            AllSets::Pad => "Pad"@,
            AllSets::Bone => "Bone"@,
            AllSets::Sphinx => "Sphinx"@,
            AllSets::Legendary => "Legendary"@,
            AllSets::GrandSoul => "Grand Soul"@,
            AllSets::DarkSoul => "Dark Soul"@,
            AllSets::VenomMist => "Venom Mist"@,
            AllSets::Leather => "Leather"@,
            AllSets::Bronze => "Bronze"@,
            AllSets::Scale => "Scale"@,
            AllSets::Brass => "Brass"@,
            AllSets::Plate => "Plate"@,
            AllSets::Dragon => "Dragon"@,
            AllSets::BlackDragon => "Black Dragon"@,
            AllSets::DarkPhoenix => "Dark Phoenix"@,
            AllSets::GreatDragon => "Great Dragon"@,
            AllSets::DragonKnight => "Dragon Knight"@,
            AllSets::Vine => "Vine"@,
            AllSets::Silk => "Silk"@,
            AllSets::Wind => "Wind"@,
            AllSets::Spirit => "Spirit"@,
            AllSets::Guardian => "Guardian"@,
            AllSets::HolySpirit => "Holy Spirit"@,
            AllSets::RedSpirit => "Red Spirit"@,
            AllSets::SylphidRay => "Sylphid Ray"@,
            AllSets::StormCrow => "Storm Crow"@,
            AllSets::ThunderHawk => "Thunder Hawk"@,
            AllSets::Hurricane => "Hurricane"@,
            AllSets::Volcano => "Volcano"@,
            AllSets::LightPlate => "Light Plate"@,
            AllSets::Adamantine => "Adamantine"@,
            AllSets::DarkSteel => "Dark Steel"@,
            AllSets::DarkMaster => "Dark Master"@,
            AllSets::Sunlight => "Sunlight"@,
            AllSets::ViolentWind => "Violent Wind"@,
            AllSets::RedWinged => "Red Winged"@,
            AllSets::Ancient => "Ancient"@,
            AllSets::Demonic => "Demonic"@,
            AllSets::StormBlitz => "Storm Blitz"@,
            AllSets::Succubus => "Succubus"@,
            AllSets::SacredFire => "Sacred Fire"@,
            AllSets::StormZahard => "Storm Zahard"@,
            AllSets::PiercingGrove => "Piercing Grove"@,
            AllSets::PhoenixSoul => "Phoenix Soul"@,
        }
    }

    /// The human-readable name of the set ("Grand Soul" for `GrandSoul`).
    pub fn label(&self) -> (r: &'static str)
        ensures
            r@ == self.spec_label(),
    {
        match self {
            AllSets::Pad => "Pad",
            AllSets::Bone => "Bone",
            AllSets::Sphinx => "Sphinx",
            AllSets::Legendary => "Legendary",
            AllSets::GrandSoul => "Grand Soul",
            AllSets::DarkSoul => "Dark Soul",
            AllSets::VenomMist => "Venom Mist",
            AllSets::Leather => "Leather",
            AllSets::Bronze => "Bronze",
            AllSets::Scale => "Scale",
            AllSets::Brass => "Brass",
            AllSets::Plate => "Plate",
            AllSets::Dragon => "Dragon",
            AllSets::BlackDragon => "Black Dragon",
            AllSets::DarkPhoenix => "Dark Phoenix",
            AllSets::GreatDragon => "Great Dragon",
            AllSets::DragonKnight => "Dragon Knight",
            AllSets::Vine => "Vine",
            AllSets::Silk => "Silk",
            AllSets::Wind => "Wind",
            AllSets::Spirit => "Spirit",
            AllSets::Guardian => "Guardian",
            AllSets::HolySpirit => "Holy Spirit",
            AllSets::RedSpirit => "Red Spirit",
            AllSets::SylphidRay => "Sylphid Ray",
            AllSets::StormCrow => "Storm Crow",
            AllSets::ThunderHawk => "Thunder Hawk",
            AllSets::Hurricane => "Hurricane",
            AllSets::Volcano => "Volcano",
            AllSets::LightPlate => "Light Plate",
            AllSets::Adamantine => "Adamantine",
            AllSets::DarkSteel => "Dark Steel",
            AllSets::DarkMaster => "Dark Master",
            AllSets::Sunlight => "Sunlight",
            AllSets::ViolentWind => "Violent Wind",
            AllSets::RedWinged => "Red Winged",
            AllSets::Ancient => "Ancient",
            AllSets::Demonic => "Demonic",
            AllSets::StormBlitz => "Storm Blitz",
            AllSets::Succubus => "Succubus",
            AllSets::SacredFire => "Sacred Fire",
            AllSets::StormZahard => "Storm Zahard",
            AllSets::PiercingGrove => "Piercing Grove",
            AllSets::PhoenixSoul => "Phoenix Soul",
        }
    }

    /// Reads a set back from its human-readable name; the match is exact.
    pub fn from_label(s: &str) -> (r: Result<AllSets, DecodeError>)
        ensures
            r matches Ok(t) ==> t.spec_label() == s@,
            r is Err <==> (forall|t: AllSets| #[trigger] t.spec_label() != s@),
            r matches Err(e) ==> e == DecodeError::UnknownSet,
    {
        let r = if str_eq(s, "Pad") {
            Ok(AllSets::Pad)
        } else if str_eq(s, "Bone") {
            Ok(AllSets::Bone)
        } else if str_eq(s, "Sphinx") {
            Ok(AllSets::Sphinx)
        } else if str_eq(s, "Legendary") {
            Ok(AllSets::Legendary)
        } else if str_eq(s, "Grand Soul") {
            Ok(AllSets::GrandSoul)
        } else if str_eq(s, "Dark Soul") {
            Ok(AllSets::DarkSoul)
        } else if str_eq(s, "Venom Mist") {
            Ok(AllSets::VenomMist)
        } else if str_eq(s, "Leather") {
            Ok(AllSets::Leather)
        } else if str_eq(s, "Bronze") {
            Ok(AllSets::Bronze)
        } else if str_eq(s, "Scale") {
            Ok(AllSets::Scale)
        } else if str_eq(s, "Brass") {
            Ok(AllSets::Brass)
        } else if str_eq(s, "Plate") {
            Ok(AllSets::Plate)
        } else if str_eq(s, "Dragon") {
            Ok(AllSets::Dragon)
        } else if str_eq(s, "Black Dragon") {
            Ok(AllSets::BlackDragon)
        } else if str_eq(s, "Dark Phoenix") {
            Ok(AllSets::DarkPhoenix)
        } else if str_eq(s, "Great Dragon") {
            Ok(AllSets::GreatDragon)
        } else if str_eq(s, "Dragon Knight") {
            Ok(AllSets::DragonKnight)
        } else if str_eq(s, "Vine") {
            Ok(AllSets::Vine)
        } else if str_eq(s, "Silk") {
            Ok(AllSets::Silk)
        } else if str_eq(s, "Wind") {
            Ok(AllSets::Wind)
        } else if str_eq(s, "Spirit") {
            Ok(AllSets::Spirit)
        } else if str_eq(s, "Guardian") {
            Ok(AllSets::Guardian)
        } else if str_eq(s, "Holy Spirit") {
            Ok(AllSets::HolySpirit)
        } else if str_eq(s, "Red Spirit") {
            Ok(AllSets::RedSpirit)
        } else if str_eq(s, "Sylphid Ray") {
            Ok(AllSets::SylphidRay)
        } else if str_eq(s, "Storm Crow") {
            Ok(AllSets::StormCrow)
        } else if str_eq(s, "Thunder Hawk") {
            Ok(AllSets::ThunderHawk)
        } else if str_eq(s, "Hurricane") {
            Ok(AllSets::Hurricane)
        } else if str_eq(s, "Volcano") {
            Ok(AllSets::Volcano)
        } else if str_eq(s, "Light Plate") {
            Ok(AllSets::LightPlate)
        } else if str_eq(s, "Adamantine") {
            Ok(AllSets::Adamantine)
        } else if str_eq(s, "Dark Steel") {
            Ok(AllSets::DarkSteel)
        } else if str_eq(s, "Dark Master") {
            Ok(AllSets::DarkMaster)
        } else if str_eq(s, "Sunlight") {
            Ok(AllSets::Sunlight)
        } else if str_eq(s, "Violent Wind") {
            Ok(AllSets::ViolentWind)
        } else if str_eq(s, "Red Winged") {
            Ok(AllSets::RedWinged)
        } else if str_eq(s, "Ancient") {
            Ok(AllSets::Ancient)
        } else if str_eq(s, "Demonic") {
            Ok(AllSets::Demonic)
        } else if str_eq(s, "Storm Blitz") {
            Ok(AllSets::StormBlitz)
        } else if str_eq(s, "Succubus") {
            Ok(AllSets::Succubus)
        } else if str_eq(s, "Sacred Fire") {
            Ok(AllSets::SacredFire)
        } else if str_eq(s, "Storm Zahard") {
            Ok(AllSets::StormZahard)
        } else if str_eq(s, "Piercing Grove") {
            Ok(AllSets::PiercingGrove)
        } else if str_eq(s, "Phoenix Soul") {
            Ok(AllSets::PhoenixSoul)
        } else {
            Err(DecodeError::UnknownSet)
        };
        proof {
            if let Ok(t) = r {
                assert(t.spec_label() == s@);
            }
        }
        r
    }}

impl Item {
    /// `r` is the search for this item: one option filter, with every tier,
    /// for each enabled option and none for a disabled one; the lower-case
    /// slot as the only type; the name as it stands; the first 200 lots by
    /// ascending lowest price.
    pub open spec fn spec_vars_match(&self, r: Vars) -> bool {
        &&& tier_filter_matches(r.filter.iml, self.options.spec_get(ItemOptionType::MH))
        &&& tier_filter_matches(r.filter.imsd, self.options.spec_get(ItemOptionType::SD))
        &&& tier_filter_matches(r.filter.dd, self.options.spec_get(ItemOptionType::DD))
        &&& tier_filter_matches(r.filter.rd, self.options.spec_get(ItemOptionType::Ref))
        &&& tier_filter_matches(r.filter.dsr, self.options.spec_get(ItemOptionType::Dsr))
        &&& tier_filter_matches(r.filter.izdr, self.options.spec_get(ItemOptionType::Zen))
        &&& r.filter.item_type matches Some(t) && t@.len() == 1 && t@[0]@
            == self.item_type.spec_lower_label()
        &&& r.filter.name matches Some(n) && n@ == self.name@
        &&& r.limit == 200
        &&& r.offset == 0
        &&& r.sort.field@ == spec_sort_field()
        &&& r.sort.sort_type@ == spec_sort_ascending()
    }

    /// The request document of a market search.
    pub fn generate_market_query(&self) -> (r: String)
        ensures
            r@ == MARKET_QUERY@,
    {
        String::from_str(MARKET_QUERY)
    }

    /// The variables of a market search for this item. The option filters are
    /// `iml` for MH, `imsd` for SD, `dd`, `rd` for Ref, `dsr` and `izdr` for Zen.
    pub fn generate_gql_vars(&self) -> (r: Vars)
        ensures
            self.spec_vars_match(r),
    {
        let o = &self.options;
        let mut types: Vec<String> = Vec::new();
        types.push(String::from_str(self.item_type.lower_label()));
        Vars {
            filter: Filter {
                dd: tier_filter(o.get(ItemOptionType::DD)),
                dsr: tier_filter(o.get(ItemOptionType::Dsr)),
                iml: tier_filter(o.get(ItemOptionType::MH)),
                imsd: tier_filter(o.get(ItemOptionType::SD)),
                izdr: tier_filter(o.get(ItemOptionType::Zen)),
                rd: tier_filter(o.get(ItemOptionType::Ref)),
                item_type: Some(types),
                name: Some(self.name.clone()),
            },
            limit: 200,
            offset: 0,
            sort: Sort {
                field: String::from_str("LOT_FIELD_MIN_PRICE"),
                sort_type: String::from_str("SORT_TYPE_ASC"),
            },
        }
    }
}

/// No two sets share a human-readable name, so reading a set's name back with
/// `AllSets::from_label` gives that set.
#[verifier::rlimit(100)]
pub proof fn lemma_set_labels_distinct(a: AllSets, b: AllSets)
    ensures
        a.spec_label() == b.spec_label() ==> a == b,
{
    reveal_strlit("Pad");
    reveal_strlit("Bone");
    reveal_strlit("Sphinx");
    reveal_strlit("Legendary");
    reveal_strlit("Grand Soul");
    reveal_strlit("Dark Soul");
    reveal_strlit("Venom Mist");
    reveal_strlit("Leather");
    reveal_strlit("Bronze");
    reveal_strlit("Scale");
    reveal_strlit("Brass");
    reveal_strlit("Plate");
    reveal_strlit("Dragon");
    reveal_strlit("Black Dragon");
    reveal_strlit("Dark Phoenix");
    reveal_strlit("Great Dragon");
    reveal_strlit("Dragon Knight");
    reveal_strlit("Vine");
    reveal_strlit("Silk");
    reveal_strlit("Wind");
    reveal_strlit("Spirit");
    reveal_strlit("Guardian");
    reveal_strlit("Holy Spirit");
    reveal_strlit("Red Spirit");
    reveal_strlit("Sylphid Ray");
    reveal_strlit("Storm Crow");
    reveal_strlit("Thunder Hawk");
    reveal_strlit("Hurricane");
    reveal_strlit("Volcano");
    reveal_strlit("Light Plate");
    reveal_strlit("Adamantine");
    reveal_strlit("Dark Steel");
    reveal_strlit("Dark Master");
    reveal_strlit("Sunlight");
    reveal_strlit("Violent Wind");
    reveal_strlit("Red Winged");
    reveal_strlit("Ancient");
    reveal_strlit("Demonic");
    reveal_strlit("Storm Blitz");
    reveal_strlit("Succubus");
    reveal_strlit("Sacred Fire");
    reveal_strlit("Storm Zahard");
    reveal_strlit("Piercing Grove");
    reveal_strlit("Phoenix Soul");
    if a.spec_label() == b.spec_label() {
        let la = a.spec_label();
        let lb = b.spec_label();
        assert(la.len() == lb.len());
        assert(la[0] == lb[0]);
        assert(la[la.len() - 1] == lb[la.len() - 1]);
    }
}

/// A named set: its label and its five items, one per slot in fixed order.
#[derive(Clone, Debug, PartialEq, Eq)]
pub struct SetItems {
    pub set_string: String,
    pub set: AllSets,
    pub items: Vec<Item>,
}

impl SetItems {
    /// The label matches the set, and there are exactly five items, one per
    /// slot in the order Helm, Armor, Pants, Gloves, Boots, each named after the set.
    pub open spec fn wf(&self) -> bool {
        &&& self.set_string@ == self.set.spec_label()
        &&& self.items@.len() == 5
        &&& forall|i: int|
            0 <= i < 5 ==> {
                &&& (#[trigger] self.items@[i]).item_type == slot_at(i)
                &&& self.items@[i].name@ == self.set.spec_label()
            }
    }

    /// The entry for `set_name` as a fresh collection holds it: every option disabled.
    pub fn new(set_name: AllSets) -> (r: SetItems)
        ensures
            r.wf(),
            r.set == set_name,
            forall|i: int| 0 <= i < 5 ==> (#[trigger] r.items@[i]).options == ItemOptions::spec_none(),
    {
        let label = set_name.label();
        let mut items: Vec<Item> = Vec::new();
        let mut i: usize = 0;
        while i < 5
            invariant
                i <= 5,
                label@ == set_name.spec_label(),
                items@.len() == i,
                forall|j: int|
                    0 <= j < i ==> {
                        &&& (#[trigger] items@[j]).item_type == slot_at(j)
                        &&& items@[j].name@ == set_name.spec_label()
                        &&& items@[j].options == ItemOptions::spec_none()
                    },
            decreases 5 - i,
        {
            items.push(Item::new(String::from_str(label), ItemType::at(i)));
            i = i + 1;
        }
        SetItems { set_string: String::from_str(label), set: set_name, items }
    }

    /// The entry for the set with human-readable name `s`, or `UnknownSet`.
    pub fn from_label(s: &str) -> (r: Result<SetItems, DecodeError>)
        ensures
            r matches Ok(e) ==> e.wf() && e.set.spec_label() == s@ && forall|i: int|
                0 <= i < 5 ==> (#[trigger] e.items@[i]).options == ItemOptions::spec_none(),
            r is Err <==> (forall|t: AllSets| #[trigger] t.spec_label() != s@),
            r matches Err(e) ==> e == DecodeError::UnknownSet,
    {
        match AllSets::from_label(s) {
            Ok(set) => Ok(SetItems::new(set)),
            Err(e) => Err(e),
        }
    }

    /// Whether the entry is well formed.
    pub fn is_well_formed(&self) -> (r: bool)
        ensures
            r == self.wf(),
    {
        if !str_eq(self.set_string.as_str(), self.set.label()) {
            return false;
        }
        if self.items.len() != 5 {
            return false;
        }
        let mut i: usize = 0;
        while i < 5
            invariant
                i <= 5,
                self.items@.len() == 5,
                forall|j: int|
                    0 <= j < i ==> {
                        &&& (#[trigger] self.items@[j]).item_type == slot_at(j)
                        &&& self.items@[j].name@ == self.set.spec_label()
                    },
            decreases 5 - i,
        {
            if self.items[i].item_type != ItemType::at(i) {
                return false;
            }
            if !str_eq(self.items[i].name.as_str(), self.set.label()) {
                return false;
            }
            i = i + 1;
        }
        true
    }

    /// The human-readable name of the set.
    pub fn label(&self) -> (r: &str)
        ensures
            r@ == self.set_string@,
    {
        self.set_string.as_str()
    }
}

/// The sets of one character class.
#[derive(Clone, Debug, PartialEq, Eq)]
pub enum ClassSets {
    DarkWizard(Vec<SetItems>),
    DarkKnight(Vec<SetItems>),
    Elf(Vec<SetItems>),
    MagicGladiator(Vec<SetItems>),
    DarkLord(Vec<SetItems>),
    Summoner(Vec<SetItems>),
    RageFighter(Vec<SetItems>),
}

impl ClassSets {
    pub open spec fn spec_class(&self) -> Page {
        match self {
            ClassSets::DarkWizard(_) => Page::DarkWizard,
            ClassSets::DarkKnight(_) => Page::DarkKnight,
            ClassSets::Elf(_) => Page::Elf,
            ClassSets::MagicGladiator(_) => Page::MagicGladiator,
            ClassSets::DarkLord(_) => Page::DarkLord,
            ClassSets::Summoner(_) => Page::Summoner,
            ClassSets::RageFighter(_) => Page::RageFighter,
        }
    }

    pub open spec fn spec_sets(&self) -> Seq<SetItems> {
        match self {
            ClassSets::DarkWizard(v) => v@,
            ClassSets::DarkKnight(v) => v@,
            ClassSets::Elf(v) => v@,
            ClassSets::MagicGladiator(v) => v@,
            ClassSets::DarkLord(v) => v@,
            ClassSets::Summoner(v) => v@,
            ClassSets::RageFighter(v) => v@,
        }
    }

    /// The class holds exactly its catalog's sets, in catalog order, each well formed.
    pub open spec fn wf(&self) -> bool {
        &&& self.spec_sets().len() == class_catalog(self.spec_class()).len()
        &&& forall|j: int|
            0 <= j < self.spec_sets().len() ==> {
                &&& (#[trigger] self.spec_sets()[j]).wf()
                &&& self.spec_sets()[j].set == class_catalog(self.spec_class())[j]
            }
    }

    /// The sets of class `class`.
    pub fn new(class: Page, sets: Vec<SetItems>) -> (r: ClassSets)
        ensures
            r.spec_class() == class,
            r.spec_sets() == sets@,
    {
        match class {
            Page::DarkWizard => ClassSets::DarkWizard(sets),
            Page::DarkKnight => ClassSets::DarkKnight(sets),
            Page::Elf => ClassSets::Elf(sets),
            Page::MagicGladiator => ClassSets::MagicGladiator(sets),
            Page::DarkLord => ClassSets::DarkLord(sets),
            Page::Summoner => ClassSets::Summoner(sets),
            Page::RageFighter => ClassSets::RageFighter(sets),
        }
    }

    /// The class these sets belong to.
    pub fn class(&self) -> (r: Page)
        ensures
            r == self.spec_class(),
    {
        match self {
            ClassSets::DarkWizard(_) => Page::DarkWizard,
            ClassSets::DarkKnight(_) => Page::DarkKnight,
            ClassSets::Elf(_) => Page::Elf,
            ClassSets::MagicGladiator(_) => Page::MagicGladiator,
            ClassSets::DarkLord(_) => Page::DarkLord,
            ClassSets::Summoner(_) => Page::Summoner,
            ClassSets::RageFighter(_) => Page::RageFighter,
        }
    }

    /// The sets, in display order.
    pub fn sets(&self) -> (r: &Vec<SetItems>)
        ensures
            r@ == self.spec_sets(),
    {
        match self {
            ClassSets::DarkWizard(v) => v,
            ClassSets::DarkKnight(v) => v,
            ClassSets::Elf(v) => v,
            ClassSets::MagicGladiator(v) => v,
            ClassSets::DarkLord(v) => v,
            ClassSets::Summoner(v) => v,
            ClassSets::RageFighter(v) => v,
        }
    }

    /// Takes the sets out.
    pub fn into_sets(self) -> (r: Vec<SetItems>)
        ensures
            r@ == self.spec_sets(),
    {
        match self {
            ClassSets::DarkWizard(v) => v,
            ClassSets::DarkKnight(v) => v,
            ClassSets::Elf(v) => v,
            ClassSets::MagicGladiator(v) => v,
            ClassSets::DarkLord(v) => v,
            ClassSets::Summoner(v) => v,
            ClassSets::RageFighter(v) => v,
        }
    }
}

} // verus!
