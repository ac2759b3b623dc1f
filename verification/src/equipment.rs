//! Weapons, armor, and the catalog they are looked up in by name.
//!
//! Weights and prices are carried in hundredths of a unit (a hundredth of a
//! pound, a hundredth of a gold piece), so that fractional catalog entries
//! have an exact integer representation.

use vstd::prelude::*;

verus! {

/// Whether a weapon needs only simple training or martial training.
#[derive(Clone, Copy, Debug, PartialEq, Eq, Structural)]
pub enum WeaponType {
    Simple,
    Martial,
}

/// Whether a weapon strikes in melee or at range.
#[derive(Clone, Copy, Debug, PartialEq, Eq, Structural)]
pub enum WeaponRange {
    Melee,
    Ranged,
}

/// The kind of damage a weapon deals.
#[derive(Clone, Copy, Debug, PartialEq, Eq, Structural)]
pub enum DamageType {
    Piercing,
    Slashing,
    Bludgeoning,
}

/// The weight class of a suit of armor.
#[derive(Clone, Copy, Debug, PartialEq, Eq, Structural)]
pub enum ArmorType {
    Light,
    Medium,
    Heavy,
}

/// The mathematical value of a weapon catalog entry.
pub ghost struct WeaponV {
    pub name: Seq<char>,
    pub weapon_type: WeaponType,
    pub weapon_range: WeaponRange,
    pub damage: Seq<char>,
    pub damage_type: DamageType,
    pub weight: u32,
    pub price: u32,
    pub properties: Seq<Seq<char>>,
}

/// A weapon: a catalog entry a character holds an independent copy of.
/// `weight` is in hundredths of a pound, `price` in hundredths of a gold
/// piece.
#[derive(Clone, Debug, PartialEq)]
pub struct Weapon {
    pub name: String,
    pub weapon_type: WeaponType,
    pub weapon_range: WeaponRange,
    pub damage: String,
    pub damage_type: DamageType,
    pub weight: u32,
    pub price: u32,
    pub properties: Vec<String>,
}

impl View for Weapon {
    type V = WeaponV;

    open spec fn view(&self) -> WeaponV {
        WeaponV {
            name: self.name@,
            weapon_type: self.weapon_type,
            weapon_range: self.weapon_range,
            damage: self.damage@,
            damage_type: self.damage_type,
            weight: self.weight,
            price: self.price,
            properties: self.properties@.map_values(|p: String| p@),
        }
    }
}

/// The mathematical value of an armor catalog entry.
pub ghost struct ArmorV {
    pub name: Seq<char>,
    pub armor_type: ArmorType,
    pub base_ac: u8,
    pub dex_bonus_max: Option<i8>,
    pub weight: u32,
    pub price: u32,
    pub stealth_disadvantage: bool,
}

/// A suit of armor: a catalog entry a character holds an independent copy of.
/// `weight` is in hundredths of a pound, `price` in hundredths of a gold
/// piece.
#[derive(Clone, Debug, PartialEq)]
pub struct Armor {
    pub name: String,
    pub armor_type: ArmorType,
    pub base_ac: u8,
    pub dex_bonus_max: Option<i8>,
    pub weight: u32,
    pub price: u32,
    pub stealth_disadvantage: bool,
}

impl View for Armor {
    type V = ArmorV;

    open spec fn view(&self) -> ArmorV {
        ArmorV {
            name: self.name@,
            armor_type: self.armor_type,
            base_ac: self.base_ac,
            dex_bonus_max: self.dex_bonus_max,
            weight: self.weight,
            price: self.price,
            stealth_disadvantage: self.stealth_disadvantage,
        }
    }
}

/// Whether two string slices hold the same characters.
pub fn str_eq(a: &str, b: &str) -> (r: bool)
    ensures
        r == (a@ == b@),
{
    let la = a.unicode_len();
    let lb = b.unicode_len();
    if la != lb {
        return false;
    }
    let mut i: usize = 0;
    while i < la
        invariant
            la == a@.len(),
            la == b@.len(),
            i <= la,
            forall|j: int| 0 <= j < i ==> a@[j] == b@[j],
        decreases la - i,
    {
        if a.get_char(i) != b.get_char(i) {
            return false;
        }
        i = i + 1;
    }
    proof {
        assert(a@ =~= b@);
    }
    true
}

impl Armor {
    /// An independent copy of this catalog entry.
    fn duplicate(&self) -> (r: Armor)
        ensures
            r@ == self@,
    {
        Armor {
            name: self.name.clone(),
            armor_type: self.armor_type,
            base_ac: self.base_ac,
            dex_bonus_max: self.dex_bonus_max,
            weight: self.weight,
            price: self.price,
            stealth_disadvantage: self.stealth_disadvantage,
        }
    }
}

impl Weapon {
    /// An independent copy of this catalog entry.
    fn duplicate(&self) -> (r: Weapon)
        ensures
            r@ == self@,
    {
        let mut properties: Vec<String> = Vec::new();
        let mut i: usize = 0;
        while i < self.properties.len()
            invariant
                i <= self.properties.len(),
                properties@.len() == i,
                forall|j: int| 0 <= j < i ==> properties@[j] == self.properties@[j],
            decreases self.properties.len() - i,
        {
            properties.push(self.properties[i].clone());
            i = i + 1;
        }
        proof {
            assert(properties@ =~= self.properties@);
        }
        Weapon {
            name: self.name.clone(),
            weapon_type: self.weapon_type,
            weapon_range: self.weapon_range,
            damage: self.damage.clone(),
            damage_type: self.damage_type,
            weight: self.weight,
            price: self.price,
            properties,
        }
    }
}

/// The mathematical value of the equipment catalog.
pub ghost struct EquipmentCatalogV {
    pub armors: Seq<ArmorV>,
    pub weapons: Seq<WeaponV>,
}

/// The first armor entry with a given name, if any.
pub open spec fn spec_find_armor(entries: Seq<ArmorV>, name: Seq<char>) -> Option<ArmorV>
    decreases entries.len(),
{
    if entries.len() == 0 {
        None
    } else if entries[0].name == name {
        Some(entries[0])
    } else {
        spec_find_armor(entries.drop_first(), name)
    }
}

/// The first weapon entry with a given name, if any.
pub open spec fn spec_find_weapon(entries: Seq<WeaponV>, name: Seq<char>) -> Option<WeaponV>
    decreases entries.len(),
{
    if entries.len() == 0 {
        None
    } else if entries[0].name == name {
        Some(entries[0])
    } else {
        spec_find_weapon(entries.drop_first(), name)
    }
}

/// The catalog of equipment available to a new character, looked up by item
/// name; a missed lookup yields no item rather than an error.
#[derive(Debug)]
pub struct EquipmentCatalog {
    pub armors: Vec<Armor>,
    pub weapons: Vec<Weapon>,
}

impl View for EquipmentCatalog {
    type V = EquipmentCatalogV;

    open spec fn view(&self) -> EquipmentCatalogV {
        EquipmentCatalogV {
            armors: self.armors@.map_values(|a: Armor| a@),
            weapons: self.weapons@.map_values(|w: Weapon| w@),
        }
    }
}

impl EquipmentCatalog {
    /// An empty catalog.
    pub fn new() -> (r: EquipmentCatalog)
        ensures
            r@.armors.len() == 0,
            r@.weapons.len() == 0,
    {
        EquipmentCatalog { armors: Vec::new(), weapons: Vec::new() }
    }

    /// Add one armor entry at the end of the catalog.
    pub fn add_armor(&mut self, armor: Armor)
        ensures
            final(self)@.armors == old(self)@.armors.push(armor@),
            final(self)@.weapons == old(self)@.weapons,
    {
        self.armors.push(armor);
        proof {
            assert(final(self)@.armors =~= old(self)@.armors.push(armor@));
            assert(final(self)@.weapons =~= old(self)@.weapons);
        }
    }

    /// Add one weapon entry at the end of the catalog.
    pub fn add_weapon(&mut self, weapon: Weapon)
        ensures
            final(self)@.weapons == old(self)@.weapons.push(weapon@),
            final(self)@.armors == old(self)@.armors,
    {
        self.weapons.push(weapon);
        proof {
            assert(final(self)@.weapons =~= old(self)@.weapons.push(weapon@));
            assert(final(self)@.armors =~= old(self)@.armors);
        }
    }

    /// An independent copy of the first armor entry with the given name, or
    /// nothing when the name is not in the catalog. Of two entries sharing a
    /// name, the one added first wins.
    pub fn get_armor(&self, key: &str) -> (r: Option<Armor>)
        ensures
            match r {
                Some(a) => spec_find_armor(self@.armors, key@) == Some(a@),
                None => spec_find_armor(self@.armors, key@) is None,
            },
    {
        let ghost entries = self@.armors;
        proof {
            assert(entries.skip(0) =~= entries);
        }
        let mut i: usize = 0;
        while i < self.armors.len()
            invariant
                i <= self.armors.len(),
                entries == self@.armors,
                entries.len() == self.armors.len(),
                forall|j: int| 0 <= j < entries.len() ==> entries[j] == #[trigger] self.armors@[j]@,
                spec_find_armor(entries, key@) == spec_find_armor(entries.skip(i as int), key@),
            decreases self.armors.len() - i,
        {
            if str_eq(self.armors[i].name.as_str(), key) {
                proof {
                    assert(entries.skip(i as int)[0] == entries[i as int]);
                }
                return Some(self.armors[i].duplicate());
            }
            proof {
                assert(entries.skip(i as int).drop_first() =~= entries.skip(i as int + 1));
                assert(entries.skip(i as int)[0] == entries[i as int]);
            }
            i = i + 1;
        }
        proof {
            assert(entries.skip(i as int) =~= Seq::<ArmorV>::empty());
        }
        None
    }

    /// An independent copy of the first weapon entry with the given name, or
    /// nothing when the name is not in the catalog. Of two entries sharing a
    /// name, the one added first wins.
    pub fn get_weapon(&self, key: &str) -> (r: Option<Weapon>)
        ensures
            match r {
                Some(w) => spec_find_weapon(self@.weapons, key@) == Some(w@),
                None => spec_find_weapon(self@.weapons, key@) is None,
            },
    {
        let ghost entries = self@.weapons;
        proof {
            assert(entries.skip(0) =~= entries);
        }
        let mut i: usize = 0;
        while i < self.weapons.len()
            invariant
                i <= self.weapons.len(),
                entries == self@.weapons,
                entries.len() == self.weapons.len(),
                forall|j: int| 0 <= j < entries.len() ==> entries[j] == #[trigger] self.weapons@[j]@,
                spec_find_weapon(entries, key@) == spec_find_weapon(entries.skip(i as int), key@),
            decreases self.weapons.len() - i,
        {
            if str_eq(self.weapons[i].name.as_str(), key) {
                proof {
                    assert(entries.skip(i as int)[0] == entries[i as int]);
                }
                return Some(self.weapons[i].duplicate());
            }
            proof {
                assert(entries.skip(i as int).drop_first() =~= entries.skip(i as int + 1));
                assert(entries.skip(i as int)[0] == entries[i as int]);
            }
            i = i + 1;
        }
        proof {
            assert(entries.skip(i as int) =~= Seq::<WeaponV>::empty());
        }
        None
    }
}

} // verus!
