//! The static game data tables that the handlers consult.
use vstd::prelude::*;
use crate::search::{first_index, is_first, lemma_first_found, lemma_first_absent};

verus! {

/// One row of the damage table.
#[derive(Clone, Copy, Debug, PartialEq, Eq)]
pub struct DamageData {
    pub id: i64,
    pub element_power_type: i32,
}

/// One row of the weapon skin table.
#[derive(Clone, Copy, Debug, PartialEq, Eq)]
pub struct WeaponSkinData {
    pub id: i32,
}

/// One row of the item exchange table.
#[derive(Clone, Copy, Debug, PartialEq, Eq)]
pub struct ItemExchangeContentData {
    pub item_id: i32,
}

/// The tables, each in its stored order.
#[derive(Clone, Debug, PartialEq, Eq)]
pub struct GameData {
    pub damage_data: Vec<DamageData>,
    pub weapon_skin_data: Vec<WeaponSkinData>,
    pub item_exchange_content_data: Vec<ItemExchangeContentData>,
}

pub open spec fn damage_has_id(id: i64) -> spec_fn(DamageData) -> bool {
    |d: DamageData| d.id == id
}

pub open spec fn skin_has_id(id: i32) -> spec_fn(WeaponSkinData) -> bool {
    |d: WeaponSkinData| d.id == id
}

/// The first row of the damage table with `id`.
pub open spec fn damage_row(table: Seq<DamageData>, id: i64) -> Option<DamageData> {
    match first_index(table, damage_has_id(id)) {
        Some(i) => Some(table[i]),
        None => None,
    }
}

/// The first row of the weapon skin table with `id`.
pub open spec fn weapon_skin_row(table: Seq<WeaponSkinData>, id: i32) -> Option<WeaponSkinData> {
    match first_index(table, skin_has_id(id)) {
        Some(i) => Some(table[i]),
        None => None,
    }
}

impl GameData {
    /// The first row of the damage table with `id`.
    pub fn find_damage_data(&self, id: i64) -> (r: Option<DamageData>)
        ensures
            r == damage_row(self.damage_data@, id),
    {
        let mut i: usize = 0;
        while i < self.damage_data.len()
            invariant
                i <= self.damage_data@.len(),
                forall|j: int| 0 <= j < i ==> !damage_has_id(id)(#[trigger] self.damage_data@[j]),
            decreases self.damage_data.len() - i,
        {
            if self.damage_data[i].id == id {
                proof {
                    assert(is_first(self.damage_data@, damage_has_id(id), i as int));
                    lemma_first_found(self.damage_data@, damage_has_id(id), i as int);
                }
                return Some(self.damage_data[i]);
            }
            i += 1;
        }
        proof {
            lemma_first_absent(self.damage_data@, damage_has_id(id));
        }
        None
    }

    /// The first row of the weapon skin table with `id`.
    pub fn find_weapon_skin_data(&self, id: i32) -> (r: Option<WeaponSkinData>)
        ensures
            r == weapon_skin_row(self.weapon_skin_data@, id),
    {
        let mut i: usize = 0;
        while i < self.weapon_skin_data.len()
            invariant
                i <= self.weapon_skin_data@.len(),
                forall|j: int| 0 <= j < i ==> !skin_has_id(id)(#[trigger] self.weapon_skin_data@[j]),
            decreases self.weapon_skin_data.len() - i,
        {
            if self.weapon_skin_data[i].id == id {
                proof {
                    assert(is_first(self.weapon_skin_data@, skin_has_id(id), i as int));
                    lemma_first_found(self.weapon_skin_data@, skin_has_id(id), i as int);
                }
                return Some(self.weapon_skin_data[i]);
            }
            i += 1;
        }
        proof {
            lemma_first_absent(self.weapon_skin_data@, skin_has_id(id));
        }
        None
    }
}

} // verus!
