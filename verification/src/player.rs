//! The server-side state of one player: roles, formations, inventory,
//! unlocked skins, the entity world the player is in, and the queue of
//! notifications waiting to be pushed to the client.
//!
//! Keyed collections are vectors searched from the front; `PlayerView::wf`
//! states that their keys do not repeat.
use vstd::prelude::*;
use crate::protocol::{AttributeType, NormalItem, Notification, NotificationView};
use crate::search::{first_index, is_first, lemma_first_found, lemma_first_absent};

verus! {

#[derive(Clone, Copy, Debug, PartialEq, Eq)]
pub struct BasicInfo {
    pub id: i32,
}

#[derive(Clone, Copy, Debug, PartialEq, Eq)]
pub struct RoleFormation {
    pub formation_id: i32,
    pub cur_role: i32,
    pub is_current: bool,
}

#[derive(Clone, Copy, Debug, PartialEq, Eq)]
pub struct Role {
    pub role_id: i32,
    pub level: i32,
    pub equip_weapon: i32,
    pub weapon_skin_id: i32,
}

/// A weapon held in the inventory, found by its instance id.
#[derive(Clone, Copy, Debug, PartialEq, Eq)]
pub struct InventoryWeapon {
    pub incr_id: i32,
    pub weapon_id: i32,
    pub breach_level: i32,
}

#[derive(Clone, Debug, PartialEq, Eq)]
pub struct Inventory {
    pub normal_items: Vec<NormalItem>,
    pub weapons: Vec<InventoryWeapon>,
}

#[derive(Clone, Debug, PartialEq, Eq)]
pub struct UnlockedSkins {
    pub weapon_skins: Vec<i32>,
}

#[derive(Clone, Copy, Debug, PartialEq, Eq)]
pub struct AttributeEntry {
    pub attribute_type: AttributeType,
    pub value: i32,
    pub base_value: i32,
}

/// The attribute component of an entity: its attribute map.
#[derive(Clone, Debug, PartialEq, Eq)]
pub struct AttributeComponent {
    pub attr_map: Vec<AttributeEntry>,
}

#[derive(Clone, Copy, Debug, PartialEq, Eq)]
pub struct WeaponSkin {
    pub skin_id: i32,
}

#[derive(Clone, Copy, Debug, PartialEq, Eq)]
pub struct Equip {
    pub weapon_id: i32,
    pub weapon_breach_level: i32,
}

/// An entity of the world with the components that the handlers read or change.
#[derive(Clone, Debug, PartialEq, Eq)]
pub struct Entity {
    pub entity_id: i64,
    pub config_id: i32,
    pub attribute: Option<AttributeComponent>,
    pub weapon_skin: Option<WeaponSkin>,
    pub equip: Option<Equip>,
}

#[derive(Clone, Debug, PartialEq, Eq)]
pub struct World {
    pub entities: Vec<Entity>,
}

#[derive(Clone, Debug, PartialEq, Eq)]
pub struct Player {
    pub basic_info: BasicInfo,
    pub formation_list: Vec<RoleFormation>,
    pub role_list: Vec<Role>,
    pub inventory: Inventory,
    pub unlocked_skins: UnlockedSkins,
    pub world: World,
    pub notifications: Vec<Notification>,
}

/// The player as plain sequences.
pub struct PlayerView {
    pub id: i32,
    pub formations: Seq<RoleFormation>,
    pub roles: Seq<Role>,
    pub normal_items: Seq<NormalItem>,
    pub weapons: Seq<InventoryWeapon>,
    pub unlocked_weapon_skins: Seq<i32>,
    pub entities: Seq<Entity>,
    pub notifications: Seq<NotificationView>,
}

impl View for Player {
    type V = PlayerView;

    open spec fn view(&self) -> PlayerView {
        PlayerView {
            id: self.basic_info.id,
            formations: self.formation_list@,
            roles: self.role_list@,
            normal_items: self.inventory.normal_items@,
            weapons: self.inventory.weapons@,
            unlocked_weapon_skins: self.unlocked_skins.weapon_skins@,
            entities: self.world.entities@,
            notifications: self.notifications@.map_values(|n: Notification| n@),
        }
    }
}

// ---------------------------------------------------------------------------
// Keys and lookups
// ---------------------------------------------------------------------------

/// The entity id that the world gives for a role that has no entity.
pub const NO_ENTITY_ID: i64 = -1;

pub open spec fn role_has_id(role_id: i32) -> spec_fn(Role) -> bool {
    |r: Role| r.role_id == role_id
}

pub open spec fn formation_is_current() -> spec_fn(RoleFormation) -> bool {
    |f: RoleFormation| f.is_current
}

pub open spec fn entity_has_id(entity_id: i64) -> spec_fn(Entity) -> bool {
    |e: Entity| e.entity_id == entity_id
}

pub open spec fn entity_has_config(config_id: i32) -> spec_fn(Entity) -> bool {
    |e: Entity| e.config_id == config_id
}

pub open spec fn entry_is_life() -> spec_fn(AttributeEntry) -> bool {
    |a: AttributeEntry| a.attribute_type == AttributeType::Life
}

pub open spec fn weapon_has_incr_id(incr_id: i32) -> spec_fn(InventoryWeapon) -> bool {
    |w: InventoryWeapon| w.incr_id == incr_id
}

/// `r` reports the position `f` found by a search.
pub open spec fn reports(r: Option<usize>, f: Option<int>) -> bool {
    match r {
        Some(i) => f == Some(i as int),
        None => f is None,
    }
}

/// Position of the role with `role_id`.
pub open spec fn role_position(roles: Seq<Role>, role_id: i32) -> Option<int> {
    first_index(roles, role_has_id(role_id))
}

/// Position of the formation in use.
pub open spec fn current_formation(formations: Seq<RoleFormation>) -> Option<int> {
    first_index(formations, formation_is_current())
}

/// Position of the entity with `entity_id`.
pub open spec fn entity_position(entities: Seq<Entity>, entity_id: i64) -> Option<int> {
    first_index(entities, entity_has_id(entity_id))
}

/// The entity id that the world gives for the role with `config_id`: the id
/// of the first entity with that config id, or `NO_ENTITY_ID` when there is none.
pub open spec fn entity_id_for(entities: Seq<Entity>, config_id: i32) -> i64 {
    match first_index(entities, entity_has_config(config_id)) {
        Some(i) => entities[i].entity_id,
        None => NO_ENTITY_ID,
    }
}

/// The config id of the entity with `entity_id`.
pub open spec fn config_id_of(entities: Seq<Entity>, entity_id: i64) -> Option<i32> {
    match entity_position(entities, entity_id) {
        Some(i) => Some(entities[i].config_id),
        None => None,
    }
}

/// Whether the entity with `entity_id` exists and has an attribute component.
pub open spec fn has_attribute(entities: Seq<Entity>, entity_id: i64) -> bool {
    match entity_position(entities, entity_id) {
        Some(i) => entities[i].attribute is Some,
        None => false,
    }
}

/// The current life of an attribute map, if it has a life entry.
pub open spec fn life_in(attr_map: Seq<AttributeEntry>) -> Option<i32> {
    match first_index(attr_map, entry_is_life()) {
        Some(i) => Some(attr_map[i].value),
        None => None,
    }
}

/// The current life of the entity with `entity_id`, when it exists, has an
/// attribute component and a life entry in it.
pub open spec fn life_of(entities: Seq<Entity>, entity_id: i64) -> Option<i32> {
    match entity_position(entities, entity_id) {
        Some(i) => match entities[i].attribute {
            Some(c) => life_in(c.attr_map@),
            None => None,
        },
        None => None,
    }
}

/// The weapon with instance id `incr_id`, as its weapon id and breach level.
pub open spec fn weapon_equip_info(weapons: Seq<InventoryWeapon>, incr_id: i32) -> Option<(i32, i32)> {
    match first_index(weapons, weapon_has_incr_id(incr_id)) {
        Some(i) => Some((weapons[i].weapon_id, weapons[i].breach_level)),
        None => None,
    }
}

/// `entities` with the weapon skin component of the entity `entity_id` set to
/// `skin_id`, where that entity exists and has the component.
pub open spec fn with_weapon_skin(entities: Seq<Entity>, entity_id: i64, skin_id: i32) -> Seq<Entity> {
    match entity_position(entities, entity_id) {
        Some(i) => if entities[i].weapon_skin is Some {
            entities.update(i, Entity { weapon_skin: Some(WeaponSkin { skin_id }), ..entities[i] })
        } else {
            entities
        },
        None => entities,
    }
}

/// `entities` with the equip component of the entity `entity_id` set to the
/// weapon and breach level given, where that entity exists and has the component.
pub open spec fn with_equip(entities: Seq<Entity>, entity_id: i64, weapon_id: i32, breach: i32) -> Seq<Entity> {
    match entity_position(entities, entity_id) {
        Some(i) => if entities[i].equip is Some {
            entities.update(
                i,
                Entity { equip: Some(Equip { weapon_id, weapon_breach_level: breach }), ..entities[i] },
            )
        } else {
            entities
        },
        None => entities,
    }
}

impl PlayerView {
    /// Role ids and entity ids do not repeat, and entity ids fit in an `i32`.
    pub open spec fn wf(self) -> bool {
        &&& forall|i: int, j: int|
            0 <= i < j < self.roles.len() ==> #[trigger] self.roles[i].role_id != #[trigger] self.roles[j].role_id
        &&& forall|i: int, j: int|
            0 <= i < j < self.entities.len() ==> #[trigger] self.entities[i].entity_id
                != #[trigger] self.entities[j].entity_id
        &&& forall|i: int|
            0 <= i < self.entities.len() ==> i32::MIN <= #[trigger] self.entities[i].entity_id <= i32::MAX
    }

    /// The keys that `wf` speaks of: role ids and entity ids, position by position.
    pub open spec fn same_keys(self, other: PlayerView) -> bool {
        &&& self.roles.len() == other.roles.len()
        &&& forall|i: int| 0 <= i < self.roles.len() ==> #[trigger] self.roles[i].role_id == other.roles[i].role_id
        &&& self.entities.len() == other.entities.len()
        &&& forall|i: int|
            0 <= i < self.entities.len() ==> #[trigger] self.entities[i].entity_id == other.entities[i].entity_id
    }
}

/// Keeping every key in place keeps well-formedness.
pub proof fn lemma_same_keys_wf(a: PlayerView, b: PlayerView)
    requires
        a.wf(),
        a.same_keys(b),
    ensures
        b.wf(),
{
    assert forall|i: int, j: int| 0 <= i < j < b.roles.len() implies #[trigger] b.roles[i].role_id
        != #[trigger] b.roles[j].role_id by {
        assert(a.roles[i].role_id == b.roles[i].role_id);
        assert(a.roles[j].role_id == b.roles[j].role_id);
    }
    assert forall|i: int, j: int| 0 <= i < j < b.entities.len() implies #[trigger] b.entities[i].entity_id
        != #[trigger] b.entities[j].entity_id by {
        assert(a.entities[i].entity_id == b.entities[i].entity_id);
        assert(a.entities[j].entity_id == b.entities[j].entity_id);
    }
    assert forall|i: int| 0 <= i < b.entities.len() implies i32::MIN <= #[trigger] b.entities[i].entity_id
        <= i32::MAX by {
        assert(a.entities[i].entity_id == b.entities[i].entity_id);
    }
}

impl AttributeComponent {
    /// The current value of the life attribute, if the map has one.
    pub fn get_life(&self) -> (r: Option<i32>)
        ensures
            r == life_in(self.attr_map@),
    {
        let mut i: usize = 0;
        while i < self.attr_map.len()
            invariant
                i <= self.attr_map@.len(),
                forall|j: int| 0 <= j < i ==> !entry_is_life()(#[trigger] self.attr_map@[j]),
            decreases self.attr_map.len() - i,
        {
            match self.attr_map[i].attribute_type {
                AttributeType::Life => {
                    proof {
                        assert(is_first(self.attr_map@, entry_is_life(), i as int));
                        lemma_first_found(self.attr_map@, entry_is_life(), i as int);
                    }
                    return Some(self.attr_map[i].value);
                },
                AttributeType::Other(_) => {},
            }
            i += 1;
        }
        proof {
            lemma_first_absent(self.attr_map@, entry_is_life());
        }
        None
    }
}

impl World {
    /// Position of the entity with `entity_id`.
    pub fn find_entity(&self, entity_id: i64) -> (r: Option<usize>)
        ensures
            reports(r, entity_position(self.entities@, entity_id)),
            r matches Some(i) ==> i < self.entities@.len(),
    {
        let mut i: usize = 0;
        while i < self.entities.len()
            invariant
                i <= self.entities@.len(),
                forall|j: int| 0 <= j < i ==> !entity_has_id(entity_id)(#[trigger] self.entities@[j]),
            decreases self.entities.len() - i,
        {
            if self.entities[i].entity_id == entity_id {
                proof {
                    assert(is_first(self.entities@, entity_has_id(entity_id), i as int));
                    lemma_first_found(self.entities@, entity_has_id(entity_id), i as int);
                }
                return Some(i);
            }
            i += 1;
        }
        proof {
            lemma_first_absent(self.entities@, entity_has_id(entity_id));
        }
        None
    }

    /// The entity id of the entity that stands for the role `config_id`, or
    /// `NO_ENTITY_ID` when there is none.
    pub fn get_entity_id(&self, config_id: i32) -> (r: i64)
        ensures
            r == entity_id_for(self.entities@, config_id),
    {
        let mut i: usize = 0;
        while i < self.entities.len()
            invariant
                i <= self.entities@.len(),
                forall|j: int| 0 <= j < i ==> !entity_has_config(config_id)(#[trigger] self.entities@[j]),
            decreases self.entities.len() - i,
        {
            if self.entities[i].config_id == config_id {
                proof {
                    assert(is_first(self.entities@, entity_has_config(config_id), i as int));
                    lemma_first_found(self.entities@, entity_has_config(config_id), i as int);
                }
                return self.entities[i].entity_id;
            }
            i += 1;
        }
        proof {
            lemma_first_absent(self.entities@, entity_has_config(config_id));
        }
        NO_ENTITY_ID
    }

    /// The config id of the entity with `entity_id`.
    pub fn get_config_id(&self, entity_id: i64) -> (r: Option<i32>)
        ensures
            r == config_id_of(self.entities@, entity_id),
    {
        match self.find_entity(entity_id) {
            Some(i) => Some(self.entities[i].config_id),
            None => None,
        }
    }

    /// Sets the skin of the weapon skin component of the entity `entity_id`,
    /// where that entity has one.
    pub fn set_weapon_skin(&mut self, entity_id: i64, skin_id: i32)
        ensures
            final(self).entities@ == with_weapon_skin(old(self).entities@, entity_id, skin_id),
    {
        match self.find_entity(entity_id) {
            Some(i) => {
                if self.entities[i].weapon_skin.is_some() {
                    let mut e = self.entities.remove(i);
                    e.weapon_skin = Some(WeaponSkin { skin_id });
                    self.entities.insert(i, e);
                    proof {
                        assert(self.entities@ =~= with_weapon_skin(old(self).entities@, entity_id, skin_id));
                    }
                }
            },
            None => {},
        }
    }

    /// Sets the weapon and breach level of the equip component of the entity
    /// `entity_id`, where that entity has one.
    pub fn set_equip(&mut self, entity_id: i64, weapon_id: i32, breach: i32)
        ensures
            final(self).entities@ == with_equip(old(self).entities@, entity_id, weapon_id, breach),
    {
        match self.find_entity(entity_id) {
            Some(i) => {
                if self.entities[i].equip.is_some() {
                    let mut e = self.entities.remove(i);
                    e.equip = Some(Equip { weapon_id, weapon_breach_level: breach });
                    self.entities.insert(i, e);
                    proof {
                        assert(self.entities@ =~= with_equip(old(self).entities@, entity_id, weapon_id, breach));
                    }
                }
            },
            None => {},
        }
    }
}

impl Inventory {
    /// The normal items held, in the order in which they are kept.
    pub fn to_normal_item_list(&self) -> (r: Vec<NormalItem>)
        ensures
            r@ == self.normal_items@,
    {
        let mut r: Vec<NormalItem> = Vec::new();
        let mut i: usize = 0;
        while i < self.normal_items.len()
            invariant
                i <= self.normal_items@.len(),
                r@ == self.normal_items@.take(i as int),
            decreases self.normal_items.len() - i,
        {
            r.push(self.normal_items[i]);
            i += 1;
            proof {
                assert(r@ =~= self.normal_items@.take(i as int));
            }
        }
        proof {
            assert(r@ =~= self.normal_items@);
        }
        r
    }

    /// The weapon id and breach level of the weapon with instance id `incr_id`.
    pub fn get_weapon_equip_info(&self, incr_id: i32) -> (r: Option<(i32, i32)>)
        ensures
            r == weapon_equip_info(self.weapons@, incr_id),
    {
        let mut i: usize = 0;
        while i < self.weapons.len()
            invariant
                i <= self.weapons@.len(),
                forall|j: int| 0 <= j < i ==> !weapon_has_incr_id(incr_id)(#[trigger] self.weapons@[j]),
            decreases self.weapons.len() - i,
        {
            if self.weapons[i].incr_id == incr_id {
                proof {
                    assert(is_first(self.weapons@, weapon_has_incr_id(incr_id), i as int));
                    lemma_first_found(self.weapons@, weapon_has_incr_id(incr_id), i as int);
                }
                return Some((self.weapons[i].weapon_id, self.weapons[i].breach_level));
            }
            i += 1;
        }
        proof {
            lemma_first_absent(self.weapons@, weapon_has_incr_id(incr_id));
        }
        None
    }
}

impl Player {
    /// Position of the role with `role_id` in the role list.
    pub fn find_role(&self, role_id: i32) -> (r: Option<usize>)
        ensures
            reports(r, role_position(self.role_list@, role_id)),
            r matches Some(i) ==> i < self.role_list@.len(),
    {
        let mut i: usize = 0;
        while i < self.role_list.len()
            invariant
                i <= self.role_list@.len(),
                forall|j: int| 0 <= j < i ==> !role_has_id(role_id)(#[trigger] self.role_list@[j]),
            decreases self.role_list.len() - i,
        {
            if self.role_list[i].role_id == role_id {
                proof {
                    assert(is_first(self.role_list@, role_has_id(role_id), i as int));
                    lemma_first_found(self.role_list@, role_has_id(role_id), i as int);
                }
                return Some(i);
            }
            i += 1;
        }
        proof {
            lemma_first_absent(self.role_list@, role_has_id(role_id));
        }
        None
    }

    /// Position of the formation in use.
    pub fn find_current_formation(&self) -> (r: Option<usize>)
        ensures
            reports(r, current_formation(self.formation_list@)),
            r matches Some(i) ==> i < self.formation_list@.len(),
    {
        let mut i: usize = 0;
        while i < self.formation_list.len()
            invariant
                i <= self.formation_list@.len(),
                forall|j: int| 0 <= j < i ==> !formation_is_current()(#[trigger] self.formation_list@[j]),
            decreases self.formation_list.len() - i,
        {
            if self.formation_list[i].is_current {
                proof {
                    assert(is_first(self.formation_list@, formation_is_current(), i as int));
                    lemma_first_found(self.formation_list@, formation_is_current(), i as int);
                }
                return Some(i);
            }
            i += 1;
        }
        proof {
            lemma_first_absent(self.formation_list@, formation_is_current());
        }
        None
    }

    /// Queues `notification` for the client.
    pub fn notify(&mut self, notification: Notification)
        ensures
            final(self)@ == (PlayerView { notifications: old(self)@.notifications.push(notification@), ..old(self)@ }),
    {
        self.notifications.push(notification);
        proof {
            assert(self@.notifications =~= old(self)@.notifications.push(notification@));
        }
    }
}

// ---------------------------------------------------------------------------
// What the lookups give, in terms of the collections
// ---------------------------------------------------------------------------

/// The role lookup gives the first role with the id, and nothing when no
/// role has it.
pub proof fn lemma_role_position_meaning(roles: Seq<Role>, role_id: i32)
    ensures
        match role_position(roles, role_id) {
            Some(i) => {
                &&& 0 <= i < roles.len()
                &&& roles[i].role_id == role_id
                &&& forall|j: int| 0 <= j < i ==> (#[trigger] roles[j]).role_id != role_id
            },
            None => forall|j: int| 0 <= j < roles.len() ==> (#[trigger] roles[j]).role_id != role_id,
        },
{
    crate::search::lemma_first_index_meaning(roles, role_has_id(role_id));
}

/// The entity given for a role is the first entity with the role's config
/// id, and `NO_ENTITY_ID` when there is none.
pub proof fn lemma_entity_id_for_meaning(entities: Seq<Entity>, config_id: i32)
    ensures
        (forall|j: int| 0 <= j < entities.len() ==> (#[trigger] entities[j]).config_id != config_id)
            ==> entity_id_for(entities, config_id) == NO_ENTITY_ID,
        forall|i: int| 0 <= i < entities.len() && (#[trigger] entities[i]).config_id == config_id
            && (forall|j: int| 0 <= j < i ==> (#[trigger] entities[j]).config_id != config_id)
            ==> entity_id_for(entities, config_id) == entities[i].entity_id,
{
    crate::search::lemma_first_index_meaning(entities, entity_has_config(config_id));
    assert forall|i: int| 0 <= i < entities.len() && (#[trigger] entities[i]).config_id == config_id
        && (forall|j: int| 0 <= j < i ==> (#[trigger] entities[j]).config_id != config_id)
        implies entity_id_for(entities, config_id) == entities[i].entity_id by {
        assert(is_first(entities, entity_has_config(config_id), i));
        lemma_first_found(entities, entity_has_config(config_id), i);
    }
}

/// The weapon lookup gives the weapon id and breach level of the first
/// weapon with the instance id, and nothing when no weapon has it.
pub proof fn lemma_weapon_equip_info_meaning(weapons: Seq<InventoryWeapon>, incr_id: i32)
    ensures
        (forall|j: int| 0 <= j < weapons.len() ==> (#[trigger] weapons[j]).incr_id != incr_id)
            <==> weapon_equip_info(weapons, incr_id) is None,
        forall|i: int| 0 <= i < weapons.len() && (#[trigger] weapons[i]).incr_id == incr_id
            && (forall|j: int| 0 <= j < i ==> (#[trigger] weapons[j]).incr_id != incr_id)
            ==> weapon_equip_info(weapons, incr_id) == Some((weapons[i].weapon_id, weapons[i].breach_level)),
{
    crate::search::lemma_first_index_meaning(weapons, weapon_has_incr_id(incr_id));
    assert forall|i: int| 0 <= i < weapons.len() && (#[trigger] weapons[i]).incr_id == incr_id
        && (forall|j: int| 0 <= j < i ==> (#[trigger] weapons[j]).incr_id != incr_id)
        implies weapon_equip_info(weapons, incr_id) == Some((weapons[i].weapon_id, weapons[i].breach_level)) by {
        assert(is_first(weapons, weapon_has_incr_id(incr_id), i));
        lemma_first_found(weapons, weapon_has_incr_id(incr_id), i);
    }
}

/// Setting a skin changes only the first entity with the id, and only when
/// it has a skin component, which then shows the skin.
pub proof fn lemma_weapon_skin_meaning(entities: Seq<Entity>, entity_id: i64, skin_id: i32)
    ensures
        with_weapon_skin(entities, entity_id, skin_id).len() == entities.len(),
        (forall|j: int| 0 <= j < entities.len() ==> (#[trigger] entities[j]).entity_id != entity_id)
            ==> with_weapon_skin(entities, entity_id, skin_id) == entities,
        forall|i: int| 0 <= i < entities.len() && (#[trigger] entities[i]).entity_id == entity_id
            && (forall|j: int| 0 <= j < i ==> (#[trigger] entities[j]).entity_id != entity_id)
            ==> {
                &&& with_weapon_skin(entities, entity_id, skin_id)[i] == if entities[i].weapon_skin is Some {
                    Entity { weapon_skin: Some(WeaponSkin { skin_id }), ..entities[i] }
                } else {
                    entities[i]
                }
                &&& forall|j: int| 0 <= j < entities.len() && j != i
                    ==> #[trigger] with_weapon_skin(entities, entity_id, skin_id)[j] == entities[j]
            },
{
    crate::search::lemma_first_index_meaning(entities, entity_has_id(entity_id));
    assert forall|i: int| 0 <= i < entities.len() && (#[trigger] entities[i]).entity_id == entity_id
        && (forall|j: int| 0 <= j < i ==> (#[trigger] entities[j]).entity_id != entity_id)
        implies {
            &&& with_weapon_skin(entities, entity_id, skin_id)[i] == if entities[i].weapon_skin is Some {
                Entity { weapon_skin: Some(WeaponSkin { skin_id }), ..entities[i] }
            } else {
                entities[i]
            }
            &&& forall|j: int| 0 <= j < entities.len() && j != i
                ==> #[trigger] with_weapon_skin(entities, entity_id, skin_id)[j] == entities[j]
        } by {
        assert(is_first(entities, entity_has_id(entity_id), i));
        lemma_first_found(entities, entity_has_id(entity_id), i);
    }
}

/// Setting a weapon changes only the first entity with the id, and only when
/// it has an equip component, which then shows the weapon.
pub proof fn lemma_equip_meaning(entities: Seq<Entity>, entity_id: i64, weapon_id: i32, breach: i32)
    ensures
        with_equip(entities, entity_id, weapon_id, breach).len() == entities.len(),
        (forall|j: int| 0 <= j < entities.len() ==> (#[trigger] entities[j]).entity_id != entity_id)
            ==> with_equip(entities, entity_id, weapon_id, breach) == entities,
        forall|i: int| 0 <= i < entities.len() && (#[trigger] entities[i]).entity_id == entity_id
            && (forall|j: int| 0 <= j < i ==> (#[trigger] entities[j]).entity_id != entity_id)
            ==> {
                &&& with_equip(entities, entity_id, weapon_id, breach)[i] == if entities[i].equip is Some {
                    Entity { equip: Some(Equip { weapon_id, weapon_breach_level: breach }), ..entities[i] }
                } else {
                    entities[i]
                }
                &&& forall|j: int| 0 <= j < entities.len() && j != i
                    ==> #[trigger] with_equip(entities, entity_id, weapon_id, breach)[j] == entities[j]
            },
{
    crate::search::lemma_first_index_meaning(entities, entity_has_id(entity_id));
    assert forall|i: int| 0 <= i < entities.len() && (#[trigger] entities[i]).entity_id == entity_id
        && (forall|j: int| 0 <= j < i ==> (#[trigger] entities[j]).entity_id != entity_id)
        implies {
            &&& with_equip(entities, entity_id, weapon_id, breach)[i] == if entities[i].equip is Some {
                Entity { equip: Some(Equip { weapon_id, weapon_breach_level: breach }), ..entities[i] }
            } else {
                entities[i]
            }
            &&& forall|j: int| 0 <= j < entities.len() && j != i
                ==> #[trigger] with_equip(entities, entity_id, weapon_id, breach)[j] == entities[j]
        } by {
        assert(is_first(entities, entity_has_id(entity_id), i));
        lemma_first_found(entities, entity_has_id(entity_id), i);
    }
}

} // verus!
