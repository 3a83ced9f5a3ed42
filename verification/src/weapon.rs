//! Weapon skins and weapon equipment of the player's roles.
use vstd::prelude::*;
use crate::protocol::{
    EntityEquipChangeNotify, EntityEquipSkinChangeNotify, EquipComponentPb, EquipData,
    EquipTakeOnNotify, EquipTakeOnRequest, EquipTakeOnResponse, EquipWeaponSkinRequest,
    EquipWeaponSkinResponse, ErrorCode, LoadEquipData, Notification, NotificationView,
    SendEquipSkinRequest, SendEquipSkinResponse, WeaponSkinComponentPb, WeaponSkinDeleteNotify,
    WeaponSkinRequest, WeaponSkinResponse,
};
use crate::player::{
    Player, PlayerView, Role, Entity, entity_id_for, role_position, weapon_equip_info,
    with_equip, with_weapon_skin, lemma_same_keys_wf, role_has_id, entity_has_config, entity_has_id,
    entity_position, WeaponSkin,
};
use crate::search::lemma_first_congruent;
use crate::data::{GameData, weapon_skin_row};

verus! {

/// The skins of `roles` in order: one entry for each role that wears a skin
/// (a skin id other than 0).
pub open spec fn equip_list(roles: Seq<Role>) -> Seq<LoadEquipData>
    decreases roles.len(),
{
    if roles.len() == 0 {
        Seq::empty()
    } else {
        let before = equip_list(roles.drop_last());
        if roles.last().weapon_skin_id != 0 {
            before.push(LoadEquipData { role_id: roles.last().role_id, skin_id: roles.last().weapon_skin_id })
        } else {
            before
        }
    }
}

/// The notice that the entity `entity_id` shows skin `skin_id`.
pub open spec fn skin_change_notice(entity_id: i64, skin_id: i32) -> NotificationView {
    NotificationView::EntityEquipSkinChange(EntityEquipSkinChangeNotify {
        entity_id,
        weapon_skin_component_pb: Some(WeaponSkinComponentPb { weapon_skin_id: skin_id }),
    })
}

/// The player after the role `role_id`, at position `pos`, puts on skin
/// `skin_id`: the role records it, the role's entity shows it (where it has a
/// skin component), and the client is told about the entity id that the
/// world gives for the role.
pub open spec fn with_role_skin(p: PlayerView, pos: int, role_id: i32, skin_id: i32) -> PlayerView {
    let entity_id = entity_id_for(p.entities, role_id);
    PlayerView {
        roles: p.roles.update(pos, Role { weapon_skin_id: skin_id, ..p.roles[pos] }),
        entities: with_weapon_skin(p.entities, entity_id, skin_id),
        notifications: p.notifications.push(skin_change_notice(entity_id, skin_id)),
        ..p
    }
}

/// Why equipping `d` is refused, if it is.
pub open spec fn equip_skin_error(p: PlayerView, data: GameData, d: LoadEquipData) -> Option<ErrorCode> {
    if role_position(p.roles, d.role_id) is None {
        Some(ErrorCode::NotValidRole)
    } else if weapon_skin_row(data.weapon_skin_data@, d.skin_id) is None {
        Some(ErrorCode::WeaponSkinDataErr)
    } else if !p.unlocked_weapon_skins.contains(d.skin_id) {
        Some(ErrorCode::WeaponSkinUnLockErr)
    } else {
        None
    }
}

/// The player after the role `role_id`, at position `pos`, takes off its
/// skin: the role and its entity show none, the client is told about the
/// entity, then that the old skin was removed.
pub open spec fn without_role_skin(p: PlayerView, pos: int, role_id: i32) -> PlayerView {
    let entity_id = entity_id_for(p.entities, role_id);
    PlayerView {
        roles: p.roles.update(pos, Role { weapon_skin_id: 0, ..p.roles[pos] }),
        entities: with_weapon_skin(p.entities, entity_id, 0),
        notifications: p.notifications.push(skin_change_notice(entity_id, 0)).push(
            NotificationView::WeaponSkinDelete(WeaponSkinDeleteNotify { role_id, skin_id: p.roles[pos].weapon_skin_id }),
        ),
        ..p
    }
}

/// The notice that the entity `entity_id` carries weapon `weapon_id` at breach level `breach`.
pub open spec fn equip_change_notice(entity_id: i64, weapon_id: i32, breach: i32) -> NotificationView {
    NotificationView::EntityEquipChange(EntityEquipChangeNotify {
        entity_id,
        equip_component: Some(EquipComponentPb { weapon_id, weapon_breach_level: breach }),
    })
}

/// The player after the role at `pos` takes up the weapon `weapon_id` at
/// breach level `breach`: the role records it, the role's entity shows it
/// (where it has an equip component), and the client is told about the
/// entity id that the world gives for the role.
pub open spec fn with_role_weapon(p: PlayerView, pos: int, role_id: i32, weapon_id: i32, breach: i32) -> PlayerView {
    let entity_id = entity_id_for(p.entities, role_id);
    PlayerView {
        roles: p.roles.update(pos, Role { equip_weapon: weapon_id, ..p.roles[pos] }),
        entities: with_equip(p.entities, entity_id, weapon_id, breach),
        notifications: p.notifications.push(equip_change_notice(entity_id, weapon_id, breach)),
        ..p
    }
}

/// The player after the client is told that the equipment `d` is taken on.
pub open spec fn with_take_on_notice(p: PlayerView, d: EquipData) -> PlayerView {
    PlayerView { notifications: p.notifications.push(NotificationView::EquipTakeOn(seq![d])), ..p }
}

/// The skins that the player's roles wear, in the order of the roles.
fn collect_equip_list(player: &Player) -> (r: Vec<LoadEquipData>)
    ensures
        r@ == equip_list(player@.roles),
{
    let ghost roles = player.role_list@;
    let mut list: Vec<LoadEquipData> = Vec::new();
    let n = player.role_list.len();
    let mut i: usize = 0;
    proof {
        assert(roles.take(0) =~= Seq::<Role>::empty());
    }
    while i < n
        invariant
            n == roles.len(),
            roles == player.role_list@,
            i <= n,
            list@ == equip_list(roles.take(i as int)),
        decreases n - i,
    {
        let role = player.role_list[i];
        proof {
            assert(roles.take(i + 1).drop_last() =~= roles.take(i as int));
        }
        if role.weapon_skin_id != 0 {
            list.push(LoadEquipData { role_id: role.role_id, skin_id: role.weapon_skin_id });
        }
        i = i + 1;
    }
    proof {
        assert(roles.take(n as int) =~= roles);
    }
    list
}

/// Whether skin `skin_id` is among the unlocked weapon skins.
fn is_weapon_skin_unlocked(player: &Player, skin_id: i32) -> (r: bool)
    ensures
        r == player@.unlocked_weapon_skins.contains(skin_id),
{
    let mut i: usize = 0;
    while i < player.unlocked_skins.weapon_skins.len()
        invariant
            i <= player.unlocked_skins.weapon_skins@.len(),
            forall|j: int| 0 <= j < i ==> player.unlocked_skins.weapon_skins@[j] != skin_id,
        decreases player.unlocked_skins.weapon_skins.len() - i,
    {
        if player.unlocked_skins.weapon_skins[i] == skin_id {
            proof {
                assert(player@.unlocked_weapon_skins[i as int] == skin_id);
            }
            return true;
        }
        i = i + 1;
    }
    false
}

/// Sets the skin of the role at `pos`, shows it on the role's entity and
/// tells the client about the entity.
fn put_on_skin(player: &mut Player, pos: usize, role_id: i32, skin_id: i32)
    requires
        pos < old(player).role_list@.len(),
    ensures
        final(player)@ == with_role_skin(old(player)@, pos as int, role_id, skin_id),
{
    let mut role = player.role_list[pos];
    role.weapon_skin_id = skin_id;
    player.role_list.set(pos, role);
    let entity_id = player.world.get_entity_id(role_id);
    player.world.set_weapon_skin(entity_id, skin_id);
    player.notify(Notification::EntityEquipSkinChange(EntityEquipSkinChangeNotify {
        entity_id,
        weapon_skin_component_pb: Some(WeaponSkinComponentPb { weapon_skin_id: skin_id }),
    }));
    proof {
        assert(player@.roles =~= with_role_skin(old(player)@, pos as int, role_id, skin_id).roles);
        assert(player@.notifications =~= with_role_skin(old(player)@, pos as int, role_id, skin_id).notifications);
    }
}

/// Lists the skins that the player's roles wear.
pub fn on_weapon_skin_request(player: &Player, _request: WeaponSkinRequest, response: &mut WeaponSkinResponse)
    ensures
        final(response).equip_list@ == equip_list(player@.roles),
        final(response).error_code == ErrorCode::Success,
{
    response.equip_list = collect_equip_list(player);
    response.error_code = ErrorCode::Success;
}

/// Puts the skin of `request.data` on its role, when the role exists, the
/// skin is in the skin table and the player has unlocked it; then answers
/// with the skins of all roles. A request without data is not answered.
pub fn on_equip_weapon_skin_request(
    player: &mut Player,
    request: EquipWeaponSkinRequest,
    data: &GameData,
    response: &mut EquipWeaponSkinResponse,
)
    ensures
        old(player)@.wf() ==> final(player)@.wf(),
        match request.data {
            None => final(player)@ == old(player)@ && *final(response) == *old(response),
            Some(d) => match equip_skin_error(old(player)@, *data, d) {
                Some(e) => {
                    &&& final(player)@ == old(player)@
                    &&& final(response).error_code == e
                    &&& final(response).data_list == old(response).data_list
                },
                None => {
                    &&& final(player)@ == with_role_skin(
                        old(player)@,
                        role_position(old(player)@.roles, d.role_id).unwrap(),
                        d.role_id,
                        d.skin_id,
                    )
                    &&& final(response).data_list@ == equip_list(final(player)@.roles)
                    &&& final(response).error_code == ErrorCode::Success
                },
            },
        },
{
    let equip_data = match request.data {
        Some(d) => d,
        None => {
            return;
        },
    };
    let pos = match player.find_role(equip_data.role_id) {
        Some(pos) => pos,
        None => {
            response.error_code = ErrorCode::NotValidRole;
            return;
        },
    };
    let skin_data = match data.find_weapon_skin_data(equip_data.skin_id) {
        Some(s) => s,
        None => {
            response.error_code = ErrorCode::WeaponSkinDataErr;
            return;
        },
    };
    if !is_weapon_skin_unlocked(player, skin_data.id) {
        response.error_code = ErrorCode::WeaponSkinUnLockErr;
        return;
    }
    put_on_skin(player, pos, equip_data.role_id, equip_data.skin_id);
    response.data_list = collect_equip_list(player);
    response.error_code = ErrorCode::Success;
    proof {
        lemma_role_skin_keys(old(player)@, pos as int, equip_data.role_id, equip_data.skin_id);
        if old(player)@.wf() {
            lemma_same_keys_wf(old(player)@, player@);
        }
    }
}

/// Takes the skin off the role `request.role_id`, when it exists.
pub fn on_send_equip_skin_request(player: &mut Player, request: SendEquipSkinRequest, response: &mut SendEquipSkinResponse)
    ensures
        old(player)@.wf() ==> final(player)@.wf(),
        match role_position(old(player)@.roles, request.role_id) {
            None => final(player)@ == old(player)@ && final(response).error_code == ErrorCode::NotValidRole,
            Some(pos) => {
                &&& final(player)@ == without_role_skin(old(player)@, pos, request.role_id)
                &&& final(response).error_code == ErrorCode::Success
            },
        },
{
    let pos = match player.find_role(request.role_id) {
        Some(pos) => pos,
        None => {
            response.error_code = ErrorCode::NotValidRole;
            return;
        },
    };
    let old_skin_id = player.role_list[pos].weapon_skin_id;
    put_on_skin(player, pos, request.role_id, 0);
    player.notify(Notification::WeaponSkinDelete(WeaponSkinDeleteNotify { role_id: request.role_id, skin_id: old_skin_id }));
    response.error_code = ErrorCode::Success;
    proof {
        assert(player@.notifications =~= without_role_skin(old(player)@, pos as int, request.role_id).notifications);
        lemma_role_skin_keys(old(player)@, pos as int, request.role_id, 0);
        if old(player)@.wf() {
            lemma_same_keys_wf(old(player)@, player@);
        }
    }
}

/// Tells the client that the equipment of `request.data` is taken on, then
/// gives its role the weapon of the inventory with that instance id, when
/// the role and the weapon exist, and answers with the equipment. A request
/// without data is not answered.
pub fn on_equip_take_on_request(player: &mut Player, request: EquipTakeOnRequest, response: &mut EquipTakeOnResponse)
    ensures
        old(player)@.wf() ==> final(player)@.wf(),
        match request.data {
            None => final(player)@ == old(player)@ && *final(response) == *old(response),
            Some(d) => {
                let told = with_take_on_notice(old(player)@, d);
                match role_position(old(player)@.roles, d.role_id) {
                    None => {
                        &&& final(player)@ == told
                        &&& final(response).error_code == ErrorCode::NotValidRole
                        &&& final(response).data_list == old(response).data_list
                    },
                    Some(pos) => match weapon_equip_info(old(player)@.weapons, d.equip_inc_id) {
                        None => {
                            &&& final(player)@ == told
                            &&& final(response).error_code == ErrorCode::ErrItemNotFound
                            &&& final(response).data_list == old(response).data_list
                        },
                        Some((weapon_id, breach)) => {
                            &&& final(player)@ == with_role_weapon(told, pos, d.role_id, weapon_id, breach)
                            &&& final(response).data_list@ == seq![d]
                            &&& final(response).error_code == ErrorCode::Success
                        },
                    },
                }
            },
        },
{
    let equip_data = match request.data {
        Some(d) => d,
        None => {
            return;
        },
    };
    let mut told: Vec<EquipData> = Vec::new();
    told.push(equip_data);
    player.notify(Notification::EquipTakeOn(EquipTakeOnNotify { data_list: told }));
    let ghost after_notice = player@;
    proof {
        assert(after_notice.notifications =~= old(player)@.notifications.push(NotificationView::EquipTakeOn(seq![equip_data])));
        lemma_same_keys_wf_notice(old(player)@, after_notice);
    }
    let pos = match player.find_role(equip_data.role_id) {
        Some(pos) => pos,
        None => {
            response.error_code = ErrorCode::NotValidRole;
            return;
        },
    };
    let (weapon_id, breach) = match player.inventory.get_weapon_equip_info(equip_data.equip_inc_id) {
        Some(info) => info,
        None => {
            response.error_code = ErrorCode::ErrItemNotFound;
            return;
        },
    };
    let mut role = player.role_list[pos];
    role.equip_weapon = weapon_id;
    player.role_list.set(pos, role);
    let entity_id = player.world.get_entity_id(equip_data.role_id);
    player.world.set_equip(entity_id, weapon_id, breach);
    player.notify(Notification::EntityEquipChange(EntityEquipChangeNotify {
        entity_id,
        equip_component: Some(EquipComponentPb { weapon_id, weapon_breach_level: breach }),
    }));
    let mut data_list: Vec<EquipData> = Vec::new();
    data_list.push(equip_data);
    response.data_list = data_list;
    response.error_code = ErrorCode::Success;
    proof {
        let expected = with_role_weapon(after_notice, pos as int, equip_data.role_id, weapon_id, breach);
        assert(player@.roles =~= expected.roles);
        assert(player@.notifications =~= expected.notifications);
        assert(response.data_list@ =~= seq![equip_data]);
        lemma_role_weapon_keys(after_notice, pos as int, equip_data.role_id, weapon_id, breach);
        if old(player)@.wf() {
            lemma_same_keys_wf(after_notice, player@);
        }
    }
}

// ---------------------------------------------------------------------------
// Lemmas and laws
// ---------------------------------------------------------------------------

/// Changing a skin keeps every role id and entity id in place.
proof fn lemma_role_skin_keys(p: PlayerView, pos: int, role_id: i32, skin_id: i32)
    requires
        0 <= pos < p.roles.len(),
    ensures
        p.same_keys(with_role_skin(p, pos, role_id, skin_id)),
        p.same_keys(without_role_skin(p, pos, role_id)),
{
    lemma_skin_entities_keys(p.entities, entity_id_for(p.entities, role_id), skin_id);
    lemma_skin_entities_keys(p.entities, entity_id_for(p.entities, role_id), 0);
}

proof fn lemma_skin_entities_keys(entities: Seq<Entity>, entity_id: i64, skin_id: i32)
    ensures
        with_weapon_skin(entities, entity_id, skin_id).len() == entities.len(),
        forall|i: int| 0 <= i < entities.len() ==> {
            &&& #[trigger] with_weapon_skin(entities, entity_id, skin_id)[i].entity_id == entities[i].entity_id
            &&& with_weapon_skin(entities, entity_id, skin_id)[i].config_id == entities[i].config_id
        },
{
}

/// Changing a weapon keeps every role id and entity id in place.
proof fn lemma_role_weapon_keys(p: PlayerView, pos: int, role_id: i32, weapon_id: i32, breach: i32)
    requires
        0 <= pos < p.roles.len(),
    ensures
        p.same_keys(with_role_weapon(p, pos, role_id, weapon_id, breach)),
{
}

/// Queuing a notification keeps every key in place.
proof fn lemma_same_keys_wf_notice(p: PlayerView, q: PlayerView)
    requires
        q == (PlayerView { notifications: q.notifications, ..p }),
    ensures
        p.same_keys(q),
{
}

/// The skin listing holds exactly the roles that wear a skin, each with its
/// skin: every entry comes from such a role, and every such role has an entry.
pub proof fn lemma_equip_list_members(roles: Seq<Role>)
    ensures
        forall|j: int| 0 <= j < equip_list(roles).len() ==>
            exists|i: int| #![trigger roles[i]] 0 <= i < roles.len()
                && roles[i].role_id == (#[trigger] equip_list(roles)[j]).role_id
                && roles[i].weapon_skin_id == equip_list(roles)[j].skin_id
                && roles[i].weapon_skin_id != 0,
        forall|i: int| 0 <= i < roles.len() && (#[trigger] roles[i]).weapon_skin_id != 0 ==>
            equip_list(roles).contains(LoadEquipData { role_id: roles[i].role_id, skin_id: roles[i].weapon_skin_id }),
    decreases roles.len(),
{
    if roles.len() > 0 {
        let prefix = roles.drop_last();
        lemma_equip_list_members(prefix);
        let list = equip_list(roles);
        let before = equip_list(prefix);
        assert forall|j: int| 0 <= j < list.len() implies
            exists|i: int| #![trigger roles[i]] 0 <= i < roles.len()
                && roles[i].role_id == (#[trigger] list[j]).role_id
                && roles[i].weapon_skin_id == list[j].skin_id
                && roles[i].weapon_skin_id != 0 by {
            if j < before.len() {
                assert(list[j] == before[j]);
                let i = choose|i: int| #![trigger prefix[i]] 0 <= i < prefix.len()
                    && prefix[i].role_id == before[j].role_id
                    && prefix[i].weapon_skin_id == before[j].skin_id
                    && prefix[i].weapon_skin_id != 0;
                assert(roles[i] == prefix[i]);
            } else {
                assert(roles[roles.len() - 1] == roles.last());
            }
        }
        assert forall|i: int| 0 <= i < roles.len() && (#[trigger] roles[i]).weapon_skin_id != 0 implies
            list.contains(LoadEquipData { role_id: roles[i].role_id, skin_id: roles[i].weapon_skin_id }) by {
            let e = LoadEquipData { role_id: roles[i].role_id, skin_id: roles[i].weapon_skin_id };
            if i < prefix.len() {
                assert(prefix[i] == roles[i]);
                assert(before.contains(e));
                let j = choose|j: int| 0 <= j < before.len() && before[j] == e;
                assert(list[j] == e);
            } else {
                assert(list[before.len() as int] == e);
            }
        }
    }
}

/// After a skin other than 0 is put on a role, the answer lists the role with that skin.
pub proof fn lemma_equipped_skin_listed(p: PlayerView, data: GameData, d: LoadEquipData)
    requires
        equip_skin_error(p, data, d) is None,
        d.skin_id != 0,
    ensures
        equip_list(with_role_skin(p, role_position(p.roles, d.role_id).unwrap(), d.role_id, d.skin_id).roles).contains(d),
{
    let pos = role_position(p.roles, d.role_id).unwrap();
    let q = with_role_skin(p, pos, d.role_id, d.skin_id);
    crate::search::lemma_first_found(p.roles, crate::player::role_has_id(d.role_id), pos);
    lemma_equip_list_members(q.roles);
    assert(q.roles[pos].weapon_skin_id != 0);
    assert(LoadEquipData { role_id: q.roles[pos].role_id, skin_id: q.roles[pos].weapon_skin_id } == d);
}

/// Taking the skin off a role of a well-formed player leaves that role out
/// of the skin listing.
pub proof fn lemma_removed_skin_unlisted(p: PlayerView, role_id: i32)
    requires
        p.wf(),
        role_position(p.roles, role_id) is Some,
    ensures
        forall|j: int| 0 <= j < equip_list(without_role_skin(p, role_position(p.roles, role_id).unwrap(), role_id).roles).len()
            ==> #[trigger] equip_list(without_role_skin(p, role_position(p.roles, role_id).unwrap(), role_id).roles)[j].role_id != role_id,
{
    let pos = role_position(p.roles, role_id).unwrap();
    let q = without_role_skin(p, pos, role_id);
    let list = equip_list(q.roles);
    crate::search::lemma_first_found(p.roles, crate::player::role_has_id(role_id), pos);
    lemma_equip_list_members(q.roles);
    assert forall|j: int| 0 <= j < list.len() implies #[trigger] list[j].role_id != role_id by {
        let i = choose|i: int| #![trigger q.roles[i]] 0 <= i < q.roles.len()
            && q.roles[i].role_id == list[j].role_id
            && q.roles[i].weapon_skin_id == list[j].skin_id
            && q.roles[i].weapon_skin_id != 0;
        if list[j].role_id == role_id {
            if i != pos {
                assert(q.roles[i] == p.roles[i]);
                if i < pos {
                    assert(p.roles[i].role_id != p.roles[pos].role_id);
                } else {
                    assert(p.roles[pos].role_id != p.roles[i].role_id);
                }
            }
        }
    }
}

// ---------------------------------------------------------------------------
// Lookups after an update
// ---------------------------------------------------------------------------

/// Updating a role in place, keeping its id, keeps every role lookup.
pub proof fn lemma_role_update_lookup(roles: Seq<Role>, pos: int, role: Role, role_id: i32)
    requires
        0 <= pos < roles.len(),
        role.role_id == roles[pos].role_id,
    ensures
        role_position(roles.update(pos, role), role_id) == role_position(roles, role_id),
{
    let after = roles.update(pos, role);
    assert forall|j: int| 0 <= j < roles.len() implies role_has_id(role_id)(#[trigger] roles[j])
        == role_has_id(role_id)(after[j]) by {}
    lemma_first_congruent(roles, after, role_has_id(role_id));
}

/// Entities with the same ids and config ids, position by position, give the
/// same entity for a role and the same position for an entity id.
pub proof fn lemma_entities_lookup(e1: Seq<Entity>, e2: Seq<Entity>, config_id: i32, entity_id: i64)
    requires
        e1.len() == e2.len(),
        forall|j: int| 0 <= j < e1.len() ==> {
            &&& (#[trigger] e1[j]).entity_id == e2[j].entity_id
            &&& e1[j].config_id == e2[j].config_id
        },
    ensures
        entity_id_for(e1, config_id) == entity_id_for(e2, config_id),
        entity_position(e1, entity_id) == entity_position(e2, entity_id),
{
    assert forall|j: int| 0 <= j < e1.len() implies entity_has_config(config_id)(#[trigger] e1[j])
        == entity_has_config(config_id)(e2[j]) by {}
    lemma_first_congruent(e1, e2, entity_has_config(config_id));
    assert forall|j: int| 0 <= j < e1.len() implies entity_has_id(entity_id)(#[trigger] e1[j])
        == entity_has_id(entity_id)(e2[j]) by {}
    lemma_first_congruent(e1, e2, entity_has_id(entity_id));
}

/// Setting a skin component twice leaves the second skin.
pub proof fn lemma_weapon_skin_overwrite(entities: Seq<Entity>, entity_id: i64, first: i32, second: i32)
    ensures
        with_weapon_skin(with_weapon_skin(entities, entity_id, first), entity_id, second)
            == with_weapon_skin(entities, entity_id, second),
{
    let once = with_weapon_skin(entities, entity_id, first);
    lemma_skin_entities_keys(entities, entity_id, first);
    lemma_entities_lookup(entities, once, 0, entity_id);
    match entity_position(entities, entity_id) {
        Some(i) => {
            if entities[i].weapon_skin is Some {
                assert(with_weapon_skin(once, entity_id, second) =~= with_weapon_skin(entities, entity_id, second));
            }
        },
        None => {},
    }
}

/// Setting an equip component twice leaves the second weapon.
pub proof fn lemma_equip_overwrite(entities: Seq<Entity>, entity_id: i64, w1: i32, b1: i32, w2: i32, b2: i32)
    ensures
        with_equip(with_equip(entities, entity_id, w1, b1), entity_id, w2, b2) == with_equip(entities, entity_id, w2, b2),
{
    let once = with_equip(entities, entity_id, w1, b1);
    assert forall|j: int| 0 <= j < entities.len() implies {
        &&& (#[trigger] entities[j]).entity_id == once[j].entity_id
        &&& entities[j].config_id == once[j].config_id
    } by {}
    lemma_entities_lookup(entities, once, 0, entity_id);
    match entity_position(entities, entity_id) {
        Some(i) => {
            if entities[i].equip is Some {
                assert(with_equip(once, entity_id, w2, b2) =~= with_equip(entities, entity_id, w2, b2));
            }
        },
        None => {},
    }
}

/// A skin component that shows no skin stays as it is when set to 0.
pub open spec fn shows_no_skin(entities: Seq<Entity>, entity_id: i64) -> bool {
    match entity_position(entities, entity_id) {
        Some(i) => entities[i].weapon_skin is None || entities[i].weapon_skin == Some(WeaponSkin { skin_id: 0 }),
        None => true,
    }
}

// ---------------------------------------------------------------------------
// Laws over two requests
// ---------------------------------------------------------------------------

/// Putting on the skin that a role already got from a successful request
/// succeeds again, leaves roles and entities as they were, and tells the
/// client about the same entity with the same skin once more.
pub proof fn lemma_equip_skin_idempotent(p: PlayerView, data: GameData, d: LoadEquipData)
    requires
        equip_skin_error(p, data, d) is None,
    ensures
        ({
            let pos = role_position(p.roles, d.role_id).unwrap();
            let q = with_role_skin(p, pos, d.role_id, d.skin_id);
            let r = with_role_skin(q, pos, d.role_id, d.skin_id);
            &&& equip_skin_error(q, data, d) is None
            &&& role_position(q.roles, d.role_id) == Some(pos)
            &&& r.roles == q.roles
            &&& r.entities == q.entities
            &&& r.notifications == q.notifications.push(skin_change_notice(entity_id_for(p.entities, d.role_id), d.skin_id))
        }),
{
    let pos = role_position(p.roles, d.role_id).unwrap();
    let q = with_role_skin(p, pos, d.role_id, d.skin_id);
    lemma_first_found_pos(p.roles, d.role_id);
    lemma_role_update_lookup(p.roles, pos, Role { weapon_skin_id: d.skin_id, ..p.roles[pos] }, d.role_id);
    let entity_id = entity_id_for(p.entities, d.role_id);
    lemma_skin_entities_keys(p.entities, entity_id, d.skin_id);
    lemma_entities_lookup(p.entities, q.entities, d.role_id, entity_id);
    lemma_weapon_skin_overwrite(p.entities, entity_id, d.skin_id, d.skin_id);
    assert(with_role_skin(q, pos, d.role_id, d.skin_id).roles =~= q.roles);
}

/// Equipping a skin and then taking it off puts the role and the entities
/// back as they were, when the role wore no skin before; the removal notice
/// names the skin that was put on.
pub proof fn lemma_skin_round_trip(p: PlayerView, data: GameData, d: LoadEquipData)
    requires
        equip_skin_error(p, data, d) is None,
        p.roles[role_position(p.roles, d.role_id).unwrap()].weapon_skin_id == 0,
        shows_no_skin(p.entities, entity_id_for(p.entities, d.role_id)),
    ensures
        ({
            let pos = role_position(p.roles, d.role_id).unwrap();
            let q = with_role_skin(p, pos, d.role_id, d.skin_id);
            let r = without_role_skin(q, pos, d.role_id);
            &&& role_position(q.roles, d.role_id) == Some(pos)
            &&& r.roles == p.roles
            &&& r.entities == p.entities
            &&& r.notifications.last() == NotificationView::WeaponSkinDelete(
                WeaponSkinDeleteNotify { role_id: d.role_id, skin_id: d.skin_id },
            )
        }),
{
    let pos = role_position(p.roles, d.role_id).unwrap();
    let q = with_role_skin(p, pos, d.role_id, d.skin_id);
    lemma_first_found_pos(p.roles, d.role_id);
    lemma_role_update_lookup(p.roles, pos, Role { weapon_skin_id: d.skin_id, ..p.roles[pos] }, d.role_id);
    let entity_id = entity_id_for(p.entities, d.role_id);
    lemma_skin_entities_keys(p.entities, entity_id, d.skin_id);
    lemma_entities_lookup(p.entities, q.entities, d.role_id, entity_id);
    lemma_weapon_skin_overwrite(p.entities, entity_id, d.skin_id, 0);
    match entity_position(p.entities, entity_id) {
        Some(i) => {
            assert(with_weapon_skin(p.entities, entity_id, 0) =~= p.entities);
        },
        None => {},
    }
    assert(without_role_skin(q, pos, d.role_id).roles =~= p.roles);
}

/// Taking off a skin twice: the second request succeeds, leaves roles and
/// entities as the first left them, and reports skin 0 as removed.
pub proof fn lemma_take_off_idempotent(p: PlayerView, role_id: i32)
    requires
        role_position(p.roles, role_id) is Some,
    ensures
        ({
            let pos = role_position(p.roles, role_id).unwrap();
            let q = without_role_skin(p, pos, role_id);
            let r = without_role_skin(q, pos, role_id);
            &&& role_position(q.roles, role_id) == Some(pos)
            &&& r.roles == q.roles
            &&& r.entities == q.entities
            &&& r.notifications.last() == NotificationView::WeaponSkinDelete(WeaponSkinDeleteNotify { role_id, skin_id: 0 })
        }),
{
    let pos = role_position(p.roles, role_id).unwrap();
    let q = without_role_skin(p, pos, role_id);
    lemma_first_found_pos(p.roles, role_id);
    lemma_role_update_lookup(p.roles, pos, Role { weapon_skin_id: 0, ..p.roles[pos] }, role_id);
    let entity_id = entity_id_for(p.entities, role_id);
    lemma_skin_entities_keys(p.entities, entity_id, 0);
    lemma_entities_lookup(p.entities, q.entities, role_id, entity_id);
    lemma_weapon_skin_overwrite(p.entities, entity_id, 0, 0);
    assert(without_role_skin(q, pos, role_id).roles =~= q.roles);
}

/// Taking on the same weapon twice: the second request succeeds again and
/// leaves roles, inventory and entities as the first left them.
pub proof fn lemma_take_on_idempotent(p: PlayerView, d: EquipData)
    requires
        role_position(p.roles, d.role_id) is Some,
        weapon_equip_info(p.weapons, d.equip_inc_id) is Some,
    ensures
        ({
            let pos = role_position(p.roles, d.role_id).unwrap();
            let (weapon_id, breach) = weapon_equip_info(p.weapons, d.equip_inc_id).unwrap();
            let q = with_role_weapon(with_take_on_notice(p, d), pos, d.role_id, weapon_id, breach);
            let r = with_role_weapon(with_take_on_notice(q, d), pos, d.role_id, weapon_id, breach);
            &&& role_position(q.roles, d.role_id) == Some(pos)
            &&& weapon_equip_info(q.weapons, d.equip_inc_id) == Some((weapon_id, breach))
            &&& r.roles == q.roles
            &&& r.weapons == q.weapons
            &&& r.entities == q.entities
        }),
{
    let pos = role_position(p.roles, d.role_id).unwrap();
    let (weapon_id, breach) = weapon_equip_info(p.weapons, d.equip_inc_id).unwrap();
    let t = with_take_on_notice(p, d);
    let q = with_role_weapon(t, pos, d.role_id, weapon_id, breach);
    lemma_first_found_pos(p.roles, d.role_id);
    lemma_role_update_lookup(p.roles, pos, Role { equip_weapon: weapon_id, ..p.roles[pos] }, d.role_id);
    let entity_id = entity_id_for(p.entities, d.role_id);
    assert forall|j: int| 0 <= j < p.entities.len() implies {
        &&& (#[trigger] p.entities[j]).entity_id == q.entities[j].entity_id
        &&& p.entities[j].config_id == q.entities[j].config_id
    } by {}
    lemma_entities_lookup(p.entities, q.entities, d.role_id, entity_id);
    lemma_equip_overwrite(p.entities, entity_id, weapon_id, breach, weapon_id, breach);
    assert(with_role_weapon(with_take_on_notice(q, d), pos, d.role_id, weapon_id, breach).roles =~= q.roles);
}

/// The position that a role lookup gives holds a role with that id.
proof fn lemma_first_found_pos(roles: Seq<Role>, role_id: i32)
    requires
        role_position(roles, role_id) is Some,
    ensures
        0 <= role_position(roles, role_id).unwrap() < roles.len(),
        roles[role_position(roles, role_id).unwrap()].role_id == role_id,
{
    let i = choose|i: int| crate::search::is_first(roles, role_has_id(role_id), i);
    crate::search::lemma_first_found(roles, role_has_id(role_id), i);
}

// ---------------------------------------------------------------------------
// What each request does, in terms of its inputs
// ---------------------------------------------------------------------------

/// Equipping a skin succeeds exactly when a role with the id exists, the
/// skin is a row of the skin table and the skin is unlocked, whatever skin
/// the role wears before; otherwise the first missing condition names the error.
pub proof fn lemma_equip_skin_error_meaning(p: PlayerView, data: GameData, d: LoadEquipData)
    ensures
        ({
            let role_exists = exists|i: int| 0 <= i < p.roles.len() && (#[trigger] p.roles[i]).role_id == d.role_id;
            let skin_exists = exists|k: int|
                0 <= k < data.weapon_skin_data@.len() && (#[trigger] data.weapon_skin_data@[k]).id == d.skin_id;
            let unlocked = p.unlocked_weapon_skins.contains(d.skin_id);
            &&& (equip_skin_error(p, data, d) is None <==> role_exists && skin_exists && unlocked)
            &&& !role_exists ==> equip_skin_error(p, data, d) == Some(ErrorCode::NotValidRole)
            &&& role_exists && !skin_exists ==> equip_skin_error(p, data, d) == Some(ErrorCode::WeaponSkinDataErr)
            &&& role_exists && skin_exists && !unlocked ==> equip_skin_error(p, data, d) == Some(ErrorCode::WeaponSkinUnLockErr)
        }),
{
    crate::player::lemma_role_position_meaning(p.roles, d.role_id);
    crate::search::lemma_first_index_meaning(data.weapon_skin_data@, crate::data::skin_has_id(d.skin_id));
    if role_position(p.roles, d.role_id) is Some {
        let i = role_position(p.roles, d.role_id).unwrap();
        assert(p.roles[i].role_id == d.role_id);
    }
    if weapon_skin_row(data.weapon_skin_data@, d.skin_id) is Some {
        let k = crate::search::first_index(data.weapon_skin_data@, crate::data::skin_has_id(d.skin_id)).unwrap();
        assert(data.weapon_skin_data@[k].id == d.skin_id);
    }
}

/// A successful skin request changes the first role with the id to wear the
/// skin and leaves every other role as it is; the entity given for the role
/// shows the skin; one notice tells the client about that entity; inventory,
/// formations and unlocked skins are untouched.
pub proof fn lemma_equip_skin_effect(p: PlayerView, data: GameData, d: LoadEquipData)
    requires
        equip_skin_error(p, data, d) is None,
    ensures
        ({
            let q = with_role_skin(p, role_position(p.roles, d.role_id).unwrap(), d.role_id, d.skin_id);
            let entity_id = entity_id_for(p.entities, d.role_id);
            &&& q.roles.len() == p.roles.len()
            &&& forall|i: int| 0 <= i < p.roles.len() && (#[trigger] p.roles[i]).role_id == d.role_id
                && (forall|j: int| 0 <= j < i ==> (#[trigger] p.roles[j]).role_id != d.role_id)
                ==> {
                    &&& q.roles[i] == (Role { weapon_skin_id: d.skin_id, ..p.roles[i] })
                    &&& forall|j: int| 0 <= j < p.roles.len() && j != i ==> #[trigger] q.roles[j] == p.roles[j]
                }
            &&& q.entities == with_weapon_skin(p.entities, entity_id, d.skin_id)
            &&& q.notifications == p.notifications.push(NotificationView::EntityEquipSkinChange(EntityEquipSkinChangeNotify {
                entity_id,
                weapon_skin_component_pb: Some(WeaponSkinComponentPb { weapon_skin_id: d.skin_id }),
            }))
            &&& q.id == p.id && q.formations == p.formations && q.normal_items == p.normal_items
            &&& q.weapons == p.weapons && q.unlocked_weapon_skins == p.unlocked_weapon_skins
        }),
{
    crate::player::lemma_role_position_meaning(p.roles, d.role_id);
    let pos = role_position(p.roles, d.role_id).unwrap();
    assert forall|i: int| 0 <= i < p.roles.len() && (#[trigger] p.roles[i]).role_id == d.role_id
        && (forall|j: int| 0 <= j < i ==> (#[trigger] p.roles[j]).role_id != d.role_id)
        implies i == pos by {
        if i < pos {
            assert(p.roles[i].role_id != d.role_id);
        } else if pos < i {
            assert(p.roles[pos].role_id != d.role_id);
        }
    }
}

/// Taking off a skin changes the first role with the id to wear none and
/// leaves every other role as it is; the entity given for the role shows
/// none; the client is told about that entity, then that the role's old skin
/// was removed.
pub proof fn lemma_take_off_effect(p: PlayerView, role_id: i32)
    requires
        exists|i: int| 0 <= i < p.roles.len() && (#[trigger] p.roles[i]).role_id == role_id,
    ensures
        role_position(p.roles, role_id) is Some,
        forall|i: int| 0 <= i < p.roles.len() && (#[trigger] p.roles[i]).role_id == role_id
            && (forall|j: int| 0 <= j < i ==> (#[trigger] p.roles[j]).role_id != role_id)
            ==> ({
                let q = without_role_skin(p, role_position(p.roles, role_id).unwrap(), role_id);
                let entity_id = entity_id_for(p.entities, role_id);
                &&& q.roles.len() == p.roles.len()
                &&& q.roles[i] == (Role { weapon_skin_id: 0, ..p.roles[i] })
                &&& (forall|j: int| 0 <= j < p.roles.len() && j != i ==> #[trigger] q.roles[j] == p.roles[j])
                &&& q.entities == with_weapon_skin(p.entities, entity_id, 0)
                &&& q.notifications == p.notifications.push(NotificationView::EntityEquipSkinChange(EntityEquipSkinChangeNotify {
                    entity_id,
                    weapon_skin_component_pb: Some(WeaponSkinComponentPb { weapon_skin_id: 0 }),
                })).push(NotificationView::WeaponSkinDelete(WeaponSkinDeleteNotify { role_id, skin_id: p.roles[i].weapon_skin_id }))
                &&& q.id == p.id && q.formations == p.formations && q.weapons == p.weapons
            }),
{
    crate::player::lemma_role_position_meaning(p.roles, role_id);
    let pos = role_position(p.roles, role_id).unwrap();
    assert forall|i: int| 0 <= i < p.roles.len() && (#[trigger] p.roles[i]).role_id == role_id
        && (forall|j: int| 0 <= j < i ==> (#[trigger] p.roles[j]).role_id != role_id)
        implies i == pos by {
        if i < pos {
            assert(p.roles[i].role_id != role_id);
        } else if pos < i {
            assert(p.roles[pos].role_id != role_id);
        }
    }
}

/// Taking on a weapon gives the first role with the id the weapon of the
/// first inventory weapon with the instance id, leaves every other role as
/// it is, shows the weapon on the entity given for the role, and tells the
/// client first about the take-on, then about that entity.
pub proof fn lemma_take_on_effect(p: PlayerView, d: EquipData)
    requires
        exists|i: int| 0 <= i < p.roles.len() && (#[trigger] p.roles[i]).role_id == d.role_id,
        exists|k: int| 0 <= k < p.weapons.len() && (#[trigger] p.weapons[k]).incr_id == d.equip_inc_id,
    ensures
        role_position(p.roles, d.role_id) is Some,
        weapon_equip_info(p.weapons, d.equip_inc_id) is Some,
        forall|i: int, k: int|
            0 <= i < p.roles.len() && (#[trigger] p.roles[i]).role_id == d.role_id
            && (forall|j: int| 0 <= j < i ==> (#[trigger] p.roles[j]).role_id != d.role_id)
            && 0 <= k < p.weapons.len() && (#[trigger] p.weapons[k]).incr_id == d.equip_inc_id
            && (forall|j: int| 0 <= j < k ==> (#[trigger] p.weapons[j]).incr_id != d.equip_inc_id)
            ==> ({
                let q = with_role_weapon(
                    with_take_on_notice(p, d),
                    role_position(p.roles, d.role_id).unwrap(),
                    d.role_id,
                    weapon_equip_info(p.weapons, d.equip_inc_id).unwrap().0,
                    weapon_equip_info(p.weapons, d.equip_inc_id).unwrap().1,
                );
                let entity_id = entity_id_for(p.entities, d.role_id);
                &&& q.roles.len() == p.roles.len()
                &&& q.roles[i] == (Role { equip_weapon: p.weapons[k].weapon_id, ..p.roles[i] })
                &&& (forall|j: int| 0 <= j < p.roles.len() && j != i ==> #[trigger] q.roles[j] == p.roles[j])
                &&& q.entities == with_equip(p.entities, entity_id, p.weapons[k].weapon_id, p.weapons[k].breach_level)
                &&& q.notifications == p.notifications.push(NotificationView::EquipTakeOn(seq![d])).push(
                    NotificationView::EntityEquipChange(EntityEquipChangeNotify {
                        entity_id,
                        equip_component: Some(EquipComponentPb { weapon_id: p.weapons[k].weapon_id, weapon_breach_level: p.weapons[k].breach_level }),
                    }),
                )
                &&& q.weapons == p.weapons && q.formations == p.formations && q.id == p.id
            }),
{
    crate::player::lemma_role_position_meaning(p.roles, d.role_id);
    crate::player::lemma_weapon_equip_info_meaning(p.weapons, d.equip_inc_id);
    let pos = role_position(p.roles, d.role_id).unwrap();
    assert forall|i: int, k: int|
        0 <= i < p.roles.len() && (#[trigger] p.roles[i]).role_id == d.role_id
        && (forall|j: int| 0 <= j < i ==> (#[trigger] p.roles[j]).role_id != d.role_id)
        && 0 <= k < p.weapons.len() && (#[trigger] p.weapons[k]).incr_id == d.equip_inc_id
        && (forall|j: int| 0 <= j < k ==> (#[trigger] p.weapons[j]).incr_id != d.equip_inc_id)
        implies i == pos by {
        if i < pos {
            assert(p.roles[i].role_id != d.role_id);
        } else if pos < i {
            assert(p.roles[pos].role_id != d.role_id);
        }
    }
}

/// The skin listing of two role lists put together is the listing of the
/// first followed by that of the second: entries come in the order of the roles.
pub proof fn lemma_equip_list_append(a: Seq<Role>, b: Seq<Role>)
    ensures
        equip_list(a + b) == equip_list(a) + equip_list(b),
    decreases b.len(),
{
    if b.len() == 0 {
        assert(a + b =~= a);
        assert(equip_list(a) + equip_list(b) =~= equip_list(a));
    } else {
        let b0 = b.drop_last();
        assert((a + b).drop_last() =~= a + b0);
        assert((a + b).last() == b.last());
        lemma_equip_list_append(a, b0);
        assert(equip_list(a + b) =~= equip_list(a) + equip_list(b));
    }
}

/// A listing of one role: the role with its skin when it wears one, nothing otherwise.
pub proof fn lemma_equip_list_single(role: Role)
    ensures
        role.weapon_skin_id != 0 ==> equip_list(seq![role]) == seq![LoadEquipData { role_id: role.role_id, skin_id: role.weapon_skin_id }],
        role.weapon_skin_id == 0 ==> equip_list(seq![role]).len() == 0,
{
    assert(seq![role].drop_last() =~= Seq::<Role>::empty());
    assert(seq![role].last() == role);
    assert(equip_list(Seq::<Role>::empty()).len() == 0);
    if role.weapon_skin_id != 0 {
        assert(equip_list(seq![role]) =~= seq![LoadEquipData { role_id: role.role_id, skin_id: role.weapon_skin_id }]);
    }
}

} // verus!
