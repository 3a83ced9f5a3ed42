//! Inventory listings: normal items, the weapons the roles hold, phantom
//! items and item exchange limits.
use vstd::prelude::*;
use crate::protocol::{
    ItemExchangeInfo, ItemExchangeInfoRequest, ItemExchangeInfoResponse, NormalItemRequest,
    NormalItemResponse, PhantomItemRequest, PhantomItemResponse, WeaponItem, WeaponItemRequest,
    WeaponItemResponse,
};
use crate::player::{Player, Role};
use crate::data::{GameData, ItemExchangeContentData};

verus! {

/// Smallest id of an actual weapon; smaller ids stand for no weapon.
pub const MIN_WEAPON_ID: i32 = 20000000;

/// Ids from this one on are no weapons.
pub const WEAPON_ID_LIMIT: i32 = 30000000;

/// Level reported for every listed weapon.
pub const LISTED_WEAPON_LEVEL: i32 = 90;

/// Breakthrough reported for every listed weapon.
pub const LISTED_WEAPON_BREACH: i32 = 6;

/// Resonance level reported for every listed weapon.
pub const LISTED_WEAPON_RESON_LEVEL: i32 = 6;

/// `id` names an actual weapon.
pub open spec fn is_weapon_id(id: i32) -> bool {
    MIN_WEAPON_ID <= id < WEAPON_ID_LIMIT
}

/// The listed weapon of `role`, numbered `incr_id`.
pub open spec fn weapon_item_for(role: Role, incr_id: i32) -> WeaponItem {
    WeaponItem {
        id: role.equip_weapon,
        incr_id,
        func_value: 0,
        weapon_level: LISTED_WEAPON_LEVEL,
        weapon_exp: 0,
        weapon_breach: LISTED_WEAPON_BREACH,
        weapon_reson_level: LISTED_WEAPON_RESON_LEVEL,
        role_id: role.role_id,
    }
}

/// The weapons of `roles` in order: one item for each role whose equipped
/// weapon is an actual weapon, numbered from 1.
pub open spec fn weapon_items(roles: Seq<Role>) -> Seq<WeaponItem>
    decreases roles.len(),
{
    if roles.len() == 0 {
        Seq::empty()
    } else {
        let before = weapon_items(roles.drop_last());
        if is_weapon_id(roles.last().equip_weapon) {
            before.push(weapon_item_for(roles.last(), (before.len() + 1) as i32))
        } else {
            before
        }
    }
}

/// The exchange limits of `table`, one entry per row, with nothing used
/// and no limit.
pub open spec fn exchange_infos(table: Seq<ItemExchangeContentData>) -> Seq<ItemExchangeInfo> {
    table.map_values(
        |row: ItemExchangeContentData|
            ItemExchangeInfo { item_id: row.item_id, today_times: 0, total_times: 0, daily_limit: 0, total_limit: 0 },
    )
}

/// Lists the normal items that the player holds.
pub fn on_normal_item_request(player: &mut Player, _request: NormalItemRequest, response: &mut NormalItemResponse)
    ensures
        final(player)@ == old(player)@,
        final(response).normal_item_list@ == old(player)@.normal_items,
{
    response.normal_item_list = player.inventory.to_normal_item_list();
}

/// Lists the weapons that the player's roles hold, numbered from 1 in the
/// order of the roles.
pub fn on_weapon_item_request(player: &mut Player, _request: WeaponItemRequest, response: &mut WeaponItemResponse)
    requires
        old(player).role_list@.len() < i32::MAX,
    ensures
        final(player)@ == old(player)@,
        final(response).weapon_item_list@ == weapon_items(old(player)@.roles),
{
    let ghost roles = player.role_list@;
    let mut weapons: Vec<WeaponItem> = Vec::new();
    let mut incr_id: i32 = 1;
    let n = player.role_list.len();
    let mut i: usize = 0;
    proof {
        assert(roles.take(0) =~= Seq::<Role>::empty());
    }
    while i < n
        invariant
            n == roles.len(),
            roles == player.role_list@,
            n < i32::MAX,
            i <= n,
            weapons@ == weapon_items(roles.take(i as int)),
            weapons@.len() <= i,
            incr_id == weapons@.len() + 1,
        decreases n - i,
    {
        let role = player.role_list[i];
        proof {
            assert(roles.take(i + 1).drop_last() =~= roles.take(i as int));
        }
        if role.equip_weapon >= MIN_WEAPON_ID && role.equip_weapon < WEAPON_ID_LIMIT {
            let weapon_item = WeaponItem {
                id: role.equip_weapon,
                incr_id,
                func_value: 0,
                weapon_level: LISTED_WEAPON_LEVEL,
                weapon_exp: 0,
                weapon_breach: LISTED_WEAPON_BREACH,
                weapon_reson_level: LISTED_WEAPON_RESON_LEVEL,
                role_id: role.role_id,
            };
            weapons.push(weapon_item);
            incr_id = incr_id + 1;
        }
        i = i + 1;
    }
    proof {
        assert(roles.take(n as int) =~= roles);
    }
    response.weapon_item_list = weapons;
}

/// Answers with no phantom items.
pub fn on_phantom_item_request(_player: &mut Player, _request: PhantomItemRequest, response: &mut PhantomItemResponse)
    ensures
        final(_player)@ == old(_player)@,
        final(response).phantom_item_list@ == Seq::<crate::protocol::PhantomItem>::empty(),
{
    response.phantom_item_list = Vec::new();
}

/// Lists the exchange limits of every item of the exchange table: nothing
/// used, no limit.
pub fn on_item_exchange_info_request(
    _player: &mut Player,
    _request: ItemExchangeInfoRequest,
    data: &GameData,
    response: &mut ItemExchangeInfoResponse,
)
    ensures
        final(_player)@ == old(_player)@,
        final(response).item_exchange_infos@ == exchange_infos(data.item_exchange_content_data@),
{
    let ghost table = data.item_exchange_content_data@;
    let mut infos: Vec<ItemExchangeInfo> = Vec::new();
    let n = data.item_exchange_content_data.len();
    let mut i: usize = 0;
    while i < n
        invariant
            n == table.len(),
            table == data.item_exchange_content_data@,
            i <= n,
            infos@ == exchange_infos(table.take(i as int)),
        decreases n - i,
    {
        let row = data.item_exchange_content_data[i];
        infos.push(ItemExchangeInfo { item_id: row.item_id, today_times: 0, total_times: 0, daily_limit: 0, total_limit: 0 });
        i = i + 1;
        proof {
            assert(infos@ =~= exchange_infos(table.take(i as int)));
        }
    }
    proof {
        assert(table.take(n as int) =~= table);
    }
    response.item_exchange_infos = infos;
}

// ---------------------------------------------------------------------------
// Laws
// ---------------------------------------------------------------------------

/// The weapon listing is numbered 1, 2, 3, ... in order, lists actual weapons
/// only, each at the listed level, breakthrough and resonance, and holds no
/// more items than there are roles.
pub proof fn lemma_weapon_items_numbered(roles: Seq<Role>)
    requires
        roles.len() < i32::MAX,
    ensures
        weapon_items(roles).len() <= roles.len(),
        forall|i: int| 0 <= i < weapon_items(roles).len() ==> {
            let item = #[trigger] weapon_items(roles)[i];
            &&& item.incr_id == i + 1
            &&& is_weapon_id(item.id)
            &&& item.weapon_level == LISTED_WEAPON_LEVEL
            &&& item.weapon_breach == LISTED_WEAPON_BREACH
            &&& item.weapon_reson_level == LISTED_WEAPON_RESON_LEVEL
        },
    decreases roles.len(),
{
    if roles.len() > 0 {
        lemma_weapon_items_numbered(roles.drop_last());
    }
}

/// Every role whose equipped weapon is an actual weapon has an item in the
/// listing, and every item names a role that holds it.
pub proof fn lemma_weapon_items_complete(roles: Seq<Role>)
    ensures
        forall|i: int| 0 <= i < roles.len() && is_weapon_id(#[trigger] roles[i].equip_weapon) ==>
            exists|j: int| #![trigger weapon_items(roles)[j]] 0 <= j < weapon_items(roles).len()
                && weapon_items(roles)[j].role_id == roles[i].role_id
                && weapon_items(roles)[j].id == roles[i].equip_weapon,
        forall|j: int| 0 <= j < weapon_items(roles).len() ==>
            exists|i: int| #![trigger roles[i]] 0 <= i < roles.len()
                && roles[i].role_id == (#[trigger] weapon_items(roles)[j]).role_id
                && roles[i].equip_weapon == weapon_items(roles)[j].id,
    decreases roles.len(),
{
    if roles.len() > 0 {
        let prefix = roles.drop_last();
        lemma_weapon_items_complete(prefix);
        let items = weapon_items(roles);
        let before = weapon_items(prefix);
        assert forall|i: int| 0 <= i < roles.len() && is_weapon_id(#[trigger] roles[i].equip_weapon) implies
            exists|j: int| #![trigger items[j]] 0 <= j < items.len()
                && items[j].role_id == roles[i].role_id
                && items[j].id == roles[i].equip_weapon by {
            if i < roles.len() - 1 {
                assert(prefix[i] == roles[i]);
                let j = choose|j: int| #![trigger before[j]] 0 <= j < before.len()
                    && before[j].role_id == prefix[i].role_id
                    && before[j].id == prefix[i].equip_weapon;
                assert(items[j] == before[j]);
            } else {
                assert(items[before.len() as int].role_id == roles[i].role_id);
            }
        }
        assert forall|j: int| 0 <= j < items.len() implies
            exists|i: int| #![trigger roles[i]] 0 <= i < roles.len()
                && roles[i].role_id == (#[trigger] items[j]).role_id
                && roles[i].equip_weapon == items[j].id by {
            if j < before.len() {
                assert(items[j] == before[j]);
                let i = choose|i: int| #![trigger prefix[i]] 0 <= i < prefix.len()
                    && prefix[i].role_id == before[j].role_id
                    && prefix[i].equip_weapon == before[j].id;
                assert(roles[i] == prefix[i]);
            } else {
                let last = roles.len() - 1;
                assert(roles[last].role_id == items[j].role_id);
            }
        }
    }
}

/// The exchange listing has exactly one entry per row of the exchange
/// table, in the table's order; entry `i` carries the item of row `i` with
/// nothing used and no limit.
pub proof fn lemma_exchange_infos_meaning(table: Seq<ItemExchangeContentData>)
    ensures
        exchange_infos(table).len() == table.len(),
        forall|i: int| 0 <= i < table.len() ==> #[trigger] exchange_infos(table)[i] == (ItemExchangeInfo {
            item_id: table[i].item_id,
            today_times: 0,
            total_times: 0,
            daily_limit: 0,
            total_limit: 0,
        }),
{
}

/// The weapon listing of two role lists put together is the listing of the
/// first, followed by the listing of the second numbered on from where the
/// first stopped: items come in the order of the roles.
pub proof fn lemma_weapon_items_append(a: Seq<Role>, b: Seq<Role>)
    requires
        a.len() + b.len() < i32::MAX,
    ensures
        weapon_items(a + b).len() == weapon_items(a).len() + weapon_items(b).len(),
        forall|i: int| 0 <= i < weapon_items(a).len() ==> #[trigger] weapon_items(a + b)[i] == weapon_items(a)[i],
        forall|j: int| 0 <= j < weapon_items(b).len() ==> #[trigger] weapon_items(a + b)[weapon_items(a).len() + j]
            == (WeaponItem { incr_id: (weapon_items(a).len() + j + 1) as i32, ..weapon_items(b)[j] }),
    decreases b.len(),
{
    lemma_weapon_items_numbered(a);
    lemma_weapon_items_numbered(b);
    if b.len() == 0 {
        assert(a + b =~= a);
    } else {
        let b0 = b.drop_last();
        assert((a + b).drop_last() =~= a + b0);
        assert((a + b).last() == b.last());
        lemma_weapon_items_append(a, b0);
        lemma_weapon_items_numbered(b0);
        lemma_weapon_items_numbered(a + b0);
    }
}

/// A listing of one role: its weapon, numbered 1, when it holds an actual
/// weapon, and nothing otherwise.
pub proof fn lemma_weapon_items_single(role: Role)
    ensures
        is_weapon_id(role.equip_weapon) ==> weapon_items(seq![role]) == seq![(WeaponItem {
            id: role.equip_weapon,
            incr_id: 1,
            func_value: 0,
            weapon_level: LISTED_WEAPON_LEVEL,
            weapon_exp: 0,
            weapon_breach: LISTED_WEAPON_BREACH,
            weapon_reson_level: LISTED_WEAPON_RESON_LEVEL,
            role_id: role.role_id,
        })],
        !is_weapon_id(role.equip_weapon) ==> weapon_items(seq![role]).len() == 0,
{
    assert(seq![role].drop_last() =~= Seq::<Role>::empty());
    assert(seq![role].last() == role);
    assert(weapon_items(Seq::<Role>::empty()).len() == 0);
    if is_weapon_id(role.equip_weapon) {
        assert(weapon_items(seq![role]) =~= seq![weapon_item_for(role, 1)]);
    }
}

} // verus!
