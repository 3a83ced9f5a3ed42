use wicked_waifus_handlers::data::{GameData, ItemExchangeContentData};
use wicked_waifus_handlers::inventory::{
    on_item_exchange_info_request, on_normal_item_request, on_phantom_item_request,
    on_weapon_item_request,
};
use wicked_waifus_handlers::player::{
    BasicInfo, Inventory, InventoryWeapon, Player, Role, UnlockedSkins, World,
};
use wicked_waifus_handlers::protocol::{
    ItemExchangeInfo, ItemExchangeInfoRequest, ItemExchangeInfoResponse, NormalItem,
    NormalItemRequest, NormalItemResponse, PhantomItem, PhantomItemRequest, PhantomItemResponse,
    WeaponItem, WeaponItemRequest, WeaponItemResponse,
};

fn role(role_id: i32, equip_weapon: i32) -> Role {
    Role { role_id, level: 1, equip_weapon, weapon_skin_id: 0 }
}

fn player(roles: Vec<Role>) -> Player {
    Player {
        basic_info: BasicInfo { id: 1 },
        formation_list: Vec::new(),
        role_list: roles,
        inventory: Inventory {
            normal_items: vec![NormalItem { id: 2, count: 100 }, NormalItem { id: 10800, count: 3 }],
            weapons: vec![InventoryWeapon { incr_id: 1, weapon_id: 21010011, breach_level: 2 }],
        },
        unlocked_skins: UnlockedSkins { weapon_skins: Vec::new() },
        world: World { entities: Vec::new() },
        notifications: Vec::new(),
    }
}

fn listed(id: i32, incr_id: i32, role_id: i32) -> WeaponItem {
    WeaponItem {
        id,
        incr_id,
        func_value: 0,
        weapon_level: 90,
        weapon_exp: 0,
        weapon_breach: 6,
        weapon_reson_level: 6,
        role_id,
    }
}

#[test]
fn normal_items_are_listed_in_order() {
    let mut p = player(Vec::new());
    let before = p.clone();
    let mut response = NormalItemResponse { normal_item_list: vec![NormalItem { id: 9, count: 9 }] };
    on_normal_item_request(&mut p, NormalItemRequest {}, &mut response);
    assert_eq!(response.normal_item_list, vec![NormalItem { id: 2, count: 100 }, NormalItem { id: 10800, count: 3 }]);
    assert_eq!(p, before);
}

#[test]
fn weapons_of_roles_are_numbered_from_one() {
    let mut p = player(vec![
        role(1102, 21010011),
        role(1103, 0),
        role(1104, 21020015),
        role(1105, 19999999),
        role(1106, 30000000),
        role(1107, 29999999),
        role(1108, 20000000),
    ]);
    let mut response = WeaponItemResponse { weapon_item_list: Vec::new() };
    on_weapon_item_request(&mut p, WeaponItemRequest {}, &mut response);
    assert_eq!(
        response.weapon_item_list,
        vec![
            listed(21010011, 1, 1102),
            listed(21020015, 2, 1104),
            listed(29999999, 3, 1107),
            listed(20000000, 4, 1108),
        ]
    );
}

#[test]
fn no_roles_no_weapons() {
    let mut p = player(Vec::new());
    let mut response = WeaponItemResponse { weapon_item_list: vec![listed(1, 1, 1)] };
    on_weapon_item_request(&mut p, WeaponItemRequest {}, &mut response);
    assert!(response.weapon_item_list.is_empty());
}

#[test]
fn phantom_items_are_empty() {
    let mut p = player(Vec::new());
    let mut response = PhantomItemResponse { phantom_item_list: vec![PhantomItem { id: 1, incr_id: 1 }] };
    on_phantom_item_request(&mut p, PhantomItemRequest {}, &mut response);
    assert!(response.phantom_item_list.is_empty());
}

#[test]
fn exchange_limits_follow_the_table() {
    let mut p = player(Vec::new());
    let data = GameData {
        damage_data: Vec::new(),
        weapon_skin_data: Vec::new(),
        item_exchange_content_data: vec![ItemExchangeContentData { item_id: 3 }, ItemExchangeContentData { item_id: 5 }],
    };
    let mut response = ItemExchangeInfoResponse { item_exchange_infos: Vec::new() };
    on_item_exchange_info_request(&mut p, ItemExchangeInfoRequest {}, &data, &mut response);
    assert_eq!(
        response.item_exchange_infos,
        vec![
            ItemExchangeInfo { item_id: 3, today_times: 0, total_times: 0, daily_limit: 0, total_limit: 0 },
            ItemExchangeInfo { item_id: 5, today_times: 0, total_times: 0, daily_limit: 0, total_limit: 0 },
        ]
    );
}
