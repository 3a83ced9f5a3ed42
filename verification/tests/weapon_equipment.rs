use wicked_waifus_handlers::data::{GameData, WeaponSkinData};
use wicked_waifus_handlers::player::{
    NO_ENTITY_ID, BasicInfo, Entity, Equip, Inventory, InventoryWeapon, Player, Role, UnlockedSkins, WeaponSkin,
    World,
};
use wicked_waifus_handlers::protocol::{
    EntityEquipChangeNotify, EntityEquipSkinChangeNotify, EquipComponentPb, EquipData,
    EquipTakeOnNotify, EquipTakeOnRequest, EquipTakeOnResponse, EquipWeaponSkinRequest,
    EquipWeaponSkinResponse, ErrorCode, LoadEquipData, Notification, SendEquipSkinRequest,
    SendEquipSkinResponse, WeaponSkinComponentPb, WeaponSkinDeleteNotify, WeaponSkinRequest,
    WeaponSkinResponse,
};
use wicked_waifus_handlers::weapon::{
    on_equip_take_on_request, on_equip_weapon_skin_request, on_send_equip_skin_request,
    on_weapon_skin_request,
};

fn player() -> Player {
    Player {
        basic_info: BasicInfo { id: 1 },
        formation_list: Vec::new(),
        role_list: vec![
            Role { role_id: 1102, level: 90, equip_weapon: 21010011, weapon_skin_id: 0 },
            Role { role_id: 1205, level: 80, equip_weapon: 21020015, weapon_skin_id: 81002 },
            Role { role_id: 1301, level: 70, equip_weapon: 0, weapon_skin_id: 0 },
        ],
        inventory: Inventory {
            normal_items: Vec::new(),
            weapons: vec![
                InventoryWeapon { incr_id: 1, weapon_id: 21010011, breach_level: 2 },
                InventoryWeapon { incr_id: 7, weapon_id: 21050036, breach_level: 5 },
            ],
        },
        unlocked_skins: UnlockedSkins { weapon_skins: vec![81001, 81002] },
        world: World {
            entities: vec![
                Entity {
                    entity_id: 10,
                    config_id: 1102,
                    attribute: None,
                    weapon_skin: Some(WeaponSkin { skin_id: 0 }),
                    equip: Some(Equip { weapon_id: 21010011, weapon_breach_level: 2 }),
                },
                Entity {
                    entity_id: 11,
                    config_id: 1205,
                    attribute: None,
                    weapon_skin: Some(WeaponSkin { skin_id: 81002 }),
                    equip: None,
                },
            ],
        },
        notifications: Vec::new(),
    }
}

fn game_data() -> GameData {
    GameData {
        damage_data: Vec::new(),
        weapon_skin_data: vec![WeaponSkinData { id: 81001 }, WeaponSkinData { id: 81002 }, WeaponSkinData { id: 81003 }],
        item_exchange_content_data: Vec::new(),
    }
}

fn skin_request(role_id: i32, skin_id: i32) -> EquipWeaponSkinRequest {
    EquipWeaponSkinRequest { data: Some(LoadEquipData { role_id, skin_id }) }
}

fn skin_response() -> EquipWeaponSkinResponse {
    EquipWeaponSkinResponse { error_code: ErrorCode::Success, data_list: Vec::new() }
}

#[test]
fn weapon_skins_list_roles_that_wear_one() {
    let p = player();
    let mut response = WeaponSkinResponse { error_code: ErrorCode::NotValidRole, equip_list: Vec::new() };
    on_weapon_skin_request(&p, WeaponSkinRequest {}, &mut response);
    assert_eq!(response.equip_list, vec![LoadEquipData { role_id: 1205, skin_id: 81002 }]);
    assert_eq!(response.error_code, ErrorCode::Success);
}

#[test]
fn equipping_a_skin_updates_role_entity_and_listing() {
    let mut p = player();
    let mut response = skin_response();
    on_equip_weapon_skin_request(&mut p, skin_request(1102, 81001), &game_data(), &mut response);
    assert_eq!(response.error_code, ErrorCode::Success);
    assert_eq!(p.role_list[0].weapon_skin_id, 81001);
    assert_eq!(p.world.entities[0].weapon_skin, Some(WeaponSkin { skin_id: 81001 }));
    assert_eq!(
        p.notifications,
        vec![Notification::EntityEquipSkinChange(EntityEquipSkinChangeNotify {
            entity_id: 10,
            weapon_skin_component_pb: Some(WeaponSkinComponentPb { weapon_skin_id: 81001 }),
        })]
    );
    assert_eq!(
        response.data_list,
        vec![LoadEquipData { role_id: 1102, skin_id: 81001 }, LoadEquipData { role_id: 1205, skin_id: 81002 }]
    );
}

#[test]
fn equipping_for_a_role_without_entity_still_notifies() {
    let mut p = player();
    let entities = p.world.entities.clone();
    let mut response = skin_response();
    on_equip_weapon_skin_request(&mut p, skin_request(1301, 81002), &game_data(), &mut response);
    assert_eq!(response.error_code, ErrorCode::Success);
    assert_eq!(p.role_list[2].weapon_skin_id, 81002);
    assert_eq!(p.world.entities, entities);
    assert_eq!(
        p.notifications,
        vec![Notification::EntityEquipSkinChange(EntityEquipSkinChangeNotify {
            entity_id: NO_ENTITY_ID,
            weapon_skin_component_pb: Some(WeaponSkinComponentPb { weapon_skin_id: 81002 }),
        })]
    );
}

#[test]
fn taking_off_for_a_role_without_entity_sends_both_notices() {
    let mut p = player();
    p.role_list[2].weapon_skin_id = 81001;
    let mut response = SendEquipSkinResponse { error_code: ErrorCode::NotValidRole };
    on_send_equip_skin_request(&mut p, SendEquipSkinRequest { role_id: 1301 }, &mut response);
    assert_eq!(
        p.notifications,
        vec![
            Notification::EntityEquipSkinChange(EntityEquipSkinChangeNotify {
                entity_id: NO_ENTITY_ID,
                weapon_skin_component_pb: Some(WeaponSkinComponentPb { weapon_skin_id: 0 }),
            }),
            Notification::WeaponSkinDelete(WeaponSkinDeleteNotify { role_id: 1301, skin_id: 81001 }),
        ]
    );
}

#[test]
fn taking_on_for_a_role_without_entity_sends_both_notices() {
    let mut p = player();
    let mut response = EquipTakeOnResponse { error_code: ErrorCode::NotValidRole, data_list: Vec::new() };
    let data = EquipData { role_id: 1301, equip_inc_id: 7 };
    on_equip_take_on_request(&mut p, EquipTakeOnRequest { data: Some(data) }, &mut response);
    assert_eq!(p.role_list[2].equip_weapon, 21050036);
    assert_eq!(
        p.notifications,
        vec![
            Notification::EquipTakeOn(EquipTakeOnNotify { data_list: vec![data] }),
            Notification::EntityEquipChange(EntityEquipChangeNotify {
                entity_id: NO_ENTITY_ID,
                equip_component: Some(EquipComponentPb { weapon_id: 21050036, weapon_breach_level: 5 }),
            }),
        ]
    );
}

#[test]
fn equipping_then_taking_off_restores_roles_and_entities() {
    let mut p = player();
    let before = p.clone();
    let mut response = skin_response();
    on_equip_weapon_skin_request(&mut p, skin_request(1102, 81001), &game_data(), &mut response);
    let mut off = SendEquipSkinResponse { error_code: ErrorCode::NotValidRole };
    on_send_equip_skin_request(&mut p, SendEquipSkinRequest { role_id: 1102 }, &mut off);
    assert_eq!(p.role_list, before.role_list);
    assert_eq!(p.world, before.world);
    assert_eq!(
        p.notifications.last(),
        Some(&Notification::WeaponSkinDelete(WeaponSkinDeleteNotify { role_id: 1102, skin_id: 81001 }))
    );
}

#[test]
fn taking_off_twice_reports_skin_zero_the_second_time() {
    let mut p = player();
    let mut response = SendEquipSkinResponse { error_code: ErrorCode::NotValidRole };
    on_send_equip_skin_request(&mut p, SendEquipSkinRequest { role_id: 1205 }, &mut response);
    let once = p.clone();
    on_send_equip_skin_request(&mut p, SendEquipSkinRequest { role_id: 1205 }, &mut response);
    assert_eq!(response.error_code, ErrorCode::Success);
    assert_eq!(p.role_list, once.role_list);
    assert_eq!(p.world, once.world);
    assert_eq!(
        p.notifications.last(),
        Some(&Notification::WeaponSkinDelete(WeaponSkinDeleteNotify { role_id: 1205, skin_id: 0 }))
    );
}

#[test]
fn taking_on_the_same_weapon_twice_changes_nothing_more() {
    let mut p = player();
    let data = EquipData { role_id: 1102, equip_inc_id: 7 };
    let mut response = EquipTakeOnResponse { error_code: ErrorCode::NotValidRole, data_list: Vec::new() };
    on_equip_take_on_request(&mut p, EquipTakeOnRequest { data: Some(data) }, &mut response);
    let once = p.clone();
    let mut again = EquipTakeOnResponse { error_code: ErrorCode::NotValidRole, data_list: Vec::new() };
    on_equip_take_on_request(&mut p, EquipTakeOnRequest { data: Some(data) }, &mut again);
    assert_eq!(again.error_code, ErrorCode::Success);
    assert_eq!(again.data_list, vec![data]);
    assert_eq!(p.role_list, once.role_list);
    assert_eq!(p.inventory, once.inventory);
    assert_eq!(p.world, once.world);
}

#[test]
fn equipping_the_same_skin_twice_changes_nothing_more() {
    let mut once = player();
    let mut response = skin_response();
    on_equip_weapon_skin_request(&mut once, skin_request(1102, 81001), &game_data(), &mut response);
    let mut twice = once.clone();
    on_equip_weapon_skin_request(&mut twice, skin_request(1102, 81001), &game_data(), &mut response);
    assert_eq!(twice.role_list, once.role_list);
    assert_eq!(twice.world, once.world);
    assert_eq!(twice.notifications.len(), 2);
    assert_eq!(twice.notifications[1], once.notifications[0]);
}

#[test]
fn equipping_an_unknown_role_is_refused() {
    let mut p = player();
    let before = p.clone();
    let mut response = skin_response();
    on_equip_weapon_skin_request(&mut p, skin_request(9999, 81001), &game_data(), &mut response);
    assert_eq!(response.error_code, ErrorCode::NotValidRole);
    assert_eq!(p, before);
    assert!(response.data_list.is_empty());
}

#[test]
fn equipping_a_skin_missing_from_the_table_is_refused() {
    let mut p = player();
    let before = p.clone();
    let mut response = skin_response();
    on_equip_weapon_skin_request(&mut p, skin_request(1102, 99999), &game_data(), &mut response);
    assert_eq!(response.error_code, ErrorCode::WeaponSkinDataErr);
    assert_eq!(p, before);
}

#[test]
fn equipping_a_locked_skin_is_refused() {
    let mut p = player();
    let before = p.clone();
    let mut response = skin_response();
    on_equip_weapon_skin_request(&mut p, skin_request(1102, 81003), &game_data(), &mut response);
    assert_eq!(response.error_code, ErrorCode::WeaponSkinUnLockErr);
    assert_eq!(p, before);
}

#[test]
fn skin_request_without_data_is_not_answered() {
    let mut p = player();
    let before = p.clone();
    let mut response = EquipWeaponSkinResponse { error_code: ErrorCode::ErrItemNotFound, data_list: Vec::new() };
    on_equip_weapon_skin_request(&mut p, EquipWeaponSkinRequest { data: None }, &game_data(), &mut response);
    assert_eq!(p, before);
    assert_eq!(response.error_code, ErrorCode::ErrItemNotFound);
}

#[test]
fn taking_off_a_skin_clears_it_and_reports_the_old_one() {
    let mut p = player();
    let mut response = SendEquipSkinResponse { error_code: ErrorCode::NotValidRole };
    on_send_equip_skin_request(&mut p, SendEquipSkinRequest { role_id: 1205 }, &mut response);
    assert_eq!(response.error_code, ErrorCode::Success);
    assert_eq!(p.role_list[1].weapon_skin_id, 0);
    assert_eq!(p.world.entities[1].weapon_skin, Some(WeaponSkin { skin_id: 0 }));
    assert_eq!(
        p.notifications,
        vec![
            Notification::EntityEquipSkinChange(EntityEquipSkinChangeNotify {
                entity_id: 11,
                weapon_skin_component_pb: Some(WeaponSkinComponentPb { weapon_skin_id: 0 }),
            }),
            Notification::WeaponSkinDelete(WeaponSkinDeleteNotify { role_id: 1205, skin_id: 81002 }),
        ]
    );
}

#[test]
fn equip_then_take_off_leaves_the_role_unlisted() {
    let mut p = player();
    let mut response = skin_response();
    on_equip_weapon_skin_request(&mut p, skin_request(1102, 81001), &game_data(), &mut response);
    let mut off = SendEquipSkinResponse { error_code: ErrorCode::NotValidRole };
    on_send_equip_skin_request(&mut p, SendEquipSkinRequest { role_id: 1102 }, &mut off);
    let mut listing = WeaponSkinResponse { error_code: ErrorCode::NotValidRole, equip_list: Vec::new() };
    on_weapon_skin_request(&p, WeaponSkinRequest {}, &mut listing);
    assert!(listing.equip_list.iter().all(|e| e.role_id != 1102));
    assert_eq!(p.role_list[0].weapon_skin_id, 0);
}

#[test]
fn taking_off_from_an_unknown_role_is_refused() {
    let mut p = player();
    let before = p.clone();
    let mut response = SendEquipSkinResponse { error_code: ErrorCode::Success };
    on_send_equip_skin_request(&mut p, SendEquipSkinRequest { role_id: 4242 }, &mut response);
    assert_eq!(response.error_code, ErrorCode::NotValidRole);
    assert_eq!(p, before);
}

#[test]
fn taking_on_a_weapon_equips_it() {
    let mut p = player();
    let mut response = EquipTakeOnResponse { error_code: ErrorCode::NotValidRole, data_list: Vec::new() };
    let data = EquipData { role_id: 1102, equip_inc_id: 7 };
    on_equip_take_on_request(&mut p, EquipTakeOnRequest { data: Some(data) }, &mut response);
    assert_eq!(response.error_code, ErrorCode::Success);
    assert_eq!(response.data_list, vec![data]);
    assert_eq!(p.role_list[0].equip_weapon, 21050036);
    assert_eq!(p.world.entities[0].equip, Some(Equip { weapon_id: 21050036, weapon_breach_level: 5 }));
    assert_eq!(
        p.notifications,
        vec![
            Notification::EquipTakeOn(EquipTakeOnNotify { data_list: vec![data] }),
            Notification::EntityEquipChange(EntityEquipChangeNotify {
                entity_id: 10,
                equip_component: Some(EquipComponentPb { weapon_id: 21050036, weapon_breach_level: 5 }),
            }),
        ]
    );
}

#[test]
fn taking_on_for_an_entity_without_equip_component_still_notifies() {
    let mut p = player();
    let mut response = EquipTakeOnResponse { error_code: ErrorCode::NotValidRole, data_list: Vec::new() };
    let data = EquipData { role_id: 1205, equip_inc_id: 1 };
    on_equip_take_on_request(&mut p, EquipTakeOnRequest { data: Some(data) }, &mut response);
    assert_eq!(p.role_list[1].equip_weapon, 21010011);
    assert_eq!(p.world.entities[1].equip, None);
    assert_eq!(p.notifications.len(), 2);
}

#[test]
fn taking_on_for_an_unknown_role_is_refused_after_the_notice() {
    let mut p = player();
    let roles = p.role_list.clone();
    let mut response = EquipTakeOnResponse { error_code: ErrorCode::Success, data_list: Vec::new() };
    let data = EquipData { role_id: 5555, equip_inc_id: 7 };
    on_equip_take_on_request(&mut p, EquipTakeOnRequest { data: Some(data) }, &mut response);
    assert_eq!(response.error_code, ErrorCode::NotValidRole);
    assert_eq!(p.role_list, roles);
    assert_eq!(p.notifications, vec![Notification::EquipTakeOn(EquipTakeOnNotify { data_list: vec![data] })]);
}

#[test]
fn taking_on_a_missing_weapon_is_refused() {
    let mut p = player();
    let roles = p.role_list.clone();
    let mut response = EquipTakeOnResponse { error_code: ErrorCode::Success, data_list: Vec::new() };
    let data = EquipData { role_id: 1102, equip_inc_id: 99 };
    on_equip_take_on_request(&mut p, EquipTakeOnRequest { data: Some(data) }, &mut response);
    assert_eq!(response.error_code, ErrorCode::ErrItemNotFound);
    assert_eq!(p.role_list, roles);
    assert_eq!(p.notifications.len(), 1);
}

#[test]
fn take_on_request_without_data_is_not_answered() {
    let mut p = player();
    let before = p.clone();
    let mut response = EquipTakeOnResponse { error_code: ErrorCode::ErrItemNotFound, data_list: Vec::new() };
    on_equip_take_on_request(&mut p, EquipTakeOnRequest { data: None }, &mut response);
    assert_eq!(p, before);
    assert_eq!(response.error_code, ErrorCode::ErrItemNotFound);
}
