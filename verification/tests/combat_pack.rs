use wicked_waifus_handlers::combat::{
    check_pack_request, damage_request_count, on_combat_message_combat_send_pack_request,
    roll_damage, DamageRoll, MAX_BASE_DAMAGE, MIN_BASE_DAMAGE,
};
use wicked_waifus_handlers::data::{DamageData, GameData};
use wicked_waifus_handlers::player::{
    AttributeComponent, AttributeEntry, BasicInfo, Entity, Inventory, Player, Role, RoleFormation,
    UnlockedSkins, World,
};
use wicked_waifus_handlers::protocol::{
    AttributeChangedNotify, AttributeType, CombatCommon, CombatNotifyMessage, CombatReceiveData,
    CombatReceiveMessage, CombatRequestData, CombatRequestMessage, CombatResponseMessage,
    CombatSendData, CombatSendMessage, CombatSendPackRequest, CombatSendPackResponse,
    DamageExecuteRequest, DamageExecuteResponse, ErrorCode, FsmConditionPassRequest,
    GameplayAttributeData, PlayerBattleStateChangeNotify, SwitchRoleRequest, SwitchRoleResponse,
};

fn entity(entity_id: i64, config_id: i32, life: Option<i32>) -> Entity {
    let attr_map = match life {
        Some(v) => vec![
            AttributeEntry { attribute_type: AttributeType::Other(3), value: 50, base_value: 50 },
            AttributeEntry { attribute_type: AttributeType::Life, value: v, base_value: v },
        ],
        None => vec![AttributeEntry { attribute_type: AttributeType::Other(3), value: 50, base_value: 50 }],
    };
    Entity {
        entity_id,
        config_id,
        attribute: Some(AttributeComponent { attr_map }),
        weapon_skin: None,
        equip: None,
    }
}

fn player() -> Player {
    Player {
        basic_info: BasicInfo { id: 42 },
        formation_list: vec![
            RoleFormation { formation_id: 1, cur_role: 1101, is_current: false },
            RoleFormation { formation_id: 2, cur_role: 1102, is_current: true },
        ],
        role_list: vec![Role { role_id: 1102, level: 90, equip_weapon: 21010011, weapon_skin_id: 0 }],
        inventory: Inventory { normal_items: Vec::new(), weapons: Vec::new() },
        unlocked_skins: UnlockedSkins { weapon_skins: Vec::new() },
        world: World {
            entities: vec![
                entity(10, 1102, Some(1000)),
                entity(20, 300001, Some(5000)),
                entity(30, 300002, None),
            ],
        },
        notifications: Vec::new(),
    }
}

fn game_data() -> GameData {
    GameData {
        damage_data: vec![
            DamageData { id: 7001, element_power_type: 3 },
            DamageData { id: 7002, element_power_type: 5 },
        ],
        weapon_skin_data: Vec::new(),
        item_exchange_content_data: Vec::new(),
    }
}

fn request(request_id: i32, message: CombatRequestMessage) -> CombatSendData {
    CombatSendData {
        message: Some(CombatSendMessage::Request(CombatRequestData {
            combat_common: Some(CombatCommon { entity_id: 10 }),
            request_id,
            message: Some(message),
        })),
    }
}

fn damage(target: i64, damage_id: i64) -> CombatRequestMessage {
    CombatRequestMessage::DamageExecuteRequest(DamageExecuteRequest {
        attacker_entity_id: 10,
        target_entity_id: target,
        damage_id,
        skill_level: 1,
        part_index: 2,
    })
}

fn empty_response() -> CombatSendPackResponse {
    CombatSendPackResponse { error_code: ErrorCode::NotValidRole, receive_pack_notify: None }
}

fn pack(response: &CombatSendPackResponse) -> Vec<CombatReceiveData> {
    response.receive_pack_notify.as_ref().map(|p| p.data.clone()).unwrap_or_default()
}

fn response_message(item: &CombatReceiveData) -> (i32, CombatResponseMessage) {
    match &item.message {
        Some(CombatReceiveMessage::CombatResponseData(r)) => (r.request_id, r.message.clone().unwrap()),
        other => panic!("not a response: {:?}", other),
    }
}

fn notify_message(item: &CombatReceiveData) -> (Option<CombatCommon>, CombatNotifyMessage) {
    match &item.message {
        Some(CombatReceiveMessage::CombatNotifyData(n)) => (n.combat_common, n.message.clone().unwrap()),
        other => panic!("not a notification: {:?}", other),
    }
}

#[test]
fn switch_role_updates_current_formation() {
    let mut p = player();
    let mut response = empty_response();
    let req = CombatSendPackRequest {
        data: vec![request(5, CombatRequestMessage::SwitchRoleRequest(SwitchRoleRequest { role_id: 1205 }))],
    };
    on_combat_message_combat_send_pack_request(&mut p, req, &game_data(), &Vec::new(), &mut response);
    assert_eq!(p.formation_list[1].cur_role, 1205);
    assert_eq!(p.formation_list[0].cur_role, 1101);
    assert_eq!(response.error_code, ErrorCode::Success);
    let items = pack(&response);
    assert_eq!(items.len(), 1);
    assert_eq!(
        response_message(&items[0]),
        (5, CombatResponseMessage::SwitchRoleResponse(SwitchRoleResponse { error_code: ErrorCode::Success, role_id: 1205 }))
    );
}

#[test]
fn last_switch_wins() {
    let mut p = player();
    let mut response = empty_response();
    let req = CombatSendPackRequest {
        data: vec![
            request(1, CombatRequestMessage::SwitchRoleRequest(SwitchRoleRequest { role_id: 1 })),
            request(2, CombatRequestMessage::SwitchRoleRequest(SwitchRoleRequest { role_id: 2 })),
        ],
    };
    on_combat_message_combat_send_pack_request(&mut p, req, &game_data(), &Vec::new(), &mut response);
    assert_eq!(p.formation_list[1].cur_role, 2);
    assert_eq!(pack(&response).len(), 2);
}

#[test]
fn switch_role_without_formation_answers_nothing_but_success() {
    let mut p = player();
    p.formation_list = vec![RoleFormation { formation_id: 1, cur_role: 1101, is_current: false }];
    let before = p.clone();
    let mut response = empty_response();
    let req = CombatSendPackRequest {
        data: vec![request(5, CombatRequestMessage::SwitchRoleRequest(SwitchRoleRequest { role_id: 1205 }))],
    };
    on_combat_message_combat_send_pack_request(&mut p, req, &game_data(), &Vec::new(), &mut response);
    assert_eq!(p, before);
    assert_eq!(response.receive_pack_notify, None);
    // the pack handler always ends with success
    assert_eq!(response.error_code, ErrorCode::Success);
}

#[test]
fn fsm_condition_passes_and_enters_battle() {
    let mut p = player();
    let mut response = empty_response();
    let req = CombatSendPackRequest {
        data: vec![request(8, CombatRequestMessage::FsmConditionPassRequest(FsmConditionPassRequest { fsm_id: 77 }))],
    };
    on_combat_message_combat_send_pack_request(&mut p, req, &game_data(), &Vec::new(), &mut response);
    let items = pack(&response);
    assert_eq!(items.len(), 2);
    match response_message(&items[0]) {
        (8, CombatResponseMessage::FsmConditionPassResponse(r)) => {
            assert_eq!(r.fsm_id, 77);
            let e = r.error.unwrap();
            assert_eq!(e.error_code, ErrorCode::Success);
            assert!(e.error_params.is_empty());
        }
        other => panic!("unexpected {:?}", other),
    }
    assert_eq!(
        notify_message(&items[1]),
        (
            Some(CombatCommon { entity_id: 10 }),
            CombatNotifyMessage::PlayerBattleStateChangeNotify(PlayerBattleStateChangeNotify { player_id: 42, in_battle: true })
        )
    );
}

#[test]
fn damage_reduces_life_and_reports_element() {
    let mut p = player();
    let mut response = empty_response();
    let req = CombatSendPackRequest { data: vec![request(3, damage(20, 7002))] };
    let rolls = vec![DamageRoll { base_damage: 1200, is_crit: false, crit_damage: 3072 }];
    on_combat_message_combat_send_pack_request(&mut p, req, &game_data(), &rolls, &mut response);
    let items = pack(&response);
    assert_eq!(items.len(), 2);
    assert_eq!(
        response_message(&items[0]),
        (
            3,
            CombatResponseMessage::DamageExecuteResponse(DamageExecuteResponse {
                error_code: ErrorCode::Success,
                attacker_entity_id: 10,
                target_entity_id: 20,
                part_index: 2,
                damage: 1200,
                e_k: 5,
                is_crit: false,
            })
        )
    );
    assert_eq!(
        notify_message(&items[1]),
        (
            Some(CombatCommon { entity_id: 20 }),
            CombatNotifyMessage::AttributeChangedNotify(AttributeChangedNotify {
                id: 20,
                attributes: vec![GameplayAttributeData { current_value: 3800, value_increment: 3800, attribute_type: AttributeType::Life }],
            })
        )
    );
}

#[test]
fn critical_damage_uses_crit_value_and_life_stops_at_zero() {
    let mut p = player();
    let mut response = empty_response();
    let req = CombatSendPackRequest { data: vec![request(3, damage(20, 9999))] };
    let rolls = vec![DamageRoll { base_damage: 4000, is_crit: true, crit_damage: 10240 }];
    on_combat_message_combat_send_pack_request(&mut p, req, &game_data(), &rolls, &mut response);
    let items = pack(&response);
    match response_message(&items[0]) {
        (_, CombatResponseMessage::DamageExecuteResponse(r)) => {
            assert_eq!(r.damage, 10240);
            assert!(r.is_crit);
            // unknown damage id: element 0
            assert_eq!(r.e_k, 0);
        }
        other => panic!("unexpected {:?}", other),
    }
    match notify_message(&items[1]) {
        (_, CombatNotifyMessage::AttributeChangedNotify(n)) => assert_eq!(n.attributes[0].current_value, 0),
        other => panic!("unexpected {:?}", other),
    }
}

#[test]
fn damage_exactly_equal_to_life_leaves_zero() {
    let mut p = player();
    let mut response = empty_response();
    let req = CombatSendPackRequest { data: vec![request(3, damage(20, 7001))] };
    let rolls = vec![DamageRoll { base_damage: 5000, is_crit: false, crit_damage: 12800 }];
    on_combat_message_combat_send_pack_request(&mut p, req, &game_data(), &rolls, &mut response);
    match notify_message(&pack(&response)[1]) {
        (_, CombatNotifyMessage::AttributeChangedNotify(n)) => assert_eq!(n.attributes[0].current_value, 0),
        other => panic!("unexpected {:?}", other),
    }
}

#[test]
fn damage_on_target_without_life_answers_once() {
    let mut p = player();
    let mut response = empty_response();
    let req = CombatSendPackRequest { data: vec![request(3, damage(30, 7001))] };
    let rolls = vec![DamageRoll { base_damage: 10, is_crit: false, crit_damage: 25 }];
    on_combat_message_combat_send_pack_request(&mut p, req, &game_data(), &rolls, &mut response);
    assert_eq!(pack(&response).len(), 1);
}

#[test]
fn rolls_are_used_in_order() {
    let mut p = player();
    let mut response = empty_response();
    let req = CombatSendPackRequest {
        data: vec![
            request(1, damage(20, 7001)),
            request(2, CombatRequestMessage::FsmConditionPassRequest(FsmConditionPassRequest { fsm_id: 1 })),
            request(3, damage(30, 7001)),
        ],
    };
    assert_eq!(damage_request_count(&req), 2);
    let rolls = vec![
        DamageRoll { base_damage: 11, is_crit: false, crit_damage: 28 },
        DamageRoll { base_damage: 22, is_crit: false, crit_damage: 56 },
    ];
    on_combat_message_combat_send_pack_request(&mut p, req, &game_data(), &rolls, &mut response);
    let items = pack(&response);
    assert_eq!(items.len(), 5);
    let damages: Vec<i32> = items
        .iter()
        .filter_map(|i| match &i.message {
            Some(CombatReceiveMessage::CombatResponseData(r)) => match &r.message {
                Some(CombatResponseMessage::DamageExecuteResponse(d)) => Some(d.damage),
                _ => None,
            },
            _ => None,
        })
        .collect();
    assert_eq!(damages, vec![11, 22]);
}

#[test]
fn answers_are_appended_to_an_existing_pack() {
    let mut p = player();
    let mut response = empty_response();
    let first = CombatSendPackRequest {
        data: vec![request(1, CombatRequestMessage::FsmConditionPassRequest(FsmConditionPassRequest { fsm_id: 1 }))],
    };
    on_combat_message_combat_send_pack_request(&mut p, first, &game_data(), &Vec::new(), &mut response);
    let second = CombatSendPackRequest {
        data: vec![request(2, CombatRequestMessage::SwitchRoleRequest(SwitchRoleRequest { role_id: 9 }))],
    };
    on_combat_message_combat_send_pack_request(&mut p, second, &game_data(), &Vec::new(), &mut response);
    let items = pack(&response);
    assert_eq!(items.len(), 3);
    assert_eq!(response_message(&items[2]).0, 2);
}

#[test]
fn entries_that_are_not_handled_are_skipped() {
    let mut p = player();
    let mut response = empty_response();
    let req = CombatSendPackRequest {
        data: vec![
            CombatSendData { message: None },
            CombatSendData { message: Some(CombatSendMessage::Other(1)) },
            request(4, CombatRequestMessage::Other(3)),
            CombatSendData {
                message: Some(CombatSendMessage::Request(CombatRequestData { combat_common: None, request_id: 5, message: None })),
            },
        ],
    };
    on_combat_message_combat_send_pack_request(&mut p, req, &game_data(), &Vec::new(), &mut response);
    assert_eq!(response.receive_pack_notify, None);
    assert_eq!(response.error_code, ErrorCode::Success);
}

#[test]
fn pack_check_refuses_what_cannot_be_answered() {
    let p = player();
    let ok = CombatSendPackRequest { data: vec![request(1, damage(20, 7001))] };
    assert!(check_pack_request(&p, &game_data(), &ok));
    // target without an attribute component
    let mut q = player();
    q.world.entities[1].attribute = None;
    assert!(!check_pack_request(&q, &game_data(), &ok));
    // missing target
    let missing = CombatSendPackRequest { data: vec![request(1, damage(99, 7001))] };
    assert!(!check_pack_request(&p, &game_data(), &missing));
    // state machine condition without its combat common part
    let no_common = CombatSendPackRequest {
        data: vec![CombatSendData {
            message: Some(CombatSendMessage::Request(CombatRequestData {
                combat_common: None,
                request_id: 1,
                message: Some(CombatRequestMessage::FsmConditionPassRequest(FsmConditionPassRequest { fsm_id: 1 })),
            })),
        }],
    };
    assert!(!check_pack_request(&p, &game_data(), &no_common));
    // attacker id out of range
    let far = CombatSendPackRequest {
        data: vec![request(
            1,
            CombatRequestMessage::DamageExecuteRequest(DamageExecuteRequest {
                attacker_entity_id: i64::MAX,
                target_entity_id: 20,
                damage_id: 7001,
                skill_level: 1,
                part_index: 0,
            }),
        )],
    };
    assert!(!check_pack_request(&p, &game_data(), &far));
    // a four-digit attacker hit by a known damage id needs an attribute component
    let mut r = player();
    r.world.entities[0].attribute = None;
    assert!(!check_pack_request(&r, &game_data(), &ok));
    let unknown_damage = CombatSendPackRequest { data: vec![request(1, damage(20, 1))] };
    assert!(check_pack_request(&r, &game_data(), &unknown_damage));
}

#[test]
fn rolled_base_damage_stays_in_range_and_varies() {
    let mut crits = 0;
    let mut bases = std::collections::HashSet::new();
    for _ in 0..2000 {
        let (base, is_crit) = roll_damage();
        assert!(base >= MIN_BASE_DAMAGE && base <= MAX_BASE_DAMAGE);
        bases.insert(base);
        if is_crit {
            crits += 1;
        }
    }
    assert!(bases.len() > 1);
    assert!(crits > 0 && crits < 2000);
}

#[test]
fn damage_answers_ignore_the_skill_level() {
    let rolls = vec![DamageRoll { base_damage: 700, is_crit: true, crit_damage: 1792 }];
    let mut answers = Vec::new();
    for skill_level in [1, 5, 10] {
        let mut p = player();
        let mut response = empty_response();
        let req = CombatSendPackRequest {
            data: vec![request(
                3,
                CombatRequestMessage::DamageExecuteRequest(DamageExecuteRequest {
                    attacker_entity_id: 10,
                    target_entity_id: 20,
                    damage_id: 7001,
                    skill_level,
                    part_index: 2,
                }),
            )],
        };
        on_combat_message_combat_send_pack_request(&mut p, req, &game_data(), &rolls, &mut response);
        answers.push(pack(&response));
    }
    assert_eq!(answers[0], answers[1]);
    assert_eq!(answers[1], answers[2]);
}

#[test]
fn switching_to_the_same_role_twice_equals_once() {
    let mut once = player();
    let mut twice = player();
    let switch = || request(1, CombatRequestMessage::SwitchRoleRequest(SwitchRoleRequest { role_id: 1205 }));
    let mut r1 = empty_response();
    let mut r2 = empty_response();
    on_combat_message_combat_send_pack_request(&mut once, CombatSendPackRequest { data: vec![switch()] }, &game_data(), &Vec::new(), &mut r1);
    on_combat_message_combat_send_pack_request(&mut twice, CombatSendPackRequest { data: vec![switch(), switch()] }, &game_data(), &Vec::new(), &mut r2);
    assert_eq!(once.formation_list, twice.formation_list);
    assert_eq!(pack(&r2).len(), 2);
    assert_eq!(pack(&r2)[1], pack(&r1)[0]);
}

#[test]
fn unhandled_entries_do_not_change_the_answers() {
    let rolls = vec![DamageRoll { base_damage: 50, is_crit: false, crit_damage: 128 }];
    let handled = vec![
        request(1, CombatRequestMessage::SwitchRoleRequest(SwitchRoleRequest { role_id: 7 })),
        request(2, damage(20, 7001)),
    ];
    let mut with_skips = handled.clone();
    with_skips.insert(1, CombatSendData { message: Some(CombatSendMessage::Other(4)) });
    with_skips.insert(0, request(9, CombatRequestMessage::Other(1)));
    let mut p1 = player();
    let mut p2 = player();
    let mut r1 = empty_response();
    let mut r2 = empty_response();
    on_combat_message_combat_send_pack_request(&mut p1, CombatSendPackRequest { data: handled }, &game_data(), &rolls, &mut r1);
    on_combat_message_combat_send_pack_request(&mut p2, CombatSendPackRequest { data: with_skips }, &game_data(), &rolls, &mut r2);
    assert_eq!(p1, p2);
    assert_eq!(r1, r2);
}
