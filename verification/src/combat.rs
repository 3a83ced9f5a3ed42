//! The combat pack handler: switching the role in play, passing state
//! machine conditions and executing damage.
//!
//! A combat pack is answered entry by entry. Every answer goes into the
//! receive pack of the response; the damage dealt comes from a random roll
//! made before the pack is handled, one roll for each damage request.
use vstd::prelude::*;
use crate::protocol::{
    AttributeChangedNotify, AttributeType, CombatCommon, CombatNotifyData, CombatNotifyMessage,
    CombatReceiveData, CombatReceiveMessage, CombatReceivePackNotify, CombatRequestData,
    CombatRequestMessage, CombatResponseData, CombatResponseMessage, CombatSendData,
    CombatSendMessage, CombatSendPackRequest, CombatSendPackResponse, DErrorResult,
    DamageExecuteRequest, DamageExecuteResponse, ErrorCode, FsmConditionPassRequest,
    FsmConditionPassResponse, GameplayAttributeData, NotifyView, PlayerBattleStateChangeNotify,
    ReceiveView, ResponseView, SwitchRoleRequest, SwitchRoleResponse,
};
use crate::player::{
    Entity, Player, PlayerView, RoleFormation, World, config_id_of, current_formation,
    formation_is_current, has_attribute, life_of, lemma_same_keys_wf, entity_has_id, entry_is_life,
};
use crate::data::{GameData, damage_row};
use crate::random::{random_range_inclusive, random_ratio};
use crate::search::lemma_first_congruent;

verus! {

/// Smallest base damage that a roll gives.
pub const MIN_BASE_DAMAGE: i32 = 1;

/// Largest base damage that a roll gives.
pub const MAX_BASE_DAMAGE: i32 = 999999;

/// A hit is critical with chance `CRIT_CHANCE_NUMERATOR / CRIT_CHANCE_DENOMINATOR`.
pub const CRIT_CHANCE_NUMERATOR: u32 = 4;

pub const CRIT_CHANCE_DENOMINATOR: u32 = 5;

/// The random part of one damage execution: the base damage, whether the
/// hit is critical, and the damage that a critical hit deals.
#[derive(Clone, Copy, Debug, PartialEq, Eq)]
pub struct DamageRoll {
    pub base_damage: i32,
    pub is_crit: bool,
    pub crit_damage: i32,
}

/// The damage that a roll deals.
pub open spec fn roll_damage_value(roll: DamageRoll) -> i32 {
    if roll.is_crit {
        roll.crit_damage
    } else {
        roll.base_damage
    }
}

/// A roll as `roll_damage` draws it, with a critical damage that is not negative.
pub open spec fn roll_ok(roll: DamageRoll) -> bool {
    &&& MIN_BASE_DAMAGE <= roll.base_damage <= MAX_BASE_DAMAGE
    &&& 0 <= roll.crit_damage
}

/// Draws the base damage of a hit, uniformly from `MIN_BASE_DAMAGE` to
/// `MAX_BASE_DAMAGE`, and whether it is critical, with chance
/// `CRIT_CHANCE_NUMERATOR / CRIT_CHANCE_DENOMINATOR`.
pub fn roll_damage() -> (r: (i32, bool))
    ensures
        MIN_BASE_DAMAGE <= r.0 <= MAX_BASE_DAMAGE,
{
    let base_damage = random_range_inclusive(MIN_BASE_DAMAGE, MAX_BASE_DAMAGE);
    let is_crit = random_ratio(CRIT_CHANCE_NUMERATOR, CRIT_CHANCE_DENOMINATOR);
    (base_damage, is_crit)
}

// ---------------------------------------------------------------------------
// What the handlers answer
// ---------------------------------------------------------------------------

/// The answer to the request `rd` that carries `message`.
pub open spec fn response_view(rd: CombatRequestData, message: ResponseView) -> ReceiveView {
    ReceiveView::Response { combat_common: rd.combat_common, request_id: rd.request_id, message: Some(message) }
}

/// A notification about `combat_common` that carries `message`.
pub open spec fn notify_view(combat_common: CombatCommon, message: NotifyView) -> ReceiveView {
    ReceiveView::Notify { combat_common: Some(combat_common), message: Some(message) }
}

/// The entries of the receive pack of `response`.
pub open spec fn pack_view(response: CombatSendPackResponse) -> Seq<ReceiveView> {
    match response.receive_pack_notify {
        Some(p) => p.data@.map_values(|d: CombatReceiveData| d@),
        None => Seq::empty(),
    }
}

/// What of the player the combat answers depend on.
pub struct CombatContext {
    pub has_current_formation: bool,
    pub player_id: i32,
    pub entities: Seq<Entity>,
}

pub open spec fn combat_context(p: PlayerView) -> CombatContext {
    CombatContext {
        has_current_formation: current_formation(p.formations) is Some,
        player_id: p.id,
        entities: p.entities,
    }
}

/// The formations after the role `role_id` is put in play in the current one.
pub open spec fn switched(formations: Seq<RoleFormation>, role_id: i32) -> Seq<RoleFormation> {
    match current_formation(formations) {
        Some(f) => formations.update(f, RoleFormation { cur_role: role_id, ..formations[f] }),
        None => formations,
    }
}

/// The answers to a role switch: a success carrying the role, when a formation is in use.
pub open spec fn switch_outputs(ctx: CombatContext, rd: CombatRequestData, request: SwitchRoleRequest) -> Seq<ReceiveView> {
    if ctx.has_current_formation {
        seq![response_view(rd, ResponseView::SwitchRole(SwitchRoleResponse { error_code: ErrorCode::Success, role_id: request.role_id }))]
    } else {
        Seq::empty()
    }
}

/// The answers to a state machine condition: the condition passes, and the
/// player is in battle.
pub open spec fn fsm_outputs(ctx: CombatContext, rd: CombatRequestData, request: FsmConditionPassRequest) -> Seq<ReceiveView> {
    seq![
        response_view(rd, ResponseView::FsmConditionPass { fsm_id: request.fsm_id, error: Some((ErrorCode::Success, Seq::empty())) }),
        notify_view(rd.combat_common.unwrap(), NotifyView::PlayerBattleStateChange(PlayerBattleStateChangeNotify { player_id: ctx.player_id, in_battle: true })),
    ]
}

/// The element of the damage row `damage_id`, or 0 without one.
pub open spec fn element_of(table: Seq<crate::data::DamageData>, damage_id: i64) -> i32 {
    match damage_row(table, damage_id) {
        Some(d) => d.element_power_type,
        None => 0,
    }
}

/// Life left after `damage`: never below zero.
pub open spec fn life_after(life: i32, damage: i32) -> i32 {
    if life - damage >= 0 {
        (life - damage) as i32
    } else {
        0
    }
}

/// The answers to a damage request: the damage executed, then, when the
/// target has a life attribute, its new life.
pub open spec fn damage_outputs(
    ctx: CombatContext,
    data: GameData,
    rd: CombatRequestData,
    request: DamageExecuteRequest,
    roll: DamageRoll,
) -> Seq<ReceiveView> {
    let executed = response_view(rd, ResponseView::DamageExecute(DamageExecuteResponse {
        error_code: ErrorCode::Success,
        attacker_entity_id: request.attacker_entity_id,
        target_entity_id: request.target_entity_id,
        part_index: request.part_index,
        damage: roll_damage_value(roll),
        e_k: element_of(data.damage_data@, request.damage_id),
        is_crit: roll.is_crit,
    }));
    match life_of(ctx.entities, request.target_entity_id) {
        Some(life) => {
            let left = life_after(life, roll_damage_value(roll));
            seq![
                executed,
                notify_view(
                    CombatCommon { entity_id: request.target_entity_id },
                    NotifyView::AttributeChanged {
                        id: request.target_entity_id,
                        attributes: seq![GameplayAttributeData { current_value: left, value_increment: left, attribute_type: AttributeType::Life }],
                    },
                ),
            ]
        },
        None => seq![executed],
    }
}

/// The request carried by a pack entry, if it carries one.
pub open spec fn entry_request(entry: CombatSendData) -> Option<(CombatRequestData, CombatRequestMessage)> {
    match entry.message {
        Some(CombatSendMessage::Request(rd)) => match rd.message {
            Some(m) => Some((rd, m)),
            None => None,
        },
        _ => None,
    }
}

/// Whether a pack entry is a damage request.
pub open spec fn is_damage_entry(entry: CombatSendData) -> bool {
    entry_request(entry) matches Some((_, CombatRequestMessage::DamageExecuteRequest(_)))
}

/// The role that a pack entry switches to, if it is a role switch.
pub open spec fn switch_role_of(entry: CombatSendData) -> Option<i32> {
    match entry_request(entry) {
        Some((_, CombatRequestMessage::SwitchRoleRequest(r))) => Some(r.role_id),
        _ => None,
    }
}

/// The answers to one pack entry; `roll` is used by a damage request only.
pub open spec fn entry_outputs(ctx: CombatContext, data: GameData, entry: CombatSendData, roll: DamageRoll) -> Seq<ReceiveView> {
    match entry_request(entry) {
        Some((rd, CombatRequestMessage::SwitchRoleRequest(r))) => switch_outputs(ctx, rd, r),
        Some((rd, CombatRequestMessage::FsmConditionPassRequest(r))) => fsm_outputs(ctx, rd, r),
        Some((rd, CombatRequestMessage::DamageExecuteRequest(r))) => damage_outputs(ctx, data, rd, r, roll),
        _ => Seq::empty(),
    }
}

/// Number of damage requests among `entries`.
pub open spec fn damage_count(entries: Seq<CombatSendData>) -> nat
    decreases entries.len(),
{
    if entries.len() == 0 {
        0
    } else {
        damage_count(entries.drop_last()) + if is_damage_entry(entries.last()) { 1nat } else { 0nat }
    }
}

/// The answers to `entries` in order; the damage requests use `rolls` in order.
pub open spec fn pack_outputs(ctx: CombatContext, data: GameData, entries: Seq<CombatSendData>, rolls: Seq<DamageRoll>) -> Seq<ReceiveView>
    decreases entries.len(),
{
    if entries.len() == 0 {
        Seq::empty()
    } else {
        pack_outputs(ctx, data, entries.drop_last(), rolls)
            + entry_outputs(ctx, data, entries.last(), rolls[damage_count(entries.drop_last()) as int])
    }
}

/// The formations after the role switches among `entries`, in order.
pub open spec fn formations_after(formations: Seq<RoleFormation>, entries: Seq<CombatSendData>) -> Seq<RoleFormation>
    decreases entries.len(),
{
    if entries.len() == 0 {
        formations
    } else {
        let before = formations_after(formations, entries.drop_last());
        match switch_role_of(entries.last()) {
            Some(role_id) => switched(before, role_id),
            None => before,
        }
    }
}

/// `rd` carries a combat common part, which the battle notification copies.
pub open spec fn fsm_request_ok(rd: CombatRequestData) -> bool {
    rd.combat_common is Some
}

/// `config_id` is written with four characters in decimal.
pub open spec fn four_chars(config_id: i32) -> bool {
    (1000 <= config_id <= 9999) || (-999 <= config_id <= -100)
}

/// The world holds what a damage request reads: the attacker's id fits in an
/// `i32`; the target exists with an attribute component; and an attacker
/// whose config id has four characters, hit by a damage id of the table,
/// has an attribute component too.
pub open spec fn damage_request_ok(ctx: CombatContext, data: GameData, request: DamageExecuteRequest) -> bool {
    &&& i32::MIN <= request.attacker_entity_id <= i32::MAX
    &&& has_attribute(ctx.entities, request.target_entity_id)
    &&& match config_id_of(ctx.entities, request.attacker_entity_id) {
        Some(c) => four_chars(c) && damage_row(data.damage_data@, request.damage_id) is Some
            ==> has_attribute(ctx.entities, request.attacker_entity_id),
        None => true,
    }
}

/// A pack entry can be answered.
pub open spec fn entry_ok(ctx: CombatContext, data: GameData, entry: CombatSendData) -> bool {
    match entry_request(entry) {
        Some((rd, CombatRequestMessage::FsmConditionPassRequest(_))) => fsm_request_ok(rd),
        Some((_, CombatRequestMessage::DamageExecuteRequest(r))) => damage_request_ok(ctx, data, r),
        _ => true,
    }
}

// ---------------------------------------------------------------------------
// Handlers
// ---------------------------------------------------------------------------

/// Wraps `message` as the answer to `combat_request`.
fn create_combat_response(combat_request: &CombatRequestData, message: CombatResponseMessage) -> (r: CombatReceiveData)
    ensures
        r@ == response_view(*combat_request, message@),
{
    CombatReceiveData {
        message: Some(CombatReceiveMessage::CombatResponseData(CombatResponseData {
            combat_common: combat_request.combat_common,
            request_id: combat_request.request_id,
            message: Some(message),
        })),
    }
}

/// Wraps `message` as a notification about `combat_common`.
fn create_combat_notify(combat_common: CombatCommon, message: CombatNotifyMessage) -> (r: CombatReceiveData)
    ensures
        r@ == notify_view(combat_common, message@),
{
    CombatReceiveData {
        message: Some(CombatReceiveMessage::CombatNotifyData(CombatNotifyData {
            combat_common: Some(combat_common),
            message: Some(message),
        })),
    }
}

/// Appends `item` to the receive pack of `response`, which is made when missing.
fn push_receive(response: &mut CombatSendPackResponse, item: CombatReceiveData)
    ensures
        final(response).receive_pack_notify is Some,
        pack_view(*final(response)) == pack_view(*old(response)).push(item@),
        final(response).error_code == old(response).error_code,
{
    let pack = response.receive_pack_notify.take();
    let mut pack = match pack {
        Some(p) => p,
        None => {
            let p = CombatReceivePackNotify { data: Vec::new() };
            proof {
                assert(p.data@.map_values(|d: CombatReceiveData| d@) =~= pack_view(*old(response)));
            }
            p
        },
    };
    let ghost before = pack.data@;
    pack.data.push(item);
    response.receive_pack_notify = Some(pack);
    proof {
        assert(before.push(item).map_values(|d: CombatReceiveData| d@) =~= before.map_values(
            |d: CombatReceiveData| d@,
        ).push(item@));
    }
}

/// Puts the role `request.role_id` in play in the current formation and
/// answers with a success; without a current formation, the answer is an error
/// code and nothing is added to the receive pack.
fn handle_switch_role_request(
    player: &mut Player,
    combat_request: &CombatRequestData,
    request: &SwitchRoleRequest,
    response: &mut CombatSendPackResponse,
)
    ensures
        final(player)@ == (PlayerView { formations: switched(old(player)@.formations, request.role_id), ..old(player)@ }),
        pack_view(*final(response)) == pack_view(*old(response)) + switch_outputs(combat_context(old(player)@), *combat_request, *request),
        current_formation(old(player)@.formations) is Some ==> {
            &&& final(response).receive_pack_notify is Some
            &&& final(response).error_code == ErrorCode::Success
        },
        current_formation(old(player)@.formations) is None ==> {
            &&& final(response).receive_pack_notify == old(response).receive_pack_notify
            &&& final(response).error_code == ErrorCode::ErrSwitchRoleEntityNotExist
        },
{
    match player.find_current_formation() {
        Some(f) => {
            let mut formation = player.formation_list[f];
            formation.cur_role = request.role_id;
            player.formation_list.set(f, formation);
            let item = create_combat_response(
                combat_request,
                CombatResponseMessage::SwitchRoleResponse(SwitchRoleResponse { error_code: ErrorCode::Success, role_id: request.role_id }),
            );
            push_receive(response, item);
            response.error_code = ErrorCode::Success;
            proof {
                assert(player@.formations =~= switched(old(player)@.formations, request.role_id));
                assert(player@ == (PlayerView { formations: switched(old(player)@.formations, request.role_id), ..old(player)@ }));
                assert(pack_view(*response) =~= pack_view(*old(response)) + switch_outputs(combat_context(old(player)@), *combat_request, *request));
            }
        },
        None => {
            response.error_code = ErrorCode::ErrSwitchRoleEntityNotExist;
            proof {
                assert(pack_view(*response) =~= pack_view(*old(response)) + switch_outputs(combat_context(old(player)@), *combat_request, *request));
            }
        },
    }
}

/// Notifies that the player enters (`condition`) or leaves battle, about the
/// combat common part of `combat_request`.
fn handle_battle(
    player: &Player,
    combat_request: &CombatRequestData,
    response: &mut CombatSendPackResponse,
    condition: bool,
)
    requires
        fsm_request_ok(*combat_request),
    ensures
        final(response).receive_pack_notify is Some,
        pack_view(*final(response)) == pack_view(*old(response)).push(
            notify_view(combat_request.combat_common.unwrap(), NotifyView::PlayerBattleStateChange(PlayerBattleStateChangeNotify { player_id: player@.id, in_battle: condition })),
        ),
        final(response).error_code == old(response).error_code,
{
    let combat_common = match combat_request.combat_common {
        Some(c) => c,
        None => CombatCommon { entity_id: 0 },
    };
    let item = create_combat_notify(
        combat_common,
        CombatNotifyMessage::PlayerBattleStateChangeNotify(PlayerBattleStateChangeNotify { player_id: player.basic_info.id, in_battle: condition }),
    );
    push_receive(response, item);
}

/// Answers that the state machine condition passes, then notifies that the
/// player is in battle.
fn handle_fsm_condition_request(
    player: &Player,
    combat_request: &CombatRequestData,
    request: &FsmConditionPassRequest,
    response: &mut CombatSendPackResponse,
)
    requires
        fsm_request_ok(*combat_request),
    ensures
        final(response).receive_pack_notify is Some,
        pack_view(*final(response)) == pack_view(*old(response)) + fsm_outputs(combat_context(player@), *combat_request, *request),
        final(response).error_code == old(response).error_code,
{
    let item = create_combat_response(
        combat_request,
        CombatResponseMessage::FsmConditionPassResponse(FsmConditionPassResponse {
            fsm_id: request.fsm_id,
            error: Some(DErrorResult { error_code: ErrorCode::Success, error_params: Vec::new() }),
        }),
    );
    push_receive(response, item);
    handle_battle(player, combat_request, response, true);
    proof {
        assert(pack_view(*final(response)) =~= pack_view(*old(response)) + fsm_outputs(combat_context(player@), *combat_request, *request));
    }
}

/// Executes the damage of `roll` on the target of `request`: answers with
/// the damage, its element and whether it was critical, then, when the
/// target has a life attribute, notifies its life after the damage.
fn handle_damage_execute_request(
    player: &Player,
    data: &GameData,
    combat_request: &CombatRequestData,
    request: &DamageExecuteRequest,
    roll: DamageRoll,
    response: &mut CombatSendPackResponse,
)
    requires
        damage_request_ok(combat_context(player@), *data, *request),
        roll_ok(roll),
    ensures
        final(response).receive_pack_notify is Some,
        pack_view(*final(response)) == pack_view(*old(response)) + damage_outputs(combat_context(player@), *data, *combat_request, *request, roll),
        final(response).error_code == ErrorCode::Success,
{
    let damage = if roll.is_crit {
        roll.crit_damage
    } else {
        roll.base_damage
    };
    let element = match data.find_damage_data(request.damage_id) {
        Some(d) => d.element_power_type,
        None => 0,
    };
    let executed = create_combat_response(
        combat_request,
        CombatResponseMessage::DamageExecuteResponse(DamageExecuteResponse {
            error_code: ErrorCode::Success,
            attacker_entity_id: request.attacker_entity_id,
            target_entity_id: request.target_entity_id,
            part_index: request.part_index,
            damage,
            e_k: element,
            is_crit: roll.is_crit,
        }),
    );
    push_receive(response, executed);

    let life = match player.world.find_entity(request.target_entity_id) {
        Some(idx) => match &player.world.entities[idx].attribute {
            Some(attribute) => attribute.get_life(),
            None => None,
        },
        None => None,
    };
    match life {
        Some(value) => {
            let diff: i64 = value as i64 - damage as i64;
            let updated_value: i32 = if diff >= 0 {
                diff as i32
            } else {
                0
            };
            let mut attributes: Vec<GameplayAttributeData> = Vec::new();
            attributes.push(GameplayAttributeData {
                current_value: updated_value,
                value_increment: updated_value,
                attribute_type: AttributeType::Life,
            });
            let notify = create_combat_notify(
                CombatCommon { entity_id: request.target_entity_id },
                CombatNotifyMessage::AttributeChangedNotify(AttributeChangedNotify { id: request.target_entity_id, attributes }),
            );
            push_receive(response, notify);
        },
        None => {},
    }
    response.error_code = ErrorCode::Success;
    proof {
        assert(pack_view(*response) =~= pack_view(*old(response)) + damage_outputs(combat_context(player@), *data, *combat_request, *request, roll));
    }
}

/// Answers every entry of a combat pack in order, puts the last role
/// switched to in play, and sets the response's error code to success.
///
/// The damage requests of the pack take their rolls from `rolls` in order;
/// `damage_request_count` tells how many rolls are needed.
pub fn on_combat_message_combat_send_pack_request(
    player: &mut Player,
    request: CombatSendPackRequest,
    data: &GameData,
    rolls: &Vec<DamageRoll>,
    response: &mut CombatSendPackResponse,
)
    requires
        forall|i: int| 0 <= i < request.data@.len() ==> entry_ok(combat_context(old(player)@), *data, #[trigger] request.data@[i]),
        damage_count(request.data@) <= rolls@.len(),
        forall|i: int| 0 <= i < rolls@.len() ==> roll_ok(#[trigger] rolls@[i]),
    ensures
        old(player)@.wf() ==> final(player)@.wf(),
        final(player)@ == (PlayerView { formations: formations_after(old(player)@.formations, request.data@), ..old(player)@ }),
        pack_view(*final(response)) == pack_view(*old(response)) + pack_outputs(combat_context(old(player)@), *data, request.data@, rolls@),
        final(response).receive_pack_notify is Some <==> (old(response).receive_pack_notify is Some
            || pack_outputs(combat_context(old(player)@), *data, request.data@, rolls@).len() > 0),
        final(response).error_code == ErrorCode::Success,
{
    let ghost ctx = combat_context(player@);
    let ghost start = player@;
    let ghost entries = request.data@;
    let n = request.data.len();
    let mut i: usize = 0;
    let mut k: usize = 0;
    proof {
        assert(entries.take(0) =~= Seq::<CombatSendData>::empty());
        lemma_damage_count_prefix(entries, 0);
    }
    while i < n
        invariant
            n == entries.len(),
            entries == request.data@,
            i <= n,
            k == damage_count(entries.take(i as int)),
            damage_count(entries) <= rolls@.len(),
            forall|j: int| 0 <= j < rolls@.len() ==> roll_ok(#[trigger] rolls@[j]),
            forall|j: int| 0 <= j < entries.len() ==> entry_ok(ctx, *data, #[trigger] entries[j]),
            ctx == combat_context(start),
            combat_context(player@) == ctx,
            player@ == (PlayerView { formations: formations_after(start.formations, entries.take(i as int)), ..start }),
            pack_view(*response) == pack_view(*old(response)) + pack_outputs(ctx, *data, entries.take(i as int), rolls@),
            response.receive_pack_notify is Some <==> (old(response).receive_pack_notify is Some
                || pack_outputs(ctx, *data, entries.take(i as int), rolls@).len() > 0),
        decreases n - i,
    {
        let entry = request.data[i];
        let ghost prefix = entries.take(i as int);
        let ghost next = entries.take(i + 1);
        proof {
            assert(next.drop_last() =~= prefix);
            assert(next.last() == entry);
            lemma_damage_count_prefix(entries, i + 1);
        }
        match entry.message {
            Some(CombatSendMessage::Request(rd)) => match rd.message {
                Some(CombatRequestMessage::SwitchRoleRequest(r)) => {
                    let ghost before = player@;
                    handle_switch_role_request(player, &rd, &r, response);
                    proof {
                        lemma_switched_keeps_current(before.formations, r.role_id);
                    }
                },
                Some(CombatRequestMessage::FsmConditionPassRequest(r)) => {
                    assert(entry_ok(ctx, *data, entries[i as int]));
                    handle_fsm_condition_request(player, &rd, &r, response);
                },
                Some(CombatRequestMessage::DamageExecuteRequest(r)) => {
                    assert(entry_ok(ctx, *data, entries[i as int]));
                    assert(damage_count(next) == k + 1);
                    assert(k < rolls.len());
                    let roll = rolls[k];
                    handle_damage_execute_request(player, data, &rd, &r, roll, response);
                    k = k + 1;
                },
                _ => {},
            },
            _ => {},
        }
        i = i + 1;
        proof {
            assert(entries.take(i as int) == next);
            assert(pack_view(*response) =~= pack_view(*old(response)) + pack_outputs(ctx, *data, next, rolls@));
        }
    }
    proof {
        assert(entries.take(n as int) =~= entries);
        if start.wf() {
            lemma_same_keys_wf(start, player@);
        }
    }
    response.error_code = ErrorCode::Success;
}

/// Whether the world holds what the damage request `request` reads.
fn check_damage_request(player: &Player, data: &GameData, request: &DamageExecuteRequest) -> (r: bool)
    ensures
        r == damage_request_ok(combat_context(player@), *data, *request),
{
    if request.attacker_entity_id < i32::MIN as i64 || request.attacker_entity_id > i32::MAX as i64 {
        return false;
    }
    if !entity_has_attribute(&player.world, request.target_entity_id) {
        return false;
    }
    match player.world.get_config_id(request.attacker_entity_id) {
        Some(c) => {
            let four = (1000 <= c && c <= 9999) || (-999 <= c && c <= -100);
            if four && data.find_damage_data(request.damage_id).is_some() {
                entity_has_attribute(&player.world, request.attacker_entity_id)
            } else {
                true
            }
        },
        None => true,
    }
}

/// Whether the entity `entity_id` exists and has an attribute component.
fn entity_has_attribute(world: &World, entity_id: i64) -> (r: bool)
    ensures
        r == has_attribute(world.entities@, entity_id),
{
    match world.find_entity(entity_id) {
        Some(i) => world.entities[i].attribute.is_some(),
        None => false,
    }
}

/// Whether every entry of `request` can be answered for `player`: the
/// condition that `on_combat_message_combat_send_pack_request` requires of them.
pub fn check_pack_request(player: &Player, data: &GameData, request: &CombatSendPackRequest) -> (r: bool)
    ensures
        r == forall|i: int| 0 <= i < request.data@.len() ==> entry_ok(combat_context(player@), *data, #[trigger] request.data@[i]),
{
    let n = request.data.len();
    let mut i: usize = 0;
    while i < n
        invariant
            n == request.data@.len(),
            i <= n,
            forall|j: int| 0 <= j < i ==> entry_ok(combat_context(player@), *data, #[trigger] request.data@[j]),
        decreases n - i,
    {
        let entry = request.data[i];
        let ok = match entry.message {
            Some(CombatSendMessage::Request(rd)) => match rd.message {
                Some(CombatRequestMessage::FsmConditionPassRequest(_)) => rd.combat_common.is_some(),
                Some(CombatRequestMessage::DamageExecuteRequest(r)) => check_damage_request(player, data, &r),
                _ => true,
            },
            _ => true,
        };
        if !ok {
            assert(!entry_ok(combat_context(player@), *data, request.data@[i as int]));
            return false;
        }
        i = i + 1;
    }
    true
}

/// Number of damage requests in `request`: the number of rolls that
/// `on_combat_message_combat_send_pack_request` needs for it.
pub fn damage_request_count(request: &CombatSendPackRequest) -> (r: usize)
    ensures
        r == damage_count(request.data@),
{
    let ghost entries = request.data@;
    let n = request.data.len();
    let mut i: usize = 0;
    let mut k: usize = 0;
    proof {
        assert(entries.take(0) =~= Seq::<CombatSendData>::empty());
    }
    while i < n
        invariant
            n == entries.len(),
            entries == request.data@,
            i <= n,
            k <= i,
            k == damage_count(entries.take(i as int)),
        decreases n - i,
    {
        let entry = request.data[i];
        proof {
            assert(entries.take(i + 1).drop_last() =~= entries.take(i as int));
        }
        match entry.message {
            Some(CombatSendMessage::Request(rd)) => match rd.message {
                Some(CombatRequestMessage::DamageExecuteRequest(_)) => {
                    k = k + 1;
                },
                _ => {},
            },
            _ => {},
        }
        i = i + 1;
    }
    proof {
        assert(entries.take(n as int) =~= entries);
    }
    k
}

// ---------------------------------------------------------------------------
// Lemmas
// ---------------------------------------------------------------------------

/// A prefix holds no more damage requests than the whole.
pub proof fn lemma_damage_count_prefix(entries: Seq<CombatSendData>, i: int)
    requires
        0 <= i <= entries.len(),
    ensures
        damage_count(entries.take(i)) <= damage_count(entries),
    decreases entries.len() - i,
{
    if i == entries.len() {
        assert(entries.take(i) =~= entries);
    } else {
        assert(entries.take(i + 1).drop_last() =~= entries.take(i));
        lemma_damage_count_prefix(entries, i + 1);
    }
}

/// Switching the role in play keeps the same formation current.
pub proof fn lemma_switched_keeps_current(formations: Seq<RoleFormation>, role_id: i32)
    ensures
        current_formation(switched(formations, role_id)) == current_formation(formations),
{
    let after = switched(formations, role_id);
    assert forall|j: int| 0 <= j < formations.len() implies formation_is_current()(#[trigger] formations[j])
        == formation_is_current()(after[j]) by {}
    lemma_first_congruent(formations, after, formation_is_current());
}

/// Damage requests of two packs add up.
pub proof fn lemma_damage_count_append(a: Seq<CombatSendData>, b: Seq<CombatSendData>)
    ensures
        damage_count(a + b) == damage_count(a) + damage_count(b),
    decreases b.len(),
{
    if b.len() == 0 {
        assert(a + b =~= a);
    } else {
        assert((a + b).drop_last() =~= a + b.drop_last());
        assert((a + b).last() == b.last());
        lemma_damage_count_append(a, b.drop_last());
    }
}

/// Answering a pack is answering its first part, then its second part with
/// the rolls that the first part left; and the role switches of both parts
/// apply one after the other.
pub proof fn lemma_pack_split(
    ctx: CombatContext,
    data: GameData,
    formations: Seq<RoleFormation>,
    a: Seq<CombatSendData>,
    b: Seq<CombatSendData>,
    rolls: Seq<DamageRoll>,
)
    requires
        damage_count(a + b) <= rolls.len(),
    ensures
        pack_outputs(ctx, data, a + b, rolls) == pack_outputs(ctx, data, a, rolls) + pack_outputs(
            ctx,
            data,
            b,
            rolls.skip(damage_count(a) as int),
        ),
        formations_after(formations, a + b) == formations_after(formations_after(formations, a), b),
    decreases b.len(),
{
    lemma_damage_count_append(a, b);
    let c = damage_count(a) as int;
    if b.len() == 0 {
        assert(a + b =~= a);
        assert(pack_outputs(ctx, data, a, rolls) + pack_outputs(ctx, data, b, rolls.skip(c)) =~= pack_outputs(ctx, data, a, rolls));
    } else {
        let b0 = b.drop_last();
        assert((a + b).drop_last() =~= a + b0);
        assert((a + b).last() == b.last());
        lemma_damage_count_append(a, b0);
        lemma_pack_split(ctx, data, formations, a, b0, rolls);
        let k = damage_count(b0) as int;
        if is_damage_entry(b.last()) {
            assert(rolls.skip(c)[k] == rolls[c + k]);
        }
        assert(entry_outputs(ctx, data, b.last(), rolls.skip(c)[k]) == entry_outputs(ctx, data, b.last(), rolls[c + k]));
        assert(pack_outputs(ctx, data, a + b, rolls) =~= pack_outputs(ctx, data, a, rolls) + pack_outputs(ctx, data, b, rolls.skip(c)));
    }
}

/// The life that a hit leaves is never below zero and never above the life
/// before it; a hit that does not exceed the life takes exactly its damage.
pub proof fn lemma_life_after_bounds(life: i32, damage: i32)
    requires
        0 <= damage,
    ensures
        0 <= life_after(life, damage),
        life_after(life, damage) <= if life < 0 { 0 } else { life },
        damage <= life ==> life_after(life, damage) == life - damage,
{
}

/// Switching roles twice leaves the second role in play in the same
/// formation, as if only the second switch had been made.
pub proof fn lemma_switch_twice(formations: Seq<RoleFormation>, first: i32, second: i32)
    ensures
        switched(switched(formations, first), second) == switched(formations, second),
{
    lemma_switched_keeps_current(formations, first);
    match current_formation(formations) {
        Some(f) => {
            assert(switched(switched(formations, first), second) =~= switched(formations, second));
        },
        None => {},
    }
}

/// A pack entry that carries no request the pack handler answers.
pub open spec fn is_unhandled_entry(entry: CombatSendData) -> bool {
    match entry_request(entry) {
        Some((_, CombatRequestMessage::Other(_))) => true,
        None => true,
        _ => false,
    }
}

/// An entry that the pack handler does not answer changes nothing: the
/// answers, the rolls used and the role switches are those of the pack
/// without it.
pub proof fn lemma_skip_unhandled(
    ctx: CombatContext,
    data: GameData,
    formations: Seq<RoleFormation>,
    a: Seq<CombatSendData>,
    e: CombatSendData,
    b: Seq<CombatSendData>,
    rolls: Seq<DamageRoll>,
)
    requires
        is_unhandled_entry(e),
        damage_count(a + b) <= rolls.len(),
    ensures
        damage_count(a + seq![e] + b) == damage_count(a + b),
        pack_outputs(ctx, data, a + seq![e] + b, rolls) == pack_outputs(ctx, data, a + b, rolls),
        formations_after(formations, a + seq![e] + b) == formations_after(formations, a + b),
{
    let ae = a + seq![e];
    assert(ae.drop_last() =~= a);
    assert(ae.last() == e);
    assert(damage_count(ae) == damage_count(a));
    assert(pack_outputs(ctx, data, ae, rolls) =~= pack_outputs(ctx, data, a, rolls));
    assert(formations_after(formations, ae) == formations_after(formations, a));
    lemma_damage_count_append(ae, b);
    lemma_damage_count_append(a, b);
    lemma_pack_split(ctx, data, formations, ae, b, rolls);
    lemma_pack_split(ctx, data, formations, a, b, rolls);
}

/// The answers to a damage request do not depend on the skill level, on the
/// attacker, on the rest of the world or on the rest of the damage table:
/// only on the target's life, the element of the damage id and the roll.
pub proof fn lemma_damage_outputs_independent(
    ctx1: CombatContext,
    ctx2: CombatContext,
    data1: GameData,
    data2: GameData,
    rd: CombatRequestData,
    request1: DamageExecuteRequest,
    request2: DamageExecuteRequest,
    roll: DamageRoll,
)
    requires
        request1 == (DamageExecuteRequest { skill_level: request1.skill_level, ..request2 }),
        life_of(ctx1.entities, request1.target_entity_id) == life_of(ctx2.entities, request2.target_entity_id),
        element_of(data1.damage_data@, request1.damage_id) == element_of(data2.damage_data@, request2.damage_id),
    ensures
        damage_outputs(ctx1, data1, rd, request1, roll) == damage_outputs(ctx2, data2, rd, request2, roll),
{
}

// ---------------------------------------------------------------------------
// What each request is answered with, in terms of its inputs
// ---------------------------------------------------------------------------

/// A damage request is answered first with the damage executed: the critical
/// damage of the roll on a critical hit, its base damage otherwise, and the
/// element of the first row of the damage table with the request's damage id
/// (0 without one). When the target has a life attribute, a second answer
/// reports its life after the hit: life minus damage, and exactly 0 when the
/// damage exceeds the life, never below zero.
pub proof fn lemma_damage_answers(
    ctx: CombatContext,
    data: GameData,
    rd: CombatRequestData,
    request: DamageExecuteRequest,
    roll: DamageRoll,
)
    requires
        roll_ok(roll),
    ensures
        ({
            let damage: i32 = if roll.is_crit { roll.crit_damage } else { roll.base_damage };
            let out = damage_outputs(ctx, data, rd, request, roll);
            &&& out[0] == (ReceiveView::Response {
                combat_common: rd.combat_common,
                request_id: rd.request_id,
                message: Some(ResponseView::DamageExecute(DamageExecuteResponse {
                    error_code: ErrorCode::Success,
                    attacker_entity_id: request.attacker_entity_id,
                    target_entity_id: request.target_entity_id,
                    part_index: request.part_index,
                    damage,
                    e_k: element_of(data.damage_data@, request.damage_id),
                    is_crit: roll.is_crit,
                })),
            })
            &&& match life_of(ctx.entities, request.target_entity_id) {
                Some(life) => {
                    &&& out.len() == 2
                    &&& exists|left: i32| {
                        &&& out[1] == (ReceiveView::Notify {
                            combat_common: Some(CombatCommon { entity_id: request.target_entity_id }),
                            message: Some(NotifyView::AttributeChanged {
                                id: request.target_entity_id,
                                attributes: seq![GameplayAttributeData {
                                    current_value: left,
                                    value_increment: left,
                                    attribute_type: AttributeType::Life,
                                }],
                            }),
                        })
                        &&& 0 <= left
                        &&& (damage <= life ==> left == life - damage)
                        &&& (damage > life ==> left == 0)
                    }
                },
                None => out.len() == 1,
            }
        }),
{
    match life_of(ctx.entities, request.target_entity_id) {
        Some(life) => {
            let left = life_after(life, roll_damage_value(roll));
            let out = damage_outputs(ctx, data, rd, request, roll);
            assert(out[1] == (ReceiveView::Notify {
                combat_common: Some(CombatCommon { entity_id: request.target_entity_id }),
                message: Some(NotifyView::AttributeChanged {
                    id: request.target_entity_id,
                    attributes: seq![GameplayAttributeData {
                        current_value: left,
                        value_increment: left,
                        attribute_type: AttributeType::Life,
                    }],
                }),
            }));
            assert(0 <= left);
        },
        None => {},
    }
}

/// The element reported for a damage id is that of the first row of the
/// damage table with that id, and 0 when no row has it.
pub proof fn lemma_element_meaning(table: Seq<crate::data::DamageData>, damage_id: i64)
    ensures
        (forall|j: int| 0 <= j < table.len() ==> (#[trigger] table[j]).id != damage_id) ==> element_of(table, damage_id) == 0,
        forall|i: int| 0 <= i < table.len() && (#[trigger] table[i]).id == damage_id
            && (forall|j: int| 0 <= j < i ==> (#[trigger] table[j]).id != damage_id)
            ==> element_of(table, damage_id) == table[i].element_power_type,
{
    crate::search::lemma_first_index_meaning(table, crate::data::damage_has_id(damage_id));
    assert forall|i: int| 0 <= i < table.len() && (#[trigger] table[i]).id == damage_id
        && (forall|j: int| 0 <= j < i ==> (#[trigger] table[j]).id != damage_id)
        implies element_of(table, damage_id) == table[i].element_power_type by {
        assert(crate::search::is_first(table, crate::data::damage_has_id(damage_id), i));
        crate::search::lemma_first_found(table, crate::data::damage_has_id(damage_id), i);
    }
}

/// The life read for a target is the value of the first life entry of the
/// attribute component of the first entity with the target's id.
pub proof fn lemma_life_meaning(entities: Seq<Entity>, entity_id: i64)
    ensures
        (forall|j: int| 0 <= j < entities.len() ==> (#[trigger] entities[j]).entity_id != entity_id)
            ==> life_of(entities, entity_id) is None,
        forall|i: int| 0 <= i < entities.len() && (#[trigger] entities[i]).entity_id == entity_id
            && (forall|j: int| 0 <= j < i ==> (#[trigger] entities[j]).entity_id != entity_id)
            ==> match entities[i].attribute {
                None => life_of(entities, entity_id) is None,
                Some(c) => {
                    &&& (forall|k: int| 0 <= k < c.attr_map@.len() ==> (#[trigger] c.attr_map@[k]).attribute_type != AttributeType::Life)
                        ==> life_of(entities, entity_id) is None
                    &&& forall|k: int| 0 <= k < c.attr_map@.len() && (#[trigger] c.attr_map@[k]).attribute_type == AttributeType::Life
                        && (forall|m: int| 0 <= m < k ==> (#[trigger] c.attr_map@[m]).attribute_type != AttributeType::Life)
                        ==> life_of(entities, entity_id) == Some(c.attr_map@[k].value)
                },
            },
{
    crate::search::lemma_first_index_meaning(entities, entity_has_id(entity_id));
    assert forall|i: int| 0 <= i < entities.len() && (#[trigger] entities[i]).entity_id == entity_id
        && (forall|j: int| 0 <= j < i ==> (#[trigger] entities[j]).entity_id != entity_id)
        implies match entities[i].attribute {
            None => life_of(entities, entity_id) is None,
            Some(c) => {
                &&& (forall|k: int| 0 <= k < c.attr_map@.len() ==> (#[trigger] c.attr_map@[k]).attribute_type != AttributeType::Life)
                    ==> life_of(entities, entity_id) is None
                &&& forall|k: int| 0 <= k < c.attr_map@.len() && (#[trigger] c.attr_map@[k]).attribute_type == AttributeType::Life
                    && (forall|m: int| 0 <= m < k ==> (#[trigger] c.attr_map@[m]).attribute_type != AttributeType::Life)
                    ==> life_of(entities, entity_id) == Some(c.attr_map@[k].value)
            },
        } by {
        assert(crate::search::is_first(entities, entity_has_id(entity_id), i));
        crate::search::lemma_first_found(entities, entity_has_id(entity_id), i);
        match entities[i].attribute {
            Some(c) => {
                let m = c.attr_map@;
                crate::search::lemma_first_index_meaning(m, entry_is_life());
                assert forall|k: int| 0 <= k < m.len() && (#[trigger] m[k]).attribute_type == AttributeType::Life
                    && (forall|q: int| 0 <= q < k ==> (#[trigger] m[q]).attribute_type != AttributeType::Life)
                    implies life_of(entities, entity_id) == Some(m[k].value) by {
                    assert(crate::search::is_first(m, entry_is_life(), k));
                    crate::search::lemma_first_found(m, entry_is_life(), k);
                }
            },
            None => {},
        }
    }
}

/// A role switch changes exactly the formation in use (the first one marked
/// current), which gets the new role; every other formation stays as it is,
/// and without a formation in use nothing changes.
pub proof fn lemma_switch_effect(formations: Seq<RoleFormation>, role_id: i32)
    ensures
        switched(formations, role_id).len() == formations.len(),
        (forall|j: int| 0 <= j < formations.len() ==> !(#[trigger] formations[j]).is_current)
            ==> switched(formations, role_id) == formations,
        forall|c: int| 0 <= c < formations.len() && (#[trigger] formations[c]).is_current
            && (forall|j: int| 0 <= j < c ==> !(#[trigger] formations[j]).is_current)
            ==> {
                &&& switched(formations, role_id)[c] == (RoleFormation { cur_role: role_id, ..formations[c] })
                &&& forall|j: int| 0 <= j < formations.len() && j != c
                    ==> #[trigger] switched(formations, role_id)[j] == formations[j]
            },
{
    crate::search::lemma_first_index_meaning(formations, formation_is_current());
    assert forall|c: int| 0 <= c < formations.len() && (#[trigger] formations[c]).is_current
        && (forall|j: int| 0 <= j < c ==> !(#[trigger] formations[j]).is_current)
        implies {
            &&& switched(formations, role_id)[c] == (RoleFormation { cur_role: role_id, ..formations[c] })
            &&& forall|j: int| 0 <= j < formations.len() && j != c
                ==> #[trigger] switched(formations, role_id)[j] == formations[j]
        } by {
        assert(crate::search::is_first(formations, formation_is_current(), c));
        crate::search::lemma_first_found(formations, formation_is_current(), c);
    }
}

/// A role switch is answered with one success carrying the new role when a
/// formation is in use, and with nothing otherwise.
pub proof fn lemma_switch_answers(ctx: CombatContext, rd: CombatRequestData, request: SwitchRoleRequest)
    ensures
        ctx.has_current_formation ==> switch_outputs(ctx, rd, request) == seq![ReceiveView::Response {
            combat_common: rd.combat_common,
            request_id: rd.request_id,
            message: Some(ResponseView::SwitchRole(SwitchRoleResponse { error_code: ErrorCode::Success, role_id: request.role_id })),
        }],
        !ctx.has_current_formation ==> switch_outputs(ctx, rd, request).len() == 0,
{
}

/// A state machine condition always passes, whatever its id: the answer
/// carries the condition's id with a success and no parameters, and it is
/// followed by the notice that the player is in battle.
pub proof fn lemma_fsm_answers(ctx: CombatContext, rd: CombatRequestData, request: FsmConditionPassRequest)
    requires
        rd.combat_common is Some,
    ensures
        fsm_outputs(ctx, rd, request) == seq![
            ReceiveView::Response {
                combat_common: rd.combat_common,
                request_id: rd.request_id,
                message: Some(ResponseView::FsmConditionPass { fsm_id: request.fsm_id, error: Some((ErrorCode::Success, Seq::<String>::empty())) }),
            },
            ReceiveView::Notify {
                combat_common: rd.combat_common,
                message: Some(NotifyView::PlayerBattleStateChange(PlayerBattleStateChangeNotify { player_id: ctx.player_id, in_battle: true })),
            },
        ],
        forall|other: FsmConditionPassRequest| #[trigger] fsm_outputs(ctx, rd, other)[1] == fsm_outputs(ctx, rd, request)[1],
{
    assert(fsm_outputs(ctx, rd, request) =~= seq![
        ReceiveView::Response {
            combat_common: rd.combat_common,
            request_id: rd.request_id,
            message: Some(ResponseView::FsmConditionPass { fsm_id: request.fsm_id, error: Some((ErrorCode::Success, Seq::<String>::empty())) }),
        },
        ReceiveView::Notify {
            combat_common: rd.combat_common,
            message: Some(NotifyView::PlayerBattleStateChange(PlayerBattleStateChangeNotify { player_id: ctx.player_id, in_battle: true })),
        },
    ]);
}

/// A pack of one entry: a role switch is answered as a role switch and puts
/// its role in play, a state machine condition as a condition, a damage
/// request as a damage request with the first roll (and uses one roll);
/// any other entry is answered with nothing and changes nothing.
pub proof fn lemma_pack_single(
    ctx: CombatContext,
    data: GameData,
    formations: Seq<RoleFormation>,
    e: CombatSendData,
    rolls: Seq<DamageRoll>,
)
    ensures
        match e.message {
            Some(CombatSendMessage::Request(rd)) => match rd.message {
                Some(CombatRequestMessage::SwitchRoleRequest(r)) => {
                    &&& pack_outputs(ctx, data, seq![e], rolls) == switch_outputs(ctx, rd, r)
                    &&& formations_after(formations, seq![e]) == switched(formations, r.role_id)
                    &&& damage_count(seq![e]) == 0
                },
                Some(CombatRequestMessage::FsmConditionPassRequest(r)) => {
                    &&& pack_outputs(ctx, data, seq![e], rolls) == fsm_outputs(ctx, rd, r)
                    &&& formations_after(formations, seq![e]) == formations
                    &&& damage_count(seq![e]) == 0
                },
                Some(CombatRequestMessage::DamageExecuteRequest(r)) => {
                    &&& pack_outputs(ctx, data, seq![e], rolls) == damage_outputs(ctx, data, rd, r, rolls[0])
                    &&& formations_after(formations, seq![e]) == formations
                    &&& damage_count(seq![e]) == 1
                },
                _ => {
                    &&& pack_outputs(ctx, data, seq![e], rolls).len() == 0
                    &&& formations_after(formations, seq![e]) == formations
                    &&& damage_count(seq![e]) == 0
                },
            },
            _ => {
                &&& pack_outputs(ctx, data, seq![e], rolls).len() == 0
                &&& formations_after(formations, seq![e]) == formations
                &&& damage_count(seq![e]) == 0
            },
        },
{
    let s = seq![e];
    assert(s.drop_last() =~= Seq::<CombatSendData>::empty());
    assert(s.last() == e);
    assert(damage_count(Seq::<CombatSendData>::empty()) == 0);
    assert(pack_outputs(ctx, data, Seq::<CombatSendData>::empty(), rolls) == Seq::<ReceiveView>::empty());
    assert(formations_after(formations, Seq::<CombatSendData>::empty()) == formations);
    assert(pack_outputs(ctx, data, s, rolls) =~= entry_outputs(ctx, data, e, rolls[0]));
}

/// The combat answers see a formation in use exactly when some formation is
/// marked current, the player's own id, and the player's world.
pub proof fn lemma_combat_context_meaning(p: PlayerView)
    ensures
        combat_context(p).has_current_formation <==> exists|j: int| 0 <= j < p.formations.len() && (#[trigger] p.formations[j]).is_current,
        combat_context(p).player_id == p.id,
        combat_context(p).entities == p.entities,
{
    crate::search::lemma_first_index_meaning(p.formations, formation_is_current());
    if current_formation(p.formations) is Some {
        let c = current_formation(p.formations).unwrap();
        assert(p.formations[c].is_current);
    }
}

} // verus!
