//! The game protocol messages that the handlers read and write.
//!
//! Every message holds the fields that the handlers of this crate touch.
//! A repeated field is a `Vec`; a message that nests one has a view in which
//! that field is a `Seq`, so that contracts can speak of whole messages.
use vstd::prelude::*;

verus! {

/// Result codes that a response carries.
#[derive(Clone, Copy, Debug, PartialEq, Eq, Structural)]
pub enum ErrorCode {
    Success,
    ErrSwitchRoleEntityNotExist,
    NotValidRole,
    WeaponSkinDataErr,
    WeaponSkinUnLockErr,
    ErrItemNotFound,
}

/// Attribute kinds of a gameplay entity; only life is read by name.
#[derive(Clone, Copy, Debug, PartialEq, Eq, Structural)]
pub enum AttributeType {
    Life,
    Other(i32),
}

// ---------------------------------------------------------------------------
// Combat messages
// ---------------------------------------------------------------------------

#[derive(Clone, Copy, Debug, PartialEq, Eq)]
pub struct CombatCommon {
    pub entity_id: i64,
}

#[derive(Clone, Copy, Debug, PartialEq, Eq)]
pub struct SwitchRoleRequest {
    pub role_id: i32,
}

#[derive(Clone, Copy, Debug, PartialEq, Eq)]
pub struct FsmConditionPassRequest {
    pub fsm_id: i32,
}

#[derive(Clone, Copy, Debug, PartialEq, Eq)]
pub struct DamageExecuteRequest {
    pub attacker_entity_id: i64,
    pub target_entity_id: i64,
    pub damage_id: i64,
    pub skill_level: i32,
    pub part_index: i32,
}

/// The request kinds that a combat request may carry.
#[derive(Clone, Copy, Debug, PartialEq, Eq)]
pub enum CombatRequestMessage {
    SwitchRoleRequest(SwitchRoleRequest),
    FsmConditionPassRequest(FsmConditionPassRequest),
    DamageExecuteRequest(DamageExecuteRequest),
    /// Any request kind that the combat handler leaves alone.
    Other(i32),
}

#[derive(Clone, Copy, Debug, PartialEq, Eq)]
pub struct CombatRequestData {
    pub combat_common: Option<CombatCommon>,
    pub request_id: i32,
    pub message: Option<CombatRequestMessage>,
}

/// What one entry of a combat pack carries.
#[derive(Clone, Copy, Debug, PartialEq, Eq)]
pub enum CombatSendMessage {
    Request(CombatRequestData),
    /// Any entry kind that is not a request.
    Other(i32),
}

#[derive(Clone, Copy, Debug, PartialEq, Eq)]
pub struct CombatSendData {
    pub message: Option<CombatSendMessage>,
}

#[derive(Clone, Debug, PartialEq, Eq)]
pub struct CombatSendPackRequest {
    pub data: Vec<CombatSendData>,
}

#[derive(Clone, Copy, Debug, PartialEq, Eq)]
pub struct SwitchRoleResponse {
    pub error_code: ErrorCode,
    pub role_id: i32,
}

#[derive(Clone, Debug, PartialEq, Eq)]
pub struct DErrorResult {
    pub error_code: ErrorCode,
    pub error_params: Vec<String>,
}

#[derive(Clone, Debug, PartialEq, Eq)]
pub struct FsmConditionPassResponse {
    pub fsm_id: i32,
    pub error: Option<DErrorResult>,
}

#[derive(Clone, Copy, Debug, PartialEq, Eq)]
pub struct DamageExecuteResponse {
    pub error_code: ErrorCode,
    pub attacker_entity_id: i64,
    pub target_entity_id: i64,
    pub part_index: i32,
    pub damage: i32,
    pub e_k: i32,
    pub is_crit: bool,
}

#[derive(Clone, Debug, PartialEq, Eq)]
pub enum CombatResponseMessage {
    SwitchRoleResponse(SwitchRoleResponse),
    FsmConditionPassResponse(FsmConditionPassResponse),
    DamageExecuteResponse(DamageExecuteResponse),
}

#[derive(Clone, Debug, PartialEq, Eq)]
pub struct CombatResponseData {
    pub combat_common: Option<CombatCommon>,
    pub request_id: i32,
    pub message: Option<CombatResponseMessage>,
}

#[derive(Clone, Copy, Debug, PartialEq, Eq)]
pub struct GameplayAttributeData {
    pub current_value: i32,
    pub value_increment: i32,
    pub attribute_type: AttributeType,
}

#[derive(Clone, Debug, PartialEq, Eq)]
pub struct AttributeChangedNotify {
    pub id: i64,
    pub attributes: Vec<GameplayAttributeData>,
}

#[derive(Clone, Copy, Debug, PartialEq, Eq)]
pub struct PlayerBattleStateChangeNotify {
    pub player_id: i32,
    pub in_battle: bool,
}

#[derive(Clone, Debug, PartialEq, Eq)]
pub enum CombatNotifyMessage {
    AttributeChangedNotify(AttributeChangedNotify),
    PlayerBattleStateChangeNotify(PlayerBattleStateChangeNotify),
}

#[derive(Clone, Debug, PartialEq, Eq)]
pub struct CombatNotifyData {
    pub combat_common: Option<CombatCommon>,
    pub message: Option<CombatNotifyMessage>,
}

#[derive(Clone, Debug, PartialEq, Eq)]
pub enum CombatReceiveMessage {
    CombatResponseData(CombatResponseData),
    CombatNotifyData(CombatNotifyData),
}

#[derive(Clone, Debug, PartialEq, Eq)]
pub struct CombatReceiveData {
    pub message: Option<CombatReceiveMessage>,
}

#[derive(Clone, Debug, PartialEq, Eq)]
pub struct CombatReceivePackNotify {
    pub data: Vec<CombatReceiveData>,
}

#[derive(Clone, Debug, PartialEq, Eq)]
pub struct CombatSendPackResponse {
    pub error_code: ErrorCode,
    pub receive_pack_notify: Option<CombatReceivePackNotify>,
}

/// A combat response message with its repeated fields as sequences.
pub enum ResponseView {
    SwitchRole(SwitchRoleResponse),
    FsmConditionPass { fsm_id: i32, error: Option<(ErrorCode, Seq<String>)> },
    DamageExecute(DamageExecuteResponse),
}

/// A combat notify message with its repeated fields as sequences.
pub enum NotifyView {
    AttributeChanged { id: i64, attributes: Seq<GameplayAttributeData> },
    PlayerBattleStateChange(PlayerBattleStateChangeNotify),
}

/// One entry of a combat receive pack with its repeated fields as sequences.
pub enum ReceiveView {
    Response { combat_common: Option<CombatCommon>, request_id: i32, message: Option<ResponseView> },
    Notify { combat_common: Option<CombatCommon>, message: Option<NotifyView> },
    Empty,
}

impl View for CombatResponseMessage {
    type V = ResponseView;

    open spec fn view(&self) -> ResponseView {
        match self {
            CombatResponseMessage::SwitchRoleResponse(r) => ResponseView::SwitchRole(*r),
            CombatResponseMessage::FsmConditionPassResponse(r) => ResponseView::FsmConditionPass {
                fsm_id: r.fsm_id,
                error: match r.error {
                    Some(e) => Some((e.error_code, e.error_params@)),
                    None => None,
                },
            },
            CombatResponseMessage::DamageExecuteResponse(r) => ResponseView::DamageExecute(*r),
        }
    }
}

impl View for CombatNotifyMessage {
    type V = NotifyView;

    open spec fn view(&self) -> NotifyView {
        match self {
            CombatNotifyMessage::AttributeChangedNotify(n) => NotifyView::AttributeChanged {
                id: n.id,
                attributes: n.attributes@,
            },
            CombatNotifyMessage::PlayerBattleStateChangeNotify(n) => NotifyView::PlayerBattleStateChange(*n),
        }
    }
}

impl View for CombatReceiveData {
    type V = ReceiveView;

    open spec fn view(&self) -> ReceiveView {
        match self.message {
            Some(CombatReceiveMessage::CombatResponseData(r)) => ReceiveView::Response {
                combat_common: r.combat_common,
                request_id: r.request_id,
                message: match r.message {
                    Some(m) => Some(m@),
                    None => None,
                },
            },
            Some(CombatReceiveMessage::CombatNotifyData(n)) => ReceiveView::Notify {
                combat_common: n.combat_common,
                message: match n.message {
                    Some(m) => Some(m@),
                    None => None,
                },
            },
            None => ReceiveView::Empty,
        }
    }
}

// ---------------------------------------------------------------------------
// Inventory messages
// ---------------------------------------------------------------------------

#[derive(Clone, Copy, Debug, PartialEq, Eq)]
pub struct NormalItem {
    pub id: i32,
    pub count: i32,
}

#[derive(Clone, Copy, Debug, PartialEq, Eq)]
pub struct NormalItemRequest {}

#[derive(Clone, Debug, PartialEq, Eq)]
pub struct NormalItemResponse {
    pub normal_item_list: Vec<NormalItem>,
}

#[derive(Clone, Copy, Debug, PartialEq, Eq)]
pub struct WeaponItem {
    pub id: i32,
    pub incr_id: i32,
    pub func_value: i32,
    pub weapon_level: i32,
    pub weapon_exp: i32,
    pub weapon_breach: i32,
    pub weapon_reson_level: i32,
    pub role_id: i32,
}

#[derive(Clone, Copy, Debug, PartialEq, Eq)]
pub struct WeaponItemRequest {}

#[derive(Clone, Debug, PartialEq, Eq)]
pub struct WeaponItemResponse {
    pub weapon_item_list: Vec<WeaponItem>,
}

#[derive(Clone, Copy, Debug, PartialEq, Eq)]
pub struct PhantomItem {
    pub id: i32,
    pub incr_id: i32,
}

#[derive(Clone, Copy, Debug, PartialEq, Eq)]
pub struct PhantomItemRequest {}

#[derive(Clone, Debug, PartialEq, Eq)]
pub struct PhantomItemResponse {
    pub phantom_item_list: Vec<PhantomItem>,
}

#[derive(Clone, Copy, Debug, PartialEq, Eq)]
pub struct ItemExchangeInfo {
    pub item_id: i32,
    pub today_times: i32,
    pub total_times: i32,
    pub daily_limit: i32,
    pub total_limit: i32,
}

#[derive(Clone, Copy, Debug, PartialEq, Eq)]
pub struct ItemExchangeInfoRequest {}

#[derive(Clone, Debug, PartialEq, Eq)]
pub struct ItemExchangeInfoResponse {
    pub item_exchange_infos: Vec<ItemExchangeInfo>,
}

// ---------------------------------------------------------------------------
// Weapon and equipment messages
// ---------------------------------------------------------------------------

#[derive(Clone, Copy, Debug, PartialEq, Eq)]
pub struct LoadEquipData {
    pub role_id: i32,
    pub skin_id: i32,
}

#[derive(Clone, Copy, Debug, PartialEq, Eq)]
pub struct WeaponSkinRequest {}

#[derive(Clone, Debug, PartialEq, Eq)]
pub struct WeaponSkinResponse {
    pub error_code: ErrorCode,
    pub equip_list: Vec<LoadEquipData>,
}

#[derive(Clone, Copy, Debug, PartialEq, Eq)]
pub struct EquipWeaponSkinRequest {
    pub data: Option<LoadEquipData>,
}

#[derive(Clone, Debug, PartialEq, Eq)]
pub struct EquipWeaponSkinResponse {
    pub error_code: ErrorCode,
    pub data_list: Vec<LoadEquipData>,
}

#[derive(Clone, Copy, Debug, PartialEq, Eq)]
pub struct SendEquipSkinRequest {
    pub role_id: i32,
}

#[derive(Clone, Copy, Debug, PartialEq, Eq)]
pub struct SendEquipSkinResponse {
    pub error_code: ErrorCode,
}

#[derive(Clone, Copy, Debug, PartialEq, Eq)]
pub struct EquipData {
    pub role_id: i32,
    pub equip_inc_id: i32,
}

#[derive(Clone, Copy, Debug, PartialEq, Eq)]
pub struct EquipTakeOnRequest {
    pub data: Option<EquipData>,
}

#[derive(Clone, Debug, PartialEq, Eq)]
pub struct EquipTakeOnResponse {
    pub error_code: ErrorCode,
    pub data_list: Vec<EquipData>,
}

#[derive(Clone, Copy, Debug, PartialEq, Eq)]
pub struct WeaponSkinComponentPb {
    pub weapon_skin_id: i32,
}

#[derive(Clone, Copy, Debug, PartialEq, Eq)]
pub struct EntityEquipSkinChangeNotify {
    pub entity_id: i64,
    pub weapon_skin_component_pb: Option<WeaponSkinComponentPb>,
}

#[derive(Clone, Copy, Debug, PartialEq, Eq)]
pub struct WeaponSkinDeleteNotify {
    pub role_id: i32,
    pub skin_id: i32,
}

#[derive(Clone, Debug, PartialEq, Eq)]
pub struct EquipTakeOnNotify {
    pub data_list: Vec<EquipData>,
}

#[derive(Clone, Copy, Debug, PartialEq, Eq)]
pub struct EquipComponentPb {
    pub weapon_id: i32,
    pub weapon_breach_level: i32,
}

#[derive(Clone, Copy, Debug, PartialEq, Eq)]
pub struct EntityEquipChangeNotify {
    pub entity_id: i64,
    pub equip_component: Option<EquipComponentPb>,
}

/// A message pushed to the player's client outside of any response.
#[derive(Clone, Debug, PartialEq, Eq)]
pub enum Notification {
    EntityEquipSkinChange(EntityEquipSkinChangeNotify),
    WeaponSkinDelete(WeaponSkinDeleteNotify),
    EquipTakeOn(EquipTakeOnNotify),
    EntityEquipChange(EntityEquipChangeNotify),
}

/// A notification with its repeated fields as sequences.
pub enum NotificationView {
    EntityEquipSkinChange(EntityEquipSkinChangeNotify),
    WeaponSkinDelete(WeaponSkinDeleteNotify),
    EquipTakeOn(Seq<EquipData>),
    EntityEquipChange(EntityEquipChangeNotify),
}

impl View for Notification {
    type V = NotificationView;

    open spec fn view(&self) -> NotificationView {
        match self {
            Notification::EntityEquipSkinChange(n) => NotificationView::EntityEquipSkinChange(*n),
            Notification::WeaponSkinDelete(n) => NotificationView::WeaponSkinDelete(*n),
            Notification::EquipTakeOn(n) => NotificationView::EquipTakeOn(n.data_list@),
            Notification::EntityEquipChange(n) => NotificationView::EntityEquipChange(*n),
        }
    }
}

} // verus!
