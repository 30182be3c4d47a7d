//! The typed live-room events and their payload records.

use crate::json::Json;
use vstd::prelude::*;

verus! {

/// A chat message with its command tag.
#[derive(Debug, Clone)]
pub struct DanmakuMessage {
    pub cmd: String,
    pub data: DanmakuData,
}

/// A chat message.
#[derive(Debug, Clone)]
pub struct DanmakuData {
    pub room_id: i64,
    pub uid: i64,
    pub open_id: String,
    pub union_id: Option<String>,
    pub uname: String,
    pub uface: String,
    pub timestamp: i64,
    pub msg: String,
    pub msg_id: String,
    pub guard_level: i64,
    pub fans_medal_wearing_status: bool,
    pub fans_medal_name: String,
    pub fans_medal_level: i64,
    pub emoji_img_url: Option<String>,
    pub dm_type: i64,
    pub glory_level: Option<i32>,
    pub reply_open_id: Option<String>,
    pub reply_uname: Option<String>,
    pub is_admin: Option<i32>,
}

/// A gift with its command tag.
#[derive(Debug, Clone)]
pub struct GiftMessage {
    pub cmd: String,
    pub data: GiftData,
}

/// A gift sent to the room.
#[derive(Debug, Clone)]
pub struct GiftData {
    pub room_id: i64,
    pub uid: i64,
    pub open_id: String,
    pub union_id: Option<String>,
    pub uname: String,
    pub uface: String,
    pub gift_id: i64,
    pub gift_name: String,
    pub gift_num: i64,
    pub price: i64,
    pub r_price: i64,
    pub paid: bool,
    pub fans_medal_level: i64,
    pub fans_medal_name: String,
    pub fans_medal_wearing_status: bool,
    pub guard_level: i64,
    pub timestamp: i64,
    pub anchor_info: AnchorInfo,
    pub msg_id: String,
    pub gift_icon: Option<String>,
    pub combo_gift: Option<bool>,
    pub combo_info: Option<ComboInfo>,
    pub blind_gift: Option<BlindGift>,
}

/// The streamer that a gift was sent to.
#[derive(Debug, Clone)]
pub struct AnchorInfo {
    pub uid: i64,
    pub open_id: String,
    pub union_id: Option<String>,
    pub uname: String,
    pub uface: String,
}

/// The state of a run of repeated gifts.
#[derive(Debug, Clone)]
pub struct ComboInfo {
    pub combo_base_num: i64,
    pub combo_count: i64,
    pub combo_id: String,
    pub combo_timeout: i64,
}

/// What a blind-box gift turned out to be.
#[derive(Debug, Clone)]
pub struct BlindGift {
    pub blind_gift_id: i64,
    pub status: bool,
}

/// A paid message with its command tag.
#[derive(Debug, Clone)]
pub struct SuperChatMessage {
    pub cmd: String,
    pub data: SuperChatData,
}

/// A paid message.
#[derive(Debug, Clone)]
pub struct SuperChatData {
    pub room_id: i64,
    pub uid: i64,
    pub open_id: String,
    pub union_id: Option<String>,
    pub uname: String,
    pub uface: String,
    pub message_id: i64,
    pub message: String,
    pub rmb: i64,
    pub timestamp: i64,
    pub start_time: i64,
    pub end_time: i64,
    pub guard_level: i64,
    pub fans_medal_level: i64,
    pub fans_medal_name: String,
    pub fans_medal_wearing_status: bool,
    pub msg_id: String,
}

/// A membership purchase with its command tag.
#[derive(Debug, Clone)]
pub struct GuardMessage {
    pub cmd: String,
    pub data: GuardData,
}

/// A membership purchase.
#[derive(Debug, Clone)]
pub struct GuardData {
    pub user_info: UserInfo,
    pub guard_level: i64,
    pub guard_num: i64,
    pub guard_unit: String,
    pub price: i64,
    pub fans_medal_level: i64,
    pub fans_medal_name: String,
    pub fans_medal_wearing_status: bool,
    pub room_id: i64,
    pub msg_id: String,
    pub timestamp: i64,
}

/// The viewer who bought a membership.
#[derive(Debug, Clone)]
pub struct UserInfo {
    pub uid: i64,
    pub open_id: String,
    pub union_id: Option<String>,
    pub uname: String,
    pub uface: String,
}

/// A like with its command tag.
#[derive(Debug, Clone)]
pub struct LikeMessage {
    pub cmd: String,
    pub data: LikeData,
}

/// A viewer's likes.
#[derive(Debug, Clone)]
pub struct LikeData {
    pub room_id: i64,
    pub uid: i64,
    pub open_id: String,
    pub union_id: Option<String>,
    pub uname: String,
    pub uface: String,
    pub timestamp: i64,
    pub like_text: String,
    pub like_count: i64,
    pub fans_medal_level: i64,
    pub fans_medal_name: String,
    pub fans_medal_wearing_status: bool,
    pub guard_level: Option<i64>,
    pub msg_id: String,
}

/// A message of a command that has no typed form: the tag and the raw
/// payload.
#[derive(Debug)]
pub struct UnknownMessage {
    pub cmd: String,
    pub data: Json,
}

/// A live-room event, one variant per command.
#[derive(Debug, Clone)]
pub enum BilibiliMessage {
    Danmaku { data: DanmakuData },
    Gift { data: GiftData },
    SuperChat { data: SuperChatData },
    Guard { data: GuardData },
    Like { data: LikeData },
    SuperChatDel { data: SuperChatDelData },
    LiveRoomEnter { data: LiveRoomEnterData },
    LiveStart { data: LiveStartData },
    LiveEnd { data: LiveEndData },
    InteractionEnd { data: InteractionEndData },
}

/// Paid messages that were taken down.
#[derive(Debug, Clone)]
pub struct SuperChatDelData {
    pub room_id: i64,
    pub message_ids: Vec<i64>,
    pub msg_id: String,
}

/// A viewer entering the room.
#[derive(Debug, Clone)]
pub struct LiveRoomEnterData {
    pub room_id: i64,
    pub uface: String,
    pub uname: String,
    pub open_id: String,
    pub union_id: Option<String>,
    pub timestamp: i64,
}

/// The stream going live.
#[derive(Debug, Clone)]
pub struct LiveStartData {
    pub room_id: i64,
    pub open_id: String,
    pub union_id: Option<String>,
    pub timestamp: i64,
    pub area_name: String,
    pub title: String,
}

/// The stream ending.
#[derive(Debug, Clone)]
pub struct LiveEndData {
    pub room_id: i64,
    pub open_id: String,
    pub union_id: Option<String>,
    pub timestamp: i64,
    pub area_name: String,
    pub title: String,
}

/// The platform closing the session.
#[derive(Debug, Clone)]
pub struct InteractionEndData {
    pub game_id: String,
    pub timestamp: i64,
}

} // verus!
