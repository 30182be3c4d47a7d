//! Decoding of live-room events: the payload record of each command, the
//! event that a JSON message stands for, and what the dispatcher does with
//! a message body.

use crate::decode::absent;
use crate::decode::bool_field;
use crate::decode::get_bool;
use crate::decode::get_int;
use crate::decode::get_int_list;
use crate::decode::get_object;
use crate::decode::get_opt_bool;
use crate::decode::get_opt_i32;
use crate::decode::get_opt_int;
use crate::decode::get_opt_str;
use crate::decode::get_str;
use crate::decode::int_field;
use crate::decode::int_list_field;
use crate::decode::is_absent;
use crate::decode::object_field;
use crate::decode::opt_bool_field;
use crate::decode::opt_i32_field;
use crate::decode::opt_int_field;
use crate::decode::opt_str_field;
use crate::decode::str_field;
use crate::json::find_member;
use crate::json::json_parsed;
use crate::json::member;
use crate::json::parse_json;
use crate::json::Json;
use crate::message::AnchorInfo;
use crate::message::BilibiliMessage;
use crate::message::BlindGift;
use crate::message::ComboInfo;
use crate::message::DanmakuData;
use crate::message::GiftData;
use crate::message::GuardData;
use crate::message::InteractionEndData;
use crate::message::LikeData;
use crate::message::LiveEndData;
use crate::message::LiveRoomEnterData;
use crate::message::LiveStartData;
use crate::message::SuperChatData;
use crate::message::SuperChatDelData;
use crate::message::UnknownMessage;
use crate::message::UserInfo;
use vstd::prelude::*;

verus! {

/// The streamer record that the members `m` hold, where every member it needs is
/// there with its type.
pub open spec fn anchor_info(m: Seq<(String, Json)>) -> Option<AnchorInfo> {
    let uid = int_field(m, "uid"@);
    let open_id = str_field(m, "open_id"@);
    let union_id = opt_str_field(m, "union_id"@);
    let uname = str_field(m, "uname"@);
    let uface = str_field(m, "uface"@);
    if uid is Some && open_id is Some && union_id is Some && uname is Some && uface is Some {
        Some(
            AnchorInfo {
                uid: uid->0,
                open_id: open_id->0,
                union_id: union_id->0,
                uname: uname->0,
                uface: uface->0,
            },
        )
    } else {
        None
    }
}

/// Decodes a streamer record from the members of a JSON object.
pub fn decode_anchor_info(m: &Vec<(String, Json)>) -> (r: Option<AnchorInfo>)
    ensures
        r == anchor_info(m@),
{
    let uid = get_int(m, "uid")?;
    let open_id = get_str(m, "open_id")?;
    let union_id = get_opt_str(m, "union_id")?;
    let uname = get_str(m, "uname")?;
    let uface = get_str(m, "uface")?;
    Some(AnchorInfo { uid, open_id, union_id, uname, uface })
}

/// The required member `key` as a streamer record.
pub open spec fn anchor_info_field(m: Seq<(String, Json)>, key: Seq<char>) -> Option<AnchorInfo> {
    match object_field(m, key) {
        Some(inner) => anchor_info(inner),
        None => None,
    }
}

/// Reads the required member `key` as a streamer record.
pub fn get_anchor_info(m: &Vec<(String, Json)>, key: &str) -> (r: Option<AnchorInfo>)
    ensures
        r == anchor_info_field(m@, key@),
{
    match get_object(m, key) {
        Some(inner) => decode_anchor_info(inner),
        None => None,
    }
}

/// The combo record that the members `m` hold, where every member it needs is
/// there with its type.
pub open spec fn combo_info(m: Seq<(String, Json)>) -> Option<ComboInfo> {
    let combo_base_num = int_field(m, "combo_base_num"@);
    let combo_count = int_field(m, "combo_count"@);
    let combo_id = str_field(m, "combo_id"@);
    let combo_timeout = int_field(m, "combo_timeout"@);
    if combo_base_num is Some && combo_count is Some && combo_id is Some && combo_timeout is Some {
        Some(
            ComboInfo {
                combo_base_num: combo_base_num->0,
                combo_count: combo_count->0,
                combo_id: combo_id->0,
                combo_timeout: combo_timeout->0,
            },
        )
    } else {
        None
    }
}

/// Decodes a combo record from the members of a JSON object.
pub fn decode_combo_info(m: &Vec<(String, Json)>) -> (r: Option<ComboInfo>)
    ensures
        r == combo_info(m@),
{
    let combo_base_num = get_int(m, "combo_base_num")?;
    let combo_count = get_int(m, "combo_count")?;
    let combo_id = get_str(m, "combo_id")?;
    let combo_timeout = get_int(m, "combo_timeout")?;
    Some(ComboInfo { combo_base_num, combo_count, combo_id, combo_timeout })
}

/// The optional member `key` as a combo record: `Some(None)` where it is left
/// out, `None` where it is present but does not decode.
pub open spec fn opt_combo_info_field(m: Seq<(String, Json)>, key: Seq<char>) -> Option<
    Option<ComboInfo>,
> {
    if is_absent(m, key) {
        Some(None)
    } else {
        match object_field(m, key) {
            Some(inner) => match combo_info(inner) {
                Some(x) => Some(Some(x)),
                None => None,
            },
            None => None,
        }
    }
}

/// Reads the optional member `key` as a combo record.
pub fn get_opt_combo_info(m: &Vec<(String, Json)>, key: &str) -> (r: Option<Option<ComboInfo>>)
    ensures
        r == opt_combo_info_field(m@, key@),
{
    if absent(m, key) {
        return Some(None);
    }
    match get_object(m, key) {
        Some(inner) => match decode_combo_info(inner) {
            Some(x) => Some(Some(x)),
            None => None,
        },
        None => None,
    }
}

/// The blind-box record that the members `m` hold, where every member it needs is
/// there with its type.
pub open spec fn blind_gift(m: Seq<(String, Json)>) -> Option<BlindGift> {
    let blind_gift_id = int_field(m, "blind_gift_id"@);
    let status = bool_field(m, "status"@);
    if blind_gift_id is Some && status is Some {
        Some(
            BlindGift {
                blind_gift_id: blind_gift_id->0,
                status: status->0,
            },
        )
    } else {
        None
    }
}

/// Decodes a blind-box record from the members of a JSON object.
pub fn decode_blind_gift(m: &Vec<(String, Json)>) -> (r: Option<BlindGift>)
    ensures
        r == blind_gift(m@),
{
    let blind_gift_id = get_int(m, "blind_gift_id")?;
    let status = get_bool(m, "status")?;
    Some(BlindGift { blind_gift_id, status })
}

/// The optional member `key` as a blind-box record: `Some(None)` where it is left
/// out, `None` where it is present but does not decode.
pub open spec fn opt_blind_gift_field(m: Seq<(String, Json)>, key: Seq<char>) -> Option<
    Option<BlindGift>,
> {
    if is_absent(m, key) {
        Some(None)
    } else {
        match object_field(m, key) {
            Some(inner) => match blind_gift(inner) {
                Some(x) => Some(Some(x)),
                None => None,
            },
            None => None,
        }
    }
}

/// Reads the optional member `key` as a blind-box record.
pub fn get_opt_blind_gift(m: &Vec<(String, Json)>, key: &str) -> (r: Option<Option<BlindGift>>)
    ensures
        r == opt_blind_gift_field(m@, key@),
{
    if absent(m, key) {
        return Some(None);
    }
    match get_object(m, key) {
        Some(inner) => match decode_blind_gift(inner) {
            Some(x) => Some(Some(x)),
            None => None,
        },
        None => None,
    }
}

/// The viewer record that the members `m` hold, where every member it needs is
/// there with its type.
pub open spec fn user_info(m: Seq<(String, Json)>) -> Option<UserInfo> {
    let uid = int_field(m, "uid"@);
    let open_id = str_field(m, "open_id"@);
    let union_id = opt_str_field(m, "union_id"@);
    let uname = str_field(m, "uname"@);
    let uface = str_field(m, "uface"@);
    if uid is Some && open_id is Some && union_id is Some && uname is Some && uface is Some {
        Some(
            UserInfo {
                uid: uid->0,
                open_id: open_id->0,
                union_id: union_id->0,
                uname: uname->0,
                uface: uface->0,
            },
        )
    } else {
        None
    }
}

/// Decodes a viewer record from the members of a JSON object.
pub fn decode_user_info(m: &Vec<(String, Json)>) -> (r: Option<UserInfo>)
    ensures
        r == user_info(m@),
{
    let uid = get_int(m, "uid")?;
    let open_id = get_str(m, "open_id")?;
    let union_id = get_opt_str(m, "union_id")?;
    let uname = get_str(m, "uname")?;
    let uface = get_str(m, "uface")?;
    Some(UserInfo { uid, open_id, union_id, uname, uface })
}

/// The required member `key` as a viewer record.
pub open spec fn user_info_field(m: Seq<(String, Json)>, key: Seq<char>) -> Option<UserInfo> {
    match object_field(m, key) {
        Some(inner) => user_info(inner),
        None => None,
    }
}

/// Reads the required member `key` as a viewer record.
pub fn get_user_info(m: &Vec<(String, Json)>, key: &str) -> (r: Option<UserInfo>)
    ensures
        r == user_info_field(m@, key@),
{
    match get_object(m, key) {
        Some(inner) => decode_user_info(inner),
        None => None,
    }
}

/// The chat message that the members `m` hold, where every member it needs is
/// there with its type.
pub open spec fn danmaku_data(m: Seq<(String, Json)>) -> Option<DanmakuData> {
    let room_id = int_field(m, "room_id"@);
    let uid = int_field(m, "uid"@);
    let open_id = str_field(m, "open_id"@);
    let union_id = opt_str_field(m, "union_id"@);
    let uname = str_field(m, "uname"@);
    let uface = str_field(m, "uface"@);
    let timestamp = int_field(m, "timestamp"@);
    let msg = str_field(m, "msg"@);
    let msg_id = str_field(m, "msg_id"@);
    let guard_level = int_field(m, "guard_level"@);
    let fans_medal_wearing_status = bool_field(m, "fans_medal_wearing_status"@);
    let fans_medal_name = str_field(m, "fans_medal_name"@);
    let fans_medal_level = int_field(m, "fans_medal_level"@);
    let emoji_img_url = opt_str_field(m, "emoji_img_url"@);
    let dm_type = int_field(m, "dm_type"@);
    let glory_level = opt_i32_field(m, "glory_level"@);
    let reply_open_id = opt_str_field(m, "reply_open_id"@);
    let reply_uname = opt_str_field(m, "reply_uname"@);
    let is_admin = opt_i32_field(m, "is_admin"@);
    if room_id is Some && uid is Some && open_id is Some && union_id is Some && uname is Some
        && uface is Some && timestamp is Some && msg is Some && msg_id is Some
        && guard_level is Some && fans_medal_wearing_status is Some && fans_medal_name is Some
        && fans_medal_level is Some && emoji_img_url is Some && dm_type is Some
        && glory_level is Some && reply_open_id is Some && reply_uname is Some && is_admin is Some {
        Some(
            DanmakuData {
                room_id: room_id->0,
                uid: uid->0,
                open_id: open_id->0,
                union_id: union_id->0,
                uname: uname->0,
                uface: uface->0,
                timestamp: timestamp->0,
                msg: msg->0,
                msg_id: msg_id->0,
                guard_level: guard_level->0,
                fans_medal_wearing_status: fans_medal_wearing_status->0,
                fans_medal_name: fans_medal_name->0,
                fans_medal_level: fans_medal_level->0,
                emoji_img_url: emoji_img_url->0,
                dm_type: dm_type->0,
                glory_level: glory_level->0,
                reply_open_id: reply_open_id->0,
                reply_uname: reply_uname->0,
                is_admin: is_admin->0,
            },
        )
    } else {
        None
    }
}

/// Decodes a chat message from the members of a JSON object.
pub fn decode_danmaku_data(m: &Vec<(String, Json)>) -> (r: Option<DanmakuData>)
    ensures
        r == danmaku_data(m@),
{
    let room_id = get_int(m, "room_id")?;
    let uid = get_int(m, "uid")?;
    let open_id = get_str(m, "open_id")?;
    let union_id = get_opt_str(m, "union_id")?;
    let uname = get_str(m, "uname")?;
    let uface = get_str(m, "uface")?;
    let timestamp = get_int(m, "timestamp")?;
    let msg = get_str(m, "msg")?;
    let msg_id = get_str(m, "msg_id")?;
    let guard_level = get_int(m, "guard_level")?;
    let fans_medal_wearing_status = get_bool(m, "fans_medal_wearing_status")?;
    let fans_medal_name = get_str(m, "fans_medal_name")?;
    let fans_medal_level = get_int(m, "fans_medal_level")?;
    let emoji_img_url = get_opt_str(m, "emoji_img_url")?;
    let dm_type = get_int(m, "dm_type")?;
    let glory_level = get_opt_i32(m, "glory_level")?;
    let reply_open_id = get_opt_str(m, "reply_open_id")?;
    let reply_uname = get_opt_str(m, "reply_uname")?;
    let is_admin = get_opt_i32(m, "is_admin")?;
    Some(
        DanmakuData {
            room_id,
            uid,
            open_id,
            union_id,
            uname,
            uface,
            timestamp,
            msg,
            msg_id,
            guard_level,
            fans_medal_wearing_status,
            fans_medal_name,
            fans_medal_level,
            emoji_img_url,
            dm_type,
            glory_level,
            reply_open_id,
            reply_uname,
            is_admin,
        },
    )
}

/// The gift that the members `m` hold, where every member it needs is
/// there with its type.
pub open spec fn gift_data(m: Seq<(String, Json)>) -> Option<GiftData> {
    let room_id = int_field(m, "room_id"@);
    let uid = int_field(m, "uid"@);
    let open_id = str_field(m, "open_id"@);
    let union_id = opt_str_field(m, "union_id"@);
    let uname = str_field(m, "uname"@);
    let uface = str_field(m, "uface"@);
    let gift_id = int_field(m, "gift_id"@);
    let gift_name = str_field(m, "gift_name"@);
    let gift_num = int_field(m, "gift_num"@);
    let price = int_field(m, "price"@);
    let r_price = int_field(m, "r_price"@);
    let paid = bool_field(m, "paid"@);
    let fans_medal_level = int_field(m, "fans_medal_level"@);
    let fans_medal_name = str_field(m, "fans_medal_name"@);
    let fans_medal_wearing_status = bool_field(m, "fans_medal_wearing_status"@);
    let guard_level = int_field(m, "guard_level"@);
    let timestamp = int_field(m, "timestamp"@);
    let anchor_info = anchor_info_field(m, "anchor_info"@);
    let msg_id = str_field(m, "msg_id"@);
    let gift_icon = opt_str_field(m, "gift_icon"@);
    let combo_gift = opt_bool_field(m, "combo_gift"@);
    let combo_info = opt_combo_info_field(m, "combo_info"@);
    let blind_gift = opt_blind_gift_field(m, "blind_gift"@);
    if room_id is Some && uid is Some && open_id is Some && union_id is Some && uname is Some
        && uface is Some && gift_id is Some && gift_name is Some && gift_num is Some
        && price is Some && r_price is Some && paid is Some && fans_medal_level is Some
        && fans_medal_name is Some && fans_medal_wearing_status is Some && guard_level is Some
        && timestamp is Some && anchor_info is Some && msg_id is Some && gift_icon is Some
        && combo_gift is Some && combo_info is Some && blind_gift is Some {
        Some(
            GiftData {
                room_id: room_id->0,
                uid: uid->0,
                open_id: open_id->0,
                union_id: union_id->0,
                uname: uname->0,
                uface: uface->0,
                gift_id: gift_id->0,
                gift_name: gift_name->0,
                gift_num: gift_num->0,
                price: price->0,
                r_price: r_price->0,
                paid: paid->0,
                fans_medal_level: fans_medal_level->0,
                fans_medal_name: fans_medal_name->0,
                fans_medal_wearing_status: fans_medal_wearing_status->0,
                guard_level: guard_level->0,
                timestamp: timestamp->0,
                anchor_info: anchor_info->0,
                msg_id: msg_id->0,
                gift_icon: gift_icon->0,
                combo_gift: combo_gift->0,
                combo_info: combo_info->0,
                blind_gift: blind_gift->0,
            },
        )
    } else {
        None
    }
}

/// Decodes a gift from the members of a JSON object.
pub fn decode_gift_data(m: &Vec<(String, Json)>) -> (r: Option<GiftData>)
    ensures
        r == gift_data(m@),
{
    let room_id = get_int(m, "room_id")?;
    let uid = get_int(m, "uid")?;
    let open_id = get_str(m, "open_id")?;
    let union_id = get_opt_str(m, "union_id")?;
    let uname = get_str(m, "uname")?;
    let uface = get_str(m, "uface")?;
    let gift_id = get_int(m, "gift_id")?;
    let gift_name = get_str(m, "gift_name")?;
    let gift_num = get_int(m, "gift_num")?;
    let price = get_int(m, "price")?;
    let r_price = get_int(m, "r_price")?;
    let paid = get_bool(m, "paid")?;
    let fans_medal_level = get_int(m, "fans_medal_level")?;
    let fans_medal_name = get_str(m, "fans_medal_name")?;
    let fans_medal_wearing_status = get_bool(m, "fans_medal_wearing_status")?;
    let guard_level = get_int(m, "guard_level")?;
    let timestamp = get_int(m, "timestamp")?;
    let anchor_info = get_anchor_info(m, "anchor_info")?;
    let msg_id = get_str(m, "msg_id")?;
    let gift_icon = get_opt_str(m, "gift_icon")?;
    let combo_gift = get_opt_bool(m, "combo_gift")?;
    let combo_info = get_opt_combo_info(m, "combo_info")?;
    let blind_gift = get_opt_blind_gift(m, "blind_gift")?;
    Some(
        GiftData {
            room_id,
            uid,
            open_id,
            union_id,
            uname,
            uface,
            gift_id,
            gift_name,
            gift_num,
            price,
            r_price,
            paid,
            fans_medal_level,
            fans_medal_name,
            fans_medal_wearing_status,
            guard_level,
            timestamp,
            anchor_info,
            msg_id,
            gift_icon,
            combo_gift,
            combo_info,
            blind_gift,
        },
    )
}

/// The paid message that the members `m` hold, where every member it needs is
/// there with its type.
pub open spec fn super_chat_data(m: Seq<(String, Json)>) -> Option<SuperChatData> {
    let room_id = int_field(m, "room_id"@);
    let uid = int_field(m, "uid"@);
    let open_id = str_field(m, "open_id"@);
    let union_id = opt_str_field(m, "union_id"@);
    let uname = str_field(m, "uname"@);
    let uface = str_field(m, "uface"@);
    let message_id = int_field(m, "message_id"@);
    let message = str_field(m, "message"@);
    let rmb = int_field(m, "rmb"@);
    let timestamp = int_field(m, "timestamp"@);
    let start_time = int_field(m, "start_time"@);
    let end_time = int_field(m, "end_time"@);
    let guard_level = int_field(m, "guard_level"@);
    let fans_medal_level = int_field(m, "fans_medal_level"@);
    let fans_medal_name = str_field(m, "fans_medal_name"@);
    let fans_medal_wearing_status = bool_field(m, "fans_medal_wearing_status"@);
    let msg_id = str_field(m, "msg_id"@);
    if room_id is Some && uid is Some && open_id is Some && union_id is Some && uname is Some
        && uface is Some && message_id is Some && message is Some && rmb is Some
        && timestamp is Some && start_time is Some && end_time is Some && guard_level is Some
        && fans_medal_level is Some && fans_medal_name is Some
        && fans_medal_wearing_status is Some && msg_id is Some {
        Some(
            SuperChatData {
                room_id: room_id->0,
                uid: uid->0,
                open_id: open_id->0,
                union_id: union_id->0,
                uname: uname->0,
                uface: uface->0,
                message_id: message_id->0,
                message: message->0,
                rmb: rmb->0,
                timestamp: timestamp->0,
                start_time: start_time->0,
                end_time: end_time->0,
                guard_level: guard_level->0,
                fans_medal_level: fans_medal_level->0,
                fans_medal_name: fans_medal_name->0,
                fans_medal_wearing_status: fans_medal_wearing_status->0,
                msg_id: msg_id->0,
            },
        )
    } else {
        None
    }
}

/// Decodes a paid message from the members of a JSON object.
pub fn decode_super_chat_data(m: &Vec<(String, Json)>) -> (r: Option<SuperChatData>)
    ensures
        r == super_chat_data(m@),
{
    let room_id = get_int(m, "room_id")?;
    let uid = get_int(m, "uid")?;
    let open_id = get_str(m, "open_id")?;
    let union_id = get_opt_str(m, "union_id")?;
    let uname = get_str(m, "uname")?;
    let uface = get_str(m, "uface")?;
    let message_id = get_int(m, "message_id")?;
    let message = get_str(m, "message")?;
    let rmb = get_int(m, "rmb")?;
    let timestamp = get_int(m, "timestamp")?;
    let start_time = get_int(m, "start_time")?;
    let end_time = get_int(m, "end_time")?;
    let guard_level = get_int(m, "guard_level")?;
    let fans_medal_level = get_int(m, "fans_medal_level")?;
    let fans_medal_name = get_str(m, "fans_medal_name")?;
    let fans_medal_wearing_status = get_bool(m, "fans_medal_wearing_status")?;
    let msg_id = get_str(m, "msg_id")?;
    Some(
        SuperChatData {
            room_id,
            uid,
            open_id,
            union_id,
            uname,
            uface,
            message_id,
            message,
            rmb,
            timestamp,
            start_time,
            end_time,
            guard_level,
            fans_medal_level,
            fans_medal_name,
            fans_medal_wearing_status,
            msg_id,
        },
    )
}

/// The membership purchase that the members `m` hold, where every member it needs is
/// there with its type.
pub open spec fn guard_data(m: Seq<(String, Json)>) -> Option<GuardData> {
    let user_info = user_info_field(m, "user_info"@);
    let guard_level = int_field(m, "guard_level"@);
    let guard_num = int_field(m, "guard_num"@);
    let guard_unit = str_field(m, "guard_unit"@);
    let price = int_field(m, "price"@);
    let fans_medal_level = int_field(m, "fans_medal_level"@);
    let fans_medal_name = str_field(m, "fans_medal_name"@);
    let fans_medal_wearing_status = bool_field(m, "fans_medal_wearing_status"@);
    let room_id = int_field(m, "room_id"@);
    let msg_id = str_field(m, "msg_id"@);
    let timestamp = int_field(m, "timestamp"@);
    if user_info is Some && guard_level is Some && guard_num is Some && guard_unit is Some
        && price is Some && fans_medal_level is Some && fans_medal_name is Some
        && fans_medal_wearing_status is Some && room_id is Some && msg_id is Some
        && timestamp is Some {
        Some(
            GuardData {
                user_info: user_info->0,
                guard_level: guard_level->0,
                guard_num: guard_num->0,
                guard_unit: guard_unit->0,
                price: price->0,
                fans_medal_level: fans_medal_level->0,
                fans_medal_name: fans_medal_name->0,
                fans_medal_wearing_status: fans_medal_wearing_status->0,
                room_id: room_id->0,
                msg_id: msg_id->0,
                timestamp: timestamp->0,
            },
        )
    } else {
        None
    }
}

/// Decodes a membership purchase from the members of a JSON object.
pub fn decode_guard_data(m: &Vec<(String, Json)>) -> (r: Option<GuardData>)
    ensures
        r == guard_data(m@),
{
    let user_info = get_user_info(m, "user_info")?;
    let guard_level = get_int(m, "guard_level")?;
    let guard_num = get_int(m, "guard_num")?;
    let guard_unit = get_str(m, "guard_unit")?;
    let price = get_int(m, "price")?;
    let fans_medal_level = get_int(m, "fans_medal_level")?;
    let fans_medal_name = get_str(m, "fans_medal_name")?;
    let fans_medal_wearing_status = get_bool(m, "fans_medal_wearing_status")?;
    let room_id = get_int(m, "room_id")?;
    let msg_id = get_str(m, "msg_id")?;
    let timestamp = get_int(m, "timestamp")?;
    Some(
        GuardData {
            user_info,
            guard_level,
            guard_num,
            guard_unit,
            price,
            fans_medal_level,
            fans_medal_name,
            fans_medal_wearing_status,
            room_id,
            msg_id,
            timestamp,
        },
    )
}

/// The like record that the members `m` hold, where every member it needs is
/// there with its type.
pub open spec fn like_data(m: Seq<(String, Json)>) -> Option<LikeData> {
    let room_id = int_field(m, "room_id"@);
    let uid = int_field(m, "uid"@);
    let open_id = str_field(m, "open_id"@);
    let union_id = opt_str_field(m, "union_id"@);
    let uname = str_field(m, "uname"@);
    let uface = str_field(m, "uface"@);
    let timestamp = int_field(m, "timestamp"@);
    let like_text = str_field(m, "like_text"@);
    let like_count = int_field(m, "like_count"@);
    let fans_medal_level = int_field(m, "fans_medal_level"@);
    let fans_medal_name = str_field(m, "fans_medal_name"@);
    let fans_medal_wearing_status = bool_field(m, "fans_medal_wearing_status"@);
    let guard_level = opt_int_field(m, "guard_level"@);
    let msg_id = str_field(m, "msg_id"@);
    if room_id is Some && uid is Some && open_id is Some && union_id is Some && uname is Some
        && uface is Some && timestamp is Some && like_text is Some && like_count is Some
        && fans_medal_level is Some && fans_medal_name is Some
        && fans_medal_wearing_status is Some && guard_level is Some && msg_id is Some {
        Some(
            LikeData {
                room_id: room_id->0,
                uid: uid->0,
                open_id: open_id->0,
                union_id: union_id->0,
                uname: uname->0,
                uface: uface->0,
                timestamp: timestamp->0,
                like_text: like_text->0,
                like_count: like_count->0,
                fans_medal_level: fans_medal_level->0,
                fans_medal_name: fans_medal_name->0,
                fans_medal_wearing_status: fans_medal_wearing_status->0,
                guard_level: guard_level->0,
                msg_id: msg_id->0,
            },
        )
    } else {
        None
    }
}

/// Decodes a like record from the members of a JSON object.
pub fn decode_like_data(m: &Vec<(String, Json)>) -> (r: Option<LikeData>)
    ensures
        r == like_data(m@),
{
    let room_id = get_int(m, "room_id")?;
    let uid = get_int(m, "uid")?;
    let open_id = get_str(m, "open_id")?;
    let union_id = get_opt_str(m, "union_id")?;
    let uname = get_str(m, "uname")?;
    let uface = get_str(m, "uface")?;
    let timestamp = get_int(m, "timestamp")?;
    let like_text = get_str(m, "like_text")?;
    let like_count = get_int(m, "like_count")?;
    let fans_medal_level = get_int(m, "fans_medal_level")?;
    let fans_medal_name = get_str(m, "fans_medal_name")?;
    let fans_medal_wearing_status = get_bool(m, "fans_medal_wearing_status")?;
    let guard_level = get_opt_int(m, "guard_level")?;
    let msg_id = get_str(m, "msg_id")?;
    Some(
        LikeData {
            room_id,
            uid,
            open_id,
            union_id,
            uname,
            uface,
            timestamp,
            like_text,
            like_count,
            fans_medal_level,
            fans_medal_name,
            fans_medal_wearing_status,
            guard_level,
            msg_id,
        },
    )
}

/// The room entry that the members `m` hold, where every member it needs is
/// there with its type.
pub open spec fn live_room_enter_data(m: Seq<(String, Json)>) -> Option<LiveRoomEnterData> {
    let room_id = int_field(m, "room_id"@);
    let uface = str_field(m, "uface"@);
    let uname = str_field(m, "uname"@);
    let open_id = str_field(m, "open_id"@);
    let union_id = opt_str_field(m, "union_id"@);
    let timestamp = int_field(m, "timestamp"@);
    if room_id is Some && uface is Some && uname is Some && open_id is Some && union_id is Some
        && timestamp is Some {
        Some(
            LiveRoomEnterData {
                room_id: room_id->0,
                uface: uface->0,
                uname: uname->0,
                open_id: open_id->0,
                union_id: union_id->0,
                timestamp: timestamp->0,
            },
        )
    } else {
        None
    }
}

/// Decodes a room entry from the members of a JSON object.
pub fn decode_live_room_enter_data(m: &Vec<(String, Json)>) -> (r: Option<LiveRoomEnterData>)
    ensures
        r == live_room_enter_data(m@),
{
    let room_id = get_int(m, "room_id")?;
    let uface = get_str(m, "uface")?;
    let uname = get_str(m, "uname")?;
    let open_id = get_str(m, "open_id")?;
    let union_id = get_opt_str(m, "union_id")?;
    let timestamp = get_int(m, "timestamp")?;
    Some(LiveRoomEnterData { room_id, uface, uname, open_id, union_id, timestamp })
}

/// The stream start that the members `m` hold, where every member it needs is
/// there with its type.
pub open spec fn live_start_data(m: Seq<(String, Json)>) -> Option<LiveStartData> {
    let room_id = int_field(m, "room_id"@);
    let open_id = str_field(m, "open_id"@);
    let union_id = opt_str_field(m, "union_id"@);
    let timestamp = int_field(m, "timestamp"@);
    let area_name = str_field(m, "area_name"@);
    let title = str_field(m, "title"@);
    if room_id is Some && open_id is Some && union_id is Some && timestamp is Some
        && area_name is Some && title is Some {
        Some(
            LiveStartData {
                room_id: room_id->0,
                open_id: open_id->0,
                union_id: union_id->0,
                timestamp: timestamp->0,
                area_name: area_name->0,
                title: title->0,
            },
        )
    } else {
        None
    }
}

/// Decodes a stream start from the members of a JSON object.
pub fn decode_live_start_data(m: &Vec<(String, Json)>) -> (r: Option<LiveStartData>)
    ensures
        r == live_start_data(m@),
{
    let room_id = get_int(m, "room_id")?;
    let open_id = get_str(m, "open_id")?;
    let union_id = get_opt_str(m, "union_id")?;
    let timestamp = get_int(m, "timestamp")?;
    let area_name = get_str(m, "area_name")?;
    let title = get_str(m, "title")?;
    Some(LiveStartData { room_id, open_id, union_id, timestamp, area_name, title })
}

/// The stream end that the members `m` hold, where every member it needs is
/// there with its type.
pub open spec fn live_end_data(m: Seq<(String, Json)>) -> Option<LiveEndData> {
    let room_id = int_field(m, "room_id"@);
    let open_id = str_field(m, "open_id"@);
    let union_id = opt_str_field(m, "union_id"@);
    let timestamp = int_field(m, "timestamp"@);
    let area_name = str_field(m, "area_name"@);
    let title = str_field(m, "title"@);
    if room_id is Some && open_id is Some && union_id is Some && timestamp is Some
        && area_name is Some && title is Some {
        Some(
            LiveEndData {
                room_id: room_id->0,
                open_id: open_id->0,
                union_id: union_id->0,
                timestamp: timestamp->0,
                area_name: area_name->0,
                title: title->0,
            },
        )
    } else {
        None
    }
}

/// Decodes a stream end from the members of a JSON object.
pub fn decode_live_end_data(m: &Vec<(String, Json)>) -> (r: Option<LiveEndData>)
    ensures
        r == live_end_data(m@),
{
    let room_id = get_int(m, "room_id")?;
    let open_id = get_str(m, "open_id")?;
    let union_id = get_opt_str(m, "union_id")?;
    let timestamp = get_int(m, "timestamp")?;
    let area_name = get_str(m, "area_name")?;
    let title = get_str(m, "title")?;
    Some(LiveEndData { room_id, open_id, union_id, timestamp, area_name, title })
}

/// The session end that the members `m` hold, where every member it needs is
/// there with its type.
pub open spec fn interaction_end_data(m: Seq<(String, Json)>) -> Option<InteractionEndData> {
    let game_id = str_field(m, "game_id"@);
    let timestamp = int_field(m, "timestamp"@);
    if game_id is Some && timestamp is Some {
        Some(
            InteractionEndData {
                game_id: game_id->0,
                timestamp: timestamp->0,
            },
        )
    } else {
        None
    }
}

/// Decodes a session end from the members of a JSON object.
pub fn decode_interaction_end_data(m: &Vec<(String, Json)>) -> (r: Option<InteractionEndData>)
    ensures
        r == interaction_end_data(m@),
{
    let game_id = get_str(m, "game_id")?;
    let timestamp = get_int(m, "timestamp")?;
    Some(InteractionEndData { game_id, timestamp })
}


/// What a take-down record holds.
pub struct SuperChatDel {
    pub room_id: i64,
    pub message_ids: Seq<i64>,
    pub msg_id: String,
}

impl View for SuperChatDelData {
    type V = SuperChatDel;

    open spec fn view(&self) -> SuperChatDel {
        SuperChatDel { room_id: self.room_id, message_ids: self.message_ids@, msg_id: self.msg_id }
    }
}

/// The take-down record that the members `m` hold, where every member it
/// needs is there with its type.
pub open spec fn super_chat_del_data(m: Seq<(String, Json)>) -> Option<SuperChatDel> {
    let room_id = int_field(m, "room_id"@);
    let message_ids = int_list_field(m, "message_ids"@);
    let msg_id = str_field(m, "msg_id"@);
    if room_id is Some && message_ids is Some && msg_id is Some {
        Some(SuperChatDel { room_id: room_id->0, message_ids: message_ids->0, msg_id: msg_id->0 })
    } else {
        None
    }
}

/// Decodes a take-down record from the members of a JSON object.
pub fn decode_super_chat_del_data(m: &Vec<(String, Json)>) -> (r: Option<SuperChatDelData>)
    ensures
        match super_chat_del_data(m@) {
            Some(record) => r matches Some(d) && d@ == record,
            None => r is None,
        },
{
    let room_id = get_int(m, "room_id")?;
    let message_ids = get_int_list(m, "message_ids")?;
    let msg_id = get_str(m, "msg_id")?;
    Some(SuperChatDelData { room_id, message_ids, msg_id })
}

/// The mathematical content of an event.
pub enum Event {
    Danmaku(DanmakuData),
    Gift(GiftData),
    SuperChat(SuperChatData),
    Guard(GuardData),
    Like(LikeData),
    SuperChatDel(SuperChatDel),
    LiveRoomEnter(LiveRoomEnterData),
    LiveStart(LiveStartData),
    LiveEnd(LiveEndData),
    InteractionEnd(InteractionEndData),
}

impl View for BilibiliMessage {
    type V = Event;

    open spec fn view(&self) -> Event {
        match *self {
            BilibiliMessage::Danmaku { data } => Event::Danmaku(data),
            BilibiliMessage::Gift { data } => Event::Gift(data),
            BilibiliMessage::SuperChat { data } => Event::SuperChat(data),
            BilibiliMessage::Guard { data } => Event::Guard(data),
            BilibiliMessage::Like { data } => Event::Like(data),
            BilibiliMessage::SuperChatDel { data } => Event::SuperChatDel(data@),
            BilibiliMessage::LiveRoomEnter { data } => Event::LiveRoomEnter(data),
            BilibiliMessage::LiveStart { data } => Event::LiveStart(data),
            BilibiliMessage::LiveEnd { data } => Event::LiveEnd(data),
            BilibiliMessage::InteractionEnd { data } => Event::InteractionEnd(data),
        }
    }
}

/// The event with command tag `cmd` and payload members `data`: the tag
/// picks the variant, and the payload must decode as that variant's record.
pub open spec fn event_named(cmd: Seq<char>, data: Seq<(String, Json)>) -> Option<Event> {
    if cmd == "LIVE_OPEN_PLATFORM_DM"@ {
        match danmaku_data(data) {
            Some(d) => Some(Event::Danmaku(d)),
            None => None,
        }
    } else if cmd == "LIVE_OPEN_PLATFORM_SEND_GIFT"@ {
        match gift_data(data) {
            Some(d) => Some(Event::Gift(d)),
            None => None,
        }
    } else if cmd == "LIVE_OPEN_PLATFORM_SUPER_CHAT"@ {
        match super_chat_data(data) {
            Some(d) => Some(Event::SuperChat(d)),
            None => None,
        }
    } else if cmd == "LIVE_OPEN_PLATFORM_GUARD"@ {
        match guard_data(data) {
            Some(d) => Some(Event::Guard(d)),
            None => None,
        }
    } else if cmd == "LIVE_OPEN_PLATFORM_LIKE"@ {
        match like_data(data) {
            Some(d) => Some(Event::Like(d)),
            None => None,
        }
    } else if cmd == "LIVE_OPEN_PLATFORM_SUPER_CHAT_DEL"@ {
        match super_chat_del_data(data) {
            Some(d) => Some(Event::SuperChatDel(d)),
            None => None,
        }
    } else if cmd == "LIVE_OPEN_PLATFORM_LIVE_ROOM_ENTER"@ {
        match live_room_enter_data(data) {
            Some(d) => Some(Event::LiveRoomEnter(d)),
            None => None,
        }
    } else if cmd == "LIVE_OPEN_PLATFORM_LIVE_START"@ {
        match live_start_data(data) {
            Some(d) => Some(Event::LiveStart(d)),
            None => None,
        }
    } else if cmd == "LIVE_OPEN_PLATFORM_LIVE_END"@ {
        match live_end_data(data) {
            Some(d) => Some(Event::LiveEnd(d)),
            None => None,
        }
    } else if cmd == "LIVE_OPEN_PLATFORM_INTERACTION_END"@ {
        match interaction_end_data(data) {
            Some(d) => Some(Event::InteractionEnd(d)),
            None => None,
        }
    } else {
        None
    }
}

/// The event that a JSON message stands for: an object whose `cmd` is one
/// of the known tags and whose `data` is an object that decodes as that
/// tag's record.
pub open spec fn event_of(json: Json) -> Option<Event> {
    match json {
        Json::Object(m) => {
            let cmd = str_field(m@, "cmd"@);
            let data = object_field(m@, "data"@);
            if cmd is Some && data is Some {
                event_named(cmd->0@, data->0)
            } else {
                None
            }
        },
        _ => None,
    }
}

/// Whether `r` holds the event `e`, or nothing where there is none.
pub open spec fn message_is(r: Option<BilibiliMessage>, e: Option<Event>) -> bool {
    match e {
        Some(event) => r matches Some(m) && m@ == event,
        None => r is None,
    }
}

fn tag_is(cmd: &String, tag: &str) -> (b: bool)
    ensures
        b == (cmd@ == tag@),
{
    *cmd == tag.to_owned()
}

/// Decodes the event with command tag `cmd` from its payload members.
pub fn decode_named(cmd: &String, data: &Vec<(String, Json)>) -> (r: Option<BilibiliMessage>)
    ensures
        message_is(r, event_named(cmd@, data@)),
{
    if tag_is(cmd, "LIVE_OPEN_PLATFORM_DM") {
        let data = decode_danmaku_data(data)?;
        Some(BilibiliMessage::Danmaku { data })
    } else if tag_is(cmd, "LIVE_OPEN_PLATFORM_SEND_GIFT") {
        let data = decode_gift_data(data)?;
        Some(BilibiliMessage::Gift { data })
    } else if tag_is(cmd, "LIVE_OPEN_PLATFORM_SUPER_CHAT") {
        let data = decode_super_chat_data(data)?;
        Some(BilibiliMessage::SuperChat { data })
    } else if tag_is(cmd, "LIVE_OPEN_PLATFORM_GUARD") {
        let data = decode_guard_data(data)?;
        Some(BilibiliMessage::Guard { data })
    } else if tag_is(cmd, "LIVE_OPEN_PLATFORM_LIKE") {
        let data = decode_like_data(data)?;
        Some(BilibiliMessage::Like { data })
    } else if tag_is(cmd, "LIVE_OPEN_PLATFORM_SUPER_CHAT_DEL") {
        let data = decode_super_chat_del_data(data)?;
        Some(BilibiliMessage::SuperChatDel { data })
    } else if tag_is(cmd, "LIVE_OPEN_PLATFORM_LIVE_ROOM_ENTER") {
        let data = decode_live_room_enter_data(data)?;
        Some(BilibiliMessage::LiveRoomEnter { data })
    } else if tag_is(cmd, "LIVE_OPEN_PLATFORM_LIVE_START") {
        let data = decode_live_start_data(data)?;
        Some(BilibiliMessage::LiveStart { data })
    } else if tag_is(cmd, "LIVE_OPEN_PLATFORM_LIVE_END") {
        let data = decode_live_end_data(data)?;
        Some(BilibiliMessage::LiveEnd { data })
    } else if tag_is(cmd, "LIVE_OPEN_PLATFORM_INTERACTION_END") {
        let data = decode_interaction_end_data(data)?;
        Some(BilibiliMessage::InteractionEnd { data })
    } else {
        None
    }
}

/// Decodes a JSON message strictly into a typed event.
pub fn decode_message(json: &Json) -> (r: Option<BilibiliMessage>)
    ensures
        message_is(r, event_of(*json)),
{
    match json {
        Json::Object(m) => {
            let cmd = get_str(m, "cmd")?;
            let data = get_object(m, "data")?;
            decode_named(&cmd, data)
        },
        _ => None,
    }
}

/// The untyped form of a message: an object with a string `cmd` and some
/// `data`, whatever it holds.
pub open spec fn unknown_of(json: Json) -> Option<UnknownMessage> {
    match json {
        Json::Object(m) => {
            let cmd = str_field(m@, "cmd"@);
            let data = member(m@, "data"@);
            if cmd is Some && data is Some {
                Some(UnknownMessage { cmd: cmd->0, data: data->0 })
            } else {
                None
            }
        },
        _ => None,
    }
}

/// Decodes a JSON message into its untyped form.
pub fn decode_unknown(json: Json) -> (r: Option<UnknownMessage>)
    ensures
        r == unknown_of(json),
{
    match json {
        Json::Object(mut m) => {
            let cmd = get_str(&m, "cmd")?;
            let at = find_member(&m, "data")?;
            let pair = m.remove(at);
            Some(UnknownMessage { cmd, data: pair.1 })
        },
        _ => None,
    }
}

/// What the dispatcher does with the body of a business message.
#[derive(Debug)]
pub enum Dispatch {
    /// The body is a known event: it is forwarded.
    Emit(BilibiliMessage),
    /// The body names a command without a typed form, or its payload does
    /// not fit: it is reported and not forwarded.
    Unknown(UnknownMessage),
    /// The body is JSON but has neither form: it is reported and dropped.
    Undecodable,
    /// The body is not JSON: it is reported and dropped.
    NotJson,
}

/// The mathematical content of a `Dispatch`.
pub enum Dispatched {
    Emit(Event),
    Unknown(UnknownMessage),
    Undecodable,
    NotJson,
}

impl View for Dispatch {
    type V = Dispatched;

    open spec fn view(&self) -> Dispatched {
        match *self {
            Dispatch::Emit(m) => Dispatched::Emit(m@),
            Dispatch::Unknown(u) => Dispatched::Unknown(u),
            Dispatch::Undecodable => Dispatched::Undecodable,
            Dispatch::NotJson => Dispatched::NotJson,
        }
    }
}

/// What becomes of a body, given what it parsed to: the strict decoding is
/// tried first, then the untyped one.
pub open spec fn dispatched(parsed: Option<Json>) -> Dispatched {
    match parsed {
        None => Dispatched::NotJson,
        Some(json) => match event_of(json) {
            Some(e) => Dispatched::Emit(e),
            None => match unknown_of(json) {
                Some(u) => Dispatched::Unknown(u),
                None => Dispatched::Undecodable,
            },
        },
    }
}

impl Dispatch {
    /// The event to forward, if there is one.
    pub fn emitted(self) -> (r: Option<BilibiliMessage>)
        ensures
            match self {
                Dispatch::Emit(m) => r == Some(m),
                _ => r is None,
            },
    {
        match self {
            Dispatch::Emit(m) => Some(m),
            _ => None,
        }
    }
}

/// Decides what becomes of a body from what it parsed to.
pub fn dispatch(parsed: Option<Json>) -> (r: Dispatch)
    ensures
        r@ == dispatched(parsed),
{
    match parsed {
        None => Dispatch::NotJson,
        Some(json) => {
            match decode_message(&json) {
                Some(m) => Dispatch::Emit(m),
                None => match decode_unknown(json) {
                    Some(u) => Dispatch::Unknown(u),
                    None => Dispatch::Undecodable,
                },
            }
        },
    }
}

/// Parses the body of a business message and decides what becomes of it.
pub fn dispatch_text(body: &str) -> (r: Dispatch)
    ensures
        r@ == dispatched(json_parsed(body@)),
{
    dispatch(parse_json(body))
}

/// Parses a JSON text strictly into a typed event.
pub fn parse_message(text: &str) -> (r: Option<BilibiliMessage>)
    ensures
        message_is(
            r,
            match json_parsed(text@) {
                Some(json) => event_of(json),
                None => None,
            },
        ),
{
    match parse_json(text) {
        Some(json) => decode_message(&json),
        None => None,
    }
}

/// Whether `cmd` is one of the ten command tags that have a typed form.
pub open spec fn known_command(cmd: Seq<char>) -> bool {
    ||| cmd == "LIVE_OPEN_PLATFORM_DM"@
    ||| cmd == "LIVE_OPEN_PLATFORM_SEND_GIFT"@
    ||| cmd == "LIVE_OPEN_PLATFORM_SUPER_CHAT"@
    ||| cmd == "LIVE_OPEN_PLATFORM_GUARD"@
    ||| cmd == "LIVE_OPEN_PLATFORM_LIKE"@
    ||| cmd == "LIVE_OPEN_PLATFORM_SUPER_CHAT_DEL"@
    ||| cmd == "LIVE_OPEN_PLATFORM_LIVE_ROOM_ENTER"@
    ||| cmd == "LIVE_OPEN_PLATFORM_LIVE_START"@
    ||| cmd == "LIVE_OPEN_PLATFORM_LIVE_END"@
    ||| cmd == "LIVE_OPEN_PLATFORM_INTERACTION_END"@
}

/// Only a message with a known command tag is ever forwarded: whatever a
/// body parses to, if it is emitted, it is an object whose `cmd` is one of
/// the ten tags.
pub proof fn lemma_emitted_has_known_command(parsed: Option<Json>)
    requires
        dispatched(parsed) is Emit,
    ensures
        parsed matches Some(Json::Object(m)) && str_field(m@, "cmd"@) matches Some(cmd)
            && known_command(cmd@),
{
}

/// A message with an unrecognised command tag and some payload is reported
/// as unknown, with its tag and payload, and not forwarded.
pub proof fn lemma_unrecognised_command_is_unknown(m: Vec<(String, Json)>)
    requires
        str_field(m@, "cmd"@) is Some,
        !known_command(str_field(m@, "cmd"@)->0@),
        member(m@, "data"@) is Some,
    ensures
        dispatched(Some(Json::Object(m))) == Dispatched::Unknown(
            UnknownMessage { cmd: str_field(m@, "cmd"@)->0, data: member(m@, "data"@)->0 },
        ),
{
}

/// A message tagged as a chat message whose payload holds every member of
/// a chat record is forwarded as that record, each field taken from the
/// member of its name.
pub proof fn lemma_chat_message_is_emitted(m: Vec<(String, Json)>, data: Vec<(String, Json)>)
    requires
        str_field(m@, "cmd"@) matches Some(cmd) && cmd@ == "LIVE_OPEN_PLATFORM_DM"@,
        member(m@, "data"@) == Some(Json::Object(data)),
        danmaku_data(data@) is Some,
    ensures
        dispatched(Some(Json::Object(m))) == Dispatched::Emit(
            Event::Danmaku(danmaku_data(data@)->0),
        ),
        danmaku_data(data@)->0.uname == str_field(data@, "uname"@)->0,
        danmaku_data(data@)->0.msg == str_field(data@, "msg"@)->0,
        danmaku_data(data@)->0.room_id == int_field(data@, "room_id"@)->0,
{
}

} // verus!
