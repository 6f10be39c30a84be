use serde_json::Value;
use tg_bot::keyboards::{
    ForceReply, InlineKeyboardButton, InlineKeyboardMarkup, KeyboardDef, ReplyKeyboardMarkup,
    ReplyKeyboardRemove,
};
use tg_bot::models::{DecodeError, Message, Shape};
use tg_bot::sendables::{MessageParams, ParseMode};

fn parsed(p: &MessageParams) -> Value {
    serde_json::from_str(&p.to_json()).unwrap()
}

fn message(id: i64) -> Message {
    Message { message_id: id, date: 1500000000, chat_id: 7, from: None, text: Some("hello".to_string()) }
}

fn custom_keyboard() -> KeyboardDef {
    KeyboardDef::Custom(ReplyKeyboardMarkup {
        keyboard: vec![vec!["yes".to_string(), "no".to_string()], vec!["maybe".to_string()]],
        one_time_keyboard: Some(true),
    })
}

fn inline_keyboard() -> KeyboardDef {
    KeyboardDef::MessageButtons(InlineKeyboardMarkup {
        inline_keyboard: vec![vec![InlineKeyboardButton {
            text: "Open".to_string(),
            callback_data: "open:1".to_string(),
        }]],
    })
}

#[test]
fn fresh_params_are_markdown() {
    let p = MessageParams::new("42".to_string(), "*bold*".to_string()).build();
    let v = parsed(&p);
    assert_eq!(v["parse_mode"], Value::String("Markdown".to_string()));
    assert_eq!(v["chat_id"], Value::String("42".to_string()));
    assert_eq!(v["text"], Value::String("*bold*".to_string()));
}

#[test]
fn as_html_overrides_markdown() {
    let mut b = MessageParams::new("42".to_string(), "<b>x</b>".to_string());
    b.as_html();
    let v = parsed(&b.build());
    assert_eq!(v["parse_mode"], Value::String("HTML".to_string()));
    b.as_markdown();
    assert_eq!(b.parse_mode, Some(ParseMode::Markdown));
}

#[test]
fn unset_fields_are_omitted() {
    let p = MessageParams::new("42".to_string(), "hi".to_string()).build();
    let v = parsed(&p);
    let obj = v.as_object().unwrap();
    assert_eq!(obj.len(), 3);
    for key in ["disable_web_page_preview", "disable_notification", "reply_to_message_id", "reply_markup"] {
        assert!(!obj.contains_key(key));
    }
    assert!(!p.to_json().contains("null"));
}

#[test]
fn set_members_are_never_null() {
    let mut b = MessageParams::new("42".to_string(), "hi".to_string());
    b.hide_link_preview(true).hide_notification(true).reply_to_message_id(3).set_keyboard(custom_keyboard());
    let v = parsed(&b.build());
    for (_, x) in v.as_object().unwrap() {
        assert!(!x.is_null());
    }
}

#[test]
fn set_fields_are_present() {
    let mut b = MessageParams::new("42".to_string(), "hi".to_string());
    b.hide_link_preview(true).hide_notification(false).reply_to_message_id(99);
    let v = parsed(&b.build());
    assert_eq!(v["disable_web_page_preview"], Value::Bool(true));
    assert_eq!(v["disable_notification"], Value::Bool(false));
    assert_eq!(v["reply_to_message_id"], Value::from(99));
    assert_eq!(v.as_object().unwrap().len(), 6);
}

#[test]
fn second_keyboard_replaces_first() {
    let mut b = MessageParams::new("42".to_string(), "pick".to_string());
    b.set_keyboard(custom_keyboard()).set_keyboard(inline_keyboard());
    let v = parsed(&b.build());
    let markup = v["reply_markup"].as_object().unwrap();
    assert_eq!(markup.len(), 1);
    assert!(markup.contains_key("inline_keyboard"));
    assert!(!markup.contains_key("keyboard"));
    assert_eq!(v["reply_markup"]["inline_keyboard"][0][0]["callback_data"], Value::String("open:1".to_string()));
    assert_eq!(v["reply_markup"]["inline_keyboard"][0][0].as_object().unwrap().len(), 2);
}

#[test]
fn remove_and_force_reply_markups() {
    let mut b = MessageParams::new("1".to_string(), "x".to_string());
    b.set_keyboard(KeyboardDef::Writing(ReplyKeyboardRemove { selective: None }));
    let v = parsed(&b.build());
    assert_eq!(v["reply_markup"]["remove_keyboard"], Value::Bool(true));
    assert!(v["reply_markup"].get("selective").is_none());
    b.set_keyboard(KeyboardDef::Reply(ForceReply { selective: Some(true) }));
    let v = parsed(&b.build());
    assert_eq!(v["reply_markup"]["force_reply"], Value::Bool(true));
    assert_eq!(v["reply_markup"]["selective"], Value::Bool(true));
    assert!(v["reply_markup"].get("remove_keyboard").is_none());
}

#[test]
fn reply_to_message_keeps_only_the_id() {
    let mut m = message(314);
    let mut b = MessageParams::new("42".to_string(), "re".to_string());
    b.reply_to_message(&m);
    let snapshot = b.build();
    m.message_id = 1;
    b.reply_to_message_id(2);
    assert_eq!(snapshot.reply_to_message_id, Some(314));
    assert_eq!(parsed(&snapshot)["reply_to_message_id"], Value::from(314));
}

#[test]
fn snapshot_is_not_changed_by_builder() {
    let mut b = MessageParams::new("42".to_string(), "a".to_string());
    b.set_keyboard(custom_keyboard());
    let snapshot = b.build();
    b.as_html().hide_notification(true).set_keyboard(inline_keyboard());
    assert_eq!(snapshot.parse_mode, Some(ParseMode::Markdown));
    assert_eq!(snapshot.disable_notification, None);
    assert_eq!(snapshot.reply_markup, Some(custom_keyboard()));
}

#[test]
fn round_trip_of_full_params() {
    let mut b = MessageParams::new("-100123".to_string(), "line \"one\"\nline two".to_string());
    b.as_html().hide_link_preview(false).hide_notification(true).reply_to_message_id(-5);
    b.set_keyboard(custom_keyboard());
    let p = b.build();
    let back = MessageParams::from_json(&p.to_json()).unwrap();
    assert_eq!(back, p);
    b.set_keyboard(inline_keyboard());
    let q = b.build();
    assert_eq!(MessageParams::from_json(&q.to_json()).unwrap(), q);
}

#[test]
fn round_trip_of_fresh_params() {
    let p = MessageParams::new("1".to_string(), "".to_string()).build();
    assert_eq!(MessageParams::from_json(&p.to_json()).unwrap(), p);
}

#[test]
fn from_json_rejects_non_json() {
    assert_eq!(MessageParams::from_json("{\"chat_id\": "), Err(DecodeError::NotJson));
}

#[test]
fn from_json_rejects_missing_text() {
    assert_eq!(
        MessageParams::from_json("{\"chat_id\": \"1\"}"),
        Err(DecodeError::BadShape(Shape::MessageParams))
    );
    assert_eq!(
        MessageParams::from_json("{\"chat_id\": \"1\", \"text\": \"a\", \"parse_mode\": \"Plain\"}"),
        Err(DecodeError::BadShape(Shape::MessageParams))
    );
}
