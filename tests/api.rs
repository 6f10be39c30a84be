use tg_bot::api::{Bot, BotError};
use tg_bot::models::{DecodeError, Error, Shape};

fn answer(text: &str) -> Result<Vec<u8>, String> {
    Ok(text.as_bytes().to_vec())
}

const TWO_UPDATES: &str = r#"{"ok": true, "result": [
    {"update_id": 10, "message": {"message_id": 1, "date": 1500000000,
        "chat": {"id": 77, "type": "private"},
        "from": {"id": 5, "is_bot": false, "first_name": "Ann", "username": "ann"},
        "text": "first"}},
    {"update_id": 11, "message": {"message_id": 2, "date": 1500000001,
        "chat": {"id": 77, "type": "private"}, "text": "second"}}
]}"#;

#[test]
fn updates_come_in_order() {
    let us = Bot::read_updates(answer(TWO_UPDATES)).unwrap();
    assert_eq!(us.len(), 2);
    assert_eq!(us[0].update_id, 10);
    assert_eq!(us[1].update_id, 11);
    let m0 = us[0].message.as_ref().unwrap();
    assert_eq!(m0.text.as_deref(), Some("first"));
    assert_eq!(m0.chat_id, 77);
    assert_eq!(m0.from.as_ref().unwrap().username.as_deref(), Some("ann"));
    let m1 = us[1].message.as_ref().unwrap();
    assert_eq!(m1.text.as_deref(), Some("second"));
    assert!(m1.from.is_none());
}

#[test]
fn no_pending_updates_is_empty() {
    let us = Bot::read_updates(answer(r#"{"ok": true, "result": []}"#)).unwrap();
    assert!(us.is_empty());
}

#[test]
fn api_error_keeps_code_and_description() {
    let r = Bot::read_me(answer(r#"{"ok": false, "error_code": 401, "description": "Unauthorized"}"#));
    assert_eq!(
        r,
        Err(BotError::Api(Error { error_code: 401, description: "Unauthorized".to_string() }))
    );
}

#[test]
fn malformed_json_is_decode_error() {
    assert_eq!(Bot::read_updates(answer("{\"ok\": tru")), Err(BotError::Decode(DecodeError::NotJson)));
    assert_eq!(Bot::read_me(answer("<html>")), Err(BotError::Decode(DecodeError::NotJson)));
}

#[test]
fn transport_failure_is_kept() {
    let r = Bot::read_updates(Err("connection refused".to_string()));
    assert_eq!(r, Err(BotError::Transport("connection refused".to_string())));
}

#[test]
fn result_that_is_not_a_list_is_decode_error() {
    let r = Bot::read_updates(answer(r#"{"ok": true, "result": {"update_id": 1}}"#));
    assert_eq!(r, Err(BotError::Decode(DecodeError::BadShape(Shape::Update))));
    let r = Bot::read_updates(answer(r#"{"ok": true, "result": [{"update_id": "x"}]}"#));
    assert_eq!(r, Err(BotError::Decode(DecodeError::BadShape(Shape::Update))));
}

#[test]
fn answer_without_ok_is_decode_error() {
    assert_eq!(Bot::read_updates(answer("null")), Err(BotError::Decode(DecodeError::BadShape(Shape::Response))));
    assert_eq!(Bot::read_me(answer(r#"{"ok": true}"#)), Err(BotError::Decode(DecodeError::BadShape(Shape::Response))));
    assert_eq!(
        Bot::read_me(answer(r#"{"ok": false}"#)),
        Err(BotError::Decode(DecodeError::BadShape(Shape::ApiError)))
    );
}

#[test]
fn get_me_reads_the_user() {
    let u = Bot::read_me(answer(r#"{"ok": true, "result": {"id": 9, "is_bot": true, "first_name": "Bot"}}"#)).unwrap();
    assert_eq!(u.id, 9);
    assert!(u.is_bot);
    assert_eq!(u.first_name, "Bot");
    assert_eq!(u.username, None);
    let r = Bot::read_me(answer(r#"{"ok": true, "result": {"id": 9, "first_name": "Bot"}}"#));
    assert_eq!(r, Err(BotError::Decode(DecodeError::BadShape(Shape::User))));
}

#[test]
fn send_message_reads_the_message() {
    let m = Bot::read_sent(answer(
        r#"{"ok": true, "result": {"message_id": 12, "date": 3, "chat": {"id": -4}, "text": "done"}}"#,
    ))
    .unwrap();
    assert_eq!(m.message_id, 12);
    assert_eq!(m.chat_id, -4);
    let r = Bot::read_sent(answer(r#"{"ok": true, "result": {"message_id": 12, "date": 3}}"#));
    assert_eq!(r, Err(BotError::Decode(DecodeError::BadShape(Shape::Message))));
}

#[test]
fn requests_go_to_the_method_urls() {
    let bot = Bot::new("123:abc".to_string());
    let r = bot.get_updates_request();
    assert_eq!(r.url, "https://api.telegram.org/bot123:abc/getUpdates");
    assert_eq!(r.body, "{}");
    assert_eq!(bot.get_me_request().url, "https://api.telegram.org/bot123:abc/getMe");
    assert_eq!(bot.method_url("getChat"), "https://api.telegram.org/bot123:abc/getChat");
}

#[test]
fn send_message_request_carries_the_params() {
    let bot = Bot::new("T".to_string());
    let p = tg_bot::sendables::MessageParams::new("5".to_string(), "hi".to_string()).build();
    let r = bot.send_message_request(&p);
    assert_eq!(r.url, "https://api.telegram.org/botT/sendMessage");
    let v: serde_json::Value = serde_json::from_str(&r.body).unwrap();
    assert_eq!(v["text"], serde_json::Value::String("hi".to_string()));
}
