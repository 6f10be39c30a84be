//! The entities that the platform sends back, read from its JSON answers.

use crate::json::{member, opt_bool, opt_int, opt_str, Json};
use vstd::prelude::*;

verus! {

/// The kinds of JSON object that the library reads.
#[derive(Debug, Clone, Copy, PartialEq, Eq, Structural)]
pub enum Shape {
    Response,
    Update,
    User,
    Message,
    ApiError,
    MessageParams,
}

/// Why an answer could not be read.
#[derive(Debug, Clone, Copy, PartialEq, Eq, Structural)]
pub enum DecodeError {
    /// The bytes are not a JSON document.
    NotJson,
    /// The document lacks a member, or holds one of the wrong type, for this shape.
    BadShape(Shape),
}

/// A user or bot account.
#[derive(Debug, Clone, PartialEq)]
pub struct User {
    pub id: i64,
    pub is_bot: bool,
    pub first_name: String,
    pub username: Option<String>,
}

/// A message in a chat.
#[derive(Debug, Clone, PartialEq)]
pub struct Message {
    pub message_id: i64,
    pub date: i64,
    pub chat_id: i64,
    pub from: Option<User>,
    pub text: Option<String>,
}

/// One inbound event.
#[derive(Debug, Clone, PartialEq)]
pub struct Update {
    pub update_id: i64,
    pub message: Option<Message>,
}

/// A call that the platform rejected, with its code and description.
#[derive(Debug, Clone, PartialEq)]
pub struct Error {
    pub error_code: i64,
    pub description: String,
}

pub struct UserView {
    pub id: i64,
    pub is_bot: bool,
    pub first_name: Seq<char>,
    pub username: Option<Seq<char>>,
}

pub struct MessageView {
    pub message_id: i64,
    pub date: i64,
    pub chat_id: i64,
    pub from: Option<UserView>,
    pub text: Option<Seq<char>>,
}

pub struct UpdateView {
    pub update_id: i64,
    pub message: Option<MessageView>,
}

pub struct ErrorView {
    pub error_code: i64,
    pub description: Seq<char>,
}

impl View for User {
    type V = UserView;

    open spec fn view(&self) -> UserView {
        UserView {
            id: self.id,
            is_bot: self.is_bot,
            first_name: self.first_name@,
            username: match self.username {
                Some(s) => Some(s@),
                None => None,
            },
        }
    }
}

impl View for Message {
    type V = MessageView;

    open spec fn view(&self) -> MessageView {
        MessageView {
            message_id: self.message_id,
            date: self.date,
            chat_id: self.chat_id,
            from: match self.from {
                Some(u) => Some(u@),
                None => None,
            },
            text: match self.text {
                Some(s) => Some(s@),
                None => None,
            },
        }
    }
}

impl View for Update {
    type V = UpdateView;

    open spec fn view(&self) -> UpdateView {
        UpdateView {
            update_id: self.update_id,
            message: match self.message {
                Some(m) => Some(m@),
                None => None,
            },
        }
    }
}

impl View for Error {
    type V = ErrorView;

    open spec fn view(&self) -> ErrorView {
        ErrorView { error_code: self.error_code, description: self.description@ }
    }
}

/// A user object: integer `id`, boolean `is_bot`, string `first_name`, and
/// `username` absent or a string.
pub open spec fn user_of(j: Json) -> Option<UserView> {
    match (
        opt_int(member(j, "id"@)),
        opt_bool(member(j, "is_bot"@)),
        opt_str(member(j, "first_name"@)),
        opt_str(member(j, "username"@)),
    ) {
        (Some(Some(id)), Some(Some(is_bot)), Some(Some(first_name)), Some(username)) => Some(
            UserView { id, is_bot, first_name, username },
        ),
        _ => None,
    }
}

/// An optional user member: `Some(None)` where it is absent.
pub open spec fn opt_user(m: Option<Json>) -> Option<Option<UserView>> {
    match m {
        None => Some(None),
        Some(j) => match user_of(j) {
            Some(u) => Some(Some(u)),
            None => None,
        },
    }
}

/// The id of the `chat` object of a message.
pub open spec fn chat_id_of(m: Option<Json>) -> Option<i64> {
    match m {
        Some(c) => match opt_int(member(c, "id"@)) {
            Some(Some(id)) => Some(id),
            _ => None,
        },
        None => None,
    }
}

/// A message object: integers `message_id` and `date`, a `chat` object with
/// an integer `id`, `from` absent or a user, `text` absent or a string.
pub open spec fn message_of(j: Json) -> Option<MessageView> {
    match (
        opt_int(member(j, "message_id"@)),
        opt_int(member(j, "date"@)),
        chat_id_of(member(j, "chat"@)),
        opt_user(member(j, "from"@)),
        opt_str(member(j, "text"@)),
    ) {
        (Some(Some(message_id)), Some(Some(date)), Some(chat_id), Some(from), Some(text)) => Some(
            MessageView { message_id, date, chat_id, from, text },
        ),
        _ => None,
    }
}

/// An update object: integer `update_id`, `message` absent or a message.
pub open spec fn update_of(j: Json) -> Option<UpdateView> {
    match opt_int(member(j, "update_id"@)) {
        Some(Some(update_id)) => match member(j, "message"@) {
            None => Some(UpdateView { update_id, message: None }),
            Some(m) => match message_of(m) {
                Some(message) => Some(UpdateView { update_id, message: Some(message) }),
                None => None,
            },
        },
        _ => None,
    }
}

/// A failure object: integer `error_code` and string `description`.
pub open spec fn error_of(j: Json) -> Option<ErrorView> {
    match (opt_int(member(j, "error_code"@)), opt_str(member(j, "description"@))) {
        (Some(Some(error_code)), Some(Some(description))) => Some(ErrorView { error_code, description }),
        _ => None,
    }
}

impl User {
    /// Reads a user from its JSON object, as `user_of` tells.
    pub fn from_value(j: &Json) -> (r: Option<User>)
        ensures
            match r {
                Some(u) => user_of(*j) == Some(u@),
                None => user_of(*j) is None,
            },
    {
        match (
            j.opt_int_member("id"),
            j.opt_bool_member("is_bot"),
            j.opt_str_member("first_name"),
            j.opt_str_member("username"),
        ) {
            (Some(Some(id)), Some(Some(is_bot)), Some(Some(first_name)), Some(username)) => Some(
                User { id, is_bot, first_name, username },
            ),
            _ => None,
        }
    }
}

impl Message {
    /// Reads a message from its JSON object, as `message_of` tells.
    pub fn from_value(j: &Json) -> (r: Option<Message>)
        ensures
            match r {
                Some(m) => message_of(*j) == Some(m@),
                None => message_of(*j) is None,
            },
    {
        let chat_id = match j.get("chat") {
            Some(c) => match c.opt_int_member("id") {
                Some(Some(id)) => id,
                _ => return None,
            },
            None => return None,
        };
        let from = match j.get("from") {
            None => None,
            Some(u) => match User::from_value(u) {
                Some(u) => Some(u),
                None => return None,
            },
        };
        match (j.opt_int_member("message_id"), j.opt_int_member("date"), j.opt_str_member("text")) {
            (Some(Some(message_id)), Some(Some(date)), Some(text)) => Some(
                Message { message_id, date, chat_id, from, text },
            ),
            _ => None,
        }
    }
}

impl Update {
    /// Reads an update from its JSON object, as `update_of` tells.
    pub fn from_value(j: &Json) -> (r: Option<Update>)
        ensures
            match r {
                Some(u) => update_of(*j) == Some(u@),
                None => update_of(*j) is None,
            },
    {
        let update_id = match j.opt_int_member("update_id") {
            Some(Some(id)) => id,
            _ => return None,
        };
        match j.get("message") {
            None => Some(Update { update_id, message: None }),
            Some(m) => match Message::from_value(m) {
                Some(message) => Some(Update { update_id, message: Some(message) }),
                None => None,
            },
        }
    }
}

impl Error {
    /// Reads a failure from the platform's answer object, as `error_of` tells.
    pub fn from_value(j: &Json) -> (r: Option<Error>)
        ensures
            match r {
                Some(e) => error_of(*j) == Some(e@),
                None => error_of(*j) is None,
            },
    {
        match (j.opt_int_member("error_code"), j.opt_str_member("description")) {
            (Some(Some(error_code)), Some(Some(description))) => Some(Error { error_code, description }),
            _ => None,
        }
    }
}

} // verus!
