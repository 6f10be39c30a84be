//! The parameters of an outgoing message, with a builder and their JSON form.

use crate::json::{json_text, member, opt_bool, opt_int, opt_str, parse_json, parsed_json, push_member, field_of, render_json, Json};
use crate::keyboards::{exact_markup, keyboard_of, KeyboardDef, KeyboardView};
use crate::models::{DecodeError, Message, Shape};
use vstd::prelude::*;
use vstd::string::*;

verus! {

/// How the platform renders the text of a message.
#[derive(Debug, Clone, Copy, PartialEq, Eq, Structural)]
pub enum ParseMode {
    Markdown,
    Html,
}

/// All parameters of the send method, configured through a builder.
#[derive(Debug, Clone, PartialEq)]
pub struct MessageParams {
    pub chat_id: String,
    pub text: String,
    pub parse_mode: Option<ParseMode>,
    pub disable_web_page_preview: Option<bool>,
    pub disable_notification: Option<bool>,
    pub reply_to_message_id: Option<i64>,
    pub reply_markup: Option<KeyboardDef>,
}

/// What a `MessageParams` holds, as mathematical values.
pub struct MessageParamsView {
    pub chat_id: Seq<char>,
    pub text: Seq<char>,
    pub parse_mode: Option<ParseMode>,
    pub disable_web_page_preview: Option<bool>,
    pub disable_notification: Option<bool>,
    pub reply_to_message_id: Option<i64>,
    pub reply_markup: Option<KeyboardView>,
}

impl View for MessageParams {
    type V = MessageParamsView;

    open spec fn view(&self) -> MessageParamsView {
        MessageParamsView {
            chat_id: self.chat_id@,
            text: self.text@,
            parse_mode: self.parse_mode,
            disable_web_page_preview: self.disable_web_page_preview,
            disable_notification: self.disable_notification,
            reply_to_message_id: self.reply_to_message_id,
            reply_markup: match self.reply_markup {
                Some(k) => Some(k@),
                None => None,
            },
        }
    }
}

/// Fresh parameters: the given chat and text, rendered as Markdown, nothing else set.
pub open spec fn fresh_params(chat_id: Seq<char>, text: Seq<char>) -> MessageParamsView {
    MessageParamsView {
        chat_id,
        text,
        parse_mode: Some(ParseMode::Markdown),
        disable_web_page_preview: None,
        disable_notification: None,
        reply_to_message_id: None,
        reply_markup: None,
    }
}

/// `v` with its reply markup replaced by `k`.
pub open spec fn with_keyboard(v: MessageParamsView, k: KeyboardView) -> MessageParamsView {
    MessageParamsView { reply_markup: Some(k), ..v }
}

/// The rendering mode a member names: `Some(None)` where it is absent.
pub open spec fn mode_of(m: Option<Json>) -> Option<Option<ParseMode>> {
    match opt_str(m) {
        Some(Some(s)) => if s == "Markdown"@ {
            Some(Some(ParseMode::Markdown))
        } else if s == "HTML"@ {
            Some(Some(ParseMode::Html))
        } else {
            None
        },
        Some(None) => Some(None),
        None => None,
    }
}

/// The reply markup a member holds: `Some(None)` where it is absent.
pub open spec fn markup_of(m: Option<Json>) -> Option<Option<KeyboardView>> {
    match m {
        None => Some(None),
        Some(j) => match keyboard_of(j) {
            Some(k) => Some(Some(k)),
            None => None,
        },
    }
}

/// The parameters that a JSON object stands for: `chat_id` and `text` are
/// strings, every other member is absent or of its type.
pub open spec fn params_of(j: Json) -> Option<MessageParamsView> {
    match (
        opt_str(member(j, "chat_id"@)),
        opt_str(member(j, "text"@)),
        mode_of(member(j, "parse_mode"@)),
        opt_bool(member(j, "disable_web_page_preview"@)),
        opt_bool(member(j, "disable_notification"@)),
        opt_int(member(j, "reply_to_message_id"@)),
        markup_of(member(j, "reply_markup"@)),
    ) {
        (Some(Some(chat_id)), Some(Some(text)), Some(parse_mode), Some(disable_web_page_preview),
        Some(disable_notification), Some(reply_to_message_id), Some(reply_markup)) => Some(
            MessageParamsView {
                chat_id,
                text,
                parse_mode,
                disable_web_page_preview,
                disable_notification,
                reply_to_message_id,
                reply_markup,
            },
        ),
        _ => None,
    }
}

pub open spec fn count_set<T>(o: Option<T>) -> nat {
    if o is Some { 1 } else { 0 }
}

/// How many members the JSON object of `v` has: `chat_id`, `text`, and one
/// for each optional parameter that is set.
pub open spec fn member_count(v: MessageParamsView) -> nat {
    2 + count_set(v.parse_mode) + count_set(v.disable_web_page_preview) + count_set(
        v.disable_notification,
    ) + count_set(v.reply_to_message_id) + count_set(v.reply_markup)
}

/// `j` is the JSON object of `v`: it reads back as `v`, has a member for
/// each parameter that is set and no other, none of them null, and its
/// reply markup holds the members of that markup alone.
pub open spec fn encodes(v: MessageParamsView, j: Json) -> bool {
    &&& params_of(j) == Some(v)
    &&& j is Object
    &&& j->Object_0@.len() == member_count(v)
    &&& forall|i: int| 0 <= i < j->Object_0@.len() ==> !(#[trigger] j->Object_0@[i].1 is Null)
    &&& v.reply_markup matches Some(k) ==> (member(j, "reply_markup"@) matches Some(x) && exact_markup(k, x))
}

/// Fresh parameters are sent with `parse_mode` set to "Markdown".
pub proof fn lemma_fresh_is_markdown(chat_id: Seq<char>, text: Seq<char>, j: Json)
    requires
        encodes(fresh_params(chat_id, text), j),
    ensures
        member(j, "parse_mode"@) matches Some(Json::Str(s)) && s@ == "Markdown"@,
{
    reveal_strlit("Markdown");
    reveal_strlit("HTML");
    assert("Markdown"@.len() != "HTML"@.len());
}

/// A parameter that is not set has no member at all in the JSON object.
pub proof fn lemma_unset_is_omitted(v: MessageParamsView, j: Json)
    requires
        encodes(v, j),
    ensures
        v.parse_mode is None ==> member(j, "parse_mode"@) is None,
        v.disable_web_page_preview is None ==> member(j, "disable_web_page_preview"@) is None,
        v.disable_notification is None ==> member(j, "disable_notification"@) is None,
        v.reply_to_message_id is None ==> member(j, "reply_to_message_id"@) is None,
        v.reply_markup is None ==> member(j, "reply_markup"@) is None,
        forall|i: int| 0 <= i < j->Object_0@.len() ==> !(#[trigger] j->Object_0@[i].1 is Null),
{
}

/// Of two markups set one after the other, only the second is sent.
pub proof fn lemma_keyboard_replaced(v: MessageParamsView, first: KeyboardView, second: KeyboardView, j: Json)
    requires
        encodes(with_keyboard(with_keyboard(v, first), second), j),
    ensures
        with_keyboard(with_keyboard(v, first), second) == with_keyboard(v, second),
        member(j, "reply_markup"@) matches Some(k) && keyboard_of(k) == Some(second) && exact_markup(second, k),
{
}

/// A reply target is sent as `reply_to_message_id`.
pub proof fn lemma_reply_target_sent(v: MessageParamsView, message_id: i64, j: Json)
    requires
        encodes(MessageParamsView { reply_to_message_id: Some(message_id), ..v }, j),
    ensures
        member(j, "reply_to_message_id"@) == Some(Json::Int(message_id)),
{
}

/// Reading back the JSON object of some parameters gives the same parameters.
pub proof fn lemma_round_trip(v: MessageParamsView, j: Json)
    requires
        encodes(v, j),
    ensures
        params_of(j) == Some(v),
{
}

impl MessageParams {
    /// Parameters for sending `text` to `chat_id`, rendered as Markdown.
    pub fn new(chat_id: String, text: String) -> (r: Self)
        ensures
            r@ == fresh_params(chat_id@, text@),
    {
        MessageParams {
            chat_id,
            text,
            parse_mode: Some(ParseMode::Markdown),
            disable_web_page_preview: None,
            disable_notification: None,
            reply_to_message_id: None,
            reply_markup: None,
        }
    }

    /// Renders the text as HTML.
    pub fn as_html(&mut self) -> (r: &mut Self)
        ensures
            r@ == (MessageParamsView { parse_mode: Some(ParseMode::Html), ..old(self)@ }),
            *final(self) == *final(r),
    {
        self.parse_mode = Some(ParseMode::Html);
        self
    }

    /// Renders the text as Markdown.
    pub fn as_markdown(&mut self) -> (r: &mut Self)
        ensures
            r@ == (MessageParamsView { parse_mode: Some(ParseMode::Markdown), ..old(self)@ }),
            *final(self) == *final(r),
    {
        self.parse_mode = Some(ParseMode::Markdown);
        self
    }

    /// Sets whether link previews are disabled.
    pub fn hide_link_preview(&mut self, preview: bool) -> (r: &mut Self)
        ensures
            r@ == (MessageParamsView { disable_web_page_preview: Some(preview), ..old(self)@ }),
            *final(self) == *final(r),
    {
        self.disable_web_page_preview = Some(preview);
        self
    }

    /// Sets whether the message is sent silently.
    pub fn hide_notification(&mut self, notify: bool) -> (r: &mut Self)
        ensures
            r@ == (MessageParamsView { disable_notification: Some(notify), ..old(self)@ }),
            *final(self) == *final(r),
    {
        self.disable_notification = Some(notify);
        self
    }

    /// Sends the message as a reply to the message `message_id`.
    pub fn reply_to_message_id(&mut self, message_id: i64) -> (r: &mut Self)
        ensures
            r@ == (MessageParamsView { reply_to_message_id: Some(message_id), ..old(self)@ }),
            *final(self) == *final(r),
    {
        self.reply_to_message_id = Some(message_id);
        self
    }

    /// Sends the message as a reply to `message`; only its id is kept.
    pub fn reply_to_message(&mut self, message: &Message) -> (r: &mut Self)
        ensures
            r@ == (MessageParamsView { reply_to_message_id: Some(message.message_id), ..old(self)@ }),
            *final(self) == *final(r),
    {
        self.reply_to_message_id = Some(message.message_id);
        self
    }

    /// Attaches `keyboard`, replacing any markup set before.
    pub fn set_keyboard(&mut self, keyboard: KeyboardDef) -> (r: &mut Self)
        ensures
            r@ == with_keyboard(old(self)@, keyboard@),
            *final(self) == *final(r),
    {
        self.reply_markup = Some(keyboard);
        self
    }

    /// A snapshot of the current parameters, which later changes to `self` do not reach.
    pub fn build(&self) -> (r: Self)
        ensures
            r@ == self@,
    {
        MessageParams {
            chat_id: self.chat_id.clone(),
            text: self.text.clone(),
            parse_mode: self.parse_mode,
            disable_web_page_preview: self.disable_web_page_preview,
            disable_notification: self.disable_notification,
            reply_to_message_id: self.reply_to_message_id,
            reply_markup: match &self.reply_markup {
                Some(k) => Some(k.duplicate()),
                None => None,
            },
        }
    }

    /// The JSON object of these parameters: `chat_id` and `text` always, each
    /// optional parameter only where it is set.
    pub fn to_value(&self) -> (r: Json)
        ensures
            encodes(self@, r),
    {
        let mut fields: Vec<(String, Json)> = Vec::new();
        proof {
            reveal_strlit("chat_id");
            reveal_strlit("text");
            reveal_strlit("parse_mode");
            reveal_strlit("disable_web_page_preview");
            reveal_strlit("disable_notification");
            reveal_strlit("reply_to_message_id");
            reveal_strlit("reply_markup");
            reveal_strlit("Markdown");
            reveal_strlit("HTML");
            assert("chat_id"@.len() == 7 && "text"@.len() == 4 && "parse_mode"@.len() == 10);
            assert("disable_web_page_preview"@.len() == 24 && "disable_notification"@.len() == 20);
            assert("reply_to_message_id"@.len() == 19 && "reply_markup"@.len() == 12);
            assert("Markdown"@.len() == 8 && "HTML"@.len() == 4);
            assert(forall|k: Seq<char>| #[trigger] field_of(fields@, k) is None);
        }
        push_member(&mut fields, "chat_id", Json::Str(self.chat_id.clone()));
        push_member(&mut fields, "text", Json::Str(self.text.clone()));
        match self.parse_mode {
            Some(ParseMode::Markdown) => push_member(&mut fields, "parse_mode", Json::Str(String::from_str("Markdown"))),
            Some(ParseMode::Html) => push_member(&mut fields, "parse_mode", Json::Str(String::from_str("HTML"))),
            None => {},
        }
        if let Some(b) = self.disable_web_page_preview {
            push_member(&mut fields, "disable_web_page_preview", Json::Bool(b));
        }
        if let Some(b) = self.disable_notification {
            push_member(&mut fields, "disable_notification", Json::Bool(b));
        }
        if let Some(id) = self.reply_to_message_id {
            push_member(&mut fields, "reply_to_message_id", Json::Int(id));
        }
        if let Some(k) = &self.reply_markup {
            push_member(&mut fields, "reply_markup", k.to_value());
        }
        Json::Object(fields)
    }

    /// Reads parameters back from their JSON object, as `params_of` tells.
    pub fn from_value(j: &Json) -> (r: Option<MessageParams>)
        ensures
            match r {
                Some(p) => params_of(*j) == Some(p@),
                None => params_of(*j) is None,
            },
    {
        let chat_id = match j.opt_str_member("chat_id") {
            Some(Some(s)) => s,
            _ => return None,
        };
        let text = match j.opt_str_member("text") {
            Some(Some(s)) => s,
            _ => return None,
        };
        let parse_mode = match j.opt_str_member("parse_mode") {
            Some(None) => None,
            Some(Some(s)) => {
                if s == String::from_str("Markdown") {
                    Some(ParseMode::Markdown)
                } else if s == String::from_str("HTML") {
                    Some(ParseMode::Html)
                } else {
                    return None;
                }
            },
            None => return None,
        };
        let disable_web_page_preview = match j.opt_bool_member("disable_web_page_preview") {
            Some(b) => b,
            None => return None,
        };
        let disable_notification = match j.opt_bool_member("disable_notification") {
            Some(b) => b,
            None => return None,
        };
        let reply_to_message_id = match j.opt_int_member("reply_to_message_id") {
            Some(id) => id,
            None => return None,
        };
        let reply_markup = match j.get("reply_markup") {
            None => None,
            Some(k) => match KeyboardDef::from_value(k) {
                Some(k) => Some(k),
                None => return None,
            },
        };
        Some(MessageParams {
            chat_id,
            text,
            parse_mode,
            disable_web_page_preview,
            disable_notification,
            reply_to_message_id,
            reply_markup,
        })
    }

    /// The JSON text of these parameters, as serde_json prints their object.
    pub fn to_json(&self) -> (r: String)
        ensures
            exists|j: Json| encodes(self@, j) && r@ == json_text(j),
    {
        let j = self.to_value();
        render_json(&j)
    }

    /// Reads parameters from JSON text.
    pub fn from_json(text: &str) -> (r: Result<MessageParams, DecodeError>)
        ensures
            match parsed_json(text.spec_bytes()) {
                None => r == Err::<MessageParams, DecodeError>(DecodeError::NotJson),
                Some(j) => match params_of(j) {
                    None => r == Err::<MessageParams, DecodeError>(DecodeError::BadShape(Shape::MessageParams)),
                    Some(v) => r matches Ok(p) && p@ == v,
                },
            },
    {
        match parse_json(text.as_bytes()) {
            None => Err(DecodeError::NotJson),
            Some(j) => match MessageParams::from_value(&j) {
                Some(p) => Ok(p),
                None => Err(DecodeError::BadShape(Shape::MessageParams)),
            },
        }
    }
}

} // verus!
