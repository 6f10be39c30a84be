//! The bot endpoint: the requests it sends and how the platform's answers map
//! to typed results. Sending a request and receiving the answer's bytes is the
//! caller's part; each operation here is a request builder and an answer reader.

use crate::json::{member, parse_json, parsed_json, json_text, Json};
use crate::models::{error_of, update_of, message_of, user_of, DecodeError, Error, ErrorView, Message, MessageView, Shape, Update, UpdateView, User, UserView};
use crate::sendables::{encodes, MessageParams};
use vstd::prelude::*;
use vstd::string::*;

verus! {

/// Why an operation failed.
#[derive(Debug, Clone, PartialEq)]
pub enum BotError {
    /// The request could not be sent or its answer not received.
    Transport(String),
    /// The answer could not be read.
    Decode(DecodeError),
    /// The platform rejected the call.
    Api(Error),
}

pub enum BotErrorView {
    Transport(Seq<char>),
    Decode(DecodeError),
    Api(ErrorView),
}

impl View for BotError {
    type V = BotErrorView;

    open spec fn view(&self) -> BotErrorView {
        match self {
            BotError::Transport(s) => BotErrorView::Transport(s@),
            BotError::Decode(d) => BotErrorView::Decode(*d),
            BotError::Api(e) => BotErrorView::Api(e@),
        }
    }
}

/// A POST of a JSON body to a URL.
#[derive(Debug, Clone, PartialEq)]
pub struct HttpPost {
    pub url: String,
    pub body: String,
}

/// The platform's root for bot methods.
pub open spec fn api_root() -> Seq<char> {
    "https://api.telegram.org/bot"@
}

/// The payload of an answer object: its `result` where `ok` is true, the
/// failure it describes where `ok` is false.
pub open spec fn payload_of(j: Json) -> Result<Json, BotErrorView> {
    match member(j, "ok"@) {
        Some(Json::Bool(true)) => match member(j, "result"@) {
            Some(x) => Ok(x),
            None => Err(BotErrorView::Decode(DecodeError::BadShape(Shape::Response))),
        },
        Some(Json::Bool(false)) => match error_of(j) {
            Some(e) => Err(BotErrorView::Api(e)),
            None => Err(BotErrorView::Decode(DecodeError::BadShape(Shape::ApiError))),
        },
        _ => Err(BotErrorView::Decode(DecodeError::BadShape(Shape::Response))),
    }
}

/// The document the answer's bytes hold, or the failure that kept them.
pub open spec fn document_of(answer: Result<Seq<u8>, Seq<char>>) -> Result<Json, BotErrorView> {
    match answer {
        Err(e) => Err(BotErrorView::Transport(e)),
        Ok(bytes) => match parsed_json(bytes) {
            Some(j) => Ok(j),
            None => Err(BotErrorView::Decode(DecodeError::NotJson)),
        },
    }
}

/// An array of update objects, in order.
pub open spec fn updates_of(x: Json) -> Option<Seq<UpdateView>> {
    match x {
        Json::Array(a) => if forall|k: int| 0 <= k < a@.len() ==> (#[trigger] update_of(a@[k])) is Some {
            Some(a@.map_values(|u: Json| update_of(u)->Some_0))
        } else {
            None
        },
        _ => None,
    }
}

/// What `getUpdates` answered with the document `j`.
pub open spec fn updates_answer(j: Json) -> Result<Seq<UpdateView>, BotErrorView> {
    match payload_of(j) {
        Ok(x) => match updates_of(x) {
            Some(us) => Ok(us),
            None => Err(BotErrorView::Decode(DecodeError::BadShape(Shape::Update))),
        },
        Err(e) => Err(e),
    }
}

/// What `getMe` answered with the document `j`.
pub open spec fn me_answer(j: Json) -> Result<UserView, BotErrorView> {
    match payload_of(j) {
        Ok(x) => match user_of(x) {
            Some(u) => Ok(u),
            None => Err(BotErrorView::Decode(DecodeError::BadShape(Shape::User))),
        },
        Err(e) => Err(e),
    }
}

/// What `sendMessage` answered with the document `j`.
pub open spec fn sent_answer(j: Json) -> Result<MessageView, BotErrorView> {
    match payload_of(j) {
        Ok(x) => match message_of(x) {
            Some(m) => Ok(m),
            None => Err(BotErrorView::Decode(DecodeError::BadShape(Shape::Message))),
        },
        Err(e) => Err(e),
    }
}

pub open spec fn updates_view(us: Vec<Update>) -> Seq<UpdateView> {
    us@.map_values(|u: Update| u@)
}

/// Reads the `ok`/`result` envelope of an answer.
fn payload(j: &Json) -> (r: Result<&Json, BotError>)
    ensures
        match r {
            Ok(x) => payload_of(*j) == Ok::<Json, BotErrorView>(*x),
            Err(e) => payload_of(*j) == Err::<Json, BotErrorView>(e@),
        },
{
    match j.get("ok") {
        Some(Json::Bool(true)) => match j.get("result") {
            Some(x) => Ok(x),
            None => Err(BotError::Decode(DecodeError::BadShape(Shape::Response))),
        },
        Some(Json::Bool(false)) => match Error::from_value(j) {
            Some(e) => Err(BotError::Api(e)),
            None => Err(BotError::Decode(DecodeError::BadShape(Shape::ApiError))),
        },
        _ => Err(BotError::Decode(DecodeError::BadShape(Shape::Response))),
    }
}

/// Reads the answer's bytes as a JSON document.
fn document(answer: Result<Vec<u8>, String>) -> (r: Result<Json, BotError>)
    ensures
        match r {
            Ok(j) => document_of(answer_view(answer)) == Ok::<Json, BotErrorView>(j),
            Err(e) => document_of(answer_view(answer)) == Err::<Json, BotErrorView>(e@),
        },
{
    match answer {
        Err(e) => Err(BotError::Transport(e)),
        Ok(bytes) => match parse_json(bytes.as_slice()) {
            Some(j) => Ok(j),
            None => Err(BotError::Decode(DecodeError::NotJson)),
        },
    }
}

pub open spec fn answer_view(answer: Result<Vec<u8>, String>) -> Result<Seq<u8>, Seq<char>> {
    match answer {
        Ok(b) => Ok(b@),
        Err(e) => Err(e@),
    }
}

/// A bot's endpoint: the platform's root, the bot's token and a separator.
/// It does not change once made; each call appends a method name to it.
pub struct Bot {
    base_url: String,
}

impl Bot {
    pub closed spec fn base_url(&self) -> Seq<char> {
        self.base_url@
    }

    /// The endpoint of the bot with `token`.
    pub fn new(token: String) -> (r: Bot)
        ensures
            r.base_url() == api_root() + token@ + "/"@,
    {
        let base_url = String::from_str("https://api.telegram.org/bot").concat(token.as_str()).concat("/");
        Bot { base_url }
    }

    /// The URL of the method `method`.
    pub fn method_url(&self, method: &str) -> (r: String)
        ensures
            r@ == self.base_url() + method@,
    {
        self.base_url.clone().concat(method)
    }

    /// The request for pending updates: `getUpdates` with an empty object.
    pub fn get_updates_request(&self) -> (r: HttpPost)
        ensures
            r.url@ == self.base_url() + "getUpdates"@,
            r.body@ == "{}"@,
    {
        HttpPost { url: self.method_url("getUpdates"), body: String::from_str("{}") }
    }

    /// The request for the bot's own account: `getMe` with an empty object.
    pub fn get_me_request(&self) -> (r: HttpPost)
        ensures
            r.url@ == self.base_url() + "getMe"@,
            r.body@ == "{}"@,
    {
        HttpPost { url: self.method_url("getMe"), body: String::from_str("{}") }
    }

    /// The request that sends a message: `sendMessage` with the JSON text of `params`.
    pub fn send_message_request(&self, params: &MessageParams) -> (r: HttpPost)
        ensures
            r.url@ == self.base_url() + "sendMessage"@,
            exists|j: Json| encodes(params@, j) && r.body@ == json_text(j),
    {
        HttpPost { url: self.method_url("sendMessage"), body: params.to_json() }
    }

    /// The updates that a `getUpdates` answer document carries, in order.
    pub fn updates_from_json(j: &Json) -> (r: Result<Vec<Update>, BotError>)
        ensures
            match r {
                Ok(us) => updates_answer(*j) == Ok::<Seq<UpdateView>, BotErrorView>(updates_view(us)),
                Err(e) => updates_answer(*j) == Err::<Seq<UpdateView>, BotErrorView>(e@),
            },
    {
        let x = match payload(j) {
            Ok(x) => x,
            Err(e) => return Err(e),
        };
        match x {
            Json::Array(a) => {
                let mut out: Vec<Update> = Vec::new();
                let n = a.len();
                let mut i: usize = 0;
                while i < n
                    invariant
                        n == a@.len(),
                        *x == Json::Array(*a),
                        payload_of(*j) == Ok::<Json, BotErrorView>(*x),
                        0 <= i <= n,
                        out@.len() == i,
                        forall|k: int| 0 <= k < i ==> #[trigger] update_of(a@[k]) == Some(out@[k]@),
                    decreases n - i,
                {
                    match Update::from_value(&a[i]) {
                        Some(u) => out.push(u),
                        None => {
                            assert(update_of(a@[i as int]) is None);
                            return Err(BotError::Decode(DecodeError::BadShape(Shape::Update)));
                        },
                    }
                    i = i + 1;
                }
                assert(a@.map_values(|u: Json| update_of(u)->Some_0) =~= updates_view(out));
                Ok(out)
            },
            _ => Err(BotError::Decode(DecodeError::BadShape(Shape::Update))),
        }
    }

    /// The account that a `getMe` answer document carries.
    pub fn me_from_json(j: &Json) -> (r: Result<User, BotError>)
        ensures
            match r {
                Ok(u) => me_answer(*j) == Ok::<UserView, BotErrorView>(u@),
                Err(e) => me_answer(*j) == Err::<UserView, BotErrorView>(e@),
            },
    {
        match payload(j) {
            Ok(x) => match User::from_value(x) {
                Some(u) => Ok(u),
                None => Err(BotError::Decode(DecodeError::BadShape(Shape::User))),
            },
            Err(e) => Err(e),
        }
    }

    /// The message that a `sendMessage` answer document carries.
    pub fn sent_from_json(j: &Json) -> (r: Result<Message, BotError>)
        ensures
            match r {
                Ok(m) => sent_answer(*j) == Ok::<MessageView, BotErrorView>(m@),
                Err(e) => sent_answer(*j) == Err::<MessageView, BotErrorView>(e@),
            },
    {
        match payload(j) {
            Ok(x) => match Message::from_value(x) {
                Some(m) => Ok(m),
                None => Err(BotError::Decode(DecodeError::BadShape(Shape::Message))),
            },
            Err(e) => Err(e),
        }
    }

    /// Reads the answer to `getUpdates`: the transport's failure, a document
    /// that is not JSON, the platform's rejection, or the updates in order.
    /// An answer that cannot be read is an error, never an empty list.
    pub fn read_updates(answer: Result<Vec<u8>, String>) -> (r: Result<Vec<Update>, BotError>)
        ensures
            match document_of(answer_view(answer)) {
                Err(e) => r matches Err(f) && f@ == e,
                Ok(j) => match r {
                    Ok(us) => updates_answer(j) == Ok::<Seq<UpdateView>, BotErrorView>(updates_view(us)),
                    Err(e) => updates_answer(j) == Err::<Seq<UpdateView>, BotErrorView>(e@),
                },
            },
    {
        match document(answer) {
            Ok(j) => Bot::updates_from_json(&j),
            Err(e) => Err(e),
        }
    }

    /// Reads the answer to `getMe`, as `read_updates` does.
    pub fn read_me(answer: Result<Vec<u8>, String>) -> (r: Result<User, BotError>)
        ensures
            match document_of(answer_view(answer)) {
                Err(e) => r matches Err(f) && f@ == e,
                Ok(j) => match r {
                    Ok(u) => me_answer(j) == Ok::<UserView, BotErrorView>(u@),
                    Err(e) => me_answer(j) == Err::<UserView, BotErrorView>(e@),
                },
            },
    {
        match document(answer) {
            Ok(j) => Bot::me_from_json(&j),
            Err(e) => Err(e),
        }
    }

    /// Reads the answer to `sendMessage`, as `read_updates` does: the sent
    /// message is typed like the results of the other two operations.
    pub fn read_sent(answer: Result<Vec<u8>, String>) -> (r: Result<Message, BotError>)
        ensures
            match document_of(answer_view(answer)) {
                Err(e) => r matches Err(f) && f@ == e,
                Ok(j) => match r {
                    Ok(m) => sent_answer(j) == Ok::<MessageView, BotErrorView>(m@),
                    Err(e) => sent_answer(j) == Err::<MessageView, BotErrorView>(e@),
                },
            },
    {
        match document(answer) {
            Ok(j) => Bot::sent_from_json(&j),
            Err(e) => Err(e),
        }
    }
}

} // verus!
