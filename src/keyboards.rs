//! The reply markups that can go with an outgoing message, and their JSON form.

use crate::json::{field_of, member, opt_bool, opt_str, push_member, str_of, Json};
use vstd::prelude::*;

verus! {

/// Asks the client to remove the custom keyboard.
#[derive(Debug, Clone, PartialEq)]
pub struct ReplyKeyboardRemove {
    pub selective: Option<bool>,
}

/// A custom keyboard: rows of button labels.
#[derive(Debug, Clone, PartialEq)]
pub struct ReplyKeyboardMarkup {
    pub keyboard: Vec<Vec<String>>,
    pub one_time_keyboard: Option<bool>,
}

/// A button shown under a message, which sends `callback_data` back when pressed.
#[derive(Debug, Clone, PartialEq)]
pub struct InlineKeyboardButton {
    pub text: String,
    pub callback_data: String,
}

/// Rows of buttons shown under a message.
#[derive(Debug, Clone, PartialEq)]
pub struct InlineKeyboardMarkup {
    pub inline_keyboard: Vec<Vec<InlineKeyboardButton>>,
}

/// Asks the client to show a reply interface to the user.
#[derive(Debug, Clone, PartialEq)]
pub struct ForceReply {
    pub selective: Option<bool>,
}

/// The four mutually exclusive reply markups.
#[derive(Debug, Clone, PartialEq)]
pub enum KeyboardDef {
    Writing(ReplyKeyboardRemove),
    Custom(ReplyKeyboardMarkup),
    MessageButtons(InlineKeyboardMarkup),
    Reply(ForceReply),
}

/// What a reply markup holds, as mathematical values.
pub enum KeyboardView {
    Writing { selective: Option<bool> },
    Custom { keyboard: Seq<Seq<Seq<char>>>, one_time_keyboard: Option<bool> },
    MessageButtons { inline_keyboard: Seq<Seq<(Seq<char>, Seq<char>)>> },
    Reply { selective: Option<bool> },
}

pub open spec fn labels_view(row: Vec<String>) -> Seq<Seq<char>> {
    row@.map_values(|s: String| s@)
}

pub open spec fn buttons_view(row: Vec<InlineKeyboardButton>) -> Seq<(Seq<char>, Seq<char>)> {
    row@.map_values(|b: InlineKeyboardButton| (b.text@, b.callback_data@))
}

impl View for KeyboardDef {
    type V = KeyboardView;

    open spec fn view(&self) -> KeyboardView {
        match self {
            KeyboardDef::Writing(k) => KeyboardView::Writing { selective: k.selective },
            KeyboardDef::Custom(k) => KeyboardView::Custom {
                keyboard: k.keyboard@.map_values(|r: Vec<String>| labels_view(r)),
                one_time_keyboard: k.one_time_keyboard,
            },
            KeyboardDef::MessageButtons(k) => KeyboardView::MessageButtons {
                inline_keyboard: k.inline_keyboard@.map_values(
                    |r: Vec<InlineKeyboardButton>| buttons_view(r),
                ),
            },
            KeyboardDef::Reply(k) => KeyboardView::Reply { selective: k.selective },
        }
    }
}

/// How many members the JSON object of `k` has: its kind's member, and
/// `selective` or `one_time_keyboard` where set.
pub open spec fn keyboard_member_count(k: KeyboardView) -> nat {
    match k {
        KeyboardView::Writing { selective } => if selective is Some { 2 } else { 1 },
        KeyboardView::Reply { selective } => if selective is Some { 2 } else { 1 },
        KeyboardView::Custom { one_time_keyboard, .. } => if one_time_keyboard is Some { 2 } else { 1 },
        KeyboardView::MessageButtons { .. } => 1,
    }
}

/// A button object with its two members and no other.
pub open spec fn exact_button(j: Json) -> bool {
    j matches Json::Object(f) && f@.len() == 2
}

/// Rows of button objects, each with its two members and no other.
pub open spec fn exact_button_rows(m: Option<Json>) -> bool {
    m matches Some(Json::Array(rows)) && forall|i: int|
        0 <= i < rows@.len() ==> (#[trigger] rows@[i] matches Json::Array(r) && forall|k: int|
            0 <= k < r@.len() ==> exact_button(#[trigger] r@[k]))
}

/// `j` holds the members of the markup `k` and no other: the count of its
/// members, and of those of each inline button.
pub open spec fn exact_markup(k: KeyboardView, j: Json) -> bool {
    &&& j matches Json::Object(f) && f@.len() == keyboard_member_count(k)
    &&& k is MessageButtons ==> exact_button_rows(member(j, "inline_keyboard"@))
}

/// A row of labels: an array of strings.
pub open spec fn label_row_of(j: Json) -> Option<Seq<Seq<char>>> {
    match j {
        Json::Array(a) => if forall|k: int| 0 <= k < a@.len() ==> (#[trigger] str_of(a@[k])) is Some {
            Some(a@.map_values(|x: Json| str_of(x)->Some_0))
        } else {
            None
        },
        _ => None,
    }
}

/// A button: an object with the string members `text` and `callback_data`.
pub open spec fn button_of(j: Json) -> Option<(Seq<char>, Seq<char>)> {
    match (opt_str(member(j, "text"@)), opt_str(member(j, "callback_data"@))) {
        (Some(Some(t)), Some(Some(d))) => Some((t, d)),
        _ => None,
    }
}

/// A row of buttons: an array of button objects.
pub open spec fn button_row_of(j: Json) -> Option<Seq<(Seq<char>, Seq<char>)>> {
    match j {
        Json::Array(a) => if forall|k: int| 0 <= k < a@.len() ==> (#[trigger] button_of(a@[k])) is Some {
            Some(a@.map_values(|x: Json| button_of(x)->Some_0))
        } else {
            None
        },
        _ => None,
    }
}

/// An array of rows of labels.
pub open spec fn label_rows_of(m: Option<Json>) -> Option<Seq<Seq<Seq<char>>>> {
    match m {
        Some(Json::Array(a)) => if forall|k: int| 0 <= k < a@.len() ==> (#[trigger] label_row_of(a@[k])) is Some {
            Some(a@.map_values(|x: Json| label_row_of(x)->Some_0))
        } else {
            None
        },
        _ => None,
    }
}

/// An array of rows of buttons.
pub open spec fn button_rows_of(m: Option<Json>) -> Option<Seq<Seq<(Seq<char>, Seq<char>)>>> {
    match m {
        Some(Json::Array(a)) => if forall|k: int| 0 <= k < a@.len() ==> (#[trigger] button_row_of(a@[k])) is Some {
            Some(a@.map_values(|x: Json| button_row_of(x)->Some_0))
        } else {
            None
        },
        _ => None,
    }
}

/// The reply markup that a JSON object stands for. The markup is told by its
/// first member among `remove_keyboard`, `force_reply`, `keyboard` and
/// `inline_keyboard`; the first two must be `true`.
pub open spec fn keyboard_of(j: Json) -> Option<KeyboardView> {
    if !(j is Object) {
        None
    } else if member(j, "remove_keyboard"@) is Some {
        match (member(j, "remove_keyboard"@), opt_bool(member(j, "selective"@))) {
            (Some(Json::Bool(true)), Some(sel)) => Some(KeyboardView::Writing { selective: sel }),
            _ => None,
        }
    } else if member(j, "force_reply"@) is Some {
        match (member(j, "force_reply"@), opt_bool(member(j, "selective"@))) {
            (Some(Json::Bool(true)), Some(sel)) => Some(KeyboardView::Reply { selective: sel }),
            _ => None,
        }
    } else if member(j, "keyboard"@) is Some {
        match (
            label_rows_of(member(j, "keyboard"@)),
            opt_bool(member(j, "one_time_keyboard"@)),
        ) {
            (Some(rows), Some(once)) => Some(
                KeyboardView::Custom { keyboard: rows, one_time_keyboard: once },
            ),
            _ => None,
        }
    } else {
        match button_rows_of(member(j, "inline_keyboard"@)) {
            Some(rows) => Some(KeyboardView::MessageButtons { inline_keyboard: rows }),
            None => None,
        }
    }
}

fn labels_to_json(row: &Vec<String>) -> (r: Json)
    ensures
        label_row_of(r) == Some(labels_view(*row)),
{
    let mut out: Vec<Json> = Vec::new();
    let n = row.len();
    let mut i: usize = 0;
    while i < n
        invariant
            n == row@.len(),
            0 <= i <= n,
            out@.len() == i,
            forall|k: int| 0 <= k < i ==> #[trigger] str_of(out@[k]) == Some(row@[k]@),
        decreases n - i,
    {
        out.push(Json::Str(row[i].clone()));
        i = i + 1;
    }
    assert(out@.map_values(|x: Json| str_of(x)->Some_0) =~= labels_view(*row));
    Json::Array(out)
}

fn labels_from_json(j: &Json) -> (r: Option<Vec<String>>)
    ensures
        match r {
            Some(v) => label_row_of(*j) == Some(labels_view(v)),
            None => label_row_of(*j) is None,
        },
{
    match j {
        Json::Array(a) => {
            let mut out: Vec<String> = Vec::new();
            let n = a.len();
            let mut i: usize = 0;
            while i < n
                invariant
                    n == a@.len(),
                    *j == Json::Array(*a),
                    0 <= i <= n,
                    out@.len() == i,
                    forall|k: int| 0 <= k < i ==> #[trigger] str_of(a@[k]) == Some(out@[k]@),
                decreases n - i,
            {
                match &a[i] {
                    Json::Str(s) => out.push(s.clone()),
                    _ => {
                        assert(str_of(a@[i as int]) is None);
                        return None;
                    },
                }
                i = i + 1;
            }
            assert(a@.map_values(|x: Json| str_of(x)->Some_0) =~= labels_view(out));
            Some(out)
        },
        _ => None,
    }
}

fn button_to_json(b: &InlineKeyboardButton) -> (r: Json)
    ensures
        button_of(r) == Some((b.text@, b.callback_data@)),
        exact_button(r),
{
    let mut fields: Vec<(String, Json)> = Vec::new();
    proof {
        reveal_strlit("text");
        reveal_strlit("callback_data");
    }
    assert(forall|k: Seq<char>| #[trigger] field_of(fields@, k) is None);
    push_member(&mut fields, "text", Json::Str(b.text.clone()));
    assert(field_of(fields@, "text"@) == Some(Json::Str(b.text)));
    assert("text"@.len() != "callback_data"@.len());
    assert(field_of(fields@, "callback_data"@) is None);
    push_member(&mut fields, "callback_data", Json::Str(b.callback_data.clone()));
    assert(field_of(fields@, "text"@) == Some(Json::Str(b.text)));
    assert(field_of(fields@, "callback_data"@) == Some(Json::Str(b.callback_data)));
    Json::Object(fields)
}

fn button_from_json(j: &Json) -> (r: Option<InlineKeyboardButton>)
    ensures
        match r {
            Some(b) => button_of(*j) == Some((b.text@, b.callback_data@)),
            None => button_of(*j) is None,
        },
{
    match (j.opt_str_member("text"), j.opt_str_member("callback_data")) {
        (Some(Some(text)), Some(Some(callback_data))) => Some(InlineKeyboardButton { text, callback_data }),
        _ => None,
    }
}

fn buttons_to_json(row: &Vec<InlineKeyboardButton>) -> (r: Json)
    ensures
        button_row_of(r) == Some(buttons_view(*row)),
        r matches Json::Array(a) && forall|k: int| 0 <= k < a@.len() ==> exact_button(#[trigger] a@[k]),
{
    let mut out: Vec<Json> = Vec::new();
    let n = row.len();
    let mut i: usize = 0;
    while i < n
        invariant
            n == row@.len(),
            0 <= i <= n,
            out@.len() == i,
            forall|k: int| 0 <= k < i ==> #[trigger] button_of(out@[k]) == Some((row@[k].text@, row@[k].callback_data@)),
            forall|k: int| 0 <= k < i ==> exact_button(#[trigger] out@[k]),
        decreases n - i,
    {
        out.push(button_to_json(&row[i]));
        i = i + 1;
    }
    assert(out@.map_values(|x: Json| button_of(x)->Some_0) =~= buttons_view(*row));
    Json::Array(out)
}

fn buttons_from_json(j: &Json) -> (r: Option<Vec<InlineKeyboardButton>>)
    ensures
        match r {
            Some(v) => button_row_of(*j) == Some(buttons_view(v)),
            None => button_row_of(*j) is None,
        },
{
    match j {
        Json::Array(a) => {
            let mut out: Vec<InlineKeyboardButton> = Vec::new();
            let n = a.len();
            let mut i: usize = 0;
            while i < n
                invariant
                    n == a@.len(),
                    *j == Json::Array(*a),
                    0 <= i <= n,
                    out@.len() == i,
                    forall|k: int| 0 <= k < i ==> #[trigger] button_of(a@[k]) == Some((out@[k].text@, out@[k].callback_data@)),
                decreases n - i,
            {
                match button_from_json(&a[i]) {
                    Some(b) => out.push(b),
                    None => {
                        assert(button_of(a@[i as int]) is None);
                        return None;
                    },
                }
                i = i + 1;
            }
            assert(a@.map_values(|x: Json| button_of(x)->Some_0) =~= buttons_view(out));
            Some(out)
        },
        _ => None,
    }
}

spec fn opt_deref(m: Option<&Json>) -> Option<Json> {
    match m {
        Some(x) => Some(*x),
        None => None,
    }
}

fn label_rows_to_json(rows: &Vec<Vec<String>>) -> (r: Json)
    ensures
        label_rows_of(Some(r)) == Some(rows@.map_values(|r: Vec<String>| labels_view(r))),
{
    let mut out: Vec<Json> = Vec::new();
    let n = rows.len();
    let mut i: usize = 0;
    while i < n
        invariant
            n == rows@.len(),
            0 <= i <= n,
            out@.len() == i,
            forall|k: int| 0 <= k < i ==> #[trigger] label_row_of(out@[k]) == Some(labels_view(rows@[k])),
        decreases n - i,
    {
        out.push(labels_to_json(&rows[i]));
        i = i + 1;
    }
    assert(out@.map_values(|x: Json| label_row_of(x)->Some_0)
        =~= rows@.map_values(|r: Vec<String>| labels_view(r)));
    Json::Array(out)
}

fn label_rows_from_json(m: Option<&Json>) -> (r: Option<Vec<Vec<String>>>)
    ensures
        match r {
            Some(v) => label_rows_of(opt_deref(m))
                == Some(v@.map_values(|r: Vec<String>| labels_view(r))),
            None => label_rows_of(opt_deref(m)) is None,
        },
{
    match m {
        Some(Json::Array(a)) => {
            let mut out: Vec<Vec<String>> = Vec::new();
            let n = a.len();
            let mut i: usize = 0;
            while i < n
                invariant
                    n == a@.len(),
                    opt_deref(m) == Some(Json::Array(*a)),
                    0 <= i <= n,
                    out@.len() == i,
                    forall|k: int| 0 <= k < i ==> #[trigger] label_row_of(a@[k]) == Some(labels_view(out@[k])),
                decreases n - i,
            {
                match labels_from_json(&a[i]) {
                    Some(row) => out.push(row),
                    None => {
                        assert(label_row_of(a@[i as int]) is None);
                        return None;
                    },
                }
                i = i + 1;
            }
            assert(a@.map_values(|x: Json| label_row_of(x)->Some_0)
                =~= out@.map_values(|r: Vec<String>| labels_view(r)));
            Some(out)
        },
        _ => None,
    }
}

fn button_rows_to_json(rows: &Vec<Vec<InlineKeyboardButton>>) -> (r: Json)
    ensures
        button_rows_of(Some(r)) == Some(rows@.map_values(|r: Vec<InlineKeyboardButton>| buttons_view(r))),
        exact_button_rows(Some(r)),
{
    let mut out: Vec<Json> = Vec::new();
    let n = rows.len();
    let mut i: usize = 0;
    while i < n
        invariant
            n == rows@.len(),
            0 <= i <= n,
            out@.len() == i,
            forall|k: int| 0 <= k < i ==> #[trigger] button_row_of(out@[k]) == Some(buttons_view(rows@[k])),
            forall|k: int| 0 <= k < i ==> (#[trigger] out@[k] matches Json::Array(r) && forall|m: int|
                0 <= m < r@.len() ==> exact_button(#[trigger] r@[m])),
        decreases n - i,
    {
        out.push(buttons_to_json(&rows[i]));
        i = i + 1;
    }
    assert(out@.map_values(|x: Json| button_row_of(x)->Some_0)
        =~= rows@.map_values(|r: Vec<InlineKeyboardButton>| buttons_view(r)));
    Json::Array(out)
}

fn button_rows_from_json(m: Option<&Json>) -> (r: Option<Vec<Vec<InlineKeyboardButton>>>)
    ensures
        match r {
            Some(v) => button_rows_of(opt_deref(m))
                == Some(v@.map_values(|r: Vec<InlineKeyboardButton>| buttons_view(r))),
            None => button_rows_of(opt_deref(m)) is None,
        },
{
    match m {
        Some(Json::Array(a)) => {
            let mut out: Vec<Vec<InlineKeyboardButton>> = Vec::new();
            let n = a.len();
            let mut i: usize = 0;
            while i < n
                invariant
                    n == a@.len(),
                    opt_deref(m) == Some(Json::Array(*a)),
                    0 <= i <= n,
                    out@.len() == i,
                    forall|k: int| 0 <= k < i ==> #[trigger] button_row_of(a@[k]) == Some(buttons_view(out@[k])),
                decreases n - i,
            {
                match buttons_from_json(&a[i]) {
                    Some(row) => out.push(row),
                    None => {
                        assert(button_row_of(a@[i as int]) is None);
                        return None;
                    },
                }
                i = i + 1;
            }
            assert(a@.map_values(|x: Json| button_row_of(x)->Some_0)
                =~= out@.map_values(|r: Vec<InlineKeyboardButton>| buttons_view(r)));
            Some(out)
        },
        _ => None,
    }
}

fn copy_labels(row: &Vec<String>) -> (r: Vec<String>)
    ensures
        labels_view(r) == labels_view(*row),
{
    let r = row.clone();
    assert forall|i: int| 0 <= i < r@.len() implies r@[i]@ == row@[i]@ by {
        assert(cloned::<String>(row[i], r[i]));
    }
    assert(labels_view(r) =~= labels_view(*row));
    r
}

fn copy_label_rows(rows: &Vec<Vec<String>>) -> (r: Vec<Vec<String>>)
    ensures
        r@.map_values(|x: Vec<String>| labels_view(x)) == rows@.map_values(|x: Vec<String>| labels_view(x)),
{
    let mut out: Vec<Vec<String>> = Vec::new();
    let n = rows.len();
    let mut i: usize = 0;
    while i < n
        invariant
            n == rows@.len(),
            0 <= i <= n,
            out@.len() == i,
            forall|k: int| 0 <= k < i ==> #[trigger] labels_view(out@[k]) == labels_view(rows@[k]),
        decreases n - i,
    {
        out.push(copy_labels(&rows[i]));
        i = i + 1;
    }
    assert(out@.map_values(|x: Vec<String>| labels_view(x)) =~= rows@.map_values(|x: Vec<String>| labels_view(x)));
    out
}

fn copy_button_rows(rows: &Vec<Vec<InlineKeyboardButton>>) -> (r: Vec<Vec<InlineKeyboardButton>>)
    ensures
        r@.map_values(|x: Vec<InlineKeyboardButton>| buttons_view(x))
            == rows@.map_values(|x: Vec<InlineKeyboardButton>| buttons_view(x)),
{
    let mut out: Vec<Vec<InlineKeyboardButton>> = Vec::new();
    let n = rows.len();
    let mut i: usize = 0;
    while i < n
        invariant
            n == rows@.len(),
            0 <= i <= n,
            out@.len() == i,
            forall|k: int| 0 <= k < i ==> #[trigger] buttons_view(out@[k]) == buttons_view(rows@[k]),
        decreases n - i,
    {
        let row = &rows[i];
        let mut copy: Vec<InlineKeyboardButton> = Vec::new();
        let m = row.len();
        let mut j: usize = 0;
        while j < m
            invariant
                m == row@.len(),
                0 <= j <= m,
                copy@.len() == j,
                forall|k: int| 0 <= k < j ==> #[trigger] copy@[k].text@ == row@[k].text@
                    && copy@[k].callback_data@ == row@[k].callback_data@,
            decreases m - j,
        {
            copy.push(InlineKeyboardButton {
                text: row[j].text.clone(),
                callback_data: row[j].callback_data.clone(),
            });
            j = j + 1;
        }
        assert(buttons_view(copy) =~= buttons_view(*row));
        out.push(copy);
        i = i + 1;
    }
    assert(out@.map_values(|x: Vec<InlineKeyboardButton>| buttons_view(x))
        =~= rows@.map_values(|x: Vec<InlineKeyboardButton>| buttons_view(x)));
    out
}

impl KeyboardDef {
    /// The JSON object for this markup: `remove_keyboard: true` or
    /// `force_reply: true` with `selective` where set; `keyboard` with
    /// `one_time_keyboard` where set; or `inline_keyboard`.
    pub fn to_value(&self) -> (r: Json)
        ensures
            keyboard_of(r) == Some(self@),
            exact_markup(self@, r),
    {
        let mut fields: Vec<(String, Json)> = Vec::new();
        proof {
            reveal_strlit("remove_keyboard");
            reveal_strlit("force_reply");
            reveal_strlit("keyboard");
            reveal_strlit("inline_keyboard");
            reveal_strlit("selective");
            reveal_strlit("one_time_keyboard");
            assert("remove_keyboard"@.len() == 15 && "inline_keyboard"@.len() == 15);
            assert("remove_keyboard"@[0] != "inline_keyboard"@[0]);
            assert("force_reply"@.len() == 11 && "keyboard"@.len() == 8);
            assert("selective"@.len() == 9 && "one_time_keyboard"@.len() == 17);
            assert(forall|k: Seq<char>| #[trigger] field_of(fields@, k) is None);
        }
        match self {
            KeyboardDef::Writing(k) => {
                push_member(&mut fields, "remove_keyboard", Json::Bool(true));
                if let Some(sel) = k.selective {
                    push_member(&mut fields, "selective", Json::Bool(sel));
                }
            },
            KeyboardDef::Reply(k) => {
                push_member(&mut fields, "force_reply", Json::Bool(true));
                if let Some(sel) = k.selective {
                    push_member(&mut fields, "selective", Json::Bool(sel));
                }
            },
            KeyboardDef::Custom(k) => {
                push_member(&mut fields, "keyboard", label_rows_to_json(&k.keyboard));
                if let Some(once) = k.one_time_keyboard {
                    push_member(&mut fields, "one_time_keyboard", Json::Bool(once));
                }
            },
            KeyboardDef::MessageButtons(k) => {
                push_member(&mut fields, "inline_keyboard", button_rows_to_json(&k.inline_keyboard));
            },
        }
        Json::Object(fields)
    }

    /// Reads a markup from its JSON object, as `keyboard_of` tells; `None`
    /// where the object stands for none.
    pub fn from_value(j: &Json) -> (r: Option<KeyboardDef>)
        ensures
            match r {
                Some(k) => keyboard_of(*j) == Some(k@),
                None => keyboard_of(*j) is None,
            },
    {
        if !matches!(j, Json::Object(_)) {
            return None;
        }
        let selective = j.opt_bool_member("selective");
        if let Some(flag) = j.get("remove_keyboard") {
            match (flag, selective) {
                (Json::Bool(true), Some(selective)) => Some(KeyboardDef::Writing(ReplyKeyboardRemove { selective })),
                _ => None,
            }
        } else if let Some(flag) = j.get("force_reply") {
            match (flag, selective) {
                (Json::Bool(true), Some(selective)) => Some(KeyboardDef::Reply(ForceReply { selective })),
                _ => None,
            }
        } else if let Some(rows) = j.get("keyboard") {
            match (label_rows_from_json(Some(rows)), j.opt_bool_member("one_time_keyboard")) {
                (Some(keyboard), Some(one_time_keyboard)) => Some(
                    KeyboardDef::Custom(ReplyKeyboardMarkup { keyboard, one_time_keyboard }),
                ),
                _ => None,
            }
        } else {
            match button_rows_from_json(j.get("inline_keyboard")) {
                Some(inline_keyboard) => Some(
                    KeyboardDef::MessageButtons(InlineKeyboardMarkup { inline_keyboard }),
                ),
                None => None,
            }
        }
    }

    /// A copy of this markup that shares nothing with it.
    pub fn duplicate(&self) -> (r: KeyboardDef)
        ensures
            r@ == self@,
    {
        match self {
            KeyboardDef::Writing(k) => KeyboardDef::Writing(ReplyKeyboardRemove { selective: k.selective }),
            KeyboardDef::Reply(k) => KeyboardDef::Reply(ForceReply { selective: k.selective }),
            KeyboardDef::Custom(k) => KeyboardDef::Custom(ReplyKeyboardMarkup {
                keyboard: copy_label_rows(&k.keyboard),
                one_time_keyboard: k.one_time_keyboard,
            }),
            KeyboardDef::MessageButtons(k) => KeyboardDef::MessageButtons(InlineKeyboardMarkup {
                inline_keyboard: copy_button_rows(&k.inline_keyboard),
            }),
        }
    }
}

} // verus!
