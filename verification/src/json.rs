//! A structured JSON document as the pipeline reads it.
use vstd::prelude::*;

use serde_json::Value;

use crate::text::same_text;

verus! {

/// A JSON value. A number is held as its decimal text.
pub enum Json {
    Null,
    Bool(bool),
    Number(String),
    Str(String),
    Array(JsonItems),
    Object(JsonMembers),
}

/// The elements of a JSON array, first to last.
pub enum JsonItems {
    End,
    Item(Box<Json>, Box<JsonItems>),
}

/// The members of a JSON object, in order; a lookup finds the first member with a name.
pub enum JsonMembers {
    End,
    Member(String, Box<Json>, Box<JsonMembers>),
}

impl JsonItems {
    pub open spec fn spec_seq(self) -> Seq<Json>
        decreases self,
    {
        match self {
            JsonItems::End => Seq::empty(),
            JsonItems::Item(head, rest) => seq![*head] + rest.spec_seq(),
        }
    }

    /// The element at `index`, counting from 0.
    pub fn get(&self, index: usize) -> (res: Option<&Json>)
        ensures
            match res {
                Some(v) => index < self.spec_seq().len() && self.spec_seq()[index as int] == *v,
                None => index >= self.spec_seq().len(),
            },
        decreases self,
    {
        match self {
            JsonItems::End => None,
            JsonItems::Item(head, rest) => {
                if index == 0 {
                    Some(&**head)
                } else {
                    let r = rest.get(index - 1);
                    r
                }
            },
        }
    }

    pub fn deep_clone(&self) -> (res: JsonItems)
        ensures
            res == *self,
        decreases self,
    {
        match self {
            JsonItems::End => JsonItems::End,
            JsonItems::Item(head, rest) => JsonItems::Item(
                Box::new(head.deep_clone()),
                Box::new(rest.deep_clone()),
            ),
        }
    }
}

impl JsonMembers {
    /// The value under `key`: that of the first member with that name.
    pub open spec fn spec_lookup(self, key: Seq<char>) -> Option<Json>
        decreases self,
    {
        match self {
            JsonMembers::End => None,
            JsonMembers::Member(name, value, rest) => if name@ == key {
                Some(*value)
            } else {
                rest.spec_lookup(key)
            },
        }
    }

    pub fn lookup(&self, key: &str) -> (res: Option<&Json>)
        ensures
            match res {
                Some(v) => self.spec_lookup(key@) == Some(*v),
                None => self.spec_lookup(key@) is None,
            },
        decreases self,
    {
        match self {
            JsonMembers::End => None,
            JsonMembers::Member(name, value, rest) => {
                if same_text(name.as_str(), key) {
                    Some(&**value)
                } else {
                    rest.lookup(key)
                }
            },
        }
    }

    pub fn deep_clone(&self) -> (res: JsonMembers)
        ensures
            res == *self,
        decreases self,
    {
        match self {
            JsonMembers::End => JsonMembers::End,
            JsonMembers::Member(name, value, rest) => JsonMembers::Member(
                name.clone(),
                Box::new(value.deep_clone()),
                Box::new(rest.deep_clone()),
            ),
        }
    }
}

impl Json {
    /// `self[key]`: the member named `key` of an object; nothing for any other value.
    pub open spec fn spec_field(self, key: Seq<char>) -> Option<Json> {
        match self {
            Json::Object(members) => members.spec_lookup(key),
            _ => None,
        }
    }

    /// The elements of an array; nothing for any other value.
    pub open spec fn spec_items(self) -> Option<Seq<Json>> {
        match self {
            Json::Array(items) => Some(items.spec_seq()),
            _ => None,
        }
    }

    /// The text of a string value; nothing for any other value.
    pub open spec fn spec_text(self) -> Option<Seq<char>> {
        match self {
            Json::Str(s) => Some(s@),
            _ => None,
        }
    }

    pub fn field(&self, key: &str) -> (res: Option<&Json>)
        ensures
            match res {
                Some(v) => self.spec_field(key@) == Some(*v),
                None => self.spec_field(key@) is None,
            },
    {
        match self {
            Json::Object(members) => members.lookup(key),
            _ => None,
        }
    }

    pub fn as_items(&self) -> (res: Option<&JsonItems>)
        ensures
            match res {
                Some(items) => self.spec_items() == Some(items.spec_seq()),
                None => self.spec_items() is None,
            },
    {
        match self {
            Json::Array(items) => Some(items),
            _ => None,
        }
    }

    pub fn as_text(&self) -> (res: Option<&String>)
        ensures
            match res {
                Some(s) => self.spec_text() == Some(s@),
                None => self.spec_text() is None,
            },
    {
        match self {
            Json::Str(s) => Some(s),
            _ => None,
        }
    }

    pub fn deep_clone(&self) -> (res: Json)
        ensures
            res == *self,
        decreases self,
    {
        match self {
            Json::Null => Json::Null,
            Json::Bool(b) => Json::Bool(*b),
            Json::Number(n) => Json::Number(n.clone()),
            Json::Str(s) => Json::Str(s.clone()),
            Json::Array(items) => Json::Array(items.deep_clone()),
            Json::Object(members) => Json::Object(members.deep_clone()),
        }
    }
}

#[verifier::external_type_specification]
#[verifier::external_body]
pub struct ExJsonValue(serde_json::Value);

/// What `serde_json::from_str::<serde_json::Value>` reads from a text, as a `Json` tree, or
/// the `Display` text of the error it reports. It depends on the text alone.
pub uninterp spec fn parsed_json(text: Seq<char>) -> Result<Json, Seq<char>>;

/// Turns a `serde_json::Value` into a `Json` tree node for node: a number becomes its
/// `Display` text, arrays and objects keep the order in which serde_json walks them.
#[verifier::external_body]
fn tree_of(value: &Value) -> Json {
    match value {
        Value::Null => Json::Null,
        Value::Bool(b) => Json::Bool(*b),
        Value::Number(n) => Json::Number(n.to_string()),
        Value::String(s) => Json::Str(s.clone()),
        Value::Array(items) => Json::Array(items.iter().rev().fold(JsonItems::End, |rest, item| JsonItems::Item(Box::new(tree_of(item)), Box::new(rest)))),
        Value::Object(map) => Json::Object(map.iter().rev().fold(JsonMembers::End, |rest, (k, v)| JsonMembers::Member(k.clone(), Box::new(tree_of(v)), Box::new(rest)))),
    }
}

/// Calls `serde_json::from_str::<serde_json::Value>` on `text`: the tree it reads, or the
/// text of the error it reports; the outcome is named `parsed_json` of the text.
#[verifier::external_body]
pub(crate) fn parse_json(text: &str) -> (res: Result<Json, String>)
    ensures
        match parsed_json(text@) {
            Ok(doc) => res matches Ok(tree) && tree == doc,
            Err(why) => res matches Err(message) && message@ == why,
        },
{
    match serde_json::from_str::<Value>(text) {
        Ok(value) => Ok(tree_of(&value)),
        Err(error) => Err(error.to_string()),
    }
}

/// A JSON value with its texts as sequences of characters.
pub enum JsonView {
    Null,
    Bool(bool),
    Number(Seq<char>),
    Str(Seq<char>),
    Array(Seq<JsonView>),
    Object(Seq<(Seq<char>, JsonView)>),
}

impl JsonItems {
    /// The views of the elements, first to last.
    pub open spec fn spec_views(self) -> Seq<JsonView>
        decreases self,
    {
        match self {
            JsonItems::End => Seq::empty(),
            JsonItems::Item(head, rest) => seq![head.spec_view()] + rest.spec_views(),
        }
    }
}

impl JsonMembers {
    /// The members' names and views, in order.
    pub open spec fn spec_views(self) -> Seq<(Seq<char>, JsonView)>
        decreases self,
    {
        match self {
            JsonMembers::End => Seq::empty(),
            JsonMembers::Member(name, value, rest) => seq![(name@, value.spec_view())]
                + rest.spec_views(),
        }
    }
}

impl Json {
    /// The value with its texts as sequences of characters.
    pub open spec fn spec_view(self) -> JsonView
        decreases self,
    {
        match self {
            Json::Null => JsonView::Null,
            Json::Bool(b) => JsonView::Bool(b),
            Json::Number(n) => JsonView::Number(n@),
            Json::Str(s) => JsonView::Str(s@),
            Json::Array(items) => JsonView::Array(items.spec_views()),
            Json::Object(members) => JsonView::Object(members.spec_views()),
        }
    }
}

/// The text that `serde_json::Value`'s `Display` writes for the value a tree stands for (each
/// number as the `serde_json::Number` its text reads as). It depends on the value alone.
pub uninterp spec fn json_rendering(doc: JsonView) -> Seq<char>;

/// Whether a text is a decimal digit run without leading zeros (`0` itself allowed).
pub open spec fn is_natural_text(text: Seq<char>) -> bool {
    &&& text.len() > 0
    &&& forall|i: int| 0 <= i < text.len() ==> '0' <= #[trigger] text[i] && text[i] <= '9'
    &&& text.len() > 1 ==> text[0] != '0'
}

/// Whether a text is a JSON integer: a natural number's digits, with an optional minus sign.
pub open spec fn is_integer_text(text: Seq<char>) -> bool {
    is_natural_text(text) || (text.len() > 1 && text[0] == '-' && is_natural_text(text.skip(1)))
}

/// A tree that converts to a `serde_json::Value` one for one: every number is an integer
/// text, and no object has two members of one name.
pub open spec fn renderable(doc: JsonView) -> bool
    decreases doc,
{
    match doc {
        JsonView::Number(text) => is_integer_text(text),
        JsonView::Array(items) => forall|i: int| 0 <= i < items.len() ==> renderable(#[trigger] items[i]),
        JsonView::Object(members) => {
            &&& forall|i: int, j: int| 0 <= i < j < members.len() ==> (#[trigger] members[i]).0
                != (#[trigger] members[j]).0
            &&& forall|i: int| 0 <= i < members.len() ==> renderable(#[trigger] members[i].1)
        },
        _ => true,
    }
}

/// Turns a `Json` tree into a `serde_json::Value` node for node: a number becomes the
/// `serde_json::Number` read from its text.
#[verifier::external_body]
fn value_of(doc: &Json) -> Value {
    match doc {
        Json::Null => Value::Null,
        Json::Bool(b) => Value::Bool(*b),
        Json::Number(n) => match n.parse::<serde_json::Number>() {
            Ok(number) => Value::Number(number),
            Err(_) => Value::Null,
        },
        Json::Str(s) => Value::String(s.clone()),
        Json::Array(items) => array_of(items),
        Json::Object(members) => object_of(members),
    }
}

/// An array of the elements, each turned into a `serde_json::Value`, in order.
#[verifier::external_body]
fn array_of(items: &JsonItems) -> Value {
    let (mut out, mut cursor) = (Vec::new(), items);
    while let JsonItems::Item(head, rest) = cursor {
        out.push(value_of(head));
        cursor = rest;
    }
    Value::Array(out)
}

/// An object of the members, each value turned into a `serde_json::Value`.
#[verifier::external_body]
fn object_of(members: &JsonMembers) -> Value {
    let (mut out, mut cursor) = (serde_json::Map::new(), members);
    while let JsonMembers::Member(name, value, rest) = cursor {
        out.insert(name.clone(), value_of(value));
        cursor = rest;
    }
    Value::Object(out)
}

/// Writes a tree as JSON text with `serde_json::Value`'s `Display`; the text is named
/// `json_rendering` of the tree's view. The tree's numbers are integer texts, which
/// `serde_json::Number` reads, and its member names are distinct.
#[verifier::external_body]
pub(crate) fn json_text(doc: &Json) -> (res: String)
    requires
        renderable(doc.spec_view()),
    ensures
        res@ == json_rendering(doc.spec_view()),
{
    value_of(doc).to_string()
}

impl Clone for Json {
    fn clone(&self) -> (res: Json)
        ensures
            res == *self,
    {
        self.deep_clone()
    }
}

} // verus!
