//! JSON documents: a mathematical model of what a `serde_json::Value` holds,
//! and verified readers of the members that key sets and claims are made of.

use serde_json::Value;
use vstd::prelude::*;

verus! {

/// `serde_json::Value`, carried through as an opaque value: what it holds is
/// spoken of through `json_of` alone.
#[verifier::external_type_specification]
#[verifier::external_body]
pub struct ExValue(serde_json::Value);

/// A JSON document as a mathematical value.
pub ghost enum Json {
    Null,
    Bool(bool),
    /// A number that `serde_json` holds as an integer.
    Integer(int),
    /// Any other number.
    Decimal,
    Text(Seq<char>),
    List(Seq<Json>),
    Object(Map<Seq<char>, Json>),
}

/// The document that a `serde_json::Value` holds.
pub uninterp spec fn json_of(value: Value) -> Json;

/// The document that `serde_json` reads from some bytes, if it reads one.
pub uninterp spec fn parsed_json(bytes: Seq<u8>) -> Option<Json>;

/// The view of an optional string.
pub open spec fn text_view(text: Option<String>) -> Option<Seq<char>> {
    match text {
        Some(t) => Some(t@),
        None => None,
    }
}

/// The views of a list of strings.
pub open spec fn texts_view(texts: Seq<String>) -> Seq<Seq<char>> {
    Seq::new(texts.len(), |i: int| texts[i]@)
}

impl Json {
    /// The member called `name`, if this is an object that has one.
    pub open spec fn member(self, name: Seq<char>) -> Option<Json> {
        match self {
            Json::Object(members) => if members.contains_key(name) {
                Some(members[name])
            } else {
                None
            },
            _ => None,
        }
    }

    /// The member called `name`, if it is a string.
    pub open spec fn text_member(self, name: Seq<char>) -> Option<Seq<char>> {
        match self.member(name) {
            Some(Json::Text(text)) => Some(text),
            _ => None,
        }
    }

    /// The member called `name`, if it is an integer that fits in 64 signed bits.
    pub open spec fn integer_member(self, name: Seq<char>) -> Option<int> {
        match self.member(name) {
            Some(Json::Integer(i)) => if i64::MIN <= i <= i64::MAX {
                Some(i)
            } else {
                None
            },
            _ => None,
        }
    }

    /// The member called `name` where it may be left out: `Some(None)` when it
    /// is absent or null, `Some(Some(..))` when it is a string, `None` when it
    /// is anything else.
    pub open spec fn optional_text_member(self, name: Seq<char>) -> Option<Option<Seq<char>>> {
        match self.member(name) {
            None => Some(None),
            Some(Json::Null) => Some(None),
            Some(Json::Text(text)) => Some(Some(text)),
            _ => None,
        }
    }

    /// Whether this is a list of strings only.
    pub open spec fn is_text_list(self) -> bool {
        self matches Json::List(items) && forall|i: int|
            0 <= i < items.len() ==> #[trigger] items[i] is Text
    }

    /// The strings of a list of strings.
    pub open spec fn text_list(self) -> Seq<Seq<char>>
        recommends
            self.is_text_list(),
    {
        Seq::new(self->List_0.len(), |i: int| self->List_0[i]->Text_0)
    }

    /// The member called `name`, if it is a list of strings.
    pub open spec fn text_list_member(self, name: Seq<char>) -> Option<Seq<Seq<char>>> {
        match self.member(name) {
            Some(list) => if list.is_text_list() {
                Some(list.text_list())
            } else {
                None
            },
            None => None,
        }
    }
}

/// `serde_json::from_slice`, read as a `Value`: the result is the document
/// that the bytes denote, and there is none exactly when the bytes are not
/// JSON.
#[verifier::external_body]
pub(crate) fn parse_json(bytes: &[u8]) -> (parsed: Option<Value>)
    ensures
        parsed matches Some(value) ==> parsed_json(bytes@) == Some(json_of(value)),
        parsed is None ==> parsed_json(bytes@) is None,
{
    serde_json::from_slice::<Value>(bytes).ok()
}

/// `serde_json::Value::get` with a name: the member of that name when the
/// value is an object that has one, nothing otherwise.
#[verifier::external_body]
pub(crate) fn get_member<'a>(value: &'a Value, name: &str) -> (found: Option<&'a Value>)
    ensures
        found matches Some(m) ==> json_of(*value).member(name@) == Some(json_of(*m)),
        found is None ==> json_of(*value).member(name@) is None,
{
    value.get(name)
}

/// `serde_json::Value::as_str`: the string when the value is one.
pub assume_specification[ Value::as_str ](value: &Value) -> (text: Option<&str>)
    ensures
        text matches Some(t) ==> json_of(*value) == Json::Text(t@),
        text is None ==> !(json_of(*value) is Text),
;

/// `serde_json::Value::as_i64`: the number when the value is an integer that
/// fits in 64 signed bits.
pub assume_specification[ Value::as_i64 ](value: &Value) -> (number: Option<i64>)
    ensures
        number matches Some(i) ==> json_of(*value) == Json::Integer(i as int),
        number is None ==> !(json_of(*value) matches Json::Integer(i) && i64::MIN <= i <= i64::MAX),
;

/// `serde_json::Value::is_null`.
pub assume_specification[ Value::is_null ](value: &Value) -> (null: bool)
    ensures
        null == (json_of(*value) is Null),
;

/// `serde_json::Value::as_array`: the items when the value is a list.
pub assume_specification[ Value::as_array ](value: &Value) -> (items: Option<&Vec<Value>>)
    ensures
        items matches Some(list) ==> json_of(*value) == Json::List(
            Seq::new(list@.len(), |i: int| json_of(list@[i])),
        ),
        items is None ==> !(json_of(*value) is List),
;

/// Reads the string member called `name`.
pub fn text_member(value: &Value, name: &str) -> (text: Option<String>)
    ensures
        text_view(text) == json_of(*value).text_member(name@),
{
    match get_member(value, name) {
        None => None,
        Some(m) => match m.as_str() {
            None => None,
            Some(t) => Some(t.to_owned()),
        },
    }
}

/// Reads the integer member called `name`.
pub fn integer_member(value: &Value, name: &str) -> (number: Option<i64>)
    ensures
        match number {
            Some(i) => json_of(*value).integer_member(name@) == Some(i as int),
            None => json_of(*value).integer_member(name@) is None,
        },
{
    match get_member(value, name) {
        None => None,
        Some(m) => m.as_i64(),
    }
}

/// Reads the string member called `name` where it may be left out or null.
pub fn optional_text_member(value: &Value, name: &str) -> (text: Option<Option<String>>)
    ensures
        match text {
            Some(t) => json_of(*value).optional_text_member(name@) == Some(text_view(t)),
            None => json_of(*value).optional_text_member(name@) is None,
        },
{
    match get_member(value, name) {
        None => Some(None),
        Some(m) => {
            if m.is_null() {
                Some(None)
            } else {
                match m.as_str() {
                    None => None,
                    Some(t) => Some(Some(t.to_owned())),
                }
            }
        },
    }
}

/// Reads the member called `name` as a list of strings.
pub fn text_list_member(value: &Value, name: &str) -> (texts: Option<Vec<String>>)
    ensures
        match texts {
            Some(list) => json_of(*value).text_list_member(name@) == Some(texts_view(list@)),
            None => json_of(*value).text_list_member(name@) is None,
        },
{
    let list = match get_member(value, name) {
        None => { return None; },
        Some(m) => m,
    };
    let items = match list.as_array() {
        None => { return None; },
        Some(items) => items,
    };
    let ghost docs = Seq::new(items@.len(), |i: int| json_of(items@[i]));
    let mut texts: Vec<String> = Vec::new();
    let mut at: usize = 0;
    while at < items.len()
        invariant
            at <= items@.len(),
            docs == Seq::new(items@.len(), |i: int| json_of(items@[i])),
            json_of(*value).member(name@) == Some(Json::List(docs)),
            texts@.len() == at,
            forall|i: int| 0 <= i < at ==> #[trigger] docs[i] == Json::Text(texts@[i]@),
        decreases items@.len() - at,
    {
        match items[at].as_str() {
            None => {
                assert(!(docs[at as int] is Text));
                return None;
            },
            Some(t) => {
                texts.push(t.to_owned());
            },
        }
        at += 1;
    }
    assert(texts_view(texts@) =~= Json::List(docs).text_list());
    Some(texts)
}

} // verus!
