use crate::text::same_text;
use vstd::prelude::*;

verus! {

/// A JSON document: one value with everything below it.
#[derive(Debug)]
pub enum Json {
    Null,
    Bool(bool),
    /// A number, with its value where it is a whole number from 0 to
    /// `u64::MAX`.
    Number(Option<u64>),
    Text(String),
    Array(Vec<Json>),
    /// The members of an object, each with its name.
    Object(Vec<(String, Json)>),
}

/// The value of the first of `members` that is named `key`.
pub open spec fn find_member(members: Seq<(String, Json)>, key: Seq<char>) -> Option<Json>
    decreases members.len(),
{
    if members.len() == 0 {
        None
    } else if members[0].0@ == key {
        Some(members[0].1)
    } else {
        find_member(members.skip(1), key)
    }
}

/// Whether every one of `items` is a string.
pub open spec fn all_text(items: Seq<Json>) -> bool {
    forall|i: int| 0 <= i < items.len() ==> #[trigger] items[i] is Text
}

/// The texts of `items`, which are strings, in order.
pub open spec fn texts(items: Seq<Json>) -> Seq<Seq<char>> {
    Seq::new(items.len(), |i: int| items[i]->Text_0@)
}

/// The texts of `strs`, in order.
pub open spec fn str_views(strs: Seq<&str>) -> Seq<Seq<char>> {
    Seq::new(strs.len(), |i: int| strs[i]@)
}

impl Json {
    /// The member `key` of this object; none where it has no such member,
    /// or is no object.
    pub open spec fn member_of(self, key: Seq<char>) -> Option<Json> {
        match self {
            Json::Object(members) => find_member(members@, key),
            _ => None,
        }
    }

    /// The text of this string; none where it is no string.
    pub open spec fn text_of(self) -> Option<Seq<char>> {
        match self {
            Json::Text(s) => Some(s@),
            _ => None,
        }
    }

    /// The value of this number where it is a whole number from 0 to
    /// `u64::MAX`; none where it is another number, or no number.
    pub open spec fn unsigned_of(self) -> Option<u64> {
        match self {
            Json::Number(n) => n,
            _ => None,
        }
    }

    /// The items of this array; none where it is no array.
    pub open spec fn items_of(self) -> Option<Seq<Json>> {
        match self {
            Json::Array(items) => Some(items@),
            _ => None,
        }
    }

    /// The texts of this array of strings; none where it is no array, or
    /// one of its items is no string.
    pub open spec fn texts_of(self) -> Option<Seq<Seq<char>>> {
        match self {
            Json::Array(items) => if all_text(items@) {
                Some(texts(items@))
            } else {
                None
            },
            _ => None,
        }
    }

    /// The text of the member `key`, which is a string; none where this is
    /// no object, or has no such member, or the member is no string.
    pub open spec fn member_text_of(self, key: Seq<char>) -> Option<Seq<char>> {
        match self.member_of(key) {
            Some(found) => found.text_of(),
            None => None,
        }
    }

    /// The value of the member `key`, which is a whole number from 0 to
    /// `u64::MAX`; none where this is no object, or has no such member, or the
    /// member is no such number.
    pub open spec fn member_unsigned_of(self, key: Seq<char>) -> Option<u64> {
        match self.member_of(key) {
            Some(found) => found.unsigned_of(),
            None => None,
        }
    }

    /// Whether this value is an object.
    pub fn is_object(&self) -> (r: bool)
        ensures
            r == (self is Object),
    {
        match self {
            Json::Object(_) => true,
            _ => false,
        }
    }

    /// Looks up the member `key` of an object.
    pub fn member(&self, key: &str) -> (r: Option<&Json>)
        ensures
            match r {
                Some(found) => self.member_of(key@) == Some(*found),
                None => self.member_of(key@) is None,
            },
    {
        match self {
            Json::Object(members) => {
                let mut i: usize = 0;
                assert(members@.skip(0) =~= members@);
                while i < members.len()
                    invariant
                        i <= members.len(),
                        self.member_of(key@) == find_member(members@, key@),
                        find_member(members@, key@) == find_member(members@.skip(i as int), key@),
                    decreases members.len() - i,
                {
                    let ghost rest = members@.skip(i as int);
                    assert(rest[0] == members@[i as int]);
                    assert(rest.skip(1) =~= members@.skip(i + 1));
                    if same_text(members[i].0.as_str(), key) {
                        return Some(&members[i].1);
                    }
                    i += 1;
                }
                None
            },
            _ => None,
        }
    }

    /// The text of the member `key` of an object.
    pub fn member_text(&self, key: &str) -> (r: Option<&str>)
        ensures
            match r {
                Some(s) => self.member_text_of(key@) == Some(s@),
                None => self.member_text_of(key@) is None,
            },
    {
        match self.member(key) {
            Some(found) => found.as_text(),
            None => None,
        }
    }

    /// The value of the member `key` of an object.
    pub fn member_unsigned(&self, key: &str) -> (r: Option<u64>)
        ensures
            r == self.member_unsigned_of(key@),
    {
        match self.member(key) {
            Some(found) => found.as_unsigned(),
            None => None,
        }
    }

    /// The text of a string.
    pub fn as_text(&self) -> (r: Option<&str>)
        ensures
            match r {
                Some(s) => self.text_of() == Some(s@),
                None => self.text_of() is None,
            },
    {
        match self {
            Json::Text(s) => Some(s.as_str()),
            _ => None,
        }
    }

    /// The value of a whole number that fits 64 bits without a sign.
    pub fn as_unsigned(&self) -> (r: Option<u64>)
        ensures
            r == self.unsigned_of(),
    {
        match self {
            Json::Number(n) => *n,
            _ => None,
        }
    }

    /// The items of an array.
    pub fn as_items(&self) -> (r: Option<&Vec<Json>>)
        ensures
            match r {
                Some(items) => self.items_of() == Some(items@),
                None => self.items_of() is None,
            },
    {
        match self {
            Json::Array(items) => Some(items),
            _ => None,
        }
    }

    /// The texts of an array of strings.
    pub fn as_texts(&self) -> (r: Option<Vec<&str>>)
        ensures
            match r {
                Some(strs) => self.texts_of() == Some(str_views(strs@)),
                None => self.texts_of() is None,
            },
    {
        match self {
            Json::Array(items) => {
                let mut strs: Vec<&str> = Vec::new();
                let mut i: usize = 0;
                while i < items.len()
                    invariant
                        i <= items.len(),
                        strs.len() == i,
                        self.items_of() == Some(items@),
                        forall|j: int| 0 <= j < i ==> #[trigger] items@[j] is Text,
                        forall|j: int| 0 <= j < i ==> (#[trigger] strs@[j])@ == items@[j]->Text_0@,
                    decreases items.len() - i,
                {
                    match &items[i] {
                        Json::Text(s) => {
                            strs.push(s.as_str());
                        },
                        _ => {
                            return None;
                        },
                    }
                    i += 1;
                }
                assert(str_views(strs@) =~= texts(items@));
                Some(strs)
            },
            _ => None,
        }
    }
}

/// `serde_json::Value`, the parser's own document. It is handed on as it
/// comes and never looked into; [`Json`] is what the library reads.
#[verifier::external_type_specification]
#[verifier::external_body]
pub struct ExValue(serde_json::Value);

/// The document that the JSON text `text` holds, or none where `text` is no
/// JSON text. Where a name occurs twice in one object, the object has the
/// member that comes last.
pub uninterp spec fn json_of(text: Seq<char>) -> Option<Json>;

/// The document that a value of the JSON parser holds.
pub uninterp spec fn tree_of(value: serde_json::Value) -> Json;

/// The string `s` as JSON text: in double quotes, with the characters
/// escaped that JSON does not take as they are.
pub uninterp spec fn json_string(s: Seq<char>) -> Seq<char>;

/// Calls `serde_json::from_str` for a `serde_json::Value`. The value that
/// comes back holds the document of `text`; an error comes back where `text`
/// holds none, and only the fact is handed on.
#[verifier::external_body]
fn read_value(text: &str) -> (r: Option<serde_json::Value>)
    ensures
        match r {
            Some(value) => json_of(text@) == Some(tree_of(value)),
            None => json_of(text@) is None,
        },
{
    match serde_json::from_str::<serde_json::Value>(text) {
        Ok(value) => Some(value),
        Err(_) => None,
    }
}

/// Takes a `serde_json::Value` apart, variant by variant, into the document
/// that it holds. Of a number it keeps what `Number::as_u64` returns; the
/// members of an object come in the order in which its map hands them out.
#[verifier::external_body]
fn lift(value: serde_json::Value) -> (r: Json)
    ensures
        r == tree_of(value),
{
    match value {
        serde_json::Value::Null => Json::Null,
        serde_json::Value::Bool(b) => Json::Bool(b),
        serde_json::Value::Number(n) => Json::Number(n.as_u64()),
        serde_json::Value::String(s) => Json::Text(s),
        serde_json::Value::Array(a) => Json::Array(a.into_iter().map(lift).collect()),
        serde_json::Value::Object(o) => Json::Object(
            o.into_iter().map(|(k, v)| (k, lift(v))).collect(),
        ),
    }
}

/// Calls `serde_json::to_string` on a string, which writes it as JSON text
/// into memory. The text that comes back depends on `s` alone. Writing a
/// string into memory does not fail; were there an error, the text would be
/// empty.
#[verifier::external_body]
pub(crate) fn quote(s: &str) -> (r: String)
    ensures
        r@ == json_string(s@),
{
    match serde_json::to_string(s) {
        Ok(text) => text,
        Err(_) => String::new(),
    }
}

/// Reads `text` as JSON.
pub fn decode(text: &str) -> (r: Option<Json>)
    ensures
        r == json_of(text@),
{
    match read_value(text) {
        Some(value) => Some(lift(value)),
        None => None,
    }
}

} // verus!
