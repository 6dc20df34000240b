//! JSON documents as values of the library, read and written by `serde_json`.

use vstd::prelude::*;

verus! {

/// A JSON document as a mathematical value. An object lists its members in
/// the order in which the document holds them; a number is kept as its
/// decimal text.
pub enum JsonModel {
    Null,
    Bool(bool),
    Number(Seq<char>),
    Text(Seq<char>),
    Array(Seq<JsonModel>),
    Object(Seq<(Seq<char>, JsonModel)>),
}

/// A JSON document.
#[derive(Debug, PartialEq, Eq)]
pub enum Json {
    Null,
    Bool(bool),
    Number(String),
    Text(String),
    Array(Vec<Json>),
    Object(Vec<(String, Json)>),
}

impl View for Json {
    type V = JsonModel;

    open spec fn view(&self) -> JsonModel {
        self.model()
    }
}

impl Json {
    /// The mathematical value of the document.
    pub open spec fn model(&self) -> JsonModel
        decreases self,
    {
        match self {
            Json::Null => JsonModel::Null,
            Json::Bool(b) => JsonModel::Bool(*b),
            Json::Number(digits) => JsonModel::Number(digits@),
            Json::Text(text) => JsonModel::Text(text@),
            Json::Array(items) => JsonModel::Array(
                Seq::new(
                    items@.len(),
                    |i: int|
                        if 0 <= i < items@.len() {
                            items@[i].model()
                        } else {
                            JsonModel::Null
                        },
                ),
            ),
            Json::Object(members) => JsonModel::Object(
                Seq::new(
                    members@.len(),
                    |i: int|
                        if 0 <= i < members@.len() {
                            (members@[i].0@, members@[i].1.model())
                        } else {
                            (Seq::empty(), JsonModel::Null)
                        },
                ),
            ),
        }
    }
}

/// The first member of `members` named `key`, if there is one.
pub open spec fn member(members: Seq<(Seq<char>, JsonModel)>, key: Seq<char>) -> Option<JsonModel>
    decreases members.len(),
{
    if members.len() == 0 {
        None
    } else if members[0].0 == key {
        Some(members[0].1)
    } else {
        member(members.drop_first(), key)
    }
}

/// Whether `a` comes before `b` when texts are ordered character by
/// character, a proper prefix first.
pub open spec fn text_before(a: Seq<char>, b: Seq<char>) -> bool
    decreases a.len(),
{
    if b.len() == 0 {
        false
    } else if a.len() == 0 {
        true
    } else if a[0] != b[0] {
        (a[0] as u32) < (b[0] as u32)
    } else {
        text_before(a.drop_first(), b.drop_first())
    }
}

impl JsonModel {
    /// Whether the document survives being stored as a `serde_json::Value`
    /// unchanged: it holds no number, and every object names its members in
    /// strictly ascending order, so that no name occurs twice.
    pub open spec fn storable(self) -> bool
        decreases self,
    {
        match self {
            JsonModel::Null => true,
            JsonModel::Bool(_) => true,
            JsonModel::Number(_) => false,
            JsonModel::Text(_) => true,
            JsonModel::Array(items) => forall|i: int|
                0 <= i < items.len() ==> (#[trigger] items[i]).storable(),
            JsonModel::Object(members) => {
                &&& forall|i: int|
                    0 <= i < members.len() ==> (#[trigger] members[i]).1.storable()
                &&& forall|i: int, j: int|
                    0 <= i < j < members.len() ==> text_before(
                        (#[trigger] members[i]).0,
                        (#[trigger] members[j]).0,
                    )
            },
        }
    }

    /// The member `key` of an object; `None` for any other document.
    pub open spec fn get(self, key: Seq<char>) -> Option<JsonModel> {
        match self {
            JsonModel::Object(members) => member(members, key),
            _ => None,
        }
    }

    /// The text of a JSON string; `None` for any other document.
    pub open spec fn text(self) -> Option<Seq<char>> {
        match self {
            JsonModel::Text(t) => Some(t),
            _ => None,
        }
    }

    /// The items of an array; `None` for any other document.
    pub open spec fn items(self) -> Option<Seq<JsonModel>> {
        match self {
            JsonModel::Array(items) => Some(items),
            _ => None,
        }
    }
}

impl Json {
    /// Looks up the member `key` of an object.
    pub fn get(&self, key: &str) -> (r: Option<&Json>)
        ensures
            match r {
                Some(j) => self@.get(key@) == Some(j@),
                None => self@.get(key@).is_none(),
            },
    {
        match self {
            Json::Object(members) => {
                let wanted = key.to_owned();
                let ghost all = self@->Object_0;
                assert(all.skip(0) =~= all);
                let mut i: usize = 0;
                while i < members.len()
                    invariant
                        i <= members@.len(),
                        wanted@ == key@,
                        self@ == JsonModel::Object(all),
                        all.len() == members@.len(),
                        member(all, key@) == member(all.skip(i as int), key@),
                        forall|k: int|
                            0 <= k < members@.len() ==> all[k] == (
                                members@[k].0@,
                                members@[k].1@,
                            ),
                    decreases members@.len() - i,
                {
                    assert(all.skip(i as int).drop_first() =~= all.skip(i as int + 1));
                    assert(all.skip(i as int)[0] == all[i as int]);
                    if members[i].0 == wanted {
                        return Some(&members[i].1);
                    }
                    i += 1;
                }
                None
            },
            _ => None,
        }
    }

    /// The text of a JSON string.
    pub fn text(&self) -> (r: Option<&String>)
        ensures
            match r {
                Some(t) => self@.text() == Some(t@),
                None => self@.text().is_none(),
            },
    {
        match self {
            Json::Text(t) => Some(t),
            _ => None,
        }
    }

    /// The items of an array.
    pub fn items(&self) -> (r: Option<&Vec<Json>>)
        ensures
            match r {
                Some(v) => self@.items() == Some(Seq::new(v@.len(), |i: int| v@[i]@)),
                None => self@.items().is_none(),
            },
    {
        match self {
            Json::Array(v) => {
                assert(self@->Array_0 =~= Seq::new(v@.len(), |i: int| v@[i]@));
                Some(v)
            },
            _ => None,
        }
    }
}

#[verifier::external_type_specification]
#[verifier::external_body]
pub struct ExValue(serde_json::Value);

#[verifier::external_type_specification]
#[verifier::external_body]
pub struct ExJsonError(serde_json::Error);

/// The document that a `serde_json::Value` holds, the members of each object
/// in the order in which the value hands them out.
pub uninterp spec fn value_model(v: serde_json::Value) -> JsonModel;

/// What `serde_json` reads from a text: the document, or `None` where the
/// text is not one JSON document.
pub uninterp spec fn json_reading(text: Seq<char>) -> Option<JsonModel>;

/// The compact text that `serde_json` writes for a document, or `None`
/// where it reports an error instead.
pub uninterp spec fn json_text(doc: JsonModel) -> Option<Seq<char>>;

/// The indented text that `serde_json` writes for a document, or `None`
/// where it reports an error instead.
pub uninterp spec fn json_pretty_text(doc: JsonModel) -> Option<Seq<char>>;

/// Calls `serde_json::from_str` for a `serde_json::Value`. Trusted: the
/// outcome depends on the text alone; an error stands for a text that
/// `serde_json` does not read as one JSON document.
#[verifier::external_body]
fn read_value(text: &str) -> (r: Result<serde_json::Value, serde_json::Error>)
    ensures
        json_reading(text@) == match r {
            Ok(v) => Some(value_model(v)),
            Err(_) => None::<JsonModel>,
        },
{
    serde_json::from_str::<serde_json::Value>(text)
}

/// Takes a `serde_json::Value` apart, variant by variant, a number as the
/// text that `serde_json` displays for it. Trusted: the result is the
/// document that the value holds.
#[verifier::external_body]
fn json_of_value(v: serde_json::Value) -> (j: Json)
    ensures
        j@ == value_model(v),
{
    match v {
        serde_json::Value::Null => Json::Null,
        serde_json::Value::Bool(b) => Json::Bool(b),
        serde_json::Value::Number(n) => Json::Number(n.to_string()),
        serde_json::Value::String(s) => Json::Text(s),
        serde_json::Value::Array(a) => Json::Array(a.into_iter().map(json_of_value).collect()),
        serde_json::Value::Object(m) => Json::Object(
            m.into_iter().map(|(k, x)| (k, json_of_value(x))).collect(),
        ),
    }
}

/// Builds a `serde_json::Value` from a document, variant by variant, an
/// object by collecting its members into a `serde_json::Map`. Trusted: the
/// value holds a storable document as it stands. The map keeps one member
/// for each name and hands them out in ascending order of the names, which
/// in a storable document is the order of the document.
#[verifier::external_body]
fn value_of_json(j: &Json) -> (v: serde_json::Value)
    requires
        j@.storable(),
    ensures
        value_model(v) == j@,
{
    match j {
        Json::Null => serde_json::Value::Null,
        Json::Bool(b) => serde_json::Value::Bool(*b),
        Json::Number(n) => serde_json::from_str(n).unwrap_or(serde_json::Value::Null),
        Json::Text(s) => serde_json::Value::String(s.clone()),
        Json::Array(a) => serde_json::Value::Array(a.iter().map(value_of_json).collect()),
        Json::Object(m) => serde_json::Value::Object(
            m.iter().map(|(k, x)| (k.clone(), value_of_json(x))).collect(),
        ),
    }
}

/// Calls `serde_json::to_string` on a value. Trusted: the outcome, the
/// text written or an error, depends on the document alone.
#[verifier::external_body]
fn write_value(v: &serde_json::Value) -> (r: Result<String, serde_json::Error>)
    ensures
        json_text(value_model(*v)) == match r {
            Ok(s) => Some(s@),
            Err(_) => None::<Seq<char>>,
        },
{
    serde_json::to_string(v)
}

/// Calls `serde_json::to_string_pretty` on a value. Trusted: the outcome,
/// the text written or an error, depends on the document alone.
#[verifier::external_body]
fn write_value_pretty(v: &serde_json::Value) -> (r: Result<String, serde_json::Error>)
    ensures
        json_pretty_text(value_model(*v)) == match r {
            Ok(s) => Some(s@),
            Err(_) => None::<Seq<char>>,
        },
{
    serde_json::to_string_pretty(v)
}

/// Reads a JSON document from a text.
pub fn parse(text: &str) -> (r: Option<Json>)
    ensures
        r.is_some() == json_reading(text@).is_some(),
        r matches Some(j) ==> json_reading(text@) == Some(j@),
{
    match read_value(text) {
        Ok(v) => Some(json_of_value(v)),
        Err(_) => None,
    }
}

/// Writes a storable document as compact JSON text: the text that
/// `serde_json` writes for it, and `None` exactly where `serde_json` reports
/// an error.
pub(crate) fn render(j: &Json) -> (r: Option<String>)
    requires
        j@.storable(),
    ensures
        match r {
            Some(s) => json_text(j@) == Some(s@),
            None => json_text(j@).is_none(),
        },
{
    let v = value_of_json(j);
    match write_value(&v) {
        Ok(s) => Some(s),
        Err(_) => None,
    }
}

/// Writes a storable document as indented JSON text: the text that
/// `serde_json` writes for it, and `None` exactly where `serde_json` reports
/// an error.
pub(crate) fn render_pretty(j: &Json) -> (r: Option<String>)
    requires
        j@.storable(),
    ensures
        match r {
            Some(s) => json_pretty_text(j@) == Some(s@),
            None => json_pretty_text(j@).is_none(),
        },
{
    let v = value_of_json(j);
    match write_value_pretty(&v) {
        Ok(s) => Some(s),
        Err(_) => None,
    }
}

} // verus!
