//! JSON documents, read and written by the `serde_json` crate.

use serde_json::{from_str, to_string_pretty, Value};
use vstd::prelude::*;

use crate::accumulator::pairs_view;

verus! {

/// The error with which `serde_json` rejects a text.
#[verifier::external_type_specification]
#[verifier::external_body]
pub struct ExJsonError(serde_json::Error);

/// One level of a JSON document: what the document is, with the items of
/// an array and the values of an object each still in its JSON text.
#[derive(Debug, PartialEq, Eq)]
pub enum JsonLevel {
    /// The value `null`.
    Null,
    /// A truth value.
    Bool(bool),
    /// A number, in the digits in which `serde_json` writes it.
    Number(String),
    /// A text.
    Text(String),
    /// An array: the JSON text of every item.
    List(Vec<String>),
    /// An object: the name and the JSON text of every member.
    Object(Vec<(String, String)>),
}

/// One level of a JSON document as a value.
pub enum LevelModel {
    Null,
    Bool(bool),
    Number(Seq<char>),
    Text(Seq<char>),
    List(Seq<Seq<char>>),
    Object(Seq<(Seq<char>, Seq<char>)>),
}

/// The texts of a list, each as its characters.
pub open spec fn texts_view(texts: Seq<String>) -> Seq<Seq<char>> {
    Seq::new(texts.len(), |i: int| texts[i]@)
}

impl View for JsonLevel {
    type V = LevelModel;

    open spec fn view(&self) -> LevelModel {
        match self {
            JsonLevel::Null => LevelModel::Null,
            JsonLevel::Bool(b) => LevelModel::Bool(*b),
            JsonLevel::Number(n) => LevelModel::Number(n@),
            JsonLevel::Text(s) => LevelModel::Text(s@),
            JsonLevel::List(items) => LevelModel::List(texts_view(items@)),
            JsonLevel::Object(members) => LevelModel::Object(pairs_view(members@)),
        }
    }
}

/// Why a text is no JSON document.
#[derive(Debug)]
pub enum JsonError {
    /// `serde_json` rejects the text.
    Syntax {
        /// The error of the `serde_json` crate.
        error: serde_json::Error,
    },
    /// The document is nested more deeply than `MAX_DEPTH`.
    Depth,
}

/// How deeply the arrays and objects of a document may be nested. The
/// limit lies above the one that `serde_json` itself sets.
pub const MAX_DEPTH: usize = 256;

/// A JSON document.
#[derive(Debug, PartialEq, Eq)]
pub enum Json {
    /// The value `null`.
    Null,
    /// A truth value.
    Bool(bool),
    /// A number, in the digits in which `serde_json` writes it.
    Number(String),
    /// A text.
    Text(String),
    /// An array.
    List(Vec<Json>),
    /// An object: its members in the order in which `serde_json` hands
    /// them out.
    Object(Vec<(String, Json)>),
}

/// A JSON document as a value: every text taken as its characters, every
/// array and object as a sequence.
pub enum JsonModel {
    Null,
    Bool(bool),
    Number(Seq<char>),
    Text(Seq<char>),
    List(Seq<JsonModel>),
    Object(Seq<(Seq<char>, JsonModel)>),
}

impl Json {
    /// The document as a value.
    pub open spec fn model(self) -> JsonModel
        decreases self,
    {
        match self {
            Json::Null => JsonModel::Null,
            Json::Bool(b) => JsonModel::Bool(b),
            Json::Number(n) => JsonModel::Number(n@),
            Json::Text(s) => JsonModel::Text(s@),
            Json::List(items) => JsonModel::List(
                Seq::new(
                    items@.len(),
                    |i: int|
                        if 0 <= i < items@.len() {
                            items@[i].model()
                        } else {
                            JsonModel::Null
                        },
                ),
            ),
            Json::Object(members) => JsonModel::Object(
                Seq::new(
                    members@.len(),
                    |i: int|
                        if 0 <= i < members@.len() {
                            (members@[i].0@, members@[i].1.model())
                        } else {
                            (Seq::empty(), JsonModel::Null)
                        },
                ),
            ),
        }
    }
}

impl View for Json {
    type V = JsonModel;

    open spec fn view(&self) -> JsonModel {
        self.model()
    }
}

/// The members of an object, each as a value.
pub open spec fn members_view(members: Seq<(String, Json)>) -> Seq<(Seq<char>, JsonModel)> {
    Seq::new(members.len(), |i: int| (members[i].0@, members[i].1@))
}

/// The items of an array, each as a value.
pub open spec fn items_view(items: Seq<Json>) -> Seq<JsonModel> {
    Seq::new(items.len(), |i: int| items[i]@)
}

/// The top level of the document that `serde_json` reads from a text, or
/// `None` for a text that it rejects.
pub uninterp spec fn json_level(text: Seq<char>) -> Option<LevelModel>;

/// The indented text that `serde_json` writes for a document of which one
/// level is given, or `None` where one of the texts in it is rejected.
pub uninterp spec fn level_text(level: LevelModel) -> Option<Seq<char>>;

/// The document that a text holds, down to a depth; `None` for a text that
/// `serde_json` rejects, and for a document that is nested more deeply.
pub open spec fn document(text: Seq<char>, depth: nat) -> Option<JsonModel>
    decreases depth, 0nat,
{
    if depth == 0 {
        None
    } else {
        match json_level(text) {
            None => None,
            Some(LevelModel::Null) => Some(JsonModel::Null),
            Some(LevelModel::Bool(b)) => Some(JsonModel::Bool(b)),
            Some(LevelModel::Number(n)) => Some(JsonModel::Number(n)),
            Some(LevelModel::Text(s)) => Some(JsonModel::Text(s)),
            Some(LevelModel::List(items)) => match documents(items, (depth - 1) as nat) {
                Some(docs) => Some(JsonModel::List(docs)),
                None => None,
            },
            Some(LevelModel::Object(members)) => match member_documents(
                members,
                (depth - 1) as nat,
            ) {
                Some(docs) => Some(JsonModel::Object(docs)),
                None => None,
            },
        }
    }
}

/// The documents that the texts of a list hold, down to a depth; `None` if
/// one of them holds none.
pub open spec fn documents(texts: Seq<Seq<char>>, depth: nat) -> Option<Seq<JsonModel>>
    decreases depth, texts.len() + 1,
{
    if texts.len() == 0 {
        Some(Seq::empty())
    } else {
        match (documents(texts.drop_last(), depth), document(texts.last(), depth)) {
            (Some(front), Some(last)) => Some(front.push(last)),
            _ => None,
        }
    }
}

/// The documents that the texts of a list of members hold, down to a
/// depth; `None` if one of them holds none.
pub open spec fn member_documents(members: Seq<(Seq<char>, Seq<char>)>, depth: nat) -> Option<
    Seq<(Seq<char>, JsonModel)>,
>
    decreases depth, members.len() + 1,
{
    if members.len() == 0 {
        Some(Seq::empty())
    } else {
        match (
            member_documents(members.drop_last(), depth),
            document(members.last().1, depth),
        ) {
            (Some(front), Some(last)) => Some(front.push((members.last().0, last))),
            _ => None,
        }
    }
}

/// The document that a text holds; `None` for a text that holds none.
pub open spec fn json_document(text: Seq<char>) -> Option<JsonModel> {
    document(text, MAX_DEPTH as nat)
}

/// Whether every item of a list is there.
pub open spec fn all_some<T>(items: Seq<Option<T>>) -> bool {
    forall|i: int| 0 <= i < items.len() ==> (#[trigger] items[i]) is Some
}

/// The indented text of every item of a list, where it has one.
pub open spec fn item_texts(items: Seq<JsonModel>) -> Seq<Option<Seq<char>>>
    decreases items,
{
    Seq::new(
        items.len(),
        |i: int|
            if 0 <= i < items.len() {
                json_text(items[i])
            } else {
                None
            },
    )
}

/// The indented text of the value of every member of a list, where it has
/// one.
pub open spec fn member_texts(members: Seq<(Seq<char>, JsonModel)>) -> Seq<Option<Seq<char>>>
    decreases members,
{
    Seq::new(
        members.len(),
        |i: int|
            if 0 <= i < members.len() {
                json_text(members[i].1)
            } else {
                None
            },
    )
}

/// The indented text of a document; `None` for a document that has none,
/// which is one with a number whose digits `serde_json` rejects.
pub open spec fn json_text(doc: JsonModel) -> Option<Seq<char>>
    decreases doc,
{
    match doc {
        JsonModel::Null => level_text(LevelModel::Null),
        JsonModel::Bool(b) => level_text(LevelModel::Bool(b)),
        JsonModel::Number(n) => level_text(LevelModel::Number(n)),
        JsonModel::Text(s) => level_text(LevelModel::Text(s)),
        JsonModel::List(items) => {
            let texts = item_texts(items);
            if all_some(texts) {
                level_text(LevelModel::List(Seq::new(items.len(), |i: int| texts[i].unwrap())))
            } else {
                None
            }
        },
        JsonModel::Object(members) => {
            let texts = member_texts(members);
            if all_some(texts) {
                level_text(
                    LevelModel::Object(
                        Seq::new(members.len(), |i: int| (members[i].0, texts[i].unwrap())),
                    ),
                )
            } else {
                None
            }
        },
    }
}

/// `serde_json::from_str` for a `Value`, taken apart one level: a scalar
/// moves over, a number written out in its digits; of an array every item,
/// of an object every member's value is written as JSON text by `Display`
/// of `Value`. A text is rejected exactly where `json_level` has no value
/// for it; else the level is the one that `json_level` names.
#[verifier::external_body]
fn open_json(text: &str) -> (r: Result<JsonLevel, serde_json::Error>)
    ensures
        match r {
            Ok(level) => json_level(text@) == Some(level@),
            Err(_) => json_level(text@) is None,
        },
{
    Ok(
        match from_str::<Value>(text)? {
            Value::Null => JsonLevel::Null,
            Value::Bool(b) => JsonLevel::Bool(b),
            Value::Number(n) => JsonLevel::Number(n.to_string()),
            Value::String(s) => JsonLevel::Text(s),
            Value::Array(items) => JsonLevel::List(items.iter().map(Value::to_string).collect()),
            Value::Object(members) => JsonLevel::Object(
                members.iter().map(|(name, v)| (name.clone(), v.to_string())).collect(),
            ),
        },
    )
}

/// `serde_json::to_string_pretty` on the `Value` that is put together from
/// one level: the digits of a number, every item of an array and every
/// member's value of an object are read by `serde_json::from_str`. The
/// result is `None` exactly where `level_text` has no value for the level,
/// which is where one of these is rejected; else the text is the one that
/// `level_text` names.
#[verifier::external_body]
fn close_json(level: &JsonLevel) -> (r: Option<String>)
    ensures
        match r {
            Some(text) => level_text(level@) == Some(text@),
            None => level_text(level@) is None,
        },
{
    let value = match level {
        JsonLevel::Null => Value::Null,
        JsonLevel::Bool(b) => Value::Bool(*b),
        JsonLevel::Number(n) => Value::Number(from_str(n).ok()?),
        JsonLevel::Text(s) => Value::String(s.clone()),
        JsonLevel::List(items) => items.iter().map(|t| from_str::<Value>(t).ok()).collect::<
            Option<Value>,
        >()?,
        JsonLevel::Object(members) => members.iter().map(
            |(name, t)| Some((name.clone(), from_str::<Value>(t).ok()?)),
        ).collect::<Option<Value>>()?,
    };
    to_string_pretty(&value).ok()
}

/// The value of an object is the sequence of its members' values.
pub proof fn lemma_object_view(members: Vec<(String, Json)>)
    ensures
        Json::Object(members)@ == JsonModel::Object(members_view(members@)),
{
    let doc = Json::Object(members);
    let seen = doc@->Object_0;
    let expected = members_view(members@);
    assert(seen.len() == expected.len());
    assert forall|i: int| 0 <= i < seen.len() implies seen[i] == expected[i] by {
        assert(seen[i].0 == members@[i].0@);
        assert(seen[i].1 == members@[i].1@);
    }
    assert(seen =~= expected);
}

/// The value of an array is the sequence of its items' values.
pub proof fn lemma_list_view(items: Vec<Json>)
    ensures
        Json::List(items)@ == JsonModel::List(items_view(items@)),
{
    let doc = Json::List(items);
    assert(doc@->List_0 =~= items_view(items@));
}

/// The value of the first member with the given name.
pub open spec fn member_of(members: Seq<(Seq<char>, JsonModel)>, name: Seq<char>) -> Option<
    JsonModel,
>
    decreases members.len(),
{
    if members.len() == 0 {
        None
    } else if members[0].0 == name {
        Some(members[0].1)
    } else {
        member_of(members.skip(1), name)
    }
}

impl JsonModel {
    /// The member of an object with the given name: the first one, if the
    /// object has several. `None` for what is no object, or has no such
    /// member.
    pub open spec fn get(self, name: Seq<char>) -> Option<JsonModel> {
        match self {
            JsonModel::Object(members) => member_of(members, name),
            _ => None,
        }
    }

    /// The characters of a text; `None` for what is no text.
    pub open spec fn text(self) -> Option<Seq<char>> {
        match self {
            JsonModel::Text(s) => Some(s),
            _ => None,
        }
    }
}

/// The text of the member of an object with the given name; `None` where
/// there is no such member or it is no text.
pub open spec fn text_member(doc: JsonModel, name: Seq<char>) -> Option<Seq<char>> {
    match doc.get(name) {
        Some(value) => value.text(),
        None => None,
    }
}

/// The first member with a name is the one that `member_of` finds.
pub proof fn lemma_member_first(members: Seq<(Seq<char>, JsonModel)>, name: Seq<char>, i: int)
    requires
        0 <= i < members.len(),
        members[i].0 == name,
        forall|j: int| 0 <= j < i ==> (#[trigger] members[j]).0 != name,
    ensures
        member_of(members, name) == Some(members[i].1),
    decreases i,
{
    if i > 0 {
        let rest = members.skip(1);
        assert(members[0].0 != name);
        assert forall|j: int| 0 <= j < i - 1 implies (#[trigger] rest[j]).0 != name by {
            assert(members[j + 1].0 != name);
        }
        lemma_member_first(rest, name, i - 1);
    }
}

/// Where no member has a name, `member_of` finds none.
pub proof fn lemma_member_none(members: Seq<(Seq<char>, JsonModel)>, name: Seq<char>)
    requires
        forall|j: int| 0 <= j < members.len() ==> (#[trigger] members[j]).0 != name,
    ensures
        member_of(members, name) is None,
    decreases members.len(),
{
    if members.len() > 0 {
        let rest = members.skip(1);
        assert(members[0].0 != name);
        assert forall|j: int| 0 <= j < rest.len() implies (#[trigger] rest[j]).0 != name by {
            assert(members[j + 1].0 != name);
        }
        lemma_member_none(rest, name);
    }
}

impl Json {
    /// Reads a document from its text. It is read exactly if the text
    /// holds a document.
    pub fn parse(text: &str) -> (r: Result<Json, JsonError>)
        ensures
            match r {
                Ok(doc) => json_document(text@) == Some(doc@),
                Err(_) => json_document(text@) is None,
            },
    {
        parse_within(text, MAX_DEPTH)
    }

    /// Writes the document as indented text, if it has one.
    pub fn render(&self) -> (r: Option<String>)
        ensures
            match r {
                Some(text) => json_text(self@) == Some(text@),
                None => json_text(self@) is None,
            },
        decreases self,
    {
        match self {
            Json::Null => close_json(&JsonLevel::Null),
            Json::Bool(b) => close_json(&JsonLevel::Bool(*b)),
            Json::Number(n) => close_json(&JsonLevel::Number(n.clone())),
            Json::Text(s) => close_json(&JsonLevel::Text(s.clone())),
            Json::List(items) => {
                proof {
                    lemma_list_view(*items);
                }
                let ghost docs = items_view(items@);
                let ghost found = item_texts(docs);
                let mut texts: Vec<String> = Vec::new();
                let mut i: usize = 0;
                while i < items.len()
                    invariant
                        i <= items@.len(),
                        *self == Json::List(*items),
                        self@ == JsonModel::List(docs),
                        docs == items_view(items@),
                        found == item_texts(docs),
                        texts@.len() == i,
                        forall|j: int| 0 <= j < i ==> found[j] == Some(texts@[j]@),
                    decreases items@.len() - i,
                {
                    match items[i].render() {
                        Some(text) => {
                            texts.push(text);
                        },
                        None => {
                            assert(found[i as int] is None);
                            assert(!all_some(found));
                            return None;
                        },
                    }
                    i += 1;
                }
                let level = JsonLevel::List(texts);
                proof {
                    assert(all_some(found));
                    assert(Seq::new(docs.len(), |i: int| found[i].unwrap()) =~= texts_view(texts@));
                }
                close_json(&level)
            },
            Json::Object(members) => {
                proof {
                    lemma_object_view(*members);
                }
                let ghost docs = members_view(members@);
                let ghost found = member_texts(docs);
                let mut texts: Vec<(String, String)> = Vec::new();
                let mut i: usize = 0;
                while i < members.len()
                    invariant
                        i <= members@.len(),
                        *self == Json::Object(*members),
                        self@ == JsonModel::Object(docs),
                        docs == members_view(members@),
                        found == member_texts(docs),
                        texts@.len() == i,
                        forall|j: int|
                            0 <= j < i ==> found[j] == Some(texts@[j].1@) && texts@[j].0@
                                == docs[j].0,
                    decreases members@.len() - i,
                {
                    match members[i].1.render() {
                        Some(text) => {
                            texts.push((members[i].0.clone(), text));
                        },
                        None => {
                            assert(found[i as int] is None);
                            assert(!all_some(found));
                            return None;
                        },
                    }
                    i += 1;
                }
                let level = JsonLevel::Object(texts);
                proof {
                    assert(all_some(found));
                    assert(Seq::new(docs.len(), |i: int| (docs[i].0, found[i].unwrap()))
                        =~= pairs_view(texts@));
                }
                close_json(&level)
            },
        }
    }

    /// The member of an object with the given name: the first one, if the
    /// object has several.
    pub fn member(&self, name: &str) -> (r: Option<&Json>)
        ensures
            match r {
                Some(value) => self@.get(name@) == Some(value@),
                None => self@.get(name@) is None,
            },
    {
        match self {
            Json::Object(members) => {
                proof {
                    lemma_object_view(*members);
                }
                let ghost all = members_view(members@);
                let mut i: usize = 0;
                while i < members.len()
                    invariant
                        i <= members@.len(),
                        all == members_view(members@),
                        self@.get(name@) == member_of(all, name@),
                        forall|j: int| 0 <= j < i ==> (#[trigger] all[j]).0 != name@,
                    decreases members@.len() - i,
                {
                    if members[i].0.as_str().eq(name) {
                        proof {
                            lemma_member_first(all, name@, i as int);
                        }
                        return Some(&members[i].1);
                    }
                    assert(all[i as int].0 != name@);
                    i += 1;
                }
                proof {
                    lemma_member_none(all, name@);
                }
                None
            },
            _ => None,
        }
    }

    /// Takes the member with the given name out of an object: the first
    /// one, if the object has several.
    pub fn take_member(self, name: &str) -> (r: Option<Json>)
        ensures
            match r {
                Some(value) => self@.get(name@) == Some(value@),
                None => self@.get(name@) is None,
            },
    {
        match self {
            Json::Object(members) => {
                proof {
                    lemma_object_view(members);
                }
                let ghost all = members_view(members@);
                for member in it: members.into_iter()
                    invariant
                        all == members_view(it.seq()),
                        self@.get(name@) == member_of(all, name@),
                        forall|j: int| 0 <= j < it.index() ==> (#[trigger] all[j]).0 != name@,
                {
                    if member.0.as_str().eq(name) {
                        proof {
                            lemma_member_first(all, name@, it.index() as int);
                        }
                        return Some(member.1);
                    }
                    assert(all[it.index() as int].0 != name@);
                }
                proof {
                    lemma_member_none(all, name@);
                }
                None
            },
            _ => None,
        }
    }

    /// The text, if the document is one.
    pub fn as_text(&self) -> (r: Option<&String>)
        ensures
            match r {
                Some(s) => self@.text() == Some(s@),
                None => self@.text() is None,
            },
    {
        match self {
            Json::Text(s) => Some(s),
            _ => None,
        }
    }

    /// The truth value, if the document is one.
    pub fn as_bool(&self) -> (r: Option<bool>)
        ensures
            match r {
                Some(b) => self@ == JsonModel::Bool(b),
                None => !(self@ is Bool),
            },
    {
        match self {
            Json::Bool(b) => Some(*b),
            _ => None,
        }
    }
}

/// A list with a text that holds no document holds no documents.
proof fn lemma_documents_none(texts: Seq<Seq<char>>, depth: nat, i: int)
    requires
        0 <= i < texts.len(),
        document(texts[i], depth) is None,
    ensures
        documents(texts, depth) is None,
    decreases texts.len(),
{
    if i < texts.len() - 1 {
        lemma_documents_none(texts.drop_last(), depth, i);
    }
}

/// A list of members with a text that holds no document holds no
/// documents.
proof fn lemma_member_documents_none(members: Seq<(Seq<char>, Seq<char>)>, depth: nat, i: int)
    requires
        0 <= i < members.len(),
        document(members[i].1, depth) is None,
    ensures
        member_documents(members, depth) is None,
    decreases members.len(),
{
    if i < members.len() - 1 {
        lemma_member_documents_none(members.drop_last(), depth, i);
    }
}

/// Reads a document from its text, down to a depth.
fn parse_within(text: &str, depth: usize) -> (r: Result<Json, JsonError>)
    ensures
        match r {
            Ok(doc) => document(text@, depth as nat) == Some(doc@),
            Err(_) => document(text@, depth as nat) is None,
        },
    decreases depth,
{
    if depth == 0 {
        return Err(JsonError::Depth);
    }
    let level = match open_json(text) {
        Ok(level) => level,
        Err(error) => {
            return Err(JsonError::Syntax { error });
        },
    };
    match level {
        JsonLevel::Null => Ok(Json::Null),
        JsonLevel::Bool(b) => Ok(Json::Bool(b)),
        JsonLevel::Number(n) => Ok(Json::Number(n)),
        JsonLevel::Text(s) => Ok(Json::Text(s)),
        JsonLevel::List(texts) => {
            let ghost all = texts_view(texts@);
            let mut items: Vec<Json> = Vec::new();
            let mut i: usize = 0;
            while i < texts.len()
                invariant
                    i <= texts@.len(),
                    depth > 0,
                    all == texts_view(texts@),
                    json_level(text@) == Some(LevelModel::List(all)),
                    documents(all.take(i as int), (depth - 1) as nat) == Some(items_view(items@)),
                decreases texts@.len() - i,
            {
                proof {
                    assert(all.take(i + 1).drop_last() =~= all.take(i as int));
                    assert(all.take(i + 1).last() == all[i as int]);
                }
                match parse_within(texts[i].as_str(), depth - 1) {
                    Ok(item) => {
                        let ghost before = items_view(items@);
                        items.push(item);
                        assert(items_view(items@) =~= before.push(item@));
                    },
                    Err(error) => {
                        proof {
                            lemma_documents_none(all, (depth - 1) as nat, i as int);
                        }
                        return Err(error);
                    },
                }
                i += 1;
            }
            proof {
                assert(all.take(i as int) =~= all);
                lemma_list_view(items);
            }
            Ok(Json::List(items))
        },
        JsonLevel::Object(texts) => {
            let ghost all = pairs_view(texts@);
            let mut members: Vec<(String, Json)> = Vec::new();
            let mut i: usize = 0;
            while i < texts.len()
                invariant
                    i <= texts@.len(),
                    depth > 0,
                    all == pairs_view(texts@),
                    json_level(text@) == Some(LevelModel::Object(all)),
                    member_documents(all.take(i as int), (depth - 1) as nat) == Some(
                        members_view(members@),
                    ),
                decreases texts@.len() - i,
            {
                proof {
                    assert(all.take(i + 1).drop_last() =~= all.take(i as int));
                    assert(all.take(i + 1).last() == all[i as int]);
                }
                match parse_within(texts[i].1.as_str(), depth - 1) {
                    Ok(value) => {
                        let ghost before = members_view(members@);
                        let name = texts[i].0.clone();
                        members.push((name, value));
                        assert(members_view(members@) =~= before.push((name@, value@)));
                    },
                    Err(error) => {
                        proof {
                            lemma_member_documents_none(all, (depth - 1) as nat, i as int);
                        }
                        return Err(error);
                    },
                }
                i += 1;
            }
            proof {
                assert(all.take(i as int) =~= all);
                lemma_object_view(members);
            }
            Ok(Json::Object(members))
        },
    }
}

/// The text of a member of an object.
pub fn text_field(doc: &Json, name: &str) -> (r: Option<String>)
    ensures
        match r {
            Some(s) => text_member(doc@, name@) == Some(s@),
            None => text_member(doc@, name@) is None,
        },
{
    match doc.member(name) {
        Some(value) => match value.as_text() {
            Some(s) => Some(s.clone()),
            None => None,
        },
        None => None,
    }
}

} // verus!
