//! JSON documents as the flow client reads and writes them.
//!
//! [`Json`] is the document held in memory and [`JsonValue`] its mathematical
//! model. An object is a list of entries; a key is looked up from the front,
//! so the first entry with a key is the one that counts.

use vstd::prelude::*;

verus! {

/// `serde_json::Value`, carried as an opaque value: what it holds is
/// known only through `document`.
#[verifier::external_type_specification]
#[verifier::external_body]
pub struct ExValue(serde_json::Value);

/// The model of a JSON document.
pub enum JsonValue {
    Null,
    Bool(bool),
    /// A number, by its decimal text.
    Number(Seq<char>),
    Text(Seq<char>),
    Array(Seq<JsonValue>),
    Object(Seq<(Seq<char>, JsonValue)>),
}

/// A JSON document.
#[derive(Debug, PartialEq)]
pub enum Json {
    Null,
    Bool(bool),
    /// A number, by its decimal text.
    Number(String),
    Text(String),
    Array(Vec<Json>),
    Object(Vec<Member>),
}

/// One entry of an object.
#[derive(Debug, PartialEq)]
pub struct Member {
    pub key: String,
    pub value: Json,
}

/// One level of a `serde_json::Value`: its variant, with the values below it
/// still unopened.
enum Node {
    Null,
    Bool(bool),
    Number(String),
    Text(String),
    Array(Vec<serde_json::Value>),
    Object(Vec<(String, serde_json::Value)>),
}

/// The document that a `serde_json::Value` holds.
pub uninterp spec fn document(v: serde_json::Value) -> JsonValue;

/// What `serde_json::from_str` makes of a text: the document it reads, or the
/// message of the error it reports.
pub uninterp spec fn json_document(text: Seq<char>) -> Result<JsonValue, Seq<char>>;

/// The model of what reading a JSON text came to.
pub open spec fn parsed_view(parsed: Result<Json, String>) -> Result<JsonValue, Seq<char>> {
    match parsed {
        Ok(document) => Ok(document@),
        Err(message) => Err(message@),
    }
}

/// The index of the first entry at or after `from` whose key is `key`.
pub open spec fn key_index_from(
    entries: Seq<(Seq<char>, JsonValue)>,
    key: Seq<char>,
    from: int,
) -> Option<int>
    decreases entries.len() - from,
{
    if from < 0 || from >= entries.len() {
        None
    } else if entries[from].0 == key {
        Some(from)
    } else {
        key_index_from(entries, key, from + 1)
    }
}

/// The index of the first entry whose key is `key`.
pub open spec fn key_index(entries: Seq<(Seq<char>, JsonValue)>, key: Seq<char>) -> Option<int> {
    key_index_from(entries, key, 0)
}

/// The entries with `key` bound to `value`: in place of the first entry with
/// that key, or at the end where there is none.
pub open spec fn put_entry(
    entries: Seq<(Seq<char>, JsonValue)>,
    key: Seq<char>,
    value: JsonValue,
) -> Seq<(Seq<char>, JsonValue)> {
    match key_index(entries, key) {
        Some(i) => entries.update(i, (key, value)),
        None => entries.push((key, value)),
    }
}

/// The models of a list of documents.
pub open spec fn models(items: Seq<Json>) -> Seq<JsonValue> {
    Seq::new(items.len(), |i: int| items[i]@)
}

/// The models of a list of entries.
pub open spec fn entry_models(entries: Seq<Member>) -> Seq<(Seq<char>, JsonValue)> {
    Seq::new(entries.len(), |i: int| (entries[i].key@, entries[i].value@))
}

impl JsonValue {
    /// The value bound to `key`, where this is an object that has the key.
    pub open spec fn member(self, key: Seq<char>) -> Option<JsonValue> {
        match self {
            JsonValue::Object(entries) => match key_index(entries, key) {
                Some(i) => Some(entries[i].1),
                None => None,
            },
            _ => None,
        }
    }

    /// The value bound to `key`, or `Null` where there is none.
    pub open spec fn field(self, key: Seq<char>) -> JsonValue {
        match self.member(key) {
            Some(v) => v,
            None => JsonValue::Null,
        }
    }

    /// The text, where this is a text.
    pub open spec fn as_text(self) -> Option<Seq<char>> {
        match self {
            JsonValue::Text(t) => Some(t),
            _ => None,
        }
    }

    /// The truth value, where this is one.
    pub open spec fn as_bool(self) -> Option<bool> {
        match self {
            JsonValue::Bool(b) => Some(b),
            _ => None,
        }
    }

    /// The items, where this is an array.
    pub open spec fn as_items(self) -> Option<Seq<JsonValue>> {
        match self {
            JsonValue::Array(items) => Some(items),
            _ => None,
        }
    }

    /// This object with `key` bound to `value`; anything but an object is
    /// left as it is.
    pub open spec fn put(self, key: Seq<char>, value: JsonValue) -> JsonValue {
        match self {
            JsonValue::Object(entries) => JsonValue::Object(put_entry(entries, key, value)),
            other => other,
        }
    }
}

impl View for Json {
    type V = JsonValue;

    open spec fn view(&self) -> JsonValue
        decreases self,
    {
        match self {
            Json::Null => JsonValue::Null,
            Json::Bool(b) => JsonValue::Bool(*b),
            Json::Number(n) => JsonValue::Number(n@),
            Json::Text(t) => JsonValue::Text(t@),
            Json::Array(items) => JsonValue::Array(
                Seq::new(
                    items@.len(),
                    |i: int|
                        if 0 <= i < items@.len() {
                            items@[i]@
                        } else {
                            JsonValue::Null
                        },
                ),
            ),
            Json::Object(entries) => JsonValue::Object(
                Seq::new(
                    entries@.len(),
                    |i: int|
                        (
                            entries@[i].key@,
                            if 0 <= i < entries@.len() {
                                entries@[i].value@
                            } else {
                                JsonValue::Null
                            },
                        ),
                ),
            ),
        }
    }
}

/// The model of an array is the list of its items' models.
pub proof fn lemma_array_view(items: Vec<Json>)
    ensures
        Json::Array(items)@ == JsonValue::Array(models(items@)),
{
    assert(Json::Array(items)@->Array_0 =~= models(items@));
}

/// The model of an object is the list of its entries' models.
pub proof fn lemma_object_view(entries: Vec<Member>)
    ensures
        Json::Object(entries)@ == JsonValue::Object(entry_models(entries@)),
{
    assert(Json::Object(entries)@->Object_0 =~= entry_models(entries@));
}

/// The document that one opened level stands for.
spec fn node_document(node: Node) -> JsonValue {
    match node {
        Node::Null => JsonValue::Null,
        Node::Bool(b) => JsonValue::Bool(b),
        Node::Number(n) => JsonValue::Number(n@),
        Node::Text(t) => JsonValue::Text(t@),
        Node::Array(items) => JsonValue::Array(Seq::new(items@.len(), |i: int| document(items@[i]))),
        Node::Object(entries) => JsonValue::Object(
            Seq::new(entries@.len(), |i: int| (entries@[i].0@, document(entries@[i].1))),
        ),
    }
}

/// `serde_json::from_str` at the type `serde_json::Value`. The value read
/// holds the document that `json_document` names for this text; where the
/// text is refused, the result is the error's display text, which
/// `json_document` names too.
#[verifier::external_body]
fn parse_value(text: &str) -> (r: Result<serde_json::Value, String>)
    ensures
        match r {
            Ok(v) => json_document(text@) == Ok::<JsonValue, Seq<char>>(document(v)),
            Err(m) => json_document(text@) == Err::<JsonValue, Seq<char>>(m@),
        },
{
    match serde_json::from_str::<serde_json::Value>(text) {
        Ok(value) => Ok(value),
        Err(error) => Err(error.to_string()),
    }
}

/// Takes a `serde_json::Value` apart by one level: one arm for each of its
/// variants, a number as its display text, an object's entries in the order
/// in which its map walks them. The document of the value is made of the
/// documents of the values below it.
#[verifier::external_body]
fn open_value(v: serde_json::Value) -> (node: Node)
    ensures
        node_document(node) == document(v),
{
    match v {
        serde_json::Value::Null => Node::Null,
        serde_json::Value::Bool(b) => Node::Bool(b),
        serde_json::Value::Number(n) => Node::Number(n.to_string()),
        serde_json::Value::String(s) => Node::Text(s),
        serde_json::Value::Array(items) => Node::Array(items),
        serde_json::Value::Object(map) => Node::Object(map.into_iter().collect()),
    }
}

/// The index of the first entry whose key is `key`.
fn index_of_key(entries: &Vec<Member>, key: &str) -> (r: Option<usize>)
    ensures
        match r {
            Some(i) => i < entries.len() && key_index(entry_models(entries@), key@) == Some(
                i as int,
            ),
            None => key_index(entry_models(entries@), key@) is None,
        },
{
    let ghost ev = entry_models(entries@);
    let wanted = key.to_owned();
    let mut i: usize = 0;
    while i < entries.len()
        invariant
            i <= entries.len(),
            ev == entry_models(entries@),
            wanted@ == key@,
            key_index(ev, key@) == key_index_from(ev, key@, i as int),
        decreases entries.len() - i,
    {
        if entries[i].key == wanted {
            return Some(i);
        }
        i += 1;
    }
    None
}

impl Json {
    /// The text `s` as a document.
    pub fn text(s: &str) -> (out: Json)
        ensures
            out@ == JsonValue::Text(s@),
    {
        Json::Text(s.to_owned())
    }

    /// The empty object.
    pub fn object() -> (out: Json)
        ensures
            out@ == JsonValue::Object(Seq::empty()),
    {
        let entries: Vec<Member> = Vec::new();
        proof {
            lemma_object_view(entries);
            assert(entry_models(entries@) =~= Seq::empty());
        }
        Json::Object(entries)
    }

    /// The value bound to `key`, where this is an object that has the key.
    pub fn get<'a>(&'a self, key: &str) -> (r: Option<&'a Json>)
        ensures
            match r {
                Some(j) => self@.member(key@) == Some(j@),
                None => self@.member(key@) is None,
            },
    {
        match self {
            Json::Object(entries) => {
                proof {
                    lemma_object_view(*entries);
                }
                match index_of_key(entries, key) {
                    Some(i) => Some(&entries[i].value),
                    None => None,
                }
            },
            _ => None,
        }
    }

    /// The value found by looking up `outer` and then, in what it binds, `inner`.
    pub fn get_in<'a>(&'a self, outer: &str, inner: &str) -> (r: Option<&'a Json>)
        ensures
            match r {
                Some(j) => self@.field(outer@).member(inner@) == Some(j@),
                None => self@.field(outer@).member(inner@) is None,
            },
    {
        match self.get(outer) {
            Some(below) => below.get(inner),
            None => None,
        }
    }

    /// The text, where this is a text.
    pub fn as_str<'a>(&'a self) -> (r: Option<&'a str>)
        ensures
            match r {
                Some(t) => self@.as_text() == Some(t@),
                None => self@.as_text() is None,
            },
    {
        match self {
            Json::Text(t) => Some(t.as_str()),
            _ => None,
        }
    }

    /// The truth value, where this is one.
    pub fn as_bool(&self) -> (r: Option<bool>)
        ensures
            r == self@.as_bool(),
    {
        match self {
            Json::Bool(b) => Some(*b),
            _ => None,
        }
    }

    /// The items, where this is an array.
    pub fn as_array<'a>(&'a self) -> (r: Option<&'a Vec<Json>>)
        ensures
            match r {
                Some(items) => self@.as_items() == Some(models(items@)),
                None => self@.as_items() is None,
            },
    {
        match self {
            Json::Array(items) => {
                proof {
                    lemma_array_view(*items);
                }
                Some(items)
            },
            _ => None,
        }
    }

    /// The text bound to `key`, where this is an object that binds `key` to
    /// a text.
    pub fn text_at(&self, key: &str) -> (r: Option<String>)
        ensures
            match r {
                Some(t) => self@.field(key@).as_text() == Some(t@),
                None => self@.field(key@).as_text() is None,
            },
    {
        match self.get(key) {
            Some(v) => match v.as_str() {
                Some(t) => Some(t.to_owned()),
                None => None,
            },
            None => None,
        }
    }

    /// The text found under `outer` and then `inner`.
    pub fn text_in(&self, outer: &str, inner: &str) -> (r: Option<String>)
        ensures
            match r {
                Some(t) => self@.field(outer@).field(inner@).as_text() == Some(t@),
                None => self@.field(outer@).field(inner@).as_text() is None,
            },
    {
        match self.get_in(outer, inner) {
            Some(v) => match v.as_str() {
                Some(t) => Some(t.to_owned()),
                None => None,
            },
            None => None,
        }
    }

    /// A copy of this document.
    pub fn duplicate(&self) -> (out: Json)
        ensures
            out@ == self@,
        decreases self,
    {
        match self {
            Json::Null => Json::Null,
            Json::Bool(b) => Json::Bool(*b),
            Json::Number(n) => Json::Number(n.clone()),
            Json::Text(t) => Json::Text(t.clone()),
            Json::Array(items) => {
                let mut out: Vec<Json> = Vec::new();
                let mut i: usize = 0;
                while i < items.len()
                    invariant
                        i <= items.len(),
                        out.len() == i,
                        *self == Json::Array(*items),
                        forall|k: int| 0 <= k < i ==> out@[k]@ == items@[k]@,
                    decreases items.len() - i,
                {
                    assert(self->Array_0 == *items);
                    out.push(items[i].duplicate());
                    i += 1;
                }
                proof {
                    lemma_array_view(*items);
                    lemma_array_view(out);
                    assert(models(out@) =~= models(items@));
                }
                Json::Array(out)
            },
            Json::Object(entries) => {
                let mut out: Vec<Member> = Vec::new();
                let mut i: usize = 0;
                while i < entries.len()
                    invariant
                        i <= entries.len(),
                        out.len() == i,
                        *self == Json::Object(*entries),
                        forall|k: int|
                            0 <= k < i ==> out@[k].key@ == entries@[k].key@ && out@[k].value@
                                == entries@[k].value@,
                    decreases entries.len() - i,
                {
                    assert(self->Object_0 == *entries);
                    out.push(
                        Member { key: entries[i].key.clone(), value: entries[i].value.duplicate() },
                    );
                    i += 1;
                }
                proof {
                    lemma_object_view(*entries);
                    lemma_object_view(out);
                    assert(entry_models(out@) =~= entry_models(entries@));
                }
                Json::Object(out)
            },
        }
    }

    /// This object with `key` bound to `value`: in place of the first entry
    /// with that key, or at the end where there is none. Anything but an
    /// object is handed back as it is.
    pub fn with(self, key: &str, value: Json) -> (out: Json)
        ensures
            out@ == self@.put(key@, value@),
    {
        match self {
            Json::Object(entries) => {
                proof {
                    lemma_object_view(entries);
                }
                let ghost ev = entry_models(entries@);
                let found = index_of_key(&entries, key);
                let mut entries = entries;
                match found {
                    Some(i) => {
                        entries.set(i, Member { key: key.to_owned(), value });
                        proof {
                            lemma_object_view(entries);
                            assert(entry_models(entries@) =~= ev.update(i as int, (key@, value@)));
                        }
                    },
                    None => {
                        entries.push(Member { key: key.to_owned(), value });
                        proof {
                            lemma_object_view(entries);
                            assert(entry_models(entries@) =~= ev.push((key@, value@)));
                        }
                    },
                }
                Json::Object(entries)
            },
            other => other,
        }
    }

    /// The document that a `serde_json::Value` holds.
    pub fn from_value(v: serde_json::Value) -> (out: Json)
        ensures
            out@ == document(v),
        decreases document(v),
    {
        match open_value(v) {
            Node::Null => Json::Null,
            Node::Bool(b) => Json::Bool(b),
            Node::Number(n) => Json::Number(n),
            Node::Text(t) => Json::Text(t),
            Node::Array(items) => {
                let ghost below = items@;
                let mut out: Vec<Json> = Vec::new();
                for item in it: items
                    invariant
                        it.seq() == below,
                        out.len() == it.index(),
                        document(v) == JsonValue::Array(
                            Seq::new(below.len(), |i: int| document(below[i])),
                        ),
                        forall|k: int| 0 <= k < out.len() ==> out@[k]@ == document(below[k]),
                {
                    assert(document(v)->Array_0[it.index() as int] == document(item));
                    out.push(Json::from_value(item));
                }
                proof {
                    lemma_array_view(out);
                    assert(models(out@) =~= Seq::new(below.len(), |i: int| document(below[i])));
                }
                Json::Array(out)
            },
            Node::Object(entries) => {
                let ghost below = entries@;
                let mut out: Vec<Member> = Vec::new();
                for entry in it: entries
                    invariant
                        it.seq() == below,
                        out.len() == it.index(),
                        document(v) == JsonValue::Object(
                            Seq::new(below.len(), |i: int| (below[i].0@, document(below[i].1))),
                        ),
                        forall|k: int|
                            0 <= k < out.len() ==> out@[k].key@ == below[k].0@ && out@[k].value@
                                == document(below[k].1),
                {
                    assert(document(v)->Object_0[it.index() as int].1 == document(entry.1));
                    let (key, value) = entry;
                    out.push(Member { key, value: Json::from_value(value) });
                }
                proof {
                    lemma_object_view(out);
                    assert(entry_models(out@) =~= Seq::new(
                        below.len(),
                        |i: int| (below[i].0@, document(below[i].1)),
                    ));
                }
                Json::Object(out)
            },
        }
    }

    /// Reads a JSON text: the document, or the message of serde_json's error.
    pub fn parse(text: &str) -> (r: Result<Json, String>)
        ensures
            parsed_view(r) == json_document(text@),
    {
        match parse_value(text) {
            Ok(v) => Ok(Json::from_value(v)),
            Err(m) => Err(m),
        }
    }
}

} // verus!
