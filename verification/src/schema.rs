//! The wire schema of the data service: which JSON trees are answers, and
//! which answer each of them is.
//!
//! A record is a JSON object that holds every field of the record under its
//! wire name with a value of the field's type. Members under other names are
//! passed over. A list is a JSON array whose items all decode.

use vstd::prelude::*;
use vstd::string::*;
use crate::json::{
    Json, JsonValue, entry, find, int_at, int_member, item_values, items_at, items_member,
    json_parse, json_print, lemma_array_value, lemma_member_at, lemma_object_value, member,
    member_values, parse, print, text_at, text_member,
};
use crate::model::{
    APIResponse, APIResponseView, Aura, AuraView, Content, ContentView, Suitability,
    SuitabilityView, content_views, suitability_views, texts,
};

verus! {

/// The aura that a tree holds: an object with the texts `name` and
/// `description`.
pub open spec fn aura_of(v: JsonValue) -> Option<AuraView> {
    match v {
        JsonValue::Object(m) => match (text_at(m, "name"@), text_at(m, "description"@)) {
            (Some(name), Some(description)) => Some(AuraView { name, description }),
            _ => None,
        },
        _ => None,
    }
}

/// The suitability that a tree holds: an object with the text `type` and the
/// integer `level`.
pub open spec fn suitability_of(v: JsonValue) -> Option<SuitabilityView> {
    match v {
        JsonValue::Object(m) => match (text_at(m, "type"@), int_at(m, "level"@)) {
            (Some(type_field), Some(level)) => Some(SuitabilityView { type_field, level }),
            _ => None,
        },
        _ => None,
    }
}

/// The texts that a list of trees holds: every item is a string.
pub open spec fn texts_of(items: Seq<JsonValue>) -> Option<Seq<Seq<char>>> {
    if forall|i: int| 0 <= i < items.len() ==> items[i] is Str {
        Some(items.map_values(|v: JsonValue| v->Str_0))
    } else {
        None
    }
}

/// The suitabilities that a list of trees holds: every item is one.
pub open spec fn suitabilities_of(items: Seq<JsonValue>) -> Option<Seq<SuitabilityView>> {
    if forall|i: int| 0 <= i < items.len() ==> suitability_of(#[trigger] items[i]) is Some {
        Some(items.map_values(|v: JsonValue| suitability_of(v)->0))
    } else {
        None
    }
}

impl Aura {
    /// Reads an aura from a tree; `None` where the tree holds none.
    pub fn from_json(j: &Json) -> (r: Option<Aura>)
        ensures
            r matches Some(a) ==> aura_of(j@) == Some(a@),
            r is None ==> aura_of(j@) is None,
    {
        match j {
            Json::Object(members) => {
                proof {
                    lemma_object_value(*members);
                }
                let name = text_member(members, "name");
                let description = text_member(members, "description");
                match (name, description) {
                    (Some(name), Some(description)) => Some(Aura { name, description }),
                    _ => None,
                }
            },
            _ => None,
        }
    }
}

impl Suitability {
    /// Reads a suitability from a tree; `None` where the tree holds none.
    pub fn from_json(j: &Json) -> (r: Option<Suitability>)
        ensures
            r matches Some(s) ==> suitability_of(j@) == Some(s@),
            r is None ==> suitability_of(j@) is None,
    {
        match j {
            Json::Object(members) => {
                proof {
                    lemma_object_value(*members);
                }
                let type_field = text_member(members, "type");
                let level = int_member(members, "level");
                match (type_field, level) {
                    (Some(type_field), Some(level)) => Some(Suitability { type_field, level }),
                    _ => None,
                }
            },
            _ => None,
        }
    }
}

/// Reads a list of strings; `None` where an item is no string.
fn read_texts(items: &Vec<Json>) -> (r: Option<Vec<String>>)
    ensures
        r matches Some(v) ==> texts_of(item_values(items@)) == Some(texts(v@)),
        r is None ==> texts_of(item_values(items@)) is None,
{
    let ghost all = item_values(items@);
    let mut out: Vec<String> = Vec::new();
    let mut i: usize = 0;
    while i < items.len()
        invariant
            i <= items.len(),
            all == item_values(items@),
            out@.len() == i,
            forall|k: int| 0 <= k < i ==> all[k] is Str && out@[k]@ == all[k]->Str_0,
        decreases items.len() - i,
    {
        match &items[i] {
            Json::Str(s) => {
                out.push(s.clone());
            },
            _ => {
                assert(!(all[i as int] is Str));
                return None;
            },
        }
        i += 1;
    }
    Some(out)
}

/// Reads a list of suitabilities; `None` where an item holds none.
fn read_suitabilities(items: &Vec<Json>) -> (r: Option<Vec<Suitability>>)
    ensures
        r matches Some(v) ==> suitabilities_of(item_values(items@)) == Some(suitability_views(v@)),
        r is None ==> suitabilities_of(item_values(items@)) is None,
{
    let ghost all = item_values(items@);
    let mut out: Vec<Suitability> = Vec::new();
    let mut i: usize = 0;
    while i < items.len()
        invariant
            i <= items.len(),
            all == item_values(items@),
            out@.len() == i,
            forall|k: int| 0 <= k < i ==> suitability_of(#[trigger] all[k]) == Some(out@[k]@),
        decreases items.len() - i,
    {
        match Suitability::from_json(&items[i]) {
            Some(s) => {
                out.push(s);
            },
            None => {
                assert(suitability_of(all[i as int]) is None);
                return None;
            },
        }
        i += 1;
    }
    Some(out)
}

/// The entry that a tree holds: an object with every field of an entry.
pub open spec fn content_of(v: JsonValue) -> Option<ContentView> {
    match v {
        JsonValue::Object(m) => {
            let types = match items_at(m, "types"@) {
                Some(items) => texts_of(items),
                None => None,
            };
            let suitability = match items_at(m, "suitability"@) {
                Some(items) => suitabilities_of(items),
                None => None,
            };
            let drops = match items_at(m, "drops"@) {
                Some(items) => texts_of(items),
                None => None,
            };
            let aura = match member(m, "aura"@) {
                Some(a) => aura_of(a),
                None => None,
            };
            if int_at(m, "id"@) is Some && text_at(m, "key"@) is Some && text_at(m, "image"@) is Some
                && text_at(m, "name"@) is Some && text_at(m, "wiki"@) is Some && types is Some
                && text_at(m, "imageWiki"@) is Some && suitability is Some && drops is Some
                && aura is Some && text_at(m, "description"@) is Some {
                Some(
                    ContentView {
                        id: int_at(m, "id"@)->0,
                        key: text_at(m, "key"@)->0,
                        image: text_at(m, "image"@)->0,
                        name: text_at(m, "name"@)->0,
                        wiki: text_at(m, "wiki"@)->0,
                        types: types->0,
                        image_wiki: text_at(m, "imageWiki"@)->0,
                        suitability: suitability->0,
                        drops: drops->0,
                        aura: aura->0,
                        description: text_at(m, "description"@)->0,
                    },
                )
            } else {
                None
            }
        },
        _ => None,
    }
}

/// The entries that a list of trees holds: every item is one.
pub open spec fn contents_of(items: Seq<JsonValue>) -> Option<Seq<ContentView>> {
    if forall|i: int| 0 <= i < items.len() ==> content_of(#[trigger] items[i]) is Some {
        Some(items.map_values(|v: JsonValue| content_of(v)->0))
    } else {
        None
    }
}

/// The answer that a tree holds: an object with the list `content` and the
/// integers `page`, `limit`, `count` and `total`.
pub open spec fn response_of(v: JsonValue) -> Option<APIResponseView> {
    match v {
        JsonValue::Object(m) => {
            let content = match items_at(m, "content"@) {
                Some(items) => contents_of(items),
                None => None,
            };
            if content is Some && int_at(m, "page"@) is Some && int_at(m, "limit"@) is Some
                && int_at(m, "count"@) is Some && int_at(m, "total"@) is Some {
                Some(
                    APIResponseView {
                        content: content->0,
                        page: int_at(m, "page"@)->0,
                        limit: int_at(m, "limit"@)->0,
                        count: int_at(m, "count"@)->0,
                        total: int_at(m, "total"@)->0,
                    },
                )
            } else {
                None
            }
        },
        _ => None,
    }
}

impl Content {
    /// Reads an entry from a tree; `None` where the tree holds none.
    pub fn from_json(j: &Json) -> (r: Option<Content>)
        ensures
            r matches Some(c) ==> content_of(j@) == Some(c@),
            r is None ==> content_of(j@) is None,
    {
        let members = match j {
            Json::Object(members) => members,
            _ => {
                return None;
            },
        };
        proof {
            lemma_object_value(*members);
        }
        let id = int_member(members, "id")?;
        let key = text_member(members, "key")?;
        let image = text_member(members, "image")?;
        let name = text_member(members, "name")?;
        let wiki = text_member(members, "wiki")?;
        let types = read_texts(items_member(members, "types")?)?;
        let image_wiki = text_member(members, "imageWiki")?;
        let suitability = read_suitabilities(items_member(members, "suitability")?)?;
        let drops = read_texts(items_member(members, "drops")?)?;
        let aura = Aura::from_json(find(members, "aura")?)?;
        let description = text_member(members, "description")?;
        Some(
            Content {
                id,
                key,
                image,
                name,
                wiki,
                types,
                image_wiki,
                suitability,
                drops,
                aura,
                description,
            },
        )
    }
}

/// Reads a list of entries; `None` where an item holds none.
fn read_contents(items: &Vec<Json>) -> (r: Option<Vec<Content>>)
    ensures
        r matches Some(v) ==> contents_of(item_values(items@)) == Some(content_views(v@)),
        r is None ==> contents_of(item_values(items@)) is None,
{
    let ghost all = item_values(items@);
    let mut out: Vec<Content> = Vec::new();
    let mut i: usize = 0;
    while i < items.len()
        invariant
            i <= items.len(),
            all == item_values(items@),
            out@.len() == i,
            forall|k: int| 0 <= k < i ==> content_of(#[trigger] all[k]) == Some(out@[k]@),
        decreases items.len() - i,
    {
        match Content::from_json(&items[i]) {
            Some(c) => {
                out.push(c);
            },
            None => {
                assert(content_of(all[i as int]) is None);
                return None;
            },
        }
        i += 1;
    }
    Some(out)
}

impl APIResponse {
    /// Reads an answer from a tree; `None` where the tree holds none: where
    /// it is no object, lacks a field, or holds a value of another type in
    /// one.
    pub fn from_json(j: &Json) -> (r: Option<APIResponse>)
        ensures
            r matches Some(a) ==> response_of(j@) == Some(a@),
            r is None ==> response_of(j@) is None,
    {
        let members = match j {
            Json::Object(members) => members,
            _ => {
                return None;
            },
        };
        proof {
            lemma_object_value(*members);
        }
        let content = read_contents(items_member(members, "content")?)?;
        let page = int_member(members, "page")?;
        let limit = int_member(members, "limit")?;
        let count = int_member(members, "count")?;
        let total = int_member(members, "total")?;
        Some(APIResponse { content, page, limit, count, total })
    }
}

/// The tree that stands for an aura.
pub open spec fn aura_json(a: AuraView) -> JsonValue {
    JsonValue::Object(
        seq![("name"@, JsonValue::Str(a.name)), ("description"@, JsonValue::Str(a.description))],
    )
}

/// The tree that stands for a suitability.
pub open spec fn suitability_json(s: SuitabilityView) -> JsonValue {
    JsonValue::Object(
        seq![("type"@, JsonValue::Str(s.type_field)), ("level"@, JsonValue::Number(Some(s.level)))],
    )
}

/// The array that stands for a list of texts.
pub open spec fn texts_json(t: Seq<Seq<char>>) -> JsonValue {
    JsonValue::Array(t.map_values(|s: Seq<char>| JsonValue::Str(s)))
}

/// The array that stands for a list of suitabilities.
pub open spec fn suitabilities_json(s: Seq<SuitabilityView>) -> JsonValue {
    JsonValue::Array(s.map_values(|x: SuitabilityView| suitability_json(x)))
}

/// The tree that stands for an entry, its fields in the order of the record.
pub open spec fn content_json(c: ContentView) -> JsonValue {
    JsonValue::Object(
        seq![
            ("id"@, JsonValue::Number(Some(c.id))),
            ("key"@, JsonValue::Str(c.key)),
            ("image"@, JsonValue::Str(c.image)),
            ("name"@, JsonValue::Str(c.name)),
            ("wiki"@, JsonValue::Str(c.wiki)),
            ("types"@, texts_json(c.types)),
            ("imageWiki"@, JsonValue::Str(c.image_wiki)),
            ("suitability"@, suitabilities_json(c.suitability)),
            ("drops"@, texts_json(c.drops)),
            ("aura"@, aura_json(c.aura)),
            ("description"@, JsonValue::Str(c.description)),
        ],
    )
}

/// The array that stands for a list of entries.
pub open spec fn contents_json(c: Seq<ContentView>) -> JsonValue {
    JsonValue::Array(c.map_values(|x: ContentView| content_json(x)))
}

/// The tree that stands for an answer.
pub open spec fn response_json(r: APIResponseView) -> JsonValue {
    JsonValue::Object(
        seq![
            ("content"@, contents_json(r.content)),
            ("page"@, JsonValue::Number(Some(r.page))),
            ("limit"@, JsonValue::Number(Some(r.limit))),
            ("count"@, JsonValue::Number(Some(r.count))),
            ("total"@, JsonValue::Number(Some(r.total))),
        ],
    )
}

/// Writes a list of strings as an array.
fn write_texts(strings: &Vec<String>) -> (j: Json)
    ensures
        j@ == texts_json(texts(strings@)),
{
    let mut items: Vec<Json> = Vec::new();
    let mut i: usize = 0;
    while i < strings.len()
        invariant
            i <= strings.len(),
            items@.len() == i,
            forall|k: int| 0 <= k < i ==> (#[trigger] items@[k])@ == JsonValue::Str(strings@[k]@),
        decreases strings.len() - i,
    {
        items.push(Json::Str(strings[i].clone()));
        i += 1;
    }
    proof {
        lemma_array_value(items);
        assert(item_values(items@) =~= texts_json(texts(strings@))->Array_0);
    }
    Json::Array(items)
}

/// Writes a list of suitabilities as an array.
fn write_suitabilities(list: &Vec<Suitability>) -> (j: Json)
    ensures
        j@ == suitabilities_json(suitability_views(list@)),
{
    let mut items: Vec<Json> = Vec::new();
    let mut i: usize = 0;
    while i < list.len()
        invariant
            i <= list.len(),
            items@.len() == i,
            forall|k: int| 0 <= k < i ==> (#[trigger] items@[k])@ == suitability_json(list@[k]@),
        decreases list.len() - i,
    {
        items.push(list[i].to_json());
        i += 1;
    }
    proof {
        lemma_array_value(items);
        assert(item_values(items@) =~= suitabilities_json(suitability_views(list@))->Array_0);
    }
    Json::Array(items)
}

/// Writes a list of entries as an array.
fn write_contents(list: &Vec<Content>) -> (j: Json)
    ensures
        j@ == contents_json(content_views(list@)),
{
    let mut items: Vec<Json> = Vec::new();
    let mut i: usize = 0;
    while i < list.len()
        invariant
            i <= list.len(),
            items@.len() == i,
            forall|k: int| 0 <= k < i ==> (#[trigger] items@[k])@ == content_json(list@[k]@),
        decreases list.len() - i,
    {
        items.push(list[i].to_json());
        i += 1;
    }
    proof {
        lemma_array_value(items);
        assert(item_values(items@) =~= contents_json(content_views(list@))->Array_0);
    }
    Json::Array(items)
}

impl Aura {
    /// Writes the aura as a tree.
    pub fn to_json(&self) -> (j: Json)
        ensures
            j@ == aura_json(self@),
    {
        let members = vec![
            entry("name", Json::Str(self.name.clone())),
            entry("description", Json::Str(self.description.clone())),
        ];
        proof {
            lemma_object_value(members);
            assert(member_values(members@) =~= aura_json(self@)->Object_0);
        }
        Json::Object(members)
    }
}

impl Suitability {
    /// Writes the suitability as a tree.
    pub fn to_json(&self) -> (j: Json)
        ensures
            j@ == suitability_json(self@),
    {
        let members = vec![
            entry("type", Json::Str(self.type_field.clone())),
            entry("level", Json::Number(Some(self.level))),
        ];
        proof {
            lemma_object_value(members);
            assert(member_values(members@) =~= suitability_json(self@)->Object_0);
        }
        Json::Object(members)
    }
}

impl Content {
    /// Writes the entry as a tree.
    pub fn to_json(&self) -> (j: Json)
        ensures
            j@ == content_json(self@),
    {
        let members = vec![
            entry("id", Json::Number(Some(self.id))),
            entry("key", Json::Str(self.key.clone())),
            entry("image", Json::Str(self.image.clone())),
            entry("name", Json::Str(self.name.clone())),
            entry("wiki", Json::Str(self.wiki.clone())),
            entry("types", write_texts(&self.types)),
            entry("imageWiki", Json::Str(self.image_wiki.clone())),
            entry("suitability", write_suitabilities(&self.suitability)),
            entry("drops", write_texts(&self.drops)),
            entry("aura", self.aura.to_json()),
            entry("description", Json::Str(self.description.clone())),
        ];
        proof {
            lemma_object_value(members);
            assert(member_values(members@) =~= content_json(self@)->Object_0);
        }
        Json::Object(members)
    }
}

impl APIResponse {
    /// Writes the answer as a tree.
    pub fn to_json(&self) -> (j: Json)
        ensures
            j@ == response_json(self@),
    {
        let members = vec![
            entry("content", write_contents(&self.content)),
            entry("page", Json::Number(Some(self.page))),
            entry("limit", Json::Number(Some(self.limit))),
            entry("count", Json::Number(Some(self.count))),
            entry("total", Json::Number(Some(self.total))),
        ];
        proof {
            lemma_object_value(members);
            assert(member_values(members@) =~= response_json(self@)->Object_0);
        }
        Json::Object(members)
    }
}

/// The wire names of the fields of one record differ from each other.
proof fn lemma_names_differ()
    ensures
        "name"@ != "description"@,
        "type"@ != "level"@,
        "content"@ != "page"@,
        "content"@ != "limit"@,
        "content"@ != "count"@,
        "content"@ != "total"@,
        "page"@ != "limit"@,
        "page"@ != "count"@,
        "page"@ != "total"@,
        "limit"@ != "count"@,
        "limit"@ != "total"@,
        "count"@ != "total"@,
{
    reveal_strlit("name");
    reveal_strlit("description");
    reveal_strlit("type");
    reveal_strlit("level");
    reveal_strlit("content");
    reveal_strlit("page");
    reveal_strlit("limit");
    reveal_strlit("count");
    reveal_strlit("total");
    assert("name"@.len() == 4 && "description"@.len() == 11);
    assert("type"@.len() == 4 && "level"@.len() == 5);
    assert("content"@.len() == 7 && "page"@.len() == 4);
    assert("limit"@[0] == 'l' && "count"@[0] == 'c' && "total"@[0] == 't');
}

/// Reading back the tree of an aura gives the aura.
pub proof fn lemma_aura_round_trip(a: AuraView)
    ensures
        aura_of(aura_json(a)) == Some(a),
{
    let m = aura_json(a)->Object_0;
    lemma_names_differ();
    lemma_member_at(m, 0, "name"@);
    lemma_member_at(m, 1, "description"@);
}

/// Reading back the tree of a suitability gives the suitability.
pub proof fn lemma_suitability_round_trip(s: SuitabilityView)
    ensures
        suitability_of(suitability_json(s)) == Some(s),
{
    let m = suitability_json(s)->Object_0;
    lemma_names_differ();
    lemma_member_at(m, 0, "type"@);
    lemma_member_at(m, 1, "level"@);
}

/// Reading back the array of a list of texts gives the list.
pub proof fn lemma_texts_round_trip(t: Seq<Seq<char>>)
    ensures
        texts_of(texts_json(t)->Array_0) == Some(t),
{
}

/// Reading back the array of a list of suitabilities gives the list.
pub proof fn lemma_suitabilities_round_trip(s: Seq<SuitabilityView>)
    ensures
        suitabilities_of(suitabilities_json(s)->Array_0) == Some(s),
{
    let items = suitabilities_json(s)->Array_0;
    assert forall|i: int| 0 <= i < items.len() implies suitability_of(#[trigger] items[i]) == Some(
        s[i],
    ) by {
        lemma_suitability_round_trip(s[i]);
    }
}

/// The wire names of the fields of an entry differ from each other.
proof fn lemma_content_names_differ()
    ensures
        forall|i: int, j: int|
            0 <= i < j < 11 ==> (#[trigger] content_names()[i]) != #[trigger] content_names()[j],
{
    reveal_strlit("id");
    reveal_strlit("key");
    reveal_strlit("image");
    reveal_strlit("name");
    reveal_strlit("wiki");
    reveal_strlit("types");
    reveal_strlit("imageWiki");
    reveal_strlit("suitability");
    reveal_strlit("drops");
    reveal_strlit("aura");
    reveal_strlit("description");
    let n = content_names();
    assert forall|i: int, j: int| 0 <= i < j < 11 implies (#[trigger] n[i]) != #[trigger] n[j] by {
        if n[i] == n[j] {
            assert(n[i].len() == n[j].len());
            assert(n[i][0] == n[j][0]);
        }
    }
}

/// The wire names of the fields of an entry, in the order of the record.
pub open spec fn content_names() -> Seq<Seq<char>> {
    seq![
        "id"@,
        "key"@,
        "image"@,
        "name"@,
        "wiki"@,
        "types"@,
        "imageWiki"@,
        "suitability"@,
        "drops"@,
        "aura"@,
        "description"@,
    ]
}

/// Reading back the tree of an entry gives the entry.
pub proof fn lemma_content_round_trip(c: ContentView)
    ensures
        content_of(content_json(c)) == Some(c),
{
    let m = content_json(c)->Object_0;
    let n = content_names();
    lemma_content_names_differ();
    assert forall|i: int| 0 <= i < 11 implies member(m, #[trigger] n[i]) == Some(m[i].1) by {
        lemma_member_at(m, i, n[i]);
    }
    lemma_texts_round_trip(c.types);
    lemma_suitabilities_round_trip(c.suitability);
    lemma_texts_round_trip(c.drops);
    lemma_aura_round_trip(c.aura);
}

/// Reading back the array of a list of entries gives the list.
pub proof fn lemma_contents_round_trip(c: Seq<ContentView>)
    ensures
        contents_of(contents_json(c)->Array_0) == Some(c),
{
    let items = contents_json(c)->Array_0;
    assert forall|i: int| 0 <= i < items.len() implies content_of(#[trigger] items[i]) == Some(
        c[i],
    ) by {
        lemma_content_round_trip(c[i]);
    }
}

/// Writing an answer as a tree and reading the tree back gives the answer
/// again, whatever the answer holds.
pub proof fn lemma_response_round_trip(r: APIResponseView)
    ensures
        response_of(response_json(r)) == Some(r),
{
    let m = response_json(r)->Object_0;
    lemma_names_differ();
    lemma_member_at(m, 0, "content"@);
    lemma_member_at(m, 1, "page"@);
    lemma_member_at(m, 2, "limit"@);
    lemma_member_at(m, 3, "count"@);
    lemma_member_at(m, 4, "total"@);
    lemma_contents_round_trip(r.content);
}

/// The answer that a text holds: the text is a JSON document, and the
/// document is an answer.
pub open spec fn decoded(text: Seq<u8>) -> Option<APIResponseView> {
    match json_parse(text) {
        Some(v) => response_of(v),
        None => None,
    }
}

/// Decodes the body of a response. `None` where the body is no JSON text or
/// the document in it is no answer.
pub fn decode_response(body: &[u8]) -> (r: Option<APIResponse>)
    ensures
        r matches Some(a) ==> decoded(body@) == Some(a@),
        r is None ==> decoded(body@) is None,
{
    match parse(body) {
        Some(tree) => APIResponse::from_json(&tree),
        None => None,
    }
}

/// Encodes an answer as JSON text: the text that the printer gives for the
/// answer's tree, `None` where the printer reports an error.
pub fn encode_response(response: &APIResponse) -> (text: Option<String>)
    ensures
        text matches Some(s) ==> json_print(response_json(response@)) == Some(s@),
        text is None ==> json_print(response_json(response@)) is None,
{
    print(&response.to_json())
}

} // verus!
