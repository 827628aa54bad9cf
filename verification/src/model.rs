//! The records of the data service's answer, and their mathematical models.

use vstd::prelude::*;

verus! {

/// One page of search results.
#[derive(Default, Debug, Clone, PartialEq)]
pub struct APIResponse {
    pub content: Vec<Content>,
    pub page: i64,
    pub limit: i64,
    pub count: i64,
    pub total: i64,
}

/// One catalog entry.
#[derive(Default, Debug, Clone, PartialEq)]
pub struct Content {
    pub id: i64,
    pub key: String,
    pub image: String,
    pub name: String,
    pub wiki: String,
    pub types: Vec<String>,
    pub image_wiki: String,
    pub suitability: Vec<Suitability>,
    pub drops: Vec<String>,
    pub aura: Aura,
    pub description: String,
}

/// A kind of work and how well an entry does it.
#[derive(Default, Debug, Clone, PartialEq)]
pub struct Suitability {
    pub type_field: String,
    pub level: i64,
}

/// The passive skill of an entry.
#[derive(Default, Debug, Clone, PartialEq)]
pub struct Aura {
    pub name: String,
    pub description: String,
}

/// The model of an [`Aura`].
pub struct AuraView {
    pub name: Seq<char>,
    pub description: Seq<char>,
}

/// The model of a [`Suitability`].
pub struct SuitabilityView {
    pub type_field: Seq<char>,
    pub level: i64,
}

/// The model of a [`Content`].
pub struct ContentView {
    pub id: i64,
    pub key: Seq<char>,
    pub image: Seq<char>,
    pub name: Seq<char>,
    pub wiki: Seq<char>,
    pub types: Seq<Seq<char>>,
    pub image_wiki: Seq<char>,
    pub suitability: Seq<SuitabilityView>,
    pub drops: Seq<Seq<char>>,
    pub aura: AuraView,
    pub description: Seq<char>,
}

/// The model of an [`APIResponse`].
pub struct APIResponseView {
    pub content: Seq<ContentView>,
    pub page: i64,
    pub limit: i64,
    pub count: i64,
    pub total: i64,
}

/// The texts that a list of strings holds, in order.
pub open spec fn texts(strings: Seq<String>) -> Seq<Seq<char>> {
    strings.map_values(|s: String| s@)
}

/// The models of a list of suitabilities, in order.
pub open spec fn suitability_views(items: Seq<Suitability>) -> Seq<SuitabilityView> {
    items.map_values(|s: Suitability| s@)
}

/// The models of a list of entries, in order.
pub open spec fn content_views(items: Seq<Content>) -> Seq<ContentView> {
    items.map_values(|c: Content| c@)
}

impl View for Aura {
    type V = AuraView;

    open spec fn view(&self) -> AuraView {
        AuraView { name: self.name@, description: self.description@ }
    }
}

impl View for Suitability {
    type V = SuitabilityView;

    open spec fn view(&self) -> SuitabilityView {
        SuitabilityView { type_field: self.type_field@, level: self.level }
    }
}

impl View for Content {
    type V = ContentView;

    open spec fn view(&self) -> ContentView {
        ContentView {
            id: self.id,
            key: self.key@,
            image: self.image@,
            name: self.name@,
            wiki: self.wiki@,
            types: texts(self.types@),
            image_wiki: self.image_wiki@,
            suitability: suitability_views(self.suitability@),
            drops: texts(self.drops@),
            aura: self.aura@,
            description: self.description@,
        }
    }
}

impl View for APIResponse {
    type V = APIResponseView;

    open spec fn view(&self) -> APIResponseView {
        APIResponseView {
            content: content_views(self.content@),
            page: self.page,
            limit: self.limit,
            count: self.count,
            total: self.total,
        }
    }
}

} // verus!
