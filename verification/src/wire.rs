//! The wire shape of one remote page.

use crate::record::{normalized, views, AnimeItem, AnimeItemView};
use crate::text::text_view;
use vstd::prelude::*;

verus! {

/// The links of a page as plain text.
pub struct LinksView {
    pub first: Seq<char>,
    pub next: Seq<char>,
    pub last: Seq<char>,
}

/// The pagination links of a page, as the service sent them.
#[derive(Debug)]
pub struct Links {
    pub first: String,
    pub next: String,
    pub last: String,
}

impl View for Links {
    type V = LinksView;

    open spec fn view(&self) -> LinksView {
        LinksView { first: self.first@, next: self.next@, last: self.last@ }
    }
}

/// The titles of an entry as plain text.
pub struct TitlesView {
    pub en: Option<Seq<char>>,
    pub en_jp: Option<Seq<char>>,
    pub ja_jp: Option<Seq<char>>,
}

/// The titles of an entry by language.
#[derive(Debug)]
pub struct Titles {
    pub en: Option<String>,
    pub en_jp: Option<String>,
    pub ja_jp: Option<String>,
}

impl View for Titles {
    type V = TitlesView;

    open spec fn view(&self) -> TitlesView {
        TitlesView {
            en: text_view(self.en),
            en_jp: text_view(self.en_jp),
            ja_jp: text_view(self.ja_jp),
        }
    }
}

/// The cover images of an entry as plain text.
pub struct CoverImagesView {
    pub original: Option<Seq<char>>,
}

/// The cover images of an entry.
#[derive(Debug)]
pub struct CoverImages {
    pub original: Option<String>,
}

impl View for CoverImages {
    type V = CoverImagesView;

    open spec fn view(&self) -> CoverImagesView {
        CoverImagesView { original: text_view(self.original) }
    }
}

/// The attributes of an entry as plain values.
pub struct AttributesView {
    pub slug: Seq<char>,
    pub synopsis: Option<Seq<char>>,
    pub titles: TitlesView,
    pub cover_image: Option<CoverImagesView>,
    pub canonical_title: Seq<char>,
    pub average_rating: Option<Seq<char>>,
    pub start_date: Option<Seq<char>>,
    pub end_date: Option<Seq<char>>,
    pub episode_count: Option<i64>,
    pub status: Option<Seq<char>>,
}

/// What the service says of one entry.
#[derive(Debug)]
pub struct Attributes {
    pub slug: String,
    pub synopsis: Option<String>,
    pub titles: Titles,
    pub cover_image: Option<CoverImages>,
    pub canonical_title: String,
    pub average_rating: Option<String>,
    pub start_date: Option<String>,
    pub end_date: Option<String>,
    pub episode_count: Option<i64>,
    pub status: Option<String>,
}

impl View for Attributes {
    type V = AttributesView;

    open spec fn view(&self) -> AttributesView {
        AttributesView {
            slug: self.slug@,
            synopsis: text_view(self.synopsis),
            titles: self.titles@,
            cover_image: match self.cover_image {
                Some(cover) => Some(cover@),
                None => None,
            },
            canonical_title: self.canonical_title@,
            average_rating: text_view(self.average_rating),
            start_date: text_view(self.start_date),
            end_date: text_view(self.end_date),
            episode_count: self.episode_count,
            status: text_view(self.status),
        }
    }
}

/// An entry as plain values.
pub struct AnimeDataView {
    pub id: Seq<char>,
    pub attributes: AttributesView,
}

/// One entry of a page.
#[derive(Debug)]
pub struct AnimeData {
    pub id: String,
    pub attributes: Attributes,
}

impl View for AnimeData {
    type V = AnimeDataView;

    open spec fn view(&self) -> AnimeDataView {
        AnimeDataView { id: self.id@, attributes: self.attributes@ }
    }
}

/// A page as plain values.
pub struct AnimeListResponseView {
    pub data: Seq<AnimeDataView>,
    pub links: LinksView,
}

/// One page as the service answers it: its entries in order, and the links
/// to its neighbours.
#[derive(Debug)]
pub struct AnimeListResponse {
    pub data: Vec<AnimeData>,
    pub links: Links,
}

impl View for AnimeListResponse {
    type V = AnimeListResponseView;

    open spec fn view(&self) -> AnimeListResponseView {
        AnimeListResponseView {
            data: self.data@.map_values(|entry: AnimeData| entry@),
            links: self.links@,
        }
    }
}

/// A text that may be missing, with the empty text in its place.
pub open spec fn text_or_empty(text: Option<Seq<char>>) -> Seq<char> {
    match text {
        Some(t) => t,
        None => Seq::empty(),
    }
}

/// The address of the original cover image, empty where none is given.
pub open spec fn cover_address(cover: Option<CoverImagesView>) -> Seq<char> {
    match cover {
        Some(images) => text_or_empty(images.original),
        None => Seq::empty(),
    }
}

/// The catalogue record of an entry: the canonical title without double
/// quotes, and an empty text for each thing that the entry does not give.
pub open spec fn record_of(entry: AnimeDataView) -> AnimeItemView {
    normalized(
        entry.attributes.canonical_title,
        text_or_empty(entry.attributes.synopsis),
        text_or_empty(entry.attributes.start_date),
        text_or_empty(entry.attributes.end_date),
        cover_address(entry.attributes.cover_image),
    )
}

/// The catalogue records of a page, one for each entry, in the page's order.
pub open spec fn records_of(page: AnimeListResponseView) -> Seq<AnimeItemView> {
    page.data.map_values(|entry: AnimeDataView| record_of(entry))
}

/// A copy of a text that may be missing; the empty text if it is.
fn owned_or_empty(text: &Option<String>) -> (out: String)
    ensures
        out@ == text_or_empty(text_view(*text)),
{
    match text {
        Some(t) => t.clone(),
        None => String::new(),
    }
}

impl AnimeData {
    /// The catalogue record of this entry.
    pub fn to_item(&self) -> (item: AnimeItem)
        ensures
            item@ == record_of(self@),
            !item@.title.contains('"'),
    {
        let cover_image = match &self.attributes.cover_image {
            Some(images) => owned_or_empty(&images.original),
            None => String::new(),
        };
        AnimeItem::new(
            self.attributes.canonical_title.clone(),
            owned_or_empty(&self.attributes.synopsis),
            owned_or_empty(&self.attributes.start_date),
            owned_or_empty(&self.attributes.end_date),
            cover_image,
        )
    }
}

impl AnimeListResponse {
    /// The batch that this page adds to the catalogue: one record for each
    /// entry, in the page's order.
    pub fn records(&self) -> (batch: Vec<AnimeItem>)
        ensures
            views(batch@) == records_of(self@),
            forall|i: int| 0 <= i < batch@.len() ==> !(#[trigger] batch@[i])@.title.contains('"'),
    {
        let mut batch: Vec<AnimeItem> = Vec::new();
        let mut i: usize = 0;
        while i < self.data.len()
            invariant
                i <= self.data@.len(),
                batch@.len() == i,
                forall|j: int| 0 <= j < i ==> (#[trigger] batch@[j])@ == record_of(self.data@[j]@),
                forall|j: int| 0 <= j < i ==> !(#[trigger] batch@[j])@.title.contains('"'),
            decreases self.data@.len() - i,
        {
            batch.push(self.data[i].to_item());
            i += 1;
        }
        assert(views(batch@) =~= records_of(self@));
        batch
    }
}

} // verus!
