//! Reading a page out of a JSON document.
//!
//! A member that must be there and is missing, or any member of the wrong
//! kind, makes the whole document undecodable. A member that may be left out
//! counts as left out when it is `null` as well.

use crate::error::FetchError;
use crate::json::{
    elements, integer, is_null, is_object, json_document, json_elements, json_integer,
    json_is_null, json_is_object, json_member, json_text, member, parse_document, text,
};
use crate::text::text_view;
use crate::wire::{
    AnimeData, AnimeDataView, AnimeListResponse, AnimeListResponseView, Attributes,
    AttributesView, CoverImages, CoverImagesView, Links, LinksView, Titles, TitlesView,
};
use serde_json::Value;
use vstd::prelude::*;

verus! {

/// The text that `object` must hold under `key`.
pub open spec fn text_at(object: Value, key: Seq<char>) -> Option<Seq<char>> {
    match json_member(object, key) {
        Some(inner) => json_text(inner),
        None => None,
    }
}

/// What `object` may hold under `key`, read by `read`. The outer `None` says
/// that the member is there and `read` cannot make sense of it; the inner
/// `None` that it is missing or `null`.
pub open spec fn optional_at<T>(
    object: Value,
    key: Seq<char>,
    read: spec_fn(Value) -> Option<T>,
) -> Option<Option<T>> {
    match json_member(object, key) {
        None => Some(None),
        Some(inner) => if json_is_null(inner) {
            Some(None)
        } else {
            match read(inner) {
                Some(found) => Some(Some(found)),
                None => None,
            }
        },
    }
}

/// The text that `object` may hold under `key`.
pub open spec fn optional_text_at(object: Value, key: Seq<char>) -> Option<Option<Seq<char>>> {
    optional_at(object, key, |inner: Value| json_text(inner))
}

/// The whole number that `object` may hold under `key`.
pub open spec fn optional_integer_at(object: Value, key: Seq<char>) -> Option<Option<i64>> {
    optional_at(object, key, |inner: Value| json_integer(inner))
}

/// The pagination links that `value` denotes.
pub open spec fn links_of(value: Value) -> Option<LinksView> {
    if !json_is_object(value) {
        None
    } else {
        match (text_at(value, "first"@), text_at(value, "next"@), text_at(value, "last"@)) {
            (Some(first), Some(next), Some(last)) => Some(LinksView { first, next, last }),
            _ => None,
        }
    }
}

/// The titles that `value` denotes.
pub open spec fn titles_of(value: Value) -> Option<TitlesView> {
    if !json_is_object(value) {
        None
    } else {
        match (
            optional_text_at(value, "en"@),
            optional_text_at(value, "en_jp"@),
            optional_text_at(value, "ja_jp"@),
        ) {
            (Some(en), Some(en_jp), Some(ja_jp)) => Some(TitlesView { en, en_jp, ja_jp }),
            _ => None,
        }
    }
}

/// The cover images that `value` denotes.
pub open spec fn cover_of(value: Value) -> Option<CoverImagesView> {
    if !json_is_object(value) {
        None
    } else {
        match optional_text_at(value, "original"@) {
            Some(original) => Some(CoverImagesView { original }),
            None => None,
        }
    }
}

/// The cover images that `object` may hold under `key`.
pub open spec fn optional_cover_at(object: Value, key: Seq<char>) -> Option<
    Option<CoverImagesView>,
> {
    optional_at(object, key, |inner: Value| cover_of(inner))
}

/// The attributes that `value` denotes.
pub open spec fn attributes_of(value: Value) -> Option<AttributesView> {
    if !json_is_object(value) {
        None
    } else {
        match (
            text_at(value, "slug"@),
            optional_text_at(value, "synopsis"@),
            match json_member(value, "titles"@) {
                Some(inner) => titles_of(inner),
                None => None,
            },
            optional_cover_at(value, "coverImage"@),
            text_at(value, "canonicalTitle"@),
        ) {
            (Some(slug), Some(synopsis), Some(titles), Some(cover_image), Some(canonical_title)) => {
                match (
                    optional_text_at(value, "averageRating"@),
                    optional_text_at(value, "startDate"@),
                    optional_text_at(value, "endDate"@),
                    optional_integer_at(value, "episodeCount"@),
                    optional_text_at(value, "status"@),
                ) {
                    (
                        Some(average_rating),
                        Some(start_date),
                        Some(end_date),
                        Some(episode_count),
                        Some(status),
                    ) => Some(
                        AttributesView {
                            slug,
                            synopsis,
                            titles,
                            cover_image,
                            canonical_title,
                            average_rating,
                            start_date,
                            end_date,
                            episode_count,
                            status,
                        },
                    ),
                    _ => None,
                }
            },
            _ => None,
        }
    }
}

/// The entry that `value` denotes.
pub open spec fn entry_of(value: Value) -> Option<AnimeDataView> {
    if !json_is_object(value) {
        None
    } else {
        match (
            text_at(value, "id"@),
            match json_member(value, "attributes"@) {
                Some(inner) => attributes_of(inner),
                None => None,
            },
        ) {
            (Some(id), Some(attributes)) => Some(AnimeDataView { id, attributes }),
            _ => None,
        }
    }
}

/// The entries that `items` denote, in their order; none if one of them
/// denotes no entry.
pub open spec fn entries_of(items: Seq<Value>) -> Option<Seq<AnimeDataView>> {
    if forall|i: int| 0 <= i < items.len() ==> (#[trigger] entry_of(items[i])) is Some {
        Some(items.map_values(|item: Value| entry_of(item)->0))
    } else {
        None
    }
}

/// The page that `value` denotes.
pub open spec fn page_of(value: Value) -> Option<AnimeListResponseView> {
    if !json_is_object(value) {
        None
    } else {
        match (
            match json_member(value, "data"@) {
                Some(inner) => match json_elements(inner) {
                    Some(items) => entries_of(items),
                    None => None,
                },
                None => None,
            },
            match json_member(value, "links"@) {
                Some(inner) => links_of(inner),
                None => None,
            },
        ) {
            (Some(data), Some(links)) => Some(AnimeListResponseView { data, links }),
            _ => None,
        }
    }
}

/// The page that the text `body` denotes.
pub open spec fn page_of_text(body: Seq<char>) -> Option<AnimeListResponseView> {
    match json_document(body) {
        Some(value) => page_of(value),
        None => None,
    }
}

/// Reads the text that `object` must hold under `key`.
fn read_text(object: &Value, key: &str) -> (got: Result<String, FetchError>)
    ensures
        match got {
            Ok(found) => text_at(*object, key@) == Some(found@),
            Err(e) => e == FetchError::Decode && text_at(*object, key@) is None,
        },
{
    match member(object, key) {
        Some(inner) => match text(inner) {
            Some(found) => Ok(found),
            None => Err(FetchError::Decode),
        },
        None => Err(FetchError::Decode),
    }
}

/// Reads the text that `object` may hold under `key`.
fn read_optional_text(object: &Value, key: &str) -> (got: Result<Option<String>, FetchError>)
    ensures
        match got {
            Ok(found) => optional_text_at(*object, key@) == Some(text_view(found)),
            Err(e) => e == FetchError::Decode && optional_text_at(*object, key@) is None,
        },
{
    match member(object, key) {
        None => Ok(None),
        Some(inner) => if is_null(inner) {
            Ok(None)
        } else {
            match text(inner) {
                Some(found) => Ok(Some(found)),
                None => Err(FetchError::Decode),
            }
        },
    }
}

/// Reads the whole number that `object` may hold under `key`.
fn read_optional_integer(object: &Value, key: &str) -> (got: Result<Option<i64>, FetchError>)
    ensures
        match got {
            Ok(found) => optional_integer_at(*object, key@) == Some(found),
            Err(e) => e == FetchError::Decode && optional_integer_at(*object, key@) is None,
        },
{
    match member(object, key) {
        None => Ok(None),
        Some(inner) => if is_null(inner) {
            Ok(None)
        } else {
            match integer(inner) {
                Some(found) => Ok(Some(found)),
                None => Err(FetchError::Decode),
            }
        },
    }
}

impl Links {
    /// Reads the links out of a JSON value.
    pub fn from_json(value: &Value) -> (got: Result<Links, FetchError>)
        ensures
            match got {
                Ok(links) => links_of(*value) == Some(links@),
                Err(e) => e == FetchError::Decode && links_of(*value) is None,
            },
    {
        if !is_object(value) {
            return Err(FetchError::Decode);
        }
        let first = read_text(value, "first")?;
        let next = read_text(value, "next")?;
        let last = read_text(value, "last")?;
        Ok(Links { first, next, last })
    }
}

impl Titles {
    /// Reads the titles out of a JSON value.
    pub fn from_json(value: &Value) -> (got: Result<Titles, FetchError>)
        ensures
            match got {
                Ok(titles) => titles_of(*value) == Some(titles@),
                Err(e) => e == FetchError::Decode && titles_of(*value) is None,
            },
    {
        if !is_object(value) {
            return Err(FetchError::Decode);
        }
        let en = read_optional_text(value, "en")?;
        let en_jp = read_optional_text(value, "en_jp")?;
        let ja_jp = read_optional_text(value, "ja_jp")?;
        Ok(Titles { en, en_jp, ja_jp })
    }
}

impl CoverImages {
    /// Reads the cover images out of a JSON value.
    pub fn from_json(value: &Value) -> (got: Result<CoverImages, FetchError>)
        ensures
            match got {
                Ok(cover) => cover_of(*value) == Some(cover@),
                Err(e) => e == FetchError::Decode && cover_of(*value) is None,
            },
    {
        if !is_object(value) {
            return Err(FetchError::Decode);
        }
        let original = read_optional_text(value, "original")?;
        Ok(CoverImages { original })
    }
}

/// Reads the cover images that `object` may hold under `key`.
fn read_optional_cover(object: &Value, key: &str) -> (got: Result<
    Option<CoverImages>,
    FetchError,
>)
    ensures
        match got {
            Ok(Some(cover)) => optional_cover_at(*object, key@) == Some(Some(cover@)),
            Ok(None) => optional_cover_at(*object, key@) == Some(None::<CoverImagesView>),
            Err(e) => e == FetchError::Decode && optional_cover_at(*object, key@) is None,
        },
{
    match member(object, key) {
        None => Ok(None),
        Some(inner) => if is_null(inner) {
            Ok(None)
        } else {
            let cover = CoverImages::from_json(inner)?;
            Ok(Some(cover))
        },
    }
}

impl Attributes {
    /// Reads the attributes of an entry out of a JSON value.
    pub fn from_json(value: &Value) -> (got: Result<Attributes, FetchError>)
        ensures
            match got {
                Ok(attributes) => attributes_of(*value) == Some(attributes@),
                Err(e) => e == FetchError::Decode && attributes_of(*value) is None,
            },
    {
        if !is_object(value) {
            return Err(FetchError::Decode);
        }
        let slug = read_text(value, "slug")?;
        let synopsis = read_optional_text(value, "synopsis")?;
        let titles = match member(value, "titles") {
            Some(inner) => Titles::from_json(inner)?,
            None => {
                return Err(FetchError::Decode);
            },
        };
        let cover_image = read_optional_cover(value, "coverImage")?;
        let canonical_title = read_text(value, "canonicalTitle")?;
        let average_rating = read_optional_text(value, "averageRating")?;
        let start_date = read_optional_text(value, "startDate")?;
        let end_date = read_optional_text(value, "endDate")?;
        let episode_count = read_optional_integer(value, "episodeCount")?;
        let status = read_optional_text(value, "status")?;
        Ok(
            Attributes {
                slug,
                synopsis,
                titles,
                cover_image,
                canonical_title,
                average_rating,
                start_date,
                end_date,
                episode_count,
                status,
            },
        )
    }
}

impl AnimeData {
    /// Reads one entry out of a JSON value.
    pub fn from_json(value: &Value) -> (got: Result<AnimeData, FetchError>)
        ensures
            match got {
                Ok(entry) => entry_of(*value) == Some(entry@),
                Err(e) => e == FetchError::Decode && entry_of(*value) is None,
            },
    {
        if !is_object(value) {
            return Err(FetchError::Decode);
        }
        let id = read_text(value, "id")?;
        let attributes = match member(value, "attributes") {
            Some(inner) => Attributes::from_json(inner)?,
            None => {
                return Err(FetchError::Decode);
            },
        };
        Ok(AnimeData { id, attributes })
    }
}

/// Reads every entry of a page, in order.
fn read_entries(items: &Vec<Value>) -> (got: Result<Vec<AnimeData>, FetchError>)
    ensures
        match got {
            Ok(data) => entries_of(items@) == Some(data@.map_values(|entry: AnimeData| entry@)),
            Err(e) => e == FetchError::Decode && entries_of(items@) is None,
        },
{
    let mut data: Vec<AnimeData> = Vec::new();
    let mut i: usize = 0;
    while i < items.len()
        invariant
            i <= items.len(),
            data.len() == i,
            forall|j: int| 0 <= j < i ==> (#[trigger] entry_of(items@[j])) == Some(data@[j]@),
        decreases items.len() - i,
    {
        match AnimeData::from_json(&items[i]) {
            Ok(entry) => {
                data.push(entry);
            },
            Err(e) => {
                assert(entry_of(items@[i as int]) is None);
                return Err(e);
            },
        }
        i += 1;
    }
    assert(data@.map_values(|entry: AnimeData| entry@) =~= items@.map_values(
        |item: Value| entry_of(item)->0,
    ));
    Ok(data)
}

impl AnimeListResponse {
    /// Reads a page out of a JSON value: its entries under `data`, its links
    /// under `links`.
    pub fn from_json(value: &Value) -> (got: Result<AnimeListResponse, FetchError>)
        ensures
            match got {
                Ok(page) => page_of(*value) == Some(page@),
                Err(e) => e == FetchError::Decode && page_of(*value) is None,
            },
    {
        if !is_object(value) {
            return Err(FetchError::Decode);
        }
        let data = match member(value, "data") {
            Some(inner) => match elements(inner) {
                Some(items) => read_entries(items)?,
                None => {
                    return Err(FetchError::Decode);
                },
            },
            None => {
                return Err(FetchError::Decode);
            },
        };
        let links = match member(value, "links") {
            Some(inner) => Links::from_json(inner)?,
            None => {
                return Err(FetchError::Decode);
            },
        };
        Ok(AnimeListResponse { data, links })
    }
}

/// Decodes the body of an answer as one page. A body that is no JSON
/// document, or whose document has not the shape of a page, is a decode
/// error.
pub fn decode_page(body: &str) -> (got: Result<AnimeListResponse, FetchError>)
    ensures
        match got {
            Ok(page) => page_of_text(body@) == Some(page@),
            Err(e) => e == FetchError::Decode && page_of_text(body@) is None,
        },
{
    match parse_document(body) {
        Ok(value) => AnimeListResponse::from_json(&value),
        Err(_) => Err(FetchError::Decode),
    }
}

} // verus!
