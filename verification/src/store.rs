//! Reading the catalogue back from the rows of the store.
//!
//! The store hands back rows; this module turns them into records, puts the
//! records in the order of their titles and keeps no more than the list can
//! show.

use crate::error::StoreError;
use crate::record::{normalized, views, AnimeItem, AnimeItemList, AnimeItemView};
use crate::text::{chars_of, lemma_without_char_absent, text_view};
use vstd::prelude::*;

verus! {

/// The most records that one read of the catalogue returns.
pub const LOAD_LIMIT: usize = 1000;

/// One row as the store hands it back. A column that holds no text is `None`.
#[derive(Debug)]
pub struct StoredRow {
    pub title: Option<String>,
    pub synopsis: Option<String>,
    pub start_date: Option<String>,
    pub end_date: Option<String>,
    pub cover_image: Option<String>,
}

/// A row as plain text.
pub struct StoredRowView {
    pub title: Option<Seq<char>>,
    pub synopsis: Option<Seq<char>>,
    pub start_date: Option<Seq<char>>,
    pub end_date: Option<Seq<char>>,
    pub cover_image: Option<Seq<char>>,
}

impl View for StoredRow {
    type V = StoredRowView;

    open spec fn view(&self) -> StoredRowView {
        StoredRowView {
            title: text_view(self.title),
            synopsis: text_view(self.synopsis),
            start_date: text_view(self.start_date),
            end_date: text_view(self.end_date),
            cover_image: text_view(self.cover_image),
        }
    }
}

/// The rows `rows`, each as plain text.
pub open spec fn row_views(rows: Seq<StoredRow>) -> Seq<StoredRowView> {
    rows.map_values(|row: StoredRow| row@)
}

/// The record of a row; none if one of its columns holds no text.
pub open spec fn row_record(row: StoredRowView) -> Option<AnimeItemView> {
    match (row.title, row.synopsis, row.start_date, row.end_date, row.cover_image) {
        (Some(title), Some(synopsis), Some(start_date), Some(end_date), Some(cover_image)) => Some(
            normalized(title, synopsis, start_date, end_date, cover_image),
        ),
        _ => None,
    }
}

/// The records of rows, in their order; none if one row has no record.
pub open spec fn row_records(rows: Seq<StoredRowView>) -> Option<Seq<AnimeItemView>> {
    if forall|i: int| 0 <= i < rows.len() ==> (#[trigger] row_record(rows[i])) is Some {
        Some(rows.map_values(|row: StoredRowView| row_record(row)->0))
    } else {
        None
    }
}

/// The order of titles: character by character, by the characters' codes; a
/// title comes before every longer title that it begins.
pub open spec fn title_le(a: Seq<char>, b: Seq<char>) -> bool
    decreases a.len(),
{
    if a.len() == 0 {
        true
    } else if b.len() == 0 {
        false
    } else if a[0] != b[0] {
        a[0] < b[0]
    } else {
        title_le(a.skip(1), b.skip(1))
    }
}

/// Whether no record stands before one with a smaller title.
pub open spec fn ordered(items: Seq<AnimeItemView>) -> bool {
    forall|i: int, j: int|
        0 <= i < j < items.len() ==> title_le(#[trigger] items[i].title, #[trigger] items[j].title)
}

/// `sorted` with `item` put behind the last record whose title is not
/// greater than its own.
pub open spec fn inserted(sorted: Seq<AnimeItemView>, item: AnimeItemView) -> Seq<AnimeItemView>
    decreases sorted.len(),
{
    if sorted.len() == 0 {
        seq![item]
    } else if title_le(sorted.last().title, item.title) {
        sorted.push(item)
    } else {
        inserted(sorted.drop_last(), item).push(sorted.last())
    }
}

/// The records `items` in the order of their titles; records with the same
/// title keep the order they had.
pub open spec fn sorted_by_title(items: Seq<AnimeItemView>) -> Seq<AnimeItemView>
    decreases items.len(),
{
    if items.len() == 0 {
        items
    } else {
        inserted(sorted_by_title(items.drop_last()), items.last())
    }
}

/// What a read shows of the records `items`: the first `LOAD_LIMIT` of them
/// in the order of their titles.
pub open spec fn catalogue_of(items: Seq<AnimeItemView>) -> Seq<AnimeItemView> {
    let sorted = sorted_by_title(items);
    if sorted.len() <= LOAD_LIMIT {
        sorted
    } else {
        sorted.take(LOAD_LIMIT as int)
    }
}

/// The outcome of reading the catalogue from `rows`.
pub open spec fn loaded(rows: Seq<StoredRowView>) -> Result<Seq<AnimeItemView>, StoreError> {
    match row_records(rows) {
        Some(items) => Ok(catalogue_of(items)),
        None => Err(StoreError::Read),
    }
}

/// Of two titles one is not greater than the other.
pub proof fn lemma_title_le_total(a: Seq<char>, b: Seq<char>)
    ensures
        title_le(a, b) || title_le(b, a),
    decreases a.len(),
{
    if a.len() > 0 && b.len() > 0 && a[0] == b[0] {
        lemma_title_le_total(a.skip(1), b.skip(1));
    }
}

/// The order of titles is transitive.
pub proof fn lemma_title_le_transitive(a: Seq<char>, b: Seq<char>, c: Seq<char>)
    requires
        title_le(a, b),
        title_le(b, c),
    ensures
        title_le(a, c),
    decreases a.len(),
{
    if a.len() > 0 && a[0] == b[0] && b[0] == c[0] {
        lemma_title_le_transitive(a.skip(1), b.skip(1), c.skip(1));
    }
}

/// Where `inserted` puts a record: at the place `at`, if every record from
/// there on has a greater title and the one before has not.
pub proof fn lemma_inserted_at(sorted: Seq<AnimeItemView>, item: AnimeItemView, at: int)
    requires
        0 <= at <= sorted.len(),
        forall|j: int| at <= j < sorted.len() ==> !title_le(#[trigger] sorted[j].title, item.title),
        at > 0 ==> title_le(sorted[at - 1].title, item.title),
    ensures
        inserted(sorted, item) == sorted.insert(at, item),
    decreases sorted.len(),
{
    if sorted.len() == 0 {
        assert(seq![item] =~= sorted.insert(at, item));
    } else if at == sorted.len() {
        assert(sorted.push(item) =~= sorted.insert(at, item));
    } else {
        assert(!title_le(sorted[sorted.len() - 1].title, item.title));
        lemma_inserted_at(sorted.drop_last(), item, at);
        assert(sorted.drop_last().insert(at, item).push(sorted.last()) =~= sorted.insert(
            at,
            item,
        ));
    }
}

/// Inserting a record keeps the others, adds that one, and keeps the order.
pub proof fn lemma_inserted(sorted: Seq<AnimeItemView>, item: AnimeItemView)
    ensures
        inserted(sorted, item).len() == sorted.len() + 1,
        inserted(sorted, item).to_multiset() == sorted.to_multiset().insert(item),
        ordered(sorted) ==> ordered(inserted(sorted, item)),
    decreases sorted.len(),
{
    broadcast use vstd::seq_lib::group_to_multiset_ensures;

    if sorted.len() == 0 {
        assert(seq![item] =~= sorted.push(item));
    } else if title_le(sorted.last().title, item.title) {
        if ordered(sorted) {
            let out = sorted.push(item);
            assert forall|i: int, j: int| 0 <= i < j < out.len() implies title_le(
                #[trigger] out[i].title,
                #[trigger] out[j].title,
            ) by {
                if j == sorted.len() && i < sorted.len() - 1 {
                    assert(title_le(sorted[i].title, sorted[sorted.len() - 1].title));
                    lemma_title_le_transitive(out[i].title, sorted.last().title, item.title);
                }
            }
        }
    } else {
        let front = sorted.drop_last();
        lemma_inserted(front, item);
        assert(front.push(sorted.last()) =~= sorted);
        if ordered(sorted) {
            let mid = inserted(front, item);
            let out = mid.push(sorted.last());
            assert(ordered(front));
            assert forall|i: int, j: int| 0 <= i < j < out.len() implies title_le(
                #[trigger] out[i].title,
                #[trigger] out[j].title,
            ) by {
                if j == mid.len() {
                    // out[i] is a record of `front` or `item`
                    assert(mid.to_multiset().count(mid[i]) > 0);
                    if mid[i] == item {
                        lemma_title_le_total(sorted.last().title, item.title);
                    } else {
                        assert(front.to_multiset().count(mid[i]) > 0);
                        assert(front.contains(mid[i]));
                        let k = choose|k: int| 0 <= k < front.len() && front[k] == mid[i];
                        assert(title_le(sorted[k].title, sorted[sorted.len() - 1].title));
                    }
                }
            }
        }
    }
}

/// Sorting keeps every record, as often as it was there, and puts the
/// records in the order of their titles.
pub proof fn lemma_sorted_by_title(items: Seq<AnimeItemView>)
    ensures
        sorted_by_title(items).len() == items.len(),
        sorted_by_title(items).to_multiset() == items.to_multiset(),
        ordered(sorted_by_title(items)),
    decreases items.len(),
{
    broadcast use vstd::seq_lib::group_to_multiset_ensures;

    if items.len() > 0 {
        lemma_sorted_by_title(items.drop_last());
        lemma_inserted(sorted_by_title(items.drop_last()), items.last());
        assert(items.drop_last().push(items.last()) =~= items);
    }
}

/// Records that are in order already are left as they are.
pub proof fn lemma_sorted_stays(items: Seq<AnimeItemView>)
    requires
        ordered(items),
    ensures
        sorted_by_title(items) == items,
    decreases items.len(),
{
    if items.len() > 0 {
        let front = items.drop_last();
        lemma_sorted_stays(front);
        if front.len() > 0 {
            assert(title_le(items[front.len() - 1].title, items[items.len() - 1].title));
        }
        assert(front.push(items.last()) =~= items);
    }
}

/// A catalogue that is read again from what a read has shown is shown
/// unchanged.
pub proof fn lemma_catalogue_of_catalogue(items: Seq<AnimeItemView>)
    ensures
        catalogue_of(catalogue_of(items)) == catalogue_of(items),
        catalogue_of(items).len() <= LOAD_LIMIT,
        ordered(catalogue_of(items)),
{
    lemma_sorted_by_title(items);
    lemma_sorted_stays(catalogue_of(items));
}

/// Two reads of the same rows have the same outcome.
pub proof fn lemma_read_is_repeatable(first: Seq<StoredRowView>, second: Seq<StoredRowView>)
    requires
        first == second,
    ensures
        loaded(first) == loaded(second),
{
}

/// Whether the title `a` is not greater than the title `b`.
pub fn title_not_greater(a: &str, b: &str) -> (le: bool)
    ensures
        le == title_le(a@, b@),
{
    let left = chars_of(a);
    let right = chars_of(b);
    let mut i: usize = 0;
    assert(left@.skip(0) =~= left@ && right@.skip(0) =~= right@);
    while i < left.len() && i < right.len() && left[i] == right[i]
        invariant
            i <= left.len(),
            i <= right.len(),
            title_le(left@, right@) == title_le(left@.skip(i as int), right@.skip(i as int)),
        decreases left.len() - i,
    {
        proof {
            assert(left@.skip(i as int).skip(1) =~= left@.skip(i + 1));
            assert(right@.skip(i as int).skip(1) =~= right@.skip(i + 1));
        }
        i += 1;
    }
    if i == left.len() {
        true
    } else if i == right.len() {
        false
    } else {
        left[i] < right[i]
    }
}

/// Builds the record of a row.
fn row_item(row: &StoredRow) -> (got: Result<AnimeItem, StoreError>)
    ensures
        match got {
            Ok(item) => row_record(row@) == Some(item@),
            Err(e) => e == StoreError::Read && row_record(row@) is None,
        },
{
    match (&row.title, &row.synopsis, &row.start_date, &row.end_date, &row.cover_image) {
        (Some(title), Some(synopsis), Some(start_date), Some(end_date), Some(cover_image)) => Ok(
            AnimeItem::new(
                title.clone(),
                synopsis.clone(),
                start_date.clone(),
                end_date.clone(),
                cover_image.clone(),
            ),
        ),
        _ => Err(StoreError::Read),
    }
}

/// Puts `item` into `sorted` behind the last record whose title is not
/// greater.
fn insert_by_title(sorted: &mut Vec<AnimeItem>, item: AnimeItem)
    ensures
        views(final(sorted)@) == inserted(views(old(sorted)@), item@),
{
    let mut at = sorted.len();
    while at > 0 && !title_not_greater(sorted[at - 1].title.as_str(), item.title.as_str())
        invariant
            at <= sorted.len(),
            *sorted == *old(sorted),
            forall|j: int|
                at <= j < sorted.len() ==> !title_le(
                    #[trigger] views(sorted@)[j].title,
                    item@.title,
                ),
        decreases at,
    {
        at -= 1;
    }
    proof {
        lemma_inserted_at(views(sorted@), item@, at as int);
        assert(views(sorted@.insert(at as int, item)) =~= views(sorted@).insert(at as int, item@));
    }
    sorted.insert(at, item);
}

/// Reads the catalogue from the rows of the store: every row becomes a
/// record, the records are put in the order of their titles, and the first
/// `LOAD_LIMIT` of them are returned. A row with a column that holds no text
/// fails the whole read.
pub fn load_data(rows: &Vec<StoredRow>) -> (got: Result<AnimeItemList, StoreError>)
    ensures
        match got {
            Ok(list) => loaded(row_views(rows@)) == Ok::<_, StoreError>(list@),
            Err(e) => loaded(row_views(rows@)) == Err::<Seq<AnimeItemView>, _>(e),
        },
        got matches Ok(list) ==> {
            &&& list@.len() <= LOAD_LIMIT
            &&& list@.len() <= rows@.len()
            &&& ordered(list@)
            &&& forall|i: int| 0 <= i < list@.len() ==> !(#[trigger] list@[i]).title.contains('"')
        },
{
    let ghost all = row_views(rows@);
    let mut sorted: Vec<AnimeItem> = Vec::new();
    let mut i: usize = 0;
    while i < rows.len()
        invariant
            i <= rows@.len(),
            all == row_views(rows@),
            forall|j: int| 0 <= j < i ==> (#[trigger] row_record(all[j])) is Some,
            views(sorted@) == sorted_by_title(
                all.take(i as int).map_values(|row: StoredRowView| row_record(row)->0),
            ),
            forall|j: int| 0 <= j < sorted@.len() ==> !(#[trigger] sorted@[j])@.title.contains('"'),
        decreases rows@.len() - i,
    {
        let item = match row_item(&rows[i]) {
            Ok(item) => item,
            Err(e) => {
                assert(row_record(all[i as int]) is None);
                return Err(e);
            },
        };
        proof {
            let read = |row: StoredRowView| row_record(row)->0;
            assert(all.take(i + 1).map_values(read).drop_last() =~= all.take(i as int).map_values(
                read,
            ));
        }
        let ghost before = sorted@;
        insert_by_title(&mut sorted, item);
        proof {
            lemma_inserted(views(before), item@);
            assert forall|j: int| 0 <= j < sorted@.len() implies !(#[trigger] sorted@[j])@.title.contains(
                '"',
            ) by {
                lemma_record_kept(views(before), item@, views(sorted@), j);
                if views(sorted@)[j] != item@ {
                    let k = choose|k: int| 0 <= k < before.len() && views(before)[k] == views(sorted@)[j];
                    assert(before[k]@.title == sorted@[j]@.title);
                }
            }
        }
        i += 1;
    }
    proof {
        assert(all.take(rows@.len() as int) =~= all);
        lemma_sorted_by_title(row_records(all)->0);
    }
    sorted.truncate(LOAD_LIMIT);
    assert(views(sorted@) =~= catalogue_of(row_records(all)->0));
    let list = AnimeItemList { items: sorted };
    Ok(list)
}

/// A record of `inserted(sorted, item)` is `item` or a record of `sorted`.
proof fn lemma_record_kept(
    sorted: Seq<AnimeItemView>,
    item: AnimeItemView,
    out: Seq<AnimeItemView>,
    j: int,
)
    requires
        out == inserted(sorted, item),
        0 <= j < out.len(),
    ensures
        out[j] == item || exists|k: int| 0 <= k < sorted.len() && sorted[k] == out[j],
{
    broadcast use vstd::seq_lib::group_to_multiset_ensures;

    lemma_inserted(sorted, item);
    assert(out.to_multiset().count(out[j]) > 0);
    if out[j] != item {
        assert(sorted.to_multiset().count(out[j]) > 0);
        assert(sorted.contains(out[j]));
    }
}

} // verus!
