//! The catalogue record and the list that the catalogue is read into.

use crate::text::{
    lemma_without_char_same, remove_char, replace_char, with_char_replaced, without_char,
};
use vstd::prelude::*;
use vstd::string::StringExecFns;

verus! {

/// What a record holds, as plain text.
pub struct AnimeItemView {
    pub title: Seq<char>,
    pub synopsis: Seq<char>,
    pub start_date: Seq<char>,
    pub end_date: Seq<char>,
    pub cover_image: Seq<char>,
}

/// One entry of the catalogue. Every field is always present; text that the
/// source did not give is empty.
#[derive(Clone, Debug)]
pub struct AnimeItem {
    pub title: String,
    pub synopsis: String,
    pub start_date: String,
    pub end_date: String,
    pub cover_image: String,
}

impl View for AnimeItem {
    type V = AnimeItemView;

    open spec fn view(&self) -> AnimeItemView {
        AnimeItemView {
            title: self.title@,
            synopsis: self.synopsis@,
            start_date: self.start_date@,
            end_date: self.end_date@,
            cover_image: self.cover_image@,
        }
    }
}

/// The record that `AnimeItem::new` builds from the given texts: the title
/// loses its double quotes, the rest is kept.
pub open spec fn normalized(
    title: Seq<char>,
    synopsis: Seq<char>,
    start_date: Seq<char>,
    end_date: Seq<char>,
    cover_image: Seq<char>,
) -> AnimeItemView {
    AnimeItemView { title: without_char(title, '"'), synopsis, start_date, end_date, cover_image }
}

/// A date as it is shown: dashes become slashes.
pub open spec fn shown_date(date: Seq<char>) -> Seq<char> {
    with_char_replaced(date, '-', '/')
}

/// The text between a start date and the word that marks an unfinished run.
pub open spec fn ongoing_tail() -> Seq<char> {
    seq![' ', '-', ' ', 'o', 'n', 'g', 'o', 'i', 'n', 'g', ')']
}

/// The airing period as it is shown for a start and an end date.
pub open spec fn date_range_text(start_date: Seq<char>, end_date: Seq<char>) -> Seq<char> {
    let start = shown_date(start_date);
    let end = shown_date(end_date);
    if start == end {
        seq!['('] + start + seq![')']
    } else if start.len() > 0 && end.len() == 0 {
        seq!['('] + start + ongoing_tail()
    } else {
        seq!['('] + start + seq![' ', '-', ' '] + end + seq![')']
    }
}

impl AnimeItem {
    /// Builds a record; double quotes are taken out of the title.
    pub fn new(
        title: String,
        synopsis: String,
        start_date: String,
        end_date: String,
        cover_image: String,
    ) -> (item: AnimeItem)
        ensures
            item@ == normalized(title@, synopsis@, start_date@, end_date@, cover_image@),
            !item@.title.contains('"'),
    {
        AnimeItem {
            title: remove_char(title.as_str(), '"'),
            synopsis,
            start_date,
            end_date,
            cover_image,
        }
    }

    /// The airing period in brackets: one date where start and end agree,
    /// `start - ongoing` where only the start is known, else `start - end`.
    pub fn display_date(&self) -> (shown: String)
        ensures
            shown@ == date_range_text(self@.start_date, self@.end_date),
    {
        let start_date = replace_char(self.start_date.as_str(), '-', '/');
        let end_date = replace_char(self.end_date.as_str(), '-', '/');
        proof {
            reveal_strlit("(");
            reveal_strlit(")");
            reveal_strlit(" - ");
            reveal_strlit(" - ongoing)");
        }
        let mut shown = String::from_str("(");
        assert(shown@ =~= seq!['(']);
        shown.append(start_date.as_str());
        if start_date == end_date {
            shown.append(")");
            assert(shown@ =~= seq!['('] + start_date@ + seq![')']);
        } else if !start_date.as_str().is_empty() && end_date.as_str().is_empty() {
            shown.append(" - ongoing)");
            assert(" - ongoing)"@ =~= ongoing_tail());
            assert(shown@ =~= seq!['('] + start_date@ + ongoing_tail());
        } else {
            shown.append(" - ");
            shown.append(end_date.as_str());
            shown.append(")");
            assert(shown@ =~= seq!['('] + start_date@ + seq![' ', '-', ' '] + end_date@ + seq![
                ')',
            ]);
        }
        shown
    }
}

impl Default for AnimeItem {
    /// A record whose every field names itself as empty.
    fn default() -> (item: AnimeItem)
        ensures
            item@ == (AnimeItemView {
                title: "empty_title"@,
                synopsis: "empty_synopsis"@,
                start_date: "empty_start_date"@,
                end_date: "empty_end_date"@,
                cover_image: "empty_cover_image"@,
            }),
    {
        let item = AnimeItem::new(
            String::from_str("empty_title"),
            String::from_str("empty_synopsis"),
            String::from_str("empty_start_date"),
            String::from_str("empty_end_date"),
            String::from_str("empty_cover_image"),
        );
        proof {
            reveal_strlit("empty_title");
            lemma_without_char_same("empty_title"@, '"');
        }
        item
    }
}

/// The records `items`, each as plain text.
pub open spec fn views(items: Seq<AnimeItem>) -> Seq<AnimeItemView> {
    items.map_values(|item: AnimeItem| item@)
}

/// The records of the catalogue, in the order in which they are shown.
#[derive(Debug)]
pub struct AnimeItemList {
    pub items: Vec<AnimeItem>,
}

impl View for AnimeItemList {
    type V = Seq<AnimeItemView>;

    open spec fn view(&self) -> Seq<AnimeItemView> {
        views(self.items@)
    }
}

impl AnimeItemList {
    /// A list without records.
    pub fn new() -> (list: AnimeItemList)
        ensures
            list@ == Seq::<AnimeItemView>::empty(),
            list.items@.len() == 0,
    {
        AnimeItemList { items: Vec::new() }
    }

    /// Puts `a` at the end of the list.
    pub fn add(&mut self, a: AnimeItem)
        ensures
            final(self).items@ == old(self).items@.push(a),
            final(self)@ == old(self)@.push(a@),
    {
        self.items.push(a);
    }

    /// The number of records in the list.
    pub fn length(&self) -> (n: usize)
        ensures
            n == self@.len(),
    {
        self.items.len()
    }
}

impl Default for AnimeItemList {
    fn default() -> (list: AnimeItemList)
        ensures
            list@ == Seq::<AnimeItemView>::empty(),
    {
        AnimeItemList::new()
    }
}

} // verus!
