//! The track list of the user interface: what is listed, what is selected
//! and how the selection moves.

use crate::paths::file_name_text;
use crate::text::{clone_texts, contains, is_substring, lowercase_of, texts, to_lowercase};
use std::path::PathBuf;
use vstd::arithmetic::div_mod::{lemma_fundamental_div_mod, lemma_fundamental_div_mod_converse};
use vstd::prelude::*;

verus! {

/// What the keys currently act on.
#[derive(Clone, Copy, Debug, PartialEq, Eq)]
pub enum AppMode {
    /// Browsing the list.
    Normal,
    /// Typing a search.
    Search,
    /// Transport controls.
    Play,
    /// The help page.
    Help,
}

/// The list of tracks and the selection in it.
///
/// The selection is an index into `filtered_list`. Nothing keeps it inside
/// the list: a search that matches nothing still selects index 0.
pub struct App {
    /// Display names of all tracks.
    pub music_list: Vec<String>,
    /// The names that the search lets through, in the order of `music_list`.
    pub filtered_list: Vec<String>,
    /// Index of the highlighted row, if any.
    pub selected: Option<usize>,
    pub mode: AppMode,
    /// What has been typed into the search box.
    pub search_input: String,
    /// The tags of the track that was played last, ready for display.
    pub current_song_tags: String,
}

/// Whether the search `query` lets `song` through: whether the lowercase
/// form of the query occurs in the lowercase form of the name.
pub open spec fn song_matches(song: Seq<char>, query: Seq<char>) -> bool {
    is_substring(lowercase_of(query), lowercase_of(song))
}

/// The names among `songs` that the search `query` lets through, in order.
/// An empty query lets everything through.
pub open spec fn search_results(songs: Seq<Seq<char>>, query: Seq<char>) -> Seq<Seq<char>> {
    if query.len() == 0 {
        songs
    } else {
        songs.filter(|song: Seq<char>| song_matches(song, query))
    }
}

/// The text of each name that is there.
pub open spec fn name_texts(names: Seq<Option<String>>) -> Seq<Option<Seq<char>>> {
    names.map_values(
        |name: Option<String>|
            match name {
                Some(text) => Some(text@),
                None => None,
            },
    )
}

/// The names that are there, in order.
pub open spec fn present(names: Seq<Option<Seq<char>>>) -> Seq<Seq<char>> {
    names.filter(|name: Option<Seq<char>>| name is Some).map_values(
        |name: Option<Seq<char>>| name->Some_0,
    )
}

/// Whether `index` is the first place in `names` that holds `wanted`.
pub open spec fn is_first_named(
    names: Seq<Option<Seq<char>>>,
    wanted: Seq<char>,
    index: int,
) -> bool {
    &&& 0 <= index < names.len()
    &&& names[index] == Some(wanted)
    &&& forall|j: int| 0 <= j < index ==> names[j] != Some(wanted)
}

/// The index below `selected` in a list of `len` rows, wrapping to the top.
pub open spec fn index_below(selected: Option<usize>, len: int) -> int {
    match selected {
        Some(i) => (i + 1) % len,
        None => 0,
    }
}

/// The index above `selected` in a list of `len` rows, wrapping to the bottom.
pub open spec fn index_above(selected: Option<usize>, len: int) -> int {
    match selected {
        Some(i) => (i + len - 1) % len,
        None => 0,
    }
}

/// The index half a page of `area_height` rows below `selected`, stopping at
/// the last of `len` rows.
pub open spec fn index_half_page_below(selected: Option<usize>, area_height: int, len: int) -> int
    recommends
        len > 0,
{
    let current: int = match selected {
        Some(i) => i as int,
        None => 0,
    };
    if current + area_height / 2 <= len - 1 {
        current + area_height / 2
    } else {
        len - 1
    }
}

/// The index half a page of `area_height` rows above `selected`, stopping at
/// the first row.
pub open spec fn index_half_page_above(selected: Option<usize>, area_height: int) -> int {
    let current: int = match selected {
        Some(i) => i as int,
        None => 0,
    };
    if current - area_height / 2 >= 0 {
        current - area_height / 2
    } else {
        0
    }
}

proof fn lemma_row_below(i: int, len: int)
    requires
        0 <= i,
        0 < len,
    ensures
        (i + 1) % len == if i % len == len - 1 {
            0
        } else {
            i % len + 1
        },
{
    lemma_fundamental_div_mod(i, len);
    let q: int = i / len;
    let r: int = i % len;
    assert(i == q * len + r) by (nonlinear_arith)
        requires
            i == len * q + r,
    ;
    if r == len - 1 {
        assert(i + 1 == (q + 1) * len + 0) by (nonlinear_arith)
            requires
                i == q * len + r,
                r == len - 1,
        ;
        lemma_fundamental_div_mod_converse(i + 1, len, q + 1, 0);
    } else {
        lemma_fundamental_div_mod_converse(i + 1, len, q, r + 1);
    }
}

proof fn lemma_row_above(i: int, len: int)
    requires
        0 <= i,
        0 < len,
    ensures
        (i + len - 1) % len == if i % len == 0 {
            len - 1
        } else {
            i % len - 1
        },
{
    lemma_fundamental_div_mod(i, len);
    let q: int = i / len;
    let r: int = i % len;
    assert(i == q * len + r) by (nonlinear_arith)
        requires
            i == len * q + r,
    ;
    if r == 0 {
        lemma_fundamental_div_mod_converse(i + len - 1, len, q, len - 1);
    } else {
        assert(i + len - 1 == (q + 1) * len + (r - 1)) by (nonlinear_arith)
            requires
                i == q * len + r,
        ;
        lemma_fundamental_div_mod_converse(i + len - 1, len, q + 1, r - 1);
    }
}

impl App {
    /// A list of the given names, unfiltered, with the first row selected.
    pub fn with_names(music_list: Vec<String>) -> (app: Self)
        ensures
            app.music_list == music_list,
            texts(app.filtered_list@) == texts(music_list@),
            app.filtered_list@.len() == music_list@.len(),
            app.selected == Some(0usize),
            app.mode == AppMode::Normal,
            app.search_input@.len() == 0,
            app.current_song_tags@.len() == 0,
    {
        let filtered_list: Vec<String> = clone_texts(&music_list);
        App {
            music_list,
            filtered_list,
            selected: Some(0),
            mode: AppMode::Normal,
            search_input: String::new(),
            current_song_tags: String::new(),
        }
    }

    /// A list of the tracks at `music_files`, each under the last component
    /// of its path, in the order given. A path without such a component is
    /// left out.
    pub fn new(music_files: &[PathBuf]) -> (app: Self)
        ensures
            exists|names: Seq<Option<Seq<char>>>|
                names.len() == music_files@.len() && texts(app.music_list@) == present(names),
            app.music_list@.len() <= music_files@.len(),
            texts(app.filtered_list@) == texts(app.music_list@),
            app.filtered_list@.len() == app.music_list@.len(),
            app.selected == Some(0usize),
            app.mode == AppMode::Normal,
            app.search_input@.len() == 0,
            app.current_song_tags@.len() == 0,
    {
        let names: Vec<Option<String>> = track_names(music_files);
        let ghost shown = name_texts(names@);
        let music_list: Vec<String> = present_names(names);
        proof {
            shown.lemma_filter_len(|name: Option<Seq<char>>| name is Some);
            assert(texts(music_list@).len() == music_list@.len());
        }
        App::with_names(music_list)
    }

    /// Applies the search: lists the names that `search_input` lets through
    /// and selects the first row.
    pub fn filter_list(&mut self)
        ensures
            texts(final(self).filtered_list@) == search_results(
                texts(old(self).music_list@),
                old(self).search_input@,
            ),
            final(self).selected == Some(0usize),
            final(self).music_list == old(self).music_list,
            final(self).mode == old(self).mode,
            final(self).search_input == old(self).search_input,
            final(self).current_song_tags == old(self).current_song_tags,
    {
        if self.search_input.as_str().is_empty() {
            self.filtered_list = clone_texts(&self.music_list);
        } else {
            let query: String = to_lowercase(self.search_input.as_str());
            let ghost pred = |song: Seq<char>| song_matches(song, self.search_input@);
            let mut kept: Vec<String> = Vec::new();
            let n: usize = self.music_list.len();
            let mut i: usize = 0;
            while i < n
                invariant
                    i <= n,
                    n == self.music_list@.len(),
                    *self == *old(self),
                    query@ == lowercase_of(self.search_input@),
                    pred == |song: Seq<char>| song_matches(song, self.search_input@),
                    texts(kept@) == texts(self.music_list@.take(i as int)).filter(pred),
                decreases n - i,
            {
                let song: &String = &self.music_list[i];
                let lower: String = to_lowercase(song.as_str());
                if contains(lower.as_str(), query.as_str()) {
                    kept.push(song.clone());
                }
                proof {
                    reveal(Seq::filter);
                    assert(texts(self.music_list@.take(i + 1)).drop_last() =~= texts(
                        self.music_list@.take(i as int),
                    ));
                }
                i = i + 1;
            }
            assert(self.music_list@.take(n as int) =~= self.music_list@);
            self.filtered_list = kept;
        }
        self.selected = Some(0);
    }

    /// Moves the selection one row down, from the last row to the first.
    /// Without a selection the first row is selected.
    pub fn move_down(&mut self)
        requires
            old(self).selected is Some ==> old(self).filtered_list@.len() > 0,
        ensures
            final(self).selected == Some(
                index_below(old(self).selected, old(self).filtered_list@.len() as int) as usize,
            ),
            final(self).selected is Some,
            old(self).filtered_list@.len() > 0 ==> final(self).selected->Some_0 < old(
                self,
            ).filtered_list@.len(),
            *final(self) == (App { selected: final(self).selected, ..*old(self) }),
    {
        let len: usize = self.filtered_list.len();
        let next: usize = match self.selected {
            Some(i) => {
                proof {
                    lemma_row_below(i as int, len as int);
                }
                let row: usize = i % len;
                if row == len - 1 {
                    0
                } else {
                    row + 1
                }
            },
            None => 0,
        };
        self.selected = Some(next);
    }

    /// Moves the selection one row up, from the first row to the last.
    /// Without a selection the first row is selected.
    pub fn move_up(&mut self)
        requires
            old(self).selected is Some ==> old(self).filtered_list@.len() > 0,
        ensures
            final(self).selected == Some(
                index_above(old(self).selected, old(self).filtered_list@.len() as int) as usize,
            ),
            final(self).selected is Some,
            old(self).filtered_list@.len() > 0 ==> final(self).selected->Some_0 < old(
                self,
            ).filtered_list@.len(),
            *final(self) == (App { selected: final(self).selected, ..*old(self) }),
    {
        let len: usize = self.filtered_list.len();
        let next: usize = match self.selected {
            Some(i) => {
                proof {
                    lemma_row_above(i as int, len as int);
                }
                let row: usize = i % len;
                if row == 0 {
                    len - 1
                } else {
                    row - 1
                }
            },
            None => 0,
        };
        self.selected = Some(next);
    }

    /// Moves the selection down by half of `area_height` rows, at most to
    /// the last row.
    pub fn half_page_down(&mut self, area_height: usize)
        requires
            old(self).filtered_list@.len() > 0,
        ensures
            final(self).selected == Some(
                index_half_page_below(
                    old(self).selected,
                    area_height as int,
                    old(self).filtered_list@.len() as int,
                ) as usize,
            ),
            *final(self) == (App { selected: final(self).selected, ..*old(self) }),
    {
        let half_page: usize = area_height / 2;
        let last: usize = self.filtered_list.len() - 1;
        let current: usize = match self.selected {
            Some(i) => i,
            None => 0,
        };
        let next: usize = if current > last || half_page > last - current {
            last
        } else {
            current + half_page
        };
        self.selected = Some(next);
    }

    /// Moves the selection up by half of `area_height` rows, at most to the
    /// first row.
    pub fn half_page_up(&mut self, area_height: usize)
        ensures
            final(self).selected == Some(
                index_half_page_above(old(self).selected, area_height as int) as usize,
            ),
            *final(self) == (App { selected: final(self).selected, ..*old(self) }),
    {
        let half_page: usize = area_height / 2;
        let current: usize = match self.selected {
            Some(i) => i,
            None => 0,
        };
        let next: usize = if current >= half_page {
            current - half_page
        } else {
            0
        };
        self.selected = Some(next);
    }

    /// Selects the first row.
    pub fn go_to_top(&mut self)
        ensures
            *final(self) == (App { selected: Some(0usize), ..*old(self) }),
    {
        self.selected = Some(0);
    }

    /// Selects the last row.
    pub fn go_to_bottom(&mut self)
        requires
            old(self).filtered_list@.len() > 0,
        ensures
            *final(self) == (App {
                selected: Some((old(self).filtered_list@.len() - 1) as usize),
                ..*old(self)
            }),
    {
        self.selected = Some(self.filtered_list.len() - 1);
    }

    /// Switches to `mode`.
    pub fn show(&mut self, mode: AppMode)
        ensures
            *final(self) == (App { mode, ..*old(self) }),
    {
        self.mode = mode;
    }

    /// Opens the search with an empty box. The list stays as it is until
    /// something is typed.
    pub fn start_search(&mut self)
        ensures
            final(self).mode == AppMode::Search,
            final(self).search_input@ == Seq::<char>::empty(),
            final(self).music_list == old(self).music_list,
            final(self).filtered_list == old(self).filtered_list,
            final(self).selected == old(self).selected,
            final(self).current_song_tags == old(self).current_song_tags,
    {
        self.mode = AppMode::Search;
        self.search_input.clear();
    }

    /// Appends `c` to the search and applies it.
    pub fn type_search(&mut self, c: char)
        ensures
            final(self).search_input@ == old(self).search_input@.push(c),
            texts(final(self).filtered_list@) == search_results(
                texts(old(self).music_list@),
                old(self).search_input@.push(c),
            ),
            final(self).selected == Some(0usize),
            final(self).music_list == old(self).music_list,
            final(self).mode == old(self).mode,
            final(self).current_song_tags == old(self).current_song_tags,
    {
        self.search_input.push(c);
        self.filter_list();
    }

    /// Deletes the last character of the search, if there is one, and
    /// applies what is left.
    pub fn erase_search(&mut self)
        ensures
            final(self).search_input@ == if old(self).search_input@.len() > 0 {
                old(self).search_input@.drop_last()
            } else {
                old(self).search_input@
            },
            texts(final(self).filtered_list@) == search_results(
                texts(old(self).music_list@),
                final(self).search_input@,
            ),
            final(self).selected == Some(0usize),
            final(self).music_list == old(self).music_list,
            final(self).mode == old(self).mode,
            final(self).current_song_tags == old(self).current_song_tags,
    {
        let _ = self.search_input.pop();
        self.filter_list();
    }

    /// Leaves the search and drops it: the box is emptied and the whole
    /// list shown again.
    pub fn cancel_search(&mut self)
        ensures
            final(self).mode == AppMode::Normal,
            final(self).search_input@ == Seq::<char>::empty(),
            texts(final(self).filtered_list@) == texts(old(self).music_list@),
            final(self).selected == Some(0usize),
            final(self).music_list == old(self).music_list,
            final(self).current_song_tags == old(self).current_song_tags,
    {
        self.mode = AppMode::Normal;
        self.search_input.clear();
        self.filter_list();
    }

    /// Leaves the search and keeps its results.
    pub fn accept_search(&mut self)
        ensures
            *final(self) == (App { mode: AppMode::Normal, ..*old(self) }),
    {
        self.mode = AppMode::Normal;
    }

    /// The name in the selected row, if a row is selected and exists.
    pub fn get_selected_song(&self) -> (song: Option<&String>)
        ensures
            match self.selected {
                Some(i) if i < self.filtered_list@.len() => song == Some(
                    &self.filtered_list@[i as int],
                ),
                _ => song is None,
            },
    {
        match self.selected {
            Some(i) => {
                if i < self.filtered_list.len() {
                    Some(&self.filtered_list[i])
                } else {
                    None
                }
            },
            None => None,
        }
    }
}

/// The display name of each file: the last component of its path, where it
/// has one.
pub fn track_names(music_files: &[PathBuf]) -> (names: Vec<Option<String>>)
    ensures
        names@.len() == music_files@.len(),
{
    let mut names: Vec<Option<String>> = Vec::new();
    let n: usize = music_files.len();
    let mut i: usize = 0;
    while i < n
        invariant
            i <= n,
            n == music_files@.len(),
            names@.len() == i,
        decreases n - i,
    {
        names.push(file_name_text(&music_files[i]));
        i = i + 1;
    }
    names
}

/// The names that are there, in order.
pub fn present_names(names: Vec<Option<String>>) -> (list: Vec<String>)
    ensures
        texts(list@) == present(name_texts(names@)),
{
    let ghost given = name_texts(names@);
    let ghost pred = |name: Option<Seq<char>>| name is Some;
    let ghost text_of = |name: Option<Seq<char>>| name->Some_0;
    let mut list: Vec<String> = Vec::new();
    for name in it: names
        invariant
            given == name_texts(names@),
            pred == |name: Option<Seq<char>>| name is Some,
            text_of == |name: Option<Seq<char>>| name->Some_0,
            it.seq() == names@,
            texts(list@) == given.take(it.index()).filter(pred).map_values(text_of),
    {
        let ghost before = given.take(it.index());
        let ghost after = given.take(it.index() + 1);
        proof {
            reveal(Seq::filter);
            assert(after.drop_last() =~= before);
        }
        if let Some(text) = name {
            let ghost shown = text@;
            list.push(text);
            assert(after.filter(pred).map_values(text_of) =~= before.filter(pred).map_values(
                text_of,
            ).push(shown));
        }
    }
    assert(given.take(names@.len() as int) =~= given);
    list
}

/// The first place in `names` that holds `wanted`, if any does.
pub fn find_name(names: &Vec<Option<String>>, wanted: &String) -> (found: Option<usize>)
    ensures
        match found {
            Some(index) => is_first_named(name_texts(names@), wanted@, index as int),
            None => forall|j: int|
                0 <= j < names@.len() ==> name_texts(names@)[j] != Some(wanted@),
        },
{
    let n: usize = names.len();
    let mut i: usize = 0;
    while i < n
        invariant
            i <= n,
            n == names@.len(),
            forall|j: int| 0 <= j < i ==> name_texts(names@)[j] != Some(wanted@),
        decreases n - i,
    {
        if let Some(name) = &names[i] {
            if *name == *wanted {
                return Some(i);
            }
        }
        i = i + 1;
    }
    None
}

} // verus!
