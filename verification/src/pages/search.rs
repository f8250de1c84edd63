//! The song search results: moving through the list, selecting songs,
//! choosing a quality and paging through results.
use vstd::prelude::*;
use crate::input::KeyCode;
use crate::pages::listing::{law_toggle_flips_only_that_entry, 
    ListBody, search_title, selection_line, spec_list_body, spec_search_title, spec_selection_line,
    FetchOutcome, cycle_quality, in_range, next_quality, selected_items, toggle_index, toggled,
};
use crate::quality::{build_quality_options, quality_options_for};
use crate::text::{int_decimal, push_int, push_str, to_owned_string};

verus! {

/// What the search page asks of the application.
pub enum SearchAction<S> {
    Back,
    Download(Vec<S>),
    /// Load result page `page`; `forward` tells whether it is the next page.
    FetchPage { page: i32, forward: bool },
}

pub struct SearchPageState<S> {
    pub keyword: String,
    pub provider_name: String,
    pub songs: Vec<S>,
    pub selected_index: usize,
    /// Positions of the chosen songs, each at most once.
    pub selected_songs: Vec<usize>,
    pub page: i32,
    pub loading: bool,
    pub message: String,
    pub quality_index: usize,
    pub quality_options: Vec<(String, i32)>,
}

/// The search page without its songs and quality choices.
pub struct SearchView {
    pub keyword: Seq<char>,
    pub provider_name: Seq<char>,
    pub selected_index: usize,
    pub selected: Seq<usize>,
    pub page: i32,
    pub loading: bool,
    pub message: Seq<char>,
    pub quality_index: usize,
}

/// The request a key makes, without the songs of a download.
pub enum SearchRequest {
    Back,
    Download,
    FetchPage { page: i32, forward: bool },
}

/// A page change: the page number moves, the list is reset and loading starts.
pub open spec fn spec_turn_page(v: SearchView, page: int) -> SearchView {
    SearchView { page: page as i32, loading: true, selected_index: 0, selected: Seq::empty(), ..v }
}

/// The effect of a key on the page, for a list of `n` songs and `q` quality choices.
pub open spec fn spec_search_key(v: SearchView, n: nat, q: nat, key: KeyCode) -> (SearchView, Option<SearchRequest>) {
    match key {
        KeyCode::Esc => (v, Some(SearchRequest::Back)),
        KeyCode::Up => (SearchView { selected_index: if v.selected_index > 0 { (v.selected_index - 1) as usize } else { v.selected_index }, ..v }, None),
        KeyCode::Down => (SearchView { selected_index: if v.selected_index + 1 < n { (v.selected_index + 1) as usize } else { v.selected_index }, ..v }, None),
        KeyCode::Char(' ') => (if (v.selected_index as nat) < n { SearchView { selected: toggled(v.selected, v.selected_index), ..v } } else { v }, None),
        KeyCode::Enter => if v.selected.len() > 0 {
            (v, Some(SearchRequest::Download))
        } else {
            (SearchView { message: "请先按空格选择歌曲"@, ..v }, None)
        },
        KeyCode::Char('k') | KeyCode::Char('K') => (SearchView { quality_index: next_quality(v.quality_index, q as usize), ..v }, None),
        KeyCode::Char('n') | KeyCode::Char('N') => if v.page > 1 {
            (spec_turn_page(v, v.page - 1), Some(SearchRequest::FetchPage { page: (v.page - 1) as i32, forward: false }))
        } else {
            (v, None)
        },
        KeyCode::Char('m') | KeyCode::Char('M') => (spec_turn_page(v, v.page + 1), Some(SearchRequest::FetchPage { page: (v.page + 1) as i32, forward: true })),
        _ => (v, None),
    }
}

/// The states and keys the page handles: no step overflows and the quality
/// list is not empty.
pub open spec fn search_key_ok(v: SearchView, n: nat, q: nat, key: KeyCode) -> bool {
    match key {
        KeyCode::Down => v.selected_index < usize::MAX,
        KeyCode::Char('k') | KeyCode::Char('K') => q > 0 && v.quality_index < usize::MAX,
        KeyCode::Char('m') | KeyCode::Char('M') => v.page < i32::MAX,
        _ => true,
    }
}

/// What the song search page shows besides its rows.
pub struct SearchScreen {
    pub title: String,
    pub body: ListBody,
    pub table_title: String,
    pub selection: String,
}

impl<S> SearchPageState<S> {
    /// The page's title, list area, table title (`歌曲列表 (第 n 页)`) and
    /// selection line (in songs, `首`).
    pub fn screen(&self) -> (res: SearchScreen)
        ensures
            res.title@ == spec_search_title("搜索结果: "@, self.keyword@, self.provider_name@),
            res.body == spec_list_body(self.loading, self.songs@.len() == 0),
            res.table_title@ == "歌曲列表 (第 "@ + int_decimal(self.page as int) + " 页)"@,
            res.selection@ == spec_selection_line(self.selected_songs@.len(), "首"@),
    {
        let body = if self.loading {
            ListBody::Loading
        } else if self.songs.len() == 0 {
            ListBody::Message
        } else {
            ListBody::Table
        };
        let mut table_title = to_owned_string("歌曲列表 (第 ");
        push_int(&mut table_title, self.page as i64);
        push_str(&mut table_title, " 页)");
        SearchScreen {
            title: search_title("搜索结果: ", self.keyword.as_str(), self.provider_name.as_str()),
            body,
            table_title,
            selection: selection_line(self.selected_songs.len(), "首"),
        }
    }

    pub open spec fn view(&self) -> SearchView {
        SearchView {
            keyword: self.keyword@,
            provider_name: self.provider_name@,
            selected_index: self.selected_index,
            selected: self.selected_songs@,
            page: self.page,
            loading: self.loading,
            message: self.message@,
            quality_index: self.quality_index,
        }
    }

    /// A page waiting for its first results; the quality choice starts on "highest".
    pub fn new(provider_name: String, quality_levels: &Vec<(i32, String)>) -> (res: Self)
        ensures
            res.keyword@ == Seq::<char>::empty(),
            res.provider_name@ == provider_name@,
            res.songs@.len() == 0,
            res.selected_index == 0,
            res.selected_songs@.len() == 0,
            res.page == 1,
            res.loading,
            res.message@ == "搜索中..."@,
            quality_options_for(res.quality_options@, quality_levels@),
            res.quality_index == res.quality_options@.len() - 1,
    {
        let quality_options = build_quality_options(quality_levels);
        let mut message = String::new();
        push_str(&mut message, "搜索中...");
        SearchPageState {
            keyword: String::new(),
            provider_name,
            songs: Vec::new(),
            selected_index: 0,
            selected_songs: Vec::new(),
            page: 1,
            loading: true,
            message,
            quality_index: quality_options.len() - 1,
            quality_options,
        }
    }

    /// Clones of the chosen songs that exist, in the order they were chosen.
    pub fn get_selected_songs(&self) -> (res: Vec<S>)
        where
            S: Clone,
        ensures
            res@.len() == in_range(self.selected_songs@, self.songs@.len()).len(),
            forall|k: int|
                0 <= k < res@.len() ==> cloned::<S>(
                    self.songs@[in_range(self.selected_songs@, self.songs@.len())[k] as int],
                    #[trigger] res@[k],
                ),
    {
        selected_items(&self.songs, &self.selected_songs)
    }

    /// Takes the first results of a search started from the home page.
    pub fn apply_search_result(&mut self, outcome: FetchOutcome<S>)
        ensures
            !final(self).loading,
            match outcome {
                FetchOutcome::Found(songs) => final(self).songs@ == songs@ && final(self).message@ == old(self).message@,
                FetchOutcome::Empty => final(self).songs@ == old(self).songs@ && final(self).message@ == "未找到结果"@,
                FetchOutcome::Failed(e) => final(self).songs@ == old(self).songs@ && final(self).message@ == "搜索失败: "@ + e@,
            },
            final(self).view() == (SearchView { loading: false, message: final(self).message@, ..old(self).view() }),
            final(self).quality_options@ == old(self).quality_options@,
    {
        match outcome {
            FetchOutcome::Found(songs) => {
                self.songs = songs;
            },
            FetchOutcome::Empty => {
                let mut m = String::new();
                push_str(&mut m, "未找到结果");
                self.message = m;
            },
            FetchOutcome::Failed(e) => {
                let mut m = String::new();
                push_str(&mut m, "搜索失败: ");
                push_str(&mut m, e.as_str());
                self.message = m;
            },
        }
        self.loading = false;
    }

    /// Takes the outcome of loading another page; when nothing came back the
    /// page number goes back to where it was.
    pub fn finish_page_fetch(&mut self, outcome: FetchOutcome<S>, forward: bool)
        requires
            forward ==> old(self).page > i32::MIN,
            !forward ==> old(self).page < i32::MAX,
        ensures
            !final(self).loading,
            match outcome {
                FetchOutcome::Found(songs) => {
                    &&& final(self).songs@ == songs@
                    &&& final(self).view() == (SearchView { loading: false, ..old(self).view() })
                },
                FetchOutcome::Empty => {
                    &&& final(self).songs@ == old(self).songs@
                    &&& final(self).view() == (SearchView {
                        loading: false,
                        page: if forward { (old(self).page - 1) as i32 } else { (old(self).page + 1) as i32 },
                        message: if forward { "没有更多结果"@ } else { "该页无结果"@ },
                        ..old(self).view()
                    })
                },
                FetchOutcome::Failed(e) => {
                    &&& final(self).songs@ == old(self).songs@
                    &&& final(self).view() == (SearchView {
                        loading: false,
                        page: if forward { (old(self).page - 1) as i32 } else { (old(self).page + 1) as i32 },
                        message: "加载失败: "@ + e@,
                        ..old(self).view()
                    })
                },
            },
            final(self).quality_options@ == old(self).quality_options@,
    {
        match outcome {
            FetchOutcome::Found(songs) => {
                self.songs = songs;
                self.loading = false;
            },
            FetchOutcome::Empty => {
                self.loading = false;
                self.page = if forward { self.page - 1 } else { self.page + 1 };
                let mut m = String::new();
                if forward {
                    push_str(&mut m, "没有更多结果");
                } else {
                    push_str(&mut m, "该页无结果");
                }
                self.message = m;
            },
            FetchOutcome::Failed(e) => {
                self.loading = false;
                self.page = if forward { self.page - 1 } else { self.page + 1 };
                let mut m = String::new();
                push_str(&mut m, "加载失败: ");
                push_str(&mut m, e.as_str());
                self.message = m;
            },
        }
    }
}

/// Reacts to a key on the search page. A page change is left to the caller,
/// which loads the page and reports through `finish_page_fetch`.
pub fn handle_search_input<S: Clone>(state: &mut SearchPageState<S>, key: KeyCode) -> (res: Option<SearchAction<S>>)
    requires
        search_key_ok(old(state).view(), old(state).songs@.len(), old(state).quality_options@.len(), key),
    ensures
        final(state).view() == spec_search_key(old(state).view(), old(state).songs@.len(), old(state).quality_options@.len(), key).0,
        final(state).songs@ == old(state).songs@,
        final(state).quality_options@ == old(state).quality_options@,
        match (res, spec_search_key(old(state).view(), old(state).songs@.len(), old(state).quality_options@.len(), key).1) {
            (None, None) => true,
            (Some(SearchAction::Back), Some(SearchRequest::Back)) => true,
            (Some(SearchAction::Download(songs)), Some(SearchRequest::Download)) => {
                let sel = in_range(old(state).selected_songs@, old(state).songs@.len());
                &&& songs@.len() == sel.len()
                &&& forall|k: int| 0 <= k < songs@.len() ==> cloned::<S>(old(state).songs@[sel[k] as int], #[trigger] songs@[k])
            },
            (Some(SearchAction::FetchPage { page, forward }), Some(SearchRequest::FetchPage { page: p, forward: f })) => page == p && forward == f,
            _ => false,
        },
{
    match key {
        KeyCode::Esc => return Some(SearchAction::Back),
        KeyCode::Up => {
            if state.selected_index > 0 {
                state.selected_index = state.selected_index - 1;
            }
        },
        KeyCode::Down => {
            if state.selected_index + 1 < state.songs.len() {
                state.selected_index = state.selected_index + 1;
            }
        },
        KeyCode::Char(' ') => {
            if state.selected_index < state.songs.len() {
                let i = state.selected_index;
                toggle_index(&mut state.selected_songs, i);
            }
        },
        KeyCode::Enter => {
            if state.selected_songs.len() > 0 {
                return Some(SearchAction::Download(state.get_selected_songs()));
            } else {
                let mut m = String::new();
                push_str(&mut m, "请先按空格选择歌曲");
                state.message = m;
            }
        },
        KeyCode::Char('k') | KeyCode::Char('K') => {
            state.quality_index = cycle_quality(state.quality_index, state.quality_options.len());
        },
        KeyCode::Char('n') | KeyCode::Char('N') => {
            if state.page > 1 {
                state.page = state.page - 1;
                state.loading = true;
                state.selected_index = 0;
                state.selected_songs.clear();
                return Some(SearchAction::FetchPage { page: state.page, forward: false });
            }
        },
        KeyCode::Char('m') | KeyCode::Char('M') => {
            state.page = state.page + 1;
            state.loading = true;
            state.selected_index = 0;
            state.selected_songs.clear();
            return Some(SearchAction::FetchPage { page: state.page, forward: true });
        },
        _ => {},
    }
    None
}

/// Up moves the cursor to the previous song and Down to the next one,
/// each by exactly one and never out of the list; Down then Up (or Up then
/// Down) comes back to the same song. Space flips whether the song
/// under the cursor is chosen and leaves every other choice. These keys
/// change nothing else and ask nothing of the application.
pub proof fn law_search_cursor_and_selection(v: SearchView, n: nat, q: nat, y: usize)
    requires
        v.selected.no_duplicates(),
        n <= usize::MAX,
    ensures
        ({
            let up = spec_search_key(v, n, q, KeyCode::Up);
            let down = spec_search_key(v, n, q, KeyCode::Down);
            &&& up.1 is None && down.1 is None
            &&& up.0 == (SearchView { selected_index: up.0.selected_index, ..v })
            &&& down.0 == (SearchView { selected_index: down.0.selected_index, ..v })
            &&& v.selected_index > 0 ==> up.0.selected_index + 1 == v.selected_index
            &&& v.selected_index == 0 ==> up.0.selected_index == 0
            &&& v.selected_index + 1 < n ==> down.0.selected_index == v.selected_index + 1
            &&& v.selected_index + 1 >= n ==> down.0.selected_index == v.selected_index
            &&& v.selected_index + 1 < n ==> spec_search_key(down.0, n, q, KeyCode::Up).0 == v
            &&& 0 < v.selected_index < n ==> spec_search_key(up.0, n, q, KeyCode::Down).0 == v
        }),
        ({
            let sp = spec_search_key(v, n, q, KeyCode::Char(' '));
            let x = v.selected_index;
            &&& sp.1 is None
            &&& sp.0 == (SearchView { selected: sp.0.selected, ..v })
            &&& x < n ==> sp.0.selected.contains(y) == (if y == x { !v.selected.contains(x) } else { v.selected.contains(y) })
            &&& x >= n ==> sp.0.selected == v.selected
        }),
{
    law_toggle_flips_only_that_entry(v.selected, v.selected_index, y);
}

} // verus!
