//! The album search results: moving through the list, selecting albums and
//! choosing a quality.
use vstd::prelude::*;
use crate::input::KeyCode;
use crate::pages::listing::{law_toggle_flips_only_that_entry, ListBody, search_title, selection_line, spec_list_body, spec_search_title, spec_selection_line, FetchOutcome, cycle_quality, in_range, next_quality, selected_items, toggle_index, toggled};
use crate::quality::{build_quality_options, quality_options_for};
use crate::text::{chars_of, push_str, to_owned_string};

verus! {

/// The quality chosen for a download.
#[derive(Clone, Copy, PartialEq, Eq, Structural, Debug)]
pub struct DownloadConfig {
    pub quality: i32,
}

/// What the album page asks of the application.
pub enum AlbumSearchAction<A> {
    Back,
    Download(Vec<A>, DownloadConfig),
}

pub struct AlbumSearchState<A> {
    pub keyword: String,
    pub provider_name: String,
    pub albums: Vec<A>,
    pub selected_indices: Vec<usize>,
    pub current_index: usize,
    pub loading: bool,
    pub message: String,
    pub quality_index: usize,
    pub quality_options: Vec<(String, i32)>,
}

/// The album page without its albums and quality choices.
pub struct AlbumSearchView {
    pub keyword: Seq<char>,
    pub provider_name: Seq<char>,
    pub selected: Seq<usize>,
    pub current_index: usize,
    pub loading: bool,
    pub message: Seq<char>,
    pub quality_index: usize,
}

/// The effect of a key on the page for `n` albums and `q` quality choices;
/// the flag tells whether a download is asked for.
pub open spec fn spec_album_key(v: AlbumSearchView, n: nat, q: nat, key: KeyCode) -> (AlbumSearchView, Option<bool>) {
    match key {
        KeyCode::Esc => (v, Some(false)),
        KeyCode::Up => (AlbumSearchView { current_index: if v.current_index > 0 { (v.current_index - 1) as usize } else { v.current_index }, ..v }, None),
        KeyCode::Down => (AlbumSearchView { current_index: if v.current_index + 1 < n { (v.current_index + 1) as usize } else { v.current_index }, ..v }, None),
        KeyCode::Char(' ') => (AlbumSearchView { selected: toggled(v.selected, v.current_index), ..v }, None),
        KeyCode::Enter => if in_range(v.selected, n).len() > 0 {
            (v, Some(true))
        } else {
            (AlbumSearchView { message: "请先按空格选择专辑"@, ..v }, None)
        },
        KeyCode::Char('k') | KeyCode::Char('K') => (AlbumSearchView { quality_index: next_quality(v.quality_index, q as usize), ..v }, None),
        _ => (v, None),
    }
}

/// The states and keys the page handles: no step overflows, the quality
/// list is not empty, and a download reads a quality that exists.
pub open spec fn album_key_ok(v: AlbumSearchView, n: nat, q: nat, key: KeyCode) -> bool {
    match key {
        KeyCode::Down => v.current_index < usize::MAX,
        KeyCode::Enter => in_range(v.selected, n).len() > 0 ==> v.quality_index < q,
        KeyCode::Char('k') | KeyCode::Char('K') => q > 0 && v.quality_index < usize::MAX,
        _ => true,
    }
}

/// What the album search page shows besides its rows.
pub struct AlbumSearchScreen {
    pub title: String,
    pub body: ListBody,
    pub selection: String,
    /// The message under the quality choices, when there is one.
    pub notice: Option<String>,
}

impl<A> AlbumSearchState<A> {
    /// The page's title, list area, selection line (in albums, `个`) and
    /// notice.
    pub fn screen(&self) -> (res: AlbumSearchScreen)
        ensures
            res.title@ == spec_search_title("搜索专辑: "@, self.keyword@, self.provider_name@),
            res.body == spec_list_body(self.loading, self.albums@.len() == 0),
            res.selection@ == spec_selection_line(self.selected_indices@.len(), "个"@),
            match res.notice {
                Some(m) => self.message@.len() > 0 && m@ == self.message@,
                None => self.message@.len() == 0,
            },
    {
        let body = if self.loading {
            ListBody::Loading
        } else if self.albums.len() == 0 {
            ListBody::Message
        } else {
            ListBody::Table
        };
        let notice = if chars_of(self.message.as_str()).len() > 0 { Some(to_owned_string(self.message.as_str())) } else { None };
        AlbumSearchScreen {
            title: search_title("搜索专辑: ", self.keyword.as_str(), self.provider_name.as_str()),
            body,
            selection: selection_line(self.selected_indices.len(), "个"),
            notice,
        }
    }

    pub open spec fn view(&self) -> AlbumSearchView {
        AlbumSearchView {
            keyword: self.keyword@,
            provider_name: self.provider_name@,
            selected: self.selected_indices@,
            current_index: self.current_index,
            loading: self.loading,
            message: self.message@,
            quality_index: self.quality_index,
        }
    }

    /// A page waiting for its first results; the quality choice starts on "highest".
    pub fn new(provider_name: String, quality_levels: &Vec<(i32, String)>) -> (res: Self)
        ensures
            res.keyword@ == Seq::<char>::empty(),
            res.provider_name@ == provider_name@,
            res.albums@.len() == 0,
            res.selected_indices@.len() == 0,
            res.current_index == 0,
            res.loading,
            res.message@ == "搜索中..."@,
            quality_options_for(res.quality_options@, quality_levels@),
            res.quality_index == res.quality_options@.len() - 1,
    {
        let quality_options = build_quality_options(quality_levels);
        let mut message = String::new();
        push_str(&mut message, "搜索中...");
        AlbumSearchState {
            keyword: String::new(),
            provider_name,
            albums: Vec::new(),
            selected_indices: Vec::new(),
            current_index: 0,
            loading: true,
            message,
            quality_index: quality_options.len() - 1,
            quality_options,
        }
    }

    /// Clones of the chosen albums that exist, in the order they were chosen.
    pub fn get_selected_albums(&self) -> (res: Vec<A>)
        where
            A: Clone,
        ensures
            res@.len() == in_range(self.selected_indices@, self.albums@.len()).len(),
            forall|k: int|
                0 <= k < res@.len() ==> cloned::<A>(
                    self.albums@[in_range(self.selected_indices@, self.albums@.len())[k] as int],
                    #[trigger] res@[k],
                ),
    {
        selected_items(&self.albums, &self.selected_indices)
    }

    /// Takes the results of a search started from the home page.
    pub fn apply_search_result(&mut self, outcome: FetchOutcome<A>)
        ensures
            match outcome {
                FetchOutcome::Found(albums) => final(self).albums@ == albums@ && final(self).message@ == old(self).message@,
                FetchOutcome::Empty => final(self).albums@ == old(self).albums@ && final(self).message@ == "未找到专辑"@,
                FetchOutcome::Failed(e) => final(self).albums@ == old(self).albums@ && final(self).message@ == "搜索失败: "@ + e@,
            },
            final(self).view() == (AlbumSearchView { loading: false, message: final(self).message@, ..old(self).view() }),
            final(self).quality_options@ == old(self).quality_options@,
    {
        match outcome {
            FetchOutcome::Found(albums) => {
                self.albums = albums;
            },
            FetchOutcome::Empty => {
                let mut m = String::new();
                push_str(&mut m, "未找到专辑");
                self.message = m;
            },
            FetchOutcome::Failed(e) => {
                let mut m = String::new();
                push_str(&mut m, "搜索失败: ");
                push_str(&mut m, e.as_str());
                self.message = m;
            },
        }
        self.loading = false;
    }
}

/// Reacts to a key on the album page.
pub fn handle_album_search_input<A: Clone>(state: &mut AlbumSearchState<A>, key: KeyCode) -> (res: Option<AlbumSearchAction<A>>)
    requires
        album_key_ok(old(state).view(), old(state).albums@.len(), old(state).quality_options@.len(), key),
    ensures
        final(state).view() == spec_album_key(old(state).view(), old(state).albums@.len(), old(state).quality_options@.len(), key).0,
        final(state).albums@ == old(state).albums@,
        final(state).quality_options@ == old(state).quality_options@,
        match (res, spec_album_key(old(state).view(), old(state).albums@.len(), old(state).quality_options@.len(), key).1) {
            (None, None) => true,
            (Some(AlbumSearchAction::Back), Some(false)) => true,
            (Some(AlbumSearchAction::Download(albums, cfg)), Some(true)) => {
                let sel = in_range(old(state).selected_indices@, old(state).albums@.len());
                &&& albums@.len() == sel.len()
                &&& forall|k: int| 0 <= k < albums@.len() ==> cloned::<A>(old(state).albums@[sel[k] as int], #[trigger] albums@[k])
                &&& cfg.quality == old(state).quality_options@[old(state).quality_index as int].1
            },
            _ => false,
        },
{
    match key {
        KeyCode::Esc => return Some(AlbumSearchAction::Back),
        KeyCode::Up => {
            if state.current_index > 0 {
                state.current_index = state.current_index - 1;
            }
        },
        KeyCode::Down => {
            if state.current_index + 1 < state.albums.len() {
                state.current_index = state.current_index + 1;
            }
        },
        KeyCode::Char(' ') => {
            let i = state.current_index;
            toggle_index(&mut state.selected_indices, i);
        },
        KeyCode::Enter => {
            let selected = state.get_selected_albums();
            if selected.len() > 0 {
                let quality = state.quality_options[state.quality_index].1;
                return Some(AlbumSearchAction::Download(selected, DownloadConfig { quality }));
            } else {
                let mut m = String::new();
                push_str(&mut m, "请先按空格选择专辑");
                state.message = m;
            }
        },
        KeyCode::Char('k') | KeyCode::Char('K') => {
            state.quality_index = cycle_quality(state.quality_index, state.quality_options.len());
        },
        _ => {},
    }
    None
}

/// Up moves the cursor to the previous album and Down to the next one,
/// each by exactly one and never out of the list; Down then Up (or Up then
/// Down) comes back to the same album. Space flips whether the album
/// under the cursor is chosen and leaves every other choice. These keys
/// change nothing else and ask nothing of the application.
pub proof fn law_album_cursor_and_selection(v: AlbumSearchView, n: nat, q: nat, y: usize)
    requires
        v.selected.no_duplicates(),
        n <= usize::MAX,
    ensures
        ({
            let up = spec_album_key(v, n, q, KeyCode::Up);
            let down = spec_album_key(v, n, q, KeyCode::Down);
            &&& up.1 is None && down.1 is None
            &&& up.0 == (AlbumSearchView { current_index: up.0.current_index, ..v })
            &&& down.0 == (AlbumSearchView { current_index: down.0.current_index, ..v })
            &&& v.current_index > 0 ==> up.0.current_index + 1 == v.current_index
            &&& v.current_index == 0 ==> up.0.current_index == 0
            &&& v.current_index + 1 < n ==> down.0.current_index == v.current_index + 1
            &&& v.current_index + 1 >= n ==> down.0.current_index == v.current_index
            &&& v.current_index + 1 < n ==> spec_album_key(down.0, n, q, KeyCode::Up).0 == v
            &&& 0 < v.current_index < n ==> spec_album_key(up.0, n, q, KeyCode::Down).0 == v
        }),
        ({
            let sp = spec_album_key(v, n, q, KeyCode::Char(' '));
            let x = v.current_index;
            &&& sp.1 is None
            &&& sp.0 == (AlbumSearchView { selected: sp.0.selected, ..v })
            &&& sp.0.selected.contains(y) == (if y == x { !v.selected.contains(x) } else { v.selected.contains(y) })
        }),
{
    law_toggle_flips_only_that_entry(v.selected, v.current_index, y);
}

} // verus!
