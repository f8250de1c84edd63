//! The user's playlists: paging, moving within a page, selecting playlists
//! and choosing a quality.
use vstd::prelude::*;
use crate::input::KeyCode;
use crate::pages::listing::{law_toggle_flips_only_that_entry, ListBody, selection_line, spec_selection_line, FetchOutcome, cycle_quality, in_range, next_quality, selected_items, toggle_index, toggled};
use crate::quality::{build_quality_options, quality_options_for};
use crate::text::{chars_of, int_decimal, push_int, push_str, to_owned_string};

verus! {

/// The quality chosen for a playlist download.
#[derive(Clone, Copy, PartialEq, Eq, Structural, Debug)]
pub struct DownloadConfig {
    pub quality: i32,
}

/// What the playlist page asks of the application.
pub enum PlaylistAction<P> {
    Back,
    Download(Vec<P>, DownloadConfig),
}

pub struct PlaylistPageState<P> {
    pub provider_name: String,
    pub playlists: Vec<P>,
    pub selected_indices: Vec<usize>,
    /// Position within the current page.
    pub current_index: usize,
    pub page: i32,
    pub items_per_page: usize,
    pub loading: bool,
    pub message: String,
    pub quality_index: usize,
    pub quality_options: Vec<(String, i32)>,
}

/// The playlist page without its playlists and quality choices.
pub struct PlaylistView {
    pub provider_name: Seq<char>,
    pub selected: Seq<usize>,
    pub current_index: usize,
    pub page: i32,
    pub items_per_page: usize,
    pub loading: bool,
    pub message: Seq<char>,
    pub quality_index: usize,
}

/// Position of the first playlist of a page.
pub open spec fn page_start(page: i32, per_page: usize) -> int {
    (page - 1) * per_page
}

/// One past the last playlist of a page.
pub open spec fn page_end(page: i32, per_page: usize, n: nat) -> int {
    let e = page_start(page, per_page) + per_page;
    if e < n { e } else { n as int }
}

/// The page's bounds can be computed without overflow and lie within the list.
pub open spec fn page_in_list(page: i32, per_page: usize, n: nat) -> bool {
    &&& page >= 1
    &&& page_start(page, per_page) + per_page <= usize::MAX
    &&& page_start(page, per_page) <= n
}

/// The number of pages, `ceil(n / per_page)` capped at `i32::MAX`; with no
/// room per page it is 0 for an empty list and `i32::MAX` otherwise.
pub open spec fn spec_total_pages(n: nat, per_page: usize) -> int {
    if per_page == 0 {
        if n == 0 { 0 } else { i32::MAX as int }
    } else {
        let q = (n + per_page - 1) / (per_page as int);
        if q > i32::MAX { i32::MAX as int } else { q }
    }
}

/// The effect of a key on the page for `n` playlists and `q` quality choices;
/// the flag tells whether a download is asked for.
pub open spec fn spec_playlist_key(v: PlaylistView, n: nat, q: nat, key: KeyCode) -> (PlaylistView, Option<bool>) {
    let items = page_end(v.page, v.items_per_page, n) - page_start(v.page, v.items_per_page);
    match key {
        KeyCode::Esc => (v, Some(false)),
        KeyCode::Up => (PlaylistView { current_index: if items > 0 && v.current_index > 0 { (v.current_index - 1) as usize } else { v.current_index }, ..v }, None),
        KeyCode::Down => (PlaylistView { current_index: if items > 0 && v.current_index + 1 < items { (v.current_index + 1) as usize } else { v.current_index }, ..v }, None),
        KeyCode::Char(' ') => (PlaylistView { selected: toggled(v.selected, (page_start(v.page, v.items_per_page) + v.current_index) as usize), ..v }, None),
        KeyCode::Enter => if in_range(v.selected, n).len() > 0 {
            (v, Some(true))
        } else {
            (PlaylistView { message: "请先按空格选择歌单"@, ..v }, None)
        },
        KeyCode::Char('k') | KeyCode::Char('K') => (PlaylistView { quality_index: next_quality(v.quality_index, q as usize), ..v }, None),
        KeyCode::Char('n') | KeyCode::Char('N') => (if v.page > 1 { PlaylistView { page: (v.page - 1) as i32, current_index: 0, ..v } } else { v }, None),
        KeyCode::Char('m') | KeyCode::Char('M') => (if v.page < spec_total_pages(n, v.items_per_page) { PlaylistView { page: (v.page + 1) as i32, current_index: 0, ..v } } else { v }, None),
        _ => (v, None),
    }
}

/// The states and keys the page handles: no step overflows, the quality
/// list is not empty, and the current page lies within the list.
pub open spec fn playlist_key_ok(v: PlaylistView, n: nat, q: nat, key: KeyCode) -> bool {
    match key {
        KeyCode::Up => page_in_list(v.page, v.items_per_page, n),
        KeyCode::Down => page_in_list(v.page, v.items_per_page, n) && v.current_index < usize::MAX,
        KeyCode::Char(' ') => v.page >= 1 && page_start(v.page, v.items_per_page) + v.current_index <= usize::MAX,
        KeyCode::Enter => in_range(v.selected, n).len() > 0 ==> v.quality_index < q,
        KeyCode::Char('k') | KeyCode::Char('K') => q > 0 && v.quality_index < usize::MAX,
        _ => true,
    }
}

/// What the playlist page shows besides its rows.
pub struct PlaylistScreen {
    /// `我的歌单 [provider]`.
    pub title: String,
    pub body: PlaylistBody,
    /// `歌单列表 (第 page/pages 页)`.
    pub table_title: String,
    pub selection: String,
    /// The message under the quality choices, when there is one.
    pub notice: Option<String>,
}

/// What the list area of the playlist page shows.
#[derive(Clone, Copy, PartialEq, Eq, Structural, Debug)]
pub enum PlaylistBody {
    Loading,
    Message,
    /// The current page's playlists.
    Table,
    /// The current page lies past the list, or its bounds leave `usize`: the
    /// page cannot be listed.
    OutOfList,
}

/// The list area: loading notice, message for an empty list, the page's
/// table, or no page at all when it lies outside the list.
pub open spec fn spec_playlist_body(loading: bool, page: i32, per_page: usize, n: nat) -> PlaylistBody {
    if loading {
        PlaylistBody::Loading
    } else if n == 0 {
        PlaylistBody::Message
    } else if page_in_list(page, per_page, n) {
        PlaylistBody::Table
    } else {
        PlaylistBody::OutOfList
    }
}

impl<P> PlaylistPageState<P> {
    /// The page's title, list area, table title, selection line (in
    /// playlists, `个`) and notice.
    pub fn screen(&self) -> (res: PlaylistScreen)
        ensures
            res.title@ == "我的歌单 ["@ + self.provider_name@ + "]"@,
            res.body == spec_playlist_body(self.loading, self.page, self.items_per_page, self.playlists@.len()),
            res.table_title@ == "歌单列表 (第 "@ + int_decimal(self.page as int) + "/"@ + int_decimal(
                spec_total_pages(self.playlists@.len(), self.items_per_page),
            ) + " 页)"@,
            res.selection@ == spec_selection_line(self.selected_indices@.len(), "个"@),
            match res.notice {
                Some(m) => self.message@.len() > 0 && m@ == self.message@,
                None => self.message@.len() == 0,
            },
    {
        let mut title = to_owned_string("我的歌单 [");
        push_str(&mut title, self.provider_name.as_str());
        push_str(&mut title, "]");
        let n = self.playlists.len();
        let body = if self.loading {
            PlaylistBody::Loading
        } else if n == 0 {
            PlaylistBody::Message
        } else if self.page < 1 {
            PlaylistBody::OutOfList
        } else {
            let pages = (self.page - 1) as u64;
            let per = self.items_per_page as u64;
            if per != 0 && pages > (usize::MAX as u64) / per {
                proof {
                    assert(pages * per > usize::MAX) by (nonlinear_arith)
                        requires per > 0, pages > usize::MAX as int / per as int;
                    assert(page_start(self.page, self.items_per_page) == pages * per);
                }
                PlaylistBody::OutOfList
            } else {
                proof {
                    assert(pages * per <= usize::MAX) by (nonlinear_arith)
                        requires per == 0 || pages <= usize::MAX as int / per as int;
                }
                let start = (pages * per) as usize;
                assert(start as int == page_start(self.page, self.items_per_page));
                if start > n || self.items_per_page > usize::MAX - start {
                    PlaylistBody::OutOfList
                } else {
                    PlaylistBody::Table
                }
            }
        };
        let mut table_title = to_owned_string("歌单列表 (第 ");
        push_int(&mut table_title, self.page as i64);
        push_str(&mut table_title, "/");
        let total = self.get_total_pages();
        push_int(&mut table_title, total as i64);
        push_str(&mut table_title, " 页)");
        let notice = if chars_of(self.message.as_str()).len() > 0 { Some(to_owned_string(self.message.as_str())) } else { None };
        PlaylistScreen {
            title,
            body,
            table_title,
            selection: selection_line(self.selected_indices.len(), "个"),
            notice,
        }
    }

    pub open spec fn view(&self) -> PlaylistView {
        PlaylistView {
            provider_name: self.provider_name@,
            selected: self.selected_indices@,
            current_index: self.current_index,
            page: self.page,
            items_per_page: self.items_per_page,
            loading: self.loading,
            message: self.message@,
            quality_index: self.quality_index,
        }
    }

    /// A page waiting for the playlists, twenty to a page; the quality choice
    /// starts on "highest".
    pub fn new(provider_name: String, quality_levels: &Vec<(i32, String)>) -> (res: Self)
        ensures
            res.provider_name@ == provider_name@,
            res.playlists@.len() == 0,
            res.selected_indices@.len() == 0,
            res.current_index == 0,
            res.page == 1,
            res.items_per_page == 20,
            res.loading,
            res.message@ == "加载中..."@,
            quality_options_for(res.quality_options@, quality_levels@),
            res.quality_index == res.quality_options@.len() - 1,
    {
        let quality_options = build_quality_options(quality_levels);
        let default_q = quality_options.len() - 1;
        let mut message = String::new();
        push_str(&mut message, "加载中...");
        PlaylistPageState {
            provider_name,
            playlists: Vec::new(),
            selected_indices: Vec::new(),
            current_index: 0,
            page: 1,
            items_per_page: 20,
            loading: true,
            message,
            quality_index: default_q,
            quality_options,
        }
    }

    /// The playlists shown on the current page.
    pub fn get_page_items(&self) -> (res: Vec<&P>)
        requires
            page_in_list(self.page, self.items_per_page, self.playlists@.len()),
        ensures
            res@.len() == page_end(self.page, self.items_per_page, self.playlists@.len()) - page_start(
                self.page,
                self.items_per_page,
            ),
            forall|k: int|
                0 <= k < res@.len() ==> *#[trigger] res@[k] == self.playlists@[page_start(
                    self.page,
                    self.items_per_page,
                ) + k],
    {
        let start = self.get_page_start_index();
        let end = if start + self.items_per_page < self.playlists.len() {
            start + self.items_per_page
        } else {
            self.playlists.len()
        };
        let mut res: Vec<&P> = Vec::new();
        let mut i: usize = start;
        while i < end
            invariant
                start <= i <= end <= self.playlists@.len(),
                start == page_start(self.page, self.items_per_page),
                end == page_end(self.page, self.items_per_page, self.playlists@.len()),
                res@.len() == i - start,
                forall|k: int| 0 <= k < res@.len() ==> *#[trigger] res@[k] == self.playlists@[start + k],
            decreases end - i,
        {
            res.push(&self.playlists[i]);
            i += 1;
        }
        res
    }

    /// How many pages the playlists fill.
    pub fn get_total_pages(&self) -> (res: i32)
        ensures
            res as int == spec_total_pages(self.playlists@.len(), self.items_per_page),
    {
        let n = self.playlists.len();
        let per = self.items_per_page;
        if per == 0 {
            if n == 0 { 0 } else { i32::MAX }
        } else {
            let q = n / per;
            let extra: usize = if n % per != 0 { 1 } else { 0 };
            proof {
                let ni = n as int;
                let pi = per as int;
                assert((ni + pi - 1) / pi == ni / pi + if ni % pi != 0 { 1int } else { 0 }) by (nonlinear_arith)
                    requires pi > 0, ni >= 0;
            }
            if q >= i32::MAX as usize { i32::MAX } else { (q + extra) as i32 }
        }
    }

    /// Position of the first playlist of the current page.
    pub fn get_page_start_index(&self) -> (res: usize)
        requires
            self.page >= 1,
            page_start(self.page, self.items_per_page) <= usize::MAX,
        ensures
            res == page_start(self.page, self.items_per_page),
    {
        ((self.page - 1) as usize) * self.items_per_page
    }

    /// Clones of the chosen playlists that exist, in the order they were chosen.
    pub fn get_selected_playlists(&self) -> (res: Vec<P>)
        where
            P: Clone,
        ensures
            res@.len() == in_range(self.selected_indices@, self.playlists@.len()).len(),
            forall|k: int|
                0 <= k < res@.len() ==> cloned::<P>(
                    self.playlists@[in_range(self.selected_indices@, self.playlists@.len())[k] as int],
                    #[trigger] res@[k],
                ),
    {
        selected_items(&self.playlists, &self.selected_indices)
    }

    /// Takes the user's playlists once they are loaded.
    pub fn load_playlists(&mut self, outcome: FetchOutcome<P>)
        ensures
            match outcome {
                FetchOutcome::Found(list) => final(self).playlists@ == list@ && final(self).message@ == Seq::<char>::empty(),
                FetchOutcome::Empty => final(self).playlists@ == old(self).playlists@ && final(self).message@ == "没有找到歌单"@,
                FetchOutcome::Failed(e) => final(self).playlists@ == old(self).playlists@ && final(self).message@ == "加载失败: "@ + e@,
            },
            final(self).view() == (PlaylistView { loading: false, message: final(self).message@, ..old(self).view() }),
            final(self).quality_options@ == old(self).quality_options@,
    {
        match outcome {
            FetchOutcome::Found(list) => {
                self.playlists = list;
                self.message = String::new();
            },
            FetchOutcome::Empty => {
                let mut m = String::new();
                push_str(&mut m, "没有找到歌单");
                self.message = m;
            },
            FetchOutcome::Failed(e) => {
                let mut m = String::new();
                push_str(&mut m, "加载失败: ");
                push_str(&mut m, e.as_str());
                self.message = m;
            },
        }
        self.loading = false;
    }
}

/// Reacts to a key on the playlist page.
pub fn handle_playlist_input<P: Clone>(state: &mut PlaylistPageState<P>, key: KeyCode) -> (res: Option<PlaylistAction<P>>)
    requires
        playlist_key_ok(old(state).view(), old(state).playlists@.len(), old(state).quality_options@.len(), key),
    ensures
        final(state).view() == spec_playlist_key(old(state).view(), old(state).playlists@.len(), old(state).quality_options@.len(), key).0,
        final(state).playlists@ == old(state).playlists@,
        final(state).quality_options@ == old(state).quality_options@,
        match (res, spec_playlist_key(old(state).view(), old(state).playlists@.len(), old(state).quality_options@.len(), key).1) {
            (None, None) => true,
            (Some(PlaylistAction::Back), Some(false)) => true,
            (Some(PlaylistAction::Download(lists, cfg)), Some(true)) => {
                let sel = in_range(old(state).selected_indices@, old(state).playlists@.len());
                &&& lists@.len() == sel.len()
                &&& forall|k: int| 0 <= k < lists@.len() ==> cloned::<P>(old(state).playlists@[sel[k] as int], #[trigger] lists@[k])
                &&& cfg.quality == old(state).quality_options@[old(state).quality_index as int].1
            },
            _ => false,
        },
{
    match key {
        KeyCode::Esc => return Some(PlaylistAction::Back),
        KeyCode::Up => {
            let page_items = state.get_page_items();
            if page_items.len() > 0 && state.current_index > 0 {
                state.current_index = state.current_index - 1;
            }
        },
        KeyCode::Down => {
            let page_items = state.get_page_items();
            if page_items.len() > 0 && state.current_index + 1 < page_items.len() {
                state.current_index = state.current_index + 1;
            }
        },
        KeyCode::Char(' ') => {
            let global_idx = state.get_page_start_index() + state.current_index;
            toggle_index(&mut state.selected_indices, global_idx);
        },
        KeyCode::Enter => {
            let selected = state.get_selected_playlists();
            if selected.len() > 0 {
                let quality = state.quality_options[state.quality_index].1;
                return Some(PlaylistAction::Download(selected, DownloadConfig { quality }));
            } else {
                let mut m = String::new();
                push_str(&mut m, "请先按空格选择歌单");
                state.message = m;
            }
        },
        KeyCode::Char('k') | KeyCode::Char('K') => {
            state.quality_index = cycle_quality(state.quality_index, state.quality_options.len());
        },
        KeyCode::Char('n') | KeyCode::Char('N') => {
            if state.page > 1 {
                state.page = state.page - 1;
                state.current_index = 0;
            }
        },
        KeyCode::Char('m') | KeyCode::Char('M') => {
            let total_pages = state.get_total_pages();
            if state.page < total_pages {
                state.page = state.page + 1;
                state.current_index = 0;
            }
        },
        _ => {},
    }
    None
}

/// Paging with N and M keeps the page within the list: from a page whose
/// first playlist exists (or page 1), the next or previous page starts within
/// the list too.
pub proof fn law_paging_stays_in_list(page: i32, per_page: usize, n: nat)
    requires
        page >= 1,
        per_page > 0,
        page_start(page, per_page) <= n,
    ensures
        page > 1 ==> 0 <= page_start((page - 1) as i32, per_page) <= n,
        page < spec_total_pages(n, per_page) ==> page_start((page + 1) as i32, per_page) < n,
{
    let p = page as int;
    let k = per_page as int;
    if page > 1 {
        assert((p - 2) * k <= (p - 1) * k) by (nonlinear_arith)
            requires p >= 2, k > 0;
        assert(0 <= (p - 2) * k) by (nonlinear_arith)
            requires p >= 2, k > 0;
    }
    if page < spec_total_pages(n, per_page) {
        let ni = n as int;
        let q = (ni + k - 1) / k;
        assert(p + 1 <= q);
        assert(p * k < ni) by (nonlinear_arith)
            requires p + 1 <= (ni + k - 1) / k, k > 0, ni >= 0, p >= 1;
    }
}

/// The number of playlists shown on the view's page.
pub open spec fn page_item_count(v: PlaylistView, n: nat) -> int {
    page_end(v.page, v.items_per_page, n) - page_start(v.page, v.items_per_page)
}

/// The page's invariant: a positive page size, a page from the first to the
/// last (the first when the list is empty), the cursor on a shown playlist
/// (or at 0 on an empty page), and a quality among the `q` choices.
pub open spec fn playlist_bounds(v: PlaylistView, n: nat, q: nat) -> bool {
    let total = spec_total_pages(n, v.items_per_page);
    let items = page_item_count(v, n);
    &&& v.items_per_page > 0
    &&& 1 <= v.page <= (if total > 1 { total } else { 1 })
    &&& v.current_index < (if items > 1 { items } else { 1 })
    &&& v.quality_index < q
}

/// Every key keeps the playlist page's invariant. N and M move one page back
/// or on, or not at all, and a page change puts the cursor on the page's
/// first playlist; other keys keep the page and its size.
pub proof fn law_playlist_keys_keep_bounds(v: PlaylistView, n: nat, q: nat, key: KeyCode)
    requires
        playlist_bounds(v, n, q),
    ensures
        playlist_bounds(spec_playlist_key(v, n, q, key).0, n, q),
        spec_playlist_key(v, n, q, key).0.items_per_page == v.items_per_page,
        ({
            let r = spec_playlist_key(v, n, q, key).0;
            &&& r.page == v.page || r.page == v.page - 1 || r.page == v.page + 1
            &&& r.page != v.page ==> r.current_index == 0
            &&& r.page == v.page - 1 ==> (key == KeyCode::Char('n') || key == KeyCode::Char('N'))
            &&& r.page == v.page + 1 ==> (key == KeyCode::Char('m') || key == KeyCode::Char('M'))
        }),
{
    let r = spec_playlist_key(v, n, q, key).0;
    if r.page == v.page {
        assert(page_item_count(r, n) == page_item_count(v, n));
    }
}

/// Within the page's invariant, and where the number of playlists plus a
/// page's size fits in `usize`, every key can be handled: the handler's
/// precondition holds.
pub proof fn law_playlist_bounds_make_keys_ok(v: PlaylistView, n: nat, q: nat, key: KeyCode)
    requires
        playlist_bounds(v, n, q),
        n + v.items_per_page <= usize::MAX,
        q <= usize::MAX,
    ensures
        page_in_list(v.page, v.items_per_page, n),
        playlist_key_ok(v, n, q, key),
{
    let p = v.page as int;
    let k = v.items_per_page as int;
    let ni = n as int;
    if n > 0 && p > 1 {
        let total = spec_total_pages(n, v.items_per_page);
        assert(p <= (ni + k - 1) / k);
        assert((p - 1) * k < ni) by (nonlinear_arith)
            requires p <= (ni + k - 1) / k, k > 0, ni > 0, p >= 1;
    } else if n == 0 {
        assert((k - 1) / k == 0) by (nonlinear_arith)
            requires k > 0;
        assert(p == 1);
    }
    if p == 1 {
        assert((p - 1) * k == 0) by (nonlinear_arith)
            requires p == 1;
    }
    assert(page_start(v.page, v.items_per_page) <= n);
    let items = page_item_count(v, n);
    assert(items <= k);
}

/// Up moves the cursor to the previous playlist on the page and Down to the next one,
/// each by exactly one and never out of the list; Down then Up (or Up then
/// Down) comes back to the same playlist on the page. Space flips whether the playlist on the page
/// under the cursor is chosen and leaves every other choice. These keys
/// change nothing else and ask nothing of the application.
pub proof fn law_playlist_cursor_and_selection(v: PlaylistView, n: nat, q: nat, y: usize)
    requires
        v.selected.no_duplicates(),
    ensures
        ({
            let items = page_item_count(v, n);
            let up = spec_playlist_key(v, n, q, KeyCode::Up);
            let down = spec_playlist_key(v, n, q, KeyCode::Down);
            &&& up.1 is None && down.1 is None
            &&& up.0 == (PlaylistView { current_index: up.0.current_index, ..v })
            &&& down.0 == (PlaylistView { current_index: down.0.current_index, ..v })
            &&& (items > 0 && v.current_index > 0) ==> up.0.current_index + 1 == v.current_index
            &&& !(items > 0 && v.current_index > 0) ==> up.0.current_index == v.current_index
            &&& v.current_index + 1 < items ==> down.0.current_index == v.current_index + 1
            &&& !(v.current_index + 1 < items) ==> down.0.current_index == v.current_index
            &&& v.current_index + 1 < items ==> spec_playlist_key(down.0, n, q, KeyCode::Up).0 == v
            &&& (v.current_index > 0 && v.current_index < items) ==> spec_playlist_key(up.0, n, q, KeyCode::Down).0 == v
        }),
        ({
            let sp = spec_playlist_key(v, n, q, KeyCode::Char(' '));
            let x = (page_start(v.page, v.items_per_page) + v.current_index) as usize;
            &&& sp.1 is None
            &&& sp.0 == (PlaylistView { selected: sp.0.selected, ..v })
            &&& sp.0.selected.contains(y) == (if y == x { !v.selected.contains(x) } else { v.selected.contains(y) })
        }),
{
    law_toggle_flips_only_that_entry(v.selected, (page_start(v.page, v.items_per_page) + v.current_index) as usize, y);
    let down = spec_playlist_key(v, n, q, KeyCode::Down).0;
    let up = spec_playlist_key(v, n, q, KeyCode::Up).0;
    assert(page_item_count(down, n) == page_item_count(v, n));
    assert(page_item_count(up, n) == page_item_count(v, n));
}

} // verus!
