//! The home page: provider choice, the search box with its cursor and
//! selection, and the menu focus.
use vstd::prelude::*;
use crate::text::{chars_of, nat_decimal, push_decimal, push_str, string_from_chars, to_owned_string};

verus! {

/// The item of the home page that has the keyboard focus.
#[derive(Clone, Copy, PartialEq, Eq, Structural, Debug)]
pub enum HomeFocus {
    SearchBox,
    Playlists,
    Credential,
    CleanFiles,
    Settings,
}

/// What the search box searches for.
#[derive(Clone, Copy, PartialEq, Eq, Structural, Debug)]
pub enum SearchType {
    Song,
    Album,
}

pub struct HomeState {
    pub focus: HomeFocus,
    pub providers: Vec<String>,
    pub current_provider_index: usize,
    pub message: String,
    pub show_clean_confirm: bool,
    pub clean_confirm_yes: bool,
    pub search_text: String,
    /// Cursor position, counted in characters.
    pub cursor_pos: usize,
    pub search_type: SearchType,
    pub sel_start: Option<usize>,
    pub sel_end: Option<usize>,
}

/// The search box as plain values: its text, cursor and selection ends.
pub struct EditState {
    pub text: Seq<char>,
    pub cursor: int,
    pub sel_start: Option<usize>,
    pub sel_end: Option<usize>,
}

/// A character position clamped to the end of the text.
pub open spec fn clamp(p: int, n: int) -> int {
    if p < n { p } else { n }
}

/// Both selection ends are set and differ.
pub open spec fn spec_has_selection(e: EditState) -> bool {
    match (e.sel_start, e.sel_end) {
        (Some(s), Some(t)) => s != t,
        _ => false,
    }
}

/// The selected range, smaller end first.
pub open spec fn spec_selection_range(e: EditState) -> Option<(int, int)> {
    match (e.sel_start, e.sel_end) {
        (Some(s), Some(t)) => if s != t {
            Some((if s < t { s as int } else { t as int }, if s < t { t as int } else { s as int }))
        } else {
            None
        },
        _ => None,
    }
}

/// Removing the selected text puts the cursor where the selection began.
pub open spec fn spec_delete_selection(e: EditState) -> EditState {
    match spec_selection_range(e) {
        Some((lo, hi)) => EditState {
            text: e.text.take(clamp(lo, e.text.len() as int)) + e.text.skip(clamp(hi, e.text.len() as int)),
            cursor: lo,
            ..e
        },
        None => e,
    }
}

pub open spec fn spec_clear_selection(e: EditState) -> EditState {
    EditState { sel_start: None, sel_end: None, ..e }
}

/// Typing replaces the selection, then inserts at the cursor.
pub open spec fn spec_insert_char(e: EditState, c: char) -> EditState {
    let d = spec_delete_selection(e);
    EditState {
        text: d.text.insert(clamp(d.cursor, d.text.len() as int), c),
        cursor: d.cursor + 1,
        sel_start: None,
        sel_end: None,
    }
}

/// Backspace removes the selection, or else the character before the cursor.
pub open spec fn spec_delete_char(e: EditState) -> EditState {
    if spec_has_selection(e) {
        spec_clear_selection(spec_delete_selection(e))
    } else if e.cursor > 0 {
        EditState { text: e.text.remove(e.cursor - 1), cursor: e.cursor - 1, ..e }
    } else {
        e
    }
}

/// Moves the cursor to `to`, extending the selection when shift is held.
pub open spec fn spec_move(e: EditState, to: int, shift: bool) -> EditState {
    if shift {
        EditState {
            sel_start: if e.sel_start is None { Some(e.cursor as usize) } else { e.sel_start },
            sel_end: Some(to as usize),
            cursor: to,
            ..e
        }
    } else {
        EditState { cursor: to, sel_start: None, sel_end: None, ..e }
    }
}

pub open spec fn spec_cursor_left(e: EditState, shift: bool) -> EditState {
    spec_move(e, if e.cursor > 0 { e.cursor - 1 } else { 0 }, shift)
}

pub open spec fn spec_cursor_right(e: EditState, shift: bool) -> EditState {
    spec_move(e, clamp(e.cursor + 1, e.text.len() as int), shift)
}

pub open spec fn spec_home_key(e: EditState, shift: bool) -> EditState {
    spec_move(e, 0, shift)
}

pub open spec fn spec_end_key(e: EditState, shift: bool) -> EditState {
    spec_move(e, e.text.len() as int, shift)
}

pub open spec fn spec_select_all(e: EditState) -> EditState {
    if e.text.len() > 0 {
        EditState {
            sel_start: Some(0),
            sel_end: Some(e.text.len() as usize),
            cursor: e.text.len() as int,
            ..e
        }
    } else {
        e
    }
}

/// The focus after pressing Down.
pub open spec fn spec_focus_next(f: HomeFocus, has_providers: bool) -> HomeFocus {
    match f {
        HomeFocus::SearchBox => if has_providers { HomeFocus::Playlists } else { HomeFocus::CleanFiles },
        HomeFocus::Playlists => HomeFocus::Credential,
        HomeFocus::Credential => HomeFocus::CleanFiles,
        HomeFocus::CleanFiles => HomeFocus::Settings,
        HomeFocus::Settings => if has_providers { HomeFocus::SearchBox } else { HomeFocus::CleanFiles },
    }
}

/// The focus after pressing Up.
pub open spec fn spec_focus_prev(f: HomeFocus, has_providers: bool) -> HomeFocus {
    match f {
        HomeFocus::SearchBox => HomeFocus::Settings,
        HomeFocus::Playlists => HomeFocus::SearchBox,
        HomeFocus::Credential => HomeFocus::Playlists,
        HomeFocus::CleanFiles => if has_providers { HomeFocus::Credential } else { HomeFocus::Settings },
        HomeFocus::Settings => HomeFocus::CleanFiles,
    }
}

/// The provider index after one step: the next one, wrapping around.
pub open spec fn next_provider_index(i: int, n: int) -> int {
    (i + 1) % n
}

/// The provider index after `k` steps from `i` among `n` providers.
pub open spec fn cycled_index(i: int, n: int, k: nat) -> int
    decreases k,
{
    if k == 0 {
        i
    } else {
        next_provider_index(cycled_index(i, n, (k - 1) as nat), n)
    }
}

impl HomeState {
    /// The search box as plain values.
    pub open spec fn edit(&self) -> EditState {
        EditState {
            text: self.search_text@,
            cursor: self.cursor_pos as int,
            sel_start: self.sel_start,
            sel_end: self.sel_end,
        }
    }

    /// Every field but the search box is the same in `self` and `other`.
    pub open spec fn same_but_edit(&self, other: &HomeState) -> bool {
        &&& self.focus == other.focus
        &&& self.providers@ == other.providers@
        &&& self.current_provider_index == other.current_provider_index
        &&& self.message@ == other.message@
        &&& self.show_clean_confirm == other.show_clean_confirm
        &&& self.clean_confirm_yes == other.clean_confirm_yes
        &&& self.search_type == other.search_type
    }

    /// Every field but the focus is the same in `self` and `other`.
    pub open spec fn same_but_focus(&self, other: &HomeState) -> bool {
        &&& self.edit() == other.edit()
        &&& self.providers@ == other.providers@
        &&& self.current_provider_index == other.current_provider_index
        &&& self.message@ == other.message@
        &&& self.show_clean_confirm == other.show_clean_confirm
        &&& self.clean_confirm_yes == other.clean_confirm_yes
        &&& self.search_type == other.search_type
    }

    /// A fresh home page; without providers the focus starts on "clean files".
    pub fn new(provider_names: Vec<String>) -> (res: Self)
        ensures
            res.focus == (if provider_names@.len() == 0 { HomeFocus::CleanFiles } else { HomeFocus::SearchBox }),
            res.providers@ == provider_names@,
            res.current_provider_index == 0,
            res.message@ == Seq::<char>::empty(),
            !res.show_clean_confirm,
            !res.clean_confirm_yes,
            res.search_text@ == Seq::<char>::empty(),
            res.cursor_pos == 0,
            res.search_type == SearchType::Song,
            res.sel_start is None,
            res.sel_end is None,
    {
        let focus = if provider_names.len() == 0 { HomeFocus::CleanFiles } else { HomeFocus::SearchBox };
        HomeState {
            focus,
            providers: provider_names,
            current_provider_index: 0,
            message: String::new(),
            show_clean_confirm: false,
            clean_confirm_yes: false,
            search_text: String::new(),
            cursor_pos: 0,
            search_type: SearchType::Song,
            sel_start: None,
            sel_end: None,
        }
    }

    /// The id of the current provider, or `无` when there is none.
    pub fn current_provider_name(&self) -> (res: &str)
        ensures
            self.providers@.len() == 0 ==> res@ == "无"@,
            self.providers@.len() > 0 ==> res@ == self.providers@[clamp(
                self.current_provider_index as int,
                self.providers@.len() - 1,
            )]@,
    {
        if self.providers.len() == 0 {
            "无"
        } else {
            let last = self.providers.len() - 1;
            let i = if self.current_provider_index < last { self.current_provider_index } else { last };
            self.providers[i].as_str()
        }
    }

    /// Moves to the next provider, wrapping around.
    pub fn cycle_provider(&mut self)
        ensures
            old(self).providers@.len() > 0 ==> final(self).current_provider_index as int == next_provider_index(
                old(self).current_provider_index as int,
                old(self).providers@.len() as int,
            ),
            old(self).providers@.len() == 0 ==> final(self).current_provider_index == old(self).current_provider_index,
            final(self).edit() == old(self).edit(),
            final(self).focus == old(self).focus,
            final(self).providers@ == old(self).providers@,
            final(self).message@ == old(self).message@,
            final(self).show_clean_confirm == old(self).show_clean_confirm,
            final(self).clean_confirm_yes == old(self).clean_confirm_yes,
            final(self).search_type == old(self).search_type,
    {
        if self.providers.len() > 0 {
            let n = self.providers.len();
            // `(i + 1) % n`, computed without overflow.
            self.current_provider_index = if self.current_provider_index % n == n - 1 {
                0
            } else {
                self.current_provider_index % n + 1
            };
            proof {
                let i = old(self).current_provider_index as int;
                let ni = n as int;
                assert((i + 1) % ni == (if i % ni == ni - 1 { 0 } else { i % ni + 1 })) by (nonlinear_arith)
                    requires ni > 0, i >= 0;
            }
        }
    }

    /// Deletes the selected text, if any.
    fn delete_selection(&mut self)
        ensures
            final(self).edit() == spec_delete_selection(old(self).edit()),
            final(self).same_but_edit(old(self)),
    {
        let (s, e) = (self.sel_start, self.sel_end);
        match (s, e) {
            (Some(a), Some(b)) => {
                if a != b {
                    let lo = if a < b { a } else { b };
                    let hi = if a < b { b } else { a };
                    let cs = chars_of(self.search_text.as_str());
                    let n = cs.len();
                    let lo_c = if lo < n { lo } else { n };
                    let hi_c = if hi < n { hi } else { n };
                    let mut out: Vec<char> = Vec::new();
                    let mut i: usize = 0;
                    while i < lo_c
                        invariant
                            i <= lo_c <= n,
                            n == cs@.len(),
                            out@ == cs@.take(i as int),
                        decreases lo_c - i,
                    {
                        out.push(cs[i]);
                        assert(cs@.take(i + 1) == cs@.take(i as int).push(cs@[i as int]));
                        i += 1;
                    }
                    let mut j: usize = hi_c;
                    while j < n
                        invariant
                            hi_c <= j <= n,
                            n == cs@.len(),
                            out@ == cs@.take(lo_c as int) + cs@.subrange(hi_c as int, j as int),
                        decreases n - j,
                    {
                        out.push(cs[j]);
                        assert(cs@.subrange(hi_c as int, j + 1) == cs@.subrange(hi_c as int, j as int).push(
                            cs@[j as int],
                        ));
                        j += 1;
                    }
                    assert(cs@.subrange(hi_c as int, n as int) == cs@.skip(hi_c as int));
                    self.search_text = string_from_chars(&out);
                    self.cursor_pos = lo;
                }
            },
            _ => {},
        }
    }

    fn clear_selection(&mut self)
        ensures
            final(self).edit() == spec_clear_selection(old(self).edit()),
            final(self).same_but_edit(old(self)),
    {
        self.sel_start = None;
        self.sel_end = None;
    }

    /// Whether a non-empty selection is active.
    pub fn has_selection(&self) -> (res: bool)
        ensures
            res == spec_has_selection(self.edit()),
    {
        match (self.sel_start, self.sel_end) {
            (Some(s), Some(e)) => s != e,
            _ => false,
        }
    }

    /// The selected range, smaller end first.
    pub fn selection_range(&self) -> (res: Option<(usize, usize)>)
        ensures
            match res {
                Some((lo, hi)) => spec_selection_range(self.edit()) == Some((lo as int, hi as int)),
                None => spec_selection_range(self.edit()) is None,
            },
    {
        match (self.sel_start, self.sel_end) {
            (Some(s), Some(e)) => if s != e {
                let lo = if s < e { s } else { e };
                let hi = if s < e { e } else { s };
                Some((lo, hi))
            } else {
                None
            },
            _ => None,
        }
    }

    /// The cursor position once the selection has been removed.
    pub open spec fn cursor_after_selection(&self) -> int {
        spec_delete_selection(self.edit()).cursor
    }

    /// Types `c` at the cursor, replacing any selection.
    pub fn insert_char(&mut self, c: char)
        requires
            old(self).cursor_after_selection() < usize::MAX,
        ensures
            final(self).edit() == spec_insert_char(old(self).edit(), c),
            final(self).same_but_edit(old(self)),
    {
        self.delete_selection();
        let cs = chars_of(self.search_text.as_str());
        let n = cs.len();
        let at = if self.cursor_pos < n { self.cursor_pos } else { n };
        let mut out: Vec<char> = Vec::new();
        let mut i: usize = 0;
        while i < at
            invariant
                i <= at <= n,
                n == cs@.len(),
                out@ == cs@.take(i as int),
            decreases at - i,
        {
            out.push(cs[i]);
            assert(cs@.take(i + 1) == cs@.take(i as int).push(cs@[i as int]));
            i += 1;
        }
        out.push(c);
        let mut j: usize = at;
        while j < n
            invariant
                at <= j <= n,
                n == cs@.len(),
                out@ == cs@.take(at as int).push(c) + cs@.subrange(at as int, j as int),
            decreases n - j,
        {
            out.push(cs[j]);
            assert(cs@.subrange(at as int, j + 1) == cs@.subrange(at as int, j as int).push(cs@[j as int]));
            j += 1;
        }
        assert(out@ =~= cs@.insert(at as int, c));
        self.search_text = string_from_chars(&out);
        self.cursor_pos = self.cursor_pos + 1;
        self.clear_selection();
    }

    /// Backspace: removes the selection, or else the character before the cursor.
    pub fn delete_char(&mut self)
        requires
            spec_has_selection(old(self).edit()) || old(self).cursor_pos <= old(self).search_text@.len(),
        ensures
            final(self).edit() == spec_delete_char(old(self).edit()),
            final(self).same_but_edit(old(self)),
    {
        if self.has_selection() {
            self.delete_selection();
            self.clear_selection();
        } else if self.cursor_pos > 0 {
            self.cursor_pos = self.cursor_pos - 1;
            let p = self.cursor_pos;
            let cs = chars_of(self.search_text.as_str());
            let n = cs.len();
            let mut out: Vec<char> = Vec::new();
            let mut i: usize = 0;
            while i < n
                invariant
                    p < n,
                    i <= n,
                    n == cs@.len(),
                    out@ == (if i <= p { cs@.take(i as int) } else { cs@.take(p as int) + cs@.subrange(
                        p + 1,
                        i as int,
                    ) }),
                decreases n - i,
            {
                if i != p {
                    out.push(cs[i]);
                }
                proof {
                    if i < p {
                        assert(cs@.take(i + 1) == cs@.take(i as int).push(cs@[i as int]));
                    } else if i == p {
                        assert(cs@.subrange(p + 1, p + 1) =~= Seq::<char>::empty());
                        assert(cs@.take(p as int) + cs@.subrange(p + 1, p + 1) =~= cs@.take(p as int));
                    } else {
                        assert(cs@.subrange(p + 1, i + 1) == cs@.subrange(p + 1, i as int).push(cs@[i as int]));
                    }
                }
                i += 1;
            }
            assert(out@ =~= cs@.remove(p as int));
            self.search_text = string_from_chars(&out);
        }
    }

    /// Left arrow; with shift the selection grows or shrinks.
    pub fn cursor_left(&mut self, shift: bool)
        ensures
            final(self).edit() == spec_cursor_left(old(self).edit(), shift),
            final(self).same_but_edit(old(self)),
    {
        if shift {
            if self.sel_start.is_none() {
                self.sel_start = Some(self.cursor_pos);
            }
            self.cursor_pos = if self.cursor_pos > 0 { self.cursor_pos - 1 } else { 0 };
            self.sel_end = Some(self.cursor_pos);
        } else {
            self.cursor_pos = if self.cursor_pos > 0 { self.cursor_pos - 1 } else { 0 };
            self.clear_selection();
        }
    }

    /// Right arrow, stopping at the end of the text; with shift the selection
    /// grows or shrinks.
    pub fn cursor_right(&mut self, shift: bool)
        requires
            old(self).cursor_pos < usize::MAX,
        ensures
            final(self).edit() == spec_cursor_right(old(self).edit(), shift),
            final(self).same_but_edit(old(self)),
    {
        let n = chars_of(self.search_text.as_str()).len();
        let to = if self.cursor_pos + 1 < n { self.cursor_pos + 1 } else { n };
        if shift {
            if self.sel_start.is_none() {
                self.sel_start = Some(self.cursor_pos);
            }
            self.cursor_pos = to;
            self.sel_end = Some(self.cursor_pos);
        } else {
            self.cursor_pos = to;
            self.clear_selection();
        }
    }

    /// Home: the cursor goes to the start of the text.
    pub fn home_key(&mut self, shift: bool)
        ensures
            final(self).edit() == spec_home_key(old(self).edit(), shift),
            final(self).same_but_edit(old(self)),
    {
        if shift {
            if self.sel_start.is_none() {
                self.sel_start = Some(self.cursor_pos);
            }
            self.cursor_pos = 0;
            self.sel_end = Some(0);
        } else {
            self.cursor_pos = 0;
            self.clear_selection();
        }
    }

    /// End: the cursor goes past the last character.
    pub fn end_key(&mut self, shift: bool)
        ensures
            final(self).edit() == spec_end_key(old(self).edit(), shift),
            final(self).same_but_edit(old(self)),
    {
        let end = chars_of(self.search_text.as_str()).len();
        if shift {
            if self.sel_start.is_none() {
                self.sel_start = Some(self.cursor_pos);
            }
            self.cursor_pos = end;
            self.sel_end = Some(end);
        } else {
            self.cursor_pos = end;
            self.clear_selection();
        }
    }

    /// Ctrl+A: selects the whole text, if there is any.
    pub fn select_all(&mut self)
        ensures
            final(self).edit() == spec_select_all(old(self).edit()),
            final(self).same_but_edit(old(self)),
    {
        let len = chars_of(self.search_text.as_str()).len();
        if len > 0 {
            self.sel_start = Some(0);
            self.sel_end = Some(len);
            self.cursor_pos = len;
        }
    }

    /// Whether any provider is loaded.
    pub fn has_providers(&self) -> (res: bool)
        ensures
            res == (self.providers@.len() > 0),
    {
        self.providers.len() != 0
    }

    /// Down: the next menu item; the search box and provider items are
    /// skipped when no provider is loaded.
    pub fn focus_next(&mut self)
        ensures
            final(self).focus == spec_focus_next(old(self).focus, old(self).providers@.len() > 0),
            final(self).same_but_focus(old(self)),
    {
        let no_prov = !self.has_providers();
        self.focus = match self.focus {
            HomeFocus::SearchBox => if no_prov { HomeFocus::CleanFiles } else { HomeFocus::Playlists },
            HomeFocus::Playlists => HomeFocus::Credential,
            HomeFocus::Credential => HomeFocus::CleanFiles,
            HomeFocus::CleanFiles => HomeFocus::Settings,
            HomeFocus::Settings => if no_prov { HomeFocus::CleanFiles } else { HomeFocus::SearchBox },
        };
    }

    /// Up: the previous menu item.
    pub fn focus_prev(&mut self)
        ensures
            final(self).focus == spec_focus_prev(old(self).focus, old(self).providers@.len() > 0),
            final(self).same_but_focus(old(self)),
    {
        let no_prov = !self.has_providers();
        self.focus = match self.focus {
            HomeFocus::SearchBox => HomeFocus::Settings,
            HomeFocus::Playlists => HomeFocus::SearchBox,
            HomeFocus::Credential => HomeFocus::Playlists,
            HomeFocus::CleanFiles => if no_prov { HomeFocus::Settings } else { HomeFocus::Credential },
            HomeFocus::Settings => HomeFocus::CleanFiles,
        };
    }
}

/// The items that Up and Down can reach: all five with providers, only
/// "clean files" and "settings" without.
pub open spec fn reachable_focus(f: HomeFocus, has_providers: bool) -> bool {
    has_providers || f == HomeFocus::CleanFiles || f == HomeFocus::Settings
}

/// Up undoes Down and Down undoes Up on the reachable items, and both keep
/// the focus among them.
pub proof fn law_focus_next_prev_inverse(f: HomeFocus, has_providers: bool)
    requires
        reachable_focus(f, has_providers),
    ensures
        spec_focus_prev(spec_focus_next(f, has_providers), has_providers) == f,
        spec_focus_next(spec_focus_prev(f, has_providers), has_providers) == f,
        reachable_focus(spec_focus_next(f, has_providers), has_providers),
        reachable_focus(spec_focus_prev(f, has_providers), has_providers),
{
}

/// With no selection and the cursor inside the text, typing a character and
/// pressing Backspace restores the text and the cursor.
pub proof fn law_backspace_undoes_insert(e: EditState, c: char)
    requires
        !spec_has_selection(e),
        0 <= e.cursor <= e.text.len(),
    ensures
        spec_delete_char(spec_insert_char(e, c)).text == e.text,
        spec_delete_char(spec_insert_char(e, c)).cursor == e.cursor,
{
    let i = spec_insert_char(e, c);
    assert(spec_delete_selection(e) == e);
    assert(i.text.remove(e.cursor) =~= e.text);
}

/// Editing keeps the cursor within the text: arrows, Home, End, select-all,
/// typing and Backspace all leave `0 <= cursor <= len` when it held before
/// and the selection ends lie within the text.
pub proof fn law_cursor_stays_in_text(e: EditState, c: char, shift: bool)
    requires
        0 <= e.cursor <= e.text.len(),
        e.sel_start matches Some(s) ==> s <= e.text.len(),
        e.sel_end matches Some(s) ==> s <= e.text.len(),
    ensures
        0 <= spec_cursor_left(e, shift).cursor <= e.text.len(),
        0 <= spec_cursor_right(e, shift).cursor <= e.text.len(),
        spec_home_key(e, shift).cursor == 0,
        spec_end_key(e, shift).cursor == e.text.len(),
        0 <= spec_select_all(e).cursor <= e.text.len(),
        0 <= spec_insert_char(e, c).cursor <= spec_insert_char(e, c).text.len(),
        0 <= spec_delete_char(e).cursor <= spec_delete_char(e).text.len(),
{
    let d = spec_delete_selection(e);
    if let Some((lo, hi)) = spec_selection_range(e) {
        assert(d.text.len() == lo + (e.text.len() - hi));
    }
}

/// Select-all followed by Backspace empties a non-empty search box.
pub proof fn law_select_all_then_delete_empties(e: EditState)
    requires
        0 < e.text.len() <= usize::MAX,
    ensures
        spec_delete_char(spec_select_all(e)).text.len() == 0,
        spec_delete_char(spec_select_all(e)).cursor == 0,
{
}

proof fn lemma_cycled_index(i: int, n: int, k: nat)
    requires
        0 < n,
        0 <= i < n,
    ensures
        cycled_index(i, n, k) == (i + k) % n,
    decreases k,
{
    if k > 0 {
        lemma_cycled_index(i, n, (k - 1) as nat);
        vstd::arithmetic::div_mod::lemma_add_mod_noop_right(1, i + k - 1, n);
    } else {
        vstd::arithmetic::div_mod::lemma_small_mod(i as nat, n as nat);
    }
}

/// Cycling the provider keeps the index among the providers, and as many
/// steps as there are providers bring it back to where it started.
pub proof fn law_cycle_provider_returns(i: int, n: int, k: nat)
    requires
        0 < n,
        0 <= i < n,
    ensures
        0 <= next_provider_index(i, n) < n,
        0 <= cycled_index(i, n, k) < n,
        cycled_index(i, n, n as nat) == i,
{
    lemma_cycled_index(i, n, k);
    lemma_cycled_index(i, n, n as nat);
    vstd::arithmetic::div_mod::lemma_mod_add_multiples_vanish(i, n);
    vstd::arithmetic::div_mod::lemma_small_mod(i as nat, n as nat);
}

/// How a character of the search box is drawn.
#[derive(Clone, Copy, PartialEq, Eq, Structural, Debug)]
pub enum CellKind {
    Plain,
    /// Inside the selection.
    Selected,
    /// Under the cursor, outside the selection.
    Cursor,
}

/// The look of character `i` of the search box: selected inside the
/// selection, the cursor where the cursor stands, plain otherwise.
pub open spec fn spec_cell_kind(e: EditState, i: int) -> CellKind {
    match spec_selection_range(e) {
        Some((lo, hi)) if lo <= i < hi => CellKind::Selected,
        _ => if i == e.cursor { CellKind::Cursor } else { CellKind::Plain },
    }
}

/// What the search box shows.
pub enum SearchBox {
    /// No provider is loaded: `无可用音源`.
    NoProvider,
    /// The box is empty: the placeholder, after a cursor bar when it has the focus.
    Placeholder { cursor: bool },
    /// The box has the focus: each character with its look, and whether the
    /// cursor stands after the last one.
    Editing { cells: Vec<(char, CellKind)>, end_cursor: bool },
    /// The box holds text but not the focus: its text as it is.
    Idle,
}

/// An item of the home menu: its label, whether it can be chosen, and
/// whether it is marked `> ` as the chosen one.
pub struct MenuEntry {
    pub label: &'static str,
    pub enabled: bool,
    pub marked: bool,
}

/// What the home page shows besides its fixed texts.
pub struct HomeScreen {
    /// `当前音源: name`, or `当前音源: 无` without providers.
    pub provider_line: String,
    /// `已加载插件: n`.
    pub plugin_line: String,
    /// `歌曲` or `专辑`.
    pub mode: &'static str,
    pub search: SearchBox,
    pub menu: Vec<MenuEntry>,
    /// The clean-up dialog's choice, when the dialog is open.
    pub confirm: Option<bool>,
}

pub open spec fn shows_entry(m: MenuEntry, label: Seq<char>, enabled: bool, focused: bool) -> bool {
    m.label@ == label && m.enabled == enabled && m.marked == (focused && enabled)
}

/// The search box as shown for the state.
pub open spec fn shows_search_box(b: SearchBox, s: &HomeState) -> bool {
    if s.providers@.len() == 0 {
        b is NoProvider
    } else if s.search_text@.len() == 0 {
        b == SearchBox::Placeholder { cursor: s.focus == HomeFocus::SearchBox }
    } else if s.focus == HomeFocus::SearchBox {
        match b {
            SearchBox::Editing { cells, end_cursor } => {
                &&& cells@.len() == s.search_text@.len()
                &&& forall|i: int|
                    0 <= i < cells@.len() ==> #[trigger] cells@[i] == (s.search_text@[i], spec_cell_kind(s.edit(), i))
                &&& end_cursor == (s.cursor_pos >= s.search_text@.len())
            },
            _ => false,
        }
    } else {
        b is Idle
    }
}

impl HomeState {
    /// The characters of the search box with their looks.
    fn search_cells(&self) -> (res: Vec<(char, CellKind)>)
        ensures
            res@.len() == self.search_text@.len(),
            forall|i: int| 0 <= i < res@.len() ==> #[trigger] res@[i] == (self.search_text@[i], spec_cell_kind(self.edit(), i)),
    {
        let text = chars_of(self.search_text.as_str());
        let range = self.selection_range();
        let mut cells: Vec<(char, CellKind)> = Vec::new();
        let mut i: usize = 0;
        while i < text.len()
            invariant
                i <= text@.len(),
                text@ == self.search_text@,
                match range {
                    Some((lo, hi)) => spec_selection_range(self.edit()) == Some((lo as int, hi as int)),
                    None => spec_selection_range(self.edit()) is None,
                },
                cells@.len() == i,
                forall|k: int| 0 <= k < i ==> #[trigger] cells@[k] == (self.search_text@[k], spec_cell_kind(self.edit(), k)),
            decreases text.len() - i,
        {
            let in_sel = match range {
                Some((lo, hi)) => lo <= i && i < hi,
                None => false,
            };
            let kind = if in_sel {
                CellKind::Selected
            } else if i == self.cursor_pos {
                CellKind::Cursor
            } else {
                CellKind::Plain
            };
            cells.push((text[i], kind));
            i += 1;
        }
        cells
    }

    /// What the page shows for the current provider's display name.
    pub fn screen(&self, provider_display: &str) -> (res: HomeScreen)
        ensures
            res.provider_line@ == (if self.providers@.len() > 0 {
                "当前音源: "@ + provider_display@
            } else {
                "当前音源: 无"@
            }),
            res.plugin_line@ == "已加载插件: "@ + nat_decimal(self.providers@.len()),
            res.mode@ == (if self.search_type == SearchType::Song { "歌曲"@ } else { "专辑"@ }),
            shows_search_box(res.search, self),
            res.menu@.len() == 4,
            shows_entry(res.menu@[0], "下载歌单"@, self.providers@.len() > 0, self.focus == HomeFocus::Playlists),
            shows_entry(res.menu@[1], "登录管理"@, self.providers@.len() > 0, self.focus == HomeFocus::Credential),
            shows_entry(res.menu@[2], "清理文件"@, true, self.focus == HomeFocus::CleanFiles),
            shows_entry(res.menu@[3], "设置"@, true, self.focus == HomeFocus::Settings),
            res.confirm == (if self.show_clean_confirm { Some(self.clean_confirm_yes) } else { None::<bool> }),
    {
        let has_prov = self.providers.len() > 0;
        let provider_line = if has_prov {
            let mut l = to_owned_string("当前音源: ");
            push_str(&mut l, provider_display);
            l
        } else {
            to_owned_string("当前音源: 无")
        };
        let mut plugin_line = to_owned_string("已加载插件: ");
        push_decimal(&mut plugin_line, self.providers.len() as u64);
        let mode = match self.search_type {
            SearchType::Song => "歌曲",
            SearchType::Album => "专辑",
        };
        let text_len = chars_of(self.search_text.as_str()).len();
        let in_box = self.focus == HomeFocus::SearchBox;
        let search = if !has_prov {
            SearchBox::NoProvider
        } else if text_len == 0 {
            SearchBox::Placeholder { cursor: in_box }
        } else if in_box {
            SearchBox::Editing { cells: self.search_cells(), end_cursor: self.cursor_pos >= text_len }
        } else {
            SearchBox::Idle
        };
        let mut menu: Vec<MenuEntry> = Vec::new();
        menu.push(MenuEntry { label: "下载歌单", enabled: has_prov, marked: self.focus == HomeFocus::Playlists && has_prov });
        menu.push(MenuEntry { label: "登录管理", enabled: has_prov, marked: self.focus == HomeFocus::Credential && has_prov });
        menu.push(MenuEntry { label: "清理文件", enabled: true, marked: self.focus == HomeFocus::CleanFiles });
        menu.push(MenuEntry { label: "设置", enabled: true, marked: self.focus == HomeFocus::Settings });
        let confirm = if self.show_clean_confirm { Some(self.clean_confirm_yes) } else { None };
        HomeScreen { provider_line, plugin_line, mode, search, menu, confirm }
    }
}

/// What a move with Shift does to the selection: the anchor stays where it
/// was, or is set at the cursor the move started from when there was none,
/// and the other end follows the cursor; the text is not touched.
pub open spec fn extends_selection(before: EditState, after: EditState) -> bool {
    &&& after.text == before.text
    &&& after.sel_end == Some(after.cursor as usize)
    &&& (before.sel_start matches Some(a) ==> after.sel_start == Some(a))
    &&& (before.sel_start is None ==> after.sel_start == Some(before.cursor as usize))
}

/// What a move without Shift does to the selection: it is dropped; the text
/// is not touched.
pub open spec fn drops_selection(before: EditState, after: EditState) -> bool {
    &&& after.text == before.text
    &&& after.sel_start is None
    &&& after.sel_end is None
}

/// The cursor keys of the search box. Left goes one character back but not
/// before the start, Right one character on but not past the end, Home to the
/// start and End to the end; Shift changes only the selection, never where
/// the cursor goes. With Shift each move extends the selection from its
/// anchor (the old cursor when there was none) to the new cursor; without
/// Shift each move clears it.
pub proof fn law_cursor_keys(e: EditState, shift: bool)
    requires
        0 <= e.cursor,
    ensures
        spec_cursor_left(e, shift).cursor == (if e.cursor > 0 { e.cursor - 1 } else { 0 }),
        spec_cursor_right(e, shift).cursor == (if e.cursor + 1 <= e.text.len() { e.cursor + 1 } else { e.text.len() as int }),
        spec_home_key(e, shift).cursor == 0,
        spec_end_key(e, shift).cursor == e.text.len(),
        spec_cursor_left(e, true).cursor == spec_cursor_left(e, false).cursor,
        spec_cursor_right(e, true).cursor == spec_cursor_right(e, false).cursor,
        spec_home_key(e, true).cursor == spec_home_key(e, false).cursor,
        spec_end_key(e, true).cursor == spec_end_key(e, false).cursor,
        shift ==> extends_selection(e, spec_cursor_left(e, shift)),
        shift ==> extends_selection(e, spec_cursor_right(e, shift)),
        shift ==> extends_selection(e, spec_home_key(e, shift)),
        shift ==> extends_selection(e, spec_end_key(e, shift)),
        !shift ==> drops_selection(e, spec_cursor_left(e, shift)),
        !shift ==> drops_selection(e, spec_cursor_right(e, shift)),
        !shift ==> drops_selection(e, spec_home_key(e, shift)),
        !shift ==> drops_selection(e, spec_end_key(e, shift)),
{
}

} // verus!
