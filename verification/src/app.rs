//! The application's decisions: which page is shown, what a key does on the
//! home page, download folder names, task titles and lyrics options.
use vstd::prelude::*;
use crate::config::{Config, ConfigView};
use crate::input::{KeyCode, KeyEvent};
use crate::pages::album_search::AlbumSearchState;
use crate::pages::home::{
    EditState, HomeFocus, HomeState, SearchType, clamp, spec_cursor_left, spec_cursor_right, spec_delete_char,
    spec_delete_selection, spec_end_key, spec_focus_next, spec_focus_prev, spec_has_selection, spec_home_key,
    spec_insert_char, spec_select_all,
};
use crate::pages::login::LoginPageState;
use crate::pages::playlist::PlaylistPageState;
use crate::pages::search::SearchPageState;
use crate::pages::settings::SettingsState;
use crate::text::{chars_of, join, join_prefix, join_strings, push_str, str_eq, to_owned_string, trim, trim_chars, views};

verus! {

/// The page on screen, with its state; the download page's state is shared
/// with the task that runs the download.
pub enum AppPage<S, A, P, D> {
    Home,
    Search(Box<SearchPageState<S>>),
    AlbumSearch(Box<AlbumSearchState<A>>),
    Playlist(Box<PlaylistPageState<P>>),
    Login(Box<LoginPageState>),
    Download(D),
    Settings(Box<SettingsState>),
}

/// The current provider as the home page needs to know it.
#[derive(Clone, Copy, PartialEq, Eq, Structural, Debug)]
pub enum ProviderAccess {
    /// No provider is loaded.
    NoProvider,
    /// The provider needs a login and no credential is saved for it.
    NeedsLogin,
    /// The provider can be used.
    Ready,
}

/// What the application knows that the home page's keys depend on.
pub struct HomeContext {
    pub provider: ProviderAccess,
    /// Whether any provider at all is loaded.
    pub any_provider: bool,
    /// The display name of the current provider.
    pub provider_display: String,
}

/// What a key on the home page asks of the application.
pub enum HomeCommand {
    Nothing,
    /// Save the credentials and quit.
    Exit,
    /// Empty the download folder.
    Cleanup,
    /// The provider index moved on; the application picks the new provider.
    CycledProvider,
    Search { keyword: String, search_type: SearchType },
    OpenPlaylists,
    OpenLogin,
    OpenSettings,
}

/// A command as plain values.
pub enum HomeCommandView {
    Nothing,
    Exit,
    Cleanup,
    CycledProvider,
    Search { keyword: Seq<char>, search_type: SearchType },
    OpenPlaylists,
    OpenLogin,
    OpenSettings,
}

impl HomeCommand {
    pub open spec fn view(&self) -> HomeCommandView {
        match self {
            HomeCommand::Nothing => HomeCommandView::Nothing,
            HomeCommand::Exit => HomeCommandView::Exit,
            HomeCommand::Cleanup => HomeCommandView::Cleanup,
            HomeCommand::CycledProvider => HomeCommandView::CycledProvider,
            HomeCommand::Search { keyword, search_type } => HomeCommandView::Search {
                keyword: keyword@,
                search_type: *search_type,
            },
            HomeCommand::OpenPlaylists => HomeCommandView::OpenPlaylists,
            HomeCommand::OpenLogin => HomeCommandView::OpenLogin,
            HomeCommand::OpenSettings => HomeCommandView::OpenSettings,
        }
    }
}

/// The home page as plain values.
pub struct HomeView {
    pub focus: HomeFocus,
    pub providers: Seq<Seq<char>>,
    pub current_provider_index: usize,
    pub message: Seq<char>,
    pub show_clean_confirm: bool,
    pub clean_confirm_yes: bool,
    pub edit: EditState,
    pub search_type: SearchType,
}

pub open spec fn home_view(s: &HomeState) -> HomeView {
    HomeView {
        focus: s.focus,
        providers: views(s.providers@),
        current_provider_index: s.current_provider_index,
        message: s.message@,
        show_clean_confirm: s.show_clean_confirm,
        clean_confirm_yes: s.clean_confirm_yes,
        edit: s.edit(),
        search_type: s.search_type,
    }
}

/// A change to the search box only.
pub open spec fn with_edit(v: HomeView, e: EditState) -> HomeView {
    HomeView { edit: e, ..v }
}

/// The effect of Enter on the selected menu item.
pub open spec fn spec_home_enter(v: HomeView, ctx_provider: ProviderAccess, any_provider: bool, display: Seq<char>) -> (HomeView, HomeCommandView) {
    match v.focus {
        HomeFocus::SearchBox => {
            let kw = trim(v.edit.text);
            if kw.len() == 0 {
                (v, HomeCommandView::Nothing)
            } else {
                let cleared = with_edit(v, EditState { text: Seq::empty(), cursor: 0, ..v.edit });
                match ctx_provider {
                    ProviderAccess::NeedsLogin => (HomeView { message: display + "需要登录才能搜索，请先到登录管理登录"@, ..cleared }, HomeCommandView::Nothing),
                    ProviderAccess::NoProvider => (HomeView { message: "没有可用的音源"@, ..cleared }, HomeCommandView::Nothing),
                    ProviderAccess::Ready => (cleared, HomeCommandView::Search { keyword: kw, search_type: v.search_type }),
                }
            }
        },
        HomeFocus::Playlists => match ctx_provider {
            ProviderAccess::NeedsLogin => (HomeView { message: display + "需要登录才能下载歌单，请先到登录管理登录"@, ..v }, HomeCommandView::Nothing),
            ProviderAccess::NoProvider => (HomeView { message: "没有可用的音源"@, ..v }, HomeCommandView::Nothing),
            ProviderAccess::Ready => (v, HomeCommandView::OpenPlaylists),
        },
        HomeFocus::Credential => if any_provider {
            (v, HomeCommandView::OpenLogin)
        } else {
            (HomeView { message: "没有可用的音源"@, ..v }, HomeCommandView::Nothing)
        },
        HomeFocus::CleanFiles => (HomeView { show_clean_confirm: true, ..v }, HomeCommandView::Nothing),
        HomeFocus::Settings => (v, HomeCommandView::OpenSettings),
    }
}

/// The effect of a key on the home page, and what it asks of the application.
pub open spec fn spec_home_page_key(v: HomeView, ctx_provider: ProviderAccess, any_provider: bool, display: Seq<char>, key: KeyEvent) -> (HomeView, HomeCommandView) {
    let in_box = v.focus == HomeFocus::SearchBox;
    if v.show_clean_confirm {
        match key.code {
            KeyCode::Left | KeyCode::Right => (HomeView { clean_confirm_yes: !v.clean_confirm_yes, ..v }, HomeCommandView::Nothing),
            KeyCode::Enter => (HomeView { show_clean_confirm: false, ..v }, if v.clean_confirm_yes { HomeCommandView::Cleanup } else { HomeCommandView::Nothing }),
            KeyCode::Esc | KeyCode::Char('n') | KeyCode::Char('N') => (HomeView { show_clean_confirm: false, ..v }, HomeCommandView::Nothing),
            KeyCode::Char('y') | KeyCode::Char('Y') => (HomeView { show_clean_confirm: false, ..v }, HomeCommandView::Cleanup),
            _ => (v, HomeCommandView::Nothing),
        }
    } else {
        match key.code {
            KeyCode::Esc => (v, HomeCommandView::Exit),
            KeyCode::Tab => (HomeView { search_type: if v.search_type == SearchType::Song { SearchType::Album } else { SearchType::Song }, ..v }, HomeCommandView::Nothing),
            KeyCode::Up => (HomeView { focus: spec_focus_prev(v.focus, v.providers.len() > 0), ..v }, HomeCommandView::Nothing),
            KeyCode::Down => (HomeView { focus: spec_focus_next(v.focus, v.providers.len() > 0), ..v }, HomeCommandView::Nothing),
            KeyCode::Char(c) => if (c == 'P' || c == 'p') && key.ctrl {
                (HomeView {
                    current_provider_index: if v.providers.len() > 0 {
                        ((v.current_provider_index + 1) % (v.providers.len() as int)) as usize
                    } else {
                        v.current_provider_index
                    },
                    ..v
                }, HomeCommandView::CycledProvider)
            } else if !key.ctrl {
                (if in_box { with_edit(v, spec_insert_char(v.edit, c)) } else { v }, HomeCommandView::Nothing)
            } else if c == 'a' || c == 'A' {
                (if in_box { with_edit(v, spec_select_all(v.edit)) } else { v }, HomeCommandView::Nothing)
            } else {
                (v, HomeCommandView::Nothing)
            },
            KeyCode::Enter => spec_home_enter(v, ctx_provider, any_provider, display),
            KeyCode::Backspace => (if in_box { with_edit(v, spec_delete_char(v.edit)) } else { v }, HomeCommandView::Nothing),
            KeyCode::Left => (if in_box { with_edit(v, spec_cursor_left(v.edit, key.shift)) } else { v }, HomeCommandView::Nothing),
            KeyCode::Right => (if in_box { with_edit(v, spec_cursor_right(v.edit, key.shift)) } else { v }, HomeCommandView::Nothing),
            KeyCode::Home => (if in_box { with_edit(v, spec_home_key(v.edit, key.shift)) } else { v }, HomeCommandView::Nothing),
            KeyCode::End => (if in_box { with_edit(v, spec_end_key(v.edit, key.shift)) } else { v }, HomeCommandView::Nothing),
            _ => (v, HomeCommandView::Nothing),
        }
    }
}

/// The states and keys for which the edit is defined: the cursor can move
/// on without overflow, and Backspace without a selection stays within the text.
pub open spec fn home_key_ok(v: HomeView, key: KeyEvent) -> bool {
    !v.show_clean_confirm && v.focus == HomeFocus::SearchBox ==> match key.code {
        KeyCode::Char(_) => !key.ctrl ==> spec_delete_selection(v.edit).cursor < usize::MAX,
        KeyCode::Backspace => spec_has_selection(v.edit) || v.edit.cursor <= v.edit.text.len(),
        KeyCode::Right => v.edit.cursor < usize::MAX,
        _ => true,
    }
}

/// Reacts to a key on the home page. What leaves the page (quitting, the
/// clean-up, searching, opening a page) is left to the caller.
pub fn handle_home_key(state: &mut HomeState, key: KeyEvent, ctx: &HomeContext) -> (res: HomeCommand)
    requires
        home_key_ok(home_view(old(state)), key),
    ensures
        ({
            let r = spec_home_page_key(home_view(old(state)), ctx.provider, ctx.any_provider, ctx.provider_display@, key);
            &&& home_view(final(state)) == r.0
            &&& res.view() == r.1
        }),
{
    if state.show_clean_confirm {
        match key.code {
            KeyCode::Left | KeyCode::Right => {
                state.clean_confirm_yes = !state.clean_confirm_yes;
                return HomeCommand::Nothing;
            },
            KeyCode::Enter => {
                state.show_clean_confirm = false;
                return if state.clean_confirm_yes { HomeCommand::Cleanup } else { HomeCommand::Nothing };
            },
            KeyCode::Esc | KeyCode::Char('n') | KeyCode::Char('N') => {
                state.show_clean_confirm = false;
                return HomeCommand::Nothing;
            },
            KeyCode::Char('y') | KeyCode::Char('Y') => {
                state.show_clean_confirm = false;
                return HomeCommand::Cleanup;
            },
            _ => {
                return HomeCommand::Nothing;
            },
        }
    }
    let in_box = state.focus == HomeFocus::SearchBox;
    match key.code {
        KeyCode::Esc => HomeCommand::Exit,
        KeyCode::Tab => {
            state.search_type = match state.search_type {
                SearchType::Song => SearchType::Album,
                SearchType::Album => SearchType::Song,
            };
            HomeCommand::Nothing
        },
        KeyCode::Up => {
            state.focus_prev();
            HomeCommand::Nothing
        },
        KeyCode::Down => {
            state.focus_next();
            HomeCommand::Nothing
        },
        KeyCode::Char(c) => {
            if (c == 'P' || c == 'p') && key.ctrl {
                state.cycle_provider();
                HomeCommand::CycledProvider
            } else if !key.ctrl {
                if in_box {
                    state.insert_char(c);
                }
                HomeCommand::Nothing
            } else if c == 'a' || c == 'A' {
                if in_box {
                    state.select_all();
                }
                HomeCommand::Nothing
            } else {
                HomeCommand::Nothing
            }
        },
        KeyCode::Enter => home_enter(state, ctx),
        KeyCode::Backspace => {
            if in_box {
                state.delete_char();
            }
            HomeCommand::Nothing
        },
        KeyCode::Left => {
            if in_box {
                state.cursor_left(key.shift);
            }
            HomeCommand::Nothing
        },
        KeyCode::Right => {
            if in_box {
                state.cursor_right(key.shift);
            }
            HomeCommand::Nothing
        },
        KeyCode::Home => {
            if in_box {
                state.home_key(key.shift);
            }
            HomeCommand::Nothing
        },
        KeyCode::End => {
            if in_box {
                state.end_key(key.shift);
            }
            HomeCommand::Nothing
        },
        _ => HomeCommand::Nothing,
    }
}

fn message_with(prefix: &str, text: &str) -> (res: String)
    ensures
        res@ == prefix@ + text@,
{
    let mut m = String::new();
    push_str(&mut m, prefix);
    push_str(&mut m, text);
    m
}

/// Enter on the home page.
fn home_enter(state: &mut HomeState, ctx: &HomeContext) -> (res: HomeCommand)
    ensures
        ({
            let r = spec_home_enter(home_view(old(state)), ctx.provider, ctx.any_provider, ctx.provider_display@);
            &&& home_view(final(state)) == r.0
            &&& res.view() == r.1
        }),
{
    match state.focus {
        HomeFocus::SearchBox => {
            let cs = chars_of(state.search_text.as_str());
            let kw = trim_chars(&cs);
            if kw.as_str().unicode_len() == 0 {
                return HomeCommand::Nothing;
            }
            state.search_text = String::new();
            state.cursor_pos = 0;
            match ctx.provider {
                ProviderAccess::NeedsLogin => {
                    state.message = message_with(ctx.provider_display.as_str(), "需要登录才能搜索，请先到登录管理登录");
                    HomeCommand::Nothing
                },
                ProviderAccess::NoProvider => {
                    state.message = to_owned_string("没有可用的音源");
                    HomeCommand::Nothing
                },
                ProviderAccess::Ready => HomeCommand::Search { keyword: kw, search_type: state.search_type },
            }
        },
        HomeFocus::Playlists => match ctx.provider {
            ProviderAccess::NeedsLogin => {
                state.message = message_with(ctx.provider_display.as_str(), "需要登录才能下载歌单，请先到登录管理登录");
                HomeCommand::Nothing
            },
            ProviderAccess::NoProvider => {
                state.message = to_owned_string("没有可用的音源");
                HomeCommand::Nothing
            },
            ProviderAccess::Ready => HomeCommand::OpenPlaylists,
        },
        HomeFocus::Credential => {
            if ctx.any_provider {
                HomeCommand::OpenLogin
            } else {
                state.message = to_owned_string("没有可用的音源");
                HomeCommand::Nothing
            }
        },
        HomeFocus::CleanFiles => {
            state.show_clean_confirm = true;
            HomeCommand::Nothing
        },
        HomeFocus::Settings => HomeCommand::OpenSettings,
    }
}

/// The provider at `index`, or the last one when the index is past the end.
pub fn pick_provider_name(names: &Vec<String>, index: usize) -> (res: Option<String>)
    ensures
        names@.len() == 0 ==> res is None,
        names@.len() > 0 ==> (res matches Some(n) && n@ == names@[clamp(index as int, names@.len() - 1)]@),
{
    if names.len() == 0 {
        None
    } else {
        let last = names.len() - 1;
        let i = if index < last { index } else { last };
        Some(to_owned_string(names[i].as_str()))
    }
}

/// Announces the provider now in use.
pub fn announce_provider(state: &mut HomeState, display: &str)
    ensures
        final(state).message@ == "当前音源: "@ + display@,
        home_view(final(state)) == (HomeView { message: final(state).message@, ..home_view(old(state)) }),
{
    state.message = message_with("当前音源: ", display);
}

/// The home page's message after the download folder was emptied (or not).
pub fn cleanup_message(result: Result<(), String>) -> (res: String)
    ensures
        match result {
            Ok(_) => res@ == "已清理所有下载文件"@,
            Err(e) => res@ == "清理失败: "@ + e@,
        },
{
    match result {
        Ok(_) => to_owned_string("已清理所有下载文件"),
        Err(e) => message_with("清理失败: ", e.as_str()),
    }
}

/// Characters that may not appear in a folder name.
pub open spec fn invalid_path_char(c: char) -> bool {
    c == '<' || c == '>' || c == ':' || c == '"' || c == '/' || c == '\\' || c == '|' || c == '?' || c == '*'
}

/// Each invalid character replaced by `_`.
pub open spec fn replace_invalid(s: Seq<char>) -> Seq<char> {
    s.map_values(|c: char| if invalid_path_char(c) { '_' } else { c })
}

/// A folder name made from a title: invalid characters become `_`, and white
/// space is trimmed from both ends.
pub fn sanitize_path(name: &str) -> (res: String)
    ensures
        res@ == trim(replace_invalid(name@)),
{
    let cs = chars_of(name);
    let mut out: Vec<char> = Vec::new();
    let mut i: usize = 0;
    while i < cs.len()
        invariant
            i <= cs@.len(),
            cs@ == name@,
            out@ == replace_invalid(cs@.take(i as int)),
        decreases cs.len() - i,
    {
        let c = cs[i];
        let invalid = c == '<' || c == '>' || c == ':' || c == '"' || c == '/' || c == '\\' || c == '|' || c == '?'
            || c == '*';
        out.push(if invalid { '_' } else { c });
        assert(out@ =~= replace_invalid(cs@.take(i + 1)));
        i += 1;
    }
    assert(cs@.take(cs.len() as int) == cs@);
    trim_chars(&out)
}

/// The title of a song task: up to three titles joined by `、`, followed by
/// ` 等` when there are more than three songs.
pub open spec fn spec_task_name(total: nat, titles: Seq<Seq<char>>) -> Seq<char> {
    if total <= 3 {
        join(titles, "、"@)
    } else {
        join(titles.take(if titles.len() < 3 { titles.len() as int } else { 3 }), "、"@) + " 等"@
    }
}

/// The title shown for a download of the given songs.
pub fn tn(total: usize, titles: &Vec<String>) -> (res: String)
    ensures
        res@ == spec_task_name(total as nat, views(titles@)),
{
    if total <= 3 {
        join_strings(titles, "、")
    } else {
        let n = if titles.len() < 3 { titles.len() } else { 3 };
        let mut s = join_prefix(titles, n, "、");
        push_str(&mut s, " 等");
        assert(views(titles@.take(n as int)) =~= views(titles@).take(n as int));
        s
    }
}

/// The kind of lyrics that a download fetches.
#[derive(Clone, Copy, PartialEq, Eq, Structural, Debug)]
pub enum LyricKind {
    NoLyrics,
    Normal,
    Verbatim,
}

/// The lyrics settings of a download: the kind, and the translation and
/// romanization flags when lyrics are wanted (otherwise the downloader's
/// defaults stay).
pub struct LyricOptions {
    pub kind: LyricKind,
    pub extras: Option<(bool, bool)>,
}

pub open spec fn spec_lyric_kind(k: Seq<char>) -> LyricKind {
    if k == "normal"@ {
        LyricKind::Normal
    } else if k == "verbatim"@ {
        LyricKind::Verbatim
    } else {
        LyricKind::NoLyrics
    }
}

/// The lyrics settings that a configuration asks for.
pub fn lyric_options(config: &Config) -> (res: LyricOptions)
    ensures
        res.kind == spec_lyric_kind(config@.kind),
        res.extras == (if config@.kind != "none"@ {
            Some((config@.translation, config@.roma))
        } else {
            None::<(bool, bool)>
        }),
{
    let kind = if str_eq(config.lyrics.kind.as_str(), "normal") {
        LyricKind::Normal
    } else if str_eq(config.lyrics.kind.as_str(), "verbatim") {
        LyricKind::Verbatim
    } else {
        LyricKind::NoLyrics
    };
    let extras = if !str_eq(config.lyrics.kind.as_str(), "none") {
        Some((config.lyrics.translation, config.lyrics.roma))
    } else {
        None
    };
    LyricOptions { kind, extras }
}

/// Sanitizing a title gives a name without invalid characters and without
/// white space at either end.
pub proof fn law_sanitized_name_is_clean(name: Seq<char>)
    ensures
        forall|i: int| 0 <= i < trim(replace_invalid(name)).len() ==> !invalid_path_char(
            #[trigger] trim(replace_invalid(name))[i],
        ),
{
    let r = replace_invalid(name);
    assert forall|i: int| 0 <= i < r.len() implies !invalid_path_char(#[trigger] r[i]) by {}
    lemma_trim_keeps(r);
}

/// Every character of `trim(s)` is one of `s`.
proof fn lemma_trim_keeps(s: Seq<char>)
    ensures
        forall|c: char| trim(s).contains(c) ==> s.contains(c),
        forall|i: int| 0 <= i < trim(s).len() ==> s.contains(#[trigger] trim(s)[i]),
{
    lemma_trim_start_keeps(s);
    lemma_trim_end_keeps(crate::text::trim_start(s));
    assert forall|i: int| 0 <= i < trim(s).len() implies s.contains(#[trigger] trim(s)[i]) by {
        assert(trim(s).contains(trim(s)[i]));
    }
}

proof fn lemma_trim_start_keeps(s: Seq<char>)
    ensures
        forall|c: char| crate::text::trim_start(s).contains(c) ==> s.contains(c),
    decreases s.len(),
{
    if s.len() > 0 && crate::text::is_white_space(s[0]) {
        lemma_trim_start_keeps(s.drop_first());
        assert forall|c: char| s.drop_first().contains(c) implies s.contains(c) by {
            let k = choose|k: int| 0 <= k < s.drop_first().len() && s.drop_first()[k] == c;
            assert(s[k + 1] == c);
        }
    }
}

proof fn lemma_trim_end_keeps(s: Seq<char>)
    ensures
        forall|c: char| crate::text::trim_end(s).contains(c) ==> s.contains(c),
    decreases s.len(),
{
    if s.len() > 0 && crate::text::is_white_space(s.last()) {
        lemma_trim_end_keeps(s.drop_last());
        assert forall|c: char| s.drop_last().contains(c) implies s.contains(c) by {
            let k = choose|k: int| 0 <= k < s.drop_last().len() && s.drop_last()[k] == c;
            assert(s[k] == c);
        }
    }
}

/// Two Tab presses bring the search type back.
pub proof fn law_tab_twice(v: HomeView, p: ProviderAccess, any: bool, d: Seq<char>)
    requires
        !v.show_clean_confirm,
    ensures
        ({
            let k = KeyEvent { code: KeyCode::Tab, ctrl: false, shift: false };
            spec_home_page_key(spec_home_page_key(v, p, any, d, k).0, p, any, d, k).0 == v
        }),
{
}

/// The arrow, Home and End keys in the focused search box move the cursor
/// one character back, one on (within the text), to the start or to the
/// end; held Shift extends the selection from its anchor (the cursor the
/// move started from when there was none) to the new cursor, otherwise the
/// selection is dropped. The text and everything outside the box stay, and
/// nothing is asked of the application.
pub proof fn law_home_cursor_keys(v: HomeView, p: ProviderAccess, any: bool, d: Seq<char>, key: KeyEvent)
    requires
        !v.show_clean_confirm,
        v.focus == HomeFocus::SearchBox,
        0 <= v.edit.cursor,
        key.code == KeyCode::Left || key.code == KeyCode::Right || key.code == KeyCode::Home || key.code == KeyCode::End,
    ensures
        ({
            let r = spec_home_page_key(v, p, any, d, key);
            let e = v.edit;
            let to = if key.code == KeyCode::Left {
                if e.cursor > 0 { e.cursor - 1 } else { 0 }
            } else if key.code == KeyCode::Right {
                if e.cursor + 1 <= e.text.len() { e.cursor + 1 } else { e.text.len() as int }
            } else if key.code == KeyCode::Home {
                0
            } else {
                e.text.len() as int
            };
            &&& r.1 is Nothing
            &&& r.0.edit.cursor == to
            &&& r.0.edit.text == e.text
            &&& key.shift ==> r.0.edit.sel_end == Some(to as usize)
            &&& key.shift ==> r.0.edit.sel_start == (if e.sel_start is Some { e.sel_start } else { Some(e.cursor as usize) })
            &&& !key.shift ==> r.0.edit.sel_start is None && r.0.edit.sel_end is None
            &&& r.0 == HomeView { edit: r.0.edit, ..v }
        }),
{
}

} // verus!
