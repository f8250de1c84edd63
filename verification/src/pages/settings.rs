//! The settings page: editing the thread count and the lyrics options.
use vstd::prelude::*;
use crate::config::{Config, ConfigView, LyricsConfig, default_config};
use crate::input::KeyCode;
use crate::text::{chars_of, i32_to_string, int_decimal, push_str, str_eq, to_owned_string};

verus! {

/// Lets `std::path::PathBuf` stand in the page's fields and signatures; the
/// page only carries the configuration file's path, opaque to the proofs.
#[verifier::external_type_specification]
#[verifier::external_body]
pub struct ExPathBuf(std::path::PathBuf);

/// The label shown for a lyrics kind.
pub open spec fn spec_lyrics_label(kind: Seq<char>) -> Seq<char> {
    if kind == "normal"@ {
        "普通歌词"@
    } else if kind == "verbatim"@ {
        "逐字歌词"@
    } else {
        "不下载"@
    }
}

/// The label shown for a lyrics kind: unknown kinds read as no lyrics.
pub fn lyrics_label(kind: &str) -> (res: &'static str)
    ensures
        res@ == spec_lyrics_label(kind@),
{
    if str_eq(kind, "normal") {
        "普通歌词"
    } else if str_eq(kind, "verbatim") {
        "逐字歌词"
    } else {
        "不下载"
    }
}

/// What the settings page asks of the application.
#[derive(PartialEq, Eq, Structural, Debug)]
pub enum SettingsAction {
    Back,
    Saved,
}

/// The item of the settings page that has the keyboard focus.
#[derive(Clone, Copy, PartialEq, Eq, Structural, Debug)]
pub enum SettingsFocus {
    Threads,
    LyricsType,
    Translation,
    Roma,
    Reset,
    Save,
    Back,
}

pub struct SettingsState {
    pub threads: i32,
    pub lyrics_type: String,
    pub translation: bool,
    pub roma: bool,
    pub focus: SettingsFocus,
    pub config_path: std::path::PathBuf,
    pub message: String,
}

/// The settings page as plain values.
pub struct SettingsView {
    pub threads: int,
    pub lyrics_type: Seq<char>,
    pub translation: bool,
    pub roma: bool,
    pub focus: SettingsFocus,
    pub message: Seq<char>,
}

impl View for SettingsState {
    type V = SettingsView;

    open spec fn view(&self) -> SettingsView {
        SettingsView {
            threads: self.threads as int,
            lyrics_type: self.lyrics_type@,
            translation: self.translation,
            roma: self.roma,
            focus: self.focus,
            message: self.message@,
        }
    }
}

/// The configuration that the page's values describe.
pub open spec fn settings_config(s: SettingsView) -> ConfigView {
    ConfigView { threads: s.threads, kind: s.lyrics_type, translation: s.translation, roma: s.roma }
}

pub open spec fn spec_settings_focus_next(f: SettingsFocus) -> SettingsFocus {
    match f {
        SettingsFocus::Threads => SettingsFocus::LyricsType,
        SettingsFocus::LyricsType => SettingsFocus::Translation,
        SettingsFocus::Translation => SettingsFocus::Roma,
        SettingsFocus::Roma => SettingsFocus::Reset,
        SettingsFocus::Reset => SettingsFocus::Save,
        SettingsFocus::Save => SettingsFocus::Back,
        SettingsFocus::Back => SettingsFocus::Threads,
    }
}

pub open spec fn spec_settings_focus_prev(f: SettingsFocus) -> SettingsFocus {
    match f {
        SettingsFocus::Threads => SettingsFocus::Back,
        SettingsFocus::LyricsType => SettingsFocus::Threads,
        SettingsFocus::Translation => SettingsFocus::LyricsType,
        SettingsFocus::Roma => SettingsFocus::Translation,
        SettingsFocus::Reset => SettingsFocus::Roma,
        SettingsFocus::Save => SettingsFocus::Reset,
        SettingsFocus::Back => SettingsFocus::Save,
    }
}

/// The lyrics kind one step to the left: verbatim → normal → none.
pub open spec fn lyrics_left(k: Seq<char>) -> Seq<char> {
    if k == "verbatim"@ { "normal"@ } else { "none"@ }
}

/// The lyrics kind one step to the right: none → normal → verbatim.
pub open spec fn lyrics_right(k: Seq<char>) -> Seq<char> {
    if k == "normal"@ || k == "verbatim"@ { "verbatim"@ } else { "normal"@ }
}

/// The page's values after the defaults are restored.
pub open spec fn spec_reset(s: SettingsView) -> SettingsView {
    let d = default_config();
    SettingsView { threads: d.threads, lyrics_type: d.kind, translation: d.translation, roma: d.roma, ..s }
}

/// What a key press asks of the application: to leave, or to save this
/// configuration.
pub enum SettingsRequest {
    Back,
    Save(Config),
}

/// The effect of a key on the page, and the request it makes.
pub open spec fn spec_settings_key(s: SettingsView, key: KeyCode) -> (SettingsView, Option<SettingsRequestView>) {
    match key {
        KeyCode::Esc => (s, Some(SettingsRequestView::Back)),
        KeyCode::Up => (SettingsView { focus: spec_settings_focus_prev(s.focus), ..s }, None),
        KeyCode::Down => (SettingsView { focus: spec_settings_focus_next(s.focus), ..s }, None),
        KeyCode::Enter => match s.focus {
            SettingsFocus::Reset => (SettingsView { message: "已重置为默认设置"@, ..spec_reset(s) }, None),
            SettingsFocus::Save => (s, Some(SettingsRequestView::Save(settings_config(s)))),
            SettingsFocus::Back => (s, Some(SettingsRequestView::Back)),
            _ => (s, None),
        },
        KeyCode::Left => (match s.focus {
            SettingsFocus::Threads => SettingsView { threads: if s.threads > 1 { s.threads - 1 } else { s.threads }, ..s },
            SettingsFocus::LyricsType => {
                let k = lyrics_left(s.lyrics_type);
                SettingsView {
                    lyrics_type: k,
                    translation: if k == "none"@ { false } else { s.translation },
                    roma: if k == "none"@ { false } else { s.roma },
                    ..s
                }
            },
            SettingsFocus::Translation => SettingsView { translation: false, ..s },
            SettingsFocus::Roma => SettingsView { roma: false, ..s },
            _ => s,
        }, None),
        KeyCode::Right => (match s.focus {
            SettingsFocus::Threads => SettingsView { threads: if s.threads < 8 { s.threads + 1 } else { s.threads }, ..s },
            SettingsFocus::LyricsType => SettingsView { lyrics_type: lyrics_right(s.lyrics_type), ..s },
            SettingsFocus::Translation => SettingsView { translation: true, ..s },
            SettingsFocus::Roma => SettingsView { roma: true, ..s },
            _ => s,
        }, None),
        _ => (s, None),
    }
}

/// A request as plain values.
pub enum SettingsRequestView {
    Back,
    Save(ConfigView),
}

impl SettingsRequest {
    pub open spec fn view(&self) -> SettingsRequestView {
        match self {
            SettingsRequest::Back => SettingsRequestView::Back,
            SettingsRequest::Save(c) => SettingsRequestView::Save(c@),
        }
    }
}

impl SettingsState {
    /// The page opened on a configuration; the focus starts on the thread count.
    pub fn new(config: &Config, config_path: std::path::PathBuf) -> (res: Self)
        ensures
            settings_config(res@) == config@,
            res.focus == SettingsFocus::Threads,
            res.message@ == Seq::<char>::empty(),
            res.config_path == config_path,
    {
        SettingsState {
            threads: config.threads,
            lyrics_type: to_owned_string(config.lyrics.kind.as_str()),
            translation: config.lyrics.translation,
            roma: config.lyrics.roma,
            focus: SettingsFocus::Threads,
            config_path,
            message: String::new(),
        }
    }

    /// The configuration that the page's values describe.
    pub fn to_config(&self) -> (res: Config)
        ensures
            res@ == settings_config(self@),
    {
        Config {
            threads: self.threads,
            lyrics: LyricsConfig {
                kind: to_owned_string(self.lyrics_type.as_str()),
                translation: self.translation,
                roma: self.roma,
            },
        }
    }

    /// Restores the default values; the focus and message stay.
    pub fn reset(&mut self)
        ensures
            final(self)@ == spec_reset(old(self)@),
            final(self).config_path == old(self).config_path,
    {
        let def = Config::default();
        self.threads = def.threads;
        self.lyrics_type = def.lyrics.kind;
        self.translation = def.lyrics.translation;
        self.roma = def.lyrics.roma;
    }

    fn focus_next(&mut self)
        ensures
            final(self)@ == (SettingsView { focus: spec_settings_focus_next(old(self).focus), ..old(self)@ }),
            final(self).config_path == old(self).config_path,
    {
        self.focus = match self.focus {
            SettingsFocus::Threads => SettingsFocus::LyricsType,
            SettingsFocus::LyricsType => SettingsFocus::Translation,
            SettingsFocus::Translation => SettingsFocus::Roma,
            SettingsFocus::Roma => SettingsFocus::Reset,
            SettingsFocus::Reset => SettingsFocus::Save,
            SettingsFocus::Save => SettingsFocus::Back,
            SettingsFocus::Back => SettingsFocus::Threads,
        };
    }

    fn focus_prev(&mut self)
        ensures
            final(self)@ == (SettingsView { focus: spec_settings_focus_prev(old(self).focus), ..old(self)@ }),
            final(self).config_path == old(self).config_path,
    {
        self.focus = match self.focus {
            SettingsFocus::Threads => SettingsFocus::Back,
            SettingsFocus::LyricsType => SettingsFocus::Threads,
            SettingsFocus::Translation => SettingsFocus::LyricsType,
            SettingsFocus::Roma => SettingsFocus::Translation,
            SettingsFocus::Reset => SettingsFocus::Roma,
            SettingsFocus::Save => SettingsFocus::Reset,
            SettingsFocus::Back => SettingsFocus::Save,
        };
    }

    /// Records the outcome of writing the configuration: on success the page
    /// reports `Saved`, on failure it shows `保存失败: ` and the error.
    pub fn finish_save(&mut self, result: Result<(), String>) -> (res: Option<SettingsAction>)
        ensures
            match result {
                Ok(_) => res == Some(SettingsAction::Saved) && final(self)@ == old(self)@,
                Err(e) => res is None && final(self)@ == (SettingsView { message: "保存失败: "@ + e@, ..old(self)@ }),
            },
            final(self).config_path == old(self).config_path,
    {
        match result {
            Ok(_) => Some(SettingsAction::Saved),
            Err(e) => {
                let mut m = String::new();
                push_str(&mut m, "保存失败: ");
                push_str(&mut m, e.as_str());
                self.message = m;
                None
            },
        }
    }
}

/// Reacts to a key on the settings page. Saving is left to the caller, which
/// reports the outcome through `finish_save`.
pub fn handle_settings_input(state: &mut SettingsState, key: KeyCode) -> (res: Option<SettingsRequest>)
    ensures
        final(state)@ == spec_settings_key(old(state)@, key).0,
        match res {
            Some(r) => spec_settings_key(old(state)@, key).1 == Some(r.view()),
            None => spec_settings_key(old(state)@, key).1 is None,
        },
        final(state).config_path == old(state).config_path,
{
    match key {
        KeyCode::Esc => return Some(SettingsRequest::Back),
        KeyCode::Up => state.focus_prev(),
        KeyCode::Down => state.focus_next(),
        KeyCode::Enter => {
            match state.focus {
                SettingsFocus::Reset => {
                    state.reset();
                    let mut m = String::new();
                    push_str(&mut m, "已重置为默认设置");
                    state.message = m;
                },
                SettingsFocus::Save => {
                    return Some(SettingsRequest::Save(state.to_config()));
                },
                SettingsFocus::Back => return Some(SettingsRequest::Back),
                _ => {},
            }
        },
        KeyCode::Left => {
            match state.focus {
                SettingsFocus::Threads => {
                    if state.threads > 1 {
                        state.threads = state.threads - 1;
                    }
                },
                SettingsFocus::LyricsType => {
                    let mut k = String::new();
                    if str_eq(state.lyrics_type.as_str(), "verbatim") {
                        push_str(&mut k, "normal");
                    } else {
                        push_str(&mut k, "none");
                    }
                    state.lyrics_type = k;
                    if str_eq(state.lyrics_type.as_str(), "none") {
                        state.translation = false;
                        state.roma = false;
                    }
                },
                SettingsFocus::Translation => {
                    state.translation = false;
                },
                SettingsFocus::Roma => {
                    state.roma = false;
                },
                _ => {},
            }
        },
        KeyCode::Right => {
            match state.focus {
                SettingsFocus::Threads => {
                    if state.threads < 8 {
                        state.threads = state.threads + 1;
                    }
                },
                SettingsFocus::LyricsType => {
                    let mut k = String::new();
                    if str_eq(state.lyrics_type.as_str(), "normal") || str_eq(
                        state.lyrics_type.as_str(),
                        "verbatim",
                    ) {
                        push_str(&mut k, "verbatim");
                    } else {
                        push_str(&mut k, "normal");
                    }
                    state.lyrics_type = k;
                },
                SettingsFocus::Translation => {
                    state.translation = true;
                },
                SettingsFocus::Roma => {
                    state.roma = true;
                },
                _ => {},
            }
        },
        _ => {},
    }
    None
}

/// Up undoes Down and Down undoes Up on the settings page.
pub proof fn law_settings_focus_inverse(f: SettingsFocus)
    ensures
        spec_settings_focus_prev(spec_settings_focus_next(f)) == f,
        spec_settings_focus_next(spec_settings_focus_prev(f)) == f,
{
}

/// Opening the settings page on a configuration and reading it back gives
/// the same configuration.
pub proof fn law_settings_round_trip(c: ConfigView, focus: SettingsFocus, message: Seq<char>)
    ensures
        settings_config(
            SettingsView {
                threads: c.threads,
                lyrics_type: c.kind,
                translation: c.translation,
                roma: c.roma,
                focus,
                message,
            },
        ) == c,
{
}

/// Reset gives back the default configuration.
pub proof fn law_reset_gives_default(s: SettingsView)
    ensures
        settings_config(spec_reset(s)) == default_config(),
{
}

/// The arrow keys keep the thread count within 1..=8 and the lyrics kind among
/// the known kinds, and with no lyrics neither extra can be turned on by Left.
pub proof fn law_settings_keys_stay_valid(s: SettingsView, key: KeyCode)
    requires
        1 <= s.threads <= 8,
        s.lyrics_type == "none"@ || s.lyrics_type == "normal"@ || s.lyrics_type == "verbatim"@,
    ensures
        1 <= spec_settings_key(s, key).0.threads <= 8,
        ({
            let k = spec_settings_key(s, key).0.lyrics_type;
            k == "none"@ || k == "normal"@ || k == "verbatim"@
        }),
{
}

/// A setting as shown: its label, its value and whether it has the focus.
pub struct SettingItem {
    pub label: &'static str,
    pub value: String,
    pub focused: bool,
}

/// A button as shown: its label and whether it has the focus.
pub struct SettingButton {
    pub label: &'static str,
    pub focused: bool,
}

/// What the settings page shows: the four settings, the three buttons and
/// the message, when there is one.
pub struct SettingsScreen {
    pub items: Vec<SettingItem>,
    pub buttons: Vec<SettingButton>,
    pub notice: Option<String>,
}

pub open spec fn shows_item(it: SettingItem, label: Seq<char>, value: Seq<char>, focused: bool) -> bool {
    it.label@ == label && it.value@ == value && it.focused == focused
}

pub open spec fn shows_button(b: SettingButton, label: Seq<char>, focused: bool) -> bool {
    b.label@ == label && b.focused == focused
}

/// The text of a yes/no setting.
pub open spec fn yes_no(b: bool) -> Seq<char> {
    if b { "是"@ } else { "否"@ }
}

fn yes_no_text(b: bool) -> (res: String)
    ensures
        res@ == yes_no(b),
{
    if b { to_owned_string("是") } else { to_owned_string("否") }
}

/// What the page shows on a screen of `width` × `height` cells; nothing on a
/// screen narrower than 30 columns or lower than 10 rows.
pub fn settings_screen(state: &SettingsState, width: u16, height: u16) -> (res: Option<SettingsScreen>)
    ensures
        res is None <==> (width < 30 || height < 10),
        res matches Some(s) ==> {
            &&& s.items@.len() == 4
            &&& shows_item(s.items@[0], "下载线程数"@, int_decimal(state.threads as int), state.focus == SettingsFocus::Threads)
            &&& shows_item(s.items@[1], "下载歌词"@, spec_lyrics_label(state.lyrics_type@), state.focus == SettingsFocus::LyricsType)
            &&& shows_item(s.items@[2], "下载翻译"@, yes_no(state.translation), state.focus == SettingsFocus::Translation)
            &&& shows_item(s.items@[3], "下载罗马音"@, yes_no(state.roma), state.focus == SettingsFocus::Roma)
            &&& s.buttons@.len() == 3
            &&& shows_button(s.buttons@[0], "重置所有设置"@, state.focus == SettingsFocus::Reset)
            &&& shows_button(s.buttons@[1], "保存并关闭"@, state.focus == SettingsFocus::Save)
            &&& shows_button(s.buttons@[2], "返回"@, state.focus == SettingsFocus::Back)
            &&& match s.notice {
                Some(m) => state.message@.len() > 0 && m@ == state.message@,
                None => state.message@.len() == 0,
            }
        },
{
    if width < 30 || height < 10 {
        return None;
    }
    let mut items: Vec<SettingItem> = Vec::new();
    items.push(SettingItem { label: "下载线程数", value: i32_to_string(state.threads), focused: state.focus == SettingsFocus::Threads });
    items.push(SettingItem {
        label: "下载歌词",
        value: to_owned_string(lyrics_label(state.lyrics_type.as_str())),
        focused: state.focus == SettingsFocus::LyricsType,
    });
    items.push(SettingItem { label: "下载翻译", value: yes_no_text(state.translation), focused: state.focus == SettingsFocus::Translation });
    items.push(SettingItem { label: "下载罗马音", value: yes_no_text(state.roma), focused: state.focus == SettingsFocus::Roma });
    let mut buttons: Vec<SettingButton> = Vec::new();
    buttons.push(SettingButton { label: "重置所有设置", focused: state.focus == SettingsFocus::Reset });
    buttons.push(SettingButton { label: "保存并关闭", focused: state.focus == SettingsFocus::Save });
    buttons.push(SettingButton { label: "返回", focused: state.focus == SettingsFocus::Back });
    let notice = if chars_of(state.message.as_str()).len() > 0 { Some(to_owned_string(state.message.as_str())) } else { None };
    Some(SettingsScreen { items, buttons, notice })
}

/// Left and Right change only the focused setting and ask nothing of the
/// application: on the translation row Right turns translation on and Left
/// turns it off, on the romanization row the same for romanization, on the
/// thread row they step the count by one within 1..=8, and on the lyrics
/// row they step through none, normal and verbatim (stepping down to none
/// also turns both extras off). The focus and the message stay.
pub proof fn law_settings_left_right(s: SettingsView, key: KeyCode)
    requires
        key == KeyCode::Left || key == KeyCode::Right,
    ensures
        ({
            let (r, req) = spec_settings_key(s, key);
            let right = key == KeyCode::Right;
            &&& req is None
            &&& r.focus == s.focus
            &&& r.message == s.message
            &&& s.focus == SettingsFocus::Translation ==> {
                &&& r.translation == right
                &&& r.roma == s.roma && r.threads == s.threads && r.lyrics_type == s.lyrics_type
            }
            &&& s.focus == SettingsFocus::Roma ==> {
                &&& r.roma == right
                &&& r.translation == s.translation && r.threads == s.threads && r.lyrics_type == s.lyrics_type
            }
            &&& s.focus == SettingsFocus::Threads ==> {
                &&& r.threads == (if right {
                    if s.threads < 8 { s.threads + 1 } else { s.threads }
                } else {
                    if s.threads > 1 { s.threads - 1 } else { s.threads }
                })
                &&& r.translation == s.translation && r.roma == s.roma && r.lyrics_type == s.lyrics_type
            }
            &&& s.focus == SettingsFocus::LyricsType ==> {
                &&& r.threads == s.threads
                &&& right ==> r.lyrics_type == (if s.lyrics_type == "normal"@ || s.lyrics_type == "verbatim"@ {
                    "verbatim"@
                } else {
                    "normal"@
                }) && r.translation == s.translation && r.roma == s.roma
                &&& !right ==> r.lyrics_type == (if s.lyrics_type == "verbatim"@ { "normal"@ } else { "none"@ })
                &&& !right && r.lyrics_type == "none"@ ==> !r.translation && !r.roma
                &&& !right && r.lyrics_type != "none"@ ==> r.translation == s.translation && r.roma == s.roma
            }
            &&& (s.focus == SettingsFocus::Reset || s.focus == SettingsFocus::Save || s.focus == SettingsFocus::Back) ==> r == s
        }),
{
    reveal_strlit("none");
    reveal_strlit("normal");
}

} // verus!
