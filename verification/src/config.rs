//! The user's settings: download threads and the lyrics to fetch.
use vstd::prelude::*;
use crate::text::{i32_to_string, int_decimal, push_str, str_eq};

verus! {

/// Which lyrics to download and with which extras.
pub struct LyricsConfig {
    /// `none`, `normal` or `verbatim`.
    pub kind: String,
    pub translation: bool,
    pub roma: bool,
}

/// The whole configuration file.
pub struct Config {
    pub threads: i32,
    pub lyrics: LyricsConfig,
}

/// A configuration as plain values.
pub struct ConfigView {
    pub threads: int,
    pub kind: Seq<char>,
    pub translation: bool,
    pub roma: bool,
}

impl View for Config {
    type V = ConfigView;

    open spec fn view(&self) -> ConfigView {
        ConfigView {
            threads: self.threads as int,
            kind: self.lyrics.kind@,
            translation: self.lyrics.translation,
            roma: self.lyrics.roma,
        }
    }
}

/// The lyrics kinds that the downloader understands.
pub open spec fn known_lyrics_kind(k: Seq<char>) -> bool {
    k == "none"@ || k == "normal"@ || k == "verbatim"@
}

/// What `validate` makes of a configuration: threads clamped to 1..=8, an
/// unknown lyrics kind replaced by `none`, and no extras without lyrics.
pub open spec fn validated(c: ConfigView) -> ConfigView {
    let threads = if c.threads < 1 { 1 } else if c.threads > 8 { 8 } else { c.threads };
    let kind = if known_lyrics_kind(c.kind) { c.kind } else { "none"@ };
    let none = kind == "none"@;
    ConfigView {
        threads,
        kind,
        translation: if none { false } else { c.translation },
        roma: if none { false } else { c.roma },
    }
}

/// A configuration that `validate` leaves as it is.
pub open spec fn valid_config(c: ConfigView) -> bool {
    &&& 1 <= c.threads <= 8
    &&& known_lyrics_kind(c.kind)
    &&& c.kind == "none"@ ==> !c.translation && !c.roma
}

/// The default configuration: one thread, no lyrics.
pub open spec fn default_config() -> ConfigView {
    ConfigView { threads: 1, kind: "none"@, translation: false, roma: false }
}

/// The lyrics kind used when the file names none.
pub fn default_lyrics_type() -> (res: String)
    ensures
        res@ == "none"@,
{
    let mut s = String::new();
    push_str(&mut s, "none");
    s
}

/// The thread count used when the file names none.
pub fn default_threads() -> (res: i32)
    ensures
        res == 1,
{
    1
}

impl Default for LyricsConfig {
    fn default() -> (res: Self)
        ensures
            res.kind@ == "none"@,
            !res.translation,
            !res.roma,
    {
        LyricsConfig { kind: default_lyrics_type(), translation: false, roma: false }
    }
}

impl Default for Config {
    fn default() -> (res: Self)
        ensures
            res@ == default_config(),
    {
        Config { threads: default_threads(), lyrics: LyricsConfig::default() }
    }
}

/// The configuration to use once the file has been read: the parsed one
/// brought into range, or the default when there was nothing to read or it
/// did not parse; the flag says whether the default is to be written back.
pub fn loaded_config(parsed: Option<Config>) -> (res: (Config, bool))
    ensures
        match parsed {
            Some(c) => res.0@ == validated(c@) && !res.1,
            None => res.0@ == default_config() && res.1,
        },
{
    match parsed {
        Some(c) => (Config::validate(c), false),
        None => (Config::default(), true),
    }
}

/// The text `true` or `false`, as `{}` formats a `bool`.
pub open spec fn bool_text(b: bool) -> Seq<char> {
    if b { "true"@ } else { "false"@ }
}

/// The commented TOML text that `toml_string` writes for a configuration.
pub open spec fn config_toml(c: ConfigView) -> Seq<char> {
    "# 下载线程数 (1-8)\nthreads = "@ + int_decimal(c.threads) + "\n\n"@
        + "[lyrics]\n"@
        + "# 下载歌词的类型: none=不下载, normal=普通歌词, verbatim=逐字歌词\n"@
        + "type = \""@ + c.kind + "\"\n"@
        + "# 是否下载翻译（仅 type 不为 none 时有效）\n"@
        + "translation = "@ + bool_text(c.translation) + "\n"@
        + "# 是否下载罗马音（仅 type 不为 none 时有效）\n"@
        + "roma = "@ + bool_text(c.roma) + "\n"@
}

fn push_bool(s: &mut String, b: bool)
    ensures
        final(s)@ == old(s)@ + bool_text(b),
{
    if b {
        push_str(s, "true");
    } else {
        push_str(s, "false");
    }
}

impl Config {
    /// Brings a configuration read from disk into the supported ranges.
    pub fn validate(cfg: Self) -> (res: Self)
        ensures
            res@ == validated(cfg@),
    {
        let mut cfg = cfg;
        if cfg.threads < 1 {
            cfg.threads = 1;
        } else if cfg.threads > 8 {
            cfg.threads = 8;
        }
        let known = str_eq(cfg.lyrics.kind.as_str(), "none") || str_eq(cfg.lyrics.kind.as_str(), "normal")
            || str_eq(cfg.lyrics.kind.as_str(), "verbatim");
        if !known {
            cfg.lyrics.kind = default_lyrics_type();
        }
        if str_eq(cfg.lyrics.kind.as_str(), "none") {
            cfg.lyrics.translation = false;
            cfg.lyrics.roma = false;
        }
        cfg
    }

    /// The configuration as commented TOML text.
    pub fn toml_string(&self) -> (res: String)
        ensures
            res@ == config_toml(self@),
    {
        let mut s = String::new();
        push_str(&mut s, "# 下载线程数 (1-8)\nthreads = ");
        let t = i32_to_string(self.threads);
        push_str(&mut s, t.as_str());
        push_str(&mut s, "\n\n");
        push_str(&mut s, "[lyrics]\n");
        push_str(&mut s, "# 下载歌词的类型: none=不下载, normal=普通歌词, verbatim=逐字歌词\n");
        push_str(&mut s, "type = \"");
        push_str(&mut s, self.lyrics.kind.as_str());
        push_str(&mut s, "\"\n");
        push_str(&mut s, "# 是否下载翻译（仅 type 不为 none 时有效）\n");
        push_str(&mut s, "translation = ");
        push_bool(&mut s, self.lyrics.translation);
        push_str(&mut s, "\n");
        push_str(&mut s, "# 是否下载罗马音（仅 type 不为 none 时有效）\n");
        push_str(&mut s, "roma = ");
        push_bool(&mut s, self.lyrics.roma);
        push_str(&mut s, "\n");
        s
    }
}

/// Validation always yields a valid configuration.
pub proof fn lemma_validate_is_valid(c: ConfigView)
    ensures
        valid_config(validated(c)),
{
}

/// Validation leaves a valid configuration unchanged, so it is idempotent.
pub proof fn lemma_validate_fixes_valid(c: ConfigView)
    requires
        valid_config(c),
    ensures
        validated(c) == c,
{
}

/// Validating twice is the same as validating once.
pub proof fn lemma_validate_idempotent(c: ConfigView)
    ensures
        validated(validated(c)) == validated(c),
{
}

/// The default configuration is valid.
pub proof fn lemma_default_is_valid()
    ensures
        valid_config(default_config()),
{
}

} // verus!
