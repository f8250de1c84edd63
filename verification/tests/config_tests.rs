use penguin_downloader_tui::app::{lyric_options, LyricKind};
use penguin_downloader_tui::config::{default_lyrics_type, default_threads, Config, LyricsConfig};

fn cfg(threads: i32, kind: &str, translation: bool, roma: bool) -> Config {
    Config { threads, lyrics: LyricsConfig { kind: kind.to_string(), translation, roma } }
}

#[test]
fn default_config_is_one_thread_without_lyrics() {
    let c = Config::default();
    assert_eq!(c.threads, 1);
    assert_eq!(c.lyrics.kind, "none");
    assert!(!c.lyrics.translation);
    assert!(!c.lyrics.roma);
    assert_eq!(default_threads(), 1);
    assert_eq!(default_lyrics_type(), "none");
}

#[test]
fn validate_clamps_threads() {
    assert_eq!(Config::validate(cfg(0, "none", false, false)).threads, 1);
    assert_eq!(Config::validate(cfg(-7, "none", false, false)).threads, 1);
    assert_eq!(Config::validate(cfg(9, "none", false, false)).threads, 8);
    assert_eq!(Config::validate(cfg(i32::MAX, "none", false, false)).threads, 8);
    assert_eq!(Config::validate(cfg(5, "none", false, false)).threads, 5);
}

#[test]
fn validate_replaces_unknown_lyrics_kind() {
    let c = Config::validate(cfg(2, "karaoke", true, true));
    assert_eq!(c.lyrics.kind, "none");
    assert!(!c.lyrics.translation);
    assert!(!c.lyrics.roma);
}

#[test]
fn validate_keeps_extras_with_lyrics() {
    let c = Config::validate(cfg(3, "verbatim", true, false));
    assert_eq!(c.threads, 3);
    assert_eq!(c.lyrics.kind, "verbatim");
    assert!(c.lyrics.translation);
    assert!(!c.lyrics.roma);
}

#[test]
fn validate_drops_extras_without_lyrics() {
    let c = Config::validate(cfg(3, "none", true, true));
    assert!(!c.lyrics.translation);
    assert!(!c.lyrics.roma);
}

#[test]
fn validate_is_idempotent_on_examples() {
    for c in [cfg(0, "x", true, true), cfg(12, "normal", true, true), cfg(4, "none", false, true)] {
        let once = Config::validate(c);
        let twice = Config::validate(Config { threads: once.threads, lyrics: LyricsConfig { kind: once.lyrics.kind.clone(), ..once.lyrics } });
        assert_eq!(once.threads, twice.threads);
        assert_eq!(once.lyrics.kind, twice.lyrics.kind);
        assert_eq!(once.lyrics.translation, twice.lyrics.translation);
        assert_eq!(once.lyrics.roma, twice.lyrics.roma);
    }
}

#[test]
fn toml_string_exact_text() {
    let c = cfg(4, "normal", true, false);
    let expected = "# 下载线程数 (1-8)\nthreads = 4\n\n[lyrics]\n# 下载歌词的类型: none=不下载, normal=普通歌词, verbatim=逐字歌词\ntype = \"normal\"\n# 是否下载翻译（仅 type 不为 none 时有效）\ntranslation = true\n# 是否下载罗马音（仅 type 不为 none 时有效）\nroma = false\n";
    assert_eq!(c.toml_string(), expected);
}

#[test]
fn toml_string_negative_threads() {
    let c = cfg(-12, "none", false, true);
    assert!(c.toml_string().starts_with("# 下载线程数 (1-8)\nthreads = -12\n\n"));
    assert!(c.toml_string().ends_with("roma = true\n"));
}

#[test]
fn lyric_options_follow_config() {
    let o = lyric_options(&cfg(1, "normal", true, false));
    assert_eq!(o.kind, LyricKind::Normal);
    assert_eq!(o.extras, Some((true, false)));
    let o = lyric_options(&cfg(1, "verbatim", false, true));
    assert_eq!(o.kind, LyricKind::Verbatim);
    assert_eq!(o.extras, Some((false, true)));
    let o = lyric_options(&cfg(1, "none", true, true));
    assert_eq!(o.kind, LyricKind::NoLyrics);
    assert_eq!(o.extras, None);
    let o = lyric_options(&cfg(1, "other", true, true));
    assert_eq!(o.kind, LyricKind::NoLyrics);
    assert_eq!(o.extras, Some((true, true)));
}

#[test]
fn loaded_config_validates_or_falls_back() {
    let (c, write_back) = penguin_downloader_tui::config::loaded_config(Some(cfg(20, "normal", true, true)));
    assert_eq!(c.threads, 8);
    assert_eq!(c.lyrics.kind, "normal");
    assert!(!write_back);
    let (d, write_back) = penguin_downloader_tui::config::loaded_config(None);
    assert_eq!(d.threads, 1);
    assert_eq!(d.lyrics.kind, "none");
    assert!(write_back);
}
