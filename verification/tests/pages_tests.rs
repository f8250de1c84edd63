use penguin_downloader_tui::config::{Config, LyricsConfig};
use penguin_downloader_tui::pages::dialog::confirm_dialog_rect;
use penguin_downloader_tui::pages::settings::lyrics_label;
use penguin_downloader_tui::input::KeyCode;
use penguin_downloader_tui::pages::album_search::{handle_album_search_input, AlbumSearchAction, AlbumSearchState};
use penguin_downloader_tui::pages::listing::{cycle_quality, selected_items, toggle_index, FetchOutcome};
use penguin_downloader_tui::pages::playlist::{handle_playlist_input, PlaylistAction, PlaylistPageState};
use penguin_downloader_tui::pages::search::{handle_search_input, SearchAction, SearchPageState};
use penguin_downloader_tui::pages::settings::{handle_settings_input, SettingsAction, SettingsFocus, SettingsRequest, SettingsState};

fn levels() -> Vec<(i32, String)> {
    vec![(320, "HQ".to_string()), (128, "标准".to_string())]
}

#[test]
fn toggle_twice_restores_selection() {
    let mut sel = vec![3usize, 1];
    toggle_index(&mut sel, 5);
    assert_eq!(sel, vec![3, 1, 5]);
    toggle_index(&mut sel, 5);
    assert_eq!(sel, vec![3, 1]);
    toggle_index(&mut sel, 3);
    assert_eq!(sel, vec![1]);
}

#[test]
fn selected_items_skip_out_of_range() {
    let items = vec!["a", "b", "c"];
    assert_eq!(selected_items(&items, &vec![2, 7, 0]), vec!["c", "a"]);
    assert!(selected_items(&items, &vec![]).is_empty());
}

#[test]
fn quality_cycles_round() {
    assert_eq!(cycle_quality(0, 4), 1);
    assert_eq!(cycle_quality(3, 4), 0);
    assert_eq!(cycle_quality(9, 4), 2);
}

#[test]
fn search_page_starts_loading_on_highest() {
    let s: SearchPageState<u32> = SearchPageState::new("QQ".to_string(), &levels());
    assert!(s.loading);
    assert_eq!(s.page, 1);
    assert_eq!(s.message, "搜索中...");
    assert_eq!(s.quality_options.len(), 4);
    assert_eq!(s.quality_index, 3);
    assert_eq!(s.quality_options[1], ("标准".to_string(), 128));
}

fn search_with(songs: Vec<u32>) -> SearchPageState<u32> {
    let mut s = SearchPageState::new("QQ".to_string(), &levels());
    s.apply_search_result(FetchOutcome::Found(songs));
    s
}

#[test]
fn search_results_and_errors() {
    let s = search_with(vec![10, 20]);
    assert!(!s.loading);
    assert_eq!(s.songs, vec![10, 20]);
    let mut e: SearchPageState<u32> = SearchPageState::new("QQ".to_string(), &levels());
    e.apply_search_result(FetchOutcome::Empty);
    assert_eq!(e.message, "未找到结果");
    e.apply_search_result(FetchOutcome::Failed("timeout".to_string()));
    assert_eq!(e.message, "搜索失败: timeout");
    assert!(!e.loading);
}

#[test]
fn search_select_and_download() {
    let mut s = search_with(vec![10, 20, 30]);
    assert!(handle_search_input(&mut s, KeyCode::Enter).is_none());
    assert_eq!(s.message, "请先按空格选择歌曲");
    handle_search_input(&mut s, KeyCode::Down);
    handle_search_input(&mut s, KeyCode::Down);
    handle_search_input(&mut s, KeyCode::Down);
    assert_eq!(s.selected_index, 2);
    handle_search_input(&mut s, KeyCode::Char(' '));
    handle_search_input(&mut s, KeyCode::Up);
    handle_search_input(&mut s, KeyCode::Up);
    handle_search_input(&mut s, KeyCode::Up);
    assert_eq!(s.selected_index, 0);
    handle_search_input(&mut s, KeyCode::Char(' '));
    match handle_search_input(&mut s, KeyCode::Enter) {
        Some(SearchAction::Download(songs)) => assert_eq!(songs, vec![30, 10]),
        _ => panic!("expected a download"),
    }
    assert_eq!(s.get_selected_songs(), vec![30, 10]);
}

#[test]
fn search_paging_requests() {
    let mut s = search_with(vec![1]);
    assert!(handle_search_input(&mut s, KeyCode::Char('n')).is_none());
    handle_search_input(&mut s, KeyCode::Char(' '));
    match handle_search_input(&mut s, KeyCode::Char('m')) {
        Some(SearchAction::FetchPage { page, forward }) => {
            assert_eq!(page, 2);
            assert!(forward);
        },
        _ => panic!("expected a page fetch"),
    }
    assert_eq!(s.page, 2);
    assert!(s.loading);
    assert!(s.selected_songs.is_empty());
    s.finish_page_fetch(FetchOutcome::Empty, true);
    assert_eq!(s.page, 1);
    assert_eq!(s.message, "没有更多结果");
    assert!(!s.loading);
    handle_search_input(&mut s, KeyCode::Char('M'));
    s.finish_page_fetch(FetchOutcome::Found(vec![7, 8]), true);
    assert_eq!(s.page, 2);
    assert_eq!(s.songs, vec![7, 8]);
    handle_search_input(&mut s, KeyCode::Char('N'));
    s.finish_page_fetch(FetchOutcome::Failed("x".to_string()), false);
    assert_eq!(s.page, 2);
    assert_eq!(s.message, "加载失败: x");
}

#[test]
fn search_quality_and_back() {
    let mut s = search_with(vec![1]);
    handle_search_input(&mut s, KeyCode::Char('k'));
    assert_eq!(s.quality_index, 0);
    assert!(matches!(handle_search_input(&mut s, KeyCode::Esc), Some(SearchAction::Back)));
}

#[test]
fn album_page_flow() {
    let mut a: AlbumSearchState<&str> = AlbumSearchState::new("QQ".to_string(), &levels());
    assert_eq!(a.message, "搜索中...");
    a.apply_search_result(FetchOutcome::Found(vec!["x", "y"]));
    assert!(!a.loading);
    assert!(handle_album_search_input(&mut a, KeyCode::Enter).is_none());
    assert_eq!(a.message, "请先按空格选择专辑");
    handle_album_search_input(&mut a, KeyCode::Down);
    handle_album_search_input(&mut a, KeyCode::Char(' '));
    handle_album_search_input(&mut a, KeyCode::Char('K'));
    match handle_album_search_input(&mut a, KeyCode::Enter) {
        Some(AlbumSearchAction::Download(albums, cfg)) => {
            assert_eq!(albums, vec!["y"]);
            assert_eq!(cfg.quality, -2);
        },
        _ => panic!("expected a download"),
    }
    let mut e: AlbumSearchState<&str> = AlbumSearchState::new("QQ".to_string(), &levels());
    e.apply_search_result(FetchOutcome::Empty);
    assert_eq!(e.message, "未找到专辑");
    e.apply_search_result(FetchOutcome::Failed("bad".to_string()));
    assert_eq!(e.message, "搜索失败: bad");
}

fn playlists(n: u32) -> PlaylistPageState<u32> {
    let mut p = PlaylistPageState::new("QQ".to_string(), &levels());
    p.load_playlists(FetchOutcome::Found((0..n).collect()));
    p
}

#[test]
fn playlist_pages() {
    let p = playlists(45);
    assert_eq!(p.items_per_page, 20);
    assert_eq!(p.get_total_pages(), 3);
    assert_eq!(p.get_page_start_index(), 0);
    assert_eq!(p.get_page_items().len(), 20);
    assert_eq!(playlists(0).get_total_pages(), 0);
    assert_eq!(playlists(20).get_total_pages(), 1);
    assert_eq!(playlists(21).get_total_pages(), 2);
}

#[test]
fn playlist_paging_keys() {
    let mut p = playlists(45);
    handle_playlist_input(&mut p, KeyCode::Char('m'));
    handle_playlist_input(&mut p, KeyCode::Char('m'));
    assert_eq!(p.page, 3);
    assert_eq!(p.get_page_start_index(), 40);
    let items: Vec<u32> = p.get_page_items().into_iter().copied().collect();
    assert_eq!(items, vec![40, 41, 42, 43, 44]);
    handle_playlist_input(&mut p, KeyCode::Char('m'));
    assert_eq!(p.page, 3);
    for _ in 0..10 {
        handle_playlist_input(&mut p, KeyCode::Down);
    }
    assert_eq!(p.current_index, 4);
    handle_playlist_input(&mut p, KeyCode::Char('n'));
    assert_eq!(p.page, 2);
    assert_eq!(p.current_index, 0);
}

#[test]
fn playlist_download() {
    let mut p = playlists(30);
    assert!(handle_playlist_input(&mut p, KeyCode::Enter).is_none());
    assert_eq!(p.message, "请先按空格选择歌单");
    handle_playlist_input(&mut p, KeyCode::Char('m'));
    handle_playlist_input(&mut p, KeyCode::Down);
    handle_playlist_input(&mut p, KeyCode::Char(' '));
    match handle_playlist_input(&mut p, KeyCode::Enter) {
        Some(PlaylistAction::Download(lists, cfg)) => {
            assert_eq!(lists, vec![21]);
            assert_eq!(cfg.quality, -1);
        },
        _ => panic!("expected a download"),
    }
    assert!(matches!(handle_playlist_input(&mut p, KeyCode::Esc), Some(PlaylistAction::Back)));
}

#[test]
fn playlist_load_errors() {
    let mut p: PlaylistPageState<u32> = PlaylistPageState::new("QQ".to_string(), &levels());
    assert_eq!(p.message, "加载中...");
    p.load_playlists(FetchOutcome::Empty);
    assert_eq!(p.message, "没有找到歌单");
    p.load_playlists(FetchOutcome::Failed("403".to_string()));
    assert_eq!(p.message, "加载失败: 403");
    assert!(!p.loading);
}

fn settings() -> SettingsState {
    let c = Config { threads: 3, lyrics: LyricsConfig { kind: "normal".to_string(), translation: true, roma: false } };
    SettingsState::new(&c, std::path::PathBuf::from("config.toml"))
}

#[test]
fn settings_round_trip() {
    let s = settings();
    let c = s.to_config();
    assert_eq!(c.threads, 3);
    assert_eq!(c.lyrics.kind, "normal");
    assert!(c.lyrics.translation);
    assert!(!c.lyrics.roma);
    assert_eq!(s.focus, SettingsFocus::Threads);
}

#[test]
fn settings_threads_stay_in_range() {
    let mut s = settings();
    for _ in 0..10 {
        handle_settings_input(&mut s, KeyCode::Right);
    }
    assert_eq!(s.threads, 8);
    for _ in 0..10 {
        handle_settings_input(&mut s, KeyCode::Left);
    }
    assert_eq!(s.threads, 1);
}

#[test]
fn settings_lyrics_type_steps() {
    let mut s = settings();
    handle_settings_input(&mut s, KeyCode::Down);
    assert_eq!(s.focus, SettingsFocus::LyricsType);
    handle_settings_input(&mut s, KeyCode::Right);
    assert_eq!(s.lyrics_type, "verbatim");
    handle_settings_input(&mut s, KeyCode::Right);
    assert_eq!(s.lyrics_type, "verbatim");
    handle_settings_input(&mut s, KeyCode::Left);
    handle_settings_input(&mut s, KeyCode::Left);
    assert_eq!(s.lyrics_type, "none");
    assert!(!s.translation);
    assert!(!s.roma);
}

#[test]
fn settings_focus_wraps_and_reset() {
    let mut s = settings();
    handle_settings_input(&mut s, KeyCode::Up);
    assert_eq!(s.focus, SettingsFocus::Back);
    handle_settings_input(&mut s, KeyCode::Up);
    handle_settings_input(&mut s, KeyCode::Up);
    assert_eq!(s.focus, SettingsFocus::Reset);
    assert!(handle_settings_input(&mut s, KeyCode::Enter).is_none());
    assert_eq!(s.message, "已重置为默认设置");
    assert_eq!(s.threads, 1);
    assert_eq!(s.lyrics_type, "none");
    handle_settings_input(&mut s, KeyCode::Down);
    match handle_settings_input(&mut s, KeyCode::Enter) {
        Some(SettingsRequest::Save(c)) => assert_eq!(c.threads, 1),
        _ => panic!("expected a save"),
    }
    assert!(matches!(handle_settings_input(&mut s, KeyCode::Esc), Some(SettingsRequest::Back)));
}

#[test]
fn settings_save_outcome() {
    let mut s = settings();
    assert_eq!(s.finish_save(Ok(())), Some(SettingsAction::Saved));
    assert_eq!(s.finish_save(Err("disk full".to_string())), None);
    assert_eq!(s.message, "保存失败: disk full");
    s.reset();
    assert_eq!(s.threads, 1);
    assert_eq!(s.config_path, std::path::PathBuf::from("config.toml"));
}

#[test]
fn playlist_keys_keep_page_in_bounds() {
    let mut p = playlists(45);
    let keys = [KeyCode::Char('m'), KeyCode::Char('m'), KeyCode::Char('m'), KeyCode::Down, KeyCode::Down, KeyCode::Char('n'),
        KeyCode::Char('n'), KeyCode::Char('n'), KeyCode::Up, KeyCode::Char('k'), KeyCode::Char('M')];
    for k in keys {
        let before = p.page;
        handle_playlist_input(&mut p, k);
        assert!(p.page >= 1 && p.page <= 3);
        assert!(p.page == before || p.page == before - 1 || p.page == before + 1);
        if p.page != before {
            assert_eq!(p.current_index, 0);
        }
        assert!(p.current_index < p.get_page_items().len().max(1));
        assert!(p.quality_index < p.quality_options.len());
    }
}

#[test]
fn lyrics_labels() {
    assert_eq!(lyrics_label("none"), "不下载");
    assert_eq!(lyrics_label("normal"), "普通歌词");
    assert_eq!(lyrics_label("verbatim"), "逐字歌词");
    assert_eq!(lyrics_label("karaoke"), "不下载");
}

#[test]
fn confirm_dialog_is_centred() {
    assert_eq!(confirm_dialog_rect(0, 0, 80, 24), (20, 8, 40, 7));
    assert_eq!(confirm_dialog_rect(0, 0, 120, 30), (37, 11, 46, 7));
    assert_eq!(confirm_dialog_rect(2, 1, 70, 20), (19, 7, 35, 7));
    assert_eq!(confirm_dialog_rect(0, 0, 40, 7), (5, 0, 30, 7));
}
