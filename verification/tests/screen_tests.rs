use penguin_downloader_tui::credential::CredentialStore;
use penguin_downloader_tui::input::KeyCode;
use penguin_downloader_tui::pages::dialog::{loading_dialog_rect, qr_dialog_rect};
use penguin_downloader_tui::pages::download::{status_icon, ItemStatus, Tone};
use penguin_downloader_tui::pages::home::{CellKind, HomeFocus, HomeState, SearchBox};
use penguin_downloader_tui::pages::listing::{
    album_row, artist_cell, playlist_row, quality_labels, selection_line, song_row, FetchOutcome, ListBody, RowStyle,
};
use penguin_downloader_tui::pages::login::{
    handle_login_input, method_label, DetailLine, LoginMethodType, LoginOverlay, LoginPageState, MethodInfo, ProviderEntry,
};
use penguin_downloader_tui::pages::playlist::{PlaylistBody, PlaylistPageState};
use penguin_downloader_tui::pages::search::SearchPageState;
use penguin_downloader_tui::pages::album_search::AlbumSearchState;
use penguin_downloader_tui::config::{Config, LyricsConfig};
use penguin_downloader_tui::pages::settings::{settings_screen, SettingsFocus, SettingsState};

#[test]
fn home_screen_without_providers() {
    let s = HomeState::new(vec![]);
    let sc = s.screen("QQ");
    assert_eq!(sc.provider_line, "当前音源: 无");
    assert_eq!(sc.plugin_line, "已加载插件: 0");
    assert!(matches!(sc.search, SearchBox::NoProvider));
    assert!(!sc.menu[0].enabled && !sc.menu[1].enabled);
    assert!(sc.menu[2].marked);
    assert_eq!(sc.confirm, None);
}

#[test]
fn home_screen_cells_show_selection_and_cursor() {
    let mut s = HomeState::new(vec!["qq".to_string(), "kg".to_string()]);
    for c in "abcd".chars() {
        s.insert_char(c);
    }
    s.cursor_left(false);
    s.cursor_left(true);
    let sc = s.screen("QQ音乐");
    assert_eq!(sc.provider_line, "当前音源: QQ音乐");
    assert_eq!(sc.plugin_line, "已加载插件: 2");
    assert_eq!(sc.mode, "歌曲");
    match sc.search {
        SearchBox::Editing { cells, end_cursor } => {
            let kinds: Vec<CellKind> = cells.iter().map(|c| c.1).collect();
            assert_eq!(kinds, vec![CellKind::Plain, CellKind::Plain, CellKind::Selected, CellKind::Plain]);
            assert_eq!(cells[2].0, 'c');
            assert!(!end_cursor);
        },
        _ => panic!("expected the editing box"),
    }
    s.end_key(false);
    match s.screen("x").search {
        SearchBox::Editing { cells, end_cursor } => {
            assert!(cells.iter().all(|c| c.1 == CellKind::Plain));
            assert!(end_cursor);
        },
        _ => panic!("expected the editing box"),
    }
    s.cursor_left(false);
    match s.screen("x").search {
        SearchBox::Editing { cells, .. } => assert_eq!(cells[3].1, CellKind::Cursor),
        _ => panic!("expected the editing box"),
    }
    s.focus = HomeFocus::Settings;
    let sc = s.screen("x");
    assert!(matches!(sc.search, SearchBox::Idle));
    assert!(sc.menu[3].marked && !sc.menu[0].marked);
}

#[test]
fn home_screen_placeholder_and_confirm() {
    let mut s = HomeState::new(vec!["qq".to_string()]);
    assert!(matches!(s.screen("").search, SearchBox::Placeholder { cursor: true }));
    s.focus = HomeFocus::CleanFiles;
    s.show_clean_confirm = true;
    let sc = s.screen("");
    assert!(matches!(sc.search, SearchBox::Placeholder { cursor: false }));
    assert_eq!(sc.confirm, Some(false));
}

#[test]
fn list_rows() {
    let r = song_row("晴天", &vec![], None, true, true);
    assert_eq!((r.mark, r.title.as_str(), r.artist.as_str(), r.album.as_str(), r.style), ("[✓]", "晴天", "未知", "未知", RowStyle::Cursor));
    let long: String = std::iter::repeat('a').take(40).collect();
    let r = song_row(&long, &vec!["A".to_string(), "B".to_string()], Some("叶惠美"), false, true);
    assert_eq!(r.title, format!("{}...", "a".repeat(27)));
    assert_eq!(r.artist, "A / B");
    assert_eq!(r.style, RowStyle::Chosen);
    let a = album_row("范特西", &vec!["周杰伦".to_string()], Some(10), None, false, false);
    assert_eq!((a.mark, a.songs.as_str(), a.published.as_str(), a.style), ("[ ]", "10", "-", RowStyle::Plain));
    let a = album_row("x", &vec![], None, Some("2001-09-14"), false, false);
    assert_eq!((a.artist.as_str(), a.songs.as_str(), a.published.as_str()), ("未知", "-", "2001-09-14"));
    let p = playlist_row("我喜欢", 321, false, true);
    assert_eq!((p.mark, p.title.as_str(), p.songs.as_str(), p.style), ("[✓]", "我喜欢", "321", RowStyle::Chosen));
    assert_eq!(artist_cell(&vec![]), "未知");
}

#[test]
fn selection_and_quality_labels() {
    assert_eq!(selection_line(0, "首"), "未选择");
    assert_eq!(selection_line(3, "首"), "已选择 3 首");
    assert_eq!(selection_line(1, "个"), "已选择 1 个");
    let opts = vec![("最低".to_string(), -2), ("HQ".to_string(), 320), ("最高".to_string(), -1)];
    assert_eq!(
        quality_labels(&opts, 1),
        vec![("最低".to_string(), false), ("[HQ]".to_string(), true), ("最高".to_string(), false)]
    );
}

#[test]
fn search_and_album_screens() {
    let mut s: SearchPageState<u32> = SearchPageState::new("QQ".to_string(), &vec![]);
    s.keyword = "晴天".to_string();
    let sc = s.screen();
    assert_eq!(sc.title, "搜索结果: 晴天 [QQ]  (Esc 返回)");
    assert_eq!(sc.body, ListBody::Loading);
    assert_eq!(sc.table_title, "歌曲列表 (第 1 页)");
    assert_eq!(sc.selection, "未选择");
    s.apply_search_result(FetchOutcome::Empty);
    assert_eq!(s.screen().body, ListBody::Message);
    s.apply_search_result(FetchOutcome::Found(vec![1, 2]));
    assert_eq!(s.screen().body, ListBody::Table);
    let mut a: AlbumSearchState<u32> = AlbumSearchState::new("QQ".to_string(), &vec![]);
    a.keyword = "k".to_string();
    a.message = String::new();
    let sc = a.screen();
    assert_eq!(sc.title, "搜索专辑: k [QQ]  (Esc 返回)");
    assert_eq!(sc.notice, None);
    a.message = "未找到专辑".to_string();
    assert_eq!(a.screen().notice, Some("未找到专辑".to_string()));
}

#[test]
fn playlist_screen() {
    let mut p: PlaylistPageState<u32> = PlaylistPageState::new("QQ".to_string(), &vec![]);
    let sc = p.screen();
    assert_eq!(sc.title, "我的歌单 [QQ]");
    assert_eq!(sc.body, PlaylistBody::Loading);
    assert_eq!(sc.notice, Some("加载中...".to_string()));
    p.load_playlists(FetchOutcome::Found((0..45).collect()));
    let sc = p.screen();
    assert_eq!(sc.body, PlaylistBody::Table);
    assert_eq!(sc.table_title, "歌单列表 (第 1/3 页)");
    assert_eq!(sc.notice, None);
    p.page = 4;
    assert_eq!(p.screen().body, PlaylistBody::OutOfList);
    p.page = 0;
    assert_eq!(p.screen().body, PlaylistBody::OutOfList);
}

#[test]
fn settings_screen_items() {
    let c = Config { threads: 4, lyrics: LyricsConfig { kind: "verbatim".to_string(), translation: true, roma: false } };
    let mut s = SettingsState::new(&c, std::path::PathBuf::from("c.toml"));
    assert!(settings_screen(&s, 29, 40).is_none());
    assert!(settings_screen(&s, 80, 9).is_none());
    let sc = settings_screen(&s, 80, 24).unwrap();
    let items: Vec<(&str, &str, bool)> = sc.items.iter().map(|i| (i.label, i.value.as_str(), i.focused)).collect();
    assert_eq!(
        items,
        vec![("下载线程数", "4", true), ("下载歌词", "逐字歌词", false), ("下载翻译", "是", false), ("下载罗马音", "否", false)]
    );
    assert_eq!(sc.notice, None);
    s.focus = SettingsFocus::Save;
    s.message = "保存失败: x".to_string();
    let sc = settings_screen(&s, 30, 10).unwrap();
    let buttons: Vec<(&str, bool)> = sc.buttons.iter().map(|b| (b.label, b.focused)).collect();
    assert_eq!(buttons, vec![("重置所有设置", false), ("保存并关闭", true), ("返回", false)]);
    assert_eq!(sc.notice, Some("保存失败: x".to_string()));
}

fn login_page(store: &CredentialStore) -> LoginPageState {
    let providers = vec![
        ProviderEntry {
            id: "qq".to_string(),
            name: "QQ音乐".to_string(),
            methods: vec![
                MethodInfo { id: "qr".to_string(), name: "扫码".to_string(), method_type: LoginMethodType::QR },
                MethodInfo { id: "acc".to_string(), name: "密码".to_string(), method_type: LoginMethodType::Account },
            ],
        },
        ProviderEntry { id: "kg".to_string(), name: "酷狗".to_string(), methods: vec![] },
    ];
    LoginPageState::new(providers, store)
}

#[test]
fn login_screen_lines() {
    let mut store = CredentialStore::new();
    store.set_credential("kg".to_string(), "c".to_string());
    let s = login_page(&store);
    let sc = s.screen(&store);
    assert_eq!(sc.providers, vec![("✗ qq  QQ音乐".to_string(), true), ("✓ kg  酷狗".to_string(), false)]);
    let d = sc.details.unwrap();
    assert!(matches!(d[0], DetailLine::Heading));
    assert!(matches!(&d[2], DetailLine::Plain(t) if t == "名称: QQ音乐"));
    assert!(matches!(&d[3], DetailLine::Plain(t) if t == "ID: qq"));
    assert!(matches!(d[5], DetailLine::Credential(false)));
    assert!(matches!(&d[7], DetailLine::Plain(t) if t == "选择登录方式:"));
    assert!(matches!(&d[8], DetailLine::Method { text, chosen: true } if text == " > 扫码 (二维码)"));
    assert!(matches!(&d[9], DetailLine::Method { text, chosen: false } if text == "   密码 (账号密码)"));
    assert!(matches!(d[11], DetailLine::Actions { clear: false }));
    assert_eq!(d.len(), 12);
    assert_eq!(sc.overlay, LoginOverlay::Nothing);
    assert_eq!(sc.confirm, None);
}

#[test]
fn login_screen_overlays_and_errors() {
    let mut store = CredentialStore::new();
    let mut s = login_page(&store);
    handle_login_input(&mut s, KeyCode::Tab, &mut store);
    handle_login_input(&mut s, KeyCode::Enter, &mut store);
    assert_eq!(s.screen(&store).overlay, LoginOverlay::Account);
    s.login_start_failed(penguin_downloader_tui::pages::login::StartKind::Account);
    let d = s.screen(&store).details.unwrap();
    assert!(matches!(&d[7], DetailLine::Error(t) if t == "错误: 此音源不支持账号密码登录"));
    s.selected_index = 5;
    assert!(s.screen(&store).details.is_none());
    assert_eq!(method_label(LoginMethodType::NoLogin), "无");
    assert_eq!(method_label(LoginMethodType::URL), "打开网址");
}

#[test]
fn dialog_rects() {
    assert_eq!(loading_dialog_rect(0, 0, 80, 24), Some((24, 9, 32, 5)));
    assert_eq!(loading_dialog_rect(0, 0, 200, 50), Some((80, 22, 40, 5)));
    assert_eq!(loading_dialog_rect(0, 0, 20, 24), None);
    assert_eq!(loading_dialog_rect(0, 0, 2000, 24), None);
    assert_eq!(qr_dialog_rect(0, 0, 120, 40, 25, Some(50)), Some((33, 5, 54, 29)));
    assert_eq!(qr_dialog_rect(0, 0, 120, 40, 2, None), Some((23, 15, 74, 10)));
    assert_eq!(qr_dialog_rect(0, 0, 20, 40, 2, None), None);
    assert_eq!(qr_dialog_rect(0, 0, 120, 8, 2, None), None);
}

#[test]
fn status_icons() {
    assert_eq!(status_icon(&ItemStatus::Downloading, true), ("↓", Tone::Running));
    assert_eq!(status_icon(&ItemStatus::Downloading, false), ("?", Tone::Idle));
    assert_eq!(status_icon(&ItemStatus::Pending, true), (" ", Tone::Idle));
    assert_eq!(status_icon(&ItemStatus::Error("e".to_string()), false), ("✗", Tone::Failed));
    assert_eq!(status_icon(&ItemStatus::Complete, true), ("✓", Tone::Done));
}
