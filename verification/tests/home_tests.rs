use penguin_downloader_tui::app::{announce_provider, handle_home_key, HomeCommand, HomeContext, ProviderAccess};
use penguin_downloader_tui::input::{KeyCode, KeyEvent};
use penguin_downloader_tui::pages::home::{HomeFocus, HomeState, SearchType};

fn key(code: KeyCode) -> KeyEvent {
    KeyEvent { code, ctrl: false, shift: false }
}

fn ctrl(c: char) -> KeyEvent {
    KeyEvent { code: KeyCode::Char(c), ctrl: true, shift: false }
}

fn ready() -> HomeContext {
    HomeContext { provider: ProviderAccess::Ready, any_provider: true, provider_display: "QQ音乐".to_string() }
}

fn typed(text: &str) -> HomeState {
    let mut s = HomeState::new(vec!["qq".to_string()]);
    for c in text.chars() {
        s.insert_char(c);
    }
    s
}

#[test]
fn new_focus_depends_on_providers() {
    assert_eq!(HomeState::new(vec![]).focus, HomeFocus::CleanFiles);
    let s = HomeState::new(vec!["qq".to_string()]);
    assert_eq!(s.focus, HomeFocus::SearchBox);
    assert_eq!(s.search_type, SearchType::Song);
    assert_eq!(s.cursor_pos, 0);
    assert!(s.search_text.is_empty());
}

#[test]
fn provider_names_and_cycling() {
    let mut s = HomeState::new(vec!["qq".to_string(), "kg".to_string(), "kw".to_string()]);
    assert_eq!(s.current_provider_name(), "qq");
    s.cycle_provider();
    s.cycle_provider();
    assert_eq!(s.current_provider_name(), "kw");
    s.cycle_provider();
    assert_eq!(s.current_provider_index, 0);
    let mut e = HomeState::new(vec![]);
    assert_eq!(e.current_provider_name(), "无");
    e.cycle_provider();
    assert_eq!(e.current_provider_index, 0);
    assert!(!e.has_providers());
}

#[test]
fn insert_in_the_middle_counts_characters() {
    let mut s = typed("晴天");
    s.cursor_left(false);
    s.insert_char('x');
    assert_eq!(s.search_text, "晴x天");
    assert_eq!(s.cursor_pos, 2);
}

#[test]
fn backspace_undoes_insert() {
    let mut s = typed("abc");
    s.cursor_left(false);
    s.insert_char('Z');
    s.delete_char();
    assert_eq!(s.search_text, "abc");
    assert_eq!(s.cursor_pos, 2);
}

#[test]
fn backspace_at_start_does_nothing() {
    let mut s = typed("ab");
    s.home_key(false);
    s.delete_char();
    assert_eq!(s.search_text, "ab");
    assert_eq!(s.cursor_pos, 0);
}

#[test]
fn shift_selection_then_typing_replaces_it() {
    let mut s = typed("hello");
    s.cursor_left(true);
    s.cursor_left(true);
    assert_eq!(s.sel_start, Some(5));
    assert_eq!(s.sel_end, Some(3));
    s.insert_char('p');
    assert_eq!(s.search_text, "help");
    assert_eq!(s.cursor_pos, 4);
    assert_eq!(s.sel_start, None);
    assert_eq!(s.sel_end, None);
}

#[test]
fn select_all_then_delete_empties() {
    let mut s = typed("周杰伦");
    s.select_all();
    assert_eq!((s.sel_start, s.sel_end, s.cursor_pos), (Some(0), Some(3), 3));
    s.delete_char();
    assert_eq!(s.search_text, "");
    assert_eq!(s.cursor_pos, 0);
}

#[test]
fn select_all_on_empty_text_changes_nothing() {
    let mut s = typed("");
    s.select_all();
    assert_eq!(s.sel_start, None);
    assert_eq!(s.cursor_pos, 0);
}

#[test]
fn cursor_stays_within_text() {
    let mut s = typed("ab");
    s.cursor_right(false);
    assert_eq!(s.cursor_pos, 2);
    s.home_key(false);
    s.cursor_left(false);
    assert_eq!(s.cursor_pos, 0);
    s.end_key(true);
    assert_eq!((s.sel_start, s.sel_end, s.cursor_pos), (Some(0), Some(2), 2));
    s.home_key(true);
    assert_eq!((s.sel_start, s.sel_end, s.cursor_pos), (Some(0), Some(0), 0));
}

#[test]
fn focus_cycles_through_menu() {
    let mut s = HomeState::new(vec!["qq".to_string()]);
    let order = [HomeFocus::Playlists, HomeFocus::Credential, HomeFocus::CleanFiles, HomeFocus::Settings, HomeFocus::SearchBox];
    for f in order {
        s.focus_next();
        assert_eq!(s.focus, f);
    }
    s.focus_prev();
    assert_eq!(s.focus, HomeFocus::Settings);
    s.focus_next();
    assert_eq!(s.focus, HomeFocus::SearchBox);
}

#[test]
fn focus_without_providers_skips_provider_items() {
    let mut s = HomeState::new(vec![]);
    s.focus_next();
    assert_eq!(s.focus, HomeFocus::Settings);
    s.focus_next();
    assert_eq!(s.focus, HomeFocus::CleanFiles);
    s.focus_prev();
    assert_eq!(s.focus, HomeFocus::Settings);
}

#[test]
fn tab_twice_restores_search_type() {
    let mut s = typed("x");
    assert!(matches!(handle_home_key(&mut s, key(KeyCode::Tab), &ready()), HomeCommand::Nothing));
    assert_eq!(s.search_type, SearchType::Album);
    handle_home_key(&mut s, key(KeyCode::Tab), &ready());
    assert_eq!(s.search_type, SearchType::Song);
}

#[test]
fn enter_searches_trimmed_keyword() {
    let mut s = typed("  晴天 ");
    match handle_home_key(&mut s, key(KeyCode::Enter), &ready()) {
        HomeCommand::Search { keyword, search_type } => {
            assert_eq!(keyword, "晴天");
            assert_eq!(search_type, SearchType::Song);
        },
        _ => panic!("expected a search"),
    }
    assert_eq!(s.search_text, "");
    assert_eq!(s.cursor_pos, 0);
}

#[test]
fn enter_on_blank_text_does_nothing() {
    let mut s = typed("   ");
    assert!(matches!(handle_home_key(&mut s, key(KeyCode::Enter), &ready()), HomeCommand::Nothing));
    assert_eq!(s.search_text, "   ");
}

#[test]
fn enter_needs_login() {
    let mut s = typed("abc");
    let ctx = HomeContext { provider: ProviderAccess::NeedsLogin, any_provider: true, provider_display: "QQ音乐".to_string() };
    assert!(matches!(handle_home_key(&mut s, key(KeyCode::Enter), &ctx), HomeCommand::Nothing));
    assert_eq!(s.message, "QQ音乐需要登录才能搜索，请先到登录管理登录");
    assert_eq!(s.search_text, "");
}

#[test]
fn enter_without_provider() {
    let mut s = typed("abc");
    let ctx = HomeContext { provider: ProviderAccess::NoProvider, any_provider: false, provider_display: String::new() };
    handle_home_key(&mut s, key(KeyCode::Enter), &ctx);
    assert_eq!(s.message, "没有可用的音源");
}

#[test]
fn menu_items_open_pages() {
    let mut s = typed("");
    s.focus = HomeFocus::Playlists;
    assert!(matches!(handle_home_key(&mut s, key(KeyCode::Enter), &ready()), HomeCommand::OpenPlaylists));
    let ctx = HomeContext { provider: ProviderAccess::NeedsLogin, any_provider: true, provider_display: "酷狗".to_string() };
    assert!(matches!(handle_home_key(&mut s, key(KeyCode::Enter), &ctx), HomeCommand::Nothing));
    assert_eq!(s.message, "酷狗需要登录才能下载歌单，请先到登录管理登录");
    s.focus = HomeFocus::Credential;
    assert!(matches!(handle_home_key(&mut s, key(KeyCode::Enter), &ready()), HomeCommand::OpenLogin));
    s.focus = HomeFocus::Settings;
    assert!(matches!(handle_home_key(&mut s, key(KeyCode::Enter), &ready()), HomeCommand::OpenSettings));
}

#[test]
fn clean_confirm_dialog() {
    let mut s = typed("");
    s.focus = HomeFocus::CleanFiles;
    handle_home_key(&mut s, key(KeyCode::Enter), &ready());
    assert!(s.show_clean_confirm);
    assert!(!s.clean_confirm_yes);
    assert!(matches!(handle_home_key(&mut s, key(KeyCode::Esc), &ready()), HomeCommand::Nothing));
    assert!(!s.show_clean_confirm);
    handle_home_key(&mut s, key(KeyCode::Enter), &ready());
    handle_home_key(&mut s, key(KeyCode::Left), &ready());
    assert!(s.clean_confirm_yes);
    assert!(matches!(handle_home_key(&mut s, key(KeyCode::Enter), &ready()), HomeCommand::Cleanup));
    assert!(!s.show_clean_confirm);
    handle_home_key(&mut s, key(KeyCode::Enter), &ready());
    assert!(matches!(handle_home_key(&mut s, key(KeyCode::Char('y')), &ready()), HomeCommand::Cleanup));
}

#[test]
fn control_keys() {
    let mut s = HomeState::new(vec!["qq".to_string(), "kg".to_string()]);
    assert!(matches!(handle_home_key(&mut s, ctrl('p'), &ready()), HomeCommand::CycledProvider));
    assert_eq!(s.current_provider_index, 1);
    for c in "ab".chars() {
        handle_home_key(&mut s, key(KeyCode::Char(c)), &ready());
    }
    handle_home_key(&mut s, ctrl('a'), &ready());
    assert_eq!((s.sel_start, s.sel_end), (Some(0), Some(2)));
    handle_home_key(&mut s, ctrl('x'), &ready());
    assert_eq!(s.search_text, "ab");
    assert!(matches!(handle_home_key(&mut s, key(KeyCode::Esc), &ready()), HomeCommand::Exit));
}

#[test]
fn typing_outside_search_box_is_ignored() {
    let mut s = typed("a");
    s.focus = HomeFocus::Settings;
    handle_home_key(&mut s, key(KeyCode::Char('b')), &ready());
    handle_home_key(&mut s, key(KeyCode::Backspace), &ready());
    assert_eq!(s.search_text, "a");
}

#[test]
fn announce_sets_message() {
    let mut s = typed("a");
    announce_provider(&mut s, "酷我");
    assert_eq!(s.message, "当前音源: 酷我");
}

#[test]
fn cycling_all_providers_returns_to_start() {
    let mut s = HomeState::new(vec!["a".to_string(), "b".to_string(), "c".to_string()]);
    s.cycle_provider();
    let start = s.current_provider_index;
    for _ in 0..3 {
        s.cycle_provider();
        assert!(s.current_provider_index < 3);
    }
    assert_eq!(s.current_provider_index, start);
}
