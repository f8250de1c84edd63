use penguin_downloader_tui::credential::CredentialStore;
use penguin_downloader_tui::input::KeyCode;
use penguin_downloader_tui::pages::login::{
    handle_login_input, poll_bg_login, LoginMethodType, LoginPageState, LoginRequest, LoginState, MethodInfo, ProviderEntry,
    StartKind,
};

fn method(id: &str, t: LoginMethodType) -> MethodInfo {
    MethodInfo { id: id.to_string(), name: id.to_uppercase(), method_type: t }
}

fn providers() -> Vec<ProviderEntry> {
    vec![
        ProviderEntry {
            id: "qq".to_string(),
            name: "QQ音乐".to_string(),
            methods: vec![method("qr", LoginMethodType::QR), method("acc", LoginMethodType::Account), method("code", LoginMethodType::Code)],
        },
        ProviderEntry { id: "free".to_string(), name: "免费".to_string(), methods: vec![method("none", LoginMethodType::NoLogin)] },
    ]
}

#[test]
fn new_shows_methods_without_credential() {
    let store = CredentialStore::new();
    let s = LoginPageState::new(providers(), &store);
    assert!(s.show_methods);
    assert_eq!(s.methods.len(), 3);
    assert_eq!(s.selected_index, 0);
    assert!(matches!(s.login_state, LoginState::Idle));
    let mut store2 = CredentialStore::new();
    store2.set_credential("qq".to_string(), "c".to_string());
    let s2 = LoginPageState::new(providers(), &store2);
    assert!(!s2.show_methods);
}

#[test]
fn moving_between_providers() {
    let mut store = CredentialStore::new();
    let mut s = LoginPageState::new(providers(), &store);
    handle_login_input(&mut s, KeyCode::Tab, &mut store);
    assert_eq!(s.method_index, 1);
    handle_login_input(&mut s, KeyCode::BackTab, &mut store);
    handle_login_input(&mut s, KeyCode::BackTab, &mut store);
    assert_eq!(s.method_index, 2);
    handle_login_input(&mut s, KeyCode::Down, &mut store);
    assert_eq!(s.selected_index, 1);
    assert_eq!(s.method_index, 0);
    assert_eq!(s.methods.len(), 1);
    handle_login_input(&mut s, KeyCode::Down, &mut store);
    assert_eq!(s.selected_index, 1);
    handle_login_input(&mut s, KeyCode::Enter, &mut store);
    assert_eq!(s.message, "此音源无需登录");
    assert!(matches!(handle_login_input(&mut s, KeyCode::Esc, &mut store), Some(LoginRequest::Page(_))));
}

#[test]
fn qr_login_round_trip() {
    let mut store = CredentialStore::new();
    let mut s = LoginPageState::new(providers(), &store);
    match handle_login_input(&mut s, KeyCode::Enter, &mut store) {
        Some(LoginRequest::StartQr { provider_index, method_index }) => assert_eq!((provider_index, method_index), (0, 0)),
        _ => panic!("expected a QR login"),
    }
    s.login_started(StartKind::Qr, "qq".to_string());
    assert!(matches!(s.login_state, LoginState::QrWaiting));
    assert_eq!(s.pending.as_deref(), Some("qq"));
    assert!(!poll_bg_login(&mut s, &mut store, Some("CODE".to_string()), None));
    assert!(matches!(&s.login_state, LoginState::QrDisplay(t) if t == "CODE"));
    assert!(poll_bg_login(&mut s, &mut store, None, Some(Ok("cookie".to_string()))));
    assert!(matches!(s.login_state, LoginState::Success));
    assert_eq!(store.get_credential("qq"), Some("cookie"));
    assert_eq!(s.pending, None);
    assert!(!s.show_methods);
    assert!(!poll_bg_login(&mut s, &mut store, None, Some(Ok("other".to_string()))));
    assert_eq!(store.get_credential("qq"), Some("cookie"));
}

#[test]
fn failed_background_login() {
    let mut store = CredentialStore::new();
    let mut s = LoginPageState::new(providers(), &store);
    s.login_started(StartKind::Qr, "qq".to_string());
    assert!(!poll_bg_login(&mut s, &mut store, None, Some(Err("expired".to_string()))));
    assert!(matches!(&s.login_state, LoginState::Failed(m) if m == "expired"));
    assert_eq!(store.get_credential("qq"), None);
    handle_login_input(&mut s, KeyCode::Enter, &mut store);
    assert!(matches!(s.login_state, LoginState::Idle));
}

#[test]
fn account_dialog() {
    let mut store = CredentialStore::new();
    let mut s = LoginPageState::new(providers(), &store);
    handle_login_input(&mut s, KeyCode::Tab, &mut store);
    handle_login_input(&mut s, KeyCode::Enter, &mut store);
    assert!(matches!(s.login_state, LoginState::AccountInput { .. }));
    for c in "bob".chars() {
        handle_login_input(&mut s, KeyCode::Char(c), &mut store);
    }
    assert!(handle_login_input(&mut s, KeyCode::Enter, &mut store).is_none());
    assert_eq!(s.message, "请输入账号和密码");
    handle_login_input(&mut s, KeyCode::Tab, &mut store);
    for c in "pw1".chars() {
        handle_login_input(&mut s, KeyCode::Char(c), &mut store);
    }
    handle_login_input(&mut s, KeyCode::Backspace, &mut store);
    match handle_login_input(&mut s, KeyCode::Enter, &mut store) {
        Some(LoginRequest::StartAccount { provider_index, method_index, username, password }) => {
            assert_eq!((provider_index, method_index), (0, 1));
            assert_eq!(username, "bob");
            assert_eq!(password, "pw");
        },
        _ => panic!("expected an account login"),
    }
    assert!(matches!(s.login_state, LoginState::LoggingIn));
    s.login_start_failed(StartKind::Account);
    assert!(matches!(&s.login_state, LoginState::Failed(m) if m == "此音源不支持账号密码登录"));
}

#[test]
fn code_dialog() {
    let mut store = CredentialStore::new();
    let mut s = LoginPageState::new(providers(), &store);
    handle_login_input(&mut s, KeyCode::BackTab, &mut store);
    handle_login_input(&mut s, KeyCode::Enter, &mut store);
    for c in "138".chars() {
        handle_login_input(&mut s, KeyCode::Char(c), &mut store);
    }
    assert!(handle_login_input(&mut s, KeyCode::Enter, &mut store).is_none());
    assert!(handle_login_input(&mut s, KeyCode::Enter, &mut store).is_none());
    assert_eq!(s.message, "请填写完整信息");
    handle_login_input(&mut s, KeyCode::Char('9'), &mut store);
    match handle_login_input(&mut s, KeyCode::Enter, &mut store) {
        Some(LoginRequest::StartCode { account, code, .. }) => {
            assert_eq!(account, "138");
            assert_eq!(code, "9");
        },
        _ => panic!("expected a code login"),
    }
}

#[test]
fn clearing_a_credential() {
    let mut store = CredentialStore::new();
    store.set_credential("qq".to_string(), "c".to_string());
    let mut s = LoginPageState::new(providers(), &store);
    handle_login_input(&mut s, KeyCode::Char('x'), &mut store);
    assert!(s.show_logout_confirm);
    handle_login_input(&mut s, KeyCode::Enter, &mut store);
    assert!(!s.show_logout_confirm);
    assert!(store.has_credential("qq"));
    handle_login_input(&mut s, KeyCode::Char('X'), &mut store);
    handle_login_input(&mut s, KeyCode::Right, &mut store);
    handle_login_input(&mut s, KeyCode::Enter, &mut store);
    assert!(!store.has_credential("qq"));
    assert_eq!(s.message, "已清除 qq 的凭证");
}

#[test]
fn auto_show_after_logout() {
    let mut store = CredentialStore::new();
    store.set_credential("qq".to_string(), "c".to_string());
    let mut s = LoginPageState::new(providers(), &store);
    assert!(!s.show_methods);
    store.remove_credential("qq");
    s.auto_show_methods(&store);
    assert!(s.show_methods);
    assert_eq!(s.methods.len(), 3);
}
