//! The login page: choosing a provider and a login method, the account and
//! code dialogs, clearing a credential, and the outcome of a background login.
use vstd::prelude::*;
use crate::credential::CredentialStore;
use crate::input::KeyCode;
use crate::text::{push_char, push_str, to_owned_string};

verus! {

/// The kinds of login that a provider can offer.
#[derive(Clone, Copy, PartialEq, Eq, Structural, Debug)]
pub enum LoginMethodType {
    QR,
    URL,
    Account,
    Code,
    NoLogin,
}

/// One login method of a provider.
pub struct MethodInfo {
    pub id: String,
    pub name: String,
    pub method_type: LoginMethodType,
}

/// A provider as the login page sees it: its id, display name and login methods.
pub struct ProviderEntry {
    pub id: String,
    pub name: String,
    pub methods: Vec<MethodInfo>,
}

/// What the login page asks of the application.
#[derive(PartialEq, Eq, Structural, Debug)]
pub enum LoginPageAction {
    Back,
}

#[derive(Clone, Copy, PartialEq, Eq, Structural, Debug)]
pub enum AccountField {
    Username,
    Password,
}

#[derive(Clone, Copy, PartialEq, Eq, Structural, Debug)]
pub enum CodeField {
    Account,
    Code,
}

#[allow(inconsistent_fields)]
pub enum LoginState {
    Idle,
    QrWaiting,
    QrDisplay(String),
    AccountInput { username: String, password: String, focus: AccountField },
    CodeInput { account: String, code: String, focus: CodeField },
    LoggingIn,
    Success,
    Failed(String),
}

/// A login state as plain values.
#[allow(inconsistent_fields)]
pub enum LoginStateView {
    Idle,
    QrWaiting,
    QrDisplay(Seq<char>),
    AccountInput { username: Seq<char>, password: Seq<char>, focus: AccountField },
    CodeInput { account: Seq<char>, code: Seq<char>, focus: CodeField },
    LoggingIn,
    Success,
    Failed(Seq<char>),
}

impl LoginState {
    pub open spec fn view(&self) -> LoginStateView {
        match self {
            LoginState::Idle => LoginStateView::Idle,
            LoginState::QrWaiting => LoginStateView::QrWaiting,
            LoginState::QrDisplay(t) => LoginStateView::QrDisplay(t@),
            LoginState::AccountInput { username, password, focus } => LoginStateView::AccountInput {
                username: username@,
                password: password@,
                focus: *focus,
            },
            LoginState::CodeInput { account, code, focus } => LoginStateView::CodeInput {
                account: account@,
                code: code@,
                focus: *focus,
            },
            LoginState::LoggingIn => LoginStateView::LoggingIn,
            LoginState::Success => LoginStateView::Success,
            LoginState::Failed(m) => LoginStateView::Failed(m@),
        }
    }
}

/// A login method as plain values.
pub struct MethodView {
    pub id: Seq<char>,
    pub name: Seq<char>,
    pub method_type: LoginMethodType,
}

pub open spec fn method_view(m: MethodInfo) -> MethodView {
    MethodView { id: m.id@, name: m.name@, method_type: m.method_type }
}

pub open spec fn methods_view(ms: Seq<MethodInfo>) -> Seq<MethodView> {
    ms.map_values(|m: MethodInfo| method_view(m))
}

/// A background login that the application is to start.
pub enum LoginRequest {
    /// Leave the page.
    Page(LoginPageAction),
    /// A QR login (also used for URL logins) with the given method.
    StartQr { provider_index: usize, method_index: usize },
    StartAccount { provider_index: usize, method_index: usize, username: String, password: String },
    StartCode { provider_index: usize, method_index: usize, account: String, code: String },
}

/// A request as plain values.
pub enum LoginRequestView {
    Back,
    StartQr { provider_index: usize, method_index: usize },
    StartAccount { provider_index: usize, method_index: usize, username: Seq<char>, password: Seq<char> },
    StartCode { provider_index: usize, method_index: usize, account: Seq<char>, code: Seq<char> },
}

impl LoginRequest {
    pub open spec fn view(&self) -> LoginRequestView {
        match self {
            LoginRequest::Page(_) => LoginRequestView::Back,
            LoginRequest::StartQr { provider_index, method_index } => LoginRequestView::StartQr {
                provider_index: *provider_index,
                method_index: *method_index,
            },
            LoginRequest::StartAccount { provider_index, method_index, username, password } =>
                LoginRequestView::StartAccount {
                provider_index: *provider_index,
                method_index: *method_index,
                username: username@,
                password: password@,
            },
            LoginRequest::StartCode { provider_index, method_index, account, code } => LoginRequestView::StartCode {
                provider_index: *provider_index,
                method_index: *method_index,
                account: account@,
                code: code@,
            },
        }
    }
}

/// Which kind of background login was started.
#[derive(Clone, Copy, PartialEq, Eq, Structural, Debug)]
pub enum StartKind {
    Qr,
    Account,
    Code,
}

pub struct LoginPageState {
    pub providers: Vec<ProviderEntry>,
    pub selected_index: usize,
    pub show_methods: bool,
    pub method_index: usize,
    pub methods: Vec<MethodInfo>,
    pub login_state: LoginState,
    pub message: String,
    /// The provider id of the login running in the background, if any.
    pub pending: Option<String>,
    pub show_logout_confirm: bool,
    pub logout_confirm_yes: bool,
}

/// The login page as plain values, without its providers.
pub struct LoginView {
    pub selected_index: usize,
    pub show_methods: bool,
    pub method_index: usize,
    pub methods: Seq<MethodView>,
    pub login_state: LoginStateView,
    pub message: Seq<char>,
    pub pending: Option<Seq<char>>,
    pub show_logout_confirm: bool,
    pub logout_confirm_yes: bool,
}

/// Copies a list of login methods.
pub fn copy_methods(ms: &Vec<MethodInfo>) -> (res: Vec<MethodInfo>)
    ensures
        methods_view(res@) == methods_view(ms@),
{
    let mut res: Vec<MethodInfo> = Vec::new();
    let mut i: usize = 0;
    while i < ms.len()
        invariant
            i <= ms@.len(),
            res@.len() == i,
            forall|k: int| 0 <= k < i ==> method_view(#[trigger] res@[k]) == method_view(ms@[k]),
        decreases ms.len() - i,
    {
        let m = MethodInfo {
            id: to_owned_string(ms[i].id.as_str()),
            name: to_owned_string(ms[i].name.as_str()),
            method_type: ms[i].method_type,
        };
        res.push(m);
        i += 1;
    }
    assert(methods_view(res@) =~= methods_view(ms@));
    res
}

/// Drops the last character, as `String::pop` does.
fn pop_char(s: &String) -> (res: String)
    ensures
        res@ == (if s@.len() > 0 { s@.drop_last() } else { s@ }),
{
    let cs = crate::text::chars_of(s.as_str());
    if cs.len() > 0 {
        crate::text::string_from_range(&cs, 0, cs.len() - 1)
    } else {
        crate::text::string_from_chars(&cs)
    }
}

fn with_char(s: &String, c: char) -> (res: String)
    ensures
        res@ == s@.push(c),
{
    let mut r = to_owned_string(s.as_str());
    push_char(&mut r, c);
    r
}

/// The state of the page after a provider is selected: its methods are shown
/// when it has no credential.
pub open spec fn spec_show_provider(v: LoginView, providers: Seq<ProviderEntry>, store: Map<Seq<char>, Seq<char>>) -> LoginView {
    if v.selected_index < providers.len() {
        let p = providers[v.selected_index as int];
        if !store.contains_key(p.id@) {
            LoginView { show_methods: true, methods: methods_view(p.methods@), ..v }
        } else {
            LoginView { show_methods: false, ..v }
        }
    } else {
        v
    }
}

/// Typing in the account dialog.
pub open spec fn spec_account_key(v: LoginView, u: Seq<char>, p: Seq<char>, f: AccountField, key: KeyCode) -> (LoginView, Option<LoginRequestView>) {
    match key {
        KeyCode::Tab => (LoginView { login_state: LoginStateView::AccountInput { username: u, password: p, focus: if f == AccountField::Username { AccountField::Password } else { AccountField::Username } }, ..v }, None),
        KeyCode::Enter => if u.len() == 0 || p.len() == 0 {
            (LoginView { message: "请输入账号和密码"@, ..v }, None)
        } else {
            (LoginView { login_state: LoginStateView::LoggingIn, ..v }, Some(LoginRequestView::StartAccount { provider_index: v.selected_index, method_index: v.method_index, username: u, password: p }))
        },
        KeyCode::Esc => (LoginView { login_state: LoginStateView::Idle, ..v }, None),
        KeyCode::Char(c) => (LoginView { login_state: if f == AccountField::Username {
            LoginStateView::AccountInput { username: u.push(c), password: p, focus: f }
        } else {
            LoginStateView::AccountInput { username: u, password: p.push(c), focus: f }
        }, ..v }, None),
        KeyCode::Backspace => (LoginView { login_state: if f == AccountField::Username {
            LoginStateView::AccountInput { username: if u.len() > 0 { u.drop_last() } else { u }, password: p, focus: f }
        } else {
            LoginStateView::AccountInput { username: u, password: if p.len() > 0 { p.drop_last() } else { p }, focus: f }
        }, ..v }, None),
        _ => (v, None),
    }
}

/// Typing in the verification-code dialog.
pub open spec fn spec_code_key(v: LoginView, a: Seq<char>, c: Seq<char>, f: CodeField, key: KeyCode) -> (LoginView, Option<LoginRequestView>) {
    match key {
        KeyCode::Tab => (LoginView { login_state: LoginStateView::CodeInput { account: a, code: c, focus: if f == CodeField::Account { CodeField::Code } else { CodeField::Account } }, ..v }, None),
        KeyCode::Enter => if f == CodeField::Account {
            (LoginView { login_state: LoginStateView::CodeInput { account: a, code: c, focus: CodeField::Code }, ..v }, None)
        } else if a.len() == 0 || c.len() == 0 {
            (LoginView { message: "请填写完整信息"@, ..v }, None)
        } else {
            (LoginView { login_state: LoginStateView::LoggingIn, ..v }, Some(LoginRequestView::StartCode { provider_index: v.selected_index, method_index: v.method_index, account: a, code: c }))
        },
        KeyCode::Esc => (LoginView { login_state: LoginStateView::Idle, ..v }, None),
        KeyCode::Char(ch) => (LoginView { login_state: if f == CodeField::Account {
            LoginStateView::CodeInput { account: a.push(ch), code: c, focus: f }
        } else {
            LoginStateView::CodeInput { account: a, code: c.push(ch), focus: f }
        }, ..v }, None),
        KeyCode::Backspace => (LoginView { login_state: if f == CodeField::Account {
            LoginStateView::CodeInput { account: if a.len() > 0 { a.drop_last() } else { a }, code: c, focus: f }
        } else {
            LoginStateView::CodeInput { account: a, code: if c.len() > 0 { c.drop_last() } else { c }, focus: f }
        }, ..v }, None),
        _ => (v, None),
    }
}

/// Enter on a login method: which dialog opens or which login starts.
pub open spec fn spec_choose_method(v: LoginView, providers: Seq<ProviderEntry>) -> (LoginView, Option<LoginRequestView>) {
    if v.selected_index < providers.len() && v.method_index < providers[v.selected_index as int].methods@.len() {
        let m = providers[v.selected_index as int].methods@[v.method_index as int];
        match m.method_type {
            LoginMethodType::QR => (v, Some(LoginRequestView::StartQr { provider_index: v.selected_index, method_index: v.method_index })),
            LoginMethodType::Account => (LoginView { login_state: LoginStateView::AccountInput { username: Seq::empty(), password: Seq::empty(), focus: AccountField::Username }, ..v }, None),
            LoginMethodType::Code => (LoginView { login_state: LoginStateView::CodeInput { account: Seq::empty(), code: Seq::empty(), focus: CodeField::Account }, ..v }, None),
            LoginMethodType::URL => (LoginView { login_state: LoginStateView::LoggingIn, ..v }, Some(LoginRequestView::StartQr { provider_index: v.selected_index, method_index: v.method_index })),
            LoginMethodType::NoLogin => (LoginView { message: "此音源无需登录"@, ..v }, None),
        }
    } else {
        (v, None)
    }
}

/// The effect of a key on the login page and on the credential store, and the
/// request it makes.
pub open spec fn spec_login_key(
    v: LoginView,
    providers: Seq<ProviderEntry>,
    store: Map<Seq<char>, Seq<char>>,
    key: KeyCode,
) -> (LoginView, Map<Seq<char>, Seq<char>>, Option<LoginRequestView>) {
    if v.show_logout_confirm {
        match key {
            KeyCode::Left | KeyCode::Right => (LoginView { logout_confirm_yes: !v.logout_confirm_yes, ..v }, store, None),
            KeyCode::Enter => if v.logout_confirm_yes {
                let id = providers[v.selected_index as int].id@;
                (LoginView { show_logout_confirm: false, message: "已清除 "@ + id + " 的凭证"@, ..v }, store.remove(id), None)
            } else {
                (LoginView { show_logout_confirm: false, ..v }, store, None)
            },
            KeyCode::Esc | KeyCode::Char('n') | KeyCode::Char('N') => (LoginView { show_logout_confirm: false, ..v }, store, None),
            _ => (v, store, None),
        }
    } else {
        match v.login_state {
            LoginStateView::QrDisplay(_) | LoginStateView::QrWaiting => if key == KeyCode::Esc {
                (LoginView { pending: None, login_state: LoginStateView::Idle, ..v }, store, None)
            } else {
                (v, store, None)
            },
            LoginStateView::LoggingIn => (v, store, None),
            LoginStateView::Success | LoginStateView::Failed(_) => if key == KeyCode::Esc || key == KeyCode::Enter {
                (LoginView { login_state: LoginStateView::Idle, ..v }, store, None)
            } else {
                (v, store, None)
            },
            LoginStateView::AccountInput { username, password, focus } => {
                let r = spec_account_key(v, username, password, focus, key);
                (r.0, store, r.1)
            },
            LoginStateView::CodeInput { account, code, focus } => {
                let r = spec_code_key(v, account, code, focus, key);
                (r.0, store, r.1)
            },
            LoginStateView::Idle => if key == KeyCode::Up || key == KeyCode::Down {
                let sel = if key == KeyCode::Up {
                    if v.selected_index > 0 { (v.selected_index - 1) as usize } else { 0usize }
                } else if v.selected_index + 1 < providers.len() {
                    (v.selected_index + 1) as usize
                } else {
                    v.selected_index
                };
                (spec_show_provider(LoginView { selected_index: sel, method_index: 0, ..v }, providers, store), store, None)
            } else if key == KeyCode::Esc {
                (LoginView { pending: None, ..v }, store, Some(LoginRequestView::Back))
            } else if v.show_methods && (key == KeyCode::Tab || key == KeyCode::BackTab) {
                let mi = if key == KeyCode::Tab {
                    if v.method_index + 1 < v.methods.len() { (v.method_index + 1) as usize } else { 0usize }
                } else if v.method_index > 0 {
                    (v.method_index - 1) as usize
                } else if v.methods.len() > 0 {
                    (v.methods.len() - 1) as usize
                } else {
                    0usize
                };
                (LoginView { method_index: mi, ..v }, store, None)
            } else if key == KeyCode::Enter && v.show_methods {
                let r = spec_choose_method(v, providers);
                (r.0, store, r.1)
            } else if key == KeyCode::Char('x') || key == KeyCode::Char('X') {
                let id = providers[v.selected_index as int].id@;
                (if store.contains_key(id) { LoginView { show_logout_confirm: true, ..v } } else { v }, store, None)
            } else {
                (v, store, None)
            },
        }
    }
}

/// The states and keys the page handles: a key that reads the selected
/// provider finds it in the list, and no step overflows.
pub open spec fn login_key_ok(v: LoginView, n: nat, key: KeyCode) -> bool {
    if v.show_logout_confirm {
        key == KeyCode::Enter && v.logout_confirm_yes ==> v.selected_index < n
    } else {
        match v.login_state {
            LoginStateView::AccountInput { username, password, .. } =>
                key == KeyCode::Enter && username.len() > 0 && password.len() > 0 ==> v.selected_index < n,
            LoginStateView::CodeInput { account, code, focus } =>
                key == KeyCode::Enter && focus == CodeField::Code && account.len() > 0 && code.len() > 0 ==> v.selected_index < n,
            LoginStateView::Idle => {
                &&& (key == KeyCode::Down ==> v.selected_index < usize::MAX)
                &&& (v.show_methods && key == KeyCode::Tab ==> v.method_index < usize::MAX)
                &&& (!(key == KeyCode::Up || key == KeyCode::Down || key == KeyCode::Esc || (v.show_methods && (key == KeyCode::Tab || key == KeyCode::BackTab)) || (key == KeyCode::Enter && v.show_methods)) && (key == KeyCode::Char('x') || key == KeyCode::Char('X')) ==> v.selected_index < n)
            },
            _ => true,
        }
    }
}

impl LoginPageState {
    pub open spec fn view(&self) -> LoginView {
        LoginView {
            selected_index: self.selected_index,
            show_methods: self.show_methods,
            method_index: self.method_index,
            methods: methods_view(self.methods@),
            login_state: self.login_state.view(),
            message: self.message@,
            pending: match self.pending {
                Some(p) => Some(p@),
                None => None,
            },
            show_logout_confirm: self.show_logout_confirm,
            logout_confirm_yes: self.logout_confirm_yes,
        }
    }

    /// The page opened on the given providers; when the first has no
    /// credential its login methods are shown at once.
    pub fn new(providers: Vec<ProviderEntry>, credential_store: &CredentialStore) -> (res: Self)
        ensures
            res.providers@ == providers@,
            res@ == spec_show_provider(
                LoginView {
                    selected_index: 0,
                    show_methods: false,
                    method_index: 0,
                    methods: Seq::empty(),
                    login_state: LoginStateView::Idle,
                    message: Seq::empty(),
                    pending: None,
                    show_logout_confirm: false,
                    logout_confirm_yes: false,
                },
                providers@,
                credential_store@,
            ),
    {
        let mut s = LoginPageState {
            providers,
            selected_index: 0,
            show_methods: false,
            method_index: 0,
            methods: Vec::new(),
            login_state: LoginState::Idle,
            message: String::new(),
            pending: None,
            show_logout_confirm: false,
            logout_confirm_yes: false,
        };
        assert(methods_view(s.methods@) =~= Seq::<MethodView>::empty());
        s.auto_show_methods(credential_store);
        s
    }

    /// Shows the selected provider's login methods when it has no credential.
    pub fn auto_show_methods(&mut self, credential_store: &CredentialStore)
        ensures
            final(self).providers@ == old(self).providers@,
            final(self)@ == (if old(self).selected_index < old(self).providers@.len() && !credential_store@.contains_key(
                old(self).providers@[old(self).selected_index as int].id@,
            ) {
                LoginView {
                    show_methods: true,
                    methods: methods_view(old(self).providers@[old(self).selected_index as int].methods@),
                    ..old(self)@
                }
            } else {
                old(self)@
            }),
    {
        if self.selected_index < self.providers.len() {
            if !credential_store.has_credential(self.providers[self.selected_index].id.as_str()) {
                self.show_methods = true;
                self.methods = copy_methods(&self.providers[self.selected_index].methods);
            }
        }
    }

    /// Shows the QR code text while a QR login waits for it.
    pub fn show_qr(&mut self, text: String)
        ensures
            final(self).providers@ == old(self).providers@,
            final(self)@ == (match old(self).login_state {
                LoginState::QrWaiting => LoginView { login_state: LoginStateView::QrDisplay(text@), ..old(self)@ },
                _ => old(self)@,
            }),
    {
        match self.login_state {
            LoginState::QrWaiting => {
                self.login_state = LoginState::QrDisplay(text);
            },
            _ => {},
        }
    }

    /// A requested background login has started; its credential will be saved
    /// under `login_id`, the id that the provider reports for itself.
    pub fn login_started(&mut self, kind: StartKind, login_id: String)
        ensures
            final(self).providers@ == old(self).providers@,
            final(self)@ == (LoginView {
                pending: Some(login_id@),
                login_state: if kind == StartKind::Qr { LoginStateView::QrWaiting } else { old(self)@.login_state },
                ..old(self)@
            }),
    {
        self.pending = Some(login_id);
        if kind == StartKind::Qr {
            self.login_state = LoginState::QrWaiting;
        }
    }

    /// A requested background login could not be started.
    pub fn login_start_failed(&mut self, kind: StartKind)
        ensures
            final(self).providers@ == old(self).providers@,
            final(self)@ == (match kind {
                StartKind::Qr => LoginView { message: "启动登录失败"@, ..old(self)@ },
                StartKind::Account => LoginView { login_state: LoginStateView::Failed("此音源不支持账号密码登录"@), ..old(self)@ },
                StartKind::Code => LoginView { login_state: LoginStateView::Failed("此音源不支持验证码登录"@), ..old(self)@ },
            }),
    {
        match kind {
            StartKind::Qr => {
                self.message = to_owned_string("启动登录失败");
            },
            StartKind::Account => {
                self.login_state = LoginState::Failed(to_owned_string("此音源不支持账号密码登录"));
            },
            StartKind::Code => {
                self.login_state = LoginState::Failed(to_owned_string("此音源不支持验证码登录"));
            },
        }
    }
}

/// Takes what a background login has produced: the QR code text (used only
/// while waiting for it) and the final result. A successful login saves the
/// credential under the pending provider's id; the result is whether one was
/// saved.
pub fn poll_bg_login(
    state: &mut LoginPageState,
    store: &mut CredentialStore,
    qr_text: Option<String>,
    result: Option<Result<String, String>>,
) -> (res: bool)
    ensures
        final(state).providers@ == old(state).providers@,
        ({
            let v = old(state)@;
            if v.pending is None {
                &&& final(state)@ == v
                &&& final(store)@ == old(store)@
                &&& !res
            } else {
                let v1 = match (v.login_state, qr_text) {
                    (LoginStateView::QrWaiting, Some(t)) => LoginView { login_state: LoginStateView::QrDisplay(t@), ..v },
                    _ => v,
                };
                match result {
                    None => final(state)@ == v1 && final(store)@ == old(store)@ && !res,
                    Some(Ok(c)) => {
                        &&& final(state)@ == (LoginView { pending: None, login_state: LoginStateView::Success, show_methods: false, ..v1 })
                        &&& final(store)@ == old(store)@.insert(v.pending->0, c@)
                        &&& res
                    },
                    Some(Err(e)) => {
                        &&& final(state)@ == (LoginView { pending: None, login_state: LoginStateView::Failed(e@), ..v1 })
                        &&& final(store)@ == old(store)@
                        &&& !res
                    },
                }
            }
        }),
{
    let pname = match &state.pending {
        Some(p) => to_owned_string(p.as_str()),
        None => {
            return false;
        },
    };
    match qr_text {
        Some(t) => state.show_qr(t),
        None => {},
    }
    match result {
        None => false,
        Some(Ok(credential)) => {
            state.pending = None;
            store.set_credential(pname, credential);
            state.login_state = LoginState::Success;
            state.show_methods = false;
            true
        },
        Some(Err(e)) => {
            state.pending = None;
            state.login_state = LoginState::Failed(e);
            false
        },
    }
}

/// Typing in the account dialog.
fn handle_account_input(state: &mut LoginPageState, key: KeyCode) -> (res: Option<LoginRequest>)
    requires
        old(state).login_state matches LoginState::AccountInput { username, password, .. } && (key == KeyCode::Enter
            && username@.len() > 0 && password@.len() > 0 ==> old(state).selected_index < old(state).providers@.len()),
    ensures
        final(state).providers@ == old(state).providers@,
        ({
            let (u, p, f) = match old(state).login_state {
                LoginState::AccountInput { username, password, focus } => (username@, password@, focus),
                _ => (Seq::empty(), Seq::empty(), AccountField::Username),
            };
            let r = spec_account_key(old(state)@, u, p, f, key);
            &&& final(state)@ == r.0
            &&& match (res, r.1) {
                (None, None) => true,
                (Some(q), Some(w)) => q.view() == w,
                _ => false,
            }
        }),
{
    let (u, p, f) = match &state.login_state {
        LoginState::AccountInput { username, password, focus } => (
            to_owned_string(username.as_str()),
            to_owned_string(password.as_str()),
            *focus,
        ),
        _ => {
            return None;
        },
    };
    match key {
        KeyCode::Tab => {
            let nf = match f {
                AccountField::Username => AccountField::Password,
                AccountField::Password => AccountField::Username,
            };
            state.login_state = LoginState::AccountInput { username: u, password: p, focus: nf };
            None
        },
        KeyCode::Enter => {
            if u.as_str().unicode_len() == 0 || p.as_str().unicode_len() == 0 {
                state.message = to_owned_string("请输入账号和密码");
                return None;
            }
            state.login_state = LoginState::LoggingIn;
            Some(
                LoginRequest::StartAccount {
                    provider_index: state.selected_index,
                    method_index: state.method_index,
                    username: u,
                    password: p,
                },
            )
        },
        KeyCode::Esc => {
            state.login_state = LoginState::Idle;
            None
        },
        KeyCode::Char(c) => {
            state.login_state = match f {
                AccountField::Username => LoginState::AccountInput { username: with_char(&u, c), password: p, focus: f },
                AccountField::Password => LoginState::AccountInput { username: u, password: with_char(&p, c), focus: f },
            };
            None
        },
        KeyCode::Backspace => {
            state.login_state = match f {
                AccountField::Username => LoginState::AccountInput { username: pop_char(&u), password: p, focus: f },
                AccountField::Password => LoginState::AccountInput { username: u, password: pop_char(&p), focus: f },
            };
            None
        },
        _ => None,
    }
}

/// Typing in the verification-code dialog.
fn handle_code_input(state: &mut LoginPageState, key: KeyCode) -> (res: Option<LoginRequest>)
    requires
        old(state).login_state matches LoginState::CodeInput { account, code, focus } && (key == KeyCode::Enter
            && focus == CodeField::Code && account@.len() > 0 && code@.len() > 0 ==> old(state).selected_index
            < old(state).providers@.len()),
    ensures
        final(state).providers@ == old(state).providers@,
        ({
            let (a, c, f) = match old(state).login_state {
                LoginState::CodeInput { account, code, focus } => (account@, code@, focus),
                _ => (Seq::empty(), Seq::empty(), CodeField::Account),
            };
            let r = spec_code_key(old(state)@, a, c, f, key);
            &&& final(state)@ == r.0
            &&& match (res, r.1) {
                (None, None) => true,
                (Some(q), Some(w)) => q.view() == w,
                _ => false,
            }
        }),
{
    let (a, c, f) = match &state.login_state {
        LoginState::CodeInput { account, code, focus } => (
            to_owned_string(account.as_str()),
            to_owned_string(code.as_str()),
            *focus,
        ),
        _ => {
            return None;
        },
    };
    match key {
        KeyCode::Tab => {
            let nf = match f {
                CodeField::Account => CodeField::Code,
                CodeField::Code => CodeField::Account,
            };
            state.login_state = LoginState::CodeInput { account: a, code: c, focus: nf };
            None
        },
        KeyCode::Enter => match f {
            CodeField::Account => {
                state.login_state = LoginState::CodeInput { account: a, code: c, focus: CodeField::Code };
                None
            },
            CodeField::Code => {
                if a.as_str().unicode_len() == 0 || c.as_str().unicode_len() == 0 {
                    state.message = to_owned_string("请填写完整信息");
                    return None;
                }
                state.login_state = LoginState::LoggingIn;
                Some(
                    LoginRequest::StartCode {
                        provider_index: state.selected_index,
                        method_index: state.method_index,
                        account: a,
                        code: c,
                    },
                )
            },
        },
        KeyCode::Esc => {
            state.login_state = LoginState::Idle;
            None
        },
        KeyCode::Char(ch) => {
            state.login_state = match f {
                CodeField::Account => LoginState::CodeInput { account: with_char(&a, ch), code: c, focus: f },
                CodeField::Code => LoginState::CodeInput { account: a, code: with_char(&c, ch), focus: f },
            };
            None
        },
        KeyCode::Backspace => {
            state.login_state = match f {
                CodeField::Account => LoginState::CodeInput { account: pop_char(&a), code: c, focus: f },
                CodeField::Code => LoginState::CodeInput { account: a, code: pop_char(&c), focus: f },
            };
            None
        },
        _ => None,
    }
}

/// Reacts to a key on the login page. Starting a background login is left to
/// the caller, which reports through `login_started` or `login_start_failed`.
pub fn handle_login_input(state: &mut LoginPageState, key: KeyCode, credential_store: &mut CredentialStore) -> (res:
    Option<LoginRequest>)
    requires
        login_key_ok(old(state)@, old(state).providers@.len(), key),
    ensures
        final(state).providers@ == old(state).providers@,
        ({
            let r = spec_login_key(old(state)@, old(state).providers@, old(credential_store)@, key);
            &&& final(state)@ == r.0
            &&& final(credential_store)@ == r.1
            &&& match (res, r.2) {
                (None, None) => true,
                (Some(q), Some(w)) => q.view() == w,
                _ => false,
            }
        }),
{
    if state.show_logout_confirm {
        match key {
            KeyCode::Left | KeyCode::Right => {
                state.logout_confirm_yes = !state.logout_confirm_yes;
            },
            KeyCode::Enter => {
                state.show_logout_confirm = false;
                if state.logout_confirm_yes {
                    let name = to_owned_string(state.providers[state.selected_index].id.as_str());
                    credential_store.remove_credential(name.as_str());
                    let mut m = String::new();
                    push_str(&mut m, "已清除 ");
                    push_str(&mut m, name.as_str());
                    push_str(&mut m, " 的凭证");
                    state.message = m;
                }
            },
            KeyCode::Esc | KeyCode::Char('n') | KeyCode::Char('N') => {
                state.show_logout_confirm = false;
            },
            _ => {},
        }
        return None;
    }
    match &state.login_state {
        LoginState::QrDisplay(_) | LoginState::QrWaiting => {
            if key == KeyCode::Esc {
                state.pending = None;
                state.login_state = LoginState::Idle;
            }
            return None;
        },
        LoginState::LoggingIn => return None,
        LoginState::Success | LoginState::Failed(_) => {
            if key == KeyCode::Esc || key == KeyCode::Enter {
                state.login_state = LoginState::Idle;
            }
            return None;
        },
        LoginState::AccountInput { .. } => {
            return handle_account_input(state, key);
        },
        LoginState::CodeInput { .. } => {
            return handle_code_input(state, key);
        },
        LoginState::Idle => {},
    }
    if key == KeyCode::Up || key == KeyCode::Down {
        if key == KeyCode::Up {
            state.selected_index = if state.selected_index > 0 { state.selected_index - 1 } else { 0 };
        } else {
            if state.selected_index + 1 < state.providers.len() {
                state.selected_index = state.selected_index + 1;
            }
        }
        state.method_index = 0;
        if state.selected_index < state.providers.len() {
            if !credential_store.has_credential(state.providers[state.selected_index].id.as_str()) {
                state.show_methods = true;
                state.methods = copy_methods(&state.providers[state.selected_index].methods);
            } else {
                state.show_methods = false;
            }
        }
        return None;
    }
    if key == KeyCode::Esc {
        state.pending = None;
        return Some(LoginRequest::Page(LoginPageAction::Back));
    }
    if state.show_methods && (key == KeyCode::Tab || key == KeyCode::BackTab) {
        if key == KeyCode::Tab {
            if state.method_index + 1 < state.methods.len() {
                state.method_index = state.method_index + 1;
            } else {
                state.method_index = 0;
            }
        } else {
            if state.method_index > 0 {
                state.method_index = state.method_index - 1;
            } else {
                state.method_index = if state.methods.len() > 0 { state.methods.len() - 1 } else { 0 };
            }
        }
        return None;
    }
    if key == KeyCode::Enter && state.show_methods {
        if state.selected_index < state.providers.len() {
            let mi = state.method_index;
            let si = state.selected_index;
            if mi < state.providers[si].methods.len() {
                match state.providers[si].methods[mi].method_type {
                    LoginMethodType::QR => {
                        return Some(LoginRequest::StartQr { provider_index: si, method_index: mi });
                    },
                    LoginMethodType::Account => {
                        state.login_state = LoginState::AccountInput {
                            username: String::new(),
                            password: String::new(),
                            focus: AccountField::Username,
                        };
                    },
                    LoginMethodType::Code => {
                        state.login_state = LoginState::CodeInput {
                            account: String::new(),
                            code: String::new(),
                            focus: CodeField::Account,
                        };
                    },
                    LoginMethodType::URL => {
                        state.login_state = LoginState::LoggingIn;
                        return Some(LoginRequest::StartQr { provider_index: si, method_index: mi });
                    },
                    LoginMethodType::NoLogin => {
                        state.message = to_owned_string("此音源无需登录");
                    },
                }
            }
        }
        return None;
    }
    if key == KeyCode::Char('x') || key == KeyCode::Char('X') {
        if credential_store.has_credential(state.providers[state.selected_index].id.as_str()) {
            state.show_logout_confirm = true;
        }
        return None;
    }
    None
}

/// The label of a kind of login method.
pub open spec fn spec_method_label(t: LoginMethodType) -> Seq<char> {
    match t {
        LoginMethodType::QR => "二维码"@,
        LoginMethodType::URL => "打开网址"@,
        LoginMethodType::Account => "账号密码"@,
        LoginMethodType::Code => "验证码"@,
        LoginMethodType::NoLogin => "无"@,
    }
}

/// The label of a kind of login method.
pub fn method_label(t: LoginMethodType) -> (res: &'static str)
    ensures
        res@ == spec_method_label(t),
{
    match t {
        LoginMethodType::QR => "二维码",
        LoginMethodType::URL => "打开网址",
        LoginMethodType::Account => "账号密码",
        LoginMethodType::Code => "验证码",
        LoginMethodType::NoLogin => "无",
    }
}

/// A line of the provider list: `✓` or `✗` for a saved credential, the id
/// and the name; and whether it is the selected provider.
pub open spec fn spec_provider_line(p: ProviderEntry, has: bool) -> Seq<char> {
    (if has { "✓"@ } else { "✗"@ }) + " "@ + p.id@ + "  "@ + p.name@
}

/// A line of the details panel.
pub enum DetailLine {
    /// `音源信息`, as a heading.
    Heading,
    Plain(String),
    /// `凭证: ` followed by `已保存` or `无`.
    Credential(bool),
    /// `错误: message`.
    Error(String),
    /// A login method, `" > "` before the chosen one.
    Method { text: String, chosen: bool },
    /// The key hints: `X 清除凭证` when a credential is saved, then `Esc 返回`.
    Actions { clear: bool },
}

pub enum DetailView {
    Heading,
    Plain(Seq<char>),
    Credential(bool),
    Error(Seq<char>),
    Method { text: Seq<char>, chosen: bool },
    Actions { clear: bool },
}

impl DetailLine {
    pub open spec fn view(&self) -> DetailView {
        match self {
            DetailLine::Heading => DetailView::Heading,
            DetailLine::Plain(t) => DetailView::Plain(t@),
            DetailLine::Credential(b) => DetailView::Credential(*b),
            DetailLine::Error(t) => DetailView::Error(t@),
            DetailLine::Method { text, chosen } => DetailView::Method { text: text@, chosen: *chosen },
            DetailLine::Actions { clear } => DetailView::Actions { clear: *clear },
        }
    }
}

pub open spec fn detail_views(s: Seq<DetailLine>) -> Seq<DetailView> {
    Seq::new(s.len(), |i: int| s[i].view())
}

/// The line of login method `i`.
pub open spec fn spec_method_line(m: MethodView, chosen: bool) -> DetailView {
    DetailView::Method {
        text: (if chosen { " > "@ } else { "   "@ }) + m.name + " ("@ + spec_method_label(m.method_type) + ")"@,
        chosen,
    }
}

pub open spec fn spec_method_lines(ms: Seq<MethodView>, chosen: usize) -> Seq<DetailView> {
    Seq::new(ms.len(), |i: int| spec_method_line(ms[i], i == chosen))
}

/// The details panel for provider `p`: its name and id, whether a credential
/// is saved, the last failure, the login methods when shown, and the key
/// hints.
pub open spec fn spec_details(p: ProviderEntry, has: bool, v: LoginView) -> Seq<DetailView> {
    seq![
        DetailView::Heading,
        DetailView::Plain(Seq::empty()),
        DetailView::Plain("名称: "@ + p.name@),
        DetailView::Plain("ID: "@ + p.id@),
        DetailView::Plain(Seq::empty()),
        DetailView::Credential(has),
        DetailView::Plain(Seq::empty()),
    ] + match v.login_state {
        LoginStateView::Failed(m) => seq![DetailView::Error("错误: "@ + m), DetailView::Plain(Seq::empty())],
        _ => Seq::empty(),
    } + (if v.show_methods {
        seq![DetailView::Plain("选择登录方式:"@)] + spec_method_lines(v.methods, v.method_index) + seq![DetailView::Plain(Seq::empty())]
    } else {
        Seq::empty()
    }) + seq![DetailView::Actions { clear: has }]
}

/// What is drawn over the page.
#[derive(Clone, Copy, PartialEq, Eq, Structural, Debug)]
pub enum LoginOverlay {
    Nothing,
    /// The QR code text of the login state.
    Qr,
    /// The account dialog of the login state.
    Account,
    /// The verification-code dialog of the login state.
    Code,
    /// `登录中...`.
    LoggingIn,
    /// `登录成功，凭证已保存`.
    Success,
}

pub open spec fn spec_overlay(s: LoginStateView) -> LoginOverlay {
    match s {
        LoginStateView::QrDisplay(_) => LoginOverlay::Qr,
        LoginStateView::AccountInput { .. } => LoginOverlay::Account,
        LoginStateView::CodeInput { .. } => LoginOverlay::Code,
        LoginStateView::LoggingIn => LoginOverlay::LoggingIn,
        LoginStateView::Success => LoginOverlay::Success,
        _ => LoginOverlay::Nothing,
    }
}

/// What the login page shows.
pub struct LoginScreen {
    /// The provider list, each line with whether it is selected.
    pub providers: Vec<(String, bool)>,
    /// The details of the selected provider; none when no provider is selected.
    pub details: Option<Vec<DetailLine>>,
    pub overlay: LoginOverlay,
    /// The logout dialog's choice, when the dialog is open.
    pub confirm: Option<bool>,
}

fn push_blank(lines: &mut Vec<DetailLine>)
    ensures
        detail_views(final(lines)@) == detail_views(old(lines)@).push(DetailView::Plain(Seq::empty())),
{
    lines.push(DetailLine::Plain(String::new()));
    assert(detail_views(lines@) =~= detail_views(old(lines)@).push(DetailView::Plain(Seq::empty())));
}

fn push_line(lines: &mut Vec<DetailLine>, l: DetailLine)
    ensures
        detail_views(final(lines)@) == detail_views(old(lines)@).push(l.view()),
{
    let ghost v = l.view();
    lines.push(l);
    assert(detail_views(lines@) =~= detail_views(old(lines)@).push(v));
}

fn details_of(p: &ProviderEntry, has: bool, state: &LoginPageState) -> (res: Vec<DetailLine>)
    ensures
        detail_views(res@) == spec_details(*p, has, state@),
{
    let mut lines: Vec<DetailLine> = Vec::new();
    let mut name = to_owned_string("名称: ");
    push_str(&mut name, p.name.as_str());
    let mut id = to_owned_string("ID: ");
    push_str(&mut id, p.id.as_str());
    push_line(&mut lines, DetailLine::Heading);
    push_blank(&mut lines);
    push_line(&mut lines, DetailLine::Plain(name));
    push_line(&mut lines, DetailLine::Plain(id));
    push_blank(&mut lines);
    push_line(&mut lines, DetailLine::Credential(has));
    push_blank(&mut lines);
    let ghost head = detail_views(lines@);
    match &state.login_state {
        LoginState::Failed(m) => {
            let mut e = to_owned_string("错误: ");
            push_str(&mut e, m.as_str());
            push_line(&mut lines, DetailLine::Error(e));
            push_blank(&mut lines);
        },
        _ => {},
    }
    let ghost after_error = detail_views(lines@);
    if state.show_methods {
        push_line(&mut lines, DetailLine::Plain(to_owned_string("选择登录方式:")));
        let ghost start = detail_views(lines@);
        let mut i: usize = 0;
        while i < state.methods.len()
            invariant
                i <= state.methods@.len(),
                detail_views(lines@) == start + spec_method_lines(methods_view(state.methods@), state.method_index).take(i as int),
            decreases state.methods.len() - i,
        {
            let chosen = i == state.method_index;
            let mut t = if chosen { to_owned_string(" > ") } else { to_owned_string("   ") };
            push_str(&mut t, state.methods[i].name.as_str());
            push_str(&mut t, " (");
            push_str(&mut t, method_label(state.methods[i].method_type));
            push_str(&mut t, ")");
            push_line(&mut lines, DetailLine::Method { text: t, chosen });
            proof {
                let ml = spec_method_lines(methods_view(state.methods@), state.method_index);
                assert(ml.take(i + 1) =~= ml.take(i as int).push(ml[i as int]));
            }
            i += 1;
        }
        proof {
            let ml = spec_method_lines(methods_view(state.methods@), state.method_index);
            assert(ml.take(state.methods@.len() as int) =~= ml);
        }
        push_blank(&mut lines);
    }
    push_line(&mut lines, DetailLine::Actions { clear: has });
    proof {
        reveal_strlit("");
        assert(detail_views(lines@) =~= spec_details(*p, has, state@));
    }
    lines
}

impl LoginPageState {
    /// What the page shows with the credentials in `store`.
    pub fn screen(&self, store: &CredentialStore) -> (res: LoginScreen)
        ensures
            res.providers@.len() == self.providers@.len(),
            forall|i: int|
                0 <= i < res.providers@.len() ==> {
                    &&& (#[trigger] res.providers@[i]).0@ == spec_provider_line(
                        self.providers@[i],
                        store@.contains_key(self.providers@[i].id@),
                    )
                    &&& res.providers@[i].1 == (i == self.selected_index)
                },
            match res.details {
                Some(d) => self.selected_index < self.providers@.len() && detail_views(d@) == spec_details(
                    self.providers@[self.selected_index as int],
                    store@.contains_key(self.providers@[self.selected_index as int].id@),
                    self@,
                ),
                None => self.selected_index >= self.providers@.len(),
            },
            res.overlay == spec_overlay(self.login_state.view()),
            res.confirm == (if self.show_logout_confirm { Some(self.logout_confirm_yes) } else { None::<bool> }),
    {
        let mut providers: Vec<(String, bool)> = Vec::new();
        let mut i: usize = 0;
        while i < self.providers.len()
            invariant
                i <= self.providers@.len(),
                providers@.len() == i,
                forall|k: int|
                    0 <= k < i ==> {
                        &&& (#[trigger] providers@[k]).0@ == spec_provider_line(
                            self.providers@[k],
                            store@.contains_key(self.providers@[k].id@),
                        )
                        &&& providers@[k].1 == (k == self.selected_index)
                    },
            decreases self.providers.len() - i,
        {
            let p = &self.providers[i];
            let has = store.has_credential(p.id.as_str());
            let mut line = if has { to_owned_string("✓") } else { to_owned_string("✗") };
            push_str(&mut line, " ");
            push_str(&mut line, p.id.as_str());
            push_str(&mut line, "  ");
            push_str(&mut line, p.name.as_str());
            providers.push((line, i == self.selected_index));
            i += 1;
        }
        let details = if self.selected_index < self.providers.len() {
            let p = &self.providers[self.selected_index];
            let has = store.has_credential(p.id.as_str());
            Some(details_of(p, has, self))
        } else {
            None
        };
        let overlay = match &self.login_state {
            LoginState::QrDisplay(_) => LoginOverlay::Qr,
            LoginState::AccountInput { .. } => LoginOverlay::Account,
            LoginState::CodeInput { .. } => LoginOverlay::Code,
            LoginState::LoggingIn => LoginOverlay::LoggingIn,
            LoginState::Success => LoginOverlay::Success,
            _ => LoginOverlay::Nothing,
        };
        let confirm = if self.show_logout_confirm { Some(self.logout_confirm_yes) } else { None };
        LoginScreen { providers, details, overlay, confirm }
    }
}

/// The last character removed, as Backspace does; an empty text stays empty.
pub open spec fn erased(t: Seq<char>) -> Seq<char> {
    if t.len() > 0 { t.subrange(0, t.len() - 1) } else { t }
}

/// Typing in the verification-code dialog edits only the focused field:
/// Backspace removes that field's last character, a character key appends
/// to it, and the other field stays as it was; Tab moves the focus to the
/// other field and keeps both texts. The credentials are not touched and no
/// login starts.
pub proof fn law_code_dialog_edits_focused_field(
    v: LoginView,
    providers: Seq<ProviderEntry>,
    store: Map<Seq<char>, Seq<char>>,
    key: KeyCode,
    a: Seq<char>,
    c: Seq<char>,
    f: CodeField,
)
    requires
        !v.show_logout_confirm,
        v.login_state == (LoginStateView::CodeInput { account: a, code: c, focus: f }),
        key == KeyCode::Backspace || key == KeyCode::Tab || key is Char,
    ensures
        ({
            let (r, st, req) = spec_login_key(v, providers, store, key);
            &&& st == store
            &&& req is None
            &&& r.login_state matches LoginStateView::CodeInput { account: a2, code: c2, focus: f2 } && {
                &&& key == KeyCode::Backspace ==> f2 == f && (if f == CodeField::Code {
                    a2 == a && c2 == erased(c)
                } else {
                    c2 == c && a2 == erased(a)
                })
                &&& key == KeyCode::Tab ==> a2 == a && c2 == c && f2 != f
                &&& key matches KeyCode::Char(ch) ==> f2 == f && (if f == CodeField::Code {
                    a2 == a && c2 == c + seq![ch]
                } else {
                    c2 == c && a2 == a + seq![ch]
                })
            }
        }),
{
    if key == KeyCode::Backspace {
        assert(c.len() > 0 ==> c.drop_last() =~= erased(c));
        assert(a.len() > 0 ==> a.drop_last() =~= erased(a));
    }
    if let KeyCode::Char(ch) = key {
        assert(c.push(ch) =~= c + seq![ch]);
        assert(a.push(ch) =~= a + seq![ch]);
    }
}

/// The same for the account dialog: Backspace and character keys edit only
/// the focused field (user name or password), Tab switches the focus, and
/// nothing else changes.
pub proof fn law_account_dialog_edits_focused_field(
    v: LoginView,
    providers: Seq<ProviderEntry>,
    store: Map<Seq<char>, Seq<char>>,
    key: KeyCode,
    u: Seq<char>,
    pw: Seq<char>,
    f: AccountField,
)
    requires
        !v.show_logout_confirm,
        v.login_state == (LoginStateView::AccountInput { username: u, password: pw, focus: f }),
        key == KeyCode::Backspace || key == KeyCode::Tab || key is Char,
    ensures
        ({
            let (r, st, req) = spec_login_key(v, providers, store, key);
            &&& st == store
            &&& req is None
            &&& r.login_state matches LoginStateView::AccountInput { username: u2, password: p2, focus: f2 } && {
                &&& key == KeyCode::Backspace ==> f2 == f && (if f == AccountField::Password {
                    u2 == u && p2 == erased(pw)
                } else {
                    p2 == pw && u2 == erased(u)
                })
                &&& key == KeyCode::Tab ==> u2 == u && p2 == pw && f2 != f
                &&& key matches KeyCode::Char(ch) ==> f2 == f && (if f == AccountField::Password {
                    u2 == u && p2 == pw + seq![ch]
                } else {
                    p2 == pw && u2 == u + seq![ch]
                })
            }
        }),
{
    if key == KeyCode::Backspace {
        assert(pw.len() > 0 ==> pw.drop_last() =~= erased(pw));
        assert(u.len() > 0 ==> u.drop_last() =~= erased(u));
    }
    if let KeyCode::Char(ch) = key {
        assert(pw.push(ch) =~= pw + seq![ch]);
        assert(u.push(ch) =~= u + seq![ch]);
    }
}

} // verus!
