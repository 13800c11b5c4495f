use firmium::session::{SessionAction, SessionEvent, SessionUi};

#[test]
fn login_then_accept() {
    let mut s = SessionUi::new();
    assert_eq!(s.apply(SessionEvent::ConnectRequested), SessionAction::CheckConnection);
    assert!(s.connecting);
    assert_eq!(s.apply(SessionEvent::Connected { ok: true }), SessionAction::LoadLibrary);
    assert_eq!(s, SessionUi { authed: true, connecting: false, show_account_switcher: false });
}

#[test]
fn refused_connection_reopens_the_switcher() {
    let mut s = SessionUi::new();
    s.apply(SessionEvent::StoredPasswordFound);
    assert_eq!(s.apply(SessionEvent::Connected { ok: false }), SessionAction::ReportFailure);
    assert_eq!(s, SessionUi { authed: false, connecting: false, show_account_switcher: true });
}

#[test]
fn expiry_and_logout_log_out() {
    let mut s = SessionUi { authed: true, connecting: false, show_account_switcher: false };
    assert_eq!(s.apply(SessionEvent::SessionExpired), SessionAction::Nothing);
    assert_eq!(s, SessionUi { authed: false, connecting: false, show_account_switcher: true });
    let mut s = SessionUi { authed: true, connecting: false, show_account_switcher: false };
    assert_eq!(s.apply(SessionEvent::Logout), SessionAction::ShowOfflineLibrary);
    assert!(!s.authed && s.show_account_switcher);
}

#[test]
fn switching_accounts() {
    let authed = SessionUi { authed: true, connecting: false, show_account_switcher: true };
    let mut s = authed;
    assert_eq!(s.apply(SessionEvent::SwitchRequested { active: true, password_found: true }), SessionAction::Nothing);
    assert_eq!(s, SessionUi { show_account_switcher: false, ..authed });
    let mut s = authed;
    assert_eq!(
        s.apply(SessionEvent::SwitchRequested { active: false, password_found: true }),
        SessionAction::ResetAndCheck
    );
    assert_eq!(s, SessionUi { authed: false, connecting: true, show_account_switcher: false });
    let mut s = authed;
    assert_eq!(s.apply(SessionEvent::SwitchRequested { active: false, password_found: false }), SessionAction::Nothing);
    assert_eq!(s, SessionUi { authed: false, connecting: false, show_account_switcher: true });
}

#[test]
fn add_account_and_toggle() {
    let mut s = SessionUi { authed: true, connecting: false, show_account_switcher: false };
    assert_eq!(s.apply(SessionEvent::ToggleSwitcher), SessionAction::Nothing);
    assert!(s.show_account_switcher);
    s.apply(SessionEvent::ToggleSwitcher);
    assert!(!s.show_account_switcher);
    assert_eq!(s.apply(SessionEvent::AddAccount), SessionAction::ClearForm);
    assert_eq!(s, SessionUi { authed: false, connecting: false, show_account_switcher: true });
}
