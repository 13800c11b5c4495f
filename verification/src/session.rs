//! The desktop client's connection state as the window shows it: whether
//! it is logged in, whether a connection is being checked, and whether the
//! account switcher (which holds the login form) is open.

use vstd::prelude::*;

verus! {

/// What the window shows of the connection.
#[derive(Debug, Clone, Copy, PartialEq, Eq, Structural)]
pub struct SessionUi {
    pub authed: bool,
    pub connecting: bool,
    pub show_account_switcher: bool,
}

/// Something that happened to the connection.
#[derive(Debug, Clone, Copy, PartialEq, Eq, Structural)]
pub enum SessionEvent {
    /// The login form was sent with a server and a user name.
    ConnectRequested,
    /// A stored password was found at start-up for the last account.
    StoredPasswordFound,
    /// The server answered a connection check.
    Connected { ok: bool },
    /// The user picked a saved account; `active` when it is the connected
    /// one, `password_found` when the keyring still holds its password.
    SwitchRequested { active: bool, password_found: bool },
    /// The user asked to add another account.
    AddAccount,
    /// The user disconnected.
    Logout,
    /// The server refused the session.
    SessionExpired,
    /// The account switcher's button was pressed.
    ToggleSwitcher,
}

/// What the client does next.
#[derive(Debug, Clone, Copy, PartialEq, Eq, Structural)]
pub enum SessionAction {
    Nothing,
    /// Check the connection with the server.
    CheckConnection,
    /// Load the connected account's library.
    LoadLibrary,
    /// Report the failed connection.
    ReportFailure,
    /// Forget the server's library and check the new account's connection.
    ResetAndCheck,
    /// Clear the login form.
    ClearForm,
    /// Show the on-disk library instead of the server's.
    ShowOfflineLibrary,
}

/// The state and action after event `e` in state `s`.
pub open spec fn session_step(s: SessionUi, e: SessionEvent) -> (SessionUi, SessionAction) {
    match e {
        SessionEvent::ConnectRequested => (SessionUi { connecting: true, ..s }, SessionAction::CheckConnection),
        SessionEvent::StoredPasswordFound => (SessionUi { connecting: true, ..s }, SessionAction::CheckConnection),
        SessionEvent::Connected { ok } => if ok {
            (SessionUi { authed: true, connecting: false, show_account_switcher: false }, SessionAction::LoadLibrary)
        } else {
            (SessionUi { connecting: false, show_account_switcher: true, ..s }, SessionAction::ReportFailure)
        },
        SessionEvent::SwitchRequested { active, password_found } => if active {
            (SessionUi { show_account_switcher: false, ..s }, SessionAction::Nothing)
        } else if password_found {
            (SessionUi { authed: false, connecting: true, show_account_switcher: false }, SessionAction::ResetAndCheck)
        } else {
            (SessionUi { authed: false, show_account_switcher: true, ..s }, SessionAction::Nothing)
        },
        SessionEvent::AddAccount => (
            SessionUi { authed: false, show_account_switcher: true, ..s },
            SessionAction::ClearForm,
        ),
        SessionEvent::Logout => (
            SessionUi { authed: false, show_account_switcher: true, ..s },
            SessionAction::ShowOfflineLibrary,
        ),
        SessionEvent::SessionExpired => (
            SessionUi { authed: false, show_account_switcher: true, ..s },
            SessionAction::Nothing,
        ),
        SessionEvent::ToggleSwitcher => (
            SessionUi { show_account_switcher: !s.show_account_switcher, ..s },
            SessionAction::Nothing,
        ),
    }
}

impl SessionUi {
    /// Not logged in, nothing being checked, switcher closed.
    pub fn new() -> (r: SessionUi)
        ensures
            r == (SessionUi { authed: false, connecting: false, show_account_switcher: false }),
    {
        SessionUi { authed: false, connecting: false, show_account_switcher: false }
    }

    /// Applies event `e` and returns what to do next.
    pub fn apply(&mut self, e: SessionEvent) -> (a: SessionAction)
        ensures
            (*final(self), a) == session_step(*old(self), e),
    {
        match e {
            SessionEvent::ConnectRequested | SessionEvent::StoredPasswordFound => {
                self.connecting = true;
                SessionAction::CheckConnection
            },
            SessionEvent::Connected { ok } => {
                self.connecting = false;
                if ok {
                    self.authed = true;
                    self.show_account_switcher = false;
                    SessionAction::LoadLibrary
                } else {
                    self.show_account_switcher = true;
                    SessionAction::ReportFailure
                }
            },
            SessionEvent::SwitchRequested { active, password_found } => {
                self.show_account_switcher = false;
                if active {
                    SessionAction::Nothing
                } else if password_found {
                    self.connecting = true;
                    self.authed = false;
                    SessionAction::ResetAndCheck
                } else {
                    self.authed = false;
                    self.show_account_switcher = true;
                    SessionAction::Nothing
                }
            },
            SessionEvent::AddAccount => {
                self.show_account_switcher = true;
                self.authed = false;
                SessionAction::ClearForm
            },
            SessionEvent::Logout => {
                self.authed = false;
                self.show_account_switcher = true;
                SessionAction::ShowOfflineLibrary
            },
            SessionEvent::SessionExpired => {
                self.authed = false;
                self.show_account_switcher = true;
                SessionAction::Nothing
            },
            SessionEvent::ToggleSwitcher => {
                self.show_account_switcher = !self.show_account_switcher;
                SessionAction::Nothing
            },
        }
    }
}

/// Whatever the state, a refused or ended session leaves the client logged
/// out with the account switcher open, and a failed check is no longer in
/// progress.
pub proof fn law_logged_out_shows_switcher(s: SessionUi)
    ensures
        !session_step(s, SessionEvent::SessionExpired).0.authed,
        session_step(s, SessionEvent::SessionExpired).0.show_account_switcher,
        !session_step(s, SessionEvent::Logout).0.authed,
        session_step(s, SessionEvent::Logout).0.show_account_switcher,
        !session_step(s, SessionEvent::Connected { ok: false }).0.connecting,
        session_step(s, SessionEvent::Connected { ok: false }).0.show_account_switcher,
{
}

/// A sent login form that the server accepts ends logged in, with nothing
/// being checked and the switcher closed; pressing the switcher's button
/// twice changes nothing.
pub proof fn law_connect_then_accept(s: SessionUi)
    ensures
        session_step(session_step(s, SessionEvent::ConnectRequested).0, SessionEvent::Connected { ok: true }).0
            == (SessionUi { authed: true, connecting: false, show_account_switcher: false }),
        session_step(session_step(s, SessionEvent::ToggleSwitcher).0, SessionEvent::ToggleSwitcher).0 == s,
{
}

/// What each event asks for: a sent form or a found password checks the
/// connection, an accepted check loads the library, a refused one is
/// reported, picking another account with a stored password resets the
/// library and checks it, adding an account clears the form and logging
/// out shows the on-disk library; while a check runs, only its answer ends
/// it.
pub proof fn law_session_actions(s: SessionUi, e: SessionEvent)
    ensures
        e == SessionEvent::ConnectRequested ==> session_step(s, e).1 == SessionAction::CheckConnection
            && session_step(s, e).0.connecting,
        e == SessionEvent::StoredPasswordFound ==> session_step(s, e).1 == SessionAction::CheckConnection
            && session_step(s, e).0.connecting,
        e == (SessionEvent::Connected { ok: true }) ==> session_step(s, e).1 == SessionAction::LoadLibrary
            && session_step(s, e).0.authed,
        e == (SessionEvent::Connected { ok: false }) ==> session_step(s, e).1 == SessionAction::ReportFailure
            && session_step(s, e).0.authed == s.authed,
        e == (SessionEvent::SwitchRequested { active: false, password_found: true }) ==> session_step(s, e).1
            == SessionAction::ResetAndCheck && session_step(s, e).0.connecting && !session_step(s, e).0.authed,
        e == (SessionEvent::SwitchRequested { active: false, password_found: false }) ==> session_step(s, e).1
            == SessionAction::Nothing && session_step(s, e).0.show_account_switcher,
        e is SwitchRequested && e->active ==> session_step(s, e).0 == (SessionUi { show_account_switcher: false, ..s }),
        e == SessionEvent::AddAccount ==> session_step(s, e).1 == SessionAction::ClearForm,
        e == SessionEvent::Logout ==> session_step(s, e).1 == SessionAction::ShowOfflineLibrary,
        !(e is Connected || e is SwitchRequested) ==> session_step(s, e).0.connecting == (s.connecting
            || e == SessionEvent::ConnectRequested || e == SessionEvent::StoredPasswordFound),
{
}

} // verus!
