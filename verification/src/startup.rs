//! What the desktop client takes from its saved configuration when it
//! starts: the prefilled login form, the theme, and whether to log in again
//! with the password in the keyring.

use vstd::prelude::*;

verus! {

/// The theme used when the configuration names none.
pub open spec fn default_theme_id() -> Seq<char> {
    "firmium"@
}

/// The start-up choices of the desktop client.
#[derive(Debug)]
pub struct StartupPlan {
    /// The login form's server field.
    pub server_input: String,
    /// The login form's user name field.
    pub username_input: String,
    /// The id of the theme to apply.
    pub theme_id: String,
    /// Whether to read the saved password and log in with it.
    pub auto_login: bool,
}

/// Takes the saved server, user name and theme: the login form is
/// prefilled only when both the server and the user name are saved, the
/// theme defaults to `firmium`, and the client logs in again when the
/// prefilled server and user name are both non-empty.
pub fn startup_plan(server: Option<String>, username: Option<String>, theme_id: Option<String>) -> (r: StartupPlan)
    ensures
        (server is Some && username is Some) ==> r.server_input@ == server->0@ && r.username_input@
            == username->0@,
        !(server is Some && username is Some) ==> r.server_input@.len() == 0 && r.username_input@.len() == 0,
        r.theme_id@ == (match theme_id {
            Some(t) => t@,
            None => default_theme_id(),
        }),
        r.auto_login == (r.server_input@.len() > 0 && r.username_input@.len() > 0),
{
    let (server_input, username_input) = match (server, username) {
        (Some(s), Some(u)) => (s, u),
        _ => (String::new(), String::new()),
    };
    let theme_id = match theme_id {
        Some(t) => t,
        None => {
            proof {
                reveal_strlit("firmium");
            }
            String::from_str("firmium")
        },
    };
    let auto_login = server_input.as_str().unicode_len() > 0 && username_input.as_str().unicode_len() > 0;
    StartupPlan { server_input, username_input, theme_id, auto_login }
}

} // verus!
