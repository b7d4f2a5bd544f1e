//! The account settings panel: when the name and password buttons can be
//! used, and when the account can be destroyed.

use vstd::prelude::*;

use crate::model::LoginData;

verus! {

/// The button that saves a new user name shows when a name was typed, the
/// user has a name, and the typed one differs from it.
pub open spec fn name_button_shown(typed: Seq<char>, login: Option<LoginData>) -> bool {
    &&& typed.len() > 0
    &&& login matches Some(ld)
    &&& ld.username matches Some(u)
    &&& u@ != typed
}

/// Whether the button that saves a new user name shows.
pub fn name_button_visible(typed: &String, login: &Option<LoginData>) -> (r: bool)
    ensures
        r == name_button_shown(typed@, *login),
{
    if typed.as_str().is_empty() {
        return false;
    }
    match login {
        Some(ld) => match &ld.username {
            Some(u) => !(*u == *typed),
            None => false,
        },
        None => false,
    }
}

/// How the password dialog reacts to what was typed in it.
#[derive(Clone, Copy, PartialEq, Eq, Structural)]
pub struct PasswordCheck {
    /// The hint that the new password and its repetition differ shows.
    pub hint_visible: bool,
    /// The button that changes the password can be used.
    pub confirm_sensitive: bool,
}

/// The hint shows when the new password and its repetition differ; the
/// password can be changed when they agree and none of the three fields is
/// empty.
pub open spec fn password_check_spec(old: Seq<char>, new: Seq<char>, verify: Seq<char>) -> PasswordCheck {
    let matching = new == verify;
    let empty = !(new.len() > 0 && verify.len() > 0 && old.len() > 0);
    PasswordCheck { hint_visible: !matching, confirm_sensitive: matching && !empty }
}

/// How the password dialog reacts to the old password, the new one and its
/// repetition.
pub fn validate_password_input(old: &String, new: &String, verify: &String) -> (r: PasswordCheck)
    ensures
        r == password_check_spec(old@, new@, verify@),
{
    let mut empty = true;
    let mut matching = true;
    if !(*new == *verify) {
        matching = false;
    }
    if !new.as_str().is_empty() && !verify.as_str().is_empty() && !old.as_str().is_empty() {
        empty = false;
    }
    PasswordCheck { hint_visible: !matching, confirm_sensitive: matching && !empty }
}

/// The account can be destroyed once its password was typed.
pub fn destruction_sensitive(password: &String) -> (r: bool)
    ensures
        r == (password@.len() > 0),
{
    !password.as_str().is_empty()
}

/// The spinner next to the avatar button runs while the button cannot be
/// used (a new avatar is being sent).
pub fn avatar_spinner_running(button_sensitive: bool) -> (r: bool)
    ensures
        r == !button_sensitive,
{
    !button_sensitive
}

} // verus!
