use fractal::account::{
    avatar_spinner_running, destruction_sensitive, name_button_visible, validate_password_input,
};
use fractal::model::LoginData;

fn login(username: Option<&str>) -> Option<LoginData> {
    Some(LoginData {
        server_url: "https://x".to_string(),
        access_token: "t".to_string(),
        uid: "@me:x".to_string(),
        username: username.map(|u| u.to_string()),
    })
}

#[test]
fn name_button_shows_for_a_new_name() {
    assert!(name_button_visible(&"new".to_string(), &login(Some("old"))));
    assert!(!name_button_visible(&"old".to_string(), &login(Some("old"))));
    assert!(!name_button_visible(&String::new(), &login(Some("old"))));
    assert!(!name_button_visible(&"new".to_string(), &login(None)));
    assert!(!name_button_visible(&"new".to_string(), &None));
}

#[test]
fn password_dialog_checks() {
    let c = validate_password_input(&"o".to_string(), &"n".to_string(), &"n".to_string());
    assert!(!c.hint_visible && c.confirm_sensitive);
    let c = validate_password_input(&"o".to_string(), &"n".to_string(), &"m".to_string());
    assert!(c.hint_visible && !c.confirm_sensitive);
    let c = validate_password_input(&String::new(), &"n".to_string(), &"n".to_string());
    assert!(!c.hint_visible && !c.confirm_sensitive);
    let c = validate_password_input(&"o".to_string(), &String::new(), &String::new());
    assert!(!c.hint_visible && !c.confirm_sensitive);
}

#[test]
fn destruction_and_spinner() {
    assert!(destruction_sensitive(&"pw".to_string()));
    assert!(!destruction_sensitive(&String::new()));
    assert!(avatar_spinner_running(false));
    assert!(!avatar_spinner_running(true));
}
