use fractal::model::{Member, PowerLevel, Room, RoomMembership, RoomTag};
use fractal::room_settings::{
    notify_for_switch, switch_from_pushrules, NameField, RoomDescription, RoomNotify, RoomSettings,
    SettingsPage, TopicField,
};

fn room() -> Room {
    let mut r = Room::new("!r:x".to_string(), RoomMembership::Joined(RoomTag::Untagged));
    r.name = Some("Team".to_string());
    r.topic = Some("Work".to_string());
    r
}

fn member(uid: &str) -> Member {
    Member { uid: uid.to_string(), alias: None, avatar: None }
}

#[test]
fn new_names_worth_sending() {
    let s = RoomSettings::new("@me:x".to_string(), room());
    assert_eq!(s.validate_room_name(Some("Other".to_string())), Some("Other".to_string()));
    assert_eq!(s.validate_room_name(Some("Team".to_string())), None);
    assert_eq!(s.validate_room_name(Some(String::new())), None);
    assert_eq!(s.validate_room_name(None), None);
    assert_eq!(s.validate_room_topic(Some("Play".to_string())), Some("Play".to_string()));
    assert_eq!(s.validate_room_topic(Some("Work".to_string())), None);
}

#[test]
fn a_room_without_name_accepts_no_new_name() {
    let mut r = room();
    r.name = None;
    let s = RoomSettings::new("@me:x".to_string(), r);
    assert_eq!(s.validate_room_name(Some("Any".to_string())), None);
}

#[test]
fn first_page_is_loading_for_an_unknown_room() {
    let r = Room::new("!r:x".to_string(), RoomMembership::Joined(RoomTag::Untagged));
    assert!(RoomSettings::new("@me:x".to_string(), r).create() == SettingsPage::Loading);
    assert!(RoomSettings::new("@me:x".to_string(), room()).create() == SettingsPage::Info);
}

#[test]
fn admins_edit_rooms() {
    let mut r = room();
    r.admins = vec![PowerLevel { uid: "@me:x".to_string(), level: 50 }];
    r.members = vec![member("@me:x"), member("@a:x")];
    let l = RoomSettings::new("@me:x".to_string(), r).init_room_settings();
    assert!(l.edit && l.is_room && !l.is_group);
    assert!(matches!(l.name, NameField::Edit(Some(ref n)) if n == "Team"));
    assert!(matches!(l.topic, TopicField::Edit(Some(ref t)) if t == "Work"));
    assert!(matches!(l.description, RoomDescription::Members(2)));
    assert_eq!(l.members, 2);
    assert!(l.show_invite);
    assert!(!l.show_notification_sounds && !l.show_media && !l.show_history_visibility);
    assert!(!l.show_room_visibility && !l.show_join);
}

#[test]
fn members_only_read() {
    let mut r = room();
    r.admins = vec![PowerLevel { uid: "@me:x".to_string(), level: 49 }];
    r.topic = None;
    let l = RoomSettings::new("@me:x".to_string(), r).init_room_settings();
    assert!(!l.edit);
    assert!(matches!(l.name, NameField::Show(Some(ref n)) if n == "Team"));
    assert!(matches!(l.topic, TopicField::Hidden));
    assert!(l.show_invite && !l.show_room_visibility && !l.show_join);
}

#[test]
fn direct_chats_describe_the_partner() {
    let mut r = room();
    r.direct = true;
    r.admins = vec![PowerLevel { uid: "@me:x".to_string(), level: 100 }];
    r.members = vec![member("@me:x"), member("@pal:x")];
    let l = RoomSettings::new("@me:x".to_string(), r).init_room_settings();
    assert!(!l.edit && !l.is_room);
    assert!(matches!(l.description, RoomDescription::DirectWith(Some(ref u)) if u == "@pal:x"));
    assert!(matches!(l.topic, TopicField::Hidden));
    assert!(!l.show_invite && !l.show_notification_sounds);
}

#[test]
fn notification_switch() {
    assert!(notify_for_switch(true) == RoomNotify::All);
    assert!(notify_for_switch(false) == RoomNotify::DontNotify);
    assert_eq!(switch_from_pushrules(Some(RoomNotify::All)), (true, true));
    assert_eq!(switch_from_pushrules(Some(RoomNotify::NotSet)), (true, true));
    assert_eq!(switch_from_pushrules(Some(RoomNotify::DontNotify)), (false, true));
    assert_eq!(switch_from_pushrules(None), (false, false));
}
