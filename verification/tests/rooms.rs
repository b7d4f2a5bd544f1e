use fractal::appop::{AppOp, GeneratedName};
use ruma_identifiers::Error as IdError;
use fractal::effects::{AppState, Command, Effect, RoomType, TopicLabel, TypingText};
use fractal::model::{LoginData, Member, Message, PowerLevel, Reason, Room, RoomMembership, RoomTag};

fn login() -> LoginData {
    LoginData {
        server_url: "https://matrix.example.org".to_string(),
        access_token: "tok".to_string(),
        uid: "@me:example.org".to_string(),
        username: Some("me".to_string()),
    }
}

fn member(uid: &str, alias: Option<&str>) -> Member {
    Member { uid: uid.to_string(), alias: alias.map(|a| a.to_string()), avatar: None }
}

fn joined(id: &str) -> Room {
    Room::new(id.to_string(), RoomMembership::Joined(RoomTag::Untagged))
}

fn message(room: &str, body: &str, redacted: bool) -> Message {
    Message {
        sender: "@a:example.org".to_string(),
        mtype: "m.text".to_string(),
        date: 0,
        room: room.to_string(),
        id: None,
        body: body.to_string(),
        url: None,
        thumb: None,
        formatted_body: None,
        format: None,
        source: None,
        redacted,
        in_reply_to: None,
    }
}

fn logged_in() -> AppOp {
    AppOp::new(Some(login()), Some("@me:example.org".to_string()))
}

fn room_ids(op: &AppOp) -> Vec<String> {
    op.rooms.iter().map(|r| r.id.clone()).collect()
}

#[test]
fn new_rooms_are_asked_for_and_listed() {
    let mut op = logged_in();
    let effects = op.set_rooms(vec![joined("!a:x"), joined("!b:x")], false, None);
    assert_eq!(room_ids(&op), vec!["!a:x".to_string(), "!b:x".to_string()]);
    assert_eq!(effects.len(), 8);
    assert!(matches!(&effects[0], Effect::Send(Command::GetRoomMembers { room, token, .. }) if room == "!a:x" && token == "tok"));
    assert!(matches!(&effects[1], Effect::Send(Command::GetRoomAvatar { room, .. }) if room == "!a:x"));
    assert!(matches!(&effects[2], Effect::RoomListAdd(r) if r.id == "!a:x"));
    assert!(matches!(&effects[3], Effect::RoomListMoveUp(id) if id == "!a:x"));
    assert!(matches!(&effects[4], Effect::Send(Command::GetRoomMembers { room, .. }) if room == "!b:x"));
}

#[test]
fn set_rooms_without_login_does_nothing() {
    let mut op = AppOp::new(None, None);
    let effects = op.set_rooms(vec![joined("!a:x")], false, None);
    assert!(effects.is_empty());
    assert!(op.rooms.is_empty());
}

#[test]
fn left_room_is_dropped_and_kick_is_shown() {
    let mut op = logged_in();
    let mut known = joined("!a:x");
    known.name = Some("Team".to_string());
    op.set_rooms(vec![known, joined("!b:x")], false, None);
    let mut left = joined("!a:x");
    left.membership =
        RoomMembership::Left(Reason::Kicked("spam".to_string(), member("@mod:x", Some("Mod"))));
    let effects = op.set_rooms(vec![left], false, None);
    assert_eq!(room_ids(&op), vec!["!b:x".to_string()]);
    assert_eq!(effects.len(), 2);
    assert!(matches!(&effects[0], Effect::ShowKickedDialog { room_name: Some(n), reason, kicker: Some(k) }
        if n == "Team" && reason == "spam" && k == "Mod"));
    assert!(matches!(&effects[1], Effect::RoomListRemove(id) if id == "!a:x"));
}

#[test]
fn leaving_the_active_room_tells_the_backend() {
    let mut op = logged_in();
    op.set_rooms(vec![joined("!a:x")], false, None);
    op.set_active_room_by_id("!a:x".to_string(), None);
    let mut left = joined("!a:x");
    left.membership = RoomMembership::Left(Reason::Unspecified);
    let effects = op.set_rooms(vec![left], false, None);
    assert!(op.rooms.is_empty());
    assert!(op.active_room.is_none());
    assert!(matches!(&effects[0], Effect::Send(Command::LeaveRoom { room, .. }) if room == "!a:x"));
    assert!(matches!(&effects[1], Effect::ClearTmpMessages));
    assert!(matches!(&effects[2], Effect::SetState(AppState::NoRoom)));
    assert!(matches!(&effects[3], Effect::RoomListRemove(id) if id == "!a:x"));
}

#[test]
fn known_room_takes_language_and_typing_users() {
    let mut op = logged_in();
    let mut r = joined("!a:x");
    r.members = vec![member("@bob:x", Some("Bob"))];
    op.set_rooms(vec![r], false, None);
    op.set_active_room_by_id("!a:x".to_string(), None);
    let mut update = joined("!a:x");
    update.language = Some("fr".to_string());
    update.typing_users = vec![member("@bob:x", None), member("@eve:x", None)];
    let effects = op.set_rooms(vec![update], false, None);
    assert_eq!(op.rooms[0].language, Some("fr".to_string()));
    assert_eq!(op.rooms[0].typing_users[0].alias, Some("Bob".to_string()));
    assert_eq!(op.rooms[0].typing_users[1].alias, None);
    assert_eq!(effects.len(), 1);
    match &effects[0] {
        Effect::TypingNotification(TypingText::Users(names)) => {
            assert_eq!(names, &vec!["Bob".to_string(), "@eve:x".to_string()]);
        },
        _ => panic!("expected a typing notification"),
    }
}

#[test]
fn rebuilding_the_room_list_reselects_and_caches() {
    let mut op = logged_in();
    op.set_rooms(vec![joined("!a:x")], false, None);
    op.set_active_room_by_id("!a:x".to_string(), None);
    let effects = op.set_rooms(vec![joined("!a:x"), joined("!c:x")], true, None);
    assert_eq!(room_ids(&op), vec!["!a:x".to_string(), "!c:x".to_string()]);
    assert!(effects.iter().any(|e| matches!(e, Effect::RoomListReplace(rs) if rs.len() == 2)));
    assert!(matches!(effects.last(), Some(Effect::CacheRooms)));
    assert!(effects.iter().any(|e| matches!(e, Effect::RoomListSelect(id) if id == "!a:x")));
    assert_eq!(op.active_room, Some("!a:x".to_string()));
}

#[test]
fn invited_room_shows_the_invitation() {
    let mut op = logged_in();
    let mut r = joined("!inv:x");
    r.membership = RoomMembership::Invited(member("@ann:x", Some("Ann")));
    r.name = Some("Party".to_string());
    r.language = Some("de".to_string());
    op.set_rooms(vec![r], false, None);
    let effects = op.set_active_room_by_id("!inv:x".to_string(), None);
    assert_eq!(op.active_room, None);
    assert_eq!(op.invitation_roomid, Some("!inv:x".to_string()));
    assert_eq!(effects.len(), 2);
    assert!(matches!(&effects[0], Effect::SetLanguage(l) if l == "de"));
    assert!(matches!(&effects[1], Effect::ShowInvitation { sender, room_name: Some(n) }
        if sender.uid == "@ann:x" && n == "Party"));
}

#[test]
fn active_room_shows_its_visible_messages_and_details() {
    let mut op = logged_in();
    let mut r = joined("!a:x");
    r.name = Some("Team".to_string());
    r.topic = Some("first\nsecond".to_string());
    r.messages = vec![message("!a:x", "hi", false), message("!a:x", "gone", true), message("!z:x", "other", false)];
    op.set_rooms(vec![r], false, None);
    let effects = op.set_active_room_by_id("!a:x".to_string(), None);
    assert_eq!(op.active_room, Some("!a:x".to_string()));
    let history = effects.iter().find_map(|e| match e {
        Effect::ShowHistory { messages, .. } => Some(messages),
        _ => None,
    });
    let history = history.expect("a history");
    assert_eq!(history.len(), 1);
    assert_eq!(history[0].body, "hi");
    assert!(effects.iter().any(|e| matches!(e, Effect::RoomNameLabel(Some(n)) if n == "Team")));
    assert!(effects.iter().any(|e| matches!(e, Effect::RoomTopicLabel(TopicLabel::Shown { tooltip, first_line })
        if tooltip == "first\nsecond" && first_line.iter().collect::<String>() == "first")));
    assert!(effects.iter().any(|e| matches!(e, Effect::Send(Command::SetRoom { room, .. }) if room == "!a:x")));
    assert!(effects.iter().any(|e| matches!(e, Effect::MessageEntryEditable(true))));
}

#[test]
fn low_power_makes_the_entry_read_only() {
    let mut op = logged_in();
    let mut r = joined("!a:x");
    r.admins = vec![PowerLevel { uid: "@me:example.org".to_string(), level: -5 }];
    op.set_rooms(vec![r], false, None);
    let effects = op.set_active_room_by_id("!a:x".to_string(), Some(("draft".to_string(), 3)));
    assert!(effects.iter().any(|e| matches!(e, Effect::MessageEntryEditable(false))));
    assert!(op.unsent_messages.is_empty());
}

#[test]
fn draft_is_kept_for_the_room_left_behind() {
    let mut op = logged_in();
    op.set_rooms(vec![joined("!a:x"), joined("!b:x")], false, None);
    op.set_active_room_by_id("!a:x".to_string(), None);
    op.set_active_room_by_id("!b:x".to_string(), Some(("half written".to_string(), 4)));
    assert_eq!(op.unsent_messages.len(), 1);
    assert_eq!(op.unsent_messages[0].room, "!a:x");
    assert_eq!(op.unsent_messages[0].text, "half written");
    assert_eq!(op.unsent_messages[0].position, 4);
    op.set_active_room_by_id("!a:x".to_string(), Some((String::new(), 0)));
    assert!(op.unsent_messages.iter().all(|u| u.room != "!b:x"));
}

#[test]
fn remove_room_drops_room_and_draft() {
    let mut op = logged_in();
    op.set_rooms(vec![joined("!a:x"), joined("!b:x")], false, None);
    op.set_active_room_by_id("!a:x".to_string(), None);
    op.set_active_room_by_id("!b:x".to_string(), Some(("x".to_string(), 1)));
    let effects = op.remove_room("!a:x".to_string());
    assert_eq!(room_ids(&op), vec!["!b:x".to_string()]);
    assert!(op.unsent_messages.is_empty());
    assert!(matches!(&effects[0], Effect::RoomListRemove(id) if id == "!a:x"));
    op.remove_room("!a:x".to_string());
    assert_eq!(room_ids(&op), vec!["!b:x".to_string()]);
}

#[test]
fn typing_is_said_at_most_every_three_seconds() {
    let mut op = logged_in();
    op.set_rooms(vec![joined("!a:x")], false, None);
    op.set_active_room_by_id("!a:x".to_string(), None);
    let first = op.send_typing(10_000_000_000);
    assert!(matches!(&first[0], Effect::Send(Command::SendTyping { room, uid, .. }) if room == "!a:x" && uid == "@me:example.org"));
    assert!(op.send_typing(12_999_999_999).is_empty());
    assert_eq!(op.send_typing(13_000_000_000).len(), 1);
    assert_eq!(op.typing.len(), 1);
    assert_eq!(op.typing[0].at, 13_000_000_000);
}

#[test]
fn typing_without_active_room_does_nothing() {
    let mut op = logged_in();
    assert!(op.send_typing(1).is_empty());
}

#[test]
fn typing_notification_texts() {
    let mut op = logged_in();
    op.set_rooms(vec![joined("!a:x")], false, None);
    op.set_active_room_by_id("!a:x".to_string(), None);
    assert!(matches!(op.update_typing_notification().as_slice(), [Effect::TypingNotification(TypingText::Nobody)]));
    op.rooms[0].typing_users =
        vec![member("@a:x", None), member("@b:x", None), member("@c:x", None)];
    assert!(matches!(op.update_typing_notification().as_slice(), [Effect::TypingNotification(TypingText::Several)]));
    op.rooms[0].typing_users = vec![member("@a:x", Some(""))];
    match op.update_typing_notification().as_slice() {
        [Effect::TypingNotification(TypingText::Users(n))] => assert_eq!(n, &vec!["@a:x".to_string()]),
        _ => panic!("expected one name"),
    }
}

#[test]
fn generated_room_names() {
    let mut op = logged_in();
    let mut r = joined("!a:x");
    r.members = vec![member("@me:example.org", None), member("@b:x", Some("Bob"))];
    op.set_rooms(vec![r], false, None);
    let id = "!a:x".to_string();
    assert!(matches!(op.recalculate_room_name(&id), Some(GeneratedName::One(n)) if n == "Bob"));
    op.rooms[0].members.push(member("@c:x", None));
    assert!(matches!(op.recalculate_room_name(&id), Some(GeneratedName::Others(a)) if a == "Bob"));
    op.rooms[0].members.push(member("@d:x", None));
    assert!(matches!(op.recalculate_room_name(&id), Some(GeneratedName::Others(a)) if a == "Bob"));
    op.rooms[0].members = vec![member("@me:example.org", None)];
    assert!(matches!(op.recalculate_room_name(&id), Some(GeneratedName::Empty)));
    op.rooms[0].name = Some("Named".to_string());
    assert!(op.recalculate_room_name(&id).is_none());
}

#[test]
fn room_name_change_reads_back() {
    let mut op = logged_in();
    op.set_rooms(vec![joined("!a:x")], false, None);
    op.set_active_room_by_id("!a:x".to_string(), None);
    let effects = op.room_name_change("!a:x".to_string(), Some("New".to_string()));
    assert_eq!(op.rooms[0].name, Some("New".to_string()));
    assert_eq!(effects.len(), 2);
    assert!(matches!(&effects[0], Effect::RoomNameLabel(Some(n)) if n == "New"));
    assert!(matches!(&effects[1], Effect::RoomListRename(id, Some(n)) if id == "!a:x" && n == "New"));
    assert!(op.room_name_change("!nope:x".to_string(), None).is_empty());
}

#[test]
fn room_topic_change_of_inactive_room() {
    let mut op = logged_in();
    op.set_rooms(vec![joined("!a:x")], false, None);
    let effects = op.room_topic_change("!a:x".to_string(), Some("About".to_string()));
    assert_eq!(op.rooms[0].topic, Some("About".to_string()));
    assert!(effects.is_empty());
}

#[test]
fn room_detail_keys() {
    let mut op = logged_in();
    op.set_rooms(vec![joined("!a:x")], false, None);
    op.set_active_room_by_id("!a:x".to_string(), None);
    let e = op.set_room_detail("!a:x".to_string(), "m.room.topic".to_string(), Some(String::new()));
    assert_eq!(op.rooms[0].topic, Some(String::new()));
    assert!(matches!(e.as_slice(), [Effect::RoomTopicLabel(TopicLabel::Hidden)]));
    let e = op.set_room_detail("!a:x".to_string(), "m.room.name".to_string(), Some("N".to_string()));
    assert_eq!(op.rooms[0].name, Some("N".to_string()));
    assert!(matches!(e.as_slice(), [Effect::RoomNameLabel(Some(n))] if n == "N"));
    let e = op.set_room_detail("!a:x".to_string(), "m.room.other".to_string(), Some("v".to_string()));
    assert!(e.is_empty());
}

#[test]
fn lost_avatar_of_two_member_room_links_the_other_member() {
    let mut op = logged_in();
    let mut r = joined("!dm:x");
    r.members = vec![member("@me:example.org", None), member("@pal:x", None)];
    r.avatar = Some("mxc://old".to_string());
    op.set_rooms(vec![r], false, None);
    let effects = op.set_room_avatar("!dm:x".to_string(), None);
    assert_eq!(op.rooms[0].avatar, None);
    assert_eq!(effects.len(), 3);
    assert!(matches!(&effects[0], Effect::DropRoomAvatarCache(id) if id == "!dm:x"));
    assert!(matches!(&effects[1], Effect::LinkRoomAvatarCache { member, room } if member == "@pal:x" && room == "!dm:x"));
    assert!(matches!(&effects[2], Effect::RoomListSetAvatar(id, None) if id == "!dm:x"));
}

#[test]
fn join_to_room_trims_and_checks_the_id() {
    let op = logged_in();
    let effects = op.join_to_room("  !abc:example.org \n".to_string());
    assert!(matches!(effects.as_slice(), [Effect::Send(Command::JoinRoom { room, .. })] if room == "!abc:example.org"));
    let effects = op.join_to_room("#alias:example.org".to_string());
    assert!(matches!(effects.as_slice(),
        [Effect::Send(Command::JoinRoomFailed(IdError::MissingLeadingSigil))]));
    let effects = op.join_to_room(" !nocolon ".to_string());
    assert!(matches!(effects.as_slice(),
        [Effect::Send(Command::JoinRoomFailed(IdError::MissingDelimiter))]));
}

#[test]
fn create_new_room_needs_a_server_name() {
    let mut op = logged_in();
    assert!(op.create_new_room("Room".to_string(), true, None).is_none());
    assert!(op.rooms.is_empty());
    let mut ld = login();
    ld.server_url = "example.org".to_string();
    let mut op = AppOp::new(Some(ld), None);
    let effects = op.create_new_room("Room".to_string(), true, None).expect("a new room");
    match &effects[0] {
        Effect::Send(Command::NewRoom { name, kind, internal_id, .. }) => {
            assert_eq!(name, "Room");
            assert!(*kind == RoomType::Private);
            assert!(internal_id.starts_with('!'));
            assert!(internal_id.ends_with(":example.org"));
            assert_eq!(internal_id.len(), 20 + "example.org".len());
            assert!(internal_id[1..19].chars().all(|c| c.is_ascii_alphanumeric()));
            assert_eq!(&internal_id[19..20], ":");
            assert_eq!(&op.rooms[0].id, internal_id);
        },
        _ => panic!("expected a NewRoom command"),
    }
    assert_eq!(op.rooms.len(), 1);
    assert_eq!(op.rooms[0].name, Some("Room".to_string()));
    assert_eq!(op.active_room, Some(op.rooms[0].id.clone()));
    assert!(matches!(effects.last(), Some(Effect::SetState(AppState::Room))));
}

#[test]
fn new_room_replaces_the_placeholder() {
    let mut op = logged_in();
    op.create_new_room_with_id("Room".to_string(), false, "!tmp:x".to_string(), None);
    let mut real = joined("!real:x");
    real.name = Some("Room".to_string());
    op.new_room(real, Some("!tmp:x".to_string()), None);
    assert_eq!(room_ids(&op), vec!["!real:x".to_string()]);
    assert_eq!(op.active_room, Some("!real:x".to_string()));
}

#[test]
fn favourite_marking_last_one_counts() {
    let mut op = logged_in();
    op.set_rooms(vec![joined("!a:x")], false, None);
    op.added_to_fav("!a:x".to_string(), true);
    assert!(matches!(op.rooms[0].membership, RoomMembership::Joined(RoomTag::Favourite)));
    op.added_to_fav("!a:x".to_string(), false);
    assert!(matches!(op.rooms[0].membership, RoomMembership::Joined(RoomTag::Untagged)));
}

#[test]
fn leave_dialog_and_room_avatar_request() {
    let mut op = logged_in();
    let mut r = joined("!a:x");
    r.name = Some("Team".to_string());
    op.set_rooms(vec![r], false, None);
    assert!(op.leave_active_room().is_empty());
    op.set_active_room_by_id("!a:x".to_string(), None);
    assert!(matches!(op.leave_active_room().as_slice(), [Effect::ShowLeaveDialog(Some(n))] if n == "Team"));
    assert!(matches!(op.new_room_avatar("!a:x".to_string()).as_slice(), [Effect::Send(Command::GetRoomAvatar { room, .. })] if room == "!a:x"));
    assert!(op.new_room_avatar("!b:x".to_string()).is_empty());
    assert!(matches!(op.reload_rooms().as_slice(), [Effect::SetState(AppState::NoRoom)]));
}

#[test]
fn really_leave_forgets_the_room() {
    let mut op = logged_in();
    op.set_rooms(vec![joined("!a:x"), joined("!b:x")], false, None);
    op.set_active_room_by_id("!a:x".to_string(), None);
    op.really_leave_active_room();
    assert_eq!(op.active_room, None);
    assert_eq!(room_ids(&op), vec!["!b:x".to_string()]);
    assert!(op.really_leave_active_room().is_empty());
}

#[test]
fn favourite_toggle_asks_the_backend() {
    let op = logged_in();
    let effects = op.room_fav_toggled("!a:x".to_string(), true);
    assert_eq!(effects.len(), 1);
    assert!(matches!(&effects[0],
        Effect::Send(Command::AddToFav { server, token, uid, room, tofav: true })
            if server == "https://matrix.example.org" && token == "tok"
                && uid == "@me:example.org" && room == "!a:x"));
    let effects = op.room_fav_toggled("!a:x".to_string(), false);
    assert!(matches!(&effects[0], Effect::Send(Command::AddToFav { tofav: false, .. })));
    let out = AppOp::new(None, None);
    assert!(out.room_fav_toggled("!a:x".to_string(), true).is_empty());
}
