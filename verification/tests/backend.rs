use fractal::backend_loop::{AppCall, BackendLoop, BackendResponse, ErrorMessage, LoopStep, RoomPanel};
use fractal::effects::AppState;
use fractal::model::{Room, RoomMembership, RoomTag};

type Response = BackendResponse<u32, String, String>;

fn calls(l: &mut BackendLoop, r: Response) -> Vec<AppCall<u32, String>> {
    match l.step(Some(r)) {
        LoopStep::Run(c) => c,
        LoopStep::Stop => panic!("unexpected stop"),
    }
}

fn room(id: &str) -> Room {
    Room::new(id.to_string(), RoomMembership::Joined(RoomTag::Untagged))
}

#[test]
fn login_token_logs_in_and_syncs() {
    let mut l = BackendLoop::new();
    let c = calls(&mut l, BackendResponse::Token("@me:x".to_string(), "tk".to_string()));
    assert_eq!(c.len(), 2);
    assert!(matches!(&c[0], AppCall::BkLogin(u, t) if u == "@me:x" && t == "tk"));
    assert!(matches!(&c[1], AppCall::Sync));
}

#[test]
fn empty_directory_search_shows_an_error() {
    let mut l = BackendLoop::new();
    let c = calls(&mut l, BackendResponse::DirectorySearch(Vec::new()));
    assert!(matches!(c.as_slice(), [AppCall::ShowError(ErrorMessage::NoRoomsFound), AppCall::EnableDirectorySearch]));
    let c = calls(&mut l, BackendResponse::DirectorySearch(vec![room("!a:x"), room("!b:x")]));
    assert!(matches!(c.as_slice(), [AppCall::SetDirectoryRoom(a), AppCall::SetDirectoryRoom(b)] if a.id == "!a:x" && b.id == "!b:x"));
}

#[test]
fn error_answers() {
    let mut l = BackendLoop::new();
    let c = calls(&mut l, BackendResponse::NewRoomError("e".to_string(), "!tmp:x".to_string()));
    assert!(matches!(c.as_slice(), [AppCall::RemoveRoom(id), AppCall::ShowError(ErrorMessage::CantCreateRoom), AppCall::RoomPanel(RoomPanel::NoRoom)] if id == "!tmp:x"));
    let c = calls(&mut l, BackendResponse::JoinRoomError("e".to_string()));
    assert!(matches!(c.as_slice(), [AppCall::ShowError(ErrorMessage::CantJoinRoom), AppCall::RoomPanel(RoomPanel::NoRoom)]));
    let c = calls(&mut l, BackendResponse::LoginError("e".to_string()));
    assert!(matches!(c.as_slice(), [AppCall::ShowError(ErrorMessage::CantLogin), AppCall::SetState(AppState::Login)]));
    let c = calls(&mut l, BackendResponse::SendMsgError("e".to_string()));
    assert!(matches!(c.as_slice(), [AppCall::ShowError(ErrorMessage::CantSendMessage)]));
    let c = calls(&mut l, BackendResponse::DirectoryError("e".to_string()));
    assert!(matches!(c.as_slice(), [AppCall::ShowError(ErrorMessage::CantSearchRooms), AppCall::EnableDirectorySearch]));
    let c = calls(&mut l, BackendResponse::SyncError("e".to_string()));
    assert!(matches!(c.as_slice(), [AppCall::SyncError]));
    assert!(calls(&mut l, BackendResponse::Other("e".to_string())).is_empty());
}

#[test]
fn details_are_passed_on() {
    let mut l = BackendLoop::new();
    let c = calls(&mut l, BackendResponse::RoomDetail("!a:x".to_string(), "m.room.name".to_string(), "N".to_string()));
    assert!(matches!(c.as_slice(), [AppCall::SetRoomDetail(r, k, Some(v))] if r == "!a:x" && k == "m.room.name" && v == "N"));
    let c = calls(&mut l, BackendResponse::RoomMessagesInit(Vec::new()));
    assert!(matches!(c.as_slice(), [AppCall::ShowRoomMessages(m, true)] if m.is_empty()));
    let c = calls(&mut l, BackendResponse::JoinRoom);
    assert!(matches!(c.as_slice(), [AppCall::ReloadRooms]));
    let c = calls(&mut l, BackendResponse::NewRoom(room("!n:x"), "!tmp:x".to_string()));
    assert!(matches!(c.as_slice(), [AppCall::NewRoom(r, Some(id))] if r.id == "!n:x" && id == "!tmp:x"));
    assert!(calls(&mut l, BackendResponse::LeaveRoom).is_empty());
}

#[test]
fn after_shutdown_answers_are_ignored() {
    let mut l = BackendLoop::new();
    assert!(calls(&mut l, BackendResponse::ShutDown).is_empty());
    assert!(l.shutting_down);
    assert!(calls(&mut l, BackendResponse::SendMsg).is_empty());
    assert!(calls(&mut l, BackendResponse::Token("u".to_string(), "t".to_string())).is_empty());
    assert!(l.shutting_down);
}

#[test]
fn closed_backend_stops_the_loop() {
    let mut l = BackendLoop::new();
    assert!(matches!(l.step(None::<Response>), LoopStep::Stop));
    let mut l = BackendLoop::new();
    calls(&mut l, BackendResponse::ShutDown);
    assert!(matches!(l.step(None::<Response>), LoopStep::Stop));
}

#[test]
fn nothing_is_dispatched_after_a_shutdown() {
    let mut l = BackendLoop::new();
    let answers: Vec<Response> = vec![
        BackendResponse::JoinRoom,
        BackendResponse::SearchEnd,
        BackendResponse::ShutDown,
        BackendResponse::JoinRoom,
        BackendResponse::SearchEnd,
    ];
    let mut all: Vec<AppCall<u32, String>> = Vec::new();
    for a in answers {
        all.extend(calls(&mut l, a));
    }
    assert!(matches!(all.as_slice(), [AppCall::ReloadRooms, AppCall::SearchEnd]));
    assert!(matches!(l.step(None::<Response>), LoopStep::Stop));
}
