//! What the client does with each answer of the Matrix backend: which
//! operation of the window each answer calls, and when the loop that
//! receives them stops.

use vstd::prelude::*;

use crate::effects::AppState;
use crate::model::{Member, Message, Room};

verus! {

/// An answer of the backend. `Ev` is the type of room member events, `P`
/// of directory protocols and `E` of backend errors.
pub enum BackendResponse<Ev, P, E> {
    ShutDown,
    /// Logged in as this user id with this access token.
    Token(String, String),
    Logout,
    Name(String),
    Avatar(String),
    /// Synced up to this batch.
    Sync(String),
    /// The rooms of a sync, and the room to show by default.
    Rooms(Vec<Room>, Option<Room>),
    NewRooms(Vec<Room>),
    /// A room detail: room id, key and value.
    RoomDetail(String, String, String),
    RoomAvatar(String, String),
    RoomMembers(Vec<Member>),
    RoomMessages(Vec<Message>),
    RoomMessagesInit(Vec<Message>),
    RoomMessagesTo(Vec<Message>),
    SendMsg,
    DirectoryProtocols(Vec<P>),
    DirectorySearch(Vec<Room>),
    JoinRoom,
    LeaveRoom,
    SetRoomName,
    SetRoomTopic,
    SetRoomAvatar,
    MarkedAsRead(String, String),
    /// Room id, notification count and highlight count.
    RoomNotifications(String, i32, i32),
    RoomName(String, String),
    RoomTopic(String, String),
    NewRoomAvatar(String),
    RoomMemberEvent(Ev),
    /// A media file was downloaded to this path.
    Media(String),
    AttachedFile(Message),
    SearchEnd,
    /// A room was created; with the internal id it had meanwhile.
    NewRoom(Room, String),
    AddedToFav(String, bool),
    UserSearch(Vec<Member>),
    NewRoomError(E, String),
    JoinRoomError(E),
    LoginError(E),
    SendMsgError(E),
    DirectoryError(E),
    SyncError(E),
    /// Any other answer, which is only logged.
    Other(E),
}

/// An error shown to the user.
#[derive(Clone, Copy, PartialEq, Eq, Structural)]
pub enum ErrorMessage {
    NoRoomsFound,
    CantCreateRoom,
    CantJoinRoom,
    CantLogin,
    CantSendMessage,
    CantSearchRooms,
}

/// Which panel shows where the room would be.
#[derive(Clone, Copy, PartialEq, Eq, Structural)]
pub enum RoomPanel {
    NoRoom,
    Room,
    Loading,
}

/// An operation of the window called for an answer of the backend.
pub enum AppCall<Ev, P> {
    BkLogin(String, String),
    Sync,
    BkLogout,
    SetUsername(Option<String>),
    SetAvatar(Option<String>),
    Synced(Option<String>),
    UpdateRooms(Vec<Room>, Option<Room>),
    NewRooms(Vec<Room>),
    SetRoomDetail(String, String, Option<String>),
    SetRoomAvatar(String, Option<String>),
    SetRoomMembers(Vec<Member>),
    ShowRoomMessages(Vec<Message>, bool),
    ShowRoomMessagesTop(Vec<Message>),
    SetProtocols(Vec<P>),
    ShowError(ErrorMessage),
    EnableDirectorySearch,
    SetDirectoryRoom(Room),
    ReloadRooms,
    ClearRoomNotifications(String),
    SetRoomNotifications(String, i32, i32),
    RoomNameChange(String, Option<String>),
    RoomTopicChange(String, Option<String>),
    NewRoomAvatar(String),
    RoomMemberEvent(Ev),
    /// Open the downloaded file with the desktop's default application.
    OpenMedia(String),
    AddTmpRoomMessage(Message),
    SearchEnd,
    NewRoom(Room, Option<String>),
    AddedToFav(String, bool),
    UserSearchFinished(Vec<Member>),
    RemoveRoom(String),
    RoomPanel(RoomPanel),
    SetState(AppState),
    SyncError,
}

/// The operations called for a directory search: an error when nothing was
/// found, then one call per room found.
pub open spec fn directory_calls<Ev, P>(rooms: Seq<Room>) -> Seq<AppCall<Ev, P>> {
    (if rooms.len() == 0 {
        seq![AppCall::ShowError(ErrorMessage::NoRoomsFound), AppCall::EnableDirectorySearch]
    } else {
        seq![]
    }) + rooms.map_values(|r: Room| AppCall::SetDirectoryRoom(r))
}

/// The operations called for an answer of the backend (other than the
/// shutdown, which calls none).
pub open spec fn response_calls<Ev, P, E>(r: BackendResponse<Ev, P, E>) -> Seq<AppCall<Ev, P>> {
    match r {
        BackendResponse::ShutDown => seq![],
        BackendResponse::Token(uid, tk) => seq![AppCall::BkLogin(uid, tk), AppCall::Sync],
        BackendResponse::Logout => seq![AppCall::BkLogout],
        BackendResponse::Name(n) => seq![AppCall::SetUsername(Some(n))],
        BackendResponse::Avatar(p) => seq![AppCall::SetAvatar(Some(p))],
        BackendResponse::Sync(s) => seq![AppCall::Synced(Some(s))],
        BackendResponse::Rooms(rooms, default) => seq![AppCall::UpdateRooms(rooms, default)],
        BackendResponse::NewRooms(rooms) => seq![AppCall::NewRooms(rooms)],
        BackendResponse::RoomDetail(room, key, value) => seq![
            AppCall::SetRoomDetail(room, key, Some(value)),
        ],
        BackendResponse::RoomAvatar(room, avatar) => seq![AppCall::SetRoomAvatar(room, Some(avatar))],
        BackendResponse::RoomMembers(members) => seq![AppCall::SetRoomMembers(members)],
        BackendResponse::RoomMessages(msgs) => seq![AppCall::ShowRoomMessages(msgs, false)],
        BackendResponse::RoomMessagesInit(msgs) => seq![AppCall::ShowRoomMessages(msgs, true)],
        BackendResponse::RoomMessagesTo(msgs) => seq![AppCall::ShowRoomMessagesTop(msgs)],
        BackendResponse::SendMsg => seq![AppCall::Sync],
        BackendResponse::DirectoryProtocols(p) => seq![AppCall::SetProtocols(p)],
        BackendResponse::DirectorySearch(rooms) => directory_calls(rooms@),
        BackendResponse::JoinRoom => seq![AppCall::ReloadRooms],
        BackendResponse::LeaveRoom => seq![],
        BackendResponse::SetRoomName => seq![],
        BackendResponse::SetRoomTopic => seq![],
        BackendResponse::SetRoomAvatar => seq![],
        BackendResponse::MarkedAsRead(r, _) => seq![AppCall::ClearRoomNotifications(r)],
        BackendResponse::RoomNotifications(r, n, h) => seq![AppCall::SetRoomNotifications(r, n, h)],
        BackendResponse::RoomName(id, name) => seq![AppCall::RoomNameChange(id, Some(name))],
        BackendResponse::RoomTopic(id, topic) => seq![AppCall::RoomTopicChange(id, Some(topic))],
        BackendResponse::NewRoomAvatar(id) => seq![AppCall::NewRoomAvatar(id)],
        BackendResponse::RoomMemberEvent(ev) => seq![AppCall::RoomMemberEvent(ev)],
        BackendResponse::Media(f) => seq![AppCall::OpenMedia(f)],
        BackendResponse::AttachedFile(m) => seq![AppCall::AddTmpRoomMessage(m)],
        BackendResponse::SearchEnd => seq![AppCall::SearchEnd],
        BackendResponse::NewRoom(r, id) => seq![AppCall::NewRoom(r, Some(id))],
        BackendResponse::AddedToFav(r, tofav) => seq![AppCall::AddedToFav(r, tofav)],
        BackendResponse::UserSearch(users) => seq![AppCall::UserSearchFinished(users)],
        BackendResponse::NewRoomError(_, id) => seq![
            AppCall::RemoveRoom(id),
            AppCall::ShowError(ErrorMessage::CantCreateRoom),
            AppCall::RoomPanel(RoomPanel::NoRoom),
        ],
        BackendResponse::JoinRoomError(_) => seq![
            AppCall::ShowError(ErrorMessage::CantJoinRoom),
            AppCall::RoomPanel(RoomPanel::NoRoom),
        ],
        BackendResponse::LoginError(_) => seq![
            AppCall::ShowError(ErrorMessage::CantLogin),
            AppCall::SetState(AppState::Login),
        ],
        BackendResponse::SendMsgError(_) => seq![AppCall::ShowError(ErrorMessage::CantSendMessage)],
        BackendResponse::DirectoryError(_) => seq![
            AppCall::ShowError(ErrorMessage::CantSearchRooms),
            AppCall::EnableDirectorySearch,
        ],
        BackendResponse::SyncError(_) => seq![AppCall::SyncError],
        BackendResponse::Other(_) => seq![],
    }
}

/// What the loop does next with what it received.
pub enum LoopStep<Ev, P> {
    /// The backend is gone: the loop ends.
    Stop,
    /// Call these operations, in order, then receive the next answer.
    Run(Vec<AppCall<Ev, P>>),
}

/// The loop that receives the answers of the backend.
pub struct BackendLoop {
    pub shutting_down: bool,
}

/// One turn of the loop, given whether it shuts down and what was received
/// (`None` when the backend is gone): whether it then shuts down, and the
/// operations to call (`None` to stop). Once shutting down, answers are
/// ignored; a shutdown answer starts it.
pub open spec fn loop_step_spec<Ev, P, E>(
    shutting_down: bool,
    received: Option<BackendResponse<Ev, P, E>>,
) -> (bool, Option<Seq<AppCall<Ev, P>>>) {
    match received {
        None => (shutting_down, None),
        Some(r) => if shutting_down {
            (true, Some(seq![]))
        } else if r is ShutDown {
            (true, Some(seq![]))
        } else {
            (false, Some(response_calls(r)))
        },
    }
}

fn directory_search_calls<Ev, P>(rooms: Vec<Room>) -> (r: Vec<AppCall<Ev, P>>)
    ensures
        r@ == directory_calls::<Ev, P>(rooms@),
{
    let ghost inp = rooms@;
    let mut calls: Vec<AppCall<Ev, P>> = Vec::new();
    if rooms.len() == 0 {
        calls.push(AppCall::ShowError(ErrorMessage::NoRoomsFound));
        calls.push(AppCall::EnableDirectorySearch);
    }
    let ghost head = calls@;
    let mut rest = rooms;
    let ghost mut k: int = 0;
    assert(inp.skip(0) =~= inp);
    assert(calls@ =~= head + inp.take(0).map_values(|r: Room| AppCall::<Ev, P>::SetDirectoryRoom(r)));
    while rest.len() > 0
        invariant
            0 <= k <= inp.len(),
            rest@ =~= inp.skip(k),
            calls@ == head + inp.take(k).map_values(|r: Room| AppCall::<Ev, P>::SetDirectoryRoom(r)),
        decreases rest.len(),
    {
        let ghost pre = rest@;
        let room = rest.remove(0);
        assert(pre.len() > 0 && k < inp.len());
        assert(pre[0] == inp.skip(k)[0]);
        calls.push(AppCall::SetDirectoryRoom(room));
        proof {
            assert(inp.take(k + 1).map_values(|r: Room| AppCall::<Ev, P>::SetDirectoryRoom(r))
                =~= inp.take(k).map_values(|r: Room| AppCall::<Ev, P>::SetDirectoryRoom(r)).push(
                AppCall::SetDirectoryRoom(inp[k]),
            ));
            assert(rest@ =~= pre.drop_first());
            assert(inp.skip(k + 1) =~= inp.skip(k).drop_first());
            k = k + 1;
        }
    }
    assert(inp.take(k) =~= inp);
    calls
}

/// The operations called for an answer of the backend (see
/// `response_calls`).
pub fn calls_for<Ev, P, E>(r: BackendResponse<Ev, P, E>) -> (calls: Vec<AppCall<Ev, P>>)
    ensures
        calls@ == response_calls(r),
{
    let mut c: Vec<AppCall<Ev, P>> = Vec::new();
    match r {
        BackendResponse::ShutDown => {},
        BackendResponse::Token(uid, tk) => {
            c.push(AppCall::BkLogin(uid, tk));
            c.push(AppCall::Sync);
        },
        BackendResponse::Logout => c.push(AppCall::BkLogout),
        BackendResponse::Name(n) => c.push(AppCall::SetUsername(Some(n))),
        BackendResponse::Avatar(p) => c.push(AppCall::SetAvatar(Some(p))),
        BackendResponse::Sync(s) => c.push(AppCall::Synced(Some(s))),
        BackendResponse::Rooms(rooms, default) => c.push(AppCall::UpdateRooms(rooms, default)),
        BackendResponse::NewRooms(rooms) => c.push(AppCall::NewRooms(rooms)),
        BackendResponse::RoomDetail(room, key, value) => c.push(
            AppCall::SetRoomDetail(room, key, Some(value)),
        ),
        BackendResponse::RoomAvatar(room, avatar) => c.push(
            AppCall::SetRoomAvatar(room, Some(avatar)),
        ),
        BackendResponse::RoomMembers(members) => c.push(AppCall::SetRoomMembers(members)),
        BackendResponse::RoomMessages(msgs) => c.push(AppCall::ShowRoomMessages(msgs, false)),
        BackendResponse::RoomMessagesInit(msgs) => c.push(AppCall::ShowRoomMessages(msgs, true)),
        BackendResponse::RoomMessagesTo(msgs) => c.push(AppCall::ShowRoomMessagesTop(msgs)),
        BackendResponse::SendMsg => c.push(AppCall::Sync),
        BackendResponse::DirectoryProtocols(p) => c.push(AppCall::SetProtocols(p)),
        BackendResponse::DirectorySearch(rooms) => {
            c = directory_search_calls(rooms);
        },
        BackendResponse::JoinRoom => c.push(AppCall::ReloadRooms),
        BackendResponse::LeaveRoom => {},
        BackendResponse::SetRoomName => {},
        BackendResponse::SetRoomTopic => {},
        BackendResponse::SetRoomAvatar => {},
        BackendResponse::MarkedAsRead(room, _) => c.push(AppCall::ClearRoomNotifications(room)),
        BackendResponse::RoomNotifications(room, n, h) => c.push(
            AppCall::SetRoomNotifications(room, n, h),
        ),
        BackendResponse::RoomName(id, name) => c.push(AppCall::RoomNameChange(id, Some(name))),
        BackendResponse::RoomTopic(id, topic) => c.push(AppCall::RoomTopicChange(id, Some(topic))),
        BackendResponse::NewRoomAvatar(id) => c.push(AppCall::NewRoomAvatar(id)),
        BackendResponse::RoomMemberEvent(ev) => c.push(AppCall::RoomMemberEvent(ev)),
        BackendResponse::Media(f) => c.push(AppCall::OpenMedia(f)),
        BackendResponse::AttachedFile(m) => c.push(AppCall::AddTmpRoomMessage(m)),
        BackendResponse::SearchEnd => c.push(AppCall::SearchEnd),
        BackendResponse::NewRoom(room, id) => c.push(AppCall::NewRoom(room, Some(id))),
        BackendResponse::AddedToFav(room, tofav) => c.push(AppCall::AddedToFav(room, tofav)),
        BackendResponse::UserSearch(users) => c.push(AppCall::UserSearchFinished(users)),
        BackendResponse::NewRoomError(_, id) => {
            c.push(AppCall::RemoveRoom(id));
            c.push(AppCall::ShowError(ErrorMessage::CantCreateRoom));
            c.push(AppCall::RoomPanel(RoomPanel::NoRoom));
        },
        BackendResponse::JoinRoomError(_) => {
            c.push(AppCall::ShowError(ErrorMessage::CantJoinRoom));
            c.push(AppCall::RoomPanel(RoomPanel::NoRoom));
        },
        BackendResponse::LoginError(_) => {
            c.push(AppCall::ShowError(ErrorMessage::CantLogin));
            c.push(AppCall::SetState(AppState::Login));
        },
        BackendResponse::SendMsgError(_) => c.push(AppCall::ShowError(ErrorMessage::CantSendMessage)),
        BackendResponse::DirectoryError(_) => {
            c.push(AppCall::ShowError(ErrorMessage::CantSearchRooms));
            c.push(AppCall::EnableDirectorySearch);
        },
        BackendResponse::SyncError(_) => c.push(AppCall::SyncError),
        BackendResponse::Other(_) => {},
    }
    assert(c@ =~= response_calls(r));
    c
}

impl BackendLoop {
    /// A loop that does not shut down yet.
    pub fn new() -> (r: BackendLoop)
        ensures
            !r.shutting_down,
    {
        BackendLoop { shutting_down: false }
    }

    /// One turn of the loop (see `loop_step_spec`).
    pub fn step<Ev, P, E>(&mut self, received: Option<BackendResponse<Ev, P, E>>) -> (r: LoopStep<
        Ev,
        P,
    >)
        ensures
            final(self).shutting_down == loop_step_spec(old(self).shutting_down, received).0,
            match loop_step_spec(old(self).shutting_down, received).1 {
                None => r is Stop,
                Some(calls) => r matches LoopStep::Run(c) && c@ == calls,
            },
    {
        let r = match received {
            None => return LoopStep::Stop,
            Some(r) => r,
        };
        if self.shutting_down {
            let c: Vec<AppCall<Ev, P>> = Vec::new();
            assert(c@ =~= Seq::<AppCall<Ev, P>>::empty());
            return LoopStep::Run(c);
        }
        if let BackendResponse::ShutDown = r {
            self.shutting_down = true;
            let c: Vec<AppCall<Ev, P>> = Vec::new();
            assert(c@ =~= Seq::<AppCall<Ev, P>>::empty());
            return LoopStep::Run(c);
        }
        LoopStep::Run(calls_for(r))
    }
}

} // verus!
