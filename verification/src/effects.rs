//! What the room logic asks of the world around it: commands for the Matrix
//! backend and changes to what the window shows.

use vstd::prelude::*;

use crate::model::{
    Member, MemberView, Message, MessageView, Room, RoomView, Sticker, StickerGroup,
    StickerGroupView, StickerView,
};

verus! {

/// What the window shows as a whole.
#[derive(Clone, Copy, PartialEq, Eq, Structural)]
pub enum AppState {
    Login,
    NoRoom,
    Room,
}

/// Who may find and join a new room.
#[derive(Clone, Copy, PartialEq, Eq, Structural)]
pub enum RoomType {
    Public,
    Private,
}

/// Whether marking the last message as read is forced even when it was
/// marked already.
pub struct Force(pub bool);

/// Why an identifier was refused.
#[verifier::external_type_specification]
#[verifier::external_body]
pub struct ExIdError(ruma_identifiers::Error);

/// A command for the Matrix backend.
pub enum Command {
    GetRoomMembers { server: String, token: String, room: String },
    GetRoomAvatar { server: String, token: String, room: String },
    SetRoom { server: String, token: String, room: String },
    LeaveRoom { server: String, token: String, room: String },
    NewRoom { server: String, token: String, name: String, kind: RoomType, internal_id: String },
    JoinRoom { server: String, token: String, room: String },
    /// The room id typed by the user was refused: answer the join at once
    /// with this error.
    JoinRoomFailed(ruma_identifiers::Error),
    SendTyping { server: String, token: String, uid: String, room: String },
    /// Marks (or unmarks) a room as favourite of user `uid`.
    AddToFav { server: String, token: String, uid: String, room: String, tofav: bool },
    ListStickers,
    SendSticker { room: String, sticker: Sticker },
    PurchaseSticker(StickerGroup),
}

pub enum CommandView {
    GetRoomMembers { server: Seq<char>, token: Seq<char>, room: Seq<char> },
    GetRoomAvatar { server: Seq<char>, token: Seq<char>, room: Seq<char> },
    SetRoom { server: Seq<char>, token: Seq<char>, room: Seq<char> },
    LeaveRoom { server: Seq<char>, token: Seq<char>, room: Seq<char> },
    NewRoom {
        server: Seq<char>,
        token: Seq<char>,
        name: Seq<char>,
        kind: RoomType,
        internal_id: Seq<char>,
    },
    JoinRoom { server: Seq<char>, token: Seq<char>, room: Seq<char> },
    JoinRoomFailed(ruma_identifiers::Error),
    SendTyping { server: Seq<char>, token: Seq<char>, uid: Seq<char>, room: Seq<char> },
    AddToFav { server: Seq<char>, token: Seq<char>, uid: Seq<char>, room: Seq<char>, tofav: bool },
    ListStickers,
    SendSticker { room: Seq<char>, sticker: StickerView },
    PurchaseSticker(StickerGroupView),
}

impl View for Command {
    type V = CommandView;

    open spec fn view(&self) -> CommandView {
        match self {
            Command::GetRoomMembers { server, token, room } => CommandView::GetRoomMembers {
                server: server@,
                token: token@,
                room: room@,
            },
            Command::GetRoomAvatar { server, token, room } => CommandView::GetRoomAvatar {
                server: server@,
                token: token@,
                room: room@,
            },
            Command::SetRoom { server, token, room } => CommandView::SetRoom {
                server: server@,
                token: token@,
                room: room@,
            },
            Command::LeaveRoom { server, token, room } => CommandView::LeaveRoom {
                server: server@,
                token: token@,
                room: room@,
            },
            Command::NewRoom { server, token, name, kind, internal_id } => CommandView::NewRoom {
                server: server@,
                token: token@,
                name: name@,
                kind: *kind,
                internal_id: internal_id@,
            },
            Command::JoinRoom { server, token, room } => CommandView::JoinRoom {
                server: server@,
                token: token@,
                room: room@,
            },
            Command::JoinRoomFailed(e) => CommandView::JoinRoomFailed(*e),
            Command::SendTyping { server, token, uid, room } => CommandView::SendTyping {
                server: server@,
                token: token@,
                uid: uid@,
                room: room@,
            },
            Command::AddToFav { server, token, uid, room, tofav } => CommandView::AddToFav {
                server: server@,
                token: token@,
                uid: uid@,
                room: room@,
                tofav: *tofav,
            },
            Command::ListStickers => CommandView::ListStickers,
            Command::SendSticker { room, sticker } => CommandView::SendSticker {
                room: room@,
                sticker: sticker@,
            },
            Command::PurchaseSticker(g) => CommandView::PurchaseSticker(g@),
        }
    }
}

/// How the topic is shown under the room name: not at all, or its first line
/// with the whole topic as tooltip.
pub enum TopicLabel {
    Hidden,
    Shown { tooltip: String, first_line: Vec<char> },
}

pub enum TopicLabelView {
    Hidden,
    Shown { tooltip: Seq<char>, first_line: Seq<char> },
}

impl View for TopicLabel {
    type V = TopicLabelView;

    open spec fn view(&self) -> TopicLabelView {
        match self {
            TopicLabel::Hidden => TopicLabelView::Hidden,
            TopicLabel::Shown { tooltip, first_line } => TopicLabelView::Shown {
                tooltip: tooltip@,
                first_line: first_line@,
            },
        }
    }
}

/// What the typing notification of the active room says.
pub enum TypingText {
    /// Nobody is typing: the notification is empty.
    Nobody,
    /// More than two users are typing.
    Several,
    /// One or two users are typing, shown under these names.
    Users(Vec<String>),
}

pub enum TypingTextView {
    Nobody,
    Several,
    Users(Seq<Seq<char>>),
}

impl View for TypingText {
    type V = TypingTextView;

    open spec fn view(&self) -> TypingTextView {
        match self {
            TypingText::Nobody => TypingTextView::Nobody,
            TypingText::Several => TypingTextView::Several,
            TypingText::Users(v) => TypingTextView::Users(v.deep_view()),
        }
    }
}

/// One thing that the window or the backend is asked to do.
pub enum Effect {
    Send(Command),
    /// Tell the user that they were kicked out of a room (its name, the
    /// reason given, the alias of who kicked them).
    ShowKickedDialog { room_name: Option<String>, reason: String, kicker: Option<String> },
    RoomListRemove(String),
    RoomListAdd(Room),
    RoomListMoveUp(String),
    /// Build the room list anew with these rooms.
    RoomListReplace(Vec<Room>),
    RoomListSelect(String),
    RoomListRename(String, Option<String>),
    RoomListSetAvatar(String, Option<String>),
    SetState(AppState),
    ClearTmpMessages,
    AppendTmpMessages,
    SetLanguage(String),
    ShowInvitation { sender: Member, room_name: Option<String> },
    MessageEntryEditable(bool),
    /// Show the history of a room, made of these messages.
    ShowHistory { room: String, messages: Vec<Message> },
    /// Show this room name above the history (an absent name shows empty).
    RoomNameLabel(Option<String>),
    RoomTopicLabel(TopicLabel),
    MarkLastMessageAsRead(Force),
    TypingNotification(TypingText),
    /// Store the rooms in the on-disk cache.
    CacheRooms,
    /// Drop the cached avatar of a room.
    DropRoomAvatarCache(String),
    /// Use the cached avatar of a member as the avatar of a room.
    LinkRoomAvatarCache { member: String, room: String },
    /// Ask whether to leave the room of this name.
    ShowLeaveDialog(Option<String>),
    AddTmpMessage(Message),
    StickersLoading(bool),
}

pub enum EffectView {
    Send(CommandView),
    ShowKickedDialog {
        room_name: Option<Seq<char>>,
        reason: Seq<char>,
        kicker: Option<Seq<char>>,
    },
    RoomListRemove(Seq<char>),
    RoomListAdd(RoomView),
    RoomListMoveUp(Seq<char>),
    RoomListReplace(Seq<RoomView>),
    RoomListSelect(Seq<char>),
    RoomListRename(Seq<char>, Option<Seq<char>>),
    RoomListSetAvatar(Seq<char>, Option<Seq<char>>),
    SetState(AppState),
    ClearTmpMessages,
    AppendTmpMessages,
    SetLanguage(Seq<char>),
    ShowInvitation { sender: MemberView, room_name: Option<Seq<char>> },
    MessageEntryEditable(bool),
    ShowHistory { room: Seq<char>, messages: Seq<MessageView> },
    RoomNameLabel(Option<Seq<char>>),
    RoomTopicLabel(TopicLabelView),
    MarkLastMessageAsRead(bool),
    TypingNotification(TypingTextView),
    CacheRooms,
    DropRoomAvatarCache(Seq<char>),
    LinkRoomAvatarCache { member: Seq<char>, room: Seq<char> },
    ShowLeaveDialog(Option<Seq<char>>),
    AddTmpMessage(MessageView),
    StickersLoading(bool),
}

impl View for Effect {
    type V = EffectView;

    open spec fn view(&self) -> EffectView {
        match self {
            Effect::Send(c) => EffectView::Send(c@),
            Effect::ShowKickedDialog { room_name, reason, kicker } => EffectView::ShowKickedDialog {
                room_name: room_name.deep_view(),
                reason: reason@,
                kicker: kicker.deep_view(),
            },
            Effect::RoomListRemove(id) => EffectView::RoomListRemove(id@),
            Effect::RoomListAdd(r) => EffectView::RoomListAdd(r@),
            Effect::RoomListMoveUp(id) => EffectView::RoomListMoveUp(id@),
            Effect::RoomListReplace(rs) => EffectView::RoomListReplace(rs.deep_view()),
            Effect::RoomListSelect(id) => EffectView::RoomListSelect(id@),
            Effect::RoomListRename(id, n) => EffectView::RoomListRename(id@, n.deep_view()),
            Effect::RoomListSetAvatar(id, a) => EffectView::RoomListSetAvatar(id@, a.deep_view()),
            Effect::SetState(s) => EffectView::SetState(*s),
            Effect::ClearTmpMessages => EffectView::ClearTmpMessages,
            Effect::AppendTmpMessages => EffectView::AppendTmpMessages,
            Effect::SetLanguage(l) => EffectView::SetLanguage(l@),
            Effect::ShowInvitation { sender, room_name } => EffectView::ShowInvitation {
                sender: sender@,
                room_name: room_name.deep_view(),
            },
            Effect::MessageEntryEditable(b) => EffectView::MessageEntryEditable(*b),
            Effect::ShowHistory { room, messages } => EffectView::ShowHistory {
                room: room@,
                messages: messages.deep_view(),
            },
            Effect::RoomNameLabel(n) => EffectView::RoomNameLabel(n.deep_view()),
            Effect::RoomTopicLabel(t) => EffectView::RoomTopicLabel(t@),
            Effect::MarkLastMessageAsRead(f) => EffectView::MarkLastMessageAsRead(f.0),
            Effect::TypingNotification(t) => EffectView::TypingNotification(t@),
            Effect::CacheRooms => EffectView::CacheRooms,
            Effect::DropRoomAvatarCache(id) => EffectView::DropRoomAvatarCache(id@),
            Effect::LinkRoomAvatarCache { member, room } => EffectView::LinkRoomAvatarCache {
                member: member@,
                room: room@,
            },
            Effect::ShowLeaveDialog(n) => EffectView::ShowLeaveDialog(n.deep_view()),
            Effect::AddTmpMessage(m) => EffectView::AddTmpMessage(m@),
            Effect::StickersLoading(b) => EffectView::StickersLoading(*b),
        }
    }
}

impl DeepView for Effect {
    type V = EffectView;

    open spec fn deep_view(&self) -> EffectView {
        self@
    }
}

} // verus!
