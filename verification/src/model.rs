//! Plain-value model of rooms, members, messages and stickers, with the
//! mathematical view of each (strings as `Seq<char>`, vectors as `Seq`).

use vstd::prelude::*;

verus! {

/// A tag that a joined room carries in the room list.
pub enum RoomTag {
    Untagged,
    Favourite,
    LowPriority,
    Custom(String),
}

pub enum RoomTagView {
    Untagged,
    Favourite,
    LowPriority,
    Custom(Seq<char>),
}

impl View for RoomTag {
    type V = RoomTagView;

    open spec fn view(&self) -> RoomTagView {
        match self {
            RoomTag::Untagged => RoomTagView::Untagged,
            RoomTag::Favourite => RoomTagView::Favourite,
            RoomTag::LowPriority => RoomTagView::LowPriority,
            RoomTag::Custom(s) => RoomTagView::Custom(s@),
        }
    }
}

impl Clone for RoomTag {
    fn clone(&self) -> (r: Self)
        ensures
            r == *self,
    {
        match self {
            RoomTag::Untagged => RoomTag::Untagged,
            RoomTag::Favourite => RoomTag::Favourite,
            RoomTag::LowPriority => RoomTag::LowPriority,
            RoomTag::Custom(s) => RoomTag::Custom(s.clone()),
        }
    }
}

/// A member of a room.
pub struct Member {
    pub uid: String,
    pub alias: Option<String>,
    pub avatar: Option<String>,
}

pub struct MemberView {
    pub uid: Seq<char>,
    pub alias: Option<Seq<char>>,
    pub avatar: Option<Seq<char>>,
}

impl View for Member {
    type V = MemberView;

    open spec fn view(&self) -> MemberView {
        MemberView {
            uid: self.uid@,
            alias: self.alias.deep_view(),
            avatar: self.avatar.deep_view(),
        }
    }
}

impl DeepView for Member {
    type V = MemberView;

    open spec fn deep_view(&self) -> MemberView {
        self@
    }
}

impl Clone for Member {
    fn clone(&self) -> (r: Self)
        ensures
            r == *self,
    {
        Member { uid: self.uid.clone(), alias: self.alias.clone(), avatar: self.avatar.clone() }
    }
}

/// The name under which a member is shown: its alias when it has a non-empty
/// one, its user id otherwise.
pub open spec fn alias_of(m: MemberView) -> Seq<char> {
    match m.alias {
        Some(a) => if a.len() > 0 {
            a
        } else {
            m.uid
        },
        None => m.uid,
    }
}

impl Member {
    /// The name under which this member is shown.
    pub fn get_alias(&self) -> (r: String)
        ensures
            r@ == alias_of(self@),
    {
        match &self.alias {
            Some(a) => {
                if !a.as_str().is_empty() {
                    a.clone()
                } else {
                    self.uid.clone()
                }
            },
            None => self.uid.clone(),
        }
    }
}

/// Why a room was left.
pub enum Reason {
    Unspecified,
    /// Kicked, with the reason given and the member who kicked.
    Kicked(String, Member),
}

pub enum ReasonView {
    Unspecified,
    Kicked(Seq<char>, MemberView),
}

impl View for Reason {
    type V = ReasonView;

    open spec fn view(&self) -> ReasonView {
        match self {
            Reason::Unspecified => ReasonView::Unspecified,
            Reason::Kicked(r, m) => ReasonView::Kicked(r@, m@),
        }
    }
}

impl Clone for Reason {
    fn clone(&self) -> (r: Self)
        ensures
            r == *self,
    {
        match self {
            Reason::Unspecified => Reason::Unspecified,
            Reason::Kicked(r, m) => Reason::Kicked(r.clone(), m.clone()),
        }
    }
}

/// How the user stands in a room.
pub enum RoomMembership {
    Unknown,
    Joined(RoomTag),
    /// Invited by the given member.
    Invited(Member),
    Left(Reason),
}

pub enum RoomMembershipView {
    Unknown,
    Joined(RoomTagView),
    Invited(MemberView),
    Left(ReasonView),
}

impl View for RoomMembership {
    type V = RoomMembershipView;

    open spec fn view(&self) -> RoomMembershipView {
        match self {
            RoomMembership::Unknown => RoomMembershipView::Unknown,
            RoomMembership::Joined(t) => RoomMembershipView::Joined(t@),
            RoomMembership::Invited(m) => RoomMembershipView::Invited(m@),
            RoomMembership::Left(r) => RoomMembershipView::Left(r@),
        }
    }
}

impl Clone for RoomMembership {
    fn clone(&self) -> (r: Self)
        ensures
            r == *self,
    {
        match self {
            RoomMembership::Unknown => RoomMembership::Unknown,
            RoomMembership::Joined(t) => RoomMembership::Joined(t.clone()),
            RoomMembership::Invited(m) => RoomMembership::Invited(m.clone()),
            RoomMembership::Left(r) => RoomMembership::Left(r.clone()),
        }
    }
}

/// The power level of one member of a room.
pub struct PowerLevel {
    pub uid: String,
    pub level: i32,
}

pub struct PowerLevelView {
    pub uid: Seq<char>,
    pub level: i32,
}

impl View for PowerLevel {
    type V = PowerLevelView;

    open spec fn view(&self) -> PowerLevelView {
        PowerLevelView { uid: self.uid@, level: self.level }
    }
}

impl DeepView for PowerLevel {
    type V = PowerLevelView;

    open spec fn deep_view(&self) -> PowerLevelView {
        self@
    }
}

impl Clone for PowerLevel {
    fn clone(&self) -> (r: Self)
        ensures
            r == *self,
    {
        PowerLevel { uid: self.uid.clone(), level: self.level }
    }
}

/// A message of a room. `date` is a timestamp in milliseconds.
pub struct Message {
    pub sender: String,
    pub mtype: String,
    pub date: i64,
    pub room: String,
    pub id: Option<String>,
    pub body: String,
    pub url: Option<String>,
    pub thumb: Option<String>,
    pub formatted_body: Option<String>,
    pub format: Option<String>,
    pub source: Option<String>,
    pub redacted: bool,
    pub in_reply_to: Option<String>,
}

pub struct MessageView {
    pub sender: Seq<char>,
    pub mtype: Seq<char>,
    pub date: i64,
    pub room: Seq<char>,
    pub id: Option<Seq<char>>,
    pub body: Seq<char>,
    pub url: Option<Seq<char>>,
    pub thumb: Option<Seq<char>>,
    pub formatted_body: Option<Seq<char>>,
    pub format: Option<Seq<char>>,
    pub source: Option<Seq<char>>,
    pub redacted: bool,
    pub in_reply_to: Option<Seq<char>>,
}

impl View for Message {
    type V = MessageView;

    open spec fn view(&self) -> MessageView {
        MessageView {
            sender: self.sender@,
            mtype: self.mtype@,
            date: self.date,
            room: self.room@,
            id: self.id.deep_view(),
            body: self.body@,
            url: self.url.deep_view(),
            thumb: self.thumb.deep_view(),
            formatted_body: self.formatted_body.deep_view(),
            format: self.format.deep_view(),
            source: self.source.deep_view(),
            redacted: self.redacted,
            in_reply_to: self.in_reply_to.deep_view(),
        }
    }
}

impl DeepView for Message {
    type V = MessageView;

    open spec fn deep_view(&self) -> MessageView {
        self@
    }
}

impl Clone for Message {
    fn clone(&self) -> (r: Self)
        ensures
            r == *self,
    {
        Message {
            sender: self.sender.clone(),
            mtype: self.mtype.clone(),
            date: self.date,
            room: self.room.clone(),
            id: self.id.clone(),
            body: self.body.clone(),
            url: self.url.clone(),
            thumb: self.thumb.clone(),
            formatted_body: self.formatted_body.clone(),
            format: self.format.clone(),
            source: self.source.clone(),
            redacted: self.redacted,
            in_reply_to: self.in_reply_to.clone(),
        }
    }
}

/// A room as the client knows it.
pub struct Room {
    pub id: String,
    pub name: Option<String>,
    pub avatar: Option<String>,
    pub topic: Option<String>,
    pub language: Option<String>,
    pub membership: RoomMembership,
    pub direct: bool,
    pub members: Vec<Member>,
    pub typing_users: Vec<Member>,
    pub admins: Vec<PowerLevel>,
    pub default_power_level: i32,
    pub messages: Vec<Message>,
}

pub struct RoomView {
    pub id: Seq<char>,
    pub name: Option<Seq<char>>,
    pub avatar: Option<Seq<char>>,
    pub topic: Option<Seq<char>>,
    pub language: Option<Seq<char>>,
    pub membership: RoomMembershipView,
    pub direct: bool,
    pub members: Seq<MemberView>,
    pub typing_users: Seq<MemberView>,
    pub admins: Seq<PowerLevelView>,
    pub default_power_level: i32,
    pub messages: Seq<MessageView>,
}

impl View for Room {
    type V = RoomView;

    open spec fn view(&self) -> RoomView {
        RoomView {
            id: self.id@,
            name: self.name.deep_view(),
            avatar: self.avatar.deep_view(),
            topic: self.topic.deep_view(),
            language: self.language.deep_view(),
            membership: self.membership@,
            direct: self.direct,
            members: self.members.deep_view(),
            typing_users: self.typing_users.deep_view(),
            admins: self.admins.deep_view(),
            default_power_level: self.default_power_level,
            messages: self.messages.deep_view(),
        }
    }
}

impl DeepView for Room {
    type V = RoomView;

    open spec fn deep_view(&self) -> RoomView {
        self@
    }
}

impl Clone for Room {
    fn clone(&self) -> (r: Self)
        ensures
            r@ == self@,
    {
        let r = Room {
            id: self.id.clone(),
            name: self.name.clone(),
            avatar: self.avatar.clone(),
            topic: self.topic.clone(),
            language: self.language.clone(),
            membership: self.membership.clone(),
            direct: self.direct,
            members: self.members.clone(),
            typing_users: self.typing_users.clone(),
            admins: self.admins.clone(),
            default_power_level: self.default_power_level,
            messages: self.messages.clone(),
        };
        assert(r.members.deep_view() =~= self.members.deep_view());
        assert(r.typing_users.deep_view() =~= self.typing_users.deep_view());
        assert(r.admins.deep_view() =~= self.admins.deep_view());
        assert(r.messages.deep_view() =~= self.messages.deep_view());
        r
    }
}

/// A room with nothing known of it but its id and how the user stands in it.
pub open spec fn fresh_room(id: Seq<char>, membership: RoomMembershipView) -> RoomView {
    RoomView {
        id: id,
        name: None,
        avatar: None,
        topic: None,
        language: None,
        membership: membership,
        direct: false,
        members: Seq::empty(),
        typing_users: Seq::empty(),
        admins: Seq::empty(),
        default_power_level: -1i32,
        messages: Seq::empty(),
    }
}

impl Room {
    /// A room with nothing known of it but its id and how the user stands in it.
    pub fn new(id: String, membership: RoomMembership) -> (r: Room)
        ensures
            r@ == fresh_room(id@, membership@),
    {
        let r = Room {
            id,
            name: None,
            avatar: None,
            topic: None,
            language: None,
            membership,
            direct: false,
            members: Vec::new(),
            typing_users: Vec::new(),
            admins: Vec::new(),
            default_power_level: -1,
            messages: Vec::new(),
        };
        assert(r.members.deep_view() =~= Seq::<MemberView>::empty());
        assert(r.typing_users.deep_view() =~= Seq::<MemberView>::empty());
        assert(r.admins.deep_view() =~= Seq::<PowerLevelView>::empty());
        assert(r.messages.deep_view() =~= Seq::<MessageView>::empty());
        r
    }
}

/// One sticker of a sticker group. `size` is (width, height).
pub struct Sticker {
    pub name: String,
    pub description: String,
    pub body: String,
    pub thumbnail: String,
    pub url: String,
    pub size: (i32, i32),
}

pub struct StickerView {
    pub name: Seq<char>,
    pub description: Seq<char>,
    pub body: Seq<char>,
    pub thumbnail: Seq<char>,
    pub url: Seq<char>,
    pub size: (i32, i32),
}

impl View for Sticker {
    type V = StickerView;

    open spec fn view(&self) -> StickerView {
        StickerView {
            name: self.name@,
            description: self.description@,
            body: self.body@,
            thumbnail: self.thumbnail@,
            url: self.url@,
            size: self.size,
        }
    }
}

impl DeepView for Sticker {
    type V = StickerView;

    open spec fn deep_view(&self) -> StickerView {
        self@
    }
}

impl Clone for Sticker {
    fn clone(&self) -> (r: Self)
        ensures
            r == *self,
    {
        Sticker {
            name: self.name.clone(),
            description: self.description.clone(),
            body: self.body.clone(),
            thumbnail: self.thumbnail.clone(),
            url: self.url.clone(),
            size: self.size,
        }
    }
}

/// A group of stickers that can be bought as a whole.
pub struct StickerGroup {
    pub key: String,
    pub name: String,
    pub description: String,
    pub price: i64,
    pub purchased: bool,
    pub thumbnail: String,
    pub stickers: Vec<Sticker>,
}

pub struct StickerGroupView {
    pub key: Seq<char>,
    pub name: Seq<char>,
    pub description: Seq<char>,
    pub price: i64,
    pub purchased: bool,
    pub thumbnail: Seq<char>,
    pub stickers: Seq<StickerView>,
}

impl View for StickerGroup {
    type V = StickerGroupView;

    open spec fn view(&self) -> StickerGroupView {
        StickerGroupView {
            key: self.key@,
            name: self.name@,
            description: self.description@,
            price: self.price,
            purchased: self.purchased,
            thumbnail: self.thumbnail@,
            stickers: self.stickers.deep_view(),
        }
    }
}

impl DeepView for StickerGroup {
    type V = StickerGroupView;

    open spec fn deep_view(&self) -> StickerGroupView {
        self@
    }
}

impl Clone for StickerGroup {
    fn clone(&self) -> (r: Self)
        ensures
            r@ == self@,
    {
        let r = StickerGroup {
            key: self.key.clone(),
            name: self.name.clone(),
            description: self.description.clone(),
            price: self.price,
            purchased: self.purchased,
            thumbnail: self.thumbnail.clone(),
            stickers: self.stickers.clone(),
        };
        assert(r.stickers.deep_view() =~= self.stickers.deep_view());
        r
    }
}

/// What the client knows of the logged-in session.
pub struct LoginData {
    pub server_url: String,
    pub access_token: String,
    pub uid: String,
    pub username: Option<String>,
}

pub struct LoginDataView {
    pub server_url: Seq<char>,
    pub access_token: Seq<char>,
    pub uid: Seq<char>,
    pub username: Option<Seq<char>>,
}

impl View for LoginData {
    type V = LoginDataView;

    open spec fn view(&self) -> LoginDataView {
        LoginDataView {
            server_url: self.server_url@,
            access_token: self.access_token@,
            uid: self.uid@,
            username: self.username.deep_view(),
        }
    }
}

impl Clone for LoginData {
    fn clone(&self) -> (r: Self)
        ensures
            r == *self,
    {
        LoginData {
            server_url: self.server_url.clone(),
            access_token: self.access_token.clone(),
            uid: self.uid.clone(),
            username: self.username.clone(),
        }
    }
}

} // verus!
