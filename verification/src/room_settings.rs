//! The room settings panel: what it shows for a room and who may change it,
//! which new name or topic is worth sending, and the notification switch.

use vstd::prelude::*;

use crate::keyed::{first_match, lemma_first_match};
use crate::model::{Member, MemberView, PowerLevelView, Room, RoomView};

verus! {

/// The room shown in the settings panel, and the user looking at it.
pub struct RoomSettings {
    pub room: Room,
    pub uid: String,
}

/// Which page of the panel is shown first.
#[derive(Clone, Copy, PartialEq, Eq, Structural)]
pub enum SettingsPage {
    /// Nothing is known of the room yet.
    Loading,
    Info,
}

/// How the room name (or topic) is shown.
pub enum NameField {
    /// In an editable entry holding this text (an absent one shows empty).
    Edit(Option<String>),
    /// In a label holding this text (an absent one shows empty).
    Show(Option<String>),
}

pub enum NameFieldView {
    Edit(Option<Seq<char>>),
    Show(Option<Seq<char>>),
}

impl View for NameField {
    type V = NameFieldView;

    open spec fn view(&self) -> NameFieldView {
        match self {
            NameField::Edit(t) => NameFieldView::Edit(t.deep_view()),
            NameField::Show(t) => NameFieldView::Show(t.deep_view()),
        }
    }
}

/// How the room topic is shown.
pub enum TopicField {
    Hidden,
    /// In an editable entry holding this text (an absent one shows empty).
    Edit(Option<String>),
    /// In a label, as markup.
    Show(String),
}

pub enum TopicFieldView {
    Hidden,
    Edit(Option<Seq<char>>),
    Show(Seq<char>),
}

impl View for TopicField {
    type V = TopicFieldView;

    open spec fn view(&self) -> TopicFieldView {
        match self {
            TopicField::Hidden => TopicFieldView::Hidden,
            TopicField::Edit(t) => TopicFieldView::Edit(t.deep_view()),
            TopicField::Show(t) => TopicFieldView::Show(t@),
        }
    }
}

/// What the line under the room name says.
pub enum RoomDescription {
    /// A direct chat, with the user id of the other member (none shows no
    /// line).
    DirectWith(Option<String>),
    /// A room of this many members.
    Members(usize),
}

pub enum RoomDescriptionView {
    DirectWith(Option<Seq<char>>),
    Members(nat),
}

impl View for RoomDescription {
    type V = RoomDescriptionView;

    open spec fn view(&self) -> RoomDescriptionView {
        match self {
            RoomDescription::DirectWith(u) => RoomDescriptionView::DirectWith(u.deep_view()),
            RoomDescription::Members(n) => RoomDescriptionView::Members(*n as nat),
        }
    }
}

/// Everything the panel shows for a room.
pub struct SettingsLayout {
    /// The user may change the room.
    pub edit: bool,
    pub is_room: bool,
    pub is_group: bool,
    pub description: RoomDescription,
    pub name: NameField,
    pub topic: TopicField,
    pub members: usize,
    /// Which parts of the panel end up shown.
    pub show_invite: bool,
    pub show_notification_sounds: bool,
    pub show_media: bool,
    pub show_history_visibility: bool,
    pub show_room_visibility: bool,
    pub show_join: bool,
}

pub struct SettingsLayoutView {
    pub edit: bool,
    pub is_room: bool,
    pub is_group: bool,
    pub description: RoomDescriptionView,
    pub name: NameFieldView,
    pub topic: TopicFieldView,
    pub members: nat,
    pub show_invite: bool,
    pub show_notification_sounds: bool,
    pub show_media: bool,
    pub show_history_visibility: bool,
    pub show_room_visibility: bool,
    pub show_join: bool,
}

impl View for SettingsLayout {
    type V = SettingsLayoutView;

    open spec fn view(&self) -> SettingsLayoutView {
        SettingsLayoutView {
            edit: self.edit,
            is_room: self.is_room,
            is_group: self.is_group,
            description: self.description@,
            name: self.name@,
            topic: self.topic@,
            members: self.members as nat,
            show_invite: self.show_invite,
            show_notification_sounds: self.show_notification_sounds,
            show_media: self.show_media,
            show_history_visibility: self.show_history_visibility,
            show_room_visibility: self.show_room_visibility,
            show_join: self.show_join,
        }
    }
}

/// A new name (or topic) is worth sending when the room has one, a new one
/// was typed, and it is neither empty nor the current one.
pub open spec fn validated(current: Option<Seq<char>>, typed: Option<Seq<char>>) -> Option<Seq<char>> {
    match (current, typed) {
        (Some(c), Some(t)) => if t.len() > 0 && t != c {
            Some(t)
        } else {
            None
        },
        _ => None,
    }
}

fn validate(current: &Option<String>, typed: Option<String>) -> (r: Option<String>)
    ensures
        r.deep_view() == validated(current.deep_view(), typed.deep_view()),
{
    let c = match current {
        Some(c) => c,
        None => return None,
    };
    let t = match typed {
        Some(t) => t,
        None => return None,
    };
    if !t.as_str().is_empty() && !(t == *c) {
        Some(t)
    } else {
        None
    }
}

/// The power level given to user `uid`.
pub open spec fn level_of(uid: Seq<char>) -> spec_fn(PowerLevelView) -> bool {
    |p: PowerLevelView| p.uid == uid
}

/// The power level of the user in the room, 0 when none is given.
pub open spec fn settings_power(room: RoomView, uid: Seq<char>) -> int {
    let i = first_match(room.admins, level_of(uid));
    if i >= 0 {
        room.admins[i].level as int
    } else {
        0
    }
}

/// The user id of the first member other than the user.
pub open spec fn direct_partner(members: Seq<MemberView>, uid: Seq<char>) -> Option<Seq<char>> {
    let i = first_match(members, |m: MemberView| m.uid != uid);
    if i >= 0 {
        Some(members[i].uid)
    } else {
        None
    }
}

/// How the room name is shown: in an entry when the user may change it, in
/// a label otherwise.
pub open spec fn name_field_spec(text: Option<Seq<char>>, edit: bool) -> NameFieldView {
    if edit {
        NameFieldView::Edit(text)
    } else {
        NameFieldView::Show(text)
    }
}

/// How the topic is shown: only for rooms; in an entry when the user may
/// change it, as a label when there is one otherwise.
pub open spec fn topic_field_spec(text: Option<Seq<char>>, is_room: bool, edit: bool) -> TopicFieldView {
    if is_room && edit {
        TopicFieldView::Edit(text)
    } else if is_room && text is Some {
        TopicFieldView::Show(text->Some_0)
    } else {
        TopicFieldView::Hidden
    }
}

/// What the panel shows for a room. The user may change a room that is not
/// a direct chat with a power level of at least 50. A direct chat is
/// described by the other member; a room by its member count. The invite
/// button shows for rooms; the notification sounds, media, history
/// visibility, room visibility and join parts, not implemented yet, end
/// hidden whatever the user may do.
pub open spec fn layout_spec(room: RoomView, uid: Seq<char>) -> SettingsLayoutView {
    let edit = settings_power(room, uid) >= 50 && !room.direct;
    let is_room = !room.direct;
    let is_group = false;
    SettingsLayoutView {
        edit,
        is_room,
        is_group,
        description: if room.direct {
            RoomDescriptionView::DirectWith(direct_partner(room.members, uid))
        } else {
            RoomDescriptionView::Members(room.members.len())
        },
        name: name_field_spec(room.name, edit),
        topic: topic_field_spec(room.topic, is_room, edit),
        members: room.members.len(),
        show_invite: is_room || is_group,
        show_notification_sounds: false,
        show_media: false,
        show_history_visibility: false,
        show_room_visibility: false,
        show_join: false,
    }
}

/// How the notification switch is set from the room's push rules: on unless
/// the room does not notify; when they could not be read, off and locked.
pub open spec fn switch_from_pushrules_spec(rules: Option<RoomNotify>) -> (bool, bool) {
    match rules {
        Some(RoomNotify::DontNotify) => (false, true),
        Some(_) => (true, true),
        None => (false, false),
    }
}

/// How a room notifies the user.
#[derive(Clone, Copy, PartialEq, Eq, Structural)]
pub enum RoomNotify {
    All,
    DontNotify,
    NotSet,
}

/// The push rule that the notification switch sets: all messages when on,
/// none when off.
pub fn notify_for_switch(active: bool) -> (r: RoomNotify)
    ensures
        r == if active {
            RoomNotify::All
        } else {
            RoomNotify::DontNotify
        },
{
    if active {
        RoomNotify::All
    } else {
        RoomNotify::DontNotify
    }
}

/// How the notification switch is set (active, sensitive) from the room's
/// push rules, `None` when they could not be read.
pub fn switch_from_pushrules(rules: Option<RoomNotify>) -> (r: (bool, bool))
    ensures
        r == switch_from_pushrules_spec(rules),
{
    let mut active = true;
    let mut sensitive = true;
    match rules {
        Some(RoomNotify::DontNotify) => {
            active = false;
        },
        None => {
            active = false;
            sensitive = false;
        },
        _ => {},
    }
    (active, sensitive)
}

impl RoomSettings {
    /// The panel for a room, seen by user `uid`.
    pub fn new(uid: String, room: Room) -> (r: RoomSettings)
        ensures
            r.room@ == room@,
            r.uid@ == uid@,
    {
        RoomSettings { room, uid }
    }

    /// The first page: the loading page when the room has neither avatar,
    /// topic nor members yet, the information otherwise.
    pub fn create(&self) -> (r: SettingsPage)
        ensures
            r == if self.room@.avatar is None && self.room@.topic is None
                && self.room@.members.len() == 0 {
                SettingsPage::Loading
            } else {
                SettingsPage::Info
            },
    {
        if self.room.avatar.is_none() && self.room.topic.is_none() && self.room.members.len() == 0 {
            SettingsPage::Loading
        } else {
            SettingsPage::Info
        }
    }

    /// The typed room name, when it is worth sending (see `validated`).
    pub fn validate_room_name(&self, new_name: Option<String>) -> (r: Option<String>)
        ensures
            r.deep_view() == validated(self.room@.name, new_name.deep_view()),
    {
        validate(&self.room.name, new_name)
    }

    /// The typed room topic, when it is worth sending (see `validated`).
    pub fn validate_room_topic(&self, new_name: Option<String>) -> (r: Option<String>)
        ensures
            r.deep_view() == validated(self.room@.topic, new_name.deep_view()),
    {
        validate(&self.room.topic, new_name)
    }

    /// The user id of the first member other than the user.
    fn get_direct_partner_uid(&self, members: &Vec<Member>) -> (r: Option<String>)
        ensures
            r.deep_view() == direct_partner(members.deep_view(), self.uid@),
    {
        let ghost s = members.deep_view();
        let mut i: usize = 0;
        while i < members.len()
            invariant
                i <= members.len(),
                s == members.deep_view(),
                forall|j: int| 0 <= j < i ==> !(|m: MemberView| m.uid != self.uid@)(#[trigger] s[j]),
            decreases members.len() - i,
        {
            if !(members[i].uid == self.uid) {
                proof {
                    lemma_first_match(s, |m: MemberView| m.uid != self.uid@, i as int);
                }
                return Some(members[i].uid.clone());
            }
            i = i + 1;
        }
        proof {
            lemma_first_match(s, |m: MemberView| m.uid != self.uid@, i as int);
        }
        None
    }

    fn power(&self) -> (r: i32)
        ensures
            r == settings_power(self.room@, self.uid@),
    {
        let admins = &self.room.admins;
        let ghost s = admins.deep_view();
        let mut i: usize = 0;
        while i < admins.len()
            invariant
                i <= admins.len(),
                s == admins.deep_view(),
                s == self.room@.admins,
                forall|j: int| 0 <= j < i ==> !level_of(self.uid@)(#[trigger] s[j]),
            decreases admins.len() - i,
        {
            if admins[i].uid == self.uid {
                assert(s[i as int] == admins@[i as int]@);
                proof {
                    lemma_first_match(s, level_of(self.uid@), i as int);
                }
                return admins[i].level;
            }
            i = i + 1;
        }
        proof {
            lemma_first_match(s, level_of(self.uid@), i as int);
        }
        0
    }

    /// How the room name is shown (see `name_field_spec`).
    pub fn room_settings_show_room_name(&self, text: Option<String>, edit: bool) -> (r: NameField)
        ensures
            r@ == name_field_spec(text.deep_view(), edit),
    {
        if edit {
            NameField::Edit(text)
        } else {
            NameField::Show(text)
        }
    }

    /// How the topic is shown (see `topic_field_spec`).
    pub fn room_settings_show_room_topic(&self, text: Option<String>, is_room: bool, edit: bool) -> (r:
        TopicField)
        ensures
            r@ == topic_field_spec(text.deep_view(), is_room, edit),
    {
        if is_room && edit {
            TopicField::Edit(text)
        } else if is_room {
            match text {
                Some(t) => TopicField::Show(t),
                None => TopicField::Hidden,
            }
        } else {
            TopicField::Hidden
        }
    }

    /// Everything the panel shows for its room (see `layout_spec`).
    pub fn init_room_settings(&self) -> (r: SettingsLayout)
        ensures
            r@ == layout_spec(self.room@, self.uid@),
    {
        let power = self.power();
        let edit = power >= 50 && !self.room.direct;
        let is_room = !self.room.direct;
        let is_group = false;
        let description = if self.room.direct {
            RoomDescription::DirectWith(self.get_direct_partner_uid(&self.room.members))
        } else {
            RoomDescription::Members(self.room.members.len())
        };
        SettingsLayout {
            edit,
            is_room,
            is_group,
            description,
            name: self.room_settings_show_room_name(self.room.name.clone(), edit),
            topic: self.room_settings_show_room_topic(self.room.topic.clone(), is_room, edit),
            members: self.room.members.len(),
            show_invite: is_room || is_group,
            show_notification_sounds: false,
            show_media: false,
            show_history_visibility: false,
            show_room_visibility: false,
            show_join: false,
        }
    }
}

} // verus!
