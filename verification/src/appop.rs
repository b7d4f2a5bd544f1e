//! The room store of the client and what each room operation does to it:
//! which rooms it holds, which one is active, the drafts left in other rooms
//! and when the user last said that they were typing.

use vstd::prelude::*;

use crate::effects::{
    AppState, Command, CommandView, Effect, EffectView, TopicLabel, TopicLabelView, TypingText,
    TypingTextView,
};
use crate::keyed::{
    first_match, lemma_filter_unique, lemma_first_match, lemma_first_match_bounds,
    lemma_push_unique, lemma_update_unique, unique_by,
};
use crate::model::{
    alias_of, LoginData, LoginDataView, Member, MemberView, Message, MessageView, PowerLevel,
    PowerLevelView, Reason, ReasonView, Room, RoomMembership, RoomMembershipView, RoomView,
    StickerGroup, StickerGroupView,
};
use crate::effects::Force;
use crate::ids::{is_new_room_id, is_room_id, is_server_name, room_id_error, new_room_id, parse_room_id, trim, trimmed};
use crate::model::{fresh_room, RoomTag, RoomTagView};
use crate::effects::RoomType;
use crate::text::chars_of;

verus! {

/// A draft left in the message entry of a room, with the cursor position.
pub struct UnsentMessage {
    pub room: String,
    pub text: String,
    pub position: i32,
}

pub struct UnsentMessageView {
    pub room: Seq<char>,
    pub text: Seq<char>,
    pub position: i32,
}

impl View for UnsentMessage {
    type V = UnsentMessageView;

    open spec fn view(&self) -> UnsentMessageView {
        UnsentMessageView { room: self.room@, text: self.text@, position: self.position }
    }
}

impl DeepView for UnsentMessage {
    type V = UnsentMessageView;

    open spec fn deep_view(&self) -> UnsentMessageView {
        self@
    }
}

/// When the user last said, in a room, that they were typing (nanoseconds of
/// a monotonic clock).
pub struct TypingMark {
    pub room: String,
    pub at: u64,
}

pub struct TypingMarkView {
    pub room: Seq<char>,
    pub at: u64,
}

impl View for TypingMark {
    type V = TypingMarkView;

    open spec fn view(&self) -> TypingMarkView {
        TypingMarkView { room: self.room@, at: self.at }
    }
}

impl DeepView for TypingMark {
    type V = TypingMarkView;

    open spec fn deep_view(&self) -> TypingMarkView {
        self@
    }
}

/// The state of the client that its room operations read and change.
pub struct AppOp {
    pub login_data: Option<LoginData>,
    pub rooms: Vec<Room>,
    pub active_room: Option<String>,
    pub unsent_messages: Vec<UnsentMessage>,
    pub typing: Vec<TypingMark>,
    pub invitation_roomid: Option<String>,
    pub stickers: Vec<StickerGroup>,
    pub uid: Option<String>,
}

pub struct AppOpView {
    pub login_data: Option<LoginDataView>,
    pub rooms: Seq<RoomView>,
    pub active_room: Option<Seq<char>>,
    pub unsent_messages: Seq<UnsentMessageView>,
    pub typing: Seq<TypingMarkView>,
    pub invitation_roomid: Option<Seq<char>>,
    pub stickers: Seq<StickerGroupView>,
    pub uid: Option<Seq<char>>,
}

pub open spec fn login_view(l: Option<LoginData>) -> Option<LoginDataView> {
    match l {
        Some(d) => Some(d@),
        None => None,
    }
}

impl View for AppOp {
    type V = AppOpView;

    open spec fn view(&self) -> AppOpView {
        AppOpView {
            login_data: login_view(self.login_data),
            rooms: self.rooms.deep_view(),
            active_room: self.active_room.deep_view(),
            unsent_messages: self.unsent_messages.deep_view(),
            typing: self.typing.deep_view(),
            invitation_roomid: self.invitation_roomid.deep_view(),
            stickers: self.stickers.deep_view(),
            uid: self.uid.deep_view(),
        }
    }
}

pub open spec fn room_key() -> spec_fn(RoomView) -> Seq<char> {
    |r: RoomView| r.id
}

pub open spec fn unsent_key() -> spec_fn(UnsentMessageView) -> Seq<char> {
    |u: UnsentMessageView| u.room
}

pub open spec fn typing_key() -> spec_fn(TypingMarkView) -> Seq<char> {
    |t: TypingMarkView| t.room
}

impl AppOpView {
    /// No two rooms, drafts or typing marks are kept for the same room.
    pub open spec fn wf(self) -> bool {
        &&& unique_by(self.rooms, room_key())
        &&& unique_by(self.unsent_messages, unsent_key())
        &&& unique_by(self.typing, typing_key())
    }
}

pub open spec fn is_room(id: Seq<char>) -> spec_fn(RoomView) -> bool {
    |r: RoomView| r.id == id
}

pub open spec fn is_not_room(id: Seq<char>) -> spec_fn(RoomView) -> bool {
    |r: RoomView| r.id != id
}

pub open spec fn is_draft_of(id: Seq<char>) -> spec_fn(UnsentMessageView) -> bool {
    |u: UnsentMessageView| u.room == id
}

pub open spec fn is_not_draft_of(id: Seq<char>) -> spec_fn(UnsentMessageView) -> bool {
    |u: UnsentMessageView| u.room != id
}

pub open spec fn is_mark_of(id: Seq<char>) -> spec_fn(TypingMarkView) -> bool {
    |t: TypingMarkView| t.room == id
}

/// Where the room of this id is kept, or -1.
pub open spec fn room_index(rooms: Seq<RoomView>, id: Seq<char>) -> int {
    first_match(rooms, is_room(id))
}

/// Where the room of this id is kept, if it is.
pub fn find_room(rooms: &Vec<Room>, id: &String) -> (r: Option<usize>)
    ensures
        match r {
            Some(i) => i < rooms.len() && i as int == room_index(rooms.deep_view(), id@),
            None => room_index(rooms.deep_view(), id@) == -1,
        },
{
    let ghost s = rooms.deep_view();
    let mut i: usize = 0;
    while i < rooms.len()
        invariant
            i <= rooms.len(),
            s == rooms.deep_view(),
            forall|j: int| 0 <= j < i ==> !is_room(id@)(#[trigger] s[j]),
        decreases rooms.len() - i,
    {
        if rooms[i].id == *id {
            proof {
                lemma_first_match(s, is_room(id@), i as int);
            }
            return Some(i);
        }
        i = i + 1;
    }
    proof {
        lemma_first_match(s, is_room(id@), i as int);
    }
    None
}

/// The rooms but the one of this id.
fn without_room(rooms: Vec<Room>, id: &String) -> (r: Vec<Room>)
    ensures
        r.deep_view() == rooms.deep_view().filter(is_not_room(id@)),
{
    let ghost inp = rooms.deep_view();
    let mut rest = rooms;
    let mut out: Vec<Room> = Vec::new();
    let ghost mut k: int = 0;
    assert(inp.skip(0) =~= inp);
    assert(inp.take(0).filter(is_not_room(id@)) =~= Seq::<RoomView>::empty()) by {
        reveal(Seq::filter);
    }
    assert(out.deep_view() =~= Seq::<RoomView>::empty());
    while rest.len() > 0
        invariant
            0 <= k <= inp.len(),
            rest.deep_view() =~= inp.skip(k),
            out.deep_view() == inp.take(k).filter(is_not_room(id@)),
        decreases rest.len(),
    {
        let ghost pre = rest.deep_view();
        let x = rest.remove(0);
        assert(pre.len() > 0 && k < inp.len());
        assert(pre[0] == inp.skip(k)[0]);
        assert(x@ == inp[k]);
        assert(rest.deep_view() =~= pre.drop_first());
        let ghost old_out = out.deep_view();
        if x.id != *id {
            out.push(x);
            assert(out.deep_view() =~= old_out.push(inp[k]));
        }
        proof {
            inp.take(k).lemma_filter_push(inp[k], is_not_room(id@));
            assert(inp.take(k + 1) =~= inp.take(k).push(inp[k]));
            assert(inp.skip(k + 1) =~= inp.skip(k).drop_first());
            k = k + 1;
        }
    }
    assert(inp.take(k) =~= inp);
    out
}

/// The drafts but the one of this room.
fn without_draft(drafts: Vec<UnsentMessage>, id: &String) -> (r: Vec<UnsentMessage>)
    ensures
        r.deep_view() == drafts.deep_view().filter(is_not_draft_of(id@)),
{
    let ghost inp = drafts.deep_view();
    let mut rest = drafts;
    let mut out: Vec<UnsentMessage> = Vec::new();
    let ghost mut k: int = 0;
    assert(inp.skip(0) =~= inp);
    assert(inp.take(0).filter(is_not_draft_of(id@)) =~= Seq::<UnsentMessageView>::empty()) by {
        reveal(Seq::filter);
    }
    assert(out.deep_view() =~= Seq::<UnsentMessageView>::empty());
    while rest.len() > 0
        invariant
            0 <= k <= inp.len(),
            rest.deep_view() =~= inp.skip(k),
            out.deep_view() == inp.take(k).filter(is_not_draft_of(id@)),
        decreases rest.len(),
    {
        let ghost pre = rest.deep_view();
        let x = rest.remove(0);
        assert(pre.len() > 0 && k < inp.len());
        assert(pre[0] == inp.skip(k)[0]);
        assert(x@ == inp[k]);
        assert(rest.deep_view() =~= pre.drop_first());
        let ghost old_out = out.deep_view();
        if x.room != *id {
            out.push(x);
            assert(out.deep_view() =~= old_out.push(inp[k]));
        }
        proof {
            inp.take(k).lemma_filter_push(inp[k], is_not_draft_of(id@));
            assert(inp.take(k + 1) =~= inp.take(k).push(inp[k]));
            assert(inp.skip(k + 1) =~= inp.skip(k).drop_first());
            k = k + 1;
        }
    }
    assert(inp.take(k) =~= inp);
    out
}

/// What removing a room does: the room and its draft are dropped, and the
/// room leaves the room list.
pub open spec fn remove_room_spec(s: AppOpView, id: Seq<char>) -> (AppOpView, Seq<EffectView>) {
    (
        AppOpView {
            rooms: s.rooms.filter(is_not_room(id)),
            unsent_messages: s.unsent_messages.filter(is_not_draft_of(id)),
            ..s
        },
        seq![EffectView::RoomListRemove(id)],
    )
}

/// What leaving the active room does, when logged in: the backend is told,
/// the room is dropped, no room is active any more and the room leaves the
/// room list.
pub open spec fn really_leave_active_room_spec(s: AppOpView) -> (AppOpView, Seq<EffectView>) {
    match (s.login_data, s.active_room) {
        (Some(ld), Some(r)) => (
            AppOpView { rooms: s.rooms.filter(is_not_room(r)), active_room: None, ..s },
            seq![
                EffectView::Send(
                    CommandView::LeaveRoom {
                        server: ld.server_url,
                        token: ld.access_token,
                        room: r,
                    },
                ),
                EffectView::ClearTmpMessages,
                EffectView::SetState(AppState::NoRoom),
                EffectView::RoomListRemove(r),
            ],
        ),
        _ => (s, seq![]),
    }
}

/// The first line of a topic: what comes before its first line break.
pub open spec fn first_line(t: Seq<char>) -> Seq<char> {
    let i = first_match(t, |c: char| c == '\n');
    if i >= 0 {
        t.take(i)
    } else {
        t
    }
}

/// How a topic is shown: not at all when absent or empty, otherwise by its
/// first line with the whole topic as tooltip.
pub open spec fn topic_label_spec(topic: Option<Seq<char>>) -> TopicLabelView {
    match topic {
        Some(t) => if t.len() == 0 {
            TopicLabelView::Hidden
        } else {
            TopicLabelView::Shown { tooltip: t, first_line: first_line(t) }
        },
        None => TopicLabelView::Hidden,
    }
}

/// How a topic is shown under the room name.
pub fn topic_label(topic: Option<String>) -> (r: TopicLabel)
    ensures
        r@ == topic_label_spec(topic.deep_view()),
{
    match topic {
        None => TopicLabel::Hidden,
        Some(t) => {
            if t.as_str().is_empty() {
                TopicLabel::Hidden
            } else {
                let cs = chars_of(&t);
                let mut line: Vec<char> = Vec::new();
                let mut i: usize = 0;
                while i < cs.len() && cs[i] != '\n'
                    invariant
                        i <= cs.len(),
                        cs@ == t@,
                        line@ == cs@.take(i as int),
                        forall|j: int| 0 <= j < i ==> (|c: char| c == '\n')(#[trigger] cs@[j]) == false,
                    decreases cs.len() - i,
                {
                    line.push(cs[i]);
                    i = i + 1;
                    assert(line@ =~= cs@.take(i as int));
                }
                proof {
                    lemma_first_match(cs@, |c: char| c == '\n', i as int);
                    if i == cs.len() {
                        assert(cs@.take(i as int) =~= cs@);
                    }
                }
                TopicLabel::Shown { tooltip: t, first_line: line }
            }
        },
    }
}

/// What the typing notification of the active room says, if a room is active
/// and known: nothing when nobody types, that several users type when more
/// than two do, the names of the one or two who type otherwise.
pub open spec fn typing_text_spec(s: AppOpView) -> Option<TypingTextView> {
    match s.active_room {
        Some(a) => {
            let i = room_index(s.rooms, a);
            if i >= 0 {
                let users = s.rooms[i].typing_users;
                Some(
                    if users.len() == 0 {
                        TypingTextView::Nobody
                    } else if users.len() > 2 {
                        TypingTextView::Several
                    } else {
                        TypingTextView::Users(users.map_values(|m: MemberView| alias_of(m)))
                    },
                )
            } else {
                None
            }
        },
        None => None,
    }
}

pub open spec fn typing_effects(s: AppOpView) -> Seq<EffectView> {
    match typing_text_spec(s) {
        Some(t) => seq![EffectView::TypingNotification(t)],
        None => seq![],
    }
}

/// Adds an effect at the end of a list of effects.
pub fn push_effect(effects: &mut Vec<Effect>, e: Effect)
    ensures
        final(effects).deep_view() == old(effects).deep_view().push(e@),
{
    effects.push(e);
    assert(effects.deep_view() =~= old(effects).deep_view().push(e@));
}

/// Adds effects at the end of a list of effects.
pub fn append_effects(effects: &mut Vec<Effect>, more: Vec<Effect>)
    ensures
        final(effects).deep_view() == old(effects).deep_view() + more.deep_view(),
{
    let ghost m = more.deep_view();
    let mut rest = more;
    let ghost mut k: int = 0;
    assert(m.skip(0) =~= m);
    assert(effects.deep_view() =~= old(effects).deep_view() + m.take(0));
    while rest.len() > 0
        invariant
            0 <= k <= m.len(),
            rest.deep_view() =~= m.skip(k),
            effects.deep_view() == old(effects).deep_view() + m.take(k),
        decreases rest.len(),
    {
        let ghost pre = rest.deep_view();
        let e = rest.remove(0);
        assert(pre.len() > 0 && k < m.len());
        assert(pre[0] == m.skip(k)[0]);
        assert(rest.deep_view() =~= pre.drop_first());
        push_effect(effects, e);
        proof {
            assert(m.take(k + 1) =~= m.take(k).push(m[k]));
            assert(m.skip(k + 1) =~= m.skip(k).drop_first());
            k = k + 1;
        }
    }
    assert(m.take(k) =~= m);
}

/// The power level of a user in a room: the one given to the user, or the
/// room's default.
pub open spec fn power_of(room: RoomView, uid: Seq<char>) -> int {
    let i = first_match(room.admins, |p: PowerLevelView| p.uid == uid);
    if i >= 0 {
        room.admins[i].level as int
    } else {
        room.default_power_level as int
    }
}

fn power_level_of(room: &Room, uid: &String) -> (r: i32)
    ensures
        r == power_of(room@, uid@),
{
    let ghost s = room.admins.deep_view();
    let mut i: usize = 0;
    while i < room.admins.len()
        invariant
            i <= room.admins.len(),
            s == room.admins.deep_view(),
            forall|j: int| 0 <= j < i ==> !(|p: PowerLevelView| p.uid == uid@)(#[trigger] s[j]),
        decreases room.admins.len() - i,
    {
        if room.admins[i].uid == *uid {
            proof {
                lemma_first_match(s, |p: PowerLevelView| p.uid == uid@, i as int);
            }
            return room.admins[i].level;
        }
        i = i + 1;
    }
    proof {
        lemma_first_match(s, |p: PowerLevelView| p.uid == uid@, i as int);
    }
    room.default_power_level
}

/// The messages of a room that its history shows: those that belong to it
/// and were not redacted.
pub open spec fn shown_in(id: Seq<char>) -> spec_fn(MessageView) -> bool {
    |m: MessageView| m.room == id && !m.redacted
}

fn shown_messages(messages: &Vec<Message>, id: &String) -> (r: Vec<Message>)
    ensures
        r.deep_view() == messages.deep_view().filter(shown_in(id@)),
{
    let ghost inp = messages.deep_view();
    let mut out: Vec<Message> = Vec::new();
    let mut i: usize = 0;
    assert(inp.take(0).filter(shown_in(id@)) =~= Seq::<MessageView>::empty()) by {
        reveal(Seq::filter);
    }
    assert(out.deep_view() =~= Seq::<MessageView>::empty());
    while i < messages.len()
        invariant
            i <= messages.len(),
            inp == messages.deep_view(),
            out.deep_view() == inp.take(i as int).filter(shown_in(id@)),
        decreases messages.len() - i,
    {
        let ghost old_out = out.deep_view();
        if messages[i].room == *id && !messages[i].redacted {
            out.push(messages[i].clone());
            assert(out.deep_view() =~= old_out.push(inp[i as int]));
        }
        proof {
            inp.take(i as int).lemma_filter_push(inp[i as int], shown_in(id@));
            assert(inp.take(i + 1) =~= inp.take(i as int).push(inp[i as int]));
        }
        i = i + 1;
    }
    assert(inp.take(i as int) =~= inp);
    out
}

/// The drafts after `text` was left in room `room` at cursor `position`.
pub open spec fn put_draft(
    u: Seq<UnsentMessageView>,
    room: Seq<char>,
    text: Seq<char>,
    position: i32,
) -> Seq<UnsentMessageView> {
    let i = first_match(u, is_draft_of(room));
    let e = UnsentMessageView { room, text, position };
    if i >= 0 {
        u.update(i, e)
    } else {
        u.push(e)
    }
}

/// The drafts after leaving the active room with this text in the message
/// entry: a non-empty text is kept as the draft of that room, an empty one
/// drops its draft.
pub open spec fn drafts_after(s: AppOpView, draft: Option<(Seq<char>, i32)>) -> Seq<
    UnsentMessageView,
> {
    match (draft, s.active_room) {
        (Some((text, pos)), Some(a)) => if text.len() > 0 {
            put_draft(s.unsent_messages, a, text, pos)
        } else {
            s.unsent_messages.filter(is_not_draft_of(a))
        },
        _ => s.unsent_messages,
    }
}

pub open spec fn draft_view(draft: Option<(String, i32)>) -> Option<(Seq<char>, i32)> {
    match draft {
        Some((t, p)) => Some((t@, p)),
        None => None,
    }
}

/// What making a room the active one does, when logged in. A room that the
/// user is only invited to shows the invitation and stays inactive. In a
/// known room where the user may write (power level at least 0, or no power
/// levels known), the message entry is editable and the text left in it is
/// kept as draft of the room that was active; otherwise it is read-only.
/// Then the room is selected, its details are asked for, its history shows
/// its messages, and it becomes the active room.
pub open spec fn set_active_room_by_id_spec(
    s: AppOpView,
    id: Seq<char>,
    draft: Option<(Seq<char>, i32)>,
) -> (AppOpView, Seq<EffectView>) {
    match s.login_data {
        None => (s, seq![]),
        Some(ld) => {
            let i = room_index(s.rooms, id);
            let lang = if i >= 0 {
                match s.rooms[i].language {
                    Some(l) => seq![EffectView::SetLanguage(l)],
                    None => seq![],
                }
            } else {
                seq![]
            };
            if i >= 0 && s.rooms[i].membership is Invited {
                (
                    AppOpView { invitation_roomid: Some(s.rooms[i].id), ..s },
                    lang + seq![
                        EffectView::ShowInvitation {
                            sender: s.rooms[i].membership->Invited_0,
                            room_name: s.rooms[i].name,
                        },
                    ],
                )
            } else {
                let writable = i >= 0 && (power_of(s.rooms[i], ld.uid) >= 0
                    || s.rooms[i].admins.len() == 0);
                let s1 = if writable {
                    AppOpView { unsent_messages: drafts_after(s, draft), ..s }
                } else {
                    s
                };
                let entry = if i >= 0 {
                    seq![EffectView::MessageEntryEditable(writable)]
                } else {
                    seq![]
                };
                let head = seq![
                    EffectView::ClearTmpMessages,
                    EffectView::RoomListSelect(id),
                    EffectView::Send(
                        CommandView::SetRoom { server: ld.server_url, token: ld.access_token, room: id },
                    ),
                ];
                let details = if i >= 0 {
                    seq![
                        EffectView::RoomNameLabel(s.rooms[i].name),
                        EffectView::RoomTopicLabel(topic_label_spec(s.rooms[i].topic)),
                    ]
                } else {
                    seq![]
                };
                let messages = if i >= 0 {
                    s.rooms[i].messages.filter(shown_in(id))
                } else {
                    seq![]
                };
                let s2 = AppOpView { active_room: Some(id), ..s1 };
                (
                    s2,
                    lang + entry + head + details + seq![
                        EffectView::AppendTmpMessages,
                        EffectView::ShowHistory { room: id, messages },
                        EffectView::SetState(AppState::Room),
                        EffectView::MarkLastMessageAsRead(false),
                    ] + typing_effects(s2),
                )
            }
        },
    }
}

impl AppOp {
    /// A store with no rooms, drafts, typing marks or sticker groups, for the
    /// given session.
    pub fn new(login_data: Option<LoginData>, uid: Option<String>) -> (r: AppOp)
        ensures
            r@.wf(),
            r@.login_data == login_view(login_data),
            r@.uid == uid.deep_view(),
            r@.rooms.len() == 0,
            r@.active_room is None,
            r@.unsent_messages.len() == 0,
            r@.typing.len() == 0,
            r@.invitation_roomid is None,
            r@.stickers.len() == 0,
    {
        AppOp {
            login_data,
            rooms: Vec::new(),
            active_room: None,
            unsent_messages: Vec::new(),
            typing: Vec::new(),
            invitation_roomid: None,
            stickers: Vec::new(),
            uid,
        }
    }

    /// Drops a room and its draft, and takes it out of the room list.
    pub fn remove_room(&mut self, id: String) -> (effects: Vec<Effect>)
        requires
            old(self)@.wf(),
        ensures
            final(self)@.wf(),
            (final(self)@, effects.deep_view()) == remove_room_spec(old(self)@, id@),
            forall|i: int|
                0 <= i < final(self)@.rooms.len() ==> #[trigger] final(self)@.rooms[i].id != id@,
    {
        let mut rooms: Vec<Room> = Vec::new();
        std::mem::swap(&mut rooms, &mut self.rooms);
        self.rooms = without_room(rooms, &id);
        let mut drafts: Vec<UnsentMessage> = Vec::new();
        std::mem::swap(&mut drafts, &mut self.unsent_messages);
        self.unsent_messages = without_draft(drafts, &id);
        proof {
            lemma_filter_unique(old(self)@.rooms, room_key(), is_not_room(id@));
            lemma_filter_unique(old(self)@.unsent_messages, unsent_key(), is_not_draft_of(id@));
            assert forall|i: int| 0 <= i < self@.rooms.len() implies #[trigger] self@.rooms[i].id
                != id@ by {
                old(self)@.rooms.lemma_filter_pred(is_not_room(id@), i);
            }
        }
        let mut effects: Vec<Effect> = Vec::new();
        effects.push(Effect::RoomListRemove(id));
        assert(effects.deep_view() =~= seq![EffectView::RoomListRemove(id@)]);
        effects
    }

    /// Leaves the active room: tells the backend, drops the room, makes no
    /// room active and takes the room out of the room list.
    pub fn really_leave_active_room(&mut self) -> (effects: Vec<Effect>)
        requires
            old(self)@.wf(),
        ensures
            final(self)@.wf(),
            (final(self)@, effects.deep_view()) == really_leave_active_room_spec(old(self)@),
    {
        let mut effects: Vec<Effect> = Vec::new();
        assert(effects.deep_view() =~= Seq::<EffectView>::empty());
        let ld = match &self.login_data {
            Some(ld) => ld.clone(),
            None => return effects,
        };
        let r = match &self.active_room {
            Some(r) => r.clone(),
            None => return effects,
        };
        push_effect(
            &mut effects,
            Effect::Send(
                Command::LeaveRoom { server: ld.server_url, token: ld.access_token, room: r.clone() },
            ),
        );
        let mut rooms: Vec<Room> = Vec::new();
        std::mem::swap(&mut rooms, &mut self.rooms);
        self.rooms = without_room(rooms, &r);
        proof {
            lemma_filter_unique(old(self)@.rooms, room_key(), is_not_room(r@));
        }
        self.active_room = None;
        push_effect(&mut effects, Effect::ClearTmpMessages);
        push_effect(&mut effects, Effect::SetState(AppState::NoRoom));
        push_effect(&mut effects, Effect::RoomListRemove(r));
        assert(self@.active_room == None::<Seq<char>>);
        effects
    }

    /// What the typing notification of the active room says, when a known
    /// room is active.
    pub fn update_typing_notification(&self) -> (effects: Vec<Effect>)
        ensures
            effects.deep_view() == typing_effects(self@),
    {
        let mut effects: Vec<Effect> = Vec::new();
        assert(effects.deep_view() =~= Seq::<EffectView>::empty());
        let a = match &self.active_room {
            Some(a) => a,
            None => return effects,
        };
        let i = match find_room(&self.rooms, a) {
            Some(i) => i,
            None => return effects,
        };
        let users = &self.rooms[i].typing_users;
        let ghost uv = users.deep_view();
        assert(uv == self@.rooms[i as int].typing_users);
        let text = if users.len() == 0 {
            TypingText::Nobody
        } else if users.len() > 2 {
            TypingText::Several
        } else {
            let mut names: Vec<String> = Vec::new();
            names.push(users[0].get_alias());
            if users.len() == 2 {
                names.push(users[1].get_alias());
            }
            assert(names.deep_view() =~= uv.map_values(|m: MemberView| alias_of(m)));
            TypingText::Users(names)
        };
        push_effect(&mut effects, Effect::TypingNotification(text));
        effects
    }

    /// Keeps or drops the draft of the active room, as `drafts_after` says.
    fn store_draft(&mut self, draft: Option<(String, i32)>)
        requires
            old(self)@.wf(),
        ensures
            final(self)@ == (AppOpView { unsent_messages: drafts_after(old(self)@, draft_view(draft)), ..old(self)@ }),
            final(self)@.wf(),
    {
        let (text, pos) = match draft {
            Some(d) => d,
            None => return,
        };
        let a = match &self.active_room {
            Some(a) => a.clone(),
            None => return,
        };
        if text.as_str().is_empty() {
            let mut drafts: Vec<UnsentMessage> = Vec::new();
            std::mem::swap(&mut drafts, &mut self.unsent_messages);
            self.unsent_messages = without_draft(drafts, &a);
            proof {
                lemma_filter_unique(old(self)@.unsent_messages, unsent_key(), is_not_draft_of(a@));
            }
        } else {
            let ghost u = self.unsent_messages.deep_view();
            let mut i: usize = 0;
            while i < self.unsent_messages.len()
                invariant
                    i <= self.unsent_messages.len(),
                    u == self.unsent_messages.deep_view(),
                    forall|j: int| 0 <= j < i ==> !is_draft_of(a@)(#[trigger] u[j]),
                ensures
                    i <= self.unsent_messages.len(),
                    u == self.unsent_messages.deep_view(),
                    forall|j: int| 0 <= j < i ==> !is_draft_of(a@)(#[trigger] u[j]),
                    i < self.unsent_messages.len() ==> is_draft_of(a@)(u[i as int]),
                decreases self.unsent_messages.len() - i,
            {
                if self.unsent_messages[i].room == a {
                    break;
                }
                i = i + 1;
            }
            let e = UnsentMessage { room: a, text, position: pos };
            let ghost ev = e@;
            proof {
                lemma_first_match(u, is_draft_of(ev.room), i as int);
            }
            if i < self.unsent_messages.len() {
                self.unsent_messages.set(i, e);
                proof {
                    assert(self.unsent_messages.deep_view() =~= u.update(i as int, ev));
                    lemma_update_unique(u, unsent_key(), i as int, ev);
                }
            } else {
                self.unsent_messages.push(e);
                proof {
                    assert(self.unsent_messages.deep_view() =~= u.push(ev));
                    lemma_push_unique(u, unsent_key(), ev);
                }
            }
        }
    }
}

impl AppOp {
    /// Makes a room the active one (see `set_active_room_by_id_spec`);
    /// `draft` is the text and cursor position of the message entry, when it
    /// has a buffer.
    pub fn set_active_room_by_id(&mut self, id: String, draft: Option<(String, i32)>) -> (effects:
        Vec<Effect>)
        requires
            old(self)@.wf(),
        ensures
            final(self)@.wf(),
            (final(self)@, effects.deep_view()) == set_active_room_by_id_spec(
                old(self)@,
                id@,
                draft_view(draft),
            ),
    {
        let ghost s = self@;
        let ghost dv = draft_view(draft);
        let mut effects: Vec<Effect> = Vec::new();
        assert(effects.deep_view() =~= Seq::<EffectView>::empty());
        let ld = match &self.login_data {
            Some(ld) => ld.clone(),
            None => return effects,
        };
        let idx = find_room(&self.rooms, &id);
        let ghost i: int = match idx {
            Some(i) => i as int,
            None => -1,
        };
        if let Some(i) = idx {
            if let Some(l) = &self.rooms[i].language {
                push_effect(&mut effects, Effect::SetLanguage(l.clone()));
            }
            if let RoomMembership::Invited(sender) = &self.rooms[i].membership {
                push_effect(
                    &mut effects,
                    Effect::ShowInvitation {
                        sender: sender.clone(),
                        room_name: self.rooms[i].name.clone(),
                    },
                );
                self.invitation_roomid = Some(self.rooms[i].id.clone());
                return effects;
            }
        }
        let ghost lang = effects.deep_view();
        let writable = match idx {
            Some(i) => {
                let power = power_level_of(&self.rooms[i], &ld.uid);
                power >= 0 || self.rooms[i].admins.len() == 0
            },
            None => false,
        };
        if writable {
            self.store_draft(draft);
        }
        if idx.is_some() {
            push_effect(&mut effects, Effect::MessageEntryEditable(writable));
        }
        let ghost s1 = self@;
        assert(s1.rooms == s.rooms);
        push_effect(&mut effects, Effect::ClearTmpMessages);
        push_effect(&mut effects, Effect::RoomListSelect(id.clone()));
        push_effect(
            &mut effects,
            Effect::Send(
                Command::SetRoom { server: ld.server_url, token: ld.access_token, room: id.clone() },
            ),
        );
        let messages = match idx {
            Some(i) => {
                let m = shown_messages(&self.rooms[i].messages, &id);
                push_effect(&mut effects, Effect::RoomNameLabel(self.rooms[i].name.clone()));
                push_effect(
                    &mut effects,
                    Effect::RoomTopicLabel(topic_label(self.rooms[i].topic.clone())),
                );
                m
            },
            None => {
                let m: Vec<Message> = Vec::new();
                assert(m.deep_view() =~= Seq::<MessageView>::empty());
                m
            },
        };
        push_effect(&mut effects, Effect::AppendTmpMessages);
        push_effect(&mut effects, Effect::ShowHistory { room: id.clone(), messages });
        self.active_room = Some(id);
        push_effect(&mut effects, Effect::SetState(AppState::Room));
        push_effect(&mut effects, Effect::MarkLastMessageAsRead(Force(false)));
        let t = self.update_typing_notification();
        append_effects(&mut effects, t);
        proof {
            let (es2, ee) = set_active_room_by_id_spec(s, id@, dv);
            assert(self@ == es2);
            assert(effects.deep_view() =~= ee);
        }
        effects
    }
}

/// A member as the room knows it: the room's own record of the member of
/// the same user id when it has one, the given one otherwise.
pub open spec fn known_member(members: Seq<MemberView>, u: MemberView) -> MemberView {
    let j = first_match(members, |m: MemberView| m.uid == u.uid);
    if j >= 0 {
        members[j]
    } else {
        u
    }
}

fn find_known_member(members: &Vec<Member>, u: &Member) -> (r: Member)
    ensures
        r@ == known_member(members.deep_view(), u@),
{
    let ghost s = members.deep_view();
    let mut i: usize = 0;
    while i < members.len()
        invariant
            i <= members.len(),
            s == members.deep_view(),
            forall|j: int| 0 <= j < i ==> !(|m: MemberView| m.uid == u@.uid)(#[trigger] s[j]),
        decreases members.len() - i,
    {
        if members[i].uid == u.uid {
            proof {
                lemma_first_match(s, |m: MemberView| m.uid == u@.uid, i as int);
            }
            return members[i].clone();
        }
        i = i + 1;
    }
    proof {
        lemma_first_match(s, |m: MemberView| m.uid == u@.uid, i as int);
    }
    u.clone()
}

fn known_members(members: &Vec<Member>, users: &Vec<Member>) -> (r: Vec<Member>)
    ensures
        r.deep_view() == users.deep_view().map_values(
            |u: MemberView| known_member(members.deep_view(), u),
        ),
{
    let mut out: Vec<Member> = Vec::new();
    let mut i: usize = 0;
    while i < users.len()
        invariant
            i <= users.len(),
            out.deep_view() == users.deep_view().take(i as int).map_values(
                |u: MemberView| known_member(members.deep_view(), u),
            ),
        decreases users.len() - i,
    {
        let ghost old_out = out.deep_view();
        let ghost f = |u: MemberView| known_member(members.deep_view(), u);
        let m = find_known_member(members, &users[i]);
        assert(users.deep_view()[i as int] == users@[i as int]@);
        out.push(m);
        assert(out.deep_view() =~= old_out.push(f(users.deep_view()[i as int])));
        assert(users.deep_view().take(i + 1).map_values(f) =~= users.deep_view().take(
            i as int,
        ).map_values(f).push(f(users.deep_view()[i as int])));
        i = i + 1;
    }
    assert(users.deep_view().take(i as int) =~= users.deep_view());
    out
}

/// What an incoming room does to the store, with the rooms it adds to the
/// new room list. A room that was left is dropped (left for good when it is
/// the active one), after telling the user who kicked them out of a room they
/// knew. A known room takes the incoming language, when there is one, and
/// the incoming typing users, as the room knows them; the typing
/// notification is then updated. A new room is added, its members and avatar
/// are asked for, and it goes into the room list (into the new list when the
/// list is built anew).
pub open spec fn set_rooms_step(s: AppOpView, ld: LoginDataView, r: RoomView, clear: bool) -> (
    AppOpView,
    Seq<EffectView>,
    Seq<RoomView>,
) {
    let i = room_index(s.rooms, r.id);
    match r.membership {
        RoomMembershipView::Left(reason) => {
            let kicked = match reason {
                ReasonView::Kicked(why, kicker) => if i >= 0 {
                    seq![
                        EffectView::ShowKickedDialog {
                            room_name: s.rooms[i].name,
                            reason: why,
                            kicker: kicker.alias,
                        },
                    ]
                } else {
                    seq![]
                },
                _ => seq![],
            };
            let (s2, e2) = if s.active_room == Some(r.id) {
                really_leave_active_room_spec(s)
            } else {
                remove_room_spec(s, r.id)
            };
            (s2, kicked + e2, seq![])
        },
        _ => if i >= 0 {
            let old = s.rooms[i];
            let updated = RoomView {
                language: if r.language is Some {
                    r.language
                } else {
                    old.language
                },
                typing_users: r.typing_users.map_values(
                    |u: MemberView| known_member(old.members, u),
                ),
                ..old
            };
            let s2 = AppOpView { rooms: s.rooms.update(i, updated), ..s };
            (s2, typing_effects(s2), seq![])
        } else {
            let asks = seq![
                EffectView::Send(
                    CommandView::GetRoomMembers {
                        server: ld.server_url,
                        token: ld.access_token,
                        room: r.id,
                    },
                ),
                EffectView::Send(
                    CommandView::GetRoomAvatar {
                        server: ld.server_url,
                        token: ld.access_token,
                        room: r.id,
                    },
                ),
            ];
            let s2 = AppOpView { rooms: s.rooms.push(r), ..s };
            if clear {
                (s2, asks, seq![r])
            } else {
                (
                    s2,
                    asks + seq![EffectView::RoomListAdd(r), EffectView::RoomListMoveUp(r.id)],
                    seq![],
                )
            }
        },
    }
}

/// The incoming rooms taken in order by `set_rooms_step`.
pub open spec fn set_rooms_fold(
    s: AppOpView,
    ld: LoginDataView,
    rooms: Seq<RoomView>,
    clear: bool,
) -> (AppOpView, Seq<EffectView>, Seq<RoomView>)
    decreases rooms.len(),
{
    if rooms.len() == 0 {
        (s, seq![], seq![])
    } else {
        let (s1, e1, l1) = set_rooms_fold(s, ld, rooms.drop_last(), clear);
        let (s2, e2, l2) = set_rooms_step(s1, ld, rooms.last(), clear);
        (s2, e1 + e2, l1 + l2)
    }
}

/// What a list of rooms from the backend does, when logged in. When the room
/// list is built anew, the store is emptied first, the new list shows the
/// new rooms, the active room is made active again and the rooms are cached.
pub open spec fn set_rooms_spec(
    s: AppOpView,
    rooms: Seq<RoomView>,
    clear: bool,
    draft: Option<(Seq<char>, i32)>,
) -> (AppOpView, Seq<EffectView>) {
    match s.login_data {
        None => (s, seq![]),
        Some(ld) => {
            let s0 = if clear {
                AppOpView { rooms: seq![], ..s }
            } else {
                s
            };
            let (s1, e1, l1) = set_rooms_fold(s0, ld, rooms, clear);
            if clear {
                let (s2, e2) = match s1.active_room {
                    Some(a) => set_active_room_by_id_spec(s1, a, draft),
                    None => (s1, seq![]),
                };
                (s2, e1 + seq![EffectView::RoomListReplace(l1)] + e2 + seq![EffectView::CacheRooms])
            } else {
                (s1, e1)
            }
        },
    }
}

impl AppOp {
    fn set_rooms_step(&mut self, room: Room, ld: &LoginData, clear: bool, list: &mut Vec<Room>) -> (effects: Vec<Effect>)
        requires
            old(self)@.wf(),
        ensures
            final(self)@.wf(),
            final(self)@ == set_rooms_step(old(self)@, ld@, room@, clear).0,
            effects.deep_view() == set_rooms_step(old(self)@, ld@, room@, clear).1,
            final(list).deep_view() == old(list).deep_view() + set_rooms_step(old(self)@, ld@, room@, clear).2,
    {
        let ghost s = self@;
        let ghost rv = room@;
        let mut effects: Vec<Effect> = Vec::new();
        assert(effects.deep_view() =~= Seq::<EffectView>::empty());
        let idx = find_room(&self.rooms, &room.id);
        match &room.membership {
            RoomMembership::Left(reason) => {
                if let Reason::Kicked(why, kicker) = reason {
                    if let Some(i) = idx {
                        push_effect(
                            &mut effects,
                            Effect::ShowKickedDialog {
                                room_name: self.rooms[i].name.clone(),
                                reason: why.clone(),
                                kicker: kicker.alias.clone(),
                            },
                        );
                    }
                }
                let is_active = match &self.active_room {
                    Some(a) => *a == room.id,
                    None => false,
                };
                let more = if is_active {
                    self.really_leave_active_room()
                } else {
                    self.remove_room(room.id.clone())
                };
                append_effects(&mut effects, more);
                assert(list.deep_view() =~= old(list).deep_view() + Seq::<RoomView>::empty());
            },
            _ => {
                match idx {
                    Some(i) => {
                        let typing = known_members(&self.rooms[i].members, &room.typing_users);
                        let mut updated = self.rooms[i].clone();
                        if room.language.is_some() {
                            updated.language = room.language.clone();
                        }
                        updated.typing_users = typing;
                        let ghost uv = updated@;
                        self.rooms.set(i, updated);
                        proof {
                            assert(self@.rooms =~= s.rooms.update(i as int, uv));
                            lemma_update_unique(s.rooms, room_key(), i as int, uv);
                        }
                        let t = self.update_typing_notification();
                        append_effects(&mut effects, t);
                        assert(list.deep_view() =~= old(list).deep_view() + Seq::<RoomView>::empty());
                    },
                    None => {
                        push_effect(
                            &mut effects,
                            Effect::Send(
                                Command::GetRoomMembers {
                                    server: ld.server_url.clone(),
                                    token: ld.access_token.clone(),
                                    room: room.id.clone(),
                                },
                            ),
                        );
                        push_effect(
                            &mut effects,
                            Effect::Send(
                                Command::GetRoomAvatar {
                                    server: ld.server_url.clone(),
                                    token: ld.access_token.clone(),
                                    room: room.id.clone(),
                                },
                            ),
                        );
                        if clear {
                            list.push(room.clone());
                            assert(list.deep_view() =~= old(list).deep_view() + seq![rv]);
                        } else {
                            push_effect(&mut effects, Effect::RoomListAdd(room.clone()));
                            push_effect(&mut effects, Effect::RoomListMoveUp(room.id.clone()));
                            assert(list.deep_view() =~= old(list).deep_view() + Seq::<RoomView>::empty());
                        }
                        proof {
                            lemma_first_match_bounds(s.rooms, is_room(rv.id));
                            lemma_push_unique(s.rooms, room_key(), rv);
                        }
                        self.rooms.push(room);
                        assert(self@.rooms =~= s.rooms.push(rv));
                    },
                }
            },
        }
        proof {
            let (s2, e2, l2) = set_rooms_step(s, ld@, rv, clear);
            assert(effects.deep_view() =~= e2);
        }
        effects
    }

    /// Takes in the rooms sent by the backend (see `set_rooms_spec`); `draft`
    /// is the text and cursor position of the message entry, when it has a
    /// buffer.
    pub fn set_rooms(&mut self, rooms: Vec<Room>, clear_room_list: bool, draft: Option<(String, i32)>) -> (effects: Vec<Effect>)
        requires
            old(self)@.wf(),
        ensures
            final(self)@.wf(),
            (final(self)@, effects.deep_view()) == set_rooms_spec(
                old(self)@,
                rooms.deep_view(),
                clear_room_list,
                draft_view(draft),
            ),
    {
        let ghost s = self@;
        let ghost inp = rooms.deep_view();
        let mut effects: Vec<Effect> = Vec::new();
        assert(effects.deep_view() =~= Seq::<EffectView>::empty());
        let ld = match &self.login_data {
            Some(ld) => ld.clone(),
            None => return effects,
        };
        if clear_room_list {
            self.rooms = Vec::new();
            assert(self@.rooms =~= Seq::<RoomView>::empty());
        }
        let ghost s0 = self@;
        let mut list: Vec<Room> = Vec::new();
        assert(list.deep_view() =~= Seq::<RoomView>::empty());
        let mut rest = rooms;
        let ghost mut k: int = 0;
        assert(inp.skip(0) =~= inp);
        assert(inp.take(0) =~= Seq::<RoomView>::empty());
        while rest.len() > 0
            invariant
                0 <= k <= inp.len(),
                rest.deep_view() =~= inp.skip(k),
                self@.wf(),
                self@ == set_rooms_fold(s0, ld@, inp.take(k), clear_room_list).0,
                effects.deep_view() == set_rooms_fold(s0, ld@, inp.take(k), clear_room_list).1,
                list.deep_view() == set_rooms_fold(s0, ld@, inp.take(k), clear_room_list).2,
            decreases rest.len(),
        {
            let ghost pre = rest.deep_view();
            let room = rest.remove(0);
            assert(pre.len() > 0 && k < inp.len());
            assert(pre[0] == inp.skip(k)[0]);
            assert(room@ == inp[k]);
            assert(rest.deep_view() =~= pre.drop_first());
            let more = self.set_rooms_step(room, &ld, clear_room_list, &mut list);
            append_effects(&mut effects, more);
            proof {
                assert(inp.take(k + 1).drop_last() =~= inp.take(k));
                assert(inp.take(k + 1).last() == inp[k]);
                assert(inp.skip(k + 1) =~= inp.skip(k).drop_first());
                k = k + 1;
            }
        }
        assert(inp.take(k) =~= inp);
        if clear_room_list {
            let ghost l1 = list.deep_view();
            push_effect(&mut effects, Effect::RoomListReplace(list));
            let more = match &self.active_room {
                Some(a) => {
                    let a = a.clone();
                    self.set_active_room_by_id(a, draft)
                },
                None => {
                    let v: Vec<Effect> = Vec::new();
                    assert(v.deep_view() =~= Seq::<EffectView>::empty());
                    v
                },
            };
            append_effects(&mut effects, more);
            push_effect(&mut effects, Effect::CacheRooms);
        }
        proof {
            let (es, ee) = set_rooms_spec(s, inp, clear_room_list, draft_view(draft));
            assert(effects.deep_view() =~= ee);
        }
        effects
    }
}

/// Whether `s` is the string `lit`.
pub fn is_literal(s: &String, lit: &str) -> (r: bool)
    ensures
        r == (s@ == lit@),
{
    let l = lit.to_owned();
    *s == l
}

/// What showing a room detail above the history does: the name key sets the
/// room name, the topic key the topic label; other keys show nothing.
pub open spec fn current_room_detail_spec(key: Seq<char>, value: Option<Seq<char>>) -> Seq<
    EffectView,
> {
    if key == "m.room.name"@ {
        seq![EffectView::RoomNameLabel(value)]
    } else if key == "m.room.topic"@ {
        seq![EffectView::RoomTopicLabel(topic_label_spec(value))]
    } else {
        seq![]
    }
}

/// What a new room detail from the backend does: the room of that id, when
/// known, takes the new name or topic, and when it is the active room the
/// detail is shown above the history.
pub open spec fn set_room_detail_spec(
    s: AppOpView,
    room_id: Seq<char>,
    key: Seq<char>,
    value: Option<Seq<char>>,
) -> (AppOpView, Seq<EffectView>) {
    let i = room_index(s.rooms, room_id);
    let rooms = if i >= 0 && key == "m.room.name"@ {
        s.rooms.update(i, RoomView { name: value, ..s.rooms[i] })
    } else if i >= 0 && key == "m.room.topic"@ {
        s.rooms.update(i, RoomView { topic: value, ..s.rooms[i] })
    } else {
        s.rooms
    };
    let shown = if s.active_room == Some(room_id) {
        current_room_detail_spec(key, value)
    } else {
        seq![]
    };
    (AppOpView { rooms, ..s }, shown)
}

/// The members other than the user.
pub open spec fn other_than(uid: Seq<char>) -> spec_fn(MemberView) -> bool {
    |m: MemberView| m.uid != uid
}

/// The alias of a member, as a function.
pub open spec fn alias_fn() -> spec_fn(MemberView) -> Seq<char> {
    |m: MemberView| alias_of(m)
}

/// The avatar link from a member to a room.
pub open spec fn avatar_link(room_id: Seq<char>) -> spec_fn(MemberView) -> EffectView {
    |m: MemberView| EffectView::LinkRoomAvatarCache { member: m.uid, room: room_id }
}

/// The avatar links made when a room of two members loses its avatar: the
/// other member's avatar stands for the room.
pub open spec fn avatar_links(members: Seq<MemberView>, uid: Seq<char>, room_id: Seq<char>) -> Seq<
    EffectView,
> {
    members.filter(other_than(uid)).map_values(avatar_link(room_id))
}

/// What a new room avatar does, when logged in. An absent avatar drops the
/// cached one; in a known room of two members the other member's avatar
/// then stands for the room. The room takes the avatar and the room list
/// shows it.
pub open spec fn set_room_avatar_spec(s: AppOpView, room_id: Seq<char>, avatar: Option<Seq<char>>) -> (
    AppOpView,
    Seq<EffectView>,
) {
    match s.login_data {
        None => (s, seq![]),
        Some(ld) => {
            let dropped = if avatar is None {
                seq![EffectView::DropRoomAvatarCache(room_id)]
            } else {
                seq![]
            };
            let i = room_index(s.rooms, room_id);
            if i >= 0 {
                let r = s.rooms[i];
                let links = if avatar is None && r.members.len() == 2 {
                    avatar_links(r.members, ld.uid, room_id)
                } else {
                    seq![]
                };
                (
                    AppOpView { rooms: s.rooms.update(i, RoomView { avatar, ..r }), ..s },
                    dropped + links + seq![EffectView::RoomListSetAvatar(room_id, avatar)],
                )
            } else {
                (s, dropped)
            }
        },
    }
}

/// What a room that the backend created does: the placeholder room of the
/// internal id is dropped, the room is kept (unless known already), put on
/// top of the room list and made active.
pub open spec fn new_room_spec(
    s: AppOpView,
    r: RoomView,
    internal_id: Option<Seq<char>>,
    draft: Option<(Seq<char>, i32)>,
) -> (AppOpView, Seq<EffectView>) {
    let (s1, e1) = match internal_id {
        Some(id) => remove_room_spec(s, id),
        None => (s, seq![]),
    };
    let s2 = if room_index(s1.rooms, r.id) >= 0 {
        s1
    } else {
        AppOpView { rooms: s1.rooms.push(r), ..s1 }
    };
    let (s3, e3) = set_active_room_by_id_spec(s2, r.id, draft);
    (s3, e1 + seq![EffectView::RoomListAdd(r), EffectView::RoomListMoveUp(r.id)] + e3)
}

/// What creating a room with a given internal id does, when logged in: the
/// backend is asked to create it, and a placeholder room of that id and the
/// typed name is added and made active.
pub open spec fn create_new_room_spec(
    s: AppOpView,
    name: Seq<char>,
    private: bool,
    internal_id: Seq<char>,
    draft: Option<(Seq<char>, i32)>,
) -> (AppOpView, Seq<EffectView>) {
    match s.login_data {
        None => (s, seq![]),
        Some(ld) => {
            let ask = EffectView::Send(
                CommandView::NewRoom {
                    server: ld.server_url,
                    token: ld.access_token,
                    name,
                    kind: if private {
                        RoomType::Private
                    } else {
                        RoomType::Public
                    },
                    internal_id,
                },
            );
            let fake = RoomView {
                name: Some(name),
                ..fresh_room(internal_id, RoomMembershipView::Joined(RoomTagView::Untagged))
            };
            let (s1, e1) = new_room_spec(s, fake, None, draft);
            let (s2, e2) = set_active_room_by_id_spec(s1, internal_id, draft);
            (s2, seq![ask] + e1 + e2 + seq![EffectView::SetState(AppState::Room)])
        },
    }
}

/// A room marked or unmarked as favourite keeps only that tag.
pub open spec fn added_to_fav_spec(s: AppOpView, room_id: Seq<char>, tofav: bool) -> AppOpView {
    let i = room_index(s.rooms, room_id);
    if i >= 0 {
        let tag = if tofav {
            RoomTagView::Favourite
        } else {
            RoomTagView::Untagged
        };
        AppOpView {
            rooms: s.rooms.update(i, RoomView { membership: RoomMembershipView::Joined(tag), ..s.rooms[i] }),
            ..s
        }
    } else {
        s
    }
}

/// What a new room name does: the known room of that id takes it, the name
/// above the history shows it when the room is active, and the room list
/// renames the room. An unknown room changes nothing.
pub open spec fn room_name_change_spec(s: AppOpView, room_id: Seq<char>, name: Option<Seq<char>>) -> (
    AppOpView,
    Seq<EffectView>,
) {
    let i = room_index(s.rooms, room_id);
    if i >= 0 {
        let shown = if s.active_room == Some(room_id) {
            seq![EffectView::RoomNameLabel(name)]
        } else {
            seq![]
        };
        (
            AppOpView { rooms: s.rooms.update(i, RoomView { name, ..s.rooms[i] }), ..s },
            shown + seq![EffectView::RoomListRename(room_id, name)],
        )
    } else {
        (s, seq![])
    }
}

/// What a new room topic does: the known room of that id takes it and the
/// topic label shows it when the room is active.
pub open spec fn room_topic_change_spec(s: AppOpView, room_id: Seq<char>, topic: Option<Seq<char>>) -> (
    AppOpView,
    Seq<EffectView>,
) {
    let i = room_index(s.rooms, room_id);
    if i >= 0 {
        let shown = if s.active_room == Some(room_id) {
            seq![EffectView::RoomTopicLabel(topic_label_spec(topic))]
        } else {
            seq![]
        };
        (AppOpView { rooms: s.rooms.update(i, RoomView { topic, ..s.rooms[i] }), ..s }, shown)
    } else {
        (s, seq![])
    }
}

/// The name a room without a name event gets from its members, before it is
/// put in words: the user counts as one member, and the others are named by
/// their aliases.
pub enum GeneratedName {
    /// Nobody but the user.
    Empty,
    /// One other member.
    One(String),
    /// The first of two or more other members, and others.
    Others(String),
}

pub enum GeneratedNameView {
    Empty,
    One(Seq<char>),
    Others(Seq<char>),
}

impl View for GeneratedName {
    type V = GeneratedNameView;

    open spec fn view(&self) -> GeneratedNameView {
        match self {
            GeneratedName::Empty => GeneratedNameView::Empty,
            GeneratedName::One(a) => GeneratedNameView::One(a@),
            GeneratedName::Others(a) => GeneratedNameView::Others(a@),
        }
    }
}

/// The aliases of the members of a room other than the user.
pub open spec fn other_aliases(members: Seq<MemberView>, uid: Seq<char>) -> Seq<Seq<char>> {
    members.filter(other_than(uid)).map_values(alias_fn())
}

/// Whether a room name would be generated: when logged in, for a known room
/// without a name.
pub open spec fn generates_name(s: AppOpView, room_id: Seq<char>) -> bool {
    &&& s.login_data is Some
    &&& room_index(s.rooms, room_id) >= 0
    &&& s.rooms[room_index(s.rooms, room_id)].name is None
}

/// The name generated for a known room without a name, from its member count
/// less one (the user) and the alias of its first other member (empty when
/// missing): nobody, that member, or that member and others.
pub open spec fn generated_name_spec(s: AppOpView, room_id: Seq<char>) -> Option<GeneratedNameView> {
    if generates_name(s, room_id) {
        let r = s.rooms[room_index(s.rooms, room_id)];
        let others = other_aliases(r.members, s.login_data->Some_0.uid);
        let m1 = if others.len() > 0 {
            others[0]
        } else {
            Seq::empty()
        };
        let n = r.members.len() - 1;
        Some(
            if n == 0 {
                GeneratedNameView::Empty
            } else if n == 1 {
                GeneratedNameView::One(m1)
            } else {
                GeneratedNameView::Others(m1)
            },
        )
    } else {
        None
    }
}

/// Whether saying that the user types in the active room is due: always,
/// unless it was said in that room less than three seconds before `now`.
pub open spec fn typing_due(s: AppOpView, room: Seq<char>, now: u64) -> bool {
    let j = first_match(s.typing, is_mark_of(room));
    j < 0 || ({
        let at = s.typing[j].at;
        (if now >= at {
            now - at
        } else {
            0
        }) / 1_000_000_000 >= 3
    })
}

/// What typing in the message entry does at time `now`, when logged in and
/// a room is active: when due, the time is kept for the room and the backend
/// tells the room that the user types.
pub open spec fn send_typing_spec(s: AppOpView, now: u64) -> (AppOpView, Seq<EffectView>) {
    match (s.login_data, s.active_room) {
        (Some(ld), Some(a)) => if typing_due(s, a, now) {
            let j = first_match(s.typing, is_mark_of(a));
            let mark = TypingMarkView { room: a, at: now };
            (
                AppOpView {
                    typing: if j >= 0 {
                        s.typing.update(j, mark)
                    } else {
                        s.typing.push(mark)
                    },
                    ..s
                },
                seq![
                    EffectView::Send(
                        CommandView::SendTyping {
                            server: ld.server_url,
                            token: ld.access_token,
                            uid: ld.uid,
                            room: a,
                        },
                    ),
                ],
            )
        } else {
            (s, seq![])
        },
        _ => (s, seq![]),
    }
}

impl AppOp {
    /// Shows no room any more.
    pub fn reload_rooms(&self) -> (effects: Vec<Effect>)
        ensures
            effects.deep_view() == seq![EffectView::SetState(AppState::NoRoom)],
    {
        let mut effects: Vec<Effect> = Vec::new();
        assert(effects.deep_view() =~= Seq::<EffectView>::empty());
        push_effect(&mut effects, Effect::SetState(AppState::NoRoom));
        effects
    }

    /// Asks whether to leave the active room, when it is known.
    pub fn leave_active_room(&self) -> (effects: Vec<Effect>)
        ensures
            effects.deep_view() == match self@.active_room {
                Some(a) => if room_index(self@.rooms, a) >= 0 {
                    seq![EffectView::ShowLeaveDialog(self@.rooms[room_index(self@.rooms, a)].name)]
                } else {
                    seq![]
                },
                None => seq![],
            },
    {
        let mut effects: Vec<Effect> = Vec::new();
        assert(effects.deep_view() =~= Seq::<EffectView>::empty());
        if let Some(a) = &self.active_room {
            if let Some(i) = find_room(&self.rooms, a) {
                push_effect(&mut effects, Effect::ShowLeaveDialog(self.rooms[i].name.clone()));
            }
        }
        effects
    }

    /// Shows a room detail above the history (see `current_room_detail_spec`).
    pub fn set_current_room_detail(&self, key: String, value: Option<String>) -> (effects: Vec<
        Effect,
    >)
        ensures
            effects.deep_view() == current_room_detail_spec(key@, value.deep_view()),
    {
        let mut effects: Vec<Effect> = Vec::new();
        assert(effects.deep_view() =~= Seq::<EffectView>::empty());
        if is_literal(&key, "m.room.name") {
            push_effect(&mut effects, Effect::RoomNameLabel(value));
        } else if is_literal(&key, "m.room.topic") {
            push_effect(&mut effects, Effect::RoomTopicLabel(topic_label(value)));
        }
        effects
    }

    /// Takes in a new room detail (see `set_room_detail_spec`).
    pub fn set_room_detail(&mut self, room_id: String, key: String, value: Option<String>) -> (effects:
        Vec<Effect>)
        requires
            old(self)@.wf(),
        ensures
            final(self)@.wf(),
            (final(self)@, effects.deep_view()) == set_room_detail_spec(
                old(self)@,
                room_id@,
                key@,
                value.deep_view(),
            ),
    {
        let ghost s = self@;
        if let Some(i) = find_room(&self.rooms, &room_id) {
            let is_name = is_literal(&key, "m.room.name");
            let is_topic = is_literal(&key, "m.room.topic");
            if is_name || is_topic {
                let mut r = self.rooms[i].clone();
                if is_name {
                    r.name = value.clone();
                } else {
                    r.topic = value.clone();
                }
                let ghost rv = r@;
                self.rooms.set(i, r);
                proof {
                    assert(self@.rooms =~= s.rooms.update(i as int, rv));
                    lemma_update_unique(s.rooms, room_key(), i as int, rv);
                }
            }
        }
        let is_active = match &self.active_room {
            Some(a) => *a == room_id,
            None => false,
        };
        if is_active {
            self.set_current_room_detail(key, value)
        } else {
            let v: Vec<Effect> = Vec::new();
            assert(v.deep_view() =~= Seq::<EffectView>::empty());
            v
        }
    }

    /// Takes in a new room avatar (see `set_room_avatar_spec`).
    pub fn set_room_avatar(&mut self, room_id: String, avatar: Option<String>) -> (effects: Vec<
        Effect,
    >)
        requires
            old(self)@.wf(),
        ensures
            final(self)@.wf(),
            (final(self)@, effects.deep_view()) == set_room_avatar_spec(
                old(self)@,
                room_id@,
                avatar.deep_view(),
            ),
    {
        let ghost s = self@;
        let mut effects: Vec<Effect> = Vec::new();
        assert(effects.deep_view() =~= Seq::<EffectView>::empty());
        let uid = match &self.login_data {
            Some(ld) => ld.uid.clone(),
            None => return effects,
        };
        if avatar.is_none() {
            push_effect(&mut effects, Effect::DropRoomAvatarCache(room_id.clone()));
        }
        let ghost dropped = effects.deep_view();
        if let Some(i) = find_room(&self.rooms, &room_id) {
            let ghost mv = self@.rooms[i as int].members;
                        if avatar.is_none() && self.rooms[i].members.len() == 2 {
                let mut k: usize = 0;
                assert(mv.take(0).filter(other_than(uid@)) =~= Seq::<MemberView>::empty()) by {
                    reveal(Seq::filter);
                }
                assert(effects.deep_view() =~= dropped + mv.take(0).filter(other_than(uid@)).map_values(avatar_link(room_id@)));
                while k < 2
                    invariant
                        k <= 2,
                        i < self.rooms.len(),
                        mv == self.rooms[i as int].members.deep_view(),
                        mv.len() == 2,
                        effects.deep_view() == dropped + mv.take(k as int).filter(other_than(uid@)).map_values(avatar_link(room_id@)),
                    decreases 2 - k,
                {
                    let ghost before = effects.deep_view();
                    assert(mv[k as int] == self.rooms[i as int].members@[k as int]@);
                    if !(self.rooms[i].members[k].uid == uid) {
                        push_effect(
                            &mut effects,
                            Effect::LinkRoomAvatarCache {
                                member: self.rooms[i].members[k].uid.clone(),
                                room: room_id.clone(),
                            },
                        );
                    }
                    proof {
                        mv.take(k as int).lemma_filter_push(mv[k as int], other_than(uid@));
                        assert(mv.take(k + 1) =~= mv.take(k as int).push(mv[k as int]));
                        let fm = mv.take(k as int).filter(other_than(uid@)).map_values(avatar_link(room_id@));
                        if other_than(uid@)(mv[k as int]) {
                            assert(mv.take(k as int).filter(other_than(uid@)).push(mv[k as int]).map_values(avatar_link(room_id@))
                                =~= fm.push(avatar_link(room_id@)(mv[k as int])));
                            assert(effects.deep_view() =~= dropped + fm.push(avatar_link(room_id@)(mv[k as int])));
                        } else {
                            assert(effects.deep_view() =~= dropped + fm);
                        }
                    }
                    k = k + 1;
                }
                assert(mv.take(2) =~= mv);
            }
            let mut r = self.rooms[i].clone();
            r.avatar = avatar.clone();
            let ghost rv = r@;
            self.rooms.set(i, r);
            proof {
                assert(self@.rooms =~= s.rooms.update(i as int, rv));
                lemma_update_unique(s.rooms, room_key(), i as int, rv);
            }
            push_effect(&mut effects, Effect::RoomListSetAvatar(room_id, avatar));
        }
        effects
    }

    /// Joins the room whose id was typed, when logged in: the typed text
    /// without surrounding white space is joined when it is a room id;
    /// otherwise the join fails at once with the reason.
    pub fn join_to_room(&self, name: String) -> (effects: Vec<Effect>)
        ensures
            match self@.login_data {
                None => effects.deep_view() == Seq::<EffectView>::empty(),
                Some(ld) => effects.deep_view().len() == 1 && if is_room_id(trimmed(name@)) {
                    effects.deep_view()[0] == EffectView::Send(
                        CommandView::JoinRoom {
                            server: ld.server_url,
                            token: ld.access_token,
                            room: trimmed(name@),
                        },
                    )
                } else {
                    effects.deep_view()[0] == EffectView::Send(
                        CommandView::JoinRoomFailed(room_id_error(trimmed(name@))->Some_0),
                    )
                },
            },
    {
        let mut effects: Vec<Effect> = Vec::new();
        assert(effects.deep_view() =~= Seq::<EffectView>::empty());
        let ld = match &self.login_data {
            Some(ld) => ld.clone(),
            None => return effects,
        };
        match parse_room_id(trim(name.as_str())) {
            Ok(room) => {
                push_effect(
                    &mut effects,
                    Effect::Send(
                        Command::JoinRoom { server: ld.server_url, token: ld.access_token, room },
                    ),
                );
            },
            Err(err) => {
                push_effect(&mut effects, Effect::Send(Command::JoinRoomFailed(err)));
            },
        }
        effects
    }

    /// Takes in a room that the backend created (see `new_room_spec`).
    pub fn new_room(&mut self, r: Room, internal_id: Option<String>, draft: Option<(String, i32)>) -> (effects:
        Vec<Effect>)
        requires
            old(self)@.wf(),
        ensures
            final(self)@.wf(),
            (final(self)@, effects.deep_view()) == new_room_spec(
                old(self)@,
                r@,
                internal_id.deep_view(),
                draft_view(draft),
            ),
    {
        let ghost s = self@;
        let ghost rv = r@;
        let mut effects: Vec<Effect> = Vec::new();
        assert(effects.deep_view() =~= Seq::<EffectView>::empty());
        if let Some(id) = internal_id {
            let more = self.remove_room(id);
            append_effects(&mut effects, more);
        }
        let ghost s1 = self@;
        if find_room(&self.rooms, &r.id).is_none() {
            proof {
                lemma_first_match_bounds(s1.rooms, is_room(rv.id));
                lemma_push_unique(s1.rooms, room_key(), rv);
            }
            self.rooms.push(r.clone());
            assert(self@.rooms =~= s1.rooms.push(rv));
        }
        let id = r.id.clone();
        push_effect(&mut effects, Effect::RoomListAdd(r));
        push_effect(&mut effects, Effect::RoomListMoveUp(id.clone()));
        let more = self.set_active_room_by_id(id, draft);
        append_effects(&mut effects, more);
        proof {
            let (es, ee) = new_room_spec(s, rv, internal_id.deep_view(), draft_view(draft));
            assert(effects.deep_view() =~= ee);
        }
        effects
    }

    /// Creates a room under a given internal id (see `create_new_room_spec`).
    pub fn create_new_room_with_id(
        &mut self,
        name: String,
        private: bool,
        internal_id: String,
        draft: Option<(String, i32)>,
    ) -> (effects: Vec<Effect>)
        requires
            old(self)@.wf(),
        ensures
            final(self)@.wf(),
            (final(self)@, effects.deep_view()) == create_new_room_spec(
                old(self)@,
                name@,
                private,
                internal_id@,
                draft_view(draft),
            ),
    {
        let ghost s = self@;
        let mut effects: Vec<Effect> = Vec::new();
        assert(effects.deep_view() =~= Seq::<EffectView>::empty());
        let ld = match &self.login_data {
            Some(ld) => ld.clone(),
            None => return effects,
        };
        let kind = if private {
            RoomType::Private
        } else {
            RoomType::Public
        };
        push_effect(
            &mut effects,
            Effect::Send(
                Command::NewRoom {
                    server: ld.server_url,
                    token: ld.access_token,
                    name: name.clone(),
                    kind,
                    internal_id: internal_id.clone(),
                },
            ),
        );
        let mut fake = Room::new(internal_id.clone(), RoomMembership::Joined(RoomTag::Untagged));
        fake.name = Some(name);
        let draft_copy = match &draft {
            Some((t, p)) => Some((t.clone(), *p)),
            None => None,
        };
        assert(draft_view(draft_copy) == draft_view(draft));
        let more = self.new_room(fake, None, draft_copy);
        append_effects(&mut effects, more);
        let more = self.set_active_room_by_id(internal_id, draft);
        append_effects(&mut effects, more);
        push_effect(&mut effects, Effect::SetState(AppState::Room));
        proof {
            let (es, ee) = create_new_room_spec(s, name@, private, internal_id@, draft_view(draft));
            assert(effects.deep_view() =~= ee);
        }
        effects
    }

    /// Creates a room with a new internal id made from the server of the
    /// session ("!", 18 random ASCII letters and digits, ":" and the server).
    /// When logged in and the server is not a server name, no id can be made
    /// and the result is `None`; otherwise it is what
    /// `create_new_room_with_id` gives for the new id.
    pub fn create_new_room(&mut self, name: String, private: bool, draft: Option<(String, i32)>) -> (effects:
        Option<Vec<Effect>>)
        requires
            old(self)@.wf(),
        ensures
            final(self)@.wf(),
            match old(self)@.login_data {
                None => effects matches Some(e) && e.deep_view() == Seq::<EffectView>::empty()
                    && final(self)@ == old(self)@,
                Some(ld) => {
                    &&& effects is Some <==> is_server_name(ld.server_url)
                    &&& effects is None ==> final(self)@ == old(self)@
                    &&& effects matches Some(e) ==> exists|id: Seq<char>|
                        is_new_room_id(id, ld.server_url) && (final(self)@, e.deep_view())
                            == create_new_room_spec(
                            old(self)@,
                            name@,
                            private,
                            id,
                            draft_view(draft),
                        )
                },
            },
    {
        let server = match &self.login_data {
            Some(ld) => ld.server_url.clone(),
            None => {
                let v: Vec<Effect> = Vec::new();
                assert(v.deep_view() =~= Seq::<EffectView>::empty());
                return Some(v);
            },
        };
        match new_room_id(server.as_str()) {
            Some(id) => Some(self.create_new_room_with_id(name, private, id, draft)),
            None => None,
        }
    }

    /// Marks or unmarks a known room as favourite.
    pub fn added_to_fav(&mut self, room_id: String, tofav: bool)
        requires
            old(self)@.wf(),
        ensures
            final(self)@.wf(),
            final(self)@ == added_to_fav_spec(old(self)@, room_id@, tofav),
    {
        let ghost s = self@;
        if let Some(i) = find_room(&self.rooms, &room_id) {
            let tag = if tofav {
                RoomTag::Favourite
            } else {
                RoomTag::Untagged
            };
            let mut r = self.rooms[i].clone();
            r.membership = RoomMembership::Joined(tag);
            let ghost rv = r@;
            self.rooms.set(i, r);
            proof {
                assert(self@.rooms =~= s.rooms.update(i as int, rv));
                lemma_update_unique(s.rooms, room_key(), i as int, rv);
            }
        }
    }

    /// The name to give a known room without a name, from its members (see
    /// `generated_name_spec`). Once put in words, it is set with
    /// `room_name_change`.
    pub fn recalculate_room_name(&self, room_id: &String) -> (r: Option<GeneratedName>)
        requires
            generates_name(self@, room_id@) ==> self@.rooms[room_index(self@.rooms, room_id@)].members.len() > 0,
        ensures
            match r {
                Some(n) => generated_name_spec(self@, room_id@) == Some(n@),
                None => generated_name_spec(self@, room_id@) is None,
            },
    {
        let uid = match &self.login_data {
            Some(ld) => &ld.uid,
            None => return None,
        };
        let i = match find_room(&self.rooms, room_id) {
            Some(i) => i,
            None => return None,
        };
        if self.rooms[i].name.is_some() {
            return None;
        }
        let members = &self.rooms[i].members;
        let ghost mv = members.deep_view();
        let mut found: Vec<String> = Vec::new();
        let mut k: usize = 0;
        assert(mv.take(0).filter(other_than(uid@)) =~= Seq::<MemberView>::empty()) by {
            reveal(Seq::filter);
        }
        assert(found.deep_view() =~= mv.take(0).filter(other_than(uid@)).map_values(alias_fn()));
        while k < members.len() && found.len() < 1
            invariant
                k <= members.len(),
                mv == members.deep_view(),
                found.deep_view() == mv.take(k as int).filter(other_than(uid@)).map_values(alias_fn()),
            decreases members.len() - k,
        {
            let ghost before = found.deep_view();
            assert(mv[k as int] == members@[k as int]@);
            if !(members[k].uid == *uid) {
                found.push(members[k].get_alias());
            }
            proof {
                mv.take(k as int).lemma_filter_push(mv[k as int], other_than(uid@));
                assert(mv.take(k + 1) =~= mv.take(k as int).push(mv[k as int]));
                if other_than(uid@)(mv[k as int]) {
                    assert(found.deep_view() =~= before.push(alias_of(mv[k as int])));
                    assert(mv.take(k as int).filter(other_than(uid@)).push(mv[k as int]).map_values(alias_fn())
                        =~= mv.take(k as int).filter(other_than(uid@)).map_values(alias_fn()).push(alias_of(mv[k as int])));
                } else {
                    assert(found.deep_view() =~= before);
                }
            }
            k = k + 1;
        }
        proof {
            let others = other_aliases(mv, uid@);
            let f = mv.take(k as int).filter(other_than(uid@));
            assert(mv =~= mv.take(k as int) + mv.skip(k as int));
            Seq::filter_distributes_over_add(mv.take(k as int), mv.skip(k as int), other_than(uid@));
            assert(others =~= f.map_values(alias_fn()) + mv.skip(k as int).filter(other_than(uid@)).map_values(alias_fn()));
            if found.len() < 1 {
                assert(k == members.len());
                assert(mv.skip(k as int) =~= Seq::<MemberView>::empty());
                assert(mv.skip(k as int).filter(other_than(uid@)) =~= Seq::<MemberView>::empty()) by {
                    reveal(Seq::filter);
                }
            }
        }
        let n = members.len() - 1;
        let first = if found.len() > 0 {
            found[0].clone()
        } else {
            String::new()
        };
        let name = if n == 0 {
            GeneratedName::Empty
        } else if n == 1 {
            GeneratedName::One(first)
        } else {
            GeneratedName::Others(first)
        };
        Some(name)
    }

    /// Takes in a new room name (see `room_name_change_spec`).
    pub fn room_name_change(&mut self, room_id: String, name: Option<String>) -> (effects: Vec<
        Effect,
    >)
        requires
            old(self)@.wf(),
        ensures
            final(self)@.wf(),
            (final(self)@, effects.deep_view()) == room_name_change_spec(
                old(self)@,
                room_id@,
                name.deep_view(),
            ),
            room_index(old(self)@.rooms, room_id@) >= 0 ==> final(self)@.rooms[room_index(
                final(self)@.rooms,
                room_id@,
            )].name == name.deep_view(),
    {
        let ghost s = self@;
        let mut effects: Vec<Effect> = Vec::new();
        assert(effects.deep_view() =~= Seq::<EffectView>::empty());
        let i = match find_room(&self.rooms, &room_id) {
            Some(i) => i,
            None => return effects,
        };
        let mut r = self.rooms[i].clone();
        r.name = name.clone();
        let ghost rv = r@;
        self.rooms.set(i, r);
        proof {
            assert(self@.rooms =~= s.rooms.update(i as int, rv));
            lemma_update_unique(s.rooms, room_key(), i as int, rv);
            lemma_first_match(s.rooms, is_room(room_id@), i as int);
            assert forall|j: int| 0 <= j < i implies !is_room(room_id@)(#[trigger] self@.rooms[j]) by {
                assert(self@.rooms[j] == s.rooms[j]);
            }
            lemma_first_match(self@.rooms, is_room(room_id@), i as int);
        }
        let is_active = match &self.active_room {
            Some(a) => *a == room_id,
            None => false,
        };
        if is_active {
            push_effect(&mut effects, Effect::RoomNameLabel(name.clone()));
        }
        push_effect(&mut effects, Effect::RoomListRename(room_id, name));
        effects
    }

    /// Takes in a new room topic (see `room_topic_change_spec`).
    pub fn room_topic_change(&mut self, room_id: String, topic: Option<String>) -> (effects: Vec<
        Effect,
    >)
        requires
            old(self)@.wf(),
        ensures
            final(self)@.wf(),
            (final(self)@, effects.deep_view()) == room_topic_change_spec(
                old(self)@,
                room_id@,
                topic.deep_view(),
            ),
    {
        let ghost s = self@;
        let mut effects: Vec<Effect> = Vec::new();
        assert(effects.deep_view() =~= Seq::<EffectView>::empty());
        let i = match find_room(&self.rooms, &room_id) {
            Some(i) => i,
            None => return effects,
        };
        let mut r = self.rooms[i].clone();
        r.topic = topic.clone();
        let ghost rv = r@;
        self.rooms.set(i, r);
        proof {
            assert(self@.rooms =~= s.rooms.update(i as int, rv));
            lemma_update_unique(s.rooms, room_key(), i as int, rv);
        }
        let is_active = match &self.active_room {
            Some(a) => *a == room_id,
            None => false,
        };
        if is_active {
            push_effect(&mut effects, Effect::RoomTopicLabel(topic_label(topic)));
        }
        effects
    }

    /// Asks for the avatar of a known room, when logged in.
    pub fn new_room_avatar(&self, room_id: String) -> (effects: Vec<Effect>)
        ensures
            effects.deep_view() == match self@.login_data {
                Some(ld) => if room_index(self@.rooms, room_id@) >= 0 {
                    seq![
                        EffectView::Send(
                            CommandView::GetRoomAvatar {
                                server: ld.server_url,
                                token: ld.access_token,
                                room: room_id@,
                            },
                        ),
                    ]
                } else {
                    seq![]
                },
                None => seq![],
            },
    {
        let mut effects: Vec<Effect> = Vec::new();
        assert(effects.deep_view() =~= Seq::<EffectView>::empty());
        let ld = match &self.login_data {
            Some(ld) => ld.clone(),
            None => return effects,
        };
        if find_room(&self.rooms, &room_id).is_none() {
            return effects;
        }
        push_effect(
            &mut effects,
            Effect::Send(
                Command::GetRoomAvatar { server: ld.server_url, token: ld.access_token, room: room_id },
            ),
        );
        effects
    }

    /// The user marked (or unmarked) a room of the room list as favourite:
    /// when logged in, the backend is asked to store it for the user.
    pub fn room_fav_toggled(&self, room_id: String, tofav: bool) -> (effects: Vec<Effect>)
        ensures
            effects.deep_view() == match self@.login_data {
                Some(ld) => seq![
                    EffectView::Send(
                        CommandView::AddToFav {
                            server: ld.server_url,
                            token: ld.access_token,
                            uid: ld.uid,
                            room: room_id@,
                            tofav,
                        },
                    ),
                ],
                None => seq![],
            },
    {
        let mut effects: Vec<Effect> = Vec::new();
        assert(effects.deep_view() =~= Seq::<EffectView>::empty());
        let ld = match &self.login_data {
            Some(ld) => ld.clone(),
            None => return effects,
        };
        push_effect(
            &mut effects,
            Effect::Send(
                Command::AddToFav {
                    server: ld.server_url,
                    token: ld.access_token,
                    uid: ld.uid,
                    room: room_id,
                    tofav,
                },
            ),
        );
        effects
    }

    /// Says that the user types in the active room, at most once every three
    /// seconds (see `send_typing_spec`); `now` is read from a monotonic clock
    /// in nanoseconds.
    pub fn send_typing(&mut self, now: u64) -> (effects: Vec<Effect>)
        requires
            old(self)@.wf(),
        ensures
            final(self)@.wf(),
            (final(self)@, effects.deep_view()) == send_typing_spec(old(self)@, now),
    {
        let ghost s = self@;
        let mut effects: Vec<Effect> = Vec::new();
        assert(effects.deep_view() =~= Seq::<EffectView>::empty());
        let ld = match &self.login_data {
            Some(ld) => ld.clone(),
            None => return effects,
        };
        let a = match &self.active_room {
            Some(a) => a.clone(),
            None => return effects,
        };
        let ghost t = self.typing.deep_view();
        let mut j: usize = 0;
        while j < self.typing.len()
            invariant
                j <= self.typing.len(),
                t == self.typing.deep_view(),
                forall|m: int| 0 <= m < j ==> !is_mark_of(a@)(#[trigger] t[m]),
            ensures
                j <= self.typing.len(),
                t == self.typing.deep_view(),
                forall|m: int| 0 <= m < j ==> !is_mark_of(a@)(#[trigger] t[m]),
                j < self.typing.len() ==> is_mark_of(a@)(t[j as int]),
            decreases self.typing.len() - j,
        {
            if self.typing[j].room == a {
                break;
            }
            j = j + 1;
        }
        proof {
            lemma_first_match(t, is_mark_of(a@), j as int);
        }
        if j < self.typing.len() {
            let at = self.typing[j].at;
            let elapsed = if now >= at {
                now - at
            } else {
                0
            };
            if elapsed / 1_000_000_000 < 3 {
                return effects;
            }
            let mark = TypingMark { room: a.clone(), at: now };
            let ghost mv = mark@;
            self.typing.set(j, mark);
            proof {
                assert(self.typing.deep_view() =~= t.update(j as int, mv));
                lemma_update_unique(t, typing_key(), j as int, mv);
            }
        } else {
            let mark = TypingMark { room: a.clone(), at: now };
            let ghost mv = mark@;
            self.typing.push(mark);
            proof {
                assert(self.typing.deep_view() =~= t.push(mv));
                lemma_push_unique(t, typing_key(), mv);
            }
        }
        push_effect(
            &mut effects,
            Effect::Send(
                Command::SendTyping {
                    server: ld.server_url,
                    token: ld.access_token,
                    uid: ld.uid,
                    room: a,
                },
            ),
        );
        effects
    }
}

} // verus!
