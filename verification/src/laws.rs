//! Properties of the room store that hold across operations and calls.

use vstd::prelude::*;

use crate::appop::{
    added_to_fav_spec, create_new_room_spec, is_mark_of, is_not_draft_of, is_not_room, is_room, really_leave_active_room_spec,
    power_of, remove_room_spec, room_index, send_typing_spec, set_active_room_by_id_spec, set_rooms_fold,
    set_rooms_step, AppOpView, TypingMarkView,
};
use crate::backend_loop::{loop_step_spec, response_calls, AppCall, BackendResponse, ErrorMessage};
use crate::effects::{CommandView, EffectView, RoomType};
use crate::room_settings::{layout_spec, level_of};
use crate::keyed::{first_match, lemma_filter_keeps_all, lemma_first_match, lemma_first_match_bounds};
use crate::model::{LoginDataView, PowerLevelView, Room, RoomMembershipView, RoomView};

verus! {

/// Whether some room of `rooms` has id `id`.
pub open spec fn holds_room(rooms: Seq<RoomView>, id: Seq<char>) -> bool {
    exists|i: int| 0 <= i < rooms.len() && #[trigger] rooms[i].id == id
}

/// Whether the last of the incoming rooms of id `id` is kept (it was not
/// left); `None` when no incoming room has that id.
pub open spec fn last_entry_kept(rooms: Seq<RoomView>, id: Seq<char>) -> Option<bool>
    decreases rooms.len(),
{
    if rooms.len() == 0 {
        None
    } else if rooms.last().id == id {
        Some(!(rooms.last().membership is Left))
    } else {
        last_entry_kept(rooms.drop_last(), id)
    }
}

proof fn lemma_holds_room_without(rooms: Seq<RoomView>, gone: Seq<char>, id: Seq<char>)
    ensures
        holds_room(rooms.filter(is_not_room(gone)), id) == (id != gone && holds_room(rooms, id)),
{
    let f = rooms.filter(is_not_room(gone));
    if holds_room(f, id) {
        let i = choose|i: int| 0 <= i < f.len() && #[trigger] f[i].id == id;
        rooms.lemma_filter_pred(is_not_room(gone), i);
        assert(f.contains(f[i]));
        rooms.lemma_filter_contains_rev(is_not_room(gone), f[i]);
        let j = choose|j: int| 0 <= j < rooms.len() && rooms[j] == f[i];
        assert(rooms[j].id == id);
    }
    if id != gone && holds_room(rooms, id) {
        let i = choose|i: int| 0 <= i < rooms.len() && #[trigger] rooms[i].id == id;
        rooms.lemma_filter_contains(is_not_room(gone), i);
        let j = choose|j: int| 0 <= j < f.len() && f[j] == rooms[i];
        assert(f[j].id == id);
    }
}

proof fn lemma_holds_room_update(rooms: Seq<RoomView>, i: int, r: RoomView, id: Seq<char>)
    requires
        0 <= i < rooms.len(),
        r.id == rooms[i].id,
    ensures
        holds_room(rooms.update(i, r), id) == holds_room(rooms, id),
{
    let u = rooms.update(i, r);
    if holds_room(u, id) {
        let j = choose|j: int| 0 <= j < u.len() && #[trigger] u[j].id == id;
        assert(rooms[j].id == id);
    }
    if holds_room(rooms, id) {
        let j = choose|j: int| 0 <= j < rooms.len() && #[trigger] rooms[j].id == id;
        assert(u[j].id == id);
    }
}

proof fn lemma_holds_room_push(rooms: Seq<RoomView>, r: RoomView, id: Seq<char>)
    ensures
        holds_room(rooms.push(r), id) == (r.id == id || holds_room(rooms, id)),
{
    let u = rooms.push(r);
    if holds_room(u, id) {
        let j = choose|j: int| 0 <= j < u.len() && #[trigger] u[j].id == id;
        if j < rooms.len() {
            assert(rooms[j].id == id);
        }
    }
    if holds_room(rooms, id) {
        let j = choose|j: int| 0 <= j < rooms.len() && #[trigger] rooms[j].id == id;
        assert(u[j].id == id);
    }
    if r.id == id {
        assert(u[rooms.len() as int].id == id);
    }
}

/// One incoming room decides whether the store holds its id: it does unless
/// the room was left. The store holds other ids as before, and stays logged
/// in.
pub proof fn lemma_set_rooms_step_presence(
    s: AppOpView,
    ld: LoginDataView,
    r: RoomView,
    clear: bool,
    id: Seq<char>,
)
    requires
        s.login_data is Some,
    ensures
        set_rooms_step(s, ld, r, clear).0.login_data == s.login_data,
        holds_room(set_rooms_step(s, ld, r, clear).0.rooms, id) == if id == r.id {
            !(r.membership is Left)
        } else {
            holds_room(s.rooms, id)
        },
{
    let i = room_index(s.rooms, r.id);
    lemma_first_match_bounds(s.rooms, is_room(r.id));
    match r.membership {
        RoomMembershipView::Left(_) => {
            lemma_holds_room_without(s.rooms, r.id, id);
        },
        _ => {
            if i >= 0 {
                let st = set_rooms_step(s, ld, r, clear).0;
                assert(st.rooms == s.rooms.update(i, st.rooms[i]));
                lemma_holds_room_update(s.rooms, i, st.rooms[i], id);
                if id == r.id {
                    assert(s.rooms[i].id == id);
                }
            } else {
                lemma_holds_room_push(s.rooms, r, id);
            }
        },
    }
}

/// Taking in a list of rooms, the store holds the id of an incoming room
/// exactly when the last incoming room of that id was not left; it holds
/// other ids as before.
pub proof fn lemma_set_rooms_presence(
    s: AppOpView,
    ld: LoginDataView,
    rooms: Seq<RoomView>,
    clear: bool,
    id: Seq<char>,
)
    requires
        s.login_data is Some,
    ensures
        set_rooms_fold(s, ld, rooms, clear).0.login_data == s.login_data,
        holds_room(set_rooms_fold(s, ld, rooms, clear).0.rooms, id) == match last_entry_kept(
            rooms,
            id,
        ) {
            Some(kept) => kept,
            None => holds_room(s.rooms, id),
        },
    decreases rooms.len(),
{
    if rooms.len() > 0 {
        lemma_set_rooms_presence(s, ld, rooms.drop_last(), clear, id);
        let (s1, e1, l1) = set_rooms_fold(s, ld, rooms.drop_last(), clear);
        lemma_set_rooms_step_presence(s1, ld, rooms.last(), clear, id);
    }
}

/// Removing a room twice is removing it once.
pub proof fn lemma_remove_room_idempotent(s: AppOpView, id: Seq<char>)
    ensures
        remove_room_spec(remove_room_spec(s, id).0, id).0 == remove_room_spec(s, id).0,
{
    let r1 = s.rooms.filter(is_not_room(id));
    assert forall|i: int| 0 <= i < r1.len() implies is_not_room(id)(#[trigger] r1[i]) by {
        s.rooms.lemma_filter_pred(is_not_room(id), i);
    }
    lemma_filter_keeps_all(r1, is_not_room(id));
    let u1 = s.unsent_messages.filter(is_not_draft_of(id));
    assert forall|i: int| 0 <= i < u1.len() implies is_not_draft_of(id)(#[trigger] u1[i]) by {
        s.unsent_messages.lemma_filter_pred(is_not_draft_of(id), i);
    }
    lemma_filter_keeps_all(u1, is_not_draft_of(id));
}

/// Leaving the active room, when logged in, leaves no room active and forgets
/// the room.
pub proof fn lemma_leave_forgets_room(s: AppOpView)
    requires
        s.login_data is Some,
        s.active_room is Some,
    ensures
        really_leave_active_room_spec(s).0.active_room is None,
        !holds_room(really_leave_active_room_spec(s).0.rooms, s.active_room->Some_0),
{
    lemma_holds_room_without(s.rooms, s.active_room->Some_0, s.active_room->Some_0);
}

/// Making a room active, when logged in, makes it the active room, unless it
/// is a known room that the user is only invited to: that one is kept as the
/// pending invitation and the active room stays. The rooms do not change.
pub proof fn lemma_set_active_room(s: AppOpView, id: Seq<char>, draft: Option<(Seq<char>, i32)>)
    requires
        s.login_data is Some,
    ensures
        set_active_room_by_id_spec(s, id, draft).0.rooms == s.rooms,
        ({
            let i = room_index(s.rooms, id);
            if i >= 0 && s.rooms[i].membership is Invited {
                &&& set_active_room_by_id_spec(s, id, draft).0.active_room == s.active_room
                &&& set_active_room_by_id_spec(s, id, draft).0.invitation_roomid == Some(id)
            } else {
                set_active_room_by_id_spec(s, id, draft).0.active_room == Some(id)
            }
        }),
{
    lemma_first_match_bounds(s.rooms, is_room(id));
}

/// Marking a room as favourite (or not) twice: the second marking counts.
pub proof fn lemma_added_to_fav_last_wins(s: AppOpView, id: Seq<char>, first: bool, second: bool)
    ensures
        added_to_fav_spec(added_to_fav_spec(s, id, first), id, second) == added_to_fav_spec(
            s,
            id,
            second,
        ),
{
    let t = added_to_fav_spec(s, id, first);
    let i = room_index(s.rooms, id);
    lemma_first_match_bounds(s.rooms, is_room(id));
    if i >= 0 {
        assert forall|j: int| 0 <= j < i implies !is_room(id)(#[trigger] t.rooms[j]) by {
            assert(t.rooms[j] == s.rooms[j]);
        }
        lemma_first_match(t.rooms, is_room(id), i);
        assert(added_to_fav_spec(t, id, second).rooms =~= added_to_fav_spec(s, id, second).rooms);
    }
}

/// The user is said to type at most once every three seconds in a room:
/// right after it was said at `t1`, saying it again before three seconds
/// have passed does nothing.
pub proof fn lemma_typing_at_most_every_three_seconds(s: AppOpView, t1: u64, t2: u64)
    requires
        send_typing_spec(s, t1).1.len() > 0,
        t1 <= t2,
        t2 - t1 < 3_000_000_000,
    ensures
        send_typing_spec(send_typing_spec(s, t1).0, t2).1.len() == 0,
{
    let a = s.active_room->Some_0;
    let t = send_typing_spec(s, t1).0;
    let j = first_match(s.typing, is_mark_of(a));
    lemma_first_match_bounds(s.typing, is_mark_of(a));
    let k = if j >= 0 {
        j
    } else {
        s.typing.len() as int
    };
    assert(t.typing[k] == TypingMarkView { room: a, at: t1 });
    assert forall|m: int| 0 <= m < k implies !is_mark_of(a)(#[trigger] t.typing[m]) by {
        assert(t.typing[m] == s.typing[m]);
    }
    lemma_first_match(t.typing, is_mark_of(a), k);
    assert((t2 - t1) / 1_000_000_000 < 3);
}

/// Once the loop shuts down it stays so and calls nothing, whatever it
/// receives; when the backend is gone it stops.
pub proof fn lemma_shutdown_is_final<Ev, P, E>(
    shutting_down: bool,
    received: BackendResponse<Ev, P, E>,
)
    ensures
        loop_step_spec(true, Some(received)) == (true, Some(Seq::<crate::backend_loop::AppCall<Ev, P>>::empty())),
        loop_step_spec(shutting_down, None::<BackendResponse<Ev, P, E>>).1 is None,
        received is ShutDown ==> loop_step_spec(shutting_down, Some(received)).0,
{
}

/// The loop run over answers received one after the other (the backend
/// still there): whether it ends shutting down, and every call it made, in
/// order.
pub open spec fn run_loop<Ev, P, E>(
    shutting_down: bool,
    answers: Seq<BackendResponse<Ev, P, E>>,
) -> (bool, Seq<AppCall<Ev, P>>)
    decreases answers.len(),
{
    if answers.len() == 0 {
        (shutting_down, seq![])
    } else {
        let (s1, c1) = run_loop(shutting_down, answers.drop_last());
        let (s2, c2) = loop_step_spec(s1, Some(answers.last()));
        (s2, c1 + c2->Some_0)
    }
}

/// The calls of each answer, one answer after the other.
pub open spec fn calls_in_order<Ev, P, E>(answers: Seq<BackendResponse<Ev, P, E>>) -> Seq<
    AppCall<Ev, P>,
>
    decreases answers.len(),
{
    if answers.len() == 0 {
        seq![]
    } else {
        calls_in_order(answers.drop_last()) + response_calls(answers.last())
    }
}

proof fn lemma_run_before_shutdown<Ev, P, E>(answers: Seq<BackendResponse<Ev, P, E>>)
    requires
        forall|i: int| 0 <= i < answers.len() ==> !(#[trigger] answers[i] is ShutDown),
    ensures
        run_loop(false, answers) == (false, calls_in_order(answers)),
    decreases answers.len(),
{
    if answers.len() > 0 {
        let rest = answers.drop_last();
        assert forall|i: int| 0 <= i < rest.len() implies !(#[trigger] rest[i] is ShutDown) by {
            assert(rest[i] == answers[i]);
        }
        lemma_run_before_shutdown(rest);
        assert(!(answers[answers.len() - 1] is ShutDown));
    }
}

proof fn lemma_run_after_shutdown<Ev, P, E>(answers: Seq<BackendResponse<Ev, P, E>>)
    ensures
        run_loop(true, answers) == (true, Seq::<AppCall<Ev, P>>::empty()),
    decreases answers.len(),
{
    if answers.len() > 0 {
        lemma_run_after_shutdown(answers.drop_last());
        assert(Seq::<AppCall<Ev, P>>::empty() + Seq::<AppCall<Ev, P>>::empty() =~= Seq::<
            AppCall<Ev, P>,
        >::empty());
    }
}

proof fn lemma_run_split<Ev, P, E>(
    shutting_down: bool,
    a: Seq<BackendResponse<Ev, P, E>>,
    b: Seq<BackendResponse<Ev, P, E>>,
)
    ensures
        run_loop(shutting_down, a + b) == (
            run_loop(run_loop(shutting_down, a).0, b).0,
            run_loop(shutting_down, a).1 + run_loop(run_loop(shutting_down, a).0, b).1,
        ),
    decreases b.len(),
{
    if b.len() == 0 {
        assert(a + b =~= a);
        assert(run_loop(shutting_down, a).1 + Seq::<AppCall<Ev, P>>::empty() =~= run_loop(
            shutting_down,
            a,
        ).1);
    } else {
        lemma_run_split(shutting_down, a, b.drop_last());
        assert((a + b).drop_last() =~= a + b.drop_last());
        assert((a + b).last() == b.last());
        let s0 = run_loop(shutting_down, a);
        let r1 = run_loop(s0.0, b.drop_last());
        let st = loop_step_spec(r1.0, Some(b.last()));
        assert(s0.1 + r1.1 + st.1->Some_0 =~= s0.1 + (r1.1 + st.1->Some_0));
    }
}

/// Once the backend answers that it shuts down, nothing it answers after
/// that makes any call: the calls made over a run of answers whose first
/// shutdown is at `j` are exactly those of the answers before it, answer
/// after answer, and the loop ends shutting down.
pub proof fn lemma_nothing_dispatched_after_shutdown<Ev, P, E>(
    answers: Seq<BackendResponse<Ev, P, E>>,
    j: int,
)
    requires
        0 <= j < answers.len(),
        answers[j] is ShutDown,
        forall|i: int| 0 <= i < j ==> !(#[trigger] answers[i] is ShutDown),
    ensures
        run_loop(false, answers) == (true, calls_in_order(answers.take(j))),
{
    let before = answers.take(j);
    let after = answers.skip(j);
    assert(answers =~= before + after);
    assert forall|i: int| 0 <= i < before.len() implies !(#[trigger] before[i] is ShutDown) by {
        assert(before[i] == answers[i]);
    }
    lemma_run_before_shutdown(before);
    let first = after.take(1);
    let rest = after.skip(1);
    assert(after =~= first + rest);
    lemma_run_split(false, first, rest);
    assert(first.drop_last() =~= Seq::<BackendResponse<Ev, P, E>>::empty());
    assert(first.last() == answers[j]);
    assert(run_loop(false, first.drop_last()) == (false, Seq::<AppCall<Ev, P>>::empty()));
    assert(first.last() is ShutDown);
    assert(run_loop(false, first).0);
    assert(run_loop(false, first).1 =~= Seq::<AppCall<Ev, P>>::empty());
    lemma_run_after_shutdown(rest);
    lemma_run_split(false, before, after);
    assert(run_loop(false, after).1 =~= Seq::<AppCall<Ev, P>>::empty());
    assert(calls_in_order(before) + run_loop(false, after).1 =~= calls_in_order(before));
}

/// The message entry that opening a room leaves: editable or read-only.
pub open spec fn entry_editable(effects: Seq<EffectView>, editable: bool) -> bool {
    &&& effects.contains(EffectView::MessageEntryEditable(editable))
    &&& !effects.contains(EffectView::MessageEntryEditable(!editable))
}

proof fn lemma_open_room_entry(s: AppOpView, id: Seq<char>, draft: Option<(Seq<char>, i32)>, i: int)
    requires
        s.login_data is Some,
        0 <= i < s.rooms.len(),
        s.rooms[i].id == id,
        forall|k: int| 0 <= k < i ==> #[trigger] s.rooms[k].id != id,
        !(s.rooms[i].membership is Invited),
    ensures
        room_index(s.rooms, id) == i,
        entry_editable(
            set_active_room_by_id_spec(s, id, draft).1,
            power_of(s.rooms[i], s.login_data->Some_0.uid) >= 0 || s.rooms[i].admins.len() == 0,
        ),
{
    assert forall|k: int| 0 <= k < i implies !is_room(id)(#[trigger] s.rooms[k]) by {
        assert(s.rooms[k].id != id);
    }
    lemma_first_match(s.rooms, is_room(id), i);
    let ld = s.login_data->Some_0;
    let w = power_of(s.rooms[i], ld.uid) >= 0 || s.rooms[i].admins.len() == 0;
    let e = set_active_room_by_id_spec(s, id, draft).1;
    let lang: Seq<EffectView> = match s.rooms[i].language {
        Some(l) => seq![EffectView::SetLanguage(l)],
        None => seq![],
    };
    let rest = e.skip(lang.len() as int + 1);
    assert(e =~= lang + seq![EffectView::MessageEntryEditable(w)] + rest);
    assert(e[lang.len() as int] == EffectView::MessageEntryEditable(w));
    assert(forall|k: int| 0 <= k < rest.len() ==> !(#[trigger] rest[k] is MessageEntryEditable));
    if e.contains(EffectView::MessageEntryEditable(!w)) {
        let k = choose|k: int| 0 <= k < e.len() && e[k] == EffectView::MessageEntryEditable(!w);
        if k < lang.len() {
            assert(lang[k] is SetLanguage);
        } else if k > lang.len() {
            assert(rest[k - lang.len() - 1] == e[k]);
        }
    }
}

/// Opening a known room that the user is not only invited to, while logged
/// in: when the user has a power level of their own in it (the first entry
/// for them, at `j`), the message entry is editable exactly when that level
/// is at least 0.
pub proof fn lemma_open_room_listed_level(
    s: AppOpView,
    id: Seq<char>,
    draft: Option<(Seq<char>, i32)>,
    i: int,
    j: int,
)
    requires
        s.login_data is Some,
        0 <= i < s.rooms.len(),
        s.rooms[i].id == id,
        forall|k: int| 0 <= k < i ==> #[trigger] s.rooms[k].id != id,
        !(s.rooms[i].membership is Invited),
        0 <= j < s.rooms[i].admins.len(),
        s.rooms[i].admins[j].uid == s.login_data->Some_0.uid,
        forall|k: int| 0 <= k < j ==> #[trigger] s.rooms[i].admins[k].uid != s.login_data->Some_0.uid,
    ensures
        entry_editable(set_active_room_by_id_spec(s, id, draft).1, s.rooms[i].admins[j].level >= 0),
{
    let uid = s.login_data->Some_0.uid;
    let a = s.rooms[i].admins;
    lemma_first_match(a, |p: PowerLevelView| p.uid == uid, j);
    lemma_open_room_entry(s, id, draft, i);
}

/// Opening a known room that the user is not only invited to, while logged
/// in: when the user has no power level of their own in it, their level is
/// the room's default, and the message entry is editable exactly when that
/// default is at least 0 or the room gives no power levels at all.
pub proof fn lemma_open_room_default_level(
    s: AppOpView,
    id: Seq<char>,
    draft: Option<(Seq<char>, i32)>,
    i: int,
)
    requires
        s.login_data is Some,
        0 <= i < s.rooms.len(),
        s.rooms[i].id == id,
        forall|k: int| 0 <= k < i ==> #[trigger] s.rooms[k].id != id,
        !(s.rooms[i].membership is Invited),
        forall|k: int|
            0 <= k < s.rooms[i].admins.len() ==> #[trigger] s.rooms[i].admins[k].uid
                != s.login_data->Some_0.uid,
    ensures
        entry_editable(
            set_active_room_by_id_spec(s, id, draft).1,
            s.rooms[i].default_power_level >= 0 || s.rooms[i].admins.len() == 0,
        ),
{
    let uid = s.login_data->Some_0.uid;
    let a = s.rooms[i].admins;
    lemma_first_match(a, |p: PowerLevelView| p.uid == uid, a.len() as int);
    lemma_open_room_entry(s, id, draft, i);
}

/// A user with no power level of their own in a room has level 0 there: the
/// settings panel lets them change nothing, and shows the name and topic
/// read-only.
pub proof fn lemma_settings_unlisted_user_cannot_edit(room: RoomView, uid: Seq<char>)
    requires
        forall|k: int| 0 <= k < room.admins.len() ==> #[trigger] room.admins[k].uid != uid,
    ensures
        !layout_spec(room, uid).edit,
        layout_spec(room, uid).name is Show,
        !(layout_spec(room, uid).topic is Edit),
{
    lemma_first_match(room.admins, level_of(uid), room.admins.len() as int);
}

/// A user whose first power-level entry in a room is at `j` may change the
/// room from its settings panel exactly when that level is at least 50 and
/// the room is not a direct chat; the name and topic are then editable.
pub proof fn lemma_settings_listed_user_edit(room: RoomView, uid: Seq<char>, j: int)
    requires
        0 <= j < room.admins.len(),
        room.admins[j].uid == uid,
        forall|k: int| 0 <= k < j ==> #[trigger] room.admins[k].uid != uid,
    ensures
        layout_spec(room, uid).edit == (room.admins[j].level >= 50 && !room.direct),
        layout_spec(room, uid).edit ==> layout_spec(room, uid).name is Edit,
        layout_spec(room, uid).edit ==> layout_spec(room, uid).topic is Edit,
{
    assert forall|k: int| 0 <= k < j implies !level_of(uid)(#[trigger] room.admins[k]) by {
        assert(room.admins[k].uid != uid);
    }
    lemma_first_match(room.admins, level_of(uid), j);
}

/// Every answer of the backend but
/// the shutdown, the acknowledgements of leaving a room and of changing its
/// name, topic or avatar, and answers that are only logged, calls at least
/// one operation of the window while the loop runs.
pub proof fn lemma_answers_reach_the_window<Ev, P, E>(r: BackendResponse<Ev, P, E>)
    requires
        !(r is ShutDown),
        !(r is LeaveRoom),
        !(r is SetRoomName),
        !(r is SetRoomTopic),
        !(r is SetRoomAvatar),
        !(r is Other),
    ensures
        loop_step_spec(false, Some(r)).0 == false,
        loop_step_spec(false, Some(r)).1 matches Some(calls) && calls.len() > 0,
{
    if let BackendResponse::DirectorySearch(rooms) = r {
        if rooms@.len() > 0 {
            assert(rooms@.map_values(|x: Room| AppCall::<Ev, P>::SetDirectoryRoom(x)).len() > 0);
        }
    }
}

/// The operation of the window that each answer of the backend calls first,
/// while the loop runs: logging in and out, the user's name and avatar, the
/// sync, room lists and details, messages, notifications, new rooms,
/// favourites and the errors shown.
pub proof fn lemma_answer_first_call<Ev, P, E>(r: BackendResponse<Ev, P, E>)
    ensures
        ({
            let c = loop_step_spec(false, Some(r)).1->Some_0;
            &&& r matches BackendResponse::Token(u, t) ==> c[0] == AppCall::<Ev, P>::BkLogin(u, t)
            &&& r is Logout ==> c == seq![AppCall::<Ev, P>::BkLogout]
            &&& r matches BackendResponse::Name(n) ==> c[0] == AppCall::<Ev, P>::SetUsername(Some(n))
            &&& r matches BackendResponse::Avatar(a) ==> c[0] == AppCall::<Ev, P>::SetAvatar(Some(a))
            &&& r matches BackendResponse::Sync(b) ==> c[0] == AppCall::<Ev, P>::Synced(Some(b))
            &&& r matches BackendResponse::Rooms(rs, d) ==> c[0] == AppCall::<Ev, P>::UpdateRooms(rs, d)
            &&& r matches BackendResponse::NewRooms(rs) ==> c[0] == AppCall::<Ev, P>::NewRooms(rs)
            &&& r matches BackendResponse::RoomDetail(id, k, v) ==> c[0]
                == AppCall::<Ev, P>::SetRoomDetail(id, k, Some(v))
            &&& r matches BackendResponse::RoomAvatar(id, a) ==> c[0]
                == AppCall::<Ev, P>::SetRoomAvatar(id, Some(a))
            &&& r matches BackendResponse::RoomMembers(m) ==> c[0] == AppCall::<Ev, P>::SetRoomMembers(m)
            &&& r matches BackendResponse::RoomMessages(m) ==> c[0]
                == AppCall::<Ev, P>::ShowRoomMessages(m, false)
            &&& r matches BackendResponse::RoomMessagesInit(m) ==> c[0]
                == AppCall::<Ev, P>::ShowRoomMessages(m, true)
            &&& r matches BackendResponse::RoomMessagesTo(m) ==> c[0]
                == AppCall::<Ev, P>::ShowRoomMessagesTop(m)
            &&& r is SendMsg ==> c == seq![AppCall::<Ev, P>::Sync]
            &&& r is JoinRoom ==> c == seq![AppCall::<Ev, P>::ReloadRooms]
            &&& r is SearchEnd ==> c == seq![AppCall::<Ev, P>::SearchEnd]
            &&& r matches BackendResponse::MarkedAsRead(id, _) ==> c[0]
                == AppCall::<Ev, P>::ClearRoomNotifications(id)
            &&& r matches BackendResponse::RoomName(id, n) ==> c[0]
                == AppCall::<Ev, P>::RoomNameChange(id, Some(n))
            &&& r matches BackendResponse::RoomTopic(id, t) ==> c[0]
                == AppCall::<Ev, P>::RoomTopicChange(id, Some(t))
            &&& r matches BackendResponse::NewRoomAvatar(id) ==> c[0] == AppCall::<Ev, P>::NewRoomAvatar(id)
            &&& r matches BackendResponse::Media(f) ==> c[0] == AppCall::<Ev, P>::OpenMedia(f)
            &&& r matches BackendResponse::NewRoom(room, id) ==> c[0]
                == AppCall::<Ev, P>::NewRoom(room, Some(id))
            &&& r matches BackendResponse::AddedToFav(id, f) ==> c[0] == AppCall::<Ev, P>::AddedToFav(id, f)
            &&& r matches BackendResponse::NewRoomError(_, id) ==> c[0] == AppCall::<Ev, P>::RemoveRoom(id)
            &&& r is JoinRoomError ==> c[0] == AppCall::<Ev, P>::ShowError(ErrorMessage::CantJoinRoom)
            &&& r is LoginError ==> c[0] == AppCall::<Ev, P>::ShowError(ErrorMessage::CantLogin)
            &&& r is SendMsgError ==> c[0] == AppCall::<Ev, P>::ShowError(ErrorMessage::CantSendMessage)
            &&& r is DirectoryError ==> c[0] == AppCall::<Ev, P>::ShowError(ErrorMessage::CantSearchRooms)
            &&& r is SyncError ==> c == seq![AppCall::<Ev, P>::SyncError]
        }),
{
}

/// Taking in a room of a sync that is already known and not left keeps the
/// room where it is; its language is replaced only when the incoming room
/// has one, and kept otherwise.
pub proof fn lemma_sync_keeps_known_language(
    s: AppOpView,
    ld: LoginDataView,
    r: RoomView,
    clear: bool,
    i: int,
)
    requires
        0 <= i < s.rooms.len(),
        s.rooms[i].id == r.id,
        forall|k: int| 0 <= k < i ==> #[trigger] s.rooms[k].id != r.id,
        !(r.membership is Left),
    ensures
        set_rooms_step(s, ld, r, clear).0.rooms.len() == s.rooms.len(),
        set_rooms_step(s, ld, r, clear).0.rooms[i].id == r.id,
        set_rooms_step(s, ld, r, clear).0.rooms[i].language == if r.language is Some {
            r.language
        } else {
            s.rooms[i].language
        },
{
    assert forall|k: int| 0 <= k < i implies !is_room(r.id)(#[trigger] s.rooms[k]) by {
        assert(s.rooms[k].id != r.id);
    }
    lemma_first_match(s.rooms, is_room(r.id), i);
}

/// Creating a room while logged in first asks the backend for it, under the
/// given name and internal id, private exactly when the user asked for a
/// private room.
pub proof fn lemma_new_room_visibility(
    s: AppOpView,
    name: Seq<char>,
    private: bool,
    internal_id: Seq<char>,
    draft: Option<(Seq<char>, i32)>,
)
    requires
        s.login_data is Some,
    ensures
        create_new_room_spec(s, name, private, internal_id, draft).1[0] matches EffectView::Send(
            CommandView::NewRoom { name: n, kind, internal_id: id, .. },
        ) && n == name && id == internal_id && (kind == RoomType::Private <==> private),
{
}

} // verus!
