//! Sticker groups: the order in which they are listed, how the stickers of a
//! group are laid out in rows, how a thumbnail is scaled, and what sending or
//! buying a sticker does.

use vstd::prelude::*;

use crate::appop::{push_effect, AppOp};
use crate::effects::{Command, CommandView, Effect, EffectView};
use crate::model::{Message, MessageView, Sticker, StickerGroup, StickerGroupView};
use crate::text::{
    lemma_name_lt_asymmetric, lemma_name_lt_irreflexive, lemma_name_lt_total,
    lemma_name_lt_transitive, name_less, name_lt,
};

verus! {

/// Whether group `x` is listed strictly before group `y`: bought groups come
/// first, and groups that are both bought or both not bought come in the
/// order of their names.
pub open spec fn listed_before(x: StickerGroupView, y: StickerGroupView) -> bool {
    ||| x.purchased && !y.purchased
    ||| x.purchased == y.purchased && name_lt(x.name, y.name)
}

/// Whether two groups share their place in the order (same purchase state and
/// same name).
pub open spec fn same_rank(x: StickerGroupView, y: StickerGroupView) -> bool {
    x.purchased == y.purchased && x.name == y.name
}

/// The groups that share their place in the order with `g`.
pub open spec fn rank_of(g: StickerGroupView) -> spec_fn(StickerGroupView) -> bool {
    |x: StickerGroupView| same_rank(x, g)
}

/// No group is listed before one that precedes it.
pub open spec fn sorted_for_listing(s: Seq<StickerGroupView>) -> bool {
    forall|i: int, j: int| 0 <= i < j < s.len() ==> !listed_before(#[trigger] s[j], #[trigger] s[i])
}

/// `out` holds, for every place in the order, the groups of `inp` that share
/// it, in the order in which they come in `inp`.
pub open spec fn same_groups_in_stable_order(
    out: Seq<StickerGroupView>,
    inp: Seq<StickerGroupView>,
) -> bool {
    forall|g: StickerGroupView| #[trigger] out.filter(rank_of(g)) == inp.filter(rank_of(g))
}

proof fn lemma_listed_before_order(x: StickerGroupView, y: StickerGroupView, z: StickerGroupView)
    ensures
        !listed_before(x, x),
        listed_before(x, y) ==> !listed_before(y, x),
        listed_before(x, y) ==> !same_rank(x, y),
        listed_before(x, y) && listed_before(y, z) ==> listed_before(x, z),
        listed_before(x, y) && same_rank(y, z) ==> listed_before(x, z),
        same_rank(x, y) && listed_before(y, z) ==> listed_before(x, z),
        !same_rank(x, y) ==> listed_before(x, y) || listed_before(y, x),
{
    lemma_name_lt_irreflexive(x.name);
    lemma_name_lt_asymmetric(x.name, y.name);
    lemma_name_lt_transitive(x.name, y.name, z.name);
    lemma_name_lt_total(x.name, y.name);
}

/// Whether group `x` is listed strictly before group `y`.
fn group_listed_before(x: &StickerGroup, y: &StickerGroup) -> (r: bool)
    ensures
        r == listed_before(x@, y@),
{
    if x.purchased != y.purchased {
        x.purchased
    } else {
        name_less(&x.name, &y.name)
    }
}

/// The sticker groups in the order in which they are listed: bought groups
/// first, each part by name; groups of the same place keep their order.
pub fn sort_sticker_groups(groups: Vec<StickerGroup>) -> (r: Vec<StickerGroup>)
    ensures
        sorted_for_listing(r.deep_view()),
        same_groups_in_stable_order(r.deep_view(), groups.deep_view()),
        r.deep_view().to_multiset() == groups.deep_view().to_multiset(),
{
    let ghost inp = groups.deep_view();
    let mut rest = groups;
    let mut out: Vec<StickerGroup> = Vec::new();
    let ghost mut k: int = 0;
    assert(inp.skip(0) =~= inp);
    assert(out.deep_view() =~= inp.take(0));
    while rest.len() > 0
        invariant
            0 <= k <= inp.len(),
            rest.deep_view() =~= inp.skip(k),
            sorted_for_listing(out.deep_view()),
            same_groups_in_stable_order(out.deep_view(), inp.take(k)),
            out.deep_view().to_multiset() == inp.take(k).to_multiset(),
        decreases rest.len(),
    {
        let ghost pre = rest.deep_view();
        let x = rest.remove(0);
        let ghost xv = x@;
        assert(pre[0] == xv);
        assert(pre.len() > 0);
        assert(k < inp.len());
        assert(pre[0] == inp.skip(k)[0]);
        assert(xv == inp[k]);
        assert(rest.deep_view() =~= pre.drop_first());
        assert(inp.skip(k + 1) =~= inp.skip(k).drop_first());
        let ghost old_out = out.deep_view();
        let mut i = out.len();
        while i > 0 && group_listed_before(&x, &out[i - 1])
            invariant
                i <= out.len(),
                xv == x@,
                out.deep_view() == old_out,
                forall|m: int| i <= m < out.len() ==> listed_before(xv, #[trigger] old_out[m]),
            decreases i,
        {
            assert(old_out[i - 1] == out@[i - 1]@);
            i = i - 1;
        }
        proof {
            assert forall|m: int| 0 <= m < i implies !listed_before(xv, #[trigger] old_out[m]) by {
                if listed_before(xv, old_out[m]) {
                    let y = old_out[i - 1];
                    assert(!listed_before(xv, y));
                    assert(!listed_before(y, old_out[m]));
                    lemma_listed_before_order(old_out[m], y, xv);
                    lemma_listed_before_order(xv, old_out[m], y);
                }
            }
        }
        out.insert(i, x);
        let ghost new_out = out.deep_view();
        proof {
            assert(new_out =~= old_out.insert(i as int, xv));
            assert forall|a: int, b: int| 0 <= a < b < new_out.len() implies !listed_before(
                #[trigger] new_out[b],
                #[trigger] new_out[a],
            ) by {
                if a < i && b == i {
                    lemma_listed_before_order(old_out[a], xv, xv);
                } else if a == i {
                    lemma_listed_before_order(xv, old_out[b - 1], xv);
                } else if a < i && b > i {
                    assert(new_out[b] == old_out[b - 1]);
                } else if a > i {
                    assert(new_out[a] == old_out[a - 1]);
                    assert(new_out[b] == old_out[b - 1]);
                }
            }
            let front = old_out.take(i as int);
            let back = old_out.skip(i as int);
            assert(old_out =~= front + back);
            assert(new_out =~= front + seq![xv] + back);
            assert(inp.take(k + 1) =~= inp.take(k).push(inp[k]));
            assert forall|g: StickerGroupView| #[trigger] new_out.filter(rank_of(g)) == inp.take(
                k + 1,
            ).filter(rank_of(g)) by {
                let p = rank_of(g);
                Seq::filter_distributes_over_add(front, back, p);
                Seq::filter_distributes_over_add(front + seq![xv], back, p);
                Seq::filter_distributes_over_add(front, seq![xv], p);
                inp.take(k).lemma_filter_push(xv, p);
                Seq::<StickerGroupView>::empty().lemma_filter_push(xv, p);
                assert(seq![xv] =~= Seq::<StickerGroupView>::empty().push(xv));
                assert(Seq::<StickerGroupView>::empty().filter(p) =~= Seq::<StickerGroupView>::empty());
                if p(xv) {
                    assert forall|m: int| 0 <= m < back.len() implies !p(#[trigger] back[m]) by {
                        lemma_listed_before_order(xv, back[m], g);
                        lemma_listed_before_order(back[m], g, xv);
                        lemma_listed_before_order(g, xv, back[m]);
                    }
                    back.lemma_all_neg_filter_empty(p);
                    assert(back.filter(p) =~= Seq::<StickerGroupView>::empty());
                }
            }
            vstd::seq_lib::lemma_multiset_commutative(front, back);
            vstd::seq_lib::lemma_multiset_commutative(front + seq![xv], back);
            vstd::seq_lib::lemma_multiset_commutative(front, seq![xv]);
            inp.take(k).to_multiset_ensures();
            Seq::<StickerGroupView>::empty().to_multiset_ensures();
            assert(new_out.to_multiset() =~= old_out.to_multiset().insert(xv));
            k = k + 1;
            assert(rest.deep_view() =~= inp.skip(k));
        }
    }
    assert(inp.take(k) =~= inp);
    out
}

/// The message shown at once for a sticker sent to `room` by `sender` at
/// time `date` (milliseconds).
pub open spec fn sticker_message(sender: Seq<char>, room: Seq<char>, sticker_body: Seq<char>, url: Seq<char>, thumb: Seq<char>, date: i64) -> MessageView {
    MessageView {
        sender,
        mtype: "m.sticker"@,
        date,
        room,
        id: None,
        body: sticker_body,
        url: Some(url),
        thumb: Some(thumb),
        formatted_body: None,
        format: None,
        source: None,
        redacted: false,
        in_reply_to: None,
    }
}

pub open spec fn or_empty(o: Option<Seq<char>>) -> Seq<char> {
    match o {
        Some(s) => s,
        None => Seq::empty(),
    }
}

fn string_or_empty(o: &Option<String>) -> (r: String)
    ensures
        r@ == or_empty(o.deep_view()),
{
    match o {
        Some(s) => s.clone(),
        None => String::new(),
    }
}

impl AppOp {
    /// Keeps the sticker groups in the order in which they are listed and
    /// stops showing that they load.
    pub fn stickers_loaded(&mut self, stickers: Vec<StickerGroup>) -> (effects: Vec<Effect>)
        ensures
            final(self)@ == (crate::appop::AppOpView { stickers: final(self)@.stickers, ..old(self)@ }),
            sorted_for_listing(final(self)@.stickers),
            same_groups_in_stable_order(final(self)@.stickers, stickers.deep_view()),
            final(self)@.stickers.to_multiset() == stickers.deep_view().to_multiset(),
            effects.deep_view() == seq![EffectView::StickersLoading(false)],
    {
        self.stickers = sort_sticker_groups(stickers);
        let mut effects: Vec<Effect> = Vec::new();
        assert(effects.deep_view() =~= Seq::<EffectView>::empty());
        push_effect(&mut effects, Effect::StickersLoading(false));
        effects
    }

    /// Shows that the sticker groups load and asks the backend for them.
    pub fn stickers_load(&self) -> (effects: Vec<Effect>)
        ensures
            effects.deep_view() == seq![
                EffectView::StickersLoading(true),
                EffectView::Send(CommandView::ListStickers),
            ],
    {
        let mut effects: Vec<Effect> = Vec::new();
        assert(effects.deep_view() =~= Seq::<EffectView>::empty());
        push_effect(&mut effects, Effect::StickersLoading(true));
        push_effect(&mut effects, Effect::Send(Command::ListStickers));
        effects
    }

    /// Asks the backend to buy a sticker group and shows that the groups
    /// load again.
    pub fn purchase_sticker(&self, group: StickerGroup) -> (effects: Vec<Effect>)
        ensures
            effects.deep_view() == seq![
                EffectView::Send(CommandView::PurchaseSticker(group@)),
                EffectView::StickersLoading(true),
            ],
    {
        let mut effects: Vec<Effect> = Vec::new();
        assert(effects.deep_view() =~= Seq::<EffectView>::empty());
        push_effect(&mut effects, Effect::Send(Command::PurchaseSticker(group)));
        push_effect(&mut effects, Effect::StickersLoading(true));
        effects
    }

    /// Sends a sticker to the active room (to the room of empty id when none
    /// is active) and shows it at once as a message of the user, dated `date`
    /// (milliseconds).
    pub fn send_sticker(&self, sticker: Sticker, date: i64) -> (effects: Vec<Effect>)
        ensures
            effects.deep_view() == seq![
                EffectView::Send(
                    CommandView::SendSticker { room: or_empty(self@.active_room), sticker: sticker@ },
                ),
                EffectView::AddTmpMessage(
                    sticker_message(
                        or_empty(self@.uid),
                        or_empty(self@.active_room),
                        sticker.body@,
                        sticker.url@,
                        sticker.thumbnail@,
                        date,
                    ),
                ),
            ],
    {
        let room = string_or_empty(&self.active_room);
        let msg = Message {
            sender: string_or_empty(&self.uid),
            mtype: "m.sticker".to_owned(),
            date,
            room: room.clone(),
            id: None,
            body: sticker.body.clone(),
            url: Some(sticker.url.clone()),
            thumb: Some(sticker.thumbnail.clone()),
            formatted_body: None,
            format: None,
            source: None,
            redacted: false,
            in_reply_to: None,
        };
        let mut effects: Vec<Effect> = Vec::new();
        assert(effects.deep_view() =~= Seq::<EffectView>::empty());
        push_effect(&mut effects, Effect::Send(Command::SendSticker { room, sticker }));
        push_effect(&mut effects, Effect::AddTmpMessage(msg));
        effects
    }
}

/// The size at which a sticker thumbnail first loaded at `width` x `height`
/// (fitted in 38 x 38) is loaded again: none when it is 38 wide already,
/// otherwise 38 wide and as high as keeps its proportions (rounded down).
pub fn thumbnail_rescale(width: i32, height: i32) -> (r: Option<(i32, i32)>)
    requires
        width > 0,
        height >= 0,
        height * 38 <= i32::MAX,
    ensures
        width == 38 ==> r is None,
        width != 38 ==> r == Some((38i32, ((height as int) * 38 / (width as int)) as i32)),
{
    if width != 38 {
        Some((38, height * 38 / width))
    } else {
        None
    }
}

/// The stickers of a group, by position, in rows of five: a row is started
/// at each multiple of five, and there is always a first row.
pub fn sticker_rows(count: usize) -> (rows: Vec<Vec<usize>>)
    ensures
        rows@.len() == if count == 0 {
            1
        } else {
            (count + 4) / 5
        },
        forall|r: int| 0 <= r < rows@.len() ==> (#[trigger] rows@[r])@.len() == if count - 5 * r >= 5 {
            5
        } else {
            count - 5 * r
        },
        forall|r: int, c: int|
            0 <= r < rows@.len() && 0 <= c < rows@[r]@.len() ==> #[trigger] rows@[r]@[c] == 5 * r + c,
{
    let mut rows: Vec<Vec<usize>> = Vec::new();
    let mut current: Vec<usize> = Vec::new();
    let mut i: usize = 0;
    while i < count
        invariant
            i <= count,
            rows@.len() == if i == 0 {
                0
            } else {
                (i - 1) / 5
            },
            forall|r: int| 0 <= r < rows@.len() ==> (#[trigger] rows@[r])@.len() == 5,
            forall|r: int, c: int|
                0 <= r < rows@.len() && 0 <= c < rows@[r]@.len() ==> #[trigger] rows@[r]@[c] == 5 * r + c,
            current@.len() == if i == 0 {
                0
            } else {
                (i - 1) % 5 + 1
            },
            forall|c: int| 0 <= c < current@.len() ==> #[trigger] current@[c] == 5 * rows@.len() + c,
        decreases count - i,
    {
        if i > 0 && i % 5 == 0 {
            let mut full: Vec<usize> = Vec::new();
            std::mem::swap(&mut full, &mut current);
            rows.push(full);
        }
        current.push(i);
        i = i + 1;
    }
    rows.push(current);
    rows
}

} // verus!
