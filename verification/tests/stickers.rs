use fractal::appop::AppOp;
use fractal::effects::{Command, Effect};
use fractal::model::{Sticker, StickerGroup};
use fractal::stickers::{sort_sticker_groups, sticker_rows, thumbnail_rescale};

fn group(key: &str, name: &str, purchased: bool) -> StickerGroup {
    StickerGroup {
        key: key.to_string(),
        name: name.to_string(),
        description: String::new(),
        price: 0,
        purchased,
        thumbnail: String::new(),
        stickers: Vec::new(),
    }
}

fn sticker() -> Sticker {
    Sticker {
        name: "wave".to_string(),
        description: "a wave".to_string(),
        body: "Wave".to_string(),
        thumbnail: "mxc://thumb".to_string(),
        url: "mxc://full".to_string(),
        size: (64, 64),
    }
}

fn keys(groups: &[StickerGroup]) -> Vec<String> {
    groups.iter().map(|g| g.key.clone()).collect()
}

#[test]
fn bought_groups_come_first_then_by_name() {
    let sorted = sort_sticker_groups(vec![
        group("1", "zebra", false),
        group("2", "apple", false),
        group("3", "mango", true),
        group("4", "banana", true),
    ]);
    assert_eq!(keys(&sorted), vec!["4", "3", "2", "1"]);
}

#[test]
fn groups_of_the_same_place_keep_their_order() {
    let sorted = sort_sticker_groups(vec![
        group("a", "same", false),
        group("b", "same", true),
        group("c", "same", false),
        group("d", "same", true),
    ]);
    assert_eq!(keys(&sorted), vec!["b", "d", "a", "c"]);
}

#[test]
fn names_compare_by_characters_and_prefix_first() {
    let sorted = sort_sticker_groups(vec![
        group("1", "ab", false),
        group("2", "a", false),
        group("3", "B", false),
        group("4", "é", false),
        group("5", "", false),
    ]);
    assert_eq!(keys(&sorted), vec!["5", "3", "2", "1", "4"]);
}

#[test]
fn sorting_nothing_gives_nothing() {
    assert!(sort_sticker_groups(Vec::new()).is_empty());
}

#[test]
fn stickers_loaded_sorts_and_stops_loading() {
    let mut op = AppOp::new(None, None);
    let effects = op.stickers_loaded(vec![group("1", "b", false), group("2", "a", true)]);
    assert_eq!(keys(&op.stickers), vec!["2", "1"]);
    assert!(matches!(effects.as_slice(), [Effect::StickersLoading(false)]));
}

#[test]
fn loading_and_buying_stickers() {
    let op = AppOp::new(None, None);
    assert!(matches!(op.stickers_load().as_slice(), [Effect::StickersLoading(true), Effect::Send(Command::ListStickers)]));
    let effects = op.purchase_sticker(group("k", "n", false));
    assert!(matches!(effects.as_slice(), [Effect::Send(Command::PurchaseSticker(g)), Effect::StickersLoading(true)] if g.key == "k"));
}

#[test]
fn sent_sticker_shows_as_a_message() {
    let mut op = AppOp::new(None, Some("@me:x".to_string()));
    op.active_room = Some("!r:x".to_string());
    let effects = op.send_sticker(sticker(), 1234);
    assert_eq!(effects.len(), 2);
    assert!(matches!(&effects[0], Effect::Send(Command::SendSticker { room, sticker }) if room == "!r:x" && sticker.name == "wave"));
    match &effects[1] {
        Effect::AddTmpMessage(m) => {
            assert_eq!(m.sender, "@me:x");
            assert_eq!(m.mtype, "m.sticker");
            assert_eq!(m.room, "!r:x");
            assert_eq!(m.body, "Wave");
            assert_eq!(m.url, Some("mxc://full".to_string()));
            assert_eq!(m.thumb, Some("mxc://thumb".to_string()));
            assert_eq!(m.date, 1234);
            assert!(!m.redacted);
        },
        _ => panic!("expected the message"),
    }
}

#[test]
fn sticker_without_active_room_goes_to_empty_room() {
    let op = AppOp::new(None, None);
    let effects = op.send_sticker(sticker(), 0);
    assert!(matches!(&effects[0], Effect::Send(Command::SendSticker { room, .. }) if room.is_empty()));
    assert!(matches!(&effects[1], Effect::AddTmpMessage(m) if m.sender.is_empty()));
}

#[test]
fn thumbnails_are_rescaled_to_38_wide() {
    assert_eq!(thumbnail_rescale(38, 20), None);
    assert_eq!(thumbnail_rescale(19, 38), Some((38, 76)));
    assert_eq!(thumbnail_rescale(30, 20), Some((38, 25)));
}

#[test]
fn stickers_come_in_rows_of_five() {
    assert_eq!(sticker_rows(0), vec![Vec::<usize>::new()]);
    assert_eq!(sticker_rows(5), vec![vec![0, 1, 2, 3, 4]]);
    assert_eq!(sticker_rows(7), vec![vec![0, 1, 2, 3, 4], vec![5, 6]]);
    assert_eq!(sticker_rows(10).len(), 2);
}
