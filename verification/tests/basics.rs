use riff::card_enums::{CardLayout, CardSize, SortOrder};
use riff::card_model::{CardKind, CardModel};
use riff::id_set::IdSet;
use riff::models::{AlbumRef, Batch, SongBatch, SongDescription};
use riff::pages::library_list::LibraryList;
use riff::pages::pinned_store::PinnedStore;
use riff::shell::commands::Command;
use riff::shell::dsp::{band_key_of, dsp_command, DspSettings};
use riff::song_list::SongListModel;
use riff::text::{
    cat3, contains, decimal_of, fill, join, order_text, order_u32, starts_with, to_ascii_lowercase,
    trim, Order,
};
use riff::widgets::card_list::CardList;

fn song(id: &str, title: &str) -> SongDescription {
    SongDescription {
        id: id.to_string(),
        uri: String::new(),
        title: title.to_string(),
        artists: vec![],
        album: AlbumRef { id: String::new(), name: String::new() },
        duration_ms: 0,
        art: None,
        track_number: None,
    }
}

fn batch(ids: Vec<&str>, total: usize) -> SongBatch {
    SongBatch {
        songs: ids.into_iter().map(|id| song(id, "first")).collect(),
        batch: Batch { offset: 0, batch_size: 2, total },
    }
}

#[test]
fn a_song_list_holds_no_song_twice() {
    let mut list = SongListModel::new(2);
    assert_eq!(list.len(), 0);
    list.add(batch(vec!["a", "b", "a"], 9));
    list.add(SongBatch {
        songs: vec![song("b", "second"), song("c", "second")],
        batch: Batch { offset: 2, batch_size: 2, total: 8 },
    });
    assert_eq!(list.partial_len(), 3);
    assert_eq!(list.len(), 8);
    assert_eq!(list.get("b").unwrap().title, "first");
    assert_eq!(list.find_index("c"), Some(2));
    assert_eq!(list.find_index("z"), None);
    assert!(list.index(3).is_none());
    let page = list.song_batch_for(2).unwrap();
    assert_eq!(page.songs, vec![song("c", "second")]);
    assert_eq!(page.batch, Batch { offset: 2, batch_size: 2, total: 8 });
    assert!(list.song_batch_for(3).is_none());
}

#[test]
fn sets_hold_each_id_once() {
    let mut set = IdSet::new();
    assert!(set.insert("a"));
    assert!(!set.insert("a"));
    assert!(set.contains("a"));
    assert!(set.remove("a"));
    assert!(!set.remove("a"));
    assert!(!set.contains("a"));
    let of_list = IdSet::from_list(&vec!["x".to_string(), "y".to_string(), "x".to_string()]);
    assert!(of_list.contains("x") && of_list.contains("y") && !of_list.contains("z"));
}

#[test]
fn text_is_compared_and_put_together() {
    assert_eq!(cat3("a", "b", "c"), "abc");
    assert_eq!(decimal_of(0), "0");
    assert_eq!(decimal_of(1205), "1205");
    assert_eq!(join(&vec!["a".to_string(), "b".to_string()], ", "), "a, b");
    assert_eq!(join(&vec![], ", "), "");
    assert_eq!(fill("{} of {}", "x"), "x of {}");
    assert_eq!(fill("none", "x"), "none");
    assert_eq!(trim("\u{a0} a b \n"), "a b");
    assert_eq!(trim(" \t"), "");
    assert_eq!(to_ascii_lowercase("ÄBC"), "Äbc");
    assert!(starts_with("abc", "ab") && !starts_with("abc", "b"));
    assert!(contains("abc", "bc") && contains("abc", "") && !contains("abc", "cb"));
    assert_eq!(order_text("a", "ab"), Order::Less);
    assert_eq!(order_text("b", "ab"), Order::Greater);
    assert_eq!(order_text("ab", "ab"), Order::Equal);
    assert_eq!(order_u32(2, 1), Order::Greater);
}

#[test]
fn white_space_is_trimmed() {
    let white = |c: char| {
        matches!(
            c,
            '\t'..='\r'
                | ' '
                | '\u{85}'
                | '\u{a0}'
                | '\u{1680}'
                | '\u{2000}'..='\u{200a}'
                | '\u{2028}'
                | '\u{2029}'
                | '\u{202f}'
                | '\u{205f}'
                | '\u{3000}'
        )
    };
    for c in '\0'..=char::MAX {
        assert_eq!(trim(&c.to_string()).is_empty(), white(c), "{:?}", c);
    }
}

#[test]
fn sizes_stop_at_their_ends() {
    assert_eq!(CardSize::Large.increase(), CardSize::Large);
    assert_eq!(CardSize::Small.decrease(), CardSize::Small);
    assert_eq!(CardSize::Small.increase().decrease(), CardSize::Small);
    let mut layout = CardLayout::Vertical;
    for _ in 0..3 {
        layout = layout.next();
    }
    assert_eq!(layout, CardLayout::Vertical);
}

#[test]
fn orders_are_stored_by_their_keys() {
    for order in [
        SortOrder::RecentlyAdded,
        SortOrder::Alphabetic,
        SortOrder::DateReleased,
        SortOrder::Popularity,
        SortOrder::Size,
        SortOrder::Creator,
    ] {
        assert_eq!(SortOrder::parse_key(order.to_str()), order);
    }
    assert_eq!(SortOrder::parse_key("something else"), SortOrder::RecentlyAdded);
}

fn card(id: &str, title: &str, count: u32) -> CardModel {
    CardModel::new(id, None, title, "", None, None, None)
        .with_kind(CardKind::Playlist)
        .with_track_count(count)
}

fn ids(cards: &Vec<CardModel>) -> Vec<String> {
    cards.iter().map(|c| c.id.clone()).collect()
}

#[test]
fn sorting_keeps_equal_cards_in_place() {
    let mut grid = CardList::new();
    grid.set_sort(SortOrder::Size);
    let mut store = vec![card("a", "A", 1), card("b", "B", 7), card("c", "C", 1), card("d", "D", 9)];
    grid.bind(&mut store, CardLayout::Vertical, CardSize::Small);
    grid.append_placeholders();
    let listed = grid.listed();
    let shown: Vec<&str> = listed.iter().flatten().map(|c| c.id.as_str()).collect();
    assert_eq!(shown, vec!["d", "b", "a", "c"]);
    assert!(listed[4].is_none());
    assert_eq!(listed.len(), grid.children.len());
}

#[test]
fn pinned_cards_are_sorted_to_the_top() {
    let mut pins = PinnedStore::load(None);
    pins.pin("c");
    pins.pin("b");
    let list = LibraryList::new(SortOrder::Alphabetic, false);
    let mut cards = vec![card("d", "D", 0), card("b", "B", 0), card("a", "A", 0), card("c", "C", 0)];
    list.sync_pins(&pins, &mut cards);
    assert_eq!(ids(&list.listed(&pins, &cards)), vec!["c", "b", "a", "d"]);
}

#[test]
fn sound_settings_reach_the_player() {
    let settings = DspSettings {
        mono_audio: true,
        pan: 0.5f64.to_bits(),
        pitch_cents: 100.0f64.to_bits(),
        bands: [0, 1, 2, 3, 4, 5, 6, 7, 8, 9].map(|b: u8| f64::from(b).to_bits()),
    };
    assert_eq!(band_key_of(9), "eq-band-9");
    assert_eq!(dsp_command("mono-audio", &settings), Some(Command::SetMono(true)));
    assert_eq!(dsp_command("pan", &settings), Some(Command::SetPan(0.5f64.to_bits())));
    assert_eq!(dsp_command("pitch-cents", &settings), Some(Command::SetPitch(100.0f64.to_bits())));
    let all = settings.bands;
    assert_eq!(dsp_command("eq-band-3", &settings), Some(Command::SetEqualizer(all)));
    assert_eq!(dsp_command("eq-band-10", &settings), None);
    assert_eq!(dsp_command("theme-preference", &settings), None);
}
