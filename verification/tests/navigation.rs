use mpdview::actions::Activate;
use mpdview::data::{Data, UiAction};
use mpdview::item::LibKind;
use mpdview::list::Library;
use mpdview::path::Path;

fn names(v: &[&str]) -> Vec<String> {
    v.iter().map(|s| s.to_string()).collect()
}

fn labels(lib: &Library) -> Vec<String> {
    lib.items.iter().map(|i| i.content.clone()).collect()
}

#[test]
fn breadcrumb_lifo_unwind() {
    // record(artist list A), record(album list B), then ascend twice:
    // the first ascent returns A, the second returns home.
    let a = Library::new(names(&["artist1", "artist2"]), LibKind::Artist);
    let b = Library::new(names(&["album1"]), LibKind::Album);
    let mut path = Path::new();
    path.update(a);
    path.update(b);
    let first = path.up();
    assert_eq!(labels(&first), vec!["artist1", "artist2"]);
    let second = path.up();
    assert_eq!(labels(&second), vec!["Playlists", "Artists", "Albums", "Titles"]);
    // A further ascent keeps returning home.
    let third = path.up();
    assert_eq!(labels(&third), vec!["Playlists", "Artists", "Albums", "Titles"]);
}

#[test]
fn breadcrumb_title_level_unwinds_to_album() {
    let a = Library::new(names(&["ar"]), LibKind::Artist);
    let b = Library::new(names(&["al"]), LibKind::Album);
    let t = Library::new(names(&["t1"]), LibKind::Title);
    let mut path = Path::new();
    path.update(a);
    path.update(b);
    path.update(t);
    assert_eq!(labels(&path.up()), vec!["al"]);
    assert_eq!(labels(&path.up()), vec!["ar"]);
    assert_eq!(labels(&path.up()), vec!["Playlists", "Artists", "Albums", "Titles"]);
}

#[test]
fn breadcrumb_ignores_empty_and_plain_lists() {
    let mut path = Path::new();
    path.update(Library::new(Vec::new(), LibKind::Artist));
    path.update(Library::new(names(&["q"]), LibKind::Plain));
    // Nothing was recorded: ascending returns home.
    assert_eq!(labels(&path.up()), vec!["Playlists", "Artists", "Albums", "Titles"]);
}

fn sample_data() -> Data {
    Data::new(
        names(&["", "Ann", "Bob"]),
        names(&["Alpha", "Beta"]),
        names(&["", "Song A", "Song B"]),
        names(&["q0", "q1"]),
        names(&["mix"]),
    )
}

#[test]
fn new_data_builds_categories() {
    let d = sample_data();
    assert_eq!(labels(&d.library), vec!["Playlists", "Artists", "Albums", "Titles"]);
    // Empty artist names are shown under a placeholder.
    assert_eq!(labels(&d.artists), vec!["Unknown Artist", "Ann", "Bob"]);
    assert_eq!(labels(&d.albums), vec!["Alpha", "Beta"]);
    // The server's leading blank aggregate entry is dropped from titles.
    assert_eq!(labels(&d.titles), vec!["Song A", "Song B"]);
    assert_eq!(labels(&d.playlists), vec!["mix"]);
    assert_eq!(d.queue.list.items.len(), 2);
    assert_eq!(d.tabindex, 0);
    assert!(!d.options);
}

#[test]
fn new_data_side_counters() {
    let d = sample_data();
    let counters: Vec<String> = d.sidelist.iter().map(|i| i.content.clone()).collect();
    // Playlists, artists, albums, titles (counted before the trim).
    assert_eq!(counters, vec!["1", "3", "2", "3"]);
}

#[test]
fn new_data_reduces_large_title_count() {
    let many: Vec<String> = (0..1500).map(|i| format!("t{}", i)).collect();
    let d = Data::new(Vec::new(), Vec::new(), many, Vec::new(), Vec::new());
    assert_eq!(d.sidelist[3].content, "1");
}

#[test]
fn new_data_records_artist_level() {
    let mut d = sample_data();
    // The artist level is pre-recorded: one ascent from the artists view
    // goes back to home.
    assert_eq!(
        labels(&d.path.up()),
        vec!["Playlists", "Artists", "Albums", "Titles"]
    );
}

#[test]
fn tab_cycling() {
    let mut d = sample_data();
    d.nexttab();
    assert_eq!(d.tabindex, 1);
    d.nexttab();
    d.nexttab();
    d.nexttab();
    assert_eq!(d.tabindex, 0);
    d.prevtab();
    assert_eq!(d.tabindex, 3);
    d.prevtab();
    assert_eq!(d.tabindex, 2);
}

#[test]
fn up_down_on_now_playing_tab_seek() {
    let mut d = sample_data();
    assert_eq!(d.up(), UiAction::Seek(5));
    assert_eq!(d.down(), UiAction::Seek(-5));
    assert_eq!(d.library.state.selected(), Some(0));
}

#[test]
fn up_down_move_browse_list() {
    let mut d = sample_data();
    d.tabindex = 1;
    d.library = d.artists.duplicate();
    assert_eq!(d.down(), UiAction::Idle);
    assert_eq!(d.library.state.selected(), Some(1));
    assert_eq!(d.up(), UiAction::Idle);
    assert_eq!(d.library.state.selected(), Some(0));
    // The browse list clamps at the top.
    d.up();
    assert_eq!(d.library.state.selected(), Some(0));
}

#[test]
fn up_down_move_queue_and_settings() {
    let mut d = sample_data();
    d.tabindex = 2;
    d.down();
    assert_eq!(d.queue.list.state.selected(), Some(1));
    d.down();
    // The queue view wraps.
    assert_eq!(d.queue.list.state.selected(), Some(0));
    d.tabindex = 3;
    d.up();
    // The settings menu wraps too.
    assert_eq!(d.settings.state.selected(), Some(3));
}

#[test]
fn options_popup_takes_movement() {
    let mut d = sample_data();
    d.options = true;
    assert_eq!(d.down(), UiAction::Idle);
    assert_eq!(d.opts.state.selected(), Some(1));
    // The options list clamps at its end.
    d.down();
    assert_eq!(d.opts.state.selected(), Some(1));
    d.up();
    assert_eq!(d.opts.state.selected(), Some(0));
    // The browse list was untouched.
    assert_eq!(d.library.state.selected(), Some(0));
}

#[test]
fn index_and_selected() {
    let mut d = sample_data();
    d.library = d.artists.duplicate();
    d.library.state.select(Some(2));
    assert_eq!(d.index(), 2);
    let it = d.selected().unwrap();
    assert_eq!(it.content, "Bob");
    d.library.state.select(None);
    assert_eq!(d.index(), 0);
    assert!(d.selected().is_none());
}

#[test]
fn activate_home_rows() {
    let mut home = Library::default();
    assert!(matches!(home.activate(), Activate::OpenPlaylists));
    home.state.select(Some(1));
    assert!(matches!(home.activate(), Activate::OpenArtists));
    home.state.select(Some(2));
    assert!(matches!(home.activate(), Activate::OpenAllAlbums));
    home.state.select(Some(3));
    assert!(matches!(home.activate(), Activate::OpenTitles));
}

#[test]
fn activate_carries_labels() {
    let mut lib = Library::new(names(&["Ann", "Bob"]), LibKind::Artist);
    lib.state.select(Some(1));
    match lib.activate() {
        Activate::DescendArtist(name) => assert_eq!(name, "Bob"),
        _ => panic!("expected an artist descent"),
    }
    let albums = Library::new(names(&["Alpha"]), LibKind::Album);
    assert!(matches!(albums.activate(), Activate::DescendAlbum(n) if n == "Alpha"));
    let titles = Library::new(names(&["Song"]), LibKind::Title);
    assert!(matches!(titles.activate(), Activate::PlayTitle(n) if n == "Song"));
    let lists = Library::new(names(&["mix"]), LibKind::Playlist);
    assert!(matches!(lists.activate(), Activate::OpenPlaylist(n) if n == "mix"));
}

#[test]
fn activate_options_and_inert() {
    let mut opts = Library::new(names(&["Add to Queue", "Add to Playlist"]), LibKind::Opt);
    opts.state.select(Some(1));
    assert!(matches!(opts.activate(), Activate::OptionChoice(1)));
    let empty = Library::new(Vec::new(), LibKind::Title);
    assert!(matches!(empty.activate(), Activate::Inert));
    let plain = Library::new(names(&["row"]), LibKind::Plain);
    assert!(matches!(plain.activate(), Activate::Inert));
}

#[test]
fn enqueue_request_by_kind() {
    let lib = Library::new(names(&["Ann"]), LibKind::Artist);
    let req = lib.enqueue_request().unwrap();
    assert!(req.tag == LibKind::Artist);
    assert_eq!(req.value, "Ann");
    let titles = Library::new(names(&["Song"]), LibKind::Title);
    let req = titles.enqueue_request().unwrap();
    assert!(req.tag == LibKind::Title);
    // Home rows and empty lists enqueue nothing.
    assert!(Library::default().enqueue_request().is_none());
    assert!(Library::new(Vec::new(), LibKind::Artist).enqueue_request().is_none());
}
