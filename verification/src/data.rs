//! The browser's whole navigable state: the active browse list, the
//! category lists, the queue mirror, the settings and options menus, the
//! breadcrumb stack and the tab index — and the pure transition functions
//! that keyboard events drive. Fetching the underlying names from the
//! playback server, and every other remote call, happens outside: the
//! constructor takes the fetched name lists as plain values, and the
//! movement functions return the action the caller should perform.

use vstd::prelude::*;

use crate::digits::{dec_seq, to_decimal};
use crate::item::{Decor, ItemModel, LibItem, LibKind};
use crate::list::{
    advance_sel, is_home_model, lib_wf, Library, LibModel, Policy, retreat_sel,
};
use crate::path::{Path, path_wf, PathModel, record_model};
use crate::queue::{QueueMirror, QueueModel};

verus! {

/// Labels of the context options offered on an artist row.
pub struct ArtistOptions {
    pub items: Vec<String>,
}

/// The outward action a movement step asks of the caller: nothing beyond
/// the state change, or a relative seek (in seconds) of the playing
/// track, used when the now-playing tab is active.
#[derive(Clone, Copy, PartialEq, Eq, Structural, Debug)]
pub enum UiAction {
    Idle,
    Seek(i64),
}

/// Mathematical model of the browser state.
pub ghost struct DataModel {
    pub library: LibModel,
    pub sidelist: Seq<ItemModel>,
    pub artists: LibModel,
    pub albums: LibModel,
    pub titles: LibModel,
    pub queue: QueueModel,
    pub playlists: LibModel,
    pub settings: LibModel,
    pub tabindex: usize,
    pub options: bool,
    pub opts: LibModel,
    pub path: PathModel,
}

/// The browser state.
pub struct Data {
    /// The list the browse tab currently displays.
    pub library: Library,
    /// Counters shown beside the browse list: playlists, artists, albums,
    /// titles.
    pub sidelist: Vec<LibItem>,
    pub artists: Library,
    pub albums: Library,
    pub titles: Library,
    pub queue: QueueMirror,
    pub playlists: Library,
    pub settings: Library,
    /// Which tab is active: now playing, browse, queue, settings.
    pub tabindex: usize,
    /// Whether the context-options popup is open.
    pub options: bool,
    /// The context-options list.
    pub opts: Library,
    pub path: Path,
}

impl View for Data {
    type V = DataModel;

    open spec fn view(&self) -> DataModel {
        DataModel {
            library: self.library@,
            sidelist: self.sidelist@.map(|i: int, it: LibItem| it@),
            artists: self.artists@,
            albums: self.albums@,
            titles: self.titles@,
            queue: self.queue@,
            playlists: self.playlists@,
            settings: self.settings@,
            tabindex: self.tabindex,
            options: self.options,
            opts: self.opts@,
            path: self.path@,
        }
    }
}

/// Every list of the state is well-formed.
pub open spec fn data_wf(d: DataModel) -> bool {
    &&& lib_wf(d.library)
    &&& lib_wf(d.artists)
    &&& lib_wf(d.albums)
    &&& lib_wf(d.titles)
    &&& lib_wf(d.queue.list)
    &&& lib_wf(d.playlists)
    &&& lib_wf(d.settings)
    &&& lib_wf(d.opts)
    &&& path_wf(d.path)
}

/// An empty artist name shown under a readable placeholder.
pub open spec fn norm_artist(s: Seq<char>) -> Seq<char> {
    if s.len() == 0 {
        "Unknown Artist"@
    } else {
        s
    }
}

/// A list one `previous` step later.
pub open spec fn step_back(m: LibModel) -> LibModel {
    LibModel { selected: retreat_sel(m.selected, m.items.len() as usize, m.policy), ..m }
}

/// A list one `next` step later.
pub open spec fn step_fwd(m: LibModel) -> LibModel {
    LibModel { selected: advance_sel(m.selected, m.items.len() as usize, m.policy), ..m }
}

/// The state transition of one "up" keypress, and the action it asks of
/// the caller. With the options popup open, the popup's cursor retreats.
/// Otherwise the active tab decides: the now-playing tab asks for a seek
/// back; the browse tab retreats the browse list and re-records it on the
/// breadcrumb stack; the queue and settings tabs retreat their lists.
pub open spec fn spec_up(d: DataModel) -> (DataModel, UiAction) {
    if d.options {
        (DataModel { opts: step_back(d.opts), ..d }, UiAction::Idle)
    } else if d.tabindex == 0 {
        (d, UiAction::Seek(5))
    } else if d.tabindex == 1 {
        let stepped = step_back(d.library);
        (
            DataModel { library: stepped, path: record_model(d.path, stepped), ..d },
            UiAction::Idle,
        )
    } else if d.tabindex == 2 {
        (
            DataModel {
                queue: QueueModel { list: step_back(d.queue.list), drained: d.queue.drained },
                ..d
            },
            UiAction::Idle,
        )
    } else if d.tabindex == 3 {
        (DataModel { settings: step_back(d.settings), ..d }, UiAction::Idle)
    } else {
        (d, UiAction::Idle)
    }
}

/// The state transition of one "down" keypress, mirroring `spec_up` with
/// forward steps and a seek forward.
pub open spec fn spec_down(d: DataModel) -> (DataModel, UiAction) {
    if d.options {
        (DataModel { opts: step_fwd(d.opts), ..d }, UiAction::Idle)
    } else if d.tabindex == 0 {
        (d, UiAction::Seek(-5i64))
    } else if d.tabindex == 1 {
        let stepped = step_fwd(d.library);
        (
            DataModel { library: stepped, path: record_model(d.path, stepped), ..d },
            UiAction::Idle,
        )
    } else if d.tabindex == 2 {
        (
            DataModel {
                queue: QueueModel { list: step_fwd(d.queue.list), drained: d.queue.drained },
                ..d
            },
            UiAction::Idle,
        )
    } else if d.tabindex == 3 {
        (DataModel { settings: step_fwd(d.settings), ..d }, UiAction::Idle)
    } else {
        (d, UiAction::Idle)
    }
}

impl Data {
    /// Build the browser state from freshly fetched name lists: the
    /// artists (empty names shown under a placeholder), albums, titles
    /// (whose first entry, the server's blank aggregate, is dropped),
    /// the queue snapshot and the stored playlists. The browse tab shows
    /// the home menu; the artist level is pre-recorded on the breadcrumb
    /// stack; the side counters show the category sizes, a title count
    /// beyond 999 reduced to thousands.
    pub fn new(
        artists: Vec<String>,
        albums: Vec<String>,
        titles: Vec<String>,
        queue: Vec<String>,
        playlists: Vec<String>,
    ) -> (d: Data)
        ensures
            is_home_model(d@.library),
            d@.artists.items.len() == artists@.len(),
            forall|i: int|
                0 <= i < artists@.len() ==> d@.artists.items[i] == (ItemModel {
                    label: norm_artist(artists@[i]@),
                    decor: Decor::Normal,
                    kind: LibKind::Artist,
                }),
            d@.artists.policy == Policy::Clamp,
            d@.albums.items.len() == albums@.len(),
            forall|i: int|
                0 <= i < albums@.len() ==> d@.albums.items[i] == (ItemModel {
                    label: albums@[i]@,
                    decor: Decor::Normal,
                    kind: LibKind::Album,
                }),
            d@.titles.items.len() == if titles@.len() == 0 {
                0int
            } else {
                titles@.len() - 1
            },
            forall|i: int|
                0 <= i < d@.titles.items.len() ==> d@.titles.items[i] == (ItemModel {
                    label: titles@[i + 1]@,
                    decor: Decor::Normal,
                    kind: LibKind::Title,
                }),
            d@.queue.drained == 0,
            d@.queue.list.items.len() == queue@.len(),
            forall|i: int|
                0 <= i < queue@.len() ==> d@.queue.list.items[i] == (ItemModel {
                    label: queue@[i]@,
                    decor: Decor::Normal,
                    kind: LibKind::Plain,
                }),
            d@.queue.list.policy == Policy::Wrap,
            d@.playlists.items.len() == playlists@.len(),
            forall|i: int|
                0 <= i < playlists@.len() ==> d@.playlists.items[i] == (ItemModel {
                    label: playlists@[i]@,
                    decor: Decor::Normal,
                    kind: LibKind::Playlist,
                }),
            d@.settings.items.len() == 4,
            d@.settings.items[0].label == "Add to Queue"@,
            d@.settings.items[1].label == "Add to Playlist"@,
            d@.settings.items[2].label == "View Artist"@,
            d@.settings.items[3].label == "View Album"@,
            forall|i: int| 0 <= i < 4 ==> d@.settings.items[i].kind == LibKind::Plain,
            d@.settings.policy == Policy::Wrap,
            d@.opts.items.len() == 2,
            d@.opts.items[0].label == "Add to Queue"@,
            d@.opts.items[1].label == "Add to Playlist"@,
            forall|i: int| 0 <= i < 2 ==> d@.opts.items[i].kind == LibKind::Opt,
            d@.opts.policy == Policy::Clamp,
            is_home_model(d@.path.home),
            d@.path.artists == if artists@.len() == 0 {
                None::<LibModel>
            } else {
                Some(d@.artists)
            },
            d@.path.albums is None,
            d@.path.titles is None,
            d@.sidelist.len() == 4,
            d@.sidelist[0] == (ItemModel {
                label: dec_seq(playlists@.len()),
                decor: Decor::Normal,
                kind: LibKind::Plain,
            }),
            d@.sidelist[1] == (ItemModel {
                label: dec_seq(artists@.len()),
                decor: Decor::Normal,
                kind: LibKind::Plain,
            }),
            d@.sidelist[2] == (ItemModel {
                label: dec_seq(albums@.len()),
                decor: Decor::Normal,
                kind: LibKind::Plain,
            }),
            d@.sidelist[3] == (ItemModel {
                label: dec_seq(
                    if titles@.len() > 999 {
                        (titles@.len() as int / 1000) as nat
                    } else {
                        titles@.len()
                    },
                ),
                decor: Decor::Normal,
                kind: LibKind::Plain,
            }),
            d@.tabindex == 0,
            d@.options == false,
            data_wf(d@),
    {
        let n_playlists = playlists.len();
        let n_artists = artists.len();
        let n_albums = albums.len();
        let n_titles = titles.len();

        let mut artist_names: Vec<String> = Vec::new();
        let mut k: usize = 0;
        while k < artists.len()
            invariant
                k <= artists@.len(),
                artist_names@.len() == k,
                forall|i: int|
                    0 <= i < k ==> artist_names@[i]@ == norm_artist(#[trigger] artists@[i]@),
            decreases artists@.len() - k,
        {
            if artists[k].as_str().is_empty() {
                artist_names.push("Unknown Artist".to_owned());
            } else {
                artist_names.push(artists[k].clone());
            }
            k = k + 1;
        }
        let artists_lib = Library::new(artist_names, LibKind::Artist);
        let albums_lib = Library::new(albums, LibKind::Album);

        let mut titles_trimmed = titles;
        if titles_trimmed.len() > 0 {
            titles_trimmed.remove(0);
        }
        let titles_lib = Library::new(titles_trimmed, LibKind::Title);

        let playlists_lib = Library::new(playlists, LibKind::Playlist);
        let queue_mirror = QueueMirror::from_snapshot(queue);

        let mut settings_items: Vec<String> = Vec::new();
        settings_items.push("Add to Queue".to_owned());
        settings_items.push("Add to Playlist".to_owned());
        settings_items.push("View Artist".to_owned());
        settings_items.push("View Album".to_owned());
        let settings_lib = Library::new_with_policy(settings_items, LibKind::Plain, Policy::Wrap);

        let mut opt_items: Vec<String> = Vec::new();
        opt_items.push("Add to Queue".to_owned());
        opt_items.push("Add to Playlist".to_owned());
        let opts_lib = Library::new(opt_items, LibKind::Opt);

        let mut path = Path::new();
        path.update(artists_lib.duplicate());

        let shown_titles = if n_titles > 999 {
            n_titles / 1000
        } else {
            n_titles
        };
        let mut sidelist: Vec<LibItem> = Vec::new();
        sidelist.push(LibItem::new(to_decimal(n_playlists), LibKind::Plain));
        sidelist.push(LibItem::new(to_decimal(n_artists), LibKind::Plain));
        sidelist.push(LibItem::new(to_decimal(n_albums), LibKind::Plain));
        sidelist.push(LibItem::new(to_decimal(shown_titles), LibKind::Plain));

        Data {
            library: Library::default(),
            sidelist,
            artists: artists_lib,
            albums: albums_lib,
            titles: titles_lib,
            queue: queue_mirror,
            playlists: playlists_lib,
            settings: settings_lib,
            tabindex: 0,
            options: false,
            opts: opts_lib,
            path,
        }
    }

    /// Cycle to the next tab.
    pub fn nexttab(&mut self)
        ensures
            final(self)@ == (DataModel {
                tabindex: ((old(self)@.tabindex + 1) % 4) as usize,
                ..old(self)@
            }),
    {
        let t = self.tabindex;
        self.tabindex = (t % 4 + 1) % 4;
        proof {
            assert((t as int % 4 + 1) % 4 == (t as int + 1) % 4) by (nonlinear_arith);
        }
    }

    /// Cycle to the previous tab.
    pub fn prevtab(&mut self)
        ensures
            final(self)@ == (DataModel {
                tabindex: if old(self)@.tabindex == 0 {
                    3usize
                } else {
                    (old(self)@.tabindex - 1) as usize
                },
                ..old(self)@
            }),
    {
        match self.tabindex {
            0 => self.tabindex = 3,
            _ => self.tabindex = self.tabindex - 1,
        }
    }

    /// The browse list's selected index, 0 when nothing is selected.
    pub fn index(&self) -> (r: usize)
        ensures
            r == match self@.library.selected {
                Some(i) => i,
                None => 0usize,
            },
    {
        match self.library.state.selected() {
            Some(i) => i,
            None => 0,
        }
    }

    /// A copy of the browse list's selected item, if a row is selected.
    pub fn selected(&self) -> (r: Option<LibItem>)
        requires
            lib_wf(self@.library),
        ensures
            match r {
                Some(it) => self@.library.selected is Some && it@ == self@.library.items[self@.library.selected->0 as int],
                None => self@.library.selected is None,
            },
    {
        match self.library.state.selected() {
            Some(i) => Some(self.library.items[i].duplicate()),
            None => None,
        }
    }

    /// One "up" keypress: apply `spec_up` and return the asked action.
    pub fn up(&mut self) -> (act: UiAction)
        requires
            data_wf(old(self)@),
        ensures
            final(self)@ == spec_up(old(self)@).0,
            act == spec_up(old(self)@).1,
            data_wf(final(self)@),
    {
        if self.options {
            self.opts.previous();
            UiAction::Idle
        } else {
            match self.tabindex {
                0 => UiAction::Seek(5),
                1 => {
                    self.library.previous();
                    let copy = self.library.duplicate();
                    self.path.update(copy);
                    UiAction::Idle
                },
                2 => {
                    self.queue.list.previous();
                    UiAction::Idle
                },
                3 => {
                    self.settings.previous();
                    UiAction::Idle
                },
                _ => UiAction::Idle,
            }
        }
    }

    /// One "down" keypress: apply `spec_down` and return the asked action.
    pub fn down(&mut self) -> (act: UiAction)
        requires
            data_wf(old(self)@),
        ensures
            final(self)@ == spec_down(old(self)@).0,
            act == spec_down(old(self)@).1,
            data_wf(final(self)@),
    {
        if self.options {
            self.opts.next();
            UiAction::Idle
        } else {
            match self.tabindex {
                0 => UiAction::Seek(-5),
                1 => {
                    self.library.next();
                    let copy = self.library.duplicate();
                    self.path.update(copy);
                    UiAction::Idle
                },
                2 => {
                    self.queue.list.next();
                    UiAction::Idle
                },
                3 => {
                    self.settings.next();
                    UiAction::Idle
                },
                _ => UiAction::Idle,
            }
        }
    }
}

} // verus!
