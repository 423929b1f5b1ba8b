//! What activating or enqueuing the selected row means, keyed by the
//! row's kind: one explicit dispatch instead of conditionals scattered
//! over the input handler. The caller performs the returned request
//! against the playback server and the display.

use vstd::prelude::*;

use crate::item::LibKind;
use crate::list::{lib_wf, Library};

verus! {

/// A request to append to the play queue every track matching `value`
/// under the tag named by `tag` (an artist, album or title name).
pub struct EnqueueRequest {
    pub tag: LibKind,
    pub value: String,
}

/// The effect of activating the selected row, by the row's kind: open a
/// category from the home menu, descend into an artist or album, play a
/// title, open a stored playlist, pick a context option, or nothing.
pub enum Activate {
    OpenPlaylists,
    OpenArtists,
    OpenAllAlbums,
    OpenTitles,
    DescendArtist(String),
    DescendAlbum(String),
    PlayTitle(String),
    OpenPlaylist(String),
    OptionChoice(usize),
    Inert,
}

impl Library {
    /// The enqueue request for the selected row: artist, album and title
    /// rows enqueue what matches their label; any other row, or no
    /// selection, enqueues nothing.
    pub fn enqueue_request(&self) -> (r: Option<EnqueueRequest>)
        requires
            lib_wf(self@),
        ensures
            match r {
                Some(req) => {
                    &&& self@.selected is Some
                    &&& {
                        let it = self@.items[self@.selected->0 as int];
                        &&& (it.kind == LibKind::Artist || it.kind == LibKind::Album || it.kind
                            == LibKind::Title)
                        &&& req.tag == it.kind
                        &&& req.value@ == it.label
                    }
                },
                None => match self@.selected {
                    Some(i) => {
                        let k = self@.items[i as int].kind;
                        k != LibKind::Artist && k != LibKind::Album && k != LibKind::Title
                    },
                    None => true,
                },
            },
    {
        let i = match self.state.selected() {
            Some(i) => i,
            None => {
                return None;
            },
        };
        match self.items[i].tag {
            LibKind::Artist | LibKind::Album | LibKind::Title => Some(
                EnqueueRequest { tag: self.items[i].tag, value: self.items[i].content.clone() },
            ),
            _ => None,
        }
    }

    /// The effect of activating the selected row. Home rows open their
    /// category by position; artist, album, playlist and title rows carry
    /// their label out; option rows carry their position; anything else,
    /// or no selection, does nothing.
    pub fn activate(&self) -> (r: Activate)
        requires
            lib_wf(self@),
        ensures
            ({
                let m = self@;
                match r {
                    Activate::OpenPlaylists => m.selected == Some(0usize) && m.items[0].kind
                        == LibKind::Home,
                    Activate::OpenArtists => m.selected == Some(1usize) && m.items[1].kind
                        == LibKind::Home,
                    Activate::OpenAllAlbums => m.selected == Some(2usize) && m.items[2].kind
                        == LibKind::Home,
                    Activate::OpenTitles => m.selected == Some(3usize) && m.items[3].kind
                        == LibKind::Home,
                    Activate::DescendArtist(name) => m.selected is Some && m.items[m.selected->0
                        as int].kind == LibKind::Artist && name@ == m.items[m.selected->0
                        as int].label,
                    Activate::DescendAlbum(name) => m.selected is Some && m.items[m.selected->0
                        as int].kind == LibKind::Album && name@ == m.items[m.selected->0
                        as int].label,
                    Activate::PlayTitle(name) => m.selected is Some && m.items[m.selected->0
                        as int].kind == LibKind::Title && name@ == m.items[m.selected->0
                        as int].label,
                    Activate::OpenPlaylist(name) => m.selected is Some && m.items[m.selected->0
                        as int].kind == LibKind::Playlist && name@ == m.items[m.selected->0
                        as int].label,
                    Activate::OptionChoice(i) => m.selected == Some(i) && m.items[i as int].kind
                        == LibKind::Opt,
                    Activate::Inert => match m.selected {
                        Some(i) => {
                            let k = m.items[i as int].kind;
                            ||| (k == LibKind::Home && i > 3)
                            ||| k == LibKind::Back
                            ||| k == LibKind::Plain
                        },
                        None => true,
                    },
                }
            }),
    {
        let i = match self.state.selected() {
            Some(i) => i,
            None => {
                return Activate::Inert;
            },
        };
        match self.items[i].tag {
            LibKind::Home => match i {
                0 => Activate::OpenPlaylists,
                1 => Activate::OpenArtists,
                2 => Activate::OpenAllAlbums,
                3 => Activate::OpenTitles,
                _ => Activate::Inert,
            },
            LibKind::Artist => Activate::DescendArtist(self.items[i].content.clone()),
            LibKind::Album => Activate::DescendAlbum(self.items[i].content.clone()),
            LibKind::Title => Activate::PlayTitle(self.items[i].content.clone()),
            LibKind::Playlist => Activate::OpenPlaylist(self.items[i].content.clone()),
            LibKind::Opt => Activate::OptionChoice(i),
            LibKind::Back | LibKind::Plain => Activate::Inert,
        }
    }
}

} // verus!
