//! The breadcrumb navigator: a fixed-depth stack recording the last list
//! shown at each taxonomy level (home, artist, album, title), with a
//! strict LIFO unwind. Callers record each list as they descend; `up`
//! pops the deepest recorded level and hands back its parent.

use vstd::prelude::*;

use crate::item::LibKind;
use crate::list::{is_home_model, lib_wf, LibModel, Library};

verus! {

/// Mathematical model of the breadcrumb stack.
pub ghost struct PathModel {
    pub home: LibModel,
    pub artists: Option<LibModel>,
    pub albums: Option<LibModel>,
    pub titles: Option<LibModel>,
}

pub open spec fn opt_lib_view(o: Option<Library>) -> Option<LibModel> {
    match o {
        Some(l) => Some(l@),
        None => None,
    }
}

/// The breadcrumb stack: the home menu plus one optional slot per
/// taxonomy level.
pub struct Path {
    pub home: Library,
    pub artists: Option<Library>,
    pub albums: Option<Library>,
    pub titles: Option<Library>,
}

impl View for Path {
    type V = PathModel;

    open spec fn view(&self) -> PathModel {
        PathModel {
            home: self.home@,
            artists: opt_lib_view(self.artists),
            albums: opt_lib_view(self.albums),
            titles: opt_lib_view(self.titles),
        }
    }
}

/// What recording a list does to the stack: the list lands in the slot of
/// its dominant kind (the kind of its first item); a list of any other
/// kind, or an empty list, is not a breadcrumb level and leaves the stack
/// unchanged.
pub open spec fn record_model(p: PathModel, m: LibModel) -> PathModel {
    if m.items.len() == 0 {
        p
    } else {
        match m.items[0].kind {
            LibKind::Artist => PathModel { artists: Some(m), ..p },
            LibKind::Album => PathModel { albums: Some(m), ..p },
            LibKind::Title => PathModel { titles: Some(m), ..p },
            LibKind::Home => PathModel { home: m, ..p },
            _ => p,
        }
    }
}

/// What one ascent does: clear the deepest populated slot and return the
/// list recorded one level above it, or the home menu when no level above
/// is recorded.
pub open spec fn up_model(p: PathModel) -> (PathModel, LibModel) {
    if p.titles is Some {
        (
            PathModel { titles: None, ..p },
            match p.albums {
                Some(m) => m,
                None => p.home,
            },
        )
    } else if p.albums is Some {
        (
            PathModel { albums: None, ..p },
            match p.artists {
                Some(m) => m,
                None => p.home,
            },
        )
    } else if p.artists is Some {
        (PathModel { artists: None, ..p }, p.home)
    } else {
        (p, p.home)
    }
}

/// Every list held by the stack is well-formed.
pub open spec fn path_wf(p: PathModel) -> bool {
    &&& lib_wf(p.home)
    &&& match p.artists {
        Some(m) => lib_wf(m),
        None => true,
    }
    &&& match p.albums {
        Some(m) => lib_wf(m),
        None => true,
    }
    &&& match p.titles {
        Some(m) => lib_wf(m),
        None => true,
    }
}

impl Path {
    /// An empty stack: only the home menu, no level recorded.
    pub fn new() -> (r: Path)
        ensures
            is_home_model(r@.home),
            r@.artists is None,
            r@.albums is None,
            r@.titles is None,
            path_wf(r@),
    {
        Path { home: Library::default(), artists: None, albums: None, titles: None }
    }

    /// Record `level` in the slot of its dominant kind.
    pub fn update(&mut self, level: Library)
        ensures
            final(self)@ == record_model(old(self)@, level@),
            path_wf(old(self)@) && lib_wf(level@) ==> path_wf(final(self)@),
    {
        if level.items.len() == 0 {
            return;
        }
        match level.items[0].tag {
            LibKind::Artist => self.artists = Some(level),
            LibKind::Album => self.albums = Some(level),
            LibKind::Title => self.titles = Some(level),
            LibKind::Home => self.home = level,
            _ => {},
        }
    }

    /// Ascend one level: clear the deepest recorded slot and return a copy
    /// of the list one level above it (home when none is recorded).
    pub fn up(&mut self) -> (out: Library)
        ensures
            final(self)@ == up_model(old(self)@).0,
            out@ == up_model(old(self)@).1,
            path_wf(old(self)@) ==> path_wf(final(self)@) && lib_wf(out@),
    {
        if self.titles.is_some() {
            self.titles = None;
            match &self.albums {
                Some(a) => a.duplicate(),
                None => self.home.duplicate(),
            }
        } else if self.albums.is_some() {
            self.albums = None;
            match &self.artists {
                Some(a) => a.duplicate(),
                None => self.home.duplicate(),
            }
        } else if self.artists.is_some() {
            self.artists = None;
            self.home.duplicate()
        } else {
            self.home.duplicate()
        }
    }
}

/// Breadcrumb LIFO: after recording an artist-level list `a` and then an
/// album-level list `b` on a stack with no title level, the first ascent
/// returns `a` and clears the album slot, and the second ascent returns
/// the home menu and clears the artist slot.
pub proof fn lemma_breadcrumb_lifo(p: PathModel, a: LibModel, b: LibModel)
    requires
        a.items.len() > 0,
        a.items[0].kind == LibKind::Artist,
        b.items.len() > 0,
        b.items[0].kind == LibKind::Album,
        p.titles is None,
    ensures
        ({
            let p2 = record_model(record_model(p, a), b);
            let (p3, first) = up_model(p2);
            let (p4, second) = up_model(p3);
            &&& first == a
            &&& p3.albums is None
            &&& second == p.home
            &&& p4.artists is None
            &&& p4.albums is None
            &&& p4.titles is None
            &&& p4.home == p.home
        }),
{
}

} // verus!
