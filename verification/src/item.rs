//! Items of a browsable list: a text label, a rendering hint, and a kind
//! tag that classifies the item's role in the music taxonomy.

use vstd::prelude::*;

verus! {

/// Role of an item in the taxonomy. The kind drives both the descend
/// behaviour on activation and the breadcrumb slot a list is recorded in.
#[derive(Clone, Copy, PartialEq, Eq, Structural, Debug)]
pub enum LibKind {
    /// Entry of the top-level menu.
    Home,
    /// An artist name.
    Artist,
    /// An album name.
    Album,
    /// A track title.
    Title,
    /// A stored playlist name.
    Playlist,
    /// A synthetic "go back" entry.
    Back,
    /// An entry of the context-options popup.
    Opt,
    /// An undecorated entry (queue rows, side counters).
    Plain,
}

/// Rendering hint attached to an item; the renderer maps it to a style.
#[derive(Clone, Copy, PartialEq, Eq, Structural, Debug)]
pub enum Decor {
    Normal,
    Accent,
}

/// One row of a list: an immutable label with its kind and decoration.
pub struct LibItem {
    pub content: String,
    pub decor: Decor,
    pub tag: LibKind,
}

/// Mathematical model of an item: the label as a character sequence.
pub ghost struct ItemModel {
    pub label: Seq<char>,
    pub decor: Decor,
    pub kind: LibKind,
}

impl View for LibItem {
    type V = ItemModel;

    open spec fn view(&self) -> ItemModel {
        ItemModel { label: self.content@, decor: self.decor, kind: self.tag }
    }
}

impl LibItem {
    pub fn new(content: String, tag: LibKind) -> (r: LibItem)
        ensures
            r@ == (ItemModel { label: content@, decor: Decor::Normal, kind: tag }),
    {
        LibItem { content, decor: Decor::Normal, tag }
    }

    /// A deep copy; the model is preserved exactly.
    pub fn duplicate(&self) -> (r: LibItem)
        ensures
            r@ == self@,
    {
        LibItem { content: self.content.clone(), decor: self.decor, tag: self.tag }
    }
}

} // verus!
