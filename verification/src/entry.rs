use vstd::prelude::*;

verus! {

/// Classification of a file-system object met during a walk.
///
/// The walk can also meet objects that are neither plain files nor
/// directories (for instance symbolic links); those are `Other`. Only
/// `File` entries can appear in a scan's result list.
#[derive(Clone, Copy, Debug, PartialEq, Eq, Structural)]
pub enum EntryKind {
    File,
    Directory,
    Other,
}

/// One file-system object met during a walk: its path in display form
/// together with its classification.
#[derive(Debug)]
pub struct Entry {
    pub path: String,
    pub kind: EntryKind,
}

/// The mathematical value of an [`Entry`]: the path as a sequence of
/// characters, and the classification.
pub struct EntryView {
    pub path: Seq<char>,
    pub kind: EntryKind,
}

impl View for Entry {
    type V = EntryView;

    open spec fn view(&self) -> EntryView {
        EntryView { path: self.path@, kind: self.kind }
    }
}

impl DeepView for Entry {
    type V = EntryView;

    open spec fn deep_view(&self) -> EntryView {
        self.view()
    }
}

} // verus!
