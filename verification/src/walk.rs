//! What a walk of a directory tree found.

use vstd::prelude::*;

verus! {

/// One entry that a walk came upon: a file or a directory.
#[derive(Debug, Clone, Default)]
pub struct WalkEntry {
    /// The path of the entry, as the walk gave it.
    pub path: String,
    /// Whether the entry is a directory.
    pub is_dir: bool,
}

/// The entries of one workspace: those under the workspace's directory, and
/// those under the roots where its headers are searched, root by root. Both
/// are in the order of the walk.
#[derive(Debug, Clone, Default)]
pub struct WorkspaceWalk {
    pub targets: Vec<WalkEntry>,
    pub header_dirs: Vec<WalkEntry>,
}

/// The content of a `WalkEntry`.
pub struct EntryFound {
    pub path: Seq<char>,
    pub is_dir: bool,
}

/// The content of a `WorkspaceWalk`.
pub struct WalkFound {
    pub targets: Seq<EntryFound>,
    pub header_dirs: Seq<EntryFound>,
}

impl View for WalkEntry {
    type V = EntryFound;

    open spec fn view(&self) -> EntryFound {
        EntryFound { path: self.path@, is_dir: self.is_dir }
    }
}

impl DeepView for WalkEntry {
    type V = EntryFound;

    open spec fn deep_view(&self) -> EntryFound {
        self@
    }
}

impl View for WorkspaceWalk {
    type V = WalkFound;

    open spec fn view(&self) -> WalkFound {
        WalkFound {
            targets: self.targets.deep_view(),
            header_dirs: self.header_dirs.deep_view(),
        }
    }
}

impl DeepView for WorkspaceWalk {
    type V = WalkFound;

    open spec fn deep_view(&self) -> WalkFound {
        self@
    }
}

} // verus!
