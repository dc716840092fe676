//! What to watch: the directory of the target and the extra directories.
//!
//! Every directory of the list is watched with its subdirectories. Raw
//! notifications are gathered for [`DEBOUNCE_MILLIS`] before one event is
//! passed on.

use crate::error::FatalError;
use crate::path::{parent, path_parent, path_with_extension, with_extension};
use vstd::prelude::*;
use vstd::string::*;

verus! {

/// Length of the window, in milliseconds, within which notifications of one
/// change are merged into a single event.
pub const DEBOUNCE_MILLIS: u64 = 500;

/// The directory that is watched for a target whose parent is `parent`: the
/// current directory where the parent is empty, else the parent.
pub open spec fn watch_dir_for(parent: Seq<char>) -> Seq<char> {
    if parent.len() == 0 {
        "."@
    } else {
        parent
    }
}

/// The file whose changes drive the rebuilds, with what is derived from its
/// path. A target is made once and never changes.
pub struct WatchTarget {
    path: String,
    parent: String,
    default_output: String,
}

impl View for WatchTarget {
    type V = Seq<char>;

    /// The path of the target.
    closed spec fn view(&self) -> Seq<char> {
        self.path@
    }
}

impl WatchTarget {
    #[verifier::type_invariant]
    spec fn well_formed(&self) -> bool {
        &&& path_parent(self.path@) == Some(self.parent@)
        &&& self.default_output@ == path_with_extension(self.path@, "pdf"@)
    }

    /// The target at `path`. Fails where `path` has no parent, that is where
    /// it is empty or names only the root.
    pub fn new(path: &str) -> (r: Result<WatchTarget, FatalError>)
        ensures
            match r {
                Ok(target) => target@ == path@ && path_parent(path@) is Some,
                Err(e) => e == FatalError::NoParentDirectory && path_parent(path@) is None,
            },
    {
        match parent(path) {
            Some(dir) => Ok(
                WatchTarget {
                    path: path.to_owned(),
                    parent: dir,
                    default_output: with_extension(path, "pdf"),
                },
            ),
            None => Err(FatalError::NoParentDirectory),
        }
    }

    /// The path that the target was made from.
    pub fn path(&self) -> (r: &str)
        ensures
            r@ == self@,
    {
        self.path.as_str()
    }

    /// The parent of the target's path; empty for a bare file name.
    pub fn parent(&self) -> (r: &str)
        ensures
            path_parent(self@) == Some(r@),
    {
        proof {
            use_type_invariant(self);
        }
        self.parent.as_str()
    }

    /// The directory to watch for the target: its parent, or `.` where the
    /// parent is empty. It is never the empty path.
    pub fn watch_dir(&self) -> (r: String)
        ensures
            path_parent(self@) matches Some(dir) && r@ == watch_dir_for(dir),
            r@.len() > 0,
    {
        proof {
            use_type_invariant(self);
            reveal_strlit(".");
        }
        if self.parent.as_str().is_empty() {
            ".".to_owned()
        } else {
            self.parent.clone()
        }
    }

    /// The artifact path where no output path is configured: the target with
    /// the extension `pdf`.
    pub fn default_output(&self) -> (r: &str)
        ensures
            r@ == path_with_extension(self@, "pdf"@),
    {
        proof {
            use_type_invariant(self);
        }
        self.default_output.as_str()
    }
}

/// One directory to register with the watch.
#[derive(Clone, Debug, PartialEq, Eq)]
pub struct WatchRequest {
    pub directory: String,
    /// Whether the subdirectories are watched too.
    pub recursive: bool,
}

/// What to register with the watch, in this order: the directory of the
/// target, then every extra directory as it was given. Each one is watched
/// with its subdirectories.
pub fn watch_list(target: &WatchTarget, extra_dirs: &Vec<String>) -> (r: Vec<WatchRequest>)
    ensures
        r.len() == extra_dirs.len() + 1,
        path_parent(target@) matches Some(dir) && r[0].directory@ == watch_dir_for(dir),
        forall|i: int| 0 <= i < extra_dirs.len() ==> (#[trigger] r[i + 1]).directory@ == extra_dirs[i]@,
        forall|i: int| 0 <= i < r.len() ==> (#[trigger] r[i]).recursive,
{
    let mut r: Vec<WatchRequest> = Vec::new();
    r.push(WatchRequest { directory: target.watch_dir(), recursive: true });
    let mut i: usize = 0;
    while i < extra_dirs.len()
        invariant
            i <= extra_dirs.len(),
            r.len() == i + 1,
            path_parent(target@) matches Some(dir) && r[0].directory@ == watch_dir_for(dir),
            forall|k: int| 0 <= k < i ==> (#[trigger] r[k + 1]).directory@ == extra_dirs[k]@,
            forall|k: int| 0 <= k < r.len() ==> (#[trigger] r[k]).recursive,
        decreases extra_dirs.len() - i,
    {
        r.push(WatchRequest { directory: extra_dirs[i].clone(), recursive: true });
        i = i + 1;
    }
    r
}

} // verus!
