//! Which file-system changes call for a rebuild.
//!
//! A path belongs to the document sources when the extension of its final
//! name is `saty` (a document), `satyg` (a grammar), or begins with `satyh`
//! (a package header, with or without a suffix). A change is relevant when a
//! path that it carries belongs to the sources.

use crate::path::{extension, path_extension};
use crate::text::chars_of;
use vstd::prelude::*;
use vstd::string::*;

verus! {

/// The extension of a document body.
pub open spec fn document_extension() -> Seq<char> {
    seq!['s', 'a', 't', 'y']
}

/// The extension of a document grammar.
pub open spec fn grammar_extension() -> Seq<char> {
    seq!['s', 'a', 't', 'y', 'g']
}

/// What the extension of a package header begins with.
pub open spec fn header_prefix() -> Seq<char> {
    seq!['s', 'a', 't', 'y', 'h']
}

/// Whether `ext` is an extension of the document sources.
pub open spec fn source_extension(ext: Seq<char>) -> bool {
    ext == document_extension() || ext == grammar_extension() || header_prefix().is_prefix_of(ext)
}

/// Whether `path` names a file of the document sources.
pub open spec fn source_related(path: Seq<char>) -> bool {
    match path_extension(path) {
        Some(ext) => source_extension(ext),
        None => false,
    }
}

/// Decides whether `ext`, given without a leading `.`, is an extension of the
/// document sources.
pub fn is_source_extension(ext: &str) -> (r: bool)
    ensures
        r == source_extension(ext@),
{
    let v = chars_of(ext);
    let n: usize = v.len();
    if n < 4 {
        return false;
    }
    let stem = v[0] == 's' && v[1] == 'a' && v[2] == 't' && v[3] == 'y';
    proof {
        let e = ext@;
        let h = header_prefix();
        if stem && n == 4 {
            assert(e =~= document_extension());
        }
        if stem && n == 5 && e[4] == 'g' {
            assert(e =~= grammar_extension());
        }
        if stem && n >= 5 && e[4] == 'h' {
            assert(e.subrange(0, 5) =~= h);
        }
        if e == document_extension() || e == grammar_extension() {
            assert(stem);
        }
        if h.is_prefix_of(e) {
            assert(forall|i: int| 0 <= i < 5 ==> e.subrange(0, 5)[i] == h[i]);
            assert(e.subrange(0, 5)[0] == 's' && e.subrange(0, 5)[1] == 'a' && e.subrange(0, 5)[2]
                == 't' && e.subrange(0, 5)[3] == 'y' && e.subrange(0, 5)[4] == 'h');
        }
    }
    stem && (n == 4 || (n == 5 && v[4] == 'g') || v[4] == 'h')
}

/// Decides whether `path` names a file of the document sources: whether its
/// extension is `saty` or `satyg`, or begins with `satyh`. A path without an
/// extension never does.
pub fn is_satysfi_related(path: &str) -> (r: bool)
    ensures
        r == source_related(path@),
        path_extension(path@) is None ==> !r,
        path_extension(path@) matches Some(ext) ==> (r <==> ext == document_extension() || ext
            == grammar_extension() || header_prefix().is_prefix_of(ext)),
{
    match extension(path) {
        Some(ext) => is_source_extension(ext.as_str()),
        None => false,
    }
}

/// One debounced notification of the watch.
#[derive(Clone, Debug, PartialEq, Eq)]
pub enum ChangeEvent {
    /// A file appeared at the path.
    Created(String),
    /// The content of the file at the path changed.
    Modified(String),
    /// The attributes of the file at the path changed.
    AttributesChanged(String),
    /// The file at the path is gone.
    Removed(String),
    /// A file moved from the first path to the second.
    Renamed(String, String),
    /// Any other notification.
    Other,
}

impl ChangeEvent {
    /// Whether the event calls for a rebuild: a path that it carries belongs
    /// to the document sources. A rename counts if either end does.
    pub open spec fn relevant(&self) -> bool {
        match self {
            ChangeEvent::Created(p) => source_related(p@),
            ChangeEvent::Modified(p) => source_related(p@),
            ChangeEvent::AttributesChanged(p) => source_related(p@),
            ChangeEvent::Removed(p) => source_related(p@),
            ChangeEvent::Renamed(from, to) => source_related(from@) || source_related(to@),
            ChangeEvent::Other => false,
        }
    }

    /// Decides whether the event calls for a rebuild.
    pub fn is_relevant(&self) -> (r: bool)
        ensures
            r == self.relevant(),
            self matches ChangeEvent::Renamed(from, to) ==> r == (source_related(from@)
                || source_related(to@)),
            self is Other ==> !r,
    {
        match self {
            ChangeEvent::Created(p) => is_satysfi_related(p.as_str()),
            ChangeEvent::Modified(p) => is_satysfi_related(p.as_str()),
            ChangeEvent::AttributesChanged(p) => is_satysfi_related(p.as_str()),
            ChangeEvent::Removed(p) => is_satysfi_related(p.as_str()),
            ChangeEvent::Renamed(from, to) => {
                let a = is_satysfi_related(from.as_str());
                let b = is_satysfi_related(to.as_str());
                a || b
            },
            ChangeEvent::Other => false,
        }
    }
}

} // verus!
