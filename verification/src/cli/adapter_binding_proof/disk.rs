//! What was found on disk: the places that paths resolve to, and the files there.
use super::artifacts::{find_file, found_at, NOT_READ};
use super::places::{find_resolved, lookup};
use super::types::{ObservedFile, ObservedFileView, ResolvedPath, ResolvedPathView};
use crate::text::none;
use vstd::prelude::*;

verus! {

/// What was found on disk. Each file stands under its resolved path.
#[derive(Debug)]
pub struct Disk {
    pub names: Vec<ResolvedPath>,
    pub files: Vec<ObservedFile>,
}

/// What a `Disk` holds.
#[verifier::ext_equal]
pub struct DiskView {
    pub names: Seq<ResolvedPathView>,
    pub files: Seq<ObservedFileView>,
}

impl DeepView for Disk {
    type V = DiskView;

    open spec fn deep_view(&self) -> DiskView {
        DiskView { names: self.names.deep_view(), files: self.files.deep_view() }
    }
}

/// The place that a path resolves to: where it does not, the path.
pub open spec fn canonical(path: Seq<char>, disk: DiskView) -> Seq<char> {
    match lookup(disk.names, path) {
        Some(r) => r,
        None => path,
    }
}

pub fn canonical_or_raw(path: &str, disk: &Disk) -> (r: String)
    ensures
        r@ == canonical(path@, disk.deep_view()),
{
    match find_resolved(&disk.names, path) {
        Some(r) => r,
        None => path.to_string(),
    }
}

/// The place that a path resolves to, where there is a path.
pub open spec fn canonical_opt(path: Option<Seq<char>>, disk: DiskView) -> Option<Seq<char>> {
    match path {
        Some(p) => Some(canonical(p, disk)),
        None => None,
    }
}

pub fn canonical_if_given(path: Option<&str>, disk: &Disk) -> (r: Option<String>)
    ensures
        r.deep_view() == canonical_opt(path.deep_view(), disk.deep_view()),
{
    match path {
        Some(p) => Some(canonical_or_raw(p, disk)),
        None => None,
    }
}

/// A file that was not looked at.
pub open spec fn unseen(path: Seq<char>) -> ObservedFileView {
    ObservedFileView {
        path,
        exists: false,
        is_file: false,
        len: 0,
        modified_at_ns: None,
        metadata_error: Some(NOT_READ@),
        contents: Seq::empty(),
        read_error: Some(NOT_READ@),
        not_found: false,
    }
}

pub fn unseen_file(path: &str) -> (r: ObservedFile)
    ensures
        r.deep_view() == unseen(path@),
{
    ObservedFile {
        path: path.to_string(),
        exists: false,
        is_file: false,
        len: 0,
        modified_at_ns: None,
        metadata_error: Some(NOT_READ.to_string()),
        contents: none(),
        read_error: Some(NOT_READ.to_string()),
        not_found: false,
    }
}

/// The file at a resolved path.
pub open spec fn file_at(path: Seq<char>, disk: DiskView) -> ObservedFileView {
    match found_at(disk.files, path) {
        Some(f) => f,
        None => unseen(path),
    }
}

/// The file that was found, or else the other.
pub fn seen_or<'a>(disk: &'a Disk, path: &str, other: &'a ObservedFile) -> (r: &'a ObservedFile)
    requires
        other.deep_view() == unseen(path@),
    ensures
        r.deep_view() == file_at(path@, disk.deep_view()),
{
    match find_file(&disk.files, path) {
        Some(f) => f,
        None => other,
    }
}

}
