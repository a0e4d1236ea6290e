//! Filtering of directory listings down to regular files.
//!
//! Reading a directory is the caller's job: it hands over one [`FsEntry`]
//! per immediate entry, carrying the entry's path and what kind of entry
//! the filesystem reported it to be.  The filtering itself is verified here.

use vstd::prelude::*;
use vstd::string::StringExecFns;

verus! {

/// What kind of entry a directory listing reported for a path.
#[derive(Debug, Clone, Copy, PartialEq, Eq, Structural)]
pub enum EntryKind {
    /// A regular file.
    File,
    /// A subdirectory.
    Directory,
    /// Anything else (symlink, socket, ...).
    Other,
}

/// One immediate entry of a directory listing: its path and its kind.
#[derive(Debug, Clone, PartialEq, Eq)]
pub struct FsEntry {
    pub path: String,
    pub kind: EntryKind,
}

/// The paths of the regular files among `s`, in the order of `s`.
pub open spec fn file_paths_of(s: Seq<FsEntry>) -> Seq<Seq<char>>
    decreases s.len(),
{
    if s.len() == 0 {
        Seq::empty()
    } else if s.last().kind is File {
        file_paths_of(s.drop_last()).push(s.last().path@)
    } else {
        file_paths_of(s.drop_last())
    }
}

/// Keeps only the regular files of a directory listing.
///
/// Returns the paths of the entries whose kind is [`EntryKind::File`], in
/// the order they were listed; subdirectories and all other entry kinds are
/// dropped.  Non-recursive: each entry stands for an immediate entry of one
/// directory, and none is descended into.
pub fn fetch_files(entries: &Vec<FsEntry>) -> (r: Vec<String>)
    ensures
        r@.map_values(|p: String| p@) == file_paths_of(entries@),
{
    let mut r: Vec<String> = Vec::new();
    let mut i: usize = 0;
    while i < entries.len()
        invariant
            0 <= i <= entries@.len(),
            r@.map_values(|p: String| p@) == file_paths_of(entries@.take(i as int)),
        decreases entries@.len() - i,
    {
        let is_file = match entries[i].kind {
            EntryKind::File => true,
            EntryKind::Directory => false,
            EntryKind::Other => false,
        };
        if is_file {
            r.push(String::from_str(entries[i].path.as_str()));
        }
        proof {
            assert(entries@.take(i + 1int).drop_last() =~= entries@.take(i as int));
            assert(entries@.take(i + 1int).last() == entries@[i as int]);
            if entries@[i as int].kind is File {
                assert(r@.map_values(|p: String| p@) =~= file_paths_of(
                    entries@.take(i + 1int),
                ));
            }
        }
        i = i + 1;
    }
    proof {
        assert(entries@.take(entries@.len() as int) =~= entries@);
    }
    r
}

/// Every path kept by the filter is the path of a regular file of the
/// listing, and the path of every regular file of the listing is kept:
/// the filter returns only regular files and misses none, whatever order
/// the entries came in.
pub proof fn lemma_file_paths_only_files(s: Seq<FsEntry>)
    ensures
        forall|j: int|
            0 <= j < file_paths_of(s).len() ==> exists|i: int|
                0 <= i < s.len() && (#[trigger] s[i]).kind is File && s[i].path@
                    == #[trigger] file_paths_of(s)[j],
        forall|i: int|
            0 <= i < s.len() && (#[trigger] s[i]).kind is File ==> file_paths_of(s).contains(
                s[i].path@,
            ),
    decreases s.len(),
{
    if s.len() > 0 {
        lemma_file_paths_only_files(s.drop_last());
        assert forall|j: int| 0 <= j < file_paths_of(s).len() implies exists|i: int|
            0 <= i < s.len() && (#[trigger] s[i]).kind is File && s[i].path@
                == #[trigger] file_paths_of(s)[j] by {
            let sub = file_paths_of(s.drop_last());
            if j < sub.len() {
                let i = choose|i: int|
                    0 <= i < s.drop_last().len() && s.drop_last()[i].kind is File
                        && s.drop_last()[i].path@ == sub[j];
                assert(s[i].kind is File && s[i].path@ == file_paths_of(s)[j]);
            } else {
                let i = s.len() - 1;
                assert(s[i].kind is File && s[i].path@ == file_paths_of(s)[j]);
            }
        }
        assert forall|i: int|
            0 <= i < s.len() && (#[trigger] s[i]).kind is File implies file_paths_of(s).contains(
            s[i].path@,
        ) by {
            let sub = file_paths_of(s.drop_last());
            if i < s.len() - 1 {
                assert(s.drop_last()[i] == s[i]);
                let j = choose|j: int| 0 <= j < sub.len() && sub[j] == s[i].path@;
                assert(file_paths_of(s)[j] == s[i].path@);
            } else {
                assert(file_paths_of(s).last() == s[i].path@);
            }
        }
    }
}

} // verus!
