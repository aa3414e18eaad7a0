//! Directory entries as plain values, and the two filters over a listing:
//! the comic folders of a working directory, and the pages of a comic folder.
use vstd::prelude::*;

verus! {

/// The file type of a directory entry, as far as it could be determined.
#[derive(Clone, Copy, Debug, PartialEq, Eq, Structural)]
pub enum EntryKind {
    Directory,
    File,
    /// A symlink or another special file.
    Other,
    /// The entry's type could not be read (permissions, a race with removal).
    Unreadable,
}

/// One entry of a directory listing.
#[derive(Clone, Debug)]
pub struct DirEntry {
    /// The full path of the entry.
    pub path: String,
    pub kind: EntryKind,
    /// The part of the file name after its last dot, if the name has one.
    pub extension: Option<String>,
}

/// The extensions that mark a page: `jpg` and `png`, matched exactly.
pub open spec fn viable_extension(e: Seq<char>) -> bool {
    e == "jpg"@ || e == "png"@
}

pub open spec fn is_comic_folder(e: DirEntry) -> bool {
    e.kind == EntryKind::Directory
}

pub open spec fn is_page(e: DirEntry) -> bool {
    &&& e.kind == EntryKind::File
    &&& e.extension matches Some(x)
    &&& viable_extension(x@)
}

/// The paths of the comic folders of a listing, in listing order.
pub open spec fn folder_paths(s: Seq<DirEntry>) -> Seq<String>
    decreases s.len(),
{
    if s.len() == 0 {
        Seq::empty()
    } else {
        let rest = folder_paths(s.drop_last());
        if is_comic_folder(s.last()) {
            rest.push(s.last().path)
        } else {
            rest
        }
    }
}

/// The paths of the pages of a listing, in listing order.
pub open spec fn page_paths(s: Seq<DirEntry>) -> Seq<String>
    decreases s.len(),
{
    if s.len() == 0 {
        Seq::empty()
    } else {
        let rest = page_paths(s.drop_last());
        if is_page(s.last()) {
            rest.push(s.last().path)
        } else {
            rest
        }
    }
}

/// Whether a file extension names an image format that goes into a comic.
/// The match is exact and case-sensitive.
pub fn is_viable_extension(extension: &str) -> (r: bool)
    ensures
        r == viable_extension(extension@),
{
    let e = extension.to_owned();
    let jpg = String::from_str("jpg");
    let png = String::from_str("png");
    e.eq(&jpg) || e.eq(&png)
}

/// The subdirectories of a working directory, given its listing. Entries
/// whose type could not be read are left out, like files and symlinks.
pub fn get_directories(entries: &Vec<DirEntry>) -> (r: Vec<String>)
    ensures
        r@ == folder_paths(entries@),
{
    let mut r: Vec<String> = Vec::new();
    let mut i: usize = 0;
    while i < entries.len()
        invariant
            i <= entries@.len(),
            r@ == folder_paths(entries@.take(i as int)),
        decreases entries@.len() - i,
    {
        let e = &entries[i];
        assert(entries@.take(i + 1).drop_last() == entries@.take(i as int));
        if e.kind == EntryKind::Directory {
            r.push(e.path.clone());
        }
        i = i + 1;
    }
    assert(entries@.take(i as int) == entries@);
    r
}

/// The pages of a comic folder, given its listing: the regular files whose
/// extension is viable, in listing order.
pub fn get_image_files(entries: &Vec<DirEntry>) -> (r: Vec<String>)
    ensures
        r@ == page_paths(entries@),
{
    let mut r: Vec<String> = Vec::new();
    let mut i: usize = 0;
    while i < entries.len()
        invariant
            i <= entries@.len(),
            r@ == page_paths(entries@.take(i as int)),
        decreases entries@.len() - i,
    {
        let e = &entries[i];
        assert(entries@.take(i + 1).drop_last() == entries@.take(i as int));
        if e.kind == EntryKind::File {
            match &e.extension {
                Some(x) => {
                    if is_viable_extension(x.as_str()) {
                        r.push(e.path.clone());
                    }
                },
                None => {},
            }
        }
        i = i + 1;
    }
    assert(entries@.take(i as int) == entries@);
    r
}

} // verus!
