//! Names of the files inside the packed book.

use vstd::prelude::*;
use vstd::string::StringExecFns;
use crate::text::same_text;

verus! {

/// Packs the files of a book into one archive.
pub struct Compressor;

impl Default for Compressor {
    fn default() -> (r: Compressor)
        ensures
            r == Compressor,
    {
        Compressor::new()
    }
}

/// The name of the packed book made from the directory `dir_name`.
pub open spec fn archive_name(dir_name: Seq<char>) -> Seq<char> {
    dir_name + ".epub"@
}

/// The path inside the archive of the entry `name` found under `base`; the
/// top level has an empty `base`.
pub open spec fn entry_path(base: Seq<char>, name: Seq<char>) -> Seq<char> {
    if base.len() == 0 {
        name
    } else {
        base + "/"@ + name
    }
}

/// Whether the entry is the type marker at the top level, which is stored
/// first and on its own.
pub open spec fn is_type_marker(base: Seq<char>, name: Seq<char>) -> bool {
    name == "mimetype"@ && base.len() == 0
}

impl Compressor {
    pub fn new() -> (r: Compressor)
        ensures
            r == Compressor,
    {
        Compressor
    }

    /// The name of the packed book made from the directory `dir_name`.
    pub fn epub_filename(&self, dir_name: &str) -> (filename: String)
        ensures
            filename@ == archive_name(dir_name@),
    {
        let mut filename = String::from_str(dir_name);
        filename.append(".epub");
        filename
    }

    /// The path inside the archive of the entry `name` found under `base`.
    pub fn zip_path(&self, base: &str, name: &str) -> (path: String)
        ensures
            path@ == entry_path(base@, name@),
    {
        if base.is_empty() {
            String::from_str(name)
        } else {
            let mut path = String::from_str(base);
            path.append("/");
            path.append(name);
            path
        }
    }

    /// Whether the entry `name` under `base` is left out of the walk, because
    /// it is the type marker that was stored first.
    pub fn skips(&self, base: &str, name: &str) -> (skip: bool)
        ensures
            skip == is_type_marker(base@, name@),
    {
        same_text(name, "mimetype") && base.is_empty()
    }
}

} // verus!
