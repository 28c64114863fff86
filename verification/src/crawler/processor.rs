//! What is written to disk for a chapter and for an image, and under which
//! name.

use vstd::prelude::*;
use vstd::string::StringExecFns;
use std::path::PathBuf;
use sha2::{Digest, Sha256};
use crate::epub::chapter::Chapter;
use crate::epub::{path_join, path_joined};
use crate::text::{hex, same_text, to_hex};

verus! {

pub const XML_CONTENT_1: &'static str = r#"<?xml version="1.0" encoding="UTF-8"?>
<!DOCTYPE html PUBLIC "-//W3C//DTD XHTML 1.1//EN" "http://www.w3.org/TR/xhtml11/DTD/xhtml11.dtd">
<html xmlns="http://www.w3.org/1999/xhtml">
<head>
    <title>"#;

pub const XML_CONTENT_2: &'static str = r#"</title>
    <meta http-equiv="Content-Type" content="text/html; charset=UTF-8"/>
</head>
<body>
    <h1>"#;

pub const XML_CONTENT_3: &'static str = r#"</h1>
    <div class="chapter-content">
"#;

pub const XML_CONTENT_4: &'static str = r#"    </div>
</body>
</html>"#;

/// The SHA-256 digest of a sequence of bytes.
pub uninterp spec fn sha256(bytes: Seq<u8>) -> Seq<u8>;

/// Trusted: the result of `Sha256::digest`, which depends on the bytes
/// alone.
#[verifier::external_body]
pub(crate) fn digest(bytes: &[u8]) -> (hash: Vec<u8>)
    ensures
        hash@ == sha256(bytes@),
{
    Sha256::digest(bytes).to_vec()
}

/// The name under which an image is saved: the digest of its bytes in
/// hexadecimal, a dot, and its extension.
pub open spec fn image_filename(bytes: Seq<u8>, extension: Seq<char>) -> Seq<char> {
    hex(sha256(bytes)) + "."@ + extension
}

/// The document that holds a chapter: its title as the page's title and as
/// heading, and its content in one container.
pub open spec fn chapter_document(title: Seq<char>, content: Seq<char>) -> Seq<char> {
    XML_CONTENT_1@ + title + XML_CONTENT_2@ + title + XML_CONTENT_3@ + content + XML_CONTENT_4@
}

/// A file to write: where, and what.
pub struct TextFile {
    pub path: PathBuf,
    pub content: String,
}

/// An image to save: under which name and where, and whether it has to be
/// written at all.
pub struct ImageFile {
    pub filename: String,
    pub path: PathBuf,
    /// Whether no file of that name is there yet. The name stands for the
    /// bytes, so a file that is there holds them already.
    pub fresh: bool,
}

/// Whether one of `names` is `name`.
pub fn has_name(names: &Vec<String>, name: &str) -> (found: bool)
    ensures
        found == names.deep_view().contains(name@),
{
    let mut i: usize = 0;
    while i < names.len()
        invariant
            i <= names.len(),
            forall|k: int| 0 <= k < i ==> names.deep_view()[k] != name@,
        decreases names.len() - i,
    {
        if same_text(names[i].as_str(), name) {
            assert(names.deep_view()[i as int] == name@);
            return true;
        }
        i += 1;
    }
    false
}

/// Decides what is written where for one book.
#[derive(Clone)]
pub struct Processor {
    image_dir: PathBuf,
    text_dir: PathBuf,
}

impl Processor {
    pub closed spec fn image_dir(&self) -> PathBuf {
        self.image_dir
    }

    pub closed spec fn text_dir(&self) -> PathBuf {
        self.text_dir
    }

    pub fn new(image_dir: PathBuf, text_dir: PathBuf) -> (processor: Processor)
        ensures
            processor.image_dir() == image_dir,
            processor.text_dir() == text_dir,
    {
        Processor { image_dir, text_dir }
    }

    /// The directory that images are saved in.
    pub fn image_directory(&self) -> (dir: PathBuf)
        ensures
            dir == self.image_dir(),
    {
        self.image_dir.clone()
    }

    /// The directory that chapters are saved in.
    pub fn text_directory(&self) -> (dir: PathBuf)
        ensures
            dir == self.text_dir(),
    {
        self.text_dir.clone()
    }

    /// The name under which the image `image_bytes` is saved.
    pub fn image_name(image_bytes: &[u8], extension: &str) -> (filename: String)
        ensures
            filename@ == image_filename(image_bytes@, extension@),
    {
        let hash = digest(image_bytes);
        let mut filename = to_hex(&hash);
        filename.append(".");
        filename.append(extension);
        filename
    }

    /// The file that holds the chapter: a document with the chapter's title
    /// around `chapter_content`, in the text directory under the chapter's
    /// file name.
    pub fn write_chapter(&self, chapter_content: &str, chapter: &Chapter) -> (file: TextFile)
        ensures
            file.path == path_joined(self.text_dir(), chapter@.filename),
            file.content@ == chapter_document(chapter@.title, chapter_content@),
    {
        let mut xhtml_content = String::new();
        xhtml_content.append(XML_CONTENT_1);
        xhtml_content.append(chapter.title.as_str());
        xhtml_content.append(XML_CONTENT_2);
        xhtml_content.append(chapter.title.as_str());
        xhtml_content.append(XML_CONTENT_3);
        xhtml_content.append(chapter_content);
        xhtml_content.append(XML_CONTENT_4);
        TextFile {
            path: path_join(&self.text_dir, chapter.filename.as_str()),
            content: xhtml_content,
        }
    }

    /// The file that holds `html` as it stands, in the text directory under
    /// the chapter's file name.
    pub fn write_html(&self, html: String, chapter: &Chapter) -> (file: TextFile)
        ensures
            file.path == path_joined(self.text_dir(), chapter@.filename),
            file.content@ == html@,
    {
        TextFile { path: path_join(&self.text_dir, chapter.filename.as_str()), content: html }
    }

    /// Takes note that the image file `filename` has been dealt with: the
    /// name is added to `existing` where it was not there.
    pub fn record(existing: &mut Vec<String>, filename: &str)
        ensures
            final(existing).deep_view() == after_saving(old(existing).deep_view(), filename@),
    {
        if !has_name(existing, filename) {
            let ghost before = existing.deep_view();
            existing.push(String::from_str(filename));
            assert(existing.deep_view() =~= before.push(filename@));
        }
    }

    /// The file that holds the image `image_bytes`: its name is made of the
    /// bytes and the extension, it lies in the image directory, and it is to
    /// be written only if `existing`, the names of the files there, does not
    /// hold its name.
    pub fn write_image(&self, image_bytes: &[u8], extension: &str, existing: &Vec<String>) -> (file:
        ImageFile)
        ensures
            file.filename@ == image_filename(image_bytes@, extension@),
            file.path == path_joined(self.image_dir(), file.filename@),
            file.fresh == (writes(existing.deep_view(), file.filename@) == 1),
    {
        let filename = Self::image_name(image_bytes, extension);
        let path = path_join(&self.image_dir, filename.as_str());
        let fresh = !has_name(existing, filename.as_str());
        ImageFile { filename, path, fresh }
    }
}

/// The names of the files in the image directory once the file `name` has
/// been dealt with: it is added where it was not there.
pub open spec fn after_saving(existing: Seq<Seq<char>>, name: Seq<char>) -> Seq<Seq<char>> {
    if existing.contains(name) {
        existing
    } else {
        existing.push(name)
    }
}

/// How many files are written when the file `name` is saved: one where it
/// is not there yet, none where it is.
pub open spec fn writes(existing: Seq<Seq<char>>, name: Seq<char>) -> nat {
    if existing.contains(name) {
        0
    } else {
        1
    }
}

/// Saving the same bytes twice gives the same name both times and writes at
/// most once: whatever files were there before the first saving, the second
/// finds the name there and does not write.
pub proof fn lemma_image_written_once(
    bytes: Seq<u8>,
    extension: Seq<char>,
    existing: Seq<Seq<char>>,
    first: Seq<char>,
    second: Seq<char>,
)
    requires
        first == image_filename(bytes, extension),
        second == image_filename(bytes, extension),
    ensures
        first == second,
        writes(after_saving(existing, first), second) == 0,
        writes(existing, first) + writes(after_saving(existing, first), second) <= 1,
        after_saving(after_saving(existing, first), second) == after_saving(existing, first),
{
    if !existing.contains(first) {
        assert(existing.push(first)[existing.len() as int] == first);
    }
}

} // verus!
