//! The book as it is assembled: its metadata and its volumes or chapters.

pub mod chapter;
pub mod compression;
pub mod metadata;
pub mod volume;

use vstd::prelude::*;
use std::path::PathBuf;
use crate::epub::chapter::{Chapter, ChapterView};
use crate::epub::volume::{Volume, VolumeView};

verus! {

/// A path in the file system: `std::path::PathBuf`.
#[verifier::external_type_specification]
#[verifier::external_body]
pub struct ExPathBuf(PathBuf);

/// Trusted: a clone of a path is the same path.
pub assume_specification[ <PathBuf as Clone>::clone ](path: &PathBuf) -> (r: PathBuf)
    ensures
        r == *path,
;

/// The path that `PathBuf::from` makes of a text.
pub uninterp spec fn path_of(text: Seq<char>) -> PathBuf;

/// The path that `Path::join` makes of a directory and a name.
pub uninterp spec fn path_joined(base: PathBuf, name: Seq<char>) -> PathBuf;

/// Trusted: the result of `PathBuf::from`, which depends on the text alone.
#[verifier::external_body]
pub(crate) fn path_from(text: &str) -> (r: PathBuf)
    ensures
        r == path_of(text@),
{
    PathBuf::from(text)
}

/// Trusted: the result of `Path::join`, which depends on the directory and the
/// name alone.
#[verifier::external_body]
pub(crate) fn path_join(base: &PathBuf, name: &str) -> (r: PathBuf)
    ensures
        r == path_joined(*base, name@),
{
    base.join(name)
}

/// The children of a book: volumes of chapters, or chapters alone.
#[derive(Debug, Clone)]
pub enum VolOrChap {
    Volumes(Vec<Volume>),
    Chapters(Vec<Chapter>),
}

/// The children of a book, as plain values.
pub enum VolOrChapView {
    Volumes(Seq<VolumeView>),
    Chapters(Seq<ChapterView>),
}

impl View for VolOrChap {
    type V = VolOrChapView;

    open spec fn view(&self) -> VolOrChapView {
        match self {
            VolOrChap::Volumes(volumes) => VolOrChapView::Volumes(volumes.deep_view()),
            VolOrChap::Chapters(chapters) => VolOrChapView::Chapters(chapters.deep_view()),
        }
    }
}

impl Default for VolOrChap {
    /// No volumes, and no chapters yet.
    fn default() -> (r: VolOrChap)
        ensures
            r@ == VolOrChapView::Chapters(Seq::empty()),
    {
        let chapters: Vec<Chapter> = Vec::new();
        assert(chapters.deep_view() =~= Seq::<ChapterView>::empty());
        VolOrChap::Chapters(chapters)
    }
}

/// A book: its metadata, its children, and the directories it is written to.
#[derive(Debug, Clone)]
pub struct Epub {
    pub id: String,
    pub title: String,
    pub lang: String,
    pub author: String,
    pub illustrator: Option<String>,
    pub summary: String,
    /// The cover image: its address until it is saved, its file name after.
    pub cover: Option<String>,
    pub children: VolOrChap,
    pub tags: Vec<String>,
    pub epub_dir: PathBuf,
    pub meta_dir: PathBuf,
    pub oebps_dir: PathBuf,
    pub image_dir: PathBuf,
    pub text_dir: PathBuf,
}

/// What a book holds, as plain values; the directories are left out.
pub struct EpubView {
    pub id: Seq<char>,
    pub title: Seq<char>,
    pub lang: Seq<char>,
    pub author: Seq<char>,
    pub illustrator: Option<Seq<char>>,
    pub summary: Seq<char>,
    pub cover: Option<Seq<char>>,
    pub children: VolOrChapView,
    pub tags: Seq<Seq<char>>,
}

impl View for Epub {
    type V = EpubView;

    open spec fn view(&self) -> EpubView {
        EpubView {
            id: self.id@,
            title: self.title@,
            lang: self.lang@,
            author: self.author@,
            illustrator: self.illustrator.deep_view(),
            summary: self.summary@,
            cover: self.cover.deep_view(),
            children: self.children@,
            tags: self.tags.deep_view(),
        }
    }
}

} // verus!
