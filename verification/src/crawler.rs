//! The crawl of one book: reading pages, deciding what to fetch, and putting
//! the results in order.

pub mod downloader;
pub mod order;
pub mod parser;
pub mod processor;
pub mod task;

use vstd::prelude::*;
use vstd::string::StringExecFns;
use crate::config::SiteConfig;
use crate::crawler::downloader::{Downloader, FetchError, FetchErrorView};
use crate::crawler::order::{ordered, slot};
use crate::crawler::parser::{novel_of, ParseError, Parser};
use crate::epub::chapter::{Chapter, ChapterView};
use crate::epub::volume::{Volume, VolumeView};
use crate::epub::{path_from, path_join, path_joined, path_of, Epub, EpubView, VolOrChap, VolOrChapView};
use crate::text::{replace_all, replaced};

verus! {

/// The key that chapters are ordered by: their index.
pub open spec fn chapter_key() -> spec_fn(ChapterView) -> nat {
    |c: ChapterView| c.index
}

/// The key that volumes are ordered by: their index.
pub open spec fn volume_key() -> spec_fn(VolumeView) -> nat {
    |v: VolumeView| v.index
}

/// The children of a book in the order of their indices.
pub open spec fn ordered_children(children: VolOrChapView) -> VolOrChapView {
    match children {
        VolOrChapView::Volumes(volumes) => VolOrChapView::Volumes(ordered(volumes, volume_key())),
        VolOrChapView::Chapters(chapters) => VolOrChapView::Chapters(
            ordered(chapters, chapter_key()),
        ),
    }
}

/// The identifier of a book: the site's name, an underscore, and the book's
/// identifier on the site.
pub open spec fn book_id(site_name: Seq<char>, id: Seq<char>) -> Seq<char> {
    site_name + "_"@ + id
}

/// The reference to a saved image, seen from a chapter's file.
pub open spec fn local_reference(image_name: Seq<char>) -> Seq<char> {
    "../Images/"@ + image_name
}

/// The address of the first chapter of a book, if it has one.
pub open spec fn first_address(children: VolOrChapView) -> Option<Seq<char>> {
    match children {
        VolOrChapView::Volumes(volumes) => if volumes.len() > 0 && volumes[0].chapters.len() > 0 {
            Some(volumes[0].chapters[0].url)
        } else {
            None
        },
        VolOrChapView::Chapters(chapters) => if chapters.len() > 0 {
            Some(chapters[0].url)
        } else {
            None
        },
    }
}

/// What is put in order by an index of its own.
pub trait Indexed: DeepView {
    /// The key that items of this kind are ordered by.
    spec fn key() -> spec_fn(Self::V) -> nat;

    /// The index of the item.
    fn order_index(&self) -> (i: usize)
        ensures
            i == Self::key()(self.deep_view()),
    ;
}

impl Indexed for Chapter {
    open spec fn key() -> spec_fn(ChapterView) -> nat {
        chapter_key()
    }

    fn order_index(&self) -> (i: usize) {
        self.index
    }
}

impl Indexed for Volume {
    open spec fn key() -> spec_fn(VolumeView) -> nat {
        volume_key()
    }

    fn order_index(&self) -> (i: usize) {
        self.index
    }
}

/// The items in the order of their indices; items with the same index keep
/// the order they came in.
pub fn sort_by_index<T: Indexed>(items: Vec<T>) -> (sorted: Vec<T>)
    ensures
        sorted.deep_view() == ordered(items.deep_view(), T::key()),
{
    let ghost all = items.deep_view();
    let mut rest = items;
    let mut sorted: Vec<T> = Vec::new();
    let ghost mut done: int = 0;
    assert(sorted.deep_view() =~= Seq::empty());
    assert(all.subrange(0, all.len() as int) == all);
    while rest.len() > 0
        invariant
            0 <= done,
            done + rest.len() == all.len(),
            rest.deep_view() == all.subrange(done, all.len() as int),
            sorted.deep_view() == ordered(all.take(done), T::key()),
        decreases rest.len(),
    {
        let ghost rest_before = rest.deep_view();
        assert(rest_before[0] == rest@[0].deep_view());
        assert(rest_before[0] == all[done]);
        let item = rest.remove(0);
        assert(rest.deep_view() =~= rest_before.remove(0));
        let index = item.order_index();
        let mut p: usize = sorted.len();
        assert(sorted.deep_view().take(p as int) == sorted.deep_view());
        while p > 0 && sorted[p - 1].order_index() > index
            invariant
                p <= sorted.len(),
                index == T::key()(item.deep_view()),
                slot(sorted.deep_view(), T::key(), index as nat) == slot(
                    sorted.deep_view().take(p as int),
                    T::key(),
                    index as nat,
                ),
            decreases p,
        {
            assert(sorted.deep_view().take(p as int).drop_last() == sorted.deep_view().take(
                p - 1,
            ));
            p -= 1;
        }
        let ghost sorted_before = sorted.deep_view();
        sorted.insert(p, item);
        assert(sorted.deep_view() =~= sorted_before.insert(p as int, item.deep_view()));
        assert(all.take(done + 1).drop_last() == all.take(done));
        proof {
            done = done + 1;
        }
    }
    assert(all.take(all.len() as int) == all);
    sorted
}

/// How the chapters of a site are fetched.
#[derive(Debug, Clone, Copy, PartialEq, Eq)]
pub enum Mode {
    /// Every chapter is listed: they are fetched side by side.
    Tree,
    /// Each page names the next: they are fetched one after another.
    Sequential,
}

/// Crawls one book of one site.
pub struct DoclnCrawler<'a> {
    pub parser: Parser<'a>,
    pub downloader: Downloader<'a>,
}

impl<'a> DoclnCrawler<'a> {
    /// A crawler for the book at `url`, which must be an address that
    /// stands on its own.
    pub fn new(url: &str, config: &'a SiteConfig) -> (r: Result<DoclnCrawler<'a>, FetchError>)
        ensures
            match r {
                Ok(crawler) => crawler.parser.config == config && crawler.downloader.config
                    == config && crate::crawler::downloader::parsed_url(url@) == Some(
                    crawler.downloader.url@,
                ),
                Err(e) => e@ == FetchErrorView::BadUrl
                    && crate::crawler::downloader::parsed_url(url@) is None,
            },
    {
        match Downloader::new(config, url) {
            Ok(downloader) => Ok(DoclnCrawler { parser: Parser::new(config), downloader }),
            Err(e) => Err(e),
        }
    }

    /// How the chapters of the site are fetched: one after another where
    /// the rules name a next page, else side by side.
    pub fn crawl(&self) -> (mode: Mode)
        ensures
            mode == if self.parser.config.is_sequential() {
                Mode::Sequential
            } else {
                Mode::Tree
            },
    {
        if self.parser.config.sequential() {
            Mode::Sequential
        } else {
            Mode::Tree
        }
    }

    /// The identifier of the book `id` of the site `site_name`.
    pub fn novel_id(id: &str, site_name: &str) -> (r: String)
        ensures
            r@ == book_id(site_name@, id@),
    {
        let mut r = String::from_str(site_name);
        r.append("_");
        r.append(id);
        r
    }

    /// Sets the directories that the book is written to: one named after
    /// the book, the two that the package wants inside it, and inside the
    /// second one for images and one for texts.
    pub fn lay_out(epub: &mut Epub, novel_id: &str)
        ensures
            final(epub)@ == old(epub)@,
            final(epub).epub_dir == path_of(novel_id@),
            final(epub).meta_dir == path_joined(final(epub).epub_dir, "META-INF"@),
            final(epub).oebps_dir == path_joined(final(epub).epub_dir, "OEBPS"@),
            final(epub).image_dir == path_joined(final(epub).oebps_dir, "Images"@),
            final(epub).text_dir == path_joined(final(epub).oebps_dir, "Text"@),
    {
        let epub_dir = path_from(novel_id);
        let meta_dir = path_join(&epub_dir, "META-INF");
        let oebps_dir = path_join(&epub_dir, "OEBPS");
        let image_dir = path_join(&oebps_dir, "Images");
        let text_dir = path_join(&oebps_dir, "Text");
        epub.epub_dir = epub_dir;
        epub.meta_dir = meta_dir;
        epub.oebps_dir = oebps_dir;
        epub.image_dir = image_dir;
        epub.text_dir = text_dir;
    }

    /// The book that the page `novel_html` describes, with its directories
    /// set. Its cover and its children are as the page gives them: they are
    /// still to be fetched.
    pub fn epub_task(&self, novel_id: String, novel_html: &str) -> (r: Result<Epub, ParseError>)
        ensures
            match r {
                Ok(epub) => {
                    &&& novel_of(*self.parser.config, novel_html@, novel_id@) == Ok::<
                        EpubView,
                        ParseError,
                    >(epub@)
                    &&& epub.epub_dir == path_of(novel_id@)
                    &&& epub.meta_dir == path_joined(epub.epub_dir, "META-INF"@)
                    &&& epub.oebps_dir == path_joined(epub.epub_dir, "OEBPS"@)
                    &&& epub.image_dir == path_joined(epub.oebps_dir, "Images"@)
                    &&& epub.text_dir == path_joined(epub.oebps_dir, "Text"@)
                },
                Err(e) => novel_of(*self.parser.config, novel_html@, novel_id@) == Err::<
                    EpubView,
                    ParseError,
                >(e),
            },
    {
        let id = novel_id.clone();
        match self.parser.novel_info(novel_html, novel_id) {
            Ok(mut epub) => {
                Self::lay_out(&mut epub, id.as_str());
                Ok(epub)
            },
            Err(e) => Err(e),
        }
    }

    /// As `epub_task`, for a site read page by page: the book, and the
    /// address of its first chapter, from which the reading starts, if it
    /// has a chapter.
    pub fn epub_sequential(&self, novel_id: String, novel_html: &str) -> (r: Result<
        (Epub, Option<String>),
        ParseError,
    >)
        ensures
            match r {
                Ok((epub, start)) => {
                    &&& novel_of(*self.parser.config, novel_html@, novel_id@) == Ok::<
                        EpubView,
                        ParseError,
                    >(epub@)
                    &&& start.deep_view() == first_address(epub@.children)
                    &&& epub.epub_dir == path_of(novel_id@)
                    &&& epub.meta_dir == path_joined(epub.epub_dir, "META-INF"@)
                    &&& epub.oebps_dir == path_joined(epub.epub_dir, "OEBPS"@)
                    &&& epub.image_dir == path_joined(epub.oebps_dir, "Images"@)
                    &&& epub.text_dir == path_joined(epub.oebps_dir, "Text"@)
                },
                Err(e) => novel_of(*self.parser.config, novel_html@, novel_id@) == Err::<
                    EpubView,
                    ParseError,
                >(e),
            },
    {
        match self.epub_task(novel_id, novel_html) {
            Ok(epub) => {
                let start = Self::first_url(&epub.children);
                Ok((epub, start))
            },
            Err(e) => Err(e),
        }
    }

    /// The address of the first chapter among `children`, if there is one.
    pub fn first_url(children: &VolOrChap) -> (start: Option<String>)
        ensures
            start.deep_view() == first_address(children@),
    {
        match children {
            VolOrChap::Volumes(volumes) => {
                if volumes.len() > 0 && volumes[0].chapters.len() > 0 {
                    Some(volumes[0].chapters[0].url.clone())
                } else {
                    None
                }
            },
            VolOrChap::Chapters(chapters) => {
                if chapters.len() > 0 {
                    Some(chapters[0].url.clone())
                } else {
                    None
                }
            },
        }
    }

    /// What a chapter's content becomes once the image at `src` is dealt
    /// with. Where it was saved, under `saved`, every mention of `src` is
    /// replaced by the reference to the saved file, and the file is recorded
    /// with the chapter. Where it was not, content and chapter stay as they
    /// are: the chapter does not fail for an image.
    pub fn chapter_task(content: String, chapter: &mut Chapter, src: &str, saved: Option<String>)
        -> (r: String)
        ensures
            match saved {
                Some(image_name) => {
                    &&& r@ == replaced(content@, src@, local_reference(image_name@))
                    &&& final(chapter)@ == (ChapterView {
                        has_illustrations: true,
                        images: old(chapter)@.images.push(image_name@),
                        ..old(chapter)@
                    })
                },
                None => r@ == content@ && final(chapter)@ == old(chapter)@,
            },
    {
        match saved {
            Some(image_name) => {
                let mut reference = String::from_str("../Images/");
                reference.append(image_name.as_str());
                let r = replace_all(content.as_str(), src, reference.as_str());
                chapter.record_image(image_name);
                r
            },
            None => content,
        }
    }

    /// The volume with its cover replaced by the name it was saved under.
    pub fn volume_task(volume: &mut Volume, cover_name: String)
        ensures
            final(volume)@ == (VolumeView { cover: Some(cover_name@), ..old(volume)@ }),
    {
        volume.cover = Some(cover_name);
    }

    /// The chapters in the order of their indices, whatever order they
    /// arrived in.
    pub fn sort_chapters(chapters: Vec<Chapter>) -> (sorted: Vec<Chapter>)
        ensures
            sorted.deep_view() == ordered(chapters.deep_view(), chapter_key()),
    {
        sort_by_index(chapters)
    }

    /// The volumes in the order of their indices, whatever order they
    /// arrived in.
    pub fn sort_volumes(volumes: Vec<Volume>) -> (sorted: Vec<Volume>)
        ensures
            sorted.deep_view() == ordered(volumes.deep_view(), volume_key()),
    {
        sort_by_index(volumes)
    }

    /// The volume with the chapters that were collected for it, in the
    /// order of their indices.
    pub fn collect_volume(volume: Volume, chapters: Vec<Chapter>) -> (r: Volume)
        ensures
            r@ == (VolumeView { chapters: ordered(chapters.deep_view(), chapter_key()), ..volume@ }),
    {
        let mut volume = volume;
        volume.chapters = Self::sort_chapters(chapters);
        volume
    }

    /// Gives the book the children that were collected for it, in the order
    /// of their indices.
    pub fn set_epub_children(epub: &mut Epub, children: VolOrChap)
        ensures
            final(epub)@ == (EpubView { children: ordered_children(children@), ..old(epub)@ }),
            final(epub).epub_dir == old(epub).epub_dir,
            final(epub).meta_dir == old(epub).meta_dir,
            final(epub).oebps_dir == old(epub).oebps_dir,
            final(epub).image_dir == old(epub).image_dir,
            final(epub).text_dir == old(epub).text_dir,
    {
        match children {
            VolOrChap::Volumes(volumes) => {
                epub.children = VolOrChap::Volumes(Self::sort_volumes(volumes));
            },
            VolOrChap::Chapters(chapters) => {
                epub.children = VolOrChap::Chapters(Self::sort_chapters(chapters));
            },
        }
    }
}

/// Whether no two chapters have the same index.
pub open spec fn distinct_chapters(chapters: Seq<ChapterView>) -> bool {
    crate::crawler::order::distinct(chapters, chapter_key())
}

/// Whether no two volumes have the same index.
pub open spec fn distinct_volumes(volumes: Seq<VolumeView>) -> bool {
    crate::crawler::order::distinct(volumes, volume_key())
}

/// Whatever order the chapters of a container arrive in, they end up in the
/// same order, with indices that go up at every step.
pub proof fn lemma_chapters_in_order(arrived: Seq<ChapterView>, otherwise: Seq<ChapterView>)
    requires
        arrived.to_multiset() == otherwise.to_multiset(),
        distinct_chapters(arrived),
        distinct_chapters(otherwise),
    ensures
        ordered(arrived, chapter_key()) == ordered(otherwise, chapter_key()),
        forall|i: int, j: int|
            0 <= i < j < ordered(arrived, chapter_key()).len() ==> ordered(
                arrived,
                chapter_key(),
            )[i].index < ordered(arrived, chapter_key())[j].index,
{
    crate::crawler::order::lemma_order_ignores_arrival(arrived, otherwise, chapter_key());
}

/// Whatever order the volumes of a book arrive in, they end up in the same
/// order, with indices that go up at every step.
pub proof fn lemma_volumes_in_order(arrived: Seq<VolumeView>, otherwise: Seq<VolumeView>)
    requires
        arrived.to_multiset() == otherwise.to_multiset(),
        distinct_volumes(arrived),
        distinct_volumes(otherwise),
    ensures
        ordered(arrived, volume_key()) == ordered(otherwise, volume_key()),
        forall|i: int, j: int|
            0 <= i < j < ordered(arrived, volume_key()).len() ==> ordered(
                arrived,
                volume_key(),
            )[i].index < ordered(arrived, volume_key())[j].index,
{
    crate::crawler::order::lemma_order_ignores_arrival(arrived, otherwise, volume_key());
}

} // verus!
