//! Reads the pages of a site by its rules: the book with its table of
//! contents, and the content of a chapter.

use vstd::prelude::*;
use vstd::string::StringExecFns;
use scraper::ElementRef;
use crate::config::SiteConfig;
use crate::dom::{
    attr, attribute, document_matches, document_root, parse_document, parse_fragment,
    parse_selector, parsed_document, parsed_fragment, parsed_selector, root_element, select,
    select_in_document, selected,
};
use crate::epub::chapter::{Chapter, ChapterView};
use crate::epub::volume::{Volume, VolumeView};
use crate::epub::{path_from, path_of, Epub, EpubView, VolOrChap, VolOrChapView};
use crate::epub::metadata::{append_decimal, index_view};
use crate::extractor::{
    first, first_of, mandatory, optional, single, BookExtractor, ChapterExtractor, Value,
    ValueView, VolumeExtractor,
};
use crate::text::{decimal, trim, trimmed};

verus! {

/// Why a page could not be read.
#[derive(Debug, Clone, Copy, PartialEq, Eq)]
pub enum ParseError {
    /// The site has no rules for chapters.
    NoChapterRule,
    /// The page has no element that holds the chapter's content.
    NoContentElement,
    /// The chapter's content is missing.
    NoContent,
    /// The page has no element that holds the book.
    NoBookElement,
    /// The book's title is missing.
    NoTitle,
    /// The book's author is missing.
    NoAuthor,
    /// The site has rules neither for volumes nor for chapters.
    NoChildrenRule,
    /// The title of a volume is missing; volumes count from 1.
    NoVolumeTitle(usize),
    /// The title of a chapter is missing; volumes and chapters count from 1.
    NoChapterTitle { volume: Option<usize>, chapter: usize },
    /// The address of a chapter is missing; volumes and chapters count from
    /// 1.
    NoChapterUrl { volume: Option<usize>, chapter: usize },
}

/// What a failure says to the user.
pub open spec fn parse_message(error: ParseError) -> Seq<char> {
    match error {
        ParseError::NoChapterRule => "未配置章节提取器"@,
        ParseError::NoContentElement => "无法找到章节内容"@,
        ParseError::NoContent => "章节内容提取失败"@,
        ParseError::NoBookElement => "无法获取小说元素"@,
        ParseError::NoTitle => "无法提取小说标题"@,
        ParseError::NoAuthor => "无法提取作者信息"@,
        ParseError::NoChildrenRule => "未配置卷或章节提取器"@,
        ParseError::NoVolumeTitle(volume) => "无法提取第 "@ + decimal(volume as nat) + " 卷标题"@,
        ParseError::NoChapterTitle { volume, chapter } => place(volume, chapter) + " 章标题"@,
        ParseError::NoChapterUrl { volume, chapter } => place(volume, chapter) + " 章内容链接"@,
    }
}

/// How a failure names the chapter it is about.
pub open spec fn place(volume: Option<usize>, chapter: usize) -> Seq<char> {
    match volume {
        Some(v) => "无法提取第 "@ + decimal(v as nat) + " 卷第 "@ + decimal(chapter as nat),
        None => "无法提取第 "@ + decimal(chapter as nat),
    }
}

impl ParseError {
    /// What the failure says to the user.
    pub fn message(&self) -> (text: String)
        ensures
            text@ == parse_message(*self),
    {
        match self {
            ParseError::NoChapterRule => String::from_str("未配置章节提取器"),
            ParseError::NoContentElement => String::from_str("无法找到章节内容"),
            ParseError::NoContent => String::from_str("章节内容提取失败"),
            ParseError::NoBookElement => String::from_str("无法获取小说元素"),
            ParseError::NoTitle => String::from_str("无法提取小说标题"),
            ParseError::NoAuthor => String::from_str("无法提取作者信息"),
            ParseError::NoChildrenRule => String::from_str("未配置卷或章节提取器"),
            ParseError::NoVolumeTitle(volume) => {
                let mut text = String::from_str("无法提取第 ");
                append_decimal(&mut text, *volume);
                text.append(" 卷标题");
                text
            },
            ParseError::NoChapterTitle { volume, chapter } => {
                let mut text = Self::place(*volume, *chapter);
                text.append(" 章标题");
                text
            },
            ParseError::NoChapterUrl { volume, chapter } => {
                let mut text = Self::place(*volume, *chapter);
                text.append(" 章内容链接");
                text
            },
        }
    }

    fn place(volume: Option<usize>, chapter: usize) -> (text: String)
        ensures
            text@ == place(volume, chapter),
    {
        let mut text = String::from_str("无法提取第 ");
        match volume {
            Some(v) => {
                append_decimal(&mut text, v);
                text.append(" 卷第 ");
            },
            None => {},
        }
        append_decimal(&mut text, chapter);
        text
    }
}

/// The number of the volume at a position, where there is one.
pub open spec fn volume_number(volume_index: Option<nat>) -> Option<usize> {
    match volume_index {
        Some(v) => Some((v + 1) as usize),
        None => None,
    }
}

/// The file of the chapter numbered `chapter`, in the volume numbered
/// `volume` if there is one.
pub open spec fn chapter_filename(volume: Option<nat>, chapter: nat) -> Seq<char> {
    match volume {
        Some(v) => decimal(v) + "_"@ + decimal(chapter) + ".xhtml"@,
        None => decimal(chapter) + ".xhtml"@,
    }
}

/// The file of the divider page of the volume numbered `volume`.
pub open spec fn cover_filename(volume: nat) -> Seq<char> {
    decimal(volume) + "_cover.xhtml"@
}

/// The chapter that `element` describes at `position` of its list, counted
/// from 0, in the volume at `volume_index` if there is one.
pub open spec fn chapter_at(
    rule: ChapterExtractor,
    element: ElementRef<'_>,
    position: nat,
    volume_index: Option<nat>,
) -> Result<ChapterView, ParseError> {
    match mandatory(rule.title.extracted(element)) {
        None => Err(
            ParseError::NoChapterTitle {
                volume: volume_number(volume_index),
                chapter: (position + 1) as usize,
            },
        ),
        Some(title) => match mandatory(rule.content_url.extracted(element)) {
            None => Err(
                ParseError::NoChapterUrl {
                    volume: volume_number(volume_index),
                    chapter: (position + 1) as usize,
                },
            ),
            Some(url) => Ok(
                ChapterView {
                    index: position + 1,
                    title: trimmed(title),
                    url,
                    has_illustrations: false,
                    images: Seq::empty(),
                    filename: chapter_filename(
                        match volume_index {
                            Some(v) => Some(v + 1),
                            None => None,
                        },
                        position + 1,
                    ),
                },
            ),
        },
    }
}

/// The chapters that `elements` describe, in order; the first one that
/// cannot be read fails the whole list.
pub open spec fn chapters_of(
    rule: ChapterExtractor,
    elements: Seq<ElementRef<'_>>,
    volume_index: Option<nat>,
) -> Result<Seq<ChapterView>, ParseError>
    decreases elements.len(),
{
    if elements.len() == 0 {
        Ok(Seq::empty())
    } else {
        match chapters_of(rule, elements.drop_last(), volume_index) {
            Err(e) => Err(e),
            Ok(chapters) => match chapter_at(
                rule,
                elements.last(),
                (elements.len() - 1) as nat,
                volume_index,
            ) {
                Err(e) => Err(e),
                Ok(chapter) => Ok(chapters.push(chapter)),
            },
        }
    }
}

/// The volume that `element` describes at `position` of its list, counted
/// from 0.
pub open spec fn volume_at(rule: VolumeExtractor, element: ElementRef<'_>, position: nat) -> Result<
    VolumeView,
    ParseError,
> {
    match mandatory(rule.title.extracted(element)) {
        None => Err(ParseError::NoVolumeTitle((position + 1) as usize)),
        Some(title) => match chapters_of(
            rule.chapters,
            selected(element, rule.chapters.this),
            Some(position),
        ) {
            Err(e) => Err(e),
            Ok(chapters) => Ok(
                VolumeView {
                    index: position + 1,
                    cover: single(optional(rule.cover_url, element)),
                    chapters,
                    cover_chapter: ChapterView {
                        index: 0,
                        title: trimmed(title),
                        url: Seq::empty(),
                        has_illustrations: false,
                        images: Seq::empty(),
                        filename: cover_filename(position + 1),
                    },
                },
            ),
        },
    }
}

/// The volumes that `elements` describe, in order; the first one that cannot
/// be read fails the whole list.
pub open spec fn volumes_of(rule: VolumeExtractor, elements: Seq<ElementRef<'_>>) -> Result<
    Seq<VolumeView>,
    ParseError,
>
    decreases elements.len(),
{
    if elements.len() == 0 {
        Ok(Seq::empty())
    } else {
        match volumes_of(rule, elements.drop_last()) {
            Err(e) => Err(e),
            Ok(volumes) => match volume_at(rule, elements.last(), (elements.len() - 1) as nat) {
                Err(e) => Err(e),
                Ok(volume) => Ok(volumes.push(volume)),
            },
        }
    }
}

/// The chapters of a book that has no volumes.
pub open spec fn flat_chapters_of(book: BookExtractor, element: ElementRef<'_>) -> Result<
    VolOrChapView,
    ParseError,
> {
    match book.chapters {
        None => Err(ParseError::NoChildrenRule),
        Some(rule) => match chapters_of(rule, selected(element, rule.this), None) {
            Err(e) => Err(e),
            Ok(chapters) => Ok(VolOrChapView::Chapters(chapters)),
        },
    }
}

/// The children of a book. A book with rules for volumes has the volumes
/// that they find; where they find none and there are rules for chapters
/// too, it has its chapters instead. A book without rules for volumes has
/// its chapters.
pub open spec fn children_of(book: BookExtractor, element: ElementRef<'_>) -> Result<
    VolOrChapView,
    ParseError,
> {
    match book.volumes {
        None => flat_chapters_of(book, element),
        Some(rule) => match volumes_of(rule, selected(element, rule.this)) {
            Err(e) => Err(e),
            Ok(volumes) => if volumes.len() == 0 && book.chapters is Some {
                flat_chapters_of(book, element)
            } else {
                Ok(VolOrChapView::Volumes(volumes))
            },
        },
    }
}

/// The tags of a book: those of a value that holds several texts.
pub open spec fn tags_of(value: ValueView) -> Seq<Seq<char>> {
    match value {
        ValueView::Multiple(tags) => tags,
        _ => Seq::empty(),
    }
}

/// The book that `element` describes.
pub open spec fn book_of(config: SiteConfig, element: ElementRef<'_>, id: Seq<char>) -> Result<
    EpubView,
    ParseError,
> {
    let book = config.book;
    match mandatory(book.title.extracted(element)) {
        None => Err(ParseError::NoTitle),
        Some(title) => match mandatory(book.author.extracted(element)) {
            None => Err(ParseError::NoAuthor),
            Some(author) => match children_of(book, element) {
                Err(e) => Err(e),
                Ok(children) => Ok(
                    EpubView {
                        id,
                        title: trimmed(title),
                        lang: config.lang@,
                        author,
                        illustrator: single(optional(book.illustrator, element)),
                        summary: match single(optional(book.summary, element)) {
                            Some(summary) => summary,
                            None => Seq::empty(),
                        },
                        cover: single(optional(book.cover_url, element)),
                        children,
                        tags: tags_of(optional(book.tags, element)),
                    },
                ),
            },
        },
    }
}

/// The book that the page `html` describes.
pub open spec fn novel_of(config: SiteConfig, html: Seq<char>, id: Seq<char>) -> Result<
    EpubView,
    ParseError,
> {
    let document = parsed_document(html);
    match first(selected(document_root(&document), config.book.this)) {
        None => Err(ParseError::NoBookElement),
        Some(element) => book_of(config, element, id),
    }
}

/// The addresses of the images among `elements`: their `src` attributes that
/// are not empty, in order.
pub open spec fn sources_of(elements: Seq<ElementRef<'_>>) -> Seq<Seq<char>>
    decreases elements.len(),
{
    if elements.len() == 0 {
        Seq::empty()
    } else {
        match attribute(elements.last(), "src"@) {
            Some(src) => if src.len() > 0 {
                sources_of(elements.drop_last()).push(src)
            } else {
                sources_of(elements.drop_last())
            },
            None => sources_of(elements.drop_last()),
        }
    }
}

/// The addresses of the images embedded in a chapter's content, in order.
pub open spec fn image_sources(content: Seq<char>) -> Seq<Seq<char>> {
    match parsed_selector("img"@) {
        Some(selector) => sources_of(document_matches(&parsed_fragment(content), selector)),
        None => Seq::empty(),
    }
}

/// One page of a site that is read page by page.
pub struct Page {
    /// The content on the page.
    pub paragraphs: String,
    /// The title on the page, trimmed, if the rules find one.
    pub title: Option<String>,
    /// The address of the next page as the page gives it, if it gives one.
    pub next_url: Option<String>,
}

/// One page, as plain values.
pub struct PageView {
    pub paragraphs: Seq<char>,
    pub title: Option<Seq<char>>,
    pub next_url: Option<Seq<char>>,
}

impl View for Page {
    type V = PageView;

    open spec fn view(&self) -> PageView {
        PageView {
            paragraphs: self.paragraphs@,
            title: self.title.deep_view(),
            next_url: self.next_url.deep_view(),
        }
    }
}

/// What the page `html` of a site read page by page holds.
pub open spec fn page_of(config: SiteConfig, html: Seq<char>) -> Result<PageView, ParseError> {
    let document = parsed_document(html);
    match config.chapter_config() {
        None => Err(ParseError::NoChapterRule),
        Some(rule) => match first(document_matches(&document, rule.content.this)) {
            None => Err(ParseError::NoContentElement),
            Some(element) => match mandatory(rule.content.paragraphs.extracted(element)) {
                None => Err(ParseError::NoContent),
                Some(paragraphs) => Ok(
                    PageView {
                        paragraphs,
                        title: match single(optional(rule.content.title, element)) {
                            Some(title) => Some(trimmed(title)),
                            None => None,
                        },
                        next_url: single(optional(rule.content.next_url, element)),
                    },
                ),
            },
        },
    }
}

/// The content of the chapter that the page `html` holds: what the page
/// holds as content.
pub open spec fn content_of(config: SiteConfig, html: Seq<char>) -> Result<Seq<char>, ParseError> {
    match page_of(config, html) {
        Ok(page) => Ok(page.paragraphs),
        Err(e) => Err(e),
    }
}

/// Reads the pages of one site.
#[derive(Clone, Copy)]
pub struct Parser<'a> {
    pub config: &'a SiteConfig,
}

impl<'a> Parser<'a> {
    pub fn new(config: &'a SiteConfig) -> (parser: Parser<'a>)
        ensures
            parser.config == config,
    {
        Parser { config }
    }

    /// The content of the chapter that the page `chapter` holds. It fails
    /// where `page` fails.
    pub fn chapter_content(&self, chapter: String) -> (content: Result<String, ParseError>)
        ensures
            match content {
                Ok(text) => content_of(*self.config, chapter@) == Ok::<Seq<char>, ParseError>(
                    text@,
                ),
                Err(e) => content_of(*self.config, chapter@) == Err::<Seq<char>, ParseError>(e),
            },
    {
        match self.page(chapter.as_str()) {
            Ok(page) => Ok(page.paragraphs),
            Err(e) => Err(e),
        }
    }

    /// What a chapter's page `html` holds: its content, and, for a site read
    /// page by page, its title and the address of the next page. It fails
    /// where the site has no rules for chapters, the page has no content
    /// element, or the content is missing or blank.
    pub fn page(&self, html: &str) -> (page: Result<Page, ParseError>)
        ensures
            match page {
                Ok(p) => page_of(*self.config, html@) == Ok::<PageView, ParseError>(p@),
                Err(e) => page_of(*self.config, html@) == Err::<PageView, ParseError>(e),
            },
    {
        let document = parse_document(html);
        let rule = match self.config.get_chapter_config() {
            Some(rule) => rule,
            None => {
                return Err(ParseError::NoChapterRule);
            },
        };
        let found = select_in_document(&document, &rule.content.this);
        let element = match first_of(&found) {
            Some(element) => element,
            None => {
                return Err(ParseError::NoContentElement);
            },
        };
        let paragraphs = match rule.content.extract_paragraphs(element).into_mandatory() {
            Some(paragraphs) => paragraphs,
            None => {
                return Err(ParseError::NoContent);
            },
        };
        let title = match rule.content.extract_title(element).into_single() {
            Some(title) => Some(trim(title.as_str())),
            None => None,
        };
        let next_url = rule.content.extract_next_url(element).into_single();
        Ok(Page { paragraphs, title, next_url })
    }

    /// The addresses of the images embedded in a chapter's content, in
    /// order; those without an address or with an empty one are left out.
    pub fn chapter_srcs(&self, chapter_content: &str) -> (srcs: Vec<String>)
        ensures
            srcs.deep_view() == image_sources(chapter_content@),
    {
        let mut srcs: Vec<String> = Vec::new();
        assert(srcs.deep_view() =~= Seq::empty());
        let document = parse_fragment(chapter_content);
        let selector = match parse_selector("img") {
            Some(selector) => selector,
            None => {
                return srcs;
            },
        };
        let images = select_in_document(&document, &selector);
        let mut i: usize = 0;
        while i < images.len()
            invariant
                i <= images.len(),
                srcs.deep_view() == sources_of(images@.take(i as int)),
            decreases images.len() - i,
        {
            assert(images@.take(i + 1).drop_last() == images@.take(i as int));
            let ghost before = srcs.deep_view();
            match attr(images[i], "src") {
                Some(src) => {
                    if !src.as_str().is_empty() {
                        srcs.push(src);
                        assert(srcs.deep_view() =~= before.push(src@));
                    }
                },
                None => {},
            }
            i += 1;
        }
        assert(images@.take(images.len() as int) == images@);
        srcs
    }

    /// The book that the page `novel_html` describes, with `novel_id` as its
    /// identifier and no directories yet. It fails where the page has no
    /// book element, the title or the author is missing or blank, or the
    /// table of contents cannot be read.
    pub fn novel_info(&self, novel_html: &str, novel_id: String) -> (book: Result<Epub, ParseError>)
        ensures
            match book {
                Ok(epub) => {
                    &&& novel_of(*self.config, novel_html@, novel_id@) == Ok::<
                        EpubView,
                        ParseError,
                    >(epub@)
                    &&& epub.epub_dir == path_of(Seq::empty())
                    &&& epub.meta_dir == path_of(Seq::empty())
                    &&& epub.oebps_dir == path_of(Seq::empty())
                    &&& epub.image_dir == path_of(Seq::empty())
                    &&& epub.text_dir == path_of(Seq::empty())
                },
                Err(e) => novel_of(*self.config, novel_html@, novel_id@) == Err::<
                    EpubView,
                    ParseError,
                >(e),
            },
    {
        let document = parse_document(novel_html);
        let book_extractor = self.config.get_book_config();
        let book_elem = match book_extractor.this(root_element(&document)) {
            Some(element) => element,
            None => {
                return Err(ParseError::NoBookElement);
            },
        };
        let title = match book_extractor.extract_title(book_elem).into_mandatory() {
            Some(title) => title,
            None => {
                return Err(ParseError::NoTitle);
            },
        };
        let author = match book_extractor.extract_author(book_elem).into_mandatory() {
            Some(author) => author,
            None => {
                return Err(ParseError::NoAuthor);
            },
        };
        let tags = match book_extractor.extract_tags(book_elem) {
            Value::Multiple(ts) => ts,
            _ => {
                let none: Vec<String> = Vec::new();
                assert(none.deep_view() =~= Seq::empty());
                none
            },
        };
        let illustrator = book_extractor.extract_illustrator(book_elem).into_single();
        let cover = book_extractor.extract_cover_url(book_elem).into_single();
        let summary = match book_extractor.extract_summary(book_elem).into_single() {
            Some(s) => s,
            None => String::new(),
        };
        let children = match self.children(book_elem) {
            Ok(children) => children,
            Err(e) => {
                return Err(e);
            },
        };
        proof {
            reveal_strlit("");
            assert(""@ =~= Seq::<char>::empty());
        }
        Ok(
            Epub {
                id: novel_id,
                title: trim(title.as_str()),
                lang: self.config.lang.clone(),
                author,
                illustrator,
                summary,
                cover,
                children,
                tags,
                epub_dir: path_from(""),
                meta_dir: path_from(""),
                oebps_dir: path_from(""),
                image_dir: path_from(""),
                text_dir: path_from(""),
            },
        )
    }

    /// The children of the book at `book_elem`: the volumes that the rules
    /// for volumes find; its chapters where there are no such rules, or
    /// where they find no volume and there are rules for chapters too. It
    /// fails where a volume or a chapter cannot be read, and where the site
    /// has rules for neither.
    pub fn children(&self, book_elem: ElementRef<'_>) -> (children: Result<VolOrChap, ParseError>)
        ensures
            match children {
                Ok(c) => children_of(self.config.book, book_elem) == Ok::<
                    VolOrChapView,
                    ParseError,
                >(c@),
                Err(e) => children_of(self.config.book, book_elem) == Err::<
                    VolOrChapView,
                    ParseError,
                >(e),
            },
    {
        let book_extractor = self.config.get_book_config();
        match &book_extractor.volumes {
            Some(volume_extractor) => {
                let elements = select(book_elem, &volume_extractor.this);
                let volumes = match self.volumes(&elements, volume_extractor) {
                    Ok(volumes) => volumes,
                    Err(e) => {
                        return Err(e);
                    },
                };
                if volumes.len() > 0 || book_extractor.chapters.is_none() {
                    return Ok(VolOrChap::Volumes(volumes));
                }
            },
            None => {},
        }
        match &book_extractor.chapters {
            Some(chapter_extractor) => {
                let elements = select(book_elem, &chapter_extractor.this);
                match self.chapters(&elements, chapter_extractor, None) {
                    Ok(chapters) => Ok(VolOrChap::Chapters(chapters)),
                    Err(e) => Err(e),
                }
            },
            None => Err(ParseError::NoChildrenRule),
        }
    }

    /// The volumes that `elements` describe, numbered from 1 in the order
    /// given.
    pub fn volumes(&self, elements: &Vec<ElementRef<'_>>, extractor: &VolumeExtractor) -> (volumes:
        Result<Vec<Volume>, ParseError>)
        ensures
            match volumes {
                Ok(v) => volumes_of(*extractor, elements@) == Ok::<Seq<VolumeView>, ParseError>(
                    v.deep_view(),
                ),
                Err(e) => volumes_of(*extractor, elements@) == Err::<Seq<VolumeView>, ParseError>(
                    e,
                ),
            },
    {
        let mut volumes: Vec<Volume> = Vec::new();
        assert(volumes.deep_view() =~= Seq::empty());
        let mut volume_index: usize = 0;
        while volume_index < elements.len()
            invariant
                volume_index <= elements.len(),
                volumes_of(*extractor, elements@.take(volume_index as int)) == Ok::<
                    Seq<VolumeView>,
                    ParseError,
                >(volumes.deep_view()),
            decreases elements.len() - volume_index,
        {
            let volume_elem = elements[volume_index];
            proof {
                assert(elements@.take(volume_index + 1).drop_last() == elements@.take(
                    volume_index as int,
                ));
                lemma_volumes_fail_on(*extractor, elements@, volume_index + 1);
            }
            let title = match extractor.extract_title(volume_elem).into_mandatory() {
                Some(title) => title,
                None => {
                    return Err(ParseError::NoVolumeTitle(volume_index + 1));
                },
            };
            let cover_url = extractor.extract_cover_url(volume_elem).into_single();
            let mut filename = String::new();
            append_decimal(&mut filename, volume_index + 1);
            filename.append("_cover.xhtml");
            let cover_chapter = Chapter::new(0, trim(title.as_str()), String::new(), filename);
            let chapter_elems = extractor.chapter_iter(volume_elem);
            let chapters = match self.chapters(
                &chapter_elems,
                &extractor.chapters,
                Some(volume_index),
            ) {
                Ok(chapters) => chapters,
                Err(e) => {
                    return Err(e);
                },
            };
            let ghost before = volumes.deep_view();
            let volume = Volume {
                index: volume_index + 1,
                cover: cover_url,
                chapters,
                cover_chapter,
            };
            volumes.push(volume);
            assert(volumes.deep_view() =~= before.push(volume@));
            volume_index += 1;
        }
        assert(elements@.take(elements.len() as int) == elements@);
        Ok(volumes)
    }

    /// The chapters that `elements` describe, numbered from 1 in the order
    /// given; `volume_index` is the position of their volume, counted from
    /// 0, if they have one.
    pub fn chapters(
        &self,
        elements: &Vec<ElementRef<'_>>,
        extractor: &ChapterExtractor,
        volume_index: Option<usize>,
    ) -> (chapters: Result<Vec<Chapter>, ParseError>)
        requires
            volume_index matches Some(v) ==> v < usize::MAX,
        ensures
            match chapters {
                Ok(c) => chapters_of(*extractor, elements@, index_view(volume_index)) == Ok::<
                    Seq<ChapterView>,
                    ParseError,
                >(c.deep_view()),
                Err(e) => chapters_of(*extractor, elements@, index_view(volume_index)) == Err::<
                    Seq<ChapterView>,
                    ParseError,
                >(e),
            },
    {
        let mut chapters: Vec<Chapter> = Vec::new();
        assert(chapters.deep_view() =~= Seq::empty());
        let mut chapter_index: usize = 0;
        while chapter_index < elements.len()
            invariant
                chapter_index <= elements.len(),
                volume_index matches Some(v) ==> v < usize::MAX,
                chapters_of(
                    *extractor,
                    elements@.take(chapter_index as int),
                    index_view(volume_index),
                ) == Ok::<Seq<ChapterView>, ParseError>(chapters.deep_view()),
            decreases elements.len() - chapter_index,
        {
            let chapter_elem = elements[chapter_index];
            proof {
                assert(elements@.take(chapter_index + 1).drop_last() == elements@.take(
                    chapter_index as int,
                ));
                lemma_chapters_fail_on(
                    *extractor,
                    elements@,
                    index_view(volume_index),
                    chapter_index + 1,
                );
            }
            let number = match volume_index {
                Some(v) => Some(v + 1),
                None => None,
            };
            let title = match extractor.extract_title(chapter_elem).into_mandatory() {
                Some(title) => title,
                None => {
                    return Err(
                        ParseError::NoChapterTitle { volume: number, chapter: chapter_index + 1 },
                    );
                },
            };
            let url = match extractor.extract_content_url(chapter_elem).into_mandatory() {
                Some(url) => url,
                None => {
                    return Err(
                        ParseError::NoChapterUrl { volume: number, chapter: chapter_index + 1 },
                    );
                },
            };
            let mut filename = String::new();
            match number {
                Some(n) => {
                    append_decimal(&mut filename, n);
                    filename.append("_");
                },
                None => {},
            }
            append_decimal(&mut filename, chapter_index + 1);
            filename.append(".xhtml");
            let ghost before = chapters.deep_view();
            let chapter = Chapter::new(chapter_index + 1, trim(title.as_str()), url, filename);
            chapters.push(chapter);
            assert(chapters.deep_view() =~= before.push(chapter@));
            chapter_index += 1;
        }
        assert(elements@.take(elements.len() as int) == elements@);
        Ok(chapters)
    }
}

/// A book with rules for chapters and none for volumes has chapters and no
/// volumes; one with rules for volumes and none for chapters has volumes,
/// however many the page holds, and no chapters beside them. Only a book
/// with rules for neither fails for want of rules.
pub proof fn lemma_children_follow_rules(book: BookExtractor, element: ElementRef<'_>)
    ensures
        book.volumes is None && book.chapters is Some ==> (children_of(book, element) matches Ok(
            children,
        ) ==> children is Chapters),
        book.volumes is Some && book.chapters is None ==> (children_of(book, element) matches Ok(
            children,
        ) ==> children is Volumes),
        book.volumes matches Some(rule) && book.chapters is None && selected(
            element,
            rule.this,
        ).len() == 0 ==> children_of(book, element) == Ok::<VolOrChapView, ParseError>(
            VolOrChapView::Volumes(Seq::empty()),
        ),
        children_of(book, element) == Err::<VolOrChapView, ParseError>(ParseError::NoChildrenRule)
            <==> book.volumes is None && book.chapters is None,
{
    match book.volumes {
        Some(rule) => {
            lemma_volumes_never_want_rules(rule, selected(element, rule.this));
        },
        None => {},
    }
    match book.chapters {
        Some(rule) => {
            lemma_chapters_never_want_rules(rule, selected(element, rule.this), None);
        },
        None => {},
    }
}

/// A list of chapters never fails for want of rules.
pub proof fn lemma_chapters_never_want_rules(
    rule: ChapterExtractor,
    elements: Seq<ElementRef<'_>>,
    volume_index: Option<nat>,
)
    ensures
        chapters_of(rule, elements, volume_index) != Err::<Seq<ChapterView>, ParseError>(
            ParseError::NoChildrenRule,
        ),
    decreases elements.len(),
{
    if elements.len() > 0 {
        lemma_chapters_never_want_rules(rule, elements.drop_last(), volume_index);
    }
}

/// A list of volumes never fails for want of rules.
pub proof fn lemma_volumes_never_want_rules(rule: VolumeExtractor, elements: Seq<ElementRef<'_>>)
    ensures
        volumes_of(rule, elements) != Err::<Seq<VolumeView>, ParseError>(
            ParseError::NoChildrenRule,
        ),
    decreases elements.len(),
{
    if elements.len() > 0 {
        lemma_volumes_never_want_rules(rule, elements.drop_last());
        lemma_chapters_never_want_rules(
            rule.chapters,
            selected(elements.last(), rule.chapters.this),
            Some((elements.len() - 1) as nat),
        );
    }
}

/// Where the first `n` elements fail, the whole list fails in the same way.
pub proof fn lemma_chapters_fail_on(
    rule: ChapterExtractor,
    elements: Seq<ElementRef<'_>>,
    volume_index: Option<nat>,
    n: int,
)
    requires
        0 <= n <= elements.len(),
    ensures
        chapters_of(rule, elements.take(n), volume_index) matches Err(e) ==> chapters_of(
            rule,
            elements,
            volume_index,
        ) == Err::<Seq<ChapterView>, ParseError>(e),
    decreases elements.len(),
{
    if n < elements.len() {
        lemma_chapters_fail_on(rule, elements.drop_last(), volume_index, n);
        assert(elements.drop_last().take(n) == elements.take(n));
    } else {
        assert(elements.take(n) == elements);
    }
}

/// Where the first `n` elements fail, the whole list fails in the same way.
pub proof fn lemma_volumes_fail_on(rule: VolumeExtractor, elements: Seq<ElementRef<'_>>, n: int)
    requires
        0 <= n <= elements.len(),
    ensures
        volumes_of(rule, elements.take(n)) matches Err(e) ==> volumes_of(rule, elements) == Err::<
            Seq<VolumeView>,
            ParseError,
        >(e),
    decreases elements.len(),
{
    if n < elements.len() {
        lemma_volumes_fail_on(rule, elements.drop_last(), n);
        assert(elements.drop_last().take(n) == elements.take(n));
    } else {
        assert(elements.take(n) == elements);
    }
}

} // verus!
