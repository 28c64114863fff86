//! The package files of a book: type marker, container, package document and
//! navigation document.

use vstd::prelude::*;
use vstd::string::StringExecFns;
use crate::epub::{Epub, EpubView, VolOrChap, VolOrChapView};
use crate::epub::chapter::{Chapter, ChapterView};
use crate::epub::volume::{Volume, VolumeView};
use crate::text::{decimal, ends_with, text_ends_with, usize_to_string};

verus! {

pub const MIMETYPE: &'static str = "application/epub+zip";

pub const CONTAINER_XML: &'static str = r#"<?xml version="1.0" encoding="UTF-8"?>
<container version="1.0" xmlns="urn:oasis:names:tc:opendocument:xmlns:container">
    <rootfiles>
        <rootfile full-path="OEBPS/content.opf" media-type="application/oebps-package+xml"/>
    </rootfiles>
</container>"#;

pub const OPF_HEADER: &'static str = r#"<?xml version="1.0" encoding="UTF-8"?>
<package version="2.0" xmlns="http://www.idpf.org/2007/opf" unique-identifier="BookId">"#;

pub const OPF_FOOTER: &'static str = "</package>";

/// Appends the decimal notation of `n` to `out`.
pub fn append_decimal(out: &mut String, n: usize)
    ensures
        final(out)@ == old(out)@ + decimal(n as nat),
{
    let s = usize_to_string(n);
    out.append(s.as_str());
}

/// The media type that a file name's ending stands for.
pub open spec fn media_type(filename: Seq<char>) -> Seq<char> {
    if ends_with(filename, ".png"@) {
        "image/png"@
    } else if ends_with(filename, ".jpg"@) || ends_with(filename, ".jpeg"@) {
        "image/jpeg"@
    } else {
        "application/octet-stream"@
    }
}

/// The line of the spine that names one chapter.
pub open spec fn spine_entry(volume_index: Option<nat>, chapter_index: nat) -> Seq<char> {
    match volume_index {
        Some(v) => "\n        <itemref idref=\"chap"@ + decimal(v) + "-"@ + decimal(chapter_index)
            + "\"/>"@,
        None => "\n        <itemref idref=\"chap"@ + decimal(chapter_index) + "\"/>"@,
    }
}

/// The lines of the spine that name `chapters`, in order.
pub open spec fn spine_chapters(chapters: Seq<ChapterView>, volume_index: Option<nat>) -> Seq<char>
    decreases chapters.len(),
{
    if chapters.len() == 0 {
        Seq::empty()
    } else {
        spine_chapters(chapters.drop_last(), volume_index) + spine_entry(
            volume_index,
            chapters.last().index,
        )
    }
}

/// The line of the spine for a volume's divider page, if it has a cover.
pub open spec fn spine_volume_cover(volume: VolumeView) -> Seq<char> {
    if volume.cover is Some {
        "\n        <itemref idref=\"vol"@ + decimal(volume.index) + "-cover\"/>"@
    } else {
        Seq::empty()
    }
}

/// The lines of the spine for one volume: its divider page, then its
/// chapters.
pub open spec fn spine_volume(volume: VolumeView) -> Seq<char> {
    spine_volume_cover(volume) + spine_chapters(volume.chapters, Some(volume.index))
}

/// The lines of the spine for `volumes`, in order.
pub open spec fn spine_volumes(volumes: Seq<VolumeView>) -> Seq<char>
    decreases volumes.len(),
{
    if volumes.len() == 0 {
        Seq::empty()
    } else {
        spine_volumes(volumes.drop_last()) + spine_volume(volumes.last())
    }
}

/// The lines of the spine for the book's children.
pub open spec fn spine_children(children: VolOrChapView) -> Seq<char> {
    match children {
        VolOrChapView::Volumes(volumes) => spine_volumes(volumes),
        VolOrChapView::Chapters(chapters) => spine_chapters(chapters, None),
    }
}

/// The spine: the reading order of the book.
pub open spec fn spine(children: VolOrChapView) -> Seq<char> {
    "\n    <spine toc=\"ncx\">"@ + spine_children(children) + "\n    </spine>"@
}

/// The manifest line of one image.
pub open spec fn manifest_image(name: Seq<char>) -> Seq<char> {
    "\n        <item id=\"img-"@ + name + "\" href=\"Images/"@ + name + "\" media-type=\""@
        + media_type(name) + "\"/>"@
}

/// The manifest lines of `images`, in order.
pub open spec fn manifest_images(images: Seq<Seq<char>>) -> Seq<char>
    decreases images.len(),
{
    if images.len() == 0 {
        Seq::empty()
    } else {
        manifest_images(images.drop_last()) + manifest_image(images.last())
    }
}

/// The manifest line of one chapter's text.
pub open spec fn manifest_text(chapter: ChapterView, volume_index: Option<nat>) -> Seq<char> {
    match volume_index {
        Some(v) => "\n        <item id=\"chap"@ + decimal(v) + "-"@ + decimal(chapter.index)
            + "\" href=\"Text/"@ + chapter.filename
            + "\" media-type=\"application/xhtml+xml\"/>"@,
        None => "\n        <item id=\"chap"@ + decimal(chapter.index) + "\" href=\"Text/"@
            + chapter.filename + "\" media-type=\"application/xhtml+xml\"/>"@,
    }
}

/// The manifest lines of one chapter: its images, then its text.
pub open spec fn manifest_chapter(chapter: ChapterView, volume_index: Option<nat>) -> Seq<char> {
    manifest_images(chapter.images) + manifest_text(chapter, volume_index)
}

/// The manifest lines of `chapters`, in order.
pub open spec fn manifest_chapters(chapters: Seq<ChapterView>, volume_index: Option<nat>) -> Seq<
    char,
>
    decreases chapters.len(),
{
    if chapters.len() == 0 {
        Seq::empty()
    } else {
        manifest_chapters(chapters.drop_last(), volume_index) + manifest_chapter(
            chapters.last(),
            volume_index,
        )
    }
}

/// The manifest lines of a volume's cover image and divider page, if it has a
/// cover.
pub open spec fn manifest_volume_cover(volume: VolumeView) -> Seq<char> {
    match volume.cover {
        Some(name) => "\n        <item id=\"vol"@ + decimal(volume.index)
            + "-cover-img\" href=\"Images/"@ + name + "\" media-type=\""@ + media_type(name)
            + "\"/>"@ + "\n        <item id=\"vol"@ + decimal(volume.index)
            + "-cover\" href=\"Text/"@ + volume.cover_chapter.filename
            + "\" media-type=\"application/xhtml+xml\"/>"@,
        None => Seq::empty(),
    }
}

/// The manifest lines of one volume: its cover, then its chapters.
pub open spec fn manifest_volume(volume: VolumeView) -> Seq<char> {
    manifest_volume_cover(volume) + manifest_chapters(volume.chapters, Some(volume.index))
}

/// The manifest lines of `volumes`, in order.
pub open spec fn manifest_volumes(volumes: Seq<VolumeView>) -> Seq<char>
    decreases volumes.len(),
{
    if volumes.len() == 0 {
        Seq::empty()
    } else {
        manifest_volumes(volumes.drop_last()) + manifest_volume(volumes.last())
    }
}

/// The manifest line of the book's cover image, if it has one.
pub open spec fn manifest_cover(cover: Option<Seq<char>>) -> Seq<char> {
    match cover {
        Some(name) => "\n        <item id=\"cover-image\" href=\"Images/"@ + name
            + "\" media-type=\""@ + media_type(name) + "\"/>"@,
        None => Seq::empty(),
    }
}

/// The manifest lines of the book's children.
pub open spec fn manifest_children(children: VolOrChapView) -> Seq<char> {
    match children {
        VolOrChapView::Volumes(volumes) => manifest_volumes(volumes),
        VolOrChapView::Chapters(chapters) => manifest_chapters(chapters, None),
    }
}

/// The manifest: every file of the book.
pub open spec fn manifest(epub: EpubView) -> Seq<char> {
    "\n            <manifest>\n        <item id=\"ncx\" href=\"toc.ncx\" media-type=\"application/x-dtbncx+xml\"/>"@
        + manifest_cover(epub.cover) + manifest_children(epub.children) + "    </manifest>"@
}

/// The subject lines of `tags`, in order.
pub open spec fn subjects(tags: Seq<Seq<char>>) -> Seq<char>
    decreases tags.len(),
{
    if tags.len() == 0 {
        Seq::empty()
    } else {
        subjects(tags.drop_last()) + "\n        <dc:subject>"@ + tags.last() + "</dc:subject>"@
    }
}

/// The opening lines of the metadata section: identifier, title, language
/// and author.
pub open spec fn metadata_head(epub: EpubView) -> Seq<char> {
    "\n    <metadata xmlns:dc=\"http://purl.org/dc/elements/1.1/\" xmlns:opf=\"http://www.idpf.org/2007/opf\">\n        <dc:identifier id=\"BookId\">"@
        + epub.id + "</dc:identifier>\n        <dc:title>"@ + epub.title
        + "</dc:title>\n        <dc:language>"@ + epub.lang
        + "</dc:language>\n        <dc:creator opf:role=\"aut\">"@ + epub.author + "</dc:creator>"@
}

/// The line that names the illustrator, if there is one.
pub open spec fn contributor(illustrator: Option<Seq<char>>) -> Seq<char> {
    match illustrator {
        Some(name) => "\n        <dc:contributor opf:role=\"ill\">"@ + name + "</dc:contributor>"@,
        None => Seq::empty(),
    }
}

/// The line that holds the summary, if it is not empty.
pub open spec fn description(summary: Seq<char>) -> Seq<char> {
    if summary.len() > 0 {
        "\n        <dc:description>"@ + summary + "</dc:description>"@
    } else {
        Seq::empty()
    }
}

/// The closing lines of the metadata section: publisher, date and generator.
pub open spec fn metadata_tail(date: Seq<char>) -> Seq<char> {
    "\n        <dc:publisher>novel-fetch</dc:publisher>\n        <dc:date>"@ + date
        + "</dc:date>\n        <meta name=\"generator\" content=\"novel-fetch\"/>\n    </metadata>"@
}

/// The metadata section of the package document, dated `date`.
pub open spec fn metadata_section(epub: EpubView, date: Seq<char>) -> Seq<char> {
    metadata_head(epub) + contributor(epub.illustrator) + subjects(epub.tags) + description(
        epub.summary,
    ) + metadata_tail(date)
}

/// The guide, which names the cover if the book has one.
pub open spec fn guide(cover: Option<Seq<char>>) -> Seq<char> {
    match cover {
        Some(name) => "\n    <guide>\n        <reference type=\"cover\" title=\"Cover\" href=\"Images/"@
            + name + "\"/>\n    </guide>"@,
        None => Seq::empty(),
    }
}

/// The package document of a book, dated `date`.
pub open spec fn package_document(epub: EpubView, date: Seq<char>) -> Seq<char> {
    OPF_HEADER@ + metadata_section(epub, date) + manifest(epub) + spine(epub.children) + guide(
        epub.cover,
    ) + OPF_FOOTER@
}

/// One navigation point, numbered `number`, without its closing tag.
pub open spec fn nav_point_open(number: nat, title: Seq<char>, filename: Seq<char>) -> Seq<char> {
    "\n        <navPoint id=\"navPoint"@ + decimal(number) + "\" playOrder=\""@ + decimal(number)
        + "\">\n            <navLabel>\n                <text>"@ + title
        + "</text>\n            </navLabel>\n            <content src=\"Text/"@ + filename
        + "\"/>"@
}

/// The navigation point of one chapter, numbered `number`.
pub open spec fn nav_chapter(number: nat, chapter: ChapterView) -> Seq<char> {
    "\n            <navPoint id=\"navPoint"@ + decimal(number) + "\" playOrder=\""@ + decimal(
        number,
    ) + "\">\n                <navLabel>\n                    <text>"@ + chapter.title
        + "</text>\n                </navLabel>\n                <content src=\"Text/"@
        + chapter.filename + "\"/>\n            </navPoint>"@
}

/// The navigation points of `chapters`, numbered from `start` on.
pub open spec fn nav_chapters(chapters: Seq<ChapterView>, start: nat) -> Seq<char>
    decreases chapters.len(),
{
    if chapters.len() == 0 {
        Seq::empty()
    } else {
        nav_chapters(chapters.drop_last(), start) + nav_chapter(
            (start + chapters.len() - 1) as nat,
            chapters.last(),
        )
    }
}

/// How many navigation points a volume takes: none if it has no chapters,
/// else one for itself and one for each chapter.
pub open spec fn nav_volume_count(volume: VolumeView) -> nat {
    if volume.chapters.len() == 0 {
        0
    } else {
        1 + volume.chapters.len()
    }
}

/// How many navigation points `volumes` take.
pub open spec fn nav_volumes_count(volumes: Seq<VolumeView>) -> nat
    decreases volumes.len(),
{
    if volumes.len() == 0 {
        0
    } else {
        nav_volumes_count(volumes.drop_last()) + nav_volume_count(volumes.last())
    }
}

/// The navigation points of one volume, numbered from `start` on: the volume,
/// with its chapters inside. A volume without chapters has none.
pub open spec fn nav_volume(volume: VolumeView, start: nat) -> Seq<char> {
    if volume.chapters.len() == 0 {
        Seq::empty()
    } else {
        nav_point_open(start, volume.cover_chapter.title, volume.cover_chapter.filename)
            + nav_chapters(volume.chapters, start + 1) + "\n        </navPoint>"@
    }
}

/// The navigation points of `volumes`, numbered from `start` on.
pub open spec fn nav_volumes(volumes: Seq<VolumeView>, start: nat) -> Seq<char>
    decreases volumes.len(),
{
    if volumes.len() == 0 {
        Seq::empty()
    } else {
        nav_volumes(volumes.drop_last(), start) + nav_volume(
            volumes.last(),
            start + nav_volumes_count(volumes.drop_last()),
        )
    }
}

/// How many navigation points a book takes.
pub open spec fn nav_count(children: VolOrChapView) -> nat {
    match children {
        VolOrChapView::Volumes(volumes) => nav_volumes_count(volumes),
        VolOrChapView::Chapters(chapters) => chapters.len(),
    }
}

/// The opening of the navigation document, which names the book.
pub open spec fn navigation_head(epub: EpubView) -> Seq<char> {
    "<?xml version=\"1.0\" encoding=\"UTF-8\"?>\n<ncx version=\"2005-1\" xmlns=\"http://www.daisy.org/z3986/2005/ncx/\">\n    <head>\n        <meta name=\"dtb:uid\" content=\""@
        + epub.id
        + "\"/>\n        <meta name=\"dtb:depth\" content=\"1\"/>\n        <meta name=\"dtb:totalPageCount\" content=\"0\"/>\n        <meta name=\"dtb:maxPageNumber\" content=\"0\"/>\n    </head>\n    <docTitle>\n        <text>"@
        + epub.title + "</text>\n    </docTitle>\n    <navMap>"@
}

/// The navigation points of the book's children, numbered from 1.
pub open spec fn nav_children(children: VolOrChapView) -> Seq<char> {
    match children {
        VolOrChapView::Volumes(volumes) => nav_volumes(volumes, 1),
        VolOrChapView::Chapters(chapters) => nav_chapters(chapters, 1),
    }
}

/// The navigation document of a book; its points are numbered from 1.
pub open spec fn navigation_document(epub: EpubView) -> Seq<char> {
    navigation_head(epub) + nav_children(epub.children) + "\n    </navMap>\n</ncx>"@
}

/// Writes the package files of a book.
pub struct Metadata;

impl Default for Metadata {
    fn default() -> (r: Metadata)
        ensures
            r == Metadata,
    {
        Metadata::new()
    }
}

impl Metadata {
    pub fn new() -> (r: Metadata)
        ensures
            r == Metadata,
    {
        Metadata
    }

    /// The content of the type marker file.
    pub fn mimetype(&self) -> (content: String)
        ensures
            content@ == MIMETYPE@,
    {
        String::from_str(MIMETYPE)
    }

    /// The content of the container file, which points to the package
    /// document.
    pub fn container_xml(&self) -> (content: String)
        ensures
            content@ == CONTAINER_XML@,
    {
        String::from_str(CONTAINER_XML)
    }

    /// The package document of `epub`, dated `date`.
    pub fn content_opf(&self, epub: &Epub, date: &str) -> (content: String)
        ensures
            content@ == package_document(epub@, date@),
    {
        let mut content = String::new();
        Self::opf_header(&mut content);
        Self::opf_metadata(&mut content, epub, date);
        Self::opf_manifest(&mut content, epub);
        Self::opf_spine(&mut content, epub);
        Self::opf_guide(&mut content, epub);
        Self::opf_footer(&mut content);
        content
    }

    /// The navigation document of `epub`.
    pub fn toc_ncx(&self, epub: &Epub) -> (content: String)
        requires
            nav_count(epub@.children) < usize::MAX,
        ensures
            content@ == navigation_document(epub@),
    {
        let mut content = String::new();
        content.append(
            "<?xml version=\"1.0\" encoding=\"UTF-8\"?>\n<ncx version=\"2005-1\" xmlns=\"http://www.daisy.org/z3986/2005/ncx/\">\n    <head>\n        <meta name=\"dtb:uid\" content=\"",
        );
        content.append(epub.id.as_str());
        content.append(
            "\"/>\n        <meta name=\"dtb:depth\" content=\"1\"/>\n        <meta name=\"dtb:totalPageCount\" content=\"0\"/>\n        <meta name=\"dtb:maxPageNumber\" content=\"0\"/>\n    </head>\n    <docTitle>\n        <text>",
        );
        content.append(epub.title.as_str());
        content.append("</text>\n    </docTitle>\n    <navMap>");
        let mut nav_point_counter: usize = 1;
        match &epub.children {
            VolOrChap::Volumes(volumes) => {
                Self::toc_ncx_volumes(&mut content, volumes, &mut nav_point_counter);
            },
            VolOrChap::Chapters(chapters) => {
                Self::toc_ncx_chapters(&mut content, chapters, &mut nav_point_counter);
            },
        }
        content.append("\n    </navMap>\n</ncx>");
        content
    }

    /// The navigation document of `epub`, or `None` where the book has more
    /// navigation points than can be counted.
    pub fn try_toc_ncx(&self, epub: &Epub) -> (content: Option<String>)
        ensures
            match content {
                Some(text) => nav_count(epub@.children) < usize::MAX && text@
                    == navigation_document(epub@),
                None => nav_count(epub@.children) >= usize::MAX,
            },
    {
        let fits = match &epub.children {
            VolOrChap::Volumes(volumes) => {
                let mut total: usize = 0;
                let mut fits = true;
                let mut i: usize = 0;
                while i < volumes.len()
                    invariant
                        i <= volumes.len(),
                        fits ==> total == nav_volumes_count(volumes.deep_view().take(i as int)),
                        !fits ==> nav_volumes_count(volumes.deep_view()) >= usize::MAX,
                    decreases volumes.len() - i,
                {
                    proof {
                        let all = volumes.deep_view();
                        assert(all.take(i + 1).drop_last() == all.take(i as int));
                        assert(all.take(i + 1).last() == volumes[i as int]@);
                        lemma_nav_volumes_count_take(all, i + 1);
                    }
                    if fits {
                        let n = volumes[i].chapters.len();
                        if n > 0 {
                            if n < usize::MAX - total {
                                total = total + n + 1;
                            } else {
                                fits = false;
                            }
                        }
                    }
                    i += 1;
                }
                assert(volumes.deep_view().take(volumes.len() as int) == volumes.deep_view());
                fits && total < usize::MAX
            },
            VolOrChap::Chapters(chapters) => chapters.len() < usize::MAX,
        };
        if fits {
            Some(self.toc_ncx(epub))
        } else {
            None
        }
    }

    /// Appends the navigation points of `volumes`, numbered from the counter
    /// on, and advances the counter past them.
    fn toc_ncx_volumes(
        toc_ncx: &mut String,
        volumes: &Vec<Volume>,
        nav_point_counter: &mut usize,
    )
        requires
            *old(nav_point_counter) + nav_volumes_count(volumes.deep_view()) <= usize::MAX,
        ensures
            final(toc_ncx)@ == old(toc_ncx)@ + nav_volumes(
                volumes.deep_view(),
                *old(nav_point_counter) as nat,
            ),
            *final(nav_point_counter) == *old(nav_point_counter) + nav_volumes_count(
                volumes.deep_view(),
            ),
    {
        let mut i: usize = 0;
        while i < volumes.len()
            invariant
                i <= volumes.len(),
                *old(nav_point_counter) + nav_volumes_count(volumes.deep_view()) <= usize::MAX,
                *nav_point_counter == *old(nav_point_counter) + nav_volumes_count(
                    volumes.deep_view().take(i as int),
                ),
                toc_ncx@ == old(toc_ncx)@ + nav_volumes(
                    volumes.deep_view().take(i as int),
                    *old(nav_point_counter) as nat,
                ),
            decreases volumes.len() - i,
        {
            proof {
                let all = volumes.deep_view();
                assert(all.take(i + 1).drop_last() == all.take(i as int));
                assert(all.take(i + 1).last() == volumes[i as int]@);
                lemma_nav_volumes_count_take(all, i + 1);
            }
            Self::toc_ncx_volume(toc_ncx, &volumes[i], nav_point_counter);
            i += 1;
        }
        assert(volumes.deep_view().take(volumes.len() as int) == volumes.deep_view());
    }

    /// Appends the navigation points of one volume, numbered from the counter
    /// on, and advances the counter past them.
    fn toc_ncx_volume(toc_ncx: &mut String, volume: &Volume, nav_point_counter: &mut usize)
        requires
            *old(nav_point_counter) + nav_volume_count(volume@) <= usize::MAX,
        ensures
            final(toc_ncx)@ == old(toc_ncx)@ + nav_volume(volume@, *old(nav_point_counter) as nat),
            *final(nav_point_counter) == *old(nav_point_counter) + nav_volume_count(volume@),
    {
        if volume.chapters.len() > 0 {
            toc_ncx.append("\n        <navPoint id=\"navPoint");
            append_decimal(toc_ncx, *nav_point_counter);
            toc_ncx.append("\" playOrder=\"");
            append_decimal(toc_ncx, *nav_point_counter);
            toc_ncx.append("\">\n            <navLabel>\n                <text>");
            toc_ncx.append(volume.cover_chapter.title.as_str());
            toc_ncx.append("</text>\n            </navLabel>\n            <content src=\"Text/");
            toc_ncx.append(volume.cover_chapter.filename.as_str());
            toc_ncx.append("\"/>");
            assert(toc_ncx@ == old(toc_ncx)@ + nav_point_open(
                *old(nav_point_counter) as nat,
                volume@.cover_chapter.title,
                volume@.cover_chapter.filename,
            ));
            *nav_point_counter += 1;
            Self::toc_ncx_chapters(toc_ncx, &volume.chapters, nav_point_counter);
            toc_ncx.append("\n        </navPoint>");
        } else {
            assert(toc_ncx@ == old(toc_ncx)@ + Seq::<char>::empty());
        }
    }

    /// Appends the navigation points of `chapters`, numbered from the counter
    /// on, and advances the counter past them.
    pub fn toc_ncx_chapters(
        toc_ncx: &mut String,
        chapters: &Vec<Chapter>,
        nav_point_counter: &mut usize,
    )
        requires
            *old(nav_point_counter) + chapters.len() <= usize::MAX,
        ensures
            final(toc_ncx)@ == old(toc_ncx)@ + nav_chapters(
                chapters.deep_view(),
                *old(nav_point_counter) as nat,
            ),
            *final(nav_point_counter) == *old(nav_point_counter) + chapters.len(),
    {
        let mut i: usize = 0;
        while i < chapters.len()
            invariant
                i <= chapters.len(),
                *old(nav_point_counter) + chapters.len() <= usize::MAX,
                *nav_point_counter == *old(nav_point_counter) + i,
                toc_ncx@ == old(toc_ncx)@ + nav_chapters(
                    chapters.deep_view().take(i as int),
                    *old(nav_point_counter) as nat,
                ),
            decreases chapters.len() - i,
        {
            proof {
                let all = chapters.deep_view();
                assert(all.take(i + 1).drop_last() == all.take(i as int));
                assert(all.take(i + 1).last() == chapters[i as int]@);
            }
            Self::toc_ncx_chapter(toc_ncx, &chapters[i], *nav_point_counter);
            *nav_point_counter += 1;
            i += 1;
        }
        assert(chapters.deep_view().take(chapters.len() as int) == chapters.deep_view());
    }

    /// Appends the navigation point of one chapter, numbered `number`.
    fn toc_ncx_chapter(toc_ncx: &mut String, chapter: &Chapter, number: usize)
        ensures
            final(toc_ncx)@ == old(toc_ncx)@ + nav_chapter(number as nat, chapter@),
    {
        toc_ncx.append("\n            <navPoint id=\"navPoint");
        append_decimal(toc_ncx, number);
        toc_ncx.append("\" playOrder=\"");
        append_decimal(toc_ncx, number);
        toc_ncx.append("\">\n                <navLabel>\n                    <text>");
        toc_ncx.append(chapter.title.as_str());
        toc_ncx.append("</text>\n                </navLabel>\n                <content src=\"Text/");
        toc_ncx.append(chapter.filename.as_str());
        toc_ncx.append("\"/>\n            </navPoint>");
    }

    /// Appends the opening of the package document.
    pub fn opf_header(content_opf: &mut String)
        ensures
            final(content_opf)@ == old(content_opf)@ + OPF_HEADER@,
    {
        content_opf.append(OPF_HEADER);
    }

    /// Appends the metadata section, dated `date`.
    pub fn opf_metadata(content_opf: &mut String, epub: &Epub, date: &str)
        ensures
            final(content_opf)@ == old(content_opf)@ + metadata_section(epub@, date@),
    {
        Self::opf_metadata_head(content_opf, epub);
        Self::opf_contributor(content_opf, &epub.illustrator);
        Self::opf_subjects(content_opf, &epub.tags);
        Self::opf_description(content_opf, epub.summary.as_str());
        Self::opf_metadata_tail(content_opf, date);
    }

    /// Appends the opening lines of the metadata section.
    fn opf_metadata_head(content_opf: &mut String, epub: &Epub)
        ensures
            final(content_opf)@ == old(content_opf)@ + metadata_head(epub@),
    {
        content_opf.append(
            "\n    <metadata xmlns:dc=\"http://purl.org/dc/elements/1.1/\" xmlns:opf=\"http://www.idpf.org/2007/opf\">\n        <dc:identifier id=\"BookId\">",
        );
        content_opf.append(epub.id.as_str());
        content_opf.append("</dc:identifier>\n        <dc:title>");
        content_opf.append(epub.title.as_str());
        content_opf.append("</dc:title>\n        <dc:language>");
        content_opf.append(epub.lang.as_str());
        content_opf.append("</dc:language>\n        <dc:creator opf:role=\"aut\">");
        content_opf.append(epub.author.as_str());
        content_opf.append("</dc:creator>");
    }

    /// Appends the line that names the illustrator, if there is one.
    fn opf_contributor(content_opf: &mut String, illustrator: &Option<String>)
        ensures
            final(content_opf)@ == old(content_opf)@ + contributor(illustrator.deep_view()),
    {
        match illustrator {
            Some(name) => {
                content_opf.append("\n        <dc:contributor opf:role=\"ill\">");
                content_opf.append(name.as_str());
                content_opf.append("</dc:contributor>");
            },
            None => {},
        }
    }

    /// Appends one subject line for each tag.
    fn opf_subjects(content_opf: &mut String, tags: &Vec<String>)
        ensures
            final(content_opf)@ == old(content_opf)@ + subjects(tags.deep_view()),
    {
        let mut i: usize = 0;
        while i < tags.len()
            invariant
                i <= tags.len(),
                content_opf@ == old(content_opf)@ + subjects(tags.deep_view().take(i as int)),
            decreases tags.len() - i,
        {
            proof {
                let all = tags.deep_view();
                assert(all.take(i + 1).drop_last() == all.take(i as int));
                assert(all.take(i + 1).last() == tags[i as int]@);
            }
            content_opf.append("\n        <dc:subject>");
            content_opf.append(tags[i].as_str());
            content_opf.append("</dc:subject>");
            i += 1;
        }
        assert(tags.deep_view().take(tags.len() as int) == tags.deep_view());
    }

    /// Appends the line that holds the summary, if it is not empty.
    fn opf_description(content_opf: &mut String, summary: &str)
        ensures
            final(content_opf)@ == old(content_opf)@ + description(summary@),
    {
        if !summary.is_empty() {
            content_opf.append("\n        <dc:description>");
            content_opf.append(summary);
            content_opf.append("</dc:description>");
        }
    }

    /// Appends the closing lines of the metadata section.
    fn opf_metadata_tail(content_opf: &mut String, date: &str)
        ensures
            final(content_opf)@ == old(content_opf)@ + metadata_tail(date@),
    {
        content_opf.append("\n        <dc:publisher>novel-fetch</dc:publisher>\n        <dc:date>");
        content_opf.append(date);
        content_opf.append(
            "</dc:date>\n        <meta name=\"generator\" content=\"novel-fetch\"/>\n    </metadata>",
        );
    }

    /// Appends the manifest.
    pub fn opf_manifest(content_opf: &mut String, epub: &Epub)
        ensures
            final(content_opf)@ == old(content_opf)@ + manifest(epub@),
    {
        content_opf.append(
            "\n            <manifest>\n        <item id=\"ncx\" href=\"toc.ncx\" media-type=\"application/x-dtbncx+xml\"/>",
        );
        Self::opf_manifest_cover(content_opf, &epub.cover);
        match &epub.children {
            VolOrChap::Volumes(volumes) => {
                Self::opf_manifest_volumes(content_opf, volumes);
            },
            VolOrChap::Chapters(chapters) => {
                Self::opf_manifest_chapters(content_opf, chapters, None);
            },
        }
        content_opf.append("    </manifest>");
    }

    /// Appends the manifest line of the book's cover image, if it has one.
    fn opf_manifest_cover(content_opf: &mut String, cover: &Option<String>)
        ensures
            final(content_opf)@ == old(content_opf)@ + manifest_cover(cover.deep_view()),
    {
        match cover {
            Some(cover_name) => {
                content_opf.append("\n        <item id=\"cover-image\" href=\"Images/");
                content_opf.append(cover_name.as_str());
                content_opf.append("\" media-type=\"");
                content_opf.append(Self::get_media_type(cover_name.as_str()));
                content_opf.append("\"/>");
            },
            None => {},
        }
    }

    /// Appends the manifest lines of `volumes`.
    fn opf_manifest_volumes(content_opf: &mut String, volumes: &Vec<Volume>)
        ensures
            final(content_opf)@ == old(content_opf)@ + manifest_volumes(volumes.deep_view()),
    {
        let mut i: usize = 0;
        while i < volumes.len()
            invariant
                i <= volumes.len(),
                content_opf@ == old(content_opf)@ + manifest_volumes(
                    volumes.deep_view().take(i as int),
                ),
            decreases volumes.len() - i,
        {
            let volume = &volumes[i];
            proof {
                let all = volumes.deep_view();
                assert(all.take(i + 1).drop_last() == all.take(i as int));
                assert(all.take(i + 1).last() == volume@);
            }
            Self::opf_manifest_volume_cover(content_opf, volume);
            Self::opf_manifest_chapters(content_opf, &volume.chapters, Some(volume.index));
            i += 1;
        }
        assert(volumes.deep_view().take(volumes.len() as int) == volumes.deep_view());
    }

    /// Appends the manifest lines of a volume's cover image and divider page,
    /// if it has a cover.
    fn opf_manifest_volume_cover(content_opf: &mut String, volume: &Volume)
        ensures
            final(content_opf)@ == old(content_opf)@ + manifest_volume_cover(volume@),
    {
        match &volume.cover {
            Some(cover_name) => {
                content_opf.append("\n        <item id=\"vol");
                append_decimal(content_opf, volume.index);
                content_opf.append("-cover-img\" href=\"Images/");
                content_opf.append(cover_name.as_str());
                content_opf.append("\" media-type=\"");
                content_opf.append(Self::get_media_type(cover_name.as_str()));
                content_opf.append("\"/>");
                content_opf.append("\n        <item id=\"vol");
                append_decimal(content_opf, volume.index);
                content_opf.append("-cover\" href=\"Text/");
                content_opf.append(volume.cover_chapter.filename.as_str());
                content_opf.append("\" media-type=\"application/xhtml+xml\"/>");
            },
            None => {},
        }
    }

    /// Appends the manifest lines of `chapters`.
    pub fn opf_manifest_chapters(
        content_opf: &mut String,
        chapters: &Vec<Chapter>,
        volume_index: Option<usize>,
    )
        ensures
            final(content_opf)@ == old(content_opf)@ + manifest_chapters(
                chapters.deep_view(),
                index_view(volume_index),
            ),
    {
        let mut i: usize = 0;
        while i < chapters.len()
            invariant
                i <= chapters.len(),
                content_opf@ == old(content_opf)@ + manifest_chapters(
                    chapters.deep_view().take(i as int),
                    index_view(volume_index),
                ),
            decreases chapters.len() - i,
        {
            let chapter = &chapters[i];
            proof {
                let all = chapters.deep_view();
                assert(all.take(i + 1).drop_last() == all.take(i as int));
                assert(all.take(i + 1).last() == chapter@);
            }
            Self::opf_manifest_images(content_opf, &chapter.images);
            Self::opf_manifest_text(content_opf, chapter, volume_index);
            i += 1;
        }
        assert(chapters.deep_view().take(chapters.len() as int) == chapters.deep_view());
    }

    /// Appends the manifest lines of `images`.
    fn opf_manifest_images(content_opf: &mut String, images: &Vec<String>)
        ensures
            final(content_opf)@ == old(content_opf)@ + manifest_images(images.deep_view()),
    {
        let mut k: usize = 0;
        while k < images.len()
            invariant
                k <= images.len(),
                content_opf@ == old(content_opf)@ + manifest_images(
                    images.deep_view().take(k as int),
                ),
            decreases images.len() - k,
        {
            proof {
                let all = images.deep_view();
                assert(all.take(k + 1).drop_last() == all.take(k as int));
                assert(all.take(k + 1).last() == images[k as int]@);
            }
            Self::opf_manifest_image(content_opf, images[k].as_str());
            k += 1;
        }
        assert(images.deep_view().take(images.len() as int) == images.deep_view());
    }

    /// Appends the manifest line of one image.
    fn opf_manifest_image(content_opf: &mut String, image_name: &str)
        ensures
            final(content_opf)@ == old(content_opf)@ + manifest_image(image_name@),
    {
        content_opf.append("\n        <item id=\"img-");
        content_opf.append(image_name);
        content_opf.append("\" href=\"Images/");
        content_opf.append(image_name);
        content_opf.append("\" media-type=\"");
        content_opf.append(Self::get_media_type(image_name));
        content_opf.append("\"/>");
    }

    /// Appends the manifest line of one chapter's text.
    fn opf_manifest_text(
        content_opf: &mut String,
        chapter: &Chapter,
        volume_index: Option<usize>,
    )
        ensures
            final(content_opf)@ == old(content_opf)@ + manifest_text(
                chapter@,
                index_view(volume_index),
            ),
    {
        match volume_index {
            Some(vol_idx) => {
                content_opf.append("\n        <item id=\"chap");
                append_decimal(content_opf, vol_idx);
                content_opf.append("-");
                append_decimal(content_opf, chapter.index);
                content_opf.append("\" href=\"Text/");
                content_opf.append(chapter.filename.as_str());
                content_opf.append("\" media-type=\"application/xhtml+xml\"/>");
            },
            None => {
                content_opf.append("\n        <item id=\"chap");
                append_decimal(content_opf, chapter.index);
                content_opf.append("\" href=\"Text/");
                content_opf.append(chapter.filename.as_str());
                content_opf.append("\" media-type=\"application/xhtml+xml\"/>");
            },
        }
    }

    /// Appends the spine.
    pub fn opf_spine(content_opf: &mut String, epub: &Epub)
        ensures
            final(content_opf)@ == old(content_opf)@ + spine(epub@.children),
    {
        content_opf.append("\n    <spine toc=\"ncx\">");
        match &epub.children {
            VolOrChap::Volumes(volumes) => {
                Self::opf_spine_volumes(content_opf, volumes);
            },
            VolOrChap::Chapters(chapters) => {
                Self::opf_spine_chapters(content_opf, chapters, None);
            },
        }
        content_opf.append("\n    </spine>");
    }

    /// Appends the spine lines of `volumes`.
    fn opf_spine_volumes(content_opf: &mut String, volumes: &Vec<Volume>)
        ensures
            final(content_opf)@ == old(content_opf)@ + spine_volumes(volumes.deep_view()),
    {
        let mut i: usize = 0;
        while i < volumes.len()
            invariant
                i <= volumes.len(),
                content_opf@ == old(content_opf)@ + spine_volumes(
                    volumes.deep_view().take(i as int),
                ),
            decreases volumes.len() - i,
        {
            let volume = &volumes[i];
            proof {
                let all = volumes.deep_view();
                assert(all.take(i + 1).drop_last() == all.take(i as int));
                assert(all.take(i + 1).last() == volume@);
            }
            Self::opf_spine_volume_cover(content_opf, volume);
            Self::opf_spine_chapters(content_opf, &volume.chapters, Some(volume.index));
            i += 1;
        }
        assert(volumes.deep_view().take(volumes.len() as int) == volumes.deep_view());
    }

    /// Appends the spine line of a volume's divider page, if it has a cover.
    fn opf_spine_volume_cover(content_opf: &mut String, volume: &Volume)
        ensures
            final(content_opf)@ == old(content_opf)@ + spine_volume_cover(volume@),
    {
        if volume.cover.is_some() {
            content_opf.append("\n        <itemref idref=\"vol");
            append_decimal(content_opf, volume.index);
            content_opf.append("-cover\"/>");
        }
    }

    /// Appends the spine lines of `chapters`.
    pub fn opf_spine_chapters(
        content_opf: &mut String,
        chapters: &Vec<Chapter>,
        volume_index: Option<usize>,
    )
        ensures
            final(content_opf)@ == old(content_opf)@ + spine_chapters(
                chapters.deep_view(),
                index_view(volume_index),
            ),
    {
        let mut i: usize = 0;
        while i < chapters.len()
            invariant
                i <= chapters.len(),
                content_opf@ == old(content_opf)@ + spine_chapters(
                    chapters.deep_view().take(i as int),
                    index_view(volume_index),
                ),
            decreases chapters.len() - i,
        {
            let chapter = &chapters[i];
            proof {
                let all = chapters.deep_view();
                assert(all.take(i + 1).drop_last() == all.take(i as int));
                assert(all.take(i + 1).last() == chapter@);
            }
            Self::opf_spine_entry(content_opf, volume_index, chapter.index);
            i += 1;
        }
        assert(chapters.deep_view().take(chapters.len() as int) == chapters.deep_view());
    }

    /// Appends the spine line that names one chapter.
    fn opf_spine_entry(
        content_opf: &mut String,
        volume_index: Option<usize>,
        chapter_index: usize,
    )
        ensures
            final(content_opf)@ == old(content_opf)@ + spine_entry(
                index_view(volume_index),
                chapter_index as nat,
            ),
    {
        match volume_index {
            Some(vol_idx) => {
                content_opf.append("\n        <itemref idref=\"chap");
                append_decimal(content_opf, vol_idx);
                content_opf.append("-");
                append_decimal(content_opf, chapter_index);
                content_opf.append("\"/>");
            },
            None => {
                content_opf.append("\n        <itemref idref=\"chap");
                append_decimal(content_opf, chapter_index);
                content_opf.append("\"/>");
            },
        }
    }

    /// Appends the guide, if the book has a cover.
    pub fn opf_guide(content_opf: &mut String, epub: &Epub)
        ensures
            final(content_opf)@ == old(content_opf)@ + guide(epub@.cover),
    {
        match &epub.cover {
            Some(cover_name) => {
                content_opf.append(
                    "\n    <guide>\n        <reference type=\"cover\" title=\"Cover\" href=\"Images/",
                );
                content_opf.append(cover_name.as_str());
                content_opf.append("\"/>\n    </guide>");
            },
            None => {},
        }
    }

    /// Appends the closing of the package document.
    pub fn opf_footer(content_opf: &mut String)
        ensures
            final(content_opf)@ == old(content_opf)@ + OPF_FOOTER@,
    {
        content_opf.append(OPF_FOOTER);
    }

    /// The media type that the ending of `filename` stands for.
    pub fn get_media_type(filename: &str) -> (r: &'static str)
        ensures
            r@ == media_type(filename@),
    {
        if text_ends_with(filename, ".png") {
            "image/png"
        } else if text_ends_with(filename, ".jpg") || text_ends_with(filename, ".jpeg") {
            "image/jpeg"
        } else {
            "application/octet-stream"
        }
    }
}

/// A position as a natural number, if there is one.
pub open spec fn index_view(index: Option<usize>) -> Option<nat> {
    match index {
        Some(i) => Some(i as nat),
        None => None,
    }
}

/// The navigation points of the first `n` volumes are no more than those of
/// all.
pub proof fn lemma_nav_volumes_count_take(volumes: Seq<VolumeView>, n: int)
    requires
        0 <= n <= volumes.len(),
    ensures
        nav_volumes_count(volumes.take(n)) <= nav_volumes_count(volumes),
    decreases volumes.len(),
{
    if n < volumes.len() {
        lemma_nav_volumes_count_take(volumes.drop_last(), n);
        assert(volumes.drop_last().take(n) == volumes.take(n));
    } else {
        assert(volumes.take(n) == volumes);
    }
}

} // verus!
