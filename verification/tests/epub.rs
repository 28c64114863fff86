use docln_fetch::epub::chapter::Chapter;
use docln_fetch::epub::compression::Compressor;
use docln_fetch::epub::metadata::{append_decimal, Metadata};
use docln_fetch::epub::volume::Volume;
use docln_fetch::epub::{Epub, VolOrChap};
use std::path::PathBuf;

fn chapter(index: usize, title: &str, filename: &str, images: &[&str]) -> Chapter {
    let mut chapter = Chapter::new(index, title.to_string(), format!("/c/{}", index), filename.to_string());
    for image in images {
        chapter.record_image(image.to_string());
    }
    chapter
}

fn volume(index: usize, title: &str, cover: Option<&str>, chapters: Vec<Chapter>) -> Volume {
    Volume {
        index,
        cover: cover.map(|c| c.to_string()),
        chapters,
        cover_chapter: Chapter::new(0, title.to_string(), String::new(), format!("{}_cover.xhtml", index)),
    }
}

fn book(cover: Option<&str>, children: VolOrChap) -> Epub {
    Epub {
        id: "site_1".to_string(),
        title: "T".to_string(),
        lang: "vi".to_string(),
        author: "A".to_string(),
        illustrator: Some("I".to_string()),
        summary: "S".to_string(),
        cover: cover.map(|c| c.to_string()),
        children,
        tags: vec!["x".to_string(), "y".to_string()],
        epub_dir: PathBuf::from("site_1"),
        meta_dir: PathBuf::from("site_1/META-INF"),
        oebps_dir: PathBuf::from("site_1/OEBPS"),
        image_dir: PathBuf::from("site_1/OEBPS/Images"),
        text_dir: PathBuf::from("site_1/OEBPS/Text"),
    }
}

fn flat() -> VolOrChap {
    VolOrChap::Chapters(vec![
        chapter(1, "One", "1.xhtml", &["i.jpg"]),
        chapter(2, "Two", "2.xhtml", &[]),
    ])
}

fn volumes() -> VolOrChap {
    VolOrChap::Volumes(vec![
        volume(1, "V1", Some("v.png"), vec![chapter(1, "One", "1_1.xhtml", &["a.jpeg", "b.gif"])]),
        volume(2, "V2", None, Vec::new()),
        volume(3, "V3", None, vec![chapter(1, "Two", "3_1.xhtml", &[]), chapter(2, "Three", "3_2.xhtml", &[])]),
    ])
}

#[test]
fn new_chapter_has_no_images() {
    let mut chapter = Chapter::new(2, "t".to_string(), "u".to_string(), "f".to_string());
    assert_eq!(chapter.index, 2);
    assert_eq!(chapter.title, "t");
    assert_eq!(chapter.url, "u");
    assert_eq!(chapter.filename, "f");
    assert!(!chapter.has_illustrations);
    assert!(chapter.images.is_empty());
    chapter.record_image("a.png".to_string());
    chapter.record_image("b.png".to_string());
    assert!(chapter.has_illustrations);
    assert_eq!(chapter.images, vec!["a.png", "b.png"]);
    let copy = chapter.duplicate();
    assert_eq!(copy.index, 2);
    assert_eq!(copy.title, "t");
    assert_eq!(copy.url, "u");
    assert_eq!(copy.filename, "f");
    assert!(copy.has_illustrations);
    assert_eq!(copy.images, vec!["a.png", "b.png"]);
}

#[test]
fn default_children_are_no_chapters() {
    assert!(matches!(VolOrChap::default(), VolOrChap::Chapters(chapters) if chapters.is_empty()));
}

#[test]
fn divider_page_with_cover() {
    let volume = volume(1, "第一卷", Some("abc.png"), Vec::new());
    assert_eq!(
        volume.cover_html(),
        r#"<?xml version="1.0" encoding="UTF-8"?>
<!DOCTYPE html PUBLIC "-//W3C//DTD XHTML 1.1//EN" "http://www.w3.org/TR/xhtml11/DTD/xhtml11.dtd">
<html xmlns="http://www.w3.org/1999/xhtml">
<head>
    <title>第一卷</title>
    <meta http-equiv="Content-Type" content="text/html; charset=UTF-8"/>
</head>
<body>
    <div class="cover">
        <h1>第一卷</h1>
        <img src="../images/abc.png" alt="封面" class="volume-cover-img"/>
    </div>
</body>
</html>"#
    );
}

#[test]
fn divider_page_without_cover() {
    let volume = volume(2, "V2", None, Vec::new());
    assert_eq!(
        volume.cover_html(),
        r#"<?xml version="1.0" encoding="UTF-8"?>
<!DOCTYPE html PUBLIC "-//W3C//DTD XHTML 1.1//EN" "http://www.w3.org/TR/xhtml11/DTD/xhtml11.dtd">
<html xmlns="http://www.w3.org/1999/xhtml">
<head>
    <title>V2</title>
    <meta http-equiv="Content-Type" content="text/html; charset=UTF-8"/>
</head>
<body>
    <div class="cover">
        <h1>V2</h1>
    </div>
</body>
</html>"#
    );
}

#[test]
fn type_marker_and_container() {
    let metadata = Metadata::new();
    assert_eq!(metadata.mimetype(), "application/epub+zip");
    assert_eq!(
        Metadata::default().container_xml(),
        r#"<?xml version="1.0" encoding="UTF-8"?>
<container version="1.0" xmlns="urn:oasis:names:tc:opendocument:xmlns:container">
    <rootfiles>
        <rootfile full-path="OEBPS/content.opf" media-type="application/oebps-package+xml"/>
    </rootfiles>
</container>"#
    );
}

#[test]
fn media_types() {
    assert_eq!(Metadata::get_media_type("a.png"), "image/png");
    assert_eq!(Metadata::get_media_type("a.jpg"), "image/jpeg");
    assert_eq!(Metadata::get_media_type("a.b.jpeg"), "image/jpeg");
    assert_eq!(Metadata::get_media_type("a.gif"), "application/octet-stream");
    assert_eq!(Metadata::get_media_type("a.PNG"), "application/octet-stream");
    assert_eq!(Metadata::get_media_type("png"), "application/octet-stream");
    assert_eq!(Metadata::get_media_type(""), "application/octet-stream");
}

#[test]
fn package_document_of_a_flat_book() {
    let epub = book(Some("c.png"), flat());
    assert_eq!(
        Metadata::new().content_opf(&epub, "2024-01-02"),
        r#"<?xml version="1.0" encoding="UTF-8"?>
<package version="2.0" xmlns="http://www.idpf.org/2007/opf" unique-identifier="BookId">
    <metadata xmlns:dc="http://purl.org/dc/elements/1.1/" xmlns:opf="http://www.idpf.org/2007/opf">
        <dc:identifier id="BookId">site_1</dc:identifier>
        <dc:title>T</dc:title>
        <dc:language>vi</dc:language>
        <dc:creator opf:role="aut">A</dc:creator>
        <dc:contributor opf:role="ill">I</dc:contributor>
        <dc:subject>x</dc:subject>
        <dc:subject>y</dc:subject>
        <dc:description>S</dc:description>
        <dc:publisher>novel-fetch</dc:publisher>
        <dc:date>2024-01-02</dc:date>
        <meta name="generator" content="novel-fetch"/>
    </metadata>
            <manifest>
        <item id="ncx" href="toc.ncx" media-type="application/x-dtbncx+xml"/>
        <item id="cover-image" href="Images/c.png" media-type="image/png"/>
        <item id="img-i.jpg" href="Images/i.jpg" media-type="image/jpeg"/>
        <item id="chap1" href="Text/1.xhtml" media-type="application/xhtml+xml"/>
        <item id="chap2" href="Text/2.xhtml" media-type="application/xhtml+xml"/>    </manifest>
    <spine toc="ncx">
        <itemref idref="chap1"/>
        <itemref idref="chap2"/>
    </spine>
    <guide>
        <reference type="cover" title="Cover" href="Images/c.png"/>
    </guide></package>"#
    );
}

#[test]
fn package_document_of_a_book_with_volumes() {
    let mut epub = book(None, volumes());
    epub.illustrator = None;
    epub.summary = String::new();
    epub.tags = Vec::new();
    assert_eq!(
        Metadata::new().content_opf(&epub, "2030-12-31"),
        r#"<?xml version="1.0" encoding="UTF-8"?>
<package version="2.0" xmlns="http://www.idpf.org/2007/opf" unique-identifier="BookId">
    <metadata xmlns:dc="http://purl.org/dc/elements/1.1/" xmlns:opf="http://www.idpf.org/2007/opf">
        <dc:identifier id="BookId">site_1</dc:identifier>
        <dc:title>T</dc:title>
        <dc:language>vi</dc:language>
        <dc:creator opf:role="aut">A</dc:creator>
        <dc:publisher>novel-fetch</dc:publisher>
        <dc:date>2030-12-31</dc:date>
        <meta name="generator" content="novel-fetch"/>
    </metadata>
            <manifest>
        <item id="ncx" href="toc.ncx" media-type="application/x-dtbncx+xml"/>
        <item id="vol1-cover-img" href="Images/v.png" media-type="image/png"/>
        <item id="vol1-cover" href="Text/1_cover.xhtml" media-type="application/xhtml+xml"/>
        <item id="img-a.jpeg" href="Images/a.jpeg" media-type="image/jpeg"/>
        <item id="img-b.gif" href="Images/b.gif" media-type="application/octet-stream"/>
        <item id="chap1-1" href="Text/1_1.xhtml" media-type="application/xhtml+xml"/>
        <item id="chap3-1" href="Text/3_1.xhtml" media-type="application/xhtml+xml"/>
        <item id="chap3-2" href="Text/3_2.xhtml" media-type="application/xhtml+xml"/>    </manifest>
    <spine toc="ncx">
        <itemref idref="vol1-cover"/>
        <itemref idref="chap1-1"/>
        <itemref idref="chap3-1"/>
        <itemref idref="chap3-2"/>
    </spine></package>"#
    );
}

#[test]
fn parts_of_the_package_document() {
    let epub = book(Some("c.jpg"), flat());
    let mut out = String::from(">");
    Metadata::opf_header(&mut out);
    Metadata::opf_footer(&mut out);
    assert_eq!(
        out,
        ">\u{3c}?xml version=\"1.0\" encoding=\"UTF-8\"?>\n<package version=\"2.0\" xmlns=\"http://www.idpf.org/2007/opf\" unique-identifier=\"BookId\"></package>"
    );
    let mut guide = String::from(">");
    Metadata::opf_guide(&mut guide, &epub);
    assert_eq!(
        guide,
        ">\n    <guide>\n        <reference type=\"cover\" title=\"Cover\" href=\"Images/c.jpg\"/>\n    </guide>"
    );
    let mut no_guide = String::from(">");
    Metadata::opf_guide(&mut no_guide, &book(None, flat()));
    assert_eq!(no_guide, ">");
    let mut spine = String::new();
    Metadata::opf_spine(&mut spine, &epub);
    assert_eq!(
        spine,
        "\n    <spine toc=\"ncx\">\n        <itemref idref=\"chap1\"/>\n        <itemref idref=\"chap2\"/>\n    </spine>"
    );
    let mut manifest = String::new();
    Metadata::opf_manifest(&mut manifest, &book(None, VolOrChap::Chapters(Vec::new())));
    assert_eq!(
        manifest,
        "\n            <manifest>\n        <item id=\"ncx\" href=\"toc.ncx\" media-type=\"application/x-dtbncx+xml\"/>    </manifest>"
    );
    let mut metadata = String::new();
    Metadata::opf_metadata(&mut metadata, &epub, "d");
    assert!(metadata.ends_with("<dc:date>d</dc:date>\n        <meta name=\"generator\" content=\"novel-fetch\"/>\n    </metadata>"));
}

#[test]
fn spine_lines_of_chapters() {
    let chapters = vec![chapter(1, "One", "1.xhtml", &[]), chapter(12, "Two", "12.xhtml", &[])];
    let mut flat = String::from("x");
    Metadata::opf_spine_chapters(&mut flat, &chapters, None);
    assert_eq!(flat, "x\n        <itemref idref=\"chap1\"/>\n        <itemref idref=\"chap12\"/>");
    let mut in_volume = String::new();
    Metadata::opf_spine_chapters(&mut in_volume, &chapters, Some(10));
    assert_eq!(
        in_volume,
        "\n        <itemref idref=\"chap10-1\"/>\n        <itemref idref=\"chap10-12\"/>"
    );
    let mut none = String::from("x");
    Metadata::opf_spine_chapters(&mut none, &Vec::new(), Some(1));
    assert_eq!(none, "x");
}

#[test]
fn manifest_lines_of_chapters() {
    let chapters = vec![chapter(1, "One", "2_1.xhtml", &["a.png"])];
    let mut out = String::new();
    Metadata::opf_manifest_chapters(&mut out, &chapters, Some(2));
    assert_eq!(
        out,
        "\n        <item id=\"img-a.png\" href=\"Images/a.png\" media-type=\"image/png\"/>\n        <item id=\"chap2-1\" href=\"Text/2_1.xhtml\" media-type=\"application/xhtml+xml\"/>"
    );
}

#[test]
fn navigation_document_of_a_flat_book() {
    let epub = book(None, flat());
    assert_eq!(
        Metadata::new().toc_ncx(&epub),
        r#"<?xml version="1.0" encoding="UTF-8"?>
<ncx version="2005-1" xmlns="http://www.daisy.org/z3986/2005/ncx/">
    <head>
        <meta name="dtb:uid" content="site_1"/>
        <meta name="dtb:depth" content="1"/>
        <meta name="dtb:totalPageCount" content="0"/>
        <meta name="dtb:maxPageNumber" content="0"/>
    </head>
    <docTitle>
        <text>T</text>
    </docTitle>
    <navMap>
            <navPoint id="navPoint1" playOrder="1">
                <navLabel>
                    <text>One</text>
                </navLabel>
                <content src="Text/1.xhtml"/>
            </navPoint>
            <navPoint id="navPoint2" playOrder="2">
                <navLabel>
                    <text>Two</text>
                </navLabel>
                <content src="Text/2.xhtml"/>
            </navPoint>
    </navMap>
</ncx>"#
    );
}

#[test]
fn navigation_document_of_a_book_with_volumes() {
    let epub = book(None, volumes());
    assert_eq!(
        Metadata::new().toc_ncx(&epub),
        r#"<?xml version="1.0" encoding="UTF-8"?>
<ncx version="2005-1" xmlns="http://www.daisy.org/z3986/2005/ncx/">
    <head>
        <meta name="dtb:uid" content="site_1"/>
        <meta name="dtb:depth" content="1"/>
        <meta name="dtb:totalPageCount" content="0"/>
        <meta name="dtb:maxPageNumber" content="0"/>
    </head>
    <docTitle>
        <text>T</text>
    </docTitle>
    <navMap>
        <navPoint id="navPoint1" playOrder="1">
            <navLabel>
                <text>V1</text>
            </navLabel>
            <content src="Text/1_cover.xhtml"/>
            <navPoint id="navPoint2" playOrder="2">
                <navLabel>
                    <text>One</text>
                </navLabel>
                <content src="Text/1_1.xhtml"/>
            </navPoint>
        </navPoint>
        <navPoint id="navPoint3" playOrder="3">
            <navLabel>
                <text>V3</text>
            </navLabel>
            <content src="Text/3_cover.xhtml"/>
            <navPoint id="navPoint4" playOrder="4">
                <navLabel>
                    <text>Two</text>
                </navLabel>
                <content src="Text/3_1.xhtml"/>
            </navPoint>
            <navPoint id="navPoint5" playOrder="5">
                <navLabel>
                    <text>Three</text>
                </navLabel>
                <content src="Text/3_2.xhtml"/>
            </navPoint>
        </navPoint>
    </navMap>
</ncx>"#
    );
}

#[test]
fn navigation_points_go_on_from_the_counter() {
    let chapters = vec![chapter(1, "One", "1.xhtml", &[])];
    let mut out = String::new();
    let mut counter: usize = 41;
    Metadata::toc_ncx_chapters(&mut out, &chapters, &mut counter);
    assert_eq!(counter, 42);
    assert!(out.starts_with("\n            <navPoint id=\"navPoint41\" playOrder=\"41\">"));
    let mut text = String::from("n=");
    append_decimal(&mut text, 305);
    assert_eq!(text, "n=305");
}

#[test]
fn names_in_the_archive() {
    let compressor = Compressor::new();
    assert_eq!(compressor.epub_filename("site_1"), "site_1.epub");
    assert_eq!(compressor.zip_path("", "OEBPS"), "OEBPS");
    assert_eq!(compressor.zip_path("OEBPS", "Text"), "OEBPS/Text");
    assert_eq!(Compressor::default().zip_path("OEBPS/Text", "1.xhtml"), "OEBPS/Text/1.xhtml");
    assert!(compressor.skips("", "mimetype"));
    assert!(!compressor.skips("OEBPS", "mimetype"));
    assert!(!compressor.skips("", "mimetypes"));
    assert!(!compressor.skips("", "toc.ncx"));
}

#[test]
fn navigation_document_where_it_can_be_counted() {
    let epub = book(None, volumes());
    assert_eq!(Metadata::new().try_toc_ncx(&epub), Some(Metadata::new().toc_ncx(&epub)));
    let flat_book = book(None, flat());
    assert_eq!(Metadata::new().try_toc_ncx(&flat_book), Some(Metadata::new().toc_ncx(&flat_book)));
}

#[test]
fn a_copy_of_a_book_keeps_its_directories() {
    let epub = book(Some("c.png"), flat());
    let copy = epub.clone();
    assert_eq!(copy.epub_dir, PathBuf::from("site_1"));
    assert_eq!(copy.text_dir, PathBuf::from("site_1/OEBPS/Text"));
    assert_eq!(copy.title, "T");
}
