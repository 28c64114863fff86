use docln_fetch::config::{RateLimit, SiteConfig};
use docln_fetch::crawler::downloader::FetchError;
use docln_fetch::crawler::parser::ParseError;
use docln_fetch::crawler::task::{Admission, TaskManager};
use docln_fetch::crawler::{DoclnCrawler, Mode};
use docln_fetch::epub::chapter::Chapter;
use docln_fetch::epub::volume::Volume;
use docln_fetch::epub::VolOrChap;
use docln_fetch::extractor::attr::Attr;
use docln_fetch::extractor::text::Text;
use docln_fetch::extractor::{BookExtractor, ChapterExtractor, ContentExtractor, Extractor};
use scraper::Selector;
use std::path::PathBuf;

fn sel(s: &str) -> Selector {
    Selector::parse(s).unwrap()
}

fn text(selector: &str) -> Extractor {
    Extractor::Text(Text::new(Some(sel(selector))))
}

fn site(sequential: bool) -> SiteConfig {
    SiteConfig {
        name: "site".to_string(),
        rate_limit: RateLimit::default(),
        host: None,
        concurrency_limit: 2,
        base_url: "https://example.com/book/{id}".to_string(),
        lang: "vi".to_string(),
        book: BookExtractor {
            this: sel("#book"),
            title: text(".title"),
            author: text(".author"),
            illustrator: None,
            tags: None,
            summary: None,
            cover_url: None,
            volumes: None,
            chapters: Some(ChapterExtractor {
                this: sel("a.ch"),
                title: Extractor::Text(Text::new(None)),
                content_url: Extractor::Attr(Attr::new(None, "href".to_string())),
                content: ContentExtractor {
                    this: sel("#content"),
                    paragraphs: text("div.text"),
                    next_url: if sequential {
                        Some(Extractor::Attr(Attr::new(Some(sel("a.next")), "href".to_string())))
                    } else {
                        None
                    },
                    title_pattern: "^{title}$".to_string(),
                    title: None,
                },
            }),
        },
    }
}

fn chapter(index: usize, title: &str) -> Chapter {
    Chapter::new(index, title.to_string(), format!("/c/{}", title), format!("{}.xhtml", index))
}

fn volume(index: usize, title: &str) -> Volume {
    Volume {
        index,
        cover: None,
        chapters: Vec::new(),
        cover_chapter: Chapter::new(0, title.to_string(), String::new(), format!("{}_cover.xhtml", index)),
    }
}

fn titles(chapters: &[Chapter]) -> Vec<String> {
    chapters.iter().map(|c| c.title.clone()).collect()
}

fn indices(chapters: &[Chapter]) -> Vec<usize> {
    chapters.iter().map(|c| c.index).collect()
}

fn arrangements(items: &[usize]) -> Vec<Vec<usize>> {
    if items.len() <= 1 {
        return vec![items.to_vec()];
    }
    let mut all = Vec::new();
    for i in 0..items.len() {
        let mut rest = items.to_vec();
        let picked = rest.remove(i);
        for mut tail in arrangements(&rest) {
            tail.insert(0, picked);
            all.push(tail);
        }
    }
    all
}

const BOOK: &str = "<div id=\"book\"><h1 class=\"title\">T</h1><span class=\"author\">A</span>\
<a class=\"ch\" href=\"/c/1\">C1</a><a class=\"ch\" href=\"/c/2\">C2</a></div>";

#[test]
fn chapters_come_out_in_the_order_of_their_indices() {
    let sorted = DoclnCrawler::sort_chapters(vec![chapter(3, "c"), chapter(1, "a"), chapter(2, "b")]);
    assert_eq!(indices(&sorted), vec![1, 2, 3]);
    assert_eq!(titles(&sorted), vec!["a", "b", "c"]);
    assert!(DoclnCrawler::sort_chapters(Vec::new()).is_empty());
}

#[test]
fn order_does_not_depend_on_arrival() {
    for arrival in arrangements(&[1, 2, 3, 4, 5]) {
        let arrived: Vec<Chapter> = arrival.iter().map(|i| chapter(*i, &format!("t{}", i))).collect();
        let sorted = DoclnCrawler::sort_chapters(arrived);
        assert_eq!(indices(&sorted), vec![1, 2, 3, 4, 5]);
        assert_eq!(titles(&sorted), vec!["t1", "t2", "t3", "t4", "t5"]);
        let volumes: Vec<Volume> = arrival.iter().map(|i| volume(*i, &format!("v{}", i))).collect();
        let sorted = DoclnCrawler::sort_volumes(volumes);
        assert_eq!(sorted.iter().map(|v| v.index).collect::<Vec<_>>(), vec![1, 2, 3, 4, 5]);
        assert_eq!(
            sorted.iter().map(|v| v.cover_chapter.title.clone()).collect::<Vec<_>>(),
            vec!["v1", "v2", "v3", "v4", "v5"]
        );
    }
}

#[test]
fn chapters_with_the_same_index_keep_their_order() {
    let sorted = DoclnCrawler::sort_chapters(vec![
        chapter(2, "first"),
        chapter(1, "x"),
        chapter(2, "second"),
        chapter(1, "y"),
    ]);
    assert_eq!(titles(&sorted), vec!["x", "y", "first", "second"]);
}

#[test]
fn volume_gets_its_chapters_in_order() {
    let collected = DoclnCrawler::collect_volume(volume(4, "V"), vec![chapter(2, "b"), chapter(1, "a")]);
    assert_eq!(collected.index, 4);
    assert_eq!(collected.cover_chapter.title, "V");
    assert_eq!(titles(&collected.chapters), vec!["a", "b"]);
}

#[test]
fn book_gets_its_children_in_order() {
    let config = site(false);
    let crawler = DoclnCrawler::new("https://example.com/book/1", &config).ok().unwrap();
    let mut epub = crawler.epub_task("site_1".to_string(), BOOK).ok().unwrap();
    DoclnCrawler::set_epub_children(
        &mut epub,
        VolOrChap::Chapters(vec![chapter(2, "b"), chapter(3, "c"), chapter(1, "a")]),
    );
    assert!(matches!(&epub.children, VolOrChap::Chapters(chapters) if titles(chapters) == vec!["a", "b", "c"]));
    assert_eq!(epub.title, "T");
    assert_eq!(epub.epub_dir, PathBuf::from("site_1"));
    DoclnCrawler::set_epub_children(&mut epub, VolOrChap::Volumes(vec![volume(2, "w"), volume(1, "v")]));
    assert!(matches!(&epub.children, VolOrChap::Volumes(volumes) if volumes[0].index == 1 && volumes[1].index == 2));
}

#[test]
fn book_task_sets_the_directories() {
    let config = site(false);
    let crawler = DoclnCrawler::new("https://example.com/book/1", &config).ok().unwrap();
    let epub = crawler.epub_task("site_1".to_string(), BOOK).ok().unwrap();
    assert_eq!(epub.id, "site_1");
    assert_eq!(epub.author, "A");
    assert_eq!(epub.epub_dir, PathBuf::from("site_1"));
    assert_eq!(epub.meta_dir, PathBuf::from("site_1").join("META-INF"));
    assert_eq!(epub.oebps_dir, PathBuf::from("site_1").join("OEBPS"));
    assert_eq!(epub.image_dir, PathBuf::from("site_1").join("OEBPS").join("Images"));
    assert_eq!(epub.text_dir, PathBuf::from("site_1").join("OEBPS").join("Text"));
    assert!(matches!(&epub.children, VolOrChap::Chapters(chapters) if chapters.len() == 2));
    assert_eq!(crawler.epub_task("x".to_string(), "<p></p>").err(), Some(ParseError::NoBookElement));
}

#[test]
fn sequential_book_task_names_the_first_chapter() {
    let config = site(true);
    let crawler = DoclnCrawler::new("https://example.com/book/1", &config).ok().unwrap();
    let (epub, start) = crawler.epub_sequential("site_1".to_string(), BOOK).ok().unwrap();
    assert_eq!(start, Some("/c/1".to_string()));
    assert_eq!(epub.text_dir, PathBuf::from("site_1/OEBPS/Text"));
    let empty = "<div id=\"book\"><h1 class=\"title\">T</h1><span class=\"author\">A</span></div>";
    let (_, none) = crawler.epub_sequential("site_1".to_string(), empty).ok().unwrap();
    assert_eq!(none, None);
    assert_eq!(crawler.epub_sequential("x".to_string(), "").err(), Some(ParseError::NoBookElement));
}

#[test]
fn first_address_of_the_children() {
    let mut first = volume(1, "v");
    first.chapters = vec![chapter(1, "a"), chapter(2, "b")];
    assert_eq!(
        DoclnCrawler::first_url(&VolOrChap::Volumes(vec![first, volume(2, "w")])),
        Some("/c/a".to_string())
    );
    let mut second = volume(2, "w");
    second.chapters = vec![chapter(1, "a")];
    assert_eq!(DoclnCrawler::first_url(&VolOrChap::Volumes(vec![volume(1, "v"), second])), None);
    assert_eq!(DoclnCrawler::first_url(&VolOrChap::Volumes(Vec::new())), None);
    assert_eq!(DoclnCrawler::first_url(&VolOrChap::Chapters(Vec::new())), None);
    assert_eq!(
        DoclnCrawler::first_url(&VolOrChap::Chapters(vec![chapter(5, "e")])),
        Some("/c/e".to_string())
    );
}

#[test]
fn crawler_decides_how_to_fetch() {
    let tree = site(false);
    assert_eq!(DoclnCrawler::new("https://example.com/book/1", &tree).ok().unwrap().crawl(), Mode::Tree);
    let sequential = site(true);
    assert_eq!(
        DoclnCrawler::new("https://example.com/book/1", &sequential).ok().unwrap().crawl(),
        Mode::Sequential
    );
    assert!(matches!(DoclnCrawler::new("book/1", &tree), Err(FetchError::BadUrl)));
    assert_eq!(DoclnCrawler::novel_id("42", "docln"), "docln_42");
}

#[test]
fn saved_image_replaces_its_address() {
    let mut chapter = chapter(1, "a");
    let content = "<p><img src=\"/i/a.png\"></p><img src=\"/i/a.png\"><img src=\"/i/b.png\">".to_string();
    let content = DoclnCrawler::chapter_task(content, &mut chapter, "/i/a.png", Some("0a.png".to_string()));
    assert_eq!(
        content,
        "<p><img src=\"../Images/0a.png\"></p><img src=\"../Images/0a.png\"><img src=\"/i/b.png\">"
    );
    assert_eq!(chapter.images, vec!["0a.png"]);
    assert!(chapter.has_illustrations);
}

#[test]
fn failed_image_leaves_the_chapter_as_it_is() {
    let mut chapter = chapter(1, "a");
    let content = "<img src=\"/i/a.png\">".to_string();
    let content = DoclnCrawler::chapter_task(content, &mut chapter, "/i/a.png", None);
    assert_eq!(content, "<img src=\"/i/a.png\">");
    assert!(chapter.images.is_empty());
    assert!(!chapter.has_illustrations);
}

#[test]
fn volume_cover_is_replaced_by_its_saved_name() {
    let mut volume = volume(1, "v");
    volume.cover = Some("/covers/1.png".to_string());
    DoclnCrawler::volume_task(&mut volume, "ff.png".to_string());
    assert_eq!(volume.cover, Some("ff.png".to_string()));
    assert_eq!(volume.index, 1);
}

#[test]
fn no_more_units_run_than_the_budget_allows() {
    let mut manager = TaskManager::new(3);
    assert_eq!(manager.limit(), 3);
    let mut started = 0;
    for _ in 0..10 {
        match manager.spawn() {
            Some(Admission::Start) => started += 1,
            Some(Admission::Wait) => {}
            None => panic!("a unit was turned away"),
        }
        assert!(manager.in_flight() <= 3);
    }
    assert_eq!(started, 3);
    assert_eq!(manager.in_flight(), 3);
    assert_eq!(manager.queued(), 7);
    for left in (0..7).rev() {
        assert!(manager.complete());
        assert_eq!(manager.in_flight(), 3);
        assert_eq!(manager.queued(), left);
    }
    for left in (0..3).rev() {
        assert!(!manager.complete());
        assert_eq!(manager.in_flight(), left);
    }
    assert!(!manager.complete());
    assert_eq!(manager.in_flight(), 0);
    assert_eq!(manager.queued(), 0);
}

#[test]
fn a_budget_of_none_starts_nothing() {
    let mut manager = TaskManager::new(0);
    assert_eq!(manager.spawn(), Some(Admission::Wait));
    assert_eq!(manager.in_flight(), 0);
    assert_eq!(manager.queued(), 1);
    assert!(!manager.complete());
    assert_eq!(manager.queued(), 1);
}

#[test]
fn a_freed_place_is_taken_at_once() {
    let mut manager = TaskManager::new(1);
    assert_eq!(manager.spawn(), Some(Admission::Start));
    assert_eq!(manager.spawn(), Some(Admission::Wait));
    assert!(manager.complete());
    assert_eq!(manager.in_flight(), 1);
    assert!(!manager.complete());
    assert_eq!(manager.spawn(), Some(Admission::Start));
}
