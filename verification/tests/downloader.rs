use docln_fetch::config::{
    default_concurrency_limit, deserialize_nullable_selector, deserialize_selector, store, AuthType,
    Config, ConfigError, Kind, RateLimit, SiteConfig,
};
use docln_fetch::crawler::downloader::{accept, jitter_millis, Downloader, FetchError, Header};
use docln_fetch::crawler::parser::ParseError;
use docln_fetch::epub::chapter::Chapter;
use docln_fetch::extractor::attr::Attr;
use docln_fetch::extractor::text::Text;
use docln_fetch::extractor::{BookExtractor, ChapterExtractor, ContentExtractor, Extractor};
use scraper::Selector;

fn sel(s: &str) -> Selector {
    Selector::parse(s).unwrap()
}

fn text(selector: &str) -> Extractor {
    Extractor::Text(Text::new(Some(sel(selector))))
}

fn site(host: Option<&str>, pattern: &str) -> SiteConfig {
    SiteConfig {
        name: "site".to_string(),
        rate_limit: RateLimit { num: 5, secs: 2 },
        host: host.map(|h| h.to_string()),
        concurrency_limit: 2,
        base_url: "https://example.com/book/{id}".to_string(),
        lang: "zh".to_string(),
        book: BookExtractor {
            this: sel("#book"),
            title: text(".title"),
            author: text(".author"),
            illustrator: None,
            tags: None,
            summary: None,
            cover_url: None,
            volumes: None,
            chapters: Some(ChapterExtractor {
                this: sel("a.ch"),
                title: Extractor::Text(Text::new(None)),
                content_url: Extractor::Attr(Attr::new(None, "href".to_string())),
                content: ContentExtractor {
                    this: sel("#content"),
                    paragraphs: text("div.text"),
                    next_url: Some(Extractor::Attr(Attr::new(Some(sel("a.next")), "href".to_string()))),
                    title_pattern: pattern.to_string(),
                    title: Some(text("h1")),
                },
            }),
        },
    }
}

fn page(title: Option<&str>, body: &str, next: Option<&str>) -> String {
    let mut html = String::from("<html><body><div id=\"content\">");
    if let Some(title) = title {
        html.push_str(&format!("<h1>{}</h1>", title));
    }
    html.push_str(&format!("<div class=\"text\">{}</div>", body));
    if let Some(next) = next {
        html.push_str(&format!("<a class=\"next\" href=\"{}\">next</a>", next));
    }
    html.push_str("</div></body></html>");
    html
}

fn chapter(index: usize, title: &str) -> Chapter {
    Chapter::new(index, title.to_string(), format!("/c/{}", index), format!("{}.xhtml", index))
}

const PATTERN: &str = "^{title}(\\(\\d+/\\d+\\))?$";

#[test]
fn too_many_requests_carries_retry_after() {
    assert_eq!(
        Downloader::check_status(429, Header::Text("30".to_string())),
        Err(FetchError::RateLimited("30".to_string()))
    );
}

#[test]
fn server_error_names_its_status() {
    assert_eq!(Downloader::check_status(500, Header::Absent), Err(FetchError::Http(500)));
    assert_eq!(
        Downloader::check_status(404, Header::Text("30".to_string())),
        Err(FetchError::Http(404))
    );
    assert_eq!(Downloader::check_status(201, Header::Absent), Err(FetchError::Http(201)));
}

#[test]
fn success_is_status_200() {
    assert_eq!(Downloader::check_status(200, Header::Absent), Ok(()));
    assert_eq!(Downloader::check_status(200, Header::Text("30".to_string())), Ok(()));
}

#[test]
fn too_many_requests_without_retry_after() {
    assert_eq!(Downloader::check_status(429, Header::Absent), Err(FetchError::NoRetryAfter));
    assert_eq!(
        Downloader::check_status(429, Header::Unreadable),
        Err(FetchError::RateLimited("未知".to_string()))
    );
}

#[test]
fn downloader_wants_an_address_that_stands_on_its_own() {
    let config = site(None, PATTERN);
    let downloader = Downloader::new(&config, "https://example.com/book/7").ok().unwrap();
    assert_eq!(downloader.url, "https://example.com/book/7");
    assert_eq!(downloader.novel_info(), "https://example.com/book/7");
    let bare = Downloader::new(&config, "https://example.com").ok().unwrap();
    assert_eq!(bare.url, "https://example.com/");
    assert_eq!(Downloader::new(&config, "/book/7").err(), Some(FetchError::BadUrl));
    assert_eq!(Downloader::new(&config, "").err(), Some(FetchError::BadUrl));
}

#[test]
fn addresses_are_resolved_against_the_book() {
    let config = site(None, PATTERN);
    let downloader = Downloader::new(&config, "https://example.com/book/7").ok().unwrap();
    assert_eq!(downloader.resolve("/c/1"), Ok("https://example.com/c/1".to_string()));
    assert_eq!(downloader.resolve("c/1"), Ok("https://example.com/book/c/1".to_string()));
    assert_eq!(downloader.resolve("https://other.example.org/x"), Ok("https://other.example.org/x".to_string()));
    assert_eq!(downloader.chapter("../c/2?page=1"), Ok("https://example.com/c/2?page=1".to_string()));
    assert_eq!(downloader.resolve("https://[::1"), Err(FetchError::BadUrl));
    assert_eq!(downloader.chapter("https://[::1"), Err(FetchError::BadUrl));
}

#[test]
fn image_request_takes_the_extension_of_the_path() {
    let config = site(None, PATTERN);
    let downloader = Downloader::new(&config, "https://example.com/book/7").ok().unwrap();
    let request = downloader.image("/img/a.png?size=large").ok().unwrap();
    assert_eq!(request.url, "https://example.com/img/a.png?size=large");
    assert_eq!(request.extension, "png");
    assert_eq!(request.referer, "https://example.com/book/7");
    let jpeg = downloader.image("https://cdn.example.org/x/photo.final.JPEG").ok().unwrap();
    assert_eq!(jpeg.extension, "JPEG");
    let none = downloader.image("/img/raw").ok().unwrap();
    assert_eq!(none.url, "https://example.com/img/raw");
    assert_eq!(none.extension, "jpg");
    let hidden = downloader.image("/img/.hidden").ok().unwrap();
    assert_eq!(hidden.extension, "jpg");
    assert!(matches!(downloader.image("https://[::1"), Err(FetchError::BadUrl)));
}

#[test]
fn image_request_names_the_configured_host_as_referer() {
    let config = site(Some("https://www.example.com/"), PATTERN);
    let downloader = Downloader::new(&config, "https://example.com/book/7").ok().unwrap();
    let request = downloader.image("a.gif").ok().unwrap();
    assert_eq!(request.url, "https://example.com/book/a.gif");
    assert_eq!(request.extension, "gif");
    assert_eq!(request.referer, "https://www.example.com/");
    assert_eq!(config.referer("base"), "https://www.example.com/");
    assert_eq!(site(None, PATTERN).referer("base"), "base");
}

#[test]
fn pages_of_one_chapter_are_put_together() {
    let config = site(None, PATTERN);
    let downloader = Downloader::new(&config, "https://example.com/book/7").ok().unwrap();
    let chapters = vec![chapter(1, "Ch1"), chapter(2, "Ch1"), chapter(3, "Ch1")];
    let pages = vec![
        page(Some("Ch1(1/2)"), "page one. ", Some("/p/2")),
        page(Some("Ch1(2/2)"), "page two.", Some("/p/3")),
        page(Some("Ch2"), "page three.", None),
    ];
    assert_eq!(
        downloader.chapters_sequential(&chapters, &pages),
        Ok(vec!["page one. page two.".to_string(), "page three.".to_string()])
    );
}

#[test]
fn a_page_without_a_title_goes_by_the_chapter_title() {
    let config = site(None, PATTERN);
    let downloader = Downloader::new(&config, "https://example.com/book/7").ok().unwrap();
    let chapters = vec![chapter(1, "A"), chapter(2, "B"), chapter(3, "C")];
    let pages = vec![
        page(None, "one", Some("/p/2")),
        page(None, "two", Some("/p/3")),
        page(Some("other"), "three", Some("/p/4")),
    ];
    assert_eq!(
        downloader.chapters_sequential(&chapters, &pages),
        Ok(vec!["onetwo".to_string(), "three".to_string()])
    );
}

#[test]
fn reading_stops_at_a_page_that_names_no_next_page() {
    let config = site(None, PATTERN);
    let downloader = Downloader::new(&config, "https://example.com/book/7").ok().unwrap();
    let chapters = vec![chapter(1, "A"), chapter(2, "B"), chapter(3, "C")];
    let pages = vec![
        page(Some("A"), "one", Some("/p/2")),
        page(Some("X"), "two", None),
        page(Some("Y"), "three", Some("/p/4")),
    ];
    assert_eq!(
        downloader.chapters_sequential(&chapters, &pages),
        Ok(vec!["one".to_string(), "two".to_string()])
    );
}

#[test]
fn as_many_pages_are_read_as_there_are_chapters() {
    let config = site(None, PATTERN);
    let downloader = Downloader::new(&config, "https://example.com/book/7").ok().unwrap();
    let pages = vec![
        page(Some("X"), "one", Some("/p/2")),
        page(Some("Y"), "two", Some("/p/3")),
        page(Some("Z"), "three", Some("/p/4")),
    ];
    assert_eq!(
        downloader.chapters_sequential(&vec![chapter(1, "A"), chapter(2, "B")], &pages),
        Ok(vec!["one".to_string(), "two".to_string()])
    );
    assert_eq!(downloader.chapters_sequential(&Vec::new(), &pages), Ok(Vec::new()));
    assert_eq!(downloader.chapters_sequential(&vec![chapter(1, "A")], &Vec::new()), Ok(Vec::new()));
}

#[test]
fn a_page_that_cannot_be_read_fails_the_reading() {
    let config = site(None, PATTERN);
    let downloader = Downloader::new(&config, "https://example.com/book/7").ok().unwrap();
    let chapters = vec![chapter(1, "A"), chapter(2, "B")];
    let pages = vec![page(Some("A"), "one", Some("/p/2")), "<p>nothing</p>".to_string()];
    assert_eq!(
        downloader.chapters_sequential(&chapters, &pages),
        Err(FetchError::Page(ParseError::NoContentElement))
    );
    let empty = vec![page(Some("A"), "", Some("/p/2"))];
    assert_eq!(
        downloader.chapters_sequential(&chapters, &empty),
        Err(FetchError::Page(ParseError::NoContent))
    );
    let unresolved = vec![page(Some("A"), "one", Some("https://[::1"))];
    assert_eq!(downloader.chapters_sequential(&chapters, &unresolved), Err(FetchError::BadUrl));
}

#[test]
fn a_title_that_breaks_the_pattern_fails_the_reading() {
    let config = site(None, PATTERN);
    let downloader = Downloader::new(&config, "https://example.com/book/7").ok().unwrap();
    let pages = vec![page(Some("A"), "one", None)];
    assert_eq!(
        downloader.chapters_sequential(&vec![chapter(1, "A(")], &pages),
        Err(FetchError::BadPattern)
    );
}

#[test]
fn one_page_at_a_time() {
    let config = site(None, PATTERN);
    let downloader = Downloader::new(&config, "https://example.com/book/7").ok().unwrap();
    let mut chapters: Vec<String> = Vec::new();
    let next = downloader.accept_page(&mut chapters, "Ch1", &page(Some("Ch1(1/2)"), "a", Some("second")));
    assert_eq!(next, Ok(Some("https://example.com/book/second".to_string())));
    assert_eq!(chapters, vec!["a"]);
    let next = downloader.accept_page(&mut chapters, "Ch1", &page(Some("Ch1(2/2)"), "b", Some("/third")));
    assert_eq!(next, Ok(Some("https://example.com/third".to_string())));
    assert_eq!(chapters, vec!["ab"]);
    let failed = downloader.accept_page(&mut chapters, "Ch1", "<p>nothing</p>");
    assert_eq!(failed, Err(FetchError::Page(ParseError::NoContentElement)));
    assert_eq!(chapters, vec!["ab"]);
    let next = downloader.accept_page(&mut chapters, "Ch1", &page(Some("Ch2"), "c", None));
    assert_eq!(next, Ok(None));
    assert_eq!(chapters, vec!["ab", "c"]);
}

#[test]
fn accept_adds_to_the_last_chapter_or_begins_one() {
    let mut chapters: Vec<String> = Vec::new();
    accept(&mut chapters, "a", true);
    assert_eq!(chapters, vec!["a"]);
    accept(&mut chapters, "b", true);
    assert_eq!(chapters, vec!["ab"]);
    accept(&mut chapters, "c", false);
    assert_eq!(chapters, vec!["ab", "c"]);
    accept(&mut chapters, "d", true);
    assert_eq!(chapters, vec!["ab", "cd"]);
}

#[test]
fn jitter_is_between_one_and_three_seconds() {
    assert_eq!(jitter_millis(0), 1000);
    assert_eq!(jitter_millis(1999), 2999);
    assert_eq!(jitter_millis(2000), 1000);
    assert_eq!(jitter_millis(123_456_789), 1789);
    assert_eq!(jitter_millis(u64::MAX), u64::MAX % 2000 + 1000);
}

#[test]
fn site_configuration() {
    let config = site(None, PATTERN);
    assert!(config.sequential());
    assert!(config.get_chapter_config().is_some());
    assert_eq!(config.get_book_config().volumes.is_none(), true);
    assert_eq!(RateLimit::default(), RateLimit { num: u64::MAX, secs: 1 });
    assert_eq!(default_concurrency_limit(), usize::MAX);
    let mut plain = site(None, PATTERN);
    if let Some(chapters) = plain.book.chapters.as_mut() {
        chapters.content.next_url = None;
    }
    assert!(!plain.sequential());
    plain.book.chapters = None;
    assert!(plain.get_chapter_config().is_none());
    assert!(!plain.sequential());
}

#[test]
fn sign_in_records() {
    let config = Config {
        auth: vec![
            ("one".to_string(), AuthType::Token("abc".to_string())),
            (
                "two".to_string(),
                AuthType::Cookies(vec![
                    ("sid".to_string(), "1".to_string()),
                    ("lang".to_string(), "vi".to_string()),
                ]),
            ),
        ],
    };
    let one = config.auth_for("one").unwrap();
    assert_eq!(one.authorization(), Some("Bearer abc".to_string()));
    assert!(one.cookie_strings().is_empty());
    let two = config.auth_for("two").unwrap();
    assert_eq!(two.authorization(), None);
    assert_eq!(two.cookie_strings(), vec!["sid=1", "lang=vi"]);
    assert!(config.auth_for("three").is_none());
}

#[test]
fn kinds_of_rules_by_name() {
    assert_eq!(Kind::resolve("Attr"), Ok(Kind::Attr));
    assert_eq!(Kind::resolve("Text"), Ok(Kind::Text));
    assert_eq!(Kind::resolve("List"), Ok(Kind::List));
    assert_eq!(Kind::resolve("Next"), Ok(Kind::Next));
    assert_eq!(Kind::resolve("Current"), Ok(Kind::Current));
    assert_eq!(Kind::resolve("Combine"), Ok(Kind::Combine));
    assert_eq!(Kind::resolve("Html"), Ok(Kind::Html));
    assert_eq!(Kind::resolve("Url"), Ok(Kind::Url));
    assert_eq!(Kind::resolve("attr"), Err(ConfigError::UnknownKind("attr".to_string())));
    assert_eq!(Kind::resolve(""), Err(ConfigError::UnknownKind(String::new())));
}

#[test]
fn selectors_of_a_configuration() {
    assert_eq!(deserialize_selector("div > a.ch"), Ok(sel("div > a.ch")));
    assert_eq!(deserialize_selector("div >"), Err(ConfigError::InvalidSelector("div >".to_string())));
    assert_eq!(deserialize_selector(""), Err(ConfigError::InvalidSelector(String::new())));
    assert_eq!(deserialize_nullable_selector(None), Ok(None));
    assert_eq!(deserialize_nullable_selector(Some("")), Ok(None));
    assert_eq!(deserialize_nullable_selector(Some(" \t")), Ok(None));
    assert_eq!(deserialize_nullable_selector(Some("p.x")), Ok(Some(sel("p.x"))));
    assert_eq!(
        deserialize_nullable_selector(Some("p..x")),
        Err(ConfigError::InvalidSelector("p..x".to_string()))
    );
}

#[test]
fn failures_say_what_failed() {
    assert_eq!(FetchError::BadUrl.message(), "url解析错误");
    assert_eq!(
        FetchError::RateLimited("30".to_string()).message(),
        "请求过多，已被限制访问，请等待 30 秒后重试"
    );
    assert_eq!(FetchError::NoRetryAfter.message(), "无法获取重试时间");
    assert_eq!(FetchError::Http(500).message(), "HTTP错误 500");
    assert_eq!(FetchError::Http(65535).message(), "HTTP错误 65535");
    assert_eq!(FetchError::BadPattern.message(), "正则表达式编译失败");
    assert_eq!(FetchError::Page(ParseError::NoContent).message(), "章节内容提取失败");
    assert_eq!(ParseError::NoChapterRule.message(), "未配置章节提取器");
    assert_eq!(ParseError::NoContentElement.message(), "无法找到章节内容");
    assert_eq!(ParseError::NoBookElement.message(), "无法获取小说元素");
    assert_eq!(ParseError::NoTitle.message(), "无法提取小说标题");
    assert_eq!(ParseError::NoAuthor.message(), "无法提取作者信息");
    assert_eq!(ParseError::NoChildrenRule.message(), "未配置卷或章节提取器");
    assert_eq!(ParseError::NoVolumeTitle(3).message(), "无法提取第 3 卷标题");
    assert_eq!(
        ParseError::NoChapterTitle { volume: Some(2), chapter: 11 }.message(),
        "无法提取第 2 卷第 11 章标题"
    );
    assert_eq!(ParseError::NoChapterTitle { volume: None, chapter: 4 }.message(), "无法提取第 4 章标题");
    assert_eq!(
        ParseError::NoChapterUrl { volume: Some(1), chapter: 1 }.message(),
        "无法提取第 1 卷第 1 章内容链接"
    );
    assert_eq!(ParseError::NoChapterUrl { volume: None, chapter: 9 }.message(), "无法提取第 9 章内容链接");
    assert_eq!(ConfigError::UnknownKind("Xml".to_string()).message(), "Unknown extractor type: Xml");
    assert_eq!(ConfigError::InvalidSelector("p..x".to_string()).message(), "Invalid selector: p..x");
}

#[test]
fn only_a_successful_answer_hands_its_body_on() {
    assert_eq!(Downloader::answer(200, Header::Absent, "<html></html>".to_string()), Ok("<html></html>".to_string()));
    assert_eq!(Downloader::answer(200, Header::Text("5".to_string()), vec![1u8, 2, 3]), Ok(vec![1u8, 2, 3]));
    assert_eq!(Downloader::answer(500, Header::Absent, "<html>oops</html>".to_string()), Err(FetchError::Http(500)));
    assert_eq!(Downloader::answer(404, Header::Absent, vec![1u8]), Err(FetchError::Http(404)));
    assert_eq!(Downloader::answer(204, Header::Absent, String::new()), Err(FetchError::Http(204)));
    assert_eq!(
        Downloader::answer(429, Header::Text("30".to_string()), "slow down".to_string()),
        Err(FetchError::RateLimited("30".to_string()))
    );
    assert_eq!(Downloader::answer(429, Header::Absent, vec![0u8]), Err(FetchError::NoRetryAfter));
}

fn pair(name: &str, value: &str) -> (String, String) {
    (name.to_string(), value.to_string())
}

#[test]
fn store_gives_a_name_one_value() {
    let mut entries: Vec<(String, String)> = Vec::new();
    store(&mut entries, "a".to_string(), "1".to_string());
    store(&mut entries, "b".to_string(), "2".to_string());
    assert_eq!(entries, vec![pair("a", "1"), pair("b", "2")]);
    store(&mut entries, "a".to_string(), "3".to_string());
    assert_eq!(entries, vec![pair("a", "3"), pair("b", "2")]);
    store(&mut entries, "c".to_string(), "4".to_string());
    store(&mut entries, "c".to_string(), "5".to_string());
    assert_eq!(entries, vec![pair("a", "3"), pair("b", "2"), pair("c", "5")]);
}

#[test]
fn cookies_bear_different_names() {
    let cookies = AuthType::cookies(vec![pair("sid", "1"), pair("lang", "vi")]).unwrap();
    assert_eq!(cookies.cookie_strings(), vec!["sid=1", "lang=vi"]);
    assert!(AuthType::cookies(Vec::new()).is_some());
    assert!(AuthType::cookies(vec![pair("sid", "1"), pair("lang", "vi"), pair("sid", "2")]).is_none());
    assert!(AuthType::cookies(vec![pair("x", "1"), pair("x", "1")]).is_none());
}

#[test]
fn a_site_has_one_sign_in_record() {
    let mut config = Config::new();
    assert!(config.auth.is_empty());
    assert!(config.auth_for("one").is_none());
    config.insert("one".to_string(), AuthType::Token("abc".to_string()));
    config.insert("two".to_string(), AuthType::Token("def".to_string()));
    config.insert("one".to_string(), AuthType::Token("xyz".to_string()));
    assert_eq!(config.auth.len(), 2);
    assert_eq!(config.auth_for("one").unwrap().authorization(), Some("Bearer xyz".to_string()));
    assert_eq!(config.auth_for("two").unwrap().authorization(), Some("Bearer def".to_string()));
    assert!(config.auth_for("three").is_none());
}
