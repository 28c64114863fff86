//! The decisions of the network layer: which address to ask for, what an
//! answer means, and how pages read one after another become chapters.

use vstd::prelude::*;
use vstd::string::StringExecFns;
use crate::config::SiteConfig;
use crate::crawler::parser::{page_of, PageView, ParseError, Parser};
use crate::epub::chapter::Chapter;

verus! {

/// The address that `Url::parse` reads from a text, written out again, if it
/// reads one.
pub uninterp spec fn parsed_url(text: Seq<char>) -> Option<Seq<char>>;

/// The address that `Url::join` makes of a reference seen from a base, if
/// both can be read.
pub uninterp spec fn joined_url(base: Seq<char>, reference: Seq<char>) -> Option<Seq<char>>;

/// The path of an address, as `Url::path` gives it, if the address can be
/// read.
pub uninterp spec fn url_path(address: Seq<char>) -> Option<Seq<char>>;

/// The extension of a path, as `Path::extension` gives it, if it has one
/// that is text.
pub uninterp spec fn path_extension(path: Seq<char>) -> Option<Seq<char>>;

/// Trusted: the result of `Url::parse`, written out; it depends on the text
/// alone.
#[verifier::external_body]
pub(crate) fn parse_url(text: &str) -> (address: Option<String>)
    ensures
        address.deep_view() == parsed_url(text@),
{
    url::Url::parse(text).ok().map(|u| u.to_string())
}

/// Trusted: the result of `Url::join` on the parsed base, written out; it
/// depends on the two texts alone.
#[verifier::external_body]
pub(crate) fn join_url(base: &str, reference: &str) -> (address: Option<String>)
    ensures
        address.deep_view() == joined_url(base@, reference@),
{
    url::Url::parse(base).ok().and_then(|b| b.join(reference).ok()).map(|u| u.to_string())
}

/// Trusted: the result of `Url::path` on the parsed address; it depends on
/// the text alone.
#[verifier::external_body]
pub(crate) fn path_of_url(address: &str) -> (path: Option<String>)
    ensures
        path.deep_view() == url_path(address@),
{
    url::Url::parse(address).ok().map(|u| u.path().to_string())
}

/// Trusted: the result of `Path::extension`, where it is text; it depends on
/// the path alone.
#[verifier::external_body]
pub(crate) fn extension_of(path: &str) -> (extension: Option<String>)
    ensures
        extension.deep_view() == path_extension(path@),
{
    std::path::Path::new(path).extension().and_then(|e| e.to_str()).map(|e| e.to_string())
}

/// Why a fetch failed.
#[derive(Debug, Clone, PartialEq, Eq)]
pub enum FetchError {
    /// An address could not be read or resolved.
    BadUrl,
    /// The site asked to slow down; the text is what it sent as
    /// `Retry-After`.
    RateLimited(String),
    /// The site asked to slow down without saying for how long.
    NoRetryAfter,
    /// The site answered with a status that is neither success nor a
    /// request to slow down.
    Http(u16),
    /// The title pattern made for a chapter is no regular expression.
    BadPattern,
    /// The page that came back could not be read.
    Page(ParseError),
}

/// Why a fetch failed, as plain values.
pub enum FetchErrorView {
    BadUrl,
    RateLimited(Seq<char>),
    NoRetryAfter,
    Http(u16),
    BadPattern,
    Page(ParseError),
}

impl View for FetchError {
    type V = FetchErrorView;

    open spec fn view(&self) -> FetchErrorView {
        match self {
            FetchError::BadUrl => FetchErrorView::BadUrl,
            FetchError::RateLimited(value) => FetchErrorView::RateLimited(value@),
            FetchError::NoRetryAfter => FetchErrorView::NoRetryAfter,
            FetchError::Http(status) => FetchErrorView::Http(*status),
            FetchError::BadPattern => FetchErrorView::BadPattern,
            FetchError::Page(e) => FetchErrorView::Page(*e),
        }
    }
}

/// What a failure says to the user.
pub open spec fn fetch_message(error: FetchErrorView) -> Seq<char> {
    match error {
        FetchErrorView::BadUrl => "url解析错误"@,
        FetchErrorView::RateLimited(retry_after) => "请求过多，已被限制访问，请等待 "@ + retry_after
            + " 秒后重试"@,
        FetchErrorView::NoRetryAfter => "无法获取重试时间"@,
        FetchErrorView::Http(status) => "HTTP错误 "@ + crate::text::decimal(status as nat),
        FetchErrorView::BadPattern => "正则表达式编译失败"@,
        FetchErrorView::Page(e) => crate::crawler::parser::parse_message(e),
    }
}

impl FetchError {
    /// What the failure says to the user.
    pub fn message(&self) -> (text: String)
        ensures
            text@ == fetch_message(self@),
    {
        match self {
            FetchError::BadUrl => String::from_str("url解析错误"),
            FetchError::RateLimited(retry_after) => {
                let mut text = String::from_str("请求过多，已被限制访问，请等待 ");
                text.append(retry_after.as_str());
                text.append(" 秒后重试");
                text
            },
            FetchError::NoRetryAfter => String::from_str("无法获取重试时间"),
            FetchError::Http(status) => {
                let mut text = String::from_str("HTTP错误 ");
                crate::epub::metadata::append_decimal(&mut text, *status as usize);
                text
            },
            FetchError::BadPattern => String::from_str("正则表达式编译失败"),
            FetchError::Page(e) => e.message(),
        }
    }
}

/// A header of an answer, as far as it can be read.
pub enum Header {
    /// The header is not there.
    Absent,
    /// The header is there, but its value is no visible text.
    Unreadable,
    /// The header's value.
    Text(String),
}

/// A header of an answer, as plain values.
pub enum HeaderView {
    Absent,
    Unreadable,
    Text(Seq<char>),
}

impl View for Header {
    type V = HeaderView;

    open spec fn view(&self) -> HeaderView {
        match self {
            Header::Absent => HeaderView::Absent,
            Header::Unreadable => HeaderView::Unreadable,
            Header::Text(value) => HeaderView::Text(value@),
        }
    }
}

/// What to ask for to get an image.
pub struct ImageRequest {
    /// The address of the image.
    pub url: String,
    /// The extension to save the image under.
    pub extension: String,
    /// The referer to send along.
    pub referer: String,
}

/// The extension of the image at `address`: that of its path, or `jpg`.
pub open spec fn image_extension(address: Seq<char>) -> Seq<char> {
    match url_path(address) {
        Some(path) => match path_extension(path) {
            Some(extension) => extension,
            None => "jpg"@,
        },
        None => "jpg"@,
    }
}

/// What the status of an answer means, whatever was asked for: success for
/// 200; for 429 a request to slow down, with what the site sent as
/// `Retry-After`; a failure that names the status for any other.
pub open spec fn verdict(status: u16, retry_after: HeaderView) -> Result<(), FetchErrorView> {
    if status == 200 {
        Ok(())
    } else if status == 429 {
        match retry_after {
            HeaderView::Absent => Err(FetchErrorView::NoRetryAfter),
            HeaderView::Unreadable => Err(FetchErrorView::RateLimited("未知"@)),
            HeaderView::Text(value) => Err(FetchErrorView::RateLimited(value)),
        }
    } else {
        Err(FetchErrorView::Http(status))
    }
}

/// Whether a page goes on with the chapter titled `chapter_title`: its
/// title, or the chapter's where it has none, matches the pattern made for
/// the chapter. `None` where the site has no rules for chapters or the
/// pattern is no regular expression.
pub open spec fn goes_on(config: SiteConfig, chapter_title: Seq<char>, page: PageView) -> Option<
    bool,
> {
    match config.chapter_config() {
        Some(rule) => rule.content.title_matches(
            chapter_title,
            match page.title {
                Some(title) => title,
                None => chapter_title,
            },
        ),
        None => None,
    }
}

/// The chapters after one more page: its text is added to the last chapter
/// where the page goes on with it, and begins a new chapter otherwise. The
/// first page always begins a chapter.
pub open spec fn accepted(chapters: Seq<Seq<char>>, text: Seq<char>, goes_on: bool) -> Seq<
    Seq<char>,
> {
    if chapters.len() > 0 && goes_on {
        chapters.drop_last().push(chapters.last() + text)
    } else {
        chapters.push(text)
    }
}

/// The chapters assembled so far, and the address to read next if there is
/// one.
pub struct Progress {
    pub chapters: Seq<Seq<char>>,
    pub next: Option<Seq<char>>,
}

/// What one page does to the chapters assembled so far. The page is read,
/// held against the title of the chapter at its place, and added; the
/// address of the next page is resolved against `base`.
pub open spec fn step(
    config: SiteConfig,
    base: Seq<char>,
    chapters: Seq<Seq<char>>,
    chapter_title: Seq<char>,
    html: Seq<char>,
) -> Result<Progress, FetchErrorView> {
    match page_of(config, html) {
        Err(e) => Err(FetchErrorView::Page(e)),
        Ok(page) => match goes_on(config, chapter_title, page) {
            None => Err(FetchErrorView::BadPattern),
            Some(on) => match page.next_url {
                None => Ok(
                    Progress { chapters: accepted(chapters, page.paragraphs, on), next: None },
                ),
                Some(reference) => match joined_url(base, reference) {
                    None => Err(FetchErrorView::BadUrl),
                    Some(address) => Ok(
                        Progress {
                            chapters: accepted(chapters, page.paragraphs, on),
                            next: Some(address),
                        },
                    ),
                },
            },
        },
    }
}

/// The chapters assembled from the first `n` of `pages`, each held against
/// the title at its place in `titles`. Reading stops at the first page that
/// names no next page; the first failure fails the whole.
pub open spec fn replayed(
    config: SiteConfig,
    base: Seq<char>,
    titles: Seq<Seq<char>>,
    pages: Seq<Seq<char>>,
    n: nat,
) -> Result<Progress, FetchErrorView>
    decreases n,
{
    if n == 0 {
        Ok(Progress { chapters: Seq::empty(), next: Some(base) })
    } else {
        match replayed(config, base, titles, pages, (n - 1) as nat) {
            Err(e) => Err(e),
            Ok(before) => if before.next is None {
                Ok(before)
            } else {
                step(config, base, before.chapters, titles[n - 1], pages[n - 1])
            },
        }
    }
}

/// How long to wait before the next page is asked for, in milliseconds: from
/// one second up to three, by the random number.
pub open spec fn jitter(random: u64) -> u64 {
    (random % 2000 + 1000) as u64
}

/// How long to wait before the next page is asked for, in milliseconds.
pub fn jitter_millis(random: u64) -> (millis: u64)
    ensures
        millis == jitter(random),
        1000 <= millis < 3000,
{
    random % 2000 + 1000
}

/// Adds one page's text to the chapters assembled so far.
pub fn accept(chapters: &mut Vec<String>, text: &str, goes_on: bool)
    ensures
        final(chapters).deep_view() == accepted(old(chapters).deep_view(), text@, goes_on),
{
    let ghost before = chapters.deep_view();
    if goes_on && chapters.len() > 0 {
        match chapters.pop() {
            Some(mut last) => {
                let ghost rest = chapters.deep_view();
                assert(rest =~= before.drop_last());
                last.append(text);
                chapters.push(last);
                assert(chapters.deep_view() =~= rest.push(before.last() + text@));
            },
            None => {},
        }
    } else {
        chapters.push(String::from_str(text));
        assert(chapters.deep_view() =~= before.push(text@));
    }
}

/// Decides what to ask a site for, and what its answers mean.
#[derive(Clone)]
pub struct Downloader<'a> {
    pub config: &'a SiteConfig,
    /// The address of the book's page, against which all others are
    /// resolved.
    pub url: String,
}

impl<'a> Downloader<'a> {
    /// A downloader for the book at `url`, which must be an address that
    /// stands on its own.
    pub fn new(config: &'a SiteConfig, url: &str) -> (r: Result<Downloader<'a>, FetchError>)
        ensures
            match r {
                Ok(d) => d.config == config && parsed_url(url@) == Some(d.url@),
                Err(e) => e@ == FetchErrorView::BadUrl && parsed_url(url@) is None,
            },
    {
        match parse_url(url) {
            Some(address) => Ok(Downloader { config, url: address }),
            None => Err(FetchError::BadUrl),
        }
    }

    /// The address that `reference` stands for, seen from the book's page.
    pub fn resolve(&self, reference: &str) -> (r: Result<String, FetchError>)
        ensures
            match r {
                Ok(address) => joined_url(self.url@, reference@) == Some(address@),
                Err(e) => e@ == FetchErrorView::BadUrl && joined_url(self.url@, reference@)
                    is None,
            },
    {
        match join_url(self.url.as_str(), reference) {
            Some(address) => Ok(address),
            None => Err(FetchError::BadUrl),
        }
    }

    /// The address of the book's page. What comes back is the page only if
    /// `answer` lets it through.
    pub fn novel_info(&self) -> (address: String)
        ensures
            address@ == self.url@,
    {
        self.url.clone()
    }

    /// What to ask for to get the image at `image_url`: its resolved address,
    /// the extension of that address's path or `jpg`, and as referer the
    /// configured host or else the book's page. What comes back is the image
    /// only if `answer` lets it through.
    pub fn image(&self, image_url: &str) -> (r: Result<ImageRequest, FetchError>)
        ensures
            match r {
                Ok(request) => {
                    &&& joined_url(self.url@, image_url@) == Some(request.url@)
                    &&& request.extension@ == image_extension(request.url@)
                    &&& request.referer@ == match self.config.host {
                        Some(host) => host@,
                        None => self.url@,
                    }
                },
                Err(e) => e@ == FetchErrorView::BadUrl && joined_url(self.url@, image_url@)
                    is None,
            },
    {
        let url = match self.resolve(image_url) {
            Ok(url) => url,
            Err(e) => {
                return Err(e);
            },
        };
        let extension = match path_of_url(url.as_str()) {
            Some(path) => match extension_of(path.as_str()) {
                Some(extension) => extension,
                None => String::from_str("jpg"),
            },
            None => String::from_str("jpg"),
        };
        let referer = self.config.referer(self.url.as_str());
        Ok(ImageRequest { url, extension, referer })
    }

    /// The address to ask for to get the chapter at `chapter_url`. What comes
    /// back is the chapter's page only if `answer` lets it through.
    pub fn chapter(&self, chapter_url: &str) -> (r: Result<String, FetchError>)
        ensures
            match r {
                Ok(address) => joined_url(self.url@, chapter_url@) == Some(address@),
                Err(e) => e@ == FetchErrorView::BadUrl && joined_url(self.url@, chapter_url@)
                    is None,
            },
    {
        self.resolve(chapter_url)
    }

    /// What the status of an answer means, whatever was asked for.
    pub fn check_status(status: u16, retry_after: Header) -> (r: Result<(), FetchError>)
        ensures
            match r {
                Ok(_) => verdict(status, retry_after@) is Ok,
                Err(e) => verdict(status, retry_after@) == Err::<(), FetchErrorView>(e@),
            },
    {
        if status == 200 {
            Ok(())
        } else if status == 429 {
            match retry_after {
                Header::Absent => Err(FetchError::NoRetryAfter),
                Header::Unreadable => Err(FetchError::RateLimited(String::from_str("未知"))),
                Header::Text(value) => Err(FetchError::RateLimited(value)),
            }
        } else {
            Err(FetchError::Http(status))
        }
    }

    /// What an answer is worth, whatever was asked for: the book's page, a
    /// chapter's page, a page of a site read page by page, or an image. A
    /// body that came with status 200 is handed on as it is; with any other
    /// status the body is dropped and the failure says why.
    pub fn answer<T>(status: u16, retry_after: Header, body: T) -> (r: Result<T, FetchError>)
        ensures
            match r {
                Ok(b) => verdict(status, retry_after@) is Ok && b == body,
                Err(e) => verdict(status, retry_after@) == Err::<(), FetchErrorView>(e@),
            },
    {
        match Self::check_status(status, retry_after) {
            Ok(_) => Ok(body),
            Err(e) => Err(e),
        }
    }

    /// Takes in one page of a site read page by page: adds its text to
    /// `chapters` and gives the address of the next page, or `None` where
    /// the page names none. On failure `chapters` is left as it was.
    pub fn accept_page(&self, chapters: &mut Vec<String>, chapter_title: &str, html: &str) -> (r:
        Result<Option<String>, FetchError>)
        ensures
            match r {
                Ok(next) => step(
                    *self.config,
                    self.url@,
                    old(chapters).deep_view(),
                    chapter_title@,
                    html@,
                ) == Ok::<Progress, FetchErrorView>(
                    Progress { chapters: final(chapters).deep_view(), next: next.deep_view() },
                ),
                Err(e) => {
                    &&& step(
                        *self.config,
                        self.url@,
                        old(chapters).deep_view(),
                        chapter_title@,
                        html@,
                    ) == Err::<Progress, FetchErrorView>(e@)
                    &&& final(chapters).deep_view() == old(chapters).deep_view()
                },
            },
    {
        let parser = Parser::new(self.config);
        let page = match parser.page(html) {
            Ok(page) => page,
            Err(e) => {
                return Err(FetchError::Page(e));
            },
        };
        let rule = match self.config.get_chapter_config() {
            Some(rule) => rule,
            None => {
                return Err(FetchError::BadPattern);
            },
        };
        let on = match &page.title {
            Some(title) => rule.content.try_matches_title(chapter_title, title.as_str()),
            None => rule.content.try_matches_title(chapter_title, chapter_title),
        };
        let on = match on {
            Some(on) => on,
            None => {
                return Err(FetchError::BadPattern);
            },
        };
        let next = match &page.next_url {
            Some(reference) => match self.resolve(reference.as_str()) {
                Ok(address) => Some(address),
                Err(e) => {
                    return Err(e);
                },
            },
            None => None,
        };
        accept(chapters, page.paragraphs.as_str(), on);
        Ok(next)
    }

    /// The chapters assembled from `pages`, read in order, each held against
    /// the title of the chapter at its place in `chapters`. As many pages
    /// are read as there are chapters, and reading stops early at a page
    /// that names no next page.
    pub fn chapters_sequential(&self, chapters: &Vec<Chapter>, pages: &Vec<String>) -> (r: Result<
        Vec<String>,
        FetchError,
    >)
        ensures
            match r {
                Ok(texts) => replayed(
                    *self.config,
                    self.url@,
                    titles_of(chapters.deep_view()),
                    pages.deep_view(),
                    read_count(chapters@.len(), pages@.len()),
                ) matches Ok(progress) && progress.chapters == texts.deep_view(),
                Err(e) => replayed(
                    *self.config,
                    self.url@,
                    titles_of(chapters.deep_view()),
                    pages.deep_view(),
                    read_count(chapters@.len(), pages@.len()),
                ) == Err::<Progress, FetchErrorView>(e@),
            },
    {
        let mut results: Vec<String> = Vec::new();
        assert(results.deep_view() =~= Seq::empty());
        let count = if chapters.len() < pages.len() {
            chapters.len()
        } else {
            pages.len()
        };
        let ghost titles = titles_of(chapters.deep_view());
        let mut open = true;
        let mut i: usize = 0;
        while i < count
            invariant
                i <= count,
                count == read_count(chapters@.len(), pages@.len()),
                titles == titles_of(chapters.deep_view()),
                replayed(*self.config, self.url@, titles, pages.deep_view(), i as nat) matches Ok(
                    progress,
                ) && progress.chapters == results.deep_view() && (progress.next is Some <==> open),
            decreases count - i,
        {
            if open {
                match self.accept_page(
                    &mut results,
                    chapters[i].title.as_str(),
                    pages[i].as_str(),
                ) {
                    Ok(next) => {
                        open = next.is_some();
                    },
                    Err(e) => {
                        proof {
                            lemma_replay_fails_on(
                                *self.config,
                                self.url@,
                                titles,
                                pages.deep_view(),
                                (i + 1) as nat,
                                count as nat,
                            );
                        }
                        return Err(e);
                    },
                }
            }
            i += 1;
        }
        Ok(results)
    }
}

/// The titles of `chapters`, in order.
pub open spec fn titles_of(chapters: Seq<crate::epub::chapter::ChapterView>) -> Seq<Seq<char>> {
    chapters.map_values(|c: crate::epub::chapter::ChapterView| c.title)
}

/// How many pages are read: as many as there are chapters to hold them
/// against.
pub open spec fn read_count(chapters: nat, pages: nat) -> nat {
    if chapters < pages {
        chapters
    } else {
        pages
    }
}

/// A failure on the first `n` pages is the failure of any longer reading.
pub proof fn lemma_replay_fails_on(
    config: SiteConfig,
    base: Seq<char>,
    titles: Seq<Seq<char>>,
    pages: Seq<Seq<char>>,
    n: nat,
    m: nat,
)
    requires
        n <= m,
        replayed(config, base, titles, pages, n) is Err,
    ensures
        replayed(config, base, titles, pages, m) == replayed(config, base, titles, pages, n),
    decreases m,
{
    if n < m {
        lemma_replay_fails_on(config, base, titles, pages, n, (m - 1) as nat);
    }
}

} // verus!
