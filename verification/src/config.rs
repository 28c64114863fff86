//! What is configured for a site, and how to sign in to it.

use vstd::prelude::*;
use vstd::string::StringExecFns;
use scraper::Selector;
use crate::dom::{parse_selector, parsed_selector};
use crate::extractor::{BookExtractor, ChapterExtractor};
use crate::text::{is_blank, same_text, trim};

verus! {

/// Why a configuration cannot be used.
#[derive(Debug, Clone, PartialEq, Eq)]
pub enum ConfigError {
    /// A rule names a kind that does not exist; the text is the name.
    UnknownKind(String),
    /// A selector cannot be read; the text is the selector.
    InvalidSelector(String),
}

/// What a failure says to the user.
pub open spec fn config_message(error: ConfigError) -> Seq<char> {
    match error {
        ConfigError::UnknownKind(name) => "Unknown extractor type: "@ + name@,
        ConfigError::InvalidSelector(selector) => "Invalid selector: "@ + selector@,
    }
}

impl ConfigError {
    /// What the failure says to the user.
    pub fn message(&self) -> (text: String)
        ensures
            text@ == config_message(*self),
    {
        match self {
            ConfigError::UnknownKind(name) => {
                let mut text = String::from_str("Unknown extractor type: ");
                text.append(name.as_str());
                text
            },
            ConfigError::InvalidSelector(selector) => {
                let mut text = String::from_str("Invalid selector: ");
                text.append(selector.as_str());
                text
            },
        }
    }
}

/// The kinds of rules, as a configuration names them.
#[derive(Debug, Clone, Copy, PartialEq, Eq)]
pub enum Kind {
    Attr,
    Text,
    List,
    Next,
    Current,
    Combine,
    Html,
    Url,
}

/// The kind that a name stands for, if it stands for one.
pub open spec fn kind_of(name: Seq<char>) -> Option<Kind> {
    if name == "Attr"@ {
        Some(Kind::Attr)
    } else if name == "Text"@ {
        Some(Kind::Text)
    } else if name == "List"@ {
        Some(Kind::List)
    } else if name == "Next"@ {
        Some(Kind::Next)
    } else if name == "Current"@ {
        Some(Kind::Current)
    } else if name == "Combine"@ {
        Some(Kind::Combine)
    } else if name == "Html"@ {
        Some(Kind::Html)
    } else if name == "Url"@ {
        Some(Kind::Url)
    } else {
        None
    }
}

impl Kind {
    /// The kind that `name` stands for. A name that stands for none fails
    /// the configuration when it is loaded, not later in the crawl.
    pub fn resolve(name: &str) -> (kind: Result<Kind, ConfigError>)
        ensures
            match kind {
                Ok(k) => kind_of(name@) == Some(k),
                Err(e) => kind_of(name@) is None && (e matches ConfigError::UnknownKind(n) && n@
                    == name@),
            },
    {
        if same_text(name, "Attr") {
            Ok(Kind::Attr)
        } else if same_text(name, "Text") {
            Ok(Kind::Text)
        } else if same_text(name, "List") {
            Ok(Kind::List)
        } else if same_text(name, "Next") {
            Ok(Kind::Next)
        } else if same_text(name, "Current") {
            Ok(Kind::Current)
        } else if same_text(name, "Combine") {
            Ok(Kind::Combine)
        } else if same_text(name, "Html") {
            Ok(Kind::Html)
        } else if same_text(name, "Url") {
            Ok(Kind::Url)
        } else {
            Err(ConfigError::UnknownKind(String::from_str(name)))
        }
    }
}

/// The selector that a configuration gives as `text`.
pub fn deserialize_selector(text: &str) -> (selector: Result<Selector, ConfigError>)
    ensures
        match selector {
            Ok(s) => parsed_selector(text@) == Some(s),
            Err(e) => parsed_selector(text@) is None && (e matches ConfigError::InvalidSelector(
                t,
            ) && t@ == text@),
        },
{
    match parse_selector(text) {
        Some(selector) => Ok(selector),
        None => Err(ConfigError::InvalidSelector(String::from_str(text))),
    }
}

/// The selector that a configuration may give as `text`: none where it
/// gives none or a blank one.
pub fn deserialize_nullable_selector(text: Option<&str>) -> (selector: Result<
    Option<Selector>,
    ConfigError,
>)
    ensures
        match text {
            None => selector == Ok::<Option<Selector>, ConfigError>(None),
            Some(t) => if is_blank(t@) {
                selector == Ok::<Option<Selector>, ConfigError>(None)
            } else {
                match selector {
                    Ok(s) => s is Some && parsed_selector(t@) == s,
                    Err(e) => parsed_selector(t@) is None && (e matches ConfigError::InvalidSelector(
                        n,
                    ) && n@ == t@),
                }
            },
        },
{
    match text {
        None => Ok(None),
        Some(t) => {
            if trim(t).as_str().is_empty() {
                Ok(None)
            } else {
                match deserialize_selector(t) {
                    Ok(selector) => Ok(Some(selector)),
                    Err(e) => Err(e),
                }
            }
        },
    }
}

/// Whether no two entries bear the same name, as in a map.
pub open spec fn unique_names<T>(entries: Seq<(String, T)>) -> bool {
    forall|i: int, j: int|
        0 <= i < j < entries.len() ==> (#[trigger] entries[i]).0@ != (#[trigger] entries[j]).0@
}

/// Whether no entry bears the name `name`.
pub open spec fn absent<T>(entries: Seq<(String, T)>, name: Seq<char>) -> bool {
    forall|i: int| 0 <= i < entries.len() ==> (#[trigger] entries[i]).0@ != name
}

/// Whether the entry at `i` is the first that bears the name `name`.
pub open spec fn first_named<T>(entries: Seq<(String, T)>, name: Seq<char>, i: int) -> bool {
    &&& 0 <= i < entries.len()
    &&& entries[i].0@ == name
    &&& absent(entries.take(i), name)
}

/// Gives `name` the value `value`, as a map does: the first entry that
/// bears the name is replaced, and where none does, one is added at the
/// end. Names that were unique stay unique.
pub fn store<T>(entries: &mut Vec<(String, T)>, name: String, value: T)
    ensures
        absent(old(entries)@, name@) ==> final(entries)@ == old(entries)@.push((name, value)),
        forall|i: int|
            first_named(old(entries)@, name@, i) ==> final(entries)@ == old(entries)@.update(
                i,
                (name, value),
            ),
        unique_names(old(entries)@) ==> unique_names(final(entries)@),
{
    let mut i: usize = 0;
    while i < entries.len()
        invariant
            i <= entries.len(),
            entries@ == old(entries)@,
            absent(entries@.take(i as int), name@),
        decreases entries.len() - i,
    {
        if same_text(entries[i].0.as_str(), name.as_str()) {
            proof {
                assert(first_named(entries@, name@, i as int));
                assert forall|k: int| first_named(entries@, name@, k) implies k == i by {
                    if k < i {
                        assert(entries@.take(i as int)[k] == entries@[k]);
                    } else if k > i {
                        assert(entries@.take(k)[i as int] == entries@[i as int]);
                    }
                }
                assert(!absent(entries@, name@));
            }
            entries.set(i, (name, value));
            return;
        }
        proof {
            assert forall|k: int| 0 <= k < i + 1 implies (#[trigger] entries@.take(i + 1)[k]).0@
                != name@ by {
                if k < i {
                    assert(entries@.take(i as int)[k] == entries@[k]);
                }
            }
        }
        i += 1;
    }
    proof {
        assert(entries@.take(entries.len() as int) == entries@);
        assert forall|k: int| !first_named(entries@, name@, k) by {}
    }
    entries.push((name, value));
}

/// How to sign in to a site.
pub enum AuthType {
    /// A bearer token.
    Token(String),
    /// Cookies, as pairs of name and value; no two bear the same name.
    Cookies(Vec<(String, String)>),
}

/// The sign-in records, each with the name of its site; no two bear the same
/// name.
pub struct Config {
    pub auth: Vec<(String, AuthType)>,
}

/// The value of the authorization header that carries `token`.
pub open spec fn bearer(token: Seq<char>) -> Seq<char> {
    "Bearer "@ + token
}

/// One cookie as it is handed to the cookie store.
pub open spec fn cookie(name: Seq<char>, value: Seq<char>) -> Seq<char> {
    name + "="@ + value
}

impl AuthType {
    /// The value of the authorization header, for a token.
    pub fn authorization(&self) -> (header: Option<String>)
        ensures
            match *self {
                AuthType::Token(token) => header.deep_view() == Some(bearer(token@)),
                AuthType::Cookies(_) => header is None,
            },
    {
        match self {
            AuthType::Token(token) => {
                let mut header = String::from_str("Bearer ");
                header.append(token.as_str());
                Some(header)
            },
            AuthType::Cookies(_) => None,
        }
    }

    /// The cookies as they are handed to the cookie store, in order; none
    /// for a token.
    pub fn cookie_strings(&self) -> (cookies: Vec<String>)
        ensures
            match *self {
                AuthType::Token(_) => cookies@.len() == 0,
                AuthType::Cookies(pairs) => {
                    &&& cookies@.len() == pairs@.len()
                    &&& forall|i: int|
                        0 <= i < pairs@.len() ==> (#[trigger] cookies@[i])@ == cookie(
                            pairs@[i].0@,
                            pairs@[i].1@,
                        )
                },
            },
    {
        let mut cookies: Vec<String> = Vec::new();
        match self {
            AuthType::Token(_) => {},
            AuthType::Cookies(pairs) => {
                let mut i: usize = 0;
                while i < pairs.len()
                    invariant
                        i <= pairs.len(),
                        cookies@.len() == i,
                        forall|k: int|
                            0 <= k < i ==> (#[trigger] cookies@[k])@ == cookie(
                                pairs@[k].0@,
                                pairs@[k].1@,
                            ),
                    decreases pairs.len() - i,
                {
                    let mut one = String::from_str(pairs[i].0.as_str());
                    one.append("=");
                    one.append(pairs[i].1.as_str());
                    cookies.push(one);
                    i += 1;
                }
            },
        }
        cookies
    }
}

impl AuthType {
    /// Whether the record is valid: cookies bear different names.
    pub open spec fn wf(&self) -> bool {
        match *self {
            AuthType::Token(_) => true,
            AuthType::Cookies(pairs) => unique_names(pairs@),
        }
    }

    /// A record of cookies from pairs of name and value, where no two pairs
    /// bear the same name; `None` where two do.
    pub fn cookies(pairs: Vec<(String, String)>) -> (auth: Option<AuthType>)
        ensures
            match auth {
                Some(a) => unique_names(pairs@) && a == AuthType::Cookies(pairs) && a.wf(),
                None => !unique_names(pairs@),
            },
    {
        if Self::names_are_unique(&pairs) {
            Some(AuthType::Cookies(pairs))
        } else {
            None
        }
    }

    fn names_are_unique(pairs: &Vec<(String, String)>) -> (unique: bool)
        ensures
            unique == unique_names(pairs@),
    {
        let mut j: usize = 0;
        while j < pairs.len()
            invariant
                j <= pairs.len(),
                unique_names(pairs@.take(j as int)),
            decreases pairs.len() - j,
        {
            let mut i: usize = 0;
            while i < j
                invariant
                    i <= j < pairs.len(),
                    forall|k: int| 0 <= k < i ==> (#[trigger] pairs@[k]).0@ != pairs@[j as int].0@,
                decreases j - i,
            {
                if same_text(pairs[i].0.as_str(), pairs[j].0.as_str()) {
                    return false;
                }
                i += 1;
            }
            proof {
                assert forall|a: int, b: int| 0 <= a < b < j + 1 implies (#[trigger] pairs@.take(
                    j + 1,
                )[a]).0@ != (#[trigger] pairs@.take(j + 1)[b]).0@ by {
                    if b < j {
                        assert(pairs@.take(j as int)[a] == pairs@[a]);
                        assert(pairs@.take(j as int)[b] == pairs@[b]);
                    }
                }
            }
            j += 1;
        }
        assert(pairs@.take(pairs.len() as int) == pairs@);
        true
    }
}

impl Config {
    /// Whether the records are valid: no two bear the same name, and each is
    /// valid in itself.
    pub open spec fn wf(&self) -> bool {
        &&& unique_names(self.auth@)
        &&& forall|i: int| 0 <= i < self.auth@.len() ==> (#[trigger] self.auth@[i]).1.wf()
    }

    /// No records.
    pub fn new() -> (config: Config)
        ensures
            config.wf(),
            config.auth@.len() == 0,
    {
        Config { auth: Vec::new() }
    }

    /// Gives the site `name` the record `auth`, in place of the one it had
    /// if it had one. Valid records stay valid.
    pub fn insert(&mut self, name: String, auth: AuthType)
        ensures
            absent(old(self).auth@, name@) ==> final(self).auth@ == old(self).auth@.push(
                (name, auth),
            ),
            forall|i: int|
                first_named(old(self).auth@, name@, i) ==> final(self).auth@ == old(
                    self,
                ).auth@.update(i, (name, auth)),
            old(self).wf() && auth.wf() ==> final(self).wf(),
    {
        let ghost before = self.auth@;
        store(&mut self.auth, name, auth);
        proof {
            if old(self).wf() && auth.wf() {
                if absent(before, name@) {
                    assert forall|i: int| 0 <= i < self.auth@.len() implies (
                    #[trigger] self.auth@[i]).1.wf() by {
                        if i < before.len() {
                            assert(self.auth@[i] == before[i]);
                        }
                    }
                } else {
                    let k = choose|k: int| 0 <= k < before.len() && (#[trigger] before[k]).0@
                        == name@;
                    lemma_first_named_exists(before, name@, k);
                    let f = choose|f: int| first_named(before, name@, f);
                    assert forall|i: int| 0 <= i < self.auth@.len() implies (
                    #[trigger] self.auth@[i]).1.wf() by {
                        if i != f {
                            assert(self.auth@[i] == before[i]);
                        }
                    }
                }
            }
        }
    }

    /// The sign-in record of the site `name`: that of the first entry that
    /// bears the name, which in valid records is the only one.
    pub fn auth_for(&self, name: &str) -> (found: Option<&AuthType>)
        ensures
            match found {
                Some(auth) => exists|i: int|
                    first_named(self.auth@, name@, i) && self.auth@[i].1 == *auth,
                None => absent(self.auth@, name@),
            },
            self.wf() ==> forall|i: int|
                0 <= i < self.auth@.len() && (#[trigger] self.auth@[i]).0@ == name@ ==> found
                    == Some(&self.auth@[i].1),
    {
        let mut i: usize = 0;
        while i < self.auth.len()
            invariant
                i <= self.auth.len(),
                absent(self.auth@.take(i as int), name@),
            decreases self.auth.len() - i,
        {
            if same_text(self.auth[i].0.as_str(), name) {
                proof {
                    assert(first_named(self.auth@, name@, i as int));
                    assert forall|k: int|
                        self.wf() && 0 <= k < self.auth@.len() && (#[trigger] self.auth@[k]).0@
                            == name@ implies k == i by {
                        if k != i {
                            assert(self.auth@[i as int].0@ == self.auth@[k].0@);
                        }
                    }
                }
                return Some(&self.auth[i].1);
            }
            proof {
                assert forall|k: int| 0 <= k < i + 1 implies (#[trigger] self.auth@.take(
                    i + 1,
                )[k]).0@ != name@ by {
                    if k < i {
                        assert(self.auth@.take(i as int)[k] == self.auth@[k]);
                    }
                }
            }
            i += 1;
        }
        assert(self.auth@.take(self.auth.len() as int) == self.auth@);
        None
    }
}

/// Where an entry bears a name, one is the first to bear it.
pub proof fn lemma_first_named_exists<T>(entries: Seq<(String, T)>, name: Seq<char>, k: int)
    requires
        0 <= k < entries.len(),
        entries[k].0@ == name,
    ensures
        exists|f: int| first_named(entries, name, f),
    decreases k,
{
    if absent(entries.take(k), name) {
        assert(first_named(entries, name, k));
    } else {
        let j = choose|j: int| 0 <= j < entries.take(k).len() && (#[trigger] entries.take(k)[j]).0@
            == name;
        assert(entries.take(k)[j] == entries[j]);
        lemma_first_named_exists(entries, name, j);
    }
}

/// How many requests a site takes in a window of time.
#[derive(Clone, Copy, Debug, PartialEq, Eq)]
pub struct RateLimit {
    /// Requests in one window.
    pub num: u64,
    /// Length of the window, in seconds.
    pub secs: u64,
}

impl Default for RateLimit {
    /// No limit to speak of: as many requests a second as can be counted.
    fn default() -> (limit: RateLimit)
        ensures
            limit.num == u64::MAX,
            limit.secs == 1,
    {
        RateLimit { num: u64::MAX, secs: 1 }
    }
}

/// The number of requests in flight that a site takes if none is configured.
pub fn default_concurrency_limit() -> (limit: usize)
    ensures
        limit == usize::MAX,
{
    usize::MAX
}

/// What is configured for one site.
pub struct SiteConfig {
    pub name: String,
    pub rate_limit: RateLimit,
    /// The host to name as referer, where the site wants another than its
    /// own address.
    pub host: Option<String>,
    pub concurrency_limit: usize,
    pub base_url: String,
    pub lang: String,
    pub book: BookExtractor,
}

impl SiteConfig {
    /// The rules for chapters: those of the volumes if volumes are
    /// configured, else those of the book, if it has any.
    pub open spec fn chapter_config(&self) -> Option<ChapterExtractor> {
        match self.book.volumes {
            Some(volumes) => Some(volumes.chapters),
            None => self.book.chapters,
        }
    }

    /// Whether the site's chapters are read page by page, each page naming
    /// the next.
    pub open spec fn is_sequential(&self) -> bool {
        match self.chapter_config() {
            Some(rule) => rule.content.next_url is Some,
            None => false,
        }
    }

    pub fn get_book_config(&self) -> (book: &BookExtractor)
        ensures
            *book == self.book,
    {
        &self.book
    }

    pub fn get_chapter_config(&self) -> (rule: Option<&ChapterExtractor>)
        ensures
            match rule {
                Some(r) => self.chapter_config() == Some(*r),
                None => self.chapter_config() is None,
            },
    {
        match &self.book.volumes {
            Some(volume_extractor) => Some(&volume_extractor.chapters),
            None => match &self.book.chapters {
                Some(chapter_extractor) => Some(chapter_extractor),
                None => None,
            },
        }
    }

    /// Whether the site's chapters are read page by page.
    pub fn sequential(&self) -> (r: bool)
        ensures
            r == self.is_sequential(),
    {
        match self.get_chapter_config() {
            Some(rule) => rule.content.next_url.is_some(),
            None => false,
        }
    }

    /// The referer to send with image requests: the configured host if there
    /// is one, else `base`.
    pub fn referer(&self, base: &str) -> (r: String)
        ensures
            r@ == match self.host {
                Some(host) => host@,
                None => base@,
            },
    {
        match &self.host {
            Some(host) => host.clone(),
            None => String::from_str(base),
        }
    }
}

} // verus!
