//! Extraction rules: each turns an element of a parsed document into a
//! [`Value`].

pub mod attr;
pub mod combine;
pub mod current;
pub mod html;
pub mod list;
pub mod next;
pub mod text;
pub mod url;

use vstd::prelude::*;
use regex::Regex;
use scraper::{ElementRef, Selector};
use crate::dom::{
    adjacent_element, attribute, following_element, next_sibling, next_sibling_element, select,
    selected, text_nodes, texts,
};
use crate::extractor::attr::Attr;
use crate::extractor::combine::Combine;
use crate::extractor::current::Current;
use crate::extractor::html::Markup;
use crate::extractor::list::List;
use crate::extractor::next::Next;
use crate::extractor::text::Text;
use crate::extractor::url::Url;
use crate::text::{
    any_contains, concat, concat_texts, is_blank, replace_all, replaced, texts_contain, trim,
};

verus! {

/// What an extraction yields: nothing, one text, or texts in order.
#[derive(Debug, PartialEq)]
pub enum Value {
    Empty,
    Single(String),
    Multiple(Vec<String>),
}

/// What an extraction yields, as plain values.
pub enum ValueView {
    Empty,
    Single(Seq<char>),
    Multiple(Seq<Seq<char>>),
}

impl View for Value {
    type V = ValueView;

    open spec fn view(&self) -> ValueView {
        match self {
            Value::Empty => ValueView::Empty,
            Value::Single(text) => ValueView::Single(text@),
            Value::Multiple(texts) => ValueView::Multiple(texts.deep_view()),
        }
    }
}

impl ValueView {
    /// The texts that the value holds, in order.
    pub open spec fn texts(self) -> Seq<Seq<char>> {
        match self {
            ValueView::Empty => Seq::empty(),
            ValueView::Single(text) => seq![text],
            ValueView::Multiple(texts) => texts,
        }
    }

    /// The value of a list of texts: nothing if there are none, else all of
    /// them.
    pub open spec fn of_texts(texts: Seq<Seq<char>>) -> ValueView {
        if texts.len() == 0 {
            ValueView::Empty
        } else {
            ValueView::Multiple(texts)
        }
    }

    /// The value of an optional text.
    pub open spec fn of_option(text: Option<Seq<char>>) -> ValueView {
        match text {
            Some(t) => ValueView::Single(t),
            None => ValueView::Empty,
        }
    }

    /// Two values as one: merging with nothing changes nothing; otherwise the
    /// texts of the first, then those of the second.
    pub open spec fn merged(self, other: ValueView) -> ValueView {
        if self is Empty {
            other
        } else if other is Empty {
            self
        } else {
            ValueView::Multiple(self.texts() + other.texts())
        }
    }
}

/// Merging nothing with a value, from either side, yields that value.
pub proof fn lemma_merge_with_empty(value: ValueView)
    ensures
        ValueView::Empty.merged(value) == value,
        value.merged(ValueView::Empty) == value,
{
}

/// Merging two lists of texts yields the texts of the first, then those of
/// the second.
pub proof fn lemma_merge_keeps_order(first: Seq<Seq<char>>, second: Seq<Seq<char>>)
    ensures
        ValueView::Multiple(first).merged(ValueView::Multiple(second)) == ValueView::Multiple(
            first + second,
        ),
{
}

/// Merging drops no text: the merged value holds the texts of the first
/// value, then those of the second, a single text like any other.
pub proof fn lemma_merge_drops_nothing(first: ValueView, second: ValueView)
    ensures
        first.merged(second).texts() == first.texts() + second.texts(),
{
    assert(first.merged(second).texts() =~= first.texts() + second.texts());
}

/// Appends copies of the texts of `tail` to `texts`.
pub fn extend_texts(texts: &mut Vec<String>, tail: &Vec<String>)
    ensures
        final(texts).deep_view() == old(texts).deep_view() + tail.deep_view(),
{
    let mut i: usize = 0;
    while i < tail.len()
        invariant
            i <= tail.len(),
            texts.deep_view() == old(texts).deep_view() + tail.deep_view().take(i as int),
        decreases tail.len() - i,
    {
        let ghost before = texts.deep_view();
        texts.push(tail[i].clone());
        assert(texts.deep_view() =~= before.push(tail[i as int]@));
        assert(tail.deep_view().take(i + 1) =~= tail.deep_view().take(i as int).push(
            tail[i as int]@,
        ));
        i += 1;
    }
    assert(tail.deep_view().take(tail.len() as int) == tail.deep_view());
}

impl Value {
    /// The value of a list of texts: `Empty` if there are none, else
    /// `Multiple`.
    pub fn from_texts(texts: Vec<String>) -> (value: Value)
        ensures
            value@ == ValueView::of_texts(texts.deep_view()),
    {
        if texts.len() == 0 {
            Value::Empty
        } else {
            Value::Multiple(texts)
        }
    }

    /// The value of an optional text: `Single` if there is one, else `Empty`.
    pub fn from_option(text: Option<String>) -> (value: Value)
        ensures
            value@ == ValueView::of_option(text.deep_view()),
    {
        match text {
            Some(t) => Value::Single(t),
            None => Value::Empty,
        }
    }

    /// The texts that the value holds, in order.
    pub fn into_texts(self) -> (texts: Vec<String>)
        ensures
            texts.deep_view() == self@.texts(),
    {
        match self {
            Value::Empty => {
                let texts: Vec<String> = Vec::new();
                assert(texts.deep_view() =~= Seq::empty());
                texts
            },
            Value::Single(text) => {
                let mut texts: Vec<String> = Vec::new();
                texts.push(text);
                assert(texts.deep_view() =~= seq![text@]);
                texts
            },
            Value::Multiple(texts) => texts,
        }
    }

    /// Appends the texts of `self` to `texts`; none is dropped.
    pub fn append_to(self, texts: &mut Vec<String>)
        ensures
            final(texts).deep_view() == old(texts).deep_view() + self@.texts(),
    {
        let own = self.into_texts();
        extend_texts(texts, &own);
    }

    /// Two values as one. Merging `Empty` with a value yields that value;
    /// otherwise the result holds the texts of `self`, then those of `other`.
    pub fn merge(self, other: Value) -> (value: Value)
        ensures
            value@ == self@.merged(other@),
    {
        match self {
            Value::Empty => other,
            first => match other {
                Value::Empty => first,
                second => {
                    let mut texts = first.into_texts();
                    second.append_to(&mut texts);
                    Value::Multiple(texts)
                },
            },
        }
    }
}

/// The elements that a rule looks at: the matches of its selector under
/// `element` if it has one, else `element` itself.
pub open spec fn targets(element: ElementRef<'_>, selector: Option<Selector>) -> Seq<
    ElementRef<'_>,
> {
    match selector {
        Some(s) => selected(element, s),
        None => seq![element],
    }
}

/// The first of `elements`, if there is one.
pub open spec fn first(elements: Seq<ElementRef<'_>>) -> Option<ElementRef<'_>> {
    if elements.len() > 0 {
        Some(elements[0])
    } else {
        None
    }
}

/// The text under an element: its text nodes written one after another.
pub open spec fn full_text(element: ElementRef<'_>) -> Seq<char> {
    concat(text_nodes(element))
}

/// Whether an element meets a condition: one of its text nodes contains the
/// required fragment. No condition is met by every element.
pub open spec fn qualifies(element: ElementRef<'_>, condition: Option<Seq<char>>) -> bool {
    match condition {
        Some(fragment) => any_contains(text_nodes(element), fragment),
        None => true,
    }
}

/// Those of `elements` that meet `condition`, in order.
pub open spec fn qualifying(elements: Seq<ElementRef<'_>>, condition: Option<Seq<char>>) -> Seq<
    ElementRef<'_>,
>
    decreases elements.len(),
{
    if elements.len() == 0 {
        Seq::empty()
    } else if qualifies(elements.last(), condition) {
        qualifying(elements.drop_last(), condition).push(elements.last())
    } else {
        qualifying(elements.drop_last(), condition)
    }
}

/// The sibling that follows an element: the node right after it if
/// `adjacent`, else the next one that is an element.
pub open spec fn sibling(element: ElementRef<'_>, adjacent: bool) -> Option<ElementRef<'_>> {
    if adjacent {
        adjacent_element(element)
    } else {
        following_element(element)
    }
}

/// The siblings of those of `elements` that have one, in order.
pub open spec fn siblings(elements: Seq<ElementRef<'_>>, adjacent: bool) -> Seq<ElementRef<'_>>
    decreases elements.len(),
{
    if elements.len() == 0 {
        Seq::empty()
    } else {
        match sibling(elements.last(), adjacent) {
            Some(next) => siblings(elements.drop_last(), adjacent).push(next),
            None => siblings(elements.drop_last(), adjacent),
        }
    }
}

/// The values of the attribute `name` on those of `elements` that have it, in
/// order.
pub open spec fn attributes(elements: Seq<ElementRef<'_>>, name: Seq<char>) -> Seq<Seq<char>>
    decreases elements.len(),
{
    if elements.len() == 0 {
        Seq::empty()
    } else {
        match attribute(elements.last(), name) {
            Some(value) => attributes(elements.drop_last(), name).push(value),
            None => attributes(elements.drop_last(), name),
        }
    }
}

/// The elements that a rule looks at.
pub fn targets_of<'a>(element: ElementRef<'a>, selector: &Option<Selector>) -> (found: Vec<
    ElementRef<'a>,
>)
    ensures
        found@ == targets(element, *selector),
{
    match selector {
        Some(s) => select(element, s),
        None => {
            let mut found: Vec<ElementRef<'a>> = Vec::new();
            found.push(element);
            assert(found@ =~= seq![element]);
            found
        },
    }
}

/// The first of `elements`, if there is one.
pub fn first_of<'a>(elements: &Vec<ElementRef<'a>>) -> (found: Option<ElementRef<'a>>)
    ensures
        found == first(elements@),
{
    if elements.len() > 0 {
        Some(elements[0])
    } else {
        None
    }
}

/// The text under an element.
pub fn text_of(element: ElementRef<'_>) -> (text: String)
    ensures
        text@ == full_text(element),
{
    let nodes = texts(element);
    concat_texts(&nodes)
}

/// Whether an element meets a condition.
pub fn meets(element: ElementRef<'_>, condition: &Option<String>) -> (met: bool)
    ensures
        met == qualifies(element, condition.deep_view()),
{
    match condition {
        Some(fragment) => {
            let nodes = texts(element);
            texts_contain(&nodes, fragment.as_str())
        },
        None => true,
    }
}

/// Those of `elements` that meet `condition`, in order.
pub fn qualifying_of<'a>(elements: &Vec<ElementRef<'a>>, condition: &Option<String>) -> (found:
    Vec<ElementRef<'a>>)
    ensures
        found@ == qualifying(elements@, condition.deep_view()),
{
    let mut found: Vec<ElementRef<'a>> = Vec::new();
    let mut i: usize = 0;
    while i < elements.len()
        invariant
            i <= elements.len(),
            found@ == qualifying(elements@.take(i as int), condition.deep_view()),
        decreases elements.len() - i,
    {
        assert(elements@.take(i + 1).drop_last() == elements@.take(i as int));
        if meets(elements[i], condition) {
            found.push(elements[i]);
        }
        i += 1;
    }
    assert(elements@.take(elements.len() as int) == elements@);
    found
}

/// The siblings of those of `elements` that have one, in order.
pub fn siblings_of<'a>(elements: &Vec<ElementRef<'a>>, adjacent: bool) -> (found: Vec<
    ElementRef<'a>,
>)
    ensures
        found@ == siblings(elements@, adjacent),
{
    let mut found: Vec<ElementRef<'a>> = Vec::new();
    let mut i: usize = 0;
    while i < elements.len()
        invariant
            i <= elements.len(),
            found@ == siblings(elements@.take(i as int), adjacent),
        decreases elements.len() - i,
    {
        assert(elements@.take(i + 1).drop_last() == elements@.take(i as int));
        let next = if adjacent {
            next_sibling(elements[i])
        } else {
            next_sibling_element(elements[i])
        };
        match next {
            Some(n) => {
                found.push(n);
            },
            None => {},
        }
        i += 1;
    }
    assert(elements@.take(elements.len() as int) == elements@);
    found
}

/// A rule that turns an element into a value. Rules nest: a rule that
/// locates elements hands each to the rule it holds.
pub enum Extractor {
    Attr(Attr),
    Text(Text),
    List(List),
    Next(Next),
    Current(Current),
    Combine(Combine),
    Html(Markup),
    Url(Url),
}

impl Extractor {
    /// What the rule yields for `element`.
    pub open spec fn extracted(&self, element: ElementRef<'_>) -> ValueView
        decreases self, 0nat,
    {
        match self {
            Extractor::Attr(rule) => rule.extracted(element),
            Extractor::Text(rule) => rule.extracted(element),
            Extractor::List(rule) => rule.extracted(element),
            Extractor::Next(rule) => rule.extracted(element),
            Extractor::Current(rule) => rule.extracted(element),
            Extractor::Combine(rule) => rule.extracted(element),
            Extractor::Html(rule) => rule.extracted(element),
            Extractor::Url(rule) => rule.extracted(element),
        }
    }

    /// What the rule yields for `element`, over every match.
    pub open spec fn extracted_all(&self, element: ElementRef<'_>) -> ValueView
        decreases self, 0nat,
    {
        match self {
            Extractor::Attr(rule) => rule.extracted_all(element),
            Extractor::Text(rule) => rule.extracted_all(element),
            Extractor::List(rule) => rule.extracted_all(element),
            Extractor::Next(rule) => rule.extracted_all(element),
            Extractor::Current(rule) => rule.extracted_all(element),
            Extractor::Combine(rule) => rule.extracted_all(element),
            Extractor::Html(rule) => rule.extracted_all(element),
            Extractor::Url(rule) => rule.extracted_all(element),
        }
    }

    /// The texts that the rule yields for each of `elements`, in order.
    pub open spec fn gathered(&self, elements: Seq<ElementRef<'_>>) -> Seq<Seq<char>>
        decreases self, elements.len() + 1,
    {
        if elements.len() == 0 {
            Seq::empty()
        } else {
            self.gathered(elements.drop_last()) + self.extracted(elements.last()).texts()
        }
    }

    /// The texts that the rule yields over every match for each of
    /// `elements`, in order.
    pub open spec fn gathered_all(&self, elements: Seq<ElementRef<'_>>) -> Seq<Seq<char>>
        decreases self, elements.len() + 1,
    {
        if elements.len() == 0 {
            Seq::empty()
        } else {
            self.gathered_all(elements.drop_last()) + self.extracted_all(elements.last()).texts()
        }
    }

    /// Applies the rule to `element`.
    pub fn extract(&self, element: ElementRef<'_>) -> (value: Value)
        ensures
            value@ == self.extracted(element),
        decreases self, 0nat,
    {
        match self {
            Extractor::Attr(rule) => rule.extract(element),
            Extractor::Text(rule) => rule.extract(element),
            Extractor::List(rule) => rule.extract(element),
            Extractor::Next(rule) => rule.extract(element),
            Extractor::Current(rule) => rule.extract(element),
            Extractor::Combine(rule) => rule.extract(element),
            Extractor::Html(rule) => rule.extract(element),
            Extractor::Url(rule) => rule.extract(element),
        }
    }

    /// Applies the rule to `element`, over every match.
    pub fn extract_all(&self, element: ElementRef<'_>) -> (value: Value)
        ensures
            value@ == self.extracted_all(element),
        decreases self, 0nat,
    {
        match self {
            Extractor::Attr(rule) => rule.extract_all(element),
            Extractor::Text(rule) => rule.extract_all(element),
            Extractor::List(rule) => rule.extract_all(element),
            Extractor::Next(rule) => rule.extract_all(element),
            Extractor::Current(rule) => rule.extract_all(element),
            Extractor::Combine(rule) => rule.extract_all(element),
            Extractor::Html(rule) => rule.extract_all(element),
            Extractor::Url(rule) => rule.extract_all(element),
        }
    }

    /// Applies the rule to each of `elements` and collects the texts.
    pub fn gather(&self, elements: &Vec<ElementRef<'_>>) -> (found: Vec<String>)
        ensures
            found.deep_view() == self.gathered(elements@),
        decreases self, elements.len() + 1,
    {
        let mut found: Vec<String> = Vec::new();
        assert(found.deep_view() =~= Seq::empty());
        let mut i: usize = 0;
        while i < elements.len()
            invariant
                i <= elements.len(),
                found.deep_view() == self.gathered(elements@.take(i as int)),
            decreases elements.len() - i,
        {
            assert(elements@.take(i + 1).drop_last() == elements@.take(i as int));
            let value = self.extract(elements[i]);
            value.append_to(&mut found);
            i += 1;
        }
        assert(elements@.take(elements.len() as int) == elements@);
        found
    }

    /// Applies the rule over every match to each of `elements` and collects
    /// the texts.
    pub fn gather_all(&self, elements: &Vec<ElementRef<'_>>) -> (found: Vec<String>)
        ensures
            found.deep_view() == self.gathered_all(elements@),
        decreases self, elements.len() + 1,
    {
        let mut found: Vec<String> = Vec::new();
        assert(found.deep_view() =~= Seq::empty());
        let mut i: usize = 0;
        while i < elements.len()
            invariant
                i <= elements.len(),
                found.deep_view() == self.gathered_all(elements@.take(i as int)),
            decreases elements.len() - i,
        {
            assert(elements@.take(i + 1).drop_last() == elements@.take(i as int));
            let value = self.extract_all(elements[i]);
            value.append_to(&mut found);
            i += 1;
        }
        assert(elements@.take(elements.len() as int) == elements@);
        found
    }
}

/// The text of a mandatory field: the value must be a single text that is
/// not blank.
pub open spec fn mandatory(value: ValueView) -> Option<Seq<char>> {
    match value {
        ValueView::Single(text) => if is_blank(text) {
            None
        } else {
            Some(text)
        },
        _ => None,
    }
}

/// The text of an optional field: the value's text if it is a single one.
pub open spec fn single(value: ValueView) -> Option<Seq<char>> {
    match value {
        ValueView::Single(text) => Some(text),
        _ => None,
    }
}

/// What an optional rule yields: nothing where there is no rule.
pub open spec fn optional(rule: Option<Extractor>, element: ElementRef<'_>) -> ValueView {
    match rule {
        Some(r) => r.extracted(element),
        None => ValueView::Empty,
    }
}

impl Value {
    /// The text of a mandatory field, or `None` where the value is not a
    /// single text or the text is blank.
    pub fn into_mandatory(self) -> (text: Option<String>)
        ensures
            text.deep_view() == mandatory(self@),
    {
        match self {
            Value::Single(t) => {
                if trim(t.as_str()).as_str().is_empty() {
                    None
                } else {
                    Some(t)
                }
            },
            _ => None,
        }
    }

    /// The text of an optional field.
    pub fn into_single(self) -> (text: Option<String>)
        ensures
            text.deep_view() == single(self@),
    {
        match self {
            Value::Single(t) => Some(t),
            _ => None,
        }
    }
}

/// Applies an optional rule to `element`.
pub fn extract_optional(rule: &Option<Extractor>, element: ElementRef<'_>) -> (value: Value)
    ensures
        value@ == optional(*rule, element),
{
    match rule {
        Some(r) => r.extract(element),
        None => Value::Empty,
    }
}

/// A compiled regular expression: `regex::Regex`.
#[verifier::external_type_specification]
#[verifier::external_body]
pub struct ExRegex(Regex);

/// The expression that `Regex::new` compiles from a pattern, if it compiles.
pub uninterp spec fn compiled(pattern: Seq<char>) -> Option<Regex>;

/// Whether `Regex::is_match` finds a match of the expression in a text.
pub uninterp spec fn finds(expression: Regex, text: Seq<char>) -> bool;

/// Trusted: the result of `Regex::new`, which depends on the pattern alone;
/// its error is dropped.
#[verifier::external_body]
pub(crate) fn compile(pattern: &str) -> (expression: Option<Regex>)
    ensures
        expression == compiled(pattern@),
{
    Regex::new(pattern).ok()
}

/// Trusted: the result of `Regex::is_match`, which depends on the expression
/// and the text alone.
#[verifier::external_body]
pub(crate) fn is_match(expression: &Regex, text: &str) -> (found: bool)
    ensures
        found == finds(*expression, text@),
{
    expression.is_match(text)
}

/// The rules for a chapter's page: where the content is, how to read it, and
/// how to go on where a site spreads its chapters over a chain of pages.
pub struct ContentExtractor {
    pub this: Selector,
    pub paragraphs: Extractor,
    /// Where the next page is; only sites read page by page have it.
    pub next_url: Option<Extractor>,
    /// The expression that a page's title matches when the page goes on
    /// with the current chapter; `{title}` in it stands for that chapter's
    /// title.
    pub title_pattern: String,
    pub title: Option<Extractor>,
}

/// The title pattern of a site that gives none.
pub fn default_title_pattern() -> (pattern: String)
    ensures
        pattern@ == r#"^体育祭开幕(（\d+/\d+）)?$"#@,
{
    r#"^体育祭开幕(（\d+/\d+）)?$"#.to_owned()
}

impl ContentExtractor {
    /// The title pattern with `title` in place of `{title}`.
    pub open spec fn pattern_for(&self, title: Seq<char>) -> Seq<char> {
        replaced(self.title_pattern@, "{title}"@, title)
    }

    /// Whether `target` is the title of a page that goes on with the chapter
    /// titled `title`, if the pattern compiles.
    pub open spec fn title_matches(&self, title: Seq<char>, target: Seq<char>) -> Option<bool> {
        match compiled(self.pattern_for(title)) {
            Some(expression) => Some(finds(expression, target)),
            None => None,
        }
    }

    pub fn extract_paragraphs(&self, this: ElementRef<'_>) -> (value: Value)
        ensures
            value@ == self.paragraphs.extracted(this),
    {
        self.paragraphs.extract(this)
    }

    pub fn extract_next_url(&self, this: ElementRef<'_>) -> (value: Value)
        ensures
            value@ == optional(self.next_url, this),
    {
        extract_optional(&self.next_url, this)
    }

    pub fn extract_title(&self, this: ElementRef<'_>) -> (value: Value)
        ensures
            value@ == optional(self.title, this),
    {
        extract_optional(&self.title, this)
    }

    /// Whether `target` is the title of a page that goes on with the chapter
    /// titled `title`. The pattern made for `title` must compile.
    pub fn matches_title(&self, title: &str, target: &str) -> (r: bool)
        requires
            compiled(self.pattern_for(title@)) is Some,
        ensures
            self.title_matches(title@, target@) == Some(r),
    {
        let pattern = replace_all(self.title_pattern.as_str(), "{title}", title);
        match compile(pattern.as_str()) {
            Some(expression) => is_match(&expression, target),
            None => false,
        }
    }

    /// As `matches_title`, for any pattern: `None` where the pattern made
    /// for `title` does not compile.
    pub fn try_matches_title(&self, title: &str, target: &str) -> (r: Option<bool>)
        ensures
            r == self.title_matches(title@, target@),
    {
        let pattern = replace_all(self.title_pattern.as_str(), "{title}", title);
        match compile(pattern.as_str()) {
            Some(_) => Some(self.matches_title(title, target)),
            None => None,
        }
    }
}

/// The rules for one chapter in a table of contents.
pub struct ChapterExtractor {
    pub this: Selector,
    pub title: Extractor,
    pub content_url: Extractor,
    pub content: ContentExtractor,
}

impl ChapterExtractor {
    pub fn extract_title(&self, this: ElementRef<'_>) -> (value: Value)
        ensures
            value@ == self.title.extracted(this),
    {
        self.title.extract(this)
    }

    pub fn extract_content_url(&self, this: ElementRef<'_>) -> (value: Value)
        ensures
            value@ == self.content_url.extracted(this),
    {
        self.content_url.extract(this)
    }
}

/// The rules for one volume in a table of contents.
pub struct VolumeExtractor {
    pub this: Selector,
    pub title: Extractor,
    pub cover_url: Option<Extractor>,
    pub chapters: ChapterExtractor,
}

impl VolumeExtractor {
    pub fn extract_title(&self, this: ElementRef<'_>) -> (value: Value)
        ensures
            value@ == self.title.extracted(this),
    {
        self.title.extract(this)
    }

    pub fn extract_cover_url(&self, this: ElementRef<'_>) -> (value: Value)
        ensures
            value@ == optional(self.cover_url, this),
    {
        extract_optional(&self.cover_url, this)
    }

    /// The chapter elements of a volume, in document order.
    pub fn chapter_iter<'a>(&self, this: ElementRef<'a>) -> (found: Vec<ElementRef<'a>>)
        ensures
            found@ == selected(this, self.chapters.this),
    {
        select(this, &self.chapters.this)
    }
}

/// The rules for a book's page.
pub struct BookExtractor {
    pub this: Selector,
    pub title: Extractor,
    pub author: Extractor,
    pub illustrator: Option<Extractor>,
    pub tags: Option<Extractor>,
    pub summary: Option<Extractor>,
    pub cover_url: Option<Extractor>,
    pub volumes: Option<VolumeExtractor>,
    pub chapters: Option<ChapterExtractor>,
}

impl BookExtractor {
    /// The book's element: the first match under `element`.
    pub fn this<'a>(&self, element: ElementRef<'a>) -> (found: Option<ElementRef<'a>>)
        ensures
            found == first(selected(element, self.this)),
    {
        let all = select(element, &self.this);
        first_of(&all)
    }

    pub fn extract_title(&self, this: ElementRef<'_>) -> (value: Value)
        ensures
            value@ == self.title.extracted(this),
    {
        self.title.extract(this)
    }

    pub fn extract_author(&self, this: ElementRef<'_>) -> (value: Value)
        ensures
            value@ == self.author.extracted(this),
    {
        self.author.extract(this)
    }

    pub fn extract_illustrator(&self, this: ElementRef<'_>) -> (value: Value)
        ensures
            value@ == optional(self.illustrator, this),
    {
        extract_optional(&self.illustrator, this)
    }

    pub fn extract_tags(&self, this: ElementRef<'_>) -> (value: Value)
        ensures
            value@ == optional(self.tags, this),
    {
        extract_optional(&self.tags, this)
    }

    pub fn extract_summary(&self, this: ElementRef<'_>) -> (value: Value)
        ensures
            value@ == optional(self.summary, this),
    {
        extract_optional(&self.summary, this)
    }

    pub fn extract_cover_url(&self, this: ElementRef<'_>) -> (value: Value)
        ensures
            value@ == optional(self.cover_url, this),
    {
        extract_optional(&self.cover_url, this)
    }
}

} // verus!
