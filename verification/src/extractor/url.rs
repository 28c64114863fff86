//! The rule that reads addresses.

use vstd::prelude::*;
use linkify::LinkFinder;
use scraper::ElementRef;
use crate::extractor::attr::Attr;
use crate::extractor::{Value, ValueView};
use crate::text::same_text;

verus! {

/// The links that `LinkFinder::links` finds in a text, in order; the flag is
/// what the finder's `url_must_have_scheme` is set to.
pub uninterp spec fn links(text: Seq<char>, must_have_scheme: bool) -> Seq<Seq<char>>;

/// Trusted: what `LinkFinder::links` yields, each link's text copied, in
/// order. It depends on the text and the flag alone.
#[verifier::external_body]
pub(crate) fn find_links(text: &str, must_have_scheme: bool) -> (found: Vec<String>)
    ensures
        found.deep_view() == links(text@, must_have_scheme),
{
    let mut finder = LinkFinder::new();
    finder.url_must_have_scheme(must_have_scheme);
    finder.links(text).map(|l| l.as_str().to_string()).collect()
}

/// The links found in each of `texts`, in order; a scheme is not required.
pub open spec fn all_links(texts: Seq<Seq<char>>) -> Seq<Seq<char>>
    decreases texts.len(),
{
    if texts.len() == 0 {
        Seq::empty()
    } else {
        all_links(texts.drop_last()) + links(texts.last(), false)
    }
}

/// The value of a list of addresses: none, one, or several.
pub open spec fn of_addresses(addresses: Seq<Seq<char>>) -> ValueView {
    if addresses.len() == 0 {
        ValueView::Empty
    } else if addresses.len() == 1 {
        ValueView::Single(addresses[0])
    } else {
        ValueView::Multiple(addresses)
    }
}

/// Whether an attribute holds a link by its nature.
pub open spec fn is_link_attribute(name: Seq<char>) -> bool {
    name == "href"@ || name == "src"@
}

/// The links found in each of `texts`, in order.
pub fn links_in(texts: &Vec<String>) -> (found: Vec<String>)
    ensures
        found.deep_view() == all_links(texts.deep_view()),
{
    let mut found: Vec<String> = Vec::new();
    assert(found.deep_view() =~= Seq::empty());
    let mut i: usize = 0;
    while i < texts.len()
        invariant
            i <= texts.len(),
            found.deep_view() == all_links(texts.deep_view().take(i as int)),
        decreases texts.len() - i,
    {
        proof {
            let all = texts.deep_view();
            assert(all.take(i + 1).drop_last() == all.take(i as int));
            assert(all.take(i + 1).last() == texts[i as int]@);
        }
        let here = find_links(texts[i].as_str(), false);
        crate::extractor::extend_texts(&mut found, &here);
        i += 1;
    }
    assert(texts.deep_view().take(texts.len() as int) == texts.deep_view());
    found
}

/// The value of a list of addresses: `Empty` for none, `Single` for one,
/// `Multiple` for more.
pub fn from_addresses(mut addresses: Vec<String>) -> (value: Value)
    ensures
        value@ == of_addresses(addresses.deep_view()),
{
    if addresses.len() == 0 {
        Value::Empty
    } else if addresses.len() == 1 {
        let ghost all = addresses.deep_view();
        let only = addresses.pop();
        match only {
            Some(address) => {
                assert(address@ == all[0]);
                Value::Single(address)
            },
            None => Value::Empty,
        }
    } else {
        Value::Multiple(addresses)
    }
}

/// Reads addresses through `inner`. A link attribute is taken as it stands;
/// any other text is searched for the addresses it holds.
pub struct Url {
    pub inner: Attr,
}

impl Url {
    /// A rule made of its parts.
    pub fn new(inner: Attr) -> (rule: Url)
        ensures
            rule.inner == inner,
    {
        Url { inner }
    }

    /// What `inner` yields if it reads a link attribute, else the addresses
    /// found in what it yields.
    pub open spec fn extracted(&self, element: ElementRef<'_>) -> ValueView {
        if is_link_attribute(self.inner.name@) {
            self.inner.extracted(element)
        } else {
            of_addresses(all_links(self.inner.extracted(element).texts()))
        }
    }

    /// The addresses found in what `inner` yields over every match.
    pub open spec fn extracted_all(&self, element: ElementRef<'_>) -> ValueView {
        ValueView::of_texts(all_links(self.inner.extracted_all(element).texts()))
    }

    /// Applies the rule to `element`.
    pub fn extract(&self, element: ElementRef<'_>) -> (value: Value)
        ensures
            value@ == self.extracted(element),
    {
        let value = self.inner.extract(element);
        if same_text(self.inner.name.as_str(), "href") || same_text(
            self.inner.name.as_str(),
            "src",
        ) {
            return value;
        }
        let texts = value.into_texts();
        from_addresses(links_in(&texts))
    }

    /// Applies the rule to `element`, over every match.
    pub fn extract_all(&self, element: ElementRef<'_>) -> (value: Value)
        ensures
            value@ == self.extracted_all(element),
    {
        let texts = self.inner.extract_all(element).into_texts();
        Value::from_texts(links_in(&texts))
    }
}

} // verus!
