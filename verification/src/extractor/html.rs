//! The rule that reads markup.

use vstd::prelude::*;
use scraper::{ElementRef, Selector};
use crate::dom::{html, markup, selected, select};
use crate::extractor::{first, first_of, Value, ValueView};

verus! {

/// Reads the markup of what `selector` finds, so that what is embedded in
/// the text, such as images, is kept.
pub struct Markup {
    pub selector: Selector,
}

impl Markup {
    /// A rule made of its parts.
    pub fn new(selector: Selector) -> (rule: Markup)
        ensures
            rule.selector == selector,
    {
        Markup { selector }
    }

    /// The markup of the first match, if there is one.
    pub open spec fn extracted(&self, element: ElementRef<'_>) -> ValueView {
        match first(selected(element, self.selector)) {
            Some(target) => ValueView::Single(markup(target)),
            None => ValueView::Empty,
        }
    }

    /// The markup of every match.
    pub open spec fn extracted_all(&self, element: ElementRef<'_>) -> ValueView {
        ValueView::of_texts(
            selected(element, self.selector).map_values(|e: ElementRef<'_>| markup(e)),
        )
    }

    /// Applies the rule to `element`.
    pub fn extract(&self, element: ElementRef<'_>) -> (value: Value)
        ensures
            value@ == self.extracted(element),
    {
        let found = select(element, &self.selector);
        match first_of(&found) {
            Some(target) => Value::Single(html(target)),
            None => Value::Empty,
        }
    }

    /// Applies the rule to `element`, over every match.
    pub fn extract_all(&self, element: ElementRef<'_>) -> (value: Value)
        ensures
            value@ == self.extracted_all(element),
    {
        let found = select(element, &self.selector);
        let mut results: Vec<String> = Vec::new();
        let mut i: usize = 0;
        while i < found.len()
            invariant
                i <= found.len(),
                results.len() == i,
                forall|k: int| 0 <= k < i ==> (#[trigger] results[k])@ == markup(found[k]),
            decreases found.len() - i,
        {
            results.push(html(found[i]));
            i += 1;
        }
        assert(results.deep_view() =~= found@.map_values(|e: ElementRef<'_>| markup(e)));
        Value::from_texts(results)
    }
}

} // verus!
