//! The rule that reads text.

use vstd::prelude::*;
use scraper::{ElementRef, Selector};
use crate::extractor::{first, first_of, full_text, targets, targets_of, text_of, Value, ValueView};
use crate::text::{is_blank, trim};

verus! {

/// Reads the text under the element itself or under what `selector` finds.
pub struct Text {
    pub selector: Option<Selector>,
}

impl Text {
    /// A rule made of its parts.
    pub fn new(selector: Option<Selector>) -> (rule: Text)
        ensures
            rule.selector == selector,
    {
        Text { selector }
    }

    /// The text under the first element the rule looks at; nothing if the
    /// element is missing or its text is blank.
    pub open spec fn extracted(&self, element: ElementRef<'_>) -> ValueView {
        match first(targets(element, self.selector)) {
            Some(target) => if is_blank(full_text(target)) {
                ValueView::Empty
            } else {
                ValueView::Single(full_text(target))
            },
            None => ValueView::Empty,
        }
    }

    /// The text under every element the rule looks at.
    pub open spec fn extracted_all(&self, element: ElementRef<'_>) -> ValueView {
        ValueView::of_texts(
            targets(element, self.selector).map_values(|e: ElementRef<'_>| full_text(e)),
        )
    }

    /// Applies the rule to `element`.
    pub fn extract(&self, element: ElementRef<'_>) -> (value: Value)
        ensures
            value@ == self.extracted(element),
    {
        let found = targets_of(element, &self.selector);
        match first_of(&found) {
            Some(target) => {
                let text = text_of(target);
                if trim(text.as_str()).as_str().is_empty() {
                    Value::Empty
                } else {
                    Value::Single(text)
                }
            },
            None => Value::Empty,
        }
    }

    /// Applies the rule to `element`, over every match.
    pub fn extract_all(&self, element: ElementRef<'_>) -> (value: Value)
        ensures
            value@ == self.extracted_all(element),
    {
        let found = targets_of(element, &self.selector);
        let mut results: Vec<String> = Vec::new();
        let mut i: usize = 0;
        while i < found.len()
            invariant
                i <= found.len(),
                results.len() == i,
                forall|k: int| 0 <= k < i ==> (#[trigger] results[k])@ == full_text(found[k]),
            decreases found.len() - i,
        {
            results.push(text_of(found[i]));
            i += 1;
        }
        assert(results.deep_view() =~= found@.map_values(|e: ElementRef<'_>| full_text(e)));
        Value::from_texts(results)
    }
}

} // verus!
