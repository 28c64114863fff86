//! The rule that reads every row under a container.

use vstd::prelude::*;
use scraper::{ElementRef, Selector};
use crate::dom::{selected, select};
use crate::extractor::{first, first_of, Extractor, Value, ValueView};

verus! {

/// Finds containers by `selector` and applies `item` over every match inside
/// them.
pub struct List {
    pub selector: Selector,
    pub item: Box<Extractor>,
}

impl List {
    /// A rule made of its parts.
    pub fn new(selector: Selector, item: Extractor) -> (rule: List)
        ensures
            rule.selector == selector,
            *rule.item == item,
    {
        List { selector, item: Box::new(item) }
    }

    /// What `item` yields over every match inside the first container.
    pub open spec fn extracted(&self, element: ElementRef<'_>) -> ValueView
        decreases self, 0nat,
    {
        match first(selected(element, self.selector)) {
            Some(container) => ValueView::of_texts(self.item.extracted_all(container).texts()),
            None => ValueView::Empty,
        }
    }

    /// What `item` yields over every match inside every container.
    pub open spec fn extracted_all(&self, element: ElementRef<'_>) -> ValueView
        decreases self, 0nat,
    {
        ValueView::of_texts(self.item.gathered_all(selected(element, self.selector)))
    }

    /// Applies the rule to `element`.
    pub fn extract(&self, element: ElementRef<'_>) -> (value: Value)
        ensures
            value@ == self.extracted(element),
        decreases self, 0nat,
    {
        let found = select(element, &self.selector);
        match first_of(&found) {
            Some(container) => Value::from_texts(self.item.extract_all(container).into_texts()),
            None => Value::Empty,
        }
    }

    /// Applies the rule to `element`, over every match.
    pub fn extract_all(&self, element: ElementRef<'_>) -> (value: Value)
        ensures
            value@ == self.extracted_all(element),
        decreases self, 0nat,
    {
        let found = select(element, &self.selector);
        Value::from_texts(self.item.gather_all(&found))
    }
}

} // verus!
