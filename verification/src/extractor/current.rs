//! The rule that reads the element that meets a condition.

use vstd::prelude::*;
use scraper::{ElementRef, Selector};
use crate::dom::{selected, select};
use crate::extractor::{first, first_of, qualifying, qualifying_of, Extractor, Value, ValueView};

verus! {

/// Finds elements by `base`, keeps those whose text contains `condition`, and
/// applies `current` to each of them.
pub struct Current {
    pub base: Selector,
    pub condition: Option<String>,
    pub current: Box<Extractor>,
}

impl Current {
    /// A rule made of its parts.
    pub fn new(base: Selector, condition: Option<String>, current: Extractor) -> (rule: Current)
        ensures
            rule.base == base,
            rule.condition == condition,
            *rule.current == current,
    {
        Current { base, condition, current: Box::new(current) }
    }

    /// The elements under `element` that meet the condition.
    pub open spec fn candidates(&self, element: ElementRef<'_>) -> Seq<ElementRef<'_>> {
        qualifying(selected(element, self.base), self.condition.deep_view())
    }

    /// What `current` yields for the first element that meets the condition.
    pub open spec fn extracted(&self, element: ElementRef<'_>) -> ValueView
        decreases self, 0nat,
    {
        match first(self.candidates(element)) {
            Some(target) => self.current.extracted(target),
            None => ValueView::Empty,
        }
    }

    /// What `current` yields for every element that meets the condition.
    pub open spec fn extracted_all(&self, element: ElementRef<'_>) -> ValueView
        decreases self, 0nat,
    {
        ValueView::of_texts(self.current.gathered(self.candidates(element)))
    }

    /// Applies the rule to `element`.
    pub fn extract(&self, element: ElementRef<'_>) -> (value: Value)
        ensures
            value@ == self.extracted(element),
        decreases self, 0nat,
    {
        let found = select(element, &self.base);
        let candidates = qualifying_of(&found, &self.condition);
        match first_of(&candidates) {
            Some(target) => self.current.extract(target),
            None => Value::Empty,
        }
    }

    /// Applies the rule to `element`, over every match.
    pub fn extract_all(&self, element: ElementRef<'_>) -> (value: Value)
        ensures
            value@ == self.extracted_all(element),
        decreases self, 0nat,
    {
        let found = select(element, &self.base);
        let candidates = qualifying_of(&found, &self.condition);
        Value::from_texts(self.current.gather(&candidates))
    }
}

} // verus!
