//! The rule that reads the value next to a label.

use vstd::prelude::*;
use scraper::{ElementRef, Selector};
use crate::dom::{selected, select};
use crate::extractor::{
    first, first_of, qualifying, qualifying_of, siblings, siblings_of, Extractor, Value, ValueView,
};

verus! {

/// Finds labels by `current`, keeps those whose text contains `condition`,
/// and applies `next` to the sibling that follows each.
pub struct Next {
    pub current: Selector,
    pub condition: Option<String>,
    pub next: Box<Extractor>,
}

impl Next {
    /// A rule made of its parts.
    pub fn new(current: Selector, condition: Option<String>, next: Extractor) -> (rule: Next)
        ensures
            rule.current == current,
            rule.condition == condition,
            *rule.next == next,
    {
        Next { current, condition, next: Box::new(next) }
    }

    /// The labels under `element` that meet the condition.
    pub open spec fn labels(&self, element: ElementRef<'_>) -> Seq<ElementRef<'_>> {
        qualifying(selected(element, self.current), self.condition.deep_view())
    }

    /// What `next` yields for the next element after the first label that
    /// has one.
    pub open spec fn extracted(&self, element: ElementRef<'_>) -> ValueView
        decreases self, 0nat,
    {
        match first(siblings(self.labels(element), false)) {
            Some(target) => self.next.extracted(target),
            None => ValueView::Empty,
        }
    }

    /// What `next` yields for the node right after each label, where that
    /// node is an element.
    pub open spec fn extracted_all(&self, element: ElementRef<'_>) -> ValueView
        decreases self, 0nat,
    {
        ValueView::of_texts(self.next.gathered(siblings(self.labels(element), true)))
    }

    /// Applies the rule to `element`.
    pub fn extract(&self, element: ElementRef<'_>) -> (value: Value)
        ensures
            value@ == self.extracted(element),
        decreases self, 0nat,
    {
        let found = select(element, &self.current);
        let labels = qualifying_of(&found, &self.condition);
        let values = siblings_of(&labels, false);
        match first_of(&values) {
            Some(target) => self.next.extract(target),
            None => Value::Empty,
        }
    }

    /// Applies the rule to `element`, over every match.
    pub fn extract_all(&self, element: ElementRef<'_>) -> (value: Value)
        ensures
            value@ == self.extracted_all(element),
        decreases self, 0nat,
    {
        let found = select(element, &self.current);
        let labels = qualifying_of(&found, &self.condition);
        let values = siblings_of(&labels, true);
        Value::from_texts(self.next.gather(&values))
    }
}

} // verus!
