//! The rule that reads an attribute.

use vstd::prelude::*;
use scraper::{ElementRef, Selector};
use crate::dom::{attr, attribute};
use crate::extractor::{attributes, first, first_of, targets, targets_of, Value, ValueView};

verus! {

/// Reads the attribute `name`, on the element itself or on what `selector`
/// finds under it.
pub struct Attr {
    pub selector: Option<Selector>,
    pub name: String,
}

impl Attr {
    /// A rule made of its parts.
    pub fn new(selector: Option<Selector>, name: String) -> (rule: Attr)
        ensures
            rule.selector == selector,
            rule.name == name,
    {
        Attr { selector, name }
    }

    /// The attribute of the first element the rule looks at, if that element
    /// is there and has it.
    pub open spec fn extracted(&self, element: ElementRef<'_>) -> ValueView {
        match first(targets(element, self.selector)) {
            Some(target) => ValueView::of_option(attribute(target, self.name@)),
            None => ValueView::Empty,
        }
    }

    /// The attribute of every element the rule looks at that has it.
    pub open spec fn extracted_all(&self, element: ElementRef<'_>) -> ValueView {
        ValueView::of_texts(attributes(targets(element, self.selector), self.name@))
    }

    /// Applies the rule to `element`.
    pub fn extract(&self, element: ElementRef<'_>) -> (value: Value)
        ensures
            value@ == self.extracted(element),
    {
        let found = targets_of(element, &self.selector);
        match first_of(&found) {
            Some(target) => Value::from_option(attr(target, self.name.as_str())),
            None => Value::Empty,
        }
    }

    /// Applies the rule to `element`, over every match.
    pub fn extract_all(&self, element: ElementRef<'_>) -> (value: Value)
        ensures
            value@ == self.extracted_all(element),
    {
        let found = targets_of(element, &self.selector);
        let mut results: Vec<String> = Vec::new();
        assert(results.deep_view() =~= Seq::empty());
        let mut i: usize = 0;
        while i < found.len()
            invariant
                i <= found.len(),
                results.deep_view() == attributes(found@.take(i as int), self.name@),
            decreases found.len() - i,
        {
            assert(found@.take(i + 1).drop_last() == found@.take(i as int));
            let ghost before = results.deep_view();
            match attr(found[i], self.name.as_str()) {
                Some(value) => {
                    results.push(value);
                    assert(results.deep_view() =~= before.push(value@));
                },
                None => {},
            }
            i += 1;
        }
        assert(found@.take(found.len() as int) == found@);
        Value::from_texts(results)
    }
}

} // verus!
