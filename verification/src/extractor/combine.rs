//! The rule that joins several texts into one.

use vstd::prelude::*;
use scraper::ElementRef;
use crate::extractor::list::List;
use crate::extractor::{Value, ValueView};
use crate::text::{join, joined};

verus! {

/// Applies `items` and joins what it yields with `separator`.
pub struct Combine {
    pub separator: String,
    pub items: List,
}

/// The texts of a value joined into one; nothing stays nothing.
pub open spec fn combined(value: ValueView, separator: Seq<char>) -> ValueView {
    if value.texts().len() == 0 {
        ValueView::Empty
    } else {
        ValueView::Single(joined(value.texts(), separator))
    }
}

/// Joins the texts of `value` with `separator` into a single text; `Empty`
/// if there are none.
pub fn combine(value: Value, separator: &str) -> (r: Value)
    ensures
        r@ == combined(value@, separator@),
{
    let texts = value.into_texts();
    if texts.len() == 0 {
        Value::Empty
    } else {
        Value::Single(join(&texts, separator))
    }
}

impl Combine {
    /// A rule made of its parts.
    pub fn new(separator: String, items: List) -> (rule: Combine)
        ensures
            rule.separator == separator,
            rule.items == items,
    {
        Combine { separator, items }
    }

    /// What `items` yields, joined.
    pub open spec fn extracted(&self, element: ElementRef<'_>) -> ValueView
        decreases self, 0nat,
    {
        combined(self.items.extracted(element), self.separator@)
    }

    /// What `items` yields over every match, joined.
    pub open spec fn extracted_all(&self, element: ElementRef<'_>) -> ValueView
        decreases self, 0nat,
    {
        combined(self.items.extracted_all(element), self.separator@)
    }

    /// Applies the rule to `element`.
    pub fn extract(&self, element: ElementRef<'_>) -> (value: Value)
        ensures
            value@ == self.extracted(element),
        decreases self, 0nat,
    {
        combine(self.items.extract(element), self.separator.as_str())
    }

    /// Applies the rule to `element`, over every match.
    pub fn extract_all(&self, element: ElementRef<'_>) -> (value: Value)
        ensures
            value@ == self.extracted_all(element),
        decreases self, 0nat,
    {
        combine(self.items.extract_all(element), self.separator.as_str())
    }
}

} // verus!
