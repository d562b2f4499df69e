//! Support for [custom][1] parameters.
//!
//! [1]: https://github.com/cucumber/cucumber-expressions#custom-parameter-types

use super::outside::elements;
use super::rules::{
    expression_chars, parameter_chars, single_chars, singles_chars, Matchers, RegexChar,
};
use super::{items_view, push_all, push_chars, same_chars, IntoRegexCharIter, RegexCharIter};
use crate::ast::{Expression, Parameter, SingleExpression};
use std::collections::VecDeque;
pub use vstd::hash_map::StringHashMap;
use vstd::prelude::*;

verus! {

/// An element of a syntax tree together with the custom parameters that
/// are to be used, in addition to the built-in ones, when it is expanded.
///
/// Every parameter is represented by a single capturing group.
#[derive(Clone, Copy, Debug)]
pub struct WithCustom<Element, Parameters> {
    /// Parsed element of a syntax tree.
    pub element: Element,
    /// Custom parameters to be used for expanding the `element`.
    pub parameters: Parameters,
}

/// Provider of custom parameters.
///
/// A provider is a lookup by name that changes nothing: asked twice for one
/// name, it answers the same.
pub trait Provider {
    /// The matchers that this provider knows, each under its name.
    spec fn matchers(&self) -> Matchers;

    /// Returns the matcher that is known under the name `input`, if any.
    fn get(&self, input: &str) -> (value: Option<String>)
        ensures
            value is Some == self.matchers().contains_key(input@),
            value matches Some(v) ==> v@ == self.matchers()[input@],
    ;
}

/// The matchers that a list of names and matchers holds: for each name,
/// the matcher of the first entry with that name.
pub open spec fn listed(entries: Seq<(String, String)>) -> Matchers
    decreases entries.len(),
{
    if entries.len() == 0 {
        Map::empty()
    } else {
        listed(entries.drop_first()).insert(entries[0].0@, entries[0].1@)
    }
}

/// A list of names, each with its matcher. Of two entries with the same
/// name the first one counts.
impl Provider for Vec<(String, String)> {
    open spec fn matchers(&self) -> Matchers {
        listed(self@)
    }

    fn get(&self, input: &str) -> (value: Option<String>) {
        let name = elements(input);
        let mut i: usize = 0;
        assert(self@.skip(0) == self@);
        while i < self.len()
            invariant
                i <= self.len(),
                name@ == input@,
                listed(self@).contains_key(input@) == listed(self@.skip(i as int)).contains_key(
                    input@,
                ),
                listed(self@).contains_key(input@) ==> listed(self@)[input@] == listed(
                    self@.skip(i as int),
                )[input@],
            decreases self.len() - i,
        {
            let ghost rest = self@.skip(i as int);
            assert(rest.drop_first() == self@.skip(i + 1));
            if same_chars(&name, self[i].0.as_str()) {
                return Some(self[i].1.clone());
            }
            i = i + 1;
        }
        None
    }
}

/// A hash map from names to matchers.
impl Provider for StringHashMap<String> {
    open spec fn matchers(&self) -> Matchers {
        self@.map_values(|matcher: String| matcher@)
    }

    fn get(&self, input: &str) -> (value: Option<String>) {
        match StringHashMap::get(self, input) {
            Some(matcher) => Some(matcher.clone()),
            None => None,
        }
    }
}

/// A provider that is only borrowed.
impl<'p, P: Provider> Provider for &'p P {
    open spec fn matchers(&self) -> Matchers {
        (**self).matchers()
    }

    fn get(&self, input: &str) -> (value: Option<String>) {
        (**self).get(input)
    }
}

impl<P: Provider> IntoRegexCharIter for WithCustom<Expression, P> {
    open spec fn regex_chars(&self) -> Seq<RegexChar> {
        expression_chars(self.element, self.parameters.matchers())
    }

    fn into_regex_char_iter(self) -> (iter: RegexCharIter) {
        let WithCustom { element, parameters } = self;
        let ghost singles = element.0@;
        let ghost custom = parameters.matchers();
        let mut items = VecDeque::new();
        items.push_back(Ok('^'));
        for single in it: element.0
            invariant
                it.seq() == singles,
                custom == parameters.matchers(),
                items_view(items@) == seq![Ok('^')] + singles_chars(
                    singles.take(it.index()),
                    custom,
                ),
        {
            assert(singles.take(it.index() + 1).drop_last() == singles.take(it.index()));
            let with_custom = WithCustom { element: single, parameters: &parameters };
            push_all(&mut items, with_custom.into_regex_char_iter());
        }
        assert(singles.take(singles.len() as int) == singles);
        items.push_back(Ok('$'));
        RegexCharIter { items }
    }
}

impl<P: Provider> IntoRegexCharIter for WithCustom<SingleExpression, P> {
    open spec fn regex_chars(&self) -> Seq<RegexChar> {
        single_chars(self.element, self.parameters.matchers())
    }

    fn into_regex_char_iter(self) -> (iter: RegexCharIter) {
        match self.element {
            SingleExpression::Parameter(item) => WithCustom {
                element: item,
                parameters: self.parameters,
            }.into_regex_char_iter(),
            element => element.into_regex_char_iter(),
        }
    }
}

impl<P: Provider> IntoRegexCharIter for WithCustom<Parameter, P> {
    open spec fn regex_chars(&self) -> Seq<RegexChar> {
        parameter_chars(self.element.0@, self.parameters.matchers())
    }

    fn into_regex_char_iter(self) -> (iter: RegexCharIter) {
        match self.parameters.get(self.element.0.as_str()) {
            Some(v) => {
                let mut items = VecDeque::new();
                items.push_back(Ok('('));
                push_chars(&mut items, &elements(v.as_str()));
                let ghost inner = items_view(items@);
                items.push_back(Ok(')'));
                assert(items_view(items@) =~= inner.push(Ok(')')));
                RegexCharIter { items }
            },
            None => self.element.into_regex_char_iter(),
        }
    }
}

} // verus!
