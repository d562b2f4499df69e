//! Expansion of a syntax tree into the characters of a regular expression.
//!
//! Follows the [production rules][1] of the language.
//!
//! [1]: https://git.io/J159T

pub mod escape;
pub mod laws;
pub mod outside;
pub mod parameters;
pub mod rules;
pub mod skip_last;

use self::escape::escaped;
use self::outside::{compile, elements, push_char, regex_accepts, regex_source};
use self::rules::{
    alternation_chars, alternative_chars, branch_chars, collected, expression_chars, literal,
    optional_chars, parameter_chars, pattern, prepended, separated, single_chars, singles_chars,
    RegexChar, ANONYMOUS, FLOAT, INT, STRING, WORD,
};
use self::skip_last::all_but_last;
use crate::ast::{
    Alternation, Alternative, Expression, Optional, Parameter, SingleAlternation,
    SingleExpression,
};
use regex::Regex;
use std::collections::VecDeque;
use vstd::prelude::*;

pub use self::escape::EscapeForRegex;
pub use self::parameters::{Provider as ParametersProvider, WithCustom as WithCustomParameters};
pub use self::skip_last::SkipLast;

verus! {

/// Error of an unknown parameter being used in an expression.
#[derive(Clone, Debug, PartialEq, Eq)]
pub struct UnknownParameterError {
    /// Name of the parameter that was not found.
    pub not_found: String,
}

impl View for UnknownParameterError {
    type V = Seq<char>;

    /// The name that was not found.
    open spec fn view(&self) -> Seq<char> {
        self.not_found@
    }
}

/// What an item of an expansion stands for.
pub open spec fn item_view(item: Result<char, UnknownParameterError>) -> RegexChar {
    match item {
        Ok(c) => Ok(c),
        Err(error) => Err(error@),
    }
}

/// What the items of an expansion stand for, one by one.
pub open spec fn items_view(items: Seq<Result<char, UnknownParameterError>>) -> Seq<RegexChar> {
    Seq::new(items.len(), |i: int| item_view(items[i]))
}

/// The items that an expansion yields, handed out one at a time.
#[derive(Clone, Debug)]
pub struct RegexCharIter {
    /// The items that were not handed out yet.
    items: VecDeque<Result<char, UnknownParameterError>>,
}

impl View for RegexCharIter {
    type V = Seq<RegexChar>;

    /// The items that [`RegexCharIter::next`] is still going to hand out, in
    /// order.
    closed spec fn view(&self) -> Seq<RegexChar> {
        items_view(self.items@)
    }
}

impl RegexCharIter {
    /// Hands out the next item of the expansion, or [`None`] once there is
    /// none left.
    pub fn next(&mut self) -> (next: Option<Result<char, UnknownParameterError>>)
        ensures
            old(self)@.len() == 0 ==> next is None && final(self)@ == old(self)@,
            old(self)@.len() > 0 ==> (next matches Some(item) && item_view(item) == old(self)@[0])
                && final(self)@ == old(self)@.drop_first(),
    {
        let next = self.items.pop_front();
        assert(self@ =~= if old(self)@.len() == 0 {
            old(self)@
        } else {
            old(self)@.drop_first()
        });
        next
    }

    /// Gathers the characters of the expansion into one text. Fails with
    /// the first failure that the expansion yields, if it yields one.
    pub fn collect(self) -> (text: Result<String, UnknownParameterError>)
        ensures
            match collected(self@) {
                Ok(chars) => text matches Ok(t) && t@ == chars,
                Err(name) => text matches Err(e) && e@ == name,
            },
    {
        let mut iter = self;
        let mut text = String::new();
        loop
            invariant
                collected(self@) == prepended(text@, collected(iter@)),
            decreases iter@.len(),
        {
            match iter.next() {
                Some(Ok(c)) => {
                    let ghost before = text@;
                    push_char(&mut text, c);
                    assert forall|rest: Seq<char>| before + (seq![c] + rest) == #[trigger] (text@
                        + rest) by {}
                },
                Some(Err(error)) => {
                    return Err(error);
                },
                None => {
                    return Ok(text);
                },
            }
        }
    }
}

/// Possible errors while parsing a [Cucumber Expression][0] and expanding
/// it into a [`Regex`]. `Parsing` is the kind of failure that the parser
/// reports.
///
/// [0]: https://github.com/cucumber/cucumber-expressions#readme
#[derive(Debug)]
pub enum Error<Parsing> {
    /// Parsing error, as the parser reported it.
    Parsing(Parsing),
    /// Expansion error.
    Expansion(UnknownParameterError),
    /// [`Regex`] creation error.
    Regex(regex::Error),
}

impl<Parsing> From<UnknownParameterError> for Error<Parsing> {
    fn from(error: UnknownParameterError) -> (converted: Self) {
        Error::Expansion(error)
    }
}

impl<Parsing> vstd::std_specs::convert::FromSpecImpl<UnknownParameterError> for Error<Parsing> {
    open spec fn obeys_from_spec() -> bool {
        true
    }

    open spec fn from_spec(error: UnknownParameterError) -> Self {
        Error::Expansion(error)
    }
}

impl<Parsing> From<regex::Error> for Error<Parsing> {
    fn from(error: regex::Error) -> (converted: Self) {
        Error::Regex(error)
    }
}

impl<Parsing> vstd::std_specs::convert::FromSpecImpl<regex::Error> for Error<Parsing> {
    open spec fn obeys_from_spec() -> bool {
        true
    }

    open spec fn from_spec(error: regex::Error) -> Self {
        Error::Regex(error)
    }
}

/// Whether `result` is what compiling the outcome `pattern` of an expansion
/// comes to: the failure of the expansion, if it failed; the regular
/// expression made from its text, if [`Regex`] accepts that; the refusal by
/// [`Regex`] otherwise.
pub open spec fn is_compiled<Parsing>(
    result: Result<Regex, Error<Parsing>>,
    pattern: Result<Seq<char>, Seq<char>>,
) -> bool {
    match pattern {
        Err(name) => result matches Err(Error::Expansion(error)) && error@ == name,
        Ok(chars) => if regex_accepts(chars) {
            result matches Ok(regex) && regex_source(regex) == chars
        } else {
            result matches Err(Error::Regex(_))
        },
    }
}

/// Gathers the given expansion into one text and compiles it.
fn compile_expansion<Parsing>(iter: RegexCharIter) -> (result: Result<Regex, Error<Parsing>>)
    ensures
        is_compiled(result, collected(iter@)),
{
    match iter.collect() {
        Ok(text) => match compile(text.as_str()) {
            Ok(regex) => Ok(regex),
            Err(error) => Err(Error::from(error)),
        },
        Err(error) => Err(Error::from(error)),
    }
}

impl Expression {
    /// Expands what the parser returned for an expression into the
    /// appropriate [`Regex`].
    ///
    /// # Parameter types
    ///
    /// Text between curly braces references a *parameter type*.
    /// [Cucumber Expressions][0] come with the following
    /// [built-in parameter types][1]:
    ///
    /// | Parameter Type  | Description                                    |
    /// | --------------- | ---------------------------------------------- |
    /// | `{int}`         | Matches integers                               |
    /// | `{float}`       | Matches floats                                 |
    /// | `{word}`        | Matches words without whitespace               |
    /// | `{string}`      | Matches single-quoted or double-quoted strings |
    /// | `{}` anonymous  | Matches anything (`/.*/`)                      |
    ///
    /// To expand an [`Expression`] with custom parameter types in addition to
    /// the built-in ones, use [`Expression::regex_with_parameters()`].
    ///
    /// # Errors
    ///
    /// A failure of the parser is handed on as it is. Otherwise see
    /// [`Error`] for more details.
    ///
    /// [0]: https://github.com/cucumber/cucumber-expressions#readme
    /// [1]: https://github.com/cucumber/cucumber-expressions#parameter-types
    pub fn regex<Parsing>(parsed: Result<Expression, Parsing>) -> (result: Result<
        Regex,
        Error<Parsing>,
    >)
        ensures
            match parsed {
                Err(error) => result == Err::<Regex, Error<Parsing>>(Error::Parsing(error)),
                Ok(expression) => is_compiled(result, pattern(expression, Map::empty())),
            },
    {
        match parsed {
            Ok(expression) => compile_expansion(expression.into_regex_char_iter()),
            Err(error) => Err(Error::Parsing(error)),
        }
    }

    /// Expands what the parser returned for an expression into the
    /// appropriate [`Regex`], considering the custom defined `parameters` in
    /// addition to the [default ones][1].
    ///
    /// # Errors
    ///
    /// A failure of the parser is handed on as it is. Otherwise see
    /// [`Error`] for more details.
    ///
    /// [1]: https://github.com/cucumber/cucumber-expressions#parameter-types
    pub fn regex_with_parameters<Parsing, Parameters: ParametersProvider>(
        parsed: Result<Expression, Parsing>,
        parameters: Parameters,
    ) -> (result: Result<Regex, Error<Parsing>>)
        ensures
            match parsed {
                Err(error) => result == Err::<Regex, Error<Parsing>>(Error::Parsing(error)),
                Ok(expression) => is_compiled(result, pattern(expression, parameters.matchers())),
            },
    {
        match parsed {
            Ok(expression) => compile_expansion(
                expression.with_parameters(parameters).into_regex_char_iter(),
            ),
            Err(error) => Err(Error::Parsing(error)),
        }
    }

    /// Pairs this expression with the custom defined `parameters` that are
    /// to be considered, in addition to the [default ones][1], when it is
    /// expanded.
    ///
    /// [1]: https://github.com/cucumber/cucumber-expressions#parameter-types
    pub fn with_parameters<Parameters: ParametersProvider>(self, parameters: Parameters) -> (paired:
        WithCustomParameters<Self, Parameters>)
        ensures
            paired.element == self,
            paired.parameters == parameters,
    {
        WithCustomParameters { element: self, parameters }
    }
}

/// Expansion of an element of a syntax tree into the characters of a
/// regular expression, following the production rules.
pub trait IntoRegexCharIter: Sized {
    /// The items that the expansion of this element yields, in order.
    spec fn regex_chars(&self) -> Seq<RegexChar>;

    /// Consumes this element and returns its expansion.
    fn into_regex_char_iter(self) -> (iter: RegexCharIter)
        ensures
            iter@ == self.regex_chars(),
    ;
}

/// Moves the items of `iter` to the end of `out`, keeping their order.
pub(crate) fn push_all(out: &mut VecDeque<Result<char, UnknownParameterError>>, iter: RegexCharIter)
    ensures
        items_view(final(out)@) == items_view(old(out)@) + iter@,
{
    let mut iter = iter;
    let ghost all = iter@;
    loop
        invariant
            items_view(out@) + iter@ == items_view(old(out)@) + all,
        ensures
            items_view(out@) == items_view(old(out)@) + all,
        decreases iter@.len(),
    {
        match iter.next() {
            Some(item) => {
                out.push_back(item);
            },
            None => {
                break ;
            },
        }
    }
}

/// Puts the given characters at the end of `out`.
pub(crate) fn push_chars(out: &mut VecDeque<Result<char, UnknownParameterError>>, chars: &Vec<char>)
    ensures
        items_view(final(out)@) == items_view(old(out)@) + literal(chars@),
{
    let mut i: usize = 0;
    while i < chars.len()
        invariant
            i <= chars.len(),
            items_view(out@) == items_view(old(out)@) + literal(chars@.take(i as int)),
        decreases chars.len() - i,
    {
        let ghost before = items_view(out@);
        out.push_back(Ok(chars[i]));
        i = i + 1;
        assert(items_view(out@) =~= before.push(Ok(chars@[i - 1])));
    }
}

/// Puts the characters of the given text at the end of `out`.
fn push_literal(out: &mut VecDeque<Result<char, UnknownParameterError>>, text: &str)
    ensures
        items_view(final(out)@) == items_view(old(out)@) + literal(text@),
{
    for c in it: text.chars()
        invariant
            it.seq() == text@,
            items_view(out@) == items_view(old(out)@) + literal(text@.take(it.index())),
    {
        let ghost before = items_view(out@);
        out.push_back(Ok(c));
        assert(items_view(out@) =~= before.push(Ok(c)));
    }
}

/// Puts the given text, escaped, at the end of `out`.
fn push_escaped(out: &mut VecDeque<Result<char, UnknownParameterError>>, text: &str)
    ensures
        items_view(final(out)@) == items_view(old(out)@) + literal(escaped(text@)),
{
    let mut stream = EscapeForRegex::new(elements(text));
    let ghost all = stream.remaining();
    loop
        invariant
            items_view(out@) + literal(stream.remaining()) == items_view(old(out)@) + literal(
                all,
            ),
        ensures
            items_view(out@) == items_view(old(out)@) + literal(all),
        decreases stream.remaining().len(),
    {
        match stream.next() {
            Some(c) => {
                out.push_back(Ok(c));
            },
            None => {
                break ;
            },
        }
    }
}

impl IntoRegexCharIter for Optional {
    open spec fn regex_chars(&self) -> Seq<RegexChar> {
        optional_chars(self.0@)
    }

    fn into_regex_char_iter(self) -> (iter: RegexCharIter) {
        let mut items = VecDeque::new();
        push_literal(&mut items, "(?:");
        push_escaped(&mut items, self.0.as_str());
        push_literal(&mut items, ")?");
        proof {
            reveal_strlit("(?:");
            reveal_strlit(")?");
        }
        RegexCharIter { items }
    }
}

/// Whether `name` is made of exactly the characters of `word`.
pub(crate) fn same_chars(name: &Vec<char>, word: &str) -> (same: bool)
    ensures
        same == (name@ == word@),
{
    let mut i: usize = 0;
    for c in it: word.chars()
        invariant
            it.seq() == word@,
            i == it.index(),
            i <= name.len(),
            name@.take(i as int) == word@.take(i as int),
    {
        if i >= name.len() || name[i] != c {
            return false;
        }
        i = i + 1;
    }
    assert(word@.take(i as int) == word@);
    assert(name@.take(name.len() as int) == name@);
    i == name.len()
}

impl IntoRegexCharIter for Parameter {
    open spec fn regex_chars(&self) -> Seq<RegexChar> {
        parameter_chars(self.0@, Map::empty())
    }

    fn into_regex_char_iter(self) -> (iter: RegexCharIter) {
        let name = elements(self.0.as_str());
        let mut items = VecDeque::new();
        if same_chars(&name, "int") {
            push_literal(&mut items, INT);
        } else if same_chars(&name, "float") {
            push_literal(&mut items, FLOAT);
        } else if same_chars(&name, "word") {
            push_literal(&mut items, WORD);
        } else if same_chars(&name, "string") {
            push_literal(&mut items, STRING);
        } else if name.len() == 0 {
            push_literal(&mut items, ANONYMOUS);
        } else {
            items.push_back(Err(UnknownParameterError { not_found: self.0 }));
        }
        assert(name@.len() == 0 <==> name@ =~= Seq::<char>::empty());
        RegexCharIter { items }
    }
}

impl IntoRegexCharIter for Alternative {
    open spec fn regex_chars(&self) -> Seq<RegexChar> {
        alternative_chars(*self)
    }

    fn into_regex_char_iter(self) -> (iter: RegexCharIter) {
        match self {
            Alternative::Optional(optional) => optional.into_regex_char_iter(),
            Alternative::Text(text) => {
                let mut items = VecDeque::new();
                push_escaped(&mut items, text.as_str());
                RegexCharIter { items }
            },
        }
    }
}

/// Expansions of the given branches, each of them followed by a `|`.
spec fn terminated(branches: Seq<SingleAlternation>) -> Seq<RegexChar>
    decreases branches.len(),
{
    if branches.len() == 0 {
        Seq::empty()
    } else {
        terminated(branches.drop_last()) + branch_chars(branches.last()@) + seq![Ok('|')]
    }
}

/// Branches that are each followed by a `|` are, without the last `|`,
/// branches separated by `|`.
proof fn lemma_terminated_without_last(branches: Seq<SingleAlternation>)
    ensures
        all_but_last(terminated(branches)) == separated(branches),
    decreases branches.len(),
{
    if branches.len() == 1 {
        assert(terminated(branches.drop_last()) =~= Seq::empty());
    } else if branches.len() > 1 {
        lemma_terminated_without_last(branches.drop_last());
    }
}

impl IntoRegexCharIter for Alternation {
    open spec fn regex_chars(&self) -> Seq<RegexChar> {
        alternation_chars(*self)
    }

    fn into_regex_char_iter(self) -> (iter: RegexCharIter) {
        let ghost branches = self.0@;
        let mut queue = VecDeque::new();
        for branch in it: self.0
            invariant
                it.seq() == branches,
                items_view(queue@) == terminated(branches.take(it.index())),
        {
            let ghost alternatives = branch@;
            let ghost before = items_view(queue@);
            for alternative in jt: branch
                invariant
                    jt.seq() == alternatives,
                    items_view(queue@) == before + branch_chars(alternatives.take(jt.index())),
            {
                assert(alternatives.take(jt.index() + 1).drop_last() == alternatives.take(
                    jt.index(),
                ));
                push_all(&mut queue, alternative.into_regex_char_iter());
            }
            assert(alternatives.take(alternatives.len() as int) == alternatives);
            queue.push_back(Ok('|'));
            assert(branches.take(it.index() + 1).drop_last() == branches.take(it.index()));
        }
        assert(branches.take(branches.len() as int) == branches);
        let mut stream = SkipLast::new(queue);
        let ghost all = items_view(stream.remaining());
        proof {
            lemma_terminated_without_last(branches);
            assert(all =~= all_but_last(items_view(queue@)));
        }
        let mut items = VecDeque::new();
        push_literal(&mut items, "(?:");
        let ghost head = items_view(items@);
        loop
            invariant
                items_view(items@) + items_view(stream.remaining()) == head + all,
            ensures
                items_view(items@) == head + all,
            decreases stream.remaining().len(),
        {
            match stream.next() {
                Some(item) => {
                    items.push_back(item);
                },
                None => {
                    break ;
                },
            }
        }
        items.push_back(Ok(')'));
        proof {
            reveal_strlit("(?:");
            assert("(?:"@ =~= seq!['(', '?', ':']);
        }
        RegexCharIter { items }
    }
}

impl IntoRegexCharIter for SingleExpression {
    open spec fn regex_chars(&self) -> Seq<RegexChar> {
        single_chars(*self, Map::empty())
    }

    fn into_regex_char_iter(self) -> (iter: RegexCharIter) {
        match self {
            SingleExpression::Alternation(alternation) => alternation.into_regex_char_iter(),
            SingleExpression::Optional(optional) => optional.into_regex_char_iter(),
            SingleExpression::Parameter(parameter) => parameter.into_regex_char_iter(),
            SingleExpression::Text(text) | SingleExpression::Whitespaces(text) => {
                let mut items = VecDeque::new();
                push_escaped(&mut items, text.as_str());
                RegexCharIter { items }
            },
        }
    }
}

impl IntoRegexCharIter for Expression {
    open spec fn regex_chars(&self) -> Seq<RegexChar> {
        expression_chars(*self, Map::empty())
    }

    fn into_regex_char_iter(self) -> (iter: RegexCharIter) {
        let ghost singles = self.0@;
        let mut items = VecDeque::new();
        items.push_back(Ok('^'));
        for single in it: self.0
            invariant
                it.seq() == singles,
                items_view(items@) == seq![Ok('^')] + singles_chars(
                    singles.take(it.index()),
                    Map::empty(),
                ),
        {
            assert(singles.take(it.index() + 1).drop_last() == singles.take(it.index()));
            push_all(&mut items, single.into_regex_char_iter());
        }
        assert(singles.take(singles.len() as int) == singles);
        items.push_back(Ok('$'));
        RegexCharIter { items }
    }
}

} // verus!
