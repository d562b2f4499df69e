//! The production rules, as functions from a syntax tree to the sequence
//! of items that its expansion yields.
//!
//! Everything that the executable code of this crate promises is stated
//! over the functions of this module.

use super::escape::escaped;
use crate::ast::{Alternation, Alternative, Expression, SingleAlternation, SingleExpression};
use vstd::prelude::*;

verus! {

/// What an expansion yields at one position: a character of the regular
/// expression, or the name of a parameter that nothing is known of.
pub type RegexChar = Result<char, Seq<char>>;

/// The matchers that are known by name in addition to the built-in ones.
pub type Matchers = Map<Seq<char>, Seq<char>>;

/// Regular expression of the built-in parameter `{int}`.
pub const INT: &'static str = r"((?:-?\d+)|(?:\d+))";

/// Regular expression of the built-in parameter `{float}`.
pub const FLOAT: &'static str = r"((?=.*\d.*)[-+]?\d*(?:\.(?=\d.*))?\d*(?:\d+[E][+-]?\d+)?)";

/// Regular expression of the built-in parameter `{word}`.
pub const WORD: &'static str = r"([^\s]+)";

/// Regular expression of the built-in parameter `{string}`.
pub const STRING: &'static str = r#"("(?:[^"\\]*(?:\\.[^"\\]*)*)"|'(?:[^'\\]*(?:\\.[^'\\]*)*)')"#;

/// Regular expression of the anonymous parameter `{}`.
pub const ANONYMOUS: &'static str = r"(.*)";

/// The given characters, each as an item of an expansion.
pub open spec fn literal(chars: Seq<char>) -> Seq<RegexChar> {
    Seq::new(chars.len(), |i: int| Ok(chars[i]))
}

/// The regular expression of the built-in parameter of the given name,
/// capturing group included, if there is one.
pub open spec fn built_in(name: Seq<char>) -> Option<Seq<char>> {
    if name == "int"@ {
        Some(INT@)
    } else if name == "float"@ {
        Some(FLOAT@)
    } else if name == "word"@ {
        Some(WORD@)
    } else if name == "string"@ {
        Some(STRING@)
    } else if name == Seq::<char>::empty() {
        Some(ANONYMOUS@)
    } else {
        None
    }
}

/// The regular expression that the parameter of the given name stands
/// for, capturing group included: that of `custom` where it knows the name,
/// written out as it is; the built-in one otherwise, if there is one.
pub open spec fn resolved(name: Seq<char>, custom: Matchers) -> Option<Seq<char>> {
    if custom.contains_key(name) {
        Some(seq!['('] + custom[name] + seq![')'])
    } else {
        built_in(name)
    }
}

/// Expansion of a `parameter` of the given name: what it resolves to, or a
/// single failure that carries the name.
pub open spec fn parameter_chars(name: Seq<char>, custom: Matchers) -> Seq<RegexChar> {
    match resolved(name, custom) {
        Some(matcher) => literal(matcher),
        None => seq![Err(name)],
    }
}

/// Expansion of an `optional` with the given text: `(?:`, the escaped text,
/// `)?`.
pub open spec fn optional_chars(text: Seq<char>) -> Seq<RegexChar> {
    literal(seq!['(', '?', ':'] + escaped(text) + seq![')', '?'])
}

/// Expansion of one element of a branch.
pub open spec fn alternative_chars(alternative: Alternative) -> Seq<RegexChar> {
    match alternative {
        Alternative::Optional(optional) => optional_chars(optional.0@),
        Alternative::Text(text) => literal(escaped(text@)),
    }
}

/// Expansion of one branch of an `alternation`: those of its elements, one
/// after the other.
pub open spec fn branch_chars(branch: Seq<Alternative>) -> Seq<RegexChar>
    decreases branch.len(),
{
    if branch.len() == 0 {
        Seq::empty()
    } else {
        branch_chars(branch.drop_last()) + alternative_chars(branch.last())
    }
}

/// Expansions of the given branches, with a `|` between each two of them:
/// none in front of the first and none behind the last.
pub open spec fn separated(branches: Seq<SingleAlternation>) -> Seq<RegexChar>
    decreases branches.len(),
{
    if branches.len() == 0 {
        Seq::empty()
    } else if branches.len() == 1 {
        branch_chars(branches[0]@)
    } else {
        separated(branches.drop_last()) + seq![Ok('|')] + branch_chars(branches.last()@)
    }
}

/// Expansion of an `alternation`: `(?:`, its branches separated by `|`,
/// `)`.
pub open spec fn alternation_chars(alternation: Alternation) -> Seq<RegexChar> {
    literal(seq!['(', '?', ':']) + separated(alternation.0@) + seq![Ok(')')]
}

/// Expansion of one element of an `expression`.
pub open spec fn single_chars(single: SingleExpression, custom: Matchers) -> Seq<RegexChar> {
    match single {
        SingleExpression::Alternation(alternation) => alternation_chars(alternation),
        SingleExpression::Optional(optional) => optional_chars(optional.0@),
        SingleExpression::Parameter(parameter) => parameter_chars(parameter.0@, custom),
        SingleExpression::Text(text) => literal(escaped(text@)),
        SingleExpression::Whitespaces(text) => literal(escaped(text@)),
    }
}

/// Expansions of the given elements, one after the other.
pub open spec fn singles_chars(singles: Seq<SingleExpression>, custom: Matchers) -> Seq<
    RegexChar,
>
    decreases singles.len(),
{
    if singles.len() == 0 {
        Seq::empty()
    } else {
        singles_chars(singles.drop_last(), custom) + single_chars(singles.last(), custom)
    }
}

/// Expansion of an `expression`: `^`, those of its elements, `$`.
pub open spec fn expression_chars(expression: Expression, custom: Matchers) -> Seq<RegexChar> {
    seq![Ok('^')] + singles_chars(expression.0@, custom) + seq![Ok('$')]
}

/// What is left of an expansion when it is gathered into one text: the
/// name that the first failure carries, or else all the characters.
pub open spec fn collected(items: Seq<RegexChar>) -> Result<Seq<char>, Seq<char>>
    decreases items.len(),
{
    if items.len() == 0 {
        Ok(Seq::empty())
    } else {
        match items[0] {
            Err(name) => Err(name),
            Ok(c) => match collected(items.drop_first()) {
                Ok(rest) => Ok(seq![c] + rest),
                Err(name) => Err(name),
            },
        }
    }
}

/// An outcome of [`collected`] with the given characters put in front of
/// the text, if it is one.
pub open spec fn prepended(chars: Seq<char>, outcome: Result<Seq<char>, Seq<char>>) -> Result<
    Seq<char>,
    Seq<char>,
> {
    match outcome {
        Ok(rest) => Ok(chars + rest),
        Err(name) => Err(name),
    }
}

/// The regular expression that the given expression expands to, with the
/// given matchers known in addition to the built-in ones; or the name of
/// the first parameter in it that nothing is known of.
pub open spec fn pattern(expression: Expression, custom: Matchers) -> Result<Seq<char>, Seq<char>> {
    collected(expression_chars(expression, custom))
}

} // verus!
