//! The syntax tree of a [Cucumber Expression][0].
//!
//! A tree is made by a parser and only read here. Text is kept as it was
//! written, with the `\` of every escape still in it.
//!
//! [0]: https://github.com/cucumber/cucumber-expressions#readme

use vstd::prelude::*;

verus! {

/// Top-level `expression`: a sequence of [`SingleExpression`]s.
#[derive(Clone, Debug, PartialEq, Eq)]
pub struct Expression(pub Vec<SingleExpression>);

/// One element of an [`Expression`].
#[derive(Clone, Debug, PartialEq, Eq)]
pub enum SingleExpression {
    /// Branches separated by `/`.
    Alternation(Alternation),
    /// Text in `( )` that may be absent.
    Optional(Optional),
    /// Name in `{ }` that stands for a value.
    Parameter(Parameter),
    /// Text without whitespaces.
    Text(String),
    /// Whitespaces.
    Whitespaces(String),
}

/// One branch of an [`Alternation`].
pub type SingleAlternation = Vec<Alternative>;

/// `alternation`: the branches of which one has to match.
#[derive(Clone, Debug, PartialEq, Eq)]
pub struct Alternation(pub Vec<SingleAlternation>);

/// One element of a [`SingleAlternation`].
#[derive(Clone, Debug, PartialEq, Eq)]
pub enum Alternative {
    /// Text in `( )` that may be absent.
    Optional(Optional),
    /// Text.
    Text(String),
}

/// `optional`: the text between `(` and `)`.
#[derive(Clone, Debug, PartialEq, Eq)]
pub struct Optional(pub String);

/// `parameter`: the name between `{` and `}`, empty for `{}`.
#[derive(Clone, Debug, PartialEq, Eq)]
pub struct Parameter(pub String);

} // verus!
