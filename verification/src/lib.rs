//! Expansion of [Cucumber Expressions][0] into regular expressions.
//!
//! A Cucumber Expression such as `I have {int} cucumber(s)` is a readable
//! pattern for the text of a step. This crate takes the syntax tree of such
//! an expression, as a parser made it, and turns it into the text of an
//! anchored regular expression, following the [production rules][1] of the
//! language:
//!
//! ```rust
//! use cucumber_expressions::{
//!     expand::IntoRegexCharIter, Expression, Optional, Parameter, SingleExpression,
//! };
//!
//! // I have {int} cucumber(s)
//! let expression = Expression(vec![
//!     SingleExpression::Text("I".into()),
//!     SingleExpression::Whitespaces(" ".into()),
//!     SingleExpression::Text("have".into()),
//!     SingleExpression::Whitespaces(" ".into()),
//!     SingleExpression::Parameter(Parameter("int".into())),
//!     SingleExpression::Whitespaces(" ".into()),
//!     SingleExpression::Text("cucumber".into()),
//!     SingleExpression::Optional(Optional("s".into())),
//! ]);
//!
//! assert_eq!(
//!     expression.into_regex_char_iter().collect().unwrap(),
//!     r"^I have ((?:-?\d+)|(?:\d+)) cucumber(?:s)?$",
//! );
//! ```
//!
//! The rules are written down as mathematical functions in
//! [`expand::rules`], and every executable function of the crate is proved
//! to compute what they say. [`expand::laws`] and [`expand::escape`] hold
//! what is proved of the rules themselves. What is taken from other crates
//! without proof is gathered in [`expand::outside`].
//!
//! [0]: https://github.com/cucumber/cucumber-expressions#readme
//! [1]: https://git.io/J159T

pub mod ast;
pub mod expand;

pub use self::ast::{
    Alternation, Alternative, Expression, Optional, Parameter, SingleAlternation,
    SingleExpression,
};
