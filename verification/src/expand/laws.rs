//! What holds of every expansion.

use super::rules::{
    branch_chars, collected, expression_chars, literal, parameter_chars, pattern, resolved,
    separated, single_chars, singles_chars, Matchers, RegexChar,
};
use crate::ast::{Alternative, Expression, SingleAlternation, SingleExpression};
use vstd::prelude::*;

verus! {

/// Whether each of the given items is a character.
pub open spec fn all_chars(items: Seq<RegexChar>) -> bool {
    forall|i: int| 0 <= i < items.len() ==> (#[trigger] items[i]) is Ok
}

/// The characters that the given items are, where each of them is one.
pub open spec fn chars_of(items: Seq<RegexChar>) -> Seq<char> {
    Seq::new(items.len(), |i: int| items[i]->Ok_0)
}

/// Whether the given element is something else than a parameter that
/// neither `custom` nor the built-in parameters know.
pub open spec fn is_known(single: SingleExpression, custom: Matchers) -> bool {
    match single {
        SingleExpression::Parameter(parameter) => resolved(parameter.0@, custom) is Some,
        _ => true,
    }
}

/// Items that are all characters are gathered into the text that they
/// make.
pub proof fn lemma_collected_chars(items: Seq<RegexChar>)
    requires
        all_chars(items),
    ensures
        collected(items) == Ok::<Seq<char>, Seq<char>>(chars_of(items)),
    decreases items.len(),
{
    if items.len() == 0 {
        assert(chars_of(items) =~= Seq::empty());
    } else {
        let rest = items.drop_first();
        lemma_collected_chars(rest);
        assert(seq![items[0]->Ok_0] + chars_of(rest) =~= chars_of(items));
    }
}

/// Gathering items fails with the name that the first failure among them
/// carries.
pub proof fn lemma_collected_failure(items: Seq<RegexChar>, at: int)
    requires
        0 <= at < items.len(),
        items[at] is Err,
        forall|i: int| 0 <= i < at ==> (#[trigger] items[i]) is Ok,
    ensures
        collected(items) == Err::<Seq<char>, Seq<char>>(items[at]->Err_0),
    decreases items.len(),
{
    if at > 0 {
        lemma_collected_failure(items.drop_first(), at - 1);
    }
}

/// The expansion of a branch holds no failure.
proof fn lemma_branch_all_chars(branch: Seq<Alternative>)
    ensures
        all_chars(branch_chars(branch)),
    decreases branch.len(),
{
    if branch.len() > 0 {
        lemma_branch_all_chars(branch.drop_last());
    }
}

/// Branches separated by `|` hold no failure.
proof fn lemma_separated_all_chars(branches: Seq<SingleAlternation>)
    ensures
        all_chars(separated(branches)),
    decreases branches.len(),
{
    if branches.len() > 0 {
        lemma_branch_all_chars(branches.last()@);
        if branches.len() > 1 {
            lemma_separated_all_chars(branches.drop_last());
        }
    }
}

/// The expansion of an element holds no failure, unless the element is a
/// parameter that nothing is known of.
proof fn lemma_single_all_chars(single: SingleExpression, custom: Matchers)
    requires
        is_known(single, custom),
    ensures
        all_chars(single_chars(single, custom)),
{
    match single {
        SingleExpression::Alternation(alternation) => {
            lemma_separated_all_chars(alternation.0@);
        },
        _ => {},
    }
}

/// The expansion of elements holds no failure, unless a parameter among
/// them is one that nothing is known of.
proof fn lemma_singles_all_chars(singles: Seq<SingleExpression>, custom: Matchers)
    requires
        forall|i: int| 0 <= i < singles.len() ==> is_known(#[trigger] singles[i], custom),
    ensures
        all_chars(singles_chars(singles, custom)),
    decreases singles.len(),
{
    if singles.len() > 0 {
        lemma_singles_all_chars(singles.drop_last(), custom);
        lemma_single_all_chars(singles.last(), custom);
    }
}

/// Elements are expanded one by one: the expansion of a sequence of them is
/// that of any front part of it followed by that of the rest.
proof fn lemma_singles_in_parts(singles: Seq<SingleExpression>, custom: Matchers, at: int)
    requires
        0 <= at <= singles.len(),
    ensures
        singles_chars(singles, custom) == singles_chars(singles.take(at), custom) + singles_chars(
            singles.skip(at),
            custom,
        ),
    decreases singles.len(),
{
    if at == singles.len() {
        assert(singles.take(at) =~= singles);
    } else {
        let front = singles.drop_last();
        lemma_singles_in_parts(front, custom, at);
        assert(front.take(at) =~= singles.take(at));
        assert(singles.skip(at).drop_last() =~= front.skip(at));
    }
}

/// An expression in which every parameter is known, to the custom matchers
/// or as a built-in one, expands to a text that begins with `^` and ends
/// with `$`.
pub proof fn lemma_known_parameters_expand(expression: Expression, custom: Matchers)
    requires
        forall|i: int|
            0 <= i < expression.0.len() ==> is_known(#[trigger] expression.0[i], custom),
    ensures
        pattern(expression, custom) is Ok,
        pattern(expression, custom)->Ok_0.len() >= 2,
        pattern(expression, custom)->Ok_0.first() == '^',
        pattern(expression, custom)->Ok_0.last() == '$',
{
    let items = expression_chars(expression, custom);
    lemma_singles_all_chars(expression.0@, custom);
    lemma_collected_chars(items);
}

/// An expression without any parameter always expands, whatever custom
/// matchers there are, and its text begins with `^` and ends with `$`.
pub proof fn lemma_parameter_free_expands(expression: Expression, custom: Matchers)
    requires
        forall|i: int|
            0 <= i < expression.0.len() ==> !((#[trigger] expression.0[i]) is Parameter),
    ensures
        pattern(expression, custom) is Ok,
        pattern(expression, custom)->Ok_0.len() >= 2,
        pattern(expression, custom)->Ok_0.first() == '^',
        pattern(expression, custom)->Ok_0.last() == '$',
{
    lemma_known_parameters_expand(expression, custom);
}

/// A name that the custom matchers know stands for the custom matcher in
/// one capturing group, also where a built-in parameter has that name.
pub proof fn lemma_custom_matcher_wins(name: Seq<char>, custom: Matchers)
    requires
        custom.contains_key(name),
    ensures
        parameter_chars(name, custom) == literal(seq!['('] + custom[name] + seq![')']),
{
}

/// The expansion of an expression fails with the name of the first
/// parameter in it that nothing is known of, wherever that parameter
/// stands.
pub proof fn lemma_unknown_parameter_fails(expression: Expression, custom: Matchers, at: int)
    requires
        0 <= at < expression.0.len(),
        expression.0[at] is Parameter,
        !is_known(expression.0[at], custom),
        forall|i: int| 0 <= i < at ==> is_known(#[trigger] expression.0[i], custom),
    ensures
        pattern(expression, custom) == Err::<Seq<char>, Seq<char>>(
            expression.0[at]->Parameter_0.0@,
        ),
{
    let singles = expression.0@;
    let name = singles[at]->Parameter_0.0@;
    let front = singles.take(at);
    let back = singles.skip(at);
    lemma_singles_in_parts(singles, custom, at);
    lemma_singles_in_parts(back, custom, 1);
    lemma_singles_all_chars(front, custom);
    let one = back.take(1);
    assert(singles_chars(one.drop_last(), custom) =~= Seq::empty());
    let items = expression_chars(expression, custom);
    let found = singles_chars(front, custom).len() + 1int;
    lemma_collected_failure(items, found);
}

} // verus!
