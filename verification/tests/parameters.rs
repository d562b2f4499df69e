use cucumber_expressions::expand::parameters::{Provider, StringHashMap, WithCustom};
use cucumber_expressions::expand::{Error, IntoRegexCharIter, UnknownParameterError};
use cucumber_expressions::{Expression, Parameter, SingleExpression};

fn custom(entries: &[(&str, &str)]) -> Vec<(String, String)> {
    entries
        .iter()
        .map(|(name, matcher)| ((*name).to_owned(), (*matcher).to_owned()))
        .collect()
}

fn hashed(entries: &[(&str, &str)]) -> StringHashMap<String> {
    let mut map = StringHashMap::new();
    for (name, matcher) in entries {
        map.insert((*name).to_owned(), (*matcher).to_owned());
    }
    map
}

fn text(s: &str) -> SingleExpression {
    SingleExpression::Text(s.to_owned())
}

fn parameter(s: &str) -> SingleExpression {
    SingleExpression::Parameter(Parameter(s.to_owned()))
}

fn parsed(singles: Vec<SingleExpression>) -> Result<Expression, String> {
    Ok(Expression(singles))
}

#[test]
fn custom_parameter() {
    // {custom}
    let pars = hashed(&[("custom", "custom")]);
    let expr = Expression::regex_with_parameters(parsed(vec![parameter("custom")]), &pars)
        .unwrap_or_else(|e| panic!("failed: {:?}", e));

    assert_eq!(expr.as_str(), "^(custom)$");
}

#[test]
fn default_parameter() {
    // {}
    let pars = hashed(&[("custom", "custom")]);
    let expr = Expression::regex_with_parameters(parsed(vec![parameter("")]), &pars)
        .unwrap_or_else(|e| panic!("failed: {:?}", e));

    assert_eq!(expr.as_str(), "^(.*)$");
}

#[test]
fn parameters_unknown_parameter() {
    // {custom}
    let pars = StringHashMap::<String>::new();

    match Expression::regex_with_parameters(parsed(vec![parameter("custom")]), &pars)
        .unwrap_err()
    {
        Error::Expansion(UnknownParameterError { not_found }) => {
            assert_eq!(not_found, "custom");
        }
        e @ (Error::Regex(_) | Error::Parsing(_)) => {
            panic!("wrong err: {:?}", e)
        }
    }
}

#[test]
fn custom_matcher_is_not_escaped() {
    // {word} has {color} eyes
    let parameters = custom(&[("color", "[Rr]ed|[Gg]reen|[Bb]lue")]);
    let re = Expression::regex_with_parameters(
        parsed(vec![
            parameter("word"),
            SingleExpression::Whitespaces(" ".to_owned()),
            text("has"),
            SingleExpression::Whitespaces(" ".to_owned()),
            parameter("color"),
            SingleExpression::Whitespaces(" ".to_owned()),
            text("eyes"),
        ]),
        &parameters,
    )
    .unwrap();

    assert_eq!(
        re.as_str(),
        "^([^\\s]+) has ([Rr]ed|[Gg]reen|[Bb]lue) eyes$",
    );
}

#[test]
fn custom_matcher_wins_over_built_in() {
    let pars = custom(&[("int", "[0-9]+"), ("", "anything")]);

    let expr =
        Expression::regex_with_parameters(parsed(vec![parameter("int")]), &pars).unwrap();
    assert_eq!(expr.as_str(), "^([0-9]+)$");

    let expr = Expression::regex_with_parameters(parsed(vec![parameter("")]), &pars).unwrap();
    assert_eq!(expr.as_str(), "^(anything)$");

    let expr =
        Expression::regex_with_parameters(parsed(vec![parameter("word")]), &pars).unwrap();
    assert_eq!(expr.as_str(), "^([^\\s]+)$");
}

#[test]
fn parsing_failure_is_handed_on_with_parameters() {
    let pars = custom(&[("custom", "custom")]);
    let failed: Result<Expression, String> = Err("nested parameter".to_owned());

    match Expression::regex_with_parameters(failed, &pars).unwrap_err() {
        Error::Parsing(e) => assert_eq!(e, "nested parameter"),
        e => panic!("wrong err: {:?}", e),
    }
}

#[test]
fn refusal_of_a_custom_matcher_is_handed_on() {
    let pars = custom(&[("broken", "[")]);

    match Expression::regex_with_parameters(parsed(vec![parameter("broken")]), &pars)
        .unwrap_err()
    {
        Error::Regex(_) => {}
        e => panic!("wrong err: {:?}", e),
    }
}

#[test]
fn custom_parameter_of_a_list() {
    let pars = custom(&[("custom", "custom")]);
    let expr = Expression::regex_with_parameters(parsed(vec![parameter("custom")]), &pars)
        .unwrap_or_else(|e| panic!("failed: {:?}", e));

    assert_eq!(expr.as_str(), "^(custom)$");
}

#[test]
fn default_parameter_beside_a_list() {
    let pars = custom(&[("custom", "custom")]);
    let expr = Expression::regex_with_parameters(parsed(vec![parameter("")]), &pars)
        .unwrap_or_else(|e| panic!("failed: {:?}", e));

    assert_eq!(expr.as_str(), "^(.*)$");
}

#[test]
fn unknown_parameter_of_an_empty_list() {
    let pars = Vec::<(String, String)>::new();

    match Expression::regex_with_parameters(parsed(vec![parameter("custom")]), &pars)
        .unwrap_err()
    {
        Error::Expansion(UnknownParameterError { not_found }) => {
            assert_eq!(not_found, "custom");
        }
        e => panic!("wrong err: {:?}", e),
    }
}

#[test]
fn first_entry_of_a_name_counts() {
    let pars = custom(&[("a", "first"), ("b", "other"), ("a", "second")]);

    assert_eq!(Provider::get(&pars, "a"), Some("first".to_owned()));
    assert_eq!(Provider::get(&pars, "b"), Some("other".to_owned()));
    assert_eq!(Provider::get(&pars, "c"), None);
}

#[test]
fn hash_map_provides_its_entries() {
    let pars = hashed(&[("custom", "matcher"), ("other", "")]);

    assert_eq!(Provider::get(&pars, "custom"), Some("matcher".to_owned()));
    assert_eq!(Provider::get(&pars, "other"), Some(String::new()));
    assert_eq!(Provider::get(&pars, "Custom"), None);
    assert_eq!(Provider::get(&pars, ""), None);
    assert_eq!(Provider::get(&&pars, "custom"), Some("matcher".to_owned()));
    assert_eq!(Provider::get(&&pars, "matcher"), None);
}

#[test]
fn provider_is_asked_for_each_parameter() {
    let pars = custom(&[("a", "x"), ("b", "y")]);
    let expr = Expression(vec![
        parameter("a"),
        text("-"),
        parameter("b"),
        text("-"),
        parameter("a"),
    ]);

    let pattern = expr
        .with_parameters(&pars)
        .into_regex_char_iter()
        .collect()
        .unwrap();

    assert_eq!(pattern, "^(x)-(y)-(x)$");
}

#[test]
fn with_parameters_pairs_element_and_parameters() {
    let pars = custom(&[("custom", "custom")]);
    let expr = Expression(vec![parameter("custom")]);

    let paired = expr.clone().with_parameters(&pars);

    assert_eq!(paired.element, expr);
    assert_eq!(paired.parameters, &pars);
    assert!(std::ptr::eq(paired.parameters, &pars));
}

#[test]
fn elements_with_custom_parameters() {
    let pars = custom(&[("custom", "a|b")]);

    let single = WithCustom {
        element: parameter("custom"),
        parameters: &pars,
    };
    assert_eq!(single.into_regex_char_iter().collect().unwrap(), "(a|b)");

    let single = WithCustom {
        element: text("a|b"),
        parameters: &pars,
    };
    assert_eq!(single.into_regex_char_iter().collect().unwrap(), r"a\|b");

    let known = WithCustom {
        element: Parameter("custom".to_owned()),
        parameters: &pars,
    };
    assert_eq!(known.into_regex_char_iter().collect().unwrap(), "(a|b)");

    let built_in = WithCustom {
        element: Parameter("int".to_owned()),
        parameters: &pars,
    };
    assert_eq!(
        built_in.into_regex_char_iter().collect().unwrap(),
        r"((?:-?\d+)|(?:\d+))",
    );

    let unknown = WithCustom {
        element: Parameter("unknown".to_owned()),
        parameters: &pars,
    };
    assert_eq!(
        unknown.into_regex_char_iter().collect().unwrap_err().not_found,
        "unknown",
    );
}
