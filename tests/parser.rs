use libtmsu::query::Expression::{And, Equal, GreaterOrEqual, Or, Tagged};
use libtmsu::parser::parse;
use libtmsu::query::Query;
use libtmsu::tag::Tag;
use libtmsu::value::Value;

#[test]
fn parser_parse_single_tag_query() {
    let actual = parse("single").unwrap().unwrap();
    let expected = Query(Tagged(Tag("single".into())));

    assert_eq!(expected, actual);
}

#[test]
fn parser_parse_implicit_and() {
    let actual = parse("left right").unwrap().unwrap();
    let expected = Query(And(
        Tagged(Tag("left".into())).into(),
        Tagged(Tag("right".into())).into(),
    ));

    assert_eq!(expected, actual);
}

#[test]
fn parser_parse_explicit_and() {
    let actual = parse("left and right").unwrap().unwrap();
    let expected = Query(And(
        Tagged(Tag("left".into())).into(),
        Tagged(Tag("right".into())).into(),
    ));

    assert_eq!(expected, actual);
}

#[test]
fn parser_parse_quoted_tag() {
    let actual = parse("\"left and right\"").unwrap().unwrap();
    let expected = Query(Tagged(Tag("left and right".into())));

    assert_eq!(expected, actual);
}

#[test]
fn parser_parse_comparisons() {
    let actual = parse("colour=red size == big wheels >= 4")
        .unwrap()
        .unwrap();
    let expected = Query(And(
        Equal(Tag("colour".into()), Value("red".into())).into(),
        And(
            Equal(Tag("size".into()), Value("big".into())).into(),
            GreaterOrEqual(Tag("wheels".into()), Value("4".into())).into(),
        )
        .into(),
    ));

    assert_eq!(expected, actual);
}

#[test]
fn parser_parse_operator_precedence() {
    let actual = parse("left or right and wrong").unwrap().unwrap();
    let expected = Query(Or(
        Tagged(Tag("left".into())).into(),
        And(
            Tagged(Tag("right".into())).into(),
            Tagged(Tag("wrong".into())).into(),
        )
        .into(),
    ));

    assert_eq!(expected, actual);
}

#[test]
fn parser_parse_parentheses() {
    let actual = parse("(left or right) and wrong").unwrap().unwrap();
    let expected = Query(And(
        Or(
            Tagged(Tag("left".into())).into(),
            Tagged(Tag("right".into())).into(),
        )
        .into(),
        Tagged(Tag("wrong".into())).into(),
    ));

    assert_eq!(expected, actual);
}

#[test]
fn parser_tag_names() {
    let query = parse("colour == red and not (size == big or year < 2025)")
        .unwrap()
        .unwrap();

    assert_eq!(
        query.tags(),
        vec![Tag("colour".into()), Tag("size".into()), Tag("year".into())]
    );
}

#[test]
fn parser_value_names() {
    let query = parse("colour == red and not (size == big or year < 2025)")
        .unwrap()
        .unwrap();

    assert_eq!(
        query.values(),
        vec![
            Value("red".into()),
            Value("big".into()),
            Value("2025".into())
        ]
    );
}
