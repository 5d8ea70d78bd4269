use pyo3_rustpython::ffi::{
    checked_index, dict_next_position, new_list_len, parse_tuple_and_keywords, slice_bounds,
    parse_args_error, reads_keyword_names, ArgSlot, KeywordArgs, ParseArgsError, ParseArgsException,
};

#[test]
fn index_checks() {
    assert_eq!(checked_index(0, 3), Some(0));
    assert_eq!(checked_index(2, 3), Some(2));
    assert_eq!(checked_index(3, 3), None);
    assert_eq!(checked_index(-1, 3), None);
    assert_eq!(checked_index(0, 0), None);
}

#[test]
fn slice_bounds_clamp() {
    assert_eq!(slice_bounds(1, 3, 5), (1, 3));
    assert_eq!(slice_bounds(-4, 2, 5), (0, 2));
    assert_eq!(slice_bounds(2, 100, 5), (2, 5));
    assert_eq!(slice_bounds(3, 1, 5), (3, 3));
    assert_eq!(slice_bounds(5, 9, 5), (5, 5));
    assert_eq!(slice_bounds(-1, -1, 0), (0, 0));
    assert_eq!(slice_bounds(5, 6, 3), (3, 3));
}

#[test]
fn dict_walk_visits_each_entry_once() {
    let mut pos: isize = 0;
    let mut seen = Vec::new();
    while let Some((k, next)) = dict_next_position(pos, 4) {
        seen.push(k);
        pos = next;
    }
    assert_eq!(seen, vec![0, 1, 2, 3]);
    assert_eq!(pos, 4);
    assert_eq!(dict_next_position(-3, 4), None);
}

#[test]
fn new_list_lengths() {
    assert_eq!(new_list_len(3), 3);
    assert_eq!(new_list_len(0), 0);
    assert_eq!(new_list_len(-5), 0);
}

#[test]
fn parse_one_positional() {
    let args = vec![Some(5)];
    assert_eq!(parse_tuple_and_keywords("l|l", Some(&args), KeywordArgs::Absent), Ok((5, 0)));
}

#[test]
fn parse_two_positionals() {
    let args = vec![Some(5), Some(-7)];
    assert_eq!(parse_tuple_and_keywords("l|l", Some(&args), KeywordArgs::Absent), Ok((5, -7)));
}

#[test]
fn keywords_override_positionals() {
    let args = vec![Some(1), Some(2)];
    let kw = KeywordArgs::Dict { first: Some(Some(10)), second: None };
    assert_eq!(parse_tuple_and_keywords("l|l", Some(&args), kw), Ok((10, 2)));
    let one = vec![Some(1)];
    let kw = KeywordArgs::Dict { first: None, second: Some(Some(20)) };
    assert_eq!(parse_tuple_and_keywords("l|l", Some(&one), kw), Ok((1, 20)));
}

#[test]
fn parse_errors() {
    let args = vec![Some(1)];
    assert_eq!(
        parse_tuple_and_keywords("ll", Some(&args), KeywordArgs::Absent),
        Err(ParseArgsError::UnsupportedFormat)
    );
    assert_eq!(
        parse_tuple_and_keywords("l|l", None, KeywordArgs::Absent),
        Err(ParseArgsError::ArgsNotTuple)
    );
    let none: Vec<Option<i64>> = vec![];
    assert_eq!(
        parse_tuple_and_keywords("l|l", Some(&none), KeywordArgs::Absent),
        Err(ParseArgsError::ArgumentCount)
    );
    let three = vec![Some(1), Some(2), Some(3)];
    assert_eq!(
        parse_tuple_and_keywords("l|l", Some(&three), KeywordArgs::Absent),
        Err(ParseArgsError::ArgumentCount)
    );
    let bad_first = vec![None, Some(2)];
    assert_eq!(
        parse_tuple_and_keywords("l|l", Some(&bad_first), KeywordArgs::Absent),
        Err(ParseArgsError::NotAnInteger(ArgSlot::First))
    );
    let bad_second = vec![Some(1), None];
    assert_eq!(
        parse_tuple_and_keywords("l|l", Some(&bad_second), KeywordArgs::Absent),
        Err(ParseArgsError::NotAnInteger(ArgSlot::Second))
    );
    assert_eq!(
        parse_tuple_and_keywords("l|l", Some(&args), KeywordArgs::NotDict),
        Err(ParseArgsError::KeywordsNotDict)
    );
    let kw = KeywordArgs::Dict { first: Some(None), second: None };
    assert_eq!(
        parse_tuple_and_keywords("l|l", Some(&args), kw),
        Err(ParseArgsError::NotAnInteger(ArgSlot::First))
    );
    let kw = KeywordArgs::Dict { first: None, second: Some(None) };
    assert_eq!(
        parse_tuple_and_keywords("l|l", Some(&args), kw),
        Err(ParseArgsError::NotAnInteger(ArgSlot::Second))
    );
}

#[test]
fn positional_error_comes_before_keywords() {
    let bad_first = vec![None];
    assert_eq!(
        parse_tuple_and_keywords("l|l", Some(&bad_first), KeywordArgs::NotDict),
        Err(ParseArgsError::NotAnInteger(ArgSlot::First))
    );
}

#[test]
fn parse_failures_raise_their_exceptions() {
    assert_eq!(
        parse_args_error(ParseArgsError::NotAnInteger(ArgSlot::Second), "foo", "bar", "\"l|l\""),
        (ParseArgsException::TypeError, "bar must be an integer".to_string())
    );
    assert_eq!(
        parse_args_error(ParseArgsError::UnsupportedFormat, "foo", "bar", "\"i\""),
        (
            ParseArgsException::NotImplementedError,
            "PyArg_ParseTupleAndKeywords only supports format 'l|l', got \"i\"".to_string()
        )
    );
    assert_eq!(
        parse_args_error(ParseArgsError::KeywordsNotDict, "", "", ""),
        (ParseArgsException::TypeError, "keywords must be a dict".to_string())
    );
}

#[test]
fn keyword_names_are_read_only_after_the_shape_checks() {
    let one = vec![Some(1i64)];
    let three = vec![Some(1i64), Some(2), Some(3)];
    let empty: Vec<Option<i64>> = vec![];
    assert!(reads_keyword_names("l|l", Some(&one)));
    assert!(!reads_keyword_names("ll", Some(&one)));
    assert!(!reads_keyword_names("l|l", None));
    assert!(!reads_keyword_names("l|l", Some(&three)));
    assert!(!reads_keyword_names("l|l", Some(&empty)));
    let not_int = vec![None];
    assert!(reads_keyword_names("l|l", Some(&not_int)));
}
