use regexp_extract::regexp_extract;
use regexp_extract::ArgValue;
use regexp_extract::ExtractError;
use regexp_extract::PatternCache;

fn text_column(vals: Vec<Option<&str>>) -> ArgValue {
    let mut rows: Vec<Option<String>> = Vec::new();
    for v in vals {
        rows.push(v.map(|s| s.to_string()));
    }
    ArgValue::TextColumn(rows)
}

fn pattern_arg(p: &str) -> ArgValue {
    ArgValue::TextScalar(Some(p.to_string()))
}

fn idx_arg(i: i64) -> ArgValue {
    ArgValue::IntScalar(Some(i))
}

fn invoke(args: Vec<ArgValue>) -> Result<Vec<Option<String>>, ExtractError> {
    let mut cache = PatternCache::new();
    regexp_extract(&args, &mut cache)
}

fn extract(
    s: ArgValue,
    pattern: &str,
    idx: i64,
) -> Result<Vec<Option<String>>, ExtractError> {
    invoke(vec![s, pattern_arg(pattern), idx_arg(idx)])
}

#[test]
fn regexp_extract_scalar_literals() {
    let out = extract(text_column(vec![Some("abc-123")]), "([a-z]+)-(\\d+)", 2)
        .expect("regexp_extract should return Utf8 array");
    assert_eq!(out[0].as_deref(), Some("123"));
}

#[test]
fn regexp_extract_idx_zero_returns_whole_match() {
    let out = extract(text_column(vec![Some("xxabcdyy")]), "(ab)(cd)", 0)
        .expect("regexp_extract should return Utf8 array");
    assert_eq!(out[0].as_deref(), Some("abcd"));
}

#[test]
fn regexp_extract_array_values_with_no_match() {
    let out = extract(
        text_column(vec![Some("xxabcdyy"), Some("no match"), Some("abc-123")]),
        "(ab)(cd)",
        1,
    )
    .expect("regexp_extract should return Utf8 array");
    assert_eq!(
        out,
        vec![
            Some("ab".to_string()),
            Some("".to_string()),
            Some("".to_string())
        ]
    );
}

#[test]
fn regexp_extract_errors_on_null_pattern() {
    let err = invoke(vec![
        ArgValue::TextScalar(Some("abc".to_string())),
        ArgValue::TextScalar(None),
        idx_arg(1),
    ])
    .expect_err("null pattern should fail");
    assert!(err.message().contains("pattern must not be NULL"));
}

#[test]
fn regexp_extract_errors_on_null_index() {
    let err = invoke(vec![
        ArgValue::TextScalar(Some("abc".to_string())),
        pattern_arg("(a)"),
        ArgValue::IntScalar(None),
    ])
    .expect_err("null idx should fail");
    assert!(err.message().contains("idx must not be NULL"));
}

#[test]
fn regexp_extract_errors_on_negative_index() {
    let err = invoke(vec![
        ArgValue::TextScalar(Some("abc".to_string())),
        pattern_arg("(a)"),
        idx_arg(-1),
    ])
    .expect_err("negative index should fail");
    assert!(err.message().contains("group index must be non-negative"));
}

#[test]
fn regexp_extract_errors_on_out_of_range_group() {
    let err = extract(text_column(vec![Some("abc")]), "(a)", 2)
        .expect_err("out-of-range group index should fail");
    assert!(err.message().contains("out of range"));
}

#[test]
fn regexp_extract_errors_on_wrong_arity() {
    let err = invoke(vec![
        ArgValue::TextScalar(Some("abc".to_string())),
        pattern_arg("(a)"),
    ])
    .expect_err("wrong number of arguments should fail");
    assert!(err.message().contains("expects 3 arguments"));
}

#[test]
fn regexp_extract_errors_when_pattern_is_non_utf8_scalar() {
    let err = invoke(vec![
        ArgValue::TextScalar(Some("abc".to_string())),
        ArgValue::IntScalar(Some(42)),
        idx_arg(1),
    ])
    .expect_err("non-utf8 pattern should fail");
    assert!(err.message().contains("pattern must be Utf8 scalar"));
}

#[test]
fn regexp_extract_errors_when_pattern_is_array() {
    let err = invoke(vec![
        ArgValue::TextScalar(Some("abc".to_string())),
        text_column(vec![Some("(a)")]),
        idx_arg(1),
    ])
    .expect_err("pattern array should fail");
    assert!(err.message().contains("pattern must be a scalar"));
}

#[test]
fn regexp_extract_errors_when_idx_is_non_int64_scalar() {
    let err = invoke(vec![
        ArgValue::TextScalar(Some("abc".to_string())),
        pattern_arg("(a)"),
        ArgValue::TextScalar(Some("1".to_string())),
    ])
    .expect_err("non-int64 idx should fail");
    assert!(err.message().contains("idx must be Int64 scalar"));
}

#[test]
fn regexp_extract_errors_when_idx_is_array() {
    let err = invoke(vec![
        ArgValue::TextScalar(Some("abc".to_string())),
        pattern_arg("(a)"),
        ArgValue::OtherColumn,
    ])
    .expect_err("idx array should fail");
    assert!(err.message().contains("idx must be a scalar"));
}

#[test]
fn regexp_extract_errors_on_invalid_regex_pattern() {
    let err = extract(text_column(vec![Some("abc")]), "(", 1)
        .expect_err("invalid regex should fail");
    assert!(err.message().contains("Invalid regex pattern"));
}

#[test]
fn regexp_extract_errors_when_scalar_str_is_non_utf8() {
    let err = invoke(vec![
        ArgValue::IntScalar(Some(7)),
        pattern_arg("(a)"),
        idx_arg(1),
    ])
    .expect_err("non-utf8 string scalar should fail");
    assert!(err
        .message()
        .contains("str must be an array in this implementation"));
}

#[test]
fn regexp_extract_errors_when_scalar_str_is_null() {
    let err = extract(ArgValue::TextScalar(None), "(a)", 1)
        .expect_err("null string scalar should fail");
    assert!(err
        .message()
        .contains("str must be an array in this implementation"));
}

#[test]
fn regexp_extract_errors_when_array_str_is_non_utf8() {
    let err = extract(ArgValue::OtherColumn, "(a)", 1)
        .expect_err("non-utf8 string array should fail");
    assert!(err.message().contains("str must be a Utf8 array"));
}

#[test]
fn regexp_extract_array_str_nulls_are_accepted() {
    let out = extract(text_column(vec![Some("abc"), None, Some("def")]), "(a)", 1)
        .expect("null rows in string array should be accepted");
    assert_eq!(
        out,
        vec![Some("a".to_string()), None, Some("".to_string())]
    );
}
