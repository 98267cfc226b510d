use ruff_fmt::decode::{RawEntry, RawValue};


fn entry_text(key: &str, value: &str) -> RawEntry {
    RawEntry { key: key.to_string(), value: RawValue::Text(value.to_string()) }
}

fn entry_number(key: &str, value: u64) -> RawEntry {
    RawEntry { key: key.to_string(), value: RawValue::Number(value) }
}

#[test]
fn formats_simple_source_with_defaults() {
    let out = ruff_fmt::format("x=1", None, None).unwrap();
    assert_eq!(out, "x = 1\n");
}

#[test]
fn formatting_is_idempotent() {
    let source = "def f( a,b ):\n        return   a+b\n";
    let once = ruff_fmt::format(source, None, None).unwrap();
    let twice = ruff_fmt::format(&once, None, None).unwrap();
    assert_eq!(once, twice);
}

#[test]
fn empty_source_formats_to_empty_output() {
    let out = ruff_fmt::format("", None, None).unwrap();
    assert_eq!(out, "");
}

#[test]
fn unknown_config_field_fails_before_formatting() {
    let config = vec![entry_number("frobnicate", 4)];
    let err = ruff_fmt::format("x=1", None, Some(config)).unwrap_err();
    assert_eq!(err, "unknown configuration field `frobnicate`");
}

#[test]
fn invalid_syntax_fails_with_a_formatting_error() {
    let err = ruff_fmt::format("def f(:\n", None, None).unwrap_err();
    // A formatting failure, not a decode failure: the decoder never ran.
    assert!(!err.contains("configuration field"));
    assert!(!err.is_empty());
}

#[test]
fn quote_style_reaches_the_engine() {
    let config = vec![entry_text("quote_style", "single")];
    let out = ruff_fmt::format("x = \"a\"\n", None, Some(config)).unwrap();
    assert_eq!(out, "x = 'a'\n");
}

#[test]
fn indent_width_reaches_the_engine() {
    let config = vec![entry_number("indent_width", 2)];
    let out = ruff_fmt::format("def f():\n    return 1\n", None, Some(config)).unwrap();
    assert_eq!(out, "def f():\n  return 1\n");
}

#[test]
fn line_ending_reaches_the_engine() {
    let config = vec![entry_text("line_ending", "crlf")];
    let out = ruff_fmt::format("x=1", None, Some(config)).unwrap();
    assert_eq!(out, "x = 1\r\n");
}

#[test]
fn magic_trailing_comma_is_respected_by_default() {
    let source = "x = [1,]\n";
    let respected = ruff_fmt::format(source, None, None).unwrap();
    let config = vec![entry_text("magic_trailing_comma", "ignore")];
    let ignored = ruff_fmt::format(source, None, Some(config)).unwrap();
    assert_eq!(
        respected,
        "x = [\n    1,\n]\n"
    );
    assert_eq!(ignored, "x = [1]\n");
}
