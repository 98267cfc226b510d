use ruff_fmt::config::{
    Configuration, IndentStyle, LineEnding, MagicTrailingComma, QuoteStyle, SourceKind,
};
use ruff_fmt::decode::{DecodeError, RawEntry, RawValue};
use ruff_fmt::resolve::{encode, resolve};

fn entry_text(key: &str, value: &str) -> RawEntry {
    RawEntry { key: key.to_string(), value: RawValue::Text(value.to_string()) }
}

fn entry_number(key: &str, value: u64) -> RawEntry {
    RawEntry { key: key.to_string(), value: RawValue::Number(value) }
}

#[test]
fn resolve_nothing_yields_engine_defaults() {
    let resolved = resolve(None, None).unwrap();
    assert_eq!(resolved, Configuration::engine_default());
    assert_eq!(resolved.indent_style, IndentStyle::Space);
    assert_eq!(resolved.indent_width, 4);
    assert_eq!(resolved.line_width, 88);
    assert_eq!(resolved.line_ending, LineEnding::Lf);
    assert_eq!(resolved.quote_style, QuoteStyle::Double);
    assert_eq!(resolved.magic_trailing_comma, MagicTrailingComma::Respect);
    assert_eq!(resolved.source_kind, SourceKind::Regular);
}

#[test]
fn resolve_round_trips_an_encoded_configuration() {
    let cfg = Configuration {
        indent_style: IndentStyle::Tab,
        indent_width: 2,
        line_width: 100,
        line_ending: LineEnding::Crlf,
        quote_style: QuoteStyle::Single,
        magic_trailing_comma: MagicTrailingComma::Ignore,
        source_kind: SourceKind::Regular,
    };
    let encoded = encode(&cfg);
    assert_eq!(resolve(Some(&encoded), None).unwrap(), cfg);
}

#[test]
fn resolve_round_trips_defaults_through_encoding() {
    let cfg = Configuration::engine_default();
    let encoded = encode(&cfg);
    assert_eq!(resolve(Some(&encoded), None).unwrap(), cfg);
}

#[test]
fn explicit_indent_width_wins_over_path() {
    let entries = vec![entry_number("indent_width", 4)];
    let with_path = resolve(Some(&entries), Some("foo.py")).unwrap();
    let with_stub_path = resolve(Some(&entries), Some("foo.pyi")).unwrap();
    let without_path = resolve(Some(&entries), None).unwrap();
    assert_eq!(with_path.indent_width, 4);
    assert_eq!(with_stub_path.indent_width, 4);
    assert_eq!(without_path.indent_width, 4);
}

#[test]
fn stub_path_derives_stub_source_kind() {
    assert_eq!(resolve(None, Some("foo.pyi")).unwrap().source_kind, SourceKind::Stub);
    assert_eq!(resolve(None, Some("foo.py")).unwrap().source_kind, SourceKind::Regular);
    assert_eq!(resolve(None, Some("dir/module.pyi")).unwrap().source_kind, SourceKind::Stub);
}

#[test]
fn empty_path_behaves_as_no_path() {
    assert_eq!(resolve(None, Some("")).unwrap(), resolve(None, None).unwrap());
    let entries = vec![entry_number("line_width", 120)];
    assert_eq!(
        resolve(Some(&entries), Some("")).unwrap(),
        resolve(Some(&entries), None).unwrap()
    );
}

#[test]
fn unknown_field_is_rejected_with_its_name() {
    let entries = vec![entry_number("frobnicate", 4)];
    let err = resolve(Some(&entries), None).unwrap_err();
    assert!(matches!(err, DecodeError::UnknownField { .. }));
    assert_eq!(err.message(), "unknown configuration field `frobnicate`");
}

#[test]
fn invalid_enum_value_is_rejected() {
    let entries = vec![entry_text("indent_style", "dotted")];
    let err = resolve(Some(&entries), None).unwrap_err();
    assert!(matches!(err, DecodeError::InvalidValue { .. }));
    assert_eq!(err.message(), "invalid value for configuration field `indent_style`");
}

#[test]
fn zero_width_is_rejected() {
    let entries = vec![entry_number("indent_width", 0)];
    let err = resolve(Some(&entries), None).unwrap_err();
    assert!(matches!(err, DecodeError::InvalidValue { .. }));
    let entries = vec![entry_number("line_width", 0)];
    assert!(matches!(
        resolve(Some(&entries), None).unwrap_err(),
        DecodeError::InvalidValue { .. }
    ));
}

#[test]
fn wrongly_typed_value_is_rejected() {
    let entries = vec![entry_text("indent_width", "four")];
    assert!(matches!(
        resolve(Some(&entries), None).unwrap_err(),
        DecodeError::InvalidValue { .. }
    ));
    let entries = vec![RawEntry { key: "quote_style".to_string(), value: RawValue::Other }];
    assert!(matches!(
        resolve(Some(&entries), None).unwrap_err(),
        DecodeError::InvalidValue { .. }
    ));
}

#[test]
fn duplicated_field_is_rejected() {
    let entries = vec![entry_number("line_width", 100), entry_number("line_width", 110)];
    let err = resolve(Some(&entries), None).unwrap_err();
    assert!(matches!(err, DecodeError::DuplicateField { .. }));
    assert_eq!(err.message(), "duplicate configuration field `line_width`");
}

#[test]
fn every_field_decodes_to_its_value() {
    let entries = vec![
        entry_text("indent_style", "tab"),
        entry_number("indent_width", 8),
        entry_number("line_width", 79),
        entry_text("line_ending", "crlf"),
        entry_text("quote_style", "single"),
        entry_text("magic_trailing_comma", "ignore"),
    ];
    let resolved = resolve(Some(&entries), None).unwrap();
    assert_eq!(resolved.indent_style, IndentStyle::Tab);
    assert_eq!(resolved.indent_width, 8);
    assert_eq!(resolved.line_width, 79);
    assert_eq!(resolved.line_ending, LineEnding::Crlf);
    assert_eq!(resolved.quote_style, QuoteStyle::Single);
    assert_eq!(resolved.magic_trailing_comma, MagicTrailingComma::Ignore);
}
