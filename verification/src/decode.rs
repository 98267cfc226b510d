//! Decoding of the loosely-typed boundary configuration.
//!
//! The caller hands the configuration over as a list of key/value entries in
//! which every value is a plain text, a plain non-negative integer, or some
//! other shape. Decoding turns that list into one optional override per
//! recognized field, rejecting unknown fields, invalid values and duplicated
//! fields. The decoder fails fast: the first offending entry decides the
//! error, and formatting is never attempted after a decode failure.

use vstd::prelude::*;

use crate::config::{IndentStyle, LineEnding, MagicTrailingComma, QuoteStyle};

verus! {

/// A boundary value, as loosely typed as the host environment allows.
#[derive(Clone, Debug)]
pub enum RawValue {
    /// A text value.
    Text(String),
    /// A non-negative integer value.
    Number(u64),
    /// Any other shape (fractional numbers, booleans, nested objects, ...);
    /// never valid for a recognized field.
    Other,
}

/// One field of the boundary configuration object.
#[derive(Clone, Debug)]
pub struct RawEntry {
    pub key: String,
    pub value: RawValue,
}

/// The decoded configuration: one optional explicit override per recognized
/// field. A `None` field falls back to the engine default when resolved.
#[derive(Clone, Copy, Debug)]
pub struct ConfigOverrides {
    pub indent_style: Option<IndentStyle>,
    pub indent_width: Option<u8>,
    pub line_width: Option<u16>,
    pub line_ending: Option<LineEnding>,
    pub quote_style: Option<QuoteStyle>,
    pub magic_trailing_comma: Option<MagicTrailingComma>,
}

/// Why a boundary configuration failed to decode. Each variant names the
/// offending field.
#[derive(Clone, Debug)]
pub enum DecodeError {
    /// The field is not a recognized configuration option.
    UnknownField { field: String },
    /// The field is recognized but its value is not one the field admits.
    InvalidValue { field: String },
    /// The field appears more than once.
    DuplicateField { field: String },
}

/// The display message of a decode failure; it always names the offending
/// field.
pub open spec fn spec_error_message(e: DecodeError) -> Seq<char> {
    match e {
        DecodeError::UnknownField { field } => "unknown configuration field `"@ + field@ + "`"@,
        DecodeError::InvalidValue { field } => "invalid value for configuration field `"@ + field@
            + "`"@,
        DecodeError::DuplicateField { field } => "duplicate configuration field `"@ + field@
            + "`"@,
    }
}

impl DecodeError {
    /// Renders the failure as the single display string the boundary
    /// surfaces.
    pub fn message(&self) -> (m: String)
        ensures
            m@ == spec_error_message(*self),
    {
        match self {
            DecodeError::UnknownField { field } => {
                let mut m = String::from_str("unknown configuration field `");
                m.append(field.as_str());
                m.append("`");
                m
            },
            DecodeError::InvalidValue { field } => {
                let mut m = String::from_str("invalid value for configuration field `");
                m.append(field.as_str());
                m.append("`");
                m
            },
            DecodeError::DuplicateField { field } => {
                let mut m = String::from_str("duplicate configuration field `");
                m.append(field.as_str());
                m.append("`");
                m
            },
        }
    }
}

/// The overrides record with every field unset.
pub open spec fn spec_empty_overrides() -> ConfigOverrides {
    ConfigOverrides {
        indent_style: None,
        indent_width: None,
        line_width: None,
        line_ending: None,
        quote_style: None,
        magic_trailing_comma: None,
    }
}

/// Whether `k` names a recognized configuration field.
pub open spec fn recognized_key(k: Seq<char>) -> bool {
    ||| k == "indent_style"@
    ||| k == "indent_width"@
    ||| k == "line_width"@
    ||| k == "line_ending"@
    ||| k == "quote_style"@
    ||| k == "magic_trailing_comma"@
}

/// Numeric overrides stay in the ranges the engine accepts.
pub open spec fn overrides_valid(ov: ConfigOverrides) -> bool {
    &&& match ov.indent_width {
        Some(w) => 1 <= w,
        None => true,
    }
    &&& match ov.line_width {
        Some(w) => 1 <= w,
        None => true,
    }
}

/// The effect of one entry on the decoded overrides: the new overrides, or
/// the error the entry provokes. Each recognized field admits exactly the
/// values listed here; setting a field twice is a duplicate.
pub open spec fn spec_apply_entry(acc: ConfigOverrides, e: RawEntry) -> Result<
    ConfigOverrides,
    DecodeError,
> {
    if e.key@ == "indent_style"@ {
        if acc.indent_style is Some {
            Err(DecodeError::DuplicateField { field: e.key })
        } else {
            match e.value {
                RawValue::Text(s) => if s@ == "tab"@ {
                    Ok(ConfigOverrides { indent_style: Some(IndentStyle::Tab), ..acc })
                } else if s@ == "space"@ {
                    Ok(ConfigOverrides { indent_style: Some(IndentStyle::Space), ..acc })
                } else {
                    Err(DecodeError::InvalidValue { field: e.key })
                },
                _ => Err(DecodeError::InvalidValue { field: e.key }),
            }
        }
    } else if e.key@ == "indent_width"@ {
        if acc.indent_width is Some {
            Err(DecodeError::DuplicateField { field: e.key })
        } else {
            match e.value {
                RawValue::Number(n) => if 1 <= n && n <= 255 {
                    Ok(ConfigOverrides { indent_width: Some(n as u8), ..acc })
                } else {
                    Err(DecodeError::InvalidValue { field: e.key })
                },
                _ => Err(DecodeError::InvalidValue { field: e.key }),
            }
        }
    } else if e.key@ == "line_width"@ {
        if acc.line_width is Some {
            Err(DecodeError::DuplicateField { field: e.key })
        } else {
            match e.value {
                RawValue::Number(n) => if 1 <= n && n <= 65535 {
                    Ok(ConfigOverrides { line_width: Some(n as u16), ..acc })
                } else {
                    Err(DecodeError::InvalidValue { field: e.key })
                },
                _ => Err(DecodeError::InvalidValue { field: e.key }),
            }
        }
    } else if e.key@ == "line_ending"@ {
        if acc.line_ending is Some {
            Err(DecodeError::DuplicateField { field: e.key })
        } else {
            match e.value {
                RawValue::Text(s) => if s@ == "lf"@ {
                    Ok(ConfigOverrides { line_ending: Some(LineEnding::Lf), ..acc })
                } else if s@ == "crlf"@ {
                    Ok(ConfigOverrides { line_ending: Some(LineEnding::Crlf), ..acc })
                } else {
                    Err(DecodeError::InvalidValue { field: e.key })
                },
                _ => Err(DecodeError::InvalidValue { field: e.key }),
            }
        }
    } else if e.key@ == "quote_style"@ {
        if acc.quote_style is Some {
            Err(DecodeError::DuplicateField { field: e.key })
        } else {
            match e.value {
                RawValue::Text(s) => if s@ == "single"@ {
                    Ok(ConfigOverrides { quote_style: Some(QuoteStyle::Single), ..acc })
                } else if s@ == "double"@ {
                    Ok(ConfigOverrides { quote_style: Some(QuoteStyle::Double), ..acc })
                } else {
                    Err(DecodeError::InvalidValue { field: e.key })
                },
                _ => Err(DecodeError::InvalidValue { field: e.key }),
            }
        }
    } else if e.key@ == "magic_trailing_comma"@ {
        if acc.magic_trailing_comma is Some {
            Err(DecodeError::DuplicateField { field: e.key })
        } else {
            match e.value {
                RawValue::Text(s) => if s@ == "respect"@ {
                    Ok(
                        ConfigOverrides {
                            magic_trailing_comma: Some(MagicTrailingComma::Respect),
                            ..acc
                        },
                    )
                } else if s@ == "ignore"@ {
                    Ok(
                        ConfigOverrides {
                            magic_trailing_comma: Some(MagicTrailingComma::Ignore),
                            ..acc
                        },
                    )
                } else {
                    Err(DecodeError::InvalidValue { field: e.key })
                },
                _ => Err(DecodeError::InvalidValue { field: e.key }),
            }
        }
    } else {
        Err(DecodeError::UnknownField { field: e.key })
    }
}

/// Decoding a list of entries, left to right, starting from `acc`.
pub open spec fn spec_decode_entries(entries: Seq<RawEntry>, acc: ConfigOverrides) -> Result<
    ConfigOverrides,
    DecodeError,
>
    decreases entries.len(),
{
    if entries.len() == 0 {
        Ok(acc)
    } else {
        match spec_apply_entry(acc, entries[0]) {
            Ok(next) => spec_decode_entries(entries.drop_first(), next),
            Err(e) => Err(e),
        }
    }
}

/// Decoding a whole boundary configuration object.
pub open spec fn spec_decode(entries: Seq<RawEntry>) -> Result<ConfigOverrides, DecodeError> {
    spec_decode_entries(entries, spec_empty_overrides())
}

/// Whether some entry of the object carries an unrecognized key.
pub open spec fn has_unknown_key(entries: Seq<RawEntry>) -> bool {
    exists|i: int| 0 <= i < entries.len() && !recognized_key(entries[i].key@)
}

proof fn lemma_unknown_key_rejected_from(entries: Seq<RawEntry>, acc: ConfigOverrides)
    requires
        has_unknown_key(entries),
    ensures
        spec_decode_entries(entries, acc) is Err,
    decreases entries.len(),
{
    let i = choose|i: int| 0 <= i < entries.len() && !recognized_key(entries[i].key@);
    if i == 0 {
        assert(spec_apply_entry(acc, entries[0]) is Err);
    } else {
        match spec_apply_entry(acc, entries[0]) {
            Ok(next) => {
                assert(entries.drop_first()[i - 1] == entries[i]);
                assert(has_unknown_key(entries.drop_first()));
                lemma_unknown_key_rejected_from(entries.drop_first(), next);
            },
            Err(_) => {
            },
        }
    }
}

/// A boundary configuration object that carries an unrecognized field never
/// decodes: the decoder reports an error, so formatting is never attempted
/// for such an object.
pub proof fn lemma_unknown_key_rejected(entries: Seq<RawEntry>)
    requires
        has_unknown_key(entries),
    ensures
        spec_decode(entries) is Err,
{
    lemma_unknown_key_rejected_from(entries, spec_empty_overrides());
}

proof fn lemma_decode_entries_valid(entries: Seq<RawEntry>, acc: ConfigOverrides)
    requires
        overrides_valid(acc),
    ensures
        spec_decode_entries(entries, acc) matches Ok(ov) ==> overrides_valid(ov),
    decreases entries.len(),
{
    if entries.len() != 0 {
        match spec_apply_entry(acc, entries[0]) {
            Ok(next) => {
                lemma_decode_entries_valid(entries.drop_first(), next);
            },
            Err(_) => {
            },
        }
    }
}

/// Whatever the decoder accepts keeps the numeric fields in the ranges the
/// engine accepts.
pub proof fn lemma_decode_valid(entries: Seq<RawEntry>)
    ensures
        spec_decode(entries) matches Ok(ov) ==> overrides_valid(ov),
{
    lemma_decode_entries_valid(entries, spec_empty_overrides());
}

/// One decoding step, executable.
fn apply_entry(acc: ConfigOverrides, e: &RawEntry) -> (r: Result<ConfigOverrides, DecodeError>)
    ensures
        r == spec_apply_entry(acc, *e),
{
    let k_indent_style = String::from_str("indent_style");
    let k_indent_width = String::from_str("indent_width");
    let k_line_width = String::from_str("line_width");
    let k_line_ending = String::from_str("line_ending");
    let k_quote_style = String::from_str("quote_style");
    let k_magic = String::from_str("magic_trailing_comma");
    if e.key == k_indent_style {
        if acc.indent_style.is_some() {
            Err(DecodeError::DuplicateField { field: e.key.clone() })
        } else {
            match &e.value {
                RawValue::Text(s) => {
                    if *s == String::from_str("tab") {
                        Ok(ConfigOverrides { indent_style: Some(IndentStyle::Tab), ..acc })
                    } else if *s == String::from_str("space") {
                        Ok(ConfigOverrides { indent_style: Some(IndentStyle::Space), ..acc })
                    } else {
                        Err(DecodeError::InvalidValue { field: e.key.clone() })
                    }
                },
                _ => Err(DecodeError::InvalidValue { field: e.key.clone() }),
            }
        }
    } else if e.key == k_indent_width {
        if acc.indent_width.is_some() {
            Err(DecodeError::DuplicateField { field: e.key.clone() })
        } else {
            match &e.value {
                RawValue::Number(n) => {
                    if 1 <= *n && *n <= 255 {
                        Ok(ConfigOverrides { indent_width: Some(*n as u8), ..acc })
                    } else {
                        Err(DecodeError::InvalidValue { field: e.key.clone() })
                    }
                },
                _ => Err(DecodeError::InvalidValue { field: e.key.clone() }),
            }
        }
    } else if e.key == k_line_width {
        if acc.line_width.is_some() {
            Err(DecodeError::DuplicateField { field: e.key.clone() })
        } else {
            match &e.value {
                RawValue::Number(n) => {
                    if 1 <= *n && *n <= 65535 {
                        Ok(ConfigOverrides { line_width: Some(*n as u16), ..acc })
                    } else {
                        Err(DecodeError::InvalidValue { field: e.key.clone() })
                    }
                },
                _ => Err(DecodeError::InvalidValue { field: e.key.clone() }),
            }
        }
    } else if e.key == k_line_ending {
        if acc.line_ending.is_some() {
            Err(DecodeError::DuplicateField { field: e.key.clone() })
        } else {
            match &e.value {
                RawValue::Text(s) => {
                    if *s == String::from_str("lf") {
                        Ok(ConfigOverrides { line_ending: Some(LineEnding::Lf), ..acc })
                    } else if *s == String::from_str("crlf") {
                        Ok(ConfigOverrides { line_ending: Some(LineEnding::Crlf), ..acc })
                    } else {
                        Err(DecodeError::InvalidValue { field: e.key.clone() })
                    }
                },
                _ => Err(DecodeError::InvalidValue { field: e.key.clone() }),
            }
        }
    } else if e.key == k_quote_style {
        if acc.quote_style.is_some() {
            Err(DecodeError::DuplicateField { field: e.key.clone() })
        } else {
            match &e.value {
                RawValue::Text(s) => {
                    if *s == String::from_str("single") {
                        Ok(ConfigOverrides { quote_style: Some(QuoteStyle::Single), ..acc })
                    } else if *s == String::from_str("double") {
                        Ok(ConfigOverrides { quote_style: Some(QuoteStyle::Double), ..acc })
                    } else {
                        Err(DecodeError::InvalidValue { field: e.key.clone() })
                    }
                },
                _ => Err(DecodeError::InvalidValue { field: e.key.clone() }),
            }
        }
    } else if e.key == k_magic {
        if acc.magic_trailing_comma.is_some() {
            Err(DecodeError::DuplicateField { field: e.key.clone() })
        } else {
            match &e.value {
                RawValue::Text(s) => {
                    if *s == String::from_str("respect") {
                        Ok(
                            ConfigOverrides {
                                magic_trailing_comma: Some(MagicTrailingComma::Respect),
                                ..acc
                            },
                        )
                    } else if *s == String::from_str("ignore") {
                        Ok(
                            ConfigOverrides {
                                magic_trailing_comma: Some(MagicTrailingComma::Ignore),
                                ..acc
                            },
                        )
                    } else {
                        Err(DecodeError::InvalidValue { field: e.key.clone() })
                    }
                },
                _ => Err(DecodeError::InvalidValue { field: e.key.clone() }),
            }
        }
    } else {
        Err(DecodeError::UnknownField { field: e.key.clone() })
    }
}

/// Decodes a boundary configuration object into the explicit overrides,
/// failing on the first unknown field, invalid value or duplicated field.
pub fn decode(entries: &Vec<RawEntry>) -> (r: Result<ConfigOverrides, DecodeError>)
    ensures
        r == spec_decode(entries@),
{
    let mut acc = ConfigOverrides {
        indent_style: None,
        indent_width: None,
        line_width: None,
        line_ending: None,
        quote_style: None,
        magic_trailing_comma: None,
    };
    let mut i: usize = 0;
    proof {
        assert(entries@.skip(0) =~= entries@);
    }
    while i < entries.len()
        invariant
            i <= entries@.len(),
            spec_decode(entries@) == spec_decode_entries(entries@.skip(i as int), acc),
        decreases entries@.len() - i,
    {
        let step = apply_entry(acc, &entries[i]);
        proof {
            assert(entries@.skip(i as int)[0] == entries@[i as int]);
            assert(entries@.skip(i as int).drop_first() =~= entries@.skip(i as int + 1));
        }
        match step {
            Ok(next) => {
                acc = next;
            },
            Err(e) => {
                return Err(e);
            },
        }
        i = i + 1;
    }
    proof {
        assert(entries@.skip(entries@.len() as int) =~= Seq::<RawEntry>::empty());
    }
    Ok(acc)
}

} // verus!
