//! Resolution of the boundary configuration into a fully populated
//! [`Configuration`].
//!
//! Resolution is a three-way merge with a fixed precedence: engine defaults
//! are taken first, the caller's decoded explicit overrides win over the
//! defaults, and the path-derived override is applied only to what the caller
//! cannot set explicitly (the source kind). An explicitly set field is
//! therefore never changed by the path.
//!
//! The path heuristic is extension-based: a path ending in `.pyi` marks a
//! stub file; every other path, an absent path, and — by convention — an
//! empty path mark a regular module.

use vstd::prelude::*;

use crate::config::{
    Configuration, IndentStyle, LineEnding, MagicTrailingComma, QuoteStyle, SourceKind,
    config_valid, spec_default,
};
use crate::decode::{
    ConfigOverrides, DecodeError, RawEntry, RawValue, decode, lemma_decode_valid, overrides_valid,
    spec_apply_entry, spec_decode, spec_decode_entries, spec_empty_overrides,
};

verus! {

/// Whether a path names a stub file: its last four characters are `.pyi`.
/// The empty path (treated as "no path") never does.
pub open spec fn spec_is_stub_path(p: Seq<char>) -> bool {
    &&& p.len() >= 4
    &&& p[p.len() - 4] == '.'
    &&& p[p.len() - 3] == 'p'
    &&& p[p.len() - 2] == 'y'
    &&& p[p.len() - 1] == 'i'
}

/// The source kind a path derives: stub for `.pyi`, regular for everything
/// else, including no path at all.
pub open spec fn spec_kind_of_path(path: Option<Seq<char>>) -> SourceKind {
    match path {
        Some(p) => if spec_is_stub_path(p) {
            SourceKind::Stub
        } else {
            SourceKind::Regular
        },
        None => SourceKind::Regular,
    }
}

/// Executable stub-file test.
pub fn is_stub_path(path: &str) -> (r: bool)
    ensures
        r == spec_is_stub_path(path@),
{
    let n = path.unicode_len();
    if n < 4 {
        false
    } else {
        path.get_char(n - 4) == '.' && path.get_char(n - 3) == 'p' && path.get_char(n - 2) == 'y'
            && path.get_char(n - 1) == 'i'
    }
}

/// The three-way merge: engine defaults, overridden by the caller's explicit
/// fields, with the source kind derived from the path.
pub open spec fn spec_merge(ov: ConfigOverrides, path: Option<Seq<char>>) -> Configuration {
    Configuration {
        indent_style: match ov.indent_style {
            Some(v) => v,
            None => spec_default().indent_style,
        },
        indent_width: match ov.indent_width {
            Some(v) => v,
            None => spec_default().indent_width,
        },
        line_width: match ov.line_width {
            Some(v) => v,
            None => spec_default().line_width,
        },
        line_ending: match ov.line_ending {
            Some(v) => v,
            None => spec_default().line_ending,
        },
        quote_style: match ov.quote_style {
            Some(v) => v,
            None => spec_default().quote_style,
        },
        magic_trailing_comma: match ov.magic_trailing_comma {
            Some(v) => v,
            None => spec_default().magic_trailing_comma,
        },
        source_kind: spec_kind_of_path(path),
    }
}

/// The view of an optional borrowed path.
pub open spec fn spec_path_view(path: Option<&str>) -> Option<Seq<char>> {
    match path {
        Some(p) => Some(p@),
        None => None,
    }
}

/// The view of an optional borrowed configuration object.
pub open spec fn spec_entries_view(raw: Option<&Vec<RawEntry>>) -> Option<Seq<RawEntry>> {
    match raw {
        Some(v) => Some(v@),
        None => None,
    }
}

/// What resolution yields: the merged configuration, or the first decode
/// failure of the supplied object. An absent object resolves as the empty
/// overrides record, so it always succeeds.
pub open spec fn spec_resolve(raw: Option<Seq<RawEntry>>, path: Option<Seq<char>>) -> Result<
    Configuration,
    DecodeError,
> {
    match raw {
        None => Ok(spec_merge(spec_empty_overrides(), path)),
        Some(entries) => match spec_decode(entries) {
            Ok(ov) => Ok(spec_merge(ov, path)),
            Err(e) => Err(e),
        },
    }
}

/// Resolves an optional boundary configuration and an optional path into a
/// fully populated configuration, or fails with the first decode error.
pub fn resolve(raw: Option<&Vec<RawEntry>>, path: Option<&str>) -> (r: Result<
    Configuration,
    DecodeError,
>)
    ensures
        r == spec_resolve(spec_entries_view(raw), spec_path_view(path)),
        r matches Ok(c) ==> config_valid(c),
{
    let ov = match raw {
        None => ConfigOverrides {
            indent_style: None,
            indent_width: None,
            line_width: None,
            line_ending: None,
            quote_style: None,
            magic_trailing_comma: None,
        },
        Some(entries) => match decode(entries) {
            Ok(ov) => {
                proof {
                    lemma_decode_valid(entries@);
                }
                ov
            },
            Err(e) => {
                return Err(e);
            },
        },
    };
    let kind = match path {
        Some(p) => if is_stub_path(p) {
            SourceKind::Stub
        } else {
            SourceKind::Regular
        },
        None => SourceKind::Regular,
    };
    let defaults = Configuration::engine_default();
    Ok(
        Configuration {
            indent_style: match ov.indent_style {
                Some(v) => v,
                None => defaults.indent_style,
            },
            indent_width: match ov.indent_width {
                Some(v) => v,
                None => defaults.indent_width,
            },
            line_width: match ov.line_width {
                Some(v) => v,
                None => defaults.line_width,
            },
            line_ending: match ov.line_ending {
                Some(v) => v,
                None => defaults.line_ending,
            },
            quote_style: match ov.quote_style {
                Some(v) => v,
                None => defaults.quote_style,
            },
            magic_trailing_comma: match ov.magic_trailing_comma {
                Some(v) => v,
                None => defaults.magic_trailing_comma,
            },
            source_kind: kind,
        },
    )
}

/// Resolving with no configuration and no path yields exactly the engine's
/// default configuration.
pub proof fn lemma_resolve_defaults()
    ensures
        spec_resolve(None, None) == Ok::<Configuration, DecodeError>(spec_default()),
{
}

/// Explicit wins over derived: the path never changes a field the caller set,
/// nor any of the six explicit fields at all — two resolutions of the same
/// overrides under different paths agree on everything but the source kind,
/// and every explicitly set field keeps its value.
pub proof fn lemma_explicit_over_derived(
    ov: ConfigOverrides,
    p1: Option<Seq<char>>,
    p2: Option<Seq<char>>,
)
    ensures
        spec_merge(ov, p1).indent_style == spec_merge(ov, p2).indent_style,
        spec_merge(ov, p1).indent_width == spec_merge(ov, p2).indent_width,
        spec_merge(ov, p1).line_width == spec_merge(ov, p2).line_width,
        spec_merge(ov, p1).line_ending == spec_merge(ov, p2).line_ending,
        spec_merge(ov, p1).quote_style == spec_merge(ov, p2).quote_style,
        spec_merge(ov, p1).magic_trailing_comma == spec_merge(ov, p2).magic_trailing_comma,
        ov.indent_width matches Some(w) ==> spec_merge(ov, p1).indent_width == w,
        ov.indent_style matches Some(s) ==> spec_merge(ov, p1).indent_style == s,
        ov.line_width matches Some(w) ==> spec_merge(ov, p1).line_width == w,
        ov.line_ending matches Some(l) ==> spec_merge(ov, p1).line_ending == l,
        ov.quote_style matches Some(q) ==> spec_merge(ov, p1).quote_style == q,
        ov.magic_trailing_comma matches Some(m) ==> spec_merge(ov, p1).magic_trailing_comma == m,
{
}

/// Whether `entries` is the boundary encoding that sets every recognized
/// field explicitly to the corresponding field of `c`: six entries, one per
/// field, in the fixed field order.
pub open spec fn is_encoding_of(entries: Seq<RawEntry>, c: Configuration) -> bool {
    &&& entries.len() == 6
    &&& entries[0].key@ == "indent_style"@
    &&& entries[0].value matches RawValue::Text(s) && s@ == (if c.indent_style is Tab {
        "tab"@
    } else {
        "space"@
    })
    &&& entries[1].key@ == "indent_width"@
    &&& entries[1].value matches RawValue::Number(n) && n == c.indent_width as u64
    &&& entries[2].key@ == "line_width"@
    &&& entries[2].value matches RawValue::Number(n) && n == c.line_width as u64
    &&& entries[3].key@ == "line_ending"@
    &&& entries[3].value matches RawValue::Text(s) && s@ == (if c.line_ending is Crlf {
        "crlf"@
    } else {
        "lf"@
    })
    &&& entries[4].key@ == "quote_style"@
    &&& entries[4].value matches RawValue::Text(s) && s@ == (if c.quote_style is Single {
        "single"@
    } else {
        "double"@
    })
    &&& entries[5].key@ == "magic_trailing_comma"@
    &&& entries[5].value matches RawValue::Text(s) && s@ == (if c.magic_trailing_comma is Ignore {
        "ignore"@
    } else {
        "respect"@
    })
}

/// Encodes a configuration as the boundary object that sets every recognized
/// field explicitly. The source kind has no boundary field: it is derived
/// from the path alone.
pub fn encode(c: &Configuration) -> (v: Vec<RawEntry>)
    ensures
        is_encoding_of(v@, *c),
{
    let mut v: Vec<RawEntry> = Vec::new();
    v.push(
        RawEntry {
            key: String::from_str("indent_style"),
            value: RawValue::Text(
                String::from_str(
                    match c.indent_style {
                        IndentStyle::Tab => "tab",
                        IndentStyle::Space => "space",
                    },
                ),
            ),
        },
    );
    v.push(
        RawEntry {
            key: String::from_str("indent_width"),
            value: RawValue::Number(c.indent_width as u64),
        },
    );
    v.push(
        RawEntry {
            key: String::from_str("line_width"),
            value: RawValue::Number(c.line_width as u64),
        },
    );
    v.push(
        RawEntry {
            key: String::from_str("line_ending"),
            value: RawValue::Text(
                String::from_str(
                    match c.line_ending {
                        LineEnding::Lf => "lf",
                        LineEnding::Crlf => "crlf",
                    },
                ),
            ),
        },
    );
    v.push(
        RawEntry {
            key: String::from_str("quote_style"),
            value: RawValue::Text(
                String::from_str(
                    match c.quote_style {
                        QuoteStyle::Single => "single",
                        QuoteStyle::Double => "double",
                    },
                ),
            ),
        },
    );
    v.push(
        RawEntry {
            key: String::from_str("magic_trailing_comma"),
            value: RawValue::Text(
                String::from_str(
                    match c.magic_trailing_comma {
                        MagicTrailingComma::Respect => "respect",
                        MagicTrailingComma::Ignore => "ignore",
                    },
                ),
            ),
        },
    );
    v
}

/// Round trip: a boundary object that encodes a valid configuration decodes
/// and resolves to that configuration exactly — every explicit field is
/// recovered, and the source kind is derived from the path as always.
pub proof fn lemma_resolve_round_trip(
    entries: Seq<RawEntry>,
    c: Configuration,
    path: Option<Seq<char>>,
)
    requires
        config_valid(c),
        is_encoding_of(entries, c),
    ensures
        spec_resolve(Some(entries), path) == Ok::<Configuration, DecodeError>(
            (Configuration {
                indent_style: c.indent_style,
                indent_width: c.indent_width,
                line_width: c.line_width,
                line_ending: c.line_ending,
                quote_style: c.quote_style,
                magic_trailing_comma: c.magic_trailing_comma,
                source_kind: spec_kind_of_path(path),
            }),
        ),
{
    reveal_strlit("indent_style");
    reveal_strlit("indent_width");
    reveal_strlit("line_width");
    reveal_strlit("line_ending");
    reveal_strlit("quote_style");
    reveal_strlit("magic_trailing_comma");
    reveal_strlit("tab");
    reveal_strlit("space");
    reveal_strlit("lf");
    reveal_strlit("crlf");
    reveal_strlit("single");
    reveal_strlit("double");
    reveal_strlit("respect");
    reveal_strlit("ignore");
    assert("indent_style"@ != "indent_width"@) by {
        assert("indent_style"@[7] != "indent_width"@[7]);
    }
    assert("quote_style"@ != "line_ending"@) by {
        assert("quote_style"@[0] != "line_ending"@[0]);
    }
    assert("double"@ != "single"@) by {
        assert("double"@[0] != "single"@[0]);
    }
    assert("line_width"@ != "indent_style"@ && "line_width"@ != "indent_width"@) by {
        assert("line_width"@.len() != "indent_style"@.len());
        assert("line_width"@.len() != "indent_width"@.len());
    }
    assert("line_ending"@ != "indent_style"@ && "line_ending"@ != "indent_width"@ && "line_ending"@
        != "line_width"@) by {
        assert("line_ending"@.len() != "indent_style"@.len());
        assert("line_ending"@.len() != "indent_width"@.len());
        assert("line_ending"@.len() != "line_width"@.len());
    }
    assert("quote_style"@ != "indent_style"@ && "quote_style"@ != "indent_width"@ && "quote_style"@
        != "line_width"@) by {
        assert("quote_style"@.len() != "indent_style"@.len());
        assert("quote_style"@.len() != "indent_width"@.len());
        assert("quote_style"@.len() != "line_width"@.len());
    }
    assert("magic_trailing_comma"@ != "indent_style"@ && "magic_trailing_comma"@
        != "indent_width"@ && "magic_trailing_comma"@ != "line_width"@ && "magic_trailing_comma"@
        != "line_ending"@ && "magic_trailing_comma"@ != "quote_style"@) by {
        assert("magic_trailing_comma"@.len() != "indent_style"@.len());
        assert("magic_trailing_comma"@.len() != "indent_width"@.len());
        assert("magic_trailing_comma"@.len() != "line_width"@.len());
        assert("magic_trailing_comma"@.len() != "line_ending"@.len());
        assert("magic_trailing_comma"@.len() != "quote_style"@.len());
    }
    assert("space"@ != "tab"@) by {
        assert("space"@.len() != "tab"@.len());
    }
    assert("crlf"@ != "lf"@) by {
        assert("crlf"@.len() != "lf"@.len());
    }
    assert("ignore"@ != "respect"@) by {
        assert("ignore"@.len() != "respect"@.len());
    }
    let acc0 = spec_empty_overrides();
    let w1 = ConfigOverrides { indent_style: Some(c.indent_style), ..acc0 };
    let w2 = ConfigOverrides { indent_width: Some(c.indent_width), ..w1 };
    let w3 = ConfigOverrides { line_width: Some(c.line_width), ..w2 };
    let w4 = ConfigOverrides { line_ending: Some(c.line_ending), ..w3 };
    let w5 = ConfigOverrides { quote_style: Some(c.quote_style), ..w4 };
    let w6 = ConfigOverrides { magic_trailing_comma: Some(c.magic_trailing_comma), ..w5 };
    let t1 = entries.drop_first();
    let t2 = t1.drop_first();
    let t3 = t2.drop_first();
    let t4 = t3.drop_first();
    let t5 = t4.drop_first();
    let t6 = t5.drop_first();
    assert(t1[0] == entries[1] && t2[0] == entries[2] && t3[0] == entries[3] && t4[0]
        == entries[4] && t5[0] == entries[5] && t6.len() == 0);
    assert((c.indent_width as u64) as u8 == c.indent_width);
    assert((c.line_width as u64) as u16 == c.line_width);
    assert(spec_apply_entry(acc0, entries[0]) == Ok::<ConfigOverrides, DecodeError>(w1));
    assert(spec_apply_entry(w1, entries[1]) == Ok::<ConfigOverrides, DecodeError>(w2));
    assert(spec_apply_entry(w2, entries[2]) == Ok::<ConfigOverrides, DecodeError>(w3));
    assert(spec_apply_entry(w3, entries[3]) == Ok::<ConfigOverrides, DecodeError>(w4));
    assert(spec_apply_entry(w4, entries[4]) == Ok::<ConfigOverrides, DecodeError>(w5));
    assert(spec_apply_entry(w5, entries[5]) == Ok::<ConfigOverrides, DecodeError>(w6));
    assert(spec_decode_entries(entries, acc0) == spec_decode_entries(
        t1,
        w1,
    ));
    assert(spec_decode_entries(t1, w1) == spec_decode_entries(
        t2,
        w2,
    ));
    assert(spec_decode_entries(t2, w2) == spec_decode_entries(
        t3,
        w3,
    ));
    assert(spec_decode_entries(t3, w3) == spec_decode_entries(
        t4,
        w4,
    ));
    assert(spec_decode_entries(t4, w4) == spec_decode_entries(
        t5,
        w5,
    ));
    assert(spec_decode_entries(t5, w5) == spec_decode_entries(
        t6,
        w6,
    ));
    assert(spec_decode_entries(t6, w6) == Ok::<ConfigOverrides, DecodeError>(w6));
    assert(spec_decode(entries) == Ok::<ConfigOverrides, DecodeError>(w6));
}

/// An empty path behaves exactly as an absent path.
pub proof fn lemma_empty_path_is_no_path(raw: Option<Seq<RawEntry>>, p: Seq<char>)
    requires
        p.len() == 0,
    ensures
        spec_resolve(raw, Some(p)) == spec_resolve(raw, None),
{
}

} // verus!
