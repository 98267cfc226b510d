//! The configuration model: the recognized formatting options, their
//! engine-defined defaults, and the fully resolved configuration record that
//! the formatting engine consumes.

use vstd::prelude::*;

verus! {

/// Whether indentation uses tab characters or spaces.
#[derive(Clone, Copy, Debug, PartialEq, Eq, Structural)]
pub enum IndentStyle {
    Tab,
    Space,
}

/// The line terminator written by the formatter.
#[derive(Clone, Copy, Debug, PartialEq, Eq, Structural)]
pub enum LineEnding {
    Lf,
    Crlf,
}

/// The preferred quote character for string literals.
#[derive(Clone, Copy, Debug, PartialEq, Eq, Structural)]
pub enum QuoteStyle {
    Single,
    Double,
}

/// Whether a trailing comma in the source forces the formatter to keep a
/// collection expanded.
#[derive(Clone, Copy, Debug, PartialEq, Eq, Structural)]
pub enum MagicTrailingComma {
    Respect,
    Ignore,
}

/// What kind of Python source the engine is asked to format; derived from the
/// file path, never set directly by the caller.
#[derive(Clone, Copy, Debug, PartialEq, Eq, Structural)]
pub enum SourceKind {
    /// An ordinary `.py` module.
    Regular,
    /// A `.pyi` stub file.
    Stub,
}

/// A fully resolved configuration: every field populated, ready for the
/// engine. No unresolved optional ever reaches the engine.
#[derive(Clone, Copy, Debug, PartialEq, Eq, Structural)]
pub struct Configuration {
    pub indent_style: IndentStyle,
    pub indent_width: u8,
    pub line_width: u16,
    pub line_ending: LineEnding,
    pub quote_style: QuoteStyle,
    pub magic_trailing_comma: MagicTrailingComma,
    pub source_kind: SourceKind,
}

/// A configuration is well formed when its numeric fields lie in the ranges
/// the engine accepts.
pub open spec fn config_valid(c: Configuration) -> bool {
    1 <= c.indent_width && 1 <= c.line_width
}

impl Configuration {
    /// The engine's documented default configuration: four spaces of
    /// indentation, 88-column lines, `\n` line endings, double quotes, and
    /// trailing commas respected, for a regular module.
    pub fn engine_default() -> (c: Configuration)
        ensures
            c == spec_default(),
    {
        Configuration {
            indent_style: IndentStyle::Space,
            indent_width: 4,
            line_width: 88,
            line_ending: LineEnding::Lf,
            quote_style: QuoteStyle::Double,
            magic_trailing_comma: MagicTrailingComma::Respect,
            source_kind: SourceKind::Regular,
        }
    }
}

/// The engine's default configuration, as a specification-level value.
pub open spec fn spec_default() -> Configuration {
    Configuration {
        indent_style: IndentStyle::Space,
        indent_width: 4,
        line_width: 88,
        line_ending: LineEnding::Lf,
        quote_style: QuoteStyle::Double,
        magic_trailing_comma: MagicTrailingComma::Respect,
        source_kind: SourceKind::Regular,
    }
}

} // verus!
