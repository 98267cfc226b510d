//! The formatting engine boundary.
//!
//! The engine itself is an opaque collaborator: it tokenizes, parses and
//! reflows the source. This crate treats one call of it as a pure function of
//! the source text and the resolved configuration, names its outcome, and
//! proves everything around that name.

use vstd::prelude::*;

use crate::config::{
    Configuration, IndentStyle, LineEnding, MagicTrailingComma, QuoteStyle, SourceKind,
    config_valid,
};
use ruff_formatter::IndentStyle as EngineIndentStyle;
use ruff_formatter::IndentWidth;
use ruff_formatter::LineWidth;
use ruff_formatter::printer::LineEnding as EngineLineEnding;
use ruff_python_ast::PySourceType;
use ruff_python_formatter::MagicTrailingComma as EngineComma;
use ruff_python_formatter::PyFormatOptions;
use ruff_python_formatter::QuoteStyle as EngineQuoteStyle;
use ruff_python_formatter::format_module_source;

verus! {

/// What one engine call yields for a given source text and configuration:
/// the formatted code, or the engine's own display message for the failure
/// (an unparsable source, for instance). Formatting is deterministic, so the
/// outcome is a function of these arguments alone.
pub uninterp spec fn engine_outcome(
    source: Seq<char>,
    tabs: bool,
    indent_width: u8,
    line_width: u16,
    crlf: bool,
    single_quote: bool,
    ignore_magic_comma: bool,
    stub: bool,
) -> Result<Seq<char>, Seq<char>>;

/// The engine outcome for a resolved configuration record.
pub open spec fn spec_engine_outcome(source: Seq<char>, c: Configuration) -> Result<
    Seq<char>,
    Seq<char>,
> {
    engine_outcome(
        source,
        c.indent_style is Tab,
        c.indent_width,
        c.line_width,
        c.line_ending is Crlf,
        c.quote_style is Single,
        c.magic_trailing_comma is Ignore,
        c.source_kind is Stub,
    )
}

/// Relies on `ruff_python_formatter::format_module_source`, with the options
/// built by `PyFormatOptions::from_source_type` and its `with_*` builders,
/// `ruff_formatter::Printed::into_code` for the code string, and the error's
/// `Display` for the failure message. The result depends on the source text
/// and the options alone. `IndentWidth`/`LineWidth` hold non-zero integers,
/// so zero widths are excluded here.
#[verifier::external_body]
fn engine_format(
    source: &str,
    tabs: bool,
    indent_width: u8,
    line_width: u16,
    crlf: bool,
    single_quote: bool,
    ignore_magic_comma: bool,
    stub: bool,
) -> (r: Result<String, String>)
    requires
        1 <= indent_width,
        1 <= line_width,
    ensures
        r is Ok <==> engine_outcome(
            source@,
            tabs,
            indent_width,
            line_width,
            crlf,
            single_quote,
            ignore_magic_comma,
            stub,
        ) is Ok,
        r is Ok ==> r->Ok_0@ == engine_outcome(
            source@,
            tabs,
            indent_width,
            line_width,
            crlf,
            single_quote,
            ignore_magic_comma,
            stub,
        )->Ok_0,
        r is Err ==> r->Err_0@ == engine_outcome(
            source@,
            tabs,
            indent_width,
            line_width,
            crlf,
            single_quote,
            ignore_magic_comma,
            stub,
        )->Err_0,
{
    let style = if tabs { EngineIndentStyle::Tab } else { EngineIndentStyle::Space };
    let ending = if crlf { EngineLineEnding::CarriageReturnLineFeed } else { EngineLineEnding::LineFeed };
    let quote = if single_quote { EngineQuoteStyle::Single } else { EngineQuoteStyle::Double };
    let comma = if ignore_magic_comma { EngineComma::Ignore } else { EngineComma::Respect };
    let kind = if stub { PySourceType::Stub } else { PySourceType::Python };
    let options = PyFormatOptions::from_source_type(kind)
        .with_indent_style(style)
        .with_indent_width(IndentWidth::try_from(indent_width).unwrap())
        .with_line_width(LineWidth::try_from(line_width).unwrap())
        .with_line_ending(ending).with_quote_style(quote).with_magic_trailing_comma(comma);
    match format_module_source(source, options) {
        Ok(printed) => Ok(printed.into_code()),
        Err(err) => Err(err.to_string()),
    }
}

/// Hands the source text and a resolved configuration to the engine and
/// extracts the formatted code, or passes the engine's failure message
/// through unchanged.
pub fn invoke(source: &str, config: &Configuration) -> (r: Result<String, String>)
    requires
        config_valid(*config),
    ensures
        r matches Ok(code) ==> spec_engine_outcome(source@, *config) == Ok::<Seq<char>, Seq<char>>(
            code@,
        ),
        r matches Err(msg) ==> spec_engine_outcome(source@, *config) == Err::<Seq<char>, Seq<char>>(
            msg@,
        ),
{
    engine_format(
        source,
        matches!(config.indent_style, IndentStyle::Tab),
        config.indent_width,
        config.line_width,
        matches!(config.line_ending, LineEnding::Crlf),
        matches!(config.quote_style, QuoteStyle::Single),
        matches!(config.magic_trailing_comma, MagicTrailingComma::Ignore),
        matches!(config.source_kind, SourceKind::Stub),
    )
}

} // verus!
