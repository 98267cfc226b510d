//! Adapter around a Python source-code formatting engine.
//!
//! The crate resolves a loosely-typed caller configuration into a fully
//! populated [`config::Configuration`], hands source text and the resolved
//! configuration to the formatting engine, and collapses every failure into a
//! single message string.

use vstd::prelude::*;

pub mod config;
pub mod decode;
pub mod engine;
pub mod resolve;

use crate::decode::{RawEntry, spec_error_message};
use crate::engine::{invoke, spec_engine_outcome};
use crate::resolve::{resolve, spec_resolve};

verus! {

/// What the boundary call must return: the decode failure's message if the
/// configuration does not decode; otherwise the engine outcome for the
/// resolved configuration, its failure message passed through unchanged.
pub open spec fn format_post(
    input: Seq<char>,
    raw: Option<Seq<RawEntry>>,
    path: Option<Seq<char>>,
    r: Result<String, String>,
) -> bool {
    match spec_resolve(raw, path) {
        Err(e) => r is Err && r->Err_0@ == spec_error_message(e),
        Ok(c) => match spec_engine_outcome(input, c) {
            Ok(code) => r is Ok && r->Ok_0@ == code,
            Err(msg) => r is Err && r->Err_0@ == msg,
        },
    }
}

/// Formats one module of source text: resolves the optional boundary
/// configuration and path, hands the source to the engine, and collapses
/// either failure into a single message string. A decode failure is reported
/// at once; formatting is then never attempted.
pub fn format(input: &str, path: Option<String>, config: Option<Vec<RawEntry>>) -> (r: Result<
    String,
    String,
>)
    ensures
        format_post(
            input@,
            match config {
                Some(v) => Some(v@),
                None => None,
            },
            match path {
                Some(p) => Some(p@),
                None => None,
            },
            r,
        ),
{
    let raw_ref: Option<&Vec<RawEntry>> = match &config {
        Some(v) => Some(v),
        None => None,
    };
    let path_ref: Option<&str> = match &path {
        Some(p) => Some(p.as_str()),
        None => None,
    };
    let resolved = match resolve(raw_ref, path_ref) {
        Ok(c) => c,
        Err(e) => {
            return Err(e.message());
        },
    };
    invoke(input, &resolved)
}

} // verus!
