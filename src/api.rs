use vstd::prelude::*;

use crate::bridge::{malformed_message, threw_message, HostReply, Operation};
use crate::delegate::format_file_or_original;
use crate::diagnostic::{diag, views, Diagnostic};
use crate::options::{
    build_and_validate, first_invalid, invalid_option_message, normalized, shape_message,
    shape_ok, FormatOptions, RawValue,
};
use crate::strategy::{resolve, strategy_of_path, unsupported_message, FileStrategy};

verus! {

/// The outcome of formatting one source text: the code (the original text on
/// any failure) and the diagnostics.
#[derive(Debug)]
pub struct FormatResult {
    pub code: String,
    pub errors: Vec<Diagnostic>,
}

pub open spec fn configuration_message(inner: Seq<char>) -> Seq<char> {
    "Failed to parse configuration: "@ + inner
}

pub open spec fn setup_message(inner: Seq<char>) -> Seq<char> {
    "Failed to setup external formatter: "@ + inner
}

/// The message with which validation rejects a payload, if it does.
pub open spec fn validation_message(v: RawValue) -> Option<Seq<char>> {
    if !shape_ok(v) {
        Some(shape_message())
    } else {
        match first_invalid(v) {
            Some(k) => Some(invalid_option_message(k)),
            None => None,
        }
    }
}

/// The first step of formatting a text: validate the configuration payload.
pub fn configure(options: &RawValue) -> (r: Result<FormatOptions, Diagnostic>)
    ensures
        match validation_message(*options) {
            None => r == Ok::<FormatOptions, Diagnostic>(normalized(*options)),
            Some(m) => r matches Err(d) && d@ == diag(configuration_message(m), None),
        },
{
    match build_and_validate(options) {
        Ok(o) => Ok(o),
        Err(e) => Err(Diagnostic::prefixed("Failed to parse configuration: ", e.message.as_str())),
    }
}

/// The second step, once the host was asked to initialise: a failed
/// initialisation stops the run; otherwise the file's kind is resolved.
pub fn select_strategy(filename: &str, init: Result<Vec<String>, Diagnostic>) -> (r: Result<
    FileStrategy,
    Diagnostic,
>)
    ensures
        match init {
            Err(e) => r matches Err(d) && d@ == diag(setup_message(e@.message), None),
            Ok(_) => match strategy_of_path(filename@) {
                Some(s) => r == Ok::<FileStrategy, Diagnostic>(s),
                None => r matches Err(d) && d@ == diag(unsupported_message(filename@), None),
            },
        },
{
    match init {
        Err(e) => Err(Diagnostic::prefixed("Failed to setup external formatter: ", e.message.as_str())),
        Ok(_) => resolve(filename),
    }
}

/// A run that stopped early: the source unchanged, with the one diagnostic.
pub fn stopped(source_text: String, error: Diagnostic) -> (r: FormatResult)
    ensures
        r.code@ == source_text@,
        views(r.errors@) == seq![error@],
{
    let errors = vec![error];
    assert(views(errors@) =~= seq![error@]);
    FormatResult { code: source_text, errors }
}

/// The result of a run that reached the formatting engine: its code when it
/// succeeded, else the source unchanged with the engine's diagnostics.
pub fn finish(source_text: String, outcome: Result<String, Vec<Diagnostic>>) -> (r: FormatResult)
    ensures
        match outcome {
            Ok(code) => r.code@ == code@ && r.errors@.len() == 0,
            Err(ds) => r.code@ == source_text@ && r.errors@ == ds@,
        },
{
    match outcome {
        Ok(code) => FormatResult { code, errors: Vec::new() },
        Err(errors) => FormatResult { code: source_text, errors },
    }
}

/// Whether class sorting is handed to the host: only when a sorting callback is
/// available and the options turn sorting on.
pub fn tailwind_sorting_wanted(options: &FormatOptions, has_callback: bool) -> (r: bool)
    ensures
        r == (has_callback && options.experimental_tailwindcss),
{
    has_callback && options.experimental_tailwindcss
}

/// The result of a run whose file the host formatted as a whole: the host's
/// code, or else the source unchanged with the failure's diagnostic.
pub fn finish_delegated(source_text: String, reply: HostReply<String>) -> (r: FormatResult)
    ensures
        match reply {
            HostReply::Answered(code) => r.code@ == code@ && r.errors@.len() == 0,
            HostReply::Threw(t) => r.code@ == source_text@ && views(r.errors@) == seq![
                diag(threw_message(Operation::FormatFile, t@), None),
            ],
            HostReply::Malformed(t) => r.code@ == source_text@ && views(r.errors@) == seq![
                diag(malformed_message(Operation::FormatFile, t@), None),
            ],
        },
{
    let (code, failure) = format_file_or_original(source_text, reply);
    match failure {
        None => FormatResult { code, errors: Vec::new() },
        Some(d) => stopped(code, d),
    }
}

} // verus!
