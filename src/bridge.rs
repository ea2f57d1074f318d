use vstd::prelude::*;

use crate::diagnostic::{diag, Diagnostic};

verus! {

/// The host-side operations that native code delegates.
#[derive(Clone, Copy, Debug, PartialEq, Eq, Structural)]
pub enum Operation {
    InitExternalFormatter,
    FormatEmbedded,
    FormatFile,
    SortTailwindClasses,
    LoadJsConfigs,
}

pub open spec fn operation_name(op: Operation) -> Seq<char> {
    match op {
        Operation::InitExternalFormatter => "initExternalFormatter"@,
        Operation::FormatEmbedded => "formatEmbeddedCode"@,
        Operation::FormatFile => "formatFile"@,
        Operation::SortTailwindClasses => "sortTailwindClasses"@,
        Operation::LoadJsConfigs => "loadJsConfigs"@,
    }
}

impl Operation {
    /// The name by which the host knows the operation.
    pub fn name(&self) -> (r: &'static str)
        ensures
            r@ == operation_name(*self),
    {
        match self {
            Operation::InitExternalFormatter => "initExternalFormatter",
            Operation::FormatEmbedded => "formatEmbeddedCode",
            Operation::FormatFile => "formatFile",
            Operation::SortTailwindClasses => "sortTailwindClasses",
            Operation::LoadJsConfigs => "loadJsConfigs",
        }
    }
}

/// What came back from one call into the host.
#[derive(Debug)]
pub enum HostReply<T> {
    /// The operation ran and produced a payload that decoded as expected.
    Answered(T),
    /// The operation itself reported a failure, with the host's text.
    Threw(String),
    /// The payload could not be decoded, with the decoder's text.
    Malformed(String),
}

pub open spec fn threw_message(op: Operation, text: Seq<char>) -> Seq<char> {
    "`"@ + operation_name(op) + "` threw an error: "@ + text
}

/// How a decode failure names the response of an operation.
pub open spec fn response_label(op: Operation) -> Seq<char> {
    match op {
        Operation::LoadJsConfigs => "JS config"@,
        _ => "`"@ + operation_name(op) + "`"@,
    }
}

pub open spec fn malformed_message(op: Operation, text: Seq<char>) -> Seq<char> {
    "Failed to parse "@ + response_label(op) + " response: "@ + text
}

/// Settles one host call: the decoded answer, or a diagnostic that keeps a
/// failure of the operation apart from a failure to decode its payload.
pub fn settle<T>(op: Operation, reply: HostReply<T>) -> (r: Result<T, Diagnostic>)
    ensures
        match reply {
            HostReply::Answered(v) => r == Ok::<T, Diagnostic>(v),
            HostReply::Threw(t) => r matches Err(d) && d@ == diag(threw_message(op, t@), None),
            HostReply::Malformed(t) => r matches Err(d) && d@ == diag(
                malformed_message(op, t@),
                None,
            ),
        },
{
    match reply {
        HostReply::Answered(v) => Ok(v),
        HostReply::Threw(t) => {
            let m = String::from_str("`").concat(op.name()).concat("` threw an error: ").concat(
                t.as_str(),
            );
            Err(Diagnostic::error(m))
        },
        HostReply::Malformed(t) => {
            let label = match op {
                Operation::LoadJsConfigs => String::from_str("JS config"),
                _ => String::from_str("`").concat(op.name()).concat("`"),
            };
            let m = String::from_str("Failed to parse ").concat(label.as_str()).concat(
                " response: ",
            ).concat(t.as_str());
            Err(Diagnostic::error(m))
        },
    }
}

} // verus!
