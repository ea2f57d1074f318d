use vstd::prelude::*;

use crate::bridge::{settle, HostReply, Operation, threw_message, malformed_message};
use crate::diagnostic::{diag, views, Diagnostic, DiagnosticView};

verus! {

/// A lint configuration as decoded by the host side: the configuration itself,
/// and the `extends` list that it declares.
#[derive(Debug)]
pub struct DecodedConfig<C> {
    pub config: C,
    pub extends: Vec<String>,
}

/// One entry of a successful batch: the config file's path and the result of
/// decoding its configuration (the decoder's text on failure).
#[derive(Debug)]
pub struct ConfigEntry<C> {
    pub path: String,
    pub config: Result<DecodedConfig<C>, String>,
}

/// One config file that the host could not load.
#[derive(Debug)]
pub struct LoadFailure {
    pub path: String,
    pub error: String,
}

/// The three shapes of the host's answer to a batched config load.
#[derive(Debug)]
pub enum LoadJsConfigsResponse<C> {
    Success(Vec<ConfigEntry<C>>),
    Failures(Vec<LoadFailure>),
    Error(String),
}

/// A config file that was loaded and admitted.
#[derive(Debug)]
pub struct JsConfigResult<C> {
    pub path: String,
    pub config: C,
}

pub open spec fn parse_failed_message(path: Seq<char>) -> Seq<char> {
    "Failed to parse config from "@ + path
}

pub open spec fn extends_message(path: Seq<char>) -> Seq<char> {
    "`extends` in JavaScript configs is not yet supported (found in "@ + path + ")"@
}

pub open spec fn load_failed_message(path: Seq<char>) -> Seq<char> {
    "Failed to load config: "@ + path
}

pub open spec fn batch_error_message() -> Seq<char> {
    "Failed to load config files"@
}

/// Why an entry of a successful batch cannot be admitted, if it cannot.
pub open spec fn entry_problem<C>(e: ConfigEntry<C>) -> Option<DiagnosticView> {
    match e.config {
        Err(err) => Some(diag(parse_failed_message(e.path@), Some(err@))),
        Ok(d) => if d.extends@.len() > 0 {
            Some(diag(extends_message(e.path@), None))
        } else {
            None
        },
    }
}

/// The diagnostics of a batch, one per entry that cannot be admitted, in order.
pub open spec fn problems<C>(es: Seq<ConfigEntry<C>>) -> Seq<DiagnosticView>
    decreases es.len(),
{
    if es.len() == 0 {
        Seq::empty()
    } else {
        let before = problems(es.drop_last());
        match entry_problem(es.last()) {
            Some(d) => before.push(d),
            None => before,
        }
    }
}

/// `r` holds every entry of `es`, in order, with its path and decoded config.
pub open spec fn admits_all<C>(es: Seq<ConfigEntry<C>>, r: Seq<JsConfigResult<C>>) -> bool {
    &&& r.len() == es.len()
    &&& forall|i: int|
        0 <= i < es.len() ==> (#[trigger] r[i]).path@ == es[i].path@ && (es[i].config matches Ok(
            d,
        ) && r[i].config == d.config)
}

pub open spec fn failure_diag(f: LoadFailure) -> DiagnosticView {
    diag(load_failed_message(f.path@), Some(f.error@))
}

/// What a response stands for: the admitted entries when the batch is clean,
/// otherwise the diagnostics alone.
pub open spec fn response_outcome<C>(
    response: LoadJsConfigsResponse<C>,
    r: Result<Vec<JsConfigResult<C>>, Vec<Diagnostic>>,
) -> bool {
    match response {
        LoadJsConfigsResponse::Success(es) => if problems(es@).len() == 0 {
            r matches Ok(v) && admits_all(es@, v@)
        } else {
            r matches Err(ds) && views(ds@) == problems(es@)
        },
        LoadJsConfigsResponse::Failures(fs) => r matches Err(ds) && views(ds@) == fs@.map_values(
            |f: LoadFailure| failure_diag(f),
        ),
        LoadJsConfigsResponse::Error(e) => r matches Err(ds) && views(ds@) == seq![
            diag(batch_error_message(), Some(e@)),
        ],
    }
}

/// Turns the host's answer to a batched config load into admitted entries or
/// diagnostics. A batch is atomic: if any entry fails to decode or declares a
/// non-empty `extends`, no entry is admitted and one diagnostic is returned per
/// such entry.
pub fn parse_js_config_response<C>(response: LoadJsConfigsResponse<C>) -> (r: Result<
    Vec<JsConfigResult<C>>,
    Vec<Diagnostic>,
>)
    ensures
        response_outcome(response, r),
{
    match response {
        LoadJsConfigsResponse::Success(entries) => {
            let ghost all = entries@;
            let mut rest = entries;
            let total = rest.len();
            let mut configs: Vec<JsConfigResult<C>> = Vec::new();
            let mut errors: Vec<Diagnostic> = Vec::new();
            let mut i: usize = 0;
            assert(all.subrange(0, 0) =~= Seq::<ConfigEntry<C>>::empty());
            assert(all.subrange(0, all.len() as int) =~= all);
            while rest.len() > 0
                invariant
                    i <= all.len() == total,
                    rest@ == all.subrange(i as int, all.len() as int),
                    views(errors@) == problems(all.subrange(0, i as int)),
                    problems(all.subrange(0, i as int)).len() == 0 ==> admits_all(
                        all.subrange(0, i as int),
                        configs@,
                    ),
                decreases rest.len(),
            {
                let ghost prefix = all.subrange(0, i as int);
                let ghost next = all.subrange(0, i + 1);
                assert(next.drop_last() =~= prefix);
                assert(next.last() == all[i as int]);
                let entry = rest.remove(0);
                assert(entry == all[i as int]);
                let ConfigEntry { path, config } = entry;
                match config {
                    Err(err) => {
                        let d = Diagnostic::prefixed("Failed to parse config from ", path.as_str()).with_note(
                            err,
                        );
                        let ghost old_errors = errors@;
                        errors.push(d);
                        assert(views(errors@) =~= views(old_errors).push(d@));
                    },
                    Ok(decoded) => {
                        if decoded.extends.len() > 0 {
                            let m = String::from_str(
                                "`extends` in JavaScript configs is not yet supported (found in ",
                            ).concat(path.as_str()).concat(")");
                            let d = Diagnostic::error(m);
                            let ghost old_errors = errors@;
                            errors.push(d);
                            assert(views(errors@) =~= views(old_errors).push(d@));
                        } else {
                            let DecodedConfig { config, extends: _ } = decoded;
                            let ghost old_configs = configs@;
                            configs.push(JsConfigResult { path, config });
                            proof {
                                assert(entry_problem(all[i as int]).is_none());
                                assert(problems(next) == problems(prefix));
                                if problems(next).len() == 0 {
                                    assert(admits_all(prefix, old_configs));
                                    assert(admits_all(next, configs@)) by {
                                        assert forall|j: int| 0 <= j < next.len() implies (
                                        #[trigger] configs@[j]).path@ == next[j].path@ && (
                                        next[j].config matches Ok(d) && configs@[j].config
                                            == d.config) by {
                                            if j < i {
                                                assert(next[j] == prefix[j]);
                                                assert(configs@[j] == old_configs[j]);
                                            }
                                        }
                                    }
                                }
                            }
                        }
                    },
                }
                i = i + 1;
            }
            assert(all.subrange(0, i as int) =~= all);
            if errors.len() == 0 {
                Ok(configs)
            } else {
                Err(errors)
            }
        },
        LoadJsConfigsResponse::Failures(failures) => {
            let ghost all = failures@;
            let mut rest = failures;
            let total = rest.len();
            let mut errors: Vec<Diagnostic> = Vec::new();
            let ghost f = |x: LoadFailure| failure_diag(x);
            let mut i: usize = 0;
            assert(all.subrange(0, all.len() as int) =~= all);
            while rest.len() > 0
                invariant
                    i <= all.len() == total,
                    rest@ == all.subrange(i as int, all.len() as int),
                    views(errors@) =~= all.subrange(0, i as int).map_values(f),
                    f == (|x: LoadFailure| failure_diag(x)),
                decreases rest.len(),
            {
                let failure = rest.remove(0);
                assert(failure == all[i as int]);
                let LoadFailure { path, error } = failure;
                let d = Diagnostic::prefixed("Failed to load config: ", path.as_str()).with_note(error);
                let ghost old_errors = errors@;
                errors.push(d);
                assert(views(errors@) =~= views(old_errors).push(d@));
                assert(all.subrange(0, i + 1).map_values(f) =~= all.subrange(0, i as int).map_values(
                    f,
                ).push(f(all[i as int])));
                i = i + 1;
            }
            assert(all.subrange(0, i as int) =~= all);
            Err(errors)
        },
        LoadJsConfigsResponse::Error(error) => {
            let d = Diagnostic::error(String::from_str("Failed to load config files")).with_note(
                error,
            );
            let errors = vec![d];
            assert(views(errors@) =~= seq![d@]);
            Err(errors)
        },
    }
}

/// Finishes a batched config load from what the host call produced: a failure of
/// the call or of decoding its payload becomes the one diagnostic; an answer is
/// parsed as by `parse_js_config_response`.
pub fn finish_js_config_load<C>(reply: HostReply<LoadJsConfigsResponse<C>>) -> (r: Result<
    Vec<JsConfigResult<C>>,
    Vec<Diagnostic>,
>)
    ensures
        match reply {
            HostReply::Answered(response) => response_outcome(response, r),
            HostReply::Threw(t) => r matches Err(ds) && views(ds@) == seq![
                diag(threw_message(Operation::LoadJsConfigs, t@), None),
            ],
            HostReply::Malformed(t) => r matches Err(ds) && views(ds@) == seq![
                diag(malformed_message(Operation::LoadJsConfigs, t@), None),
            ],
        },
{
    match settle(Operation::LoadJsConfigs, reply) {
        Ok(response) => parse_js_config_response(response),
        Err(d) => {
            let errors = vec![d];
            assert(views(errors@) =~= seq![d@]);
            Err(errors)
        },
    }
}

} // verus!
