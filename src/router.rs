use vstd::prelude::*;

verus! {

/// The command intents that the command line can select.
#[derive(Clone, Copy, Debug, PartialEq, Eq, Structural)]
pub enum Mode {
    /// Scaffold an initial config; runs on the host side.
    Init,
    /// Migrate from Prettier's config; runs on the host side.
    Migrate,
    /// Language server.
    Lsp,
    /// Format what standard input holds.
    Stdin,
    /// Format files.
    Cli,
}

/// Where execution goes next: the mode's label, and the completion code when
/// no further native work is to be done.
#[derive(Debug)]
pub struct ModeDecision {
    pub label: String,
    pub completion_code: Option<u8>,
}

pub open spec fn mode_label(mode: Mode) -> Seq<char> {
    match mode {
        Mode::Init => "init"@,
        Mode::Migrate => "migrate:prettier"@,
        Mode::Lsp => "lsp"@,
        Mode::Stdin => "stdin"@,
        Mode::Cli => "cli"@,
    }
}

/// Whether a mode runs entirely on the host side.
pub open spec fn runs_on_host(mode: Mode) -> bool {
    mode is Init || mode is Migrate
}

impl Mode {
    pub fn label(&self) -> (r: &'static str)
        ensures
            r@ == mode_label(*self),
    {
        match self {
            Mode::Init => "init",
            Mode::Migrate => "migrate:prettier",
            Mode::Lsp => "lsp",
            Mode::Stdin => "stdin",
            Mode::Cli => "cli",
        }
    }

    pub fn runs_on_host(&self) -> (r: bool)
        ensures
            r == runs_on_host(*self),
    {
        matches!(self, Mode::Init | Mode::Migrate)
    }
}

/// Routes a parsed command line. `command` is the selected mode, or the exit code
/// that the argument parser reported when it stopped (zero for help and version
/// requests). A stopped parse completes with 1 when its code is non-zero and 0
/// otherwise; every mode is labelled with no completion code, and the caller
/// either hands it to the host or continues natively.
pub fn route(command: Result<Mode, i32>) -> (r: ModeDecision)
    ensures
        match command {
            Err(code) => r.label@ == "cli"@ && r.completion_code == Some(
                if code != 0 {
                    1u8
                } else {
                    0u8
                },
            ),
            Ok(mode) => r.label@ == mode_label(mode) && r.completion_code.is_none(),
        },
{
    match command {
        Err(code) => {
            let exit: u8 = if code != 0 {
                1
            } else {
                0
            };
            ModeDecision { label: String::from_str("cli"), completion_code: Some(exit) }
        },
        Ok(mode) => ModeDecision { label: String::from_str(mode.label()), completion_code: None },
    }
}

/// The decision after native work for `mode` finished with `exit_code`. The
/// language server completes with 0 once its loop has ended, whatever the code.
pub fn complete(mode: Mode, exit_code: u8) -> (r: ModeDecision)
    ensures
        r.label@ == mode_label(mode),
        r.completion_code == Some(
            if mode is Lsp {
                0u8
            } else {
                exit_code
            },
        ),
{
    let code: u8 = if matches!(mode, Mode::Lsp) {
        0
    } else {
        exit_code
    };
    ModeDecision { label: String::from_str(mode.label()), completion_code: Some(code) }
}

} // verus!
