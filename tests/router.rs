use host_bridge::router::{complete, route, Mode};

#[test]
fn parse_failure_with_code_two_completes_with_one() {
    let d = route(Err(2));
    assert_eq!(d.label, "cli");
    assert_eq!(d.completion_code, Some(1));
}

#[test]
fn help_request_completes_with_zero() {
    let d = route(Err(0));
    assert_eq!(d.label, "cli");
    assert_eq!(d.completion_code, Some(0));
}

#[test]
fn init_intent_goes_to_host() {
    let d = route(Ok(Mode::Init));
    assert_eq!(d.label, "init");
    assert_eq!(d.completion_code, None);
    assert!(Mode::Init.runs_on_host());
}

#[test]
fn migrate_intent_goes_to_host() {
    let d = route(Ok(Mode::Migrate));
    assert_eq!(d.label, "migrate:prettier");
    assert_eq!(d.completion_code, None);
}

#[test]
fn native_modes_continue() {
    for (mode, label) in [(Mode::Lsp, "lsp"), (Mode::Stdin, "stdin"), (Mode::Cli, "cli")] {
        let d = route(Ok(mode));
        assert_eq!(d.label, label);
        assert_eq!(d.completion_code, None);
        assert!(!mode.runs_on_host());
    }
}

#[test]
fn completion_after_native_work() {
    let d = complete(Mode::Stdin, 1);
    assert_eq!(d.label, "stdin");
    assert_eq!(d.completion_code, Some(1));
}

#[test]
fn language_server_completes_with_zero() {
    let d = complete(Mode::Lsp, 3);
    assert_eq!(d.label, "lsp");
    assert_eq!(d.completion_code, Some(0));
}
