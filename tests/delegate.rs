use host_bridge::bridge::{settle, HostReply, Operation};
use host_bridge::delegate::{
    format_embedded_or_original, format_file_or_original, sort_classes_or_original,
    ExternalDelegate, InitStep,
};

fn strings(v: &[&str]) -> Vec<String> {
    v.iter().map(|s| s.to_string()).collect()
}

#[test]
fn init_twice_calls_host_once() {
    let mut host_calls = 0;
    let mut d = ExternalDelegate::new();
    let mut results = Vec::new();
    for _ in 0..2 {
        let names = match d.init_step(4) {
            InitStep::CallHost(n) => {
                assert_eq!(n, 4);
                host_calls += 1;
                d.record_init(HostReply::Answered(strings(&["tailwind"]))).unwrap()
            }
            InitStep::Cached(outcome) => outcome.unwrap(),
        };
        results.push(names);
    }
    assert_eq!(host_calls, 1);
    assert_eq!(results[0], results[1]);
    assert_eq!(results[0], strings(&["tailwind"]));
}

#[test]
fn later_replies_do_not_replace_names() {
    let mut d = ExternalDelegate::new();
    d.record_init(HostReply::Answered(strings(&["a"]))).unwrap();
    let again = d.record_init(HostReply::Answered(strings(&["b"]))).unwrap();
    assert_eq!(again, strings(&["a"]));
    let after_failure = d.record_init(HostReply::Threw("boom".to_string())).unwrap();
    assert_eq!(after_failure, strings(&["a"]));
}

#[test]
fn failed_init_is_not_retried() {
    let mut d = ExternalDelegate::new();
    let e = d.record_init(HostReply::Threw("no plugins".to_string())).unwrap_err();
    assert_eq!(e.message, "`initExternalFormatter` threw an error: no plugins");
    assert!(d.is_initialized());
    match d.init_step(1) {
        InitStep::Cached(Err(again)) => assert_eq!(again.message, e.message),
        _ => panic!("a failed initialisation must not call the host again"),
    }
    let later = d.record_init(HostReply::Answered(vec![])).unwrap_err();
    assert_eq!(later.message, e.message);
}

#[test]
fn host_failure_and_decode_failure_differ() {
    let a = settle::<String>(Operation::FormatFile, HostReply::Threw("x".to_string())).unwrap_err();
    let b =
        settle::<String>(Operation::FormatFile, HostReply::Malformed("x".to_string())).unwrap_err();
    assert_eq!(a.message, "`formatFile` threw an error: x");
    assert_eq!(b.message, "Failed to parse `formatFile` response: x");
    assert_ne!(a.message, b.message);
}

#[test]
fn failed_formatting_keeps_original() {
    let code = "let  x=1".to_string();
    let (out, failure) = format_embedded_or_original(code.clone(), HostReply::Threw("err".to_string()));
    assert_eq!(out, code);
    assert_eq!(failure.unwrap().message, "`formatEmbeddedCode` threw an error: err");
    let (out, failure) = format_file_or_original(code.clone(), HostReply::Malformed("bad".to_string()));
    assert_eq!(out, code);
    assert_eq!(failure.unwrap().message, "Failed to parse `formatFile` response: bad");
}

#[test]
fn successful_formatting_returns_answer() {
    let (out, failure) =
        format_file_or_original("let  x=1".to_string(), HostReply::Answered("let x = 1;\n".to_string()));
    assert_eq!(out, "let x = 1;\n");
    assert!(failure.is_none());
    let (out, failure) = format_embedded_or_original(
        "a{b:c}".to_string(),
        HostReply::Answered("a {\n  b: c;\n}".to_string()),
    );
    assert_eq!(out, "a {\n  b: c;\n}");
    assert!(failure.is_none());
}

#[test]
fn failed_sort_keeps_class_order() {
    let classes = strings(&["p-4", "flex", "m-2"]);
    let (out, failure) = sort_classes_or_original(classes.clone(), HostReply::Threw("err".to_string()));
    assert_eq!(out, classes);
    assert_eq!(failure.unwrap().message, "`sortTailwindClasses` threw an error: err");
    let (sorted, failure) = sort_classes_or_original(
        classes.clone(),
        HostReply::Answered(strings(&["m-2", "flex", "p-4"])),
    );
    assert_eq!(sorted, strings(&["m-2", "flex", "p-4"]));
    assert!(failure.is_none());
}
