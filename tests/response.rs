use host_bridge::bridge::HostReply;
use host_bridge::response::{
    finish_js_config_load, parse_js_config_response, ConfigEntry, DecodedConfig, LoadFailure,
    LoadJsConfigsResponse,
};

fn entry(path: &str, config: u32, extends: &[&str]) -> ConfigEntry<u32> {
    ConfigEntry {
        path: path.to_string(),
        config: Ok(DecodedConfig { config, extends: extends.iter().map(|s| s.to_string()).collect() }),
    }
}

#[test]
fn valid_batch_is_admitted_in_order() {
    let r = parse_js_config_response(LoadJsConfigsResponse::Success(vec![
        entry("/a/oxlint.config.ts", 1, &[]),
        entry("/b/oxlint.config.js", 2, &[]),
    ]))
    .unwrap();
    assert_eq!(r.len(), 2);
    assert_eq!(r[0].path, "/a/oxlint.config.ts");
    assert_eq!(r[0].config, 1);
    assert_eq!(r[1].path, "/b/oxlint.config.js");
    assert_eq!(r[1].config, 2);
}

#[test]
fn extends_entry_discards_whole_batch() {
    let r = parse_js_config_response(LoadJsConfigsResponse::Success(vec![
        entry("/ok.ts", 1, &[]),
        entry("/ext.ts", 2, &["./base.json"]),
    ]));
    let ds = r.unwrap_err();
    assert_eq!(ds.len(), 1);
    assert_eq!(
        ds[0].message,
        "`extends` in JavaScript configs is not yet supported (found in /ext.ts)"
    );
    assert!(ds[0].note.is_none());
}

#[test]
fn decode_failure_names_path_with_note() {
    let r = parse_js_config_response(LoadJsConfigsResponse::Success(vec![
        ConfigEntry { path: "/bad.ts".to_string(), config: Err("unknown field `rulez`".to_string()) },
        entry("/ext.ts", 2, &["x"]),
        entry("/ok.ts", 3, &[]),
    ]));
    let ds = r.unwrap_err();
    assert_eq!(ds.len(), 2);
    assert_eq!(ds[0].message, "Failed to parse config from /bad.ts");
    assert_eq!(ds[0].note.as_deref(), Some("unknown field `rulez`"));
    assert_eq!(ds[1].message, "`extends` in JavaScript configs is not yet supported (found in /ext.ts)");
}

#[test]
fn empty_batch_is_ok() {
    let r = parse_js_config_response::<u32>(LoadJsConfigsResponse::Success(vec![])).unwrap();
    assert!(r.is_empty());
}

#[test]
fn failures_become_one_diagnostic_each() {
    let r = parse_js_config_response::<u32>(LoadJsConfigsResponse::Failures(vec![
        LoadFailure { path: "/a.ts".to_string(), error: "SyntaxError".to_string() },
        LoadFailure { path: "/b.ts".to_string(), error: "TypeError".to_string() },
    ]));
    let ds = r.unwrap_err();
    assert_eq!(ds.len(), 2);
    assert_eq!(ds[0].message, "Failed to load config: /a.ts");
    assert_eq!(ds[0].note.as_deref(), Some("SyntaxError"));
    assert_eq!(ds[1].message, "Failed to load config: /b.ts");
    assert_eq!(ds[1].note.as_deref(), Some("TypeError"));
}

#[test]
fn top_level_error_is_one_diagnostic() {
    let r = parse_js_config_response::<u32>(LoadJsConfigsResponse::Error("crashed".to_string()));
    let ds = r.unwrap_err();
    assert_eq!(ds.len(), 1);
    assert_eq!(ds[0].message, "Failed to load config files");
    assert_eq!(ds[0].note.as_deref(), Some("crashed"));
}

#[test]
fn failed_host_call_is_one_diagnostic() {
    let ds = finish_js_config_load::<u32>(HostReply::Threw("boom".to_string())).unwrap_err();
    assert_eq!(ds.len(), 1);
    assert_eq!(ds[0].message, "`loadJsConfigs` threw an error: boom");
    let ds = finish_js_config_load::<u32>(HostReply::Malformed("expected value".to_string())).unwrap_err();
    assert_eq!(ds.len(), 1);
    assert_eq!(ds[0].message, "Failed to parse JS config response: expected value");
    let ok = finish_js_config_load(HostReply::Answered(LoadJsConfigsResponse::Success(vec![entry("/a.ts", 9, &[])]))).unwrap();
    assert_eq!(ok[0].config, 9);
}
