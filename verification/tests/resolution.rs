use gopls_locator::environment::EnvLookup;
use gopls_locator::environment::EnvValue;
use gopls_locator::error::PluginError;
use gopls_locator::json::JsonValue;
use gopls_locator::resolve::calculate_lsp_params;
use gopls_locator::resolve::resolve_with_environment;
use gopls_locator::resolve::PendingResolution;
use gopls_locator::resolve::Resolution;

fn obj(entries: Vec<(&str, JsonValue)>) -> JsonValue {
    JsonValue::Object(entries.into_iter().map(|(k, v)| (k.to_string(), v)).collect())
}

fn text(s: &str) -> JsonValue {
    JsonValue::Text(s.to_string())
}

fn set(s: &str) -> EnvValue {
    EnvValue::Text(s.to_string())
}

fn env(gobin: EnvValue, gopath: EnvValue, home: EnvValue) -> EnvLookup {
    EnvLookup { gobin, gopath, home }
}

fn no_args() -> PendingResolution {
    PendingResolution {
        server_args: vec![],
        options: None,
    }
}

fn all_ok() -> Vec<bool> {
    vec![true; 5]
}

fn assert_go_selector(ds: &[gopls_locator::resolve::DocumentFilter]) {
    assert_eq!(ds.len(), 1);
    assert_eq!(ds[0].language.as_deref(), Some("go"));
    assert_eq!(ds[0].pattern.as_deref(), Some("**.go"));
    assert!(ds[0].scheme.is_none());
}

#[test]
fn override_path_and_args_taken_verbatim() {
    let payload = obj(vec![
        (
            "volt",
            obj(vec![
                ("serverPath", text("/custom/gopls")),
                (
                    "serverArgs",
                    JsonValue::Array(vec![
                        text("-rpc.trace"),
                        JsonValue::Number(serde_json::Number::from(7u64)),
                        text("--debug"),
                        JsonValue::Bool(true),
                    ]),
                ),
            ]),
        ),
        ("gopls", obj(vec![("usePlaceholders", JsonValue::Bool(true))])),
    ]);
    match calculate_lsp_params(Some(payload)).unwrap() {
        Resolution::Ready(lp) => {
            assert_eq!(lp.uri_text, "urn:/custom/gopls");
            assert_eq!(lp.server_uri.as_str(), "urn:/custom/gopls");
            assert_eq!(
                lp.server_args,
                vec!["-rpc.trace".to_string(), "--debug".to_string()]
            );
            assert_go_selector(&lp.document_selector);
            assert_eq!(
                lp.options,
                Some(obj(vec![("usePlaceholders", JsonValue::Bool(true))]))
            );
        }
        Resolution::NeedsTools(_) => panic!("a non-empty override path must resolve at once"),
    }
}

#[test]
fn empty_override_path_falls_through() {
    let payload = obj(vec![(
        "volt",
        obj(vec![
            ("serverPath", text("")),
            ("serverArgs", JsonValue::Array(vec![text("-v")])),
        ]),
    )]);
    match calculate_lsp_params(Some(payload)).unwrap() {
        Resolution::Ready(_) => panic!("an empty override path is no override"),
        Resolution::NeedsTools(p) => {
            assert_eq!(p.server_args, vec!["-v".to_string()]);
            assert!(p.options.is_none());
        }
    }
}

#[test]
fn non_string_argument_entries_are_dropped() {
    let payload = obj(vec![(
        "volt",
        obj(vec![(
            "serverArgs",
            JsonValue::Array(vec![JsonValue::Null, JsonValue::Bool(false)]),
        )]),
    )]);
    match calculate_lsp_params(Some(payload)).unwrap() {
        Resolution::NeedsTools(p) => assert!(p.server_args.is_empty()),
        Resolution::Ready(_) => panic!("no override path was given"),
    }
}

#[test]
fn malformed_argument_list_means_no_arguments() {
    let payload = obj(vec![(
        "volt",
        obj(vec![("serverArgs", text("not a list"))]),
    )]);
    match calculate_lsp_params(Some(payload)).unwrap() {
        Resolution::NeedsTools(p) => assert!(p.server_args.is_empty()),
        Resolution::Ready(_) => panic!("no override path was given"),
    }
}

#[test]
fn first_matching_key_wins() {
    let payload = obj(vec![(
        "volt",
        obj(vec![
            ("serverPath", text("/first")),
            ("serverPath", text("/second")),
        ]),
    )]);
    match calculate_lsp_params(Some(payload)).unwrap() {
        Resolution::Ready(lp) => assert_eq!(lp.uri_text, "urn:/first"),
        Resolution::NeedsTools(_) => panic!("the first serverPath entry holds a path"),
    }
}

#[test]
fn non_object_payload_has_no_override() {
    match calculate_lsp_params(Some(text("odd"))).unwrap() {
        Resolution::NeedsTools(p) => {
            assert!(p.server_args.is_empty());
            assert!(p.options.is_none());
        }
        Resolution::Ready(_) => panic!("a non-object payload holds no override"),
    }
}

#[test]
fn missing_payload_has_no_override() {
    match calculate_lsp_params(None).unwrap() {
        Resolution::NeedsTools(p) => {
            assert!(p.server_args.is_empty());
            assert!(p.options.is_none());
        }
        Resolution::Ready(_) => panic!("a missing payload holds no override"),
    }
}

#[test]
fn invalid_override_uri_is_reported() {
    let payload = obj(vec![(
        "volt",
        obj(vec![("serverPath", text("//[::bad"))]),
    )]);
    match calculate_lsp_params(Some(payload)) {
        Err(PluginError::MalformedUri(_)) => {}
        _ => panic!("an unparsable location must fail as a malformed URI"),
    }
}

#[test]
fn gobin_decides_regardless_of_gopath_and_home() {
    let e = env(set("/x"), set("/y"), set("/z"));
    let lp = resolve_with_environment(no_args(), &all_ok(), &e, &None).unwrap();
    assert_eq!(lp.uri_text, "urn:/x/gopls");
    assert_eq!(lp.server_uri.as_str(), "urn:/x/gopls");
    assert_go_selector(&lp.document_selector);
}

#[test]
fn windows_report_appends_exe_suffix() {
    let e = env(set("/x"), EnvValue::Unset, EnvValue::Unset);
    let os = Some("windows".to_string());
    let lp = resolve_with_environment(no_args(), &all_ok(), &e, &os).unwrap();
    assert_eq!(lp.uri_text, "urn:/x/gopls.exe");
}

#[test]
fn other_os_report_keeps_plain_name() {
    let e = env(set("/x"), EnvValue::Unset, EnvValue::Unset);
    let os = Some("linux".to_string());
    let lp = resolve_with_environment(no_args(), &all_ok(), &e, &os).unwrap();
    assert_eq!(lp.uri_text, "urn:/x/gopls");
}

#[test]
fn gopath_fallback_appends_bin() {
    let e = env(EnvValue::Unset, set("/y"), set("/z"));
    let lp = resolve_with_environment(no_args(), &all_ok(), &e, &None).unwrap();
    assert_eq!(lp.uri_text, "urn:/y/bin/gopls");
}

#[test]
fn home_fallback_appends_go_bin() {
    let e = env(EnvValue::Unset, EnvValue::Unset, set("/z"));
    let lp = resolve_with_environment(no_args(), &all_ok(), &e, &None).unwrap();
    assert_eq!(lp.uri_text, "urn:/z/go/bin/gopls");
}

#[test]
fn nothing_set_finds_no_installation_path() {
    let e = env(EnvValue::Unset, EnvValue::Unset, EnvValue::Unset);
    match resolve_with_environment(no_args(), &all_ok(), &e, &None) {
        Err(PluginError::NoInstallationPathFound) => {}
        _ => panic!("no variable set must fail for want of a path"),
    }
}

#[test]
fn empty_gobin_falls_through_to_gopath() {
    let e = env(set(""), set("/y"), EnvValue::Unset);
    let lp = resolve_with_environment(no_args(), &all_ok(), &e, &None).unwrap();
    assert_eq!(lp.uri_text, "urn:/y/bin/gopls");
}

#[test]
fn unreadable_gobin_stops_resolution() {
    let e = env(EnvValue::NotText("b\u{fffd}d".to_string()), set("/y"), set("/z"));
    match resolve_with_environment(no_args(), &all_ok(), &e, &None) {
        Err(PluginError::EnvironmentValueNotText(var, val)) => {
            assert_eq!(var, "GOBIN");
            assert_eq!(val, "b\u{fffd}d");
        }
        _ => panic!("an unreadable variable must not fall through"),
    }
}

#[test]
fn unreadable_gopath_is_named() {
    let e = env(
        EnvValue::Unset,
        EnvValue::NotText("o\u{fffd}ps".to_string()),
        set("/z"),
    );
    match resolve_with_environment(no_args(), &all_ok(), &e, &None) {
        Err(PluginError::EnvironmentValueNotText(var, _)) => assert_eq!(var, "GOPATH"),
        _ => panic!("an unreadable variable must not fall through"),
    }
}

#[test]
fn trailing_separator_does_not_truncate_final_segment() {
    let e = env(set("/x/"), EnvValue::Unset, EnvValue::Unset);
    let lp = resolve_with_environment(no_args(), &all_ok(), &e, &None).unwrap();
    assert_eq!(lp.uri_text, "urn:/x/gopls");
    assert!(lp.uri_text.ends_with("gopls"));
    assert!(lp.server_uri.as_str().ends_with("gopls"));
}

#[test]
fn install_failure_names_the_tool() {
    let e = env(set("/x"), set("/y"), set("/z"));
    let results = vec![true, true, false];
    match resolve_with_environment(no_args(), &results, &e, &None) {
        Err(PluginError::InstallFailed(name)) => assert_eq!(name, "revive"),
        _ => panic!("a failed install must fail resolution naming the tool"),
    }
}

#[test]
fn first_install_failure_wins() {
    let e = env(set("/x"), set("/y"), set("/z"));
    let results = vec![false];
    match resolve_with_environment(no_args(), &results, &e, &None) {
        Err(PluginError::InstallFailed(name)) => assert_eq!(name, "staticcheck"),
        _ => panic!("a failed install must fail resolution naming the tool"),
    }
}

#[test]
fn pending_arguments_and_options_survive() {
    let pending = PendingResolution {
        server_args: vec!["-remote=auto".to_string()],
        options: Some(obj(vec![("verboseOutput", JsonValue::Bool(true))])),
    };
    let e = env(set("/x"), EnvValue::Unset, EnvValue::Unset);
    let lp = resolve_with_environment(pending, &all_ok(), &e, &None).unwrap();
    assert_eq!(lp.server_args, vec!["-remote=auto".to_string()]);
    assert_eq!(
        lp.options,
        Some(obj(vec![("verboseOutput", JsonValue::Bool(true))]))
    );
    assert_go_selector(&lp.document_selector);
}
