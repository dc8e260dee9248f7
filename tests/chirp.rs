use chirp::{
    build_request, credentials_from_entries, decode_credentials, encode_credentials,
    load_credentials, lookup_entry, plan, prepare_send, record_entries, service_priority,
    wrapper_file, Action, ChirpError, Command, Credentials, Notification, PriorityLevel,
    StoredFile, API_TOKEN_FIELD, CONFIG_FILE_NAME, CUSTOM_TITLE, EMERGENCY_EXPIRE,
    EMERGENCY_RETRY, FAILURE_TITLE, SUCCESS_TITLE, USER_KEY_FIELD, WRAPPER_DIR,
    WRAPPER_FILE_NAME, WRAPPER_MODE, WRAPPER_SCRIPT,
};

fn creds(token: &str, key: &str) -> Credentials {
    Credentials { api_token: token.to_string(), user_key: key.to_string() }
}

fn pair(k: &str, v: &str) -> (String, String) {
    (k.to_string(), v.to_string())
}

fn sent(a: Action) -> Notification {
    match a {
        Action::Send(n) => n,
        Action::SaveCredentials { .. } => panic!("expected a notification"),
    }
}

#[test]
fn plain_levels_carry_no_retry_or_expiry() {
    assert_eq!(service_priority(PriorityLevel::Lowest), pushover::Priority::Lowest);
    assert_eq!(service_priority(PriorityLevel::Low), pushover::Priority::Low);
    assert_eq!(service_priority(PriorityLevel::Normal), pushover::Priority::Normal);
    assert_eq!(service_priority(PriorityLevel::High), pushover::Priority::High);
}

#[test]
fn emergency_carries_fixed_retry_and_expiry() {
    assert_eq!(EMERGENCY_RETRY, 30);
    assert_eq!(EMERGENCY_EXPIRE, 10800);
    assert_eq!(
        service_priority(PriorityLevel::Emergency),
        pushover::Priority::Emergency { retry: 30, expire: 10800, callback_url: None }
    );
}

#[test]
fn success_defaults_to_normal_and_its_title() {
    let n = sent(plan(Command::Success { message: "done".to_string(), priority: None }));
    assert_eq!(n.title, "Success Notification");
    assert_eq!(n.title, SUCCESS_TITLE);
    assert_eq!(n.message, "done");
    assert_eq!(n.priority, PriorityLevel::Normal);
}

#[test]
fn failure_defaults_to_high_and_its_title() {
    let n = sent(plan(Command::Failure { message: "broke".to_string(), priority: None }));
    assert_eq!(n.title, "Failure Notification");
    assert_eq!(n.title, FAILURE_TITLE);
    assert_eq!(n.message, "broke");
    assert_eq!(n.priority, PriorityLevel::High);
}

#[test]
fn msg_defaults_to_normal_and_custom_title() {
    let n = sent(plan(Command::Msg { message: "hi".to_string(), title: None, priority: None }));
    assert_eq!(n.title, "Custom Notification");
    assert_eq!(n.title, CUSTOM_TITLE);
    assert_eq!(n.message, "hi");
    assert_eq!(n.priority, PriorityLevel::Normal);
}

#[test]
fn given_title_and_priority_are_kept() {
    let n = sent(plan(Command::Msg {
        message: "hi".to_string(),
        title: Some("Deploy".to_string()),
        priority: Some(PriorityLevel::Emergency),
    }));
    assert_eq!(n.title, "Deploy");
    assert_eq!(n.priority, PriorityLevel::Emergency);
    let f = sent(plan(Command::Failure {
        message: "x".to_string(),
        priority: Some(PriorityLevel::Lowest),
    }));
    assert_eq!(f.priority, PriorityLevel::Lowest);
    let s = sent(plan(Command::Success { message: "y".to_string(), priority: Some(PriorityLevel::Low) }));
    assert_eq!(s.priority, PriorityLevel::Low);
}

#[test]
fn config_plans_a_save_and_the_wrapper() {
    match plan(Command::Config {
        api_token: "ABC".to_string(),
        user_key: "XYZ".to_string(),
        no_wrapper: false,
    }) {
        Action::SaveCredentials { credentials, install_wrapper } => {
            assert_eq!(credentials.api_token, "ABC");
            assert_eq!(credentials.user_key, "XYZ");
            assert!(install_wrapper);
        }
        Action::Send(_) => panic!("expected a save"),
    }
    match plan(Command::Config {
        api_token: "A".to_string(),
        user_key: "B".to_string(),
        no_wrapper: true,
    }) {
        Action::SaveCredentials { install_wrapper, .. } => assert!(!install_wrapper),
        Action::Send(_) => panic!("expected a save"),
    }
}

#[test]
fn record_is_stored_as_two_entries() {
    let e = record_entries(&creds("ABC", "XYZ"));
    assert_eq!(e, vec![pair("api_token", "ABC"), pair("user_key", "XYZ")]);
    assert_eq!(API_TOKEN_FIELD, "api_token");
    assert_eq!(USER_KEY_FIELD, "user_key");
}

#[test]
fn entries_round_trip() {
    let c = credentials_from_entries(&record_entries(&creds("tok", "key"))).unwrap();
    assert_eq!(c.api_token, "tok");
    assert_eq!(c.user_key, "key");
}

#[test]
fn entries_need_both_keys() {
    let only_token = vec![pair("api_token", "t")];
    assert_eq!(credentials_from_entries(&only_token).unwrap_err(), ChirpError::ConfigParse);
    let only_key = vec![pair("user_key", "k")];
    assert_eq!(credentials_from_entries(&only_key).unwrap_err(), ChirpError::ConfigParse);
    assert_eq!(credentials_from_entries(&vec![]).unwrap_err(), ChirpError::ConfigParse);
}

#[test]
fn entries_ignore_other_keys() {
    let e = vec![pair("api_token", "t"), pair("extra", "z"), pair("user_key", "k")];
    let c = credentials_from_entries(&e).unwrap();
    assert_eq!(c.api_token, "t");
    assert_eq!(c.user_key, "k");
}

#[test]
fn lookup_takes_the_first_match() {
    let e = vec![pair("a", "1"), pair("b", "2"), pair("a", "3")];
    assert_eq!(lookup_entry(&e, &"a".to_string()), Some("1".to_string()));
    assert_eq!(lookup_entry(&e, &"b".to_string()), Some("2".to_string()));
    assert_eq!(lookup_entry(&e, &"c".to_string()), None);
}

#[test]
fn encoded_record_is_yaml() {
    let text = encode_credentials(&creds("ABC", "XYZ"));
    assert_eq!(text, "api_token: ABC\nuser_key: XYZ\n");
}

#[test]
fn saved_record_loads_back() {
    for (t, k) in [("ABC", "XYZ"), ("a: b", "123"), ("", "line one\nline two"), ("'q'", "#x")] {
        let text = encode_credentials(&creds(t, k));
        let c = decode_credentials(&text).unwrap();
        assert_eq!(c.api_token, t);
        assert_eq!(c.user_key, k);
    }
}

#[test]
fn malformed_text_is_a_parse_error() {
    assert_eq!(decode_credentials("just words").unwrap_err(), ChirpError::ConfigParse);
    assert_eq!(decode_credentials("- a\n- b\n").unwrap_err(), ChirpError::ConfigParse);
    assert_eq!(decode_credentials("api_token: t\n").unwrap_err(), ChirpError::ConfigParse);
    assert_eq!(decode_credentials("api_token: [t\n").unwrap_err(), ChirpError::ConfigParse);
}

#[test]
fn loading_before_config_is_not_found() {
    assert_eq!(load_credentials(&StoredFile::Missing).unwrap_err(), ChirpError::ConfigNotFound);
    assert_eq!(load_credentials(&StoredFile::Unreadable).unwrap_err(), ChirpError::ConfigIo);
    let c = load_credentials(&StoredFile::Text("user_key: K\napi_token: T\n".to_string())).unwrap();
    assert_eq!(c.api_token, "T");
    assert_eq!(c.user_key, "K");
}

#[test]
fn request_carries_everything_given() {
    let n = Notification {
        title: "T".to_string(),
        message: "M".to_string(),
        priority: PriorityLevel::Emergency,
    };
    let m = build_request(&creds("tok", "usr"), &n);
    assert_eq!(m.token, "tok");
    assert_eq!(m.user_key, "usr");
    assert_eq!(m.message, "M");
    assert_eq!(m.title, Some("T".to_string()));
    assert_eq!(
        m.priority,
        Some(pushover::Priority::Emergency { retry: 30, expire: 10800, callback_url: None })
    );
    assert!(m.devices.is_empty());
    assert_eq!(m.url, None);
    assert_eq!(m.url_title, None);
    assert_eq!(m.timestamp, None);
    assert!(m.sound.is_none());
}

#[test]
fn send_before_config_fails_early() {
    let n = Notification {
        title: "T".to_string(),
        message: "M".to_string(),
        priority: PriorityLevel::Normal,
    };
    assert_eq!(prepare_send(&StoredFile::Missing, &n).unwrap_err(), ChirpError::ConfigNotFound);
    assert_eq!(
        prepare_send(&StoredFile::Text("nonsense".to_string()), &n).unwrap_err(),
        ChirpError::ConfigParse
    );
}

#[test]
fn wrapper_file_is_fixed() {
    let w = wrapper_file();
    assert_eq!(w.dir, ".local/bin");
    assert_eq!(w.dir, WRAPPER_DIR);
    assert_eq!(w.file_name, "chirper");
    assert_eq!(w.file_name, WRAPPER_FILE_NAME);
    assert_eq!(w.contents, WRAPPER_SCRIPT);
    assert!(w.contents.starts_with("#!"));
    assert_eq!(w.mode, 0o755);
    assert_eq!(WRAPPER_MODE, 0o755);
}

#[test]
fn installing_twice_gives_the_same_file() {
    let first = wrapper_file();
    let second = wrapper_file();
    assert_eq!(first.contents, second.contents);
    assert_eq!(first.mode, second.mode);
    assert_eq!(first.dir, second.dir);
    assert_eq!(first.file_name, second.file_name);
}

#[test]
fn config_then_success_scenario() {
    assert_eq!(CONFIG_FILE_NAME, ".pushover_tokens.yml");
    let saved = match plan(Command::Config {
        api_token: "ABC".to_string(),
        user_key: "XYZ".to_string(),
        no_wrapper: false,
    }) {
        Action::SaveCredentials { credentials, .. } => credentials,
        Action::Send(_) => panic!("expected a save"),
    };
    let text = encode_credentials(&saved);
    assert!(text.contains("api_token: ABC"));
    assert!(text.contains("user_key: XYZ"));

    let n = sent(plan(Command::Success { message: "build ok".to_string(), priority: None }));
    let m = prepare_send(&StoredFile::Text(text), &n).unwrap();
    assert_eq!(m.token, "ABC");
    assert_eq!(m.user_key, "XYZ");
    assert_eq!(m.title, Some("Success Notification".to_string()));
    assert_eq!(m.message, "build ok");
    assert_eq!(m.priority, Some(pushover::Priority::Normal));
}

#[test]
fn any_pair_is_rendered_without_format_checks() {
    let text = encode_credentials(&creds("not a token!", "key: with colon"));
    let c = decode_credentials(&text).unwrap();
    assert_eq!(c.api_token, "not a token!");
    assert_eq!(c.user_key, "key: with colon");
    assert!(text.starts_with("api_token: "));
}
