use slacli::app_error::AppError;
use slacli::cli::parse_key_value;
use slacli::config::{
    config_dir, ChannelEntry, Config, Credentials, ProfileConfig, ProfileCredentials,
    ResolvedProfile,
};
use slacli::init::{
    apply_tokens, check_token, description_prompt, profile_name_from_input, register_profile,
    TokenKind,
};
use slacli::logs::{run, LogAction};
use slacli::slack::{
    check_reply, field_value, log_entry, parse_u64, profile_fields, read_reply, FieldValue,
};
use slacli::state::{log_path, remaining_log, state_dir};
use slacli::str_map::{Duplicate, StrMap};

fn channels() -> StrMap<ChannelEntry> {
    let mut m = StrMap::new();
    m.insert(
        "general".to_string(),
        ChannelEntry { id: "C123".to_string(), description: "main".to_string() },
    );
    m
}

fn sample_config() -> Config {
    let mut profiles = StrMap::new();
    profiles.insert(
        "work".to_string(),
        ProfileConfig { description: Some("Work".to_string()), channels: Some(channels()) },
    );
    profiles.insert("home".to_string(), ProfileConfig { description: None, channels: None });
    Config { default_profile: Some("work".to_string()), editor: None, profiles: Some(profiles) }
}

fn sample_credentials() -> Credentials {
    let mut c = Credentials::default();
    c.profiles.insert(
        "work".to_string(),
        ProfileCredentials {
            bot_token: Some("xoxb-1".to_string()),
            user_token: Some("xoxp-1".to_string()),
        },
    );
    c.profiles.insert(
        "home".to_string(),
        ProfileCredentials { bot_token: None, user_token: None },
    );
    c
}

fn detail(e: &AppError) -> String {
    e.detail().to_string()
}

// ---- errors ----

#[test]
fn exit_codes_and_types() {
    let errs = [
        (AppError::Config("a".to_string()), 1, "config_error"),
        (AppError::Validation("a".to_string()), 2, "validation_error"),
        (AppError::Api("a".to_string()), 3, "api_error"),
        (AppError::Network("a".to_string()), 4, "network_error"),
        (AppError::Io("a".to_string()), 5, "io_error"),
    ];
    for (e, code, kind) in &errs {
        assert_eq!(e.exit_code(), *code);
        assert_eq!(e.error_type(), *kind);
        assert_eq!(e.detail(), "a");
        assert_eq!(e.message(), "a");
    }
}

#[test]
fn error_json_report() {
    let e = AppError::Config("Profile 'x' not found in config.toml.".to_string());
    assert_eq!(
        e.to_json(),
        r#"{"detail":"Profile 'x' not found in config.toml.","error":"config_error","ok":false}"#
    );
    let e = AppError::Api("say \"hi\"\n".to_string());
    assert_eq!(e.to_json(), r#"{"detail":"say \"hi\"\n","error":"api_error","ok":false}"#);
}

#[test]
fn json_quoting_in_reports() {
    let e = AppError::Api("bell\u{7}".to_string());
    assert_eq!(e.to_json(), r#"{"detail":"bell\u0007","error":"api_error","ok":false}"#);
    let e = AppError::Io("a\\b\ttab".to_string());
    assert_eq!(e.to_json(), r#"{"detail":"a\\b\ttab","error":"io_error","ok":false}"#);
}

// ---- paths ----

#[test]
fn config_and_state_paths() {
    assert_eq!(config_dir(Some("/xdg"), Some("/home/u")), "/xdg/slacli");
    assert_eq!(config_dir(None, Some("/home/u")), "/home/u/.config/slacli");
    assert_eq!(Config::config_path(None, Some("/home/u")), "/home/u/.config/slacli/config.toml");
    assert_eq!(
        Credentials::credentials_path(Some("/xdg/"), None),
        "/xdg/slacli/credentials.toml"
    );
    assert_eq!(state_dir(None, Some("/home/u")), "/home/u/.local/state/slacli");
    assert_eq!(state_dir(Some("/st"), None), "/st/slacli");
    assert_eq!(log_path("/st/slacli", "chat-send"), "/st/slacli/logs/chat-send.jsonl");
}

// ---- profiles ----

#[test]
fn profile_name_from_cli_overrides_default() {
    let c = sample_config();
    assert_eq!(c.resolve_profile_name(Some("home")).unwrap(), "home");
    assert_eq!(c.resolve_profile_name(None).unwrap(), "work");
    let empty = Config::default();
    let err = empty.resolve_profile_name(None).unwrap_err();
    assert_eq!(
        detail(&err),
        "No profile specified. Use --profile or set default_profile in config.toml."
    );
    assert_eq!(err.exit_code(), 1);
}

#[test]
fn missing_profiles_are_reported() {
    let c = sample_config();
    assert_eq!(c.get_profile("work").unwrap().description.as_deref(), Some("Work"));
    let err = c.get_profile("nope").unwrap_err();
    assert_eq!(detail(&err), "Profile 'nope' not found in config.toml.");
    let err = Config::default().get_profile("work").unwrap_err();
    assert_eq!(detail(&err), "Profile 'work' not found in config.toml.");
    let creds = sample_credentials();
    let err = creds.get_profile("nope").unwrap_err();
    assert_eq!(
        detail(&err),
        "Profile 'nope' not found in credentials.toml. Run 'slacli init'."
    );
}

#[test]
fn resolving_a_profile() {
    let c = sample_config();
    let creds = sample_credentials();
    let r = c.resolve_profile(&creds, None).unwrap();
    assert_eq!(r.bot_token().unwrap(), "xoxb-1");
    assert_eq!(r.user_token().unwrap(), "xoxp-1");
    assert_eq!(r.resolve_channel("general"), "C123");
    assert_eq!(r.resolve_channel("C999"), "C999");

    let r = c.resolve_profile(&creds, Some("home")).unwrap();
    assert_eq!(
        detail(&r.bot_token().unwrap_err()),
        "Bot token not configured. Run 'slacli init'."
    );
    assert_eq!(
        detail(&r.user_token().unwrap_err()),
        "User token not configured. Run 'slacli init'."
    );
    assert_eq!(r.resolve_channel("general"), "general");

    let mut only_config = sample_config();
    only_config
        .profiles
        .as_mut()
        .unwrap()
        .insert("solo".to_string(), ProfileConfig::default());
    let err = only_config.resolve_profile(&creds, Some("solo")).unwrap_err();
    assert_eq!(
        detail(&err),
        "Profile 'solo' not found in credentials.toml. Run 'slacli init'."
    );
}

#[test]
fn resolved_profile_without_channels() {
    let r = ResolvedProfile { bot_token: None, user_token: None, channels: None };
    assert_eq!(r.resolve_channel("x"), "x");
}

#[test]
fn editor_choice() {
    let mut c = Config::default();
    assert_eq!(c.resolve_editor(None), "vim");
    assert_eq!(c.resolve_editor(Some("nano")), "nano");
    c.editor = Some("code".to_string());
    assert_eq!(c.resolve_editor(Some("nano")), "code");
}

// ---- init ----

#[test]
fn init_profile_name() {
    assert_eq!(profile_name_from_input("  work \n").unwrap(), "work");
    let err = profile_name_from_input(" \t\n").unwrap_err();
    assert_eq!(detail(&err), "Profile name is required.");
    assert_eq!(err.exit_code(), 2);
}

#[test]
fn init_description_prompt() {
    assert_eq!(description_prompt(None), "Profile description (optional): ");
    assert_eq!(description_prompt(Some("")), "Profile description (optional): ");
    assert_eq!(description_prompt(Some("Work")), "Profile description (optional) [Work]: ");
}

#[test]
fn init_registers_profile() {
    let mut c = Config::default();
    register_profile(&mut c, "first", "  My first \n");
    assert_eq!(c.default_profile.as_deref(), Some("first"));
    assert_eq!(c.get_profile("first").unwrap().description.as_deref(), Some("My first"));

    register_profile(&mut c, "second", "\n");
    assert_eq!(c.default_profile.as_deref(), Some("first"));
    assert_eq!(c.get_profile("second").unwrap().description, None);

    let mut c = sample_config();
    register_profile(&mut c, "work", "");
    let p = c.get_profile("work").unwrap();
    assert_eq!(p.description.as_deref(), Some("Work"));
    assert_eq!(p.channels.as_ref().unwrap().len(), 1);
}

#[test]
fn init_checks_tokens() {
    assert!(check_token(TokenKind::User, "").unwrap().is_none());
    assert_eq!(check_token(TokenKind::User, "xoxp-abc").unwrap().unwrap(), "xoxp-abc");
    assert_eq!(check_token(TokenKind::Bot, "xoxb-abc").unwrap().unwrap(), "xoxb-abc");
    let err = check_token(TokenKind::User, "xoxb-abc").unwrap_err();
    assert_eq!(detail(&err), "User token must start with 'xoxp-'.");
    let err = check_token(TokenKind::Bot, "xox").unwrap_err();
    assert_eq!(detail(&err), "Bot token must start with 'xoxb-'.");
}

#[test]
fn init_applies_tokens() {
    let mut creds = sample_credentials();
    apply_tokens(&mut creds, "work", None, Some("xoxb-new".to_string()));
    let p = creds.get_profile("work").unwrap();
    assert_eq!(p.bot_token.as_deref(), Some("xoxb-new"));
    assert_eq!(p.user_token.as_deref(), Some("xoxp-1"));

    apply_tokens(&mut creds, "fresh", None, None);
    let p = creds.get_profile("fresh").unwrap();
    assert!(p.bot_token.is_none() && p.user_token.is_none());
    assert_eq!(creds.profiles.len(), 3);
}

// ---- logs ----

#[test]
fn log_types() {
    assert_eq!(run("chat-send", false).unwrap(), LogAction::Print);
    assert_eq!(run("profile-edit", true).unwrap(), LogAction::Clear);
    let err = run("other", false).unwrap_err();
    assert_eq!(
        detail(&err),
        "Unknown log type: 'other'. Available types: chat-send, profile-edit"
    );
    assert_eq!(err.exit_code(), 2);
}

#[test]
fn removing_a_log_entry() {
    let content = "{\"channel\":\"C1\",\"ts\":\"1.0\",\"ok\":true}\nnot json\n{\"channel\":\"C1\",\"ts\":\"2.0\"}\n{\"channel\":\"C2\",\"ts\":\"1.0\"}\n";
    let rest = remaining_log(content, "C1", "1.0").unwrap();
    assert_eq!(
        rest,
        "not json\n{\"channel\":\"C1\",\"ts\":\"2.0\"}\n{\"channel\":\"C2\",\"ts\":\"1.0\"}\n"
    );
    // Nothing matches: the content comes back, newline-terminated.
    assert_eq!(remaining_log("a\nb", "C1", "1.0").unwrap(), "a\nb\n");
}

#[test]
fn removing_the_last_log_entry_removes_the_log() {
    let content = "{\"channel\":\"C1\",\"ts\":\"1.0\"}\r\n";
    assert!(remaining_log(content, "C1", "1.0").is_none());
    assert!(remaining_log("", "C1", "1.0").is_none());
}

// ---- command line ----

#[test]
fn key_value_arguments() {
    assert_eq!(parse_key_value("a=b").unwrap(), ("a".to_string(), "b".to_string()));
    assert_eq!(parse_key_value("a=b=c").unwrap(), ("a".to_string(), "b=c".to_string()));
    assert_eq!(parse_key_value("=v").unwrap(), (String::new(), "v".to_string()));
    assert_eq!(
        parse_key_value("novalue").unwrap_err(),
        "invalid KEY=VALUE: no '=' found in 'novalue'"
    );
}

// ---- Slack replies ----

#[test]
fn http_errors_are_network_errors() {
    let err = read_reply(404, "404 Not Found", "nope").unwrap_err();
    assert_eq!(detail(&err), "HTTP 404 Not Found: nope");
    assert_eq!(err.exit_code(), 4);
}

#[test]
fn replies_must_be_json() {
    let err = read_reply(200, "200 OK", "<html>").unwrap_err();
    assert!(detail(&err).starts_with("Invalid JSON response: "));
    assert_eq!(err.exit_code(), 3);
    let t = read_reply(200, "200 OK", "{ \"ok\" : true, \"b\": 1 }").unwrap();
    assert_eq!(t, r#"{"b":1,"ok":true}"#);
}

#[test]
fn reply_checks() {
    assert!(check_reply(r#"{"ok":true}"#).is_ok());
    let err = check_reply(r#"{"ok":false,"error":"channel_not_found"}"#).unwrap_err();
    assert_eq!(detail(&err), "channel_not_found");
    assert_eq!(err.exit_code(), 3);
    let err = check_reply(r#"{"ok":"true"}"#).unwrap_err();
    assert_eq!(detail(&err), "unknown error");
}

#[test]
fn log_entries_record_the_profile() {
    let line = log_entry(r#"{"ok":true,"ts":"1.0"}"#, "work").unwrap();
    assert_eq!(line, r#"{"_slacli_profile":"work","ok":true,"ts":"1.0"}"#);
    assert!(log_entry("[1]", "work").is_none());
}

#[test]
fn unsigned_numbers() {
    assert_eq!(parse_u64("42"), Some(42));
    assert_eq!(parse_u64("+7"), Some(7));
    assert_eq!(parse_u64("007"), Some(7));
    assert_eq!(parse_u64("18446744073709551615"), Some(u64::MAX));
    assert_eq!(parse_u64("18446744073709551616"), None);
    assert_eq!(parse_u64(""), None);
    assert_eq!(parse_u64("+"), None);
    assert_eq!(parse_u64("-1"), None);
    assert_eq!(parse_u64("1.5"), None);
    assert_eq!(parse_u64(" 1"), None);
}

#[test]
fn profile_field_values() {
    assert!(matches!(field_value("10"), FieldValue::Number(10)));
    assert!(matches!(field_value(":coffee:"), FieldValue::Text(t) if t == ":coffee:"));
    let err = profile_fields(&vec![]).unwrap_err();
    assert_eq!(detail(&err), "At least one --set field must be specified.");
    let fields = vec![
        ("status_text".to_string(), "busy".to_string()),
        ("status_expiration".to_string(), "0".to_string()),
        ("status_text".to_string(), "away".to_string()),
    ];
    let m = profile_fields(&fields).unwrap();
    assert_eq!(m.len(), 2);
    assert!(matches!(m.get("status_text"), Some(FieldValue::Text(t)) if t == "away"));
    assert!(matches!(m.get("status_expiration"), Some(FieldValue::Number(0))));
}

// ---- the string map ----

#[test]
fn string_map_reads_back_writes() {
    let mut m: StrMap<ProfileCredentials> = StrMap::new();
    assert_eq!(m.len(), 0);
    assert!(m.get("a").is_none());
    m.insert("a".to_string(), ProfileCredentials { bot_token: None, user_token: None });
    m.insert(
        "b".to_string(),
        ProfileCredentials { bot_token: Some("x".to_string()), user_token: None },
    );
    m.insert(
        "a".to_string(),
        ProfileCredentials { bot_token: None, user_token: Some("y".to_string()) },
    );
    assert_eq!(m.len(), 2);
    assert!(m.contains_key("b"));
    assert_eq!(m.get("a").unwrap().user_token.as_deref(), Some("y"));
    let keys: Vec<&str> = m.pairs().iter().map(|(k, _)| k.as_str()).collect();
    assert_eq!(keys, vec!["a", "b"]);
    let copy = m.duplicate();
    assert_eq!(copy.get("b").unwrap().bot_token.as_deref(), Some("x"));
    assert_eq!(copy.len(), 2);
}

#[test]
fn removing_twice_is_removing_once() {
    let content = "x\n{\"channel\":\"C1\",\"ts\":\"1.0\"}\ny\r\nz";
    let once = remaining_log(content, "C1", "1.0").unwrap();
    assert_eq!(once, "x\ny\nz\n");
    let twice = remaining_log(&once, "C1", "1.0").unwrap();
    assert_eq!(twice, once);
}

#[test]
fn a_final_carriage_return_is_dropped_on_the_second_pass() {
    let once = remaining_log("a\r", "C1", "1.0").unwrap();
    assert_eq!(once, "a\r\n");
    assert_eq!(remaining_log(&once, "C1", "1.0").unwrap(), "a\n");
}
