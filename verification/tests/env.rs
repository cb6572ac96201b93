use ext_elasticsearch_operator::env::{
    as_bool, env_from, get_log_level, level_of_word, truth_of_word, LogLevel, ENV_LOGLEVEL,
    ENV_PASSWORD, ENV_SKIP_VERIFY, ENV_URL, ENV_USERNAME,
};

fn some(s: &str) -> Option<String> {
    Some(s.to_string())
}

#[test]
fn variable_names_are_as_declared() {
    assert_eq!(ENV_URL, "ELASTIC_URL");
    assert_eq!(ENV_USERNAME, "ELASTIC_USERNAME");
    assert_eq!(ENV_PASSWORD, "ELASTIC_PASSWORD");
    assert_eq!(ENV_SKIP_VERIFY, "ELASTIC_SKIP_VERIFY");
    assert_eq!(ENV_LOGLEVEL, "LOGLEVEL");
}

#[test]
fn words_for_true() {
    for word in ["1", "true", "t", "yes", "y"] {
        assert_eq!(truth_of_word(word), Some(true));
        assert_eq!(as_bool(word), Some(true));
    }
}

#[test]
fn words_for_false() {
    for word in ["0", "false", "f", "no", "n"] {
        assert_eq!(truth_of_word(word), Some(false));
        assert_eq!(as_bool(word), Some(false));
    }
}

#[test]
fn other_words_have_no_truth_value() {
    for word in ["", "2", "maybe", "truee", "on", "off"] {
        assert_eq!(truth_of_word(word), None);
        assert_eq!(as_bool(word), None);
    }
}

#[test]
fn as_bool_ignores_case_and_surrounding_whitespace() {
    assert_eq!(as_bool("TRUE"), Some(true));
    assert_eq!(as_bool("  Yes\n"), Some(true));
    assert_eq!(as_bool("\tNo "), Some(false));
    assert_eq!(as_bool("F"), Some(false));
    assert_eq!(as_bool("t r u e"), None);
    assert_eq!(truth_of_word("TRUE"), None);
    assert_eq!(truth_of_word(" true"), None);
}

#[test]
fn env_is_read_from_its_four_values() {
    let env = env_from(some("https://es"), some("admin"), some("pw"), some("Yes"))
        .expect("all is there");
    assert_eq!(env.url, "https://es");
    assert_eq!(env.username, "admin");
    assert_eq!(env.password, "pw");
    assert!(env.skip_tls_cert_verify);
}

#[test]
fn env_checks_certificates_unless_told_otherwise() {
    let env = env_from(some("https://es"), some("admin"), some("pw"), None).expect("all is there");
    assert!(!env.skip_tls_cert_verify);
    let env = env_from(some("https://es"), some("admin"), some("pw"), some("false"))
        .expect("all is there");
    assert!(!env.skip_tls_cert_verify);
}

#[test]
fn env_complains_about_the_first_missing_value() {
    assert_eq!(env_from(None, None, None, some("x")).err(), Some("ELASTIC_URL undefined"));
    assert_eq!(
        env_from(some("u"), None, None, some("x")).err(),
        Some("ELASTIC_USERNAME undefined")
    );
    assert_eq!(
        env_from(some("u"), some("n"), None, some("x")).err(),
        Some("ELASTIC_PASSWORD undefined")
    );
    assert_eq!(
        env_from(some("u"), some("n"), some("p"), some("x")).err(),
        Some("ELASTIC_SKIP_VERIFY must be undefined, true or false.")
    );
}

#[test]
fn log_levels_by_word() {
    assert_eq!(level_of_word("trace"), Some(LogLevel::Trace));
    assert_eq!(level_of_word("debug"), Some(LogLevel::Debug));
    assert_eq!(level_of_word("info"), Some(LogLevel::Info));
    assert_eq!(level_of_word("warn"), Some(LogLevel::Warn));
    assert_eq!(level_of_word("warning"), Some(LogLevel::Warn));
    assert_eq!(level_of_word("error"), Some(LogLevel::Error));
    assert_eq!(level_of_word("INFO"), None);
    assert_eq!(level_of_word("verbose"), None);
}

#[test]
fn log_level_ignores_case() {
    assert_eq!(get_log_level(Some("INFO")), Ok(LogLevel::Info));
    assert_eq!(get_log_level(Some("Warning")), Ok(LogLevel::Warn));
    assert_eq!(get_log_level(Some("trace")), Ok(LogLevel::Trace));
}

#[test]
fn log_level_complains_with_the_lowercase_word() {
    assert_eq!(get_log_level(None), Err(String::new()));
    assert_eq!(get_log_level(Some("Verbose")), Err("verbose".to_string()));
    assert_eq!(get_log_level(Some(" info")), Err(" info".to_string()));
}
