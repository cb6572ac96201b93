use ext_elasticsearch_operator::password::generate_password;
use ext_elasticsearch_operator::secret::{
    ensure_secret, needs_password, parse_bytes, plan_secret, secret_text, text_bytes, SecretData,
    SecretEntry, SecretWrite,
};
use ext_elasticsearch_operator::{PASSWORD_LENGTH, SECRET_PASS, SECRET_URL, SECRET_USER};

#[test]
fn secret_keys_are_as_declared() {
    assert_eq!(SECRET_USER, "ELASTICSEARCH_USERNAME");
    assert_eq!(SECRET_PASS, "ELASTICSEARCH_PASSWORD");
    assert_eq!(SECRET_URL, "ELASTICSEARCH_URL");
    assert_eq!(PASSWORD_LENGTH, 24);
}

#[test]
fn new_secret_is_empty() {
    let data = SecretData::new();
    assert_eq!(data.len(), 0);
    assert!(data.get("any").is_none());
    assert!(data.entries().is_empty());
}

#[test]
fn insert_puts_and_replaces() {
    let mut data = SecretData::new();
    data.insert("a".to_string(), vec![1]);
    data.insert("b".to_string(), vec![2]);
    assert_eq!(data.len(), 2);
    assert_eq!(data.get("a"), Some(&vec![1]));
    assert_eq!(data.get("b"), Some(&vec![2]));
    data.insert("a".to_string(), vec![3, 4]);
    assert_eq!(data.len(), 2);
    assert_eq!(data.get("a"), Some(&vec![3, 4]));
    assert_eq!(data.get("b"), Some(&vec![2]));
    assert!(data.get("c").is_none());
    assert!(data.holds("a", &vec![3, 4]));
    assert!(!data.holds("a", &vec![1]));
    assert!(!data.holds("c", &vec![]));
}

#[test]
fn from_entries_keeps_the_last_value_of_a_key() {
    let data = SecretData::from_entries(vec![
        SecretEntry { key: "a".to_string(), value: vec![1] },
        SecretEntry { key: "b".to_string(), value: vec![2] },
        SecretEntry { key: "a".to_string(), value: vec![9] },
    ]);
    assert_eq!(data.len(), 2);
    assert_eq!(data.get("a"), Some(&vec![9]));
    assert_eq!(data.get("b"), Some(&vec![2]));
    let copy = data.clone();
    assert_eq!(copy.len(), 2);
    assert_eq!(copy.get("a"), Some(&vec![9]));
}

#[test]
fn parse_bytes_accepts_utf8_only() {
    assert_eq!(parse_bytes(b"hello"), Some("hello"));
    assert_eq!(parse_bytes("gr\u{fc}n".as_bytes()), Some("gr\u{fc}n"));
    assert_eq!(parse_bytes(b""), Some(""));
    assert_eq!(parse_bytes(&[0xff, 0xfe]), None);
    assert_eq!(parse_bytes(&[0xc3]), None);
}

#[test]
fn text_bytes_encodes_utf8() {
    assert_eq!(text_bytes("abc"), vec![0x61, 0x62, 0x63]);
    assert_eq!(text_bytes("\u{fc}"), vec![0xc3, 0xbc]);
    assert!(text_bytes("").is_empty());
}

#[test]
fn plan_for_a_missing_secret_creates_it() {
    let plan = plan_secret(None, "alice", "https://es", "Fresh1");
    assert_eq!(plan.write, SecretWrite::Create);
    assert_eq!(plan.data.len(), 3);
    assert_eq!(plan.data.get(SECRET_USER), Some(&b"alice".to_vec()));
    assert_eq!(plan.data.get(SECRET_URL), Some(&b"https://es".to_vec()));
    assert_eq!(plan.data.get(SECRET_PASS), Some(&b"Fresh1".to_vec()));
}

#[test]
fn plan_for_a_settled_secret_keeps_it() {
    let first = plan_secret(None, "alice", "https://es", "Fresh1");
    let again = plan_secret(Some(first.data), "alice", "https://es", "Other2");
    assert_eq!(again.write, SecretWrite::Keep);
    assert_eq!(again.data.len(), 3);
    assert_eq!(again.data.get(SECRET_PASS), Some(&b"Fresh1".to_vec()));
    let third = plan_secret(Some(again.data), "alice", "https://es", "Third3");
    assert_eq!(third.write, SecretWrite::Keep);
    assert_eq!(third.data.get(SECRET_PASS), Some(&b"Fresh1".to_vec()));
}

#[test]
fn plan_corrects_url_and_user_and_keeps_the_password() {
    let mut data = SecretData::new();
    data.insert(SECRET_URL.to_string(), b"http://old".to_vec());
    data.insert(SECRET_USER.to_string(), b"bob".to_vec());
    data.insert(SECRET_PASS.to_string(), b"kept".to_vec());
    data.insert("EXTRA".to_string(), b"mine".to_vec());
    let plan = plan_secret(Some(data), "alice", "https://es", "Fresh1");
    assert_eq!(plan.write, SecretWrite::Patch);
    assert_eq!(plan.data.len(), 4);
    assert_eq!(plan.data.get(SECRET_URL), Some(&b"https://es".to_vec()));
    assert_eq!(plan.data.get(SECRET_USER), Some(&b"alice".to_vec()));
    assert_eq!(plan.data.get(SECRET_PASS), Some(&b"kept".to_vec()));
    assert_eq!(plan.data.get("EXTRA"), Some(&b"mine".to_vec()));
}

#[test]
fn plan_fills_in_a_missing_password_under_its_own_key() {
    let mut data = SecretData::new();
    data.insert(SECRET_URL.to_string(), b"https://es".to_vec());
    data.insert(SECRET_USER.to_string(), b"alice".to_vec());
    let plan = plan_secret(Some(data), "alice", "https://es", "Fresh1");
    assert_eq!(plan.write, SecretWrite::Patch);
    assert_eq!(plan.data.get(SECRET_USER), Some(&b"alice".to_vec()));
    assert_eq!(plan.data.get(SECRET_PASS), Some(&b"Fresh1".to_vec()));
}

#[test]
fn plan_for_an_empty_secret_patches_all_three() {
    let plan = plan_secret(Some(SecretData::new()), "alice", "https://es", "Fresh1");
    assert_eq!(plan.write, SecretWrite::Patch);
    assert_eq!(plan.data.len(), 3);
}

#[test]
fn password_is_needed_where_there_is_none() {
    assert!(needs_password(&None));
    assert!(needs_password(&Some(SecretData::new())));
    let mut data = SecretData::new();
    data.insert(SECRET_PASS.to_string(), Vec::new());
    assert!(!needs_password(&Some(data)));
}

#[test]
fn ensure_secret_draws_a_password_only_when_needed() {
    let plan = ensure_secret(None, "alice", "https://es");
    assert_eq!(plan.write, SecretWrite::Create);
    let drawn = secret_text(&plan.data, SECRET_PASS).expect("a password was drawn");
    assert_eq!(drawn.chars().count(), 24);

    let again = ensure_secret(Some(plan.data), "alice", "https://es");
    assert_eq!(again.write, SecretWrite::Keep);
    assert_eq!(secret_text(&again.data, SECRET_PASS), Some(drawn));
}

#[test]
fn secret_text_reads_text_only() {
    let mut data = SecretData::new();
    data.insert("good".to_string(), b"text".to_vec());
    data.insert("bad".to_string(), vec![0xff]);
    assert_eq!(secret_text(&data, "good"), Some("text".to_string()));
    assert_eq!(secret_text(&data, "bad"), None);
    assert_eq!(secret_text(&data, "none"), None);
}

#[test]
fn generated_password_is_mixed_case_alphanumeric() {
    for _ in 0..50 {
        let password = generate_password();
        assert_eq!(password.chars().count(), 24);
        assert!(password.chars().all(|c| c.is_ascii_alphanumeric()));
        assert!(password.chars().any(|c| c.is_ascii_digit()));
        assert!(password.chars().any(|c| c.is_ascii_lowercase()));
        assert!(password.chars().any(|c| c.is_ascii_uppercase()));
    }
}

#[test]
fn generated_passwords_differ() {
    assert_ne!(generate_password(), generate_password());
}
