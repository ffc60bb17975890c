use simpleddns::models::{ConfigValue, DdnsProfile, JsonField};
use simpleddns::storage::{KeyringOp, KeyringRequest, StorageError, StorageManager};

fn profile(id: &str, ptype: &str, fields: &[(&str, &str)]) -> DdnsProfile {
    let mut p = DdnsProfile::new_with_id(id.to_string());
    p.provider_type = ptype.to_string();
    p.provider_config = ConfigValue::Object(
        fields.iter().map(|(k, v)| (k.to_string(), JsonField::Text(v.to_string()))).collect(),
    );
    p
}

fn described(r: &KeyringRequest) -> (String, String, String) {
    let op = match &r.op {
        KeyringOp::Store(p) => format!("store {}", p),
        KeyringOp::Get => "get".to_string(),
        KeyringOp::Delete => "delete".to_string(),
    };
    (r.service.clone(), r.user.clone(), op)
}

fn entry(user: &str, op: &str) -> (String, String, String) {
    ("SimpleDDNS".to_string(), user.to_string(), op.to_string())
}

#[test]
fn single_requests_name_the_entry() {
    let m = StorageManager::new();
    assert_eq!(described(&m.save_secret("p1_api_token", "tok")), entry("p1_api_token", "store tok"));
    assert_eq!(described(&m.load_secret("p1_api_token")), entry("p1_api_token", "get"));
    assert_eq!(described(&m.delete_secret("p1_api_token")), entry("p1_api_token", "delete"));
}

#[test]
fn store_answers_become_results() {
    let m = StorageManager::new();
    assert!(m.save_outcome(Ok(())).is_ok());
    assert!(matches!(m.save_outcome(Err("locked".to_string())), Err(StorageError::Encryption(e)) if e == "locked"));
    assert_eq!(m.load_outcome(Ok("s".to_string())).unwrap(), "s");
    assert!(matches!(m.load_outcome(Err("No entry".to_string())), Err(StorageError::Encryption(e)) if e == "No entry"));
}

#[test]
fn extraction_stores_each_secret_under_its_key() {
    let m = StorageManager::new();
    let mut p = profile("p1", "aliyun", &[("access_key_id", "AK"), ("access_key_secret", "SK"), ("zone", "z")]);
    let reqs = m.extract_and_save_secrets(&mut p);
    let got: Vec<_> = reqs.iter().map(described).collect();
    assert_eq!(got, vec![entry("p1_access_key_id", "store AK"), entry("p1_access_key_secret", "store SK")]);
    assert!(!p.provider_config.contains_key("access_key_id"));
    assert_eq!(p.provider_config.get_text("zone").unwrap(), "z");
}

#[test]
fn injection_reads_missing_secrets_and_stores_them_again() {
    let m = StorageManager::new();
    let mut p = profile("p1", "aliyun", &[("access_key_id", "AK")]);
    let loads = m.secret_loads(&p);
    assert!(loads[0].is_none());
    assert_eq!(described(loads[1].as_ref().unwrap()), entry("p1_access_key_secret", "get"));
    let resaves = m.inject_into_profile(&mut p, &vec![None, Some("SK".to_string())]);
    assert_eq!(p.provider_config.get_text("access_key_secret").unwrap(), "SK");
    let got: Vec<_> = resaves.iter().map(described).collect();
    assert_eq!(got, vec![entry("p1_access_key_id", "store AK"), entry("p1_access_key_secret", "store SK")]);
}

#[test]
fn extract_then_inject_gives_the_settings_back() {
    let m = StorageManager::new();
    let original = profile("p9", "godaddy", &[("key", "K"), ("secret", "S"), ("ttl", "600")]);
    let mut p = original.clone();
    let writes = m.extract_and_save_secrets(&mut p);
    // A store that keeps what it was given.
    let stored: Vec<(String, String)> = writes
        .iter()
        .filter_map(|r| match &r.op { KeyringOp::Store(v) => Some((r.user.clone(), v.clone())), _ => None })
        .collect();
    let answers: Vec<Option<String>> = m
        .secret_loads(&p)
        .iter()
        .map(|l| l.as_ref().and_then(|r| stored.iter().find(|(k, _)| *k == r.user).map(|(_, v)| v.clone())))
        .collect();
    let mut profiles = vec![p];
    m.inject_secrets_into_profiles(&mut profiles, &vec![answers]);
    for k in ["key", "secret", "ttl"] {
        assert_eq!(profiles[0].provider_config.get_text(k), original.provider_config.get_text(k));
    }
}

#[test]
fn deleting_a_profile_deletes_each_secret_key_and_the_bare_id() {
    let m = StorageManager::new();
    let got: Vec<_> = m.delete_profile_secrets("p1", "aliyun").iter().map(described).collect();
    assert_eq!(got, vec![entry("p1_access_key_id", "delete"), entry("p1_access_key_secret", "delete"), entry("p1", "delete")]);
}
