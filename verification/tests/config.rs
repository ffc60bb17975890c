use simpleddns::clock::clock_text;
use simpleddns::config::{
    add_probe, add_probe_once, build_scheduler_config, build_vault_scheduler_config, default_language, edit_probes,
    export_full_config, export_vault_secrets, import_vault_secrets, inject_cloudflare_tokens, interface_probe,
    prefer_interface_ipv6_sources, AppConfig, ProbeEdit, SchedulerConfig,
};
use simpleddns::models::{ConfigValue, DdnsProfile, IpAddress, JsonField, JsonLeaf};
use simpleddns::profiles::{
    build_provider_config, extract_provider_config, find_profile, generic_provider_config, remove_profile,
    remove_profile_at,
    replace_profile, save_profile_edit, save_profile_edit_with_id, set_profile_enabled, store_editor_token,
    upsert_profile, ProfileEdit,
};
use simpleddns::vault::{derive_key_for_host, StorageManager};

fn profile(id: &str, name: &str) -> DdnsProfile {
    let mut p = DdnsProfile::new_with_id(id.to_string());
    p.name = name.to_string();
    p
}

fn ids(ps: &[DdnsProfile]) -> Vec<String> {
    ps.iter().map(|p| p.id.clone()).collect()
}

#[test]
fn defaults() {
    let c = AppConfig::default();
    assert!(c.profiles.is_empty());
    assert_eq!(c.check_interval_minutes, 5);
    assert!(!c.run_on_startup);
    assert_eq!(c.default_ipv4_urls, vec!["https://v4.ident.me", "https://api.ipify.org"]);
    assert_eq!(c.default_ipv6_urls, vec!["https://v6.ident.me", "https://api64.ipify.org"]);
    assert_eq!(c.language, "en");
    assert_eq!(default_language(), "en");
    let p = DdnsProfile::default();
    assert_eq!(p.name, "New Profile");
    assert_eq!(p.provider_type, "cloudflare");
    assert!(p.enable_ipv4 && !p.enable_ipv6 && p.enabled);
    assert_eq!(p.id.len(), 36);
}

fn ifaces() -> Vec<(String, IpAddress)> {
    vec![
        ("lo".to_string(), IpAddress::V6([0, 0, 0, 0, 0, 0, 0, 1])),
        ("wlan0".to_string(), IpAddress::V6([0x2001, 0xdb8, 0, 0, 0, 0, 0, 5])),
        ("eth1".to_string(), IpAddress::V6([0xfe80, 0, 0, 0, 0, 0, 0, 5])),
        ("eth0".to_string(), IpAddress::V6([0x2400, 0xcb00, 0, 0, 0, 0, 0, 7])),
        ("eth2".to_string(), IpAddress::V4([192, 168, 1, 2])),
    ]
}

#[test]
fn default_ipv6_probes_give_way_to_an_interface() {
    let mut c = AppConfig::default();
    assert!(prefer_interface_ipv6_sources(&mut c, &ifaces()));
    assert_eq!(c.default_ipv6_urls, vec!["interface://eth0"]);
    // Not the defaults any more: left alone.
    assert!(!prefer_interface_ipv6_sources(&mut c, &ifaces()));
    assert_eq!(c.default_ipv6_urls, vec!["interface://eth0"]);
}

#[test]
fn custom_probes_or_no_global_interface_are_kept() {
    let mut c = AppConfig::default();
    c.default_ipv6_urls = vec!["https://my.probe".to_string()];
    assert!(!prefer_interface_ipv6_sources(&mut c, &ifaces()));
    assert_eq!(c.default_ipv6_urls, vec!["https://my.probe"]);
    let mut d = AppConfig::default();
    d.default_ipv6_urls.clear();
    let only_local = vec![("lo".to_string(), IpAddress::V6([0, 0, 0, 0, 0, 0, 0, 1]))];
    assert!(!prefer_interface_ipv6_sources(&mut d, &only_local));
    assert!(d.default_ipv6_urls.is_empty());
}

#[test]
fn provider_config_roundtrip() {
    for p in ["aliyun", "godaddy", "namecheap", "dnspod"] {
        let c = build_provider_config(p, "one", "two", "example.com", "www");
        assert_eq!(extract_provider_config(p, &c), ("one".to_string(), "two".to_string()));
        assert_eq!(c.get_text("zone_name").unwrap(), "example.com");
        assert_eq!(c.get_text("sub_domain").unwrap(), "www");
    }
    let c = build_provider_config("cloudflare", "tok", "ignored", "example.com", "@");
    assert_eq!(c.get_text("token").unwrap(), "tok");
    assert_eq!(extract_provider_config("cloudflare", &c), ("tok".to_string(), String::new()));
    let c = build_provider_config("dnspod", "id", "tok", "d", "s");
    assert_eq!(c.get_text("login_token").unwrap(), "id,tok");
    let c = build_provider_config("generic", "a", "b", "d", "s");
    assert_eq!(extract_provider_config("generic", &c), (String::new(), String::new()));
    assert!(!c.contains_key("token"));
}

#[test]
fn dnspod_token_without_comma_reads_back_whole() {
    let c = ConfigValue::Object(vec![("login_token".to_string(), JsonField::Text("solo".to_string()))]);
    assert_eq!(extract_provider_config("dnspod", &c), ("solo".to_string(), String::new()));
}

#[test]
fn profile_list_operations() {
    let mut ps = vec![profile("a", "A"), profile("b", "B"), profile("a", "A2")];
    assert_eq!(find_profile(&ps, "a"), Some(0));
    assert_eq!(find_profile(&ps, "z"), None);
    upsert_profile(&mut ps, profile("b", "B-new"));
    assert_eq!(ps[1].name, "B-new");
    upsert_profile(&mut ps, profile("c", "C"));
    assert_eq!(ids(&ps), vec!["a", "b", "a", "c"]);
    assert!(set_profile_enabled(&mut ps, "c", false));
    assert!(!ps[3].enabled);
    assert!(!set_profile_enabled(&mut ps, "zz", false));
    assert!(remove_profile(&mut ps, "a"));
    assert_eq!(ids(&ps), vec!["b", "c"]);
    assert!(!remove_profile(&mut ps, "a"));
    assert_eq!(ids(&ps), vec!["b", "c"]);
}

#[test]
fn deleting_a_row_keeps_others_with_the_same_id() {
    let mut ps = vec![profile("a", "A"), profile("b", "B"), profile("a", "A2")];
    let gone = remove_profile_at(&mut ps, 2);
    assert_eq!(gone.name, "A2");
    assert_eq!(ids(&ps), vec!["a", "b"]);
    assert_eq!(ps[0].name, "A");
}

fn edit(id: &str) -> ProfileEdit {
    ProfileEdit {
        id: id.to_string(),
        name: "Home".to_string(),
        provider: "godaddy".to_string(),
        domain: "example.com".to_string(),
        subdomain: "home".to_string(),
        key1: "K".to_string(),
        key2: "S".to_string(),
        ipv4: true,
        ipv6: true,
    }
}

#[test]
fn profile_editor_saves() {
    let mut ps = vec![profile("a", "A")];
    save_profile_edit_with_id(&mut ps, &edit(""), "new-id".to_string());
    assert_eq!(ids(&ps), vec!["a", "new-id"]);
    assert_eq!(ps[1].name, "Home");
    assert!(ps[1].enabled && ps[1].enable_ipv6);
    assert_eq!(ps[1].provider_config.get_text("key").unwrap(), "K");
    ps[0].enabled = false;
    save_profile_edit(&mut ps, &edit("a"));
    assert_eq!(ps[0].name, "Home");
    assert_eq!(ps[0].provider_type, "godaddy");
    assert!(!ps[0].enabled);
    save_profile_edit(&mut ps, &edit("missing"));
    assert_eq!(ps.len(), 2);
    save_profile_edit(&mut ps, &edit(""));
    assert_eq!(ps.len(), 3);
    assert_eq!(ps[2].id.len(), 36);
}

#[test]
fn clock_of_epoch_seconds() {
    assert_eq!(clock_text(0), "00:00:00");
    assert_eq!(clock_text(3661), "01:01:01");
    assert_eq!(clock_text(86399), "23:59:59");
    assert_eq!(clock_text(1_700_000_000), "22:13:20");
    assert_eq!(clock_text(-1), "23:59:59");
    assert_eq!(clock_text(-86400), "00:00:00");
}

#[test]
fn scheduler_config_for_keyring_profiles() {
    let mut c = AppConfig::default();
    let mut p = profile("p", "P");
    p.provider_type = "generic".to_string();
    c.profiles.push(p);
    c.check_interval_minutes = 7;
    let (s, resaves): (SchedulerConfig, _) = build_scheduler_config(&c, &simpleddns::storage::StorageManager::new(), &vec![vec![]], false);
    assert!(resaves.is_empty());
    assert!(!s.running);
    assert_eq!(s.interval_minutes, 7);
    assert_eq!(ids(&s.profiles), vec!["p"]);
    assert_eq!(s.ipv4_urls, c.default_ipv4_urls);
    assert_eq!(s.providers_map(), vec!["cloudflare", "generic"]);
}

#[test]
fn cloudflare_tokens_are_filled_from_the_vault() {
    let vault = StorageManager::with_key(derive_key_for_host("h"));
    let mut secrets: Vec<(String, String)> = Vec::new();
    vault.save_secret(&mut secrets, "cf", "secret-token").unwrap();
    vault.save_secret(&mut secrets, "has", "other").unwrap();
    let mut has = profile("has", "H");
    has.provider_config = ConfigValue::Object(vec![("api_token".to_string(), JsonField::Text("mine".to_string()))]);
    let mut gen = profile("cf", "G");
    gen.provider_type = "generic".to_string();
    let mut ps = vec![profile("cf", "CF"), has, profile("none", "N"), gen];
    inject_cloudflare_tokens(&vault, &secrets, &mut ps);
    assert_eq!(ps[0].provider_config.get_text("api_token").unwrap(), "secret-token");
    assert_eq!(ps[1].provider_config.get_text("api_token").unwrap(), "mine");
    assert!(!ps[2].provider_config.contains_key("api_token"));
    assert!(!ps[3].provider_config.contains_key("api_token"));

    let mut c = AppConfig::default();
    c.profiles.push(profile("cf", "CF"));
    let s = build_vault_scheduler_config(&c, &vault, &secrets, true);
    assert!(s.running);
    assert_eq!(s.profiles[0].provider_config.get_text("api_token").unwrap(), "secret-token");
}

#[test]
fn export_and_import_vault_secrets() {
    let vault = StorageManager::with_key(derive_key_for_host("h"));
    let mut stored: Vec<(String, String)> = Vec::new();
    vault.save_secret(&mut stored, "p1", "one").unwrap();
    vault.save_secret(&mut stored, "orphan", "x").unwrap();
    let ps = vec![profile("p1", "P1"), profile("p2", "P2")];
    let out = export_vault_secrets(&vault, &stored, &ps);
    assert_eq!(out, vec![("p1".to_string(), "one".to_string())]);

    let other = StorageManager::with_key(derive_key_for_host("other"));
    let mut fresh: Vec<(String, String)> = Vec::new();
    import_vault_secrets(&other, &mut fresh, &out).unwrap();
    assert_eq!(other.load_secret(&fresh, "p1").unwrap(), "one");

    let e = export_full_config(AppConfig::default());
    assert!(e.secrets.is_empty());
    assert_eq!(e.config.check_interval_minutes, 5);
}

#[test]
fn probe_list_editing() {
    let mut urls = vec!["a".to_string(), "b".to_string(), "c".to_string()];
    assert_eq!(interface_probe("eth0"), "interface://eth0");
    assert!(add_probe_once(&mut urls, interface_probe("eth0")));
    assert!(!add_probe_once(&mut urls, "b".to_string()));
    assert!(!add_probe(&mut urls, String::new()));
    assert!(add_probe(&mut urls, "b".to_string()));
    assert_eq!(urls, vec!["a", "b", "c", "interface://eth0", "b"]);
    edit_probes(&mut urls, ProbeEdit::MoveUp(1));
    assert_eq!(urls, vec!["b", "a", "c", "interface://eth0", "b"]);
    edit_probes(&mut urls, ProbeEdit::MoveDown(2));
    assert_eq!(urls, vec!["b", "a", "interface://eth0", "c", "b"]);
    edit_probes(&mut urls, ProbeEdit::Remove(4));
    assert_eq!(urls, vec!["b", "a", "interface://eth0", "c"]);
}

#[test]
fn editor_settings_for_generic_and_cloudflare() {
    let c = generic_provider_config("https://u", "POST", "", None);
    assert_eq!(c.get_text("url").unwrap(), "https://u");
    assert_eq!(c.get_text("method").unwrap(), "POST");
    assert!(!c.contains_key("body"));
    assert!(!c.contains_key("headers"));
    let h = JsonField::Object(vec![("X".to_string(), JsonLeaf::Text("1".to_string()))]);
    let c = generic_provider_config("https://u", "GET", "b", Some(h));
    assert_eq!(c.get_text("body").unwrap(), "b");
    assert!(c.contains_key("headers"));

    let vault = StorageManager::with_key(derive_key_for_host("h"));
    let mut secrets: Vec<(String, String)> = Vec::new();
    let mut p = profile("cf", "CF");
    p.provider_config = ConfigValue::Object(vec![("api_token".to_string(), JsonField::Text("old".to_string()))]);
    store_editor_token(&vault, &mut secrets, &mut p, "").unwrap();
    assert!(secrets.is_empty());
    assert_eq!(p.provider_config.get_text("api_token").unwrap(), "old");
    store_editor_token(&vault, &mut secrets, &mut p, "new-token").unwrap();
    assert!(!p.provider_config.contains_key("api_token"));
    assert_eq!(vault.load_secret(&secrets, "cf").unwrap(), "new-token");

    let mut ps = vec![profile("a", "A"), profile("b", "B")];
    assert!(replace_profile(&mut ps, profile("b", "B2")));
    assert_eq!(ps[1].name, "B2");
    assert!(!replace_profile(&mut ps, profile("z", "Z")));
    assert_eq!(ps.len(), 2);
}
