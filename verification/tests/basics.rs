use simpleddns::address::ip_to_string;
use simpleddns::i18n::{I18n, Language};
use simpleddns::models::{ConfigValue, IpAddress, IpVersion, JsonField};
use simpleddns::network::{is_unicast_global, parse_domain_parts, pick_default_ipv6_interface, str_lt};
use simpleddns::resolver::{check_version, classify_source, eq_ignore_ascii_case, resolve_interface, ProbeSource, ResolverError};
use simpleddns::storage::{profile_secret_keys, secret_fields_for_provider, secret_key, take_secret_fields};
use simpleddns::status::{profile_row, profile_rows, remove_status, set_status, status_after_update};
use simpleddns::text::{contains, replace_all, split_once};
use simpleddns::resolver::interface_groups;
use simpleddns::storage::fill_secrets;

#[test]
fn domain_parts() {
    assert_eq!(parse_domain_parts("www.example.com"), ("example.com".to_string(), "www".to_string()));
    assert_eq!(parse_domain_parts("example.com"), ("example.com".to_string(), "@".to_string()));
    assert_eq!(parse_domain_parts("sub.deep.example.com"), ("example.com".to_string(), "sub.deep".to_string()));
    assert_eq!(parse_domain_parts("localhost"), ("localhost".to_string(), "@".to_string()));
}

#[test]
fn address_text() {
    assert_eq!(ip_to_string(&IpAddress::V4([192, 168, 0, 1])), "192.168.0.1");
    assert_eq!(ip_to_string(&IpAddress::V6([0, 0, 0, 0, 0, 0, 0, 1])), "::1");
    assert_eq!(ip_to_string(&IpAddress::V6([0, 0, 0, 0, 0, 0, 0, 0])), "::");
    assert_eq!(ip_to_string(&IpAddress::V6([0x2001, 0xdb8, 0, 1, 0, 0, 0, 1])), "2001:db8:0:1::1");
    assert_eq!(ip_to_string(&IpAddress::V6([0x2001, 0xdb8, 1, 1, 1, 1, 1, 1])), "2001:db8:1:1:1:1:1:1");
    assert_eq!(ip_to_string(&IpAddress::V6([0, 0, 0, 0, 0, 0xffff, 0xc000, 0x0280])), "::ffff:192.0.2.128");
    assert_eq!(IpAddress::V4([1, 1, 1, 1]).ip_version(), IpVersion::IPv4);
}

#[test]
fn unicast_global() {
    assert!(is_unicast_global(&[0x2001, 0xdb8, 0, 0, 0, 0, 0, 1]));
    assert!(!is_unicast_global(&[0xfe80, 0, 0, 0, 0, 0, 0, 1]));
    assert!(!is_unicast_global(&[0xff02, 0, 0, 0, 0, 0, 0, 1]));
    assert!(!is_unicast_global(&[0, 0, 0, 0, 0, 0, 0, 1]));
    assert!(!is_unicast_global(&[0, 0, 0, 0, 0, 0, 0, 0]));
    assert!(is_unicast_global(&[0x2001, 0x4860, 0x4860, 0, 0, 0, 0, 0x8888]));
    assert!(str_lt("eth0", "eth1"));
    assert!(!str_lt("b", "a"));
    let ifs = vec![
        ("z".to_string(), IpAddress::V6([0x2001, 0, 0, 0, 0, 0, 0, 1])),
        ("a".to_string(), IpAddress::V4([1, 2, 3, 4])),
        ("m".to_string(), IpAddress::V6([0x2001, 0, 0, 0, 0, 0, 0, 2])),
    ];
    assert_eq!(pick_default_ipv6_interface(&ifs), Some("m".to_string()));
    assert_eq!(pick_default_ipv6_interface(&vec![]), None);
}

#[test]
fn probe_sources_and_versions() {
    assert!(matches!(classify_source("interface://eth0"), ProbeSource::Interface(n) if n == "eth0"));
    assert!(matches!(classify_source("local://ipv6"), ProbeSource::Local));
    assert!(matches!(classify_source("https://x"), ProbeSource::Remote(u) if u == "https://x"));
    assert!(check_version(IpAddress::V4([1, 2, 3, 4]), IpVersion::IPv4).is_ok());
    assert!(matches!(check_version(IpAddress::V4([1, 2, 3, 4]), IpVersion::IPv6), Err(ResolverError::VersionMismatch)));
    assert!(eq_ignore_ascii_case("ETH0", "eth0"));
    let ifs = vec![
        ("Eth0".to_string(), IpAddress::V6([0xfe80, 0, 0, 0, 0, 0, 0, 1])),
        ("eth0".to_string(), IpAddress::V6([0x2001, 0xdb8, 0, 0, 0, 0, 0, 9])),
        ("eth0".to_string(), IpAddress::V4([10, 0, 0, 2])),
    ];
    assert_eq!(resolve_interface(&ifs, "ETH0", IpVersion::IPv6).unwrap(), IpAddress::V6([0x2001, 0xdb8, 0, 0, 0, 0, 0, 9]));
    assert_eq!(resolve_interface(&ifs, "eth0", IpVersion::IPv4).unwrap(), IpAddress::V4([10, 0, 0, 2]));
    assert!(matches!(resolve_interface(&ifs, "wlan0", IpVersion::IPv4), Err(ResolverError::NoLocalAddress)));
    assert_eq!(ResolverError::VersionMismatch.message(), "Invalid IP version returned");
    assert_eq!(ResolverError::Network("t".to_string()).message(), "Network error: t");
}

#[test]
fn languages() {
    assert_eq!(Language::from_str("zh"), Language::Zh);
    assert_eq!(Language::from_str("fr"), Language::En);
    assert_eq!(Language::Zh.to_str(), "zh");
    assert_eq!(Language::from_str(Language::Zh.to_str()), Language::Zh);
    assert_eq!(Language::default(), Language::En);
    assert_eq!(I18n::t(Language::En, "no such key"), "no such key");
    assert_eq!(I18n::t(Language::Zh, "no such key"), "no such key");
}

#[test]
fn secret_fields() {
    assert_eq!(secret_fields_for_provider("aliyun"), vec!["access_key_id", "access_key_secret"]);
    assert_eq!(secret_fields_for_provider("cloudflare"), vec!["api_token"]);
    assert!(secret_fields_for_provider("generic").is_empty());
    assert_eq!(secret_key("p1", "api_token"), "p1_api_token");
    assert_eq!(profile_secret_keys("p1", "godaddy"), vec!["p1_key", "p1_secret", "p1"]);
}

#[test]
fn secrets_taken_out_of_settings() {
    let mut p = simpleddns::models::DdnsProfile::new_with_id("p".to_string());
    p.provider_type = "godaddy".to_string();
    p.provider_config = ConfigValue::Object(vec![
        ("key".to_string(), JsonField::Text("K".to_string())),
        ("secret".to_string(), JsonField::Text(String::new())),
        ("zone_name".to_string(), JsonField::Text("z".to_string())),
    ]);
    let taken = take_secret_fields(&mut p);
    assert_eq!(taken, vec![("p_key".to_string(), "K".to_string())]);
    assert!(!p.provider_config.contains_key("key"));
    assert!(!p.provider_config.contains_key("secret"));
    assert_eq!(p.provider_config.get_text("zone_name").unwrap(), "z");
}

#[test]
fn statuses_and_rows() {
    let mut ss = Vec::new();
    set_status(&mut ss, status_after_update("a".to_string(), Some("1.2.3.4".to_string()), None, "OK".to_string(), 3661));
    set_status(&mut ss, status_after_update("a".to_string(), None, None, "Error: x".to_string(), 0));
    assert_eq!(ss.len(), 1);
    assert_eq!(ss[0].status_message, "Error: x");
    set_status(&mut ss, status_after_update("b".to_string(), Some("5.5.5.5".to_string()), None, "OK".to_string(), 3661));
    let pa = simpleddns::models::DdnsProfile::new_with_id("b".to_string());
    let pc = simpleddns::models::DdnsProfile::new_with_id("c".to_string());
    let rows = profile_rows(&vec![pa, pc], &ss);
    assert_eq!(rows[0].ipv4, "5.5.5.5");
    assert_eq!(rows[0].last_update, "01:01:01");
    assert_eq!(rows[0].status_message, "OK");
    assert_eq!(rows[1].status_message, "Unknown");
    assert_eq!(rows[1].last_update, "");
    let one = profile_row(&simpleddns::models::DdnsProfile::new_with_id("z".to_string()), None);
    assert_eq!(one.ipv4, "");
    remove_status(&mut ss, "a");
    assert_eq!(ss.len(), 1);
    assert_eq!(ss[0].profile_id, "b");
}

#[test]
fn text_helpers() {
    assert!(contains("hello world", "o w"));
    assert!(!contains("hello", "xyz"));
    assert!(contains("abc", ""));
    assert_eq!(split_once("a,b,c", ','), Some(("a".to_string(), "b,c".to_string())));
    assert_eq!(split_once("abc", ','), None);
    assert_eq!(replace_all("aaa", "aa", "b"), "ba");
}

#[test]
fn interfaces_grouped_by_name() {
    let ifs = vec![
        ("wlan0".to_string(), IpAddress::V6([0x2001, 0xdb8, 0, 0, 0, 0, 0, 5])),
        ("lo".to_string(), IpAddress::V4([127, 0, 0, 1])),
        ("eth0".to_string(), IpAddress::V4([192, 168, 1, 2])),
        ("wlan0".to_string(), IpAddress::V4([10, 0, 0, 3])),
        ("eth0".to_string(), IpAddress::V4([192, 168, 1, 3])),
        ("lo".to_string(), IpAddress::V6([0, 0, 0, 0, 0, 0, 0, 1])),
    ];
    let g = interface_groups(&ifs);
    assert_eq!(g.len(), 2);
    assert_eq!(g[0].name, "eth0");
    assert!(g[0].has_v4 && !g[0].has_v6);
    assert_eq!(g[0].first, IpAddress::V4([192, 168, 1, 2]));
    assert_eq!(g[1].name, "wlan0");
    assert!(g[1].has_v4 && g[1].has_v6);
    assert_eq!(g[1].first, IpAddress::V6([0x2001, 0xdb8, 0, 0, 0, 0, 0, 5]));
    assert!(interface_groups(&vec![]).is_empty());
}

#[test]
fn secrets_filled_from_answers() {
    let mut c = ConfigValue::Object(vec![("key".to_string(), JsonField::Text("K".to_string()))]);
    fill_secrets(&mut c, &vec!["key", "secret"], &vec![Some("X".to_string()), Some("S".to_string())]);
    assert_eq!(c.get_text("key").unwrap(), "K");
    assert_eq!(c.get_text("secret").unwrap(), "S");
    let mut d = ConfigValue::Object(vec![]);
    fill_secrets(&mut d, &vec!["api_token"], &vec![None]);
    assert!(!d.contains_key("api_token"));
}
