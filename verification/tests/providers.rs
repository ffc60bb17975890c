use simpleddns::models::{ConfigValue, IpAddress, JsonField};
use simpleddns::providers::aliyun::{insert_param, join_params, sign, sorted_params, AliyunProvider};
use simpleddns::providers::cloudflare::CloudflareProvider;
use simpleddns::providers::dnspod::DnspodProvider;
use simpleddns::providers::godaddy::{build_auth_header, GodaddyProvider};
use simpleddns::providers::namecheap::{namecheap_outcome, NamecheapProvider};
use simpleddns::providers::{
    build_providers, start_update, step_update, Expect, FoundRecord, HttpMethod, Listing, Payload, Phase,
    ProviderAction, ProviderError, RecordKind, Reply,
};

fn text(k: &str, v: &str) -> (String, JsonField) {
    (k.to_string(), JsonField::Text(v.to_string()))
}

fn pairs(v: &[(&str, &str)]) -> Vec<(String, String)> {
    v.iter().map(|(a, b)| (a.to_string(), b.to_string())).collect()
}

fn rec(id: &str, value: &str) -> FoundRecord {
    FoundRecord { id: id.to_string(), value: value.to_string() }
}

fn sent(a: ProviderAction) -> simpleddns::providers::HttpRequest {
    match a {
        ProviderAction::Send(r) => r,
        other => panic!("expected a request, got {:?}", other),
    }
}

#[test]
fn provider_ids() {
    assert_eq!(build_providers(), vec!["aliyun", "cloudflare", "dnspod", "generic", "godaddy", "namecheap"]);
    assert_eq!(CloudflareProvider::new().id(), "cloudflare");
    assert_eq!(AliyunProvider::new().id(), "aliyun");
    assert_eq!(DnspodProvider::new().id(), "dnspod");
    assert_eq!(GodaddyProvider::new().id(), "godaddy");
    assert_eq!(NamecheapProvider::new().id(), "namecheap");
    assert_eq!(RecordKind::A.name(), "A");
    assert_eq!(RecordKind::Aaaa.name(), "AAAA");
}

#[test]
fn unknown_provider_has_no_update() {
    let cfg = ConfigValue::Object(vec![]);
    assert!(start_update("route53", "a.b", None, None, &cfg).is_none());
}

#[test]
fn cloudflare_missing_token() {
    let cfg = ConfigValue::Object(vec![]);
    let (_, a) = CloudflareProvider::new().start("www.example.com", Some(IpAddress::V4([1, 2, 3, 4])), None, &cfg);
    match a {
        ProviderAction::Finish(Err(ProviderError::Config(m))) => assert_eq!(m, "Missing api_token"),
        other => panic!("unexpected {:?}", other),
    }
}

#[test]
fn cloudflare_creates_missing_then_skips_current() {
    let p = CloudflareProvider::new();
    let cfg = ConfigValue::Object(vec![text("api_token", "tok")]);
    let v4 = IpAddress::V4([1, 2, 3, 4]);
    let v6 = IpAddress::V6([0x2001, 0xdb8, 0, 0, 0, 0, 0, 1]);
    let (run, a) = p.start("www.example.com", Some(v4), Some(v6), &cfg);
    let req = sent(a);
    assert_eq!(req.method, HttpMethod::Get);
    assert_eq!(req.url, "https://api.cloudflare.com/client/v4/zones");
    assert_eq!(req.query, pairs(&[("name", "example.com")]));
    assert_eq!(req.bearer.as_deref(), Some("tok"));
    assert_eq!(req.expect, Expect::CloudflareZones);

    let (run, a) = p.step(run, Reply::Listed(Listing::Cloudflare { success: true, items: vec![rec("Z1", "example.com")] }));
    assert_eq!(run.zone_id, "Z1");
    let req = sent(a);
    assert_eq!(req.url, "https://api.cloudflare.com/client/v4/zones/Z1/dns_records");
    assert_eq!(req.query, pairs(&[("type", "A"), ("name", "www.example.com")]));

    // No A record yet: it is created.
    let (run, a) = p.step(run, Reply::Listed(Listing::Cloudflare { success: true, items: vec![] }));
    assert_eq!(run.phase, Phase::Write { fam: 0, create: true });
    let req = sent(a);
    assert_eq!(req.method, HttpMethod::Post);
    match &req.payload {
        Payload::CloudflareRecord { record_type, name, content, ttl, proxied } => {
            assert_eq!(record_type, "A");
            assert_eq!(name, "www.example.com");
            assert_eq!(content, "1.2.3.4");
            assert_eq!(*ttl, 1);
            assert!(!*proxied);
        },
        other => panic!("unexpected {:?}", other),
    }
    let (run, a) = p.step(run, Reply::Received { success: true, status: "200 OK".to_string(), body: String::new() });
    let req = sent(a);
    assert_eq!(req.query, pairs(&[("type", "AAAA"), ("name", "www.example.com")]));

    // The AAAA record already holds the address: nothing is written.
    let (run, a) = p.step(run, Reply::Listed(Listing::Cloudflare { success: true, items: vec![rec("R6", "2001:db8::1")] }));
    assert_eq!(run.phase, Phase::Done);
    assert!(matches!(a, ProviderAction::Finish(Ok(()))));
}

#[test]
fn cloudflare_updates_changed_record() {
    let p = CloudflareProvider::new();
    let cfg = ConfigValue::Object(vec![text("api_token", "tok"), text("zone_name", "zone.test")]);
    let (run, a) = p.start("host.zone.test", Some(IpAddress::V4([9, 9, 9, 9])), None, &cfg);
    assert_eq!(sent(a).query, pairs(&[("name", "zone.test")]));
    let (run, _) = p.step(run, Reply::Listed(Listing::Cloudflare { success: true, items: vec![rec("Z", "zone.test")] }));
    let (run, a) = p.step(run, Reply::Listed(Listing::Cloudflare { success: true, items: vec![rec("R1", "8.8.8.8")] }));
    let req = sent(a);
    assert_eq!(req.method, HttpMethod::Put);
    assert_eq!(req.url, "https://api.cloudflare.com/client/v4/zones/Z/dns_records/R1");
    let (_, a) = p.step(run, Reply::Received { success: false, status: "400".to_string(), body: "bad".to_string() });
    match a {
        ProviderAction::Finish(Err(ProviderError::Api(m))) => assert_eq!(m, "Update DNS record failed: bad"),
        other => panic!("unexpected {:?}", other),
    }
}

#[test]
fn cloudflare_zone_not_found() {
    let p = CloudflareProvider::new();
    let cfg = ConfigValue::Object(vec![text("api_token", "tok")]);
    let (run, _) = p.start("a.example.org", Some(IpAddress::V4([1, 1, 1, 1])), None, &cfg);
    let (_, a) = p.step(run, Reply::Listed(Listing::Cloudflare { success: true, items: vec![] }));
    match a {
        ProviderAction::Finish(Err(ProviderError::Api(m))) => assert_eq!(m, "Zone 'example.org' not found or API error"),
        other => panic!("unexpected {:?}", other),
    }
}

#[test]
fn cloudflare_unexpected_reply() {
    let p = CloudflareProvider::new();
    let cfg = ConfigValue::Object(vec![text("api_token", "tok")]);
    let (run, _) = p.start("a.example.org", Some(IpAddress::V4([1, 1, 1, 1])), None, &cfg);
    let (_, a) = p.step(run, Reply::Received { success: true, status: "200".to_string(), body: String::new() });
    match a {
        ProviderAction::Finish(Err(ProviderError::Other(m))) => assert_eq!(m, "unexpected reply"),
        other => panic!("unexpected {:?}", other),
    }
}

#[test]
fn params_are_kept_sorted() {
    let mut v: Vec<(String, String)> = Vec::new();
    insert_param(&mut v, "Type", "A");
    insert_param(&mut v, "Action", "X");
    insert_param(&mut v, "SignatureNonce", "n");
    insert_param(&mut v, "Signature", "s");
    insert_param(&mut v, "Action", "Y");
    assert_eq!(v, pairs(&[("Action", "Y"), ("Signature", "s"), ("SignatureNonce", "n"), ("Type", "A")]));
    let s = sorted_params(&pairs(&[("b", "2"), ("a", "1"), ("b", "3")]));
    assert_eq!(s, pairs(&[("a", "1"), ("b", "3")]));
    assert_eq!(join_params(&s), "a=1&b=3");
}

#[test]
fn aliyun_signature_matches_hmac_sha1() {
    let params = pairs(&[("A", "1"), ("B", "x y")]);
    assert_eq!(sign("secret", &params), "ctc1DdK6G0/khtsf8H2MRLn8oJA=");
}

#[test]
fn aliyun_finds_then_updates() {
    let p = AliyunProvider::new();
    let cfg = ConfigValue::Object(vec![text("access_key_id", "AK"), text("access_key_secret", "SK")]);
    let (run, a) = p.start_at("www.example.com", Some(IpAddress::V4([1, 2, 3, 4])), None, &cfg, "2024-01-01T00:00:00Z", "N1");
    let req = sent(a);
    assert_eq!(req.method, HttpMethod::Post);
    assert_eq!(req.url, "https://alidns.aliyuncs.com/");
    assert_eq!(req.expect, Expect::AliyunRecords);
    let keys: Vec<&str> = req.form.iter().map(|(k, _)| k.as_str()).collect();
    assert_eq!(keys, vec!["AccessKeyId", "Action", "Format", "PageSize", "Signature", "SignatureMethod",
        "SignatureNonce", "SignatureVersion", "SubDomain", "Timestamp", "Type", "Version"]);
    assert!(req.form.contains(&("SubDomain".to_string(), "www.example.com".to_string())));
    assert!(req.form.contains(&("Action".to_string(), "DescribeSubDomainRecords".to_string())));
    let unsigned: Vec<(String, String)> = req.form.iter().filter(|(k, _)| k != "Signature").cloned().collect();
    let sig = req.form.iter().find(|(k, _)| k == "Signature").unwrap().1.clone();
    assert_eq!(sig, sign("SK", &unsigned));

    let (run, a) = p.step_at(run, Reply::Listed(Listing::Aliyun { records: Some(Some(vec![rec("R9", "5.5.5.5")])) }), "T2", "N2");
    let req = sent(a);
    assert!(req.form.contains(&("Action".to_string(), "UpdateDomainRecord".to_string())));
    assert!(req.form.contains(&("RecordId".to_string(), "R9".to_string())));
    assert!(req.form.contains(&("RR".to_string(), "www".to_string())));
    assert!(req.form.contains(&("Value".to_string(), "1.2.3.4".to_string())));
    let (_, a) = p.step_at(run, Reply::Received { success: false, status: "403".to_string(), body: "denied".to_string() }, "T3", "N3");
    match a {
        ProviderAction::Finish(Err(ProviderError::Api(m))) => assert_eq!(m, "Update record failed: denied"),
        other => panic!("unexpected {:?}", other),
    }
}

#[test]
fn aliyun_skips_current_and_adds_missing() {
    let p = AliyunProvider::new();
    let cfg = ConfigValue::Object(vec![text("access_key_id", "AK"), text("access_key_secret", "SK")]);
    let v4 = IpAddress::V4([1, 2, 3, 4]);
    let v6 = IpAddress::V6([0x2001, 0xdb8, 0, 0, 0, 0, 0, 2]);
    let (run, _) = p.start_at("example.com", Some(v4), Some(v6), &cfg, "T", "N");
    let (run, a) = p.step_at(run, Reply::Listed(Listing::Aliyun { records: Some(Some(vec![rec("R1", "1.2.3.4")])) }), "T", "N");
    let req = sent(a);
    assert!(req.form.contains(&("Action".to_string(), "DescribeSubDomainRecords".to_string())));
    assert!(req.form.contains(&("Type".to_string(), "AAAA".to_string())));
    assert!(req.form.contains(&("SubDomain".to_string(), "example.com".to_string())));
    let (_, a) = p.step_at(run, Reply::Listed(Listing::Aliyun { records: None }), "T", "N");
    let req = sent(a);
    assert!(req.form.contains(&("Action".to_string(), "AddDomainRecord".to_string())));
    assert!(req.form.contains(&("DomainName".to_string(), "example.com".to_string())));
    assert!(req.form.contains(&("RR".to_string(), "@".to_string())));
}

#[test]
fn aliyun_missing_keys_and_parse_errors() {
    let p = AliyunProvider::new();
    let (_, a) = p.start("a.b.c", None, None, &ConfigValue::Object(vec![]));
    match a {
        ProviderAction::Finish(Err(ProviderError::Config(m))) => assert_eq!(m, "Missing access_key_id"),
        other => panic!("unexpected {:?}", other),
    }
    let (_, a) = p.start("a.b.c", None, None, &ConfigValue::Object(vec![text("access_key_id", "x")]));
    match a {
        ProviderAction::Finish(Err(ProviderError::Config(m))) => assert_eq!(m, "Missing access_key_secret"),
        other => panic!("unexpected {:?}", other),
    }
    let cfg = ConfigValue::Object(vec![text("access_key_id", "AK"), text("access_key_secret", "SK")]);
    let (run, _) = p.start("a.b.c", Some(IpAddress::V4([1, 1, 1, 1])), None, &cfg);
    let (_, a) = p.step(run, Reply::Undecodable("eof".to_string()));
    match a {
        ProviderAction::Finish(Err(ProviderError::Api(m))) => assert_eq!(m, "Failed to parse response: eof"),
        other => panic!("unexpected {:?}", other),
    }
}

#[test]
fn dnspod_code_minus_15_creates() {
    let p = DnspodProvider::new();
    let cfg = ConfigValue::Object(vec![text("login_token", "1,abc")]);
    let (run, a) = p.start("www.example.com", Some(IpAddress::V4([1, 2, 3, 4])), None, &cfg);
    let req = sent(a);
    assert_eq!(req.url, "https://dnsapi.cn/Record.List");
    assert_eq!(req.form, pairs(&[("login_token", "1,abc"), ("format", "json"), ("domain", "example.com"),
        ("sub_domain", "www"), ("record_type", "A"), ("record_line", "\u{9ed8}\u{8ba4}")]));
    let (run, a) = p.step(run, Reply::Listed(Listing::Dnspod { code: "-15".to_string(), message: "none".to_string(), records: None }));
    let req = sent(a);
    assert_eq!(req.url, "https://dnsapi.cn/Record.Create");
    assert_eq!(req.form, pairs(&[("login_token", "1,abc"), ("format", "json"), ("domain", "example.com"),
        ("sub_domain", "www"), ("record_type", "A"), ("value", "1.2.3.4"), ("record_line", "\u{9ed8}\u{8ba4}"), ("ttl", "600")]));
    let (_, a) = p.step(run, Reply::Listed(Listing::Dnspod { code: "1".to_string(), message: "ok".to_string(), records: None }));
    assert!(matches!(a, ProviderAction::Finish(Ok(()))));
}

#[test]
fn dnspod_modifies_changed_and_reports_errors() {
    let p = DnspodProvider::new();
    let cfg = ConfigValue::Object(vec![text("login_token", "t"), text("record_line", "line")]);
    let (run, _) = p.start("a.example.com", Some(IpAddress::V4([1, 2, 3, 4])), None, &cfg);
    let (run, a) = p.step(run, Reply::Listed(Listing::Dnspod { code: "1".to_string(), message: String::new(), records: Some(vec![rec("77", "4.3.2.1")]) }));
    let req = sent(a);
    assert_eq!(req.url, "https://dnsapi.cn/Record.Modify");
    assert!(req.form.contains(&("record_id".to_string(), "77".to_string())));
    assert!(req.form.contains(&("record_line".to_string(), "line".to_string())));
    let (_, a) = p.step(run, Reply::Listed(Listing::Dnspod { code: "8".to_string(), message: "bad".to_string(), records: None }));
    match a {
        ProviderAction::Finish(Err(ProviderError::Api(m))) => assert_eq!(m, "DNSPod update record error: 8 - bad"),
        other => panic!("unexpected {:?}", other),
    }
    let (run, _) = p.start("a.example.com", Some(IpAddress::V4([1, 2, 3, 4])), None, &cfg);
    let (_, a) = p.step(run, Reply::Listed(Listing::Dnspod { code: "10".to_string(), message: "denied".to_string(), records: None }));
    match a {
        ProviderAction::Finish(Err(ProviderError::Api(m))) => assert_eq!(m, "DNSPod API error: 10 - denied"),
        other => panic!("unexpected {:?}", other),
    }
}

#[test]
fn dnspod_missing_token() {
    let (_, a) = DnspodProvider::new().start("a.b", None, None, &ConfigValue::Object(vec![]));
    match a {
        ProviderAction::Finish(Err(ProviderError::Config(m))) => assert_eq!(m, "Missing login_token (format: id,token)"),
        other => panic!("unexpected {:?}", other),
    }
}

#[test]
fn godaddy_sets_each_record() {
    assert_eq!(build_auth_header("K", "S"), "sso-key K:S");
    let p = GodaddyProvider::new();
    let cfg = ConfigValue::Object(vec![text("key", "K"), text("secret", "S")]);
    let (run, a) = p.start("example.com", Some(IpAddress::V4([1, 2, 3, 4])), Some(IpAddress::V6([0x2001, 0xdb8, 0, 0, 0, 0, 0, 1])), &cfg);
    let req = sent(a);
    assert_eq!(req.method, HttpMethod::Put);
    assert_eq!(req.url, "https://api.godaddy.com/v1/domains/example.com/records/A/@");
    assert_eq!(req.headers, pairs(&[("Authorization", "sso-key K:S"), ("Content-Type", "application/json")]));
    match &req.payload {
        Payload::GodaddyRecords(v) => {
            assert_eq!(v.len(), 1);
            assert_eq!(v[0].data, "1.2.3.4");
            assert_eq!(v[0].ttl, 3600);
            assert_eq!(v[0].name, "@");
        },
        other => panic!("unexpected {:?}", other),
    }
    let (run, a) = p.step(run, Reply::Received { success: true, status: "200".to_string(), body: String::new() });
    assert_eq!(sent(a).url, "https://api.godaddy.com/v1/domains/example.com/records/AAAA/@");
    let (_, a) = p.step(run, Reply::Received { success: false, status: "422".to_string(), body: "bad".to_string() });
    match a {
        ProviderAction::Finish(Err(ProviderError::Api(m))) => assert_eq!(m, "GoDaddy set record failed: bad"),
        other => panic!("unexpected {:?}", other),
    }
}

#[test]
fn godaddy_subdomain_and_missing_secret() {
    let p = GodaddyProvider::new();
    let cfg = ConfigValue::Object(vec![text("key", "K"), text("secret", "S")]);
    let (_, a) = p.start("a.b.example.com", Some(IpAddress::V4([1, 2, 3, 4])), None, &cfg);
    assert_eq!(sent(a).url, "https://api.godaddy.com/v1/domains/example.com/records/A/a.b");
    let (_, a) = p.start("x.y", None, None, &ConfigValue::Object(vec![text("key", "K")]));
    match a {
        ProviderAction::Finish(Err(ProviderError::Config(m))) => assert_eq!(m, "Missing secret"),
        other => panic!("unexpected {:?}", other),
    }
}

#[test]
fn namecheap_outcomes() {
    assert!(namecheap_outcome("<ErrCount>0</ErrCount>").is_ok());
    assert!(namecheap_outcome("something else").is_ok());
    match namecheap_outcome("<errors><Err1>x</Err1></errors>") {
        Err(ProviderError::Api(m)) => assert_eq!(m, "Namecheap DDNS update failed: <errors><Err1>x</Err1></errors>"),
        other => panic!("unexpected {:?}", other),
    }
}

#[test]
fn namecheap_request_and_ipv6_only() {
    let p = NamecheapProvider::new();
    let cfg = ConfigValue::Object(vec![text("api_key", "pw")]);
    let (run, a) = p.start("home.example.com", Some(IpAddress::V4([1, 2, 3, 4])), None, &cfg);
    let req = sent(a);
    assert_eq!(req.url, "https://dynamicdns.park-your-domain.com/update");
    assert_eq!(req.query, pairs(&[("host", "home"), ("domain", "example.com"), ("password", "pw"), ("ip", "1.2.3.4")]));
    let (_, a) = p.step(run, Reply::Received { success: true, status: "200".to_string(), body: "<ErrCount>1</ErrCount><errors/>".to_string() });
    assert!(matches!(a, ProviderAction::Finish(Err(ProviderError::Api(_)))));
    let (_, a) = p.start("home.example.com", None, Some(IpAddress::V6([1, 0, 0, 0, 0, 0, 0, 1])), &cfg);
    assert!(matches!(a, ProviderAction::Finish(Ok(()))));
    let (_, a) = p.start("home.example.com", None, None, &ConfigValue::Object(vec![]));
    match a {
        ProviderAction::Finish(Err(ProviderError::Config(m))) => assert_eq!(m, "Missing api_key (DDNS password)"),
        other => panic!("unexpected {:?}", other),
    }
}

#[test]
fn registry_dispatches() {
    let cfg = ConfigValue::Object(vec![text("api_token", "tok")]);
    let (run, a) = start_update("cloudflare", "a.example.com", Some(IpAddress::V4([1, 2, 3, 4])), None, &cfg).unwrap();
    assert_eq!(sent(a).url, "https://api.cloudflare.com/client/v4/zones");
    let (_, a) = step_update("cloudflare", run, Reply::Failed("down".to_string()));
    match a {
        ProviderAction::Finish(Err(ProviderError::Network(m))) => assert_eq!(m, "down"),
        other => panic!("unexpected {:?}", other),
    }
}

#[test]
fn provider_error_messages() {
    assert_eq!(ProviderError::Network("n".to_string()).message(), "Network error: n");
    assert_eq!(ProviderError::Api("a".to_string()).message(), "API error: a");
    assert_eq!(ProviderError::Config("c".to_string()).message(), "Configuration error: c");
    assert_eq!(ProviderError::Other("o".to_string()).message(), "Other error: o");
}

#[test]
fn aliyun_stamps_calls_with_the_current_time_and_a_fresh_nonce() {
    let p = AliyunProvider::new();
    let cfg = ConfigValue::Object(vec![text("access_key_id", "AK"), text("access_key_secret", "SK")]);
    let (_, a) = p.start("www.example.com", Some(IpAddress::V4([1, 2, 3, 4])), None, &cfg);
    let req = sent(a);
    let ts = req.form.iter().find(|(k, _)| k == "Timestamp").unwrap().1.clone();
    let b = ts.as_bytes();
    assert_eq!(b.len(), 20);
    assert_eq!(b[4], b'-');
    assert_eq!(b[10], b'T');
    assert_eq!(b[19], b'Z');
    assert!(ts.starts_with("20"));
    let nonce = req.form.iter().find(|(k, _)| k == "SignatureNonce").unwrap().1.clone();
    assert_eq!(nonce.len(), 36);
}
