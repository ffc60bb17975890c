use simpleddns::models::{ConfigValue, DdnsProfile, IpAddress, IpVersion, ProfileStatus};
use simpleddns::providers::ProviderError;
use simpleddns::resolver::ResolverError;
use simpleddns::scheduler::{
    append_log_at, clip_message, interval_seconds, log_entry, push_log, run_start, run_step, RunAction, RunEvent,
    RunPlan, RunState, Stage, UpdateLogStyle,
};

fn profile(name: &str, ptype: &str, v4: bool, v6: bool, enabled: bool) -> DdnsProfile {
    DdnsProfile {
        id: format!("id-{}", name),
        name: name.to_string(),
        provider_type: ptype.to_string(),
        domain: format!("{}.example.com", name),
        enable_ipv4: v4,
        enable_ipv6: v6,
        enabled,
        provider_config: ConfigValue::Object(vec![]),
    }
}

fn plan(profiles: Vec<DdnsProfile>, style: UpdateLogStyle) -> RunPlan {
    RunPlan {
        profiles,
        providers: vec!["cloudflare".to_string()],
        ipv4_urls: vec!["https://a".to_string(), "https://b".to_string()],
        ipv6_urls: vec!["https://c".to_string()],
        style,
        statuses: Vec::new(),
    }
}

fn logs(actions: &[RunAction]) -> Vec<String> {
    actions.iter().filter_map(|a| match a { RunAction::Log(m) => Some(m.clone()), _ => None }).collect()
}

#[test]
fn a_pass_probes_in_order_and_updates() {
    let p = plan(vec![profile("home", "cloudflare", true, true, true)], UpdateLogStyle::Lines);
    let s = run_start();
    let (s, a) = run_step(&p, s, RunEvent::Proceed);
    assert!(matches!(&a[..], [RunAction::Resolve { url, version: IpVersion::IPv4 }] if url == "https://a"));
    // The first probe fails: the next one is asked.
    let (s, a) = run_step(&p, s, RunEvent::Resolved(Err(ResolverError::VersionMismatch)));
    assert!(matches!(&a[..], [RunAction::Resolve { url, version: IpVersion::IPv4 }] if url == "https://b"));
    let (s, a) = run_step(&p, s, RunEvent::Resolved(Ok(IpAddress::V4([1, 2, 3, 4]))));
    assert!(matches!(&a[..], [RunAction::Resolve { url, version: IpVersion::IPv6 }] if url == "https://c"));
    // IPv6 fails; the update goes ahead with IPv4 alone.
    let (s, a) = run_step(&p, s, RunEvent::Resolved(Err(ResolverError::NoLocalAddress)));
    assert_eq!(logs(&a), vec!["[home] IPv6 resolve failed: No suitable local address found"]);
    assert!(matches!(a.last(), Some(RunAction::Update { profile: 0, ipv4: Some(_), ipv6: None })));
    let (s, a) = run_step(&p, s, RunEvent::Updated(Ok(())));
    assert_eq!(logs(&a), vec!["[home] Updated home.example.com\n- IPv4: 1.2.3.4\n- IPv6: N/A"]);
    assert!(matches!(&a[1], RunAction::SetStatus { message, ipv4: Some(v4), ipv6: None, .. } if message == "OK" && v4 == "1.2.3.4"));
    let (s, a) = run_step(&p, s, RunEvent::Proceed);
    assert!(a.is_empty());
    assert!(matches!(s.stage, Stage::Done));
}

#[test]
fn disabled_and_unknown_profiles_are_skipped() {
    let p = plan(vec![profile("off", "cloudflare", true, false, false), profile("x", "route53", true, false, true)], UpdateLogStyle::OneLine);
    let (s, a) = run_step(&p, run_start(), RunEvent::Proceed);
    assert!(a.is_empty());
    assert_eq!(s.profile, 1);
    let (s, a) = run_step(&p, s, RunEvent::Proceed);
    assert_eq!(logs(&a), vec!["Unknown provider 'route53' for profile 'x'"]);
    let (s, _) = run_step(&p, s, RunEvent::Proceed);
    assert!(matches!(s.stage, Stage::Done));
}

#[test]
fn no_address_skips_the_update_and_failures_are_reported() {
    let p = plan(vec![profile("a", "cloudflare", true, false, true), profile("b", "cloudflare", true, false, true)], UpdateLogStyle::OneLine);
    let (s, _) = run_step(&p, run_start(), RunEvent::Proceed);
    let (s, _) = run_step(&p, s, RunEvent::Resolved(Err(ResolverError::VersionMismatch)));
    let (s, a) = run_step(&p, s, RunEvent::Resolved(Err(ResolverError::Parse("bad".to_string()))));
    assert_eq!(logs(&a), vec!["[a] IPv4 resolve failed: Parse error: bad", "[a] No IP resolved, skipping update"]);
    assert_eq!(s.profile, 1);
    let (s, _) = run_step(&p, s, RunEvent::Proceed);
    let (s, _) = run_step(&p, s, RunEvent::Resolved(Ok(IpAddress::V4([5, 5, 5, 5]))));
    let (_, a) = run_step(&p, s, RunEvent::Updated(Err(ProviderError::Api("nope".to_string()))));
    assert_eq!(logs(&a), vec!["[b] Update failed: API error: nope"]);
    assert!(matches!(&a[1], RunAction::SetStatus { message, .. } if message == "Error: API error: nope"));
}

#[test]
fn one_line_success_message() {
    let p = plan(vec![profile("h", "cloudflare", true, false, true)], UpdateLogStyle::OneLine);
    let (s, _) = run_step(&p, run_start(), RunEvent::Proceed);
    let (s, _) = run_step(&p, s, RunEvent::Resolved(Ok(IpAddress::V4([1, 1, 1, 1]))));
    let (_, a) = run_step(&p, s, RunEvent::Updated(Ok(())));
    assert_eq!(logs(&a), vec!["[h] Updated h.example.com \u{2014} IPv4: 1.1.1.1 IPv6: N/A"]);
}

#[test]
fn unexpected_events_change_nothing() {
    let p = plan(vec![], UpdateLogStyle::OneLine);
    let s = RunState { profile: 0, stage: Stage::Pick };
    let (t, a) = run_step(&p, s, RunEvent::Updated(Ok(())));
    assert!(a.is_empty());
    assert_eq!(t.profile, 0);
    assert!(matches!(t.stage, Stage::Pick));
}

#[test]
fn log_keeps_the_last_entries() {
    let mut l: Vec<String> = Vec::new();
    for i in 0..5 {
        push_log(&mut l, format!("m{}", i), 3);
    }
    assert_eq!(l, vec!["m2", "m3", "m4"]);
    assert_eq!(log_entry("12:00:00", "hi"), "[12:00:00] hi");
    let e = append_log_at(&mut l, "x", 3600, 3, false);
    assert_eq!(e, "[01:00:00] x");
    assert_eq!(l, vec!["m3", "m4", "[01:00:00] x"]);
}

#[test]
fn long_messages_are_clipped() {
    let long = "a".repeat(300);
    let c = clip_message(&long);
    assert_eq!(c.len(), 256);
    assert!(c.ends_with("..."));
    assert_eq!(clip_message("short"), "short");
    let exact = "b".repeat(256);
    assert_eq!(clip_message(&exact), exact);
    assert_eq!(interval_seconds(5), 300);
}

fn ok_status(id: &str, v4: Option<&str>, message: &str) -> ProfileStatus {
    ProfileStatus {
        profile_id: id.to_string(),
        last_update: Some(0),
        current_ipv4: v4.map(|s| s.to_string()),
        current_ipv6: None,
        status_message: message.to_string(),
        is_running: false,
    }
}

fn resolve_v4_only(p: &RunPlan) -> Vec<RunAction> {
    let (s, _) = run_step(p, run_start(), RunEvent::Proceed);
    let (s, _) = run_step(p, s, RunEvent::Resolved(Ok(IpAddress::V4([1, 2, 3, 4]))));
    let (_, a) = run_step(p, s, RunEvent::Resolved(Err(ResolverError::NoLocalAddress)));
    a
}

#[test]
fn unchanged_address_is_not_updated() {
    let mut p = plan(vec![profile("home", "cloudflare", true, true, true)], UpdateLogStyle::Lines);
    p.statuses = vec![ok_status("id-home", Some("1.2.3.4"), "OK")];
    let a = resolve_v4_only(&p);
    assert!(!a.iter().any(|x| matches!(x, RunAction::Update { .. })));
}

#[test]
fn changed_or_failed_address_is_updated() {
    let mut p = plan(vec![profile("home", "cloudflare", true, true, true)], UpdateLogStyle::Lines);
    p.statuses = vec![ok_status("id-home", Some("1.2.3.5"), "OK")];
    assert!(matches!(resolve_v4_only(&p).last(), Some(RunAction::Update { .. })));
    p.statuses = vec![ok_status("id-home", Some("1.2.3.4"), "Error: timeout")];
    assert!(matches!(resolve_v4_only(&p).last(), Some(RunAction::Update { .. })));
}
