//! The decisions of one update pass over the profiles, and the log the pass
//! writes.

use vstd::prelude::*;
use vstd::utf8::{decode_utf8, encode_utf8, is_char_boundary, encode_utf8_decode_utf8};
use vstd::string::StringSliceAdditionalSpecFns;
use crate::address::{ip_to_string, spec_ip_text};
use crate::models::{DdnsProfile, IpAddress, IpVersion, ProfileStatus};
use crate::status::{find_status, lemma_status_index, spec_status_index};
use crate::providers::{spec_provider_message, ProviderError};
use crate::resolver::{spec_resolver_message, ResolverError};
use crate::text::{owned, str_eq};
use crate::clock::{clock_text, spec_clock_text, utc_now_seconds};

verus! {

/// The log after appending `entry` and keeping only the last `keep` entries.
pub open spec fn spec_log_after(logs: Seq<Seq<char>>, entry: Seq<char>, keep: nat) -> Seq<Seq<char>> {
    let all = logs.push(entry);
    if all.len() > keep { all.skip(all.len() - keep) } else { all }
}

/// The texts of log entries.
pub open spec fn texts(v: Seq<String>) -> Seq<Seq<char>> {
    v.map_values(|s: String| s@)
}

/// Appends an entry to the log and keeps the last `keep` entries.
pub fn push_log(logs: &mut Vec<String>, entry: String, keep: usize)
    requires
        keep > 0,
    ensures
        texts(final(logs)@) == spec_log_after(texts(old(logs)@), entry@, keep as nat),
{
    let ghost before = texts(logs@);
    logs.push(entry);
    proof {
        assert(texts(logs@) =~= before.push(entry@));
    }
    let n = logs.len();
    if n > keep {
        let ghost all = logs@;
        let tail = logs.split_off(n - keep);
        *logs = tail;
        proof {
            assert(texts(logs@) =~= texts(all).skip(n - keep));
        }
    }
}

/// The log never holds more than `keep` entries, and its last entry is the
/// one just written.
pub proof fn law_log_keeps_last(logs: Seq<Seq<char>>, entry: Seq<char>, keep: nat)
    requires
        keep > 0,
    ensures
        spec_log_after(logs, entry, keep).len() <= keep,
        spec_log_after(logs, entry, keep).last() == entry,
        logs.len() < keep ==> spec_log_after(logs, entry, keep) == logs.push(entry),
{
}

/// Log messages longer than 256 bytes are cut to their first 253 bytes and `...`.
pub open spec fn spec_clip_message(msg: Seq<char>) -> Seq<char> {
    if encode_utf8(msg).len() > 256 {
        decode_utf8(encode_utf8(msg).take(253)) + "..."@
    } else {
        msg
    }
}

/// Cuts a log message longer than 256 bytes to its first 253 bytes followed by `...`.
pub fn clip_message(msg: &str) -> (r: String)
    requires
        encode_utf8(msg@).len() <= usize::MAX,
        encode_utf8(msg@).len() > 256 ==> is_char_boundary(encode_utf8(msg@), 253),
    ensures
        r@ == spec_clip_message(msg@),
{
    if msg.len() > 256 {
        let (head, _) = msg.split_at(253);
        proof {
            encode_utf8_decode_utf8(head@);
            assert(encode_utf8(head@) =~= encode_utf8(msg@).take(253));
        }
        owned(head).concat("...")
    } else {
        owned(msg)
    }
}

/// A log entry: `[time] message`.
pub open spec fn spec_log_entry(time: Seq<char>, msg: Seq<char>) -> Seq<char> {
    "["@ + time + "] "@ + msg
}

/// Formats a log entry from the time of day and the message.
pub fn log_entry(time: &str, msg: &str) -> (r: String)
    ensures
        r@ == spec_log_entry(time@, msg@),
{
    owned("[").concat(time).concat("] ").concat(msg)
}

/// Writes a message to the log, stamped with the UTC time of day of `now`
/// (seconds since the Unix epoch); when `clip`, a message over 256 bytes is
/// first cut. Only the last `keep` entries are kept. Returns the entry.
pub fn append_log_at(logs: &mut Vec<String>, msg: &str, now: i64, keep: usize, clip: bool) -> (r: String)
    requires
        keep > 0,
        clip ==> encode_utf8(msg@).len() <= usize::MAX,
        clip && encode_utf8(msg@).len() > 256 ==> is_char_boundary(encode_utf8(msg@), 253),
    ensures
        r@ == spec_log_entry(spec_clock_text(now as int), if clip { spec_clip_message(msg@) } else { msg@ }),
        texts(final(logs)@) == spec_log_after(texts(old(logs)@), r@, keep as nat),
{
    let body = if clip { clip_message(msg) } else { owned(msg) };
    let time = clock_text(now);
    let entry = log_entry(time.as_str(), body.as_str());
    push_log(logs, entry.clone(), keep);
    entry
}

/// Writes a message to the log, stamped with the current UTC time of day,
/// as `append_log_at` does at some moment.
pub fn append_log(logs: &mut Vec<String>, msg: &str, keep: usize, clip: bool) -> (r: String)
    requires
        keep > 0,
        clip ==> encode_utf8(msg@).len() <= usize::MAX,
        clip && encode_utf8(msg@).len() > 256 ==> is_char_boundary(encode_utf8(msg@), 253),
    ensures
        exists|now: i64| r@ == spec_log_entry(spec_clock_text(now as int), if clip { spec_clip_message(msg@) } else { msg@ }),
        texts(final(logs)@) == spec_log_after(texts(old(logs)@), r@, keep as nat),
{
    let now = utc_now_seconds();
    append_log_at(logs, msg, now, keep, clip)
}

/// The seconds the scheduler waits between passes.
pub fn interval_seconds(interval_minutes: u32) -> (r: u64)
    ensures
        r == interval_minutes as u64 * 60,
{
    interval_minutes as u64 * 60
}

/// How a successful update is logged.
#[derive(Debug, Clone, Copy, PartialEq, Eq, Structural)]
pub enum UpdateLogStyle {
    /// `[name] Updated domain — IPv4: a IPv6: b`
    OneLine,
    /// `[name] Updated domain`, then `- IPv4: a` and `- IPv6: b` on lines of their own.
    Lines,
}

/// The snapshot of configuration one pass works on.
pub struct RunPlan {
    pub profiles: Vec<DdnsProfile>,
    /// The provider types that can be updated.
    pub providers: Vec<String>,
    pub ipv4_urls: Vec<String>,
    pub ipv6_urls: Vec<String>,
    pub style: UpdateLogStyle,
    /// The recorded outcome of each profile's last update when the pass began.
    pub statuses: Vec<ProfileStatus>,
}

/// Where a pass stands with the current profile.
#[derive(Debug, Clone, Copy)]
pub enum Stage {
    /// Choosing what to do with the profile.
    Pick,
    /// Waiting for the answer of IPv4 probe `url`.
    ResolveV4 { url: usize },
    /// Waiting for the answer of IPv6 probe `url`.
    ResolveV6 { ipv4: Option<IpAddress>, url: usize },
    /// Waiting for the provider's update.
    Update { ipv4: Option<IpAddress>, ipv6: Option<IpAddress> },
    /// Every profile has been handled.
    Done,
}

/// The state of a pass: the current profile and what it waits for.
#[derive(Debug, Clone, Copy)]
pub struct RunState {
    pub profile: usize,
    pub stage: Stage,
}

/// What the caller reports back after carrying out the actions of a step.
#[derive(Debug)]
pub enum RunEvent {
    /// Nothing was asked; go on.
    Proceed,
    /// The answer of the probe that was asked for.
    Resolved(Result<IpAddress, ResolverError>),
    /// The outcome of the update that was asked for.
    Updated(Result<(), ProviderError>),
}

/// What the caller carries out, in order.
#[derive(Debug)]
pub enum RunAction {
    /// Write a message to the log.
    Log(String),
    /// Ask a probe for an address of a family.
    Resolve { url: String, version: IpVersion },
    /// Have the profile's provider set its records.
    Update { profile: usize, ipv4: Option<IpAddress>, ipv6: Option<IpAddress> },
    /// Record the outcome of the profile's update, stamped with the current time.
    SetStatus { profile_id: String, ipv4: Option<String>, ipv6: Option<String>, message: String },
}

/// What an action holds.
pub enum ActionView {
    Log(Seq<char>),
    Resolve { url: Seq<char>, version: IpVersion },
    Update { profile: int, ipv4: Option<IpAddress>, ipv6: Option<IpAddress> },
    SetStatus { profile_id: Seq<char>, ipv4: Option<Seq<char>>, ipv6: Option<Seq<char>>, message: Seq<char> },
}

pub open spec fn opt_view(s: Option<String>) -> Option<Seq<char>> {
    match s {
        Some(t) => Some(t@),
        None => None,
    }
}

impl View for RunAction {
    type V = ActionView;

    open spec fn view(&self) -> ActionView {
        match self {
            RunAction::Log(m) => ActionView::Log(m@),
            RunAction::Resolve { url, version } => ActionView::Resolve { url: url@, version: *version },
            RunAction::Update { profile, ipv4, ipv6 } => ActionView::Update { profile: *profile as int, ipv4: *ipv4, ipv6: *ipv6 },
            RunAction::SetStatus { profile_id, ipv4, ipv6, message } => ActionView::SetStatus {
                profile_id: profile_id@,
                ipv4: opt_view(*ipv4),
                ipv6: opt_view(*ipv6),
                message: message@,
            },
        }
    }
}

/// The views of a list of actions.
pub open spec fn actions_view(v: Seq<RunAction>) -> Seq<ActionView> {
    v.map_values(|a: RunAction| a@)
}

/// A provider of this type can be updated.
pub open spec fn spec_known(plan: RunPlan, provider_type: Seq<char>) -> bool {
    texts(plan.providers@).contains(provider_type)
}

/// `[name] `
pub open spec fn tag(name: Seq<char>) -> Seq<char> {
    "["@ + name + "] "@
}

/// The log line for a profile whose provider type is unknown.
pub open spec fn spec_unknown_provider_msg(p: DdnsProfile) -> Seq<char> {
    "Unknown provider '"@ + p.provider_type@ + "' for profile '"@ + p.name@ + "'"@
}

/// The log line for a family whose probes all failed, the last with `e`.
pub open spec fn spec_resolve_failed_msg(p: DdnsProfile, family: Seq<char>, e: ResolverError) -> Seq<char> {
    tag(p.name@) + family + " resolve failed: "@ + spec_resolver_message(e)
}

/// The log line for a profile for which no address was found.
pub open spec fn spec_no_ip_msg(p: DdnsProfile) -> Seq<char> {
    tag(p.name@) + "No IP resolved, skipping update"@
}

/// The text of an optional address for the log; `N/A` when absent.
pub open spec fn spec_or_na(ip: Option<IpAddress>) -> Seq<char> {
    match ip {
        Some(a) => spec_ip_text(a),
        None => "N/A"@,
    }
}

/// The log line for a successful update.
pub open spec fn spec_updated_msg(style: UpdateLogStyle, p: DdnsProfile, ipv4: Option<IpAddress>, ipv6: Option<IpAddress>) -> Seq<char> {
    match style {
        UpdateLogStyle::OneLine => tag(p.name@) + "Updated "@ + p.domain@ + " \u{2014} IPv4: "@ + spec_or_na(ipv4) + " IPv6: "@ + spec_or_na(ipv6),
        UpdateLogStyle::Lines => tag(p.name@) + "Updated "@ + p.domain@ + "\n- IPv4: "@ + spec_or_na(ipv4) + "\n- IPv6: "@ + spec_or_na(ipv6),
    }
}

/// The log line for a failed update.
pub open spec fn spec_update_failed_msg(p: DdnsProfile, e: ProviderError) -> Seq<char> {
    tag(p.name@) + "Update failed: "@ + spec_provider_message(e)
}

pub open spec fn opt_ip_text(ip: Option<IpAddress>) -> Option<Seq<char>> {
    match ip {
        Some(a) => Some(spec_ip_text(a)),
        None => None,
    }
}

/// The addresses found for profile `p` are those its last update set
/// successfully: its recorded status says `OK` and holds the same texts.
pub open spec fn spec_unchanged(plan: RunPlan, p: int, ipv4: Option<IpAddress>, ipv6: Option<IpAddress>) -> bool {
    let i = spec_status_index(plan.statuses@, plan.profiles@[p].id@);
    &&& i >= 0
    &&& plan.statuses@[i].status_message@ == "OK"@
    &&& opt_view(plan.statuses@[i].current_ipv4) == opt_ip_text(ipv4)
    &&& opt_view(plan.statuses@[i].current_ipv6) == opt_ip_text(ipv6)
}

/// After the IPv6 probes of profile `p`: skip it when nothing was found or
/// the addresses are those already set, otherwise have its provider update.
pub open spec fn spec_after_resolve(plan: RunPlan, p: int, ipv4: Option<IpAddress>, ipv6: Option<IpAddress>) -> (RunState, Seq<ActionView>) {
    if ipv4 is None && ipv6 is None {
        (RunState { profile: (p + 1) as usize, stage: Stage::Pick }, seq![ActionView::Log(spec_no_ip_msg(plan.profiles@[p]))])
    } else if spec_unchanged(plan, p, ipv4, ipv6) {
        (RunState { profile: (p + 1) as usize, stage: Stage::Pick }, Seq::empty())
    } else {
        (RunState { profile: p as usize, stage: Stage::Update { ipv4, ipv6 } }, seq![ActionView::Update { profile: p, ipv4, ipv6 }])
    }
}

/// After the IPv4 probes of profile `p`: probe IPv6 when it is enabled and
/// there are IPv6 probes, whatever IPv4 gave.
pub open spec fn spec_start_v6(plan: RunPlan, p: int, ipv4: Option<IpAddress>) -> (RunState, Seq<ActionView>) {
    if plan.profiles@[p].enable_ipv6 && plan.ipv6_urls@.len() > 0 {
        (RunState { profile: p as usize, stage: Stage::ResolveV6 { ipv4, url: 0 } },
         seq![ActionView::Resolve { url: plan.ipv6_urls@[0]@, version: IpVersion::IPv6 }])
    } else {
        spec_after_resolve(plan, p, ipv4, None)
    }
}

/// Choosing what to do with profile `p`.
pub open spec fn spec_pick(plan: RunPlan, p: int) -> (RunState, Seq<ActionView>) {
    if p >= plan.profiles@.len() {
        (RunState { profile: p as usize, stage: Stage::Done }, Seq::empty())
    } else if !plan.profiles@[p].enabled {
        (RunState { profile: (p + 1) as usize, stage: Stage::Pick }, Seq::empty())
    } else if !spec_known(plan, plan.profiles@[p].provider_type@) {
        (RunState { profile: (p + 1) as usize, stage: Stage::Pick }, seq![ActionView::Log(spec_unknown_provider_msg(plan.profiles@[p]))])
    } else if plan.profiles@[p].enable_ipv4 && plan.ipv4_urls@.len() > 0 {
        (RunState { profile: p as usize, stage: Stage::ResolveV4 { url: 0 } },
         seq![ActionView::Resolve { url: plan.ipv4_urls@[0]@, version: IpVersion::IPv4 }])
    } else {
        spec_start_v6(plan, p, None)
    }
}

/// One step of a pass: from its state and what the caller reports, the next
/// state and the actions to carry out.
pub open spec fn spec_run_step(plan: RunPlan, s: RunState, e: RunEvent) -> (RunState, Seq<ActionView>) {
    let p = s.profile as int;
    match (s.stage, e) {
        (Stage::Pick, RunEvent::Proceed) => spec_pick(plan, p),
        (Stage::ResolveV4 { url }, RunEvent::Resolved(r)) => match r {
            Ok(ip) => spec_start_v6(plan, p, Some(ip)),
            Err(err) => if url + 1 < plan.ipv4_urls@.len() {
                (RunState { profile: s.profile, stage: Stage::ResolveV4 { url: (url + 1) as usize } },
                 seq![ActionView::Resolve { url: plan.ipv4_urls@[url + 1]@, version: IpVersion::IPv4 }])
            } else {
                let n = spec_start_v6(plan, p, None);
                (n.0, seq![ActionView::Log(spec_resolve_failed_msg(plan.profiles@[p], "IPv4"@, err))] + n.1)
            },
        },
        (Stage::ResolveV6 { ipv4, url }, RunEvent::Resolved(r)) => match r {
            Ok(ip) => spec_after_resolve(plan, p, ipv4, Some(ip)),
            Err(err) => if url + 1 < plan.ipv6_urls@.len() {
                (RunState { profile: s.profile, stage: Stage::ResolveV6 { ipv4, url: (url + 1) as usize } },
                 seq![ActionView::Resolve { url: plan.ipv6_urls@[url + 1]@, version: IpVersion::IPv6 }])
            } else {
                let n = spec_after_resolve(plan, p, ipv4, None);
                (n.0, seq![ActionView::Log(spec_resolve_failed_msg(plan.profiles@[p], "IPv6"@, err))] + n.1)
            },
        },
        (Stage::Update { ipv4, ipv6 }, RunEvent::Updated(r)) => {
            let prof = plan.profiles@[p];
            let next = RunState { profile: (p + 1) as usize, stage: Stage::Pick };
            match r {
                Ok(()) => (next, seq![
                    ActionView::Log(spec_updated_msg(plan.style, prof, ipv4, ipv6)),
                    ActionView::SetStatus { profile_id: prof.id@, ipv4: opt_ip_text(ipv4), ipv6: opt_ip_text(ipv6), message: "OK"@ },
                ]),
                Err(err) => (next, seq![
                    ActionView::Log(spec_update_failed_msg(prof, err)),
                    ActionView::SetStatus { profile_id: prof.id@, ipv4: opt_ip_text(ipv4), ipv6: opt_ip_text(ipv6), message: "Error: "@ + spec_provider_message(err) },
                ]),
            }
        },
        _ => (s, Seq::empty()),
    }
}

/// A state a pass can be in: the profile index is in range while a profile
/// is being worked on, and probe indices are in range.
pub open spec fn spec_state_ok(plan: RunPlan, s: RunState) -> bool {
    match s.stage {
        Stage::Pick => s.profile <= plan.profiles@.len(),
        Stage::Done => true,
        Stage::ResolveV4 { url } => s.profile < plan.profiles@.len() && url < plan.ipv4_urls@.len(),
        Stage::ResolveV6 { url, .. } => s.profile < plan.profiles@.len() && url < plan.ipv6_urls@.len(),
        Stage::Update { .. } => s.profile < plan.profiles@.len(),
    }
}

/// What holds of every state a pass reaches from its start: while a profile
/// is being probed or updated, it is enabled and its provider is known, and
/// IPv4 is probed only when enabled.
pub open spec fn spec_state_inv(plan: RunPlan, s: RunState) -> bool {
    &&& spec_state_ok(plan, s)
    &&& match s.stage {
        Stage::ResolveV4 { .. } => plan.profiles@[s.profile as int].enabled
            && spec_known(plan, plan.profiles@[s.profile as int].provider_type@)
            && plan.profiles@[s.profile as int].enable_ipv4,
        Stage::ResolveV6 { ipv4, .. } => plan.profiles@[s.profile as int].enabled
            && spec_known(plan, plan.profiles@[s.profile as int].provider_type@)
            && plan.profiles@[s.profile as int].enable_ipv6
            && (ipv4 is Some ==> plan.profiles@[s.profile as int].enable_ipv4),
        Stage::Update { ipv4, ipv6 } => plan.profiles@[s.profile as int].enabled
            && spec_known(plan, plan.profiles@[s.profile as int].provider_type@)
            && (ipv4 is Some || ipv6 is Some)
            && (ipv4 is Some ==> plan.profiles@[s.profile as int].enable_ipv4)
            && (ipv6 is Some ==> plan.profiles@[s.profile as int].enable_ipv6),
        _ => true,
    }
}

/// Every step keeps the invariant of reachable states, and an update is only
/// ever asked for an enabled profile with a known provider, with at least one
/// address, and only for the families that profile enables.
pub proof fn law_updates_only_enabled_with_address(plan: RunPlan, s: RunState, e: RunEvent)
    requires
        spec_state_inv(plan, s),
    ensures
        spec_state_inv(plan, spec_run_step(plan, s, e).0),
        forall|i: int| 0 <= i < spec_run_step(plan, s, e).1.len() ==>
            (#[trigger] spec_run_step(plan, s, e).1[i] matches ActionView::Update { profile, ipv4, ipv6 } ==> {
                &&& 0 <= profile < plan.profiles@.len()
                &&& plan.profiles@[profile].enabled
                &&& spec_known(plan, plan.profiles@[profile].provider_type@)
                &&& (ipv4 is Some || ipv6 is Some)
                &&& (ipv4 is Some ==> plan.profiles@[profile].enable_ipv4)
                &&& (ipv6 is Some ==> plan.profiles@[profile].enable_ipv6)
            }),
{
    let r = spec_run_step(plan, s, e);
    let p = s.profile as int;
    match (s.stage, e) {
        (Stage::Update { .. }, RunEvent::Updated(_)) => {
            assert(r.1.len() == 2);
        },
        (Stage::Pick, RunEvent::Proceed) => {
            if p < plan.profiles@.len() && plan.profiles@[p].enabled && spec_known(plan, plan.profiles@[p].provider_type@)
                && !(plan.profiles@[p].enable_ipv4 && plan.ipv4_urls@.len() > 0) {
                lemma_start_v6_updates(plan, p, None);
            }
        },
        (Stage::ResolveV4 { url }, RunEvent::Resolved(res)) => {
            match res {
                Ok(ip) => lemma_start_v6_updates(plan, p, Some(ip)),
                Err(err) => {
                    if !(url + 1 < plan.ipv4_urls@.len()) {
                        lemma_start_v6_updates(plan, p, None);
                        let n = spec_start_v6(plan, p, None);
                        assert forall|i: int| 1 <= i < r.1.len() implies r.1[i] == n.1[i - 1] by {}
                    }
                },
            }
        },
        (Stage::ResolveV6 { ipv4, url }, RunEvent::Resolved(res)) => {
            match res {
                Ok(ip) => {},
                Err(err) => {
                    if !(url + 1 < plan.ipv6_urls@.len()) {
                        let n = spec_after_resolve(plan, p, ipv4, None);
                        assert forall|i: int| 1 <= i < r.1.len() implies r.1[i] == n.1[i - 1] by {}
                    }
                },
            }
        },
        _ => {},
    }
}

proof fn lemma_start_v6_updates(plan: RunPlan, p: int, ipv4: Option<IpAddress>)
    requires
        0 <= p < plan.profiles@.len(),
        plan.profiles@[p].enabled,
        spec_known(plan, plan.profiles@[p].provider_type@),
        ipv4 is Some ==> plan.profiles@[p].enable_ipv4,
    ensures
        spec_state_inv(plan, spec_start_v6(plan, p, ipv4).0),
        forall|i: int| 0 <= i < spec_start_v6(plan, p, ipv4).1.len() ==>
            (#[trigger] spec_start_v6(plan, p, ipv4).1[i] matches ActionView::Update { profile, ipv4, ipv6 } ==> {
                &&& profile == p
                &&& (ipv4 is Some || ipv6 is Some)
                &&& (ipv4 is Some ==> plan.profiles@[profile].enable_ipv4)
                &&& (ipv6 is Some ==> plan.profiles@[profile].enable_ipv6)
            }),
{
    assert(plan.profiles@.len() == plan.profiles.len());
}

/// The DNS records are only written when the address changed: no update is
/// asked for a profile whose addresses are those its last successful update set.
pub proof fn law_no_update_when_unchanged(plan: RunPlan, s: RunState, e: RunEvent)
    requires
        spec_state_ok(plan, s),
    ensures
        forall|i: int| 0 <= i < spec_run_step(plan, s, e).1.len() ==>
            (#[trigger] spec_run_step(plan, s, e).1[i] matches ActionView::Update { profile, ipv4, ipv6 } ==>
                !spec_unchanged(plan, profile, ipv4, ipv6)),
{
    let r = spec_run_step(plan, s, e);
    let p = s.profile as int;
    match (s.stage, e) {
        (Stage::Pick, RunEvent::Proceed) => {
            if p < plan.profiles@.len() {
                lemma_start_v6_checks_change(plan, p, None);
            }
        },
        (Stage::ResolveV4 { url }, RunEvent::Resolved(res)) => {
            match res {
                Ok(ip) => lemma_start_v6_checks_change(plan, p, Some(ip)),
                Err(err) => {
                    lemma_start_v6_checks_change(plan, p, None);
                    if !(url + 1 < plan.ipv4_urls@.len()) {
                        let n = spec_start_v6(plan, p, None);
                        assert forall|i: int| 1 <= i < r.1.len() implies r.1[i] == n.1[i - 1] by {}
                    }
                },
            }
        },
        (Stage::ResolveV6 { ipv4, url }, RunEvent::Resolved(res)) => {
            match res {
                Ok(ip) => {},
                Err(err) => {
                    if !(url + 1 < plan.ipv6_urls@.len()) {
                        let n = spec_after_resolve(plan, p, ipv4, None);
                        assert forall|i: int| 1 <= i < r.1.len() implies r.1[i] == n.1[i - 1] by {}
                    }
                },
            }
        },
        (Stage::Update { .. }, RunEvent::Updated(_)) => {
            assert(r.1.len() == 2);
        },
        _ => {},
    }
}

proof fn lemma_start_v6_checks_change(plan: RunPlan, p: int, ipv4: Option<IpAddress>)
    ensures
        forall|i: int| 0 <= i < spec_start_v6(plan, p, ipv4).1.len() ==>
            (#[trigger] spec_start_v6(plan, p, ipv4).1[i] matches ActionView::Update { profile, ipv4, ipv6 } ==>
                !spec_unchanged(plan, profile, ipv4, ipv6)),
{
}

/// Trying the probes of a family goes through them in order and stops at
/// the first that answers: after a failed probe the next one is asked while
/// there is one; after an answer no further probe of that family is asked.
pub proof fn law_probes_in_order(plan: RunPlan, s: RunState, e: RunEvent)
    requires
        spec_state_ok(plan, s),
        s.stage is ResolveV4,
        e is Resolved,
    ensures
        ({
            let url = s.stage->ResolveV4_url;
            let r = spec_run_step(plan, s, e);
            &&& (e->Resolved_0 is Err && url + 1 < plan.ipv4_urls@.len()) ==>
                r.1 == seq![ActionView::Resolve { url: plan.ipv4_urls@[url + 1]@, version: IpVersion::IPv4 }]
            &&& e->Resolved_0 is Ok ==> forall|i: int| 0 <= i < r.1.len() ==>
                !(#[trigger] r.1[i] matches ActionView::Resolve { version: IpVersion::IPv4, .. })
        }),
{
}

/// A failure of one family does not keep the other from being probed: when
/// the last IPv4 probe fails, the first IPv6 probe is still asked for
/// whenever the profile enables IPv6 and there are IPv6 probes.
pub proof fn law_families_independent(plan: RunPlan, s: RunState, e: RunEvent)
    requires
        spec_state_ok(plan, s),
        s.stage is ResolveV4,
        e matches RunEvent::Resolved(Err(_)),
        s.stage->ResolveV4_url + 1 >= plan.ipv4_urls@.len(),
        plan.profiles@[s.profile as int].enable_ipv6,
        plan.ipv6_urls@.len() > 0,
    ensures
        spec_run_step(plan, s, e).1.contains(ActionView::Resolve { url: plan.ipv6_urls@[0]@, version: IpVersion::IPv6 }),
        spec_run_step(plan, s, e).0.stage == (Stage::ResolveV6 { ipv4: None, url: 0 }),
{
    let r = spec_run_step(plan, s, e);
    assert(r.1[1] == ActionView::Resolve { url: plan.ipv6_urls@[0]@, version: IpVersion::IPv6 });
}

/// IPv6 is probed whatever becomes of IPv4: for an enabled profile with a
/// known provider that does not probe IPv4 (it is off, or there is no IPv4
/// probe), enables IPv6 and has an IPv6 probe, picking it asks the first
/// IPv6 probe and waits for its answer, with no address found yet.
pub proof fn law_ipv6_probed_without_ipv4(plan: RunPlan, p: usize)
    requires
        p < plan.profiles@.len(),
        plan.profiles@[p as int].enabled,
        spec_known(plan, plan.profiles@[p as int].provider_type@),
        !(plan.profiles@[p as int].enable_ipv4 && plan.ipv4_urls@.len() > 0),
        plan.profiles@[p as int].enable_ipv6,
        plan.ipv6_urls@.len() > 0,
    ensures
        spec_run_step(plan, RunState { profile: p, stage: Stage::Pick }, RunEvent::Proceed)
            == (RunState { profile: p, stage: Stage::ResolveV6 { ipv4: None, url: 0 } },
                seq![ActionView::Resolve { url: plan.ipv6_urls@[0]@, version: IpVersion::IPv6 }]),
{
}

/// After an IPv4 answer, IPv6 is still probed: the step asks the first IPv6
/// probe when the profile enables IPv6 and there is one, carrying the IPv4
/// address found.
pub proof fn law_ipv6_probed_after_ipv4(plan: RunPlan, s: RunState, ip: IpAddress)
    requires
        spec_state_ok(plan, s),
        s.stage is ResolveV4,
        plan.profiles@[s.profile as int].enable_ipv6,
        plan.ipv6_urls@.len() > 0,
    ensures
        spec_run_step(plan, s, RunEvent::Resolved(Ok(ip)))
            == (RunState { profile: s.profile, stage: Stage::ResolveV6 { ipv4: Some(ip), url: 0 } },
                seq![ActionView::Resolve { url: plan.ipv6_urls@[0]@, version: IpVersion::IPv6 }]),
{
}

/// When IPv6 answers, the profile's provider is asked to set the addresses
/// found (the IPv4 one carried along, the IPv6 one just found), unless they
/// are those its last successful update set.
pub proof fn law_update_asked_with_found_addresses(plan: RunPlan, s: RunState, ip: IpAddress)
    requires
        spec_state_ok(plan, s),
        s.stage is ResolveV6,
        !spec_unchanged(plan, s.profile as int, s.stage->ResolveV6_ipv4, Some(ip)),
    ensures
        spec_run_step(plan, s, RunEvent::Resolved(Ok(ip)))
            == (RunState { profile: s.profile, stage: Stage::Update { ipv4: s.stage->ResolveV6_ipv4, ipv6: Some(ip) } },
                seq![ActionView::Update { profile: s.profile as int, ipv4: s.stage->ResolveV6_ipv4, ipv6: Some(ip) }]),
{
}

/// The outcome of an update is recorded for the profile with the addresses
/// that were set: `OK` when it succeeded, `Error: ` and the provider's
/// message when it failed; then the next profile is taken up.
pub proof fn law_update_outcome_recorded(plan: RunPlan, s: RunState, r: Result<(), ProviderError>)
    requires
        spec_state_ok(plan, s),
        s.stage is Update,
    ensures
        ({
            let n = spec_run_step(plan, s, RunEvent::Updated(r));
            let prof = plan.profiles@[s.profile as int];
            let v4 = s.stage->Update_ipv4;
            let v6 = s.stage->Update_ipv6;
            &&& n.0 == (RunState { profile: (s.profile + 1) as usize, stage: Stage::Pick })
            &&& n.1.len() == 2
            &&& n.1[1] == (ActionView::SetStatus {
                profile_id: prof.id@,
                ipv4: match v4 { Some(a) => Some(spec_ip_text(a)), None => None },
                ipv6: match v6 { Some(a) => Some(spec_ip_text(a)), None => None },
                message: match r { Ok(()) => "OK"@, Err(e) => "Error: "@ + spec_provider_message(e) },
            })
        }),
{
}

/// A disabled profile is passed over: nothing is probed, updated or logged for it.
pub proof fn law_disabled_profile_skipped(plan: RunPlan, p: usize)
    requires
        p < plan.profiles@.len(),
        !plan.profiles@[p as int].enabled,
    ensures
        spec_run_step(plan, RunState { profile: p, stage: Stage::Pick }, RunEvent::Proceed)
            == (RunState { profile: (p + 1) as usize, stage: Stage::Pick }, Seq::<ActionView>::empty()),
{
}

/// The state a pass starts in.
pub fn run_start() -> (r: RunState)
    ensures
        r == (RunState { profile: 0, stage: Stage::Pick }),
{
    RunState { profile: 0, stage: Stage::Pick }
}

fn is_known(plan: &RunPlan, provider_type: &str) -> (r: bool)
    ensures
        r == spec_known(*plan, provider_type@),
{
    let mut i: usize = 0;
    while i < plan.providers.len()
        invariant
            i <= plan.providers.len(),
            forall|j: int| 0 <= j < i ==> plan.providers@[j]@ != provider_type@,
        decreases plan.providers.len() - i,
    {
        if str_eq(plan.providers[i].as_str(), provider_type) {
            proof { assert(texts(plan.providers@)[i as int] == provider_type@); }
            return true;
        }
        i = i + 1;
    }
    proof {
        if texts(plan.providers@).contains(provider_type@) {
            let j = choose|j: int| 0 <= j < texts(plan.providers@).len() && texts(plan.providers@)[j] == provider_type@;
            assert(plan.providers@[j]@ == provider_type@);
        }
    }
    false
}

fn or_na(ip: &Option<IpAddress>) -> (r: String)
    ensures
        r@ == spec_or_na(*ip),
{
    match ip {
        Some(a) => ip_to_string(a),
        None => owned("N/A"),
    }
}

fn ip_text_opt(ip: &Option<IpAddress>) -> (r: Option<String>)
    ensures
        opt_view(r) == opt_ip_text(*ip),
{
    match ip {
        Some(a) => Some(ip_to_string(a)),
        None => None,
    }
}

fn name_tag(name: &str) -> (r: String)
    ensures
        r@ == tag(name@),
{
    owned("[").concat(name).concat("] ")
}

fn same_text(a: &Option<String>, b: &Option<String>) -> (r: bool)
    ensures
        r == (opt_view(*a) == opt_view(*b)),
{
    match (a, b) {
        (Some(x), Some(y)) => str_eq(x.as_str(), y.as_str()),
        (None, None) => true,
        _ => false,
    }
}

fn unchanged(plan: &RunPlan, p: usize, ipv4: &Option<IpAddress>, ipv6: &Option<IpAddress>) -> (r: bool)
    requires
        p < plan.profiles.len(),
    ensures
        r == spec_unchanged(*plan, p as int, *ipv4, *ipv6),
{
    proof { lemma_status_index(plan.statuses@, plan.profiles@[p as int].id@); }
    match find_status(&plan.statuses, plan.profiles[p].id.as_str()) {
        Some(i) => {
            let st = &plan.statuses[i];
            str_eq(st.status_message.as_str(), "OK")
                && same_text(&st.current_ipv4, &ip_text_opt(ipv4))
                && same_text(&st.current_ipv6, &ip_text_opt(ipv6))
        },
        None => false,
    }
}

fn after_resolve(plan: &RunPlan, p: usize, ipv4: Option<IpAddress>, ipv6: Option<IpAddress>) -> (r: (RunState, Vec<RunAction>))
    requires
        p < plan.profiles.len(),
    ensures
        (r.0, actions_view(r.1@)) == spec_after_resolve(*plan, p as int, ipv4, ipv6),
{
    let mut actions: Vec<RunAction> = Vec::new();
    if ipv4.is_none() && ipv6.is_none() {
        let msg = name_tag(plan.profiles[p].name.as_str()).concat("No IP resolved, skipping update");
        actions.push(RunAction::Log(msg));
        proof { assert(actions_view(actions@) =~= seq![ActionView::Log(spec_no_ip_msg(plan.profiles@[p as int]))]); }
        (RunState { profile: p + 1, stage: Stage::Pick }, actions)
    } else if unchanged(plan, p, &ipv4, &ipv6) {
        proof { assert(actions_view(actions@) =~= Seq::<ActionView>::empty()); }
        (RunState { profile: p + 1, stage: Stage::Pick }, actions)
    } else {
        actions.push(RunAction::Update { profile: p, ipv4, ipv6 });
        proof { assert(actions_view(actions@) =~= seq![ActionView::Update { profile: p as int, ipv4, ipv6 }]); }
        (RunState { profile: p, stage: Stage::Update { ipv4, ipv6 } }, actions)
    }
}

fn start_v6(plan: &RunPlan, p: usize, ipv4: Option<IpAddress>) -> (r: (RunState, Vec<RunAction>))
    requires
        p < plan.profiles.len(),
    ensures
        (r.0, actions_view(r.1@)) == spec_start_v6(*plan, p as int, ipv4),
{
    if plan.profiles[p].enable_ipv6 && plan.ipv6_urls.len() > 0 {
        let mut actions: Vec<RunAction> = Vec::new();
        actions.push(RunAction::Resolve { url: plan.ipv6_urls[0].clone(), version: IpVersion::IPv6 });
        proof { assert(actions_view(actions@) =~= seq![ActionView::Resolve { url: plan.ipv6_urls@[0]@, version: IpVersion::IPv6 }]); }
        (RunState { profile: p, stage: Stage::ResolveV6 { ipv4, url: 0 } }, actions)
    } else {
        after_resolve(plan, p, ipv4, None)
    }
}

fn pick(plan: &RunPlan, p: usize) -> (r: (RunState, Vec<RunAction>))
    requires
        p <= plan.profiles.len(),
    ensures
        (r.0, actions_view(r.1@)) == spec_pick(*plan, p as int),
{
    let mut actions: Vec<RunAction> = Vec::new();
    proof { assert(actions_view(actions@) =~= Seq::<ActionView>::empty()); }
    if p >= plan.profiles.len() {
        return (RunState { profile: p, stage: Stage::Done }, actions);
    }
    let prof = &plan.profiles[p];
    if !prof.enabled {
        return (RunState { profile: p + 1, stage: Stage::Pick }, actions);
    }
    if !is_known(plan, prof.provider_type.as_str()) {
        let msg = owned("Unknown provider '").concat(prof.provider_type.as_str()).concat("' for profile '").concat(prof.name.as_str()).concat("'");
        actions.push(RunAction::Log(msg));
        proof { assert(actions_view(actions@) =~= seq![ActionView::Log(spec_unknown_provider_msg(plan.profiles@[p as int]))]); }
        return (RunState { profile: p + 1, stage: Stage::Pick }, actions);
    }
    if prof.enable_ipv4 && plan.ipv4_urls.len() > 0 {
        actions.push(RunAction::Resolve { url: plan.ipv4_urls[0].clone(), version: IpVersion::IPv4 });
        proof { assert(actions_view(actions@) =~= seq![ActionView::Resolve { url: plan.ipv4_urls@[0]@, version: IpVersion::IPv4 }]); }
        return (RunState { profile: p, stage: Stage::ResolveV4 { url: 0 } }, actions);
    }
    start_v6(plan, p, None)
}

/// One step of a pass.
pub fn run_step(plan: &RunPlan, s: RunState, e: RunEvent) -> (r: (RunState, Vec<RunAction>))
    requires
        spec_state_ok(*plan, s),
    ensures
        (r.0, actions_view(r.1@)) == spec_run_step(*plan, s, e),
        spec_state_ok(*plan, r.0),
{
    let p = s.profile;
    let stage = s.stage;
    proof {
        match stage {
            Stage::Update { .. } => assert(p < plan.profiles.len()),
            _ => {},
        }
    }
    match (stage, e) {
        (Stage::Pick, RunEvent::Proceed) => pick(plan, p),
        (Stage::ResolveV4 { url }, RunEvent::Resolved(res)) => match res {
            Ok(ip) => start_v6(plan, p, Some(ip)),
            Err(err) => {
                if url < plan.ipv4_urls.len() - 1 {
                    let mut actions: Vec<RunAction> = Vec::new();
                    actions.push(RunAction::Resolve { url: plan.ipv4_urls[url + 1].clone(), version: IpVersion::IPv4 });
                    proof { assert(actions_view(actions@) =~= seq![ActionView::Resolve { url: plan.ipv4_urls@[url + 1]@, version: IpVersion::IPv4 }]); }
                    (RunState { profile: p, stage: Stage::ResolveV4 { url: url + 1 } }, actions)
                } else {
                    let msg = name_tag(plan.profiles[p].name.as_str()).concat("IPv4").concat(" resolve failed: ").concat(err.message().as_str());
                    let (n, rest) = start_v6(plan, p, None);
                    let mut actions: Vec<RunAction> = Vec::new();
                    actions.push(RunAction::Log(msg));
                    let ghost first = actions@;
                    let mut rest = rest;
                    actions.append(&mut rest);
                    proof {
                        assert(actions_view(actions@) =~= seq![ActionView::Log(spec_resolve_failed_msg(plan.profiles@[p as int], "IPv4"@, err))] + spec_start_v6(*plan, p as int, None).1);
                    }
                    (n, actions)
                }
            },
        },
        (Stage::ResolveV6 { ipv4, url }, RunEvent::Resolved(res)) => match res {
            Ok(ip) => after_resolve(plan, p, ipv4, Some(ip)),
            Err(err) => {
                if url < plan.ipv6_urls.len() - 1 {
                    let mut actions: Vec<RunAction> = Vec::new();
                    actions.push(RunAction::Resolve { url: plan.ipv6_urls[url + 1].clone(), version: IpVersion::IPv6 });
                    proof { assert(actions_view(actions@) =~= seq![ActionView::Resolve { url: plan.ipv6_urls@[url + 1]@, version: IpVersion::IPv6 }]); }
                    (RunState { profile: p, stage: Stage::ResolveV6 { ipv4, url: url + 1 } }, actions)
                } else {
                    let msg = name_tag(plan.profiles[p].name.as_str()).concat("IPv6").concat(" resolve failed: ").concat(err.message().as_str());
                    let (n, rest) = after_resolve(plan, p, ipv4, None);
                    let mut actions: Vec<RunAction> = Vec::new();
                    actions.push(RunAction::Log(msg));
                    let mut rest = rest;
                    actions.append(&mut rest);
                    proof {
                        assert(actions_view(actions@) =~= seq![ActionView::Log(spec_resolve_failed_msg(plan.profiles@[p as int], "IPv6"@, err))] + spec_after_resolve(*plan, p as int, ipv4, None).1);
                    }
                    (n, actions)
                }
            },
        },
        (Stage::Update { ipv4, ipv6 }, RunEvent::Updated(res)) => {
            let prof = &plan.profiles[p];
            let mut actions: Vec<RunAction> = Vec::new();
            match res {
                Ok(()) => {
                    let msg = match plan.style {
                        UpdateLogStyle::OneLine => name_tag(prof.name.as_str()).concat("Updated ").concat(prof.domain.as_str())
                            .concat(" \u{2014} IPv4: ").concat(or_na(&ipv4).as_str()).concat(" IPv6: ").concat(or_na(&ipv6).as_str()),
                        UpdateLogStyle::Lines => name_tag(prof.name.as_str()).concat("Updated ").concat(prof.domain.as_str())
                            .concat("\n- IPv4: ").concat(or_na(&ipv4).as_str()).concat("\n- IPv6: ").concat(or_na(&ipv6).as_str()),
                    };
                    actions.push(RunAction::Log(msg));
                    actions.push(RunAction::SetStatus {
                        profile_id: prof.id.clone(),
                        ipv4: ip_text_opt(&ipv4),
                        ipv6: ip_text_opt(&ipv6),
                        message: owned("OK"),
                    });
                },
                Err(err) => {
                    let m = err.message();
                    let msg = name_tag(prof.name.as_str()).concat("Update failed: ").concat(m.as_str());
                    actions.push(RunAction::Log(msg));
                    actions.push(RunAction::SetStatus {
                        profile_id: prof.id.clone(),
                        ipv4: ip_text_opt(&ipv4),
                        ipv6: ip_text_opt(&ipv6),
                        message: owned("Error: ").concat(m.as_str()),
                    });
                },
            }
            proof {
                assert(actions_view(actions@) =~= spec_run_step(*plan, s, e).1);
            }
            (RunState { profile: p + 1, stage: Stage::Pick }, actions)
        },
        _ => (s, Vec::new()),
    }
}

} // verus!
