//! GoDaddy: replaces the records of a name in the zone with one record
//! holding the address.

use vstd::prelude::*;
use crate::address::spec_ip_text;
use crate::models::{ConfigValue, ConfigView, IpAddress};
use crate::providers::{
    family_at, kind_text, push_pair, spec_families, spec_sub_name, spec_zone_name, sub_name, unexpected,
    unexpected_reply, zone_name, ErrorView, Expect, GodaddyRecord, GodaddyRecordView, HttpMethod, HttpRequest,
    Payload, PayloadView, Phase, ProviderAction, ProviderError, RecordKind, Reply, RequestView, StepView,
    UpdateRun,
};
use crate::text::{owned, str_eq};

verus! {

/// The GoDaddy provider.
pub struct GodaddyProvider;

/// The `Authorization` header: `sso-key key:secret`.
pub open spec fn spec_auth_header(key: Seq<char>, secret: Seq<char>) -> Seq<char> {
    "sso-key "@ + key + ":"@ + secret
}

/// The `Authorization` header for an API key and secret.
pub fn build_auth_header(key: &str, secret: &str) -> (r: String)
    ensures
        r@ == spec_auth_header(key@, secret@),
{
    owned("sso-key ").concat(key).concat(":").concat(secret)
}

/// The record name: `@` for the zone itself (a sub-domain `@` or empty),
/// otherwise the sub-domain. The zone and sub-domain split the domain at its
/// second-to-last dot, as `spec_domain_parts` does.
pub open spec fn godaddy_record_name(sub: Seq<char>) -> Seq<char> {
    if sub == "@"@ || sub.len() == 0 { "@"@ } else { sub }
}

/// The request that replaces the records of a type and name with one record
/// holding the address, with a TTL of 3600 seconds.
pub open spec fn godaddy_set_request(key: Seq<char>, secret: Seq<char>, zone: Seq<char>, name: Seq<char>, kind: RecordKind, ip: Seq<char>) -> RequestView {
    RequestView {
        method: HttpMethod::Put,
        url: "https://api.godaddy.com/v1/domains/"@ + zone + "/records/"@ + kind_text(kind) + "/"@ + name,
        query: Seq::empty(),
        form: Seq::empty(),
        headers: seq![("Authorization"@, spec_auth_header(key, secret)), ("Content-Type"@, "application/json"@)],
        bearer: None,
        payload: PayloadView::GodaddyRecords(seq![GodaddyRecordView { record_type: kind_text(kind), name, data: ip, ttl: 3600 }]),
        expect: Expect::Status,
    }
}

/// Going on with record `i`: set it, or finish when every record is done.
pub open spec fn godaddy_next(domain: Seq<char>, ipv4: Option<IpAddress>, ipv6: Option<IpAddress>, c: ConfigView, i: int) -> (Phase, StepView) {
    let fams = spec_families(ipv4, ipv6);
    if i < fams.len() {
        (Phase::Write { fam: i as usize, create: false }, StepView::Send(godaddy_set_request(
            c.text("key"@).unwrap(), c.text("secret"@).unwrap(), spec_zone_name(domain, c),
            godaddy_record_name(spec_sub_name(domain, c)), fams[i].0, spec_ip_text(fams[i].1))))
    } else {
        (Phase::Done, StepView::Finish(Ok(())))
    }
}

/// How an update starts: without a key or a secret it fails at once,
/// otherwise it sets the first record.
pub open spec fn spec_godaddy_start(domain: Seq<char>, ipv4: Option<IpAddress>, ipv6: Option<IpAddress>, c: ConfigView) -> (Phase, StepView) {
    if c.text("key"@) is None {
        (Phase::Done, StepView::Finish(Err(ErrorView::Config("Missing key"@))))
    } else if c.text("secret"@) is None {
        (Phase::Done, StepView::Finish(Err(ErrorView::Config("Missing secret"@))))
    } else {
        godaddy_next(domain, ipv4, ipv6, c, 0)
    }
}

/// One step of an update: after a record is set, the next one.
pub open spec fn spec_godaddy_step(run: UpdateRun, reply: Reply) -> (Phase, StepView) {
    let c = run.config@;
    let fams = spec_families(run.ipv4, run.ipv6);
    if c.text("key"@) is None || c.text("secret"@) is None {
        (Phase::Done, StepView::Finish(Err(unexpected_reply())))
    } else {
        match (run.phase, reply) {
            (Phase::Write { fam, create }, Reply::Failed(m)) if fam < fams.len() =>
                (Phase::Done, StepView::Finish(Err(ErrorView::Network(m@)))),
            (Phase::Write { fam, create }, Reply::Received { success, status, body }) if fam < fams.len() =>
                if !success {
                    (Phase::Done, StepView::Finish(Err(ErrorView::Api("GoDaddy set record failed: "@ + body@))))
                } else {
                    godaddy_next(run.domain@, run.ipv4, run.ipv6, c, fam + 1)
                },
            _ => (Phase::Done, StepView::Finish(Err(unexpected_reply()))),
        }
    }
}

fn set_request(key: &str, secret: &str, zone: &str, name: &str, kind: RecordKind, ip: &str) -> (r: HttpRequest)
    ensures
        r@ == godaddy_set_request(key@, secret@, zone@, name@, kind, ip@),
{
    let auth = build_auth_header(key, secret);
    let mut headers: Vec<(String, String)> = Vec::new();
    push_pair(&mut headers, "Authorization", auth.as_str());
    push_pair(&mut headers, "Content-Type", "application/json");
    let mut records: Vec<GodaddyRecord> = Vec::new();
    records.push(GodaddyRecord { record_type: owned(kind.name()), name: owned(name), data: owned(ip), ttl: 3600 });
    let r = HttpRequest {
        method: HttpMethod::Put,
        url: owned("https://api.godaddy.com/v1/domains/").concat(zone).concat("/records/").concat(kind.name()).concat("/").concat(name),
        query: Vec::new(),
        form: Vec::new(),
        headers,
        bearer: None,
        payload: Payload::GodaddyRecords(records),
        expect: Expect::Status,
    };
    assert(r@.payload == PayloadView::GodaddyRecords(seq![GodaddyRecordView { record_type: kind_text(kind), name: name@, data: ip@, ttl: 3600 }])) by {
        if let Payload::GodaddyRecords(v) = &r.payload {
            assert(v@.map_values(|g: GodaddyRecord| g@) =~= seq![GodaddyRecordView { record_type: kind_text(kind), name: name@, data: ip@, ttl: 3600 }]);
        }
    }
    assert(r@ =~= godaddy_set_request(key@, secret@, zone@, name@, kind, ip@));
    r
}

fn record_name(sub: String) -> (r: String)
    ensures
        r@ == godaddy_record_name(sub@),
{
    if str_eq(sub.as_str(), "@") || sub.as_str().unicode_len() == 0 {
        owned("@")
    } else {
        sub
    }
}

fn next(run: UpdateRun, i: usize) -> (r: (UpdateRun, ProviderAction))
    requires
        run.config@.text("key"@) is Some,
        run.config@.text("secret"@) is Some,
    ensures
        r.0.same_job(run),
        r.0.zone_id@ == run.zone_id@,
        (r.0.phase, r.1@) == godaddy_next(run.domain@, run.ipv4, run.ipv6, run.config@, i as int),
{
    let z = run.zone_id.clone();
    match family_at(&run.ipv4, &run.ipv6, i) {
        Some((kind, ip)) => {
            let key = run.config.get_text("key").unwrap();
            let secret = run.config.get_text("secret").unwrap();
            let zone = zone_name(run.domain.as_str(), &run.config);
            let name = record_name(sub_name(run.domain.as_str(), &run.config));
            let req = set_request(key.as_str(), secret.as_str(), zone.as_str(), name.as_str(), kind, ip.as_str());
            (run.moved_to(z, Phase::Write { fam: i, create: false }), ProviderAction::Send(req))
        },
        None => (run.moved_to(z, Phase::Done), ProviderAction::Finish(Ok(()))),
    }
}

fn fail(run: UpdateRun, e: ProviderError) -> (r: (UpdateRun, ProviderAction))
    ensures
        r.0.same_job(run),
        r.0.zone_id@ == run.zone_id@,
        r.0.phase == Phase::Done,
        r.1@ == StepView::Finish(Err(e@)),
{
    let z = run.zone_id.clone();
    (run.moved_to(z, Phase::Done), ProviderAction::Finish(Err(e)))
}

fn stop(run: UpdateRun) -> (r: (UpdateRun, ProviderAction))
    ensures
        r.0.same_job(run),
        r.0.zone_id@ == run.zone_id@,
        r.0.phase == Phase::Done,
        r.1@ == StepView::Finish(Err(unexpected_reply())),
{
    let z = run.zone_id.clone();
    (run.moved_to(z, Phase::Done), unexpected())
}

impl GodaddyProvider {
    pub fn new() -> (r: Self) {
        GodaddyProvider
    }

    /// The provider's id.
    pub fn id(&self) -> (r: &'static str)
        ensures
            r@ == "godaddy"@,
    {
        "godaddy"
    }

    /// Starts an update of the records of `domain` to the given addresses.
    pub fn start(&self, domain: &str, ipv4: Option<IpAddress>, ipv6: Option<IpAddress>, config: &ConfigValue) -> (r: (UpdateRun, ProviderAction))
        ensures
            r.0.domain@ == domain@,
            r.0.ipv4 == ipv4,
            r.0.ipv6 == ipv6,
            r.0.config@ == config@,
            r.0.zone_id@ == Seq::<char>::empty(),
            (r.0.phase, r.1@) == spec_godaddy_start(domain@, ipv4, ipv6, config@),
    {
        let run = UpdateRun { domain: owned(domain), ipv4, ipv6, config: config.clone(), zone_id: String::new(), phase: Phase::Done };
        if config.get_text("key").is_none() {
            fail(run, ProviderError::Config(owned("Missing key")))
        } else if config.get_text("secret").is_none() {
            fail(run, ProviderError::Config(owned("Missing secret")))
        } else {
            next(run, 0)
        }
    }

    /// Carries the update on from the reply to its last request.
    pub fn step(&self, run: UpdateRun, reply: Reply) -> (r: (UpdateRun, ProviderAction))
        ensures
            r.0.same_job(run),
            r.0.zone_id@ == run.zone_id@,
            (r.0.phase, r.1@) == spec_godaddy_step(run, reply),
    {
        if run.config.get_text("key").is_none() || run.config.get_text("secret").is_none() {
            return stop(run);
        }
        match run.phase {
            Phase::Write { fam, create: _ } => match family_at(&run.ipv4, &run.ipv6, fam) {
                None => stop(run),
                Some(_) => match reply {
                    Reply::Failed(m) => fail(run, ProviderError::Network(m)),
                    Reply::Received { success, status: _, body } => {
                        if !success {
                            fail(run, ProviderError::Api(owned("GoDaddy set record failed: ").concat(body.as_str())))
                        } else {
                            next(run, fam + 1)
                        }
                    },
                    _ => stop(run),
                },
            },
            _ => stop(run),
        }
    }
}

/// Every record of the update is set in turn: after a record is set
/// successfully and another family remains, that family's record is set
/// (type `A` for the IPv4 address, `AAAA` for the IPv6 address, holding its
/// address); and an update ends well only once every family has been set.
pub proof fn law_godaddy_sets_every_family(run: UpdateRun, reply: Reply)
    ensures
        ({
            let n = spec_godaddy_step(run, reply);
            let fams = spec_families(run.ipv4, run.ipv6);
            let c = run.config@;
            &&& (run.phase is Write && run.phase->Write_fam + 1 < fams.len() && c.text("key"@) is Some && c.text("secret"@) is Some
                && reply is Received && reply->Received_success) ==> {
                let i = run.phase->Write_fam + 1;
                let t = if fams[i].0 == RecordKind::A { "A"@ } else { "AAAA"@ };
                &&& n.0 == Phase::Write { fam: i as usize, create: false }
                &&& n.1 is Send
                &&& n.1->Send_0.method == HttpMethod::Put
                &&& n.1->Send_0.url == "https://api.godaddy.com/v1/domains/"@ + spec_zone_name(run.domain@, c) + "/records/"@ + t
                    + "/"@ + godaddy_record_name(spec_sub_name(run.domain@, c))
                &&& n.1->Send_0.payload == PayloadView::GodaddyRecords(seq![GodaddyRecordView {
                    record_type: t, name: godaddy_record_name(spec_sub_name(run.domain@, c)), data: spec_ip_text(fams[i].1), ttl: 3600 }])
            }
            &&& n.1 == StepView::Finish(Ok(())) ==> (run.phase is Write && run.phase->Write_fam + 1 >= fams.len())
        }),
{
    reveal_strlit("A");
    reveal_strlit("AAAA");
}

/// An update with a key and a secret starts by setting the first family's
/// record (type `A` when an IPv4 address is given, otherwise `AAAA`) to its
/// address, and ends well at once only when there is no address to set.
pub proof fn law_godaddy_starts_with_first_family(domain: Seq<char>, ipv4: Option<IpAddress>, ipv6: Option<IpAddress>, c: ConfigView)
    ensures
        ({
            let n = spec_godaddy_start(domain, ipv4, ipv6, c);
            let fams = spec_families(ipv4, ipv6);
            let t = if ipv4 is Some { "A"@ } else { "AAAA"@ };
            &&& (c.text("key"@) is Some && c.text("secret"@) is Some && fams.len() > 0) ==> {
                &&& n.0 == Phase::Write { fam: 0, create: false }
                &&& n.1 is Send
                &&& n.1->Send_0.payload == PayloadView::GodaddyRecords(seq![GodaddyRecordView {
                    record_type: t, name: godaddy_record_name(spec_sub_name(domain, c)), data: spec_ip_text(fams[0].1), ttl: 3600 }])
            }
            &&& n.1 == StepView::Finish(Ok(())) ==> fams.len() == 0
        }),
{
    reveal_strlit("A");
    reveal_strlit("AAAA");
}

} // verus!
