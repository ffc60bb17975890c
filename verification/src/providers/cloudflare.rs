//! Cloudflare: looks the zone up by name, then finds each record of the
//! domain and creates it when missing or changes it when its address differs.

use vstd::prelude::*;
use crate::address::spec_ip_text;
use crate::models::{ConfigValue, ConfigView, IpAddress};
use crate::providers::{
    family_at, kind_text, push_pair, spec_families, unexpected, unexpected_reply, ErrorView, Expect,
    HttpMethod, HttpRequest, Listing, Payload, PayloadView, Phase, ProviderAction, ProviderError,
    Reply, RecordKind, RequestView, StepView, UpdateRun, spec_zone_name, zone_name,
};
use crate::text::{owned, str_eq};

verus! {

/// The Cloudflare provider.
pub struct CloudflareProvider;

/// The root of Cloudflare's API.
pub open spec fn cf_base() -> Seq<char> {
    "https://api.cloudflare.com/client/v4"@
}

/// The API token of the settings.
pub open spec fn cf_token(c: ConfigView) -> Option<Seq<char>> {
    c.text("api_token"@)
}

/// The request that looks a zone up by name.
pub open spec fn cf_zone_request(token: Seq<char>, zone: Seq<char>) -> RequestView {
    RequestView {
        method: HttpMethod::Get,
        url: cf_base() + "/zones"@,
        query: seq![("name"@, zone)],
        form: Seq::empty(),
        headers: Seq::empty(),
        bearer: Some(token),
        payload: PayloadView::Empty,
        expect: Expect::CloudflareZones,
    }
}

/// The URL of the DNS records of a zone.
pub open spec fn cf_records_url(zone_id: Seq<char>) -> Seq<char> {
    cf_base() + "/zones/"@ + zone_id + "/dns_records"@
}

/// The request that lists the records of a type and name.
pub open spec fn cf_find_request(token: Seq<char>, zone_id: Seq<char>, domain: Seq<char>, kind: RecordKind) -> RequestView {
    RequestView {
        method: HttpMethod::Get,
        url: cf_records_url(zone_id),
        query: seq![("type"@, kind_text(kind)), ("name"@, domain)],
        form: Seq::empty(),
        headers: Seq::empty(),
        bearer: Some(token),
        payload: PayloadView::Empty,
        expect: Expect::CloudflareRecords,
    }
}

/// The request that writes a record: creates it (no `record_id`) or changes
/// the record `record_id`; TTL automatic, not proxied.
pub open spec fn cf_write_request(token: Seq<char>, zone_id: Seq<char>, record_id: Option<Seq<char>>, domain: Seq<char>, kind: RecordKind, ip: Seq<char>) -> RequestView {
    RequestView {
        method: if record_id is Some { HttpMethod::Put } else { HttpMethod::Post },
        url: match record_id {
            Some(id) => cf_records_url(zone_id) + "/"@ + id,
            None => cf_records_url(zone_id),
        },
        query: Seq::empty(),
        form: Seq::empty(),
        headers: Seq::empty(),
        bearer: Some(token),
        payload: PayloadView::CloudflareRecord { record_type: kind_text(kind), name: domain, content: ip, ttl: 1, proxied: false },
        expect: Expect::Status,
    }
}

/// Going on with record `i`: look it up, or finish when every record is done.
pub open spec fn cf_next(run: UpdateRun, zone_id: Seq<char>, i: int) -> (Seq<char>, Phase, StepView) {
    let fams = spec_families(run.ipv4, run.ipv6);
    if i < fams.len() {
        (zone_id, Phase::Find { fam: i as usize },
         StepView::Send(cf_find_request(cf_token(run.config@).unwrap(), zone_id, run.domain@, fams[i].0)))
    } else {
        (zone_id, Phase::Done, StepView::Finish(Ok(())))
    }
}

/// How an update starts: without an API token it fails at once, otherwise it
/// looks the zone up.
pub open spec fn spec_cloudflare_start(domain: Seq<char>, config: ConfigView) -> (Phase, StepView) {
    match cf_token(config) {
        None => (Phase::Done, StepView::Finish(Err(ErrorView::Config("Missing api_token"@)))),
        Some(t) => (Phase::Zone, StepView::Send(cf_zone_request(t, spec_zone_name(domain, config)))),
    }
}

/// One step of an update: from the run and the reply to its last request, the
/// zone id, the phase and what to do next. A record is written only when it
/// is missing or holds another address.
pub open spec fn spec_cloudflare_step(run: UpdateRun, reply: Reply) -> (Seq<char>, Phase, StepView) {
    let zid = run.zone_id@;
    let fams = spec_families(run.ipv4, run.ipv6);
    if cf_token(run.config@) is None {
        (zid, Phase::Done, StepView::Finish(Err(unexpected_reply())))
    } else {
        let token = cf_token(run.config@).unwrap();
        match (run.phase, reply) {
            (Phase::Zone, Reply::Failed(m)) => (zid, Phase::Done, StepView::Finish(Err(ErrorView::Network(m@)))),
            (Phase::Zone, Reply::Undecodable(m)) => (zid, Phase::Done, StepView::Finish(Err(ErrorView::Network(m@)))),
            (Phase::Zone, Reply::Listed(Listing::Cloudflare { success, items })) =>
                if !success || items@.len() == 0 {
                    (zid, Phase::Done, StepView::Finish(Err(ErrorView::Api(
                        "Zone '"@ + spec_zone_name(run.domain@, run.config@) + "' not found or API error"@))))
                } else {
                    cf_next(run, items@[0].id@, 0)
                },
            (Phase::Find { fam }, Reply::Failed(m)) if fam < fams.len() =>
                (zid, Phase::Done, StepView::Finish(Err(ErrorView::Network(m@)))),
            (Phase::Find { fam }, Reply::Undecodable(m)) if fam < fams.len() =>
                (zid, Phase::Done, StepView::Finish(Err(ErrorView::Network(m@)))),
            (Phase::Find { fam }, Reply::Listed(Listing::Cloudflare { success, items })) if fam < fams.len() => {
                let kind = fams[fam as int].0;
                let ip = spec_ip_text(fams[fam as int].1);
                if !success {
                    (zid, Phase::Done, StepView::Finish(Err(ErrorView::Api("Failed to list DNS records"@))))
                } else if items@.len() > 0 {
                    if items@[0].value@ != ip {
                        (zid, Phase::Write { fam, create: false },
                         StepView::Send(cf_write_request(token, zid, Some(items@[0].id@), run.domain@, kind, ip)))
                    } else {
                        cf_next(run, zid, fam + 1)
                    }
                } else {
                    (zid, Phase::Write { fam, create: true },
                     StepView::Send(cf_write_request(token, zid, None, run.domain@, kind, ip)))
                }
            },
            (Phase::Write { fam, create }, Reply::Failed(m)) if fam < fams.len() =>
                (zid, Phase::Done, StepView::Finish(Err(ErrorView::Network(m@)))),
            (Phase::Write { fam, create }, Reply::Received { success, status, body }) if fam < fams.len() =>
                if !success {
                    (zid, Phase::Done, StepView::Finish(Err(ErrorView::Api(
                        (if create { "Create DNS record failed: "@ } else { "Update DNS record failed: "@ }) + body@))))
                } else {
                    cf_next(run, zid, fam + 1)
                },
            _ => (zid, Phase::Done, StepView::Finish(Err(unexpected_reply()))),
        }
    }
}

fn records_url(zone_id: &str) -> (r: String)
    ensures
        r@ == cf_records_url(zone_id@),
{
    owned("https://api.cloudflare.com/client/v4").concat("/zones/").concat(zone_id).concat("/dns_records")
}

fn find_request(token: &str, zone_id: &str, domain: &str, kind: RecordKind) -> (r: HttpRequest)
    ensures
        r@ == cf_find_request(token@, zone_id@, domain@, kind),
{
    let mut query: Vec<(String, String)> = Vec::new();
    push_pair(&mut query, "type", kind.name());
    push_pair(&mut query, "name", domain);
    let r = HttpRequest {
        method: HttpMethod::Get,
        url: records_url(zone_id),
        query,
        form: Vec::new(),
        headers: Vec::new(),
        bearer: Some(owned(token)),
        payload: Payload::Empty,
        expect: Expect::CloudflareRecords,
    };
    assert(r@ =~= cf_find_request(token@, zone_id@, domain@, kind));
    r
}

fn write_request(token: &str, zone_id: &str, record_id: Option<&str>, domain: &str, kind: RecordKind, ip: &str) -> (r: HttpRequest)
    ensures
        r@ == cf_write_request(token@, zone_id@, match record_id { Some(id) => Some(id@), None => None }, domain@, kind, ip@),
{
    let (method, url) = match record_id {
        Some(id) => (HttpMethod::Put, records_url(zone_id).concat("/").concat(id)),
        None => (HttpMethod::Post, records_url(zone_id)),
    };
    let r = HttpRequest {
        method,
        url,
        query: Vec::new(),
        form: Vec::new(),
        headers: Vec::new(),
        bearer: Some(owned(token)),
        payload: Payload::CloudflareRecord {
            record_type: owned(kind.name()),
            name: owned(domain),
            content: owned(ip),
            ttl: 1,
            proxied: false,
        },
        expect: Expect::Status,
    };
    assert(r@ =~= cf_write_request(token@, zone_id@, match record_id { Some(id) => Some(id@), None => None }, domain@, kind, ip@));
    r
}

fn next(run: UpdateRun, zone_id: String, i: usize, token: &str) -> (r: (UpdateRun, ProviderAction))
    requires
        cf_token(run.config@) == Some(token@),
    ensures
        r.0.same_job(run),
        (r.0.zone_id@, r.0.phase, r.1@) == cf_next(run, zone_id@, i as int),
{
    match family_at(&run.ipv4, &run.ipv6, i) {
        Some((kind, _)) => {
            let req = find_request(token, zone_id.as_str(), run.domain.as_str(), kind);
            (run.moved_to(zone_id, Phase::Find { fam: i }), ProviderAction::Send(req))
        },
        None => (run.moved_to(zone_id, Phase::Done), ProviderAction::Finish(Ok(()))),
    }
}

fn fail(run: UpdateRun, e: ProviderError) -> (r: (UpdateRun, ProviderAction))
    ensures
        r.0.same_job(run),
        r.0.zone_id@ == run.zone_id@,
        r.0.phase == Phase::Done,
        r.1@ == StepView::Finish(Err(e@)),
{
    let z = run.zone_id.clone();
    (run.moved_to(z, Phase::Done), ProviderAction::Finish(Err(e)))
}

fn stop(run: UpdateRun) -> (r: (UpdateRun, ProviderAction))
    ensures
        r.0.same_job(run),
        r.0.zone_id@ == run.zone_id@,
        r.0.phase == Phase::Done,
        r.1@ == StepView::Finish(Err(unexpected_reply())),
{
    let z = run.zone_id.clone();
    (run.moved_to(z, Phase::Done), unexpected())
}

impl CloudflareProvider {
    pub fn new() -> (r: Self) {
        CloudflareProvider
    }

    /// The provider's id.
    pub fn id(&self) -> (r: &'static str)
        ensures
            r@ == "cloudflare"@,
    {
        "cloudflare"
    }

    /// Starts an update of the records of `domain` to the given addresses.
    pub fn start(&self, domain: &str, ipv4: Option<IpAddress>, ipv6: Option<IpAddress>, config: &ConfigValue) -> (r: (UpdateRun, ProviderAction))
        ensures
            r.0.domain@ == domain@,
            r.0.ipv4 == ipv4,
            r.0.ipv6 == ipv6,
            r.0.config@ == config@,
            r.0.zone_id@ == Seq::<char>::empty(),
            (r.0.phase, r.1@) == spec_cloudflare_start(domain@, config@),
    {
        let run = UpdateRun { domain: owned(domain), ipv4, ipv6, config: config.clone(), zone_id: String::new(), phase: Phase::Done };
        match config.get_text("api_token") {
            None => {
                let z = String::new();
                (run.moved_to(z, Phase::Done), ProviderAction::Finish(Err(ProviderError::Config(owned("Missing api_token")))))
            },
            Some(t) => {
                let zone = zone_name(domain, config);
                let mut query: Vec<(String, String)> = Vec::new();
                push_pair(&mut query, "name", zone.as_str());
                let req = HttpRequest {
                    method: HttpMethod::Get,
                    url: owned("https://api.cloudflare.com/client/v4").concat("/zones"),
                    query,
                    form: Vec::new(),
                    headers: Vec::new(),
                    bearer: Some(t),
                    payload: Payload::Empty,
                    expect: Expect::CloudflareZones,
                };
                assert(req@ =~= cf_zone_request(cf_token(config@).unwrap(), spec_zone_name(domain@, config@)));
                let z = String::new();
                (run.moved_to(z, Phase::Zone), ProviderAction::Send(req))
            },
        }
    }

    /// Carries the update on from the reply to its last request.
    pub fn step(&self, run: UpdateRun, reply: Reply) -> (r: (UpdateRun, ProviderAction))
        ensures
            r.0.same_job(run),
            (r.0.zone_id@, r.0.phase, r.1@) == spec_cloudflare_step(run, reply),
    {
        let token = match run.config.get_text("api_token") {
            Some(t) => t,
            None => return stop(run),
        };
        match run.phase {
            Phase::Zone => match reply {
                Reply::Failed(m) => fail(run, ProviderError::Network(m)),
                Reply::Undecodable(m) => fail(run, ProviderError::Network(m)),
                Reply::Listed(Listing::Cloudflare { success, items }) => {
                    if !success || items.len() == 0 {
                        let zone = zone_name(run.domain.as_str(), &run.config);
                        let msg = owned("Zone '").concat(zone.as_str()).concat("' not found or API error");
                        fail(run, ProviderError::Api(msg))
                    } else {
                        let id = items[0].id.clone();
                        next(run, id, 0, token.as_str())
                    }
                },
                _ => stop(run),
            },
            Phase::Find { fam } => match family_at(&run.ipv4, &run.ipv6, fam) {
                None => stop(run),
                Some((kind, ip)) => match reply {
                    Reply::Failed(m) => fail(run, ProviderError::Network(m)),
                    Reply::Undecodable(m) => fail(run, ProviderError::Network(m)),
                    Reply::Listed(Listing::Cloudflare { success, items }) => {
                        if !success {
                            fail(run, ProviderError::Api(owned("Failed to list DNS records")))
                        } else if items.len() > 0 {
                            if !str_eq(items[0].value.as_str(), ip.as_str()) {
                                let req = write_request(token.as_str(), run.zone_id.as_str(), Some(items[0].id.as_str()), run.domain.as_str(), kind, ip.as_str());
                                let z = run.zone_id.clone();
                                (run.moved_to(z, Phase::Write { fam, create: false }), ProviderAction::Send(req))
                            } else {
                                let z = run.zone_id.clone();
                                next(run, z, fam + 1, token.as_str())
                            }
                        } else {
                            let req = write_request(token.as_str(), run.zone_id.as_str(), None, run.domain.as_str(), kind, ip.as_str());
                            let z = run.zone_id.clone();
                            (run.moved_to(z, Phase::Write { fam, create: true }), ProviderAction::Send(req))
                        }
                    },
                    _ => stop(run),
                },
            },
            Phase::Write { fam, create } => match family_at(&run.ipv4, &run.ipv6, fam) {
                None => stop(run),
                Some(_) => match reply {
                    Reply::Failed(m) => fail(run, ProviderError::Network(m)),
                    Reply::Received { success, status: _, body } => {
                        if !success {
                            let head = if create { owned("Create DNS record failed: ") } else { owned("Update DNS record failed: ") };
                            fail(run, ProviderError::Api(head.concat(body.as_str())))
                        } else {
                            let z = run.zone_id.clone();
                            next(run, z, fam + 1, token.as_str())
                        }
                    },
                    _ => stop(run),
                },
            },
            Phase::Done => stop(run),
        }
    }
}

/// An update never rewrites a record that is up to date: a record is written
/// only right after its lookup succeeded and found it missing (then it is
/// created) or holding another address (then that record is changed), and the
/// write sets the record to the address.
pub proof fn law_cloudflare_writes_only_on_change(run: UpdateRun, reply: Reply)
    ensures
        ({
            let n = spec_cloudflare_step(run, reply);
            let fams = spec_families(run.ipv4, run.ipv6);
            n.1 matches Phase::Write { fam, create } ==> {
                &&& run.phase == Phase::Find { fam }
                &&& fam < fams.len()
                &&& reply matches Reply::Listed(Listing::Cloudflare { success, items }) && success
                    && if create { items@.len() == 0 } else { items@.len() > 0 && items@[0].value@ != spec_ip_text(fams[fam as int].1) }
                &&& n.2 matches StepView::Send(req) && req.payload == (PayloadView::CloudflareRecord {
                    record_type: kind_text(fams[fam as int].0),
                    name: run.domain@,
                    content: spec_ip_text(fams[fam as int].1),
                    ttl: 1,
                    proxied: false,
                })
            }
        }),
{
}

/// After a record is written successfully the next record is looked up:
/// when another family remains, the listing of the records of its type and
/// of the domain is asked for; and an update ends well only once every
/// family has been handled.
pub proof fn law_cloudflare_handles_every_family(run: UpdateRun, reply: Reply)
    ensures
        ({
            let n = spec_cloudflare_step(run, reply);
            let fams = spec_families(run.ipv4, run.ipv6);
            &&& (run.phase is Write && run.phase->Write_fam + 1 < fams.len() && cf_token(run.config@) is Some
                && reply is Received && reply->Received_success) ==> {
                &&& n.1 == Phase::Find { fam: (run.phase->Write_fam + 1) as usize }
                &&& n.2 is Send
                &&& n.2->Send_0.method == HttpMethod::Get
                &&& n.2->Send_0.url == cf_base() + "/zones/"@ + run.zone_id@ + "/dns_records"@
                &&& n.2->Send_0.query == seq![
                    ("type"@, if fams[run.phase->Write_fam + 1].0 == RecordKind::A { "A"@ } else { "AAAA"@ }),
                    ("name"@, run.domain@)]
            }
            &&& n.2 == StepView::Finish(Ok(())) ==> match run.phase {
                Phase::Zone => fams.len() == 0,
                Phase::Find { fam } => fam + 1 >= fams.len(),
                Phase::Write { fam, .. } => fam + 1 >= fams.len(),
                Phase::Done => false,
            }
        }),
{
    reveal_strlit("A");
    reveal_strlit("AAAA");
}

/// Once the zone is found, the first family's record is looked up in it
/// (type `A` when an IPv4 address is given, otherwise `AAAA`), under the id
/// of the first zone listed.
pub proof fn law_cloudflare_looks_up_first_family(run: UpdateRun, reply: Reply)
    ensures
        ({
            let n = spec_cloudflare_step(run, reply);
            let fams = spec_families(run.ipv4, run.ipv6);
            (run.phase == Phase::Zone && cf_token(run.config@) is Some && fams.len() > 0
                && reply is Listed && reply->Listed_0 is Cloudflare && reply->Listed_0->Cloudflare_success
                && reply->Listed_0->Cloudflare_items@.len() > 0) ==> {
                let zid = reply->Listed_0->Cloudflare_items@[0].id@;
                &&& n.0 == zid
                &&& n.1 == Phase::Find { fam: 0 }
                &&& n.2 is Send
                &&& n.2->Send_0.url == cf_base() + "/zones/"@ + zid + "/dns_records"@
                &&& n.2->Send_0.query == seq![("type"@, if run.ipv4 is Some { "A"@ } else { "AAAA"@ }), ("name"@, run.domain@)]
            }
        }),
{
    reveal_strlit("A");
    reveal_strlit("AAAA");
}

} // verus!
