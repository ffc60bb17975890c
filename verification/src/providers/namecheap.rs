//! Namecheap: the dynamic DNS update URL, which sets the A record of one host
//! and leaves the other records alone. It has no AAAA records.

use vstd::prelude::*;
use crate::address::spec_ip_text;
use crate::models::{ConfigValue, ConfigView, IpAddress};
use crate::providers::{
    push_pair, spec_sub_name, spec_zone_name, sub_name, unexpected, unexpected_reply, zone_name, ErrorView,
    Expect, HttpMethod, HttpRequest, Payload, PayloadView, Phase, ProviderAction, ProviderError, Reply,
    RequestView, StepView, UpdateRun,
};
use crate::address::ip_to_string;
use crate::text::{contains, owned, spec_contains};

verus! {

/// The Namecheap provider.
pub struct NamecheapProvider;

/// The request that sets the A record of `host` in `domain` to `ip`.
pub open spec fn namecheap_request(domain: Seq<char>, host: Seq<char>, password: Seq<char>, ip: Seq<char>) -> RequestView {
    RequestView {
        method: HttpMethod::Get,
        url: "https://dynamicdns.park-your-domain.com/update"@,
        query: seq![("host"@, host), ("domain"@, domain), ("password"@, password), ("ip"@, ip)],
        form: Seq::empty(),
        headers: Seq::empty(),
        bearer: None,
        payload: PayloadView::Empty,
        expect: Expect::Status,
    }
}

/// How an update starts: without the dynamic DNS password it fails at once;
/// with an IPv4 address it sets the A record; an IPv6 address is left aside.
pub open spec fn spec_namecheap_start(domain: Seq<char>, ipv4: Option<IpAddress>, c: ConfigView) -> (Phase, StepView) {
    match (c.text("api_key"@), ipv4) {
        (None, _) => (Phase::Done, StepView::Finish(Err(ErrorView::Config("Missing api_key (DDNS password)"@)))),
        (Some(p), Some(ip)) => (Phase::Write { fam: 0, create: false }, StepView::Send(namecheap_request(
            spec_zone_name(domain, c), spec_sub_name(domain, c), p, spec_ip_text(ip)))),
        (Some(_), None) => (Phase::Done, StepView::Finish(Ok(()))),
    }
}

/// What the text of a reply means: `<ErrCount>0</ErrCount>` is a success, an
/// `<errors>` or `<Err` element a failure, anything else a success.
pub open spec fn spec_namecheap_outcome(text: Seq<char>) -> Result<(), ErrorView> {
    if spec_contains(text, "<ErrCount>0</ErrCount>"@) {
        Ok(())
    } else if spec_contains(text, "<errors>"@) || spec_contains(text, "<Err"@) {
        Err(ErrorView::Api("Namecheap DDNS update failed: "@ + text))
    } else {
        Ok(())
    }
}

/// One step of an update: the reply to the update request decides the outcome.
pub open spec fn spec_namecheap_step(run: UpdateRun, reply: Reply) -> StepView {
    match (run.phase, reply) {
        (Phase::Write { fam: 0, create: _ }, Reply::Failed(m)) => StepView::Finish(Err(ErrorView::Network(m@))),
        (Phase::Write { fam: 0, create: _ }, Reply::Received { success, status, body }) => StepView::Finish(spec_namecheap_outcome(body@)),
        _ => StepView::Finish(Err(unexpected_reply())),
    }
}

/// The outcome of an update from the text of its reply.
pub fn namecheap_outcome(text: &str) -> (r: Result<(), ProviderError>)
    ensures
        match (r, spec_namecheap_outcome(text@)) {
            (Ok(()), Ok(())) => true,
            (Err(e), Err(v)) => e@ == v,
            _ => false,
        },
{
    if contains(text, "<ErrCount>0</ErrCount>") {
        Ok(())
    } else if contains(text, "<errors>") || contains(text, "<Err") {
        Err(ProviderError::Api(owned("Namecheap DDNS update failed: ").concat(text)))
    } else {
        Ok(())
    }
}

impl NamecheapProvider {
    pub fn new() -> (r: Self) {
        NamecheapProvider
    }

    /// The provider's id.
    pub fn id(&self) -> (r: &'static str)
        ensures
            r@ == "namecheap"@,
    {
        "namecheap"
    }

    /// Starts an update of the A record of `domain`.
    pub fn start(&self, domain: &str, ipv4: Option<IpAddress>, ipv6: Option<IpAddress>, config: &ConfigValue) -> (r: (UpdateRun, ProviderAction))
        ensures
            r.0.domain@ == domain@,
            r.0.ipv4 == ipv4,
            r.0.ipv6 == ipv6,
            r.0.config@ == config@,
            r.0.zone_id@ == Seq::<char>::empty(),
            (r.0.phase, r.1@) == spec_namecheap_start(domain@, ipv4, config@),
    {
        let mk = |phase: Phase| -> (u: UpdateRun)
            ensures
                u.domain@ == domain@,
                u.ipv4 == ipv4,
                u.ipv6 == ipv6,
                u.config@ == config@,
                u.zone_id@ == Seq::<char>::empty(),
                u.phase == phase,
        {
            UpdateRun { domain: owned(domain), ipv4, ipv6, config: config.clone(), zone_id: String::new(), phase }
        };
        match config.get_text("api_key") {
            None => (mk(Phase::Done), ProviderAction::Finish(Err(ProviderError::Config(owned("Missing api_key (DDNS password)"))))),
            Some(password) => match ipv4 {
                Some(ip) => {
                    let zone = zone_name(domain, config);
                    let host = sub_name(domain, config);
                    let ip_text = ip_to_string(&ip);
                    let mut query: Vec<(String, String)> = Vec::new();
                    push_pair(&mut query, "host", host.as_str());
                    push_pair(&mut query, "domain", zone.as_str());
                    push_pair(&mut query, "password", password.as_str());
                    push_pair(&mut query, "ip", ip_text.as_str());
                    let req = HttpRequest {
                        method: HttpMethod::Get,
                        url: owned("https://dynamicdns.park-your-domain.com/update"),
                        query,
                        form: Vec::new(),
                        headers: Vec::new(),
                        bearer: None,
                        payload: Payload::Empty,
                        expect: Expect::Status,
                    };
                    assert(req@ =~= namecheap_request(zone@, host@, password@, ip_text@));
                    (mk(Phase::Write { fam: 0, create: false }), ProviderAction::Send(req))
                },
                None => (mk(Phase::Done), ProviderAction::Finish(Ok(()))),
            },
        }
    }

    /// Finishes the update from the reply to its request.
    pub fn step(&self, run: UpdateRun, reply: Reply) -> (r: (UpdateRun, ProviderAction))
        ensures
            r.0.same_job(run),
            r.0.zone_id@ == run.zone_id@,
            r.0.phase == Phase::Done,
            r.1@ == spec_namecheap_step(run, reply),
    {
        let z = run.zone_id.clone();
        let first = match run.phase {
            Phase::Write { fam, create: _ } => fam == 0,
            _ => false,
        };
        let action = if !first {
            unexpected()
        } else {
            match reply {
                Reply::Failed(m) => ProviderAction::Finish(Err(ProviderError::Network(m))),
                Reply::Received { success: _, status: _, body } => ProviderAction::Finish(namecheap_outcome(body.as_str())),
                _ => unexpected(),
            }
        };
        (run.moved_to(z, Phase::Done), action)
    }
}

} // verus!
