//! The DNS providers: what each sends to its API and how it reads the replies.

use vstd::prelude::*;
use crate::address::{ip_to_string, spec_ip_text};
use crate::models::{ConfigValue, ConfigView, IpAddress};
use crate::network::{parse_domain_parts, spec_domain_parts};
use crate::text::{owned, str_eq};
use crate::providers::aliyun::spec_timestamp_text;

pub mod aliyun;
pub mod cloudflare;
pub mod dnspod;
pub mod generic;
pub mod godaddy;
pub mod namecheap;

verus! {

/// Why a provider could not update a record.
#[derive(Debug, Clone)]
pub enum ProviderError {
    /// The request could not be sent or its reply not read; the transport's message.
    Network(String),
    Api(String),
    Config(String),
    Other(String),
}

/// The message of a provider error.
pub open spec fn spec_provider_message(e: ProviderError) -> Seq<char> {
    match e {
        ProviderError::Network(m) => "Network error: "@ + m@,
        ProviderError::Api(m) => "API error: "@ + m@,
        ProviderError::Config(m) => "Configuration error: "@ + m@,
        ProviderError::Other(m) => "Other error: "@ + m@,
    }
}

impl ProviderError {
    /// The message of this error.
    pub fn message(&self) -> (r: String)
        ensures
            r@ == spec_provider_message(*self),
    {
        match self {
            ProviderError::Network(m) => owned("Network error: ").concat(m.as_str()),
            ProviderError::Api(m) => owned("API error: ").concat(m.as_str()),
            ProviderError::Config(m) => owned("Configuration error: ").concat(m.as_str()),
            ProviderError::Other(m) => owned("Other error: ").concat(m.as_str()),
        }
    }
}

/// What a provider error holds.
pub enum ErrorView {
    Network(Seq<char>),
    Api(Seq<char>),
    Config(Seq<char>),
    Other(Seq<char>),
}

impl View for ProviderError {
    type V = ErrorView;

    open spec fn view(&self) -> ErrorView {
        match self {
            ProviderError::Network(m) => ErrorView::Network(m@),
            ProviderError::Api(m) => ErrorView::Api(m@),
            ProviderError::Config(m) => ErrorView::Config(m@),
            ProviderError::Other(m) => ErrorView::Other(m@),
        }
    }
}

/// The DNS record type that holds an address.
#[derive(Debug, Clone, Copy, PartialEq, Eq, Structural)]
pub enum RecordKind {
    /// An IPv4 address.
    A,
    /// An IPv6 address.
    Aaaa,
}

/// The name of a record type.
pub open spec fn kind_text(k: RecordKind) -> Seq<char> {
    match k {
        RecordKind::A => "A"@,
        RecordKind::Aaaa => "AAAA"@,
    }
}

impl RecordKind {
    /// The name of this record type: `A` or `AAAA`.
    pub fn name(&self) -> (r: &'static str)
        ensures
            r@ == kind_text(*self),
    {
        match self {
            RecordKind::A => "A",
            RecordKind::Aaaa => "AAAA",
        }
    }
}

/// The records a provider sets, in order: `A` for the IPv4 address, then
/// `AAAA` for the IPv6 address, each when that address is given.
pub open spec fn spec_families(ipv4: Option<IpAddress>, ipv6: Option<IpAddress>) -> Seq<(RecordKind, IpAddress)> {
    let a = match ipv4 {
        Some(ip) => seq![(RecordKind::A, ip)],
        None => Seq::empty(),
    };
    let b = match ipv6 {
        Some(ip) => seq![(RecordKind::Aaaa, ip)],
        None => Seq::empty(),
    };
    a + b
}

/// The `i`-th record to set, with its address in text form.
pub fn family_at(ipv4: &Option<IpAddress>, ipv6: &Option<IpAddress>, i: usize) -> (r: Option<(RecordKind, String)>)
    ensures
        i < spec_families(*ipv4, *ipv6).len() ==> (r matches Some(f) && f.0 == spec_families(*ipv4, *ipv6)[i as int].0
            && f.1@ == spec_ip_text(spec_families(*ipv4, *ipv6)[i as int].1)),
        i >= spec_families(*ipv4, *ipv6).len() ==> r is None,
{
    let first = match ipv4 {
        Some(ip) => Some((RecordKind::A, ip)),
        None => None,
    };
    let fam = if i == 0 {
        match first {
            Some(f) => Some(f),
            None => match ipv6 {
                Some(ip) => Some((RecordKind::Aaaa, ip)),
                None => None,
            },
        }
    } else if i == 1 && first.is_some() {
        match ipv6 {
            Some(ip) => Some((RecordKind::Aaaa, ip)),
            None => None,
        }
    } else {
        None
    };
    match fam {
        Some((k, ip)) => Some((k, ip_to_string(ip))),
        None => None,
    }
}

/// The HTTP method of a request.
#[derive(Debug, Clone, Copy, PartialEq, Eq, Structural)]
pub enum HttpMethod {
    Get,
    Post,
    Put,
    Patch,
    Delete,
}

/// One DNS record in the body of a GoDaddy request.
#[derive(Debug)]
pub struct GodaddyRecord {
    pub record_type: String,
    pub name: String,
    pub data: String,
    pub ttl: i64,
}

/// What a request carries in its body.
#[derive(Debug)]
pub enum Payload {
    /// No body.
    Empty,
    /// A text body, sent with the header `Content-Type: application/json`.
    Text(String),
    /// A Cloudflare DNS record as a JSON object
    /// `{"type", "name", "content", "ttl", "proxied"}`.
    CloudflareRecord { record_type: String, name: String, content: String, ttl: u32, proxied: bool },
    /// GoDaddy DNS records as a JSON array of `{"type", "name", "data", "ttl"}`.
    GodaddyRecords(Vec<GodaddyRecord>),
}

/// What the body of a reply is read as.
#[derive(Debug, Clone, Copy, PartialEq, Eq, Structural)]
pub enum Expect {
    /// Only the status and the text of the body.
    Status,
    /// Cloudflare's `{"success", "result": [{"id", "name"}]}` listing zones.
    CloudflareZones,
    /// Cloudflare's `{"success", "result": [{"id", "name", "type", "content"}]}` listing records.
    CloudflareRecords,
    /// Aliyun's `{"records": {"record": [{"record_id", "value"}]}}`.
    AliyunRecords,
    /// DNSPod's `{"status": {"code", "message"}, "records": [{"id", "value"}]}`.
    DnspodRecords,
    /// DNSPod's `{"status": {"code", "message"}}`.
    DnspodStatus,
}

/// An HTTP request a provider asks to be sent.
#[derive(Debug)]
pub struct HttpRequest {
    pub method: HttpMethod,
    pub url: String,
    /// Query parameters, appended to the URL in order.
    pub query: Vec<(String, String)>,
    /// Form fields, sent url-encoded as the body in order; none when empty.
    pub form: Vec<(String, String)>,
    /// Headers, set in order; one whose name or value is not valid in HTTP is
    /// left out, and a later one replaces an earlier one of the same name.
    pub headers: Vec<(String, String)>,
    /// A bearer token for the `Authorization` header.
    pub bearer: Option<String>,
    pub payload: Payload,
    pub expect: Expect,
}

/// The views of a list of text pairs.
pub open spec fn pairs_view(v: Seq<(String, String)>) -> Seq<(Seq<char>, Seq<char>)> {
    v.map_values(|p: (String, String)| (p.0@, p.1@))
}

/// What a GoDaddy record holds.
pub struct GodaddyRecordView {
    pub record_type: Seq<char>,
    pub name: Seq<char>,
    pub data: Seq<char>,
    pub ttl: i64,
}

/// What a body holds.
pub enum PayloadView {
    Empty,
    Text(Seq<char>),
    CloudflareRecord { record_type: Seq<char>, name: Seq<char>, content: Seq<char>, ttl: u32, proxied: bool },
    GodaddyRecords(Seq<GodaddyRecordView>),
}

impl View for GodaddyRecord {
    type V = GodaddyRecordView;

    open spec fn view(&self) -> GodaddyRecordView {
        GodaddyRecordView { record_type: self.record_type@, name: self.name@, data: self.data@, ttl: self.ttl }
    }
}

impl View for Payload {
    type V = PayloadView;

    open spec fn view(&self) -> PayloadView {
        match self {
            Payload::Empty => PayloadView::Empty,
            Payload::Text(t) => PayloadView::Text(t@),
            Payload::CloudflareRecord { record_type, name, content, ttl, proxied } => PayloadView::CloudflareRecord {
                record_type: record_type@,
                name: name@,
                content: content@,
                ttl: *ttl,
                proxied: *proxied,
            },
            Payload::GodaddyRecords(v) => PayloadView::GodaddyRecords(v@.map_values(|g: GodaddyRecord| g@)),
        }
    }
}

/// What a request holds.
#[verifier::ext_equal]
pub struct RequestView {
    pub method: HttpMethod,
    pub url: Seq<char>,
    pub query: Seq<(Seq<char>, Seq<char>)>,
    pub form: Seq<(Seq<char>, Seq<char>)>,
    pub headers: Seq<(Seq<char>, Seq<char>)>,
    pub bearer: Option<Seq<char>>,
    pub payload: PayloadView,
    pub expect: Expect,
}

pub open spec fn opt_text(s: Option<String>) -> Option<Seq<char>> {
    match s {
        Some(t) => Some(t@),
        None => None,
    }
}

impl View for HttpRequest {
    type V = RequestView;

    open spec fn view(&self) -> RequestView {
        RequestView {
            method: self.method,
            url: self.url@,
            query: pairs_view(self.query@),
            form: pairs_view(self.form@),
            headers: pairs_view(self.headers@),
            bearer: opt_text(self.bearer),
            payload: self.payload@,
            expect: self.expect,
        }
    }
}

/// A record a listing reply holds: its id and its value (the address a DNS
/// record points to, the name of a zone).
#[derive(Debug)]
pub struct FoundRecord {
    pub id: String,
    pub value: String,
}

/// A reply body read as one of the listings of `Expect`.
#[derive(Debug)]
pub enum Listing {
    /// Cloudflare's envelope: whether the call succeeded, and the listed items.
    Cloudflare { success: bool, items: Vec<FoundRecord> },
    /// Aliyun's records: the outer `records` and the inner `record`, each when present.
    Aliyun { records: Option<Option<Vec<FoundRecord>>> },
    /// DNSPod's status and, when present, its records.
    Dnspod { code: String, message: String, records: Option<Vec<FoundRecord>> },
}

/// What came of a request.
#[derive(Debug)]
pub enum Reply {
    /// The request could not be sent or its reply not received; the transport's message.
    Failed(String),
    /// The reply came but its body could not be read as expected; the reader's message.
    Undecodable(String),
    /// The reply's status, whether it is a success, and the text of its body
    /// (empty when the body could not be read).
    Received { success: bool, status: String, body: String },
    /// The reply's body, read as the listing that was expected.
    Listed(Listing),
}

/// What a provider asks for next.
#[derive(Debug)]
pub enum ProviderAction {
    /// Send this request and report what came of it.
    Send(HttpRequest),
    /// The update is over, with this outcome.
    Finish(Result<(), ProviderError>),
}

/// What a provider's next step holds.
pub enum StepView {
    Send(RequestView),
    Finish(Result<(), ErrorView>),
}

pub open spec fn result_view(r: Result<(), ProviderError>) -> Result<(), ErrorView> {
    match r {
        Ok(()) => Ok(()),
        Err(e) => Err(e@),
    }
}

impl View for ProviderAction {
    type V = StepView;

    open spec fn view(&self) -> StepView {
        match self {
            ProviderAction::Send(r) => StepView::Send(r@),
            ProviderAction::Finish(r) => StepView::Finish(result_view(*r)),
        }
    }
}

/// Appends the pair `(k, v)` to a list of text pairs.
pub fn push_pair(v: &mut Vec<(String, String)>, k: &str, val: &str)
    ensures
        pairs_view(final(v)@) == pairs_view(old(v)@).push((k@, val@)),
{
    let ghost before = v@;
    v.push((owned(k), owned(val)));
    proof {
        assert(pairs_view(v@) =~= pairs_view(before).push((k@, val@)));
    }
}

/// The zone: `zone_name` of the settings, or the zone part of the domain.
pub open spec fn spec_zone_name(domain: Seq<char>, c: ConfigView) -> Seq<char> {
    match c.text("zone_name"@) {
        Some(z) => z,
        None => spec_domain_parts(domain).0,
    }
}

/// The sub-domain: `sub_domain` of the settings, or the sub-domain part of the domain.
pub open spec fn spec_sub_name(domain: Seq<char>, c: ConfigView) -> Seq<char> {
    match c.text("sub_domain"@) {
        Some(z) => z,
        None => spec_domain_parts(domain).1,
    }
}

/// The zone of the records to set.
pub fn zone_name(domain: &str, config: &ConfigValue) -> (r: String)
    ensures
        r@ == spec_zone_name(domain@, config@),
{
    match config.get_text("zone_name") {
        Some(z) => z,
        None => parse_domain_parts(domain).0,
    }
}

/// The sub-domain of the records to set.
pub fn sub_name(domain: &str, config: &ConfigValue) -> (r: String)
    ensures
        r@ == spec_sub_name(domain@, config@),
{
    match config.get_text("sub_domain") {
        Some(z) => z,
        None => parse_domain_parts(domain).1,
    }
}

/// Where an update stands.
#[derive(Debug, Clone, Copy, PartialEq, Eq, Structural)]
pub enum Phase {
    /// Waiting for the zone to be looked up.
    Zone,
    /// Waiting for record `fam` of `spec_families` to be looked up.
    Find { fam: usize },
    /// Waiting for record `fam` to be created (`create`) or changed.
    Write { fam: usize, create: bool },
    /// Nothing more to do.
    Done,
}

/// An update of the records of one domain by a provider: what it updates,
/// with which settings, and where it stands.
#[derive(Debug)]
pub struct UpdateRun {
    pub domain: String,
    pub ipv4: Option<IpAddress>,
    pub ipv6: Option<IpAddress>,
    pub config: ConfigValue,
    /// The zone's id, once it is known.
    pub zone_id: String,
    pub phase: Phase,
}

impl UpdateRun {
    /// Both runs update the same records with the same settings.
    pub open spec fn same_job(self, other: UpdateRun) -> bool {
        &&& self.domain@ == other.domain@
        &&& self.ipv4 == other.ipv4
        &&& self.ipv6 == other.ipv6
        &&& self.config@ == other.config@
    }

    /// The run of the same job in another phase.
    pub fn moved_to(self, zone_id: String, phase: Phase) -> (r: UpdateRun)
        ensures
            r.same_job(self),
            r.zone_id@ == zone_id@,
            r.phase == phase,
    {
        UpdateRun { domain: self.domain, ipv4: self.ipv4, ipv6: self.ipv6, config: self.config, zone_id, phase }
    }
}

/// The error of a reply that does not fit the request that was sent.
pub open spec fn unexpected_reply() -> ErrorView {
    ErrorView::Other("unexpected reply"@)
}

/// Reports a reply that does not fit the request that was sent.
pub fn unexpected() -> (r: ProviderAction)
    ensures
        r@ == StepView::Finish(Err(unexpected_reply())),
{
    ProviderAction::Finish(Err(ProviderError::Other(owned("unexpected reply"))))
}

/// The ids of the providers the client can update.
pub open spec fn spec_provider_ids() -> Seq<Seq<char>> {
    seq!["aliyun"@, "cloudflare"@, "dnspod"@, "generic"@, "godaddy"@, "namecheap"@]
}

/// The ids of the providers the client can update.
pub fn build_providers() -> (r: Vec<String>)
    ensures
        r@.map_values(|s: String| s@) == spec_provider_ids(),
{
    let mut v: Vec<String> = Vec::new();
    v.push(owned(aliyun::AliyunProvider::new().id()));
    v.push(owned(cloudflare::CloudflareProvider::new().id()));
    v.push(owned(dnspod::DnspodProvider::new().id()));
    v.push(owned(generic::GenericHttpProvider::new().id()));
    v.push(owned(godaddy::GodaddyProvider::new().id()));
    v.push(owned(namecheap::NamecheapProvider::new().id()));
    assert(v@.map_values(|s: String| s@) =~= spec_provider_ids());
    v
}

/// How an update by the provider `ptype` starts, an Aliyun call stamped with
/// `ts` and `nonce`; `None` for an unknown provider.
pub open spec fn spec_start_update(ptype: Seq<char>, domain: Seq<char>, ipv4: Option<IpAddress>, ipv6: Option<IpAddress>, c: ConfigView, ts: Seq<char>, nonce: Seq<char>) -> Option<(Phase, StepView)> {
    if ptype == "aliyun"@ {
        Some(aliyun::spec_aliyun_start(domain, ipv4, ipv6, c, ts, nonce))
    } else if ptype == "cloudflare"@ {
        Some(cloudflare::spec_cloudflare_start(domain, c))
    } else if ptype == "dnspod"@ {
        Some(dnspod::spec_dnspod_start(domain, ipv4, ipv6, c))
    } else if ptype == "generic"@ {
        Some(generic::spec_generic_start(domain, ipv4, ipv6, c))
    } else if ptype == "godaddy"@ {
        Some(godaddy::spec_godaddy_start(domain, ipv4, ipv6, c))
    } else if ptype == "namecheap"@ {
        Some(namecheap::spec_namecheap_start(domain, ipv4, c))
    } else {
        None
    }
}

/// One step of an update by the provider `ptype`, an Aliyun call stamped with
/// `ts` and `nonce`: the zone id, the phase and what to do next.
pub open spec fn spec_step_update(ptype: Seq<char>, run: UpdateRun, reply: Reply, ts: Seq<char>, nonce: Seq<char>) -> (Seq<char>, Phase, StepView) {
    let z = run.zone_id@;
    if ptype == "aliyun"@ {
        let n = aliyun::spec_aliyun_step(run, reply, ts, nonce);
        (z, n.0, n.1)
    } else if ptype == "cloudflare"@ {
        cloudflare::spec_cloudflare_step(run, reply)
    } else if ptype == "dnspod"@ {
        let n = dnspod::spec_dnspod_step(run, reply);
        (z, n.0, n.1)
    } else if ptype == "generic"@ {
        (z, Phase::Done, generic::spec_generic_step(run, reply))
    } else if ptype == "godaddy"@ {
        let n = godaddy::spec_godaddy_step(run, reply);
        (z, n.0, n.1)
    } else if ptype == "namecheap"@ {
        (z, Phase::Done, namecheap::spec_namecheap_step(run, reply))
    } else {
        (z, Phase::Done, StepView::Finish(Err(unexpected_reply())))
    }
}

/// Starts an update of the records of `domain` by the provider `ptype`;
/// `None` when no provider has that id.
pub fn start_update(ptype: &str, domain: &str, ipv4: Option<IpAddress>, ipv6: Option<IpAddress>, config: &ConfigValue) -> (r: Option<(UpdateRun, ProviderAction)>)
    ensures
        r is None <==> !spec_provider_ids().contains(ptype@),
        r matches Some(x) ==> {
            &&& x.0.domain@ == domain@
            &&& x.0.ipv4 == ipv4
            &&& x.0.ipv6 == ipv6
            &&& x.0.config@ == config@
            &&& exists|secs: i64, nonce: Seq<char>| Some((x.0.phase, x.1@)) == spec_start_update(ptype@, domain@, ipv4, ipv6, config@, spec_timestamp_text(secs), nonce)
        },
{
    proof {
        reveal_strlit("aliyun");
        reveal_strlit("cloudflare");
        reveal_strlit("dnspod");
        reveal_strlit("generic");
        reveal_strlit("godaddy");
        reveal_strlit("namecheap");
        assert(spec_provider_ids()[0] == "aliyun"@);
        assert(spec_provider_ids()[1] == "cloudflare"@);
        assert(spec_provider_ids()[2] == "dnspod"@);
        assert(spec_provider_ids()[3] == "generic"@);
        assert(spec_provider_ids()[4] == "godaddy"@);
        assert(spec_provider_ids()[5] == "namecheap"@);
    }
    if str_eq(ptype, "aliyun") {
        let x = aliyun::AliyunProvider::new().start(domain, ipv4, ipv6, config);
        proof {
            let (secs, nonce) = choose|secs: i64, nonce: Seq<char>| (x.0.phase, x.1@) == aliyun::spec_aliyun_start(domain@, ipv4, ipv6, config@, spec_timestamp_text(secs), nonce);
            assert(Some((x.0.phase, x.1@)) == spec_start_update(ptype@, domain@, ipv4, ipv6, config@, spec_timestamp_text(secs), nonce));
        }
        Some(x)
    } else if str_eq(ptype, "cloudflare") {
        let x = cloudflare::CloudflareProvider::new().start(domain, ipv4, ipv6, config);
        assert(Some((x.0.phase, x.1@)) == spec_start_update(ptype@, domain@, ipv4, ipv6, config@, spec_timestamp_text(0), Seq::empty()));
        Some(x)
    } else if str_eq(ptype, "dnspod") {
        let x = dnspod::DnspodProvider::new().start(domain, ipv4, ipv6, config);
        assert(Some((x.0.phase, x.1@)) == spec_start_update(ptype@, domain@, ipv4, ipv6, config@, spec_timestamp_text(0), Seq::empty()));
        Some(x)
    } else if str_eq(ptype, "generic") {
        let x = generic::GenericHttpProvider::new().start(domain, ipv4, ipv6, config);
        assert(Some((x.0.phase, x.1@)) == spec_start_update(ptype@, domain@, ipv4, ipv6, config@, spec_timestamp_text(0), Seq::empty()));
        Some(x)
    } else if str_eq(ptype, "godaddy") {
        let x = godaddy::GodaddyProvider::new().start(domain, ipv4, ipv6, config);
        assert(Some((x.0.phase, x.1@)) == spec_start_update(ptype@, domain@, ipv4, ipv6, config@, spec_timestamp_text(0), Seq::empty()));
        Some(x)
    } else if str_eq(ptype, "namecheap") {
        let x = namecheap::NamecheapProvider::new().start(domain, ipv4, ipv6, config);
        assert(Some((x.0.phase, x.1@)) == spec_start_update(ptype@, domain@, ipv4, ipv6, config@, spec_timestamp_text(0), Seq::empty()));
        Some(x)
    } else {
        proof {
            assert(!spec_provider_ids().contains(ptype@)) by {
                if spec_provider_ids().contains(ptype@) {
                    let i = choose|i: int| 0 <= i < spec_provider_ids().len() && spec_provider_ids()[i] == ptype@;
                }
            }
        }
        None
    }
}

/// Carries an update by the provider `ptype` on from the reply to its last request.
pub fn step_update(ptype: &str, run: UpdateRun, reply: Reply) -> (r: (UpdateRun, ProviderAction))
    ensures
        r.0.same_job(run),
        exists|secs: i64, nonce: Seq<char>| (r.0.zone_id@, r.0.phase, r.1@) == spec_step_update(ptype@, run, reply, spec_timestamp_text(secs), nonce),
{
    if str_eq(ptype, "aliyun") {
        let ghost (r0, e0) = (run, reply);
        let x = aliyun::AliyunProvider::new().step(run, reply);
        proof {
            let (secs, nonce) = choose|secs: i64, nonce: Seq<char>| (x.0.phase, x.1@) == aliyun::spec_aliyun_step(r0, e0, spec_timestamp_text(secs), nonce);
            assert((x.0.zone_id@, x.0.phase, x.1@) == spec_step_update(ptype@, r0, e0, spec_timestamp_text(secs), nonce));
        }
        x
    } else if str_eq(ptype, "cloudflare") {
        let ghost (r0, e0) = (run, reply);
        let x = cloudflare::CloudflareProvider::new().step(run, reply);
        assert((x.0.zone_id@, x.0.phase, x.1@) == spec_step_update(ptype@, r0, e0, spec_timestamp_text(0), Seq::empty()));
        x
    } else if str_eq(ptype, "dnspod") {
        let ghost (r0, e0) = (run, reply);
        let x = dnspod::DnspodProvider::new().step(run, reply);
        assert((x.0.zone_id@, x.0.phase, x.1@) == spec_step_update(ptype@, r0, e0, spec_timestamp_text(0), Seq::empty()));
        x
    } else if str_eq(ptype, "generic") {
        let ghost (r0, e0) = (run, reply);
        let x = generic::GenericHttpProvider::new().step(run, reply);
        assert((x.0.zone_id@, x.0.phase, x.1@) == spec_step_update(ptype@, r0, e0, spec_timestamp_text(0), Seq::empty()));
        x
    } else if str_eq(ptype, "godaddy") {
        let ghost (r0, e0) = (run, reply);
        let x = godaddy::GodaddyProvider::new().step(run, reply);
        assert((x.0.zone_id@, x.0.phase, x.1@) == spec_step_update(ptype@, r0, e0, spec_timestamp_text(0), Seq::empty()));
        x
    } else if str_eq(ptype, "namecheap") {
        let ghost (r0, e0) = (run, reply);
        let x = namecheap::NamecheapProvider::new().step(run, reply);
        assert((x.0.zone_id@, x.0.phase, x.1@) == spec_step_update(ptype@, r0, e0, spec_timestamp_text(0), Seq::empty()));
        x
    } else {
        let z = run.zone_id.clone();
        let ghost (r0, e0) = (run, reply);
        let x = (run.moved_to(z, Phase::Done), unexpected());
        assert((x.0.zone_id@, x.0.phase, x.1@) == spec_step_update(ptype@, r0, e0, spec_timestamp_text(0), Seq::empty()));
        x
    }
}

/// How far an update still has to go from a phase: each request moves it
/// to a phase of lower rank, so an update sends at most six requests.
pub open spec fn phase_rank(p: Phase) -> int {
    match p {
        Phase::Zone => 6,
        Phase::Find { fam } => 5 - 2 * fam,
        Phase::Write { fam, create } => 4 - 2 * fam,
        Phase::Done => 0,
    }
}

/// Every update comes to an end: a step that sends a request leaves the run
/// in a phase of lower rank that is not the end, and a step that finishes
/// leaves it done.
pub proof fn law_updates_progress(ptype: Seq<char>, run: UpdateRun, reply: Reply, ts: Seq<char>, nonce: Seq<char>)
    ensures
        ({
            let n = spec_step_update(ptype, run, reply, ts, nonce);
            &&& n.2 is Send ==> 0 < phase_rank(n.1) < phase_rank(run.phase)
            &&& n.2 is Finish ==> n.1 == Phase::Done
        }),
{
}

/// An update starts in a phase of rank at most six, or is over at once.
pub proof fn law_updates_start(ptype: Seq<char>, domain: Seq<char>, ipv4: Option<IpAddress>, ipv6: Option<IpAddress>, c: ConfigView, ts: Seq<char>, nonce: Seq<char>)
    ensures
        spec_start_update(ptype, domain, ipv4, ipv6, c, ts, nonce) matches Some(n) ==> {
            &&& n.1 is Send ==> 0 < phase_rank(n.0) <= 6
            &&& n.1 is Finish ==> n.0 == Phase::Done
        },
{
}

} // verus!
