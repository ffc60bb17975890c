//! DNSPod: finds each record of the sub-domain on a line, then creates it
//! when missing or modifies it when its address differs.

use vstd::prelude::*;
use crate::address::spec_ip_text;
use crate::models::{ConfigValue, ConfigView, IpAddress};
use crate::providers::{
    family_at, kind_text, push_pair, spec_families, spec_sub_name, spec_zone_name, sub_name,
    unexpected, unexpected_reply, zone_name, ErrorView, Expect, FoundRecord, HttpMethod, HttpRequest, Listing,
    Payload, PayloadView, Phase, ProviderAction, ProviderError, RecordKind, Reply, RequestView, StepView,
    UpdateRun,
};
use crate::text::{owned, str_eq};

verus! {

/// The DNSPod provider.
pub struct DnspodProvider;

/// A form posted to a DNSPod API call.
pub open spec fn dnspod_request(call: Seq<char>, form: Seq<(Seq<char>, Seq<char>)>, expect: Expect) -> RequestView {
    RequestView {
        method: HttpMethod::Post,
        url: "https://dnsapi.cn/"@ + call,
        query: Seq::empty(),
        form,
        headers: Seq::empty(),
        bearer: None,
        payload: PayloadView::Empty,
        expect,
    }
}

/// The call that lists the records of a sub-domain, type and line.
pub open spec fn dnspod_find_request(token: Seq<char>, zone: Seq<char>, sub: Seq<char>, kind: RecordKind, line: Seq<char>) -> RequestView {
    dnspod_request("Record.List"@, seq![
        ("login_token"@, token),
        ("format"@, "json"@),
        ("domain"@, zone),
        ("sub_domain"@, sub),
        ("record_type"@, kind_text(kind)),
        ("record_line"@, line),
    ], Expect::DnspodRecords)
}

/// The call that creates a record, with a TTL of 600 seconds.
pub open spec fn dnspod_create_request(token: Seq<char>, zone: Seq<char>, sub: Seq<char>, kind: RecordKind, ip: Seq<char>, line: Seq<char>) -> RequestView {
    dnspod_request("Record.Create"@, seq![
        ("login_token"@, token),
        ("format"@, "json"@),
        ("domain"@, zone),
        ("sub_domain"@, sub),
        ("record_type"@, kind_text(kind)),
        ("value"@, ip),
        ("record_line"@, line),
        ("ttl"@, "600"@),
    ], Expect::DnspodStatus)
}

/// The call that modifies the record `rid`.
pub open spec fn dnspod_modify_request(token: Seq<char>, zone: Seq<char>, rid: Seq<char>, sub: Seq<char>, kind: RecordKind, ip: Seq<char>, line: Seq<char>) -> RequestView {
    dnspod_request("Record.Modify"@, seq![
        ("login_token"@, token),
        ("format"@, "json"@),
        ("domain"@, zone),
        ("record_id"@, rid),
        ("sub_domain"@, sub),
        ("record_type"@, kind_text(kind)),
        ("value"@, ip),
        ("record_line"@, line),
    ], Expect::DnspodStatus)
}

/// The line of the records: `record_line` of the settings, or the default line.
pub open spec fn dnspod_line(c: ConfigView) -> Seq<char> {
    match c.text("record_line"@) {
        Some(l) => l,
        None => "\u{9ed8}\u{8ba4}"@,
    }
}

/// Going on with record `i`: look it up, or finish when every record is done.
pub open spec fn dnspod_next(domain: Seq<char>, ipv4: Option<IpAddress>, ipv6: Option<IpAddress>, c: ConfigView, i: int) -> (Phase, StepView) {
    let fams = spec_families(ipv4, ipv6);
    if i < fams.len() {
        (Phase::Find { fam: i as usize }, StepView::Send(dnspod_find_request(c.text("login_token"@).unwrap(),
            spec_zone_name(domain, c), spec_sub_name(domain, c), fams[i].0, dnspod_line(c))))
    } else {
        (Phase::Done, StepView::Finish(Ok(())))
    }
}

/// How an update starts: without a login token it fails at once, otherwise
/// it looks the first record up.
pub open spec fn spec_dnspod_start(domain: Seq<char>, ipv4: Option<IpAddress>, ipv6: Option<IpAddress>, c: ConfigView) -> (Phase, StepView) {
    if c.text("login_token"@) is None {
        (Phase::Done, StepView::Finish(Err(ErrorView::Config("Missing login_token (format: id,token)"@))))
    } else {
        dnspod_next(domain, ipv4, ipv6, c, 0)
    }
}

/// The first record of a listing, when there is one.
pub open spec fn dnspod_first(records: Option<Vec<FoundRecord>>) -> Option<(Seq<char>, Seq<char>)> {
    match records {
        Some(list) => if list@.len() > 0 { Some((list@[0].id@, list@[0].value@)) } else { None },
        None => None,
    }
}

/// One step of an update: a record is written only when it is missing (the
/// listing succeeds without it, or reports code `-15`) or holds another address.
pub open spec fn spec_dnspod_step(run: UpdateRun, reply: Reply) -> (Phase, StepView) {
    let c = run.config@;
    let fams = spec_families(run.ipv4, run.ipv6);
    if c.text("login_token"@) is None {
        (Phase::Done, StepView::Finish(Err(unexpected_reply())))
    } else {
        let token = c.text("login_token"@).unwrap();
        let zone = spec_zone_name(run.domain@, c);
        let sub = spec_sub_name(run.domain@, c);
        let line = dnspod_line(c);
        match (run.phase, reply) {
            (Phase::Find { fam }, Reply::Failed(m)) if fam < fams.len() =>
                (Phase::Done, StepView::Finish(Err(ErrorView::Network(m@)))),
            (Phase::Find { fam }, Reply::Undecodable(m)) if fam < fams.len() =>
                (Phase::Done, StepView::Finish(Err(ErrorView::Api("Failed to parse response: "@ + m@)))),
            (Phase::Find { fam }, Reply::Listed(Listing::Dnspod { code, message, records })) if fam < fams.len() => {
                let kind = fams[fam as int].0;
                let ip = spec_ip_text(fams[fam as int].1);
                if code@ != "1"@ && code@ != "-15"@ {
                    (Phase::Done, StepView::Finish(Err(ErrorView::Api("DNSPod API error: "@ + code@ + " - "@ + message@))))
                } else {
                    let first = if code@ == "1"@ { dnspod_first(records) } else { None };
                    match first {
                        Some((rid, value)) => if value != ip {
                            (Phase::Write { fam, create: false },
                             StepView::Send(dnspod_modify_request(token, zone, rid, sub, kind, ip, line)))
                        } else {
                            dnspod_next(run.domain@, run.ipv4, run.ipv6, c, fam + 1)
                        },
                        None => (Phase::Write { fam, create: true },
                            StepView::Send(dnspod_create_request(token, zone, sub, kind, ip, line))),
                    }
                }
            },
            (Phase::Write { fam, create }, Reply::Failed(m)) if fam < fams.len() =>
                (Phase::Done, StepView::Finish(Err(ErrorView::Network(m@)))),
            (Phase::Write { fam, create }, Reply::Undecodable(m)) if fam < fams.len() =>
                (Phase::Done, StepView::Finish(Err(ErrorView::Api("Failed to parse response: "@ + m@)))),
            (Phase::Write { fam, create }, Reply::Listed(Listing::Dnspod { code, message, records })) if fam < fams.len() =>
                if code@ != "1"@ {
                    (Phase::Done, StepView::Finish(Err(ErrorView::Api(
                        (if create { "DNSPod create record error: "@ } else { "DNSPod update record error: "@ })
                        + code@ + " - "@ + message@))))
                } else {
                    dnspod_next(run.domain@, run.ipv4, run.ipv6, c, fam + 1)
                },
            _ => (Phase::Done, StepView::Finish(Err(unexpected_reply()))),
        }
    }
}

fn line_of(config: &ConfigValue) -> (r: String)
    ensures
        r@ == dnspod_line(config@),
{
    match config.get_text("record_line") {
        Some(l) => l,
        None => owned("\u{9ed8}\u{8ba4}"),
    }
}

fn find_request(token: &str, zone: &str, sub: &str, kind: RecordKind, line: &str) -> (r: HttpRequest)
    ensures
        r@ == dnspod_find_request(token@, zone@, sub@, kind, line@),
{
    let mut form: Vec<(String, String)> = Vec::new();
    push_pair(&mut form, "login_token", token);
    push_pair(&mut form, "format", "json");
    push_pair(&mut form, "domain", zone);
    push_pair(&mut form, "sub_domain", sub);
    push_pair(&mut form, "record_type", kind.name());
    push_pair(&mut form, "record_line", line);
    let r = HttpRequest {
        method: HttpMethod::Post,
        url: owned("https://dnsapi.cn/").concat("Record.List"),
        query: Vec::new(),
        form,
        headers: Vec::new(),
        bearer: None,
        payload: Payload::Empty,
        expect: Expect::DnspodRecords,
    };
    assert(r@ =~= dnspod_find_request(token@, zone@, sub@, kind, line@));
    r
}

fn write_request(token: &str, zone: &str, record_id: Option<&str>, sub: &str, kind: RecordKind, ip: &str, line: &str) -> (r: HttpRequest)
    ensures
        record_id is None ==> r@ == dnspod_create_request(token@, zone@, sub@, kind, ip@, line@),
        record_id matches Some(rid) ==> r@ == dnspod_modify_request(token@, zone@, rid@, sub@, kind, ip@, line@),
{
    let mut form: Vec<(String, String)> = Vec::new();
    push_pair(&mut form, "login_token", token);
    push_pair(&mut form, "format", "json");
    push_pair(&mut form, "domain", zone);
    match record_id {
        Some(rid) => push_pair(&mut form, "record_id", rid),
        None => {},
    }
    push_pair(&mut form, "sub_domain", sub);
    push_pair(&mut form, "record_type", kind.name());
    push_pair(&mut form, "value", ip);
    push_pair(&mut form, "record_line", line);
    let call = match record_id {
        Some(_) => "Record.Modify",
        None => {
            push_pair(&mut form, "ttl", "600");
            "Record.Create"
        },
    };
    let r = HttpRequest {
        method: HttpMethod::Post,
        url: owned("https://dnsapi.cn/").concat(call),
        query: Vec::new(),
        form,
        headers: Vec::new(),
        bearer: None,
        payload: Payload::Empty,
        expect: Expect::DnspodStatus,
    };
    match record_id {
        Some(rid) => assert(r@ =~= dnspod_modify_request(token@, zone@, rid@, sub@, kind, ip@, line@)),
        None => assert(r@ =~= dnspod_create_request(token@, zone@, sub@, kind, ip@, line@)),
    }
    r
}

fn next(run: UpdateRun, i: usize) -> (r: (UpdateRun, ProviderAction))
    requires
        run.config@.text("login_token"@) is Some,
    ensures
        r.0.same_job(run),
        r.0.zone_id@ == run.zone_id@,
        (r.0.phase, r.1@) == dnspod_next(run.domain@, run.ipv4, run.ipv6, run.config@, i as int),
{
    let z = run.zone_id.clone();
    match family_at(&run.ipv4, &run.ipv6, i) {
        Some((kind, _)) => {
            let token = run.config.get_text("login_token").unwrap();
            let zone = zone_name(run.domain.as_str(), &run.config);
            let sub = sub_name(run.domain.as_str(), &run.config);
            let line = line_of(&run.config);
            let req = find_request(token.as_str(), zone.as_str(), sub.as_str(), kind, line.as_str());
            (run.moved_to(z, Phase::Find { fam: i }), ProviderAction::Send(req))
        },
        None => (run.moved_to(z, Phase::Done), ProviderAction::Finish(Ok(()))),
    }
}

fn fail(run: UpdateRun, e: ProviderError) -> (r: (UpdateRun, ProviderAction))
    ensures
        r.0.same_job(run),
        r.0.zone_id@ == run.zone_id@,
        r.0.phase == Phase::Done,
        r.1@ == StepView::Finish(Err(e@)),
{
    let z = run.zone_id.clone();
    (run.moved_to(z, Phase::Done), ProviderAction::Finish(Err(e)))
}

fn stop(run: UpdateRun) -> (r: (UpdateRun, ProviderAction))
    ensures
        r.0.same_job(run),
        r.0.zone_id@ == run.zone_id@,
        r.0.phase == Phase::Done,
        r.1@ == StepView::Finish(Err(unexpected_reply())),
{
    let z = run.zone_id.clone();
    (run.moved_to(z, Phase::Done), unexpected())
}

/// `code - message`, as DNSPod errors are reported.
fn code_and_message(head: &str, code: &str, message: &str) -> (r: String)
    ensures
        r@ == head@ + code@ + " - "@ + message@,
{
    owned(head).concat(code).concat(" - ").concat(message)
}

impl DnspodProvider {
    pub fn new() -> (r: Self) {
        DnspodProvider
    }

    /// The provider's id.
    pub fn id(&self) -> (r: &'static str)
        ensures
            r@ == "dnspod"@,
    {
        "dnspod"
    }

    /// Starts an update of the records of `domain` to the given addresses.
    pub fn start(&self, domain: &str, ipv4: Option<IpAddress>, ipv6: Option<IpAddress>, config: &ConfigValue) -> (r: (UpdateRun, ProviderAction))
        ensures
            r.0.domain@ == domain@,
            r.0.ipv4 == ipv4,
            r.0.ipv6 == ipv6,
            r.0.config@ == config@,
            r.0.zone_id@ == Seq::<char>::empty(),
            (r.0.phase, r.1@) == spec_dnspod_start(domain@, ipv4, ipv6, config@),
    {
        let run = UpdateRun { domain: owned(domain), ipv4, ipv6, config: config.clone(), zone_id: String::new(), phase: Phase::Done };
        if config.get_text("login_token").is_none() {
            fail(run, ProviderError::Config(owned("Missing login_token (format: id,token)")))
        } else {
            next(run, 0)
        }
    }

    /// Carries the update on from the reply to its last call.
    pub fn step(&self, run: UpdateRun, reply: Reply) -> (r: (UpdateRun, ProviderAction))
        ensures
            r.0.same_job(run),
            r.0.zone_id@ == run.zone_id@,
            (r.0.phase, r.1@) == spec_dnspod_step(run, reply),
    {
        let token = match run.config.get_text("login_token") {
            Some(t) => t,
            None => return stop(run),
        };
        match run.phase {
            Phase::Find { fam } => match family_at(&run.ipv4, &run.ipv6, fam) {
                None => stop(run),
                Some((kind, ip)) => match reply {
                    Reply::Failed(m) => fail(run, ProviderError::Network(m)),
                    Reply::Undecodable(m) => fail(run, ProviderError::Api(owned("Failed to parse response: ").concat(m.as_str()))),
                    Reply::Listed(Listing::Dnspod { code, message, records }) => {
                        let ok = str_eq(code.as_str(), "1");
                        if !ok && !str_eq(code.as_str(), "-15") {
                            fail(run, ProviderError::Api(code_and_message("DNSPod API error: ", code.as_str(), message.as_str())))
                        } else {
                            let zone = zone_name(run.domain.as_str(), &run.config);
                            let sub = sub_name(run.domain.as_str(), &run.config);
                            let line = line_of(&run.config);
                            let first: Option<(String, String)> = if ok {
                                match &records {
                                    Some(list) => if list.len() > 0 {
                                        Some((list[0].id.clone(), list[0].value.clone()))
                                    } else {
                                        None
                                    },
                                    None => None,
                                }
                            } else {
                                None
                            };
                            match first {
                                Some((rid, value)) => {
                                    if !str_eq(value.as_str(), ip.as_str()) {
                                        let req = write_request(token.as_str(), zone.as_str(), Some(rid.as_str()), sub.as_str(), kind, ip.as_str(), line.as_str());
                                        let z = run.zone_id.clone();
                                        (run.moved_to(z, Phase::Write { fam, create: false }), ProviderAction::Send(req))
                                    } else {
                                        next(run, fam + 1)
                                    }
                                },
                                None => {
                                    let req = write_request(token.as_str(), zone.as_str(), None, sub.as_str(), kind, ip.as_str(), line.as_str());
                                    let z = run.zone_id.clone();
                                    (run.moved_to(z, Phase::Write { fam, create: true }), ProviderAction::Send(req))
                                },
                            }
                        }
                    },
                    _ => stop(run),
                },
            },
            Phase::Write { fam, create } => match family_at(&run.ipv4, &run.ipv6, fam) {
                None => stop(run),
                Some(_) => match reply {
                    Reply::Failed(m) => fail(run, ProviderError::Network(m)),
                    Reply::Undecodable(m) => fail(run, ProviderError::Api(owned("Failed to parse response: ").concat(m.as_str()))),
                    Reply::Listed(Listing::Dnspod { code, message, records: _ }) => {
                        if !str_eq(code.as_str(), "1") {
                            let head = if create { "DNSPod create record error: " } else { "DNSPod update record error: " };
                            fail(run, ProviderError::Api(code_and_message(head, code.as_str(), message.as_str())))
                        } else {
                            next(run, fam + 1)
                        }
                    },
                    _ => stop(run),
                },
            },
            _ => stop(run),
        }
    }
}

/// An update never rewrites a record that is up to date: a record is written
/// only right after its lookup found it missing (then it is created) or
/// holding another address (then that record is modified), and the write sets
/// the record to the address.
pub proof fn law_dnspod_writes_only_on_change(run: UpdateRun, reply: Reply)
    ensures
        ({
            let n = spec_dnspod_step(run, reply);
            let fams = spec_families(run.ipv4, run.ipv6);
            n.0 matches Phase::Write { fam, create } ==> {
                &&& run.phase == Phase::Find { fam }
                &&& fam < fams.len()
                &&& reply matches Reply::Listed(Listing::Dnspod { code, message, records })
                    && if create { code@ == "-15"@ || (code@ == "1"@ && dnspod_first(records) is None) } else {
                        code@ == "1"@ && (dnspod_first(records) matches Some(found) && found.1 != spec_ip_text(fams[fam as int].1))
                    }
                &&& n.1 matches StepView::Send(req) && req.form.contains(("value"@, spec_ip_text(fams[fam as int].1)))
                    && req.form.contains(("record_type"@, kind_text(fams[fam as int].0)))
            }
        }),
{
    let n = spec_dnspod_step(run, reply);
    let fams = spec_families(run.ipv4, run.ipv6);
    if let Phase::Write { fam, create } = n.0 {
        if let StepView::Send(req) = n.1 {
            let ip = spec_ip_text(fams[fam as int].1);
            let kind = kind_text(fams[fam as int].0);
            if create {
                assert(req.form[5] == ("value"@, ip));
                assert(req.form[4] == ("record_type"@, kind));
            } else {
                assert(req.form[6] == ("value"@, ip));
                assert(req.form[5] == ("record_type"@, kind));
            }
        }
    }
}

/// After a record is written successfully (code `1`) the next record is
/// looked up: when another family remains, `Record.List` is called for its
/// type; and an update ends well only once every family has been handled.
pub proof fn law_dnspod_handles_every_family(run: UpdateRun, reply: Reply)
    ensures
        ({
            let n = spec_dnspod_step(run, reply);
            let fams = spec_families(run.ipv4, run.ipv6);
            &&& (run.phase is Write && run.phase->Write_fam + 1 < fams.len() && run.config@.text("login_token"@) is Some
                && reply is Listed && reply->Listed_0 is Dnspod && reply->Listed_0->Dnspod_code@ == "1"@) ==> {
                &&& n.0 == Phase::Find { fam: (run.phase->Write_fam + 1) as usize }
                &&& n.1 is Send
                &&& n.1->Send_0.url == "https://dnsapi.cn/"@ + "Record.List"@
                &&& n.1->Send_0.form.contains(("record_type"@,
                    if fams[run.phase->Write_fam + 1].0 == RecordKind::A { "A"@ } else { "AAAA"@ }))
                &&& n.1->Send_0.form.contains(("sub_domain"@, spec_sub_name(run.domain@, run.config@)))
            }
            &&& n.1 == StepView::Finish(Ok(())) ==> match run.phase {
                Phase::Find { fam } => fam + 1 >= fams.len(),
                Phase::Write { fam, .. } => fam + 1 >= fams.len(),
                _ => false,
            }
        }),
{
    reveal_strlit("A");
    reveal_strlit("AAAA");
    let n = spec_dnspod_step(run, reply);
    let fams = spec_families(run.ipv4, run.ipv6);
    if run.phase is Write && run.phase->Write_fam + 1 < fams.len() && run.config@.text("login_token"@) is Some
        && reply is Listed && reply->Listed_0 is Dnspod && reply->Listed_0->Dnspod_code@ == "1"@ {
        let form = n.1->Send_0.form;
        assert(form[4] == ("record_type"@, kind_text(fams[run.phase->Write_fam + 1].0)));
        assert(form[3] == ("sub_domain"@, spec_sub_name(run.domain@, run.config@)));
    }
}

/// An update with a login token starts by listing the first family's record
/// (type `A` when an IPv4 address is given, otherwise `AAAA`), and ends well
/// at once only when there is no address to set.
pub proof fn law_dnspod_starts_with_first_family(domain: Seq<char>, ipv4: Option<IpAddress>, ipv6: Option<IpAddress>, c: ConfigView)
    ensures
        ({
            let n = spec_dnspod_start(domain, ipv4, ipv6, c);
            let fams = spec_families(ipv4, ipv6);
            &&& (c.text("login_token"@) is Some && fams.len() > 0) ==> {
                &&& n.0 == Phase::Find { fam: 0 }
                &&& n.1 is Send
                &&& n.1->Send_0.url == "https://dnsapi.cn/"@ + "Record.List"@
                &&& n.1->Send_0.form.contains(("record_type"@, if ipv4 is Some { "A"@ } else { "AAAA"@ }))
            }
            &&& n.1 == StepView::Finish(Ok(())) ==> fams.len() == 0
        }),
{
    reveal_strlit("A");
    reveal_strlit("AAAA");
    let n = spec_dnspod_start(domain, ipv4, ipv6, c);
    let fams = spec_families(ipv4, ipv6);
    if c.text("login_token"@) is Some && fams.len() > 0 {
        assert(n.1->Send_0.form[4] == ("record_type"@, kind_text(fams[0].0)));
    }
}

} // verus!
