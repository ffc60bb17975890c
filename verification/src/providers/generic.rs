//! A provider that calls a user-defined HTTP endpoint.

use vstd::prelude::*;
use crate::address::{ip_to_string, spec_ip_text};
use crate::models::{ConfigValue, ConfigView, FieldView, IpAddress, JsonField, JsonLeaf, LeafView, mview};
use crate::providers::{
    pairs_view, unexpected, unexpected_reply, ErrorView, Expect, HttpMethod, HttpRequest, Payload, PayloadView,
    Phase, ProviderAction, ProviderError, Reply, RequestView, StepView, UpdateRun,
};
use crate::text::{owned, replace_all, spec_replace, str_eq};

verus! {

/// The text of an optional address; empty when absent.
pub open spec fn spec_opt_ip_text(ip: Option<IpAddress>) -> Seq<char> {
    match ip {
        Some(a) => spec_ip_text(a),
        None => Seq::empty(),
    }
}

/// A template with `{domain}`, then `{ipv4}`, then `{ipv6}` filled in.
pub open spec fn spec_render_template(t: Seq<char>, domain: Seq<char>, ipv4: Option<IpAddress>, ipv6: Option<IpAddress>) -> Seq<char> {
    spec_replace(
        spec_replace(spec_replace(t, "{domain}"@, domain), "{ipv4}"@, spec_opt_ip_text(ipv4)),
        "{ipv6}"@,
        spec_opt_ip_text(ipv6),
    )
}

fn opt_ip_text(ip: &Option<IpAddress>) -> (r: String)
    ensures
        r@ == spec_opt_ip_text(*ip),
{
    match ip {
        Some(a) => ip_to_string(a),
        None => String::new(),
    }
}

/// Fills the placeholders `{domain}`, `{ipv4}` and `{ipv6}` of a template;
/// an absent address is filled in as the empty text.
pub fn render_template(template: &str, domain: &str, ipv4: Option<IpAddress>, ipv6: Option<IpAddress>) -> (r: String)
    ensures
        r@ == spec_render_template(template@, domain@, ipv4, ipv6),
{
    let v4 = opt_ip_text(&ipv4);
    let v6 = opt_ip_text(&ipv6);
    proof {
        reveal_strlit("{domain}");
        reveal_strlit("{ipv4}");
        reveal_strlit("{ipv6}");
    }
    let a = replace_all(template, "{domain}", domain);
    let b = replace_all(a.as_str(), "{ipv4}", v4.as_str());
    replace_all(b.as_str(), "{ipv6}", v6.as_str())
}

/// The provider that calls a user-defined HTTP endpoint.
pub struct GenericHttpProvider;

/// The text upper-cased by Unicode's rules.
pub uninterp spec fn spec_to_uppercase(s: Seq<char>) -> Seq<char>;

/// The text upper-cased, by `str::to_uppercase`.
#[verifier::external_body]
fn to_uppercase(s: &str) -> (r: String)
    ensures
        r@ == spec_to_uppercase(s@),
{
    s.to_uppercase()
}

/// The method an upper-cased method name stands for: one with a body when it
/// names one, `GET` for anything else.
pub open spec fn spec_method_named(upper: Seq<char>) -> HttpMethod {
    if upper == "POST"@ {
        HttpMethod::Post
    } else if upper == "PUT"@ {
        HttpMethod::Put
    } else if upper == "PATCH"@ {
        HttpMethod::Patch
    } else if upper == "DELETE"@ {
        HttpMethod::Delete
    } else {
        HttpMethod::Get
    }
}

/// The method of the settings: `method` upper-cased, `GET` when absent.
pub open spec fn spec_generic_method(c: ConfigView) -> HttpMethod {
    match c.text("method"@) {
        Some(m) => spec_method_named(spec_to_uppercase(m)),
        None => HttpMethod::Get,
    }
}

/// The method an upper-cased method name stands for.
pub fn method_named(upper: &str) -> (r: HttpMethod)
    ensures
        r == spec_method_named(upper@),
{
    if str_eq(upper, "POST") {
        HttpMethod::Post
    } else if str_eq(upper, "PUT") {
        HttpMethod::Put
    } else if str_eq(upper, "PATCH") {
        HttpMethod::Patch
    } else if str_eq(upper, "DELETE") {
        HttpMethod::Delete
    } else {
        HttpMethod::Get
    }
}

/// The string members of the `headers` object of the settings, in order,
/// each value filled in as a template.
pub open spec fn spec_generic_headers(entries: Seq<(Seq<char>, LeafView)>, domain: Seq<char>, ipv4: Option<IpAddress>, ipv6: Option<IpAddress>) -> Seq<(Seq<char>, Seq<char>)>
    decreases entries.len(),
{
    if entries.len() == 0 {
        Seq::empty()
    } else {
        let rest = spec_generic_headers(entries.drop_last(), domain, ipv4, ipv6);
        match entries.last().1 {
            LeafView::Text(t) => rest.push((entries.last().0, spec_render_template(t, domain, ipv4, ipv6))),
            LeafView::Other(_) => rest,
        }
    }
}

/// The members of the `headers` object of the settings; none when absent or not an object.
pub open spec fn generic_header_entries(c: ConfigView) -> Seq<(Seq<char>, LeafView)> {
    match c.member("headers"@) {
        Some(FieldView::Object(m)) => m,
        _ => Seq::empty(),
    }
}

/// The request of the settings: the URL template filled in, the method, the
/// headers; a method other than `GET` carries the body template (empty when
/// absent) filled in. `None` without a URL template.
pub open spec fn spec_generic_request(domain: Seq<char>, ipv4: Option<IpAddress>, ipv6: Option<IpAddress>, c: ConfigView) -> Option<RequestView> {
    match c.text("url"@) {
        None => None,
        Some(u) => {
            let m = spec_generic_method(c);
            let body = match c.text("body"@) {
                Some(b) => b,
                None => Seq::empty(),
            };
            Some(RequestView {
                method: m,
                url: spec_render_template(u, domain, ipv4, ipv6),
                query: Seq::empty(),
                form: Seq::empty(),
                headers: spec_generic_headers(generic_header_entries(c), domain, ipv4, ipv6),
                bearer: None,
                payload: if m == HttpMethod::Get { PayloadView::Empty } else {
                    PayloadView::Text(spec_render_template(body, domain, ipv4, ipv6))
                },
                expect: Expect::Status,
            })
        },
    }
}

/// How an update starts: without a URL template it fails at once, otherwise
/// it sends the request of the settings.
pub open spec fn spec_generic_start(domain: Seq<char>, ipv4: Option<IpAddress>, ipv6: Option<IpAddress>, c: ConfigView) -> (Phase, StepView) {
    match spec_generic_request(domain, ipv4, ipv6, c) {
        None => (Phase::Done, StepView::Finish(Err(ErrorView::Config("Missing URL template"@)))),
        Some(r) => (Phase::Write { fam: 0, create: false }, StepView::Send(r)),
    }
}

/// One step of an update: a reply with a success status ends it well, any
/// other reply fails it with the status and the text of the body.
pub open spec fn spec_generic_step(run: UpdateRun, reply: Reply) -> StepView {
    match (run.phase, reply) {
        (Phase::Write { fam: 0, create: _ }, Reply::Failed(m)) => StepView::Finish(Err(ErrorView::Network(m@))),
        (Phase::Write { fam: 0, create: _ }, Reply::Received { success, status, body }) =>
            if success {
                StepView::Finish(Ok(()))
            } else {
                StepView::Finish(Err(ErrorView::Api("HTTP "@ + status@ + " - "@ + body@)))
            },
        _ => StepView::Finish(Err(unexpected_reply())),
    }
}

fn method_of(config: &ConfigValue) -> (r: HttpMethod)
    ensures
        r == spec_generic_method(config@),
{
    match config.get_text("method") {
        Some(m) => method_named(to_uppercase(m.as_str()).as_str()),
        None => HttpMethod::Get,
    }
}

fn headers_of(config: &ConfigValue, domain: &str, ipv4: Option<IpAddress>, ipv6: Option<IpAddress>) -> (r: Vec<(String, String)>)
    ensures
        pairs_view(r@) == spec_generic_headers(generic_header_entries(config@), domain@, ipv4, ipv6),
{
    let mut out: Vec<(String, String)> = Vec::new();
    match config.get("headers") {
        Some(JsonField::Object(m)) => {
            let ghost entries = mview(m@);
            let mut i: usize = 0;
            assert(entries.take(0) =~= Seq::<(Seq<char>, LeafView)>::empty());
            while i < m.len()
                invariant
                    entries == mview(m@),
                    i <= m.len(),
                    pairs_view(out@) == spec_generic_headers(entries.take(i as int), domain@, ipv4, ipv6),
                decreases m.len() - i,
            {
                proof {
                    assert(entries.take(i + 1).drop_last() =~= entries.take(i as int));
                }
                match &m[i].1 {
                    JsonLeaf::Text(t) => {
                        let v = render_template(t.as_str(), domain, ipv4, ipv6);
                        let ghost before = out@;
                        out.push((m[i].0.clone(), v));
                        proof {
                            assert(pairs_view(out@) =~= pairs_view(before).push((m@[i as int].0@, v@)));
                        }
                    },
                    JsonLeaf::Other(_) => {},
                }
                i = i + 1;
            }
            assert(entries.take(m.len() as int) =~= entries);
        },
        _ => {},
    }
    out
}

impl GenericHttpProvider {
    pub fn new() -> (r: Self) {
        GenericHttpProvider
    }

    /// The provider's id.
    pub fn id(&self) -> (r: &'static str)
        ensures
            r@ == "generic"@,
    {
        "generic"
    }

    /// Starts an update: the request of the settings.
    pub fn start(&self, domain: &str, ipv4: Option<IpAddress>, ipv6: Option<IpAddress>, config: &ConfigValue) -> (r: (UpdateRun, ProviderAction))
        ensures
            r.0.domain@ == domain@,
            r.0.ipv4 == ipv4,
            r.0.ipv6 == ipv6,
            r.0.config@ == config@,
            r.0.zone_id@ == Seq::<char>::empty(),
            (r.0.phase, r.1@) == spec_generic_start(domain@, ipv4, ipv6, config@),
    {
        let mut run = UpdateRun { domain: owned(domain), ipv4, ipv6, config: config.clone(), zone_id: String::new(), phase: Phase::Done };
        match config.get_text("url") {
            None => (run, ProviderAction::Finish(Err(ProviderError::Config(owned("Missing URL template"))))),
            Some(u) => {
                let method = method_of(config);
                let url = render_template(u.as_str(), domain, ipv4, ipv6);
                let headers = headers_of(config, domain, ipv4, ipv6);
                let payload = if method == HttpMethod::Get {
                    Payload::Empty
                } else {
                    let body = match config.get_text("body") {
                        Some(b) => b,
                        None => String::new(),
                    };
                    Payload::Text(render_template(body.as_str(), domain, ipv4, ipv6))
                };
                let req = HttpRequest {
                    method,
                    url,
                    query: Vec::new(),
                    form: Vec::new(),
                    headers,
                    bearer: None,
                    payload,
                    expect: Expect::Status,
                };
                assert(req@ =~= spec_generic_request(domain@, ipv4, ipv6, config@).unwrap());
                run.phase = Phase::Write { fam: 0, create: false };
                (run, ProviderAction::Send(req))
            },
        }
    }

    /// Finishes the update from the reply to its request.
    pub fn step(&self, run: UpdateRun, reply: Reply) -> (r: (UpdateRun, ProviderAction))
        ensures
            r.0.same_job(run),
            r.0.zone_id@ == run.zone_id@,
            r.0.phase == Phase::Done,
            r.1@ == spec_generic_step(run, reply),
    {
        let z = run.zone_id.clone();
        let first = match run.phase {
            Phase::Write { fam, create: _ } => fam == 0,
            _ => false,
        };
        let action = if !first {
            unexpected()
        } else {
            match reply {
                Reply::Failed(m) => ProviderAction::Finish(Err(ProviderError::Network(m))),
                Reply::Received { success, status, body } => if success {
                    ProviderAction::Finish(Ok(()))
                } else {
                    ProviderAction::Finish(Err(ProviderError::Api(owned("HTTP ").concat(status.as_str()).concat(" - ").concat(body.as_str()))))
                },
                _ => unexpected(),
            }
        };
        (run.moved_to(z, Phase::Done), action)
    }
}

/// The body template of the settings (empty when absent).
pub open spec fn generic_body(c: ConfigView) -> Seq<char> {
    match c.text("body"@) {
        Some(b) => b,
        None => Seq::empty(),
    }
}

/// A generic update sends the request of the settings: the URL template is
/// filled in; a method named `POST`, `PUT`, `PATCH` or `DELETE` (in any case)
/// is sent as that method and carries the body template filled in, and any
/// other method, or none, is a `GET` with no body.
pub proof fn law_generic_sends_body_with_method(domain: Seq<char>, ipv4: Option<IpAddress>, ipv6: Option<IpAddress>, c: ConfigView)
    ensures
        ({
            let n = spec_generic_start(domain, ipv4, ipv6, c);
            let up = spec_to_uppercase(c.text("method"@).unwrap());
            let with_body = c.text("method"@) is Some && (up == "POST"@ || up == "PUT"@ || up == "PATCH"@ || up == "DELETE"@);
            c.text("url"@) is Some ==> {
                &&& n.1 is Send
                &&& n.1->Send_0.url == spec_render_template(c.text("url"@).unwrap(), domain, ipv4, ipv6)
                &&& with_body ==> n.1->Send_0.payload == PayloadView::Text(spec_render_template(generic_body(c), domain, ipv4, ipv6))
                &&& with_body ==> n.1->Send_0.method != HttpMethod::Get
                &&& (c.text("method"@) is Some && up == "PUT"@) ==> n.1->Send_0.method == HttpMethod::Put
                &&& (c.text("method"@) is Some && up == "POST"@) ==> n.1->Send_0.method == HttpMethod::Post
                &&& (c.text("method"@) is Some && up == "PATCH"@) ==> n.1->Send_0.method == HttpMethod::Patch
                &&& (c.text("method"@) is Some && up == "DELETE"@) ==> n.1->Send_0.method == HttpMethod::Delete
                &&& !with_body ==> n.1->Send_0.method == HttpMethod::Get && n.1->Send_0.payload == PayloadView::Empty
            }
        }),
{
    reveal_strlit("POST");
    reveal_strlit("PUT");
    reveal_strlit("PATCH");
    reveal_strlit("DELETE");
    assert("POST"@.len() == 4 && "PUT"@.len() == 3 && "PATCH"@.len() == 5 && "DELETE"@.len() == 6);
}

} // verus!
