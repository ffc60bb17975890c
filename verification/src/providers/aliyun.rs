//! Aliyun DNS: signed RPC calls that find each record of the sub-domain, then
//! add it when missing or update it when its address differs.

use vstd::prelude::*;
use vstd::utf8::encode_utf8;
use crate::address::spec_ip_text;
use crate::clock::{iso_timestamp, spec_iso_timestamp, utc_now_seconds};
use crate::models::{new_uuid, ConfigValue, ConfigView, IpAddress};
use crate::network::{lemma_str_lt_total, spec_str_lt, str_lt};
use crate::providers::{
    family_at, kind_text, pairs_view, push_pair, spec_families, spec_sub_name, spec_zone_name, sub_name,
    unexpected, unexpected_reply, zone_name, ErrorView, Expect, HttpMethod, HttpRequest, Listing, Payload,
    PayloadView, Phase, ProviderAction, ProviderError, RecordKind, Reply, RequestView, StepView, UpdateRun,
};
use crate::text::{owned, str_eq};
use crate::vault::{base64_encode, spec_base64_encode};

verus! {

/// A list of parameters, kept sorted by name with each name once, after
/// setting `k` to `v`.
pub open spec fn spec_insert_param(s: Seq<(Seq<char>, Seq<char>)>, k: Seq<char>, v: Seq<char>) -> Seq<(Seq<char>, Seq<char>)>
    decreases s.len(),
{
    if s.len() == 0 {
        seq![(k, v)]
    } else if s[0].0 == k {
        seq![(k, v)] + s.skip(1)
    } else if spec_str_lt(k, s[0].0) {
        seq![(k, v)] + s
    } else {
        seq![s[0]] + spec_insert_param(s.skip(1), k, v)
    }
}

/// The parameters set in order, sorted by name, the last value of a name kept.
pub open spec fn spec_sorted_params(s: Seq<(Seq<char>, Seq<char>)>) -> Seq<(Seq<char>, Seq<char>)>
    decreases s.len(),
{
    if s.len() == 0 {
        Seq::empty()
    } else {
        spec_insert_param(spec_sorted_params(s.drop_last()), s.last().0, s.last().1)
    }
}

/// `k=v` for each parameter, joined by `&`.
pub open spec fn spec_join_params(s: Seq<(Seq<char>, Seq<char>)>) -> Seq<char>
    decreases s.len(),
{
    if s.len() == 0 {
        Seq::empty()
    } else if s.len() == 1 {
        s[0].0 + "="@ + s[0].1
    } else {
        spec_join_params(s.drop_last()) + "&"@ + s.last().0 + "="@ + s.last().1
    }
}

/// Setting a parameter puts it in the list.
proof fn lemma_insert_has(s: Seq<(Seq<char>, Seq<char>)>, k: Seq<char>, v: Seq<char>)
    ensures
        spec_insert_param(s, k, v).contains((k, v)),
    decreases s.len(),
{
    let r = spec_insert_param(s, k, v);
    if s.len() == 0 || s[0].0 == k || spec_str_lt(k, s[0].0) {
        assert(r[0] == (k, v));
    } else {
        lemma_insert_has(s.skip(1), k, v);
        let t = spec_insert_param(s.skip(1), k, v);
        let j = choose|j: int| 0 <= j < t.len() && t[j] == (k, v);
        assert(r[j + 1] == (k, v));
    }
}

/// Setting a parameter keeps every parameter of another name.
proof fn lemma_insert_keeps(s: Seq<(Seq<char>, Seq<char>)>, k: Seq<char>, v: Seq<char>, e: (Seq<char>, Seq<char>))
    requires
        s.contains(e),
        e.0 != k,
    ensures
        spec_insert_param(s, k, v).contains(e),
    decreases s.len(),
{
    let r = spec_insert_param(s, k, v);
    let i = choose|i: int| 0 <= i < s.len() && s[i] == e;
    if s[0].0 == k {
        assert(i > 0);
        assert(r[i] == e);
    } else if spec_str_lt(k, s[0].0) {
        assert(r[i + 1] == e);
    } else if i == 0 {
        assert(r[0] == e);
    } else {
        assert(s.skip(1)[i - 1] == e);
        lemma_insert_keeps(s.skip(1), k, v, e);
        let t = spec_insert_param(s.skip(1), k, v);
        let j = choose|j: int| 0 <= j < t.len() && t[j] == e;
        assert(r[j + 1] == e);
    }
}

/// A parameter that is set last under its name is among the sorted parameters.
proof fn lemma_sorted_has(s: Seq<(Seq<char>, Seq<char>)>, i: int)
    requires
        0 <= i < s.len(),
        forall|j: int| i < j < s.len() ==> s[j].0 != s[i].0,
    ensures
        spec_sorted_params(s).contains(s[i]),
    decreases s.len(),
{
    let d = s.drop_last();
    if i == s.len() - 1 {
        lemma_insert_has(spec_sorted_params(d), s.last().0, s.last().1);
    } else {
        assert(d[i] == s[i]);
        lemma_sorted_has(d, i);
        assert(s.last().0 != s[i].0);
        lemma_insert_keeps(spec_sorted_params(d), s.last().0, s.last().1, s[i]);
    }
}

/// A parameter set last under its name, other than `Signature`, is in the
/// form of the call.
proof fn lemma_request_has(secret: Seq<char>, params: Seq<(Seq<char>, Seq<char>)>, expect: Expect, i: int)
    requires
        0 <= i < params.len(),
        forall|j: int| i < j < params.len() ==> params[j].0 != params[i].0,
        params[i].0 != "Signature"@,
    ensures
        aliyun_request(secret, params, expect).form.contains(params[i]),
{
    lemma_sorted_has(params, i);
    let sorted = spec_sorted_params(params);
    lemma_insert_keeps(sorted, "Signature"@, spec_sign(secret, sorted), params[i]);
}

proof fn lemma_insert_step(s: Seq<(Seq<char>, Seq<char>)>, k: Seq<char>, v: Seq<char>, i: int)
    requires
        0 <= i < s.len(),
        spec_str_lt(s[i].0, k),
    ensures
        spec_insert_param(s.skip(i), k, v) == seq![s[i]] + spec_insert_param(s.skip(i + 1), k, v),
{
    lemma_str_lt_total(s[i].0, k);
    let t = s.skip(i);
    assert(t[0] == s[i]);
    assert(t.skip(1) =~= s.skip(i + 1));
}

/// Sets parameter `k` to `v` in a list sorted by name.
pub fn insert_param(params: &mut Vec<(String, String)>, k: &str, v: &str)
    ensures
        pairs_view(final(params)@) == spec_insert_param(pairs_view(old(params)@), k@, v@),
{
    let ghost pv = pairs_view(params@);
    let mut i: usize = 0;
    assert(pv.skip(0) =~= pv);
    assert(pv.take(0) + spec_insert_param(pv.skip(0), k@, v@) =~= spec_insert_param(pv, k@, v@));
    while i < params.len() && str_lt(params[i].0.as_str(), k)
        invariant
            pv == pairs_view(params@),
            i <= params.len(),
            pv.take(i as int) + spec_insert_param(pv.skip(i as int), k@, v@) == spec_insert_param(pv, k@, v@),
        decreases params.len() - i,
    {
        proof {
            lemma_insert_step(pv, k@, v@, i as int);
            assert(pv.take(i + 1) =~= pv.take(i as int).push(pv[i as int]));
            assert(pv.take(i as int) + (seq![pv[i as int]] + spec_insert_param(pv.skip(i + 1), k@, v@))
                =~= pv.take(i + 1) + spec_insert_param(pv.skip(i + 1), k@, v@));
        }
        i = i + 1;
    }
    let ghost t = pv.skip(i as int);
    if i < params.len() && str_eq(params[i].0.as_str(), k) {
        params.set(i, (owned(k), owned(v)));
        proof {
            assert(t[0].0 == k@);
            assert(t.skip(1) =~= pv.skip(i + 1));
            assert(pairs_view(params@) =~= pv.take(i as int) + (seq![(k@, v@)] + t.skip(1)));
        }
    } else {
        params.insert(i, (owned(k), owned(v)));
        proof {
            if i < pv.len() {
                lemma_str_lt_total(pv[i as int].0, k@);
                assert(t[0] == pv[i as int]);
                assert(spec_str_lt(k@, t[0].0));
            } else {
                assert(t.len() == 0);
            }
            assert(pairs_view(params@) =~= pv.take(i as int) + (seq![(k@, v@)] + t));
        }
    }
}

/// Parameters set in order into a list sorted by name.
pub fn sorted_params(items: &Vec<(String, String)>) -> (r: Vec<(String, String)>)
    ensures
        pairs_view(r@) == spec_sorted_params(pairs_view(items@)),
{
    let mut out: Vec<(String, String)> = Vec::new();
    let mut i: usize = 0;
    assert(pairs_view(items@).take(0) =~= Seq::<(Seq<char>, Seq<char>)>::empty());
    while i < items.len()
        invariant
            i <= items.len(),
            pairs_view(out@) == spec_sorted_params(pairs_view(items@).take(i as int)),
        decreases items.len() - i,
    {
        insert_param(&mut out, items[i].0.as_str(), items[i].1.as_str());
        proof {
            let s = pairs_view(items@).take(i + 1);
            assert(s.drop_last() =~= pairs_view(items@).take(i as int));
        }
        i = i + 1;
    }
    assert(pairs_view(items@).take(items.len() as int) =~= pairs_view(items@));
    out
}

/// Joins the parameters as `k=v` pairs separated by `&`.
pub fn join_params(params: &Vec<(String, String)>) -> (r: String)
    ensures
        r@ == spec_join_params(pairs_view(params@)),
{
    let mut out = String::new();
    let mut i: usize = 0;
    while i < params.len()
        invariant
            i <= params.len(),
            out@ == spec_join_params(pairs_view(params@).take(i as int)),
        decreases params.len() - i,
    {
        proof {
            let s = pairs_view(params@).take(i + 1);
            assert(s.drop_last() =~= pairs_view(params@).take(i as int));
        }
        if i > 0 {
            out = out.concat("&");
        }
        out = out.concat(params[i].0.as_str()).concat("=").concat(params[i].1.as_str());
        i = i + 1;
    }
    assert(pairs_view(params@).take(params.len() as int) =~= pairs_view(params@));
    out
}

/// A byte that URL encoding keeps as it is: ASCII letters and digits and `-._~`.
pub open spec fn url_safe(b: u8) -> bool {
    (48 <= b <= 57) || (65 <= b <= 90) || (97 <= b <= 122) || b == 45 || b == 46 || b == 95 || b == 126
}

/// The upper-case hexadecimal digit of a value below 16.
pub open spec fn hex_upper(d: int) -> char {
    if d < 10 { (48 + d) as char } else { (55 + d) as char }
}

/// URL encoding of bytes: a safe byte stands for itself, any other is `%`
/// followed by its two upper-case hexadecimal digits.
pub open spec fn spec_url_encode(b: Seq<u8>) -> Seq<char>
    decreases b.len(),
{
    if b.len() == 0 {
        Seq::empty()
    } else {
        let c = b.last();
        spec_url_encode(b.drop_last()) + if url_safe(c) {
            seq![c as char]
        } else {
            seq!['%', hex_upper(c as int / 16), hex_upper(c as int % 16)]
        }
    }
}

/// URL encoding of the UTF-8 bytes of `s`, by `urlencoding::encode`.
#[verifier::external_body]
fn url_encode(s: &str) -> (r: String)
    ensures
        r@ == spec_url_encode(encode_utf8(s@)),
{
    urlencoding::encode(s).into_owned()
}

/// HMAC-SHA1 of `message` under `key`.
pub uninterp spec fn spec_hmac_sha1(key: Seq<u8>, message: Seq<u8>) -> Seq<u8>;

/// HMAC-SHA1 of `message` under `key`, by `hmac_sha1::hmac_sha1`.
#[verifier::external_body]
fn hmac_sha1(key: &[u8], message: &[u8]) -> (r: [u8; 20])
    ensures
        r@ == spec_hmac_sha1(key@, message@),
{
    hmac_sha1::hmac_sha1(key, message)
}

/// What is signed: the method, the path and the URL-encoded parameters.
pub open spec fn spec_string_to_sign(params: Seq<(Seq<char>, Seq<char>)>) -> Seq<char> {
    "POST&%2F&"@ + spec_url_encode(encode_utf8(spec_join_params(params)))
}

/// The signature of sorted parameters: base64 of HMAC-SHA1 under the secret
/// followed by `&`.
pub open spec fn spec_sign(secret: Seq<char>, params: Seq<(Seq<char>, Seq<char>)>) -> Seq<char> {
    spec_base64_encode(spec_hmac_sha1(encode_utf8(secret + "&"@), encode_utf8(spec_string_to_sign(params))))
}

/// Signs sorted parameters with the access key secret.
pub fn sign(secret: &str, params: &Vec<(String, String)>) -> (r: String)
    ensures
        r@ == spec_sign(secret@, pairs_view(params@)),
{
    let joined = join_params(params);
    let to_sign = owned("POST&%2F&").concat(url_encode(joined.as_str()).as_str());
    let key = owned(secret).concat("&");
    let mac = hmac_sha1(key.as_str().as_bytes(), to_sign.as_str().as_bytes());
    base64_encode(&mac)
}

/// The Aliyun DNS provider.
pub struct AliyunProvider;

/// The parameters every call carries, in the order they are set.
pub open spec fn aliyun_common(id: Seq<char>, ts: Seq<char>, nonce: Seq<char>) -> Seq<(Seq<char>, Seq<char>)> {
    seq![
        ("Format"@, "JSON"@),
        ("Version"@, "2015-01-09"@),
        ("AccessKeyId"@, id),
        ("SignatureMethod"@, "HMAC-SHA1"@),
        ("Timestamp"@, ts),
        ("SignatureVersion"@, "1.0"@),
        ("SignatureNonce"@, nonce),
    ]
}

/// A call: the parameters sorted by name, with their signature added as
/// `Signature`, posted as a form.
pub open spec fn aliyun_request(secret: Seq<char>, params: Seq<(Seq<char>, Seq<char>)>, expect: Expect) -> RequestView {
    let sorted = spec_sorted_params(params);
    RequestView {
        method: HttpMethod::Post,
        url: "https://alidns.aliyuncs.com/"@,
        query: Seq::empty(),
        form: spec_insert_param(sorted, "Signature"@, spec_sign(secret, sorted)),
        headers: Seq::empty(),
        bearer: None,
        payload: PayloadView::Empty,
        expect,
    }
}

/// The name the records are looked up by: the zone for `@`, otherwise the
/// sub-domain, a dot and the zone.
pub open spec fn aliyun_full_domain(zone: Seq<char>, sub: Seq<char>) -> Seq<char> {
    if sub == "@"@ { zone } else { sub + "."@ + zone }
}

/// The call that lists the records of a name and type.
pub open spec fn aliyun_find_request(id: Seq<char>, secret: Seq<char>, ts: Seq<char>, nonce: Seq<char>, full: Seq<char>, kind: RecordKind) -> RequestView {
    aliyun_request(secret, aliyun_common(id, ts, nonce) + seq![
        ("Action"@, "DescribeSubDomainRecords"@),
        ("SubDomain"@, full),
        ("Type"@, kind_text(kind)),
        ("PageSize"@, "500"@),
    ], Expect::AliyunRecords)
}

/// The call that adds a record (no `record_id`) or updates the record
/// `record_id`, with a TTL of 600 seconds.
pub open spec fn aliyun_write_request(id: Seq<char>, secret: Seq<char>, ts: Seq<char>, nonce: Seq<char>, record_id: Option<Seq<char>>, zone: Seq<char>, sub: Seq<char>, kind: RecordKind, ip: Seq<char>) -> RequestView {
    let head = match record_id {
        None => seq![("Action"@, "AddDomainRecord"@), ("DomainName"@, zone)],
        Some(rid) => seq![("Action"@, "UpdateDomainRecord"@), ("RecordId"@, rid)],
    };
    aliyun_request(secret, aliyun_common(id, ts, nonce) + head + seq![
        ("RR"@, sub),
        ("Type"@, kind_text(kind)),
        ("Value"@, ip),
        ("TTL"@, "600"@),
    ], Expect::Status)
}

/// The access key id and secret of the settings.
pub open spec fn aliyun_keys(c: ConfigView) -> Option<(Seq<char>, Seq<char>)> {
    match (c.text("access_key_id"@), c.text("access_key_secret"@)) {
        (Some(a), Some(b)) => Some((a, b)),
        _ => None,
    }
}

/// Going on with record `i`: look it up, or finish when every record is done.
pub open spec fn aliyun_next(domain: Seq<char>, ipv4: Option<IpAddress>, ipv6: Option<IpAddress>, c: ConfigView, i: int, ts: Seq<char>, nonce: Seq<char>) -> (Phase, StepView) {
    let fams = spec_families(ipv4, ipv6);
    let keys = aliyun_keys(c).unwrap();
    if i < fams.len() {
        (Phase::Find { fam: i as usize }, StepView::Send(aliyun_find_request(keys.0, keys.1, ts, nonce,
            aliyun_full_domain(spec_zone_name(domain, c), spec_sub_name(domain, c)), fams[i].0)))
    } else {
        (Phase::Done, StepView::Finish(Ok(())))
    }
}

/// How an update starts, the next call stamped with `ts` and `nonce`: without
/// an access key id or secret it fails at once, otherwise it looks the first
/// record up.
pub open spec fn spec_aliyun_start(domain: Seq<char>, ipv4: Option<IpAddress>, ipv6: Option<IpAddress>, c: ConfigView, ts: Seq<char>, nonce: Seq<char>) -> (Phase, StepView) {
    if c.text("access_key_id"@) is None {
        (Phase::Done, StepView::Finish(Err(ErrorView::Config("Missing access_key_id"@))))
    } else if c.text("access_key_secret"@) is None {
        (Phase::Done, StepView::Finish(Err(ErrorView::Config("Missing access_key_secret"@))))
    } else {
        aliyun_next(domain, ipv4, ipv6, c, 0, ts, nonce)
    }
}

/// The first record of a listing, when there is one.
pub open spec fn aliyun_first(records: Option<Option<Vec<crate::providers::FoundRecord>>>) -> Option<(Seq<char>, Seq<char>)> {
    match records {
        Some(Some(list)) => if list@.len() > 0 { Some((list@[0].id@, list@[0].value@)) } else { None },
        _ => None,
    }
}

/// One step of an update, the next call stamped with `ts` and `nonce`: a
/// record is written only when it is missing or holds another address.
pub open spec fn spec_aliyun_step(run: UpdateRun, reply: Reply, ts: Seq<char>, nonce: Seq<char>) -> (Phase, StepView) {
    let c = run.config@;
    let fams = spec_families(run.ipv4, run.ipv6);
    if aliyun_keys(c) is None {
        (Phase::Done, StepView::Finish(Err(unexpected_reply())))
    } else {
        let keys = aliyun_keys(c).unwrap();
        let zone = spec_zone_name(run.domain@, c);
        let sub = spec_sub_name(run.domain@, c);
        match (run.phase, reply) {
            (Phase::Find { fam }, Reply::Failed(m)) if fam < fams.len() =>
                (Phase::Done, StepView::Finish(Err(ErrorView::Network(m@)))),
            (Phase::Find { fam }, Reply::Undecodable(m)) if fam < fams.len() =>
                (Phase::Done, StepView::Finish(Err(ErrorView::Api("Failed to parse response: "@ + m@)))),
            (Phase::Find { fam }, Reply::Listed(Listing::Aliyun { records })) if fam < fams.len() => {
                let kind = fams[fam as int].0;
                let ip = spec_ip_text(fams[fam as int].1);
                match aliyun_first(records) {
                    Some((rid, value)) => if value != ip {
                        (Phase::Write { fam, create: false },
                         StepView::Send(aliyun_write_request(keys.0, keys.1, ts, nonce, Some(rid), zone, sub, kind, ip)))
                    } else {
                        aliyun_next(run.domain@, run.ipv4, run.ipv6, c, fam + 1, ts, nonce)
                    },
                    None => (Phase::Write { fam, create: true },
                        StepView::Send(aliyun_write_request(keys.0, keys.1, ts, nonce, None, zone, sub, kind, ip))),
                }
            },
            (Phase::Write { fam, create }, Reply::Failed(m)) if fam < fams.len() =>
                (Phase::Done, StepView::Finish(Err(ErrorView::Network(m@)))),
            (Phase::Write { fam, create }, Reply::Received { success, status, body }) if fam < fams.len() =>
                if !success {
                    (Phase::Done, StepView::Finish(Err(ErrorView::Api(
                        (if create { "Add record failed: "@ } else { "Update record failed: "@ }) + body@))))
                } else {
                    aliyun_next(run.domain@, run.ipv4, run.ipv6, c, fam + 1, ts, nonce)
                },
            _ => (Phase::Done, StepView::Finish(Err(unexpected_reply()))),
        }
    }
}

/// A call with these parameters, set in this order.
fn request(secret: &str, items: &Vec<(String, String)>, expect: Expect) -> (r: HttpRequest)
    ensures
        r@ == aliyun_request(secret@, pairs_view(items@), expect),
{
    let mut form = sorted_params(items);
    let sig = sign(secret, &form);
    insert_param(&mut form, "Signature", sig.as_str());
    let r = HttpRequest {
        method: HttpMethod::Post,
        url: owned("https://alidns.aliyuncs.com/"),
        query: Vec::new(),
        form,
        headers: Vec::new(),
        bearer: None,
        payload: Payload::Empty,
        expect,
    };
    assert(r@ =~= aliyun_request(secret@, pairs_view(items@), expect));
    r
}

fn common(id: &str, ts: &str, nonce: &str) -> (r: Vec<(String, String)>)
    ensures
        pairs_view(r@) == aliyun_common(id@, ts@, nonce@),
{
    let mut v: Vec<(String, String)> = Vec::new();
    push_pair(&mut v, "Format", "JSON");
    push_pair(&mut v, "Version", "2015-01-09");
    push_pair(&mut v, "AccessKeyId", id);
    push_pair(&mut v, "SignatureMethod", "HMAC-SHA1");
    push_pair(&mut v, "Timestamp", ts);
    push_pair(&mut v, "SignatureVersion", "1.0");
    push_pair(&mut v, "SignatureNonce", nonce);
    assert(pairs_view(v@) =~= aliyun_common(id@, ts@, nonce@));
    v
}

fn full_domain(zone: &str, sub: &str) -> (r: String)
    ensures
        r@ == aliyun_full_domain(zone@, sub@),
{
    if str_eq(sub, "@") {
        owned(zone)
    } else {
        owned(sub).concat(".").concat(zone)
    }
}

fn find_request(id: &str, secret: &str, ts: &str, nonce: &str, full: &str, kind: RecordKind) -> (r: HttpRequest)
    ensures
        r@ == aliyun_find_request(id@, secret@, ts@, nonce@, full@, kind),
{
    let mut v = common(id, ts, nonce);
    push_pair(&mut v, "Action", "DescribeSubDomainRecords");
    push_pair(&mut v, "SubDomain", full);
    push_pair(&mut v, "Type", kind.name());
    push_pair(&mut v, "PageSize", "500");
    assert(pairs_view(v@) =~= aliyun_common(id@, ts@, nonce@) + seq![
        ("Action"@, "DescribeSubDomainRecords"@),
        ("SubDomain"@, full@),
        ("Type"@, kind_text(kind)),
        ("PageSize"@, "500"@),
    ]);
    request(secret, &v, Expect::AliyunRecords)
}

fn write_request(id: &str, secret: &str, ts: &str, nonce: &str, record_id: Option<&str>, zone: &str, sub: &str, kind: RecordKind, ip: &str) -> (r: HttpRequest)
    ensures
        r@ == aliyun_write_request(id@, secret@, ts@, nonce@, match record_id { Some(x) => Some(x@), None => None }, zone@, sub@, kind, ip@),
{
    let mut v = common(id, ts, nonce);
    match record_id {
        None => {
            push_pair(&mut v, "Action", "AddDomainRecord");
            push_pair(&mut v, "DomainName", zone);
        },
        Some(rid) => {
            push_pair(&mut v, "Action", "UpdateDomainRecord");
            push_pair(&mut v, "RecordId", rid);
        },
    }
    push_pair(&mut v, "RR", sub);
    push_pair(&mut v, "Type", kind.name());
    push_pair(&mut v, "Value", ip);
    push_pair(&mut v, "TTL", "600");
    let ghost head = match record_id {
        None => seq![("Action"@, "AddDomainRecord"@), ("DomainName"@, zone@)],
        Some(rid) => seq![("Action"@, "UpdateDomainRecord"@), ("RecordId"@, rid@)],
    };
    assert(pairs_view(v@) =~= aliyun_common(id@, ts@, nonce@) + head + seq![
        ("RR"@, sub@),
        ("Type"@, kind_text(kind)),
        ("Value"@, ip@),
        ("TTL"@, "600"@),
    ]);
    request(secret, &v, Expect::Status)
}

/// The text of the moment `secs` seconds after the Unix epoch, as
/// `YYYY-MM-DDTHH:MM:SSZ`, or the empty text for a moment chrono does not hold.
pub open spec fn spec_timestamp_text(secs: i64) -> Seq<char> {
    match spec_iso_timestamp(secs) {
        Some(t) => t,
        None => Seq::empty(),
    }
}

/// The current UTC time as `YYYY-MM-DDTHH:MM:SSZ` (chrono holds every
/// current moment; the empty text would stand for one it did not).
fn utc_timestamp() -> (r: String)
    ensures
        exists|secs: i64| r@ == #[trigger] spec_timestamp_text(secs),
{
    let secs = utc_now_seconds();
    let r = match iso_timestamp(secs) {
        Some(t) => t,
        None => String::new(),
    };
    assert(r@ == spec_timestamp_text(secs));
    r
}

fn next(run: UpdateRun, i: usize, ts: &str, nonce: &str) -> (r: (UpdateRun, ProviderAction))
    requires
        aliyun_keys(run.config@) is Some,
    ensures
        r.0.same_job(run),
        r.0.zone_id@ == run.zone_id@,
        (r.0.phase, r.1@) == aliyun_next(run.domain@, run.ipv4, run.ipv6, run.config@, i as int, ts@, nonce@),
{
    let z = run.zone_id.clone();
    match family_at(&run.ipv4, &run.ipv6, i) {
        Some((kind, _)) => {
            let id = run.config.get_text("access_key_id").unwrap();
            let secret = run.config.get_text("access_key_secret").unwrap();
            let zone = zone_name(run.domain.as_str(), &run.config);
            let sub = sub_name(run.domain.as_str(), &run.config);
            let full = full_domain(zone.as_str(), sub.as_str());
            let req = find_request(id.as_str(), secret.as_str(), ts, nonce, full.as_str(), kind);
            (run.moved_to(z, Phase::Find { fam: i }), ProviderAction::Send(req))
        },
        None => (run.moved_to(z, Phase::Done), ProviderAction::Finish(Ok(()))),
    }
}

fn fail(run: UpdateRun, e: ProviderError) -> (r: (UpdateRun, ProviderAction))
    ensures
        r.0.same_job(run),
        r.0.zone_id@ == run.zone_id@,
        r.0.phase == Phase::Done,
        r.1@ == StepView::Finish(Err(e@)),
{
    let z = run.zone_id.clone();
    (run.moved_to(z, Phase::Done), ProviderAction::Finish(Err(e)))
}

fn stop(run: UpdateRun) -> (r: (UpdateRun, ProviderAction))
    ensures
        r.0.same_job(run),
        r.0.zone_id@ == run.zone_id@,
        r.0.phase == Phase::Done,
        r.1@ == StepView::Finish(Err(unexpected_reply())),
{
    let z = run.zone_id.clone();
    (run.moved_to(z, Phase::Done), unexpected())
}

impl AliyunProvider {
    pub fn new() -> (r: Self) {
        AliyunProvider
    }

    /// The provider's id.
    pub fn id(&self) -> (r: &'static str)
        ensures
            r@ == "aliyun"@,
    {
        "aliyun"
    }

    /// Starts an update, stamping its first call with `ts` and `nonce`.
    pub fn start_at(&self, domain: &str, ipv4: Option<IpAddress>, ipv6: Option<IpAddress>, config: &ConfigValue, ts: &str, nonce: &str) -> (r: (UpdateRun, ProviderAction))
        ensures
            r.0.domain@ == domain@,
            r.0.ipv4 == ipv4,
            r.0.ipv6 == ipv6,
            r.0.config@ == config@,
            r.0.zone_id@ == Seq::<char>::empty(),
            (r.0.phase, r.1@) == spec_aliyun_start(domain@, ipv4, ipv6, config@, ts@, nonce@),
    {
        let run = UpdateRun { domain: owned(domain), ipv4, ipv6, config: config.clone(), zone_id: String::new(), phase: Phase::Done };
        if config.get_text("access_key_id").is_none() {
            fail(run, ProviderError::Config(owned("Missing access_key_id")))
        } else if config.get_text("access_key_secret").is_none() {
            fail(run, ProviderError::Config(owned("Missing access_key_secret")))
        } else {
            next(run, 0, ts, nonce)
        }
    }

    /// Starts an update of the records of `domain` to the given addresses;
    /// the first call is stamped with the current time and a fresh nonce.
    pub fn start(&self, domain: &str, ipv4: Option<IpAddress>, ipv6: Option<IpAddress>, config: &ConfigValue) -> (r: (UpdateRun, ProviderAction))
        ensures
            r.0.domain@ == domain@,
            r.0.ipv4 == ipv4,
            r.0.ipv6 == ipv6,
            r.0.config@ == config@,
            r.0.zone_id@ == Seq::<char>::empty(),
            exists|secs: i64, nonce: Seq<char>| (r.0.phase, r.1@) == spec_aliyun_start(domain@, ipv4, ipv6, config@, spec_timestamp_text(secs), nonce),
    {
        let ts = utc_timestamp();
        let nonce = new_uuid();
        self.start_at(domain, ipv4, ipv6, config, ts.as_str(), nonce.as_str())
    }

    /// Carries the update on from the reply to its last call, stamping the
    /// next call with `ts` and `nonce`.
    pub fn step_at(&self, run: UpdateRun, reply: Reply, ts: &str, nonce: &str) -> (r: (UpdateRun, ProviderAction))
        ensures
            r.0.same_job(run),
            r.0.zone_id@ == run.zone_id@,
            (r.0.phase, r.1@) == spec_aliyun_step(run, reply, ts@, nonce@),
    {
        let id = match run.config.get_text("access_key_id") {
            Some(t) => t,
            None => return stop(run),
        };
        let secret = match run.config.get_text("access_key_secret") {
            Some(t) => t,
            None => return stop(run),
        };
        match run.phase {
            Phase::Find { fam } => match family_at(&run.ipv4, &run.ipv6, fam) {
                None => stop(run),
                Some((kind, ip)) => match reply {
                    Reply::Failed(m) => fail(run, ProviderError::Network(m)),
                    Reply::Undecodable(m) => fail(run, ProviderError::Api(owned("Failed to parse response: ").concat(m.as_str()))),
                    Reply::Listed(Listing::Aliyun { records }) => {
                        let zone = zone_name(run.domain.as_str(), &run.config);
                        let sub = sub_name(run.domain.as_str(), &run.config);
                        let first: Option<(String, String)> = match &records {
                            Some(Some(list)) => if list.len() > 0 {
                                Some((list[0].id.clone(), list[0].value.clone()))
                            } else {
                                None
                            },
                            _ => None,
                        };
                        match first {
                            Some((rid, value)) => {
                                if !str_eq(value.as_str(), ip.as_str()) {
                                    let req = write_request(id.as_str(), secret.as_str(), ts, nonce, Some(rid.as_str()), zone.as_str(), sub.as_str(), kind, ip.as_str());
                                    let z = run.zone_id.clone();
                                    (run.moved_to(z, Phase::Write { fam, create: false }), ProviderAction::Send(req))
                                } else {
                                    next(run, fam + 1, ts, nonce)
                                }
                            },
                            None => {
                                let req = write_request(id.as_str(), secret.as_str(), ts, nonce, None, zone.as_str(), sub.as_str(), kind, ip.as_str());
                                let z = run.zone_id.clone();
                                (run.moved_to(z, Phase::Write { fam, create: true }), ProviderAction::Send(req))
                            },
                        }
                    },
                    _ => stop(run),
                },
            },
            Phase::Write { fam, create } => match family_at(&run.ipv4, &run.ipv6, fam) {
                None => stop(run),
                Some(_) => match reply {
                    Reply::Failed(m) => fail(run, ProviderError::Network(m)),
                    Reply::Received { success, status: _, body } => {
                        if !success {
                            let head = if create { owned("Add record failed: ") } else { owned("Update record failed: ") };
                            fail(run, ProviderError::Api(head.concat(body.as_str())))
                        } else {
                            next(run, fam + 1, ts, nonce)
                        }
                    },
                    _ => stop(run),
                },
            },
            _ => stop(run),
        }
    }

    /// Carries the update on from the reply to its last call; the next call
    /// is stamped with the current time and a fresh nonce.
    pub fn step(&self, run: UpdateRun, reply: Reply) -> (r: (UpdateRun, ProviderAction))
        ensures
            r.0.same_job(run),
            r.0.zone_id@ == run.zone_id@,
            exists|secs: i64, nonce: Seq<char>| (r.0.phase, r.1@) == spec_aliyun_step(run, reply, spec_timestamp_text(secs), nonce),
    {
        let ts = utc_timestamp();
        let nonce = new_uuid();
        self.step_at(run, reply, ts.as_str(), nonce.as_str())
    }
}

/// An update never rewrites a record that is up to date: a record is written
/// only right after its lookup found it missing (then it is added) or holding
/// another address (then that record is updated), and the write sets the
/// record to the address.
pub proof fn law_aliyun_writes_only_on_change(run: UpdateRun, reply: Reply, ts: Seq<char>, nonce: Seq<char>)
    ensures
        ({
            let n = spec_aliyun_step(run, reply, ts, nonce);
            let fams = spec_families(run.ipv4, run.ipv6);
            n.0 matches Phase::Write { fam, create } ==> {
                &&& run.phase == Phase::Find { fam }
                &&& fam < fams.len()
                &&& reply matches Reply::Listed(Listing::Aliyun { records })
                    && if create { aliyun_first(records) is None } else {
                        aliyun_first(records) matches Some(found) && found.1 != spec_ip_text(fams[fam as int].1)
                    }
                &&& n.1 matches StepView::Send(req) && req == aliyun_write_request(
                    aliyun_keys(run.config@).unwrap().0, aliyun_keys(run.config@).unwrap().1, ts, nonce,
                    if create { None } else { Some(aliyun_first(records_of(reply)).unwrap().0) },
                    spec_zone_name(run.domain@, run.config@), spec_sub_name(run.domain@, run.config@),
                    fams[fam as int].0, spec_ip_text(fams[fam as int].1))
            }
        }),
{
}

/// Every record write names the record it sets: the form of an add or update
/// call holds the record type of the family being written (`A` for the IPv4
/// address, `AAAA` for the IPv6 address), its address as the value, and the
/// sub-domain as the record name.
pub proof fn law_aliyun_write_sets_the_family(run: UpdateRun, reply: Reply, ts: Seq<char>, nonce: Seq<char>)
    ensures
        ({
            let n = spec_aliyun_step(run, reply, ts, nonce);
            let fams = spec_families(run.ipv4, run.ipv6);
            n.0 matches Phase::Write { fam, create } ==> (n.1 matches StepView::Send(req) && {
                &&& req.form.contains(("Type"@, if fams[fam as int].0 == RecordKind::A { "A"@ } else { "AAAA"@ }))
                &&& req.form.contains(("Value"@, spec_ip_text(fams[fam as int].1)))
                &&& req.form.contains(("RR"@, spec_sub_name(run.domain@, run.config@)))
            })
        }),
{
    let n = spec_aliyun_step(run, reply, ts, nonce);
    let fams = spec_families(run.ipv4, run.ipv6);
    if let Phase::Write { fam, create } = n.0 {
        let c = run.config@;
        let keys = aliyun_keys(c).unwrap();
        let zone = spec_zone_name(run.domain@, c);
        let sub = spec_sub_name(run.domain@, c);
        let kind = fams[fam as int].0;
        let ip = spec_ip_text(fams[fam as int].1);
        let rid: Option<Seq<char>> = if create { None } else { Some(aliyun_first(records_of(reply)).unwrap().0) };
        let head = match rid {
            None => seq![("Action"@, "AddDomainRecord"@), ("DomainName"@, zone)],
            Some(r) => seq![("Action"@, "UpdateDomainRecord"@), ("RecordId"@, r)],
        };
        let params = aliyun_common(keys.0, ts, nonce) + head + seq![
            ("RR"@, sub),
            ("Type"@, kind_text(kind)),
            ("Value"@, ip),
            ("TTL"@, "600"@),
        ];
        assert(n.1 == StepView::Send(aliyun_write_request(keys.0, keys.1, ts, nonce, rid, zone, sub, kind, ip)));
        reveal_strlit("RR");
        reveal_strlit("Type");
        reveal_strlit("Value");
        reveal_strlit("TTL");
        reveal_strlit("Signature");
        reveal_strlit("A");
        reveal_strlit("AAAA");
        assert(params.len() == 13);
        assert(params[9] == ("RR"@, sub));
        assert(params[10] == ("Type"@, kind_text(kind)));
        assert(params[11] == ("Value"@, ip));
        assert(params[12] == ("TTL"@, "600"@));
        assert("RR"@.len() == 2 && "Type"@.len() == 4 && "Value"@.len() == 5 && "TTL"@.len() == 3 && "Signature"@.len() == 9);
        assert(params[10].0 != params[9].0 && params[11].0 != params[9].0 && params[12].0 != params[9].0);
        assert(params[11].0 != params[10].0 && params[12].0 != params[10].0 && params[12].0 != params[11].0);
        lemma_request_has(keys.1, params, Expect::Status, 9);
        lemma_request_has(keys.1, params, Expect::Status, 10);
        lemma_request_has(keys.1, params, Expect::Status, 11);
    }
}

/// After a record is written successfully the next record is looked up: when
/// another family remains, the call that lists the records of its type is
/// sent; and an update ends well only once every family has been handled.
pub proof fn law_aliyun_handles_every_family(run: UpdateRun, reply: Reply, ts: Seq<char>, nonce: Seq<char>)
    ensures
        ({
            let n = spec_aliyun_step(run, reply, ts, nonce);
            let fams = spec_families(run.ipv4, run.ipv6);
            &&& (run.phase is Write && run.phase->Write_fam + 1 < fams.len() && aliyun_keys(run.config@) is Some
                && reply is Received && reply->Received_success) ==> {
                &&& n.0 == Phase::Find { fam: (run.phase->Write_fam + 1) as usize }
                &&& n.1 is Send
                &&& n.1->Send_0.form.contains(("Action"@, "DescribeSubDomainRecords"@))
                &&& n.1->Send_0.form.contains(("Type"@, if fams[run.phase->Write_fam + 1].0 == RecordKind::A { "A"@ } else { "AAAA"@ }))
            }
            &&& n.1 == StepView::Finish(Ok(())) ==> match run.phase {
                Phase::Find { fam } => fam + 1 >= fams.len(),
                Phase::Write { fam, .. } => fam + 1 >= fams.len(),
                _ => false,
            }
        }),
{
    let n = spec_aliyun_step(run, reply, ts, nonce);
    let fams = spec_families(run.ipv4, run.ipv6);
    if run.phase is Write && run.phase->Write_fam + 1 < fams.len() && aliyun_keys(run.config@) is Some
        && reply is Received && reply->Received_success {
        let c = run.config@;
        let keys = aliyun_keys(c).unwrap();
        let full = aliyun_full_domain(spec_zone_name(run.domain@, c), spec_sub_name(run.domain@, c));
        lemma_find_request_names(keys.0, keys.1, ts, nonce, full, fams[run.phase->Write_fam + 1].0);
    }
}

/// The call that lists records asks for `DescribeSubDomainRecords` of the
/// record type.
proof fn lemma_find_request_names(id: Seq<char>, secret: Seq<char>, ts: Seq<char>, nonce: Seq<char>, full: Seq<char>, kind: RecordKind)
    ensures
        aliyun_find_request(id, secret, ts, nonce, full, kind).form.contains(("Action"@, "DescribeSubDomainRecords"@)),
        aliyun_find_request(id, secret, ts, nonce, full, kind).form.contains(("Type"@, if kind == RecordKind::A { "A"@ } else { "AAAA"@ })),
{
    let params = aliyun_common(id, ts, nonce) + seq![
        ("Action"@, "DescribeSubDomainRecords"@),
        ("SubDomain"@, full),
        ("Type"@, kind_text(kind)),
        ("PageSize"@, "500"@),
    ];
    reveal_strlit("Action");
    reveal_strlit("SubDomain");
    reveal_strlit("Type");
    reveal_strlit("PageSize");
    reveal_strlit("Signature");
    reveal_strlit("A");
    reveal_strlit("AAAA");
    assert(params.len() == 11);
    assert(params[7] == ("Action"@, "DescribeSubDomainRecords"@));
    assert(params[8] == ("SubDomain"@, full));
    assert(params[9] == ("Type"@, kind_text(kind)));
    assert(params[10] == ("PageSize"@, "500"@));
    assert("Action"@.len() == 6 && "SubDomain"@.len() == 9 && "Type"@.len() == 4 && "PageSize"@.len() == 8);
    assert("Signature"@.len() == 9 && "Action"@[0] != "Signature"@[0]);
    assert(params[8].0 != params[7].0);
    assert(params[9].0 != params[7].0);
    assert(params[10].0 != params[7].0);
    assert(params[10].0 != params[9].0);
    lemma_request_has(secret, params, Expect::AliyunRecords, 7);
    lemma_request_has(secret, params, Expect::AliyunRecords, 9);
}

/// An update with its keys starts by looking up the first family's record
/// (type `A` when an IPv4 address is given, otherwise `AAAA`), and ends well
/// at once only when there is no address to set.
pub proof fn law_aliyun_starts_with_first_family(domain: Seq<char>, ipv4: Option<IpAddress>, ipv6: Option<IpAddress>, c: ConfigView, ts: Seq<char>, nonce: Seq<char>)
    ensures
        ({
            let n = spec_aliyun_start(domain, ipv4, ipv6, c, ts, nonce);
            let fams = spec_families(ipv4, ipv6);
            &&& (aliyun_keys(c) is Some && fams.len() > 0) ==> {
                &&& n.0 == Phase::Find { fam: 0 }
                &&& n.1 is Send
                &&& n.1->Send_0.form.contains(("Type"@, if ipv4 is Some { "A"@ } else { "AAAA"@ }))
            }
            &&& n.1 == StepView::Finish(Ok(())) ==> fams.len() == 0
        }),
{
    let fams = spec_families(ipv4, ipv6);
    if aliyun_keys(c) is Some && fams.len() > 0 {
        let keys = aliyun_keys(c).unwrap();
        let full = aliyun_full_domain(spec_zone_name(domain, c), spec_sub_name(domain, c));
        lemma_find_request_names(keys.0, keys.1, ts, nonce, full, fams[0].0);
    }
}

/// The records of an Aliyun listing reply.
pub open spec fn records_of(reply: Reply) -> Option<Option<Vec<crate::providers::FoundRecord>>> {
    match reply {
        Reply::Listed(Listing::Aliyun { records }) => records,
        _ => None,
    }
}

} // verus!
