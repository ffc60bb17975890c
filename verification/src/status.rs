//! The outcome of each profile's last update, kept by profile id, and the
//! rows the profile list shows.

use vstd::prelude::*;
use crate::clock::{clock_text, spec_clock_text};
use crate::models::{ConfigValue, DdnsProfile, ProfileStatus};
use crate::text::{owned, str_eq};

verus! {

/// The position of the status of profile `id`, or -1.
pub open spec fn spec_status_index(ss: Seq<ProfileStatus>, id: Seq<char>) -> int
    decreases ss.len(),
{
    if ss.len() == 0 {
        -1
    } else if ss[0].profile_id@ == id {
        0
    } else {
        let i = spec_status_index(ss.drop_first(), id);
        if i < 0 { -1 } else { i + 1 }
    }
}

pub proof fn lemma_status_index(ss: Seq<ProfileStatus>, id: Seq<char>)
    ensures
        -1 <= spec_status_index(ss, id) < ss.len(),
        spec_status_index(ss, id) >= 0 ==> ss[spec_status_index(ss, id)].profile_id@ == id,
        forall|k: int| 0 <= k < ss.len() && (spec_status_index(ss, id) < 0 || k < spec_status_index(ss, id)) ==> ss[k].profile_id@ != id,
    decreases ss.len(),
{
    if ss.len() > 0 && ss[0].profile_id@ != id {
        lemma_status_index(ss.drop_first(), id);
        assert forall|k: int| 0 <= k < ss.len() && (spec_status_index(ss, id) < 0 || k < spec_status_index(ss, id)) implies ss[k].profile_id@ != id by {
            if k > 0 {
                assert(ss.drop_first()[k - 1] == ss[k]);
            }
        }
    }
}

/// The position of the status of profile `id`.
pub fn find_status(ss: &Vec<ProfileStatus>, id: &str) -> (r: Option<usize>)
    ensures
        r matches Some(i) ==> i as int == spec_status_index(ss@, id@),
        r is None ==> spec_status_index(ss@, id@) < 0,
{
    let mut i: usize = 0;
    while i < ss.len()
        invariant
            i <= ss.len(),
            forall|k: int| 0 <= k < i ==> ss@[k].profile_id@ != id@,
        decreases ss.len() - i,
    {
        if str_eq(ss[i].profile_id.as_str(), id) {
            proof {
                lemma_status_index(ss@, id@);
                let f = spec_status_index(ss@, id@);
                if f >= 0 && f < i {
                    assert(ss@[f].profile_id@ != id@);
                }
            }
            return Some(i);
        }
        i = i + 1;
    }
    proof {
        lemma_status_index(ss@, id@);
        let f = spec_status_index(ss@, id@);
        if f >= 0 {
            assert(ss@[f].profile_id@ != id@);
        }
    }
    None
}

/// The statuses after recording `st`: it replaces the status of its profile,
/// or comes last when that profile had none.
pub open spec fn spec_set_status(ss: Seq<ProfileStatus>, st: ProfileStatus) -> Seq<ProfileStatus> {
    let i = spec_status_index(ss, st.profile_id@);
    if i >= 0 { ss.update(i, st) } else { ss.push(st) }
}

/// Records the status of a profile, replacing the one it had.
pub fn set_status(ss: &mut Vec<ProfileStatus>, st: ProfileStatus)
    ensures
        final(ss)@ == spec_set_status(old(ss)@, st),
{
    proof { lemma_status_index(ss@, st.profile_id@); }
    match find_status(ss, st.profile_id.as_str()) {
        Some(i) => ss.set(i, st),
        None => ss.push(st),
    }
}

/// Forgets the status of profile `id`.
pub fn remove_status(ss: &mut Vec<ProfileStatus>, id: &str)
    ensures
        spec_status_index(old(ss)@, id@) >= 0 ==> final(ss)@ == old(ss)@.remove(spec_status_index(old(ss)@, id@)),
        spec_status_index(old(ss)@, id@) < 0 ==> final(ss)@ == old(ss)@,
{
    proof { lemma_status_index(ss@, id@); }
    match find_status(ss, id) {
        Some(i) => {
            ss.remove(i);
        },
        None => {},
    }
}

pub open spec fn opt_text(s: Option<String>) -> Option<Seq<char>> {
    match s {
        Some(t) => Some(t@),
        None => None,
    }
}

/// The status an update leaves: stamped with the time it ended, in seconds
/// since the Unix epoch, and no longer running.
pub fn status_after_update(profile_id: String, ipv4: Option<String>, ipv6: Option<String>, message: String, now: i64) -> (r: ProfileStatus)
    ensures
        r.profile_id@ == profile_id@,
        r.last_update == Some(now),
        opt_text(r.current_ipv4) == opt_text(ipv4),
        opt_text(r.current_ipv6) == opt_text(ipv6),
        r.status_message@ == message@,
        !r.is_running,
{
    ProfileStatus { profile_id, last_update: Some(now), current_ipv4: ipv4, current_ipv6: ipv6, status_message: message, is_running: false }
}

/// A line of the profile list: the profile and what its last update left.
#[derive(Debug)]
pub struct ProfileRow {
    pub id: String,
    pub name: String,
    pub provider_type: String,
    pub domain: String,
    pub enabled: bool,
    pub enable_ipv4: bool,
    pub enable_ipv6: bool,
    pub provider_config: ConfigValue,
    pub ipv4: String,
    pub ipv6: String,
    /// The time of day of the last update, `HH:MM:SS` in UTC.
    pub last_update: String,
    pub status_message: String,
}

pub open spec fn or_empty(s: Option<String>) -> Seq<char> {
    match s {
        Some(t) => t@,
        None => Seq::empty(),
    }
}

/// What a row shows of a status: the addresses, the time of day of the
/// update and its message; for a profile with no status, empty texts and
/// `Unknown`.
pub open spec fn spec_row_status(st: Option<ProfileStatus>) -> (Seq<char>, Seq<char>, Seq<char>, Seq<char>) {
    match st {
        Some(s) => (
            or_empty(s.current_ipv4),
            or_empty(s.current_ipv6),
            match s.last_update {
                Some(t) => spec_clock_text(t as int),
                None => Seq::empty(),
            },
            s.status_message@,
        ),
        None => (Seq::empty(), Seq::empty(), Seq::empty(), "Unknown"@),
    }
}

/// The row fits the profile and the status.
pub open spec fn spec_row_of(row: ProfileRow, p: DdnsProfile, st: Option<ProfileStatus>) -> bool {
    let s = spec_row_status(st);
    &&& row.id@ == p.id@
    &&& row.name@ == p.name@
    &&& row.provider_type@ == p.provider_type@
    &&& row.domain@ == p.domain@
    &&& row.enabled == p.enabled
    &&& row.enable_ipv4 == p.enable_ipv4
    &&& row.enable_ipv6 == p.enable_ipv6
    &&& row.provider_config@ == p.provider_config@
    &&& (row.ipv4@, row.ipv6@, row.last_update@, row.status_message@) == s
}

fn text_or_empty(s: &Option<String>) -> (r: String)
    ensures
        r@ == or_empty(*s),
{
    match s {
        Some(t) => t.clone(),
        None => String::new(),
    }
}

/// The row of a profile, with its status when it has one.
pub fn profile_row(p: &DdnsProfile, st: Option<&ProfileStatus>) -> (r: ProfileRow)
    ensures
        spec_row_of(r, *p, match st { Some(s) => Some(*s), None => None }),
{
    let (ipv4, ipv6, last_update, status_message) = match st {
        Some(s) => (
            text_or_empty(&s.current_ipv4),
            text_or_empty(&s.current_ipv6),
            match s.last_update {
                Some(t) => clock_text(t),
                None => String::new(),
            },
            s.status_message.clone(),
        ),
        None => (String::new(), String::new(), String::new(), owned("Unknown")),
    };
    ProfileRow {
        id: p.id.clone(),
        name: p.name.clone(),
        provider_type: p.provider_type.clone(),
        domain: p.domain.clone(),
        enabled: p.enabled,
        enable_ipv4: p.enable_ipv4,
        enable_ipv6: p.enable_ipv6,
        provider_config: p.provider_config.clone(),
        ipv4,
        ipv6,
        last_update,
        status_message,
    }
}

/// The status of profile `id`, when it has one.
pub open spec fn spec_status_of(ss: Seq<ProfileStatus>, id: Seq<char>) -> Option<ProfileStatus> {
    let i = spec_status_index(ss, id);
    if i >= 0 { Some(ss[i]) } else { None }
}

/// The rows of the profile list, one per profile in order.
pub fn profile_rows(profiles: &Vec<DdnsProfile>, ss: &Vec<ProfileStatus>) -> (r: Vec<ProfileRow>)
    ensures
        r@.len() == profiles@.len(),
        forall|i: int| 0 <= i < r@.len() ==> spec_row_of(#[trigger] r@[i], profiles@[i], spec_status_of(ss@, profiles@[i].id@)),
{
    let mut out: Vec<ProfileRow> = Vec::new();
    let mut i: usize = 0;
    while i < profiles.len()
        invariant
            i <= profiles.len(),
            out@.len() == i,
            forall|k: int| 0 <= k < i ==> spec_row_of(#[trigger] out@[k], profiles@[k], spec_status_of(ss@, profiles@[k].id@)),
        decreases profiles.len() - i,
    {
        proof { lemma_status_index(ss@, profiles@[i as int].id@); }
        let row = match find_status(ss, profiles[i].id.as_str()) {
            Some(j) => profile_row(&profiles[i], Some(&ss[j])),
            None => profile_row(&profiles[i], None),
        };
        out.push(row);
        i = i + 1;
    }
    out
}

/// A recorded status is the one found for its profile afterwards, and the
/// statuses of other profiles are kept.
pub proof fn law_recorded_status_is_found(ss: Seq<ProfileStatus>, st: ProfileStatus, other: Seq<char>)
    requires
        other != st.profile_id@,
    ensures
        spec_status_of(spec_set_status(ss, st), st.profile_id@) == Some(st),
        spec_status_of(spec_set_status(ss, st), other) == spec_status_of(ss, other),
{
    let after = spec_set_status(ss, st);
    let id = st.profile_id@;
    lemma_status_index(ss, id);
    lemma_status_index(after, id);
    lemma_status_index(ss, other);
    lemma_status_index(after, other);
    let i = spec_status_index(ss, id);
    let j = spec_status_index(after, id);
    if i >= 0 {
        if j < 0 || j > i {
            assert(after[i].profile_id@ == id);
        }
        if 0 <= j < i {
            assert(after[j] == ss[j]);
        }
    } else {
        if j < 0 || j > ss.len() as int {
            assert(after[ss.len() as int].profile_id@ == id);
        }
        if 0 <= j < ss.len() {
            assert(after[j] == ss[j]);
        }
    }
    let a = spec_status_index(ss, other);
    let b = spec_status_index(after, other);
    if a >= 0 && (b < 0 || b > a) {
        assert(after[a] == ss[a] || a == i);
        assert(after[a].profile_id@ == other);
    }
    if b >= 0 && (a < 0 || a > b) {
        if b < ss.len() {
            assert(after[b] == ss[b] || b == i);
            assert(ss[b].profile_id@ == other);
        }
    }
}

} // verus!
