//! The BGP health checks of the DPU agent: whether the BGP daemon is enabled, and whether
//! the sessions towards the TORs and the route servers are established while no other
//! sessions exist.

use vstd::prelude::*;

use crate::health_report::{
    alert_of, failed, make_alert, opt_view, passed, with_alert, with_success, HealthReport, ProbeId,
    ReportView, SuccessView,
};
use crate::keyed::{first_index, lemma_first_index_at, lemma_first_index_found, lemma_first_index_none, lemma_first_index_push};
use crate::text::{contains_seq, contains_str, decimal, push_decimal, push_str, str_eq};

verus! {

/// A BGP session as the routing daemon reports it.
#[derive(Debug, Clone)]
pub struct BgpPeer {
    pub state: String,
}

/// The sessions of one address family, by peer name.
#[derive(Debug, Clone)]
pub struct BgpStats {
    pub dynamic_peers: u32,
    /// The sessions, each under its peer name; no name occurs twice.
    pub peers: Vec<(String, BgpPeer)>,
}

/// The BGP summary of the two address families that are checked.
#[derive(Debug, Clone)]
pub struct BgpNetworks {
    pub ipv4_unicast: BgpStats,
    pub l2_vpn_evpn: BgpStats,
}

/// The names of the DPU's network devices that the checks need: the uplinks towards the
/// TORs, in port order.
#[derive(Debug, Clone)]
pub struct HBNDeviceNames {
    pub uplinks: Vec<String>,
}

/// What the BGP checks found, before it is turned into alerts.
#[derive(Debug, Clone, Default)]
pub struct BgpHealthData {
    /// Per TOR port, why its session is unhealthy; one entry per port.
    pub unhealthy_tor_peers: Vec<(String, String)>,
    /// Per route server, why its session is unhealthy.
    pub unhealthy_route_server_peers: Vec<(String, String)>,
    /// Sessions that should not exist: the address family, and the peer.
    pub unexpected_peers: Vec<(String, String)>,
    pub other_errors: Vec<String>,
}

// ---------------------------------------------------------------------------
// Mathematical values
// ---------------------------------------------------------------------------

/// A pair of texts.
pub type Pair = (Seq<char>, Seq<char>);

pub struct StatsView {
    pub dynamic_peers: u32,
    /// The sessions: peer name and state.
    pub peers: Seq<Pair>,
}

pub struct HealthDataView {
    pub tor: Seq<Pair>,
    pub route_servers: Seq<Pair>,
    pub unexpected: Seq<Pair>,
    pub other_errors: Seq<Seq<char>>,
}

pub open spec fn pair_views(s: Seq<(String, String)>) -> Seq<Pair> {
    s.map_values(|p: (String, String)| (p.0@, p.1@))
}

pub open spec fn peer_views(s: Seq<(String, BgpPeer)>) -> Seq<Pair> {
    s.map_values(|p: (String, BgpPeer)| (p.0@, p.1.state@))
}

pub open spec fn string_views(s: Seq<String>) -> Seq<Seq<char>> {
    s.map_values(|t: String| t@)
}

impl View for BgpStats {
    type V = StatsView;

    open spec fn view(&self) -> StatsView {
        StatsView { dynamic_peers: self.dynamic_peers, peers: peer_views(self.peers@) }
    }
}

impl View for BgpHealthData {
    type V = HealthDataView;

    open spec fn view(&self) -> HealthDataView {
        HealthDataView {
            tor: pair_views(self.unhealthy_tor_peers@),
            route_servers: pair_views(self.unhealthy_route_server_peers@),
            unexpected: pair_views(self.unexpected_peers@),
            other_errors: string_views(self.other_errors@),
        }
    }
}

/// The first components of a list of pairs.
pub open spec fn firsts(s: Seq<Pair>) -> Seq<Seq<char>> {
    s.map_values(|p: Pair| p.0)
}

/// The state of the session with peer `name`, if there is one.
pub open spec fn lookup(peers: Seq<Pair>, name: Seq<char>) -> Option<Seq<char>> {
    let i = first_index(firsts(peers), name);
    if i >= 0 {
        Some(peers[i].1)
    } else {
        None
    }
}

/// Puts `v` under key `k`: replaces the value of the entry with that key, or adds an entry.
pub open spec fn put(table: Seq<Pair>, k: Seq<char>, v: Seq<char>) -> Seq<Pair> {
    let i = first_index(firsts(table), k);
    if i >= 0 {
        table.update(i, (k, v))
    } else {
        table.push((k, v))
    }
}

// ---------------------------------------------------------------------------
// Sessions towards the TORs
// ---------------------------------------------------------------------------

/// The pattern of the peer names of sessions towards the TORs, such as `p0_if`.
pub open spec fn tor_pattern() -> Seq<char> {
    "^p[0-9]+_[si]f$"@
}

/// Whether `pattern`, compiled as a regular expression, matches somewhere in `text`; `None`
/// where `pattern` is not a valid regular expression.
pub uninterp spec fn regex_match(pattern: Seq<char>, text: Seq<char>) -> Option<bool>;

/// Whether a text is matched whole by `tor_pattern()`: `p`, one or more ASCII digits, `_`,
/// then `sf` or `if`.
pub open spec fn tor_shaped(s: Seq<char>) -> bool {
    &&& s.len() >= 5
    &&& s[0] == 'p'
    &&& forall|i: int| 1 <= i < s.len() - 3 ==> '0' <= #[trigger] s[i] <= '9'
    &&& s[s.len() - 3] == '_'
    &&& (s[s.len() - 2] == 's' || s[s.len() - 2] == 'i')
    &&& s[s.len() - 1] == 'f'
}

/// Whether a peer name is that of a session towards a TOR.
pub open spec fn is_tor(name: Seq<char>) -> bool {
    tor_shaped(name)
}

/// Whether each session is one towards a TOR.
pub open spec fn tor_flags(peers: Seq<Pair>) -> Seq<bool> {
    peers.map_values(|p: Pair| is_tor(p.0))
}

/// The sessions whose flag is not set, in order.
pub open spec fn unflagged(peers: Seq<Pair>, flags: Seq<bool>) -> Seq<Pair>
    decreases peers.len(),
{
    if peers.len() == 0 {
        Seq::empty()
    } else {
        let r = unflagged(peers.drop_last(), flags);
        if flags[peers.len() - 1] {
            r
        } else {
            r.push(peers.last())
        }
    }
}

/// The sessions that are not towards a TOR.
pub open spec fn other_peer_list(peers: Seq<Pair>) -> Seq<Pair> {
    unflagged(peers, tor_flags(peers))
}

pub open spec fn msg_not_established(name: Seq<char>, state: Seq<char>) -> Seq<char> {
    "Session "@ + name + " is not Established, but in state "@ + state
}

pub open spec fn msg_not_found(name: Seq<char>) -> Seq<char> {
    "Expected session for "@ + name + " was not found in BGP peer data"@
}

/// What is wrong with the session with peer `name`, given its state if it exists.
pub open spec fn session_problem(name: Seq<char>, state: Option<Seq<char>>) -> Option<Seq<char>> {
    match state {
        Some(st) => if st == "Established"@ {
            None
        } else {
            Some(msg_not_established(name, st))
        },
        None => Some(msg_not_found(name)),
    }
}

/// The unhealthy TOR sessions after checking the sessions of `ports` in order.
pub open spec fn tor_ports(table: Seq<Pair>, peers: Seq<Pair>, ports: Seq<Seq<char>>) -> Seq<Pair>
    decreases ports.len(),
{
    if ports.len() == 0 {
        table
    } else {
        let t = tor_ports(table, peers, ports.drop_last());
        let p = ports.last();
        match session_problem(p, lookup(peers, p)) {
            Some(m) => put(t, p, m),
            None => t,
        }
    }
}

pub open spec fn msg_too_few_uplinks(min: nat, uplinks: nat) -> Seq<char> {
    "The number of min healthy links: "@ + decimal(min)
        + " was bigger than the number of uplinks defined by the hbn device names: "@ + decimal(uplinks)
}

/// Checking the sessions of the first `min` uplinks: each one that is missing or not
/// established is recorded under its port; where there are fewer uplinks than `min`, the
/// ones there are are checked and the shortfall is an error.
pub open spec fn tor_routes(hd: HealthDataView, peers: Seq<Pair>, min: nat, uplinks: Seq<Seq<char>>) -> HealthDataView {
    if min <= uplinks.len() {
        HealthDataView { tor: tor_ports(hd.tor, peers, uplinks.take(min as int)), ..hd }
    } else {
        HealthDataView {
            tor: tor_ports(hd.tor, peers, uplinks),
            other_errors: hd.other_errors.push(msg_too_few_uplinks(min, uplinks.len())),
            ..hd
        }
    }
}

// ---------------------------------------------------------------------------
// The two address families
// ---------------------------------------------------------------------------

/// The sessions among `others` that are not in `allowed`, as unexpected in `group`.
pub open spec fn disallowed(group: Seq<char>, others: Seq<Pair>, allowed: Seq<Seq<char>>) -> Seq<Pair>
    decreases others.len(),
{
    if others.len() == 0 {
        Seq::empty()
    } else {
        let r = disallowed(group, others.drop_last(), allowed);
        if allowed.contains(others.last().0) {
            r
        } else {
            r.push((group, others.last().0))
        }
    }
}

/// All the sessions of `others`, as unexpected in `group`.
pub open spec fn all_unexpected(group: Seq<char>, others: Seq<Pair>) -> Seq<Pair> {
    others.map_values(|p: Pair| (group, p.0))
}

pub open spec fn msg_dynamic_peers(name: Seq<char>, n: nat) -> Seq<char> {
    name + ".dynamic_peers is "@ + decimal(n) + " should be 0"@
}

/// The errors with one more if there are dynamic peers.
pub open spec fn dynamic_check(errors: Seq<Seq<char>>, name: Seq<char>, dynamic_peers: u32) -> Seq<Seq<char>> {
    if dynamic_peers != 0 {
        errors.push(msg_dynamic_peers(name, dynamic_peers as nat))
    } else {
        errors
    }
}

/// The IPv4 unicast check: the TOR sessions; every other session must lead to one of the
/// host routes; no dynamic peers.
pub open spec fn ipv4_check(
    name: Seq<char>,
    s: StatsView,
    hd: HealthDataView,
    host_routes: Seq<Seq<char>>,
    min: nat,
    uplinks: Seq<Seq<char>>,
) -> HealthDataView {
    let h = tor_routes(hd, s.peers, min, uplinks);
    HealthDataView {
        unexpected: h.unexpected + disallowed(name, other_peer_list(s.peers), host_routes),
        other_errors: dynamic_check(h.other_errors, name, s.dynamic_peers),
        ..h
    }
}

/// Checking the route servers one by one against the other sessions: the problems found
/// so far, and the sessions not yet claimed by a route server.
pub open spec fn route_server_pass(servers: Seq<Seq<char>>, others: Seq<Pair>) -> (Seq<Pair>, Seq<Pair>)
    decreases servers.len(),
{
    if servers.len() == 0 {
        (Seq::empty(), others)
    } else {
        let (found, rem) = route_server_pass(servers.drop_last(), others);
        let r = servers.last();
        let i = first_index(firsts(rem), r);
        let state = if i >= 0 { Some(rem[i].1) } else { None };
        let found2 = match session_problem(r, state) {
            Some(m) => found.push((r, m)),
            None => found,
        };
        (found2, if i >= 0 { rem.remove(i) } else { rem })
    }
}

/// The L2 VPN EVPN check. Without route servers only TOR sessions may exist; with route
/// servers, each must have an established session and no other non-TOR session may exist.
/// No dynamic peers either way.
pub open spec fn evpn_check(
    name: Seq<char>,
    s: StatsView,
    hd: HealthDataView,
    route_servers: Seq<Seq<char>>,
    min: nat,
    uplinks: Seq<Seq<char>>,
) -> HealthDataView {
    let h = if route_servers.len() == 0 {
        let h1 = tor_routes(hd, s.peers, min, uplinks);
        HealthDataView { unexpected: h1.unexpected + all_unexpected(name, other_peer_list(s.peers)), ..h1 }
    } else {
        let (found, rem) = route_server_pass(route_servers, other_peer_list(s.peers));
        HealthDataView {
            route_servers: hd.route_servers + found,
            unexpected: hd.unexpected + all_unexpected(name, rem),
            ..hd
        }
    };
    HealthDataView { other_errors: dynamic_check(h.other_errors, name, s.dynamic_peers), ..h }
}

pub open spec fn msg_undecodable(json: Seq<char>, error: Seq<char>) -> Seq<char> {
    "failed to deserialize bgp_json: "@ + json + " with error: "@ + error
}

// ---------------------------------------------------------------------------
// Finding sessions
// ---------------------------------------------------------------------------

/// `regex::Regex::new` followed by `Regex::is_match`: compiles `pattern` and reports whether
/// it matches somewhere in `text`, or `None` where `pattern` does not compile. For a pattern
/// in general the result is named, not described; for `tor_pattern()` it is what the regex
/// syntax documents: the pattern compiles, `^` and `$` anchor it at the start and the end of
/// the text, `[0-9]+` is one or more of the characters `0` to `9`, and `[si]` is `s` or `i`.
#[verifier::external_body]
fn regex_is_match(pattern: &str, text: &str) -> (r: Option<bool>)
    ensures
        r == regex_match(pattern@, text@),
        pattern@ == tor_pattern() ==> r == Some(tor_shaped(text@)),
{
    match regex::Regex::new(pattern) {
        Ok(re) => Some(re.is_match(text)),
        Err(_) => None,
    }
}

/// Whether a peer name is that of a session towards a TOR.
pub fn is_tor_session(name: &str) -> (r: bool)
    ensures
        r == is_tor(name@),
{
    match regex_is_match("^p[0-9]+_[si]f$", name) {
        Some(m) => m,
        None => false,
    }
}

/// The position of the first session with peer `name`.
fn find_peer(peers: &Vec<(String, BgpPeer)>, name: &str) -> (r: Option<usize>)
    ensures
        ({
            let i = first_index(firsts(peer_views(peers@)), name@);
            match r {
                Some(k) => k < peers@.len() && i == k,
                None => i == -1,
            }
        }),
{
    let ghost keys = firsts(peer_views(peers@));
    let mut i: usize = 0;
    while i < peers.len()
        invariant
            i <= peers@.len(),
            keys == firsts(peer_views(peers@)),
            forall|j: int| 0 <= j < i ==> keys[j] != name@,
        decreases peers@.len() - i,
    {
        if str_eq(peers[i].0.as_str(), name) {
            proof {
                lemma_first_index_at(keys, name@, i as int);
            }
            return Some(i);
        }
        i = i + 1;
    }
    proof {
        lemma_first_index_none(keys, name@);
    }
    None
}

/// The position of the first pair whose first component is `key`.
fn find_pair(pairs: &Vec<(String, String)>, key: &str) -> (r: Option<usize>)
    ensures
        ({
            let i = first_index(firsts(pair_views(pairs@)), key@);
            match r {
                Some(k) => k < pairs@.len() && i == k,
                None => i == -1,
            }
        }),
{
    let ghost keys = firsts(pair_views(pairs@));
    let mut i: usize = 0;
    while i < pairs.len()
        invariant
            i <= pairs@.len(),
            keys == firsts(pair_views(pairs@)),
            forall|j: int| 0 <= j < i ==> keys[j] != key@,
        decreases pairs@.len() - i,
    {
        if str_eq(pairs[i].0.as_str(), key) {
            proof {
                lemma_first_index_at(keys, key@, i as int);
            }
            return Some(i);
        }
        i = i + 1;
    }
    proof {
        lemma_first_index_none(keys, key@);
    }
    None
}

/// Puts `v` under `k` in a table of pairs.
fn put_pair(table: &mut Vec<(String, String)>, k: String, v: String)
    ensures
        pair_views(final(table)@) == put(pair_views(old(table)@), k@, v@),
{
    match find_pair(table, k.as_str()) {
        Some(i) => {
            table.set(i, (k, v));
        },
        None => {
            table.push((k, v));
        },
    }
    assert(pair_views(table@) =~= put(pair_views(old(table)@), k@, v@));
}

/// The sessions whose flag is not set, as peer name and state.
pub fn select_peers(peers: &Vec<(String, BgpPeer)>, flags: &Vec<bool>) -> (r: Vec<(String, String)>)
    requires
        flags@.len() == peers@.len(),
    ensures
        pair_views(r@) == unflagged(peer_views(peers@), flags@),
{
    let ghost pv = peer_views(peers@);
    let mut r: Vec<(String, String)> = Vec::new();
    let mut i: usize = 0;
    while i < peers.len()
        invariant
            i <= peers@.len(),
            flags@.len() == peers@.len(),
            pv == peer_views(peers@),
            pair_views(r@) == unflagged(pv.take(i as int), flags@),
        decreases peers@.len() - i,
    {
        assert(pv.take(i + 1).drop_last() =~= pv.take(i as int));
        if !flags[i] {
            r.push((peers[i].0.clone(), peers[i].1.state.clone()));
        }
        assert(pair_views(r@) =~= unflagged(pv.take(i + 1), flags@));
        i = i + 1;
    }
    assert(pv.take(peers@.len() as int) =~= pv);
    r
}

impl BgpStats {
    /// The sessions that are not towards a TOR, as peer name and state, in order.
    pub fn other_peers(&self) -> (r: Vec<(String, String)>)
        ensures
            pair_views(r@) == other_peer_list(self@.peers),
    {
        let mut flags: Vec<bool> = Vec::new();
        let mut i: usize = 0;
        while i < self.peers.len()
            invariant
                i <= self.peers@.len(),
                flags@ == tor_flags(peer_views(self.peers@)).take(i as int),
            decreases self.peers@.len() - i,
        {
            let t = is_tor_session(self.peers[i].0.as_str());
            flags.push(t);
            assert(flags@ =~= tor_flags(peer_views(self.peers@)).take(i + 1));
            i = i + 1;
        }
        assert(flags@ =~= tor_flags(peer_views(self.peers@)));
        select_peers(&self.peers, &flags)
    }
}

// ---------------------------------------------------------------------------
// The checks
// ---------------------------------------------------------------------------

fn not_established_message(name: &str, state: &str) -> (r: String)
    ensures
        r@ == msg_not_established(name@, state@),
{
    let mut m = String::from_str("Session ");
    push_str(&mut m, name);
    push_str(&mut m, " is not Established, but in state ");
    push_str(&mut m, state);
    assert(m@ =~= msg_not_established(name@, state@));
    m
}

fn not_found_message(name: &str) -> (r: String)
    ensures
        r@ == msg_not_found(name@),
{
    let mut m = String::from_str("Expected session for ");
    push_str(&mut m, name);
    push_str(&mut m, " was not found in BGP peer data");
    assert(m@ =~= msg_not_found(name@));
    m
}

/// What is wrong with the session with peer `name`, given its state if it exists.
fn problem(name: &str, state: Option<&String>) -> (r: Option<String>)
    ensures
        opt_view(r) == session_problem(
            name@,
            match state {
                Some(s) => Some(s@),
                None => None,
            },
        ),
{
    match state {
        Some(st) => {
            if str_eq(st.as_str(), "Established") {
                None
            } else {
                Some(not_established_message(name, st.as_str()))
            }
        },
        None => Some(not_found_message(name)),
    }
}

/// Checks the sessions towards the TORs on the first `min_healthy_links` uplinks.
pub fn check_bgp_tor_routes(
    s: &BgpStats,
    health_data: &mut BgpHealthData,
    min_healthy_links: u32,
    hbn_device_names: &HBNDeviceNames,
)
    ensures
        final(health_data)@ == tor_routes(
            old(health_data)@,
            s@.peers,
            min_healthy_links as nat,
            string_views(hbn_device_names.uplinks@),
        ),
{
    let ghost h0 = health_data@;
    let ghost up = string_views(hbn_device_names.uplinks@);
    let ghost peers = s@.peers;
    let mut port_id: u32 = 0;
    while port_id < min_healthy_links
        invariant
            h0 == old(health_data)@,
            up == string_views(hbn_device_names.uplinks@),
            peers == s@.peers,
            port_id <= min_healthy_links,
            port_id <= up.len(),
            health_data@ == (HealthDataView { tor: tor_ports(h0.tor, peers, up.take(port_id as int)), ..h0 }),
        decreases min_healthy_links - port_id,
    {
        if port_id as usize >= hbn_device_names.uplinks.len() {
            let mut msg = String::from_str("The number of min healthy links: ");
            push_decimal(&mut msg, min_healthy_links as u64);
            push_str(&mut msg, " was bigger than the number of uplinks defined by the hbn device names: ");
            push_decimal(&mut msg, hbn_device_names.uplinks.len() as u64);
            assert(msg@ =~= msg_too_few_uplinks(min_healthy_links as nat, up.len()));
            let ghost before = health_data.other_errors@;
            health_data.other_errors.push(msg);
            assert(string_views(health_data.other_errors@) =~= string_views(before).push(msg@));
            assert(up.take(port_id as int) =~= up);
            assert(health_data@ == tor_routes(h0, peers, min_healthy_links as nat, up));
            return;
        }
        let port_name = hbn_device_names.uplinks[port_id as usize].clone();
        assert(up.take(port_id + 1).drop_last() =~= up.take(port_id as int));
        let found = find_peer(&s.peers, port_name.as_str());
        let state = match found {
            Some(i) => Some(&s.peers[i].1.state),
            None => None,
        };
        let message = problem(port_name.as_str(), state);
        match message {
            Some(m) => {
                put_pair(&mut health_data.unhealthy_tor_peers, port_name, m);
            },
            None => {},
        }
        assert(health_data@.tor =~= tor_ports(h0.tor, peers, up.take(port_id + 1)));
        port_id = port_id + 1;
    }
    assert(up.take(min_healthy_links as int) == up.take(port_id as int));
}

proof fn lemma_pair_views_push(v: Seq<(String, String)>, x: (String, String))
    ensures
        pair_views(v.push(x)) == pair_views(v).push((x.0@, x.1@)),
{
    assert(pair_views(v.push(x)) =~= pair_views(v).push((x.0@, x.1@)));
}

/// Whether `x` is among `v`.
fn contains_name(v: &Vec<String>, x: &str) -> (r: bool)
    ensures
        r == string_views(v@).contains(x@),
{
    let mut i: usize = 0;
    while i < v.len()
        invariant
            i <= v@.len(),
            forall|j: int| 0 <= j < i ==> string_views(v@)[j] != x@,
        decreases v@.len() - i,
    {
        if str_eq(v[i].as_str(), x) {
            assert(string_views(v@)[i as int] == x@);
            return true;
        }
        i = i + 1;
    }
    false
}

/// Records an error when the address family has dynamic peers.
fn check_dynamic_peers(name: &str, dynamic_peers: u32, health_data: &mut BgpHealthData)
    ensures
        final(health_data)@ == (HealthDataView {
            other_errors: dynamic_check(old(health_data)@.other_errors, name@, dynamic_peers),
            ..old(health_data)@
        }),
{
    if dynamic_peers != 0 {
        let mut msg = String::from_str(name);
        push_str(&mut msg, ".dynamic_peers is ");
        push_decimal(&mut msg, dynamic_peers as u64);
        push_str(&mut msg, " should be 0");
        assert(msg@ =~= msg_dynamic_peers(name@, dynamic_peers as nat));
        health_data.other_errors.push(msg);
        assert(string_views(health_data.other_errors@) =~= string_views(old(health_data).other_errors@).push(
            msg@,
        ));
    }
}

/// Checks the IPv4 unicast sessions: the TOR sessions, then every other session must lead to
/// one of the host routes, then there must be no dynamic peers.
pub fn check_bgp_stats_ipv4_unicast(
    name: &str,
    s: &BgpStats,
    health_data: &mut BgpHealthData,
    host_routes: &Vec<String>,
    min_healthy_links: u32,
    hbn_device_names: &HBNDeviceNames,
)
    ensures
        final(health_data)@ == ipv4_check(
            name@,
            s@,
            old(health_data)@,
            string_views(host_routes@),
            min_healthy_links as nat,
            string_views(hbn_device_names.uplinks@),
        ),
{
    check_bgp_tor_routes(s, health_data, min_healthy_links, hbn_device_names);
    let ghost h1 = health_data@;
    let ghost allowed = string_views(host_routes@);
    let others = s.other_peers();
    let ghost ov = pair_views(others@);
    let mut i: usize = 0;
    while i < others.len()
        invariant
            i <= others@.len(),
            ov == pair_views(others@),
            allowed == string_views(host_routes@),
            health_data@ == (HealthDataView {
                unexpected: h1.unexpected + disallowed(name@, ov.take(i as int), allowed),
                ..h1
            }),
        decreases others@.len() - i,
    {
        assert(ov.take(i + 1).drop_last() =~= ov.take(i as int));
        let peer_name = &others[i].0;
        let ghost before = health_data.unexpected_peers@;
        if !contains_name(host_routes, peer_name.as_str()) {
            let entry = (String::from_str(name), peer_name.clone());
            health_data.unexpected_peers.push(entry);
            proof {
                lemma_pair_views_push(before, entry);
            }
        }
        assert(health_data@.unexpected =~= h1.unexpected + disallowed(name@, ov.take(i + 1), allowed));
        i = i + 1;
    }
    assert(ov.take(others@.len() as int) =~= ov);
    check_dynamic_peers(name, s.dynamic_peers, health_data);
}

/// Records every session of `others` as unexpected in `group`.
fn all_unexpected_exec(group: &str, others: &Vec<(String, String)>, health_data: &mut BgpHealthData)
    ensures
        final(health_data)@ == (HealthDataView {
            unexpected: old(health_data)@.unexpected + all_unexpected(group@, pair_views(others@)),
            ..old(health_data)@
        }),
{
    let ghost h0 = health_data@;
    let ghost ov = pair_views(others@);
    let mut i: usize = 0;
    while i < others.len()
        invariant
            i <= others@.len(),
            h0 == old(health_data)@,
            ov == pair_views(others@),
            health_data@ == (HealthDataView { unexpected: h0.unexpected + all_unexpected(group@, ov.take(i as int)), ..h0 }),
        decreases others@.len() - i,
    {
        let ghost before = health_data.unexpected_peers@;
        let entry = (String::from_str(group), others[i].0.clone());
        health_data.unexpected_peers.push(entry);
        proof {
            lemma_pair_views_push(before, entry);
        }
        assert(health_data@.unexpected =~= h0.unexpected + all_unexpected(group@, ov.take(i + 1)));
        i = i + 1;
    }
    assert(ov.take(others@.len() as int) =~= ov);
}

/// Checks the L2 VPN EVPN sessions. Without route servers only TOR sessions may exist;
/// with route servers, each must have an established session and no other non-TOR session
/// may exist. Then there must be no dynamic peers.
pub fn check_bgp_stats_l2_vpn_evpn(
    name: &str,
    s: &BgpStats,
    health_data: &mut BgpHealthData,
    route_servers: &Vec<String>,
    min_healthy_links: u32,
    hbn_device_names: &HBNDeviceNames,
)
    ensures
        final(health_data)@ == evpn_check(
            name@,
            s@,
            old(health_data)@,
            string_views(route_servers@),
            min_healthy_links as nat,
            string_views(hbn_device_names.uplinks@),
        ),
{
    let ghost h0 = health_data@;
    let ghost servers = string_views(route_servers@);
    if route_servers.len() == 0 {
        check_bgp_tor_routes(s, health_data, min_healthy_links, hbn_device_names);
        let others = s.other_peers();
        all_unexpected_exec(name, &others, health_data);
    } else {
        let mut rem = s.other_peers();
        let ghost others0 = pair_views(rem@);
        let mut j: usize = 0;
        while j < route_servers.len()
            invariant
                j <= route_servers@.len(),
                servers == string_views(route_servers@),
                h0 == old(health_data)@,
                pair_views(rem@) == route_server_pass(servers.take(j as int), others0).1,
                health_data@ == (HealthDataView {
                    route_servers: h0.route_servers + route_server_pass(servers.take(j as int), others0).0,
                    ..h0
                }),
            decreases route_servers@.len() - j,
        {
            assert(servers.take(j + 1).drop_last() =~= servers.take(j as int));
            let route_server = &route_servers[j];
            let found = find_pair(&rem, route_server.as_str());
            let message = match found {
                Some(i) => problem(route_server.as_str(), Some(&rem[i].1)),
                None => problem(route_server.as_str(), None),
            };
            match found {
                Some(i) => {
                    rem.remove(i);
                },
                None => {},
            }
            let ghost before = health_data.unhealthy_route_server_peers@;
            match message {
                Some(m) => {
                    let entry = (route_server.clone(), m);
                    health_data.unhealthy_route_server_peers.push(entry);
                    proof {
                        lemma_pair_views_push(before, entry);
                    }
                },
                None => {},
            }
            assert(pair_views(rem@) =~= route_server_pass(servers.take(j + 1), others0).1);
            assert(health_data@.route_servers =~= h0.route_servers + route_server_pass(servers.take(j + 1), others0).0);
            j = j + 1;
        }
        assert(servers.take(route_servers@.len() as int) =~= servers);
        all_unexpected_exec(name, &rem, health_data);
    }
    check_dynamic_peers(name, s.dynamic_peers, health_data);
}

/// What the checks of a BGP summary find: an error where it could not be decoded, else the
/// IPv4 unicast check followed by the L2 VPN EVPN check.
pub open spec fn summary_check(
    hd: HealthDataView,
    json: Seq<char>,
    decoded: Result<(StatsView, StatsView), Seq<char>>,
    host_routes: Seq<Seq<char>>,
    min: nat,
    route_servers: Seq<Seq<char>>,
    uplinks: Seq<Seq<char>>,
) -> HealthDataView {
    match decoded {
        Err(e) => HealthDataView { other_errors: hd.other_errors.push(msg_undecodable(json, e)), ..hd },
        Ok((ipv4, evpn)) => evpn_check(
            "l2_vpn_evpn"@,
            evpn,
            ipv4_check("ipv4_unicast"@, ipv4, hd, host_routes, min, uplinks),
            route_servers,
            min,
            uplinks,
        ),
    }
}

/// The view of a decoded BGP summary, or of the decoding error.
pub open spec fn decoded_view(d: Result<BgpNetworks, String>) -> Result<(StatsView, StatsView), Seq<char>> {
    match d {
        Ok(n) => Ok((n.ipv4_unicast@, n.l2_vpn_evpn@)),
        Err(e) => Err(e@),
    }
}

/// Checks the BGP summary `bgp_json`, which was decoded into `networks` or failed to decode
/// with an error.
pub fn verify_bgp_summary(
    health_data: &mut BgpHealthData,
    bgp_json: &str,
    networks: Result<BgpNetworks, String>,
    host_routes: &Vec<String>,
    min_healthy_links: u32,
    route_servers: &Vec<String>,
    hbn_device_names: &HBNDeviceNames,
)
    ensures
        final(health_data)@ == summary_check(
            old(health_data)@,
            bgp_json@,
            decoded_view(networks),
            string_views(host_routes@),
            min_healthy_links as nat,
            string_views(route_servers@),
            string_views(hbn_device_names.uplinks@),
        ),
{
    match networks {
        Err(e) => {
            let mut msg = String::from_str("failed to deserialize bgp_json: ");
            push_str(&mut msg, bgp_json);
            push_str(&mut msg, " with error: ");
            push_str(&mut msg, e.as_str());
            assert(msg@ =~= msg_undecodable(bgp_json@, e@));
            health_data.other_errors.push(msg);
            assert(string_views(health_data.other_errors@) =~= string_views(old(health_data).other_errors@).push(
                msg@,
            ));
        },
        Ok(n) => {
            check_bgp_stats_ipv4_unicast(
                "ipv4_unicast",
                &n.ipv4_unicast,
                health_data,
                host_routes,
                min_healthy_links,
                hbn_device_names,
            );
            check_bgp_stats_l2_vpn_evpn(
                "l2_vpn_evpn",
                &n.l2_vpn_evpn,
                health_data,
                route_servers,
                min_healthy_links,
                hbn_device_names,
            );
        },
    }
}

// ---------------------------------------------------------------------------
// The health report
// ---------------------------------------------------------------------------

/// Lines joined with a newline between each two.
pub open spec fn join_lines(xs: Seq<Seq<char>>) -> Seq<char>
    decreases xs.len(),
{
    if xs.len() == 0 {
        Seq::empty()
    } else if xs.len() == 1 {
        xs[0]
    } else {
        join_lines(xs.drop_last()) + "\n"@ + xs.last()
    }
}

pub open spec fn msg_unexpected_peer(group: Seq<char>, peer: Seq<char>) -> Seq<char> {
    "Unexpected BGP session referencing peer "@ + peer + " was found in "@ + group
}

/// The report after the outcome of the BGP data gathering: passed without errors, else an
/// alert listing them under a heading.
pub open spec fn stats_outcome(r: ReportView, errors: Seq<Seq<char>>) -> ReportView {
    if errors.len() == 0 {
        with_success(r, SuccessView { id: ProbeId::BgpStats, target: None })
    } else {
        with_alert(
            r,
            alert_of(
                ProbeId::BgpStats,
                None,
                join_lines(seq!["Failures while gathering BGP health data:"@] + errors),
                false,
            ),
        )
    }
}

/// The alerts for the sessions found wanting: TOR sessions (critical only when more than
/// one is unhealthy), then route server sessions, then unexpected sessions.
pub open spec fn session_alerts(d: HealthDataView) -> Seq<crate::health_report::AlertView> {
    d.tor.map_values(|p: Pair| alert_of(ProbeId::BgpPeeringTor, Some(p.0), p.1, d.tor.len() > 1))
        + d.route_servers.map_values(|p: Pair| alert_of(ProbeId::BgpPeeringRouteServer, Some(p.0), p.1, true))
        + d.unexpected.map_values(
        |p: Pair| alert_of(ProbeId::UnexpectedBgpPeer, Some(p.1), msg_unexpected_peer(p.0, p.1), true),
    )
}

/// The report after what the BGP checks found has been added to it.
pub open spec fn bgp_report(r: ReportView, d: HealthDataView) -> ReportView {
    let r1 = stats_outcome(r, d.other_errors);
    ReportView { alerts: r1.alerts + session_alerts(d), ..r1 }
}

/// Joins lines with a newline between each two.
fn join_with_newlines(xs: &Vec<String>) -> (r: String)
    ensures
        r@ == join_lines(string_views(xs@)),
{
    let ghost v = string_views(xs@);
    let mut r = String::new();
    let mut i: usize = 0;
    while i < xs.len()
        invariant
            i <= xs@.len(),
            v == string_views(xs@),
            r@ == join_lines(v.take(i as int)),
        decreases xs@.len() - i,
    {
        assert(v.take(i + 1).drop_last() =~= v.take(i as int));
        if i > 0 {
            push_str(&mut r, "\n");
        }
        push_str(&mut r, xs[i].as_str());
        assert(r@ =~= join_lines(v.take(i + 1)));
        i = i + 1;
    }
    assert(v.take(xs@.len() as int) =~= v);
    r
}

fn push_alert(hr: &mut HealthReport, a: crate::health_report::HealthProbeAlert)
    ensures
        final(hr)@ == with_alert(old(hr)@, a@),
{
    hr.alerts.push(a);
    assert(final(hr)@.alerts =~= old(hr)@.alerts.push(a@));
}

impl BgpHealthData {
    /// Adds what the BGP checks found to a health report.
    pub fn into_health_report(self, hr: &mut HealthReport)
        ensures
            final(hr)@ == bgp_report(old(hr)@, self@),
    {
        let ghost d = self@;
        let mut this = self;
        if this.other_errors.len() == 0 {
            passed(hr, ProbeId::BgpStats, None);
        } else {
            let mut lines: Vec<String> = Vec::new();
            lines.push(String::from_str("Failures while gathering BGP health data:"));
            let ghost l0 = lines@;
            lines.append(&mut this.other_errors);
            assert(string_views(lines@) =~= seq!["Failures while gathering BGP health data:"@] + d.other_errors);
            let err_msg = join_with_newlines(&lines);
            failed(hr, ProbeId::BgpStats, None, err_msg);
        }
        let ghost r1 = hr@;
        assert(r1 == stats_outcome(old(hr)@, d.other_errors));
        let ghost base = r1.alerts;

        let critical = this.unhealthy_tor_peers.len() > 1;
        let mut i: usize = 0;
        while i < this.unhealthy_tor_peers.len()
            invariant
                i <= this.unhealthy_tor_peers@.len(),
                pair_views(this.unhealthy_tor_peers@) == d.tor,
                critical == (d.tor.len() > 1),
                hr@ == (ReportView {
                    alerts: base + d.tor.take(i as int).map_values(
                        |p: Pair| alert_of(ProbeId::BgpPeeringTor, Some(p.0), p.1, d.tor.len() > 1),
                    ),
                    ..r1
                }),
            decreases this.unhealthy_tor_peers@.len() - i,
        {
            let (port, message) = (this.unhealthy_tor_peers[i].0.clone(), this.unhealthy_tor_peers[i].1.clone());
            push_alert(hr, make_alert(ProbeId::BgpPeeringTor, Some(port), message, critical));
            assert(hr@.alerts =~= base + d.tor.take(i + 1).map_values(
                |p: Pair| alert_of(ProbeId::BgpPeeringTor, Some(p.0), p.1, d.tor.len() > 1),
            ));
            i = i + 1;
        }
        assert(d.tor.take(d.tor.len() as int) =~= d.tor);
        let ghost base2 = hr@.alerts;

        let mut i: usize = 0;
        while i < this.unhealthy_route_server_peers.len()
            invariant
                i <= this.unhealthy_route_server_peers@.len(),
                pair_views(this.unhealthy_route_server_peers@) == d.route_servers,
                hr@ == (ReportView {
                    alerts: base2 + d.route_servers.take(i as int).map_values(
                        |p: Pair| alert_of(ProbeId::BgpPeeringRouteServer, Some(p.0), p.1, true),
                    ),
                    ..r1
                }),
            decreases this.unhealthy_route_server_peers@.len() - i,
        {
            let (server, message) = (
                this.unhealthy_route_server_peers[i].0.clone(),
                this.unhealthy_route_server_peers[i].1.clone(),
            );
            push_alert(hr, make_alert(ProbeId::BgpPeeringRouteServer, Some(server), message, true));
            assert(hr@.alerts =~= base2 + d.route_servers.take(i + 1).map_values(
                |p: Pair| alert_of(ProbeId::BgpPeeringRouteServer, Some(p.0), p.1, true),
            ));
            i = i + 1;
        }
        assert(d.route_servers.take(d.route_servers.len() as int) =~= d.route_servers);
        let ghost base3 = hr@.alerts;

        let mut i: usize = 0;
        while i < this.unexpected_peers.len()
            invariant
                i <= this.unexpected_peers@.len(),
                pair_views(this.unexpected_peers@) == d.unexpected,
                hr@ == (ReportView {
                    alerts: base3 + d.unexpected.take(i as int).map_values(
                        |p: Pair| alert_of(ProbeId::UnexpectedBgpPeer, Some(p.1), msg_unexpected_peer(p.0, p.1), true),
                    ),
                    ..r1
                }),
            decreases this.unexpected_peers@.len() - i,
        {
            let group = &this.unexpected_peers[i].0;
            let peer_name = &this.unexpected_peers[i].1;
            let mut message = String::from_str("Unexpected BGP session referencing peer ");
            push_str(&mut message, peer_name.as_str());
            push_str(&mut message, " was found in ");
            push_str(&mut message, group.as_str());
            assert(message@ =~= msg_unexpected_peer(group@, peer_name@));
            push_alert(hr, make_alert(ProbeId::UnexpectedBgpPeer, Some(peer_name.clone()), message, true));
            assert(hr@.alerts =~= base3 + d.unexpected.take(i + 1).map_values(
                |p: Pair| alert_of(ProbeId::UnexpectedBgpPeer, Some(p.1), msg_unexpected_peer(p.0, p.1), true),
            ));
            i = i + 1;
        }
        assert(d.unexpected.take(d.unexpected.len() as int) =~= d.unexpected);
        assert(hr@.alerts =~= r1.alerts + session_alerts(d));
    }
}

// ---------------------------------------------------------------------------
// The probes
// ---------------------------------------------------------------------------

/// The outcome of the BGP daemon probe, given the name of the daemons file and either its
/// contents or why it could not be read.
pub open spec fn daemon_report(r: ReportView, file: Seq<char>, contents: Result<Seq<char>, Seq<char>>) -> ReportView {
    match contents {
        Err(err) => with_alert(
            r,
            alert_of(ProbeId::BgpDaemonEnabled, None, "Trying to open and read "@ + file + ": "@ + err, false),
        ),
        Ok(daemons) => if contains_seq(daemons, "bgpd=no"@) {
            with_alert(
                r,
                alert_of(
                    ProbeId::BgpDaemonEnabled,
                    None,
                    "BGP daemon is disabled - "@ + file + " contains 'bgpd=no'"@,
                    false,
                ),
            )
        } else if !contains_seq(daemons, "bgpd=yes"@) {
            with_alert(
                r,
                alert_of(
                    ProbeId::BgpDaemonEnabled,
                    None,
                    "BGP daemon is not enabled - "@ + file + " does not contain 'bgpd=yes'"@,
                    false,
                ),
            )
        } else {
            with_success(r, SuccessView { id: ProbeId::BgpDaemonEnabled, target: None })
        },
    }
}

/// The view of a text or of why it could not be had.
pub open spec fn text_result(r: Result<String, String>) -> Result<Seq<char>, Seq<char>> {
    match r {
        Ok(s) => Ok(s@),
        Err(e) => Err(e@),
    }
}

/// Checks that the BGP daemon is enabled in the daemons file `hbn_daemons_file`, given its
/// contents or the error that reading it gave.
pub fn check_daemon_enabled(hr: &mut HealthReport, hbn_daemons_file: &str, contents: Result<String, String>)
    ensures
        final(hr)@ == daemon_report(old(hr)@, hbn_daemons_file@, text_result(contents)),
{
    let daemons = match contents {
        Ok(s) => s,
        Err(err) => {
            let mut msg = String::from_str("Trying to open and read ");
            push_str(&mut msg, hbn_daemons_file);
            push_str(&mut msg, ": ");
            push_str(&mut msg, err.as_str());
            assert(msg@ =~= "Trying to open and read "@ + hbn_daemons_file@ + ": "@ + err@);
            failed(hr, ProbeId::BgpDaemonEnabled, None, msg);
            return;
        },
    };
    if contains_str(daemons.as_str(), "bgpd=no") {
        let mut msg = String::from_str("BGP daemon is disabled - ");
        push_str(&mut msg, hbn_daemons_file);
        push_str(&mut msg, " contains 'bgpd=no'");
        assert(msg@ =~= "BGP daemon is disabled - "@ + hbn_daemons_file@ + " contains 'bgpd=no'"@);
        failed(hr, ProbeId::BgpDaemonEnabled, None, msg);
        return;
    }
    if !contains_str(daemons.as_str(), "bgpd=yes") {
        let mut msg = String::from_str("BGP daemon is not enabled - ");
        push_str(&mut msg, hbn_daemons_file);
        push_str(&mut msg, " does not contain 'bgpd=yes'");
        assert(msg@ =~= "BGP daemon is not enabled - "@ + hbn_daemons_file@ + " does not contain 'bgpd=yes'"@);
        failed(hr, ProbeId::BgpDaemonEnabled, None, msg);
        return;
    }
    passed(hr, ProbeId::BgpDaemonEnabled, None);
}

/// The view of what running the BGP summary command gave: its output and how it decoded,
/// or why it could not be run.
pub open spec fn outcome_view(o: Result<(String, Result<BgpNetworks, String>), String>) -> Result<
    (Seq<char>, Result<(StatsView, StatsView), Seq<char>>),
    Seq<char>,
> {
    match o {
        Ok((json, decoded)) => Ok((json@, decoded_view(decoded))),
        Err(e) => Err(e@),
    }
}

/// Whether a report holds an alert of probe `id`.
pub open spec fn has_alert_of(r: ReportView, id: ProbeId) -> bool {
    exists|i: int| 0 <= i < r.alerts.len() && #[trigger] r.alerts[i].id == id
}

/// The report after the BGP statistics probe. When the daemon probe has already failed the
/// report is left as it is: the statistics would only repeat that failure.
pub open spec fn stats_report(
    r: ReportView,
    outcome: Result<(Seq<char>, Result<(StatsView, StatsView), Seq<char>>), Seq<char>>,
    host_routes: Seq<Seq<char>>,
    min: nat,
    route_servers: Seq<Seq<char>>,
    uplinks: Seq<Seq<char>>,
) -> ReportView {
    if has_alert_of(r, ProbeId::BgpDaemonEnabled) {
        r
    } else {
        let empty = HealthDataView {
            tor: Seq::empty(),
            route_servers: Seq::empty(),
            unexpected: Seq::empty(),
            other_errors: Seq::empty(),
        };
        let d = match outcome {
            Ok((json, decoded)) => summary_check(empty, json, decoded, host_routes, min, route_servers, uplinks),
            Err(e) => HealthDataView { other_errors: seq![e], ..empty },
        };
        bgp_report(r, d)
    }
}

/// Checks the BGP statistics, given what running the summary command gave: its output with
/// how it decoded, or why it could not be run.
pub fn check_bgp_stats(
    hr: &mut HealthReport,
    outcome: Result<(String, Result<BgpNetworks, String>), String>,
    host_routes: &Vec<String>,
    min_healthy_links: u32,
    route_servers: &Vec<String>,
    hbn_device_names: &HBNDeviceNames,
)
    ensures
        final(hr)@ == stats_report(
            old(hr)@,
            outcome_view(outcome),
            string_views(host_routes@),
            min_healthy_links as nat,
            string_views(route_servers@),
            string_views(hbn_device_names.uplinks@),
        ),
{
    if hr.has_alert(ProbeId::BgpDaemonEnabled) {
        return;
    }
    let mut health_data = BgpHealthData {
        unhealthy_tor_peers: Vec::new(),
        unhealthy_route_server_peers: Vec::new(),
        unexpected_peers: Vec::new(),
        other_errors: Vec::new(),
    };
    assert(health_data@.tor =~= Seq::<Pair>::empty());
    assert(health_data@.route_servers =~= Seq::<Pair>::empty());
    assert(health_data@.unexpected =~= Seq::<Pair>::empty());
    assert(health_data@.other_errors =~= Seq::<Seq<char>>::empty());
    match outcome {
        Ok((bgp_json, networks)) => {
            verify_bgp_summary(
                &mut health_data,
                bgp_json.as_str(),
                networks,
                host_routes,
                min_healthy_links,
                route_servers,
                hbn_device_names,
            );
        },
        Err(err) => {
            health_data.other_errors.push(err);
            assert(health_data@.other_errors =~= seq![err@]);
        },
    }
    health_data.into_health_report(hr);
}

// ---------------------------------------------------------------------------
// Laws
// ---------------------------------------------------------------------------

/// Whether no two entries of a table share a key.
pub open spec fn unique_keys(t: Seq<Pair>) -> bool {
    forall|i: int, j: int| 0 <= i < j < t.len() ==> t[i].0 != t[j].0
}

proof fn lemma_put_unique(t: Seq<Pair>, k: Seq<char>, v: Seq<char>)
    requires
        unique_keys(t),
    ensures
        unique_keys(put(t, k, v)),
        firsts(put(t, k, v)).contains(k),
{
    lemma_first_index_found(firsts(t), k);
    let i = first_index(firsts(t), k);
    let r = put(t, k, v);
    if i >= 0 {
        assert(firsts(r)[i] == k);
        assert forall|a: int| 0 <= a < t.len() implies #[trigger] r[a].0 == t[a].0 by {
            assert(firsts(t)[a] == t[a].0);
        }
    } else {
        assert(firsts(r)[t.len() as int] == k);
        assert forall|a: int, b: int| 0 <= a < b < r.len() implies r[a].0 != r[b].0 by {
            assert(firsts(t)[a] == t[a].0);
        }
    }
}

proof fn lemma_tor_ports_unique(t: Seq<Pair>, peers: Seq<Pair>, ports: Seq<Seq<char>>)
    requires
        unique_keys(t),
    ensures
        unique_keys(tor_ports(t, peers, ports)),
    decreases ports.len(),
{
    if ports.len() > 0 {
        lemma_tor_ports_unique(t, peers, ports.drop_last());
        let t1 = tor_ports(t, peers, ports.drop_last());
        let p = ports.last();
        match session_problem(p, lookup(peers, p)) {
            Some(m) => lemma_put_unique(t1, p, m),
            None => {},
        }
    }
}

/// Checking the TOR sessions keeps one entry per port: however often the ports are checked,
/// no port is listed twice among the unhealthy TOR sessions.
pub proof fn lemma_tor_entries_stay_unique(hd: HealthDataView, peers: Seq<Pair>, min: nat, uplinks: Seq<Seq<char>>)
    requires
        unique_keys(hd.tor),
    ensures
        unique_keys(tor_routes(hd, peers, min, uplinks).tor),
{
    if min <= uplinks.len() {
        lemma_tor_ports_unique(hd.tor, peers, uplinks.take(min as int));
    } else {
        lemma_tor_ports_unique(hd.tor, peers, uplinks);
    }
}

/// A port whose session is missing or not established is listed among the unhealthy TOR
/// sessions after it has been checked.
pub proof fn lemma_unhealthy_port_listed(t: Seq<Pair>, peers: Seq<Pair>, ports: Seq<Seq<char>>, k: int)
    requires
        0 <= k < ports.len(),
        session_problem(ports[k], lookup(peers, ports[k])) is Some,
    ensures
        firsts(tor_ports(t, peers, ports)).contains(ports[k]),
    decreases ports.len(),
{
    let t1 = tor_ports(t, peers, ports.drop_last());
    let p = ports.last();
    if k == ports.len() - 1 {
        lemma_first_index_found(firsts(t1), p);
        let i = first_index(firsts(t1), p);
        if i >= 0 {
            assert(firsts(put(t1, p, session_problem(p, lookup(peers, p))->0))[i] == p);
        } else {
            assert(firsts(put(t1, p, session_problem(p, lookup(peers, p))->0))[t1.len() as int] == p);
        }
    } else {
        lemma_unhealthy_port_listed(t, peers, ports.drop_last(), k);
        match session_problem(p, lookup(peers, p)) {
            Some(m) => {
                let j = choose|j: int| 0 <= j < firsts(t1).len() && firsts(t1)[j] == ports[k];
                lemma_first_index_found(firsts(t1), p);
                let i = first_index(firsts(t1), p);
                if i >= 0 {
                    assert(firsts(put(t1, p, m))[j] == ports[k]);
                } else {
                    assert(firsts(put(t1, p, m))[j] == ports[k]);
                }
            },
            None => {},
        }
    }
}

/// Whether the first entry under `k` holds `v`.
pub open spec fn holds_at(t: Seq<Pair>, k: Seq<char>, v: Seq<char>) -> bool {
    let i = first_index(firsts(t), k);
    i >= 0 && t[i] == (k, v)
}

proof fn lemma_put_sets(t: Seq<Pair>, k: Seq<char>, v: Seq<char>)
    ensures
        holds_at(put(t, k, v), k, v),
{
    let i = first_index(firsts(t), k);
    lemma_first_index_found(firsts(t), k);
    if i >= 0 {
        assert(firsts(put(t, k, v)) =~= firsts(t));
    } else {
        assert(firsts(put(t, k, v)) =~= firsts(t).push(k));
        lemma_first_index_push(firsts(t), k, k);
    }
}

proof fn lemma_put_keeps(t: Seq<Pair>, k: Seq<char>, v: Seq<char>, q: Seq<char>, w: Seq<char>)
    requires
        q != k,
        holds_at(t, q, w),
    ensures
        holds_at(put(t, k, v), q, w),
{
    let i = first_index(firsts(t), k);
    let iq = first_index(firsts(t), q);
    lemma_first_index_found(firsts(t), k);
    lemma_first_index_found(firsts(t), q);
    assert(firsts(t)[iq] == q);
    if i >= 0 {
        assert(firsts(t)[i] == k);
        assert(firsts(put(t, k, v)) =~= firsts(t));
        assert(put(t, k, v)[iq] == t[iq]);
    } else {
        assert(firsts(put(t, k, v)) =~= firsts(t).push(k));
        lemma_first_index_push(firsts(t), k, q);
        assert(put(t, k, v)[iq] == t[iq]);
    }
}

proof fn lemma_put_held(t: Seq<Pair>, k: Seq<char>, v: Seq<char>)
    requires
        holds_at(t, k, v),
    ensures
        put(t, k, v) == t,
{
    let i = first_index(firsts(t), k);
    lemma_first_index_found(firsts(t), k);
    assert(i >= 0 && t[i] == (k, v));
    assert(put(t, k, v) == t.update(i, (k, v)));
    assert(t.update(i, (k, v)) =~= t);
}

/// After the ports are checked, each port with a problem holds its message.
proof fn lemma_tor_ports_hold(t: Seq<Pair>, peers: Seq<Pair>, ports: Seq<Seq<char>>)
    ensures
        forall|j: int| 0 <= j < ports.len() && (#[trigger] session_problem(ports[j], lookup(peers, ports[j]))) is Some
            ==> holds_at(tor_ports(t, peers, ports), ports[j], session_problem(ports[j], lookup(peers, ports[j]))->0),
    decreases ports.len(),
{
    if ports.len() > 0 {
        let ps = ports.drop_last();
        lemma_tor_ports_hold(t, peers, ps);
        let t1 = tor_ports(t, peers, ps);
        let p = ports.last();
        assert forall|j: int| 0 <= j < ports.len() && (#[trigger] session_problem(ports[j], lookup(peers, ports[j]))) is Some
            implies holds_at(tor_ports(t, peers, ports), ports[j], session_problem(ports[j], lookup(peers, ports[j]))->0) by {
            let q = ports[j];
            let w = session_problem(q, lookup(peers, q))->0;
            match session_problem(p, lookup(peers, p)) {
                Some(m) => {
                    if q == p {
                        lemma_put_sets(t1, p, m);
                    } else {
                        assert(ps[j] == q);
                        lemma_put_keeps(t1, p, m, q, w);
                    }
                },
                None => {
                    assert(j < ports.len() - 1);
                    assert(ps[j] == q);
                },
            }
        }
    }
}

/// Checking ports again on a table that already holds each of their messages changes nothing.
proof fn lemma_tor_ports_stable(t: Seq<Pair>, peers: Seq<Pair>, ports: Seq<Seq<char>>)
    requires
        forall|j: int| 0 <= j < ports.len() && (#[trigger] session_problem(ports[j], lookup(peers, ports[j]))) is Some
            ==> holds_at(t, ports[j], session_problem(ports[j], lookup(peers, ports[j]))->0),
    ensures
        tor_ports(t, peers, ports) == t,
    decreases ports.len(),
{
    if ports.len() > 0 {
        let ps = ports.drop_last();
        assert forall|j: int| 0 <= j < ps.len() && (#[trigger] session_problem(ps[j], lookup(peers, ps[j]))) is Some
            implies holds_at(t, ps[j], session_problem(ps[j], lookup(peers, ps[j]))->0) by {
            assert(ps[j] == ports[j]);
        }
        lemma_tor_ports_stable(t, peers, ps);
        let p = ports.last();
        let k = ports.len() - 1;
        assert(ports[k] == p);
        match session_problem(p, lookup(peers, p)) {
            Some(m) => lemma_put_held(t, p, m),
            None => {},
        }
    }
}

/// Checking the TOR sessions a second time against the same BGP data leaves the unhealthy
/// TOR sessions as the first check left them; where there are enough uplinks, the whole
/// health data is left as it was.
pub proof fn lemma_tor_check_idempotent(hd: HealthDataView, peers: Seq<Pair>, min: nat, uplinks: Seq<Seq<char>>)
    ensures
        tor_routes(tor_routes(hd, peers, min, uplinks), peers, min, uplinks).tor
            == tor_routes(hd, peers, min, uplinks).tor,
        min <= uplinks.len() ==> tor_routes(tor_routes(hd, peers, min, uplinks), peers, min, uplinks)
            == tor_routes(hd, peers, min, uplinks),
{
    let ports = if min <= uplinks.len() { uplinks.take(min as int) } else { uplinks };
    lemma_tor_ports_hold(hd.tor, peers, ports);
    lemma_tor_ports_stable(tor_ports(hd.tor, peers, ports), peers, ports);
}

/// Both address-family checks report dynamic peers: after the check, the error list is the
/// one the earlier steps left with `<name>.dynamic_peers is N should be 0` added at its end
/// exactly when the family has N > 0 dynamic peers, and nothing added otherwise.
pub proof fn lemma_dynamic_peers_reported(
    name: Seq<char>,
    s: StatsView,
    hd: HealthDataView,
    host_routes: Seq<Seq<char>>,
    route_servers: Seq<Seq<char>>,
    min: nat,
    uplinks: Seq<Seq<char>>,
)
    ensures
        ({
            let msg = name + ".dynamic_peers is "@ + decimal(s.dynamic_peers as nat) + " should be 0"@;
            let tor_errors = tor_routes(hd, s.peers, min, uplinks).other_errors;
            let evpn_before = if route_servers.len() == 0 { tor_errors } else { hd.other_errors };
            &&& ipv4_check(name, s, hd, host_routes, min, uplinks).other_errors == if s.dynamic_peers != 0 {
                tor_errors.push(msg)
            } else {
                tor_errors
            }
            &&& evpn_check(name, s, hd, route_servers, min, uplinks).other_errors == if s.dynamic_peers != 0 {
                evpn_before.push(msg)
            } else {
                evpn_before
            }
        }),
{
}

proof fn lemma_disallowed_members(group: Seq<char>, others: Seq<Pair>, allowed: Seq<Seq<char>>)
    ensures
        forall|k: int| 0 <= k < disallowed(group, others, allowed).len() ==> {
            let e = #[trigger] disallowed(group, others, allowed)[k];
            &&& e.0 == group
            &&& !allowed.contains(e.1)
            &&& exists|i: int| 0 <= i < others.len() && others[i].0 == e.1
        },
        forall|i: int| 0 <= i < others.len() && !allowed.contains(#[trigger] others[i].0) ==> disallowed(
            group,
            others,
            allowed,
        ).contains((group, others[i].0)),
    decreases others.len(),
{
    if others.len() > 0 {
        let o = others.drop_last();
        lemma_disallowed_members(group, o, allowed);
        let r = disallowed(group, o, allowed);
        let full = disallowed(group, others, allowed);
        let last = others.last();
        assert forall|k: int| 0 <= k < full.len() implies {
            let e = #[trigger] full[k];
            &&& e.0 == group
            &&& !allowed.contains(e.1)
            &&& exists|i: int| 0 <= i < others.len() && others[i].0 == e.1
        } by {
            if k < r.len() {
                assert(full[k] == r[k]);
                let e = r[k];
                let i = choose|i: int| 0 <= i < o.len() && o[i].0 == e.1;
                assert(others[i] == o[i]);
            } else {
                assert(others[others.len() - 1] == last);
            }
        }
        assert forall|i: int| 0 <= i < others.len() && !allowed.contains(#[trigger] others[i].0) implies full.contains(
            (group, others[i].0),
        ) by {
            if i < o.len() {
                assert(o[i] == others[i]);
                assert(r.contains((group, o[i].0)));
                let k = choose|k: int| 0 <= k < r.len() && r[k] == (group, o[i].0);
                assert(full[k] == r[k]);
            } else {
                assert(full[full.len() - 1] == (group, last.0));
            }
        }
    }
}

proof fn lemma_other_peers_members(peers: Seq<Pair>)
    ensures
        forall|k: int| 0 <= k < other_peer_list(peers).len() ==> {
            let p = #[trigger] other_peer_list(peers)[k];
            !is_tor(p.0) && peers.contains(p)
        },
        forall|i: int| 0 <= i < peers.len() && !is_tor(#[trigger] peers[i].0) ==> other_peer_list(peers).contains(peers[i]),
{
    lemma_unflagged_members(peers, tor_flags(peers), peers.len() as int);
    assert(peers.take(peers.len() as int) =~= peers);
}

proof fn lemma_unflagged_members(peers: Seq<Pair>, flags: Seq<bool>, n: int)
    requires
        flags.len() == peers.len(),
        0 <= n <= peers.len(),
        forall|i: int| 0 <= i < peers.len() ==> flags[i] == is_tor(#[trigger] peers[i].0),
    ensures
        forall|k: int| 0 <= k < unflagged(peers.take(n), flags).len() ==> {
            let p = #[trigger] unflagged(peers.take(n), flags)[k];
            !is_tor(p.0) && peers.contains(p)
        },
        forall|i: int| 0 <= i < n && !is_tor(#[trigger] peers[i].0) ==> unflagged(peers.take(n), flags).contains(peers[i]),
    decreases n,
{
    if n > 0 {
        lemma_unflagged_members(peers, flags, n - 1);
        let t = peers.take(n);
        assert(t.drop_last() =~= peers.take(n - 1));
        assert(t.last() == peers[n - 1]);
        let r = unflagged(peers.take(n - 1), flags);
        let full = unflagged(t, flags);
        assert forall|k: int| 0 <= k < full.len() implies {
            let p = #[trigger] full[k];
            !is_tor(p.0) && peers.contains(p)
        } by {
            if k < r.len() {
                assert(full[k] == r[k]);
            } else {
                assert(full[k] == peers[n - 1]);
            }
        }
        assert forall|i: int| 0 <= i < n && !is_tor(#[trigger] peers[i].0) implies full.contains(peers[i]) by {
            if i < n - 1 {
                let k = choose|k: int| 0 <= k < r.len() && r[k] == peers[i];
                assert(full[k] == r[k]);
            } else {
                assert(full[full.len() - 1] == peers[i]);
            }
        }
    } else {
        assert(peers.take(0) =~= Seq::<Pair>::empty());
    }
}

/// The IPv4 unicast check reports as unexpected exactly the sessions that are not towards a
/// TOR and do not lead to a host route: every such session is added to the unexpected
/// ones under the family's name, and each one added is such a session.
pub proof fn lemma_unexpected_routes_reported(
    name: Seq<char>,
    s: StatsView,
    hd: HealthDataView,
    host_routes: Seq<Seq<char>>,
    min: nat,
    uplinks: Seq<Seq<char>>,
)
    ensures
        ({
            let before = tor_routes(hd, s.peers, min, uplinks).unexpected;
            let after = ipv4_check(name, s, hd, host_routes, min, uplinks).unexpected;
            &&& after.len() >= before.len()
            &&& after.subrange(0, before.len() as int) == before
            &&& forall|k: int| before.len() <= k < after.len() ==> {
                let e = #[trigger] after[k];
                &&& e.0 == name
                &&& !host_routes.contains(e.1)
                &&& exists|i: int| 0 <= i < s.peers.len() && s.peers[i].0 == e.1 && !is_tor(s.peers[i].0)
            }
            &&& forall|i: int| 0 <= i < s.peers.len() && !is_tor(#[trigger] s.peers[i].0) && !host_routes.contains(s.peers[i].0)
                ==> after.contains((name, s.peers[i].0))
        }),
{
    let before = tor_routes(hd, s.peers, min, uplinks).unexpected;
    let others = other_peer_list(s.peers);
    let d = disallowed(name, others, host_routes);
    let after = before + d;
    assert(ipv4_check(name, s, hd, host_routes, min, uplinks).unexpected == after);
    lemma_disallowed_members(name, others, host_routes);
    lemma_other_peers_members(s.peers);
    assert(after.subrange(0, before.len() as int) =~= before);
    assert forall|k: int| before.len() <= k < after.len() implies {
        let e = #[trigger] after[k];
        &&& e.0 == name
        &&& !host_routes.contains(e.1)
        &&& exists|i: int| 0 <= i < s.peers.len() && s.peers[i].0 == e.1 && !is_tor(s.peers[i].0)
    } by {
        let e = after[k];
        assert(e == d[k - before.len()]);
        let i = choose|i: int| 0 <= i < others.len() && others[i].0 == e.1;
        let p = others[i];
        assert(!is_tor(p.0) && s.peers.contains(p));
        let j = choose|j: int| 0 <= j < s.peers.len() && s.peers[j] == p;
        assert(s.peers[j].0 == e.1);
    }
    assert forall|i: int| 0 <= i < s.peers.len() && !is_tor(#[trigger] s.peers[i].0) && !host_routes.contains(s.peers[i].0)
        implies after.contains((name, s.peers[i].0)) by {
        let p = s.peers[i];
        assert(others.contains(p));
        let j = choose|j: int| 0 <= j < others.len() && others[j] == p;
        assert(!host_routes.contains(others[j].0));
        assert(d.contains((name, others[j].0)));
        let k = choose|k: int| 0 <= k < d.len() && d[k] == (name, p.0);
        assert(after[before.len() + k] == d[k]);
    }
}

} // verus!
