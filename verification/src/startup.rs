//! The decisions the API server makes on its configuration at startup: refusing deny
//! prefixes that overlap the site fabric, choosing the credential store and the chain of
//! credential readers, and migrating the deprecated BMC target override settings.

use vstd::prelude::*;

use crate::text::{decimal, push_decimal, push_str, str_eq};

verus! {

/// An IPv4 network: an address and a prefix length of at most 32.
#[derive(Debug, Clone, Copy, PartialEq, Eq, Structural)]
pub struct Ipv4Net {
    pub addr: u32,
    pub prefix: u8,
}

/// A network of the site fabric: an IPv4 one, or an IPv6 one in its written form.
#[derive(Debug, Clone)]
pub enum IpNet {
    V4(Ipv4Net),
    V6(String),
}

/// `2` to the power `n`.
pub open spec fn two_to(n: nat) -> nat
    decreases n,
{
    if n == 0 {
        1
    } else {
        2 * two_to((n - 1) as nat)
    }
}

/// How many addresses a network of this prefix length holds.
pub open spec fn block_size(prefix: u8) -> nat {
    two_to((32 - prefix) as nat)
}

/// The first address of the network.
pub open spec fn first_addr(n: Ipv4Net) -> int {
    (n.addr as int) - (n.addr as int) % (block_size(n.prefix) as int)
}

/// The last address of the network.
pub open spec fn last_addr(n: Ipv4Net) -> int {
    first_addr(n) + block_size(n.prefix) - 1
}

/// Whether two networks share an address.
pub open spec fn overlaps(a: Ipv4Net, b: Ipv4Net) -> bool {
    first_addr(a) <= last_addr(b) && first_addr(b) <= last_addr(a)
}

/// Whether a deny prefix overlaps a site fabric prefix; only IPv4 ones are compared.
pub open spec fn conflicts(d: Ipv4Net, s: IpNet) -> bool {
    match s {
        IpNet::V4(v4) => overlaps(d, v4),
        IpNet::V6(_) => false,
    }
}

/// How a network is written: `a.b.c.d/p`.
pub open spec fn net_text(n: Ipv4Net) -> Seq<char> {
    decimal((n.addr / 0x1000000) as nat) + "."@ + decimal(((n.addr / 0x10000) % 0x100) as nat) + "."@ + decimal(
        ((n.addr / 0x100) % 0x100) as nat,
    ) + "."@ + decimal((n.addr % 0x100) as nat) + "/"@ + decimal(n.prefix as nat)
}

/// How a site fabric network is written.
pub open spec fn ip_net_text(n: IpNet) -> Seq<char> {
    match n {
        IpNet::V4(v4) => net_text(v4),
        IpNet::V6(s) => s@,
    }
}

pub open spec fn msg_overlap(d: Ipv4Net, s: IpNet) -> Seq<char> {
    "overlap found in deny_prefixes `"@ + net_text(d) + "` and site_fabric_prefixes `"@ + ip_net_text(s) + "`"@
}

/// Whether the pair `(i, j)` comes before the pair `(k, l)`, deny prefix first.
pub open spec fn pair_before(i: int, j: int, k: int, l: int) -> bool {
    i < k || (i == k && j < l)
}

fn block_size_exec(prefix: u8) -> (r: u64)
    requires
        prefix <= 32,
    ensures
        r == block_size(prefix),
        1 <= r <= 0x1_0000_0000,
{
    let mut r: u64 = 1;
    let mut i: u8 = 0;
    proof {
        lemma_two_to_32();
    }
    while i < 32 - prefix
        invariant
            prefix <= 32,
            i <= 32 - prefix,
            r == two_to(i as nat),
            two_to(32) == 0x1_0000_0000,
        decreases 32 - prefix - i,
    {
        proof {
            lemma_two_to_split(i as nat);
            lemma_two_to_mono((i + 1) as nat, 32);
        }
        r = r * 2;
        i = i + 1;
    }
    proof {
        lemma_two_to_split(i as nat);
        lemma_two_to_mono(i as nat, 32);
    }
    r
}

proof fn lemma_two_to_split(n: nat)
    ensures
        two_to(n + 1) == 2 * two_to(n),
        two_to(n) >= 1,
    decreases n,
{
    if n > 0 {
        lemma_two_to_split((n - 1) as nat);
    }
}

proof fn lemma_two_to_mono(a: nat, b: nat)
    requires
        a <= b,
    ensures
        two_to(a) <= two_to(b),
    decreases b,
{
    if a < b {
        lemma_two_to_mono(a, (b - 1) as nat);
        lemma_two_to_split((b - 1) as nat);
    }
}

proof fn lemma_two_to_32()
    ensures
        two_to(32) == 0x1_0000_0000,
{
    reveal_with_fuel(two_to, 33);
}

/// Whether two IPv4 networks share an address.
pub fn networks_overlap(a: Ipv4Net, b: Ipv4Net) -> (r: bool)
    requires
        a.prefix <= 32,
        b.prefix <= 32,
    ensures
        r == overlaps(a, b),
{
    let sa = block_size_exec(a.prefix);
    let sb = block_size_exec(b.prefix);
    let xa = a.addr as u64;
    let xb = b.addr as u64;
    assert(xa % sa <= xa) by (nonlinear_arith)
        requires
            sa >= 1,
    ;
    assert(xb % sb <= xb) by (nonlinear_arith)
        requires
            sb >= 1,
    ;
    let fa: u64 = xa - xa % sa;
    let fb: u64 = xb - xb % sb;
    fa < fb + sb && fb < fa + sa
}

/// Overlap goes both ways, and every network overlaps itself.
pub proof fn lemma_overlap_symmetric(a: Ipv4Net, b: Ipv4Net)
    requires
        a.prefix <= 32,
    ensures
        overlaps(a, b) == overlaps(b, a),
        overlaps(a, a),
{
    lemma_two_to_mono(0, (32 - a.prefix) as nat);
}

/// Writes an IPv4 network as `a.b.c.d/p`.
fn push_net(s: &mut String, n: Ipv4Net)
    ensures
        final(s)@ == old(s)@ + net_text(n),
{
    push_decimal(s, (n.addr / 0x1000000) as u64);
    push_str(s, ".");
    push_decimal(s, ((n.addr / 0x10000) % 0x100) as u64);
    push_str(s, ".");
    push_decimal(s, ((n.addr / 0x100) % 0x100) as u64);
    push_str(s, ".");
    push_decimal(s, (n.addr % 0x100) as u64);
    push_str(s, "/");
    push_decimal(s, n.prefix as u64);
    assert(s@ =~= old(s)@ + net_text(n));
}

/// Refuses deny prefixes that overlap an IPv4 site fabric prefix: the first overlapping
/// pair, deny prefix by deny prefix, is reported.
pub fn check_deny_prefixes(deny_prefixes: &Vec<Ipv4Net>, site_fabric_prefixes: &Vec<IpNet>) -> (r: Result<(), String>)
    requires
        forall|i: int| 0 <= i < deny_prefixes@.len() ==> #[trigger] deny_prefixes@[i].prefix <= 32,
        forall|j: int|
            0 <= j < site_fabric_prefixes@.len() ==> (#[trigger] site_fabric_prefixes@[j] matches IpNet::V4(n)
                ==> n.prefix <= 32),
    ensures
        match r {
            Ok(()) => forall|i: int, j: int|
                0 <= i < deny_prefixes@.len() && 0 <= j < site_fabric_prefixes@.len() ==> !conflicts(
                    deny_prefixes@[i],
                    site_fabric_prefixes@[j],
                ),
            Err(m) => exists|i: int, j: int|
                0 <= i < deny_prefixes@.len() && 0 <= j < site_fabric_prefixes@.len() && conflicts(
                    deny_prefixes@[i],
                    site_fabric_prefixes@[j],
                ) && m@ == msg_overlap(deny_prefixes@[i], site_fabric_prefixes@[j]) && forall|k: int, l: int|
                    0 <= k < deny_prefixes@.len() && 0 <= l < site_fabric_prefixes@.len() && pair_before(k, l, i, j)
                        ==> !conflicts(deny_prefixes@[k], site_fabric_prefixes@[l]),
        },
{
    let mut i: usize = 0;
    while i < deny_prefixes.len()
        invariant
            i <= deny_prefixes@.len(),
            forall|i: int| 0 <= i < deny_prefixes@.len() ==> #[trigger] deny_prefixes@[i].prefix <= 32,
            forall|j: int|
                0 <= j < site_fabric_prefixes@.len() ==> (#[trigger] site_fabric_prefixes@[j] matches IpNet::V4(n)
                    ==> n.prefix <= 32),
            forall|k: int, l: int|
                0 <= k < i && 0 <= l < site_fabric_prefixes@.len() ==> !conflicts(
                    deny_prefixes@[k],
                    site_fabric_prefixes@[l],
                ),
        decreases deny_prefixes@.len() - i,
    {
        let d = deny_prefixes[i];
        let mut j: usize = 0;
        while j < site_fabric_prefixes.len()
            invariant
                i < deny_prefixes@.len(),
                j <= site_fabric_prefixes@.len(),
                d == deny_prefixes@[i as int],
                d.prefix <= 32,
                forall|j: int|
                    0 <= j < site_fabric_prefixes@.len() ==> (#[trigger] site_fabric_prefixes@[j] matches IpNet::V4(n)
                        ==> n.prefix <= 32),
                forall|k: int, l: int|
                    0 <= k < i && 0 <= l < site_fabric_prefixes@.len() ==> !conflicts(
                        deny_prefixes@[k],
                        site_fabric_prefixes@[l],
                    ),
                forall|l: int| 0 <= l < j ==> !conflicts(d, #[trigger] site_fabric_prefixes@[l]),
            decreases site_fabric_prefixes@.len() - j,
        {
            let s = &site_fabric_prefixes[j];
            match s {
                IpNet::V4(v4) => {
                    if networks_overlap(d, *v4) {
                        let mut m = String::from_str("overlap found in deny_prefixes `");
                        push_net(&mut m, d);
                        push_str(&mut m, "` and site_fabric_prefixes `");
                        push_net(&mut m, *v4);
                        push_str(&mut m, "`");
                        assert(m@ =~= msg_overlap(d, *s));
                        assert(forall|k: int, l: int|
                            0 <= k < deny_prefixes@.len() && 0 <= l < site_fabric_prefixes@.len() && pair_before(
                                k,
                                l,
                                i as int,
                                j as int,
                            ) ==> !conflicts(deny_prefixes@[k], site_fabric_prefixes@[l]));
                        return Err(m);
                    }
                },
                IpNet::V6(_) => {},
            }
            j = j + 1;
        }
        i = i + 1;
    }
    Ok(())
}

// ---------------------------------------------------------------------------
// Credentials
// ---------------------------------------------------------------------------

/// Where credentials are stored.
#[derive(Debug, Clone, Copy, PartialEq, Eq, Structural)]
pub enum CredentialStoreKind {
    /// Vault, the default.
    Vault,
    /// Memory, with no persistence and nothing shared between processes: for development
    /// and tests only.
    Memory,
}

/// What `format!("{:?}", s)` gives for a string: `s` quoted, with its special characters
/// escaped.
pub uninterp spec fn debug_quoted(s: Seq<char>) -> Seq<char>;

/// Formats a string with `Debug`, through `format!`.
#[verifier::external_body]
pub(crate) fn debug_string(s: &str) -> (r: String)
    ensures
        r@ == debug_quoted(s@),
{
    format!("{:?}", s)
}

pub open spec fn msg_bad_store(value: Seq<char>) -> Seq<char> {
    "Invalid NICO_CREDENTIAL_STORE value "@ + debug_quoted(value) + ": expected \"vault\" or \"memory\""@
}

/// The credential store that the `NICO_CREDENTIAL_STORE` setting names; an unset setting
/// names Vault.
pub fn credential_store_kind(setting: Option<&str>) -> (r: Result<CredentialStoreKind, String>)
    ensures
        match setting {
            None => r == Ok::<CredentialStoreKind, String>(CredentialStoreKind::Vault),
            Some(v) => if v@ == "vault"@ {
                r == Ok::<CredentialStoreKind, String>(CredentialStoreKind::Vault)
            } else if v@ == "memory"@ {
                r == Ok::<CredentialStoreKind, String>(CredentialStoreKind::Memory)
            } else {
                r matches Err(m) && m@ == msg_bad_store(v@)
            },
        },
{
    let value = match setting {
        None => "vault",
        Some(v) => v,
    };
    if str_eq(value, "vault") {
        Ok(CredentialStoreKind::Vault)
    } else if str_eq(value, "memory") {
        Ok(CredentialStoreKind::Memory)
    } else {
        let mut m = String::from_str("Invalid NICO_CREDENTIAL_STORE value ");
        let q = debug_string(value);
        push_str(&mut m, q.as_str());
        push_str(&mut m, ": expected \"vault\" or \"memory\"");
        assert(m@ =~= msg_bad_store(value@));
        Err(m)
    }
}

/// The readers that credentials are looked up in, in order.
#[derive(Debug, Clone, Copy, PartialEq, Eq, Structural)]
pub enum CredentialReaderKind {
    Env,
    File,
    Store,
}

/// The chain of credential readers: credentials from the environment first where enabled,
/// then from files where enabled, then the credential store.
pub fn credential_reader_chain(env_enabled: bool, file_enabled: bool) -> (r: Vec<CredentialReaderKind>)
    ensures
        r@ == (if env_enabled { seq![CredentialReaderKind::Env] } else { Seq::empty() }) + (if file_enabled {
            seq![CredentialReaderKind::File]
        } else {
            Seq::empty()
        }) + seq![CredentialReaderKind::Store],
{
    let mut readers: Vec<CredentialReaderKind> = Vec::new();
    if env_enabled {
        readers.push(CredentialReaderKind::Env);
    }
    if file_enabled {
        readers.push(CredentialReaderKind::File);
    }
    readers.push(CredentialReaderKind::Store);
    assert(readers@ =~= (if env_enabled { seq![CredentialReaderKind::Env] } else { Seq::empty() }) + (if file_enabled {
        seq![CredentialReaderKind::File]
    } else {
        Seq::empty()
    }) + seq![CredentialReaderKind::Store]);
    readers
}

// ---------------------------------------------------------------------------
// The BMC proxy
// ---------------------------------------------------------------------------

/// Where the site explorer reaches BMCs through.
#[derive(Debug, Clone, PartialEq, Eq)]
pub enum HostPortPair {
    HostAndPort(String, u16),
    HostOnly(String),
    PortOnly(u16),
}

/// What becomes of the deprecated target override settings.
#[derive(Debug, Clone)]
pub enum ProxyMigration {
    /// The override address is ignored, as the BMC proxy is set.
    IgnoreTargetIp,
    /// The override port is ignored, as the BMC proxy is set.
    IgnoreTargetPort,
    /// The BMC proxy is set from the override settings.
    SetProxy(HostPortPair),
    /// Nothing is overridden.
    Leave,
}

pub enum ProxyMigrationView {
    IgnoreTargetIp,
    IgnoreTargetPort,
    SetHostAndPort(Seq<char>, u16),
    SetHostOnly(Seq<char>),
    SetPortOnly(u16),
    Leave,
}

pub open spec fn migration_view(m: ProxyMigration) -> ProxyMigrationView {
    match m {
        ProxyMigration::IgnoreTargetIp => ProxyMigrationView::IgnoreTargetIp,
        ProxyMigration::IgnoreTargetPort => ProxyMigrationView::IgnoreTargetPort,
        ProxyMigration::SetProxy(HostPortPair::HostAndPort(h, p)) => ProxyMigrationView::SetHostAndPort(h@, p),
        ProxyMigration::SetProxy(HostPortPair::HostOnly(h)) => ProxyMigrationView::SetHostOnly(h@),
        ProxyMigration::SetProxy(HostPortPair::PortOnly(p)) => ProxyMigrationView::SetPortOnly(p),
        ProxyMigration::Leave => ProxyMigrationView::Leave,
    }
}

/// What becomes of the deprecated override address and port: where the BMC proxy is set
/// they are ignored; otherwise they become the proxy.
pub open spec fn proxy_migration(ip: Option<Seq<char>>, port: Option<u16>, proxy_set: bool) -> ProxyMigrationView {
    match (ip, port) {
        (Some(h), p) => if proxy_set {
            ProxyMigrationView::IgnoreTargetIp
        } else {
            match p {
                Some(port) => ProxyMigrationView::SetHostAndPort(h, port),
                None => ProxyMigrationView::SetHostOnly(h),
            }
        },
        (None, Some(port)) => if proxy_set {
            ProxyMigrationView::IgnoreTargetPort
        } else {
            ProxyMigrationView::SetPortOnly(port)
        },
        (None, None) => ProxyMigrationView::Leave,
    }
}

/// Migrates the deprecated override address and port of the site explorer to the BMC proxy
/// setting.
pub fn migrate_bmc_proxy(override_target_ip: Option<String>, override_target_port: Option<u16>, proxy_set: bool) -> (r:
    ProxyMigration)
    ensures
        migration_view(r) == proxy_migration(
            match override_target_ip {
                Some(s) => Some(s@),
                None => None,
            },
            override_target_port,
            proxy_set,
        ),
{
    match override_target_ip {
        Some(ip) => {
            if proxy_set {
                ProxyMigration::IgnoreTargetIp
            } else {
                match override_target_port {
                    Some(port) => ProxyMigration::SetProxy(HostPortPair::HostAndPort(ip, port)),
                    None => ProxyMigration::SetProxy(HostPortPair::HostOnly(ip)),
                }
            }
        },
        None => match override_target_port {
            Some(port) => if proxy_set {
                ProxyMigration::IgnoreTargetPort
            } else {
                ProxyMigration::SetProxy(HostPortPair::PortOnly(port))
            },
            None => ProxyMigration::Leave,
        },
    }
}

} // verus!
