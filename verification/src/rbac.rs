//! Role-based access rules for the API's requests: which callers may make which request.

use vstd::prelude::*;

use crate::text::str_eq;

verus! {

/// What a caller's certificate says about it.
#[derive(Debug, Clone, PartialEq, Eq)]
pub struct ExternalUserInfo {
    pub org: Option<String>,
    pub group: String,
    pub user: Option<String>,
}

/// The mathematical value of [`ExternalUserInfo`].
pub struct ExternalUserView {
    pub org: Option<Seq<char>>,
    pub group: Seq<char>,
    pub user: Option<Seq<char>>,
}

/// The text of an optional string.
pub open spec fn opt_view(s: Option<String>) -> Option<Seq<char>> {
    match s {
        Some(x) => Some(x@),
        None => None,
    }
}

impl View for ExternalUserInfo {
    type V = ExternalUserView;

    open spec fn view(&self) -> ExternalUserView {
        ExternalUserView { org: opt_view(self.org), group: self.group@, user: opt_view(self.user) }
    }
}

impl ExternalUserInfo {
    pub fn new(org: Option<String>, group: String, user: Option<String>) -> (r: Self)
        ensures
            r.org == org,
            r.group == group,
            r.user == user,
    {
        ExternalUserInfo { org, group, user }
    }
}

/// Who is making a request, as the caller's certificate identifies it.
#[derive(Debug, Clone, PartialEq, Eq)]
pub enum Principal {
    /// A person, authenticated by an external identity provider.
    ExternalUser(ExternalUserInfo),
    /// A service, by its SPIFFE service identifier.
    SpiffeServiceIdentifier(String),
    /// A machine, by its SPIFFE machine identifier.
    SpiffeMachineIdentifier(String),
    /// Any caller with a certificate this site trusts.
    TrustedCertificate,
    /// Any caller at all.
    Anonymous,
}

/// The mathematical value of a [`Principal`].
pub enum PrincipalView {
    ExternalUser(ExternalUserView),
    Service(Seq<char>),
    Machine(Seq<char>),
    TrustedCertificate,
    Anonymous,
}

impl View for Principal {
    type V = PrincipalView;

    open spec fn view(&self) -> PrincipalView {
        match self {
            Principal::ExternalUser(u) => PrincipalView::ExternalUser(u@),
            Principal::SpiffeServiceIdentifier(s) => PrincipalView::Service(s@),
            Principal::SpiffeMachineIdentifier(s) => PrincipalView::Machine(s@),
            Principal::TrustedCertificate => PrincipalView::TrustedCertificate,
            Principal::Anonymous => PrincipalView::Anonymous,
        }
    }
}

/// Whether a caller identified as `user` is one of the callers that `rule` admits: `Anonymous`
/// admits everyone, an external-user rule any external user, a machine rule any machine, a
/// trusted-certificate rule any trusted certificate, and a service rule that service alone.
pub open spec fn covers(user: PrincipalView, rule: PrincipalView) -> bool {
    match (user, rule) {
        (_, PrincipalView::Anonymous) => true,
        (PrincipalView::ExternalUser(_), PrincipalView::ExternalUser(_)) => true,
        (PrincipalView::Service(x), PrincipalView::Service(y)) => x == y,
        (PrincipalView::Machine(_), PrincipalView::Machine(_)) => true,
        (PrincipalView::TrustedCertificate, PrincipalView::TrustedCertificate) => true,
        _ => false,
    }
}

impl Principal {
    /// Whether this caller is one of the callers that `other` admits.
    pub fn is_proper_subset_of(&self, other: &Principal) -> (r: bool)
        ensures
            r == covers(self@, other@),
    {
        match (self, other) {
            (_, Principal::Anonymous) => true,
            (Principal::ExternalUser(_), Principal::ExternalUser(_)) => true,
            (Principal::SpiffeServiceIdentifier(x), Principal::SpiffeServiceIdentifier(y)) => str_eq(
                x.as_str(),
                y.as_str(),
            ),
            (Principal::SpiffeMachineIdentifier(_), Principal::SpiffeMachineIdentifier(_)) => true,
            (Principal::TrustedCertificate, Principal::TrustedCertificate) => true,
            _ => false,
        }
    }
}

/// The kinds of caller that the rule table names.
#[derive(Debug, Copy, Clone, PartialEq, Eq, Structural)]
pub enum RulePrincipal {
    NicoAdminCLI,
    Machineatron,
    SiteAgent,
    /// The agent on the DPU, not the site agent.
    Agent,
    Scout,
    Dns,
    Dhcp,
    Ssh,
    SshRs,
    Health,
    Pxe,
    BmcProxy,
    Flow,
    MaintenanceJobs,
    DsxExchangeConsumer,
    /// Permitted for everything.
    Anonymous,
}

/// A service known under its current `nico-*` identifier and its former `carbide-*` one;
/// a certificate presenting either is accepted.
pub open spec fn renamed_service(nico: Seq<char>, carbide: Seq<char>) -> Seq<PrincipalView> {
    seq![PrincipalView::Service(nico), PrincipalView::Service(carbide)]
}

/// The principals that one kind of caller in the rule table stands for.
pub open spec fn expansion(p: RulePrincipal) -> Seq<PrincipalView> {
    match p {
        RulePrincipal::NicoAdminCLI => seq![
            PrincipalView::ExternalUser(ExternalUserView { org: None, group: "Invalid"@, user: None }),
        ],
        RulePrincipal::Machineatron => seq![PrincipalView::Service("machine-a-tron"@)],
        RulePrincipal::SiteAgent => seq![PrincipalView::Service("elektra-site-agent"@)],
        RulePrincipal::Agent => seq![PrincipalView::Machine(""@)],
        RulePrincipal::Scout => seq![PrincipalView::Machine(""@)],
        RulePrincipal::Dns => renamed_service("nico-dns"@, "carbide-dns"@),
        RulePrincipal::Dhcp => renamed_service("nico-dhcp"@, "carbide-dhcp"@),
        RulePrincipal::Ssh => renamed_service("nico-ssh-console"@, "carbide-ssh-console"@),
        RulePrincipal::SshRs => renamed_service("nico-ssh-console-rs"@, "carbide-ssh-console-rs"@),
        RulePrincipal::Pxe => renamed_service("nico-pxe"@, "carbide-pxe"@),
        RulePrincipal::BmcProxy => renamed_service("nico-bmc-proxy"@, "carbide-bmc-proxy"@),
        RulePrincipal::Health => renamed_service("nico-hardware-health"@, "carbide-hardware-health"@),
        RulePrincipal::Flow => renamed_service("nico-flow"@, "carbide-flow"@),
        RulePrincipal::MaintenanceJobs => renamed_service("nico-maintenance-jobs"@, "carbide-maintenance-jobs"@),
        RulePrincipal::DsxExchangeConsumer => renamed_service(
            "nico-dsx-exchange-consumer"@,
            "carbide-dsx-exchange-consumer"@,
        ),
        RulePrincipal::Anonymous => seq![PrincipalView::Anonymous],
    }
}

/// The principals that a list of kinds stands for, in order.
pub open spec fn expand(ps: Seq<RulePrincipal>) -> Seq<PrincipalView>
    decreases ps.len(),
{
    if ps.len() == 0 {
        Seq::empty()
    } else {
        expand(ps.drop_last()) + expansion(ps.last())
    }
}

/// The principals that a caller kind stands for.
fn expansion_exec(p: RulePrincipal) -> (r: Vec<Principal>)
    ensures
        r@.map_values(|x: Principal| x@) == expansion(p),
{
    let r = match p {
        RulePrincipal::NicoAdminCLI => vec![
            Principal::ExternalUser(ExternalUserInfo::new(None, String::from_str("Invalid"), None)),
        ],
        RulePrincipal::Machineatron => vec![Principal::SpiffeServiceIdentifier(String::from_str("machine-a-tron"))],
        RulePrincipal::SiteAgent => vec![Principal::SpiffeServiceIdentifier(String::from_str("elektra-site-agent"))],
        RulePrincipal::Agent => vec![Principal::SpiffeMachineIdentifier(String::from_str(""))],
        RulePrincipal::Scout => vec![Principal::SpiffeMachineIdentifier(String::from_str(""))],
        RulePrincipal::Dns => renamed("nico-dns", "carbide-dns"),
        RulePrincipal::Dhcp => renamed("nico-dhcp", "carbide-dhcp"),
        RulePrincipal::Ssh => renamed("nico-ssh-console", "carbide-ssh-console"),
        RulePrincipal::SshRs => renamed("nico-ssh-console-rs", "carbide-ssh-console-rs"),
        RulePrincipal::Pxe => renamed("nico-pxe", "carbide-pxe"),
        RulePrincipal::BmcProxy => renamed("nico-bmc-proxy", "carbide-bmc-proxy"),
        RulePrincipal::Health => renamed("nico-hardware-health", "carbide-hardware-health"),
        RulePrincipal::Flow => renamed("nico-flow", "carbide-flow"),
        RulePrincipal::MaintenanceJobs => renamed("nico-maintenance-jobs", "carbide-maintenance-jobs"),
        RulePrincipal::DsxExchangeConsumer => renamed(
            "nico-dsx-exchange-consumer",
            "carbide-dsx-exchange-consumer",
        ),
        RulePrincipal::Anonymous => vec![Principal::Anonymous],
    };
    assert(r@.map_values(|x: Principal| x@) =~= expansion(p));
    r
}

/// Both service identifiers of a renamed service.
fn renamed(nico: &str, carbide: &str) -> (r: Vec<Principal>)
    ensures
        r@.map_values(|x: Principal| x@) == renamed_service(nico@, carbide@),
{
    let r = vec![
        Principal::SpiffeServiceIdentifier(String::from_str(nico)),
        Principal::SpiffeServiceIdentifier(String::from_str(carbide)),
    ];
    assert(r@.map_values(|x: Principal| x@) =~= renamed_service(nico@, carbide@));
    r
}

/// A list of one caller kind.
fn only(p: RulePrincipal) -> (r: Vec<RulePrincipal>)
    ensures
        r@ == seq![p],
{
    let mut r = Vec::new();
    r.push(p);
    assert(r@ =~= seq![p]);
    r
}

/// The principals allowed to make one request.
#[derive(Debug)]
pub struct RuleInfo {
    principals: Vec<Principal>,
}

impl View for RuleInfo {
    type V = Seq<PrincipalView>;

    closed spec fn view(&self) -> Seq<PrincipalView> {
        self.principals@.map_values(|x: Principal| x@)
    }
}

impl RuleInfo {
    /// The principals that the listed kinds of caller stand for, in order.
    pub fn new(principals: Vec<RulePrincipal>) -> (r: Self)
        ensures
            r@ == expand(principals@),
    {
        let mut out: Vec<Principal> = Vec::new();
        let mut i: usize = 0;
        while i < principals.len()
            invariant
                i <= principals@.len(),
                out@.map_values(|x: Principal| x@) == expand(principals@.take(i as int)),
            decreases principals@.len() - i,
        {
            let mut more = expansion_exec(principals[i]);
            let ghost before = out@;
            out.append(&mut more);
            assert(out@.map_values(|x: Principal| x@) =~= before.map_values(|x: Principal| x@)
                + expansion(principals@[i as int]));
            assert(principals@.take(i + 1).drop_last() =~= principals@.take(i as int));
            i = i + 1;
        }
        assert(principals@.take(principals@.len() as int) =~= principals@);
        RuleInfo { principals: out }
    }

    /// The principals the rule admits.
    pub fn principals(&self) -> (r: &Vec<Principal>)
        ensures
            r@.map_values(|x: Principal| x@) == self@,
    {
        &self.principals
    }
}

/// The rule found for `msg` among `entries`: the first entry under that name.
pub open spec fn lookup(entries: Seq<(Seq<char>, Seq<PrincipalView>)>, msg: Seq<char>) -> Option<Seq<PrincipalView>>
    decreases entries.len(),
{
    if entries.len() == 0 {
        None
    } else if entries[0].0 == msg {
        Some(entries[0].1)
    } else {
        lookup(entries.drop_first(), msg)
    }
}

/// The access rules: for each request name, the principals allowed to make it.
#[derive(Debug)]
pub struct InternalRBACRules {
    perms: Vec<(String, RuleInfo)>,
}

impl InternalRBACRules {
    /// The rule entries, by name and principals.
    pub closed spec fn entries(&self) -> Seq<(Seq<char>, Seq<PrincipalView>)> {
        self.perms@.map_values(|e: (String, RuleInfo)| (e.0@, e.1@))
    }
}

impl View for InternalRBACRules {
    type V = Map<Seq<char>, Seq<PrincipalView>>;

    closed spec fn view(&self) -> Map<Seq<char>, Seq<PrincipalView>> {
        Map::new(|msg: Seq<char>| lookup(self.entries(), msg) is Some, |msg: Seq<char>| lookup(self.entries(), msg)->0)
    }
}

/// Whether a request whose rule is `rule` may be made by a caller presenting `users`: a
/// request with no rule is refused; a caller presenting no principal may make only requests
/// whose rule admits `Anonymous` alone; otherwise some presented principal must be one of
/// the callers some listed principal admits.
pub open spec fn allowed_by(rule: Option<Seq<PrincipalView>>, users: Seq<PrincipalView>) -> bool {
    match rule {
        None => false,
        Some(r) => admitted(r, users),
    }
}

/// Whether the rule `r` admits a caller presenting `users`.
pub open spec fn admitted(r: Seq<PrincipalView>, users: Seq<PrincipalView>) -> bool {
    if users.len() == 0 {
        r == seq![PrincipalView::Anonymous]
    } else {
        exists|i: int, j: int| 0 <= i < users.len() && 0 <= j < r.len() && #[trigger] covers(users[i], r[j])
    }
}

/// The rule a map of rules holds for `msg`, if any.
pub open spec fn rule_of(m: Map<Seq<char>, Seq<PrincipalView>>, msg: Seq<char>) -> Option<Seq<PrincipalView>> {
    if m.dom().contains(msg) {
        Some(m[msg])
    } else {
        None
    }
}

/// The principals a caller presents.
pub open spec fn principals_view(ps: Seq<Principal>) -> Seq<PrincipalView> {
    ps.map_values(|x: Principal| x@)
}

proof fn lemma_lookup_update(entries: Seq<(Seq<char>, Seq<PrincipalView>)>, i: int, msg: Seq<char>, rule: Seq<PrincipalView>, other: Seq<char>)
    requires
        0 <= i < entries.len(),
        entries[i].0 == msg,
        forall|k: int| 0 <= k < i ==> entries[k].0 != msg,
    ensures
        lookup(entries.update(i, (msg, rule)), other) == (if other == msg { Some(rule) } else { lookup(entries, other) }),
    decreases i,
{
    let updated = entries.update(i, (msg, rule));
    if i > 0 {
        lemma_lookup_update(entries.drop_first(), i - 1, msg, rule, other);
        assert(updated.drop_first() =~= entries.drop_first().update(i - 1, (msg, rule)));
        assert(updated[0] == entries[0]);
    } else {
        assert(updated.drop_first() =~= entries.drop_first());
        assert(updated[0] == (msg, rule));
    }
}

proof fn lemma_lookup_push(entries: Seq<(Seq<char>, Seq<PrincipalView>)>, msg: Seq<char>, rule: Seq<PrincipalView>, other: Seq<char>)
    requires
        lookup(entries, msg) is None,
    ensures
        lookup(entries.push((msg, rule)), other) == (if other == msg { Some(rule) } else { lookup(entries, other) }),
    decreases entries.len(),
{
    let pushed = entries.push((msg, rule));
    if entries.len() > 0 {
        lemma_lookup_push(entries.drop_first(), msg, rule, other);
        assert(pushed.drop_first() =~= entries.drop_first().push((msg, rule)));
        assert(pushed[0] == entries[0]);
    } else {
        assert(pushed.drop_first() =~= Seq::<(Seq<char>, Seq<PrincipalView>)>::empty());
        assert(pushed[0] == (msg, rule));
        assert(lookup(Seq::<(Seq<char>, Seq<PrincipalView>)>::empty(), other) is None);
    }
}

proof fn lemma_lookup_none(entries: Seq<(Seq<char>, Seq<PrincipalView>)>, msg: Seq<char>)
    requires
        forall|k: int| 0 <= k < entries.len() ==> entries[k].0 != msg,
    ensures
        lookup(entries, msg) is None,
    decreases entries.len(),
{
    if entries.len() > 0 {
        lemma_lookup_none(entries.drop_first(), msg);
    }
}

proof fn lemma_lookup_first(entries: Seq<(Seq<char>, Seq<PrincipalView>)>, i: int, msg: Seq<char>)
    requires
        0 <= i < entries.len(),
        entries[i].0 == msg,
        forall|k: int| 0 <= k < i ==> entries[k].0 != msg,
    ensures
        lookup(entries, msg) == Some(entries[i].1),
    decreases i,
{
    if i > 0 {
        lemma_lookup_first(entries.drop_first(), i - 1, msg);
    }
}

impl InternalRBACRules {
    /// Finds the position of the first entry named `msg`.
    fn position(&self, msg: &str) -> (r: Option<usize>)
        ensures
            r matches Some(i) ==> i < self.entries().len() && self.entries()[i as int].0 == msg@
                && forall|k: int| 0 <= k < i ==> self.entries()[k].0 != msg@,
            r is None ==> forall|k: int| 0 <= k < self.entries().len() ==> self.entries()[k].0 != msg@,
    {
        let mut i: usize = 0;
        while i < self.perms.len()
            invariant
                i <= self.perms@.len(),
                self.entries().len() == self.perms@.len(),
                forall|k: int| 0 <= k < i ==> self.entries()[k].0 != msg@,
            decreases self.perms@.len() - i,
        {
            if str_eq(self.perms[i].0.as_str(), msg) {
                return Some(i);
            }
            i = i + 1;
        }
        None
    }

    /// Sets the rule for `msg` to the principals that `principals` stand for, replacing any
    /// earlier rule for it.
    fn perm(&mut self, msg: &str, principals: Vec<RulePrincipal>)
        ensures
            final(self)@ == old(self)@.insert(msg@, expand(principals@)),
    {
        let rule = RuleInfo::new(principals);
        let ghost rv = rule@;
        let ghost before = self.entries();
        let key = String::from_str(msg);
        match self.position(msg) {
            Some(i) => {
                self.perms.set(i, (key, rule));
                proof {
                    assert(self.entries() =~= before.update(i as int, (msg@, rv)));
                    assert forall|m: Seq<char>| lookup(self.entries(), m) == (if m == msg@ { Some(rv) } else { lookup(before, m) }) by {
                        lemma_lookup_update(before, i as int, msg@, rv, m);
                    }
                }
            },
            None => {
                self.perms.push((key, rule));
                proof {
                    lemma_lookup_none(before, msg@);
                    assert(self.entries() =~= before.push((msg@, rv)));
                    assert forall|m: Seq<char>| lookup(self.entries(), m) == (if m == msg@ { Some(rv) } else { lookup(before, m) }) by {
                        lemma_lookup_push(before, msg@, rv, m);
                    }
                }
            },
        }
        assert(self@ =~= old(self)@.insert(msg@, expand(principals@)));
    }

    /// Whether a caller presenting `user_principals` may make the request `msg`.
    pub fn allowed(&self, msg: &str, user_principals: &[Principal]) -> (r: bool)
        ensures
            r == allowed_by(rule_of(self@, msg@), principals_view(user_principals@)),
    {
        let ghost users = principals_view(user_principals@);
        match self.position(msg) {
            None => {
                proof {
                    lemma_lookup_none(self.entries(), msg@);
                }
                false
            },
            Some(p) => {
                proof {
                    lemma_lookup_first(self.entries(), p as int, msg@);
                }
                let rule = &self.perms[p].1.principals;
                let ghost rv = self.entries()[p as int].1;
                assert(rv == rule@.map_values(|x: Principal| x@));
                assert(self@.dom().contains(msg@));
                assert(self@[msg@] == rv);
                assert(rule_of(self@, msg@) == Some(rv));
                if user_principals.len() == 0 {
                    let only_anonymous = rule.len() == 1 && match &rule[0] {
                        Principal::Anonymous => true,
                        _ => false,
                    };
                    proof {
                        if only_anonymous {
                            assert(rv =~= seq![PrincipalView::Anonymous]);
                        }
                        if rv == seq![PrincipalView::Anonymous] {
                            assert(rule@.len() == 1);
                            assert(rv[0] == rule@[0]@);
                        }
                    }
                    return only_anonymous;
                }
                let mut i: usize = 0;
                while i < user_principals.len()
                    invariant
                        i <= user_principals@.len(),
                        users == principals_view(user_principals@),
                        rv == rule@.map_values(|x: Principal| x@),
                        rule_of(self@, msg@) == Some(rv),
                        user_principals@.len() > 0,
                        forall|a: int, b: int| 0 <= a < i && 0 <= b < rv.len() ==> !covers(users[a], rv[b]),
                    decreases user_principals@.len() - i,
                {
                    let mut j: usize = 0;
                    while j < rule.len()
                        invariant
                            i < user_principals@.len(),
                            j <= rule@.len(),
                            users == principals_view(user_principals@),
                            rv == rule@.map_values(|x: Principal| x@),
                            rule_of(self@, msg@) == Some(rv),
                            user_principals@.len() > 0,
                            forall|b: int| 0 <= b < j ==> !covers(users[i as int], rv[b]),
                        decreases rule@.len() - j,
                    {
                        if user_principals[i].is_proper_subset_of(&rule[j]) {
                            assert(covers(users[i as int], rv[j as int]));
                            return true;
                        }
                        j = j + 1;
                    }
                    i = i + 1;
                }
                false
            },
        }
    }

    /// Whether a caller presenting `user_principals` may make the request `msg`, under the
    /// built-in rule table.
    pub fn allowed_from_static(msg: &str, user_principals: &[Principal]) -> (r: bool)
        ensures
            r == allowed_by(rule_of(rbac_table(), msg@), principals_view(user_principals@)),
    {
        let rules = InternalRBACRules::new();
        rules.allowed(msg, user_principals)
    }

    /// The rule entries, by request name.
    pub fn perms(&self) -> (r: &Vec<(String, RuleInfo)>)
        ensures
            r@.map_values(|e: (String, RuleInfo)| (e.0@, e.1@)) == self.entries(),
    {
        &self.perms
    }

    /// The built-in rule table.
    pub fn new() -> (r: Self)
        ensures
            r@ == rbac_table(),
    {
        let mut x = InternalRBACRules { perms: Vec::new() };
        assert(x@ =~= Map::<Seq<char>, Seq<PrincipalView>>::empty());
        x.add_part_1();
        x.add_part_2();
        x.add_part_3();
        x.add_part_4();
        x.add_part_5();
        x.add_part_6();
        x.add_part_7();
        x.add_part_8();
        x.add_part_9();
        x.add_part_10();
        x.add_part_11();
        x.add_part_12();
        x
    }

    #[verifier::rlimit(100)]
    fn add_part_1(&mut self)
        ensures
            final(self)@ == rules_part_1(old(self)@),
    {
        self.perm("Version", only(RulePrincipal::Anonymous));
        self.perm("CreateDomain", vec![]);
        self.perm("CreateDomainLegacy", vec![]);
        self.perm("UpdateDomainLegacy", vec![]);
        self.perm("DeleteDomainLegacy", vec![]);
        self.perm("FindDomainLegacy", only(RulePrincipal::NicoAdminCLI));
        self.perm("UpdateDomain", vec![]);
        self.perm("DeleteDomain", vec![]);
        self.perm("FindDomain", only(RulePrincipal::NicoAdminCLI));
        self.perm("CreateVpc", vec![RulePrincipal::SiteAgent, RulePrincipal::Machineatron]);
        self.perm("UpdateVpc", vec![RulePrincipal::NicoAdminCLI, RulePrincipal::SiteAgent]);
        self.perm("UpdateVpcVirtualization", vec![RulePrincipal::NicoAdminCLI, RulePrincipal::SiteAgent]);
        self.perm("DeleteVpc", vec![RulePrincipal::Machineatron, RulePrincipal::SiteAgent]);
        self.perm("FindVpcIds", vec![RulePrincipal::SiteAgent, RulePrincipal::NicoAdminCLI, RulePrincipal::Machineatron]);
        self.perm("FindVpcsByIds", vec![RulePrincipal::NicoAdminCLI, RulePrincipal::SiteAgent]);
        self.perm("CreateVpcPrefix", vec![RulePrincipal::NicoAdminCLI, RulePrincipal::SiteAgent]);
        self.perm("SearchVpcPrefixes", vec![RulePrincipal::NicoAdminCLI, RulePrincipal::SiteAgent]);
        self.perm("GetVpcPrefixes", vec![RulePrincipal::NicoAdminCLI, RulePrincipal::SiteAgent]);
        self.perm("UpdateVpcPrefix", vec![RulePrincipal::NicoAdminCLI, RulePrincipal::SiteAgent]);
        self.perm("DeleteVpcPrefix", vec![RulePrincipal::NicoAdminCLI, RulePrincipal::SiteAgent]);
        self.perm("GetAllDpaInterfaceIds", vec![RulePrincipal::NicoAdminCLI, RulePrincipal::SiteAgent]);
        self.perm("FindDpaInterfacesByIds", vec![RulePrincipal::NicoAdminCLI, RulePrincipal::SiteAgent]);
        self.perm("CreateDpaInterface", vec![]);
        self.perm("EnsureDpaInterface", vec![]);
        self.perm("DeleteDpaInterface", vec![]);
        self.perm("SetDpaNetworkObservationStatus", vec![]);
        self.perm("FindNetworkSegmentIds", vec![RulePrincipal::NicoAdminCLI, RulePrincipal::Machineatron, RulePrincipal::SiteAgent]);
        self.perm("FindNetworkSegmentsByIds", vec![RulePrincipal::NicoAdminCLI, RulePrincipal::Machineatron, RulePrincipal::SiteAgent]);
        self.perm("FindNetworkSegmentStateHistories", vec![RulePrincipal::NicoAdminCLI, RulePrincipal::Machineatron, RulePrincipal::SiteAgent]);
        self.perm("CreateNetworkSegment", vec![RulePrincipal::Machineatron, RulePrincipal::SiteAgent]);
        self.perm("DeleteNetworkSegment", vec![RulePrincipal::NicoAdminCLI, RulePrincipal::Machineatron, RulePrincipal::SiteAgent]);
        self.perm("NetworkSegmentsForVpc", vec![]);
        self.perm("FindIBPartitionIds", vec![RulePrincipal::NicoAdminCLI, RulePrincipal::SiteAgent]);
        self.perm("FindIBPartitionsByIds", vec![RulePrincipal::NicoAdminCLI, RulePrincipal::SiteAgent]);
        self.perm("CreateIBPartition", only(RulePrincipal::SiteAgent));
        self.perm("UpdateIBPartition", only(RulePrincipal::SiteAgent));
        self.perm("DeleteIBPartition", only(RulePrincipal::SiteAgent));
        self.perm("IBPartitionsForTenant", vec![]);
        self.perm("FindIBFabricIds", vec![RulePrincipal::NicoAdminCLI, RulePrincipal::SiteAgent]);
        self.perm("AllocateInstance", vec![RulePrincipal::NicoAdminCLI, RulePrincipal::Machineatron, RulePrincipal::SiteAgent]);
    }

    #[verifier::rlimit(100)]
    fn add_part_2(&mut self)
        ensures
            final(self)@ == rules_part_2(old(self)@),
    {
        self.perm("AllocateInstances", vec![RulePrincipal::NicoAdminCLI, RulePrincipal::Machineatron, RulePrincipal::SiteAgent]);
        self.perm("ReleaseInstance", vec![RulePrincipal::NicoAdminCLI, RulePrincipal::SiteAgent]);
        self.perm("UpdateInstanceOperatingSystem", only(RulePrincipal::SiteAgent));
        self.perm("UpdateInstanceConfig", vec![RulePrincipal::NicoAdminCLI, RulePrincipal::SiteAgent]);
        self.perm("FindInstanceIds", vec![RulePrincipal::NicoAdminCLI, RulePrincipal::SiteAgent]);
        self.perm("FindInstancesByIds", vec![RulePrincipal::NicoAdminCLI, RulePrincipal::SiteAgent, RulePrincipal::Ssh, RulePrincipal::SshRs]);
        self.perm("FindInstanceByMachineID", vec![RulePrincipal::NicoAdminCLI, RulePrincipal::Agent, RulePrincipal::SiteAgent]);
        self.perm("RecordObservedInstanceNetworkStatus", vec![]);
        self.perm("GetManagedHostNetworkConfig", vec![RulePrincipal::NicoAdminCLI, RulePrincipal::Agent, RulePrincipal::Machineatron, RulePrincipal::SiteAgent]);
        self.perm("RecordDpuNetworkStatus", vec![RulePrincipal::Agent, RulePrincipal::Machineatron]);
        self.perm("ListMachineHealthReports", vec![RulePrincipal::NicoAdminCLI, RulePrincipal::Health, RulePrincipal::Ssh, RulePrincipal::SshRs]);
        self.perm("InsertMachineHealthReport", vec![RulePrincipal::NicoAdminCLI, RulePrincipal::Health, RulePrincipal::SiteAgent, RulePrincipal::Ssh, RulePrincipal::SshRs, RulePrincipal::Flow]);
        self.perm("RemoveMachineHealthReport", vec![RulePrincipal::NicoAdminCLI, RulePrincipal::Health, RulePrincipal::SiteAgent, RulePrincipal::Ssh, RulePrincipal::SshRs, RulePrincipal::Flow]);
        self.perm("ListRackHealthReports", vec![RulePrincipal::NicoAdminCLI, RulePrincipal::Health, RulePrincipal::DsxExchangeConsumer]);
        self.perm("InsertRackHealthReport", vec![RulePrincipal::NicoAdminCLI, RulePrincipal::Health, RulePrincipal::DsxExchangeConsumer]);
        self.perm("RemoveRackHealthReport", vec![RulePrincipal::NicoAdminCLI, RulePrincipal::Health, RulePrincipal::DsxExchangeConsumer]);
        self.perm("ListSwitchHealthReports", vec![RulePrincipal::NicoAdminCLI, RulePrincipal::Health]);
        self.perm("InsertSwitchHealthReport", vec![RulePrincipal::NicoAdminCLI, RulePrincipal::Health]);
        self.perm("RemoveSwitchHealthReport", vec![RulePrincipal::NicoAdminCLI, RulePrincipal::Health]);
        self.perm("ListPowerShelfHealthReports", vec![RulePrincipal::NicoAdminCLI, RulePrincipal::Health]);
        self.perm("InsertPowerShelfHealthReport", vec![RulePrincipal::NicoAdminCLI, RulePrincipal::Health]);
        self.perm("RemovePowerShelfHealthReport", vec![RulePrincipal::NicoAdminCLI, RulePrincipal::Health]);
        self.perm("ListHealthReportOverrides", vec![RulePrincipal::NicoAdminCLI, RulePrincipal::Health, RulePrincipal::Ssh, RulePrincipal::SshRs]);
        self.perm("InsertHealthReportOverride", vec![RulePrincipal::NicoAdminCLI, RulePrincipal::Health, RulePrincipal::SiteAgent, RulePrincipal::Ssh, RulePrincipal::SshRs, RulePrincipal::Flow]);
        self.perm("RemoveHealthReportOverride", vec![RulePrincipal::NicoAdminCLI, RulePrincipal::Health, RulePrincipal::SiteAgent, RulePrincipal::Ssh, RulePrincipal::SshRs, RulePrincipal::Flow]);
        self.perm("DpuAgentUpgradeCheck", only(RulePrincipal::Scout));
        self.perm("DpuAgentUpgradePolicyAction", only(RulePrincipal::NicoAdminCLI));
        self.perm("LookupRecord", only(RulePrincipal::Dns));
        self.perm("LookupRecordLegacy", only(RulePrincipal::Dns));
        self.perm("GetAllDomainMetadata", only(RulePrincipal::Dns));
        self.perm("GetAllDomains", only(RulePrincipal::Dns));
        self.perm("InvokeInstancePower", vec![RulePrincipal::NicoAdminCLI, RulePrincipal::SiteAgent]);
        self.perm("NicoAgentControl", vec![RulePrincipal::Machineatron, RulePrincipal::Scout]);
        self.perm("DiscoverMachine", only(RulePrincipal::Anonymous));
        self.perm("RenewMachineCertificate", only(RulePrincipal::Agent));
        self.perm("DiscoveryCompleted", vec![RulePrincipal::Machineatron, RulePrincipal::Scout]);
        self.perm("CleanupMachineCompleted", vec![RulePrincipal::Machineatron, RulePrincipal::Scout]);
        self.perm("ReportNicoScoutError", only(RulePrincipal::Scout));
        self.perm("ReportScoutFirmwareUpgradeStatus", only(RulePrincipal::Scout));
        self.perm("DiscoverDhcp", vec![RulePrincipal::Dhcp, RulePrincipal::Machineatron]);
    }

    #[verifier::rlimit(100)]
    fn add_part_3(&mut self)
        ensures
            final(self)@ == rules_part_3(old(self)@),
    {
        self.perm("ExpireDhcpLease", vec![RulePrincipal::Dhcp, RulePrincipal::Machineatron]);
        self.perm("AssignStaticAddress", only(RulePrincipal::NicoAdminCLI));
        self.perm("RemoveStaticAddress", only(RulePrincipal::NicoAdminCLI));
        self.perm("FindInterfaceAddresses", only(RulePrincipal::NicoAdminCLI));
        self.perm("FindInterfaces", vec![RulePrincipal::NicoAdminCLI, RulePrincipal::Agent, RulePrincipal::Flow]);
        self.perm("DeleteInterface", only(RulePrincipal::NicoAdminCLI));
        self.perm("FindIpAddress", only(RulePrincipal::NicoAdminCLI));
        self.perm("FindMachineIds", vec![RulePrincipal::NicoAdminCLI, RulePrincipal::Machineatron, RulePrincipal::Health, RulePrincipal::SiteAgent, RulePrincipal::Ssh, RulePrincipal::SshRs, RulePrincipal::Flow]);
        self.perm("FindMachinesByIds", vec![RulePrincipal::NicoAdminCLI, RulePrincipal::Machineatron, RulePrincipal::Health, RulePrincipal::SiteAgent, RulePrincipal::Ssh, RulePrincipal::SshRs, RulePrincipal::Flow]);
        self.perm("FindConnectedDevicesByDpuMachineIds", only(RulePrincipal::NicoAdminCLI));
        self.perm("FindMachineIdsByBmcIps", vec![RulePrincipal::NicoAdminCLI, RulePrincipal::Flow]);
        self.perm("FindMachineHealthHistories", vec![RulePrincipal::NicoAdminCLI, RulePrincipal::SiteAgent]);
        self.perm("FindMachineStateHistories", vec![RulePrincipal::NicoAdminCLI, RulePrincipal::SiteAgent]);
        self.perm("IdentifyUuid", only(RulePrincipal::NicoAdminCLI));
        self.perm("IdentifyMac", only(RulePrincipal::NicoAdminCLI));
        self.perm("IdentifySerial", vec![RulePrincipal::NicoAdminCLI, RulePrincipal::Machineatron, RulePrincipal::Flow]);
        self.perm("GetBMCMetaData", vec![RulePrincipal::Health, RulePrincipal::Ssh, RulePrincipal::SshRs]);
        self.perm("UpdateBMCMetaData", only(RulePrincipal::Machineatron));
        self.perm("UpdateMachineCredentials", vec![]);
        self.perm("GetPxeInstructions", vec![RulePrincipal::Pxe, RulePrincipal::Machineatron]);
        self.perm("GetCloudInitInstructions", only(RulePrincipal::Pxe));
        self.perm("Echo", only(RulePrincipal::Dhcp));
        self.perm("CreateTenant", only(RulePrincipal::SiteAgent));
        self.perm("FindTenant", vec![RulePrincipal::SiteAgent, RulePrincipal::NicoAdminCLI]);
        self.perm("UpdateTenant", vec![RulePrincipal::SiteAgent, RulePrincipal::NicoAdminCLI]);
        self.perm("CreateTenantKeyset", only(RulePrincipal::SiteAgent));
        self.perm("FindTenantKeysetIds", vec![RulePrincipal::NicoAdminCLI, RulePrincipal::SiteAgent]);
        self.perm("FindTenantKeysetsByIds", vec![RulePrincipal::NicoAdminCLI, RulePrincipal::SiteAgent]);
        self.perm("UpdateTenantKeyset", only(RulePrincipal::SiteAgent));
        self.perm("DeleteTenantKeyset", only(RulePrincipal::SiteAgent));
        self.perm("ValidateTenantPublicKey", vec![RulePrincipal::SiteAgent, RulePrincipal::Ssh, RulePrincipal::SshRs]);
        self.perm("GetBmcCredentials", vec![RulePrincipal::Health, RulePrincipal::BmcProxy]);
        self.perm("GetSwitchNvosCredentials", only(RulePrincipal::Health));
        self.perm("GetAllManagedHostNetworkStatus", only(RulePrincipal::NicoAdminCLI));
        self.perm("GetSiteExplorationReport", vec![RulePrincipal::NicoAdminCLI, RulePrincipal::Machineatron]);
        self.perm("ClearSiteExplorationError", only(RulePrincipal::NicoAdminCLI));
        self.perm("IsBmcInManagedHost", only(RulePrincipal::NicoAdminCLI));
        self.perm("Explore", vec![RulePrincipal::NicoAdminCLI, RulePrincipal::Flow]);
        self.perm("ReExploreEndpoint", vec![RulePrincipal::NicoAdminCLI, RulePrincipal::Flow]);
        self.perm("RefreshEndpointReport", vec![RulePrincipal::NicoAdminCLI, RulePrincipal::Flow]);
    }

    #[verifier::rlimit(100)]
    fn add_part_4(&mut self)
        ensures
            final(self)@ == rules_part_4(old(self)@),
    {
        self.perm("DeleteExploredEndpoint", only(RulePrincipal::NicoAdminCLI));
        self.perm("PauseExploredEndpointRemediation", only(RulePrincipal::NicoAdminCLI));
        self.perm("FindExploredEndpointIds", vec![RulePrincipal::NicoAdminCLI, RulePrincipal::Flow]);
        self.perm("FindExploredEndpointsByIds", vec![RulePrincipal::NicoAdminCLI, RulePrincipal::Flow]);
        self.perm("FindExploredManagedHostIds", vec![RulePrincipal::NicoAdminCLI, RulePrincipal::Flow]);
        self.perm("FindExploredManagedHostsByIds", vec![RulePrincipal::NicoAdminCLI, RulePrincipal::Flow]);
        self.perm("AdminForceDeleteMachine", vec![RulePrincipal::NicoAdminCLI, RulePrincipal::Machineatron]);
        self.perm("AdminForceDeleteSwitch", vec![RulePrincipal::NicoAdminCLI, RulePrincipal::Machineatron]);
        self.perm("AdminForceDeletePowerShelf", vec![RulePrincipal::NicoAdminCLI, RulePrincipal::Machineatron]);
        self.perm("AdminListResourcePools", only(RulePrincipal::NicoAdminCLI));
        self.perm("AdminGrowResourcePool", only(RulePrincipal::NicoAdminCLI));
        self.perm("SetMaintenance", vec![RulePrincipal::NicoAdminCLI, RulePrincipal::SiteAgent, RulePrincipal::Flow]);
        self.perm("SetDynamicConfig", vec![RulePrincipal::NicoAdminCLI, RulePrincipal::Machineatron]);
        self.perm("TriggerDpuReprovisioning", only(RulePrincipal::NicoAdminCLI));
        self.perm("TriggerHostReprovisioning", vec![RulePrincipal::NicoAdminCLI, RulePrincipal::Flow]);
        self.perm("ListDpuWaitingForReprovisioning", only(RulePrincipal::NicoAdminCLI));
        self.perm("MarkManualFirmwareUpgradeComplete", only(RulePrincipal::NicoAdminCLI));
        self.perm("ListHostsWaitingForReprovisioning", vec![RulePrincipal::NicoAdminCLI, RulePrincipal::Flow]);
        self.perm("GetDpuInfoList", only(RulePrincipal::Agent));
        self.perm("GetMachineBootOverride", only(RulePrincipal::NicoAdminCLI));
        self.perm("SetMachineBootOverride", only(RulePrincipal::NicoAdminCLI));
        self.perm("ClearMachineBootOverride", only(RulePrincipal::NicoAdminCLI));
        self.perm("GetNetworkTopology", only(RulePrincipal::NicoAdminCLI));
        self.perm("FindNetworkDevicesByDeviceIds", only(RulePrincipal::NicoAdminCLI));
        self.perm("CreateCredential", only(RulePrincipal::NicoAdminCLI));
        self.perm("DeleteCredential", only(RulePrincipal::NicoAdminCLI));
        self.perm("GetRouteServers", only(RulePrincipal::NicoAdminCLI));
        self.perm("AddRouteServers", only(RulePrincipal::NicoAdminCLI));
        self.perm("RemoveRouteServers", only(RulePrincipal::NicoAdminCLI));
        self.perm("ReplaceRouteServers", vec![]);
        self.perm("UpdateAgentReportedInventory", only(RulePrincipal::Agent));
        self.perm("UpdateInstancePhoneHomeLastContact", only(RulePrincipal::Agent));
        self.perm("SetHostUefiPassword", only(RulePrincipal::NicoAdminCLI));
        self.perm("ClearHostUefiPassword", only(RulePrincipal::NicoAdminCLI));
        self.perm("AddExpectedMachine", vec![RulePrincipal::NicoAdminCLI, RulePrincipal::SiteAgent, RulePrincipal::Flow]);
        self.perm("DeleteExpectedMachine", vec![RulePrincipal::NicoAdminCLI, RulePrincipal::SiteAgent]);
        self.perm("UpdateExpectedMachine", vec![RulePrincipal::NicoAdminCLI, RulePrincipal::SiteAgent]);
        self.perm("CreateExpectedMachines", vec![RulePrincipal::NicoAdminCLI, RulePrincipal::SiteAgent]);
        self.perm("UpdateExpectedMachines", vec![RulePrincipal::NicoAdminCLI, RulePrincipal::SiteAgent]);
        self.perm("GetExpectedMachine", vec![RulePrincipal::NicoAdminCLI, RulePrincipal::Flow]);
    }

    #[verifier::rlimit(100)]
    fn add_part_5(&mut self)
        ensures
            final(self)@ == rules_part_5(old(self)@),
    {
        self.perm("GetAllExpectedMachines", vec![RulePrincipal::NicoAdminCLI, RulePrincipal::SiteAgent, RulePrincipal::Flow]);
        self.perm("ReplaceAllExpectedMachines", only(RulePrincipal::NicoAdminCLI));
        self.perm("DeleteAllExpectedMachines", only(RulePrincipal::NicoAdminCLI));
        self.perm("GetAllExpectedMachinesLinked", vec![RulePrincipal::NicoAdminCLI, RulePrincipal::SiteAgent, RulePrincipal::Flow]);
        self.perm("GetAllUnexpectedMachines", vec![RulePrincipal::NicoAdminCLI, RulePrincipal::SiteAgent, RulePrincipal::Flow]);
        self.perm("AttestQuote", only(RulePrincipal::Anonymous));
        self.perm("SignMachineIdentity", only(RulePrincipal::Agent));
        self.perm("GetTenantIdentityConfiguration", vec![RulePrincipal::NicoAdminCLI, RulePrincipal::SiteAgent]);
        self.perm("SetTenantIdentityConfiguration", vec![RulePrincipal::NicoAdminCLI, RulePrincipal::SiteAgent]);
        self.perm("DeleteTenantIdentityConfiguration", vec![RulePrincipal::NicoAdminCLI, RulePrincipal::SiteAgent]);
        self.perm("GetTokenDelegation", vec![RulePrincipal::NicoAdminCLI, RulePrincipal::SiteAgent]);
        self.perm("SetTokenDelegation", vec![RulePrincipal::NicoAdminCLI, RulePrincipal::SiteAgent]);
        self.perm("DeleteTokenDelegation", vec![RulePrincipal::NicoAdminCLI, RulePrincipal::SiteAgent]);
        self.perm("GetJWKS", vec![RulePrincipal::Anonymous, RulePrincipal::Agent, RulePrincipal::NicoAdminCLI, RulePrincipal::SiteAgent]);
        self.perm("GetOpenIDConfiguration", vec![RulePrincipal::Anonymous, RulePrincipal::Agent, RulePrincipal::NicoAdminCLI, RulePrincipal::SiteAgent]);
        self.perm("CreateMeasurementBundle", vec![RulePrincipal::NicoAdminCLI, RulePrincipal::SiteAgent]);
        self.perm("DeleteMeasurementBundle", vec![RulePrincipal::NicoAdminCLI, RulePrincipal::SiteAgent]);
        self.perm("RenameMeasurementBundle", vec![RulePrincipal::NicoAdminCLI, RulePrincipal::SiteAgent]);
        self.perm("UpdateMeasurementBundle", vec![RulePrincipal::NicoAdminCLI, RulePrincipal::SiteAgent]);
        self.perm("ShowMeasurementBundle", only(RulePrincipal::NicoAdminCLI));
        self.perm("ShowMeasurementBundles", only(RulePrincipal::NicoAdminCLI));
        self.perm("ListMeasurementBundles", only(RulePrincipal::NicoAdminCLI));
        self.perm("ListMeasurementBundleMachines", only(RulePrincipal::NicoAdminCLI));
        self.perm("FindClosestBundleMatch", only(RulePrincipal::NicoAdminCLI));
        self.perm("DeleteMeasurementJournal", only(RulePrincipal::NicoAdminCLI));
        self.perm("ShowMeasurementJournal", only(RulePrincipal::NicoAdminCLI));
        self.perm("ShowMeasurementJournals", only(RulePrincipal::NicoAdminCLI));
        self.perm("ListMeasurementJournal", only(RulePrincipal::NicoAdminCLI));
        self.perm("AttestCandidateMachine", only(RulePrincipal::NicoAdminCLI));
        self.perm("ShowCandidateMachine", only(RulePrincipal::NicoAdminCLI));
        self.perm("ShowCandidateMachines", only(RulePrincipal::NicoAdminCLI));
        self.perm("ListCandidateMachines", only(RulePrincipal::NicoAdminCLI));
        self.perm("CreateMeasurementSystemProfile", vec![RulePrincipal::NicoAdminCLI, RulePrincipal::SiteAgent]);
        self.perm("DeleteMeasurementSystemProfile", vec![RulePrincipal::NicoAdminCLI, RulePrincipal::SiteAgent]);
        self.perm("RenameMeasurementSystemProfile", vec![RulePrincipal::NicoAdminCLI, RulePrincipal::SiteAgent]);
        self.perm("ShowMeasurementSystemProfile", only(RulePrincipal::NicoAdminCLI));
        self.perm("ShowMeasurementSystemProfiles", only(RulePrincipal::NicoAdminCLI));
        self.perm("ListMeasurementSystemProfiles", only(RulePrincipal::NicoAdminCLI));
        self.perm("ListMeasurementSystemProfileBundles", only(RulePrincipal::NicoAdminCLI));
        self.perm("ListMeasurementSystemProfileMachines", only(RulePrincipal::NicoAdminCLI));
    }

    #[verifier::rlimit(100)]
    fn add_part_6(&mut self)
        ensures
            final(self)@ == rules_part_6(old(self)@),
    {
        self.perm("CreateMeasurementReport", vec![RulePrincipal::NicoAdminCLI, RulePrincipal::SiteAgent]);
        self.perm("DeleteMeasurementReport", vec![RulePrincipal::NicoAdminCLI, RulePrincipal::SiteAgent]);
        self.perm("PromoteMeasurementReport", vec![RulePrincipal::NicoAdminCLI, RulePrincipal::SiteAgent]);
        self.perm("RevokeMeasurementReport", vec![RulePrincipal::NicoAdminCLI, RulePrincipal::SiteAgent]);
        self.perm("ShowMeasurementReportForId", only(RulePrincipal::NicoAdminCLI));
        self.perm("ShowMeasurementReportsForMachine", only(RulePrincipal::NicoAdminCLI));
        self.perm("ShowMeasurementReports", only(RulePrincipal::NicoAdminCLI));
        self.perm("ListMeasurementReport", only(RulePrincipal::NicoAdminCLI));
        self.perm("MatchMeasurementReport", only(RulePrincipal::NicoAdminCLI));
        self.perm("ImportSiteMeasurements", vec![RulePrincipal::NicoAdminCLI, RulePrincipal::SiteAgent]);
        self.perm("ExportSiteMeasurements", vec![RulePrincipal::NicoAdminCLI, RulePrincipal::SiteAgent]);
        self.perm("AddMeasurementTrustedMachine", vec![RulePrincipal::NicoAdminCLI, RulePrincipal::SiteAgent]);
        self.perm("RemoveMeasurementTrustedMachine", vec![RulePrincipal::NicoAdminCLI, RulePrincipal::SiteAgent]);
        self.perm("AddMeasurementTrustedProfile", vec![RulePrincipal::NicoAdminCLI, RulePrincipal::SiteAgent]);
        self.perm("RemoveMeasurementTrustedProfile", vec![RulePrincipal::NicoAdminCLI, RulePrincipal::SiteAgent]);
        self.perm("ListMeasurementTrustedMachines", vec![RulePrincipal::NicoAdminCLI, RulePrincipal::SiteAgent]);
        self.perm("ListMeasurementTrustedProfiles", vec![RulePrincipal::NicoAdminCLI, RulePrincipal::SiteAgent]);
        self.perm("ListAttestationSummary", only(RulePrincipal::SiteAgent));
        self.perm("ImportStorageCluster", vec![RulePrincipal::NicoAdminCLI, RulePrincipal::SiteAgent]);
        self.perm("DeleteStorageCluster", vec![RulePrincipal::NicoAdminCLI, RulePrincipal::SiteAgent]);
        self.perm("ListStorageCluster", vec![RulePrincipal::NicoAdminCLI, RulePrincipal::SiteAgent]);
        self.perm("GetStorageCluster", vec![RulePrincipal::NicoAdminCLI, RulePrincipal::SiteAgent]);
        self.perm("UpdateStorageCluster", vec![RulePrincipal::NicoAdminCLI, RulePrincipal::SiteAgent]);
        self.perm("CreateStoragePool", vec![RulePrincipal::NicoAdminCLI, RulePrincipal::SiteAgent]);
        self.perm("DeleteStoragePool", vec![RulePrincipal::NicoAdminCLI, RulePrincipal::SiteAgent]);
        self.perm("ListStoragePool", vec![RulePrincipal::NicoAdminCLI, RulePrincipal::SiteAgent]);
        self.perm("GetStoragePool", vec![RulePrincipal::NicoAdminCLI, RulePrincipal::SiteAgent]);
        self.perm("UpdateStoragePool", vec![RulePrincipal::NicoAdminCLI, RulePrincipal::SiteAgent]);
        self.perm("CreateStorageVolume", vec![RulePrincipal::NicoAdminCLI, RulePrincipal::SiteAgent]);
        self.perm("DeleteStorageVolume", vec![RulePrincipal::NicoAdminCLI, RulePrincipal::SiteAgent]);
        self.perm("ListStorageVolume", vec![RulePrincipal::NicoAdminCLI, RulePrincipal::SiteAgent]);
        self.perm("GetStorageVolume", vec![RulePrincipal::NicoAdminCLI, RulePrincipal::SiteAgent]);
        self.perm("UpdateStorageVolume", vec![RulePrincipal::NicoAdminCLI, RulePrincipal::SiteAgent]);
        self.perm("CreateOsImage", vec![RulePrincipal::NicoAdminCLI, RulePrincipal::SiteAgent]);
        self.perm("DeleteOsImage", vec![RulePrincipal::NicoAdminCLI, RulePrincipal::SiteAgent]);
        self.perm("ListOsImage", vec![RulePrincipal::NicoAdminCLI, RulePrincipal::SiteAgent]);
        self.perm("GetOsImage", vec![RulePrincipal::NicoAdminCLI, RulePrincipal::SiteAgent]);
        self.perm("UpdateOsImage", vec![RulePrincipal::NicoAdminCLI, RulePrincipal::SiteAgent]);
        self.perm("CreateOperatingSystem", vec![RulePrincipal::NicoAdminCLI, RulePrincipal::SiteAgent]);
        self.perm("GetOperatingSystem", vec![RulePrincipal::NicoAdminCLI, RulePrincipal::SiteAgent]);
    }

    #[verifier::rlimit(100)]
    fn add_part_7(&mut self)
        ensures
            final(self)@ == rules_part_7(old(self)@),
    {
        self.perm("UpdateOperatingSystem", vec![RulePrincipal::NicoAdminCLI, RulePrincipal::SiteAgent]);
        self.perm("DeleteOperatingSystem", vec![RulePrincipal::NicoAdminCLI, RulePrincipal::SiteAgent]);
        self.perm("FindOperatingSystemIds", vec![RulePrincipal::NicoAdminCLI, RulePrincipal::SiteAgent]);
        self.perm("FindOperatingSystemsByIds", vec![RulePrincipal::NicoAdminCLI, RulePrincipal::SiteAgent]);
        self.perm("GetOperatingSystemCachableIpxeTemplateArtifacts", only(RulePrincipal::NicoAdminCLI));
        self.perm("UpdateOperatingSystemCachableIpxeTemplateArtifacts", only(RulePrincipal::NicoAdminCLI));
        self.perm("GetIpxeTemplate", vec![RulePrincipal::NicoAdminCLI, RulePrincipal::SiteAgent]);
        self.perm("ListIpxeTemplates", vec![RulePrincipal::NicoAdminCLI, RulePrincipal::SiteAgent]);
        self.perm("FindRackStateHistories", vec![RulePrincipal::NicoAdminCLI, RulePrincipal::Machineatron]);
        self.perm("RebootCompleted", vec![RulePrincipal::Machineatron, RulePrincipal::Scout]);
        self.perm("PersistValidationResult", vec![RulePrincipal::Scout, RulePrincipal::SiteAgent]);
        self.perm("GetMachineValidationResults", vec![RulePrincipal::NicoAdminCLI, RulePrincipal::Scout, RulePrincipal::SiteAgent]);
        self.perm("MachineValidationCompleted", vec![RulePrincipal::Machineatron, RulePrincipal::Scout]);
        self.perm("MachineSetAutoUpdate", vec![RulePrincipal::NicoAdminCLI, RulePrincipal::Flow]);
        self.perm("GetMachineValidationExternalConfig", vec![RulePrincipal::NicoAdminCLI, RulePrincipal::Scout]);
        self.perm("AddUpdateMachineValidationExternalConfig", vec![RulePrincipal::NicoAdminCLI, RulePrincipal::SiteAgent]);
        self.perm("GetMachineValidationRuns", vec![RulePrincipal::NicoAdminCLI, RulePrincipal::SiteAgent]);
        self.perm("AdminBmcReset", only(RulePrincipal::NicoAdminCLI));
        self.perm("AdminPowerControl", vec![RulePrincipal::NicoAdminCLI, RulePrincipal::Flow]);
        self.perm("DisableSecureBoot", only(RulePrincipal::NicoAdminCLI));
        self.perm("MachineSetup", only(RulePrincipal::NicoAdminCLI));
        self.perm("SetDpuFirstBootOrder", only(RulePrincipal::NicoAdminCLI));
        self.perm("OnDemandMachineValidation", only(RulePrincipal::NicoAdminCLI));
        self.perm("OnDemandRackMaintenance", only(RulePrincipal::NicoAdminCLI));
        self.perm("TpmAddCaCert", vec![RulePrincipal::NicoAdminCLI, RulePrincipal::SiteAgent]);
        self.perm("TpmShowCaCerts", vec![RulePrincipal::NicoAdminCLI, RulePrincipal::SiteAgent]);
        self.perm("TpmShowUnmatchedEkCerts", vec![RulePrincipal::NicoAdminCLI, RulePrincipal::SiteAgent]);
        self.perm("TpmDeleteCaCert", vec![RulePrincipal::NicoAdminCLI, RulePrincipal::SiteAgent]);
        self.perm("RedfishListActions", only(RulePrincipal::NicoAdminCLI));
        self.perm("RedfishCreateAction", only(RulePrincipal::NicoAdminCLI));
        self.perm("RedfishApproveAction", only(RulePrincipal::NicoAdminCLI));
        self.perm("RedfishApplyAction", only(RulePrincipal::NicoAdminCLI));
        self.perm("RedfishCancelAction", only(RulePrincipal::NicoAdminCLI));
        self.perm("FindTenantOrganizationIds", vec![RulePrincipal::SiteAgent, RulePrincipal::NicoAdminCLI]);
        self.perm("FindTenantsByOrganizationIds", vec![RulePrincipal::SiteAgent, RulePrincipal::NicoAdminCLI]);
        self.perm("FindMacAddressByBmcIp", vec![RulePrincipal::SiteAgent, RulePrincipal::BmcProxy]);
        self.perm("FindBmcIps", vec![RulePrincipal::NicoAdminCLI, RulePrincipal::BmcProxy]);
        self.perm("BmcCredentialStatus", vec![RulePrincipal::NicoAdminCLI, RulePrincipal::SiteAgent]);
        self.perm("GetMachineValidationExternalConfigs", vec![RulePrincipal::NicoAdminCLI, RulePrincipal::Scout, RulePrincipal::SiteAgent]);
        self.perm("RemoveMachineValidationExternalConfig", vec![RulePrincipal::NicoAdminCLI, RulePrincipal::Scout, RulePrincipal::SiteAgent]);
    }

    #[verifier::rlimit(100)]
    fn add_part_8(&mut self)
        ensures
            final(self)@ == rules_part_8(old(self)@),
    {
        self.perm("GetMachineValidationTests", vec![RulePrincipal::NicoAdminCLI, RulePrincipal::SiteAgent, RulePrincipal::Agent, RulePrincipal::Scout]);
        self.perm("AddMachineValidationTest", vec![RulePrincipal::NicoAdminCLI, RulePrincipal::SiteAgent]);
        self.perm("UpdateMachineValidationTest", vec![RulePrincipal::NicoAdminCLI, RulePrincipal::SiteAgent]);
        self.perm("MachineValidationTestVerfied", vec![RulePrincipal::NicoAdminCLI, RulePrincipal::Scout, RulePrincipal::SiteAgent]);
        self.perm("MachineValidationTestNextVersion", vec![RulePrincipal::NicoAdminCLI, RulePrincipal::SiteAgent]);
        self.perm("MachineValidationTestEnableDisableTest", vec![RulePrincipal::NicoAdminCLI, RulePrincipal::SiteAgent, RulePrincipal::Scout]);
        self.perm("UpdateMachineValidationRun", vec![RulePrincipal::Scout, RulePrincipal::SiteAgent]);
        self.perm("FindInstanceTypeIds", vec![RulePrincipal::SiteAgent, RulePrincipal::NicoAdminCLI]);
        self.perm("FindInstanceTypesByIds", vec![RulePrincipal::NicoAdminCLI, RulePrincipal::SiteAgent]);
        self.perm("CreateInstanceType", vec![RulePrincipal::NicoAdminCLI, RulePrincipal::SiteAgent]);
        self.perm("UpdateInstanceType", vec![RulePrincipal::NicoAdminCLI, RulePrincipal::SiteAgent]);
        self.perm("DeleteInstanceType", vec![RulePrincipal::NicoAdminCLI, RulePrincipal::SiteAgent]);
        self.perm("AssociateMachinesWithInstanceType", vec![RulePrincipal::NicoAdminCLI, RulePrincipal::SiteAgent]);
        self.perm("RemoveMachineInstanceTypeAssociation", vec![RulePrincipal::NicoAdminCLI, RulePrincipal::SiteAgent]);
        self.perm("RedfishBrowse", only(RulePrincipal::NicoAdminCLI));
        self.perm("UfmBrowse", only(RulePrincipal::NicoAdminCLI));
        self.perm("NmxcBrowse", only(RulePrincipal::NicoAdminCLI));
        self.perm("UpdateMachineMetadata", vec![RulePrincipal::NicoAdminCLI, RulePrincipal::SiteAgent]);
        self.perm("UpdateRackMetadata", vec![RulePrincipal::NicoAdminCLI, RulePrincipal::SiteAgent]);
        self.perm("UpdateSwitchMetadata", vec![RulePrincipal::NicoAdminCLI, RulePrincipal::SiteAgent]);
        self.perm("UpdatePowerShelfMetadata", vec![RulePrincipal::NicoAdminCLI, RulePrincipal::SiteAgent]);
        self.perm("CreateNetworkSecurityGroup", vec![RulePrincipal::NicoAdminCLI, RulePrincipal::SiteAgent]);
        self.perm("FindNetworkSecurityGroupIds", vec![RulePrincipal::NicoAdminCLI, RulePrincipal::SiteAgent]);
        self.perm("FindNetworkSecurityGroupsByIds", vec![RulePrincipal::NicoAdminCLI, RulePrincipal::SiteAgent]);
        self.perm("UpdateNetworkSecurityGroup", vec![RulePrincipal::NicoAdminCLI, RulePrincipal::SiteAgent]);
        self.perm("DeleteNetworkSecurityGroup", vec![RulePrincipal::NicoAdminCLI, RulePrincipal::SiteAgent]);
        self.perm("GetNetworkSecurityGroupPropagationStatus", vec![RulePrincipal::NicoAdminCLI, RulePrincipal::SiteAgent]);
        self.perm("GetNetworkSecurityGroupAttachments", vec![RulePrincipal::NicoAdminCLI, RulePrincipal::SiteAgent]);
        self.perm("GetDesiredFirmwareVersions", vec![RulePrincipal::NicoAdminCLI, RulePrincipal::Machineatron, RulePrincipal::Flow]);
        self.perm("CreateSku", only(RulePrincipal::NicoAdminCLI));
        self.perm("GenerateSkuFromMachine", only(RulePrincipal::NicoAdminCLI));
        self.perm("AssignSkuToMachine", only(RulePrincipal::NicoAdminCLI));
        self.perm("VerifySkuForMachine", only(RulePrincipal::NicoAdminCLI));
        self.perm("RemoveSkuAssociation", only(RulePrincipal::NicoAdminCLI));
        self.perm("GetAllSkuIds", vec![RulePrincipal::NicoAdminCLI, RulePrincipal::SiteAgent, RulePrincipal::Flow]);
        self.perm("FindSkusByIds", vec![RulePrincipal::NicoAdminCLI, RulePrincipal::SiteAgent, RulePrincipal::Flow]);
        self.perm("DeleteSku", only(RulePrincipal::NicoAdminCLI));
        self.perm("UpdateSkuMetadata", only(RulePrincipal::NicoAdminCLI));
        self.perm("UpdateMachineHardwareInfo", only(RulePrincipal::NicoAdminCLI));
        self.perm("ReplaceSku", only(RulePrincipal::NicoAdminCLI));
    }

    #[verifier::rlimit(100)]
    fn add_part_9(&mut self)
        ensures
            final(self)@ == rules_part_9(old(self)@),
    {
        self.perm("GetManagedHostQuarantineState", vec![RulePrincipal::NicoAdminCLI, RulePrincipal::SiteAgent]);
        self.perm("SetManagedHostQuarantineState", vec![RulePrincipal::NicoAdminCLI, RulePrincipal::SiteAgent]);
        self.perm("ClearManagedHostQuarantineState", vec![RulePrincipal::NicoAdminCLI, RulePrincipal::SiteAgent]);
        self.perm("CreateVpcPeering", vec![RulePrincipal::NicoAdminCLI, RulePrincipal::SiteAgent]);
        self.perm("FindVpcPeeringIds", vec![RulePrincipal::NicoAdminCLI, RulePrincipal::SiteAgent]);
        self.perm("FindVpcPeeringsByIds", vec![RulePrincipal::NicoAdminCLI, RulePrincipal::SiteAgent]);
        self.perm("DeleteVpcPeering", vec![RulePrincipal::NicoAdminCLI, RulePrincipal::SiteAgent]);
        self.perm("ResetHostReprovisioning", vec![RulePrincipal::NicoAdminCLI, RulePrincipal::Flow]);
        self.perm("CopyBfbToDpuRshim", only(RulePrincipal::NicoAdminCLI));
        self.perm("GetPowerOptions", vec![RulePrincipal::NicoAdminCLI, RulePrincipal::SiteAgent, RulePrincipal::Flow]);
        self.perm("UpdatePowerOption", vec![RulePrincipal::NicoAdminCLI, RulePrincipal::SiteAgent, RulePrincipal::Flow]);
        self.perm("CreateBmcUser", only(RulePrincipal::NicoAdminCLI));
        self.perm("DeleteBmcUser", only(RulePrincipal::NicoAdminCLI));
        self.perm("SetFirmwareUpdateTimeWindow", vec![RulePrincipal::NicoAdminCLI, RulePrincipal::Flow]);
        self.perm("ListHostFirmware", vec![RulePrincipal::NicoAdminCLI, RulePrincipal::Flow]);
        self.perm("EnableInfiniteBoot", only(RulePrincipal::NicoAdminCLI));
        self.perm("IsInfiniteBootEnabled", only(RulePrincipal::NicoAdminCLI));
        self.perm("Lockdown", only(RulePrincipal::NicoAdminCLI));
        self.perm("LockdownStatus", only(RulePrincipal::NicoAdminCLI));
        self.perm("PublishMlxDeviceReport", vec![RulePrincipal::Agent, RulePrincipal::Scout, RulePrincipal::Machineatron, RulePrincipal::NicoAdminCLI]);
        self.perm("PublishMlxObservationReport", vec![RulePrincipal::Agent, RulePrincipal::Scout, RulePrincipal::Machineatron, RulePrincipal::NicoAdminCLI]);
        self.perm("TrimTable", vec![RulePrincipal::NicoAdminCLI, RulePrincipal::MaintenanceJobs]);
        self.perm("ListNvlinkNmxcEndpoints", only(RulePrincipal::NicoAdminCLI));
        self.perm("CreateNvlinkNmxcEndpoint", only(RulePrincipal::NicoAdminCLI));
        self.perm("UpdateNvlinkNmxcEndpoint", only(RulePrincipal::NicoAdminCLI));
        self.perm("DeleteNvlinkNmxcEndpoint", only(RulePrincipal::NicoAdminCLI));
        self.perm("CreateRemediation", only(RulePrincipal::NicoAdminCLI));
        self.perm("ApproveRemediation", only(RulePrincipal::NicoAdminCLI));
        self.perm("RevokeRemediation", only(RulePrincipal::NicoAdminCLI));
        self.perm("EnableRemediation", only(RulePrincipal::NicoAdminCLI));
        self.perm("DisableRemediation", only(RulePrincipal::NicoAdminCLI));
        self.perm("FindRemediationIds", only(RulePrincipal::NicoAdminCLI));
        self.perm("FindRemediationsByIds", only(RulePrincipal::NicoAdminCLI));
        self.perm("FindAppliedRemediations", only(RulePrincipal::NicoAdminCLI));
        self.perm("FindAppliedRemediationIds", only(RulePrincipal::NicoAdminCLI));
        self.perm("GetNextRemediationForMachine", only(RulePrincipal::Agent));
        self.perm("RemediationApplied", only(RulePrincipal::Agent));
        self.perm("DetermineMachineIngestionState", vec![RulePrincipal::NicoAdminCLI, RulePrincipal::Flow]);
        self.perm("AllowIngestionAndPowerOn", vec![RulePrincipal::NicoAdminCLI, RulePrincipal::Flow]);
        self.perm("SetPrimaryDpu", only(RulePrincipal::NicoAdminCLI));
    }

    #[verifier::rlimit(100)]
    fn add_part_10(&mut self)
        ensures
            final(self)@ == rules_part_10(old(self)@),
    {
        self.perm("CreateDpuExtensionService", vec![RulePrincipal::NicoAdminCLI, RulePrincipal::SiteAgent]);
        self.perm("UpdateDpuExtensionService", vec![RulePrincipal::NicoAdminCLI, RulePrincipal::SiteAgent]);
        self.perm("DeleteDpuExtensionService", vec![RulePrincipal::NicoAdminCLI, RulePrincipal::SiteAgent]);
        self.perm("FindDpuExtensionServiceIds", vec![RulePrincipal::NicoAdminCLI, RulePrincipal::SiteAgent]);
        self.perm("FindDpuExtensionServicesByIds", vec![RulePrincipal::NicoAdminCLI, RulePrincipal::SiteAgent]);
        self.perm("GetDpuExtensionServiceVersionsInfo", vec![RulePrincipal::NicoAdminCLI, RulePrincipal::SiteAgent]);
        self.perm("FindInstancesByDpuExtensionService", vec![RulePrincipal::NicoAdminCLI, RulePrincipal::SiteAgent]);
        self.perm("TriggerMachineAttestation", vec![RulePrincipal::NicoAdminCLI, RulePrincipal::SiteAgent]);
        self.perm("CancelMachineAttestation", vec![RulePrincipal::NicoAdminCLI, RulePrincipal::SiteAgent]);
        self.perm("ListAttestationsForMachineId", vec![RulePrincipal::NicoAdminCLI, RulePrincipal::SiteAgent]);
        self.perm("GetMachineAttestationStatus", vec![RulePrincipal::NicoAdminCLI, RulePrincipal::SiteAgent]);
        self.perm("FindMachineIdsUnderAttestation", vec![RulePrincipal::NicoAdminCLI, RulePrincipal::SiteAgent]);
        self.perm("FindPowerShelves", vec![RulePrincipal::NicoAdminCLI, RulePrincipal::Machineatron, RulePrincipal::Flow]);
        self.perm("FindPowerShelfIds", vec![RulePrincipal::NicoAdminCLI, RulePrincipal::Machineatron, RulePrincipal::Flow]);
        self.perm("FindPowerShelvesByIds", vec![RulePrincipal::NicoAdminCLI, RulePrincipal::Machineatron, RulePrincipal::Flow]);
        self.perm("CreatePowerShelf", vec![RulePrincipal::NicoAdminCLI, RulePrincipal::Machineatron]);
        self.perm("DeletePowerShelf", vec![RulePrincipal::NicoAdminCLI, RulePrincipal::Machineatron]);
        self.perm("AddExpectedPowerShelf", vec![RulePrincipal::NicoAdminCLI, RulePrincipal::Machineatron, RulePrincipal::SiteAgent, RulePrincipal::Flow]);
        self.perm("DeleteExpectedPowerShelf", vec![RulePrincipal::NicoAdminCLI, RulePrincipal::Machineatron, RulePrincipal::SiteAgent]);
        self.perm("UpdateExpectedPowerShelf", vec![RulePrincipal::NicoAdminCLI, RulePrincipal::Machineatron, RulePrincipal::SiteAgent]);
        self.perm("GetExpectedPowerShelf", vec![RulePrincipal::NicoAdminCLI, RulePrincipal::Machineatron, RulePrincipal::Flow]);
        self.perm("GetAllExpectedPowerShelves", vec![RulePrincipal::NicoAdminCLI, RulePrincipal::Machineatron, RulePrincipal::SiteAgent, RulePrincipal::Flow]);
        self.perm("ReplaceAllExpectedPowerShelves", vec![RulePrincipal::NicoAdminCLI, RulePrincipal::Machineatron]);
        self.perm("DeleteAllExpectedPowerShelves", vec![RulePrincipal::NicoAdminCLI, RulePrincipal::Machineatron]);
        self.perm("GetAllExpectedPowerShelvesLinked", vec![RulePrincipal::NicoAdminCLI, RulePrincipal::Machineatron, RulePrincipal::SiteAgent, RulePrincipal::Flow]);
        self.perm("FindPowerShelfStateHistories", vec![RulePrincipal::NicoAdminCLI, RulePrincipal::Machineatron, RulePrincipal::Flow]);
        self.perm("SetPowerShelfMaintenance", vec![RulePrincipal::NicoAdminCLI, RulePrincipal::Machineatron, RulePrincipal::Flow]);
        self.perm("FindSwitches", vec![RulePrincipal::NicoAdminCLI, RulePrincipal::Machineatron, RulePrincipal::Flow, RulePrincipal::Health]);
        self.perm("FindSwitchIds", vec![RulePrincipal::NicoAdminCLI, RulePrincipal::Machineatron, RulePrincipal::Flow, RulePrincipal::Health]);
        self.perm("FindSwitchesByIds", vec![RulePrincipal::NicoAdminCLI, RulePrincipal::Machineatron, RulePrincipal::Flow, RulePrincipal::Health]);
        self.perm("CreateSwitch", vec![RulePrincipal::NicoAdminCLI, RulePrincipal::Machineatron]);
        self.perm("DeleteSwitch", vec![RulePrincipal::NicoAdminCLI, RulePrincipal::Machineatron]);
        self.perm("AddExpectedSwitch", vec![RulePrincipal::NicoAdminCLI, RulePrincipal::Machineatron, RulePrincipal::SiteAgent, RulePrincipal::Flow]);
        self.perm("DeleteExpectedSwitch", vec![RulePrincipal::NicoAdminCLI, RulePrincipal::Machineatron, RulePrincipal::SiteAgent]);
        self.perm("UpdateExpectedSwitch", vec![RulePrincipal::NicoAdminCLI, RulePrincipal::Machineatron, RulePrincipal::SiteAgent]);
        self.perm("GetExpectedSwitch", vec![RulePrincipal::NicoAdminCLI, RulePrincipal::Machineatron, RulePrincipal::Flow]);
        self.perm("GetAllExpectedSwitches", vec![RulePrincipal::NicoAdminCLI, RulePrincipal::Machineatron, RulePrincipal::SiteAgent, RulePrincipal::Flow]);
        self.perm("ReplaceAllExpectedSwitches", vec![RulePrincipal::NicoAdminCLI, RulePrincipal::Machineatron]);
        self.perm("DeleteAllExpectedSwitches", vec![RulePrincipal::NicoAdminCLI, RulePrincipal::Machineatron]);
        self.perm("GetAllExpectedSwitchesLinked", vec![RulePrincipal::NicoAdminCLI, RulePrincipal::Machineatron, RulePrincipal::SiteAgent, RulePrincipal::Flow]);
    }

    #[verifier::rlimit(100)]
    fn add_part_11(&mut self)
        ensures
            final(self)@ == rules_part_11(old(self)@),
    {
        self.perm("AddExpectedRack", vec![RulePrincipal::NicoAdminCLI, RulePrincipal::Machineatron, RulePrincipal::SiteAgent]);
        self.perm("DeleteExpectedRack", vec![RulePrincipal::NicoAdminCLI, RulePrincipal::Machineatron, RulePrincipal::SiteAgent]);
        self.perm("UpdateExpectedRack", vec![RulePrincipal::NicoAdminCLI, RulePrincipal::Machineatron, RulePrincipal::SiteAgent]);
        self.perm("GetExpectedRack", vec![RulePrincipal::NicoAdminCLI, RulePrincipal::Machineatron, RulePrincipal::SiteAgent, RulePrincipal::Flow]);
        self.perm("GetAllExpectedRacks", vec![RulePrincipal::NicoAdminCLI, RulePrincipal::Machineatron, RulePrincipal::SiteAgent, RulePrincipal::Flow]);
        self.perm("ReplaceAllExpectedRacks", vec![RulePrincipal::NicoAdminCLI, RulePrincipal::Machineatron, RulePrincipal::SiteAgent]);
        self.perm("DeleteAllExpectedRacks", vec![RulePrincipal::NicoAdminCLI, RulePrincipal::Machineatron, RulePrincipal::SiteAgent]);
        self.perm("FindSwitchStateHistories", vec![RulePrincipal::NicoAdminCLI, RulePrincipal::Machineatron, RulePrincipal::Flow]);
        self.perm("FindRackIds", vec![RulePrincipal::NicoAdminCLI, RulePrincipal::SiteAgent, RulePrincipal::Flow]);
        self.perm("FindRacksByIds", vec![RulePrincipal::NicoAdminCLI, RulePrincipal::SiteAgent, RulePrincipal::Flow]);
        self.perm("GetRack", vec![RulePrincipal::NicoAdminCLI, RulePrincipal::Flow]);
        self.perm("DeleteRack", vec![RulePrincipal::NicoAdminCLI, RulePrincipal::Flow]);
        self.perm("GetRackProfile", only(RulePrincipal::NicoAdminCLI));
        self.perm("RackManagerCall", only(RulePrincipal::NicoAdminCLI));
        self.perm("ScoutStream", only(RulePrincipal::Scout));
        self.perm("ScoutStreamShowConnections", only(RulePrincipal::NicoAdminCLI));
        self.perm("ScoutStreamDisconnect", only(RulePrincipal::NicoAdminCLI));
        self.perm("ScoutStreamPing", only(RulePrincipal::NicoAdminCLI));
        self.perm("MlxAdminProfileSync", only(RulePrincipal::NicoAdminCLI));
        self.perm("MlxAdminProfileShow", only(RulePrincipal::NicoAdminCLI));
        self.perm("MlxAdminProfileCompare", only(RulePrincipal::NicoAdminCLI));
        self.perm("MlxAdminProfileList", only(RulePrincipal::NicoAdminCLI));
        self.perm("MlxAdminLockdownLock", only(RulePrincipal::NicoAdminCLI));
        self.perm("MlxAdminLockdownUnlock", only(RulePrincipal::NicoAdminCLI));
        self.perm("MlxAdminLockdownStatus", only(RulePrincipal::NicoAdminCLI));
        self.perm("MlxAdminShowDevice", only(RulePrincipal::NicoAdminCLI));
        self.perm("MlxAdminShowMachine", only(RulePrincipal::NicoAdminCLI));
        self.perm("MlxAdminRegistryList", only(RulePrincipal::NicoAdminCLI));
        self.perm("MlxAdminRegistryShow", only(RulePrincipal::NicoAdminCLI));
        self.perm("MlxAdminConfigQuery", only(RulePrincipal::NicoAdminCLI));
        self.perm("MlxAdminConfigSet", only(RulePrincipal::NicoAdminCLI));
        self.perm("MlxAdminConfigSync", only(RulePrincipal::NicoAdminCLI));
        self.perm("MlxAdminConfigCompare", only(RulePrincipal::NicoAdminCLI));
        self.perm("FindNVLinkPartitionIds", vec![RulePrincipal::NicoAdminCLI, RulePrincipal::SiteAgent]);
        self.perm("FindNVLinkPartitionsByIds", vec![RulePrincipal::NicoAdminCLI, RulePrincipal::SiteAgent]);
        self.perm("NVLinkPartitionsForTenant", vec![RulePrincipal::NicoAdminCLI, RulePrincipal::SiteAgent]);
        self.perm("FindNVLinkLogicalPartitionIds", vec![RulePrincipal::NicoAdminCLI, RulePrincipal::SiteAgent]);
        self.perm("FindNVLinkLogicalPartitionsByIds", vec![RulePrincipal::NicoAdminCLI, RulePrincipal::SiteAgent]);
        self.perm("CreateNVLinkLogicalPartition", vec![RulePrincipal::NicoAdminCLI, RulePrincipal::SiteAgent]);
        self.perm("UpdateNVLinkLogicalPartition", vec![RulePrincipal::NicoAdminCLI, RulePrincipal::SiteAgent]);
    }

    #[verifier::rlimit(100)]
    fn add_part_12(&mut self)
        ensures
            final(self)@ == rules_part_12(old(self)@),
    {
        self.perm("DeleteNVLinkLogicalPartition", vec![RulePrincipal::NicoAdminCLI, RulePrincipal::SiteAgent]);
        self.perm("NVLinkLogicalPartitionsForTenant", vec![RulePrincipal::NicoAdminCLI, RulePrincipal::SiteAgent]);
        self.perm("GetMachinePositionInfo", vec![RulePrincipal::NicoAdminCLI, RulePrincipal::SiteAgent, RulePrincipal::Flow]);
        self.perm("ModifyDPFState", only(RulePrincipal::NicoAdminCLI));
        self.perm("GetDPFState", only(RulePrincipal::NicoAdminCLI));
        self.perm("UpdateMachineNvLinkInfo", only(RulePrincipal::NicoAdminCLI));
        self.perm("CreateComputeAllocation", vec![RulePrincipal::NicoAdminCLI, RulePrincipal::SiteAgent]);
        self.perm("FindComputeAllocationIds", vec![RulePrincipal::NicoAdminCLI, RulePrincipal::SiteAgent]);
        self.perm("FindComputeAllocationsByIds", vec![RulePrincipal::NicoAdminCLI, RulePrincipal::SiteAgent]);
        self.perm("UpdateComputeAllocation", vec![RulePrincipal::NicoAdminCLI, RulePrincipal::SiteAgent]);
        self.perm("DeleteComputeAllocation", vec![RulePrincipal::NicoAdminCLI, RulePrincipal::SiteAgent]);
        self.perm("ComponentPowerControl", vec![RulePrincipal::NicoAdminCLI, RulePrincipal::Flow]);
        self.perm("GetComponentInventory", vec![RulePrincipal::NicoAdminCLI, RulePrincipal::Flow]);
        self.perm("UpdateComponentFirmware", vec![RulePrincipal::NicoAdminCLI, RulePrincipal::Flow]);
        self.perm("GetComponentFirmwareStatus", vec![RulePrincipal::NicoAdminCLI, RulePrincipal::Flow]);
        self.perm("ListComponentFirmwareVersions", vec![RulePrincipal::NicoAdminCLI, RulePrincipal::Flow]);
        self.perm("GetDPFHostSnapshot", only(RulePrincipal::NicoAdminCLI));
        self.perm("GetDPFServiceVersions", only(RulePrincipal::NicoAdminCLI));
    }
}

impl Default for InternalRBACRules {
    fn default() -> (r: Self)
        ensures
            r@ == rbac_table(),
    {
        Self::new()
    }
}

/// Rules, part 1 of the table.
pub open spec fn rules_part_1(m: Map<Seq<char>, Seq<PrincipalView>>) -> Map<Seq<char>, Seq<PrincipalView>> {
    m
        .insert("Version"@, expand(seq![RulePrincipal::Anonymous]))
        .insert("CreateDomain"@, expand(seq![]))
        .insert("CreateDomainLegacy"@, expand(seq![]))
        .insert("UpdateDomainLegacy"@, expand(seq![]))
        .insert("DeleteDomainLegacy"@, expand(seq![]))
        .insert("FindDomainLegacy"@, expand(seq![RulePrincipal::NicoAdminCLI]))
        .insert("UpdateDomain"@, expand(seq![]))
        .insert("DeleteDomain"@, expand(seq![]))
        .insert("FindDomain"@, expand(seq![RulePrincipal::NicoAdminCLI]))
        .insert("CreateVpc"@, expand(seq![RulePrincipal::SiteAgent, RulePrincipal::Machineatron]))
        .insert("UpdateVpc"@, expand(seq![RulePrincipal::NicoAdminCLI, RulePrincipal::SiteAgent]))
        .insert("UpdateVpcVirtualization"@, expand(seq![RulePrincipal::NicoAdminCLI, RulePrincipal::SiteAgent]))
        .insert("DeleteVpc"@, expand(seq![RulePrincipal::Machineatron, RulePrincipal::SiteAgent]))
        .insert("FindVpcIds"@, expand(seq![RulePrincipal::SiteAgent, RulePrincipal::NicoAdminCLI, RulePrincipal::Machineatron]))
        .insert("FindVpcsByIds"@, expand(seq![RulePrincipal::NicoAdminCLI, RulePrincipal::SiteAgent]))
        .insert("CreateVpcPrefix"@, expand(seq![RulePrincipal::NicoAdminCLI, RulePrincipal::SiteAgent]))
        .insert("SearchVpcPrefixes"@, expand(seq![RulePrincipal::NicoAdminCLI, RulePrincipal::SiteAgent]))
        .insert("GetVpcPrefixes"@, expand(seq![RulePrincipal::NicoAdminCLI, RulePrincipal::SiteAgent]))
        .insert("UpdateVpcPrefix"@, expand(seq![RulePrincipal::NicoAdminCLI, RulePrincipal::SiteAgent]))
        .insert("DeleteVpcPrefix"@, expand(seq![RulePrincipal::NicoAdminCLI, RulePrincipal::SiteAgent]))
        .insert("GetAllDpaInterfaceIds"@, expand(seq![RulePrincipal::NicoAdminCLI, RulePrincipal::SiteAgent]))
        .insert("FindDpaInterfacesByIds"@, expand(seq![RulePrincipal::NicoAdminCLI, RulePrincipal::SiteAgent]))
        .insert("CreateDpaInterface"@, expand(seq![]))
        .insert("EnsureDpaInterface"@, expand(seq![]))
        .insert("DeleteDpaInterface"@, expand(seq![]))
        .insert("SetDpaNetworkObservationStatus"@, expand(seq![]))
        .insert("FindNetworkSegmentIds"@, expand(seq![RulePrincipal::NicoAdminCLI, RulePrincipal::Machineatron, RulePrincipal::SiteAgent]))
        .insert("FindNetworkSegmentsByIds"@, expand(seq![RulePrincipal::NicoAdminCLI, RulePrincipal::Machineatron, RulePrincipal::SiteAgent]))
        .insert("FindNetworkSegmentStateHistories"@, expand(seq![RulePrincipal::NicoAdminCLI, RulePrincipal::Machineatron, RulePrincipal::SiteAgent]))
        .insert("CreateNetworkSegment"@, expand(seq![RulePrincipal::Machineatron, RulePrincipal::SiteAgent]))
        .insert("DeleteNetworkSegment"@, expand(seq![RulePrincipal::NicoAdminCLI, RulePrincipal::Machineatron, RulePrincipal::SiteAgent]))
        .insert("NetworkSegmentsForVpc"@, expand(seq![]))
        .insert("FindIBPartitionIds"@, expand(seq![RulePrincipal::NicoAdminCLI, RulePrincipal::SiteAgent]))
        .insert("FindIBPartitionsByIds"@, expand(seq![RulePrincipal::NicoAdminCLI, RulePrincipal::SiteAgent]))
        .insert("CreateIBPartition"@, expand(seq![RulePrincipal::SiteAgent]))
        .insert("UpdateIBPartition"@, expand(seq![RulePrincipal::SiteAgent]))
        .insert("DeleteIBPartition"@, expand(seq![RulePrincipal::SiteAgent]))
        .insert("IBPartitionsForTenant"@, expand(seq![]))
        .insert("FindIBFabricIds"@, expand(seq![RulePrincipal::NicoAdminCLI, RulePrincipal::SiteAgent]))
        .insert("AllocateInstance"@, expand(seq![RulePrincipal::NicoAdminCLI, RulePrincipal::Machineatron, RulePrincipal::SiteAgent]))
}

/// Rules, part 2 of the table.
pub open spec fn rules_part_2(m: Map<Seq<char>, Seq<PrincipalView>>) -> Map<Seq<char>, Seq<PrincipalView>> {
    m
        .insert("AllocateInstances"@, expand(seq![RulePrincipal::NicoAdminCLI, RulePrincipal::Machineatron, RulePrincipal::SiteAgent]))
        .insert("ReleaseInstance"@, expand(seq![RulePrincipal::NicoAdminCLI, RulePrincipal::SiteAgent]))
        .insert("UpdateInstanceOperatingSystem"@, expand(seq![RulePrincipal::SiteAgent]))
        .insert("UpdateInstanceConfig"@, expand(seq![RulePrincipal::NicoAdminCLI, RulePrincipal::SiteAgent]))
        .insert("FindInstanceIds"@, expand(seq![RulePrincipal::NicoAdminCLI, RulePrincipal::SiteAgent]))
        .insert("FindInstancesByIds"@, expand(seq![RulePrincipal::NicoAdminCLI, RulePrincipal::SiteAgent, RulePrincipal::Ssh, RulePrincipal::SshRs]))
        .insert("FindInstanceByMachineID"@, expand(seq![RulePrincipal::NicoAdminCLI, RulePrincipal::Agent, RulePrincipal::SiteAgent]))
        .insert("RecordObservedInstanceNetworkStatus"@, expand(seq![]))
        .insert("GetManagedHostNetworkConfig"@, expand(seq![RulePrincipal::NicoAdminCLI, RulePrincipal::Agent, RulePrincipal::Machineatron, RulePrincipal::SiteAgent]))
        .insert("RecordDpuNetworkStatus"@, expand(seq![RulePrincipal::Agent, RulePrincipal::Machineatron]))
        .insert("ListMachineHealthReports"@, expand(seq![RulePrincipal::NicoAdminCLI, RulePrincipal::Health, RulePrincipal::Ssh, RulePrincipal::SshRs]))
        .insert("InsertMachineHealthReport"@, expand(seq![RulePrincipal::NicoAdminCLI, RulePrincipal::Health, RulePrincipal::SiteAgent, RulePrincipal::Ssh, RulePrincipal::SshRs, RulePrincipal::Flow]))
        .insert("RemoveMachineHealthReport"@, expand(seq![RulePrincipal::NicoAdminCLI, RulePrincipal::Health, RulePrincipal::SiteAgent, RulePrincipal::Ssh, RulePrincipal::SshRs, RulePrincipal::Flow]))
        .insert("ListRackHealthReports"@, expand(seq![RulePrincipal::NicoAdminCLI, RulePrincipal::Health, RulePrincipal::DsxExchangeConsumer]))
        .insert("InsertRackHealthReport"@, expand(seq![RulePrincipal::NicoAdminCLI, RulePrincipal::Health, RulePrincipal::DsxExchangeConsumer]))
        .insert("RemoveRackHealthReport"@, expand(seq![RulePrincipal::NicoAdminCLI, RulePrincipal::Health, RulePrincipal::DsxExchangeConsumer]))
        .insert("ListSwitchHealthReports"@, expand(seq![RulePrincipal::NicoAdminCLI, RulePrincipal::Health]))
        .insert("InsertSwitchHealthReport"@, expand(seq![RulePrincipal::NicoAdminCLI, RulePrincipal::Health]))
        .insert("RemoveSwitchHealthReport"@, expand(seq![RulePrincipal::NicoAdminCLI, RulePrincipal::Health]))
        .insert("ListPowerShelfHealthReports"@, expand(seq![RulePrincipal::NicoAdminCLI, RulePrincipal::Health]))
        .insert("InsertPowerShelfHealthReport"@, expand(seq![RulePrincipal::NicoAdminCLI, RulePrincipal::Health]))
        .insert("RemovePowerShelfHealthReport"@, expand(seq![RulePrincipal::NicoAdminCLI, RulePrincipal::Health]))
        .insert("ListHealthReportOverrides"@, expand(seq![RulePrincipal::NicoAdminCLI, RulePrincipal::Health, RulePrincipal::Ssh, RulePrincipal::SshRs]))
        .insert("InsertHealthReportOverride"@, expand(seq![RulePrincipal::NicoAdminCLI, RulePrincipal::Health, RulePrincipal::SiteAgent, RulePrincipal::Ssh, RulePrincipal::SshRs, RulePrincipal::Flow]))
        .insert("RemoveHealthReportOverride"@, expand(seq![RulePrincipal::NicoAdminCLI, RulePrincipal::Health, RulePrincipal::SiteAgent, RulePrincipal::Ssh, RulePrincipal::SshRs, RulePrincipal::Flow]))
        .insert("DpuAgentUpgradeCheck"@, expand(seq![RulePrincipal::Scout]))
        .insert("DpuAgentUpgradePolicyAction"@, expand(seq![RulePrincipal::NicoAdminCLI]))
        .insert("LookupRecord"@, expand(seq![RulePrincipal::Dns]))
        .insert("LookupRecordLegacy"@, expand(seq![RulePrincipal::Dns]))
        .insert("GetAllDomainMetadata"@, expand(seq![RulePrincipal::Dns]))
        .insert("GetAllDomains"@, expand(seq![RulePrincipal::Dns]))
        .insert("InvokeInstancePower"@, expand(seq![RulePrincipal::NicoAdminCLI, RulePrincipal::SiteAgent]))
        .insert("NicoAgentControl"@, expand(seq![RulePrincipal::Machineatron, RulePrincipal::Scout]))
        .insert("DiscoverMachine"@, expand(seq![RulePrincipal::Anonymous]))
        .insert("RenewMachineCertificate"@, expand(seq![RulePrincipal::Agent]))
        .insert("DiscoveryCompleted"@, expand(seq![RulePrincipal::Machineatron, RulePrincipal::Scout]))
        .insert("CleanupMachineCompleted"@, expand(seq![RulePrincipal::Machineatron, RulePrincipal::Scout]))
        .insert("ReportNicoScoutError"@, expand(seq![RulePrincipal::Scout]))
        .insert("ReportScoutFirmwareUpgradeStatus"@, expand(seq![RulePrincipal::Scout]))
        .insert("DiscoverDhcp"@, expand(seq![RulePrincipal::Dhcp, RulePrincipal::Machineatron]))
}

/// Rules, part 3 of the table.
pub open spec fn rules_part_3(m: Map<Seq<char>, Seq<PrincipalView>>) -> Map<Seq<char>, Seq<PrincipalView>> {
    m
        .insert("ExpireDhcpLease"@, expand(seq![RulePrincipal::Dhcp, RulePrincipal::Machineatron]))
        .insert("AssignStaticAddress"@, expand(seq![RulePrincipal::NicoAdminCLI]))
        .insert("RemoveStaticAddress"@, expand(seq![RulePrincipal::NicoAdminCLI]))
        .insert("FindInterfaceAddresses"@, expand(seq![RulePrincipal::NicoAdminCLI]))
        .insert("FindInterfaces"@, expand(seq![RulePrincipal::NicoAdminCLI, RulePrincipal::Agent, RulePrincipal::Flow]))
        .insert("DeleteInterface"@, expand(seq![RulePrincipal::NicoAdminCLI]))
        .insert("FindIpAddress"@, expand(seq![RulePrincipal::NicoAdminCLI]))
        .insert("FindMachineIds"@, expand(seq![RulePrincipal::NicoAdminCLI, RulePrincipal::Machineatron, RulePrincipal::Health, RulePrincipal::SiteAgent, RulePrincipal::Ssh, RulePrincipal::SshRs, RulePrincipal::Flow]))
        .insert("FindMachinesByIds"@, expand(seq![RulePrincipal::NicoAdminCLI, RulePrincipal::Machineatron, RulePrincipal::Health, RulePrincipal::SiteAgent, RulePrincipal::Ssh, RulePrincipal::SshRs, RulePrincipal::Flow]))
        .insert("FindConnectedDevicesByDpuMachineIds"@, expand(seq![RulePrincipal::NicoAdminCLI]))
        .insert("FindMachineIdsByBmcIps"@, expand(seq![RulePrincipal::NicoAdminCLI, RulePrincipal::Flow]))
        .insert("FindMachineHealthHistories"@, expand(seq![RulePrincipal::NicoAdminCLI, RulePrincipal::SiteAgent]))
        .insert("FindMachineStateHistories"@, expand(seq![RulePrincipal::NicoAdminCLI, RulePrincipal::SiteAgent]))
        .insert("IdentifyUuid"@, expand(seq![RulePrincipal::NicoAdminCLI]))
        .insert("IdentifyMac"@, expand(seq![RulePrincipal::NicoAdminCLI]))
        .insert("IdentifySerial"@, expand(seq![RulePrincipal::NicoAdminCLI, RulePrincipal::Machineatron, RulePrincipal::Flow]))
        .insert("GetBMCMetaData"@, expand(seq![RulePrincipal::Health, RulePrincipal::Ssh, RulePrincipal::SshRs]))
        .insert("UpdateBMCMetaData"@, expand(seq![RulePrincipal::Machineatron]))
        .insert("UpdateMachineCredentials"@, expand(seq![]))
        .insert("GetPxeInstructions"@, expand(seq![RulePrincipal::Pxe, RulePrincipal::Machineatron]))
        .insert("GetCloudInitInstructions"@, expand(seq![RulePrincipal::Pxe]))
        .insert("Echo"@, expand(seq![RulePrincipal::Dhcp]))
        .insert("CreateTenant"@, expand(seq![RulePrincipal::SiteAgent]))
        .insert("FindTenant"@, expand(seq![RulePrincipal::SiteAgent, RulePrincipal::NicoAdminCLI]))
        .insert("UpdateTenant"@, expand(seq![RulePrincipal::SiteAgent, RulePrincipal::NicoAdminCLI]))
        .insert("CreateTenantKeyset"@, expand(seq![RulePrincipal::SiteAgent]))
        .insert("FindTenantKeysetIds"@, expand(seq![RulePrincipal::NicoAdminCLI, RulePrincipal::SiteAgent]))
        .insert("FindTenantKeysetsByIds"@, expand(seq![RulePrincipal::NicoAdminCLI, RulePrincipal::SiteAgent]))
        .insert("UpdateTenantKeyset"@, expand(seq![RulePrincipal::SiteAgent]))
        .insert("DeleteTenantKeyset"@, expand(seq![RulePrincipal::SiteAgent]))
        .insert("ValidateTenantPublicKey"@, expand(seq![RulePrincipal::SiteAgent, RulePrincipal::Ssh, RulePrincipal::SshRs]))
        .insert("GetBmcCredentials"@, expand(seq![RulePrincipal::Health, RulePrincipal::BmcProxy]))
        .insert("GetSwitchNvosCredentials"@, expand(seq![RulePrincipal::Health]))
        .insert("GetAllManagedHostNetworkStatus"@, expand(seq![RulePrincipal::NicoAdminCLI]))
        .insert("GetSiteExplorationReport"@, expand(seq![RulePrincipal::NicoAdminCLI, RulePrincipal::Machineatron]))
        .insert("ClearSiteExplorationError"@, expand(seq![RulePrincipal::NicoAdminCLI]))
        .insert("IsBmcInManagedHost"@, expand(seq![RulePrincipal::NicoAdminCLI]))
        .insert("Explore"@, expand(seq![RulePrincipal::NicoAdminCLI, RulePrincipal::Flow]))
        .insert("ReExploreEndpoint"@, expand(seq![RulePrincipal::NicoAdminCLI, RulePrincipal::Flow]))
        .insert("RefreshEndpointReport"@, expand(seq![RulePrincipal::NicoAdminCLI, RulePrincipal::Flow]))
}

/// Rules, part 4 of the table.
pub open spec fn rules_part_4(m: Map<Seq<char>, Seq<PrincipalView>>) -> Map<Seq<char>, Seq<PrincipalView>> {
    m
        .insert("DeleteExploredEndpoint"@, expand(seq![RulePrincipal::NicoAdminCLI]))
        .insert("PauseExploredEndpointRemediation"@, expand(seq![RulePrincipal::NicoAdminCLI]))
        .insert("FindExploredEndpointIds"@, expand(seq![RulePrincipal::NicoAdminCLI, RulePrincipal::Flow]))
        .insert("FindExploredEndpointsByIds"@, expand(seq![RulePrincipal::NicoAdminCLI, RulePrincipal::Flow]))
        .insert("FindExploredManagedHostIds"@, expand(seq![RulePrincipal::NicoAdminCLI, RulePrincipal::Flow]))
        .insert("FindExploredManagedHostsByIds"@, expand(seq![RulePrincipal::NicoAdminCLI, RulePrincipal::Flow]))
        .insert("AdminForceDeleteMachine"@, expand(seq![RulePrincipal::NicoAdminCLI, RulePrincipal::Machineatron]))
        .insert("AdminForceDeleteSwitch"@, expand(seq![RulePrincipal::NicoAdminCLI, RulePrincipal::Machineatron]))
        .insert("AdminForceDeletePowerShelf"@, expand(seq![RulePrincipal::NicoAdminCLI, RulePrincipal::Machineatron]))
        .insert("AdminListResourcePools"@, expand(seq![RulePrincipal::NicoAdminCLI]))
        .insert("AdminGrowResourcePool"@, expand(seq![RulePrincipal::NicoAdminCLI]))
        .insert("SetMaintenance"@, expand(seq![RulePrincipal::NicoAdminCLI, RulePrincipal::SiteAgent, RulePrincipal::Flow]))
        .insert("SetDynamicConfig"@, expand(seq![RulePrincipal::NicoAdminCLI, RulePrincipal::Machineatron]))
        .insert("TriggerDpuReprovisioning"@, expand(seq![RulePrincipal::NicoAdminCLI]))
        .insert("TriggerHostReprovisioning"@, expand(seq![RulePrincipal::NicoAdminCLI, RulePrincipal::Flow]))
        .insert("ListDpuWaitingForReprovisioning"@, expand(seq![RulePrincipal::NicoAdminCLI]))
        .insert("MarkManualFirmwareUpgradeComplete"@, expand(seq![RulePrincipal::NicoAdminCLI]))
        .insert("ListHostsWaitingForReprovisioning"@, expand(seq![RulePrincipal::NicoAdminCLI, RulePrincipal::Flow]))
        .insert("GetDpuInfoList"@, expand(seq![RulePrincipal::Agent]))
        .insert("GetMachineBootOverride"@, expand(seq![RulePrincipal::NicoAdminCLI]))
        .insert("SetMachineBootOverride"@, expand(seq![RulePrincipal::NicoAdminCLI]))
        .insert("ClearMachineBootOverride"@, expand(seq![RulePrincipal::NicoAdminCLI]))
        .insert("GetNetworkTopology"@, expand(seq![RulePrincipal::NicoAdminCLI]))
        .insert("FindNetworkDevicesByDeviceIds"@, expand(seq![RulePrincipal::NicoAdminCLI]))
        .insert("CreateCredential"@, expand(seq![RulePrincipal::NicoAdminCLI]))
        .insert("DeleteCredential"@, expand(seq![RulePrincipal::NicoAdminCLI]))
        .insert("GetRouteServers"@, expand(seq![RulePrincipal::NicoAdminCLI]))
        .insert("AddRouteServers"@, expand(seq![RulePrincipal::NicoAdminCLI]))
        .insert("RemoveRouteServers"@, expand(seq![RulePrincipal::NicoAdminCLI]))
        .insert("ReplaceRouteServers"@, expand(seq![]))
        .insert("UpdateAgentReportedInventory"@, expand(seq![RulePrincipal::Agent]))
        .insert("UpdateInstancePhoneHomeLastContact"@, expand(seq![RulePrincipal::Agent]))
        .insert("SetHostUefiPassword"@, expand(seq![RulePrincipal::NicoAdminCLI]))
        .insert("ClearHostUefiPassword"@, expand(seq![RulePrincipal::NicoAdminCLI]))
        .insert("AddExpectedMachine"@, expand(seq![RulePrincipal::NicoAdminCLI, RulePrincipal::SiteAgent, RulePrincipal::Flow]))
        .insert("DeleteExpectedMachine"@, expand(seq![RulePrincipal::NicoAdminCLI, RulePrincipal::SiteAgent]))
        .insert("UpdateExpectedMachine"@, expand(seq![RulePrincipal::NicoAdminCLI, RulePrincipal::SiteAgent]))
        .insert("CreateExpectedMachines"@, expand(seq![RulePrincipal::NicoAdminCLI, RulePrincipal::SiteAgent]))
        .insert("UpdateExpectedMachines"@, expand(seq![RulePrincipal::NicoAdminCLI, RulePrincipal::SiteAgent]))
        .insert("GetExpectedMachine"@, expand(seq![RulePrincipal::NicoAdminCLI, RulePrincipal::Flow]))
}

/// Rules, part 5 of the table.
pub open spec fn rules_part_5(m: Map<Seq<char>, Seq<PrincipalView>>) -> Map<Seq<char>, Seq<PrincipalView>> {
    m
        .insert("GetAllExpectedMachines"@, expand(seq![RulePrincipal::NicoAdminCLI, RulePrincipal::SiteAgent, RulePrincipal::Flow]))
        .insert("ReplaceAllExpectedMachines"@, expand(seq![RulePrincipal::NicoAdminCLI]))
        .insert("DeleteAllExpectedMachines"@, expand(seq![RulePrincipal::NicoAdminCLI]))
        .insert("GetAllExpectedMachinesLinked"@, expand(seq![RulePrincipal::NicoAdminCLI, RulePrincipal::SiteAgent, RulePrincipal::Flow]))
        .insert("GetAllUnexpectedMachines"@, expand(seq![RulePrincipal::NicoAdminCLI, RulePrincipal::SiteAgent, RulePrincipal::Flow]))
        .insert("AttestQuote"@, expand(seq![RulePrincipal::Anonymous]))
        .insert("SignMachineIdentity"@, expand(seq![RulePrincipal::Agent]))
        .insert("GetTenantIdentityConfiguration"@, expand(seq![RulePrincipal::NicoAdminCLI, RulePrincipal::SiteAgent]))
        .insert("SetTenantIdentityConfiguration"@, expand(seq![RulePrincipal::NicoAdminCLI, RulePrincipal::SiteAgent]))
        .insert("DeleteTenantIdentityConfiguration"@, expand(seq![RulePrincipal::NicoAdminCLI, RulePrincipal::SiteAgent]))
        .insert("GetTokenDelegation"@, expand(seq![RulePrincipal::NicoAdminCLI, RulePrincipal::SiteAgent]))
        .insert("SetTokenDelegation"@, expand(seq![RulePrincipal::NicoAdminCLI, RulePrincipal::SiteAgent]))
        .insert("DeleteTokenDelegation"@, expand(seq![RulePrincipal::NicoAdminCLI, RulePrincipal::SiteAgent]))
        .insert("GetJWKS"@, expand(seq![RulePrincipal::Anonymous, RulePrincipal::Agent, RulePrincipal::NicoAdminCLI, RulePrincipal::SiteAgent]))
        .insert("GetOpenIDConfiguration"@, expand(seq![RulePrincipal::Anonymous, RulePrincipal::Agent, RulePrincipal::NicoAdminCLI, RulePrincipal::SiteAgent]))
        .insert("CreateMeasurementBundle"@, expand(seq![RulePrincipal::NicoAdminCLI, RulePrincipal::SiteAgent]))
        .insert("DeleteMeasurementBundle"@, expand(seq![RulePrincipal::NicoAdminCLI, RulePrincipal::SiteAgent]))
        .insert("RenameMeasurementBundle"@, expand(seq![RulePrincipal::NicoAdminCLI, RulePrincipal::SiteAgent]))
        .insert("UpdateMeasurementBundle"@, expand(seq![RulePrincipal::NicoAdminCLI, RulePrincipal::SiteAgent]))
        .insert("ShowMeasurementBundle"@, expand(seq![RulePrincipal::NicoAdminCLI]))
        .insert("ShowMeasurementBundles"@, expand(seq![RulePrincipal::NicoAdminCLI]))
        .insert("ListMeasurementBundles"@, expand(seq![RulePrincipal::NicoAdminCLI]))
        .insert("ListMeasurementBundleMachines"@, expand(seq![RulePrincipal::NicoAdminCLI]))
        .insert("FindClosestBundleMatch"@, expand(seq![RulePrincipal::NicoAdminCLI]))
        .insert("DeleteMeasurementJournal"@, expand(seq![RulePrincipal::NicoAdminCLI]))
        .insert("ShowMeasurementJournal"@, expand(seq![RulePrincipal::NicoAdminCLI]))
        .insert("ShowMeasurementJournals"@, expand(seq![RulePrincipal::NicoAdminCLI]))
        .insert("ListMeasurementJournal"@, expand(seq![RulePrincipal::NicoAdminCLI]))
        .insert("AttestCandidateMachine"@, expand(seq![RulePrincipal::NicoAdminCLI]))
        .insert("ShowCandidateMachine"@, expand(seq![RulePrincipal::NicoAdminCLI]))
        .insert("ShowCandidateMachines"@, expand(seq![RulePrincipal::NicoAdminCLI]))
        .insert("ListCandidateMachines"@, expand(seq![RulePrincipal::NicoAdminCLI]))
        .insert("CreateMeasurementSystemProfile"@, expand(seq![RulePrincipal::NicoAdminCLI, RulePrincipal::SiteAgent]))
        .insert("DeleteMeasurementSystemProfile"@, expand(seq![RulePrincipal::NicoAdminCLI, RulePrincipal::SiteAgent]))
        .insert("RenameMeasurementSystemProfile"@, expand(seq![RulePrincipal::NicoAdminCLI, RulePrincipal::SiteAgent]))
        .insert("ShowMeasurementSystemProfile"@, expand(seq![RulePrincipal::NicoAdminCLI]))
        .insert("ShowMeasurementSystemProfiles"@, expand(seq![RulePrincipal::NicoAdminCLI]))
        .insert("ListMeasurementSystemProfiles"@, expand(seq![RulePrincipal::NicoAdminCLI]))
        .insert("ListMeasurementSystemProfileBundles"@, expand(seq![RulePrincipal::NicoAdminCLI]))
        .insert("ListMeasurementSystemProfileMachines"@, expand(seq![RulePrincipal::NicoAdminCLI]))
}

/// Rules, part 6 of the table.
pub open spec fn rules_part_6(m: Map<Seq<char>, Seq<PrincipalView>>) -> Map<Seq<char>, Seq<PrincipalView>> {
    m
        .insert("CreateMeasurementReport"@, expand(seq![RulePrincipal::NicoAdminCLI, RulePrincipal::SiteAgent]))
        .insert("DeleteMeasurementReport"@, expand(seq![RulePrincipal::NicoAdminCLI, RulePrincipal::SiteAgent]))
        .insert("PromoteMeasurementReport"@, expand(seq![RulePrincipal::NicoAdminCLI, RulePrincipal::SiteAgent]))
        .insert("RevokeMeasurementReport"@, expand(seq![RulePrincipal::NicoAdminCLI, RulePrincipal::SiteAgent]))
        .insert("ShowMeasurementReportForId"@, expand(seq![RulePrincipal::NicoAdminCLI]))
        .insert("ShowMeasurementReportsForMachine"@, expand(seq![RulePrincipal::NicoAdminCLI]))
        .insert("ShowMeasurementReports"@, expand(seq![RulePrincipal::NicoAdminCLI]))
        .insert("ListMeasurementReport"@, expand(seq![RulePrincipal::NicoAdminCLI]))
        .insert("MatchMeasurementReport"@, expand(seq![RulePrincipal::NicoAdminCLI]))
        .insert("ImportSiteMeasurements"@, expand(seq![RulePrincipal::NicoAdminCLI, RulePrincipal::SiteAgent]))
        .insert("ExportSiteMeasurements"@, expand(seq![RulePrincipal::NicoAdminCLI, RulePrincipal::SiteAgent]))
        .insert("AddMeasurementTrustedMachine"@, expand(seq![RulePrincipal::NicoAdminCLI, RulePrincipal::SiteAgent]))
        .insert("RemoveMeasurementTrustedMachine"@, expand(seq![RulePrincipal::NicoAdminCLI, RulePrincipal::SiteAgent]))
        .insert("AddMeasurementTrustedProfile"@, expand(seq![RulePrincipal::NicoAdminCLI, RulePrincipal::SiteAgent]))
        .insert("RemoveMeasurementTrustedProfile"@, expand(seq![RulePrincipal::NicoAdminCLI, RulePrincipal::SiteAgent]))
        .insert("ListMeasurementTrustedMachines"@, expand(seq![RulePrincipal::NicoAdminCLI, RulePrincipal::SiteAgent]))
        .insert("ListMeasurementTrustedProfiles"@, expand(seq![RulePrincipal::NicoAdminCLI, RulePrincipal::SiteAgent]))
        .insert("ListAttestationSummary"@, expand(seq![RulePrincipal::SiteAgent]))
        .insert("ImportStorageCluster"@, expand(seq![RulePrincipal::NicoAdminCLI, RulePrincipal::SiteAgent]))
        .insert("DeleteStorageCluster"@, expand(seq![RulePrincipal::NicoAdminCLI, RulePrincipal::SiteAgent]))
        .insert("ListStorageCluster"@, expand(seq![RulePrincipal::NicoAdminCLI, RulePrincipal::SiteAgent]))
        .insert("GetStorageCluster"@, expand(seq![RulePrincipal::NicoAdminCLI, RulePrincipal::SiteAgent]))
        .insert("UpdateStorageCluster"@, expand(seq![RulePrincipal::NicoAdminCLI, RulePrincipal::SiteAgent]))
        .insert("CreateStoragePool"@, expand(seq![RulePrincipal::NicoAdminCLI, RulePrincipal::SiteAgent]))
        .insert("DeleteStoragePool"@, expand(seq![RulePrincipal::NicoAdminCLI, RulePrincipal::SiteAgent]))
        .insert("ListStoragePool"@, expand(seq![RulePrincipal::NicoAdminCLI, RulePrincipal::SiteAgent]))
        .insert("GetStoragePool"@, expand(seq![RulePrincipal::NicoAdminCLI, RulePrincipal::SiteAgent]))
        .insert("UpdateStoragePool"@, expand(seq![RulePrincipal::NicoAdminCLI, RulePrincipal::SiteAgent]))
        .insert("CreateStorageVolume"@, expand(seq![RulePrincipal::NicoAdminCLI, RulePrincipal::SiteAgent]))
        .insert("DeleteStorageVolume"@, expand(seq![RulePrincipal::NicoAdminCLI, RulePrincipal::SiteAgent]))
        .insert("ListStorageVolume"@, expand(seq![RulePrincipal::NicoAdminCLI, RulePrincipal::SiteAgent]))
        .insert("GetStorageVolume"@, expand(seq![RulePrincipal::NicoAdminCLI, RulePrincipal::SiteAgent]))
        .insert("UpdateStorageVolume"@, expand(seq![RulePrincipal::NicoAdminCLI, RulePrincipal::SiteAgent]))
        .insert("CreateOsImage"@, expand(seq![RulePrincipal::NicoAdminCLI, RulePrincipal::SiteAgent]))
        .insert("DeleteOsImage"@, expand(seq![RulePrincipal::NicoAdminCLI, RulePrincipal::SiteAgent]))
        .insert("ListOsImage"@, expand(seq![RulePrincipal::NicoAdminCLI, RulePrincipal::SiteAgent]))
        .insert("GetOsImage"@, expand(seq![RulePrincipal::NicoAdminCLI, RulePrincipal::SiteAgent]))
        .insert("UpdateOsImage"@, expand(seq![RulePrincipal::NicoAdminCLI, RulePrincipal::SiteAgent]))
        .insert("CreateOperatingSystem"@, expand(seq![RulePrincipal::NicoAdminCLI, RulePrincipal::SiteAgent]))
        .insert("GetOperatingSystem"@, expand(seq![RulePrincipal::NicoAdminCLI, RulePrincipal::SiteAgent]))
}

/// Rules, part 7 of the table.
pub open spec fn rules_part_7(m: Map<Seq<char>, Seq<PrincipalView>>) -> Map<Seq<char>, Seq<PrincipalView>> {
    m
        .insert("UpdateOperatingSystem"@, expand(seq![RulePrincipal::NicoAdminCLI, RulePrincipal::SiteAgent]))
        .insert("DeleteOperatingSystem"@, expand(seq![RulePrincipal::NicoAdminCLI, RulePrincipal::SiteAgent]))
        .insert("FindOperatingSystemIds"@, expand(seq![RulePrincipal::NicoAdminCLI, RulePrincipal::SiteAgent]))
        .insert("FindOperatingSystemsByIds"@, expand(seq![RulePrincipal::NicoAdminCLI, RulePrincipal::SiteAgent]))
        .insert("GetOperatingSystemCachableIpxeTemplateArtifacts"@, expand(seq![RulePrincipal::NicoAdminCLI]))
        .insert("UpdateOperatingSystemCachableIpxeTemplateArtifacts"@, expand(seq![RulePrincipal::NicoAdminCLI]))
        .insert("GetIpxeTemplate"@, expand(seq![RulePrincipal::NicoAdminCLI, RulePrincipal::SiteAgent]))
        .insert("ListIpxeTemplates"@, expand(seq![RulePrincipal::NicoAdminCLI, RulePrincipal::SiteAgent]))
        .insert("FindRackStateHistories"@, expand(seq![RulePrincipal::NicoAdminCLI, RulePrincipal::Machineatron]))
        .insert("RebootCompleted"@, expand(seq![RulePrincipal::Machineatron, RulePrincipal::Scout]))
        .insert("PersistValidationResult"@, expand(seq![RulePrincipal::Scout, RulePrincipal::SiteAgent]))
        .insert("GetMachineValidationResults"@, expand(seq![RulePrincipal::NicoAdminCLI, RulePrincipal::Scout, RulePrincipal::SiteAgent]))
        .insert("MachineValidationCompleted"@, expand(seq![RulePrincipal::Machineatron, RulePrincipal::Scout]))
        .insert("MachineSetAutoUpdate"@, expand(seq![RulePrincipal::NicoAdminCLI, RulePrincipal::Flow]))
        .insert("GetMachineValidationExternalConfig"@, expand(seq![RulePrincipal::NicoAdminCLI, RulePrincipal::Scout]))
        .insert("AddUpdateMachineValidationExternalConfig"@, expand(seq![RulePrincipal::NicoAdminCLI, RulePrincipal::SiteAgent]))
        .insert("GetMachineValidationRuns"@, expand(seq![RulePrincipal::NicoAdminCLI, RulePrincipal::SiteAgent]))
        .insert("AdminBmcReset"@, expand(seq![RulePrincipal::NicoAdminCLI]))
        .insert("AdminPowerControl"@, expand(seq![RulePrincipal::NicoAdminCLI, RulePrincipal::Flow]))
        .insert("DisableSecureBoot"@, expand(seq![RulePrincipal::NicoAdminCLI]))
        .insert("MachineSetup"@, expand(seq![RulePrincipal::NicoAdminCLI]))
        .insert("SetDpuFirstBootOrder"@, expand(seq![RulePrincipal::NicoAdminCLI]))
        .insert("OnDemandMachineValidation"@, expand(seq![RulePrincipal::NicoAdminCLI]))
        .insert("OnDemandRackMaintenance"@, expand(seq![RulePrincipal::NicoAdminCLI]))
        .insert("TpmAddCaCert"@, expand(seq![RulePrincipal::NicoAdminCLI, RulePrincipal::SiteAgent]))
        .insert("TpmShowCaCerts"@, expand(seq![RulePrincipal::NicoAdminCLI, RulePrincipal::SiteAgent]))
        .insert("TpmShowUnmatchedEkCerts"@, expand(seq![RulePrincipal::NicoAdminCLI, RulePrincipal::SiteAgent]))
        .insert("TpmDeleteCaCert"@, expand(seq![RulePrincipal::NicoAdminCLI, RulePrincipal::SiteAgent]))
        .insert("RedfishListActions"@, expand(seq![RulePrincipal::NicoAdminCLI]))
        .insert("RedfishCreateAction"@, expand(seq![RulePrincipal::NicoAdminCLI]))
        .insert("RedfishApproveAction"@, expand(seq![RulePrincipal::NicoAdminCLI]))
        .insert("RedfishApplyAction"@, expand(seq![RulePrincipal::NicoAdminCLI]))
        .insert("RedfishCancelAction"@, expand(seq![RulePrincipal::NicoAdminCLI]))
        .insert("FindTenantOrganizationIds"@, expand(seq![RulePrincipal::SiteAgent, RulePrincipal::NicoAdminCLI]))
        .insert("FindTenantsByOrganizationIds"@, expand(seq![RulePrincipal::SiteAgent, RulePrincipal::NicoAdminCLI]))
        .insert("FindMacAddressByBmcIp"@, expand(seq![RulePrincipal::SiteAgent, RulePrincipal::BmcProxy]))
        .insert("FindBmcIps"@, expand(seq![RulePrincipal::NicoAdminCLI, RulePrincipal::BmcProxy]))
        .insert("BmcCredentialStatus"@, expand(seq![RulePrincipal::NicoAdminCLI, RulePrincipal::SiteAgent]))
        .insert("GetMachineValidationExternalConfigs"@, expand(seq![RulePrincipal::NicoAdminCLI, RulePrincipal::Scout, RulePrincipal::SiteAgent]))
        .insert("RemoveMachineValidationExternalConfig"@, expand(seq![RulePrincipal::NicoAdminCLI, RulePrincipal::Scout, RulePrincipal::SiteAgent]))
}

/// Rules, part 8 of the table.
pub open spec fn rules_part_8(m: Map<Seq<char>, Seq<PrincipalView>>) -> Map<Seq<char>, Seq<PrincipalView>> {
    m
        .insert("GetMachineValidationTests"@, expand(seq![RulePrincipal::NicoAdminCLI, RulePrincipal::SiteAgent, RulePrincipal::Agent, RulePrincipal::Scout]))
        .insert("AddMachineValidationTest"@, expand(seq![RulePrincipal::NicoAdminCLI, RulePrincipal::SiteAgent]))
        .insert("UpdateMachineValidationTest"@, expand(seq![RulePrincipal::NicoAdminCLI, RulePrincipal::SiteAgent]))
        .insert("MachineValidationTestVerfied"@, expand(seq![RulePrincipal::NicoAdminCLI, RulePrincipal::Scout, RulePrincipal::SiteAgent]))
        .insert("MachineValidationTestNextVersion"@, expand(seq![RulePrincipal::NicoAdminCLI, RulePrincipal::SiteAgent]))
        .insert("MachineValidationTestEnableDisableTest"@, expand(seq![RulePrincipal::NicoAdminCLI, RulePrincipal::SiteAgent, RulePrincipal::Scout]))
        .insert("UpdateMachineValidationRun"@, expand(seq![RulePrincipal::Scout, RulePrincipal::SiteAgent]))
        .insert("FindInstanceTypeIds"@, expand(seq![RulePrincipal::SiteAgent, RulePrincipal::NicoAdminCLI]))
        .insert("FindInstanceTypesByIds"@, expand(seq![RulePrincipal::NicoAdminCLI, RulePrincipal::SiteAgent]))
        .insert("CreateInstanceType"@, expand(seq![RulePrincipal::NicoAdminCLI, RulePrincipal::SiteAgent]))
        .insert("UpdateInstanceType"@, expand(seq![RulePrincipal::NicoAdminCLI, RulePrincipal::SiteAgent]))
        .insert("DeleteInstanceType"@, expand(seq![RulePrincipal::NicoAdminCLI, RulePrincipal::SiteAgent]))
        .insert("AssociateMachinesWithInstanceType"@, expand(seq![RulePrincipal::NicoAdminCLI, RulePrincipal::SiteAgent]))
        .insert("RemoveMachineInstanceTypeAssociation"@, expand(seq![RulePrincipal::NicoAdminCLI, RulePrincipal::SiteAgent]))
        .insert("RedfishBrowse"@, expand(seq![RulePrincipal::NicoAdminCLI]))
        .insert("UfmBrowse"@, expand(seq![RulePrincipal::NicoAdminCLI]))
        .insert("NmxcBrowse"@, expand(seq![RulePrincipal::NicoAdminCLI]))
        .insert("UpdateMachineMetadata"@, expand(seq![RulePrincipal::NicoAdminCLI, RulePrincipal::SiteAgent]))
        .insert("UpdateRackMetadata"@, expand(seq![RulePrincipal::NicoAdminCLI, RulePrincipal::SiteAgent]))
        .insert("UpdateSwitchMetadata"@, expand(seq![RulePrincipal::NicoAdminCLI, RulePrincipal::SiteAgent]))
        .insert("UpdatePowerShelfMetadata"@, expand(seq![RulePrincipal::NicoAdminCLI, RulePrincipal::SiteAgent]))
        .insert("CreateNetworkSecurityGroup"@, expand(seq![RulePrincipal::NicoAdminCLI, RulePrincipal::SiteAgent]))
        .insert("FindNetworkSecurityGroupIds"@, expand(seq![RulePrincipal::NicoAdminCLI, RulePrincipal::SiteAgent]))
        .insert("FindNetworkSecurityGroupsByIds"@, expand(seq![RulePrincipal::NicoAdminCLI, RulePrincipal::SiteAgent]))
        .insert("UpdateNetworkSecurityGroup"@, expand(seq![RulePrincipal::NicoAdminCLI, RulePrincipal::SiteAgent]))
        .insert("DeleteNetworkSecurityGroup"@, expand(seq![RulePrincipal::NicoAdminCLI, RulePrincipal::SiteAgent]))
        .insert("GetNetworkSecurityGroupPropagationStatus"@, expand(seq![RulePrincipal::NicoAdminCLI, RulePrincipal::SiteAgent]))
        .insert("GetNetworkSecurityGroupAttachments"@, expand(seq![RulePrincipal::NicoAdminCLI, RulePrincipal::SiteAgent]))
        .insert("GetDesiredFirmwareVersions"@, expand(seq![RulePrincipal::NicoAdminCLI, RulePrincipal::Machineatron, RulePrincipal::Flow]))
        .insert("CreateSku"@, expand(seq![RulePrincipal::NicoAdminCLI]))
        .insert("GenerateSkuFromMachine"@, expand(seq![RulePrincipal::NicoAdminCLI]))
        .insert("AssignSkuToMachine"@, expand(seq![RulePrincipal::NicoAdminCLI]))
        .insert("VerifySkuForMachine"@, expand(seq![RulePrincipal::NicoAdminCLI]))
        .insert("RemoveSkuAssociation"@, expand(seq![RulePrincipal::NicoAdminCLI]))
        .insert("GetAllSkuIds"@, expand(seq![RulePrincipal::NicoAdminCLI, RulePrincipal::SiteAgent, RulePrincipal::Flow]))
        .insert("FindSkusByIds"@, expand(seq![RulePrincipal::NicoAdminCLI, RulePrincipal::SiteAgent, RulePrincipal::Flow]))
        .insert("DeleteSku"@, expand(seq![RulePrincipal::NicoAdminCLI]))
        .insert("UpdateSkuMetadata"@, expand(seq![RulePrincipal::NicoAdminCLI]))
        .insert("UpdateMachineHardwareInfo"@, expand(seq![RulePrincipal::NicoAdminCLI]))
        .insert("ReplaceSku"@, expand(seq![RulePrincipal::NicoAdminCLI]))
}

/// Rules, part 9 of the table.
pub open spec fn rules_part_9(m: Map<Seq<char>, Seq<PrincipalView>>) -> Map<Seq<char>, Seq<PrincipalView>> {
    m
        .insert("GetManagedHostQuarantineState"@, expand(seq![RulePrincipal::NicoAdminCLI, RulePrincipal::SiteAgent]))
        .insert("SetManagedHostQuarantineState"@, expand(seq![RulePrincipal::NicoAdminCLI, RulePrincipal::SiteAgent]))
        .insert("ClearManagedHostQuarantineState"@, expand(seq![RulePrincipal::NicoAdminCLI, RulePrincipal::SiteAgent]))
        .insert("CreateVpcPeering"@, expand(seq![RulePrincipal::NicoAdminCLI, RulePrincipal::SiteAgent]))
        .insert("FindVpcPeeringIds"@, expand(seq![RulePrincipal::NicoAdminCLI, RulePrincipal::SiteAgent]))
        .insert("FindVpcPeeringsByIds"@, expand(seq![RulePrincipal::NicoAdminCLI, RulePrincipal::SiteAgent]))
        .insert("DeleteVpcPeering"@, expand(seq![RulePrincipal::NicoAdminCLI, RulePrincipal::SiteAgent]))
        .insert("ResetHostReprovisioning"@, expand(seq![RulePrincipal::NicoAdminCLI, RulePrincipal::Flow]))
        .insert("CopyBfbToDpuRshim"@, expand(seq![RulePrincipal::NicoAdminCLI]))
        .insert("GetPowerOptions"@, expand(seq![RulePrincipal::NicoAdminCLI, RulePrincipal::SiteAgent, RulePrincipal::Flow]))
        .insert("UpdatePowerOption"@, expand(seq![RulePrincipal::NicoAdminCLI, RulePrincipal::SiteAgent, RulePrincipal::Flow]))
        .insert("CreateBmcUser"@, expand(seq![RulePrincipal::NicoAdminCLI]))
        .insert("DeleteBmcUser"@, expand(seq![RulePrincipal::NicoAdminCLI]))
        .insert("SetFirmwareUpdateTimeWindow"@, expand(seq![RulePrincipal::NicoAdminCLI, RulePrincipal::Flow]))
        .insert("ListHostFirmware"@, expand(seq![RulePrincipal::NicoAdminCLI, RulePrincipal::Flow]))
        .insert("EnableInfiniteBoot"@, expand(seq![RulePrincipal::NicoAdminCLI]))
        .insert("IsInfiniteBootEnabled"@, expand(seq![RulePrincipal::NicoAdminCLI]))
        .insert("Lockdown"@, expand(seq![RulePrincipal::NicoAdminCLI]))
        .insert("LockdownStatus"@, expand(seq![RulePrincipal::NicoAdminCLI]))
        .insert("PublishMlxDeviceReport"@, expand(seq![RulePrincipal::Agent, RulePrincipal::Scout, RulePrincipal::Machineatron, RulePrincipal::NicoAdminCLI]))
        .insert("PublishMlxObservationReport"@, expand(seq![RulePrincipal::Agent, RulePrincipal::Scout, RulePrincipal::Machineatron, RulePrincipal::NicoAdminCLI]))
        .insert("TrimTable"@, expand(seq![RulePrincipal::NicoAdminCLI, RulePrincipal::MaintenanceJobs]))
        .insert("ListNvlinkNmxcEndpoints"@, expand(seq![RulePrincipal::NicoAdminCLI]))
        .insert("CreateNvlinkNmxcEndpoint"@, expand(seq![RulePrincipal::NicoAdminCLI]))
        .insert("UpdateNvlinkNmxcEndpoint"@, expand(seq![RulePrincipal::NicoAdminCLI]))
        .insert("DeleteNvlinkNmxcEndpoint"@, expand(seq![RulePrincipal::NicoAdminCLI]))
        .insert("CreateRemediation"@, expand(seq![RulePrincipal::NicoAdminCLI]))
        .insert("ApproveRemediation"@, expand(seq![RulePrincipal::NicoAdminCLI]))
        .insert("RevokeRemediation"@, expand(seq![RulePrincipal::NicoAdminCLI]))
        .insert("EnableRemediation"@, expand(seq![RulePrincipal::NicoAdminCLI]))
        .insert("DisableRemediation"@, expand(seq![RulePrincipal::NicoAdminCLI]))
        .insert("FindRemediationIds"@, expand(seq![RulePrincipal::NicoAdminCLI]))
        .insert("FindRemediationsByIds"@, expand(seq![RulePrincipal::NicoAdminCLI]))
        .insert("FindAppliedRemediations"@, expand(seq![RulePrincipal::NicoAdminCLI]))
        .insert("FindAppliedRemediationIds"@, expand(seq![RulePrincipal::NicoAdminCLI]))
        .insert("GetNextRemediationForMachine"@, expand(seq![RulePrincipal::Agent]))
        .insert("RemediationApplied"@, expand(seq![RulePrincipal::Agent]))
        .insert("DetermineMachineIngestionState"@, expand(seq![RulePrincipal::NicoAdminCLI, RulePrincipal::Flow]))
        .insert("AllowIngestionAndPowerOn"@, expand(seq![RulePrincipal::NicoAdminCLI, RulePrincipal::Flow]))
        .insert("SetPrimaryDpu"@, expand(seq![RulePrincipal::NicoAdminCLI]))
}

/// Rules, part 10 of the table.
pub open spec fn rules_part_10(m: Map<Seq<char>, Seq<PrincipalView>>) -> Map<Seq<char>, Seq<PrincipalView>> {
    m
        .insert("CreateDpuExtensionService"@, expand(seq![RulePrincipal::NicoAdminCLI, RulePrincipal::SiteAgent]))
        .insert("UpdateDpuExtensionService"@, expand(seq![RulePrincipal::NicoAdminCLI, RulePrincipal::SiteAgent]))
        .insert("DeleteDpuExtensionService"@, expand(seq![RulePrincipal::NicoAdminCLI, RulePrincipal::SiteAgent]))
        .insert("FindDpuExtensionServiceIds"@, expand(seq![RulePrincipal::NicoAdminCLI, RulePrincipal::SiteAgent]))
        .insert("FindDpuExtensionServicesByIds"@, expand(seq![RulePrincipal::NicoAdminCLI, RulePrincipal::SiteAgent]))
        .insert("GetDpuExtensionServiceVersionsInfo"@, expand(seq![RulePrincipal::NicoAdminCLI, RulePrincipal::SiteAgent]))
        .insert("FindInstancesByDpuExtensionService"@, expand(seq![RulePrincipal::NicoAdminCLI, RulePrincipal::SiteAgent]))
        .insert("TriggerMachineAttestation"@, expand(seq![RulePrincipal::NicoAdminCLI, RulePrincipal::SiteAgent]))
        .insert("CancelMachineAttestation"@, expand(seq![RulePrincipal::NicoAdminCLI, RulePrincipal::SiteAgent]))
        .insert("ListAttestationsForMachineId"@, expand(seq![RulePrincipal::NicoAdminCLI, RulePrincipal::SiteAgent]))
        .insert("GetMachineAttestationStatus"@, expand(seq![RulePrincipal::NicoAdminCLI, RulePrincipal::SiteAgent]))
        .insert("FindMachineIdsUnderAttestation"@, expand(seq![RulePrincipal::NicoAdminCLI, RulePrincipal::SiteAgent]))
        .insert("FindPowerShelves"@, expand(seq![RulePrincipal::NicoAdminCLI, RulePrincipal::Machineatron, RulePrincipal::Flow]))
        .insert("FindPowerShelfIds"@, expand(seq![RulePrincipal::NicoAdminCLI, RulePrincipal::Machineatron, RulePrincipal::Flow]))
        .insert("FindPowerShelvesByIds"@, expand(seq![RulePrincipal::NicoAdminCLI, RulePrincipal::Machineatron, RulePrincipal::Flow]))
        .insert("CreatePowerShelf"@, expand(seq![RulePrincipal::NicoAdminCLI, RulePrincipal::Machineatron]))
        .insert("DeletePowerShelf"@, expand(seq![RulePrincipal::NicoAdminCLI, RulePrincipal::Machineatron]))
        .insert("AddExpectedPowerShelf"@, expand(seq![RulePrincipal::NicoAdminCLI, RulePrincipal::Machineatron, RulePrincipal::SiteAgent, RulePrincipal::Flow]))
        .insert("DeleteExpectedPowerShelf"@, expand(seq![RulePrincipal::NicoAdminCLI, RulePrincipal::Machineatron, RulePrincipal::SiteAgent]))
        .insert("UpdateExpectedPowerShelf"@, expand(seq![RulePrincipal::NicoAdminCLI, RulePrincipal::Machineatron, RulePrincipal::SiteAgent]))
        .insert("GetExpectedPowerShelf"@, expand(seq![RulePrincipal::NicoAdminCLI, RulePrincipal::Machineatron, RulePrincipal::Flow]))
        .insert("GetAllExpectedPowerShelves"@, expand(seq![RulePrincipal::NicoAdminCLI, RulePrincipal::Machineatron, RulePrincipal::SiteAgent, RulePrincipal::Flow]))
        .insert("ReplaceAllExpectedPowerShelves"@, expand(seq![RulePrincipal::NicoAdminCLI, RulePrincipal::Machineatron]))
        .insert("DeleteAllExpectedPowerShelves"@, expand(seq![RulePrincipal::NicoAdminCLI, RulePrincipal::Machineatron]))
        .insert("GetAllExpectedPowerShelvesLinked"@, expand(seq![RulePrincipal::NicoAdminCLI, RulePrincipal::Machineatron, RulePrincipal::SiteAgent, RulePrincipal::Flow]))
        .insert("FindPowerShelfStateHistories"@, expand(seq![RulePrincipal::NicoAdminCLI, RulePrincipal::Machineatron, RulePrincipal::Flow]))
        .insert("SetPowerShelfMaintenance"@, expand(seq![RulePrincipal::NicoAdminCLI, RulePrincipal::Machineatron, RulePrincipal::Flow]))
        .insert("FindSwitches"@, expand(seq![RulePrincipal::NicoAdminCLI, RulePrincipal::Machineatron, RulePrincipal::Flow, RulePrincipal::Health]))
        .insert("FindSwitchIds"@, expand(seq![RulePrincipal::NicoAdminCLI, RulePrincipal::Machineatron, RulePrincipal::Flow, RulePrincipal::Health]))
        .insert("FindSwitchesByIds"@, expand(seq![RulePrincipal::NicoAdminCLI, RulePrincipal::Machineatron, RulePrincipal::Flow, RulePrincipal::Health]))
        .insert("CreateSwitch"@, expand(seq![RulePrincipal::NicoAdminCLI, RulePrincipal::Machineatron]))
        .insert("DeleteSwitch"@, expand(seq![RulePrincipal::NicoAdminCLI, RulePrincipal::Machineatron]))
        .insert("AddExpectedSwitch"@, expand(seq![RulePrincipal::NicoAdminCLI, RulePrincipal::Machineatron, RulePrincipal::SiteAgent, RulePrincipal::Flow]))
        .insert("DeleteExpectedSwitch"@, expand(seq![RulePrincipal::NicoAdminCLI, RulePrincipal::Machineatron, RulePrincipal::SiteAgent]))
        .insert("UpdateExpectedSwitch"@, expand(seq![RulePrincipal::NicoAdminCLI, RulePrincipal::Machineatron, RulePrincipal::SiteAgent]))
        .insert("GetExpectedSwitch"@, expand(seq![RulePrincipal::NicoAdminCLI, RulePrincipal::Machineatron, RulePrincipal::Flow]))
        .insert("GetAllExpectedSwitches"@, expand(seq![RulePrincipal::NicoAdminCLI, RulePrincipal::Machineatron, RulePrincipal::SiteAgent, RulePrincipal::Flow]))
        .insert("ReplaceAllExpectedSwitches"@, expand(seq![RulePrincipal::NicoAdminCLI, RulePrincipal::Machineatron]))
        .insert("DeleteAllExpectedSwitches"@, expand(seq![RulePrincipal::NicoAdminCLI, RulePrincipal::Machineatron]))
        .insert("GetAllExpectedSwitchesLinked"@, expand(seq![RulePrincipal::NicoAdminCLI, RulePrincipal::Machineatron, RulePrincipal::SiteAgent, RulePrincipal::Flow]))
}

/// Rules, part 11 of the table.
pub open spec fn rules_part_11(m: Map<Seq<char>, Seq<PrincipalView>>) -> Map<Seq<char>, Seq<PrincipalView>> {
    m
        .insert("AddExpectedRack"@, expand(seq![RulePrincipal::NicoAdminCLI, RulePrincipal::Machineatron, RulePrincipal::SiteAgent]))
        .insert("DeleteExpectedRack"@, expand(seq![RulePrincipal::NicoAdminCLI, RulePrincipal::Machineatron, RulePrincipal::SiteAgent]))
        .insert("UpdateExpectedRack"@, expand(seq![RulePrincipal::NicoAdminCLI, RulePrincipal::Machineatron, RulePrincipal::SiteAgent]))
        .insert("GetExpectedRack"@, expand(seq![RulePrincipal::NicoAdminCLI, RulePrincipal::Machineatron, RulePrincipal::SiteAgent, RulePrincipal::Flow]))
        .insert("GetAllExpectedRacks"@, expand(seq![RulePrincipal::NicoAdminCLI, RulePrincipal::Machineatron, RulePrincipal::SiteAgent, RulePrincipal::Flow]))
        .insert("ReplaceAllExpectedRacks"@, expand(seq![RulePrincipal::NicoAdminCLI, RulePrincipal::Machineatron, RulePrincipal::SiteAgent]))
        .insert("DeleteAllExpectedRacks"@, expand(seq![RulePrincipal::NicoAdminCLI, RulePrincipal::Machineatron, RulePrincipal::SiteAgent]))
        .insert("FindSwitchStateHistories"@, expand(seq![RulePrincipal::NicoAdminCLI, RulePrincipal::Machineatron, RulePrincipal::Flow]))
        .insert("FindRackIds"@, expand(seq![RulePrincipal::NicoAdminCLI, RulePrincipal::SiteAgent, RulePrincipal::Flow]))
        .insert("FindRacksByIds"@, expand(seq![RulePrincipal::NicoAdminCLI, RulePrincipal::SiteAgent, RulePrincipal::Flow]))
        .insert("GetRack"@, expand(seq![RulePrincipal::NicoAdminCLI, RulePrincipal::Flow]))
        .insert("DeleteRack"@, expand(seq![RulePrincipal::NicoAdminCLI, RulePrincipal::Flow]))
        .insert("GetRackProfile"@, expand(seq![RulePrincipal::NicoAdminCLI]))
        .insert("RackManagerCall"@, expand(seq![RulePrincipal::NicoAdminCLI]))
        .insert("ScoutStream"@, expand(seq![RulePrincipal::Scout]))
        .insert("ScoutStreamShowConnections"@, expand(seq![RulePrincipal::NicoAdminCLI]))
        .insert("ScoutStreamDisconnect"@, expand(seq![RulePrincipal::NicoAdminCLI]))
        .insert("ScoutStreamPing"@, expand(seq![RulePrincipal::NicoAdminCLI]))
        .insert("MlxAdminProfileSync"@, expand(seq![RulePrincipal::NicoAdminCLI]))
        .insert("MlxAdminProfileShow"@, expand(seq![RulePrincipal::NicoAdminCLI]))
        .insert("MlxAdminProfileCompare"@, expand(seq![RulePrincipal::NicoAdminCLI]))
        .insert("MlxAdminProfileList"@, expand(seq![RulePrincipal::NicoAdminCLI]))
        .insert("MlxAdminLockdownLock"@, expand(seq![RulePrincipal::NicoAdminCLI]))
        .insert("MlxAdminLockdownUnlock"@, expand(seq![RulePrincipal::NicoAdminCLI]))
        .insert("MlxAdminLockdownStatus"@, expand(seq![RulePrincipal::NicoAdminCLI]))
        .insert("MlxAdminShowDevice"@, expand(seq![RulePrincipal::NicoAdminCLI]))
        .insert("MlxAdminShowMachine"@, expand(seq![RulePrincipal::NicoAdminCLI]))
        .insert("MlxAdminRegistryList"@, expand(seq![RulePrincipal::NicoAdminCLI]))
        .insert("MlxAdminRegistryShow"@, expand(seq![RulePrincipal::NicoAdminCLI]))
        .insert("MlxAdminConfigQuery"@, expand(seq![RulePrincipal::NicoAdminCLI]))
        .insert("MlxAdminConfigSet"@, expand(seq![RulePrincipal::NicoAdminCLI]))
        .insert("MlxAdminConfigSync"@, expand(seq![RulePrincipal::NicoAdminCLI]))
        .insert("MlxAdminConfigCompare"@, expand(seq![RulePrincipal::NicoAdminCLI]))
        .insert("FindNVLinkPartitionIds"@, expand(seq![RulePrincipal::NicoAdminCLI, RulePrincipal::SiteAgent]))
        .insert("FindNVLinkPartitionsByIds"@, expand(seq![RulePrincipal::NicoAdminCLI, RulePrincipal::SiteAgent]))
        .insert("NVLinkPartitionsForTenant"@, expand(seq![RulePrincipal::NicoAdminCLI, RulePrincipal::SiteAgent]))
        .insert("FindNVLinkLogicalPartitionIds"@, expand(seq![RulePrincipal::NicoAdminCLI, RulePrincipal::SiteAgent]))
        .insert("FindNVLinkLogicalPartitionsByIds"@, expand(seq![RulePrincipal::NicoAdminCLI, RulePrincipal::SiteAgent]))
        .insert("CreateNVLinkLogicalPartition"@, expand(seq![RulePrincipal::NicoAdminCLI, RulePrincipal::SiteAgent]))
        .insert("UpdateNVLinkLogicalPartition"@, expand(seq![RulePrincipal::NicoAdminCLI, RulePrincipal::SiteAgent]))
}

/// Rules, part 12 of the table.
pub open spec fn rules_part_12(m: Map<Seq<char>, Seq<PrincipalView>>) -> Map<Seq<char>, Seq<PrincipalView>> {
    m
        .insert("DeleteNVLinkLogicalPartition"@, expand(seq![RulePrincipal::NicoAdminCLI, RulePrincipal::SiteAgent]))
        .insert("NVLinkLogicalPartitionsForTenant"@, expand(seq![RulePrincipal::NicoAdminCLI, RulePrincipal::SiteAgent]))
        .insert("GetMachinePositionInfo"@, expand(seq![RulePrincipal::NicoAdminCLI, RulePrincipal::SiteAgent, RulePrincipal::Flow]))
        .insert("ModifyDPFState"@, expand(seq![RulePrincipal::NicoAdminCLI]))
        .insert("GetDPFState"@, expand(seq![RulePrincipal::NicoAdminCLI]))
        .insert("UpdateMachineNvLinkInfo"@, expand(seq![RulePrincipal::NicoAdminCLI]))
        .insert("CreateComputeAllocation"@, expand(seq![RulePrincipal::NicoAdminCLI, RulePrincipal::SiteAgent]))
        .insert("FindComputeAllocationIds"@, expand(seq![RulePrincipal::NicoAdminCLI, RulePrincipal::SiteAgent]))
        .insert("FindComputeAllocationsByIds"@, expand(seq![RulePrincipal::NicoAdminCLI, RulePrincipal::SiteAgent]))
        .insert("UpdateComputeAllocation"@, expand(seq![RulePrincipal::NicoAdminCLI, RulePrincipal::SiteAgent]))
        .insert("DeleteComputeAllocation"@, expand(seq![RulePrincipal::NicoAdminCLI, RulePrincipal::SiteAgent]))
        .insert("ComponentPowerControl"@, expand(seq![RulePrincipal::NicoAdminCLI, RulePrincipal::Flow]))
        .insert("GetComponentInventory"@, expand(seq![RulePrincipal::NicoAdminCLI, RulePrincipal::Flow]))
        .insert("UpdateComponentFirmware"@, expand(seq![RulePrincipal::NicoAdminCLI, RulePrincipal::Flow]))
        .insert("GetComponentFirmwareStatus"@, expand(seq![RulePrincipal::NicoAdminCLI, RulePrincipal::Flow]))
        .insert("ListComponentFirmwareVersions"@, expand(seq![RulePrincipal::NicoAdminCLI, RulePrincipal::Flow]))
        .insert("GetDPFHostSnapshot"@, expand(seq![RulePrincipal::NicoAdminCLI]))
        .insert("GetDPFServiceVersions"@, expand(seq![RulePrincipal::NicoAdminCLI]))
}

/// The rule table: for each request name, the principals allowed to make it.
pub open spec fn rbac_table() -> Map<Seq<char>, Seq<PrincipalView>> {
    let m = Map::<Seq<char>, Seq<PrincipalView>>::empty();
    rules_part_12(rules_part_11(rules_part_10(rules_part_9(rules_part_8(rules_part_7(rules_part_6(rules_part_5(rules_part_4(rules_part_3(rules_part_2(rules_part_1(m))))))))))))
}


// ---------------------------------------------------------------------------
// Laws of the rule table
// ---------------------------------------------------------------------------

/// Whether a caller kind is a service known under a `nico-*` and a `carbide-*` identifier.
pub open spec fn is_renamed(p: RulePrincipal) -> bool {
        ||| p == RulePrincipal::Dns
        ||| p == RulePrincipal::Dhcp
        ||| p == RulePrincipal::Ssh
        ||| p == RulePrincipal::SshRs
        ||| p == RulePrincipal::Pxe
        ||| p == RulePrincipal::BmcProxy
        ||| p == RulePrincipal::Health
        ||| p == RulePrincipal::Flow
        ||| p == RulePrincipal::MaintenanceJobs
        ||| p == RulePrincipal::DsxExchangeConsumer
}

/// The current identifier of a renamed service.
pub open spec fn nico_name(p: RulePrincipal) -> Seq<char> {
    match p {
        RulePrincipal::Dns => "nico-dns"@,
        RulePrincipal::Dhcp => "nico-dhcp"@,
        RulePrincipal::Ssh => "nico-ssh-console"@,
        RulePrincipal::SshRs => "nico-ssh-console-rs"@,
        RulePrincipal::Pxe => "nico-pxe"@,
        RulePrincipal::BmcProxy => "nico-bmc-proxy"@,
        RulePrincipal::Health => "nico-hardware-health"@,
        RulePrincipal::Flow => "nico-flow"@,
        RulePrincipal::MaintenanceJobs => "nico-maintenance-jobs"@,
        RulePrincipal::DsxExchangeConsumer => "nico-dsx-exchange-consumer"@,
        _ => Seq::empty(),
    }
}

/// The former identifier of a renamed service.
pub open spec fn carbide_name(p: RulePrincipal) -> Seq<char> {
    match p {
        RulePrincipal::Dns => "carbide-dns"@,
        RulePrincipal::Dhcp => "carbide-dhcp"@,
        RulePrincipal::Ssh => "carbide-ssh-console"@,
        RulePrincipal::SshRs => "carbide-ssh-console-rs"@,
        RulePrincipal::Pxe => "carbide-pxe"@,
        RulePrincipal::BmcProxy => "carbide-bmc-proxy"@,
        RulePrincipal::Health => "carbide-hardware-health"@,
        RulePrincipal::Flow => "carbide-flow"@,
        RulePrincipal::MaintenanceJobs => "carbide-maintenance-jobs"@,
        RulePrincipal::DsxExchangeConsumer => "carbide-dsx-exchange-consumer"@,
        _ => Seq::empty(),
    }
}

/// The service identifiers that the rule table can name.
pub open spec fn is_service_name(n: Seq<char>) -> bool {
    n == "machine-a-tron"@ || n == "elektra-site-agent"@ || n == "nico-dns"@ || n == "carbide-dns"@ || n == "nico-dhcp"@ || n == "carbide-dhcp"@ || n == "nico-ssh-console"@ || n == "carbide-ssh-console"@ || n == "nico-ssh-console-rs"@ || n == "carbide-ssh-console-rs"@ || n == "nico-pxe"@ || n == "carbide-pxe"@ || n == "nico-bmc-proxy"@ || n == "carbide-bmc-proxy"@ || n == "nico-hardware-health"@ || n == "carbide-hardware-health"@ || n == "nico-flow"@ || n == "carbide-flow"@ || n == "nico-maintenance-jobs"@ || n == "carbide-maintenance-jobs"@ || n == "nico-dsx-exchange-consumer"@ || n == "carbide-dsx-exchange-consumer"@
}

proof fn lemma_service_names_distinct()
    ensures
        forall|p: RulePrincipal, q: RulePrincipal| is_renamed(p) && is_renamed(q) && p != q ==> {
            &&& nico_name(p) != nico_name(q)
            &&& nico_name(p) != carbide_name(q)
            &&& carbide_name(p) != carbide_name(q)
            &&& carbide_name(p) != nico_name(q)
        },
        forall|p: RulePrincipal| is_renamed(p) ==> {
            &&& nico_name(p) != carbide_name(p)
            &&& nico_name(p) != "machine-a-tron"@
            &&& nico_name(p) != "elektra-site-agent"@
            &&& carbide_name(p) != "machine-a-tron"@
            &&& carbide_name(p) != "elektra-site-agent"@
        },
{
    reveal_strlit("machine-a-tron");
    reveal_strlit("elektra-site-agent");
    reveal_strlit("nico-dns");
    reveal_strlit("carbide-dns");
    reveal_strlit("nico-dhcp");
    reveal_strlit("carbide-dhcp");
    reveal_strlit("nico-ssh-console");
    reveal_strlit("carbide-ssh-console");
    reveal_strlit("nico-ssh-console-rs");
    reveal_strlit("carbide-ssh-console-rs");
    reveal_strlit("nico-pxe");
    reveal_strlit("carbide-pxe");
    reveal_strlit("nico-bmc-proxy");
    reveal_strlit("carbide-bmc-proxy");
    reveal_strlit("nico-hardware-health");
    reveal_strlit("carbide-hardware-health");
    reveal_strlit("nico-flow");
    reveal_strlit("carbide-flow");
    reveal_strlit("nico-maintenance-jobs");
    reveal_strlit("carbide-maintenance-jobs");
    reveal_strlit("nico-dsx-exchange-consumer");
    reveal_strlit("carbide-dsx-exchange-consumer");
    assert("machine-a-tron"@.len() != "elektra-site-agent"@.len());
    assert("machine-a-tron"@.len() != "nico-dns"@.len());
    assert("machine-a-tron"@.len() != "carbide-dns"@.len());
    assert("machine-a-tron"@.len() != "nico-dhcp"@.len());
    assert("machine-a-tron"@.len() != "carbide-dhcp"@.len());
    assert("machine-a-tron"@.len() != "nico-ssh-console"@.len());
    assert("machine-a-tron"@.len() != "carbide-ssh-console"@.len());
    assert("machine-a-tron"@.len() != "nico-ssh-console-rs"@.len());
    assert("machine-a-tron"@.len() != "carbide-ssh-console-rs"@.len());
    assert("machine-a-tron"@.len() != "nico-pxe"@.len());
    assert("machine-a-tron"@.len() != "carbide-pxe"@.len());
    assert("machine-a-tron"@[0] != "nico-bmc-proxy"@[0]);
    assert("machine-a-tron"@.len() != "carbide-bmc-proxy"@.len());
    assert("machine-a-tron"@.len() != "nico-hardware-health"@.len());
    assert("machine-a-tron"@.len() != "carbide-hardware-health"@.len());
    assert("machine-a-tron"@.len() != "nico-flow"@.len());
    assert("machine-a-tron"@.len() != "carbide-flow"@.len());
    assert("machine-a-tron"@.len() != "nico-maintenance-jobs"@.len());
    assert("machine-a-tron"@.len() != "carbide-maintenance-jobs"@.len());
    assert("machine-a-tron"@.len() != "nico-dsx-exchange-consumer"@.len());
    assert("machine-a-tron"@.len() != "carbide-dsx-exchange-consumer"@.len());
    assert("elektra-site-agent"@.len() != "nico-dns"@.len());
    assert("elektra-site-agent"@.len() != "carbide-dns"@.len());
    assert("elektra-site-agent"@.len() != "nico-dhcp"@.len());
    assert("elektra-site-agent"@.len() != "carbide-dhcp"@.len());
    assert("elektra-site-agent"@.len() != "nico-ssh-console"@.len());
    assert("elektra-site-agent"@.len() != "carbide-ssh-console"@.len());
    assert("elektra-site-agent"@.len() != "nico-ssh-console-rs"@.len());
    assert("elektra-site-agent"@.len() != "carbide-ssh-console-rs"@.len());
    assert("elektra-site-agent"@.len() != "nico-pxe"@.len());
    assert("elektra-site-agent"@.len() != "carbide-pxe"@.len());
    assert("elektra-site-agent"@.len() != "nico-bmc-proxy"@.len());
    assert("elektra-site-agent"@.len() != "carbide-bmc-proxy"@.len());
    assert("elektra-site-agent"@.len() != "nico-hardware-health"@.len());
    assert("elektra-site-agent"@.len() != "carbide-hardware-health"@.len());
    assert("elektra-site-agent"@.len() != "nico-flow"@.len());
    assert("elektra-site-agent"@.len() != "carbide-flow"@.len());
    assert("elektra-site-agent"@.len() != "nico-maintenance-jobs"@.len());
    assert("elektra-site-agent"@.len() != "carbide-maintenance-jobs"@.len());
    assert("elektra-site-agent"@.len() != "nico-dsx-exchange-consumer"@.len());
    assert("elektra-site-agent"@.len() != "carbide-dsx-exchange-consumer"@.len());
    assert("nico-dns"@.len() != "carbide-dns"@.len());
    assert("nico-dns"@.len() != "nico-dhcp"@.len());
    assert("nico-dns"@.len() != "carbide-dhcp"@.len());
    assert("nico-dns"@.len() != "nico-ssh-console"@.len());
    assert("nico-dns"@.len() != "carbide-ssh-console"@.len());
    assert("nico-dns"@.len() != "nico-ssh-console-rs"@.len());
    assert("nico-dns"@.len() != "carbide-ssh-console-rs"@.len());
    assert("nico-dns"@[5] != "nico-pxe"@[5]);
    assert("nico-dns"@.len() != "carbide-pxe"@.len());
    assert("nico-dns"@.len() != "nico-bmc-proxy"@.len());
    assert("nico-dns"@.len() != "carbide-bmc-proxy"@.len());
    assert("nico-dns"@.len() != "nico-hardware-health"@.len());
    assert("nico-dns"@.len() != "carbide-hardware-health"@.len());
    assert("nico-dns"@.len() != "nico-flow"@.len());
    assert("nico-dns"@.len() != "carbide-flow"@.len());
    assert("nico-dns"@.len() != "nico-maintenance-jobs"@.len());
    assert("nico-dns"@.len() != "carbide-maintenance-jobs"@.len());
    assert("nico-dns"@.len() != "nico-dsx-exchange-consumer"@.len());
    assert("nico-dns"@.len() != "carbide-dsx-exchange-consumer"@.len());
    assert("carbide-dns"@.len() != "nico-dhcp"@.len());
    assert("carbide-dns"@.len() != "carbide-dhcp"@.len());
    assert("carbide-dns"@.len() != "nico-ssh-console"@.len());
    assert("carbide-dns"@.len() != "carbide-ssh-console"@.len());
    assert("carbide-dns"@.len() != "nico-ssh-console-rs"@.len());
    assert("carbide-dns"@.len() != "carbide-ssh-console-rs"@.len());
    assert("carbide-dns"@.len() != "nico-pxe"@.len());
    assert("carbide-dns"@[8] != "carbide-pxe"@[8]);
    assert("carbide-dns"@.len() != "nico-bmc-proxy"@.len());
    assert("carbide-dns"@.len() != "carbide-bmc-proxy"@.len());
    assert("carbide-dns"@.len() != "nico-hardware-health"@.len());
    assert("carbide-dns"@.len() != "carbide-hardware-health"@.len());
    assert("carbide-dns"@.len() != "nico-flow"@.len());
    assert("carbide-dns"@.len() != "carbide-flow"@.len());
    assert("carbide-dns"@.len() != "nico-maintenance-jobs"@.len());
    assert("carbide-dns"@.len() != "carbide-maintenance-jobs"@.len());
    assert("carbide-dns"@.len() != "nico-dsx-exchange-consumer"@.len());
    assert("carbide-dns"@.len() != "carbide-dsx-exchange-consumer"@.len());
    assert("nico-dhcp"@.len() != "carbide-dhcp"@.len());
    assert("nico-dhcp"@.len() != "nico-ssh-console"@.len());
    assert("nico-dhcp"@.len() != "carbide-ssh-console"@.len());
    assert("nico-dhcp"@.len() != "nico-ssh-console-rs"@.len());
    assert("nico-dhcp"@.len() != "carbide-ssh-console-rs"@.len());
    assert("nico-dhcp"@.len() != "nico-pxe"@.len());
    assert("nico-dhcp"@.len() != "carbide-pxe"@.len());
    assert("nico-dhcp"@.len() != "nico-bmc-proxy"@.len());
    assert("nico-dhcp"@.len() != "carbide-bmc-proxy"@.len());
    assert("nico-dhcp"@.len() != "nico-hardware-health"@.len());
    assert("nico-dhcp"@.len() != "carbide-hardware-health"@.len());
    assert("nico-dhcp"@[5] != "nico-flow"@[5]);
    assert("nico-dhcp"@.len() != "carbide-flow"@.len());
    assert("nico-dhcp"@.len() != "nico-maintenance-jobs"@.len());
    assert("nico-dhcp"@.len() != "carbide-maintenance-jobs"@.len());
    assert("nico-dhcp"@.len() != "nico-dsx-exchange-consumer"@.len());
    assert("nico-dhcp"@.len() != "carbide-dsx-exchange-consumer"@.len());
    assert("carbide-dhcp"@.len() != "nico-ssh-console"@.len());
    assert("carbide-dhcp"@.len() != "carbide-ssh-console"@.len());
    assert("carbide-dhcp"@.len() != "nico-ssh-console-rs"@.len());
    assert("carbide-dhcp"@.len() != "carbide-ssh-console-rs"@.len());
    assert("carbide-dhcp"@.len() != "nico-pxe"@.len());
    assert("carbide-dhcp"@.len() != "carbide-pxe"@.len());
    assert("carbide-dhcp"@.len() != "nico-bmc-proxy"@.len());
    assert("carbide-dhcp"@.len() != "carbide-bmc-proxy"@.len());
    assert("carbide-dhcp"@.len() != "nico-hardware-health"@.len());
    assert("carbide-dhcp"@.len() != "carbide-hardware-health"@.len());
    assert("carbide-dhcp"@.len() != "nico-flow"@.len());
    assert("carbide-dhcp"@[8] != "carbide-flow"@[8]);
    assert("carbide-dhcp"@.len() != "nico-maintenance-jobs"@.len());
    assert("carbide-dhcp"@.len() != "carbide-maintenance-jobs"@.len());
    assert("carbide-dhcp"@.len() != "nico-dsx-exchange-consumer"@.len());
    assert("carbide-dhcp"@.len() != "carbide-dsx-exchange-consumer"@.len());
    assert("nico-ssh-console"@.len() != "carbide-ssh-console"@.len());
    assert("nico-ssh-console"@.len() != "nico-ssh-console-rs"@.len());
    assert("nico-ssh-console"@.len() != "carbide-ssh-console-rs"@.len());
    assert("nico-ssh-console"@.len() != "nico-pxe"@.len());
    assert("nico-ssh-console"@.len() != "carbide-pxe"@.len());
    assert("nico-ssh-console"@.len() != "nico-bmc-proxy"@.len());
    assert("nico-ssh-console"@.len() != "carbide-bmc-proxy"@.len());
    assert("nico-ssh-console"@.len() != "nico-hardware-health"@.len());
    assert("nico-ssh-console"@.len() != "carbide-hardware-health"@.len());
    assert("nico-ssh-console"@.len() != "nico-flow"@.len());
    assert("nico-ssh-console"@.len() != "carbide-flow"@.len());
    assert("nico-ssh-console"@.len() != "nico-maintenance-jobs"@.len());
    assert("nico-ssh-console"@.len() != "carbide-maintenance-jobs"@.len());
    assert("nico-ssh-console"@.len() != "nico-dsx-exchange-consumer"@.len());
    assert("nico-ssh-console"@.len() != "carbide-dsx-exchange-consumer"@.len());
    assert("carbide-ssh-console"@[0] != "nico-ssh-console-rs"@[0]);
    assert("carbide-ssh-console"@.len() != "carbide-ssh-console-rs"@.len());
    assert("carbide-ssh-console"@.len() != "nico-pxe"@.len());
    assert("carbide-ssh-console"@.len() != "carbide-pxe"@.len());
    assert("carbide-ssh-console"@.len() != "nico-bmc-proxy"@.len());
    assert("carbide-ssh-console"@.len() != "carbide-bmc-proxy"@.len());
    assert("carbide-ssh-console"@.len() != "nico-hardware-health"@.len());
    assert("carbide-ssh-console"@.len() != "carbide-hardware-health"@.len());
    assert("carbide-ssh-console"@.len() != "nico-flow"@.len());
    assert("carbide-ssh-console"@.len() != "carbide-flow"@.len());
    assert("carbide-ssh-console"@.len() != "nico-maintenance-jobs"@.len());
    assert("carbide-ssh-console"@.len() != "carbide-maintenance-jobs"@.len());
    assert("carbide-ssh-console"@.len() != "nico-dsx-exchange-consumer"@.len());
    assert("carbide-ssh-console"@.len() != "carbide-dsx-exchange-consumer"@.len());
    assert("nico-ssh-console-rs"@.len() != "carbide-ssh-console-rs"@.len());
    assert("nico-ssh-console-rs"@.len() != "nico-pxe"@.len());
    assert("nico-ssh-console-rs"@.len() != "carbide-pxe"@.len());
    assert("nico-ssh-console-rs"@.len() != "nico-bmc-proxy"@.len());
    assert("nico-ssh-console-rs"@.len() != "carbide-bmc-proxy"@.len());
    assert("nico-ssh-console-rs"@.len() != "nico-hardware-health"@.len());
    assert("nico-ssh-console-rs"@.len() != "carbide-hardware-health"@.len());
    assert("nico-ssh-console-rs"@.len() != "nico-flow"@.len());
    assert("nico-ssh-console-rs"@.len() != "carbide-flow"@.len());
    assert("nico-ssh-console-rs"@.len() != "nico-maintenance-jobs"@.len());
    assert("nico-ssh-console-rs"@.len() != "carbide-maintenance-jobs"@.len());
    assert("nico-ssh-console-rs"@.len() != "nico-dsx-exchange-consumer"@.len());
    assert("nico-ssh-console-rs"@.len() != "carbide-dsx-exchange-consumer"@.len());
    assert("carbide-ssh-console-rs"@.len() != "nico-pxe"@.len());
    assert("carbide-ssh-console-rs"@.len() != "carbide-pxe"@.len());
    assert("carbide-ssh-console-rs"@.len() != "nico-bmc-proxy"@.len());
    assert("carbide-ssh-console-rs"@.len() != "carbide-bmc-proxy"@.len());
    assert("carbide-ssh-console-rs"@.len() != "nico-hardware-health"@.len());
    assert("carbide-ssh-console-rs"@.len() != "carbide-hardware-health"@.len());
    assert("carbide-ssh-console-rs"@.len() != "nico-flow"@.len());
    assert("carbide-ssh-console-rs"@.len() != "carbide-flow"@.len());
    assert("carbide-ssh-console-rs"@.len() != "nico-maintenance-jobs"@.len());
    assert("carbide-ssh-console-rs"@.len() != "carbide-maintenance-jobs"@.len());
    assert("carbide-ssh-console-rs"@.len() != "nico-dsx-exchange-consumer"@.len());
    assert("carbide-ssh-console-rs"@.len() != "carbide-dsx-exchange-consumer"@.len());
    assert("nico-pxe"@.len() != "carbide-pxe"@.len());
    assert("nico-pxe"@.len() != "nico-bmc-proxy"@.len());
    assert("nico-pxe"@.len() != "carbide-bmc-proxy"@.len());
    assert("nico-pxe"@.len() != "nico-hardware-health"@.len());
    assert("nico-pxe"@.len() != "carbide-hardware-health"@.len());
    assert("nico-pxe"@.len() != "nico-flow"@.len());
    assert("nico-pxe"@.len() != "carbide-flow"@.len());
    assert("nico-pxe"@.len() != "nico-maintenance-jobs"@.len());
    assert("nico-pxe"@.len() != "carbide-maintenance-jobs"@.len());
    assert("nico-pxe"@.len() != "nico-dsx-exchange-consumer"@.len());
    assert("nico-pxe"@.len() != "carbide-dsx-exchange-consumer"@.len());
    assert("carbide-pxe"@.len() != "nico-bmc-proxy"@.len());
    assert("carbide-pxe"@.len() != "carbide-bmc-proxy"@.len());
    assert("carbide-pxe"@.len() != "nico-hardware-health"@.len());
    assert("carbide-pxe"@.len() != "carbide-hardware-health"@.len());
    assert("carbide-pxe"@.len() != "nico-flow"@.len());
    assert("carbide-pxe"@.len() != "carbide-flow"@.len());
    assert("carbide-pxe"@.len() != "nico-maintenance-jobs"@.len());
    assert("carbide-pxe"@.len() != "carbide-maintenance-jobs"@.len());
    assert("carbide-pxe"@.len() != "nico-dsx-exchange-consumer"@.len());
    assert("carbide-pxe"@.len() != "carbide-dsx-exchange-consumer"@.len());
    assert("nico-bmc-proxy"@.len() != "carbide-bmc-proxy"@.len());
    assert("nico-bmc-proxy"@.len() != "nico-hardware-health"@.len());
    assert("nico-bmc-proxy"@.len() != "carbide-hardware-health"@.len());
    assert("nico-bmc-proxy"@.len() != "nico-flow"@.len());
    assert("nico-bmc-proxy"@.len() != "carbide-flow"@.len());
    assert("nico-bmc-proxy"@.len() != "nico-maintenance-jobs"@.len());
    assert("nico-bmc-proxy"@.len() != "carbide-maintenance-jobs"@.len());
    assert("nico-bmc-proxy"@.len() != "nico-dsx-exchange-consumer"@.len());
    assert("nico-bmc-proxy"@.len() != "carbide-dsx-exchange-consumer"@.len());
    assert("carbide-bmc-proxy"@.len() != "nico-hardware-health"@.len());
    assert("carbide-bmc-proxy"@.len() != "carbide-hardware-health"@.len());
    assert("carbide-bmc-proxy"@.len() != "nico-flow"@.len());
    assert("carbide-bmc-proxy"@.len() != "carbide-flow"@.len());
    assert("carbide-bmc-proxy"@.len() != "nico-maintenance-jobs"@.len());
    assert("carbide-bmc-proxy"@.len() != "carbide-maintenance-jobs"@.len());
    assert("carbide-bmc-proxy"@.len() != "nico-dsx-exchange-consumer"@.len());
    assert("carbide-bmc-proxy"@.len() != "carbide-dsx-exchange-consumer"@.len());
    assert("nico-hardware-health"@.len() != "carbide-hardware-health"@.len());
    assert("nico-hardware-health"@.len() != "nico-flow"@.len());
    assert("nico-hardware-health"@.len() != "carbide-flow"@.len());
    assert("nico-hardware-health"@.len() != "nico-maintenance-jobs"@.len());
    assert("nico-hardware-health"@.len() != "carbide-maintenance-jobs"@.len());
    assert("nico-hardware-health"@.len() != "nico-dsx-exchange-consumer"@.len());
    assert("nico-hardware-health"@.len() != "carbide-dsx-exchange-consumer"@.len());
    assert("carbide-hardware-health"@.len() != "nico-flow"@.len());
    assert("carbide-hardware-health"@.len() != "carbide-flow"@.len());
    assert("carbide-hardware-health"@.len() != "nico-maintenance-jobs"@.len());
    assert("carbide-hardware-health"@.len() != "carbide-maintenance-jobs"@.len());
    assert("carbide-hardware-health"@.len() != "nico-dsx-exchange-consumer"@.len());
    assert("carbide-hardware-health"@.len() != "carbide-dsx-exchange-consumer"@.len());
    assert("nico-flow"@.len() != "carbide-flow"@.len());
    assert("nico-flow"@.len() != "nico-maintenance-jobs"@.len());
    assert("nico-flow"@.len() != "carbide-maintenance-jobs"@.len());
    assert("nico-flow"@.len() != "nico-dsx-exchange-consumer"@.len());
    assert("nico-flow"@.len() != "carbide-dsx-exchange-consumer"@.len());
    assert("carbide-flow"@.len() != "nico-maintenance-jobs"@.len());
    assert("carbide-flow"@.len() != "carbide-maintenance-jobs"@.len());
    assert("carbide-flow"@.len() != "nico-dsx-exchange-consumer"@.len());
    assert("carbide-flow"@.len() != "carbide-dsx-exchange-consumer"@.len());
    assert("nico-maintenance-jobs"@.len() != "carbide-maintenance-jobs"@.len());
    assert("nico-maintenance-jobs"@.len() != "nico-dsx-exchange-consumer"@.len());
    assert("nico-maintenance-jobs"@.len() != "carbide-dsx-exchange-consumer"@.len());
    assert("carbide-maintenance-jobs"@.len() != "nico-dsx-exchange-consumer"@.len());
    assert("carbide-maintenance-jobs"@.len() != "carbide-dsx-exchange-consumer"@.len());
    assert("nico-dsx-exchange-consumer"@.len() != "carbide-dsx-exchange-consumer"@.len());
}

proof fn lemma_expansion_renamed(q: RulePrincipal, p: RulePrincipal)
    requires
        is_renamed(p),
    ensures
        expansion(q).contains(PrincipalView::Service(nico_name(p)))
            == expansion(q).contains(PrincipalView::Service(carbide_name(p))),
{
    lemma_service_names_distinct();
    let e = expansion(q);
    if is_renamed(q) {
        assert(e == renamed_service(nico_name(q), carbide_name(q)));
        if q != p {
            assert(nico_name(p) != nico_name(q) && nico_name(p) != carbide_name(q));
            assert(carbide_name(p) != nico_name(q) && carbide_name(p) != carbide_name(q));
            assert(!e.contains(PrincipalView::Service(nico_name(p)))) by {
                if e.contains(PrincipalView::Service(nico_name(p))) {
                    let i = choose|i: int| 0 <= i < e.len() && e[i] == PrincipalView::Service(nico_name(p));
                }
            }
            assert(!e.contains(PrincipalView::Service(carbide_name(p)))) by {
                if e.contains(PrincipalView::Service(carbide_name(p))) {
                    let i = choose|i: int| 0 <= i < e.len() && e[i] == PrincipalView::Service(carbide_name(p));
                }
            }
        } else {
            assert(e[0] == PrincipalView::Service(nico_name(p)));
            assert(e[1] == PrincipalView::Service(carbide_name(p)));
        }
    } else {
        assert(nico_name(p) != "machine-a-tron"@ && nico_name(p) != "elektra-site-agent"@);
        assert(carbide_name(p) != "machine-a-tron"@ && carbide_name(p) != "elektra-site-agent"@);
        assert(!e.contains(PrincipalView::Service(nico_name(p)))) by {
            if e.contains(PrincipalView::Service(nico_name(p))) {
                let i = choose|i: int| 0 <= i < e.len() && e[i] == PrincipalView::Service(nico_name(p));
            }
        }
        assert(!e.contains(PrincipalView::Service(carbide_name(p)))) by {
            if e.contains(PrincipalView::Service(carbide_name(p))) {
                let i = choose|i: int| 0 <= i < e.len() && e[i] == PrincipalView::Service(carbide_name(p));
            }
        }
    }
}

/// Every rule that a list of caller kinds expands to admits a renamed service under its
/// `nico-*` identifier exactly when it admits it under its `carbide-*` identifier.
pub proof fn lemma_renamed_identifiers_together(ps: Seq<RulePrincipal>, p: RulePrincipal)
    requires
        is_renamed(p),
    ensures
        expand(ps).contains(PrincipalView::Service(nico_name(p)))
            == expand(ps).contains(PrincipalView::Service(carbide_name(p))),
    decreases ps.len(),
{
    if ps.len() > 0 {
        lemma_renamed_identifiers_together(ps.drop_last(), p);
        lemma_expansion_renamed(ps.last(), p);
        let a = expand(ps.drop_last());
        let b = expansion(ps.last());
        let n = PrincipalView::Service(nico_name(p));
        let c = PrincipalView::Service(carbide_name(p));
        assert((a + b).contains(n) == (a.contains(n) || b.contains(n))) by {
            if (a + b).contains(n) {
                let i = choose|i: int| 0 <= i < (a + b).len() && (a + b)[i] == n;
                if i >= a.len() { assert(b[i - a.len()] == n); }
            }
            if a.contains(n) {
                let i = choose|i: int| 0 <= i < a.len() && a[i] == n;
                assert((a + b)[i] == n);
            }
            if b.contains(n) {
                let i = choose|i: int| 0 <= i < b.len() && b[i] == n;
                assert((a + b)[a.len() + i] == n);
            }
        }
        assert((a + b).contains(c) == (a.contains(c) || b.contains(c))) by {
            if (a + b).contains(c) {
                let i = choose|i: int| 0 <= i < (a + b).len() && (a + b)[i] == c;
                if i >= a.len() { assert(b[i - a.len()] == c); }
            }
            if a.contains(c) {
                let i = choose|i: int| 0 <= i < a.len() && a[i] == c;
                assert((a + b)[i] == c);
            }
            if b.contains(c) {
                let i = choose|i: int| 0 <= i < b.len() && b[i] == c;
                assert((a + b)[a.len() + i] == c);
            }
        }
    }
}

/// Whether the kind `k` occurs in the list `ps`.
pub open spec fn lists(ps: Seq<RulePrincipal>, k: RulePrincipal) -> bool
    decreases ps.len(),
{
    ps.len() > 0 && (ps.last() == k || lists(ps.drop_last(), k))
}

/// Whether every rule of `m` admits the ssh console under its current identifier exactly
/// when it admits the console's rewrite under its current identifier.
pub open spec fn ssh_consoles_paired(m: Map<Seq<char>, Seq<PrincipalView>>) -> bool {
    forall|msg: Seq<char>| #[trigger] m.dom().contains(msg) ==>
        m[msg].contains(PrincipalView::Service("nico-ssh-console"@))
            == m[msg].contains(PrincipalView::Service("nico-ssh-console-rs"@))
}

proof fn lemma_expansion_names(q: RulePrincipal, p: RulePrincipal)
    requires
        is_renamed(p),
    ensures
        expansion(q).contains(PrincipalView::Service(nico_name(p))) == (q == p),
{
    lemma_service_names_distinct();
    let e = expansion(q);
    let n = PrincipalView::Service(nico_name(p));
    if q == p {
        assert(e[0] == n);
    } else {
        if is_renamed(q) {
            assert(nico_name(p) != nico_name(q) && nico_name(p) != carbide_name(q));
        } else {
            assert(nico_name(p) != "machine-a-tron"@ && nico_name(p) != "elektra-site-agent"@);
        }
        assert(!e.contains(n)) by {
            if e.contains(n) {
                let i = choose|i: int| 0 <= i < e.len() && e[i] == n;
            }
        }
    }
}

proof fn lemma_expand_lists(ps: Seq<RulePrincipal>, p: RulePrincipal)
    requires
        is_renamed(p),
    ensures
        expand(ps).contains(PrincipalView::Service(nico_name(p))) == lists(ps, p),
    decreases ps.len(),
{
    if ps.len() > 0 {
        lemma_expand_lists(ps.drop_last(), p);
        lemma_expansion_names(ps.last(), p);
        let a = expand(ps.drop_last());
        let b = expansion(ps.last());
        let n = PrincipalView::Service(nico_name(p));
        assert((a + b).contains(n) == (a.contains(n) || b.contains(n))) by {
            if (a + b).contains(n) {
                let i = choose|i: int| 0 <= i < (a + b).len() && (a + b)[i] == n;
                if i >= a.len() { assert(b[i - a.len()] == n); }
            }
            if a.contains(n) {
                let i = choose|i: int| 0 <= i < a.len() && a[i] == n;
                assert((a + b)[i] == n);
            }
            if b.contains(n) {
                let i = choose|i: int| 0 <= i < b.len() && b[i] == n;
                assert((a + b)[a.len() + i] == n);
            }
        }
    }
}

/// Whether every rule of `m` admits each renamed service under both of its identifiers or
/// under neither.
pub open spec fn renamed_paired(m: Map<Seq<char>, Seq<PrincipalView>>) -> bool {
    forall|msg: Seq<char>, p: RulePrincipal| #![trigger m[msg], is_renamed(p)]
        m.dom().contains(msg) && is_renamed(p) ==>
            m[msg].contains(PrincipalView::Service(nico_name(p)))
                == m[msg].contains(PrincipalView::Service(carbide_name(p)))
}

proof fn lemma_paired_insert(m: Map<Seq<char>, Seq<PrincipalView>>, msg: Seq<char>, ps: Seq<RulePrincipal>)
    requires
        renamed_paired(m),
        ssh_consoles_paired(m),
        lists(ps, RulePrincipal::Ssh) == lists(ps, RulePrincipal::SshRs),
    ensures
        renamed_paired(m.insert(msg, expand(ps))),
        ssh_consoles_paired(m.insert(msg, expand(ps))),
{
    let m2 = m.insert(msg, expand(ps));
    lemma_expand_lists(ps, RulePrincipal::Ssh);
    lemma_expand_lists(ps, RulePrincipal::SshRs);
    assert forall|k: Seq<char>| #[trigger] m2.dom().contains(k) implies
        m2[k].contains(PrincipalView::Service(nico_name(RulePrincipal::Ssh)))
            == m2[k].contains(PrincipalView::Service(nico_name(RulePrincipal::SshRs))) by {
        if k != msg {
            assert(m2[k] == m[k]);
        }
    }
    assert forall|k: Seq<char>, p: RulePrincipal| #![trigger m2[k], is_renamed(p)]
        m2.dom().contains(k) && is_renamed(p) implies
            m2[k].contains(PrincipalView::Service(nico_name(p)))
                == m2[k].contains(PrincipalView::Service(carbide_name(p))) by {
        if k == msg {
            lemma_renamed_identifiers_together(ps, p);
        } else {
            assert(m2[k] == m[k]);
        }
    }
}
proof fn lemma_paired_part_1(m: Map<Seq<char>, Seq<PrincipalView>>)
    requires
        renamed_paired(m),
        ssh_consoles_paired(m),
    ensures
        renamed_paired(rules_part_1(m)),
        ssh_consoles_paired(rules_part_1(m)),
{
    reveal_with_fuel(lists, 8);
    let m0 = m;
    lemma_paired_insert(m0, "Version"@, seq![RulePrincipal::Anonymous]);
    let m1 = m0.insert("Version"@, expand(seq![RulePrincipal::Anonymous]));
    lemma_paired_insert(m1, "CreateDomain"@, seq![]);
    let m2 = m1.insert("CreateDomain"@, expand(seq![]));
    lemma_paired_insert(m2, "CreateDomainLegacy"@, seq![]);
    let m3 = m2.insert("CreateDomainLegacy"@, expand(seq![]));
    lemma_paired_insert(m3, "UpdateDomainLegacy"@, seq![]);
    let m4 = m3.insert("UpdateDomainLegacy"@, expand(seq![]));
    lemma_paired_insert(m4, "DeleteDomainLegacy"@, seq![]);
    let m5 = m4.insert("DeleteDomainLegacy"@, expand(seq![]));
    lemma_paired_insert(m5, "FindDomainLegacy"@, seq![RulePrincipal::NicoAdminCLI]);
    let m6 = m5.insert("FindDomainLegacy"@, expand(seq![RulePrincipal::NicoAdminCLI]));
    lemma_paired_insert(m6, "UpdateDomain"@, seq![]);
    let m7 = m6.insert("UpdateDomain"@, expand(seq![]));
    lemma_paired_insert(m7, "DeleteDomain"@, seq![]);
    let m8 = m7.insert("DeleteDomain"@, expand(seq![]));
    lemma_paired_insert(m8, "FindDomain"@, seq![RulePrincipal::NicoAdminCLI]);
    let m9 = m8.insert("FindDomain"@, expand(seq![RulePrincipal::NicoAdminCLI]));
    lemma_paired_insert(m9, "CreateVpc"@, seq![RulePrincipal::SiteAgent, RulePrincipal::Machineatron]);
    let m10 = m9.insert("CreateVpc"@, expand(seq![RulePrincipal::SiteAgent, RulePrincipal::Machineatron]));
    lemma_paired_insert(m10, "UpdateVpc"@, seq![RulePrincipal::NicoAdminCLI, RulePrincipal::SiteAgent]);
    let m11 = m10.insert("UpdateVpc"@, expand(seq![RulePrincipal::NicoAdminCLI, RulePrincipal::SiteAgent]));
    lemma_paired_insert(m11, "UpdateVpcVirtualization"@, seq![RulePrincipal::NicoAdminCLI, RulePrincipal::SiteAgent]);
    let m12 = m11.insert("UpdateVpcVirtualization"@, expand(seq![RulePrincipal::NicoAdminCLI, RulePrincipal::SiteAgent]));
    lemma_paired_insert(m12, "DeleteVpc"@, seq![RulePrincipal::Machineatron, RulePrincipal::SiteAgent]);
    let m13 = m12.insert("DeleteVpc"@, expand(seq![RulePrincipal::Machineatron, RulePrincipal::SiteAgent]));
    lemma_paired_insert(m13, "FindVpcIds"@, seq![RulePrincipal::SiteAgent, RulePrincipal::NicoAdminCLI, RulePrincipal::Machineatron]);
    let m14 = m13.insert("FindVpcIds"@, expand(seq![RulePrincipal::SiteAgent, RulePrincipal::NicoAdminCLI, RulePrincipal::Machineatron]));
    lemma_paired_insert(m14, "FindVpcsByIds"@, seq![RulePrincipal::NicoAdminCLI, RulePrincipal::SiteAgent]);
    let m15 = m14.insert("FindVpcsByIds"@, expand(seq![RulePrincipal::NicoAdminCLI, RulePrincipal::SiteAgent]));
    lemma_paired_insert(m15, "CreateVpcPrefix"@, seq![RulePrincipal::NicoAdminCLI, RulePrincipal::SiteAgent]);
    let m16 = m15.insert("CreateVpcPrefix"@, expand(seq![RulePrincipal::NicoAdminCLI, RulePrincipal::SiteAgent]));
    lemma_paired_insert(m16, "SearchVpcPrefixes"@, seq![RulePrincipal::NicoAdminCLI, RulePrincipal::SiteAgent]);
    let m17 = m16.insert("SearchVpcPrefixes"@, expand(seq![RulePrincipal::NicoAdminCLI, RulePrincipal::SiteAgent]));
    lemma_paired_insert(m17, "GetVpcPrefixes"@, seq![RulePrincipal::NicoAdminCLI, RulePrincipal::SiteAgent]);
    let m18 = m17.insert("GetVpcPrefixes"@, expand(seq![RulePrincipal::NicoAdminCLI, RulePrincipal::SiteAgent]));
    lemma_paired_insert(m18, "UpdateVpcPrefix"@, seq![RulePrincipal::NicoAdminCLI, RulePrincipal::SiteAgent]);
    let m19 = m18.insert("UpdateVpcPrefix"@, expand(seq![RulePrincipal::NicoAdminCLI, RulePrincipal::SiteAgent]));
    lemma_paired_insert(m19, "DeleteVpcPrefix"@, seq![RulePrincipal::NicoAdminCLI, RulePrincipal::SiteAgent]);
    let m20 = m19.insert("DeleteVpcPrefix"@, expand(seq![RulePrincipal::NicoAdminCLI, RulePrincipal::SiteAgent]));
    lemma_paired_insert(m20, "GetAllDpaInterfaceIds"@, seq![RulePrincipal::NicoAdminCLI, RulePrincipal::SiteAgent]);
    let m21 = m20.insert("GetAllDpaInterfaceIds"@, expand(seq![RulePrincipal::NicoAdminCLI, RulePrincipal::SiteAgent]));
    lemma_paired_insert(m21, "FindDpaInterfacesByIds"@, seq![RulePrincipal::NicoAdminCLI, RulePrincipal::SiteAgent]);
    let m22 = m21.insert("FindDpaInterfacesByIds"@, expand(seq![RulePrincipal::NicoAdminCLI, RulePrincipal::SiteAgent]));
    lemma_paired_insert(m22, "CreateDpaInterface"@, seq![]);
    let m23 = m22.insert("CreateDpaInterface"@, expand(seq![]));
    lemma_paired_insert(m23, "EnsureDpaInterface"@, seq![]);
    let m24 = m23.insert("EnsureDpaInterface"@, expand(seq![]));
    lemma_paired_insert(m24, "DeleteDpaInterface"@, seq![]);
    let m25 = m24.insert("DeleteDpaInterface"@, expand(seq![]));
    lemma_paired_insert(m25, "SetDpaNetworkObservationStatus"@, seq![]);
    let m26 = m25.insert("SetDpaNetworkObservationStatus"@, expand(seq![]));
    lemma_paired_insert(m26, "FindNetworkSegmentIds"@, seq![RulePrincipal::NicoAdminCLI, RulePrincipal::Machineatron, RulePrincipal::SiteAgent]);
    let m27 = m26.insert("FindNetworkSegmentIds"@, expand(seq![RulePrincipal::NicoAdminCLI, RulePrincipal::Machineatron, RulePrincipal::SiteAgent]));
    lemma_paired_insert(m27, "FindNetworkSegmentsByIds"@, seq![RulePrincipal::NicoAdminCLI, RulePrincipal::Machineatron, RulePrincipal::SiteAgent]);
    let m28 = m27.insert("FindNetworkSegmentsByIds"@, expand(seq![RulePrincipal::NicoAdminCLI, RulePrincipal::Machineatron, RulePrincipal::SiteAgent]));
    lemma_paired_insert(m28, "FindNetworkSegmentStateHistories"@, seq![RulePrincipal::NicoAdminCLI, RulePrincipal::Machineatron, RulePrincipal::SiteAgent]);
    let m29 = m28.insert("FindNetworkSegmentStateHistories"@, expand(seq![RulePrincipal::NicoAdminCLI, RulePrincipal::Machineatron, RulePrincipal::SiteAgent]));
    lemma_paired_insert(m29, "CreateNetworkSegment"@, seq![RulePrincipal::Machineatron, RulePrincipal::SiteAgent]);
    let m30 = m29.insert("CreateNetworkSegment"@, expand(seq![RulePrincipal::Machineatron, RulePrincipal::SiteAgent]));
    lemma_paired_insert(m30, "DeleteNetworkSegment"@, seq![RulePrincipal::NicoAdminCLI, RulePrincipal::Machineatron, RulePrincipal::SiteAgent]);
    let m31 = m30.insert("DeleteNetworkSegment"@, expand(seq![RulePrincipal::NicoAdminCLI, RulePrincipal::Machineatron, RulePrincipal::SiteAgent]));
    lemma_paired_insert(m31, "NetworkSegmentsForVpc"@, seq![]);
    let m32 = m31.insert("NetworkSegmentsForVpc"@, expand(seq![]));
    lemma_paired_insert(m32, "FindIBPartitionIds"@, seq![RulePrincipal::NicoAdminCLI, RulePrincipal::SiteAgent]);
    let m33 = m32.insert("FindIBPartitionIds"@, expand(seq![RulePrincipal::NicoAdminCLI, RulePrincipal::SiteAgent]));
    lemma_paired_insert(m33, "FindIBPartitionsByIds"@, seq![RulePrincipal::NicoAdminCLI, RulePrincipal::SiteAgent]);
    let m34 = m33.insert("FindIBPartitionsByIds"@, expand(seq![RulePrincipal::NicoAdminCLI, RulePrincipal::SiteAgent]));
    lemma_paired_insert(m34, "CreateIBPartition"@, seq![RulePrincipal::SiteAgent]);
    let m35 = m34.insert("CreateIBPartition"@, expand(seq![RulePrincipal::SiteAgent]));
    lemma_paired_insert(m35, "UpdateIBPartition"@, seq![RulePrincipal::SiteAgent]);
    let m36 = m35.insert("UpdateIBPartition"@, expand(seq![RulePrincipal::SiteAgent]));
    lemma_paired_insert(m36, "DeleteIBPartition"@, seq![RulePrincipal::SiteAgent]);
    let m37 = m36.insert("DeleteIBPartition"@, expand(seq![RulePrincipal::SiteAgent]));
    lemma_paired_insert(m37, "IBPartitionsForTenant"@, seq![]);
    let m38 = m37.insert("IBPartitionsForTenant"@, expand(seq![]));
    lemma_paired_insert(m38, "FindIBFabricIds"@, seq![RulePrincipal::NicoAdminCLI, RulePrincipal::SiteAgent]);
    let m39 = m38.insert("FindIBFabricIds"@, expand(seq![RulePrincipal::NicoAdminCLI, RulePrincipal::SiteAgent]));
    lemma_paired_insert(m39, "AllocateInstance"@, seq![RulePrincipal::NicoAdminCLI, RulePrincipal::Machineatron, RulePrincipal::SiteAgent]);
    let m40 = m39.insert("AllocateInstance"@, expand(seq![RulePrincipal::NicoAdminCLI, RulePrincipal::Machineatron, RulePrincipal::SiteAgent]));
}

proof fn lemma_paired_part_2(m: Map<Seq<char>, Seq<PrincipalView>>)
    requires
        renamed_paired(m),
        ssh_consoles_paired(m),
    ensures
        renamed_paired(rules_part_2(m)),
        ssh_consoles_paired(rules_part_2(m)),
{
    reveal_with_fuel(lists, 8);
    let m0 = m;
    lemma_paired_insert(m0, "AllocateInstances"@, seq![RulePrincipal::NicoAdminCLI, RulePrincipal::Machineatron, RulePrincipal::SiteAgent]);
    let m1 = m0.insert("AllocateInstances"@, expand(seq![RulePrincipal::NicoAdminCLI, RulePrincipal::Machineatron, RulePrincipal::SiteAgent]));
    lemma_paired_insert(m1, "ReleaseInstance"@, seq![RulePrincipal::NicoAdminCLI, RulePrincipal::SiteAgent]);
    let m2 = m1.insert("ReleaseInstance"@, expand(seq![RulePrincipal::NicoAdminCLI, RulePrincipal::SiteAgent]));
    lemma_paired_insert(m2, "UpdateInstanceOperatingSystem"@, seq![RulePrincipal::SiteAgent]);
    let m3 = m2.insert("UpdateInstanceOperatingSystem"@, expand(seq![RulePrincipal::SiteAgent]));
    lemma_paired_insert(m3, "UpdateInstanceConfig"@, seq![RulePrincipal::NicoAdminCLI, RulePrincipal::SiteAgent]);
    let m4 = m3.insert("UpdateInstanceConfig"@, expand(seq![RulePrincipal::NicoAdminCLI, RulePrincipal::SiteAgent]));
    lemma_paired_insert(m4, "FindInstanceIds"@, seq![RulePrincipal::NicoAdminCLI, RulePrincipal::SiteAgent]);
    let m5 = m4.insert("FindInstanceIds"@, expand(seq![RulePrincipal::NicoAdminCLI, RulePrincipal::SiteAgent]));
    lemma_paired_insert(m5, "FindInstancesByIds"@, seq![RulePrincipal::NicoAdminCLI, RulePrincipal::SiteAgent, RulePrincipal::Ssh, RulePrincipal::SshRs]);
    let m6 = m5.insert("FindInstancesByIds"@, expand(seq![RulePrincipal::NicoAdminCLI, RulePrincipal::SiteAgent, RulePrincipal::Ssh, RulePrincipal::SshRs]));
    lemma_paired_insert(m6, "FindInstanceByMachineID"@, seq![RulePrincipal::NicoAdminCLI, RulePrincipal::Agent, RulePrincipal::SiteAgent]);
    let m7 = m6.insert("FindInstanceByMachineID"@, expand(seq![RulePrincipal::NicoAdminCLI, RulePrincipal::Agent, RulePrincipal::SiteAgent]));
    lemma_paired_insert(m7, "RecordObservedInstanceNetworkStatus"@, seq![]);
    let m8 = m7.insert("RecordObservedInstanceNetworkStatus"@, expand(seq![]));
    lemma_paired_insert(m8, "GetManagedHostNetworkConfig"@, seq![RulePrincipal::NicoAdminCLI, RulePrincipal::Agent, RulePrincipal::Machineatron, RulePrincipal::SiteAgent]);
    let m9 = m8.insert("GetManagedHostNetworkConfig"@, expand(seq![RulePrincipal::NicoAdminCLI, RulePrincipal::Agent, RulePrincipal::Machineatron, RulePrincipal::SiteAgent]));
    lemma_paired_insert(m9, "RecordDpuNetworkStatus"@, seq![RulePrincipal::Agent, RulePrincipal::Machineatron]);
    let m10 = m9.insert("RecordDpuNetworkStatus"@, expand(seq![RulePrincipal::Agent, RulePrincipal::Machineatron]));
    lemma_paired_insert(m10, "ListMachineHealthReports"@, seq![RulePrincipal::NicoAdminCLI, RulePrincipal::Health, RulePrincipal::Ssh, RulePrincipal::SshRs]);
    let m11 = m10.insert("ListMachineHealthReports"@, expand(seq![RulePrincipal::NicoAdminCLI, RulePrincipal::Health, RulePrincipal::Ssh, RulePrincipal::SshRs]));
    lemma_paired_insert(m11, "InsertMachineHealthReport"@, seq![RulePrincipal::NicoAdminCLI, RulePrincipal::Health, RulePrincipal::SiteAgent, RulePrincipal::Ssh, RulePrincipal::SshRs, RulePrincipal::Flow]);
    let m12 = m11.insert("InsertMachineHealthReport"@, expand(seq![RulePrincipal::NicoAdminCLI, RulePrincipal::Health, RulePrincipal::SiteAgent, RulePrincipal::Ssh, RulePrincipal::SshRs, RulePrincipal::Flow]));
    lemma_paired_insert(m12, "RemoveMachineHealthReport"@, seq![RulePrincipal::NicoAdminCLI, RulePrincipal::Health, RulePrincipal::SiteAgent, RulePrincipal::Ssh, RulePrincipal::SshRs, RulePrincipal::Flow]);
    let m13 = m12.insert("RemoveMachineHealthReport"@, expand(seq![RulePrincipal::NicoAdminCLI, RulePrincipal::Health, RulePrincipal::SiteAgent, RulePrincipal::Ssh, RulePrincipal::SshRs, RulePrincipal::Flow]));
    lemma_paired_insert(m13, "ListRackHealthReports"@, seq![RulePrincipal::NicoAdminCLI, RulePrincipal::Health, RulePrincipal::DsxExchangeConsumer]);
    let m14 = m13.insert("ListRackHealthReports"@, expand(seq![RulePrincipal::NicoAdminCLI, RulePrincipal::Health, RulePrincipal::DsxExchangeConsumer]));
    lemma_paired_insert(m14, "InsertRackHealthReport"@, seq![RulePrincipal::NicoAdminCLI, RulePrincipal::Health, RulePrincipal::DsxExchangeConsumer]);
    let m15 = m14.insert("InsertRackHealthReport"@, expand(seq![RulePrincipal::NicoAdminCLI, RulePrincipal::Health, RulePrincipal::DsxExchangeConsumer]));
    lemma_paired_insert(m15, "RemoveRackHealthReport"@, seq![RulePrincipal::NicoAdminCLI, RulePrincipal::Health, RulePrincipal::DsxExchangeConsumer]);
    let m16 = m15.insert("RemoveRackHealthReport"@, expand(seq![RulePrincipal::NicoAdminCLI, RulePrincipal::Health, RulePrincipal::DsxExchangeConsumer]));
    lemma_paired_insert(m16, "ListSwitchHealthReports"@, seq![RulePrincipal::NicoAdminCLI, RulePrincipal::Health]);
    let m17 = m16.insert("ListSwitchHealthReports"@, expand(seq![RulePrincipal::NicoAdminCLI, RulePrincipal::Health]));
    lemma_paired_insert(m17, "InsertSwitchHealthReport"@, seq![RulePrincipal::NicoAdminCLI, RulePrincipal::Health]);
    let m18 = m17.insert("InsertSwitchHealthReport"@, expand(seq![RulePrincipal::NicoAdminCLI, RulePrincipal::Health]));
    lemma_paired_insert(m18, "RemoveSwitchHealthReport"@, seq![RulePrincipal::NicoAdminCLI, RulePrincipal::Health]);
    let m19 = m18.insert("RemoveSwitchHealthReport"@, expand(seq![RulePrincipal::NicoAdminCLI, RulePrincipal::Health]));
    lemma_paired_insert(m19, "ListPowerShelfHealthReports"@, seq![RulePrincipal::NicoAdminCLI, RulePrincipal::Health]);
    let m20 = m19.insert("ListPowerShelfHealthReports"@, expand(seq![RulePrincipal::NicoAdminCLI, RulePrincipal::Health]));
    lemma_paired_insert(m20, "InsertPowerShelfHealthReport"@, seq![RulePrincipal::NicoAdminCLI, RulePrincipal::Health]);
    let m21 = m20.insert("InsertPowerShelfHealthReport"@, expand(seq![RulePrincipal::NicoAdminCLI, RulePrincipal::Health]));
    lemma_paired_insert(m21, "RemovePowerShelfHealthReport"@, seq![RulePrincipal::NicoAdminCLI, RulePrincipal::Health]);
    let m22 = m21.insert("RemovePowerShelfHealthReport"@, expand(seq![RulePrincipal::NicoAdminCLI, RulePrincipal::Health]));
    lemma_paired_insert(m22, "ListHealthReportOverrides"@, seq![RulePrincipal::NicoAdminCLI, RulePrincipal::Health, RulePrincipal::Ssh, RulePrincipal::SshRs]);
    let m23 = m22.insert("ListHealthReportOverrides"@, expand(seq![RulePrincipal::NicoAdminCLI, RulePrincipal::Health, RulePrincipal::Ssh, RulePrincipal::SshRs]));
    lemma_paired_insert(m23, "InsertHealthReportOverride"@, seq![RulePrincipal::NicoAdminCLI, RulePrincipal::Health, RulePrincipal::SiteAgent, RulePrincipal::Ssh, RulePrincipal::SshRs, RulePrincipal::Flow]);
    let m24 = m23.insert("InsertHealthReportOverride"@, expand(seq![RulePrincipal::NicoAdminCLI, RulePrincipal::Health, RulePrincipal::SiteAgent, RulePrincipal::Ssh, RulePrincipal::SshRs, RulePrincipal::Flow]));
    lemma_paired_insert(m24, "RemoveHealthReportOverride"@, seq![RulePrincipal::NicoAdminCLI, RulePrincipal::Health, RulePrincipal::SiteAgent, RulePrincipal::Ssh, RulePrincipal::SshRs, RulePrincipal::Flow]);
    let m25 = m24.insert("RemoveHealthReportOverride"@, expand(seq![RulePrincipal::NicoAdminCLI, RulePrincipal::Health, RulePrincipal::SiteAgent, RulePrincipal::Ssh, RulePrincipal::SshRs, RulePrincipal::Flow]));
    lemma_paired_insert(m25, "DpuAgentUpgradeCheck"@, seq![RulePrincipal::Scout]);
    let m26 = m25.insert("DpuAgentUpgradeCheck"@, expand(seq![RulePrincipal::Scout]));
    lemma_paired_insert(m26, "DpuAgentUpgradePolicyAction"@, seq![RulePrincipal::NicoAdminCLI]);
    let m27 = m26.insert("DpuAgentUpgradePolicyAction"@, expand(seq![RulePrincipal::NicoAdminCLI]));
    lemma_paired_insert(m27, "LookupRecord"@, seq![RulePrincipal::Dns]);
    let m28 = m27.insert("LookupRecord"@, expand(seq![RulePrincipal::Dns]));
    lemma_paired_insert(m28, "LookupRecordLegacy"@, seq![RulePrincipal::Dns]);
    let m29 = m28.insert("LookupRecordLegacy"@, expand(seq![RulePrincipal::Dns]));
    lemma_paired_insert(m29, "GetAllDomainMetadata"@, seq![RulePrincipal::Dns]);
    let m30 = m29.insert("GetAllDomainMetadata"@, expand(seq![RulePrincipal::Dns]));
    lemma_paired_insert(m30, "GetAllDomains"@, seq![RulePrincipal::Dns]);
    let m31 = m30.insert("GetAllDomains"@, expand(seq![RulePrincipal::Dns]));
    lemma_paired_insert(m31, "InvokeInstancePower"@, seq![RulePrincipal::NicoAdminCLI, RulePrincipal::SiteAgent]);
    let m32 = m31.insert("InvokeInstancePower"@, expand(seq![RulePrincipal::NicoAdminCLI, RulePrincipal::SiteAgent]));
    lemma_paired_insert(m32, "NicoAgentControl"@, seq![RulePrincipal::Machineatron, RulePrincipal::Scout]);
    let m33 = m32.insert("NicoAgentControl"@, expand(seq![RulePrincipal::Machineatron, RulePrincipal::Scout]));
    lemma_paired_insert(m33, "DiscoverMachine"@, seq![RulePrincipal::Anonymous]);
    let m34 = m33.insert("DiscoverMachine"@, expand(seq![RulePrincipal::Anonymous]));
    lemma_paired_insert(m34, "RenewMachineCertificate"@, seq![RulePrincipal::Agent]);
    let m35 = m34.insert("RenewMachineCertificate"@, expand(seq![RulePrincipal::Agent]));
    lemma_paired_insert(m35, "DiscoveryCompleted"@, seq![RulePrincipal::Machineatron, RulePrincipal::Scout]);
    let m36 = m35.insert("DiscoveryCompleted"@, expand(seq![RulePrincipal::Machineatron, RulePrincipal::Scout]));
    lemma_paired_insert(m36, "CleanupMachineCompleted"@, seq![RulePrincipal::Machineatron, RulePrincipal::Scout]);
    let m37 = m36.insert("CleanupMachineCompleted"@, expand(seq![RulePrincipal::Machineatron, RulePrincipal::Scout]));
    lemma_paired_insert(m37, "ReportNicoScoutError"@, seq![RulePrincipal::Scout]);
    let m38 = m37.insert("ReportNicoScoutError"@, expand(seq![RulePrincipal::Scout]));
    lemma_paired_insert(m38, "ReportScoutFirmwareUpgradeStatus"@, seq![RulePrincipal::Scout]);
    let m39 = m38.insert("ReportScoutFirmwareUpgradeStatus"@, expand(seq![RulePrincipal::Scout]));
    lemma_paired_insert(m39, "DiscoverDhcp"@, seq![RulePrincipal::Dhcp, RulePrincipal::Machineatron]);
    let m40 = m39.insert("DiscoverDhcp"@, expand(seq![RulePrincipal::Dhcp, RulePrincipal::Machineatron]));
}

proof fn lemma_paired_part_3(m: Map<Seq<char>, Seq<PrincipalView>>)
    requires
        renamed_paired(m),
        ssh_consoles_paired(m),
    ensures
        renamed_paired(rules_part_3(m)),
        ssh_consoles_paired(rules_part_3(m)),
{
    reveal_with_fuel(lists, 8);
    let m0 = m;
    lemma_paired_insert(m0, "ExpireDhcpLease"@, seq![RulePrincipal::Dhcp, RulePrincipal::Machineatron]);
    let m1 = m0.insert("ExpireDhcpLease"@, expand(seq![RulePrincipal::Dhcp, RulePrincipal::Machineatron]));
    lemma_paired_insert(m1, "AssignStaticAddress"@, seq![RulePrincipal::NicoAdminCLI]);
    let m2 = m1.insert("AssignStaticAddress"@, expand(seq![RulePrincipal::NicoAdminCLI]));
    lemma_paired_insert(m2, "RemoveStaticAddress"@, seq![RulePrincipal::NicoAdminCLI]);
    let m3 = m2.insert("RemoveStaticAddress"@, expand(seq![RulePrincipal::NicoAdminCLI]));
    lemma_paired_insert(m3, "FindInterfaceAddresses"@, seq![RulePrincipal::NicoAdminCLI]);
    let m4 = m3.insert("FindInterfaceAddresses"@, expand(seq![RulePrincipal::NicoAdminCLI]));
    lemma_paired_insert(m4, "FindInterfaces"@, seq![RulePrincipal::NicoAdminCLI, RulePrincipal::Agent, RulePrincipal::Flow]);
    let m5 = m4.insert("FindInterfaces"@, expand(seq![RulePrincipal::NicoAdminCLI, RulePrincipal::Agent, RulePrincipal::Flow]));
    lemma_paired_insert(m5, "DeleteInterface"@, seq![RulePrincipal::NicoAdminCLI]);
    let m6 = m5.insert("DeleteInterface"@, expand(seq![RulePrincipal::NicoAdminCLI]));
    lemma_paired_insert(m6, "FindIpAddress"@, seq![RulePrincipal::NicoAdminCLI]);
    let m7 = m6.insert("FindIpAddress"@, expand(seq![RulePrincipal::NicoAdminCLI]));
    lemma_paired_insert(m7, "FindMachineIds"@, seq![RulePrincipal::NicoAdminCLI, RulePrincipal::Machineatron, RulePrincipal::Health, RulePrincipal::SiteAgent, RulePrincipal::Ssh, RulePrincipal::SshRs, RulePrincipal::Flow]);
    let m8 = m7.insert("FindMachineIds"@, expand(seq![RulePrincipal::NicoAdminCLI, RulePrincipal::Machineatron, RulePrincipal::Health, RulePrincipal::SiteAgent, RulePrincipal::Ssh, RulePrincipal::SshRs, RulePrincipal::Flow]));
    lemma_paired_insert(m8, "FindMachinesByIds"@, seq![RulePrincipal::NicoAdminCLI, RulePrincipal::Machineatron, RulePrincipal::Health, RulePrincipal::SiteAgent, RulePrincipal::Ssh, RulePrincipal::SshRs, RulePrincipal::Flow]);
    let m9 = m8.insert("FindMachinesByIds"@, expand(seq![RulePrincipal::NicoAdminCLI, RulePrincipal::Machineatron, RulePrincipal::Health, RulePrincipal::SiteAgent, RulePrincipal::Ssh, RulePrincipal::SshRs, RulePrincipal::Flow]));
    lemma_paired_insert(m9, "FindConnectedDevicesByDpuMachineIds"@, seq![RulePrincipal::NicoAdminCLI]);
    let m10 = m9.insert("FindConnectedDevicesByDpuMachineIds"@, expand(seq![RulePrincipal::NicoAdminCLI]));
    lemma_paired_insert(m10, "FindMachineIdsByBmcIps"@, seq![RulePrincipal::NicoAdminCLI, RulePrincipal::Flow]);
    let m11 = m10.insert("FindMachineIdsByBmcIps"@, expand(seq![RulePrincipal::NicoAdminCLI, RulePrincipal::Flow]));
    lemma_paired_insert(m11, "FindMachineHealthHistories"@, seq![RulePrincipal::NicoAdminCLI, RulePrincipal::SiteAgent]);
    let m12 = m11.insert("FindMachineHealthHistories"@, expand(seq![RulePrincipal::NicoAdminCLI, RulePrincipal::SiteAgent]));
    lemma_paired_insert(m12, "FindMachineStateHistories"@, seq![RulePrincipal::NicoAdminCLI, RulePrincipal::SiteAgent]);
    let m13 = m12.insert("FindMachineStateHistories"@, expand(seq![RulePrincipal::NicoAdminCLI, RulePrincipal::SiteAgent]));
    lemma_paired_insert(m13, "IdentifyUuid"@, seq![RulePrincipal::NicoAdminCLI]);
    let m14 = m13.insert("IdentifyUuid"@, expand(seq![RulePrincipal::NicoAdminCLI]));
    lemma_paired_insert(m14, "IdentifyMac"@, seq![RulePrincipal::NicoAdminCLI]);
    let m15 = m14.insert("IdentifyMac"@, expand(seq![RulePrincipal::NicoAdminCLI]));
    lemma_paired_insert(m15, "IdentifySerial"@, seq![RulePrincipal::NicoAdminCLI, RulePrincipal::Machineatron, RulePrincipal::Flow]);
    let m16 = m15.insert("IdentifySerial"@, expand(seq![RulePrincipal::NicoAdminCLI, RulePrincipal::Machineatron, RulePrincipal::Flow]));
    lemma_paired_insert(m16, "GetBMCMetaData"@, seq![RulePrincipal::Health, RulePrincipal::Ssh, RulePrincipal::SshRs]);
    let m17 = m16.insert("GetBMCMetaData"@, expand(seq![RulePrincipal::Health, RulePrincipal::Ssh, RulePrincipal::SshRs]));
    lemma_paired_insert(m17, "UpdateBMCMetaData"@, seq![RulePrincipal::Machineatron]);
    let m18 = m17.insert("UpdateBMCMetaData"@, expand(seq![RulePrincipal::Machineatron]));
    lemma_paired_insert(m18, "UpdateMachineCredentials"@, seq![]);
    let m19 = m18.insert("UpdateMachineCredentials"@, expand(seq![]));
    lemma_paired_insert(m19, "GetPxeInstructions"@, seq![RulePrincipal::Pxe, RulePrincipal::Machineatron]);
    let m20 = m19.insert("GetPxeInstructions"@, expand(seq![RulePrincipal::Pxe, RulePrincipal::Machineatron]));
    lemma_paired_insert(m20, "GetCloudInitInstructions"@, seq![RulePrincipal::Pxe]);
    let m21 = m20.insert("GetCloudInitInstructions"@, expand(seq![RulePrincipal::Pxe]));
    lemma_paired_insert(m21, "Echo"@, seq![RulePrincipal::Dhcp]);
    let m22 = m21.insert("Echo"@, expand(seq![RulePrincipal::Dhcp]));
    lemma_paired_insert(m22, "CreateTenant"@, seq![RulePrincipal::SiteAgent]);
    let m23 = m22.insert("CreateTenant"@, expand(seq![RulePrincipal::SiteAgent]));
    lemma_paired_insert(m23, "FindTenant"@, seq![RulePrincipal::SiteAgent, RulePrincipal::NicoAdminCLI]);
    let m24 = m23.insert("FindTenant"@, expand(seq![RulePrincipal::SiteAgent, RulePrincipal::NicoAdminCLI]));
    lemma_paired_insert(m24, "UpdateTenant"@, seq![RulePrincipal::SiteAgent, RulePrincipal::NicoAdminCLI]);
    let m25 = m24.insert("UpdateTenant"@, expand(seq![RulePrincipal::SiteAgent, RulePrincipal::NicoAdminCLI]));
    lemma_paired_insert(m25, "CreateTenantKeyset"@, seq![RulePrincipal::SiteAgent]);
    let m26 = m25.insert("CreateTenantKeyset"@, expand(seq![RulePrincipal::SiteAgent]));
    lemma_paired_insert(m26, "FindTenantKeysetIds"@, seq![RulePrincipal::NicoAdminCLI, RulePrincipal::SiteAgent]);
    let m27 = m26.insert("FindTenantKeysetIds"@, expand(seq![RulePrincipal::NicoAdminCLI, RulePrincipal::SiteAgent]));
    lemma_paired_insert(m27, "FindTenantKeysetsByIds"@, seq![RulePrincipal::NicoAdminCLI, RulePrincipal::SiteAgent]);
    let m28 = m27.insert("FindTenantKeysetsByIds"@, expand(seq![RulePrincipal::NicoAdminCLI, RulePrincipal::SiteAgent]));
    lemma_paired_insert(m28, "UpdateTenantKeyset"@, seq![RulePrincipal::SiteAgent]);
    let m29 = m28.insert("UpdateTenantKeyset"@, expand(seq![RulePrincipal::SiteAgent]));
    lemma_paired_insert(m29, "DeleteTenantKeyset"@, seq![RulePrincipal::SiteAgent]);
    let m30 = m29.insert("DeleteTenantKeyset"@, expand(seq![RulePrincipal::SiteAgent]));
    lemma_paired_insert(m30, "ValidateTenantPublicKey"@, seq![RulePrincipal::SiteAgent, RulePrincipal::Ssh, RulePrincipal::SshRs]);
    let m31 = m30.insert("ValidateTenantPublicKey"@, expand(seq![RulePrincipal::SiteAgent, RulePrincipal::Ssh, RulePrincipal::SshRs]));
    lemma_paired_insert(m31, "GetBmcCredentials"@, seq![RulePrincipal::Health, RulePrincipal::BmcProxy]);
    let m32 = m31.insert("GetBmcCredentials"@, expand(seq![RulePrincipal::Health, RulePrincipal::BmcProxy]));
    lemma_paired_insert(m32, "GetSwitchNvosCredentials"@, seq![RulePrincipal::Health]);
    let m33 = m32.insert("GetSwitchNvosCredentials"@, expand(seq![RulePrincipal::Health]));
    lemma_paired_insert(m33, "GetAllManagedHostNetworkStatus"@, seq![RulePrincipal::NicoAdminCLI]);
    let m34 = m33.insert("GetAllManagedHostNetworkStatus"@, expand(seq![RulePrincipal::NicoAdminCLI]));
    lemma_paired_insert(m34, "GetSiteExplorationReport"@, seq![RulePrincipal::NicoAdminCLI, RulePrincipal::Machineatron]);
    let m35 = m34.insert("GetSiteExplorationReport"@, expand(seq![RulePrincipal::NicoAdminCLI, RulePrincipal::Machineatron]));
    lemma_paired_insert(m35, "ClearSiteExplorationError"@, seq![RulePrincipal::NicoAdminCLI]);
    let m36 = m35.insert("ClearSiteExplorationError"@, expand(seq![RulePrincipal::NicoAdminCLI]));
    lemma_paired_insert(m36, "IsBmcInManagedHost"@, seq![RulePrincipal::NicoAdminCLI]);
    let m37 = m36.insert("IsBmcInManagedHost"@, expand(seq![RulePrincipal::NicoAdminCLI]));
    lemma_paired_insert(m37, "Explore"@, seq![RulePrincipal::NicoAdminCLI, RulePrincipal::Flow]);
    let m38 = m37.insert("Explore"@, expand(seq![RulePrincipal::NicoAdminCLI, RulePrincipal::Flow]));
    lemma_paired_insert(m38, "ReExploreEndpoint"@, seq![RulePrincipal::NicoAdminCLI, RulePrincipal::Flow]);
    let m39 = m38.insert("ReExploreEndpoint"@, expand(seq![RulePrincipal::NicoAdminCLI, RulePrincipal::Flow]));
    lemma_paired_insert(m39, "RefreshEndpointReport"@, seq![RulePrincipal::NicoAdminCLI, RulePrincipal::Flow]);
    let m40 = m39.insert("RefreshEndpointReport"@, expand(seq![RulePrincipal::NicoAdminCLI, RulePrincipal::Flow]));
}

proof fn lemma_paired_part_4(m: Map<Seq<char>, Seq<PrincipalView>>)
    requires
        renamed_paired(m),
        ssh_consoles_paired(m),
    ensures
        renamed_paired(rules_part_4(m)),
        ssh_consoles_paired(rules_part_4(m)),
{
    reveal_with_fuel(lists, 8);
    let m0 = m;
    lemma_paired_insert(m0, "DeleteExploredEndpoint"@, seq![RulePrincipal::NicoAdminCLI]);
    let m1 = m0.insert("DeleteExploredEndpoint"@, expand(seq![RulePrincipal::NicoAdminCLI]));
    lemma_paired_insert(m1, "PauseExploredEndpointRemediation"@, seq![RulePrincipal::NicoAdminCLI]);
    let m2 = m1.insert("PauseExploredEndpointRemediation"@, expand(seq![RulePrincipal::NicoAdminCLI]));
    lemma_paired_insert(m2, "FindExploredEndpointIds"@, seq![RulePrincipal::NicoAdminCLI, RulePrincipal::Flow]);
    let m3 = m2.insert("FindExploredEndpointIds"@, expand(seq![RulePrincipal::NicoAdminCLI, RulePrincipal::Flow]));
    lemma_paired_insert(m3, "FindExploredEndpointsByIds"@, seq![RulePrincipal::NicoAdminCLI, RulePrincipal::Flow]);
    let m4 = m3.insert("FindExploredEndpointsByIds"@, expand(seq![RulePrincipal::NicoAdminCLI, RulePrincipal::Flow]));
    lemma_paired_insert(m4, "FindExploredManagedHostIds"@, seq![RulePrincipal::NicoAdminCLI, RulePrincipal::Flow]);
    let m5 = m4.insert("FindExploredManagedHostIds"@, expand(seq![RulePrincipal::NicoAdminCLI, RulePrincipal::Flow]));
    lemma_paired_insert(m5, "FindExploredManagedHostsByIds"@, seq![RulePrincipal::NicoAdminCLI, RulePrincipal::Flow]);
    let m6 = m5.insert("FindExploredManagedHostsByIds"@, expand(seq![RulePrincipal::NicoAdminCLI, RulePrincipal::Flow]));
    lemma_paired_insert(m6, "AdminForceDeleteMachine"@, seq![RulePrincipal::NicoAdminCLI, RulePrincipal::Machineatron]);
    let m7 = m6.insert("AdminForceDeleteMachine"@, expand(seq![RulePrincipal::NicoAdminCLI, RulePrincipal::Machineatron]));
    lemma_paired_insert(m7, "AdminForceDeleteSwitch"@, seq![RulePrincipal::NicoAdminCLI, RulePrincipal::Machineatron]);
    let m8 = m7.insert("AdminForceDeleteSwitch"@, expand(seq![RulePrincipal::NicoAdminCLI, RulePrincipal::Machineatron]));
    lemma_paired_insert(m8, "AdminForceDeletePowerShelf"@, seq![RulePrincipal::NicoAdminCLI, RulePrincipal::Machineatron]);
    let m9 = m8.insert("AdminForceDeletePowerShelf"@, expand(seq![RulePrincipal::NicoAdminCLI, RulePrincipal::Machineatron]));
    lemma_paired_insert(m9, "AdminListResourcePools"@, seq![RulePrincipal::NicoAdminCLI]);
    let m10 = m9.insert("AdminListResourcePools"@, expand(seq![RulePrincipal::NicoAdminCLI]));
    lemma_paired_insert(m10, "AdminGrowResourcePool"@, seq![RulePrincipal::NicoAdminCLI]);
    let m11 = m10.insert("AdminGrowResourcePool"@, expand(seq![RulePrincipal::NicoAdminCLI]));
    lemma_paired_insert(m11, "SetMaintenance"@, seq![RulePrincipal::NicoAdminCLI, RulePrincipal::SiteAgent, RulePrincipal::Flow]);
    let m12 = m11.insert("SetMaintenance"@, expand(seq![RulePrincipal::NicoAdminCLI, RulePrincipal::SiteAgent, RulePrincipal::Flow]));
    lemma_paired_insert(m12, "SetDynamicConfig"@, seq![RulePrincipal::NicoAdminCLI, RulePrincipal::Machineatron]);
    let m13 = m12.insert("SetDynamicConfig"@, expand(seq![RulePrincipal::NicoAdminCLI, RulePrincipal::Machineatron]));
    lemma_paired_insert(m13, "TriggerDpuReprovisioning"@, seq![RulePrincipal::NicoAdminCLI]);
    let m14 = m13.insert("TriggerDpuReprovisioning"@, expand(seq![RulePrincipal::NicoAdminCLI]));
    lemma_paired_insert(m14, "TriggerHostReprovisioning"@, seq![RulePrincipal::NicoAdminCLI, RulePrincipal::Flow]);
    let m15 = m14.insert("TriggerHostReprovisioning"@, expand(seq![RulePrincipal::NicoAdminCLI, RulePrincipal::Flow]));
    lemma_paired_insert(m15, "ListDpuWaitingForReprovisioning"@, seq![RulePrincipal::NicoAdminCLI]);
    let m16 = m15.insert("ListDpuWaitingForReprovisioning"@, expand(seq![RulePrincipal::NicoAdminCLI]));
    lemma_paired_insert(m16, "MarkManualFirmwareUpgradeComplete"@, seq![RulePrincipal::NicoAdminCLI]);
    let m17 = m16.insert("MarkManualFirmwareUpgradeComplete"@, expand(seq![RulePrincipal::NicoAdminCLI]));
    lemma_paired_insert(m17, "ListHostsWaitingForReprovisioning"@, seq![RulePrincipal::NicoAdminCLI, RulePrincipal::Flow]);
    let m18 = m17.insert("ListHostsWaitingForReprovisioning"@, expand(seq![RulePrincipal::NicoAdminCLI, RulePrincipal::Flow]));
    lemma_paired_insert(m18, "GetDpuInfoList"@, seq![RulePrincipal::Agent]);
    let m19 = m18.insert("GetDpuInfoList"@, expand(seq![RulePrincipal::Agent]));
    lemma_paired_insert(m19, "GetMachineBootOverride"@, seq![RulePrincipal::NicoAdminCLI]);
    let m20 = m19.insert("GetMachineBootOverride"@, expand(seq![RulePrincipal::NicoAdminCLI]));
    lemma_paired_insert(m20, "SetMachineBootOverride"@, seq![RulePrincipal::NicoAdminCLI]);
    let m21 = m20.insert("SetMachineBootOverride"@, expand(seq![RulePrincipal::NicoAdminCLI]));
    lemma_paired_insert(m21, "ClearMachineBootOverride"@, seq![RulePrincipal::NicoAdminCLI]);
    let m22 = m21.insert("ClearMachineBootOverride"@, expand(seq![RulePrincipal::NicoAdminCLI]));
    lemma_paired_insert(m22, "GetNetworkTopology"@, seq![RulePrincipal::NicoAdminCLI]);
    let m23 = m22.insert("GetNetworkTopology"@, expand(seq![RulePrincipal::NicoAdminCLI]));
    lemma_paired_insert(m23, "FindNetworkDevicesByDeviceIds"@, seq![RulePrincipal::NicoAdminCLI]);
    let m24 = m23.insert("FindNetworkDevicesByDeviceIds"@, expand(seq![RulePrincipal::NicoAdminCLI]));
    lemma_paired_insert(m24, "CreateCredential"@, seq![RulePrincipal::NicoAdminCLI]);
    let m25 = m24.insert("CreateCredential"@, expand(seq![RulePrincipal::NicoAdminCLI]));
    lemma_paired_insert(m25, "DeleteCredential"@, seq![RulePrincipal::NicoAdminCLI]);
    let m26 = m25.insert("DeleteCredential"@, expand(seq![RulePrincipal::NicoAdminCLI]));
    lemma_paired_insert(m26, "GetRouteServers"@, seq![RulePrincipal::NicoAdminCLI]);
    let m27 = m26.insert("GetRouteServers"@, expand(seq![RulePrincipal::NicoAdminCLI]));
    lemma_paired_insert(m27, "AddRouteServers"@, seq![RulePrincipal::NicoAdminCLI]);
    let m28 = m27.insert("AddRouteServers"@, expand(seq![RulePrincipal::NicoAdminCLI]));
    lemma_paired_insert(m28, "RemoveRouteServers"@, seq![RulePrincipal::NicoAdminCLI]);
    let m29 = m28.insert("RemoveRouteServers"@, expand(seq![RulePrincipal::NicoAdminCLI]));
    lemma_paired_insert(m29, "ReplaceRouteServers"@, seq![]);
    let m30 = m29.insert("ReplaceRouteServers"@, expand(seq![]));
    lemma_paired_insert(m30, "UpdateAgentReportedInventory"@, seq![RulePrincipal::Agent]);
    let m31 = m30.insert("UpdateAgentReportedInventory"@, expand(seq![RulePrincipal::Agent]));
    lemma_paired_insert(m31, "UpdateInstancePhoneHomeLastContact"@, seq![RulePrincipal::Agent]);
    let m32 = m31.insert("UpdateInstancePhoneHomeLastContact"@, expand(seq![RulePrincipal::Agent]));
    lemma_paired_insert(m32, "SetHostUefiPassword"@, seq![RulePrincipal::NicoAdminCLI]);
    let m33 = m32.insert("SetHostUefiPassword"@, expand(seq![RulePrincipal::NicoAdminCLI]));
    lemma_paired_insert(m33, "ClearHostUefiPassword"@, seq![RulePrincipal::NicoAdminCLI]);
    let m34 = m33.insert("ClearHostUefiPassword"@, expand(seq![RulePrincipal::NicoAdminCLI]));
    lemma_paired_insert(m34, "AddExpectedMachine"@, seq![RulePrincipal::NicoAdminCLI, RulePrincipal::SiteAgent, RulePrincipal::Flow]);
    let m35 = m34.insert("AddExpectedMachine"@, expand(seq![RulePrincipal::NicoAdminCLI, RulePrincipal::SiteAgent, RulePrincipal::Flow]));
    lemma_paired_insert(m35, "DeleteExpectedMachine"@, seq![RulePrincipal::NicoAdminCLI, RulePrincipal::SiteAgent]);
    let m36 = m35.insert("DeleteExpectedMachine"@, expand(seq![RulePrincipal::NicoAdminCLI, RulePrincipal::SiteAgent]));
    lemma_paired_insert(m36, "UpdateExpectedMachine"@, seq![RulePrincipal::NicoAdminCLI, RulePrincipal::SiteAgent]);
    let m37 = m36.insert("UpdateExpectedMachine"@, expand(seq![RulePrincipal::NicoAdminCLI, RulePrincipal::SiteAgent]));
    lemma_paired_insert(m37, "CreateExpectedMachines"@, seq![RulePrincipal::NicoAdminCLI, RulePrincipal::SiteAgent]);
    let m38 = m37.insert("CreateExpectedMachines"@, expand(seq![RulePrincipal::NicoAdminCLI, RulePrincipal::SiteAgent]));
    lemma_paired_insert(m38, "UpdateExpectedMachines"@, seq![RulePrincipal::NicoAdminCLI, RulePrincipal::SiteAgent]);
    let m39 = m38.insert("UpdateExpectedMachines"@, expand(seq![RulePrincipal::NicoAdminCLI, RulePrincipal::SiteAgent]));
    lemma_paired_insert(m39, "GetExpectedMachine"@, seq![RulePrincipal::NicoAdminCLI, RulePrincipal::Flow]);
    let m40 = m39.insert("GetExpectedMachine"@, expand(seq![RulePrincipal::NicoAdminCLI, RulePrincipal::Flow]));
}

proof fn lemma_paired_part_5(m: Map<Seq<char>, Seq<PrincipalView>>)
    requires
        renamed_paired(m),
        ssh_consoles_paired(m),
    ensures
        renamed_paired(rules_part_5(m)),
        ssh_consoles_paired(rules_part_5(m)),
{
    reveal_with_fuel(lists, 8);
    let m0 = m;
    lemma_paired_insert(m0, "GetAllExpectedMachines"@, seq![RulePrincipal::NicoAdminCLI, RulePrincipal::SiteAgent, RulePrincipal::Flow]);
    let m1 = m0.insert("GetAllExpectedMachines"@, expand(seq![RulePrincipal::NicoAdminCLI, RulePrincipal::SiteAgent, RulePrincipal::Flow]));
    lemma_paired_insert(m1, "ReplaceAllExpectedMachines"@, seq![RulePrincipal::NicoAdminCLI]);
    let m2 = m1.insert("ReplaceAllExpectedMachines"@, expand(seq![RulePrincipal::NicoAdminCLI]));
    lemma_paired_insert(m2, "DeleteAllExpectedMachines"@, seq![RulePrincipal::NicoAdminCLI]);
    let m3 = m2.insert("DeleteAllExpectedMachines"@, expand(seq![RulePrincipal::NicoAdminCLI]));
    lemma_paired_insert(m3, "GetAllExpectedMachinesLinked"@, seq![RulePrincipal::NicoAdminCLI, RulePrincipal::SiteAgent, RulePrincipal::Flow]);
    let m4 = m3.insert("GetAllExpectedMachinesLinked"@, expand(seq![RulePrincipal::NicoAdminCLI, RulePrincipal::SiteAgent, RulePrincipal::Flow]));
    lemma_paired_insert(m4, "GetAllUnexpectedMachines"@, seq![RulePrincipal::NicoAdminCLI, RulePrincipal::SiteAgent, RulePrincipal::Flow]);
    let m5 = m4.insert("GetAllUnexpectedMachines"@, expand(seq![RulePrincipal::NicoAdminCLI, RulePrincipal::SiteAgent, RulePrincipal::Flow]));
    lemma_paired_insert(m5, "AttestQuote"@, seq![RulePrincipal::Anonymous]);
    let m6 = m5.insert("AttestQuote"@, expand(seq![RulePrincipal::Anonymous]));
    lemma_paired_insert(m6, "SignMachineIdentity"@, seq![RulePrincipal::Agent]);
    let m7 = m6.insert("SignMachineIdentity"@, expand(seq![RulePrincipal::Agent]));
    lemma_paired_insert(m7, "GetTenantIdentityConfiguration"@, seq![RulePrincipal::NicoAdminCLI, RulePrincipal::SiteAgent]);
    let m8 = m7.insert("GetTenantIdentityConfiguration"@, expand(seq![RulePrincipal::NicoAdminCLI, RulePrincipal::SiteAgent]));
    lemma_paired_insert(m8, "SetTenantIdentityConfiguration"@, seq![RulePrincipal::NicoAdminCLI, RulePrincipal::SiteAgent]);
    let m9 = m8.insert("SetTenantIdentityConfiguration"@, expand(seq![RulePrincipal::NicoAdminCLI, RulePrincipal::SiteAgent]));
    lemma_paired_insert(m9, "DeleteTenantIdentityConfiguration"@, seq![RulePrincipal::NicoAdminCLI, RulePrincipal::SiteAgent]);
    let m10 = m9.insert("DeleteTenantIdentityConfiguration"@, expand(seq![RulePrincipal::NicoAdminCLI, RulePrincipal::SiteAgent]));
    lemma_paired_insert(m10, "GetTokenDelegation"@, seq![RulePrincipal::NicoAdminCLI, RulePrincipal::SiteAgent]);
    let m11 = m10.insert("GetTokenDelegation"@, expand(seq![RulePrincipal::NicoAdminCLI, RulePrincipal::SiteAgent]));
    lemma_paired_insert(m11, "SetTokenDelegation"@, seq![RulePrincipal::NicoAdminCLI, RulePrincipal::SiteAgent]);
    let m12 = m11.insert("SetTokenDelegation"@, expand(seq![RulePrincipal::NicoAdminCLI, RulePrincipal::SiteAgent]));
    lemma_paired_insert(m12, "DeleteTokenDelegation"@, seq![RulePrincipal::NicoAdminCLI, RulePrincipal::SiteAgent]);
    let m13 = m12.insert("DeleteTokenDelegation"@, expand(seq![RulePrincipal::NicoAdminCLI, RulePrincipal::SiteAgent]));
    lemma_paired_insert(m13, "GetJWKS"@, seq![RulePrincipal::Anonymous, RulePrincipal::Agent, RulePrincipal::NicoAdminCLI, RulePrincipal::SiteAgent]);
    let m14 = m13.insert("GetJWKS"@, expand(seq![RulePrincipal::Anonymous, RulePrincipal::Agent, RulePrincipal::NicoAdminCLI, RulePrincipal::SiteAgent]));
    lemma_paired_insert(m14, "GetOpenIDConfiguration"@, seq![RulePrincipal::Anonymous, RulePrincipal::Agent, RulePrincipal::NicoAdminCLI, RulePrincipal::SiteAgent]);
    let m15 = m14.insert("GetOpenIDConfiguration"@, expand(seq![RulePrincipal::Anonymous, RulePrincipal::Agent, RulePrincipal::NicoAdminCLI, RulePrincipal::SiteAgent]));
    lemma_paired_insert(m15, "CreateMeasurementBundle"@, seq![RulePrincipal::NicoAdminCLI, RulePrincipal::SiteAgent]);
    let m16 = m15.insert("CreateMeasurementBundle"@, expand(seq![RulePrincipal::NicoAdminCLI, RulePrincipal::SiteAgent]));
    lemma_paired_insert(m16, "DeleteMeasurementBundle"@, seq![RulePrincipal::NicoAdminCLI, RulePrincipal::SiteAgent]);
    let m17 = m16.insert("DeleteMeasurementBundle"@, expand(seq![RulePrincipal::NicoAdminCLI, RulePrincipal::SiteAgent]));
    lemma_paired_insert(m17, "RenameMeasurementBundle"@, seq![RulePrincipal::NicoAdminCLI, RulePrincipal::SiteAgent]);
    let m18 = m17.insert("RenameMeasurementBundle"@, expand(seq![RulePrincipal::NicoAdminCLI, RulePrincipal::SiteAgent]));
    lemma_paired_insert(m18, "UpdateMeasurementBundle"@, seq![RulePrincipal::NicoAdminCLI, RulePrincipal::SiteAgent]);
    let m19 = m18.insert("UpdateMeasurementBundle"@, expand(seq![RulePrincipal::NicoAdminCLI, RulePrincipal::SiteAgent]));
    lemma_paired_insert(m19, "ShowMeasurementBundle"@, seq![RulePrincipal::NicoAdminCLI]);
    let m20 = m19.insert("ShowMeasurementBundle"@, expand(seq![RulePrincipal::NicoAdminCLI]));
    lemma_paired_insert(m20, "ShowMeasurementBundles"@, seq![RulePrincipal::NicoAdminCLI]);
    let m21 = m20.insert("ShowMeasurementBundles"@, expand(seq![RulePrincipal::NicoAdminCLI]));
    lemma_paired_insert(m21, "ListMeasurementBundles"@, seq![RulePrincipal::NicoAdminCLI]);
    let m22 = m21.insert("ListMeasurementBundles"@, expand(seq![RulePrincipal::NicoAdminCLI]));
    lemma_paired_insert(m22, "ListMeasurementBundleMachines"@, seq![RulePrincipal::NicoAdminCLI]);
    let m23 = m22.insert("ListMeasurementBundleMachines"@, expand(seq![RulePrincipal::NicoAdminCLI]));
    lemma_paired_insert(m23, "FindClosestBundleMatch"@, seq![RulePrincipal::NicoAdminCLI]);
    let m24 = m23.insert("FindClosestBundleMatch"@, expand(seq![RulePrincipal::NicoAdminCLI]));
    lemma_paired_insert(m24, "DeleteMeasurementJournal"@, seq![RulePrincipal::NicoAdminCLI]);
    let m25 = m24.insert("DeleteMeasurementJournal"@, expand(seq![RulePrincipal::NicoAdminCLI]));
    lemma_paired_insert(m25, "ShowMeasurementJournal"@, seq![RulePrincipal::NicoAdminCLI]);
    let m26 = m25.insert("ShowMeasurementJournal"@, expand(seq![RulePrincipal::NicoAdminCLI]));
    lemma_paired_insert(m26, "ShowMeasurementJournals"@, seq![RulePrincipal::NicoAdminCLI]);
    let m27 = m26.insert("ShowMeasurementJournals"@, expand(seq![RulePrincipal::NicoAdminCLI]));
    lemma_paired_insert(m27, "ListMeasurementJournal"@, seq![RulePrincipal::NicoAdminCLI]);
    let m28 = m27.insert("ListMeasurementJournal"@, expand(seq![RulePrincipal::NicoAdminCLI]));
    lemma_paired_insert(m28, "AttestCandidateMachine"@, seq![RulePrincipal::NicoAdminCLI]);
    let m29 = m28.insert("AttestCandidateMachine"@, expand(seq![RulePrincipal::NicoAdminCLI]));
    lemma_paired_insert(m29, "ShowCandidateMachine"@, seq![RulePrincipal::NicoAdminCLI]);
    let m30 = m29.insert("ShowCandidateMachine"@, expand(seq![RulePrincipal::NicoAdminCLI]));
    lemma_paired_insert(m30, "ShowCandidateMachines"@, seq![RulePrincipal::NicoAdminCLI]);
    let m31 = m30.insert("ShowCandidateMachines"@, expand(seq![RulePrincipal::NicoAdminCLI]));
    lemma_paired_insert(m31, "ListCandidateMachines"@, seq![RulePrincipal::NicoAdminCLI]);
    let m32 = m31.insert("ListCandidateMachines"@, expand(seq![RulePrincipal::NicoAdminCLI]));
    lemma_paired_insert(m32, "CreateMeasurementSystemProfile"@, seq![RulePrincipal::NicoAdminCLI, RulePrincipal::SiteAgent]);
    let m33 = m32.insert("CreateMeasurementSystemProfile"@, expand(seq![RulePrincipal::NicoAdminCLI, RulePrincipal::SiteAgent]));
    lemma_paired_insert(m33, "DeleteMeasurementSystemProfile"@, seq![RulePrincipal::NicoAdminCLI, RulePrincipal::SiteAgent]);
    let m34 = m33.insert("DeleteMeasurementSystemProfile"@, expand(seq![RulePrincipal::NicoAdminCLI, RulePrincipal::SiteAgent]));
    lemma_paired_insert(m34, "RenameMeasurementSystemProfile"@, seq![RulePrincipal::NicoAdminCLI, RulePrincipal::SiteAgent]);
    let m35 = m34.insert("RenameMeasurementSystemProfile"@, expand(seq![RulePrincipal::NicoAdminCLI, RulePrincipal::SiteAgent]));
    lemma_paired_insert(m35, "ShowMeasurementSystemProfile"@, seq![RulePrincipal::NicoAdminCLI]);
    let m36 = m35.insert("ShowMeasurementSystemProfile"@, expand(seq![RulePrincipal::NicoAdminCLI]));
    lemma_paired_insert(m36, "ShowMeasurementSystemProfiles"@, seq![RulePrincipal::NicoAdminCLI]);
    let m37 = m36.insert("ShowMeasurementSystemProfiles"@, expand(seq![RulePrincipal::NicoAdminCLI]));
    lemma_paired_insert(m37, "ListMeasurementSystemProfiles"@, seq![RulePrincipal::NicoAdminCLI]);
    let m38 = m37.insert("ListMeasurementSystemProfiles"@, expand(seq![RulePrincipal::NicoAdminCLI]));
    lemma_paired_insert(m38, "ListMeasurementSystemProfileBundles"@, seq![RulePrincipal::NicoAdminCLI]);
    let m39 = m38.insert("ListMeasurementSystemProfileBundles"@, expand(seq![RulePrincipal::NicoAdminCLI]));
    lemma_paired_insert(m39, "ListMeasurementSystemProfileMachines"@, seq![RulePrincipal::NicoAdminCLI]);
    let m40 = m39.insert("ListMeasurementSystemProfileMachines"@, expand(seq![RulePrincipal::NicoAdminCLI]));
}

proof fn lemma_paired_part_6(m: Map<Seq<char>, Seq<PrincipalView>>)
    requires
        renamed_paired(m),
        ssh_consoles_paired(m),
    ensures
        renamed_paired(rules_part_6(m)),
        ssh_consoles_paired(rules_part_6(m)),
{
    reveal_with_fuel(lists, 8);
    let m0 = m;
    lemma_paired_insert(m0, "CreateMeasurementReport"@, seq![RulePrincipal::NicoAdminCLI, RulePrincipal::SiteAgent]);
    let m1 = m0.insert("CreateMeasurementReport"@, expand(seq![RulePrincipal::NicoAdminCLI, RulePrincipal::SiteAgent]));
    lemma_paired_insert(m1, "DeleteMeasurementReport"@, seq![RulePrincipal::NicoAdminCLI, RulePrincipal::SiteAgent]);
    let m2 = m1.insert("DeleteMeasurementReport"@, expand(seq![RulePrincipal::NicoAdminCLI, RulePrincipal::SiteAgent]));
    lemma_paired_insert(m2, "PromoteMeasurementReport"@, seq![RulePrincipal::NicoAdminCLI, RulePrincipal::SiteAgent]);
    let m3 = m2.insert("PromoteMeasurementReport"@, expand(seq![RulePrincipal::NicoAdminCLI, RulePrincipal::SiteAgent]));
    lemma_paired_insert(m3, "RevokeMeasurementReport"@, seq![RulePrincipal::NicoAdminCLI, RulePrincipal::SiteAgent]);
    let m4 = m3.insert("RevokeMeasurementReport"@, expand(seq![RulePrincipal::NicoAdminCLI, RulePrincipal::SiteAgent]));
    lemma_paired_insert(m4, "ShowMeasurementReportForId"@, seq![RulePrincipal::NicoAdminCLI]);
    let m5 = m4.insert("ShowMeasurementReportForId"@, expand(seq![RulePrincipal::NicoAdminCLI]));
    lemma_paired_insert(m5, "ShowMeasurementReportsForMachine"@, seq![RulePrincipal::NicoAdminCLI]);
    let m6 = m5.insert("ShowMeasurementReportsForMachine"@, expand(seq![RulePrincipal::NicoAdminCLI]));
    lemma_paired_insert(m6, "ShowMeasurementReports"@, seq![RulePrincipal::NicoAdminCLI]);
    let m7 = m6.insert("ShowMeasurementReports"@, expand(seq![RulePrincipal::NicoAdminCLI]));
    lemma_paired_insert(m7, "ListMeasurementReport"@, seq![RulePrincipal::NicoAdminCLI]);
    let m8 = m7.insert("ListMeasurementReport"@, expand(seq![RulePrincipal::NicoAdminCLI]));
    lemma_paired_insert(m8, "MatchMeasurementReport"@, seq![RulePrincipal::NicoAdminCLI]);
    let m9 = m8.insert("MatchMeasurementReport"@, expand(seq![RulePrincipal::NicoAdminCLI]));
    lemma_paired_insert(m9, "ImportSiteMeasurements"@, seq![RulePrincipal::NicoAdminCLI, RulePrincipal::SiteAgent]);
    let m10 = m9.insert("ImportSiteMeasurements"@, expand(seq![RulePrincipal::NicoAdminCLI, RulePrincipal::SiteAgent]));
    lemma_paired_insert(m10, "ExportSiteMeasurements"@, seq![RulePrincipal::NicoAdminCLI, RulePrincipal::SiteAgent]);
    let m11 = m10.insert("ExportSiteMeasurements"@, expand(seq![RulePrincipal::NicoAdminCLI, RulePrincipal::SiteAgent]));
    lemma_paired_insert(m11, "AddMeasurementTrustedMachine"@, seq![RulePrincipal::NicoAdminCLI, RulePrincipal::SiteAgent]);
    let m12 = m11.insert("AddMeasurementTrustedMachine"@, expand(seq![RulePrincipal::NicoAdminCLI, RulePrincipal::SiteAgent]));
    lemma_paired_insert(m12, "RemoveMeasurementTrustedMachine"@, seq![RulePrincipal::NicoAdminCLI, RulePrincipal::SiteAgent]);
    let m13 = m12.insert("RemoveMeasurementTrustedMachine"@, expand(seq![RulePrincipal::NicoAdminCLI, RulePrincipal::SiteAgent]));
    lemma_paired_insert(m13, "AddMeasurementTrustedProfile"@, seq![RulePrincipal::NicoAdminCLI, RulePrincipal::SiteAgent]);
    let m14 = m13.insert("AddMeasurementTrustedProfile"@, expand(seq![RulePrincipal::NicoAdminCLI, RulePrincipal::SiteAgent]));
    lemma_paired_insert(m14, "RemoveMeasurementTrustedProfile"@, seq![RulePrincipal::NicoAdminCLI, RulePrincipal::SiteAgent]);
    let m15 = m14.insert("RemoveMeasurementTrustedProfile"@, expand(seq![RulePrincipal::NicoAdminCLI, RulePrincipal::SiteAgent]));
    lemma_paired_insert(m15, "ListMeasurementTrustedMachines"@, seq![RulePrincipal::NicoAdminCLI, RulePrincipal::SiteAgent]);
    let m16 = m15.insert("ListMeasurementTrustedMachines"@, expand(seq![RulePrincipal::NicoAdminCLI, RulePrincipal::SiteAgent]));
    lemma_paired_insert(m16, "ListMeasurementTrustedProfiles"@, seq![RulePrincipal::NicoAdminCLI, RulePrincipal::SiteAgent]);
    let m17 = m16.insert("ListMeasurementTrustedProfiles"@, expand(seq![RulePrincipal::NicoAdminCLI, RulePrincipal::SiteAgent]));
    lemma_paired_insert(m17, "ListAttestationSummary"@, seq![RulePrincipal::SiteAgent]);
    let m18 = m17.insert("ListAttestationSummary"@, expand(seq![RulePrincipal::SiteAgent]));
    lemma_paired_insert(m18, "ImportStorageCluster"@, seq![RulePrincipal::NicoAdminCLI, RulePrincipal::SiteAgent]);
    let m19 = m18.insert("ImportStorageCluster"@, expand(seq![RulePrincipal::NicoAdminCLI, RulePrincipal::SiteAgent]));
    lemma_paired_insert(m19, "DeleteStorageCluster"@, seq![RulePrincipal::NicoAdminCLI, RulePrincipal::SiteAgent]);
    let m20 = m19.insert("DeleteStorageCluster"@, expand(seq![RulePrincipal::NicoAdminCLI, RulePrincipal::SiteAgent]));
    lemma_paired_insert(m20, "ListStorageCluster"@, seq![RulePrincipal::NicoAdminCLI, RulePrincipal::SiteAgent]);
    let m21 = m20.insert("ListStorageCluster"@, expand(seq![RulePrincipal::NicoAdminCLI, RulePrincipal::SiteAgent]));
    lemma_paired_insert(m21, "GetStorageCluster"@, seq![RulePrincipal::NicoAdminCLI, RulePrincipal::SiteAgent]);
    let m22 = m21.insert("GetStorageCluster"@, expand(seq![RulePrincipal::NicoAdminCLI, RulePrincipal::SiteAgent]));
    lemma_paired_insert(m22, "UpdateStorageCluster"@, seq![RulePrincipal::NicoAdminCLI, RulePrincipal::SiteAgent]);
    let m23 = m22.insert("UpdateStorageCluster"@, expand(seq![RulePrincipal::NicoAdminCLI, RulePrincipal::SiteAgent]));
    lemma_paired_insert(m23, "CreateStoragePool"@, seq![RulePrincipal::NicoAdminCLI, RulePrincipal::SiteAgent]);
    let m24 = m23.insert("CreateStoragePool"@, expand(seq![RulePrincipal::NicoAdminCLI, RulePrincipal::SiteAgent]));
    lemma_paired_insert(m24, "DeleteStoragePool"@, seq![RulePrincipal::NicoAdminCLI, RulePrincipal::SiteAgent]);
    let m25 = m24.insert("DeleteStoragePool"@, expand(seq![RulePrincipal::NicoAdminCLI, RulePrincipal::SiteAgent]));
    lemma_paired_insert(m25, "ListStoragePool"@, seq![RulePrincipal::NicoAdminCLI, RulePrincipal::SiteAgent]);
    let m26 = m25.insert("ListStoragePool"@, expand(seq![RulePrincipal::NicoAdminCLI, RulePrincipal::SiteAgent]));
    lemma_paired_insert(m26, "GetStoragePool"@, seq![RulePrincipal::NicoAdminCLI, RulePrincipal::SiteAgent]);
    let m27 = m26.insert("GetStoragePool"@, expand(seq![RulePrincipal::NicoAdminCLI, RulePrincipal::SiteAgent]));
    lemma_paired_insert(m27, "UpdateStoragePool"@, seq![RulePrincipal::NicoAdminCLI, RulePrincipal::SiteAgent]);
    let m28 = m27.insert("UpdateStoragePool"@, expand(seq![RulePrincipal::NicoAdminCLI, RulePrincipal::SiteAgent]));
    lemma_paired_insert(m28, "CreateStorageVolume"@, seq![RulePrincipal::NicoAdminCLI, RulePrincipal::SiteAgent]);
    let m29 = m28.insert("CreateStorageVolume"@, expand(seq![RulePrincipal::NicoAdminCLI, RulePrincipal::SiteAgent]));
    lemma_paired_insert(m29, "DeleteStorageVolume"@, seq![RulePrincipal::NicoAdminCLI, RulePrincipal::SiteAgent]);
    let m30 = m29.insert("DeleteStorageVolume"@, expand(seq![RulePrincipal::NicoAdminCLI, RulePrincipal::SiteAgent]));
    lemma_paired_insert(m30, "ListStorageVolume"@, seq![RulePrincipal::NicoAdminCLI, RulePrincipal::SiteAgent]);
    let m31 = m30.insert("ListStorageVolume"@, expand(seq![RulePrincipal::NicoAdminCLI, RulePrincipal::SiteAgent]));
    lemma_paired_insert(m31, "GetStorageVolume"@, seq![RulePrincipal::NicoAdminCLI, RulePrincipal::SiteAgent]);
    let m32 = m31.insert("GetStorageVolume"@, expand(seq![RulePrincipal::NicoAdminCLI, RulePrincipal::SiteAgent]));
    lemma_paired_insert(m32, "UpdateStorageVolume"@, seq![RulePrincipal::NicoAdminCLI, RulePrincipal::SiteAgent]);
    let m33 = m32.insert("UpdateStorageVolume"@, expand(seq![RulePrincipal::NicoAdminCLI, RulePrincipal::SiteAgent]));
    lemma_paired_insert(m33, "CreateOsImage"@, seq![RulePrincipal::NicoAdminCLI, RulePrincipal::SiteAgent]);
    let m34 = m33.insert("CreateOsImage"@, expand(seq![RulePrincipal::NicoAdminCLI, RulePrincipal::SiteAgent]));
    lemma_paired_insert(m34, "DeleteOsImage"@, seq![RulePrincipal::NicoAdminCLI, RulePrincipal::SiteAgent]);
    let m35 = m34.insert("DeleteOsImage"@, expand(seq![RulePrincipal::NicoAdminCLI, RulePrincipal::SiteAgent]));
    lemma_paired_insert(m35, "ListOsImage"@, seq![RulePrincipal::NicoAdminCLI, RulePrincipal::SiteAgent]);
    let m36 = m35.insert("ListOsImage"@, expand(seq![RulePrincipal::NicoAdminCLI, RulePrincipal::SiteAgent]));
    lemma_paired_insert(m36, "GetOsImage"@, seq![RulePrincipal::NicoAdminCLI, RulePrincipal::SiteAgent]);
    let m37 = m36.insert("GetOsImage"@, expand(seq![RulePrincipal::NicoAdminCLI, RulePrincipal::SiteAgent]));
    lemma_paired_insert(m37, "UpdateOsImage"@, seq![RulePrincipal::NicoAdminCLI, RulePrincipal::SiteAgent]);
    let m38 = m37.insert("UpdateOsImage"@, expand(seq![RulePrincipal::NicoAdminCLI, RulePrincipal::SiteAgent]));
    lemma_paired_insert(m38, "CreateOperatingSystem"@, seq![RulePrincipal::NicoAdminCLI, RulePrincipal::SiteAgent]);
    let m39 = m38.insert("CreateOperatingSystem"@, expand(seq![RulePrincipal::NicoAdminCLI, RulePrincipal::SiteAgent]));
    lemma_paired_insert(m39, "GetOperatingSystem"@, seq![RulePrincipal::NicoAdminCLI, RulePrincipal::SiteAgent]);
    let m40 = m39.insert("GetOperatingSystem"@, expand(seq![RulePrincipal::NicoAdminCLI, RulePrincipal::SiteAgent]));
}

proof fn lemma_paired_part_7(m: Map<Seq<char>, Seq<PrincipalView>>)
    requires
        renamed_paired(m),
        ssh_consoles_paired(m),
    ensures
        renamed_paired(rules_part_7(m)),
        ssh_consoles_paired(rules_part_7(m)),
{
    reveal_with_fuel(lists, 8);
    let m0 = m;
    lemma_paired_insert(m0, "UpdateOperatingSystem"@, seq![RulePrincipal::NicoAdminCLI, RulePrincipal::SiteAgent]);
    let m1 = m0.insert("UpdateOperatingSystem"@, expand(seq![RulePrincipal::NicoAdminCLI, RulePrincipal::SiteAgent]));
    lemma_paired_insert(m1, "DeleteOperatingSystem"@, seq![RulePrincipal::NicoAdminCLI, RulePrincipal::SiteAgent]);
    let m2 = m1.insert("DeleteOperatingSystem"@, expand(seq![RulePrincipal::NicoAdminCLI, RulePrincipal::SiteAgent]));
    lemma_paired_insert(m2, "FindOperatingSystemIds"@, seq![RulePrincipal::NicoAdminCLI, RulePrincipal::SiteAgent]);
    let m3 = m2.insert("FindOperatingSystemIds"@, expand(seq![RulePrincipal::NicoAdminCLI, RulePrincipal::SiteAgent]));
    lemma_paired_insert(m3, "FindOperatingSystemsByIds"@, seq![RulePrincipal::NicoAdminCLI, RulePrincipal::SiteAgent]);
    let m4 = m3.insert("FindOperatingSystemsByIds"@, expand(seq![RulePrincipal::NicoAdminCLI, RulePrincipal::SiteAgent]));
    lemma_paired_insert(m4, "GetOperatingSystemCachableIpxeTemplateArtifacts"@, seq![RulePrincipal::NicoAdminCLI]);
    let m5 = m4.insert("GetOperatingSystemCachableIpxeTemplateArtifacts"@, expand(seq![RulePrincipal::NicoAdminCLI]));
    lemma_paired_insert(m5, "UpdateOperatingSystemCachableIpxeTemplateArtifacts"@, seq![RulePrincipal::NicoAdminCLI]);
    let m6 = m5.insert("UpdateOperatingSystemCachableIpxeTemplateArtifacts"@, expand(seq![RulePrincipal::NicoAdminCLI]));
    lemma_paired_insert(m6, "GetIpxeTemplate"@, seq![RulePrincipal::NicoAdminCLI, RulePrincipal::SiteAgent]);
    let m7 = m6.insert("GetIpxeTemplate"@, expand(seq![RulePrincipal::NicoAdminCLI, RulePrincipal::SiteAgent]));
    lemma_paired_insert(m7, "ListIpxeTemplates"@, seq![RulePrincipal::NicoAdminCLI, RulePrincipal::SiteAgent]);
    let m8 = m7.insert("ListIpxeTemplates"@, expand(seq![RulePrincipal::NicoAdminCLI, RulePrincipal::SiteAgent]));
    lemma_paired_insert(m8, "FindRackStateHistories"@, seq![RulePrincipal::NicoAdminCLI, RulePrincipal::Machineatron]);
    let m9 = m8.insert("FindRackStateHistories"@, expand(seq![RulePrincipal::NicoAdminCLI, RulePrincipal::Machineatron]));
    lemma_paired_insert(m9, "RebootCompleted"@, seq![RulePrincipal::Machineatron, RulePrincipal::Scout]);
    let m10 = m9.insert("RebootCompleted"@, expand(seq![RulePrincipal::Machineatron, RulePrincipal::Scout]));
    lemma_paired_insert(m10, "PersistValidationResult"@, seq![RulePrincipal::Scout, RulePrincipal::SiteAgent]);
    let m11 = m10.insert("PersistValidationResult"@, expand(seq![RulePrincipal::Scout, RulePrincipal::SiteAgent]));
    lemma_paired_insert(m11, "GetMachineValidationResults"@, seq![RulePrincipal::NicoAdminCLI, RulePrincipal::Scout, RulePrincipal::SiteAgent]);
    let m12 = m11.insert("GetMachineValidationResults"@, expand(seq![RulePrincipal::NicoAdminCLI, RulePrincipal::Scout, RulePrincipal::SiteAgent]));
    lemma_paired_insert(m12, "MachineValidationCompleted"@, seq![RulePrincipal::Machineatron, RulePrincipal::Scout]);
    let m13 = m12.insert("MachineValidationCompleted"@, expand(seq![RulePrincipal::Machineatron, RulePrincipal::Scout]));
    lemma_paired_insert(m13, "MachineSetAutoUpdate"@, seq![RulePrincipal::NicoAdminCLI, RulePrincipal::Flow]);
    let m14 = m13.insert("MachineSetAutoUpdate"@, expand(seq![RulePrincipal::NicoAdminCLI, RulePrincipal::Flow]));
    lemma_paired_insert(m14, "GetMachineValidationExternalConfig"@, seq![RulePrincipal::NicoAdminCLI, RulePrincipal::Scout]);
    let m15 = m14.insert("GetMachineValidationExternalConfig"@, expand(seq![RulePrincipal::NicoAdminCLI, RulePrincipal::Scout]));
    lemma_paired_insert(m15, "AddUpdateMachineValidationExternalConfig"@, seq![RulePrincipal::NicoAdminCLI, RulePrincipal::SiteAgent]);
    let m16 = m15.insert("AddUpdateMachineValidationExternalConfig"@, expand(seq![RulePrincipal::NicoAdminCLI, RulePrincipal::SiteAgent]));
    lemma_paired_insert(m16, "GetMachineValidationRuns"@, seq![RulePrincipal::NicoAdminCLI, RulePrincipal::SiteAgent]);
    let m17 = m16.insert("GetMachineValidationRuns"@, expand(seq![RulePrincipal::NicoAdminCLI, RulePrincipal::SiteAgent]));
    lemma_paired_insert(m17, "AdminBmcReset"@, seq![RulePrincipal::NicoAdminCLI]);
    let m18 = m17.insert("AdminBmcReset"@, expand(seq![RulePrincipal::NicoAdminCLI]));
    lemma_paired_insert(m18, "AdminPowerControl"@, seq![RulePrincipal::NicoAdminCLI, RulePrincipal::Flow]);
    let m19 = m18.insert("AdminPowerControl"@, expand(seq![RulePrincipal::NicoAdminCLI, RulePrincipal::Flow]));
    lemma_paired_insert(m19, "DisableSecureBoot"@, seq![RulePrincipal::NicoAdminCLI]);
    let m20 = m19.insert("DisableSecureBoot"@, expand(seq![RulePrincipal::NicoAdminCLI]));
    lemma_paired_insert(m20, "MachineSetup"@, seq![RulePrincipal::NicoAdminCLI]);
    let m21 = m20.insert("MachineSetup"@, expand(seq![RulePrincipal::NicoAdminCLI]));
    lemma_paired_insert(m21, "SetDpuFirstBootOrder"@, seq![RulePrincipal::NicoAdminCLI]);
    let m22 = m21.insert("SetDpuFirstBootOrder"@, expand(seq![RulePrincipal::NicoAdminCLI]));
    lemma_paired_insert(m22, "OnDemandMachineValidation"@, seq![RulePrincipal::NicoAdminCLI]);
    let m23 = m22.insert("OnDemandMachineValidation"@, expand(seq![RulePrincipal::NicoAdminCLI]));
    lemma_paired_insert(m23, "OnDemandRackMaintenance"@, seq![RulePrincipal::NicoAdminCLI]);
    let m24 = m23.insert("OnDemandRackMaintenance"@, expand(seq![RulePrincipal::NicoAdminCLI]));
    lemma_paired_insert(m24, "TpmAddCaCert"@, seq![RulePrincipal::NicoAdminCLI, RulePrincipal::SiteAgent]);
    let m25 = m24.insert("TpmAddCaCert"@, expand(seq![RulePrincipal::NicoAdminCLI, RulePrincipal::SiteAgent]));
    lemma_paired_insert(m25, "TpmShowCaCerts"@, seq![RulePrincipal::NicoAdminCLI, RulePrincipal::SiteAgent]);
    let m26 = m25.insert("TpmShowCaCerts"@, expand(seq![RulePrincipal::NicoAdminCLI, RulePrincipal::SiteAgent]));
    lemma_paired_insert(m26, "TpmShowUnmatchedEkCerts"@, seq![RulePrincipal::NicoAdminCLI, RulePrincipal::SiteAgent]);
    let m27 = m26.insert("TpmShowUnmatchedEkCerts"@, expand(seq![RulePrincipal::NicoAdminCLI, RulePrincipal::SiteAgent]));
    lemma_paired_insert(m27, "TpmDeleteCaCert"@, seq![RulePrincipal::NicoAdminCLI, RulePrincipal::SiteAgent]);
    let m28 = m27.insert("TpmDeleteCaCert"@, expand(seq![RulePrincipal::NicoAdminCLI, RulePrincipal::SiteAgent]));
    lemma_paired_insert(m28, "RedfishListActions"@, seq![RulePrincipal::NicoAdminCLI]);
    let m29 = m28.insert("RedfishListActions"@, expand(seq![RulePrincipal::NicoAdminCLI]));
    lemma_paired_insert(m29, "RedfishCreateAction"@, seq![RulePrincipal::NicoAdminCLI]);
    let m30 = m29.insert("RedfishCreateAction"@, expand(seq![RulePrincipal::NicoAdminCLI]));
    lemma_paired_insert(m30, "RedfishApproveAction"@, seq![RulePrincipal::NicoAdminCLI]);
    let m31 = m30.insert("RedfishApproveAction"@, expand(seq![RulePrincipal::NicoAdminCLI]));
    lemma_paired_insert(m31, "RedfishApplyAction"@, seq![RulePrincipal::NicoAdminCLI]);
    let m32 = m31.insert("RedfishApplyAction"@, expand(seq![RulePrincipal::NicoAdminCLI]));
    lemma_paired_insert(m32, "RedfishCancelAction"@, seq![RulePrincipal::NicoAdminCLI]);
    let m33 = m32.insert("RedfishCancelAction"@, expand(seq![RulePrincipal::NicoAdminCLI]));
    lemma_paired_insert(m33, "FindTenantOrganizationIds"@, seq![RulePrincipal::SiteAgent, RulePrincipal::NicoAdminCLI]);
    let m34 = m33.insert("FindTenantOrganizationIds"@, expand(seq![RulePrincipal::SiteAgent, RulePrincipal::NicoAdminCLI]));
    lemma_paired_insert(m34, "FindTenantsByOrganizationIds"@, seq![RulePrincipal::SiteAgent, RulePrincipal::NicoAdminCLI]);
    let m35 = m34.insert("FindTenantsByOrganizationIds"@, expand(seq![RulePrincipal::SiteAgent, RulePrincipal::NicoAdminCLI]));
    lemma_paired_insert(m35, "FindMacAddressByBmcIp"@, seq![RulePrincipal::SiteAgent, RulePrincipal::BmcProxy]);
    let m36 = m35.insert("FindMacAddressByBmcIp"@, expand(seq![RulePrincipal::SiteAgent, RulePrincipal::BmcProxy]));
    lemma_paired_insert(m36, "FindBmcIps"@, seq![RulePrincipal::NicoAdminCLI, RulePrincipal::BmcProxy]);
    let m37 = m36.insert("FindBmcIps"@, expand(seq![RulePrincipal::NicoAdminCLI, RulePrincipal::BmcProxy]));
    lemma_paired_insert(m37, "BmcCredentialStatus"@, seq![RulePrincipal::NicoAdminCLI, RulePrincipal::SiteAgent]);
    let m38 = m37.insert("BmcCredentialStatus"@, expand(seq![RulePrincipal::NicoAdminCLI, RulePrincipal::SiteAgent]));
    lemma_paired_insert(m38, "GetMachineValidationExternalConfigs"@, seq![RulePrincipal::NicoAdminCLI, RulePrincipal::Scout, RulePrincipal::SiteAgent]);
    let m39 = m38.insert("GetMachineValidationExternalConfigs"@, expand(seq![RulePrincipal::NicoAdminCLI, RulePrincipal::Scout, RulePrincipal::SiteAgent]));
    lemma_paired_insert(m39, "RemoveMachineValidationExternalConfig"@, seq![RulePrincipal::NicoAdminCLI, RulePrincipal::Scout, RulePrincipal::SiteAgent]);
    let m40 = m39.insert("RemoveMachineValidationExternalConfig"@, expand(seq![RulePrincipal::NicoAdminCLI, RulePrincipal::Scout, RulePrincipal::SiteAgent]));
}

proof fn lemma_paired_part_8(m: Map<Seq<char>, Seq<PrincipalView>>)
    requires
        renamed_paired(m),
        ssh_consoles_paired(m),
    ensures
        renamed_paired(rules_part_8(m)),
        ssh_consoles_paired(rules_part_8(m)),
{
    reveal_with_fuel(lists, 8);
    let m0 = m;
    lemma_paired_insert(m0, "GetMachineValidationTests"@, seq![RulePrincipal::NicoAdminCLI, RulePrincipal::SiteAgent, RulePrincipal::Agent, RulePrincipal::Scout]);
    let m1 = m0.insert("GetMachineValidationTests"@, expand(seq![RulePrincipal::NicoAdminCLI, RulePrincipal::SiteAgent, RulePrincipal::Agent, RulePrincipal::Scout]));
    lemma_paired_insert(m1, "AddMachineValidationTest"@, seq![RulePrincipal::NicoAdminCLI, RulePrincipal::SiteAgent]);
    let m2 = m1.insert("AddMachineValidationTest"@, expand(seq![RulePrincipal::NicoAdminCLI, RulePrincipal::SiteAgent]));
    lemma_paired_insert(m2, "UpdateMachineValidationTest"@, seq![RulePrincipal::NicoAdminCLI, RulePrincipal::SiteAgent]);
    let m3 = m2.insert("UpdateMachineValidationTest"@, expand(seq![RulePrincipal::NicoAdminCLI, RulePrincipal::SiteAgent]));
    lemma_paired_insert(m3, "MachineValidationTestVerfied"@, seq![RulePrincipal::NicoAdminCLI, RulePrincipal::Scout, RulePrincipal::SiteAgent]);
    let m4 = m3.insert("MachineValidationTestVerfied"@, expand(seq![RulePrincipal::NicoAdminCLI, RulePrincipal::Scout, RulePrincipal::SiteAgent]));
    lemma_paired_insert(m4, "MachineValidationTestNextVersion"@, seq![RulePrincipal::NicoAdminCLI, RulePrincipal::SiteAgent]);
    let m5 = m4.insert("MachineValidationTestNextVersion"@, expand(seq![RulePrincipal::NicoAdminCLI, RulePrincipal::SiteAgent]));
    lemma_paired_insert(m5, "MachineValidationTestEnableDisableTest"@, seq![RulePrincipal::NicoAdminCLI, RulePrincipal::SiteAgent, RulePrincipal::Scout]);
    let m6 = m5.insert("MachineValidationTestEnableDisableTest"@, expand(seq![RulePrincipal::NicoAdminCLI, RulePrincipal::SiteAgent, RulePrincipal::Scout]));
    lemma_paired_insert(m6, "UpdateMachineValidationRun"@, seq![RulePrincipal::Scout, RulePrincipal::SiteAgent]);
    let m7 = m6.insert("UpdateMachineValidationRun"@, expand(seq![RulePrincipal::Scout, RulePrincipal::SiteAgent]));
    lemma_paired_insert(m7, "FindInstanceTypeIds"@, seq![RulePrincipal::SiteAgent, RulePrincipal::NicoAdminCLI]);
    let m8 = m7.insert("FindInstanceTypeIds"@, expand(seq![RulePrincipal::SiteAgent, RulePrincipal::NicoAdminCLI]));
    lemma_paired_insert(m8, "FindInstanceTypesByIds"@, seq![RulePrincipal::NicoAdminCLI, RulePrincipal::SiteAgent]);
    let m9 = m8.insert("FindInstanceTypesByIds"@, expand(seq![RulePrincipal::NicoAdminCLI, RulePrincipal::SiteAgent]));
    lemma_paired_insert(m9, "CreateInstanceType"@, seq![RulePrincipal::NicoAdminCLI, RulePrincipal::SiteAgent]);
    let m10 = m9.insert("CreateInstanceType"@, expand(seq![RulePrincipal::NicoAdminCLI, RulePrincipal::SiteAgent]));
    lemma_paired_insert(m10, "UpdateInstanceType"@, seq![RulePrincipal::NicoAdminCLI, RulePrincipal::SiteAgent]);
    let m11 = m10.insert("UpdateInstanceType"@, expand(seq![RulePrincipal::NicoAdminCLI, RulePrincipal::SiteAgent]));
    lemma_paired_insert(m11, "DeleteInstanceType"@, seq![RulePrincipal::NicoAdminCLI, RulePrincipal::SiteAgent]);
    let m12 = m11.insert("DeleteInstanceType"@, expand(seq![RulePrincipal::NicoAdminCLI, RulePrincipal::SiteAgent]));
    lemma_paired_insert(m12, "AssociateMachinesWithInstanceType"@, seq![RulePrincipal::NicoAdminCLI, RulePrincipal::SiteAgent]);
    let m13 = m12.insert("AssociateMachinesWithInstanceType"@, expand(seq![RulePrincipal::NicoAdminCLI, RulePrincipal::SiteAgent]));
    lemma_paired_insert(m13, "RemoveMachineInstanceTypeAssociation"@, seq![RulePrincipal::NicoAdminCLI, RulePrincipal::SiteAgent]);
    let m14 = m13.insert("RemoveMachineInstanceTypeAssociation"@, expand(seq![RulePrincipal::NicoAdminCLI, RulePrincipal::SiteAgent]));
    lemma_paired_insert(m14, "RedfishBrowse"@, seq![RulePrincipal::NicoAdminCLI]);
    let m15 = m14.insert("RedfishBrowse"@, expand(seq![RulePrincipal::NicoAdminCLI]));
    lemma_paired_insert(m15, "UfmBrowse"@, seq![RulePrincipal::NicoAdminCLI]);
    let m16 = m15.insert("UfmBrowse"@, expand(seq![RulePrincipal::NicoAdminCLI]));
    lemma_paired_insert(m16, "NmxcBrowse"@, seq![RulePrincipal::NicoAdminCLI]);
    let m17 = m16.insert("NmxcBrowse"@, expand(seq![RulePrincipal::NicoAdminCLI]));
    lemma_paired_insert(m17, "UpdateMachineMetadata"@, seq![RulePrincipal::NicoAdminCLI, RulePrincipal::SiteAgent]);
    let m18 = m17.insert("UpdateMachineMetadata"@, expand(seq![RulePrincipal::NicoAdminCLI, RulePrincipal::SiteAgent]));
    lemma_paired_insert(m18, "UpdateRackMetadata"@, seq![RulePrincipal::NicoAdminCLI, RulePrincipal::SiteAgent]);
    let m19 = m18.insert("UpdateRackMetadata"@, expand(seq![RulePrincipal::NicoAdminCLI, RulePrincipal::SiteAgent]));
    lemma_paired_insert(m19, "UpdateSwitchMetadata"@, seq![RulePrincipal::NicoAdminCLI, RulePrincipal::SiteAgent]);
    let m20 = m19.insert("UpdateSwitchMetadata"@, expand(seq![RulePrincipal::NicoAdminCLI, RulePrincipal::SiteAgent]));
    lemma_paired_insert(m20, "UpdatePowerShelfMetadata"@, seq![RulePrincipal::NicoAdminCLI, RulePrincipal::SiteAgent]);
    let m21 = m20.insert("UpdatePowerShelfMetadata"@, expand(seq![RulePrincipal::NicoAdminCLI, RulePrincipal::SiteAgent]));
    lemma_paired_insert(m21, "CreateNetworkSecurityGroup"@, seq![RulePrincipal::NicoAdminCLI, RulePrincipal::SiteAgent]);
    let m22 = m21.insert("CreateNetworkSecurityGroup"@, expand(seq![RulePrincipal::NicoAdminCLI, RulePrincipal::SiteAgent]));
    lemma_paired_insert(m22, "FindNetworkSecurityGroupIds"@, seq![RulePrincipal::NicoAdminCLI, RulePrincipal::SiteAgent]);
    let m23 = m22.insert("FindNetworkSecurityGroupIds"@, expand(seq![RulePrincipal::NicoAdminCLI, RulePrincipal::SiteAgent]));
    lemma_paired_insert(m23, "FindNetworkSecurityGroupsByIds"@, seq![RulePrincipal::NicoAdminCLI, RulePrincipal::SiteAgent]);
    let m24 = m23.insert("FindNetworkSecurityGroupsByIds"@, expand(seq![RulePrincipal::NicoAdminCLI, RulePrincipal::SiteAgent]));
    lemma_paired_insert(m24, "UpdateNetworkSecurityGroup"@, seq![RulePrincipal::NicoAdminCLI, RulePrincipal::SiteAgent]);
    let m25 = m24.insert("UpdateNetworkSecurityGroup"@, expand(seq![RulePrincipal::NicoAdminCLI, RulePrincipal::SiteAgent]));
    lemma_paired_insert(m25, "DeleteNetworkSecurityGroup"@, seq![RulePrincipal::NicoAdminCLI, RulePrincipal::SiteAgent]);
    let m26 = m25.insert("DeleteNetworkSecurityGroup"@, expand(seq![RulePrincipal::NicoAdminCLI, RulePrincipal::SiteAgent]));
    lemma_paired_insert(m26, "GetNetworkSecurityGroupPropagationStatus"@, seq![RulePrincipal::NicoAdminCLI, RulePrincipal::SiteAgent]);
    let m27 = m26.insert("GetNetworkSecurityGroupPropagationStatus"@, expand(seq![RulePrincipal::NicoAdminCLI, RulePrincipal::SiteAgent]));
    lemma_paired_insert(m27, "GetNetworkSecurityGroupAttachments"@, seq![RulePrincipal::NicoAdminCLI, RulePrincipal::SiteAgent]);
    let m28 = m27.insert("GetNetworkSecurityGroupAttachments"@, expand(seq![RulePrincipal::NicoAdminCLI, RulePrincipal::SiteAgent]));
    lemma_paired_insert(m28, "GetDesiredFirmwareVersions"@, seq![RulePrincipal::NicoAdminCLI, RulePrincipal::Machineatron, RulePrincipal::Flow]);
    let m29 = m28.insert("GetDesiredFirmwareVersions"@, expand(seq![RulePrincipal::NicoAdminCLI, RulePrincipal::Machineatron, RulePrincipal::Flow]));
    lemma_paired_insert(m29, "CreateSku"@, seq![RulePrincipal::NicoAdminCLI]);
    let m30 = m29.insert("CreateSku"@, expand(seq![RulePrincipal::NicoAdminCLI]));
    lemma_paired_insert(m30, "GenerateSkuFromMachine"@, seq![RulePrincipal::NicoAdminCLI]);
    let m31 = m30.insert("GenerateSkuFromMachine"@, expand(seq![RulePrincipal::NicoAdminCLI]));
    lemma_paired_insert(m31, "AssignSkuToMachine"@, seq![RulePrincipal::NicoAdminCLI]);
    let m32 = m31.insert("AssignSkuToMachine"@, expand(seq![RulePrincipal::NicoAdminCLI]));
    lemma_paired_insert(m32, "VerifySkuForMachine"@, seq![RulePrincipal::NicoAdminCLI]);
    let m33 = m32.insert("VerifySkuForMachine"@, expand(seq![RulePrincipal::NicoAdminCLI]));
    lemma_paired_insert(m33, "RemoveSkuAssociation"@, seq![RulePrincipal::NicoAdminCLI]);
    let m34 = m33.insert("RemoveSkuAssociation"@, expand(seq![RulePrincipal::NicoAdminCLI]));
    lemma_paired_insert(m34, "GetAllSkuIds"@, seq![RulePrincipal::NicoAdminCLI, RulePrincipal::SiteAgent, RulePrincipal::Flow]);
    let m35 = m34.insert("GetAllSkuIds"@, expand(seq![RulePrincipal::NicoAdminCLI, RulePrincipal::SiteAgent, RulePrincipal::Flow]));
    lemma_paired_insert(m35, "FindSkusByIds"@, seq![RulePrincipal::NicoAdminCLI, RulePrincipal::SiteAgent, RulePrincipal::Flow]);
    let m36 = m35.insert("FindSkusByIds"@, expand(seq![RulePrincipal::NicoAdminCLI, RulePrincipal::SiteAgent, RulePrincipal::Flow]));
    lemma_paired_insert(m36, "DeleteSku"@, seq![RulePrincipal::NicoAdminCLI]);
    let m37 = m36.insert("DeleteSku"@, expand(seq![RulePrincipal::NicoAdminCLI]));
    lemma_paired_insert(m37, "UpdateSkuMetadata"@, seq![RulePrincipal::NicoAdminCLI]);
    let m38 = m37.insert("UpdateSkuMetadata"@, expand(seq![RulePrincipal::NicoAdminCLI]));
    lemma_paired_insert(m38, "UpdateMachineHardwareInfo"@, seq![RulePrincipal::NicoAdminCLI]);
    let m39 = m38.insert("UpdateMachineHardwareInfo"@, expand(seq![RulePrincipal::NicoAdminCLI]));
    lemma_paired_insert(m39, "ReplaceSku"@, seq![RulePrincipal::NicoAdminCLI]);
    let m40 = m39.insert("ReplaceSku"@, expand(seq![RulePrincipal::NicoAdminCLI]));
}

proof fn lemma_paired_part_9(m: Map<Seq<char>, Seq<PrincipalView>>)
    requires
        renamed_paired(m),
        ssh_consoles_paired(m),
    ensures
        renamed_paired(rules_part_9(m)),
        ssh_consoles_paired(rules_part_9(m)),
{
    reveal_with_fuel(lists, 8);
    let m0 = m;
    lemma_paired_insert(m0, "GetManagedHostQuarantineState"@, seq![RulePrincipal::NicoAdminCLI, RulePrincipal::SiteAgent]);
    let m1 = m0.insert("GetManagedHostQuarantineState"@, expand(seq![RulePrincipal::NicoAdminCLI, RulePrincipal::SiteAgent]));
    lemma_paired_insert(m1, "SetManagedHostQuarantineState"@, seq![RulePrincipal::NicoAdminCLI, RulePrincipal::SiteAgent]);
    let m2 = m1.insert("SetManagedHostQuarantineState"@, expand(seq![RulePrincipal::NicoAdminCLI, RulePrincipal::SiteAgent]));
    lemma_paired_insert(m2, "ClearManagedHostQuarantineState"@, seq![RulePrincipal::NicoAdminCLI, RulePrincipal::SiteAgent]);
    let m3 = m2.insert("ClearManagedHostQuarantineState"@, expand(seq![RulePrincipal::NicoAdminCLI, RulePrincipal::SiteAgent]));
    lemma_paired_insert(m3, "CreateVpcPeering"@, seq![RulePrincipal::NicoAdminCLI, RulePrincipal::SiteAgent]);
    let m4 = m3.insert("CreateVpcPeering"@, expand(seq![RulePrincipal::NicoAdminCLI, RulePrincipal::SiteAgent]));
    lemma_paired_insert(m4, "FindVpcPeeringIds"@, seq![RulePrincipal::NicoAdminCLI, RulePrincipal::SiteAgent]);
    let m5 = m4.insert("FindVpcPeeringIds"@, expand(seq![RulePrincipal::NicoAdminCLI, RulePrincipal::SiteAgent]));
    lemma_paired_insert(m5, "FindVpcPeeringsByIds"@, seq![RulePrincipal::NicoAdminCLI, RulePrincipal::SiteAgent]);
    let m6 = m5.insert("FindVpcPeeringsByIds"@, expand(seq![RulePrincipal::NicoAdminCLI, RulePrincipal::SiteAgent]));
    lemma_paired_insert(m6, "DeleteVpcPeering"@, seq![RulePrincipal::NicoAdminCLI, RulePrincipal::SiteAgent]);
    let m7 = m6.insert("DeleteVpcPeering"@, expand(seq![RulePrincipal::NicoAdminCLI, RulePrincipal::SiteAgent]));
    lemma_paired_insert(m7, "ResetHostReprovisioning"@, seq![RulePrincipal::NicoAdminCLI, RulePrincipal::Flow]);
    let m8 = m7.insert("ResetHostReprovisioning"@, expand(seq![RulePrincipal::NicoAdminCLI, RulePrincipal::Flow]));
    lemma_paired_insert(m8, "CopyBfbToDpuRshim"@, seq![RulePrincipal::NicoAdminCLI]);
    let m9 = m8.insert("CopyBfbToDpuRshim"@, expand(seq![RulePrincipal::NicoAdminCLI]));
    lemma_paired_insert(m9, "GetPowerOptions"@, seq![RulePrincipal::NicoAdminCLI, RulePrincipal::SiteAgent, RulePrincipal::Flow]);
    let m10 = m9.insert("GetPowerOptions"@, expand(seq![RulePrincipal::NicoAdminCLI, RulePrincipal::SiteAgent, RulePrincipal::Flow]));
    lemma_paired_insert(m10, "UpdatePowerOption"@, seq![RulePrincipal::NicoAdminCLI, RulePrincipal::SiteAgent, RulePrincipal::Flow]);
    let m11 = m10.insert("UpdatePowerOption"@, expand(seq![RulePrincipal::NicoAdminCLI, RulePrincipal::SiteAgent, RulePrincipal::Flow]));
    lemma_paired_insert(m11, "CreateBmcUser"@, seq![RulePrincipal::NicoAdminCLI]);
    let m12 = m11.insert("CreateBmcUser"@, expand(seq![RulePrincipal::NicoAdminCLI]));
    lemma_paired_insert(m12, "DeleteBmcUser"@, seq![RulePrincipal::NicoAdminCLI]);
    let m13 = m12.insert("DeleteBmcUser"@, expand(seq![RulePrincipal::NicoAdminCLI]));
    lemma_paired_insert(m13, "SetFirmwareUpdateTimeWindow"@, seq![RulePrincipal::NicoAdminCLI, RulePrincipal::Flow]);
    let m14 = m13.insert("SetFirmwareUpdateTimeWindow"@, expand(seq![RulePrincipal::NicoAdminCLI, RulePrincipal::Flow]));
    lemma_paired_insert(m14, "ListHostFirmware"@, seq![RulePrincipal::NicoAdminCLI, RulePrincipal::Flow]);
    let m15 = m14.insert("ListHostFirmware"@, expand(seq![RulePrincipal::NicoAdminCLI, RulePrincipal::Flow]));
    lemma_paired_insert(m15, "EnableInfiniteBoot"@, seq![RulePrincipal::NicoAdminCLI]);
    let m16 = m15.insert("EnableInfiniteBoot"@, expand(seq![RulePrincipal::NicoAdminCLI]));
    lemma_paired_insert(m16, "IsInfiniteBootEnabled"@, seq![RulePrincipal::NicoAdminCLI]);
    let m17 = m16.insert("IsInfiniteBootEnabled"@, expand(seq![RulePrincipal::NicoAdminCLI]));
    lemma_paired_insert(m17, "Lockdown"@, seq![RulePrincipal::NicoAdminCLI]);
    let m18 = m17.insert("Lockdown"@, expand(seq![RulePrincipal::NicoAdminCLI]));
    lemma_paired_insert(m18, "LockdownStatus"@, seq![RulePrincipal::NicoAdminCLI]);
    let m19 = m18.insert("LockdownStatus"@, expand(seq![RulePrincipal::NicoAdminCLI]));
    lemma_paired_insert(m19, "PublishMlxDeviceReport"@, seq![RulePrincipal::Agent, RulePrincipal::Scout, RulePrincipal::Machineatron, RulePrincipal::NicoAdminCLI]);
    let m20 = m19.insert("PublishMlxDeviceReport"@, expand(seq![RulePrincipal::Agent, RulePrincipal::Scout, RulePrincipal::Machineatron, RulePrincipal::NicoAdminCLI]));
    lemma_paired_insert(m20, "PublishMlxObservationReport"@, seq![RulePrincipal::Agent, RulePrincipal::Scout, RulePrincipal::Machineatron, RulePrincipal::NicoAdminCLI]);
    let m21 = m20.insert("PublishMlxObservationReport"@, expand(seq![RulePrincipal::Agent, RulePrincipal::Scout, RulePrincipal::Machineatron, RulePrincipal::NicoAdminCLI]));
    lemma_paired_insert(m21, "TrimTable"@, seq![RulePrincipal::NicoAdminCLI, RulePrincipal::MaintenanceJobs]);
    let m22 = m21.insert("TrimTable"@, expand(seq![RulePrincipal::NicoAdminCLI, RulePrincipal::MaintenanceJobs]));
    lemma_paired_insert(m22, "ListNvlinkNmxcEndpoints"@, seq![RulePrincipal::NicoAdminCLI]);
    let m23 = m22.insert("ListNvlinkNmxcEndpoints"@, expand(seq![RulePrincipal::NicoAdminCLI]));
    lemma_paired_insert(m23, "CreateNvlinkNmxcEndpoint"@, seq![RulePrincipal::NicoAdminCLI]);
    let m24 = m23.insert("CreateNvlinkNmxcEndpoint"@, expand(seq![RulePrincipal::NicoAdminCLI]));
    lemma_paired_insert(m24, "UpdateNvlinkNmxcEndpoint"@, seq![RulePrincipal::NicoAdminCLI]);
    let m25 = m24.insert("UpdateNvlinkNmxcEndpoint"@, expand(seq![RulePrincipal::NicoAdminCLI]));
    lemma_paired_insert(m25, "DeleteNvlinkNmxcEndpoint"@, seq![RulePrincipal::NicoAdminCLI]);
    let m26 = m25.insert("DeleteNvlinkNmxcEndpoint"@, expand(seq![RulePrincipal::NicoAdminCLI]));
    lemma_paired_insert(m26, "CreateRemediation"@, seq![RulePrincipal::NicoAdminCLI]);
    let m27 = m26.insert("CreateRemediation"@, expand(seq![RulePrincipal::NicoAdminCLI]));
    lemma_paired_insert(m27, "ApproveRemediation"@, seq![RulePrincipal::NicoAdminCLI]);
    let m28 = m27.insert("ApproveRemediation"@, expand(seq![RulePrincipal::NicoAdminCLI]));
    lemma_paired_insert(m28, "RevokeRemediation"@, seq![RulePrincipal::NicoAdminCLI]);
    let m29 = m28.insert("RevokeRemediation"@, expand(seq![RulePrincipal::NicoAdminCLI]));
    lemma_paired_insert(m29, "EnableRemediation"@, seq![RulePrincipal::NicoAdminCLI]);
    let m30 = m29.insert("EnableRemediation"@, expand(seq![RulePrincipal::NicoAdminCLI]));
    lemma_paired_insert(m30, "DisableRemediation"@, seq![RulePrincipal::NicoAdminCLI]);
    let m31 = m30.insert("DisableRemediation"@, expand(seq![RulePrincipal::NicoAdminCLI]));
    lemma_paired_insert(m31, "FindRemediationIds"@, seq![RulePrincipal::NicoAdminCLI]);
    let m32 = m31.insert("FindRemediationIds"@, expand(seq![RulePrincipal::NicoAdminCLI]));
    lemma_paired_insert(m32, "FindRemediationsByIds"@, seq![RulePrincipal::NicoAdminCLI]);
    let m33 = m32.insert("FindRemediationsByIds"@, expand(seq![RulePrincipal::NicoAdminCLI]));
    lemma_paired_insert(m33, "FindAppliedRemediations"@, seq![RulePrincipal::NicoAdminCLI]);
    let m34 = m33.insert("FindAppliedRemediations"@, expand(seq![RulePrincipal::NicoAdminCLI]));
    lemma_paired_insert(m34, "FindAppliedRemediationIds"@, seq![RulePrincipal::NicoAdminCLI]);
    let m35 = m34.insert("FindAppliedRemediationIds"@, expand(seq![RulePrincipal::NicoAdminCLI]));
    lemma_paired_insert(m35, "GetNextRemediationForMachine"@, seq![RulePrincipal::Agent]);
    let m36 = m35.insert("GetNextRemediationForMachine"@, expand(seq![RulePrincipal::Agent]));
    lemma_paired_insert(m36, "RemediationApplied"@, seq![RulePrincipal::Agent]);
    let m37 = m36.insert("RemediationApplied"@, expand(seq![RulePrincipal::Agent]));
    lemma_paired_insert(m37, "DetermineMachineIngestionState"@, seq![RulePrincipal::NicoAdminCLI, RulePrincipal::Flow]);
    let m38 = m37.insert("DetermineMachineIngestionState"@, expand(seq![RulePrincipal::NicoAdminCLI, RulePrincipal::Flow]));
    lemma_paired_insert(m38, "AllowIngestionAndPowerOn"@, seq![RulePrincipal::NicoAdminCLI, RulePrincipal::Flow]);
    let m39 = m38.insert("AllowIngestionAndPowerOn"@, expand(seq![RulePrincipal::NicoAdminCLI, RulePrincipal::Flow]));
    lemma_paired_insert(m39, "SetPrimaryDpu"@, seq![RulePrincipal::NicoAdminCLI]);
    let m40 = m39.insert("SetPrimaryDpu"@, expand(seq![RulePrincipal::NicoAdminCLI]));
}

proof fn lemma_paired_part_10(m: Map<Seq<char>, Seq<PrincipalView>>)
    requires
        renamed_paired(m),
        ssh_consoles_paired(m),
    ensures
        renamed_paired(rules_part_10(m)),
        ssh_consoles_paired(rules_part_10(m)),
{
    reveal_with_fuel(lists, 8);
    let m0 = m;
    lemma_paired_insert(m0, "CreateDpuExtensionService"@, seq![RulePrincipal::NicoAdminCLI, RulePrincipal::SiteAgent]);
    let m1 = m0.insert("CreateDpuExtensionService"@, expand(seq![RulePrincipal::NicoAdminCLI, RulePrincipal::SiteAgent]));
    lemma_paired_insert(m1, "UpdateDpuExtensionService"@, seq![RulePrincipal::NicoAdminCLI, RulePrincipal::SiteAgent]);
    let m2 = m1.insert("UpdateDpuExtensionService"@, expand(seq![RulePrincipal::NicoAdminCLI, RulePrincipal::SiteAgent]));
    lemma_paired_insert(m2, "DeleteDpuExtensionService"@, seq![RulePrincipal::NicoAdminCLI, RulePrincipal::SiteAgent]);
    let m3 = m2.insert("DeleteDpuExtensionService"@, expand(seq![RulePrincipal::NicoAdminCLI, RulePrincipal::SiteAgent]));
    lemma_paired_insert(m3, "FindDpuExtensionServiceIds"@, seq![RulePrincipal::NicoAdminCLI, RulePrincipal::SiteAgent]);
    let m4 = m3.insert("FindDpuExtensionServiceIds"@, expand(seq![RulePrincipal::NicoAdminCLI, RulePrincipal::SiteAgent]));
    lemma_paired_insert(m4, "FindDpuExtensionServicesByIds"@, seq![RulePrincipal::NicoAdminCLI, RulePrincipal::SiteAgent]);
    let m5 = m4.insert("FindDpuExtensionServicesByIds"@, expand(seq![RulePrincipal::NicoAdminCLI, RulePrincipal::SiteAgent]));
    lemma_paired_insert(m5, "GetDpuExtensionServiceVersionsInfo"@, seq![RulePrincipal::NicoAdminCLI, RulePrincipal::SiteAgent]);
    let m6 = m5.insert("GetDpuExtensionServiceVersionsInfo"@, expand(seq![RulePrincipal::NicoAdminCLI, RulePrincipal::SiteAgent]));
    lemma_paired_insert(m6, "FindInstancesByDpuExtensionService"@, seq![RulePrincipal::NicoAdminCLI, RulePrincipal::SiteAgent]);
    let m7 = m6.insert("FindInstancesByDpuExtensionService"@, expand(seq![RulePrincipal::NicoAdminCLI, RulePrincipal::SiteAgent]));
    lemma_paired_insert(m7, "TriggerMachineAttestation"@, seq![RulePrincipal::NicoAdminCLI, RulePrincipal::SiteAgent]);
    let m8 = m7.insert("TriggerMachineAttestation"@, expand(seq![RulePrincipal::NicoAdminCLI, RulePrincipal::SiteAgent]));
    lemma_paired_insert(m8, "CancelMachineAttestation"@, seq![RulePrincipal::NicoAdminCLI, RulePrincipal::SiteAgent]);
    let m9 = m8.insert("CancelMachineAttestation"@, expand(seq![RulePrincipal::NicoAdminCLI, RulePrincipal::SiteAgent]));
    lemma_paired_insert(m9, "ListAttestationsForMachineId"@, seq![RulePrincipal::NicoAdminCLI, RulePrincipal::SiteAgent]);
    let m10 = m9.insert("ListAttestationsForMachineId"@, expand(seq![RulePrincipal::NicoAdminCLI, RulePrincipal::SiteAgent]));
    lemma_paired_insert(m10, "GetMachineAttestationStatus"@, seq![RulePrincipal::NicoAdminCLI, RulePrincipal::SiteAgent]);
    let m11 = m10.insert("GetMachineAttestationStatus"@, expand(seq![RulePrincipal::NicoAdminCLI, RulePrincipal::SiteAgent]));
    lemma_paired_insert(m11, "FindMachineIdsUnderAttestation"@, seq![RulePrincipal::NicoAdminCLI, RulePrincipal::SiteAgent]);
    let m12 = m11.insert("FindMachineIdsUnderAttestation"@, expand(seq![RulePrincipal::NicoAdminCLI, RulePrincipal::SiteAgent]));
    lemma_paired_insert(m12, "FindPowerShelves"@, seq![RulePrincipal::NicoAdminCLI, RulePrincipal::Machineatron, RulePrincipal::Flow]);
    let m13 = m12.insert("FindPowerShelves"@, expand(seq![RulePrincipal::NicoAdminCLI, RulePrincipal::Machineatron, RulePrincipal::Flow]));
    lemma_paired_insert(m13, "FindPowerShelfIds"@, seq![RulePrincipal::NicoAdminCLI, RulePrincipal::Machineatron, RulePrincipal::Flow]);
    let m14 = m13.insert("FindPowerShelfIds"@, expand(seq![RulePrincipal::NicoAdminCLI, RulePrincipal::Machineatron, RulePrincipal::Flow]));
    lemma_paired_insert(m14, "FindPowerShelvesByIds"@, seq![RulePrincipal::NicoAdminCLI, RulePrincipal::Machineatron, RulePrincipal::Flow]);
    let m15 = m14.insert("FindPowerShelvesByIds"@, expand(seq![RulePrincipal::NicoAdminCLI, RulePrincipal::Machineatron, RulePrincipal::Flow]));
    lemma_paired_insert(m15, "CreatePowerShelf"@, seq![RulePrincipal::NicoAdminCLI, RulePrincipal::Machineatron]);
    let m16 = m15.insert("CreatePowerShelf"@, expand(seq![RulePrincipal::NicoAdminCLI, RulePrincipal::Machineatron]));
    lemma_paired_insert(m16, "DeletePowerShelf"@, seq![RulePrincipal::NicoAdminCLI, RulePrincipal::Machineatron]);
    let m17 = m16.insert("DeletePowerShelf"@, expand(seq![RulePrincipal::NicoAdminCLI, RulePrincipal::Machineatron]));
    lemma_paired_insert(m17, "AddExpectedPowerShelf"@, seq![RulePrincipal::NicoAdminCLI, RulePrincipal::Machineatron, RulePrincipal::SiteAgent, RulePrincipal::Flow]);
    let m18 = m17.insert("AddExpectedPowerShelf"@, expand(seq![RulePrincipal::NicoAdminCLI, RulePrincipal::Machineatron, RulePrincipal::SiteAgent, RulePrincipal::Flow]));
    lemma_paired_insert(m18, "DeleteExpectedPowerShelf"@, seq![RulePrincipal::NicoAdminCLI, RulePrincipal::Machineatron, RulePrincipal::SiteAgent]);
    let m19 = m18.insert("DeleteExpectedPowerShelf"@, expand(seq![RulePrincipal::NicoAdminCLI, RulePrincipal::Machineatron, RulePrincipal::SiteAgent]));
    lemma_paired_insert(m19, "UpdateExpectedPowerShelf"@, seq![RulePrincipal::NicoAdminCLI, RulePrincipal::Machineatron, RulePrincipal::SiteAgent]);
    let m20 = m19.insert("UpdateExpectedPowerShelf"@, expand(seq![RulePrincipal::NicoAdminCLI, RulePrincipal::Machineatron, RulePrincipal::SiteAgent]));
    lemma_paired_insert(m20, "GetExpectedPowerShelf"@, seq![RulePrincipal::NicoAdminCLI, RulePrincipal::Machineatron, RulePrincipal::Flow]);
    let m21 = m20.insert("GetExpectedPowerShelf"@, expand(seq![RulePrincipal::NicoAdminCLI, RulePrincipal::Machineatron, RulePrincipal::Flow]));
    lemma_paired_insert(m21, "GetAllExpectedPowerShelves"@, seq![RulePrincipal::NicoAdminCLI, RulePrincipal::Machineatron, RulePrincipal::SiteAgent, RulePrincipal::Flow]);
    let m22 = m21.insert("GetAllExpectedPowerShelves"@, expand(seq![RulePrincipal::NicoAdminCLI, RulePrincipal::Machineatron, RulePrincipal::SiteAgent, RulePrincipal::Flow]));
    lemma_paired_insert(m22, "ReplaceAllExpectedPowerShelves"@, seq![RulePrincipal::NicoAdminCLI, RulePrincipal::Machineatron]);
    let m23 = m22.insert("ReplaceAllExpectedPowerShelves"@, expand(seq![RulePrincipal::NicoAdminCLI, RulePrincipal::Machineatron]));
    lemma_paired_insert(m23, "DeleteAllExpectedPowerShelves"@, seq![RulePrincipal::NicoAdminCLI, RulePrincipal::Machineatron]);
    let m24 = m23.insert("DeleteAllExpectedPowerShelves"@, expand(seq![RulePrincipal::NicoAdminCLI, RulePrincipal::Machineatron]));
    lemma_paired_insert(m24, "GetAllExpectedPowerShelvesLinked"@, seq![RulePrincipal::NicoAdminCLI, RulePrincipal::Machineatron, RulePrincipal::SiteAgent, RulePrincipal::Flow]);
    let m25 = m24.insert("GetAllExpectedPowerShelvesLinked"@, expand(seq![RulePrincipal::NicoAdminCLI, RulePrincipal::Machineatron, RulePrincipal::SiteAgent, RulePrincipal::Flow]));
    lemma_paired_insert(m25, "FindPowerShelfStateHistories"@, seq![RulePrincipal::NicoAdminCLI, RulePrincipal::Machineatron, RulePrincipal::Flow]);
    let m26 = m25.insert("FindPowerShelfStateHistories"@, expand(seq![RulePrincipal::NicoAdminCLI, RulePrincipal::Machineatron, RulePrincipal::Flow]));
    lemma_paired_insert(m26, "SetPowerShelfMaintenance"@, seq![RulePrincipal::NicoAdminCLI, RulePrincipal::Machineatron, RulePrincipal::Flow]);
    let m27 = m26.insert("SetPowerShelfMaintenance"@, expand(seq![RulePrincipal::NicoAdminCLI, RulePrincipal::Machineatron, RulePrincipal::Flow]));
    lemma_paired_insert(m27, "FindSwitches"@, seq![RulePrincipal::NicoAdminCLI, RulePrincipal::Machineatron, RulePrincipal::Flow, RulePrincipal::Health]);
    let m28 = m27.insert("FindSwitches"@, expand(seq![RulePrincipal::NicoAdminCLI, RulePrincipal::Machineatron, RulePrincipal::Flow, RulePrincipal::Health]));
    lemma_paired_insert(m28, "FindSwitchIds"@, seq![RulePrincipal::NicoAdminCLI, RulePrincipal::Machineatron, RulePrincipal::Flow, RulePrincipal::Health]);
    let m29 = m28.insert("FindSwitchIds"@, expand(seq![RulePrincipal::NicoAdminCLI, RulePrincipal::Machineatron, RulePrincipal::Flow, RulePrincipal::Health]));
    lemma_paired_insert(m29, "FindSwitchesByIds"@, seq![RulePrincipal::NicoAdminCLI, RulePrincipal::Machineatron, RulePrincipal::Flow, RulePrincipal::Health]);
    let m30 = m29.insert("FindSwitchesByIds"@, expand(seq![RulePrincipal::NicoAdminCLI, RulePrincipal::Machineatron, RulePrincipal::Flow, RulePrincipal::Health]));
    lemma_paired_insert(m30, "CreateSwitch"@, seq![RulePrincipal::NicoAdminCLI, RulePrincipal::Machineatron]);
    let m31 = m30.insert("CreateSwitch"@, expand(seq![RulePrincipal::NicoAdminCLI, RulePrincipal::Machineatron]));
    lemma_paired_insert(m31, "DeleteSwitch"@, seq![RulePrincipal::NicoAdminCLI, RulePrincipal::Machineatron]);
    let m32 = m31.insert("DeleteSwitch"@, expand(seq![RulePrincipal::NicoAdminCLI, RulePrincipal::Machineatron]));
    lemma_paired_insert(m32, "AddExpectedSwitch"@, seq![RulePrincipal::NicoAdminCLI, RulePrincipal::Machineatron, RulePrincipal::SiteAgent, RulePrincipal::Flow]);
    let m33 = m32.insert("AddExpectedSwitch"@, expand(seq![RulePrincipal::NicoAdminCLI, RulePrincipal::Machineatron, RulePrincipal::SiteAgent, RulePrincipal::Flow]));
    lemma_paired_insert(m33, "DeleteExpectedSwitch"@, seq![RulePrincipal::NicoAdminCLI, RulePrincipal::Machineatron, RulePrincipal::SiteAgent]);
    let m34 = m33.insert("DeleteExpectedSwitch"@, expand(seq![RulePrincipal::NicoAdminCLI, RulePrincipal::Machineatron, RulePrincipal::SiteAgent]));
    lemma_paired_insert(m34, "UpdateExpectedSwitch"@, seq![RulePrincipal::NicoAdminCLI, RulePrincipal::Machineatron, RulePrincipal::SiteAgent]);
    let m35 = m34.insert("UpdateExpectedSwitch"@, expand(seq![RulePrincipal::NicoAdminCLI, RulePrincipal::Machineatron, RulePrincipal::SiteAgent]));
    lemma_paired_insert(m35, "GetExpectedSwitch"@, seq![RulePrincipal::NicoAdminCLI, RulePrincipal::Machineatron, RulePrincipal::Flow]);
    let m36 = m35.insert("GetExpectedSwitch"@, expand(seq![RulePrincipal::NicoAdminCLI, RulePrincipal::Machineatron, RulePrincipal::Flow]));
    lemma_paired_insert(m36, "GetAllExpectedSwitches"@, seq![RulePrincipal::NicoAdminCLI, RulePrincipal::Machineatron, RulePrincipal::SiteAgent, RulePrincipal::Flow]);
    let m37 = m36.insert("GetAllExpectedSwitches"@, expand(seq![RulePrincipal::NicoAdminCLI, RulePrincipal::Machineatron, RulePrincipal::SiteAgent, RulePrincipal::Flow]));
    lemma_paired_insert(m37, "ReplaceAllExpectedSwitches"@, seq![RulePrincipal::NicoAdminCLI, RulePrincipal::Machineatron]);
    let m38 = m37.insert("ReplaceAllExpectedSwitches"@, expand(seq![RulePrincipal::NicoAdminCLI, RulePrincipal::Machineatron]));
    lemma_paired_insert(m38, "DeleteAllExpectedSwitches"@, seq![RulePrincipal::NicoAdminCLI, RulePrincipal::Machineatron]);
    let m39 = m38.insert("DeleteAllExpectedSwitches"@, expand(seq![RulePrincipal::NicoAdminCLI, RulePrincipal::Machineatron]));
    lemma_paired_insert(m39, "GetAllExpectedSwitchesLinked"@, seq![RulePrincipal::NicoAdminCLI, RulePrincipal::Machineatron, RulePrincipal::SiteAgent, RulePrincipal::Flow]);
    let m40 = m39.insert("GetAllExpectedSwitchesLinked"@, expand(seq![RulePrincipal::NicoAdminCLI, RulePrincipal::Machineatron, RulePrincipal::SiteAgent, RulePrincipal::Flow]));
}

proof fn lemma_paired_part_11(m: Map<Seq<char>, Seq<PrincipalView>>)
    requires
        renamed_paired(m),
        ssh_consoles_paired(m),
    ensures
        renamed_paired(rules_part_11(m)),
        ssh_consoles_paired(rules_part_11(m)),
{
    reveal_with_fuel(lists, 8);
    let m0 = m;
    lemma_paired_insert(m0, "AddExpectedRack"@, seq![RulePrincipal::NicoAdminCLI, RulePrincipal::Machineatron, RulePrincipal::SiteAgent]);
    let m1 = m0.insert("AddExpectedRack"@, expand(seq![RulePrincipal::NicoAdminCLI, RulePrincipal::Machineatron, RulePrincipal::SiteAgent]));
    lemma_paired_insert(m1, "DeleteExpectedRack"@, seq![RulePrincipal::NicoAdminCLI, RulePrincipal::Machineatron, RulePrincipal::SiteAgent]);
    let m2 = m1.insert("DeleteExpectedRack"@, expand(seq![RulePrincipal::NicoAdminCLI, RulePrincipal::Machineatron, RulePrincipal::SiteAgent]));
    lemma_paired_insert(m2, "UpdateExpectedRack"@, seq![RulePrincipal::NicoAdminCLI, RulePrincipal::Machineatron, RulePrincipal::SiteAgent]);
    let m3 = m2.insert("UpdateExpectedRack"@, expand(seq![RulePrincipal::NicoAdminCLI, RulePrincipal::Machineatron, RulePrincipal::SiteAgent]));
    lemma_paired_insert(m3, "GetExpectedRack"@, seq![RulePrincipal::NicoAdminCLI, RulePrincipal::Machineatron, RulePrincipal::SiteAgent, RulePrincipal::Flow]);
    let m4 = m3.insert("GetExpectedRack"@, expand(seq![RulePrincipal::NicoAdminCLI, RulePrincipal::Machineatron, RulePrincipal::SiteAgent, RulePrincipal::Flow]));
    lemma_paired_insert(m4, "GetAllExpectedRacks"@, seq![RulePrincipal::NicoAdminCLI, RulePrincipal::Machineatron, RulePrincipal::SiteAgent, RulePrincipal::Flow]);
    let m5 = m4.insert("GetAllExpectedRacks"@, expand(seq![RulePrincipal::NicoAdminCLI, RulePrincipal::Machineatron, RulePrincipal::SiteAgent, RulePrincipal::Flow]));
    lemma_paired_insert(m5, "ReplaceAllExpectedRacks"@, seq![RulePrincipal::NicoAdminCLI, RulePrincipal::Machineatron, RulePrincipal::SiteAgent]);
    let m6 = m5.insert("ReplaceAllExpectedRacks"@, expand(seq![RulePrincipal::NicoAdminCLI, RulePrincipal::Machineatron, RulePrincipal::SiteAgent]));
    lemma_paired_insert(m6, "DeleteAllExpectedRacks"@, seq![RulePrincipal::NicoAdminCLI, RulePrincipal::Machineatron, RulePrincipal::SiteAgent]);
    let m7 = m6.insert("DeleteAllExpectedRacks"@, expand(seq![RulePrincipal::NicoAdminCLI, RulePrincipal::Machineatron, RulePrincipal::SiteAgent]));
    lemma_paired_insert(m7, "FindSwitchStateHistories"@, seq![RulePrincipal::NicoAdminCLI, RulePrincipal::Machineatron, RulePrincipal::Flow]);
    let m8 = m7.insert("FindSwitchStateHistories"@, expand(seq![RulePrincipal::NicoAdminCLI, RulePrincipal::Machineatron, RulePrincipal::Flow]));
    lemma_paired_insert(m8, "FindRackIds"@, seq![RulePrincipal::NicoAdminCLI, RulePrincipal::SiteAgent, RulePrincipal::Flow]);
    let m9 = m8.insert("FindRackIds"@, expand(seq![RulePrincipal::NicoAdminCLI, RulePrincipal::SiteAgent, RulePrincipal::Flow]));
    lemma_paired_insert(m9, "FindRacksByIds"@, seq![RulePrincipal::NicoAdminCLI, RulePrincipal::SiteAgent, RulePrincipal::Flow]);
    let m10 = m9.insert("FindRacksByIds"@, expand(seq![RulePrincipal::NicoAdminCLI, RulePrincipal::SiteAgent, RulePrincipal::Flow]));
    lemma_paired_insert(m10, "GetRack"@, seq![RulePrincipal::NicoAdminCLI, RulePrincipal::Flow]);
    let m11 = m10.insert("GetRack"@, expand(seq![RulePrincipal::NicoAdminCLI, RulePrincipal::Flow]));
    lemma_paired_insert(m11, "DeleteRack"@, seq![RulePrincipal::NicoAdminCLI, RulePrincipal::Flow]);
    let m12 = m11.insert("DeleteRack"@, expand(seq![RulePrincipal::NicoAdminCLI, RulePrincipal::Flow]));
    lemma_paired_insert(m12, "GetRackProfile"@, seq![RulePrincipal::NicoAdminCLI]);
    let m13 = m12.insert("GetRackProfile"@, expand(seq![RulePrincipal::NicoAdminCLI]));
    lemma_paired_insert(m13, "RackManagerCall"@, seq![RulePrincipal::NicoAdminCLI]);
    let m14 = m13.insert("RackManagerCall"@, expand(seq![RulePrincipal::NicoAdminCLI]));
    lemma_paired_insert(m14, "ScoutStream"@, seq![RulePrincipal::Scout]);
    let m15 = m14.insert("ScoutStream"@, expand(seq![RulePrincipal::Scout]));
    lemma_paired_insert(m15, "ScoutStreamShowConnections"@, seq![RulePrincipal::NicoAdminCLI]);
    let m16 = m15.insert("ScoutStreamShowConnections"@, expand(seq![RulePrincipal::NicoAdminCLI]));
    lemma_paired_insert(m16, "ScoutStreamDisconnect"@, seq![RulePrincipal::NicoAdminCLI]);
    let m17 = m16.insert("ScoutStreamDisconnect"@, expand(seq![RulePrincipal::NicoAdminCLI]));
    lemma_paired_insert(m17, "ScoutStreamPing"@, seq![RulePrincipal::NicoAdminCLI]);
    let m18 = m17.insert("ScoutStreamPing"@, expand(seq![RulePrincipal::NicoAdminCLI]));
    lemma_paired_insert(m18, "MlxAdminProfileSync"@, seq![RulePrincipal::NicoAdminCLI]);
    let m19 = m18.insert("MlxAdminProfileSync"@, expand(seq![RulePrincipal::NicoAdminCLI]));
    lemma_paired_insert(m19, "MlxAdminProfileShow"@, seq![RulePrincipal::NicoAdminCLI]);
    let m20 = m19.insert("MlxAdminProfileShow"@, expand(seq![RulePrincipal::NicoAdminCLI]));
    lemma_paired_insert(m20, "MlxAdminProfileCompare"@, seq![RulePrincipal::NicoAdminCLI]);
    let m21 = m20.insert("MlxAdminProfileCompare"@, expand(seq![RulePrincipal::NicoAdminCLI]));
    lemma_paired_insert(m21, "MlxAdminProfileList"@, seq![RulePrincipal::NicoAdminCLI]);
    let m22 = m21.insert("MlxAdminProfileList"@, expand(seq![RulePrincipal::NicoAdminCLI]));
    lemma_paired_insert(m22, "MlxAdminLockdownLock"@, seq![RulePrincipal::NicoAdminCLI]);
    let m23 = m22.insert("MlxAdminLockdownLock"@, expand(seq![RulePrincipal::NicoAdminCLI]));
    lemma_paired_insert(m23, "MlxAdminLockdownUnlock"@, seq![RulePrincipal::NicoAdminCLI]);
    let m24 = m23.insert("MlxAdminLockdownUnlock"@, expand(seq![RulePrincipal::NicoAdminCLI]));
    lemma_paired_insert(m24, "MlxAdminLockdownStatus"@, seq![RulePrincipal::NicoAdminCLI]);
    let m25 = m24.insert("MlxAdminLockdownStatus"@, expand(seq![RulePrincipal::NicoAdminCLI]));
    lemma_paired_insert(m25, "MlxAdminShowDevice"@, seq![RulePrincipal::NicoAdminCLI]);
    let m26 = m25.insert("MlxAdminShowDevice"@, expand(seq![RulePrincipal::NicoAdminCLI]));
    lemma_paired_insert(m26, "MlxAdminShowMachine"@, seq![RulePrincipal::NicoAdminCLI]);
    let m27 = m26.insert("MlxAdminShowMachine"@, expand(seq![RulePrincipal::NicoAdminCLI]));
    lemma_paired_insert(m27, "MlxAdminRegistryList"@, seq![RulePrincipal::NicoAdminCLI]);
    let m28 = m27.insert("MlxAdminRegistryList"@, expand(seq![RulePrincipal::NicoAdminCLI]));
    lemma_paired_insert(m28, "MlxAdminRegistryShow"@, seq![RulePrincipal::NicoAdminCLI]);
    let m29 = m28.insert("MlxAdminRegistryShow"@, expand(seq![RulePrincipal::NicoAdminCLI]));
    lemma_paired_insert(m29, "MlxAdminConfigQuery"@, seq![RulePrincipal::NicoAdminCLI]);
    let m30 = m29.insert("MlxAdminConfigQuery"@, expand(seq![RulePrincipal::NicoAdminCLI]));
    lemma_paired_insert(m30, "MlxAdminConfigSet"@, seq![RulePrincipal::NicoAdminCLI]);
    let m31 = m30.insert("MlxAdminConfigSet"@, expand(seq![RulePrincipal::NicoAdminCLI]));
    lemma_paired_insert(m31, "MlxAdminConfigSync"@, seq![RulePrincipal::NicoAdminCLI]);
    let m32 = m31.insert("MlxAdminConfigSync"@, expand(seq![RulePrincipal::NicoAdminCLI]));
    lemma_paired_insert(m32, "MlxAdminConfigCompare"@, seq![RulePrincipal::NicoAdminCLI]);
    let m33 = m32.insert("MlxAdminConfigCompare"@, expand(seq![RulePrincipal::NicoAdminCLI]));
    lemma_paired_insert(m33, "FindNVLinkPartitionIds"@, seq![RulePrincipal::NicoAdminCLI, RulePrincipal::SiteAgent]);
    let m34 = m33.insert("FindNVLinkPartitionIds"@, expand(seq![RulePrincipal::NicoAdminCLI, RulePrincipal::SiteAgent]));
    lemma_paired_insert(m34, "FindNVLinkPartitionsByIds"@, seq![RulePrincipal::NicoAdminCLI, RulePrincipal::SiteAgent]);
    let m35 = m34.insert("FindNVLinkPartitionsByIds"@, expand(seq![RulePrincipal::NicoAdminCLI, RulePrincipal::SiteAgent]));
    lemma_paired_insert(m35, "NVLinkPartitionsForTenant"@, seq![RulePrincipal::NicoAdminCLI, RulePrincipal::SiteAgent]);
    let m36 = m35.insert("NVLinkPartitionsForTenant"@, expand(seq![RulePrincipal::NicoAdminCLI, RulePrincipal::SiteAgent]));
    lemma_paired_insert(m36, "FindNVLinkLogicalPartitionIds"@, seq![RulePrincipal::NicoAdminCLI, RulePrincipal::SiteAgent]);
    let m37 = m36.insert("FindNVLinkLogicalPartitionIds"@, expand(seq![RulePrincipal::NicoAdminCLI, RulePrincipal::SiteAgent]));
    lemma_paired_insert(m37, "FindNVLinkLogicalPartitionsByIds"@, seq![RulePrincipal::NicoAdminCLI, RulePrincipal::SiteAgent]);
    let m38 = m37.insert("FindNVLinkLogicalPartitionsByIds"@, expand(seq![RulePrincipal::NicoAdminCLI, RulePrincipal::SiteAgent]));
    lemma_paired_insert(m38, "CreateNVLinkLogicalPartition"@, seq![RulePrincipal::NicoAdminCLI, RulePrincipal::SiteAgent]);
    let m39 = m38.insert("CreateNVLinkLogicalPartition"@, expand(seq![RulePrincipal::NicoAdminCLI, RulePrincipal::SiteAgent]));
    lemma_paired_insert(m39, "UpdateNVLinkLogicalPartition"@, seq![RulePrincipal::NicoAdminCLI, RulePrincipal::SiteAgent]);
    let m40 = m39.insert("UpdateNVLinkLogicalPartition"@, expand(seq![RulePrincipal::NicoAdminCLI, RulePrincipal::SiteAgent]));
}

proof fn lemma_paired_part_12(m: Map<Seq<char>, Seq<PrincipalView>>)
    requires
        renamed_paired(m),
        ssh_consoles_paired(m),
    ensures
        renamed_paired(rules_part_12(m)),
        ssh_consoles_paired(rules_part_12(m)),
{
    reveal_with_fuel(lists, 8);
    let m0 = m;
    lemma_paired_insert(m0, "DeleteNVLinkLogicalPartition"@, seq![RulePrincipal::NicoAdminCLI, RulePrincipal::SiteAgent]);
    let m1 = m0.insert("DeleteNVLinkLogicalPartition"@, expand(seq![RulePrincipal::NicoAdminCLI, RulePrincipal::SiteAgent]));
    lemma_paired_insert(m1, "NVLinkLogicalPartitionsForTenant"@, seq![RulePrincipal::NicoAdminCLI, RulePrincipal::SiteAgent]);
    let m2 = m1.insert("NVLinkLogicalPartitionsForTenant"@, expand(seq![RulePrincipal::NicoAdminCLI, RulePrincipal::SiteAgent]));
    lemma_paired_insert(m2, "GetMachinePositionInfo"@, seq![RulePrincipal::NicoAdminCLI, RulePrincipal::SiteAgent, RulePrincipal::Flow]);
    let m3 = m2.insert("GetMachinePositionInfo"@, expand(seq![RulePrincipal::NicoAdminCLI, RulePrincipal::SiteAgent, RulePrincipal::Flow]));
    lemma_paired_insert(m3, "ModifyDPFState"@, seq![RulePrincipal::NicoAdminCLI]);
    let m4 = m3.insert("ModifyDPFState"@, expand(seq![RulePrincipal::NicoAdminCLI]));
    lemma_paired_insert(m4, "GetDPFState"@, seq![RulePrincipal::NicoAdminCLI]);
    let m5 = m4.insert("GetDPFState"@, expand(seq![RulePrincipal::NicoAdminCLI]));
    lemma_paired_insert(m5, "UpdateMachineNvLinkInfo"@, seq![RulePrincipal::NicoAdminCLI]);
    let m6 = m5.insert("UpdateMachineNvLinkInfo"@, expand(seq![RulePrincipal::NicoAdminCLI]));
    lemma_paired_insert(m6, "CreateComputeAllocation"@, seq![RulePrincipal::NicoAdminCLI, RulePrincipal::SiteAgent]);
    let m7 = m6.insert("CreateComputeAllocation"@, expand(seq![RulePrincipal::NicoAdminCLI, RulePrincipal::SiteAgent]));
    lemma_paired_insert(m7, "FindComputeAllocationIds"@, seq![RulePrincipal::NicoAdminCLI, RulePrincipal::SiteAgent]);
    let m8 = m7.insert("FindComputeAllocationIds"@, expand(seq![RulePrincipal::NicoAdminCLI, RulePrincipal::SiteAgent]));
    lemma_paired_insert(m8, "FindComputeAllocationsByIds"@, seq![RulePrincipal::NicoAdminCLI, RulePrincipal::SiteAgent]);
    let m9 = m8.insert("FindComputeAllocationsByIds"@, expand(seq![RulePrincipal::NicoAdminCLI, RulePrincipal::SiteAgent]));
    lemma_paired_insert(m9, "UpdateComputeAllocation"@, seq![RulePrincipal::NicoAdminCLI, RulePrincipal::SiteAgent]);
    let m10 = m9.insert("UpdateComputeAllocation"@, expand(seq![RulePrincipal::NicoAdminCLI, RulePrincipal::SiteAgent]));
    lemma_paired_insert(m10, "DeleteComputeAllocation"@, seq![RulePrincipal::NicoAdminCLI, RulePrincipal::SiteAgent]);
    let m11 = m10.insert("DeleteComputeAllocation"@, expand(seq![RulePrincipal::NicoAdminCLI, RulePrincipal::SiteAgent]));
    lemma_paired_insert(m11, "ComponentPowerControl"@, seq![RulePrincipal::NicoAdminCLI, RulePrincipal::Flow]);
    let m12 = m11.insert("ComponentPowerControl"@, expand(seq![RulePrincipal::NicoAdminCLI, RulePrincipal::Flow]));
    lemma_paired_insert(m12, "GetComponentInventory"@, seq![RulePrincipal::NicoAdminCLI, RulePrincipal::Flow]);
    let m13 = m12.insert("GetComponentInventory"@, expand(seq![RulePrincipal::NicoAdminCLI, RulePrincipal::Flow]));
    lemma_paired_insert(m13, "UpdateComponentFirmware"@, seq![RulePrincipal::NicoAdminCLI, RulePrincipal::Flow]);
    let m14 = m13.insert("UpdateComponentFirmware"@, expand(seq![RulePrincipal::NicoAdminCLI, RulePrincipal::Flow]));
    lemma_paired_insert(m14, "GetComponentFirmwareStatus"@, seq![RulePrincipal::NicoAdminCLI, RulePrincipal::Flow]);
    let m15 = m14.insert("GetComponentFirmwareStatus"@, expand(seq![RulePrincipal::NicoAdminCLI, RulePrincipal::Flow]));
    lemma_paired_insert(m15, "ListComponentFirmwareVersions"@, seq![RulePrincipal::NicoAdminCLI, RulePrincipal::Flow]);
    let m16 = m15.insert("ListComponentFirmwareVersions"@, expand(seq![RulePrincipal::NicoAdminCLI, RulePrincipal::Flow]));
    lemma_paired_insert(m16, "GetDPFHostSnapshot"@, seq![RulePrincipal::NicoAdminCLI]);
    let m17 = m16.insert("GetDPFHostSnapshot"@, expand(seq![RulePrincipal::NicoAdminCLI]));
    lemma_paired_insert(m17, "GetDPFServiceVersions"@, seq![RulePrincipal::NicoAdminCLI]);
    let m18 = m17.insert("GetDPFServiceVersions"@, expand(seq![RulePrincipal::NicoAdminCLI]));
}

proof fn lemma_table_laws()
    ensures
        renamed_paired(rbac_table()),
        ssh_consoles_paired(rbac_table()),
{
    let m = Map::<Seq<char>, Seq<PrincipalView>>::empty();
    lemma_paired_part_1(m);
    let r1 = rules_part_1(m);
    lemma_paired_part_2(r1);
    let r2 = rules_part_2(r1);
    lemma_paired_part_3(r2);
    let r3 = rules_part_3(r2);
    lemma_paired_part_4(r3);
    let r4 = rules_part_4(r3);
    lemma_paired_part_5(r4);
    let r5 = rules_part_5(r4);
    lemma_paired_part_6(r5);
    let r6 = rules_part_6(r5);
    lemma_paired_part_7(r6);
    let r7 = rules_part_7(r6);
    lemma_paired_part_8(r7);
    let r8 = rules_part_8(r7);
    lemma_paired_part_9(r8);
    let r9 = rules_part_9(r8);
    lemma_paired_part_10(r9);
    let r10 = rules_part_10(r9);
    lemma_paired_part_11(r10);
    let r11 = rules_part_11(r10);
    lemma_paired_part_12(r11);
    let r12 = rules_part_12(r11);
    assert(r12 == rbac_table());
}

/// Every rule of the built-in table admits each renamed service under both of its
/// identifiers or under neither, so certificates with the old and the new identifier have
/// the same permissions.
pub proof fn lemma_table_renamed_paired()
    ensures
        renamed_paired(rbac_table()),
{
    lemma_table_laws();
}

/// Every rule of the built-in table admits the ssh console service exactly when it admits
/// its rewrite, so the two consoles have identical permissions.
pub proof fn lemma_table_ssh_consoles_paired()
    ensures
        ssh_consoles_paired(rbac_table()),
{
    lemma_table_laws();
}


/// Presenting more principals never loses access: whatever a caller may do with some
/// principals, it may do with any non-empty list that includes them.
pub proof fn lemma_allowed_monotone(rule: Option<Seq<PrincipalView>>, users: Seq<PrincipalView>, more: Seq<PrincipalView>)
    requires
        allowed_by(rule, users),
        more.len() > 0,
        forall|i: int| 0 <= i < users.len() ==> more.contains(#[trigger] users[i]),
    ensures
        allowed_by(rule, more),
{
    let r = rule->0;
    if users.len() == 0 {
        assert(covers(more[0], r[0]));
    } else {
        let (i, j) = choose|i: int, j: int| 0 <= i < users.len() && 0 <= j < r.len() && #[trigger] covers(users[i], r[j]);
        assert(more.contains(users[i]));
        let k = choose|k: int| 0 <= k < more.len() && more[k] == users[i];
        assert(covers(more[k], r[j]));
    }
}

/// A request whose rule admits `Anonymous` alone may be made by every caller, whatever it
/// presents.
pub proof fn lemma_anonymous_rule_admits_all(r: Seq<PrincipalView>, users: Seq<PrincipalView>)
    requires
        r == seq![PrincipalView::Anonymous],
    ensures
        allowed_by(Some(r), users),
{
    if users.len() > 0 {
        assert(r[0] == PrincipalView::Anonymous);
        assert(covers(users[0], r[0]));
        assert(allowed_by(Some(r), users));
    } else {
        assert(allowed_by(Some(r), users));
    }
}

/// A request without a rule is refused to every caller.
pub proof fn lemma_unknown_request_refused(users: Seq<PrincipalView>)
    ensures
        !allowed_by(None, users),
{
}


// ---------------------------------------------------------------------------
// What the admin CLI may do
// ---------------------------------------------------------------------------

/// The principal that stands for the admin CLI in the rule table: an external user.
pub open spec fn admin_cli_view() -> PrincipalView {
    PrincipalView::ExternalUser(ExternalUserView { org: None, group: "Invalid"@, user: None })
}

/// The requests whose rule in the built-in table does not list the admin CLI; the names are
/// grouped by length, first and last letter.
pub open spec fn cli_refused(k: Seq<char>) -> bool {
    let n = k.len();
    if n == 0 {
        false
    } else if n == 4 && k[0] == 'E' && k[n - 1] == 'o' {
        k == "Echo"@
    } else if n == 7 && k[0] == 'V' && k[n - 1] == 'n' {
        k == "Version"@
    } else if n == 9 && k[0] == 'C' && k[n - 1] == 'c' {
        k == "CreateVpc"@
    } else if n == 9 && k[0] == 'D' && k[n - 1] == 'c' {
        k == "DeleteVpc"@
    } else if n == 11 && k[0] == 'A' && k[n - 1] == 'e' {
        k == "AttestQuote"@
    } else if n == 11 && k[0] == 'S' && k[n - 1] == 'm' {
        k == "ScoutStream"@
    } else if n == 12 && k[0] == 'C' && k[n - 1] == 'n' {
        k == "CreateDomain"@
    } else if n == 12 && k[0] == 'C' && k[n - 1] == 't' {
        k == "CreateTenant"@
    } else if n == 12 && k[0] == 'D' && k[n - 1] == 'n' {
        k == "DeleteDomain"@
    } else if n == 12 && k[0] == 'D' && k[n - 1] == 'p' {
        k == "DiscoverDhcp"@
    } else if n == 12 && k[0] == 'L' && k[n - 1] == 'd' {
        k == "LookupRecord"@
    } else if n == 12 && k[0] == 'U' && k[n - 1] == 'n' {
        k == "UpdateDomain"@
    } else if n == 13 && k[0] == 'G' && k[n - 1] == 's' {
        k == "GetAllDomains"@
    } else if n == 14 && k[0] == 'G' && k[n - 1] == 'a' {
        k == "GetBMCMetaData"@
    } else if n == 14 && k[0] == 'G' && k[n - 1] == 't' {
        k == "GetDpuInfoList"@
    } else if n == 15 && k[0] == 'D' && k[n - 1] == 'e' {
        k == "DiscoverMachine"@
    } else if n == 15 && k[0] == 'E' && k[n - 1] == 'e' {
        k == "ExpireDhcpLease"@
    } else if n == 15 && k[0] == 'R' && k[n - 1] == 'd' {
        k == "RebootCompleted"@
    } else if n == 16 && k[0] == 'N' && k[n - 1] == 'l' {
        k == "NicoAgentControl"@
    } else if n == 17 && k[0] == 'C' && k[n - 1] == 'n' {
        k == "CreateIBPartition"@
    } else if n == 17 && k[0] == 'D' && k[n - 1] == 'n' {
        k == "DeleteIBPartition"@
    } else if n == 17 && k[0] == 'G' && k[n - 1] == 's' {
        k == "GetBmcCredentials"@
    } else if n == 17 && k[0] == 'U' && k[n - 1] == 'a' {
        k == "UpdateBMCMetaData"@
    } else if n == 17 && k[0] == 'U' && k[n - 1] == 'n' {
        k == "UpdateIBPartition"@
    } else if n == 18 && k[0] == 'C' && k[n - 1] == 'e' {
        k == "CreateDpaInterface"@
    } else if n == 18 && k[0] == 'C' && k[n - 1] == 't' {
        k == "CreateTenantKeyset"@
    } else if n == 18 && k[0] == 'C' && k[n - 1] == 'y' {
        k == "CreateDomainLegacy"@
    } else if n == 18 && k[0] == 'D' && k[n - 1] == 'd' {
        k == "DiscoveryCompleted"@
    } else if n == 18 && k[0] == 'D' && k[n - 1] == 'e' {
        k == "DeleteDpaInterface"@
    } else if n == 18 && k[0] == 'D' && k[n - 1] == 't' {
        k == "DeleteTenantKeyset"@
    } else if n == 18 && k[0] == 'D' && k[n - 1] == 'y' {
        k == "DeleteDomainLegacy"@
    } else if n == 18 && k[0] == 'E' && k[n - 1] == 'e' {
        k == "EnsureDpaInterface"@
    } else if n == 18 && k[0] == 'G' && k[n - 1] == 's' {
        k == "GetPxeInstructions"@
    } else if n == 18 && k[0] == 'L' && k[n - 1] == 'y' {
        k == "LookupRecordLegacy"@
    } else if n == 18 && k[0] == 'R' && k[n - 1] == 'd' {
        k == "RemediationApplied"@
    } else if n == 18 && k[0] == 'U' && k[n - 1] == 't' {
        k == "UpdateTenantKeyset"@
    } else if n == 18 && k[0] == 'U' && k[n - 1] == 'y' {
        k == "UpdateDomainLegacy"@
    } else if n == 19 && k[0] == 'R' && k[n - 1] == 's' {
        k == "ReplaceRouteServers"@
    } else if n == 19 && k[0] == 'S' && k[n - 1] == 'y' {
        k == "SignMachineIdentity"@
    } else if n == 20 && k[0] == 'C' && k[n - 1] == 't' {
        k == "CreateNetworkSegment"@
    } else if n == 20 && k[0] == 'D' && k[n - 1] == 'k' {
        k == "DpuAgentUpgradeCheck"@
    } else if n == 20 && k[0] == 'G' && k[n - 1] == 'a' {
        k == "GetAllDomainMetadata"@
    } else if n == 20 && k[0] == 'R' && k[n - 1] == 'r' {
        k == "ReportNicoScoutError"@
    } else if n == 21 && k[0] == 'F' && k[n - 1] == 'p' {
        k == "FindMacAddressByBmcIp"@
    } else if n == 21 && k[0] == 'I' && k[n - 1] == 't' {
        k == "IBPartitionsForTenant"@
    } else if n == 21 && k[0] == 'N' && k[n - 1] == 'c' {
        k == "NetworkSegmentsForVpc"@
    } else if n == 22 && k[0] == 'L' && k[n - 1] == 'y' {
        k == "ListAttestationSummary"@
    } else if n == 22 && k[0] == 'R' && k[n - 1] == 's' {
        k == "RecordDpuNetworkStatus"@
    } else if n == 23 && k[0] == 'C' && k[n - 1] == 'd' {
        k == "CleanupMachineCompleted"@
    } else if n == 23 && k[0] == 'P' && k[n - 1] == 't' {
        k == "PersistValidationResult"@
    } else if n == 23 && k[0] == 'R' && k[n - 1] == 'e' {
        k == "RenewMachineCertificate"@
    } else if n == 23 && k[0] == 'V' && k[n - 1] == 'y' {
        k == "ValidateTenantPublicKey"@
    } else if n == 24 && k[0] == 'G' && k[n - 1] == 's' {
        k == "GetCloudInitInstructions"@ || k == "GetSwitchNvosCredentials"@
    } else if n == 24 && k[0] == 'U' && k[n - 1] == 's' {
        k == "UpdateMachineCredentials"@
    } else if n == 26 && k[0] == 'M' && k[n - 1] == 'd' {
        k == "MachineValidationCompleted"@
    } else if n == 26 && k[0] == 'U' && k[n - 1] == 'n' {
        k == "UpdateMachineValidationRun"@
    } else if n == 28 && k[0] == 'G' && k[n - 1] == 'e' {
        k == "GetNextRemediationForMachine"@
    } else if n == 28 && k[0] == 'U' && k[n - 1] == 'y' {
        k == "UpdateAgentReportedInventory"@
    } else if n == 29 && k[0] == 'U' && k[n - 1] == 'm' {
        k == "UpdateInstanceOperatingSystem"@
    } else if n == 30 && k[0] == 'S' && k[n - 1] == 's' {
        k == "SetDpaNetworkObservationStatus"@
    } else if n == 32 && k[0] == 'R' && k[n - 1] == 's' {
        k == "ReportScoutFirmwareUpgradeStatus"@
    } else if n == 34 && k[0] == 'U' && k[n - 1] == 't' {
        k == "UpdateInstancePhoneHomeLastContact"@
    } else if n == 35 && k[0] == 'R' && k[n - 1] == 's' {
        k == "RecordObservedInstanceNetworkStatus"@
    } else {
        false
    }
}

proof fn lemma_expansion_cli(q: RulePrincipal)
    ensures
        expansion(q).contains(admin_cli_view()) == (q == RulePrincipal::NicoAdminCLI),
{
    let e = expansion(q);
    if q == RulePrincipal::NicoAdminCLI {
        assert(e[0] == admin_cli_view());
    } else {
        assert(!e.contains(admin_cli_view())) by {
            if e.contains(admin_cli_view()) {
                let i = choose|i: int| 0 <= i < e.len() && e[i] == admin_cli_view();
            }
        }
    }
}

proof fn lemma_expand_cli(ps: Seq<RulePrincipal>)
    ensures
        expand(ps).contains(admin_cli_view()) == lists(ps, RulePrincipal::NicoAdminCLI),
    decreases ps.len(),
{
    if ps.len() > 0 {
        lemma_expand_cli(ps.drop_last());
        lemma_expansion_cli(ps.last());
        let a = expand(ps.drop_last());
        let b = expansion(ps.last());
        let n = admin_cli_view();
        assert((a + b).contains(n) == (a.contains(n) || b.contains(n))) by {
            if (a + b).contains(n) {
                let i = choose|i: int| 0 <= i < (a + b).len() && (a + b)[i] == n;
                if i >= a.len() { assert(b[i - a.len()] == n); }
            }
            if a.contains(n) {
                let i = choose|i: int| 0 <= i < a.len() && a[i] == n;
                assert((a + b)[i] == n);
            }
            if b.contains(n) {
                let i = choose|i: int| 0 <= i < b.len() && b[i] == n;
                assert((a + b)[a.len() + i] == n);
            }
        }
    }
}

/// Whether every rule of `m` lists the admin CLI exactly when its request is not one of
/// those refused to it.
pub open spec fn cli_rules_as_listed(m: Map<Seq<char>, Seq<PrincipalView>>) -> bool {
    forall|msg: Seq<char>| #[trigger] m.dom().contains(msg) ==> m[msg].contains(admin_cli_view()) == !cli_refused(msg)
}

proof fn lemma_cli_insert(m: Map<Seq<char>, Seq<PrincipalView>>, msg: Seq<char>, ps: Seq<RulePrincipal>)
    requires
        cli_rules_as_listed(m),
        lists(ps, RulePrincipal::NicoAdminCLI) == !cli_refused(msg),
    ensures
        cli_rules_as_listed(m.insert(msg, expand(ps))),
{
    lemma_expand_cli(ps);
    let m2 = m.insert(msg, expand(ps));
    assert forall|k: Seq<char>| #[trigger] m2.dom().contains(k) implies m2[k].contains(admin_cli_view()) == !cli_refused(k) by {
        if k != msg {
            assert(m2[k] == m[k]);
        }
    }
}

#[verifier::rlimit(100)]
proof fn lemma_cli_part_1(m: Map<Seq<char>, Seq<PrincipalView>>)
    requires
        cli_rules_as_listed(m),
    ensures
        cli_rules_as_listed(rules_part_1(m)),
{
    reveal_with_fuel(lists, 8);
    reveal_strlit("Version");
    reveal_strlit("CreateDomain");
    reveal_strlit("CreateDomainLegacy");
    reveal_strlit("UpdateDomainLegacy");
    reveal_strlit("DeleteDomainLegacy");
    reveal_strlit("FindDomainLegacy");
    reveal_strlit("UpdateDomain");
    reveal_strlit("DeleteDomain");
    reveal_strlit("FindDomain");
    reveal_strlit("CreateVpc");
    reveal_strlit("UpdateVpc");
    reveal_strlit("UpdateVpcVirtualization");
    reveal_strlit("DeleteVpc");
    reveal_strlit("FindVpcIds");
    reveal_strlit("FindVpcsByIds");
    reveal_strlit("CreateVpcPrefix");
    reveal_strlit("SearchVpcPrefixes");
    reveal_strlit("GetVpcPrefixes");
    reveal_strlit("UpdateVpcPrefix");
    reveal_strlit("DeleteVpcPrefix");
    reveal_strlit("GetAllDpaInterfaceIds");
    reveal_strlit("FindDpaInterfacesByIds");
    reveal_strlit("CreateDpaInterface");
    reveal_strlit("EnsureDpaInterface");
    reveal_strlit("DeleteDpaInterface");
    reveal_strlit("SetDpaNetworkObservationStatus");
    reveal_strlit("FindNetworkSegmentIds");
    reveal_strlit("FindNetworkSegmentsByIds");
    reveal_strlit("FindNetworkSegmentStateHistories");
    reveal_strlit("CreateNetworkSegment");
    reveal_strlit("DeleteNetworkSegment");
    reveal_strlit("NetworkSegmentsForVpc");
    reveal_strlit("FindIBPartitionIds");
    reveal_strlit("FindIBPartitionsByIds");
    reveal_strlit("CreateIBPartition");
    reveal_strlit("UpdateIBPartition");
    reveal_strlit("DeleteIBPartition");
    reveal_strlit("IBPartitionsForTenant");
    reveal_strlit("FindIBFabricIds");
    reveal_strlit("AllocateInstance");
    assert forall|m2: Map<Seq<char>, Seq<PrincipalView>>, msg: Seq<char>, ps: Seq<RulePrincipal>|
        cli_rules_as_listed(m2) && lists(ps, RulePrincipal::NicoAdminCLI) == !cli_refused(msg) implies #[trigger] cli_rules_as_listed(
            m2.insert(msg, expand(ps)),
        ) by {
        lemma_cli_insert(m2, msg, ps);
    }
}

#[verifier::rlimit(100)]
proof fn lemma_cli_part_2(m: Map<Seq<char>, Seq<PrincipalView>>)
    requires
        cli_rules_as_listed(m),
    ensures
        cli_rules_as_listed(rules_part_2(m)),
{
    reveal_with_fuel(lists, 8);
    reveal_strlit("AllocateInstances");
    reveal_strlit("ReleaseInstance");
    reveal_strlit("UpdateInstanceOperatingSystem");
    reveal_strlit("UpdateInstanceConfig");
    reveal_strlit("FindInstanceIds");
    reveal_strlit("FindInstancesByIds");
    reveal_strlit("FindInstanceByMachineID");
    reveal_strlit("RecordObservedInstanceNetworkStatus");
    reveal_strlit("GetManagedHostNetworkConfig");
    reveal_strlit("RecordDpuNetworkStatus");
    reveal_strlit("ListMachineHealthReports");
    reveal_strlit("InsertMachineHealthReport");
    reveal_strlit("RemoveMachineHealthReport");
    reveal_strlit("ListRackHealthReports");
    reveal_strlit("InsertRackHealthReport");
    reveal_strlit("RemoveRackHealthReport");
    reveal_strlit("ListSwitchHealthReports");
    reveal_strlit("InsertSwitchHealthReport");
    reveal_strlit("RemoveSwitchHealthReport");
    reveal_strlit("ListPowerShelfHealthReports");
    reveal_strlit("InsertPowerShelfHealthReport");
    reveal_strlit("RemovePowerShelfHealthReport");
    reveal_strlit("ListHealthReportOverrides");
    reveal_strlit("InsertHealthReportOverride");
    reveal_strlit("RemoveHealthReportOverride");
    reveal_strlit("DpuAgentUpgradeCheck");
    reveal_strlit("DpuAgentUpgradePolicyAction");
    reveal_strlit("LookupRecord");
    reveal_strlit("LookupRecordLegacy");
    reveal_strlit("GetAllDomainMetadata");
    reveal_strlit("GetAllDomains");
    reveal_strlit("InvokeInstancePower");
    reveal_strlit("NicoAgentControl");
    reveal_strlit("DiscoverMachine");
    reveal_strlit("RenewMachineCertificate");
    reveal_strlit("DiscoveryCompleted");
    reveal_strlit("CleanupMachineCompleted");
    reveal_strlit("ReportNicoScoutError");
    reveal_strlit("ReportScoutFirmwareUpgradeStatus");
    reveal_strlit("DiscoverDhcp");
    assert forall|m2: Map<Seq<char>, Seq<PrincipalView>>, msg: Seq<char>, ps: Seq<RulePrincipal>|
        cli_rules_as_listed(m2) && lists(ps, RulePrincipal::NicoAdminCLI) == !cli_refused(msg) implies #[trigger] cli_rules_as_listed(
            m2.insert(msg, expand(ps)),
        ) by {
        lemma_cli_insert(m2, msg, ps);
    }
}

#[verifier::rlimit(100)]
proof fn lemma_cli_part_3(m: Map<Seq<char>, Seq<PrincipalView>>)
    requires
        cli_rules_as_listed(m),
    ensures
        cli_rules_as_listed(rules_part_3(m)),
{
    reveal_with_fuel(lists, 8);
    reveal_strlit("ExpireDhcpLease");
    reveal_strlit("AssignStaticAddress");
    reveal_strlit("RemoveStaticAddress");
    reveal_strlit("FindInterfaceAddresses");
    reveal_strlit("FindInterfaces");
    reveal_strlit("DeleteInterface");
    reveal_strlit("FindIpAddress");
    reveal_strlit("FindMachineIds");
    reveal_strlit("FindMachinesByIds");
    reveal_strlit("FindConnectedDevicesByDpuMachineIds");
    reveal_strlit("FindMachineIdsByBmcIps");
    reveal_strlit("FindMachineHealthHistories");
    reveal_strlit("FindMachineStateHistories");
    reveal_strlit("IdentifyUuid");
    reveal_strlit("IdentifyMac");
    reveal_strlit("IdentifySerial");
    reveal_strlit("GetBMCMetaData");
    reveal_strlit("UpdateBMCMetaData");
    reveal_strlit("UpdateMachineCredentials");
    reveal_strlit("GetPxeInstructions");
    reveal_strlit("GetCloudInitInstructions");
    reveal_strlit("Echo");
    reveal_strlit("CreateTenant");
    reveal_strlit("FindTenant");
    reveal_strlit("UpdateTenant");
    reveal_strlit("CreateTenantKeyset");
    reveal_strlit("FindTenantKeysetIds");
    reveal_strlit("FindTenantKeysetsByIds");
    reveal_strlit("UpdateTenantKeyset");
    reveal_strlit("DeleteTenantKeyset");
    reveal_strlit("ValidateTenantPublicKey");
    reveal_strlit("GetBmcCredentials");
    reveal_strlit("GetSwitchNvosCredentials");
    reveal_strlit("GetAllManagedHostNetworkStatus");
    reveal_strlit("GetSiteExplorationReport");
    reveal_strlit("ClearSiteExplorationError");
    reveal_strlit("IsBmcInManagedHost");
    reveal_strlit("Explore");
    reveal_strlit("ReExploreEndpoint");
    reveal_strlit("RefreshEndpointReport");
    reveal_strlit("ReplaceRouteServers");
    reveal_strlit("DiscoverMachine");
    assert("RemoveStaticAddress"@[2] != "ReplaceRouteServers"@[2]);
    assert("DeleteInterface"@[1] != "DiscoverMachine"@[1]);
    assert forall|m2: Map<Seq<char>, Seq<PrincipalView>>, msg: Seq<char>, ps: Seq<RulePrincipal>|
        cli_rules_as_listed(m2) && lists(ps, RulePrincipal::NicoAdminCLI) == !cli_refused(msg) implies #[trigger] cli_rules_as_listed(
            m2.insert(msg, expand(ps)),
        ) by {
        lemma_cli_insert(m2, msg, ps);
    }
}

#[verifier::rlimit(100)]
proof fn lemma_cli_part_4(m: Map<Seq<char>, Seq<PrincipalView>>)
    requires
        cli_rules_as_listed(m),
    ensures
        cli_rules_as_listed(rules_part_4(m)),
{
    reveal_with_fuel(lists, 8);
    reveal_strlit("DeleteExploredEndpoint");
    reveal_strlit("PauseExploredEndpointRemediation");
    reveal_strlit("FindExploredEndpointIds");
    reveal_strlit("FindExploredEndpointsByIds");
    reveal_strlit("FindExploredManagedHostIds");
    reveal_strlit("FindExploredManagedHostsByIds");
    reveal_strlit("AdminForceDeleteMachine");
    reveal_strlit("AdminForceDeleteSwitch");
    reveal_strlit("AdminForceDeletePowerShelf");
    reveal_strlit("AdminListResourcePools");
    reveal_strlit("AdminGrowResourcePool");
    reveal_strlit("SetMaintenance");
    reveal_strlit("SetDynamicConfig");
    reveal_strlit("TriggerDpuReprovisioning");
    reveal_strlit("TriggerHostReprovisioning");
    reveal_strlit("ListDpuWaitingForReprovisioning");
    reveal_strlit("MarkManualFirmwareUpgradeComplete");
    reveal_strlit("ListHostsWaitingForReprovisioning");
    reveal_strlit("GetDpuInfoList");
    reveal_strlit("GetMachineBootOverride");
    reveal_strlit("SetMachineBootOverride");
    reveal_strlit("ClearMachineBootOverride");
    reveal_strlit("GetNetworkTopology");
    reveal_strlit("FindNetworkDevicesByDeviceIds");
    reveal_strlit("CreateCredential");
    reveal_strlit("DeleteCredential");
    reveal_strlit("GetRouteServers");
    reveal_strlit("AddRouteServers");
    reveal_strlit("RemoveRouteServers");
    reveal_strlit("ReplaceRouteServers");
    reveal_strlit("UpdateAgentReportedInventory");
    reveal_strlit("UpdateInstancePhoneHomeLastContact");
    reveal_strlit("SetHostUefiPassword");
    reveal_strlit("ClearHostUefiPassword");
    reveal_strlit("AddExpectedMachine");
    reveal_strlit("DeleteExpectedMachine");
    reveal_strlit("UpdateExpectedMachine");
    reveal_strlit("CreateExpectedMachines");
    reveal_strlit("UpdateExpectedMachines");
    reveal_strlit("GetExpectedMachine");
    assert forall|m2: Map<Seq<char>, Seq<PrincipalView>>, msg: Seq<char>, ps: Seq<RulePrincipal>|
        cli_rules_as_listed(m2) && lists(ps, RulePrincipal::NicoAdminCLI) == !cli_refused(msg) implies #[trigger] cli_rules_as_listed(
            m2.insert(msg, expand(ps)),
        ) by {
        lemma_cli_insert(m2, msg, ps);
    }
}

#[verifier::rlimit(100)]
proof fn lemma_cli_part_5(m: Map<Seq<char>, Seq<PrincipalView>>)
    requires
        cli_rules_as_listed(m),
    ensures
        cli_rules_as_listed(rules_part_5(m)),
{
    reveal_with_fuel(lists, 8);
    reveal_strlit("GetAllExpectedMachines");
    reveal_strlit("ReplaceAllExpectedMachines");
    reveal_strlit("DeleteAllExpectedMachines");
    reveal_strlit("GetAllExpectedMachinesLinked");
    reveal_strlit("GetAllUnexpectedMachines");
    reveal_strlit("AttestQuote");
    reveal_strlit("SignMachineIdentity");
    reveal_strlit("GetTenantIdentityConfiguration");
    reveal_strlit("SetTenantIdentityConfiguration");
    reveal_strlit("DeleteTenantIdentityConfiguration");
    reveal_strlit("GetTokenDelegation");
    reveal_strlit("SetTokenDelegation");
    reveal_strlit("DeleteTokenDelegation");
    reveal_strlit("GetJWKS");
    reveal_strlit("GetOpenIDConfiguration");
    reveal_strlit("CreateMeasurementBundle");
    reveal_strlit("DeleteMeasurementBundle");
    reveal_strlit("RenameMeasurementBundle");
    reveal_strlit("UpdateMeasurementBundle");
    reveal_strlit("ShowMeasurementBundle");
    reveal_strlit("ShowMeasurementBundles");
    reveal_strlit("ListMeasurementBundles");
    reveal_strlit("ListMeasurementBundleMachines");
    reveal_strlit("FindClosestBundleMatch");
    reveal_strlit("DeleteMeasurementJournal");
    reveal_strlit("ShowMeasurementJournal");
    reveal_strlit("ShowMeasurementJournals");
    reveal_strlit("ListMeasurementJournal");
    reveal_strlit("AttestCandidateMachine");
    reveal_strlit("ShowCandidateMachine");
    reveal_strlit("ShowCandidateMachines");
    reveal_strlit("ListCandidateMachines");
    reveal_strlit("CreateMeasurementSystemProfile");
    reveal_strlit("DeleteMeasurementSystemProfile");
    reveal_strlit("RenameMeasurementSystemProfile");
    reveal_strlit("ShowMeasurementSystemProfile");
    reveal_strlit("ShowMeasurementSystemProfiles");
    reveal_strlit("ListMeasurementSystemProfiles");
    reveal_strlit("ListMeasurementSystemProfileBundles");
    reveal_strlit("ListMeasurementSystemProfileMachines");
    reveal_strlit("GetCloudInitInstructions");
    reveal_strlit("GetSwitchNvosCredentials");
    reveal_strlit("RenewMachineCertificate");
    assert("GetAllUnexpectedMachines"@[3] != "GetCloudInitInstructions"@[3]);
    assert("GetAllUnexpectedMachines"@[3] != "GetSwitchNvosCredentials"@[3]);
    assert("RenameMeasurementBundle"@[3] != "RenewMachineCertificate"@[3]);
    assert forall|m2: Map<Seq<char>, Seq<PrincipalView>>, msg: Seq<char>, ps: Seq<RulePrincipal>|
        cli_rules_as_listed(m2) && lists(ps, RulePrincipal::NicoAdminCLI) == !cli_refused(msg) implies #[trigger] cli_rules_as_listed(
            m2.insert(msg, expand(ps)),
        ) by {
        lemma_cli_insert(m2, msg, ps);
    }
}

#[verifier::rlimit(100)]
proof fn lemma_cli_part_6(m: Map<Seq<char>, Seq<PrincipalView>>)
    requires
        cli_rules_as_listed(m),
    ensures
        cli_rules_as_listed(rules_part_6(m)),
{
    reveal_with_fuel(lists, 8);
    reveal_strlit("CreateMeasurementReport");
    reveal_strlit("DeleteMeasurementReport");
    reveal_strlit("PromoteMeasurementReport");
    reveal_strlit("RevokeMeasurementReport");
    reveal_strlit("ShowMeasurementReportForId");
    reveal_strlit("ShowMeasurementReportsForMachine");
    reveal_strlit("ShowMeasurementReports");
    reveal_strlit("ListMeasurementReport");
    reveal_strlit("MatchMeasurementReport");
    reveal_strlit("ImportSiteMeasurements");
    reveal_strlit("ExportSiteMeasurements");
    reveal_strlit("AddMeasurementTrustedMachine");
    reveal_strlit("RemoveMeasurementTrustedMachine");
    reveal_strlit("AddMeasurementTrustedProfile");
    reveal_strlit("RemoveMeasurementTrustedProfile");
    reveal_strlit("ListMeasurementTrustedMachines");
    reveal_strlit("ListMeasurementTrustedProfiles");
    reveal_strlit("ListAttestationSummary");
    reveal_strlit("ImportStorageCluster");
    reveal_strlit("DeleteStorageCluster");
    reveal_strlit("ListStorageCluster");
    reveal_strlit("GetStorageCluster");
    reveal_strlit("UpdateStorageCluster");
    reveal_strlit("CreateStoragePool");
    reveal_strlit("DeleteStoragePool");
    reveal_strlit("ListStoragePool");
    reveal_strlit("GetStoragePool");
    reveal_strlit("UpdateStoragePool");
    reveal_strlit("CreateStorageVolume");
    reveal_strlit("DeleteStorageVolume");
    reveal_strlit("ListStorageVolume");
    reveal_strlit("GetStorageVolume");
    reveal_strlit("UpdateStorageVolume");
    reveal_strlit("CreateOsImage");
    reveal_strlit("DeleteOsImage");
    reveal_strlit("ListOsImage");
    reveal_strlit("GetOsImage");
    reveal_strlit("UpdateOsImage");
    reveal_strlit("CreateOperatingSystem");
    reveal_strlit("GetOperatingSystem");
    assert forall|m2: Map<Seq<char>, Seq<PrincipalView>>, msg: Seq<char>, ps: Seq<RulePrincipal>|
        cli_rules_as_listed(m2) && lists(ps, RulePrincipal::NicoAdminCLI) == !cli_refused(msg) implies #[trigger] cli_rules_as_listed(
            m2.insert(msg, expand(ps)),
        ) by {
        lemma_cli_insert(m2, msg, ps);
    }
}

#[verifier::rlimit(100)]
proof fn lemma_cli_part_7(m: Map<Seq<char>, Seq<PrincipalView>>)
    requires
        cli_rules_as_listed(m),
    ensures
        cli_rules_as_listed(rules_part_7(m)),
{
    reveal_with_fuel(lists, 8);
    reveal_strlit("UpdateOperatingSystem");
    reveal_strlit("DeleteOperatingSystem");
    reveal_strlit("FindOperatingSystemIds");
    reveal_strlit("FindOperatingSystemsByIds");
    reveal_strlit("GetOperatingSystemCachableIpxeTemplateArtifacts");
    reveal_strlit("UpdateOperatingSystemCachableIpxeTemplateArtifacts");
    reveal_strlit("GetIpxeTemplate");
    reveal_strlit("ListIpxeTemplates");
    reveal_strlit("FindRackStateHistories");
    reveal_strlit("RebootCompleted");
    reveal_strlit("PersistValidationResult");
    reveal_strlit("GetMachineValidationResults");
    reveal_strlit("MachineValidationCompleted");
    reveal_strlit("MachineSetAutoUpdate");
    reveal_strlit("GetMachineValidationExternalConfig");
    reveal_strlit("AddUpdateMachineValidationExternalConfig");
    reveal_strlit("GetMachineValidationRuns");
    reveal_strlit("AdminBmcReset");
    reveal_strlit("AdminPowerControl");
    reveal_strlit("DisableSecureBoot");
    reveal_strlit("MachineSetup");
    reveal_strlit("SetDpuFirstBootOrder");
    reveal_strlit("OnDemandMachineValidation");
    reveal_strlit("OnDemandRackMaintenance");
    reveal_strlit("TpmAddCaCert");
    reveal_strlit("TpmShowCaCerts");
    reveal_strlit("TpmShowUnmatchedEkCerts");
    reveal_strlit("TpmDeleteCaCert");
    reveal_strlit("RedfishListActions");
    reveal_strlit("RedfishCreateAction");
    reveal_strlit("RedfishApproveAction");
    reveal_strlit("RedfishApplyAction");
    reveal_strlit("RedfishCancelAction");
    reveal_strlit("FindTenantOrganizationIds");
    reveal_strlit("FindTenantsByOrganizationIds");
    reveal_strlit("FindMacAddressByBmcIp");
    reveal_strlit("FindBmcIps");
    reveal_strlit("BmcCredentialStatus");
    reveal_strlit("GetMachineValidationExternalConfigs");
    reveal_strlit("RemoveMachineValidationExternalConfig");
    reveal_strlit("GetCloudInitInstructions");
    reveal_strlit("GetSwitchNvosCredentials");
    assert("GetMachineValidationRuns"@[3] != "GetCloudInitInstructions"@[3]);
    assert("GetMachineValidationRuns"@[3] != "GetSwitchNvosCredentials"@[3]);
    assert forall|m2: Map<Seq<char>, Seq<PrincipalView>>, msg: Seq<char>, ps: Seq<RulePrincipal>|
        cli_rules_as_listed(m2) && lists(ps, RulePrincipal::NicoAdminCLI) == !cli_refused(msg) implies #[trigger] cli_rules_as_listed(
            m2.insert(msg, expand(ps)),
        ) by {
        lemma_cli_insert(m2, msg, ps);
    }
}

#[verifier::rlimit(100)]
proof fn lemma_cli_part_8(m: Map<Seq<char>, Seq<PrincipalView>>)
    requires
        cli_rules_as_listed(m),
    ensures
        cli_rules_as_listed(rules_part_8(m)),
{
    reveal_with_fuel(lists, 8);
    reveal_strlit("GetMachineValidationTests");
    reveal_strlit("AddMachineValidationTest");
    reveal_strlit("UpdateMachineValidationTest");
    reveal_strlit("MachineValidationTestVerfied");
    reveal_strlit("MachineValidationTestNextVersion");
    reveal_strlit("MachineValidationTestEnableDisableTest");
    reveal_strlit("UpdateMachineValidationRun");
    reveal_strlit("FindInstanceTypeIds");
    reveal_strlit("FindInstanceTypesByIds");
    reveal_strlit("CreateInstanceType");
    reveal_strlit("UpdateInstanceType");
    reveal_strlit("DeleteInstanceType");
    reveal_strlit("AssociateMachinesWithInstanceType");
    reveal_strlit("RemoveMachineInstanceTypeAssociation");
    reveal_strlit("RedfishBrowse");
    reveal_strlit("UfmBrowse");
    reveal_strlit("NmxcBrowse");
    reveal_strlit("UpdateMachineMetadata");
    reveal_strlit("UpdateRackMetadata");
    reveal_strlit("UpdateSwitchMetadata");
    reveal_strlit("UpdatePowerShelfMetadata");
    reveal_strlit("CreateNetworkSecurityGroup");
    reveal_strlit("FindNetworkSecurityGroupIds");
    reveal_strlit("FindNetworkSecurityGroupsByIds");
    reveal_strlit("UpdateNetworkSecurityGroup");
    reveal_strlit("DeleteNetworkSecurityGroup");
    reveal_strlit("GetNetworkSecurityGroupPropagationStatus");
    reveal_strlit("GetNetworkSecurityGroupAttachments");
    reveal_strlit("GetDesiredFirmwareVersions");
    reveal_strlit("CreateSku");
    reveal_strlit("GenerateSkuFromMachine");
    reveal_strlit("AssignSkuToMachine");
    reveal_strlit("VerifySkuForMachine");
    reveal_strlit("RemoveSkuAssociation");
    reveal_strlit("GetAllSkuIds");
    reveal_strlit("FindSkusByIds");
    reveal_strlit("DeleteSku");
    reveal_strlit("UpdateSkuMetadata");
    reveal_strlit("UpdateMachineHardwareInfo");
    reveal_strlit("ReplaceSku");
    reveal_strlit("CreateDpaInterface");
    reveal_strlit("DeleteDpaInterface");
    reveal_strlit("UpdateBMCMetaData");
    assert("CreateInstanceType"@[6] != "CreateDpaInterface"@[6]);
    assert("DeleteInstanceType"@[6] != "DeleteDpaInterface"@[6]);
    assert("UpdateSkuMetadata"@[6] != "UpdateBMCMetaData"@[6]);
    assert forall|m2: Map<Seq<char>, Seq<PrincipalView>>, msg: Seq<char>, ps: Seq<RulePrincipal>|
        cli_rules_as_listed(m2) && lists(ps, RulePrincipal::NicoAdminCLI) == !cli_refused(msg) implies #[trigger] cli_rules_as_listed(
            m2.insert(msg, expand(ps)),
        ) by {
        lemma_cli_insert(m2, msg, ps);
    }
}

#[verifier::rlimit(100)]
proof fn lemma_cli_part_9(m: Map<Seq<char>, Seq<PrincipalView>>)
    requires
        cli_rules_as_listed(m),
    ensures
        cli_rules_as_listed(rules_part_9(m)),
{
    reveal_with_fuel(lists, 8);
    reveal_strlit("GetManagedHostQuarantineState");
    reveal_strlit("SetManagedHostQuarantineState");
    reveal_strlit("ClearManagedHostQuarantineState");
    reveal_strlit("CreateVpcPeering");
    reveal_strlit("FindVpcPeeringIds");
    reveal_strlit("FindVpcPeeringsByIds");
    reveal_strlit("DeleteVpcPeering");
    reveal_strlit("ResetHostReprovisioning");
    reveal_strlit("CopyBfbToDpuRshim");
    reveal_strlit("GetPowerOptions");
    reveal_strlit("UpdatePowerOption");
    reveal_strlit("CreateBmcUser");
    reveal_strlit("DeleteBmcUser");
    reveal_strlit("SetFirmwareUpdateTimeWindow");
    reveal_strlit("ListHostFirmware");
    reveal_strlit("EnableInfiniteBoot");
    reveal_strlit("IsInfiniteBootEnabled");
    reveal_strlit("Lockdown");
    reveal_strlit("LockdownStatus");
    reveal_strlit("PublishMlxDeviceReport");
    reveal_strlit("PublishMlxObservationReport");
    reveal_strlit("TrimTable");
    reveal_strlit("ListNvlinkNmxcEndpoints");
    reveal_strlit("CreateNvlinkNmxcEndpoint");
    reveal_strlit("UpdateNvlinkNmxcEndpoint");
    reveal_strlit("DeleteNvlinkNmxcEndpoint");
    reveal_strlit("CreateRemediation");
    reveal_strlit("ApproveRemediation");
    reveal_strlit("RevokeRemediation");
    reveal_strlit("EnableRemediation");
    reveal_strlit("DisableRemediation");
    reveal_strlit("FindRemediationIds");
    reveal_strlit("FindRemediationsByIds");
    reveal_strlit("FindAppliedRemediations");
    reveal_strlit("FindAppliedRemediationIds");
    reveal_strlit("GetNextRemediationForMachine");
    reveal_strlit("RemediationApplied");
    reveal_strlit("DetermineMachineIngestionState");
    reveal_strlit("AllowIngestionAndPowerOn");
    reveal_strlit("SetPrimaryDpu");
    reveal_strlit("UpdateIBPartition");
    reveal_strlit("CreateIBPartition");
    assert("UpdatePowerOption"@[6] != "UpdateIBPartition"@[6]);
    assert("CreateRemediation"@[6] != "CreateIBPartition"@[6]);
    assert forall|m2: Map<Seq<char>, Seq<PrincipalView>>, msg: Seq<char>, ps: Seq<RulePrincipal>|
        cli_rules_as_listed(m2) && lists(ps, RulePrincipal::NicoAdminCLI) == !cli_refused(msg) implies #[trigger] cli_rules_as_listed(
            m2.insert(msg, expand(ps)),
        ) by {
        lemma_cli_insert(m2, msg, ps);
    }
}

#[verifier::rlimit(100)]
proof fn lemma_cli_part_10(m: Map<Seq<char>, Seq<PrincipalView>>)
    requires
        cli_rules_as_listed(m),
    ensures
        cli_rules_as_listed(rules_part_10(m)),
{
    reveal_with_fuel(lists, 8);
    reveal_strlit("CreateDpuExtensionService");
    reveal_strlit("UpdateDpuExtensionService");
    reveal_strlit("DeleteDpuExtensionService");
    reveal_strlit("FindDpuExtensionServiceIds");
    reveal_strlit("FindDpuExtensionServicesByIds");
    reveal_strlit("GetDpuExtensionServiceVersionsInfo");
    reveal_strlit("FindInstancesByDpuExtensionService");
    reveal_strlit("TriggerMachineAttestation");
    reveal_strlit("CancelMachineAttestation");
    reveal_strlit("ListAttestationsForMachineId");
    reveal_strlit("GetMachineAttestationStatus");
    reveal_strlit("FindMachineIdsUnderAttestation");
    reveal_strlit("FindPowerShelves");
    reveal_strlit("FindPowerShelfIds");
    reveal_strlit("FindPowerShelvesByIds");
    reveal_strlit("CreatePowerShelf");
    reveal_strlit("DeletePowerShelf");
    reveal_strlit("AddExpectedPowerShelf");
    reveal_strlit("DeleteExpectedPowerShelf");
    reveal_strlit("UpdateExpectedPowerShelf");
    reveal_strlit("GetExpectedPowerShelf");
    reveal_strlit("GetAllExpectedPowerShelves");
    reveal_strlit("ReplaceAllExpectedPowerShelves");
    reveal_strlit("DeleteAllExpectedPowerShelves");
    reveal_strlit("GetAllExpectedPowerShelvesLinked");
    reveal_strlit("FindPowerShelfStateHistories");
    reveal_strlit("SetPowerShelfMaintenance");
    reveal_strlit("FindSwitches");
    reveal_strlit("FindSwitchIds");
    reveal_strlit("FindSwitchesByIds");
    reveal_strlit("CreateSwitch");
    reveal_strlit("DeleteSwitch");
    reveal_strlit("AddExpectedSwitch");
    reveal_strlit("DeleteExpectedSwitch");
    reveal_strlit("UpdateExpectedSwitch");
    reveal_strlit("GetExpectedSwitch");
    reveal_strlit("GetAllExpectedSwitches");
    reveal_strlit("ReplaceAllExpectedSwitches");
    reveal_strlit("DeleteAllExpectedSwitches");
    reveal_strlit("GetAllExpectedSwitchesLinked");
    assert forall|m2: Map<Seq<char>, Seq<PrincipalView>>, msg: Seq<char>, ps: Seq<RulePrincipal>|
        cli_rules_as_listed(m2) && lists(ps, RulePrincipal::NicoAdminCLI) == !cli_refused(msg) implies #[trigger] cli_rules_as_listed(
            m2.insert(msg, expand(ps)),
        ) by {
        lemma_cli_insert(m2, msg, ps);
    }
}

#[verifier::rlimit(100)]
proof fn lemma_cli_part_11(m: Map<Seq<char>, Seq<PrincipalView>>)
    requires
        cli_rules_as_listed(m),
    ensures
        cli_rules_as_listed(rules_part_11(m)),
{
    reveal_with_fuel(lists, 8);
    reveal_strlit("AddExpectedRack");
    reveal_strlit("DeleteExpectedRack");
    reveal_strlit("UpdateExpectedRack");
    reveal_strlit("GetExpectedRack");
    reveal_strlit("GetAllExpectedRacks");
    reveal_strlit("ReplaceAllExpectedRacks");
    reveal_strlit("DeleteAllExpectedRacks");
    reveal_strlit("FindSwitchStateHistories");
    reveal_strlit("FindRackIds");
    reveal_strlit("FindRacksByIds");
    reveal_strlit("GetRack");
    reveal_strlit("DeleteRack");
    reveal_strlit("GetRackProfile");
    reveal_strlit("RackManagerCall");
    reveal_strlit("ScoutStream");
    reveal_strlit("ScoutStreamShowConnections");
    reveal_strlit("ScoutStreamDisconnect");
    reveal_strlit("ScoutStreamPing");
    reveal_strlit("MlxAdminProfileSync");
    reveal_strlit("MlxAdminProfileShow");
    reveal_strlit("MlxAdminProfileCompare");
    reveal_strlit("MlxAdminProfileList");
    reveal_strlit("MlxAdminLockdownLock");
    reveal_strlit("MlxAdminLockdownUnlock");
    reveal_strlit("MlxAdminLockdownStatus");
    reveal_strlit("MlxAdminShowDevice");
    reveal_strlit("MlxAdminShowMachine");
    reveal_strlit("MlxAdminRegistryList");
    reveal_strlit("MlxAdminRegistryShow");
    reveal_strlit("MlxAdminConfigQuery");
    reveal_strlit("MlxAdminConfigSet");
    reveal_strlit("MlxAdminConfigSync");
    reveal_strlit("MlxAdminConfigCompare");
    reveal_strlit("FindNVLinkPartitionIds");
    reveal_strlit("FindNVLinkPartitionsByIds");
    reveal_strlit("NVLinkPartitionsForTenant");
    reveal_strlit("FindNVLinkLogicalPartitionIds");
    reveal_strlit("FindNVLinkLogicalPartitionsByIds");
    reveal_strlit("CreateNVLinkLogicalPartition");
    reveal_strlit("UpdateNVLinkLogicalPartition");
    assert forall|m2: Map<Seq<char>, Seq<PrincipalView>>, msg: Seq<char>, ps: Seq<RulePrincipal>|
        cli_rules_as_listed(m2) && lists(ps, RulePrincipal::NicoAdminCLI) == !cli_refused(msg) implies #[trigger] cli_rules_as_listed(
            m2.insert(msg, expand(ps)),
        ) by {
        lemma_cli_insert(m2, msg, ps);
    }
}

#[verifier::rlimit(100)]
proof fn lemma_cli_part_12(m: Map<Seq<char>, Seq<PrincipalView>>)
    requires
        cli_rules_as_listed(m),
    ensures
        cli_rules_as_listed(rules_part_12(m)),
{
    reveal_with_fuel(lists, 8);
    reveal_strlit("DeleteNVLinkLogicalPartition");
    reveal_strlit("NVLinkLogicalPartitionsForTenant");
    reveal_strlit("GetMachinePositionInfo");
    reveal_strlit("ModifyDPFState");
    reveal_strlit("GetDPFState");
    reveal_strlit("UpdateMachineNvLinkInfo");
    reveal_strlit("CreateComputeAllocation");
    reveal_strlit("FindComputeAllocationIds");
    reveal_strlit("FindComputeAllocationsByIds");
    reveal_strlit("UpdateComputeAllocation");
    reveal_strlit("DeleteComputeAllocation");
    reveal_strlit("ComponentPowerControl");
    reveal_strlit("GetComponentInventory");
    reveal_strlit("UpdateComponentFirmware");
    reveal_strlit("GetComponentFirmwareStatus");
    reveal_strlit("ListComponentFirmwareVersions");
    reveal_strlit("GetDPFHostSnapshot");
    reveal_strlit("GetDPFServiceVersions");
    assert forall|m2: Map<Seq<char>, Seq<PrincipalView>>, msg: Seq<char>, ps: Seq<RulePrincipal>|
        cli_rules_as_listed(m2) && lists(ps, RulePrincipal::NicoAdminCLI) == !cli_refused(msg) implies #[trigger] cli_rules_as_listed(
            m2.insert(msg, expand(ps)),
        ) by {
        lemma_cli_insert(m2, msg, ps);
    }
}

/// The built-in rule table lists the admin CLI, and so admits every external user, in the
/// rule of every request except exactly those that `cli_refused` names.
pub proof fn lemma_table_cli_requests()
    ensures
        cli_rules_as_listed(rbac_table()),
{
    let m = Map::<Seq<char>, Seq<PrincipalView>>::empty();
    lemma_cli_part_1(m);
    let r1 = rules_part_1(m);
    lemma_cli_part_2(r1);
    let r2 = rules_part_2(r1);
    lemma_cli_part_3(r2);
    let r3 = rules_part_3(r2);
    lemma_cli_part_4(r3);
    let r4 = rules_part_4(r3);
    lemma_cli_part_5(r4);
    let r5 = rules_part_5(r4);
    lemma_cli_part_6(r5);
    let r6 = rules_part_6(r5);
    lemma_cli_part_7(r6);
    let r7 = rules_part_7(r6);
    lemma_cli_part_8(r7);
    let r8 = rules_part_8(r7);
    lemma_cli_part_9(r8);
    let r9 = rules_part_9(r8);
    lemma_cli_part_10(r9);
    let r10 = rules_part_10(r9);
    lemma_cli_part_11(r10);
    let r11 = rules_part_11(r10);
    lemma_cli_part_12(r11);
    let r12 = rules_part_12(r11);
    assert(r12 == rbac_table());
}

/// Wherever a rule lists the admin CLI, every external user is admitted, whatever its
/// organisation, group or name.
pub proof fn lemma_cli_rule_admits_external_users(rule: Seq<PrincipalView>, u: ExternalUserView)
    requires
        rule.contains(admin_cli_view()),
    ensures
        allowed_by(Some(rule), seq![PrincipalView::ExternalUser(u)]),
{
    let i = choose|i: int| 0 <= i < rule.len() && rule[i] == admin_cli_view();
    let users = seq![PrincipalView::ExternalUser(u)];
    assert(covers(users[0], rule[i]));
}

} // verus!
