//! Resolving a client IP, for cloud-init and PXE boot: to the machine interface that holds
//! the address, or through a tenant instance to one of its host's interfaces; and the
//! cloud-init instructions that each case is given.

use vstd::prelude::*;

use crate::api_error::{ApiError, ApiErrorView};
use crate::text::{push_str, str_eq};

verus! {

/// A machine interface, as far as client resolution reads it.
#[derive(Debug, Clone)]
pub struct MachineInterfaceSnapshot {
    pub id: String,
    pub segment_id: String,
    pub domain_id: Option<String>,
    pub machine_id: Option<String>,
}

/// A DNS domain.
#[derive(Debug, Clone)]
pub struct Domain {
    pub id: String,
    pub name: String,
}

/// The bridging settings of VM-as-a-service hosts.
#[derive(Debug, Clone)]
pub struct BridgingConfig {
    pub vf_intercept_bridge_name: String,
    pub host_intercept_bridge_name: String,
    pub host_intercept_bridge_port: String,
    pub vf_intercept_bridge_port: String,
    pub vf_intercept_bridge_sf: String,
}

/// The settings of VM-as-a-service hosts.
#[derive(Debug, Clone)]
pub struct VmaasConfig {
    pub hbn_reps: Option<String>,
    pub hbn_sfs: Option<String>,
    pub bridging: Option<BridgingConfig>,
}

/// The part of the API's runtime configuration that cloud-init instructions draw on.
#[derive(Debug, Clone)]
pub struct CloudInitConfig {
    pub external_api_url: Option<String>,
    pub external_pxe_url: Option<String>,
    pub vmaas_config: Option<VmaasConfig>,
    pub num_of_vfs: u32,
}

/// Who a cloud-init client is.
#[derive(Debug, Clone)]
pub struct CloudInitMetaData {
    pub instance_id: String,
    pub cloud_name: String,
    pub platform: String,
}

/// What a host that is not running a tenant instance is told to discover with.
#[derive(Debug, Clone)]
pub struct CloudInitDiscoveryInstructions {
    pub machine_interface: Option<MachineInterfaceSnapshot>,
    pub domain: Option<Domain>,
    pub hbn_reps: Option<String>,
    pub hbn_sfs: Option<String>,
    pub vf_intercept_bridge_name: Option<String>,
    pub host_intercept_bridge_name: Option<String>,
    pub host_intercept_bridge_port: Option<String>,
    pub vf_intercept_bridge_port: Option<String>,
    pub vf_intercept_bridge_sf: Option<String>,
    pub num_of_vfs: Option<u32>,
}

/// The cloud-init response to a client.
#[derive(Debug, Clone)]
pub struct CloudInitInstructions {
    pub custom_cloud_init: Option<String>,
    pub discovery_instructions: Option<CloudInitDiscoveryInstructions>,
    pub metadata: Option<CloudInitMetaData>,
    pub api_url_override: Option<String>,
    pub pxe_url_override: Option<String>,
}

pub open spec fn ot(o: Option<String>) -> Option<Seq<char>> {
    match o {
        Some(s) => Some(s@),
        None => None,
    }
}

// ---------------------------------------------------------------------------
// Resolving the client
// ---------------------------------------------------------------------------

/// The error of an address that neither an interface nor an instance holds.
pub fn unknown_client(client_ip: &str) -> (r: ApiError)
    ensures
        r@ == (ApiErrorView::NotFound { kind: "Client"@, id: client_ip@ }),
{
    ApiError::NotFound { kind: String::from_str("Client"), id: String::from_str(client_ip) }
}

/// The error of an instance address whose instance is gone.
pub fn missing_instance(client_ip: &str, instance_id: &str) -> (r: ApiError)
    ensures
        r@ == ApiErrorView::Internal(
            "instance_address "@ + client_ip@ + " references missing instance "@ + instance_id@,
        ),
{
    let mut m = String::from_str("instance_address ");
    push_str(&mut m, client_ip);
    push_str(&mut m, " references missing instance ");
    push_str(&mut m, instance_id);
    ApiError::Internal(m)
}

/// The interface of a host that PXE scripts are made for: the first on an admin segment,
/// else the first there is.
pub open spec fn chosen_interface(segments: Seq<Seq<char>>, admin: Seq<Seq<char>>) -> Option<int> {
    if exists|i: int| 0 <= i < segments.len() && admin.contains(#[trigger] segments[i]) {
        Some(choose|i: int| 0 <= i < segments.len() && admin.contains(#[trigger] segments[i])
            && forall|j: int| 0 <= j < i ==> !admin.contains(#[trigger] segments[j]))
    } else if segments.len() > 0 {
        Some(0)
    } else {
        None
    }
}

/// The interface chosen for a host is on an admin segment whenever one of its interfaces
/// is, and no earlier interface is; otherwise it is the first interface.
pub proof fn lemma_prefers_admin_segment(segments: Seq<Seq<char>>, admin: Seq<Seq<char>>)
    ensures
        (exists|i: int| 0 <= i < segments.len() && admin.contains(#[trigger] segments[i])) ==> ({
            let k = chosen_interface(segments, admin)->0;
            &&& chosen_interface(segments, admin) is Some
            &&& 0 <= k < segments.len()
            &&& admin.contains(segments[k])
            &&& forall|j: int| 0 <= j < k ==> !admin.contains(#[trigger] segments[j])
        }),
        (forall|i: int| 0 <= i < segments.len() ==> !admin.contains(#[trigger] segments[i])) ==> chosen_interface(
            segments,
            admin,
        ) == (if segments.len() > 0 {
            Some(0int)
        } else {
            None
        }),
{
    if exists|i: int| 0 <= i < segments.len() && admin.contains(#[trigger] segments[i]) {
        let w = choose|i: int| 0 <= i < segments.len() && admin.contains(#[trigger] segments[i]);
        lemma_first_admin(segments, admin, w);
    }
}

proof fn lemma_first_admin(segments: Seq<Seq<char>>, admin: Seq<Seq<char>>, w: int)
    requires
        0 <= w < segments.len(),
        admin.contains(segments[w]),
    ensures
        exists|k: int| 0 <= k < segments.len() && admin.contains(#[trigger] segments[k])
            && forall|j: int| 0 <= j < k ==> !admin.contains(#[trigger] segments[j]),
    decreases w,
{
    if exists|j: int| 0 <= j < w && admin.contains(#[trigger] segments[j]) {
        let j = choose|j: int| 0 <= j < w && admin.contains(#[trigger] segments[j]);
        lemma_first_admin(segments, admin, j);
    } else {
        assert(forall|j: int| 0 <= j < w ==> !admin.contains(#[trigger] segments[j]));
    }
}

/// Whether `x` is among `v`.
fn contains_text(v: &Vec<String>, x: &str) -> (r: bool)
    ensures
        r == v@.map_values(|t: String| t@).contains(x@),
{
    let ghost vs = v@.map_values(|t: String| t@);
    let mut i: usize = 0;
    while i < v.len()
        invariant
            i <= v@.len(),
            vs == v@.map_values(|t: String| t@),
            forall|j: int| 0 <= j < i ==> vs[j] != x@,
        decreases v@.len() - i,
    {
        if str_eq(v[i].as_str(), x) {
            assert(vs[i as int] == x@);
            return true;
        }
        i = i + 1;
    }
    false
}

/// The position of the interface of a host that PXE scripts are made for, among the host's
/// interfaces: the first on an admin segment, else the first; a host without interfaces is
/// an internal error.
pub fn pick_host_interface(
    interfaces: &Vec<MachineInterfaceSnapshot>,
    admin_segment_ids: &Vec<String>,
    host_machine_id: &str,
) -> (r: Result<usize, ApiError>)
    ensures
        ({
            let segments = interfaces@.map_values(|i: MachineInterfaceSnapshot| i.segment_id@);
            let admin = admin_segment_ids@.map_values(|t: String| t@);
            match r {
                Ok(k) => chosen_interface(segments, admin) == Some(k as int),
                Err(e) => chosen_interface(segments, admin) is None && e@ == ApiErrorView::Internal(
                    "host "@ + host_machine_id@ + " has no machine_interfaces"@,
                ),
            }
        }),
{
    let ghost segments = interfaces@.map_values(|i: MachineInterfaceSnapshot| i.segment_id@);
    let ghost admin = admin_segment_ids@.map_values(|t: String| t@);
    let mut i: usize = 0;
    while i < interfaces.len()
        invariant
            i <= interfaces@.len(),
            segments == interfaces@.map_values(|i: MachineInterfaceSnapshot| i.segment_id@),
            admin == admin_segment_ids@.map_values(|t: String| t@),
            forall|j: int| 0 <= j < i ==> !admin.contains(#[trigger] segments[j]),
        decreases interfaces@.len() - i,
    {
        if contains_text(admin_segment_ids, interfaces[i].segment_id.as_str()) {
            assert(admin.contains(segments[i as int]));
            let ghost c = choose|k: int| 0 <= k < segments.len() && admin.contains(#[trigger] segments[k])
                && forall|j: int| 0 <= j < k ==> !admin.contains(#[trigger] segments[j]);
            assert(0 <= c < segments.len() && admin.contains(segments[c]) && forall|j: int|
                0 <= j < c ==> !admin.contains(#[trigger] segments[j]));
            assert(c == i) by {
                if c < i {
                    assert(!admin.contains(segments[c]));
                } else if c > i {
                    assert(!admin.contains(segments[i as int]));
                }
            }
            return Ok(i);
        }
        i = i + 1;
    }
    if interfaces.len() > 0 {
        Ok(0)
    } else {
        let mut m = String::from_str("host ");
        push_str(&mut m, host_machine_id);
        push_str(&mut m, " has no machine_interfaces");
        Err(ApiError::Internal(m))
    }
}

/// The interfaces of the host of an instance, which must have some.
pub fn host_interfaces(found: Option<Vec<MachineInterfaceSnapshot>>, host_machine_id: &str) -> (r: Result<
    Vec<MachineInterfaceSnapshot>,
    ApiError,
>)
    ensures
        match found {
            Some(v) => r matches Ok(x) && x@ == v@,
            None => r matches Err(e) && e@ == ApiErrorView::Internal(
                "no machine_interfaces for host "@ + host_machine_id@,
            ),
        },
{
    match found {
        Some(v) => Ok(v),
        None => {
            let mut m = String::from_str("no machine_interfaces for host ");
            push_str(&mut m, host_machine_id);
            Err(ApiError::Internal(m))
        },
    }
}

// ---------------------------------------------------------------------------
// Cloud-init instructions
// ---------------------------------------------------------------------------

pub struct InterfaceView {
    pub id: Seq<char>,
    pub segment_id: Seq<char>,
    pub domain_id: Option<Seq<char>>,
    pub machine_id: Option<Seq<char>>,
}

pub struct DiscoveryView {
    pub machine_interface: Option<InterfaceView>,
    pub domain: Option<(Seq<char>, Seq<char>)>,
    pub hbn_reps: Option<Seq<char>>,
    pub hbn_sfs: Option<Seq<char>>,
    pub vf_intercept_bridge_name: Option<Seq<char>>,
    pub host_intercept_bridge_name: Option<Seq<char>>,
    pub host_intercept_bridge_port: Option<Seq<char>>,
    pub vf_intercept_bridge_port: Option<Seq<char>>,
    pub vf_intercept_bridge_sf: Option<Seq<char>>,
    pub num_of_vfs: Option<u32>,
}

pub struct InstructionsView {
    pub custom_cloud_init: Option<Seq<char>>,
    pub discovery_instructions: Option<DiscoveryView>,
    /// Instance ID, cloud name and platform.
    pub metadata: Option<(Seq<char>, Seq<char>, Seq<char>)>,
    pub api_url_override: Option<Seq<char>>,
    pub pxe_url_override: Option<Seq<char>>,
}

impl View for MachineInterfaceSnapshot {
    type V = InterfaceView;

    open spec fn view(&self) -> InterfaceView {
        InterfaceView {
            id: self.id@,
            segment_id: self.segment_id@,
            domain_id: ot(self.domain_id),
            machine_id: ot(self.machine_id),
        }
    }
}

impl View for CloudInitDiscoveryInstructions {
    type V = DiscoveryView;

    open spec fn view(&self) -> DiscoveryView {
        DiscoveryView {
            machine_interface: match self.machine_interface {
                Some(i) => Some(i@),
                None => None,
            },
            domain: match self.domain {
                Some(d) => Some((d.id@, d.name@)),
                None => None,
            },
            hbn_reps: ot(self.hbn_reps),
            hbn_sfs: ot(self.hbn_sfs),
            vf_intercept_bridge_name: ot(self.vf_intercept_bridge_name),
            host_intercept_bridge_name: ot(self.host_intercept_bridge_name),
            host_intercept_bridge_port: ot(self.host_intercept_bridge_port),
            vf_intercept_bridge_port: ot(self.vf_intercept_bridge_port),
            vf_intercept_bridge_sf: ot(self.vf_intercept_bridge_sf),
            num_of_vfs: self.num_of_vfs,
        }
    }
}

impl View for CloudInitInstructions {
    type V = InstructionsView;

    open spec fn view(&self) -> InstructionsView {
        InstructionsView {
            custom_cloud_init: ot(self.custom_cloud_init),
            discovery_instructions: match self.discovery_instructions {
                Some(d) => Some(d@),
                None => None,
            },
            metadata: match self.metadata {
                Some(m) => Some((m.instance_id@, m.cloud_name@, m.platform@)),
                None => None,
            },
            api_url_override: ot(self.api_url_override),
            pxe_url_override: ot(self.pxe_url_override),
        }
    }
}

/// Who a cloud-init client is, with the cloud's name and platform.
pub open spec fn metadata_of(id: Seq<char>) -> (Seq<char>, Seq<char>, Seq<char>) {
    (id, "nvidia"@, "nico"@)
}

fn metadata_for(id: &str) -> (r: CloudInitMetaData)
    ensures
        (r.instance_id@, r.cloud_name@, r.platform@) == metadata_of(id@),
{
    CloudInitMetaData {
        instance_id: String::from_str(id),
        cloud_name: String::from_str("nvidia"),
        platform: String::from_str("nico"),
    }
}

/// The instructions for a tenant instance: the tenant's user data, and who the instance is.
pub fn instance_instructions(instance_id: &str, user_data: Option<String>) -> (r: CloudInitInstructions)
    ensures
        r@ == (InstructionsView {
            custom_cloud_init: ot(user_data),
            discovery_instructions: None,
            metadata: Some(metadata_of(instance_id@)),
            api_url_override: None,
            pxe_url_override: None,
        }),
{
    CloudInitInstructions {
        custom_cloud_init: user_data,
        discovery_instructions: None,
        metadata: Some(metadata_for(instance_id)),
        api_url_override: None,
        pxe_url_override: None,
    }
}

/// The domain of an interface, which it must have.
pub fn interface_domain_id(iface: &MachineInterfaceSnapshot) -> (r: Result<String, ApiError>)
    ensures
        match iface.domain_id {
            Some(d) => r matches Ok(x) && x@ == d@,
            None => r matches Err(e) && e@ == ApiErrorView::Internal(
                "Machine Interface did not have an associated domain "@ + iface.id@,
            ),
        },
{
    match &iface.domain_id {
        Some(d) => Ok(d.clone()),
        None => {
            let mut m = String::from_str("Machine Interface did not have an associated domain ");
            push_str(&mut m, iface.id.as_str());
            Err(ApiError::Internal(m))
        },
    }
}

/// The domain looked up by its ID, which must exist.
pub fn found_domain(domain: Option<Domain>, domain_id: &str) -> (r: Result<Domain, ApiError>)
    ensures
        match domain {
            Some(d) => r matches Ok(x) && x.id@ == d.id@ && x.name@ == d.name@,
            None => r matches Err(e) && e@ == ApiErrorView::Internal("Could not find domain with id "@ + domain_id@),
        },
{
    match domain {
        Some(d) => Ok(d),
        None => {
            let mut m = String::from_str("Could not find domain with id ");
            push_str(&mut m, domain_id);
            Err(ApiError::Internal(m))
        },
    }
}

/// The segment ID that stands for no segment: the nil UUID.
pub open spec fn nil_segment_id() -> Seq<char> {
    "00000000-0000-0000-0000-000000000000"@
}

/// Whether an interface is on the static-assignments segment, whose hosts are outside the
/// site and are told where to reach the API and PXE services; where that segment could not
/// be looked up, the nil segment ID stands for it.
pub open spec fn on_static_segment(segment_id: Seq<char>, static_segment: Option<Seq<char>>) -> bool {
    segment_id == match static_segment {
        Some(s) => s,
        None => nil_segment_id(),
    }
}

/// A bridging field of the VM-as-a-service settings, where there are bridging settings.
pub open spec fn bridging_field(v: Option<VmaasConfig>, f: spec_fn(BridgingConfig) -> String) -> Option<Seq<char>> {
    match v {
        Some(vc) => match vc.bridging {
            Some(b) => Some(f(b)@),
            None => None,
        },
        None => None,
    }
}

/// The instructions for a host interface: its boot override's user data, what it is to
/// discover with, who its machine is, and, on the static-assignments segment, where the
/// external API and PXE services are.
pub open spec fn interface_instructions_of(
    iface: InterfaceView,
    domain: (Seq<char>, Seq<char>),
    boot_override: Option<Option<Seq<char>>>,
    static_segment: Option<Seq<char>>,
    config: CloudInitConfig,
) -> InstructionsView {
    let external = on_static_segment(iface.segment_id, static_segment);
    let v = config.vmaas_config;
    InstructionsView {
        custom_cloud_init: match boot_override {
            Some(u) => u,
            None => None,
        },
        discovery_instructions: Some(
            DiscoveryView {
                machine_interface: Some(iface),
                domain: Some(domain),
                hbn_reps: match v {
                    Some(vc) => ot(vc.hbn_reps),
                    None => None,
                },
                hbn_sfs: match v {
                    Some(vc) => ot(vc.hbn_sfs),
                    None => None,
                },
                vf_intercept_bridge_name: bridging_field(v, |b: BridgingConfig| b.vf_intercept_bridge_name),
                host_intercept_bridge_name: bridging_field(v, |b: BridgingConfig| b.host_intercept_bridge_name),
                host_intercept_bridge_port: bridging_field(v, |b: BridgingConfig| b.host_intercept_bridge_port),
                vf_intercept_bridge_port: bridging_field(v, |b: BridgingConfig| b.vf_intercept_bridge_port),
                vf_intercept_bridge_sf: bridging_field(v, |b: BridgingConfig| b.vf_intercept_bridge_sf),
                num_of_vfs: Some(config.num_of_vfs),
            },
        ),
        metadata: match iface.machine_id {
            Some(m) => Some(metadata_of(m)),
            None => None,
        },
        api_url_override: if external {
            ot(config.external_api_url)
        } else {
            None
        },
        pxe_url_override: if external {
            ot(config.external_pxe_url)
        } else {
            None
        },
    }
}

fn clone_opt(o: &Option<String>) -> (r: Option<String>)
    ensures
        ot(r) == ot(*o),
{
    match o {
        Some(s) => Some(s.clone()),
        None => None,
    }
}

/// The instructions for a host interface, given its domain, the user data of its boot
/// override where it has one, and the static-assignments segment where it could be looked up.
pub fn interface_instructions(
    iface: MachineInterfaceSnapshot,
    domain: Domain,
    boot_override: Option<Option<String>>,
    static_segment: Option<String>,
    config: &CloudInitConfig,
) -> (r: CloudInitInstructions)
    ensures
        r@ == interface_instructions_of(
            iface@,
            (domain.id@, domain.name@),
            match boot_override {
                Some(u) => Some(ot(u)),
                None => None,
            },
            ot(static_segment),
            *config,
        ),
{
    let custom_cloud_init = match boot_override {
        Some(u) => u,
        None => None,
    };
    let metadata = match &iface.machine_id {
        Some(m) => Some(metadata_for(m.as_str())),
        None => None,
    };
    let external = match &static_segment {
        Some(s) => str_eq(iface.segment_id.as_str(), s.as_str()),
        None => str_eq(iface.segment_id.as_str(), "00000000-0000-0000-0000-000000000000"),
    };
    let (api_url_override, pxe_url_override) = if external {
        (clone_opt(&config.external_api_url), clone_opt(&config.external_pxe_url))
    } else {
        (None, None)
    };
    let (hbn_reps, hbn_sfs) = match &config.vmaas_config {
        Some(vc) => (clone_opt(&vc.hbn_reps), clone_opt(&vc.hbn_sfs)),
        None => (None, None),
    };
    let bridging = match &config.vmaas_config {
        Some(vc) => match &vc.bridging {
            Some(b) => Some(b),
            None => None,
        },
        None => None,
    };
    let (a, b, c, d, e) = match bridging {
        Some(br) => (
            Some(br.vf_intercept_bridge_name.clone()),
            Some(br.host_intercept_bridge_name.clone()),
            Some(br.host_intercept_bridge_port.clone()),
            Some(br.vf_intercept_bridge_port.clone()),
            Some(br.vf_intercept_bridge_sf.clone()),
        ),
        None => (None, None, None, None, None),
    };
    CloudInitInstructions {
        custom_cloud_init,
        discovery_instructions: Some(
            CloudInitDiscoveryInstructions {
                machine_interface: Some(iface),
                domain: Some(domain),
                hbn_reps,
                hbn_sfs,
                vf_intercept_bridge_name: a,
                host_intercept_bridge_name: b,
                host_intercept_bridge_port: c,
                vf_intercept_bridge_port: d,
                vf_intercept_bridge_sf: e,
                num_of_vfs: Some(config.num_of_vfs),
            },
        ),
        metadata,
        api_url_override,
        pxe_url_override,
    }
}

// ---------------------------------------------------------------------------
// The order of the lookups
// ---------------------------------------------------------------------------

/// A tenant instance, as far as client resolution reads it: its ID, the host it runs on,
/// and the user data of its operating system.
#[derive(Debug, Clone)]
pub struct InstanceSnapshot {
    pub id: String,
    pub machine_id: String,
    pub user_data: Option<String>,
}

/// Whom a client address belongs to: a machine interface, or a tenant instance.
#[derive(Debug, Clone)]
pub enum ResolvedClient {
    Interface(MachineInterfaceSnapshot),
    Instance(InstanceSnapshot),
}

/// What has been learned while resolving a client address: nothing yet; the interface that
/// holds the address, if one does; the instance that the address is allocated to, if any;
/// and that instance, if it still exists.
#[derive(Debug, Clone)]
pub enum ResolveEvent {
    Start,
    InterfaceLookedUp(Option<MachineInterfaceSnapshot>),
    AddressLookedUp(Option<String>),
    InstanceLookedUp { instance_id: String, instance: Option<InstanceSnapshot> },
}

/// The next step in resolving a client address: a lookup, or the outcome.
#[derive(Debug, Clone)]
pub enum ResolveAction {
    /// Look up the machine interface that holds the address.
    FindInterfaceByAddress,
    /// Look up the instance address record of the address.
    FindInstanceAddress,
    /// Look up the instance with this ID.
    FindInstance(String),
    Resolved(ResolvedClient),
    Failed(ApiError),
}

/// Resolving a client address, one lookup at a time: the machine interfaces are searched
/// first; only where no interface holds the address are the instance addresses searched,
/// and then the instance that one names. An address that neither holds is an unknown client;
/// an instance address whose instance is gone is an internal error.
pub fn resolve_client_step(client_ip: &str, event: ResolveEvent) -> (r: ResolveAction)
    ensures
        match event {
            ResolveEvent::Start => r is FindInterfaceByAddress,
            ResolveEvent::InterfaceLookedUp(found) => match found {
                Some(i) => r matches ResolveAction::Resolved(ResolvedClient::Interface(j)) && j@ == i@,
                None => r is FindInstanceAddress,
            },
            ResolveEvent::AddressLookedUp(found) => match found {
                Some(id) => r matches ResolveAction::FindInstance(x) && x@ == id@,
                None => r matches ResolveAction::Failed(e) && e@ == (ApiErrorView::NotFound {
                    kind: "Client"@,
                    id: client_ip@,
                }),
            },
            ResolveEvent::InstanceLookedUp { instance_id, instance } => match instance {
                Some(inst) => r matches ResolveAction::Resolved(ResolvedClient::Instance(j)) && j.id@ == inst.id@
                    && j.machine_id@ == inst.machine_id@ && ot(j.user_data) == ot(inst.user_data),
                None => r matches ResolveAction::Failed(e) && e@ == ApiErrorView::Internal(
                    "instance_address "@ + client_ip@ + " references missing instance "@ + instance_id@,
                ),
            },
        },
{
    match event {
        ResolveEvent::Start => ResolveAction::FindInterfaceByAddress,
        ResolveEvent::InterfaceLookedUp(found) => match found {
            Some(i) => ResolveAction::Resolved(ResolvedClient::Interface(i)),
            None => ResolveAction::FindInstanceAddress,
        },
        ResolveEvent::AddressLookedUp(found) => match found {
            Some(id) => ResolveAction::FindInstance(id),
            None => ResolveAction::Failed(unknown_client(client_ip)),
        },
        ResolveEvent::InstanceLookedUp { instance_id, instance } => match instance {
            Some(inst) => ResolveAction::Resolved(ResolvedClient::Instance(inst)),
            None => ResolveAction::Failed(missing_instance(client_ip, instance_id.as_str())),
        },
    }
}

/// What has been learned while answering a cloud-init client, once its address is resolved.
#[derive(Debug, Clone)]
pub enum CloudInitEvent {
    Resolved(ResolvedClient),
    DomainLookedUp { iface: MachineInterfaceSnapshot, domain_id: String, domain: Option<Domain> },
    BootOverrideLookedUp { iface: MachineInterfaceSnapshot, domain: Domain, user_data: Option<Option<String>> },
    StaticSegmentLookedUp {
        iface: MachineInterfaceSnapshot,
        domain: Domain,
        user_data: Option<Option<String>>,
        static_segment: Option<String>,
    },
}

/// The next step in answering a cloud-init client.
#[derive(Debug, Clone)]
pub enum CloudInitAction {
    /// Look up the domain with this ID.
    FindDomain(String),
    /// Look up the boot override of the interface with this ID.
    FindBootOverride(String),
    /// Look up the static-assignments segment.
    FindStaticSegment,
    Respond(CloudInitInstructions),
    Failed(ApiError),
}

/// Answering a cloud-init client whose address is resolved: an instance is answered at
/// once; for an interface, its domain is looked up, then its boot override, then the
/// static-assignments segment, and then it is answered. An interface without a domain, or
/// whose domain is gone, is an internal error.
pub fn cloud_init_step(config: &CloudInitConfig, event: CloudInitEvent) -> (r: CloudInitAction)
    ensures
        match event {
            CloudInitEvent::Resolved(ResolvedClient::Instance(inst)) => r matches CloudInitAction::Respond(x)
                && x@ == (InstructionsView {
                    custom_cloud_init: ot(inst.user_data),
                    discovery_instructions: None,
                    metadata: Some(metadata_of(inst.id@)),
                    api_url_override: None,
                    pxe_url_override: None,
                }),
            CloudInitEvent::Resolved(ResolvedClient::Interface(i)) => match i.domain_id {
                Some(d) => r matches CloudInitAction::FindDomain(x) && x@ == d@,
                None => r matches CloudInitAction::Failed(e) && e@ == ApiErrorView::Internal(
                    "Machine Interface did not have an associated domain "@ + i.id@,
                ),
            },
            CloudInitEvent::DomainLookedUp { iface, domain_id, domain } => match domain {
                Some(_) => r matches CloudInitAction::FindBootOverride(x) && x@ == iface.id@,
                None => r matches CloudInitAction::Failed(e) && e@ == ApiErrorView::Internal(
                    "Could not find domain with id "@ + domain_id@,
                ),
            },
            CloudInitEvent::BootOverrideLookedUp { .. } => r is FindStaticSegment,
            CloudInitEvent::StaticSegmentLookedUp { iface, domain, user_data, static_segment } => r matches CloudInitAction::Respond(x)
                && x@ == interface_instructions_of(
                iface@,
                (domain.id@, domain.name@),
                match user_data {
                    Some(u) => Some(ot(u)),
                    None => None,
                },
                ot(static_segment),
                *config,
            ),
        },
{
    match event {
        CloudInitEvent::Resolved(ResolvedClient::Instance(inst)) => {
            CloudInitAction::Respond(instance_instructions(inst.id.as_str(), inst.user_data))
        },
        CloudInitEvent::Resolved(ResolvedClient::Interface(i)) => match interface_domain_id(&i) {
            Ok(d) => CloudInitAction::FindDomain(d),
            Err(e) => CloudInitAction::Failed(e),
        },
        CloudInitEvent::DomainLookedUp { iface, domain_id, domain } => match found_domain(domain, domain_id.as_str()) {
            Ok(_) => CloudInitAction::FindBootOverride(iface.id),
            Err(e) => CloudInitAction::Failed(e),
        },
        CloudInitEvent::BootOverrideLookedUp { .. } => CloudInitAction::FindStaticSegment,
        CloudInitEvent::StaticSegmentLookedUp { iface, domain, user_data, static_segment } => {
            CloudInitAction::Respond(interface_instructions(iface, domain, user_data, static_segment, config))
        },
    }
}

/// What has been learned while finding the interface that PXE scripts are made for, once
/// the client address is resolved.
#[derive(Debug, Clone)]
pub enum PxeEvent {
    Resolved(ResolvedClient),
    HostInterfacesLookedUp { machine_id: String, interfaces: Option<Vec<MachineInterfaceSnapshot>> },
    AdminSegmentsLookedUp { machine_id: String, interfaces: Vec<MachineInterfaceSnapshot>, admin_segment_ids: Vec<String> },
}

/// The next step in finding the interface that PXE scripts are made for.
#[derive(Debug, Clone)]
pub enum PxeAction {
    /// Look up the interfaces of the host with this machine ID.
    FindHostInterfaces(String),
    /// Look up the admin segments.
    FindAdminSegments,
    Found(MachineInterfaceSnapshot),
    Failed(ApiError),
}

fn copy_interface(i: &MachineInterfaceSnapshot) -> (r: MachineInterfaceSnapshot)
    ensures
        r@ == i@,
{
    MachineInterfaceSnapshot {
        id: i.id.clone(),
        segment_id: i.segment_id.clone(),
        domain_id: clone_opt(&i.domain_id),
        machine_id: clone_opt(&i.machine_id),
    }
}

/// Finding the interface that PXE scripts are made for: a resolved interface is the one;
/// for an instance, its host's interfaces are looked up, then the admin segments, and the
/// first interface on an admin segment is chosen, else the first interface.
pub fn pxe_interface_step(event: PxeEvent) -> (r: PxeAction)
    ensures
        match event {
            PxeEvent::Resolved(ResolvedClient::Interface(i)) => r matches PxeAction::Found(x) && x@ == i@,
            PxeEvent::Resolved(ResolvedClient::Instance(inst)) => r matches PxeAction::FindHostInterfaces(x)
                && x@ == inst.machine_id@,
            PxeEvent::HostInterfacesLookedUp { machine_id, interfaces } => match interfaces {
                Some(_) => r is FindAdminSegments,
                None => r matches PxeAction::Failed(e) && e@ == ApiErrorView::Internal(
                    "no machine_interfaces for host "@ + machine_id@,
                ),
            },
            PxeEvent::AdminSegmentsLookedUp { machine_id, interfaces, admin_segment_ids } => match chosen_interface(
                interfaces@.map_values(|i: MachineInterfaceSnapshot| i.segment_id@),
                admin_segment_ids@.map_values(|t: String| t@),
            ) {
                Some(k) => r matches PxeAction::Found(x) && x@ == interfaces@[k]@,
                None => r matches PxeAction::Failed(e) && e@ == ApiErrorView::Internal(
                    "host "@ + machine_id@ + " has no machine_interfaces"@,
                ),
            },
        },
{
    match event {
        PxeEvent::Resolved(ResolvedClient::Interface(i)) => PxeAction::Found(i),
        PxeEvent::Resolved(ResolvedClient::Instance(inst)) => PxeAction::FindHostInterfaces(inst.machine_id),
        PxeEvent::HostInterfacesLookedUp { machine_id, interfaces } => match host_interfaces(interfaces, machine_id.as_str()) {
            Ok(_) => PxeAction::FindAdminSegments,
            Err(e) => PxeAction::Failed(e),
        },
        PxeEvent::AdminSegmentsLookedUp { machine_id, interfaces, admin_segment_ids } => {
            proof {
                lemma_prefers_admin_segment(
                    interfaces@.map_values(|i: MachineInterfaceSnapshot| i.segment_id@),
                    admin_segment_ids@.map_values(|t: String| t@),
                );
            }
            match pick_host_interface(&interfaces, &admin_segment_ids, machine_id.as_str()) {
                Ok(k) => PxeAction::Found(copy_interface(&interfaces[k])),
                Err(e) => PxeAction::Failed(e),
            }
        },
    }
}

/// The VM-as-a-service settings reach a host interface's discovery instructions field by
/// field: each bridging field of the instructions is the same-named field of the configured
/// bridging settings, the representor and function lists are the configured ones, and the
/// number of virtual functions is the configured one.
pub proof fn lemma_vmaas_fields_carried(
    iface: InterfaceView,
    domain: (Seq<char>, Seq<char>),
    boot_override: Option<Option<Seq<char>>>,
    static_segment: Option<Seq<char>>,
    config: CloudInitConfig,
)
    ensures
        ({
            let d = interface_instructions_of(iface, domain, boot_override, static_segment, config).discovery_instructions;
            &&& d is Some
            &&& d->0.num_of_vfs == Some(config.num_of_vfs)
            &&& d->0.machine_interface == Some(iface)
            &&& d->0.domain == Some(domain)
            &&& match config.vmaas_config {
                None => {
                    &&& d->0.hbn_reps is None
                    &&& d->0.hbn_sfs is None
                    &&& d->0.vf_intercept_bridge_name is None
                    &&& d->0.host_intercept_bridge_name is None
                    &&& d->0.host_intercept_bridge_port is None
                    &&& d->0.vf_intercept_bridge_port is None
                    &&& d->0.vf_intercept_bridge_sf is None
                },
                Some(vc) => {
                    &&& d->0.hbn_reps == ot(vc.hbn_reps)
                    &&& d->0.hbn_sfs == ot(vc.hbn_sfs)
                    &&& match vc.bridging {
                        None => {
                            &&& d->0.vf_intercept_bridge_name is None
                            &&& d->0.host_intercept_bridge_name is None
                            &&& d->0.host_intercept_bridge_port is None
                            &&& d->0.vf_intercept_bridge_port is None
                            &&& d->0.vf_intercept_bridge_sf is None
                        },
                        Some(b) => {
                            &&& d->0.vf_intercept_bridge_name == Some(b.vf_intercept_bridge_name@)
                            &&& d->0.host_intercept_bridge_name == Some(b.host_intercept_bridge_name@)
                            &&& d->0.host_intercept_bridge_port == Some(b.host_intercept_bridge_port@)
                            &&& d->0.vf_intercept_bridge_port == Some(b.vf_intercept_bridge_port@)
                            &&& d->0.vf_intercept_bridge_sf == Some(b.vf_intercept_bridge_sf@)
                        },
                    }
                },
            }
        }),
{
}

/// The rest of a host interface's instructions: the user data is the boot override's where
/// there is one; the metadata names the interface's machine where it has one; and the
/// external API and PXE addresses are given exactly when the interface is on the
/// static-assignments segment (the nil segment ID standing for it where it could not be
/// looked up).
pub proof fn lemma_interface_instructions_rest(
    iface: InterfaceView,
    domain: (Seq<char>, Seq<char>),
    boot_override: Option<Option<Seq<char>>>,
    static_segment: Option<Seq<char>>,
    config: CloudInitConfig,
)
    ensures
        ({
            let r = interface_instructions_of(iface, domain, boot_override, static_segment, config);
            let external = iface.segment_id == match static_segment {
                Some(s) => s,
                None => "00000000-0000-0000-0000-000000000000"@,
            };
            &&& r.custom_cloud_init == match boot_override {
                Some(u) => u,
                None => None,
            }
            &&& r.metadata == match iface.machine_id {
                Some(m) => Some((m, "nvidia"@, "nico"@)),
                None => None,
            }
            &&& r.api_url_override == if external { ot(config.external_api_url) } else { None }
            &&& r.pxe_url_override == if external { ot(config.external_pxe_url) } else { None }
        }),
{
}

} // verus!
