//! Network segment kinds, their names, and how segments defined in the configuration file
//! map to them.

use vstd::prelude::*;

use crate::errors::{ModelError, ModelErrorView};
use crate::metadata::StateSla;
use crate::text::{push_str, str_eq};

verus! {

/// What to search network segments by.
#[derive(Clone, Debug, Default)]
pub struct NetworkSegmentSearchFilter {
    pub name: Option<String>,
    pub tenant_org_id: Option<String>,
}

/// What to include when loading network segments.
#[derive(Debug, Copy, Clone, Default)]
pub struct NetworkSegmentSearchConfig {
    pub include_history: bool,
    pub include_num_free_ips: bool,
}

/// The kind of a segment defined in the configuration file. Tenant networks are created
/// through the API instead.
#[derive(Debug, Clone, Copy, PartialEq, Eq, Structural)]
pub enum NetworkDefinitionSegmentType {
    Admin,
    Underlay,
}

/// How DHCP assigns addresses on a segment: from the pool (`Dynamic`, the default), or only
/// to pre-configured reservations (`Reserved`).
#[derive(Debug, Clone, Copy, PartialEq, Eq, Structural)]
pub enum AllocationStrategy {
    Dynamic,
    Reserved,
}

impl Default for AllocationStrategy {
    fn default() -> (r: Self)
        ensures
            r == AllocationStrategy::Dynamic,
    {
        AllocationStrategy::Dynamic
    }
}

/// How a network segment is specified in the configuration file.
#[derive(Debug, Clone, PartialEq, Eq)]
pub struct NetworkDefinition {
    pub segment_type: NetworkDefinitionSegmentType,
    /// CIDR notation.
    pub prefix: String,
    /// Usually the first address in the prefix.
    pub gateway: String,
    /// Typically 9000 for the admin network, 1500 for the underlay.
    pub mtu: i32,
    /// How many addresses to skip before allocating.
    pub reserve_first: i32,
    pub allocation_strategy: AllocationStrategy,
}

/// The kind of a network segment.
#[derive(Debug, Clone, Copy, PartialEq, Eq, Structural)]
pub enum NetworkSegmentType {
    Tenant,
    Admin,
    Underlay,
    HostInband,
}

/// The name under which a segment kind is stored.
pub open spec fn segment_type_name(t: NetworkSegmentType) -> Seq<char> {
    match t {
        NetworkSegmentType::Tenant => "tenant"@,
        NetworkSegmentType::Admin => "admin"@,
        NetworkSegmentType::Underlay => "tor"@,
        NetworkSegmentType::HostInband => "host_inband"@,
    }
}

/// The segment kind stored under a name, if any.
pub open spec fn segment_type_named(s: Seq<char>) -> Option<NetworkSegmentType> {
    if s == "tenant"@ {
        Some(NetworkSegmentType::Tenant)
    } else if s == "admin"@ {
        Some(NetworkSegmentType::Admin)
    } else if s == "tor"@ {
        Some(NetworkSegmentType::Underlay)
    } else if s == "host_inband"@ {
        Some(NetworkSegmentType::HostInband)
    } else {
        None
    }
}

/// The segment kind that a configuration-file definition creates.
pub open spec fn definition_segment_type(t: NetworkDefinitionSegmentType) -> NetworkSegmentType {
    match t {
        NetworkDefinitionSegmentType::Admin => NetworkSegmentType::Admin,
        NetworkDefinitionSegmentType::Underlay => NetworkSegmentType::Underlay,
    }
}

impl NetworkSegmentType {
    /// Whether segments of this kind carry tenant traffic (tenant and host-inband segments).
    pub fn is_tenant(&self) -> (r: bool)
        ensures
            r == (*self == NetworkSegmentType::Tenant || *self == NetworkSegmentType::HostInband),
    {
        matches!(self, NetworkSegmentType::Tenant | NetworkSegmentType::HostInband)
    }

    /// The name under which this kind is stored.
    pub fn to_string(&self) -> (r: String)
        ensures
            r@ == segment_type_name(*self),
    {
        match self {
            NetworkSegmentType::Tenant => String::from_str("tenant"),
            NetworkSegmentType::Admin => String::from_str("admin"),
            NetworkSegmentType::Underlay => String::from_str("tor"),
            NetworkSegmentType::HostInband => String::from_str("host_inband"),
        }
    }

    /// Reads a segment kind stored in the database; an unknown name is a conversion error
    /// that quotes it.
    pub fn from_str(s: &str) -> (r: Result<NetworkSegmentType, ModelError>)
        ensures
            segment_type_named(s@) matches Some(t) ==> r == Ok::<NetworkSegmentType, ModelError>(t),
            segment_type_named(s@) is None ==> (r matches Err(e) && e@ == ModelErrorView::DatabaseTypeConversionError(
                "Invalid segment type "@ + s@ + " reveived from Database."@,
            )),
    {
        if str_eq(s, "tenant") {
            Ok(NetworkSegmentType::Tenant)
        } else if str_eq(s, "admin") {
            Ok(NetworkSegmentType::Admin)
        } else if str_eq(s, "tor") {
            Ok(NetworkSegmentType::Underlay)
        } else if str_eq(s, "host_inband") {
            Ok(NetworkSegmentType::HostInband)
        } else {
            let mut m = String::from_str("Invalid segment type ");
            push_str(&mut m, s);
            push_str(&mut m, " reveived from Database.");
            Err(ModelError::DatabaseTypeConversionError(m))
        }
    }

    /// The segment kind that a configuration-file definition creates.
    pub fn from_definition(t: NetworkDefinitionSegmentType) -> (r: NetworkSegmentType)
        ensures
            r == definition_segment_type(t),
    {
        match t {
            NetworkDefinitionSegmentType::Admin => NetworkSegmentType::Admin,
            NetworkDefinitionSegmentType::Underlay => NetworkSegmentType::Underlay,
        }
    }
}

/// Reading back the stored name of a segment kind gives the kind.
pub proof fn lemma_segment_type_name_round_trip(t: NetworkSegmentType)
    ensures
        segment_type_named(segment_type_name(t)) == Some(t),
{
    reveal_strlit("tenant");
    reveal_strlit("admin");
    reveal_strlit("tor");
    reveal_strlit("host_inband");
    assert("tenant"@.len() == 6 && "admin"@.len() == 5 && "tor"@.len() == 3 && "host_inband"@.len() == 11);
}

/// A name that reads as a segment kind is that kind's stored name.
pub proof fn lemma_segment_type_named_is_name(s: Seq<char>)
    ensures
        segment_type_named(s) matches Some(t) ==> segment_type_name(t) == s,
{
}

// ---------------------------------------------------------------------------
// Segments and their states
// ---------------------------------------------------------------------------

/// The steps of deleting a network segment.
#[derive(Debug, Clone, Copy, PartialEq, Eq, Structural)]
pub enum NetworkSegmentDeletionState {
    /// Waiting until every address allocated on the segment is released, plus a grace
    /// period; the segment is deleted at `delete_at` (seconds since the Unix epoch) if no
    /// address is in use by then.
    DrainAllocatedIps { delete_at: i64 },
    /// Releasing the VNI and VLAN allocations and deleting the segment: the final step.
    DBDelete,
}

/// The state of a network segment as its controller tracks it.
#[derive(Debug, Clone, Copy, PartialEq, Eq, Structural)]
pub enum NetworkSegmentControllerState {
    Provisioning,
    /// Instances can be created on the segment.
    Ready,
    Deleting { deletion_state: NetworkSegmentDeletionState },
}

/// How long a network segment may stay in the states that have a limit, in seconds.
#[derive(Debug, Clone, Copy, PartialEq, Eq, Structural)]
pub struct NetworkSegmentSlas {
    pub provisioning: u64,
    pub deleting_dbdelete: u64,
}

/// The SLA of a segment's state: provisioning and the final deletion step are limited;
/// being ready is not, nor is draining addresses, which can take as long as an instance
/// uses the segment.
pub open spec fn segment_state_sla(state: NetworkSegmentControllerState, time_in_state: u64, slas: NetworkSegmentSlas) -> StateSla {
    match state {
        NetworkSegmentControllerState::Provisioning => StateSla {
            sla_secs: Some(slas.provisioning),
            time_in_state_above_sla: time_in_state > slas.provisioning,
        },
        NetworkSegmentControllerState::Deleting { deletion_state: NetworkSegmentDeletionState::DBDelete } => StateSla {
            sla_secs: Some(slas.deleting_dbdelete),
            time_in_state_above_sla: time_in_state > slas.deleting_dbdelete,
        },
        _ => StateSla { sla_secs: None, time_in_state_above_sla: false },
    }
}

/// The SLA of a segment's state, where the segment has been in it for `time_in_state_secs`.
pub fn state_sla(state: &NetworkSegmentControllerState, time_in_state_secs: u64, slas: NetworkSegmentSlas) -> (r: StateSla)
    ensures
        r == segment_state_sla(*state, time_in_state_secs, slas),
{
    match state {
        NetworkSegmentControllerState::Provisioning => StateSla::with_sla(slas.provisioning, time_in_state_secs),
        NetworkSegmentControllerState::Ready => StateSla::no_sla(),
        NetworkSegmentControllerState::Deleting { deletion_state: NetworkSegmentDeletionState::DrainAllocatedIps {
            ..
        } } => StateSla::no_sla(),
        NetworkSegmentControllerState::Deleting { deletion_state: NetworkSegmentDeletionState::DBDelete } => {
            StateSla::with_sla(slas.deleting_dbdelete, time_in_state_secs)
        },
    }
}

/// The configuration of a network segment that its user controls.
#[derive(Debug, Clone)]
pub struct NetworkSegmentConfig {
    pub name: String,
    pub subdomain_id: Option<String>,
    pub mtu: i32,
    pub segment_type: NetworkSegmentType,
    pub allocation_strategy: AllocationStrategy,
    pub vpc_id: Option<String>,
}

/// What the system observes of a network segment.
#[derive(Debug, Clone)]
pub struct NetworkSegmentStatus {
    pub controller_state: NetworkSegmentControllerState,
    /// The version of the controller state.
    pub controller_state_version: String,
    /// In `0..4096`.
    pub vlan_id: Option<i16>,
    pub vni: Option<i32>,
    pub can_stretch: Option<bool>,
}

/// A network segment.
#[derive(Debug, Clone)]
pub struct NetworkSegment {
    pub id: String,
    pub version: String,
    pub config: NetworkSegmentConfig,
    pub status: NetworkSegmentStatus,
    /// The segment's prefixes, in CIDR notation.
    pub prefixes: Vec<String>,
    /// Seconds since the Unix epoch.
    pub created: i64,
    pub updated: i64,
    pub deleted: Option<i64>,
}

impl NetworkSegment {
    /// Whether the user deleted the segment.
    pub fn is_marked_as_deleted(&self) -> (r: bool)
        ensures
            r == self.deleted is Some,
    {
        self.deleted.is_some()
    }
}

/// A prefix of a segment to be created.
#[derive(Debug, Clone)]
pub struct NewNetworkPrefix {
    /// CIDR notation.
    pub prefix: String,
    pub gateway: Option<String>,
    pub num_reserved: i32,
}

/// A network segment to be created.
#[derive(Debug, Clone)]
pub struct NewNetworkSegment {
    pub id: String,
    pub name: String,
    pub subdomain_id: Option<String>,
    pub vpc_id: Option<String>,
    pub mtu: i32,
    pub prefixes: Vec<NewNetworkPrefix>,
    pub vlan_id: Option<i16>,
    pub vni: Option<i32>,
    pub segment_type: NetworkSegmentType,
    pub can_stretch: Option<bool>,
    pub allocation_strategy: AllocationStrategy,
}

impl NewNetworkSegment {
    /// The segment to create for a configuration-file definition, with ID `id`, named
    /// `name`, in domain `domain_id`. `prefix_valid` and `gateway_valid` tell whether the
    /// definition's prefix reads as a network and its gateway as an address; where either
    /// does not, the definition is refused, the prefix first.
    pub fn build_from(
        id: String,
        name: &str,
        domain_id: String,
        value: &NetworkDefinition,
        prefix_valid: bool,
        gateway_valid: bool,
    ) -> (r: Result<NewNetworkSegment, ModelError>)
        ensures
            !prefix_valid ==> (r matches Err(e) && e@ == ModelErrorView::InvalidArgument(
                "Invalid network prefix: "@ + value.prefix@,
            )),
            prefix_valid && !gateway_valid ==> (r matches Err(e) && e@ == ModelErrorView::InvalidArgument(
                "Invalid gateway address: "@ + value.gateway@,
            )),
            prefix_valid && gateway_valid ==> (r matches Ok(seg) && {
                &&& seg.id@ == id@
                &&& seg.name@ == name@
                &&& seg.subdomain_id matches Some(d) && d@ == domain_id@
                &&& seg.vpc_id is None
                &&& seg.mtu == value.mtu
                &&& seg.prefixes@.len() == 1
                &&& seg.prefixes@[0].prefix@ == value.prefix@
                &&& seg.prefixes@[0].gateway matches Some(g) && g@ == value.gateway@
                &&& seg.prefixes@[0].num_reserved == value.reserve_first
                &&& seg.vlan_id is None
                &&& seg.vni is None
                &&& seg.segment_type == definition_segment_type(value.segment_type)
                &&& seg.can_stretch is None
                &&& seg.allocation_strategy == value.allocation_strategy
            }),
    {
        if !prefix_valid {
            let mut m = String::from_str("Invalid network prefix: ");
            push_str(&mut m, value.prefix.as_str());
            return Err(ModelError::InvalidArgument(m));
        }
        if !gateway_valid {
            let mut m = String::from_str("Invalid gateway address: ");
            push_str(&mut m, value.gateway.as_str());
            return Err(ModelError::InvalidArgument(m));
        }
        let mut prefixes: Vec<NewNetworkPrefix> = Vec::new();
        prefixes.push(
            NewNetworkPrefix {
                prefix: value.prefix.clone(),
                gateway: Some(value.gateway.clone()),
                num_reserved: value.reserve_first,
            },
        );
        Ok(NewNetworkSegment {
            id,
            name: String::from_str(name),
            subdomain_id: Some(domain_id),
            vpc_id: None,
            mtu: value.mtu,
            prefixes,
            vlan_id: None,
            vni: None,
            segment_type: NetworkSegmentType::from_definition(value.segment_type),
            can_stretch: None,
            allocation_strategy: value.allocation_strategy,
        })
    }
}

} // verus!
