//! The BMC endpoints that the health service monitors, as it derives them from the
//! machines, switches and power shelves that the API reports: each endpoint's address, what
//! is known of the hardware behind it, and which credentials it is reached with.

use vstd::prelude::*;

use crate::text::push_str;

verus! {

/// Why an endpoint could not be derived.
#[derive(Debug, Clone)]
pub enum HealthError {
    GenericError(String),
}

/// The address of a BMC as the API reports it: each part may be missing.
#[derive(Debug, Clone)]
pub struct BmcInfo {
    /// The IP address: its canonical form where it reads as one, else why it does not.
    pub ip: Option<Result<String, String>>,
    pub mac: Option<String>,
    pub port: Option<u32>,
}

/// The address of a BMC endpoint.
#[derive(Debug, Clone)]
pub struct BmcAddr {
    pub ip: String,
    pub port: Option<u16>,
    /// The six bytes of the MAC address.
    pub mac: Vec<u8>,
}

/// Where a component sits in its rack.
#[derive(Debug, Clone)]
pub struct Placement {
    pub slot_number: Option<i32>,
    pub tray_index: Option<i32>,
}

/// A machine as the API reports it.
#[derive(Debug, Clone)]
pub struct MachineRecord {
    pub id: Option<String>,
    pub bmc_info: Option<BmcInfo>,
    pub chassis_serial: Option<String>,
    pub placement_in_rack: Option<Placement>,
    pub nvlink_domain_uuid: Option<String>,
    pub rack_id: Option<String>,
}

/// A switch as the API reports it.
#[derive(Debug, Clone)]
pub struct SwitchRecord {
    pub id: Option<String>,
    /// The name in the switch's configuration, which is its serial number.
    pub config_name: Option<String>,
    pub placement_in_rack: Option<Placement>,
    pub is_primary: bool,
    pub bmc_info: Option<BmcInfo>,
    pub nvos_info: Option<BmcInfo>,
    pub rack_id: Option<String>,
}

/// A power shelf as the API reports it.
#[derive(Debug, Clone)]
pub struct PowerShelfRecord {
    pub id: Option<String>,
    pub config_name: Option<String>,
    pub bmc_info: Option<BmcInfo>,
}

/// Which side of a switch an endpoint reaches.
#[derive(Debug, Clone, Copy, PartialEq, Eq, Structural)]
pub enum SwitchEndpointRole {
    Bmc,
    Host,
}

/// What is known of a machine behind an endpoint.
#[derive(Debug, Clone)]
pub struct MachineData {
    pub machine_id: String,
    pub machine_serial: Option<String>,
    pub slot_number: Option<i32>,
    pub tray_index: Option<i32>,
    pub nvlink_domain_uuid: Option<String>,
}

/// What is known of a switch behind an endpoint.
#[derive(Debug, Clone)]
pub struct SwitchData {
    pub id: Option<String>,
    pub serial: String,
    pub slot_number: Option<i32>,
    pub tray_index: Option<i32>,
    pub endpoint_role: SwitchEndpointRole,
    pub is_primary: bool,
    pub nmxt_enabled: bool,
}

/// What is known of a power shelf behind an endpoint.
#[derive(Debug, Clone)]
pub struct PowerShelfData {
    pub id: Option<String>,
    pub serial: String,
}

/// What is known of the hardware behind an endpoint.
#[derive(Debug, Clone)]
pub enum EndpointMetadata {
    Machine(MachineData),
    Switch(SwitchData),
    PowerShelf(PowerShelfData),
}

/// Which credentials an endpoint is reached with.
#[derive(Debug, Clone)]
pub enum CredentialKind {
    /// The BMC credentials of the endpoint's MAC address.
    Bmc,
    /// The NVOS admin credentials of a switch.
    SwitchNvosAdmin { switch_id: String },
}

/// An endpoint to monitor, before its credentials are fetched.
#[derive(Debug, Clone)]
pub struct EndpointPlan {
    pub addr: BmcAddr,
    pub metadata: Option<EndpointMetadata>,
    pub rack_id: Option<String>,
    pub credential_kind: CredentialKind,
}

// ---------------------------------------------------------------------------
// Addresses
// ---------------------------------------------------------------------------

/// What `MacAddress::from_str` gives for a text: the six bytes, or the error as text.
pub uninterp spec fn mac_parse(s: Seq<char>) -> Result<Seq<u8>, Seq<char>>;

/// `mac_address::MacAddress::from_str`: the bytes of the address, or the error as text.
#[verifier::external_body]
pub(crate) fn parse_mac(s: &str) -> (r: Result<Vec<u8>, String>)
    ensures
        match r {
            Ok(b) => mac_parse(s@) == Ok::<Seq<u8>, Seq<char>>(b@) && b@.len() == 6,
            Err(e) => mac_parse(s@) == Err::<Seq<u8>, Seq<char>>(e@),
        },
{
    match s.parse::<mac_address::MacAddress>() {
        Ok(m) => Ok(m.bytes().to_vec()),
        Err(e) => Err(e.to_string()),
    }
}

/// The port of an endpoint: the reported one where it fits in 16 bits, else 443.
pub open spec fn port_of(port: Option<u32>) -> Option<u16> {
    match port {
        Some(p) => Some(if p <= u16::MAX { p as u16 } else { 443u16 }),
        None => None,
    }
}

pub open spec fn err_text(e: HealthError) -> Seq<char> {
    match e {
        HealthError::GenericError(m) => m@,
    }
}

/// The address of an endpoint, or why it has none: the IP address and the MAC address must
/// be present and read as such, the IP address first; `what` names the interface in the
/// messages.
pub open spec fn addr_of(
    ip: Option<Result<Seq<char>, Seq<char>>>,
    mac: Option<Seq<char>>,
    port: Option<u32>,
    what: Seq<char>,
) -> Result<(Seq<char>, Option<u16>, Seq<u8>), Seq<char>> {
    match ip {
        None => Err("missing "@ + what + " IP address"@),
        Some(Err(e)) => Err(e),
        Some(Ok(addr)) => match mac {
            None => Err("missing "@ + what + " MAC address"@),
            Some(m) => match mac_parse(m) {
                Err(e) => Err(e),
                Ok(bytes) => Ok((addr, port_of(port), bytes)),
            },
        },
    }
}

pub open spec fn info_ip(info: BmcInfo) -> Option<Result<Seq<char>, Seq<char>>> {
    match info.ip {
        Some(Ok(a)) => Some(Ok(a@)),
        Some(Err(e)) => Some(Err(e@)),
        None => None,
    }
}

pub open spec fn info_mac(info: BmcInfo) -> Option<Seq<char>> {
    match info.mac {
        Some(m) => Some(m@),
        None => None,
    }
}

/// The address of an endpoint whose interface is named `what` (`BMC` or `NVOS`).
pub fn bmc_addr(info: &BmcInfo, what: &str) -> (r: Result<BmcAddr, HealthError>)
    ensures
        match r {
            Ok(a) => addr_of(info_ip(*info), info_mac(*info), info.port, what@) == Ok::<
                (Seq<char>, Option<u16>, Seq<u8>),
                Seq<char>,
            >((a.ip@, a.port, a.mac@)),
            Err(e) => addr_of(info_ip(*info), info_mac(*info), info.port, what@) == Err::<
                (Seq<char>, Option<u16>, Seq<u8>),
                Seq<char>,
            >(err_text(e)),
        },
{
    let ip = match &info.ip {
        None => {
            let mut m = String::from_str("missing ");
            push_str(&mut m, what);
            push_str(&mut m, " IP address");
            return Err(HealthError::GenericError(m));
        },
        Some(Err(e)) => {
            return Err(HealthError::GenericError(e.clone()));
        },
        Some(Ok(a)) => a.clone(),
    };
    let mac = match &info.mac {
        None => {
            let mut m = String::from_str("missing ");
            push_str(&mut m, what);
            push_str(&mut m, " MAC address");
            return Err(HealthError::GenericError(m));
        },
        Some(m) => match parse_mac(m.as_str()) {
            Ok(bytes) => bytes,
            Err(e) => {
                return Err(HealthError::GenericError(e));
            },
        },
    };
    let port = match info.port {
        Some(p) => Some(
            if p <= 65535 {
                p as u16
            } else {
                443u16
            },
        ),
        None => None,
    };
    Ok(BmcAddr { ip, port, mac })
}

// ---------------------------------------------------------------------------
// Endpoints
// ---------------------------------------------------------------------------

pub open spec fn same_text(a: Option<String>, b: Option<String>) -> bool {
    match (a, b) {
        (Some(x), Some(y)) => x@ == y@,
        (None, None) => true,
        _ => false,
    }
}

pub open spec fn slot_of(p: Option<Placement>) -> Option<i32> {
    match p {
        Some(pl) => pl.slot_number,
        None => None,
    }
}

pub open spec fn tray_of(p: Option<Placement>) -> Option<i32> {
    match p {
        Some(pl) => pl.tray_index,
        None => None,
    }
}

/// Whether an address is the one that `addr_of` gives.
pub open spec fn addr_matches(a: BmcAddr, info: BmcInfo, what: Seq<char>) -> bool {
    addr_of(info_ip(info), info_mac(info), info.port, what) == Ok::<(Seq<char>, Option<u16>, Seq<u8>), Seq<char>>(
        (a.ip@, a.port, a.mac@),
    )
}

/// Whether an error is the one that `addr_of` gives.
pub open spec fn addr_error(e: HealthError, info: BmcInfo, what: Seq<char>) -> bool {
    addr_of(info_ip(info), info_mac(info), info.port, what) == Err::<(Seq<char>, Option<u16>, Seq<u8>), Seq<char>>(
        err_text(e),
    )
}

/// Whether `d` is what is known of switch `s` behind an endpoint of `role`.
pub open spec fn switch_data_of(d: SwitchData, s: SwitchRecord, role: SwitchEndpointRole, nmxt_enabled: bool) -> bool {
    &&& s.config_name matches Some(n) && d.serial@ == n@
    &&& same_text(d.id, s.id)
    &&& d.slot_number == slot_of(s.placement_in_rack)
    &&& d.tray_index == tray_of(s.placement_in_rack)
    &&& d.endpoint_role == role
    &&& d.is_primary == s.is_primary
    &&& d.nmxt_enabled == nmxt_enabled
}

fn clone_text(o: &Option<String>) -> (r: Option<String>)
    ensures
        same_text(r, *o),
{
    match o {
        Some(s) => Some(s.clone()),
        None => None,
    }
}

fn placement_parts(p: &Option<Placement>) -> (r: (Option<i32>, Option<i32>))
    ensures
        r == (slot_of(*p), tray_of(*p)),
{
    match p {
        Some(pl) => (pl.slot_number, pl.tray_index),
        None => (None, None),
    }
}

/// What is known of a switch behind one of its endpoints; a switch without a serial number
/// is refused.
pub fn switch_endpoint_metadata(switch: &SwitchRecord, endpoint_role: SwitchEndpointRole, nmxt_enabled: bool) -> (r:
    Result<SwitchData, HealthError>)
    ensures
        match r {
            Ok(d) => switch_data_of(d, *switch, endpoint_role, nmxt_enabled),
            Err(e) => switch.config_name is None && err_text(e) == "switch endpoint does not have serial"@,
        },
{
    let serial = match &switch.config_name {
        Some(n) => n.clone(),
        None => {
            return Err(HealthError::GenericError(String::from_str("switch endpoint does not have serial")));
        },
    };
    let (slot_number, tray_index) = placement_parts(&switch.placement_in_rack);
    Ok(SwitchData {
        id: clone_text(&switch.id),
        serial,
        slot_number,
        tray_index,
        endpoint_role,
        is_primary: switch.is_primary,
        nmxt_enabled,
    })
}

/// Whether `d` is what is known of machine `m`.
pub open spec fn machine_data_of(d: MachineData, m: MachineRecord) -> bool {
    &&& m.id matches Some(id) && d.machine_id@ == id@
    &&& same_text(d.machine_serial, m.chassis_serial)
    &&& d.slot_number == slot_of(m.placement_in_rack)
    &&& d.tray_index == tray_of(m.placement_in_rack)
    &&& same_text(d.nvlink_domain_uuid, m.nvlink_domain_uuid)
}

/// The endpoint of a machine's BMC: its address, what is known of the machine where it has
/// an ID, its rack, and BMC credentials. A machine without BMC information has none.
pub fn extract_machine_endpoint(machine: &MachineRecord) -> (r: Result<EndpointPlan, HealthError>)
    ensures
        match r {
            Ok(p) => machine.bmc_info matches Some(info) && addr_matches(p.addr, info, "BMC"@) && same_text(
                p.rack_id,
                machine.rack_id,
            ) && p.credential_kind is Bmc && match machine.id {
                Some(_) => p.metadata matches Some(EndpointMetadata::Machine(d)) && machine_data_of(d, *machine),
                None => p.metadata is None,
            },
            Err(e) => match machine.bmc_info {
                None => err_text(e) == "Could not extract machine endpoint without BMC Info"@,
                Some(info) => addr_error(e, info, "BMC"@),
            },
        },
{
    let info = match &machine.bmc_info {
        Some(i) => i,
        None => {
            return Err(
                HealthError::GenericError(String::from_str("Could not extract machine endpoint without BMC Info")),
            );
        },
    };
    let addr = bmc_addr(info, "BMC")?;
    let metadata = match &machine.id {
        Some(id) => {
            let (slot_number, tray_index) = placement_parts(&machine.placement_in_rack);
            Some(
                EndpointMetadata::Machine(
                    MachineData {
                        machine_id: id.clone(),
                        machine_serial: clone_text(&machine.chassis_serial),
                        slot_number,
                        tray_index,
                        nvlink_domain_uuid: clone_text(&machine.nvlink_domain_uuid),
                    },
                ),
            )
        },
        None => None,
    };
    Ok(EndpointPlan { addr, metadata, rack_id: clone_text(&machine.rack_id), credential_kind: CredentialKind::Bmc })
}

/// The endpoint of a switch's BMC. A switch without BMC information or without a serial
/// number has none.
pub fn extract_switch_endpoint(switch: &SwitchRecord) -> (r: Result<EndpointPlan, HealthError>)
    ensures
        match r {
            Ok(p) => switch.bmc_info matches Some(info) && addr_matches(p.addr, info, "BMC"@) && same_text(
                p.rack_id,
                switch.rack_id,
            ) && p.credential_kind is Bmc && (p.metadata matches Some(EndpointMetadata::Switch(d))
                && switch_data_of(d, *switch, SwitchEndpointRole::Bmc, false)),
            Err(e) => match switch.bmc_info {
                None => err_text(e) == "Could not extract switch endpoint without BMC Info"@,
                Some(info) => addr_error(e, info, "BMC"@) || (addr_of(
                    info_ip(info),
                    info_mac(info),
                    info.port,
                    "BMC"@,
                ) is Ok && switch.config_name is None && err_text(e) == "switch endpoint does not have serial"@),
            },
        },
{
    let info = match &switch.bmc_info {
        Some(i) => i,
        None => {
            return Err(
                HealthError::GenericError(String::from_str("Could not extract switch endpoint without BMC Info")),
            );
        },
    };
    let addr = bmc_addr(info, "BMC")?;
    let data = switch_endpoint_metadata(switch, SwitchEndpointRole::Bmc, false)?;
    Ok(EndpointPlan {
        addr,
        metadata: Some(EndpointMetadata::Switch(data)),
        rack_id: clone_text(&switch.rack_id),
        credential_kind: CredentialKind::Bmc,
    })
}

/// The endpoint of a switch's host, reached through NVOS with the switch's admin
/// credentials; a switch without NVOS information has none, and one without an ID or a
/// serial number is refused.
pub fn extract_switch_host_endpoint(switch: &SwitchRecord) -> (r: Result<Option<EndpointPlan>, HealthError>)
    ensures
        match r {
            Ok(None) => switch.nvos_info is None,
            Ok(Some(p)) => switch.nvos_info matches Some(info) && switch.id matches Some(id) && addr_matches(
                p.addr,
                info,
                "NVOS"@,
            ) && same_text(p.rack_id, switch.rack_id) && (p.credential_kind matches CredentialKind::SwitchNvosAdmin {
                switch_id,
            } && switch_id@ == id@) && (p.metadata matches Some(EndpointMetadata::Switch(d)) && switch_data_of(
                d,
                *switch,
                SwitchEndpointRole::Host,
                switch.is_primary,
            )),
            Err(e) => switch.nvos_info matches Some(info) && (match switch.id {
                None => err_text(e) == "switch host endpoint missing switch ID"@,
                Some(_) => addr_error(e, info, "NVOS"@) || (addr_of(info_ip(info), info_mac(info), info.port, "NVOS"@)
                    is Ok && switch.config_name is None && err_text(e) == "switch endpoint does not have serial"@),
            }),
        },
{
    let info = match &switch.nvos_info {
        Some(i) => i,
        None => {
            return Ok(None);
        },
    };
    let switch_id = match &switch.id {
        Some(id) => id.clone(),
        None => {
            return Err(HealthError::GenericError(String::from_str("switch host endpoint missing switch ID")));
        },
    };
    let addr = bmc_addr(info, "NVOS")?;
    let data = switch_endpoint_metadata(switch, SwitchEndpointRole::Host, switch.is_primary)?;
    Ok(
        Some(
            EndpointPlan {
                addr,
                metadata: Some(EndpointMetadata::Switch(data)),
                rack_id: clone_text(&switch.rack_id),
                credential_kind: CredentialKind::SwitchNvosAdmin { switch_id },
            },
        ),
    )
}

/// The endpoint of a power shelf's BMC; a power shelf without BMC information or without a
/// serial number has none. It is given no rack.
pub fn extract_power_shelf_endpoint(power_shelf: &PowerShelfRecord) -> (r: Result<EndpointPlan, HealthError>)
    ensures
        match r {
            Ok(p) => power_shelf.bmc_info matches Some(info) && addr_matches(p.addr, info, "BMC"@) && p.rack_id is None
                && p.credential_kind is Bmc && (p.metadata matches Some(EndpointMetadata::PowerShelf(d)) && same_text(
                d.id,
                power_shelf.id,
            ) && (power_shelf.config_name matches Some(n) && d.serial@ == n@)),
            Err(e) => match power_shelf.bmc_info {
                None => err_text(e) == "Could not extract power shelf endpoint without BMC Info"@,
                Some(info) => addr_error(e, info, "BMC"@) || (addr_of(info_ip(info), info_mac(info), info.port, "BMC"@)
                    is Ok && power_shelf.config_name is None && err_text(e) == "Power shelf endpoint does not have serial"@),
            },
        },
{
    let info = match &power_shelf.bmc_info {
        Some(i) => i,
        None => {
            return Err(
                HealthError::GenericError(String::from_str("Could not extract power shelf endpoint without BMC Info")),
            );
        },
    };
    let addr = bmc_addr(info, "BMC")?;
    let serial = match &power_shelf.config_name {
        Some(n) => n.clone(),
        None => {
            return Err(HealthError::GenericError(String::from_str("Power shelf endpoint does not have serial")));
        },
    };
    Ok(EndpointPlan {
        addr,
        metadata: Some(EndpointMetadata::PowerShelf(PowerShelfData { id: clone_text(&power_shelf.id), serial })),
        rack_id: None,
        credential_kind: CredentialKind::Bmc,
    })
}

// ---------------------------------------------------------------------------
// Credentials
// ---------------------------------------------------------------------------

/// The credentials the API hands out for an endpoint.
#[derive(Debug, Clone)]
pub enum CredentialsType {
    UsernamePassword { username: String, password: String },
    SessionToken { token: String },
}

/// The credentials an endpoint is reached with.
#[derive(Debug, Clone)]
pub enum BmcCredentials {
    UsernamePassword { username: String, password: Option<String> },
    SessionToken { token: String },
}

/// Whether `c` are the credentials that the API's `t` stand for: a user name with its
/// password, or a session token.
pub open spec fn credentials_of(c: BmcCredentials, t: CredentialsType) -> bool {
    match (c, t) {
        (
            BmcCredentials::UsernamePassword { username: u, password: Some(p) },
            CredentialsType::UsernamePassword { username, password },
        ) => u@ == username@ && p@ == password@,
        (BmcCredentials::SessionToken { token: a }, CredentialsType::SessionToken { token }) => a@ == token@,
        _ => false,
    }
}

impl BmcCredentials {
    /// The credentials that the API's answer stands for.
    pub fn from(value: CredentialsType) -> (r: BmcCredentials)
        ensures
            credentials_of(r, value),
    {
        match value {
            CredentialsType::UsernamePassword { username, password } => BmcCredentials::UsernamePassword {
                username,
                password: Some(password),
            },
            CredentialsType::SessionToken { token } => BmcCredentials::SessionToken { token },
        }
    }
}

/// The credentials in the API's answer to a credentials request, which must hold some.
pub fn credentials_from_response(credentials: Option<Option<CredentialsType>>) -> (r: Result<BmcCredentials, HealthError>)
    ensures
        match credentials {
            Some(Some(t)) => r matches Ok(c) && credentials_of(c, t),
            _ => r matches Err(e) && err_text(e) == "missing credentials in API response"@,
        },
{
    match credentials {
        Some(Some(t)) => Ok(BmcCredentials::from(t)),
        _ => Err(HealthError::GenericError(String::from_str("missing credentials in API response"))),
    }
}


/// Whether an endpoint can be made for machine `m`: it has BMC information whose address
/// reads.
pub open spec fn machine_has_endpoint(m: MachineRecord) -> bool {
    m.bmc_info matches Some(info) && addr_of(info_ip(info), info_mac(info), info.port, "BMC"@) is Ok
}

/// Whether `p` is the endpoint made for machine `m`.
pub open spec fn machine_plan_of(p: EndpointPlan, m: MachineRecord) -> bool {
    &&& m.bmc_info matches Some(info) && addr_matches(p.addr, info, "BMC"@)
    &&& same_text(p.rack_id, m.rack_id)
    &&& p.credential_kind is Bmc
    &&& match m.id {
        Some(_) => p.metadata matches Some(EndpointMetadata::Machine(d)) && machine_data_of(d, m),
        None => p.metadata is None,
    }
}

/// The positions of the machines for which an endpoint can be made, in order.
pub open spec fn machines_with_endpoints(ms: Seq<MachineRecord>) -> Seq<int>
    decreases ms.len(),
{
    if ms.len() == 0 {
        Seq::empty()
    } else {
        let r = machines_with_endpoints(ms.drop_last());
        if machine_has_endpoint(ms.last()) {
            r.push(ms.len() - 1)
        } else {
            r
        }
    }
}

/// The endpoints of a batch of machines: one for each machine for which one can be made, in
/// order; the others are skipped.
pub fn collect_machine_endpoints(machines: &Vec<MachineRecord>) -> (r: Vec<EndpointPlan>)
    ensures
        r@.len() == machines_with_endpoints(machines@).len(),
        forall|k: int| 0 <= k < r@.len() ==> {
            let i = #[trigger] machines_with_endpoints(machines@)[k];
            0 <= i < machines@.len() && machine_plan_of(r@[k], machines@[i])
        },
{
    let ghost ms = machines@;
    let mut r: Vec<EndpointPlan> = Vec::new();
    let mut i: usize = 0;
    while i < machines.len()
        invariant
            i <= ms.len(),
            ms == machines@,
            r@.len() == machines_with_endpoints(ms.take(i as int)).len(),
            forall|k: int| 0 <= k < r@.len() ==> {
                let j = #[trigger] machines_with_endpoints(ms.take(i as int))[k];
                0 <= j < i && machine_plan_of(r@[k], ms[j])
            },
        decreases ms.len() - i,
    {
        let ghost before = r@;
        let ghost prev = machines_with_endpoints(ms.take(i as int));
        assert(ms.take(i + 1).drop_last() =~= ms.take(i as int));
        assert(ms.take(i + 1).last() == ms[i as int]);
        match extract_machine_endpoint(&machines[i]) {
            Ok(p) => {
                r.push(p);
                assert(machines_with_endpoints(ms.take(i + 1)) == prev.push(i as int));
                assert forall|k: int| 0 <= k < r@.len() implies {
                    let j = #[trigger] machines_with_endpoints(ms.take(i + 1))[k];
                    0 <= j < i + 1 && machine_plan_of(r@[k], ms[j])
                } by {
                    if k < before.len() {
                        assert(r@[k] == before[k]);
                        assert(machines_with_endpoints(ms.take(i + 1))[k] == prev[k]);
                    }
                }
            },
            Err(_) => {
                assert(!machine_has_endpoint(ms[i as int]));
                assert(machines_with_endpoints(ms.take(i + 1)) == prev);
            },
        }
        i = i + 1;
    }
    assert(ms.take(ms.len() as int) =~= ms);
    r
}

// ---------------------------------------------------------------------------
// Fetching machines in chunks
// ---------------------------------------------------------------------------

/// How many machines are fetched by ID at a time.
pub const MACHINE_CHUNK_SIZE: usize = 100;

pub open spec fn text_views(s: Seq<String>) -> Seq<Seq<char>> {
    s.map_values(|x: String| x@)
}

/// The `k`-th chunk of `ids`: the IDs from `k` chunk sizes on, at most one chunk size of them.
pub open spec fn id_chunk(ids: Seq<Seq<char>>, k: int) -> Seq<Seq<char>> {
    let start = k * MACHINE_CHUNK_SIZE;
    let end = if start + MACHINE_CHUNK_SIZE <= ids.len() { start + MACHINE_CHUNK_SIZE } else { ids.len() as int };
    ids.subrange(start, end)
}

/// The machine IDs cut into chunks of `MACHINE_CHUNK_SIZE`, in order, the last one possibly
/// shorter: the requests in which the machines' details are fetched.
pub fn id_chunks(ids: &Vec<String>) -> (r: Vec<Vec<String>>)
    ensures
        r@.len() == (ids@.len() + MACHINE_CHUNK_SIZE - 1) / (MACHINE_CHUNK_SIZE as int),
        forall|k: int| 0 <= k < r@.len() ==> text_views(#[trigger] r@[k]@) == id_chunk(text_views(ids@), k),
{
    let ghost v = text_views(ids@);
    let n = ids.len();
    let mut r: Vec<Vec<String>> = Vec::new();
    let mut start: usize = 0;
    while start < n
        invariant
            n == ids@.len(),
            v == text_views(ids@),
            start <= n,
            start == (if r@.len() * MACHINE_CHUNK_SIZE <= n { r@.len() * MACHINE_CHUNK_SIZE } else { n as int }),
            r@.len() > 0 ==> (r@.len() - 1) * MACHINE_CHUNK_SIZE < n,
            forall|k: int| 0 <= k < r@.len() ==> text_views(#[trigger] r@[k]@) == id_chunk(v, k),
        decreases n - start,
    {
        let end = if n - start > MACHINE_CHUNK_SIZE { start + MACHINE_CHUNK_SIZE } else { n };
        let mut chunk: Vec<String> = Vec::new();
        let mut i = start;
        while i < end
            invariant
                start <= i <= end <= n,
                n == ids@.len(),
                v == text_views(ids@),
                text_views(chunk@) == v.subrange(start as int, i as int),
            decreases end - i,
        {
            let ghost before = chunk@;
            chunk.push(ids[i].clone());
            assert(text_views(chunk@) =~= text_views(before).push(v[i as int]));
            assert(v.subrange(start as int, i + 1) =~= v.subrange(start as int, i as int).push(v[i as int]));
            i = i + 1;
        }
        let ghost k = r@.len() as int;
        assert(text_views(chunk@) == id_chunk(v, k));
        r.push(chunk);
        start = end;
    }
    let ghost c = r@.len() as int;
    assert((n + MACHINE_CHUNK_SIZE - 1) / (MACHINE_CHUNK_SIZE as int) == c) by (nonlinear_arith)
        requires
            c * 100 >= n,
            c > 0 ==> (c - 1) * 100 < n,
            n >= 0,
            MACHINE_CHUNK_SIZE == 100,
    ;
    r
}

} // verus!
