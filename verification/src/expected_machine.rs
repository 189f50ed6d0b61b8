//! The DPU operating mode of an expected host, and its per-host lifecycle profile.

use vstd::prelude::*;

use crate::metadata::Metadata;

verus! {

/// Per-host DPU operating mode declared by a site operator on an expected machine.
/// Per-host values win over the site-wide setting; if neither is set the host falls back
/// to `DpuMode::DpuMode`.
#[derive(Debug, Clone, Copy, PartialEq, Eq, Structural)]
pub enum DpuMode {
    /// DPUs are managed as normal: upgrades, overlay networking, DPA agents. The default.
    DpuMode,
    /// DPU hardware is present but configured as a plain NIC; the host is treated as having
    /// no DPU.
    NicMode,
    /// No DPU hardware at all: a plain host NIC on the underlay.
    NoDpu,
}

impl Default for DpuMode {
    fn default() -> (r: Self)
        ensures
            r == DpuMode::DpuMode,
    {
        DpuMode::DpuMode
    }
}

/// Whether a mode is one of the two explicit overrides, `NicMode` or `NoDpu`.
pub open spec fn is_override(m: Option<DpuMode>) -> bool {
    m == Some(DpuMode::NicMode) || m == Some(DpuMode::NoDpu)
}

/// A host's effective DPU mode: an explicit per-host `NicMode` or `NoDpu` wins; otherwise
/// a site-wide `NicMode` or `NoDpu`; otherwise `DpuMode`.
pub open spec fn resolved_mode(expected_mode: Option<DpuMode>, site_dpu_mode: Option<DpuMode>) -> DpuMode {
    if is_override(expected_mode) {
        expected_mode->0
    } else if is_override(site_dpu_mode) {
        site_dpu_mode->0
    } else {
        DpuMode::DpuMode
    }
}

impl DpuMode {
    /// Whether the host is managed as a host with DPUs (`DpuMode` only).
    pub fn is_dpu_managed(&self) -> (r: bool)
        ensures
            r == (*self == DpuMode::DpuMode),
    {
        matches!(self, DpuMode::DpuMode)
    }

    /// Resolves a host's effective DPU mode from the optional per-host mode and the optional
    /// site-wide mode.
    pub fn resolve(expected_mode: Option<DpuMode>, site_dpu_mode: Option<DpuMode>) -> (r: DpuMode)
        ensures
            r == resolved_mode(expected_mode, site_dpu_mode),
    {
        match expected_mode {
            Some(DpuMode::NicMode) => DpuMode::NicMode,
            Some(DpuMode::NoDpu) => DpuMode::NoDpu,
            _ => match site_dpu_mode {
                Some(DpuMode::NicMode) => DpuMode::NicMode,
                Some(DpuMode::NoDpu) => DpuMode::NoDpu,
                _ => DpuMode::DpuMode,
            },
        }
    }
}

/// An explicit per-host override wins whatever the site-wide setting; without one the
/// site-wide setting decides, with `DpuMode` standing for "not set" on either side; a host
/// is managed with DPUs exactly when neither side overrides; and resolving again with the
/// resolved mode as the per-host mode changes nothing.
pub proof fn lemma_resolve_laws(expected_mode: Option<DpuMode>, site_dpu_mode: Option<DpuMode>)
    ensures
        is_override(expected_mode) ==> resolved_mode(expected_mode, site_dpu_mode) == expected_mode->0,
        !is_override(expected_mode) ==> resolved_mode(expected_mode, site_dpu_mode) == resolved_mode(None, site_dpu_mode),
        resolved_mode(expected_mode, Some(DpuMode::DpuMode)) == resolved_mode(expected_mode, None),
        (resolved_mode(expected_mode, site_dpu_mode) == DpuMode::DpuMode)
            == (!is_override(expected_mode) && !is_override(site_dpu_mode)),
        resolved_mode(Some(resolved_mode(expected_mode, site_dpu_mode)), site_dpu_mode)
            == resolved_mode(expected_mode, site_dpu_mode),
{
}

/// Per-host settings that affect state-machine progression. `None` means "not specified".
#[derive(Debug, Clone, PartialEq, Eq, Structural)]
pub struct HostLifecycleProfile {
    /// If true, do not lock down the server as part of lifecycle management.
    pub disable_lockdown: Option<bool>,
}

impl Default for HostLifecycleProfile {
    fn default() -> (r: Self)
        ensures
            r.disable_lockdown is None,
    {
        HostLifecycleProfile { disable_lockdown: None }
    }
}

impl HostLifecycleProfile {
    /// Whether no field is specified.
    pub fn is_empty(&self) -> (r: bool)
        ensures
            r == (self.disable_lockdown is None),
    {
        self.disable_lockdown.is_none()
    }
}

/// A request to identify an expected machine by its ID or its BMC's MAC address.
#[derive(Debug, Clone)]
pub struct ExpectedMachineRequest {
    pub id: Option<String>,
    pub bmc_mac_address: Option<Vec<u8>>,
}

/// A NIC that an expected host has.
#[derive(Debug, Clone, Default)]
pub struct ExpectedHostNic {
    /// The six bytes of the MAC address.
    pub mac_address: Vec<u8>,
    /// What helps DHCP pick the subnet, such as `bf3`, `onboard`, `cx8` or `oob`.
    pub nic_type: Option<String>,
    pub fixed_ip: Option<String>,
    pub fixed_mask: Option<String>,
    pub fixed_gateway: Option<String>,
    /// Whether this NIC is the host's boot interface; at most one NIC of a host is.
    pub primary: Option<bool>,
}

/// What is expected of a machine.
#[derive(Clone, Default)]
pub struct ExpectedMachineData {
    pub bmc_username: String,
    pub bmc_password: String,
    pub serial_number: String,
    pub fallback_dpu_serial_numbers: Vec<String>,
    pub sku_id: Option<String>,
    pub metadata: Metadata,
    pub host_nics: Vec<ExpectedHostNic>,
    pub rack_id: Option<String>,
    pub default_pause_ingestion_and_poweron: Option<bool>,
    pub dpf_enabled: Option<bool>,
    /// Where the BMC is reached without DHCP, if set.
    pub bmc_ip_address: Option<String>,
    /// Whether the factory-default BMC credentials are kept instead of rotated.
    pub bmc_retain_credentials: Option<bool>,
    pub dpu_mode: DpuMode,
    pub host_lifecycle_profile: HostLifecycleProfile,
}

/// A machine that is expected to appear, by its BMC's MAC address.
#[derive(Clone)]
pub struct ExpectedMachine {
    pub id: Option<String>,
    pub bmc_mac_address: Vec<u8>,
    pub data: ExpectedMachineData,
}

/// An expected machine with what was found of it.
#[derive(Debug, Clone)]
pub struct LinkedExpectedMachine {
    pub serial_number: String,
    pub bmc_mac_address: Vec<u8>,
    pub interface_id: Option<String>,
    /// The explored endpoint.
    pub address: Option<String>,
    pub machine_id: Option<String>,
    pub expected_machine_id: Option<String>,
}

/// A host BMC that was explored but is not expected.
#[derive(Debug, Clone)]
pub struct UnexpectedMachine {
    pub address: String,
    pub bmc_mac_address: Vec<u8>,
    pub machine_id: Option<String>,
}

} // verus!
