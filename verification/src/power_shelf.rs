//! Power shelves: their configuration and state, the SLA of each state, and the maintenance
//! requests that power them on or off.

use vstd::prelude::*;

use crate::metadata::{Metadata, StateSla};

verus! {

/// What is configured of a power shelf.
#[derive(Debug, Clone, PartialEq, Eq)]
pub struct PowerShelfConfig {
    pub name: String,
    /// Power capacity, in watts.
    pub capacity: Option<u32>,
    /// Voltage, in volts.
    pub voltage: Option<u32>,
}

/// What a power shelf reports of itself.
#[derive(Debug, Clone, PartialEq, Eq)]
pub struct PowerShelfStatus {
    pub shelf_name: String,
    /// `on`, `off` or `standby`.
    pub power_state: String,
    /// `ok`, `warning` or `critical`.
    pub health_status: String,
}

/// A power operation of a maintenance request.
#[derive(Debug, Clone, Copy, PartialEq, Eq, Structural)]
pub enum PowerShelfMaintenanceOperation {
    PowerOn,
    PowerOff,
}

/// A request to put a power shelf into maintenance for a power operation.
#[derive(Debug, Clone, PartialEq, Eq)]
pub struct PowerShelfMaintenanceRequest {
    /// Seconds since the Unix epoch.
    pub requested_at: i64,
    pub initiator: String,
    pub operation: PowerShelfMaintenanceOperation,
}

/// The state of a power shelf as its controller tracks it.
#[derive(Debug, Clone, PartialEq, Eq)]
pub enum PowerShelfControllerState {
    /// Created, waiting for initialization.
    Initializing,
    FetchingData,
    Configuring,
    /// Ready for use.
    Ready,
    Maintenance { operation: PowerShelfMaintenanceOperation },
    /// The power shelf cannot be used.
    Error { cause: String },
    Deleting,
}

/// A power shelf to be created.
#[derive(Debug, Clone)]
pub struct NewPowerShelf {
    pub id: String,
    pub config: PowerShelfConfig,
    /// The six bytes of the BMC's MAC address.
    pub bmc_mac_address: Option<Vec<u8>>,
    pub metadata: Option<Metadata>,
    pub rack_id: Option<String>,
}

/// A power shelf.
#[derive(Debug, Clone)]
pub struct PowerShelf {
    pub id: String,
    pub config: PowerShelfConfig,
    pub status: Option<PowerShelfStatus>,
    /// When the power shelf was deleted, in seconds since the Unix epoch.
    pub deleted: Option<i64>,
    pub controller_state: PowerShelfControllerState,
    pub controller_state_version: String,
    pub bmc_mac_address: Option<Vec<u8>>,
    pub rack_id: Option<String>,
    pub power_shelf_maintenance_requested: Option<PowerShelfMaintenanceRequest>,
    pub metadata: Metadata,
    pub version: String,
}

impl PowerShelf {
    /// Whether the power shelf was deleted.
    pub fn is_marked_as_deleted(&self) -> (r: bool)
        ensures
            r == self.deleted is Some,
    {
        self.deleted.is_some()
    }
}

/// What to search power shelves by.
#[derive(Debug, Clone, Default)]
pub struct PowerShelfSearchFilter {
    pub rack_id: Option<String>,
    pub controller_state: Option<String>,
    pub bmc_mac: Option<Vec<u8>>,
}

/// How long a power shelf may stay in the states that have a limit, in seconds.
#[derive(Debug, Clone, Copy, PartialEq, Eq, Structural)]
pub struct PowerShelfSlas {
    pub initializing: u64,
    pub fetching_data: u64,
    pub configuring: u64,
    pub maintenance: u64,
    pub deleting: u64,
}

/// The time limit of a power shelf state: being ready or in error has none.
pub open spec fn shelf_state_limit(state: PowerShelfControllerState, slas: PowerShelfSlas) -> Option<u64> {
    match state {
        PowerShelfControllerState::Initializing => Some(slas.initializing),
        PowerShelfControllerState::FetchingData => Some(slas.fetching_data),
        PowerShelfControllerState::Configuring => Some(slas.configuring),
        PowerShelfControllerState::Ready => None,
        PowerShelfControllerState::Maintenance { .. } => Some(slas.maintenance),
        PowerShelfControllerState::Error { .. } => None,
        PowerShelfControllerState::Deleting => Some(slas.deleting),
    }
}

/// The SLA of a power shelf's state, where the shelf has been in it for
/// `time_in_state_secs`.
pub fn state_sla(state: &PowerShelfControllerState, time_in_state_secs: u64, slas: PowerShelfSlas) -> (r: StateSla)
    ensures
        r == (match shelf_state_limit(*state, slas) {
            Some(limit) => StateSla { sla_secs: Some(limit), time_in_state_above_sla: time_in_state_secs > limit },
            None => StateSla { sla_secs: None, time_in_state_above_sla: false },
        }),
{
    match state {
        PowerShelfControllerState::Initializing => StateSla::with_sla(slas.initializing, time_in_state_secs),
        PowerShelfControllerState::FetchingData => StateSla::with_sla(slas.fetching_data, time_in_state_secs),
        PowerShelfControllerState::Configuring => StateSla::with_sla(slas.configuring, time_in_state_secs),
        PowerShelfControllerState::Ready => StateSla::no_sla(),
        PowerShelfControllerState::Maintenance { .. } => StateSla::with_sla(slas.maintenance, time_in_state_secs),
        PowerShelfControllerState::Error { .. } => StateSla::no_sla(),
        PowerShelfControllerState::Deleting => StateSla::with_sla(slas.deleting, time_in_state_secs),
    }
}

// ---------------------------------------------------------------------------
// Maintenance requests from the command line
// ---------------------------------------------------------------------------

/// The power shelves to drive into maintenance, and a reference for the request.
#[derive(Debug, Clone)]
pub struct MaintenancePowerArgs {
    /// At least one.
    pub power_shelf_ids: Vec<String>,
    /// The URL of a ticket or issue for this request.
    pub reference: Option<String>,
}

/// The maintenance command: power the listed shelves on or off, in one request.
#[derive(Debug, Clone)]
pub enum Args {
    PowerOn(MaintenancePowerArgs),
    PowerOff(MaintenancePowerArgs),
}

/// The request that a maintenance command sends.
#[derive(Debug, Clone)]
pub struct MaintenanceRequest {
    pub power_shelf_ids: Vec<String>,
    pub operation: PowerShelfMaintenanceOperation,
    pub reference: Option<String>,
}

impl Args {
    /// The request for the command: every listed shelf gets the command's operation.
    pub fn into_request(self) -> (r: MaintenanceRequest)
        ensures
            ({
                let (op, args) = match self {
                    Args::PowerOn(a) => (PowerShelfMaintenanceOperation::PowerOn, a),
                    Args::PowerOff(a) => (PowerShelfMaintenanceOperation::PowerOff, a),
                };
                &&& r.operation == op
                &&& r.power_shelf_ids@ == args.power_shelf_ids@
                &&& r.reference == args.reference
            }),
    {
        let (operation, args) = match self {
            Args::PowerOn(args) => (PowerShelfMaintenanceOperation::PowerOn, args),
            Args::PowerOff(args) => (PowerShelfMaintenanceOperation::PowerOff, args),
        };
        MaintenanceRequest { power_shelf_ids: args.power_shelf_ids, operation, reference: args.reference }
    }
}

} // verus!
