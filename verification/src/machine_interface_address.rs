//! What a machine interface's address belongs to, and interfaces predicted for machines.

use vstd::prelude::*;

use crate::network_segment::NetworkSegmentType;

verus! {

/// What kind of object an interface is associated with.
#[derive(Debug, Clone, Copy, PartialEq, Eq, Structural)]
pub enum InterfaceAssociationType {
    /// Not associated with any object.
    Unassociated,
    Machine,
    Switch,
    PowerShelf,
}

/// The object an interface is associated with, by its ID.
#[derive(Debug, Clone)]
pub enum MachineInterfaceAssociation {
    Machine(String),
    Switch(String),
    PowerShelf(String),
}

/// An interface that a machine is expected to get, before it appears.
#[derive(Debug, Clone)]
pub struct PredictedMachineInterface {
    pub id: String,
    pub machine_id: String,
    /// The six bytes of the MAC address.
    pub mac_address: Vec<u8>,
    pub expected_network_segment_type: NetworkSegmentType,
}

/// A predicted interface before it is stored.
#[derive(Debug, Clone)]
pub struct NewPredictedMachineInterface {
    pub machine_id: String,
    pub mac_address: Vec<u8>,
    pub expected_network_segment_type: NetworkSegmentType,
}

} // verus!
