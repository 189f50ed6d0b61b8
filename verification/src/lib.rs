//! Model, policy and health-check logic of the NICo site controller.

pub mod order;
pub mod keyed;
pub mod text;
pub mod upgrade_policy;
pub mod rbac;
pub mod expected_machine;
pub mod errors;
pub mod network_segment;
pub mod bmc_info;
pub mod machine_id;
pub mod machine_interface_address;
pub mod sku;
pub mod metadata;
pub mod power_shelf;
pub mod vpc_prefix;
pub mod health_report;
pub mod bgp;
pub mod otlp;
pub mod dns;
pub mod startup;
pub mod api_error;
pub mod attestation;
pub mod client_resolution;
pub mod endpoints;
pub mod dhcp;
pub mod host_machine_id;
