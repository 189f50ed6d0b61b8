//! VPC prefixes: the address ranges of a VPC that its segments are cut from.

use vstd::prelude::*;

use crate::metadata::Metadata;

verus! {

/// What is configured of a VPC prefix: the prefix, in CIDR notation.
#[derive(Debug, Clone)]
pub struct VpcPrefixConfig {
    pub prefix: String,
}

/// How much of a VPC prefix is in use.
#[derive(Debug, Clone)]
pub struct VpcPrefixStatus {
    pub last_used_prefix: Option<String>,
    pub total_31_segments: u32,
    pub available_31_segments: u32,
    pub total_linknet_segments: u64,
    pub available_linknet_segments: u64,
}

/// A VPC prefix.
#[derive(Debug, Clone)]
pub struct VpcPrefix {
    pub id: String,
    pub vpc_id: String,
    pub config: VpcPrefixConfig,
    pub metadata: Metadata,
    pub status: VpcPrefixStatus,
}

/// How VPC prefixes are searched by a network: equal to it, containing it, or contained in
/// it; the network in CIDR notation.
#[derive(Debug, Clone)]
pub enum PrefixMatch {
    Exact(String),
    Contains(String),
    ContainedBy(String),
}

/// A VPC prefix before it is stored.
#[derive(Debug, Clone)]
pub struct NewVpcPrefix {
    pub id: String,
    pub vpc_id: String,
    pub config: VpcPrefixConfig,
    pub metadata: Metadata,
}

/// A change to a VPC prefix: only its metadata can change.
#[derive(Debug, Clone)]
pub struct UpdateVpcPrefix {
    pub id: String,
    pub metadata: Metadata,
}

/// The deletion of a VPC prefix.
#[derive(Debug, Clone)]
pub struct DeleteVpcPrefix {
    pub id: String,
}

} // verus!
