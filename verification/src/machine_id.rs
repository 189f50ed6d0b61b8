//! Deriving a machine's ID from its hardware fingerprint.

use vstd::prelude::*;

use sha2::Digest;

use crate::text::push_str;

verus! {

/// The identity data that DMI reports.
#[derive(Debug, Clone, PartialEq, Eq)]
pub struct DmiData {
    pub product_serial: String,
    pub board_serial: String,
    pub chassis_serial: String,
}

/// The parts of a machine's hardware fingerprint that its ID derives from.
#[derive(Debug, Clone, PartialEq, Eq)]
pub struct HardwareInfo {
    /// The DER bytes of the TPM's endorsement key certificate, when the machine has a TPM.
    pub tpm_ek_certificate: Option<Vec<u8>>,
    pub dmi_data: Option<DmiData>,
    /// Whether the fingerprint is that of a DPU.
    pub dpu: bool,
}

impl HardwareInfo {
    /// Whether the fingerprint is that of a DPU.
    pub fn is_dpu(&self) -> (r: bool)
        ensures
            r == self.dpu,
    {
        self.dpu
    }
}

/// What the hash of a machine ID was computed from.
#[derive(Debug, Clone, Copy, PartialEq, Eq, Structural)]
pub enum MachineIdSource {
    Tpm,
    ProductBoardChassisSerial,
}

/// The kind of machine an ID names.
#[derive(Debug, Clone, Copy, PartialEq, Eq, Structural)]
pub enum MachineType {
    Host,
    Dpu,
    PredictedHost,
}

/// A machine ID: the source and SHA-256 hash of the fingerprint it derives from, and the
/// kind of machine.
#[derive(Debug, Clone, PartialEq, Eq)]
pub struct MachineId {
    pub source: MachineIdSource,
    pub hash: Vec<u8>,
    pub machine_type: MachineType,
}

/// Why no machine ID can be derived.
#[derive(Debug, Copy, Clone, PartialEq, Eq, Structural)]
pub enum MissingHardwareInfo {
    /// The TPM certificate has no bytes.
    TPMCertEmpty,
    /// Serial number missing (product, board and chassis).
    Serial,
    /// TPM and DMI data are both missing.
    All,
}

/// What the SHA-256 digest of `data` is.
pub uninterp spec fn sha256(data: Seq<u8>) -> Seq<u8>;

/// Computes a SHA-256 digest with the `sha2` crate: 32 bytes.
#[verifier::external_body]
pub(crate) fn sha256_digest(data: &[u8]) -> (r: Vec<u8>)
    ensures
        r@ == sha256(data@),
        r@.len() == 32,
{
    let mut hasher = sha2::Sha256::new();
    hasher.update(data);
    hasher.finalize().to_vec()
}

/// The text that the serial numbers are hashed as: `p<product>-b<board>-c<chassis>`.
pub open spec fn serials_text(d: DmiData) -> Seq<char> {
    seq!['p'] + d.product_serial@ + seq!['-', 'b'] + d.board_serial@ + seq!['-', 'c'] + d.chassis_serial@
}

/// The ID derived from a fingerprint: from the TPM certificate when there is one (an empty
/// certificate is an error), else from the DMI serial numbers (at least one must be
/// non-empty), else none.
pub open spec fn derived_id(hw: HardwareInfo, machine_type: MachineType) -> Result<(MachineIdSource, Seq<u8>, MachineType), MissingHardwareInfo> {
    match hw.tpm_ek_certificate {
        Some(cert) => if cert@.len() == 0 {
            Err(MissingHardwareInfo::TPMCertEmpty)
        } else {
            Ok((MachineIdSource::Tpm, sha256(cert@), machine_type))
        },
        None => match hw.dmi_data {
            Some(d) => if d.product_serial@.len() == 0 && d.board_serial@.len() == 0 && d.chassis_serial@.len() == 0 {
                Err(MissingHardwareInfo::Serial)
            } else {
                Ok((MachineIdSource::ProductBoardChassisSerial, sha256(vstd::utf8::encode_utf8(serials_text(d))), machine_type))
            },
            None => Err(MissingHardwareInfo::All),
        },
    }
}

/// The parts of a machine ID.
pub open spec fn id_parts(id: MachineId) -> (MachineIdSource, Seq<u8>, MachineType) {
    (id.source, id.hash@, id.machine_type)
}

/// Derives a machine ID of the given kind from a hardware fingerprint.
pub fn from_hardware_info_with_type(hardware_info: &HardwareInfo, machine_type: MachineType) -> (r: Result<MachineId, MissingHardwareInfo>)
    ensures
        r matches Ok(id) ==> derived_id(*hardware_info, machine_type) == Ok::<(MachineIdSource, Seq<u8>, MachineType), MissingHardwareInfo>(id_parts(id)),
        r matches Err(e) ==> derived_id(*hardware_info, machine_type) == Err::<(MachineIdSource, Seq<u8>, MachineType), MissingHardwareInfo>(e),
{
    match &hardware_info.tpm_ek_certificate {
        Some(cert) => {
            if cert.len() == 0 {
                return Err(MissingHardwareInfo::TPMCertEmpty);
            }
            let hash = sha256_digest(cert.as_slice());
            Ok(MachineId { source: MachineIdSource::Tpm, hash, machine_type })
        },
        None => match &hardware_info.dmi_data {
            Some(d) => {
                if d.product_serial.as_str().unicode_len() == 0 && d.board_serial.as_str().unicode_len() == 0
                    && d.chassis_serial.as_str().unicode_len() == 0 {
                    return Err(MissingHardwareInfo::Serial);
                }
                let mut all_serials = String::new();
                all_serials.push('p');
                push_str(&mut all_serials, d.product_serial.as_str());
                all_serials.push('-');
                all_serials.push('b');
                push_str(&mut all_serials, d.board_serial.as_str());
                all_serials.push('-');
                all_serials.push('c');
                push_str(&mut all_serials, d.chassis_serial.as_str());
                assert(all_serials@ =~= serials_text(*d));
                let bytes = all_serials.as_str().as_bytes();
                let hash = sha256_digest(bytes);
                Ok(MachineId { source: MachineIdSource::ProductBoardChassisSerial, hash, machine_type })
            },
            None => Err(MissingHardwareInfo::All),
        },
    }
}

/// Derives a machine ID from a hardware fingerprint: a DPU ID for a DPU, a host ID otherwise.
pub fn from_hardware_info(hardware_info: &HardwareInfo) -> (r: Result<MachineId, MissingHardwareInfo>)
    ensures
        r matches Ok(id) ==> derived_id(*hardware_info, if hardware_info.dpu { MachineType::Dpu } else { MachineType::Host })
            == Ok::<(MachineIdSource, Seq<u8>, MachineType), MissingHardwareInfo>(id_parts(id)),
        r matches Err(e) ==> derived_id(*hardware_info, MachineType::Host) == Err::<(MachineIdSource, Seq<u8>, MachineType), MissingHardwareInfo>(e),
{
    let machine_type = if hardware_info.is_dpu() { MachineType::Dpu } else { MachineType::Host };
    from_hardware_info_with_type(hardware_info, machine_type)
}

/// Derives the temporary ID of a host from the fingerprint of its DPU.
pub fn host_id_from_dpu_hardware_info(hardware_info: &HardwareInfo) -> (r: Result<MachineId, MissingHardwareInfo>)
    requires
        hardware_info.dpu,
    ensures
        r matches Ok(id) ==> derived_id(*hardware_info, MachineType::PredictedHost)
            == Ok::<(MachineIdSource, Seq<u8>, MachineType), MissingHardwareInfo>(id_parts(id)),
        r matches Err(e) ==> derived_id(*hardware_info, MachineType::PredictedHost)
            == Err::<(MachineIdSource, Seq<u8>, MachineType), MissingHardwareInfo>(e),
{
    from_hardware_info_with_type(hardware_info, MachineType::PredictedHost)
}

/// Whether an ID can be derived, from what, and the hash do not depend on the kind of
/// machine the ID is for.
pub proof fn lemma_id_independent_of_type(hw: HardwareInfo, a: MachineType, b: MachineType)
    ensures
        derived_id(hw, a) is Ok == derived_id(hw, b) is Ok,
        derived_id(hw, a) is Ok ==> derived_id(hw, a)->Ok_0.0 == derived_id(hw, b)->Ok_0.0
            && derived_id(hw, a)->Ok_0.1 == derived_id(hw, b)->Ok_0.1,
        derived_id(hw, a) is Err ==> derived_id(hw, a) == derived_id(hw, b),
{
}

/// Checks that a DPF snapshot is asked of a host: a DPU's machine ID is refused.
pub fn check_snapshot_host(machine_type: MachineType) -> (r: Result<(), String>)
    ensures
        machine_type == MachineType::Dpu ==> (r matches Err(e) && e@ == "Only host machine id is expected"@),
        machine_type != MachineType::Dpu ==> r is Ok,
{
    if machine_type == MachineType::Dpu {
        return Err(String::from_str("Only host machine id is expected"));
    }
    Ok(())
}

} // verus!
