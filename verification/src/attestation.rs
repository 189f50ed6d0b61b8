//! Attestation: reading TPM CA and EK certificates, deciding whether an EK certificate was
//! signed by a known CA and what is recorded of it, and the outcomes of the attestation
//! requests.

use vstd::prelude::*;

use x509_parser::certificate::X509Certificate;
use x509_parser::extensions::{GeneralName, ParsedExtension};
use x509_parser::oid_registry::{OID_PKIX_ACCESS_DESCRIPTOR_CA_ISSUERS, OID_PKIX_AUTHORITY_INFO_ACCESS};
use x509_parser::prelude::FromDer;

use crate::api_error::{ApiError, ApiErrorView};
use crate::machine_id::{sha256, sha256_digest};
use crate::text::{decimal, push_decimal, push_str};

verus! {

// ---------------------------------------------------------------------------
// Reading certificates
// ---------------------------------------------------------------------------

/// Why `der` does not parse as an X.509 certificate, or `None` where it does.
pub uninterp spec fn x509_parse_error(der: Seq<u8>) -> Option<Seq<char>>;

/// The validity period of a certificate, in seconds since the Unix epoch.
pub uninterp spec fn x509_validity(der: Seq<u8>) -> Option<(i64, i64)>;

/// The raw DER of a certificate's subject.
pub uninterp spec fn x509_subject(der: Seq<u8>) -> Option<Seq<u8>>;

/// The raw DER of a certificate's issuer.
pub uninterp spec fn x509_issuer(der: Seq<u8>) -> Option<Seq<u8>>;

/// A certificate's issuer as text.
pub uninterp spec fn x509_issuer_text(der: Seq<u8>) -> Option<Seq<char>>;

/// A certificate's serial number as text.
pub uninterp spec fn x509_serial(der: Seq<u8>) -> Option<Seq<char>>;

/// The access locations of a certificate's CA issuers: for each, its URI where it is one;
/// `None` inside where the certificate has no single authority information access extension.
pub uninterp spec fn x509_ca_issuers(der: Seq<u8>) -> Option<Option<Seq<Option<Seq<char>>>>>;

/// Whether the certificate `cert` parses and carries a signature that the public key of the
/// certificate `ca` verifies.
pub uninterp spec fn x509_signed_by(cert: Seq<u8>, ca: Seq<u8>) -> bool;

/// `X509Certificate::from_der`: the error, as text, where `der` does not parse.
#[verifier::external_body]
fn certificate_parse_error(der: &[u8]) -> (r: Option<String>)
    ensures
        match r {
            Some(e) => x509_parse_error(der@) == Some(e@),
            None => x509_parse_error(der@) is None,
        },
{
    match X509Certificate::from_der(der) {
        Ok(_) => None,
        Err(e) => Some(e.to_string()),
    }
}

/// `X509Certificate::from_der` and the timestamps of `validity.not_before` and
/// `validity.not_after`; `None` exactly where `der` does not parse.
#[verifier::external_body]
fn certificate_validity(der: &[u8]) -> (r: Option<(i64, i64)>)
    ensures
        r == x509_validity(der@),
        r is Some <==> x509_parse_error(der@) is None,
{
    match X509Certificate::from_der(der) {
        Ok((_, c)) => Some((c.validity.not_before.timestamp(), c.validity.not_after.timestamp())),
        Err(_) => None,
    }
}

/// `X509Certificate::from_der` and the raw subject; `None` exactly where `der` does not parse.
#[verifier::external_body]
fn certificate_subject(der: &[u8]) -> (r: Option<Vec<u8>>)
    ensures
        match r {
            Some(v) => x509_subject(der@) == Some(v@),
            None => x509_subject(der@) is None,
        },
        r is Some <==> x509_parse_error(der@) is None,
{
    match X509Certificate::from_der(der) {
        Ok((_, c)) => Some(c.subject.as_raw().to_vec()),
        Err(_) => None,
    }
}

/// `X509Certificate::from_der` and the raw issuer; `None` exactly where `der` does not parse.
#[verifier::external_body]
fn certificate_issuer(der: &[u8]) -> (r: Option<Vec<u8>>)
    ensures
        match r {
            Some(v) => x509_issuer(der@) == Some(v@),
            None => x509_issuer(der@) is None,
        },
        r is Some <==> x509_parse_error(der@) is None,
{
    match X509Certificate::from_der(der) {
        Ok((_, c)) => Some(c.issuer.as_raw().to_vec()),
        Err(_) => None,
    }
}

/// `X509Certificate::from_der` and the issuer's `Display`; `None` exactly where `der` does not
/// parse.
#[verifier::external_body]
fn certificate_issuer_text(der: &[u8]) -> (r: Option<String>)
    ensures
        match r {
            Some(v) => x509_issuer_text(der@) == Some(v@),
            None => x509_issuer_text(der@) is None,
        },
        r is Some <==> x509_parse_error(der@) is None,
{
    match X509Certificate::from_der(der) {
        Ok((_, c)) => Some(c.issuer.to_string()),
        Err(_) => None,
    }
}

/// `X509Certificate::from_der` and `raw_serial_as_string`; `None` exactly where `der` does not
/// parse.
#[verifier::external_body]
fn certificate_serial(der: &[u8]) -> (r: Option<String>)
    ensures
        match r {
            Some(v) => x509_serial(der@) == Some(v@),
            None => x509_serial(der@) is None,
        },
        r is Some <==> x509_parse_error(der@) is None,
{
    match X509Certificate::from_der(der) {
        Ok((_, c)) => Some(c.raw_serial_as_string()),
        Err(_) => None,
    }
}

/// `X509Certificate::from_der`, `get_extension_unique` of the authority information access
/// extension, and the access locations it gives for CA issuers, each as its URI where it is
/// one; the outer `None` exactly where `der` does not parse.
#[verifier::external_body]
fn certificate_ca_issuers(der: &[u8]) -> (r: Option<Option<Vec<Option<String>>>>)
    ensures
        match r {
            Some(Some(v)) => x509_ca_issuers(der@) == Some(Some(opt_texts(v@))),
            Some(None) => x509_ca_issuers(der@) == Some(None::<Seq<Option<Seq<char>>>>),
            None => x509_ca_issuers(der@) is None,
        },
        r is Some <==> x509_parse_error(der@) is None,
{
    let c = match X509Certificate::from_der(der) {
        Ok((_, c)) => c,
        Err(_) => return None,
    };
    let ext = c.get_extension_unique(&OID_PKIX_AUTHORITY_INFO_ACCESS).ok().flatten();
    let aia = match ext.map(|e| e.parsed_extension()) {
        Some(ParsedExtension::AuthorityInfoAccess(aia)) => aia,
        _ => return Some(None),
    };
    let names = aia.as_hashmap().get(&OID_PKIX_ACCESS_DESCRIPTOR_CA_ISSUERS).cloned().unwrap_or_default();
    Some(Some(names.iter().map(|n| match n { GeneralName::URI(u) => Some(u.to_string()), _ => None }).collect()))
}

/// `X509Certificate::verify_signature` of the certificate `cert` with the public key of the
/// certificate `ca`: whether both parse and the signature verifies.
#[verifier::external_body]
fn certificate_signed_by(cert: &[u8], ca: &[u8]) -> (r: bool)
    ensures
        r == x509_signed_by(cert@, ca@),
{
    match (
        X509Certificate::from_der(cert),
        X509Certificate::from_der(ca),
    ) {
        (Ok((_, c)), Ok((_, a))) => c.verify_signature(Some(a.public_key())).is_ok(),
        _ => false,
    }
}

/// Whether `chrono` represents the instant `secs` seconds after the Unix epoch: its dates
/// run from the first of January of year -262143 to the thirty-first of December of year
/// 262142 (proleptic Gregorian, year 0 being 1 BCE), so the instants from
/// -262143-01-01T00:00:00 to 262142-12-31T23:59:59.
pub open spec fn chrono_timestamp_ok(secs: i64) -> bool {
    -8_334_601_228_800 <= secs <= 8_210_266_876_799
}

/// `DateTime::<Utc>::from_timestamp(secs, 0)`, given back as its `timestamp()`: `None` where
/// the instant is out of chrono's range (the day count `secs.div_euclid(86_400) + 719_163`
/// must name a date between chrono's first and last year), else `secs` itself.
#[verifier::external_body]
fn utc_timestamp(secs: i64) -> (r: Option<i64>)
    ensures
        r == (if chrono_timestamp_ok(secs) {
            Some(secs)
        } else {
            None
        }),
{
    match chrono::DateTime::<chrono::Utc>::from_timestamp(secs, 0) {
        Some(d) => Some(d.timestamp()),
        None => None,
    }
}

// ---------------------------------------------------------------------------
// CA certificates
// ---------------------------------------------------------------------------

/// What is read of a CA certificate: its validity period and raw subject, or why it could
/// not be read.
pub open spec fn ca_fields(der: Seq<u8>) -> Result<(i64, i64, Seq<u8>), ApiErrorView> {
    match x509_parse_error(der) {
        Some(e) => Err(ApiErrorView::InvalidArgument("Could not parse CA cert: "@ + e)),
        None => {
            let (nb, na) = x509_validity(der)->0;
            if !chrono_timestamp_ok(nb) {
                Err(ApiErrorView::Internal("Could not parse CA's NOT BEFORE field"@))
            } else if !chrono_timestamp_ok(na) {
                Err(ApiErrorView::Internal("Could not parse CA's NOT AFTER field"@))
            } else {
                Ok((nb, na, x509_subject(der)->0))
            }
        },
    }
}

fn prefixed_message(prefix: &str, e: &str) -> (r: String)
    ensures
        r@ == prefix@ + e@,
{
    let mut m = String::from_str(prefix);
    push_str(&mut m, e);
    m
}

/// The validity period, in seconds since the Unix epoch, and the raw subject of a CA
/// certificate.
pub fn extract_ca_fields(ca_cert_bytes: &[u8]) -> (r: Result<(i64, i64, Vec<u8>), ApiError>)
    ensures
        match r {
            Ok((nb, na, subject)) => ca_fields(ca_cert_bytes@) == Ok::<(i64, i64, Seq<u8>), ApiErrorView>(
                (nb, na, subject@),
            ),
            Err(e) => ca_fields(ca_cert_bytes@) == Err::<(i64, i64, Seq<u8>), ApiErrorView>(e@),
        },
{
    if let Some(e) = certificate_parse_error(ca_cert_bytes) {
        return Err(ApiError::InvalidArgument(prefixed_message("Could not parse CA cert: ", e.as_str())));
    }
    let (nb, na) = match certificate_validity(ca_cert_bytes) {
        Some(v) => v,
        None => {
            return Err(ApiError::InvalidArgument(String::from_str("Could not parse CA cert")));
        },
    };
    let not_before = match utc_timestamp(nb) {
        Some(t) => t,
        None => {
            return Err(ApiError::Internal(String::from_str("Could not parse CA's NOT BEFORE field")));
        },
    };
    let not_after = match utc_timestamp(na) {
        Some(t) => t,
        None => {
            return Err(ApiError::Internal(String::from_str("Could not parse CA's NOT AFTER field")));
        },
    };
    let subject = match certificate_subject(ca_cert_bytes) {
        Some(s) => s,
        None => {
            return Err(ApiError::InvalidArgument(String::from_str("Could not parse CA cert")));
        },
    };
    Ok((not_before, not_after, subject))
}

// ---------------------------------------------------------------------------
// EK certificates
// ---------------------------------------------------------------------------

/// What is recorded of an EK certificate whose CA is looked up.
#[derive(Debug, Clone)]
pub struct EkCertFacts {
    /// The SHA-256 digest of the certificate, by which its status is found.
    pub sha256: Vec<u8>,
    pub serial: String,
    /// The raw issuer, by which its CA is found.
    pub issuer: Vec<u8>,
    /// Where the CA certificate can be fetched, or why that is not known.
    pub issuer_access_info: String,
}

pub open spec fn no_access_info() -> Seq<char> {
    "Authority Information Access X.509 Extension (1.3.6.1.5.5.7.1.1) URI is not present in the EK certificate"@
}

/// The URI of the last CA issuer location that is one, if any.
pub open spec fn last_uri(names: Seq<Option<Seq<char>>>) -> Option<Seq<char>>
    decreases names.len(),
{
    if names.len() == 0 {
        None
    } else {
        match names.last() {
            Some(u) => Some(u),
            None => last_uri(names.drop_last()),
        }
    }
}

/// Where the CA of a certificate can be fetched: the last CA issuer URI of its authority
/// information access extension, or a note that there is none.
pub open spec fn access_info(names: Option<Seq<Option<Seq<char>>>>) -> Seq<char> {
    match names {
        Some(ns) => match last_uri(ns) {
            Some(u) => u,
            None => no_access_info(),
        },
        None => no_access_info(),
    }
}

/// The facts recorded of an EK certificate, or why it could not be read.
pub open spec fn ek_facts(der: Seq<u8>) -> Result<(Seq<u8>, Seq<char>, Seq<u8>, Seq<char>), ApiErrorView> {
    match x509_parse_error(der) {
        Some(e) => Err(ApiErrorView::InvalidArgument("Could not parse EK cert: "@ + e)),
        None => Ok((sha256(der), x509_serial(der)->0, x509_issuer(der)->0, access_info(x509_ca_issuers(der)->0))),
    }
}

/// The views of optional texts.
pub open spec fn opt_texts(v: Seq<Option<String>>) -> Seq<Option<Seq<char>>> {
    v.map_values(|o: Option<String>| match o {
        Some(s) => Some(s@),
        None => None,
    })
}

/// The location among CA issuer locations that `access_info` picks.
fn pick_access_info(names: Option<Vec<Option<String>>>) -> (r: String)
    ensures
        r@ == access_info(
            match names {
                Some(v) => Some(opt_texts(v@)),
                None => None,
            },
        ),
{
    match names {
        None => String::from_str(
            "Authority Information Access X.509 Extension (1.3.6.1.5.5.7.1.1) URI is not present in the EK certificate",
        ),
        Some(v) => {
            let ghost ns = opt_texts(v@);
            let mut found: Option<String> = None;
            let mut i: usize = 0;
            while i < v.len()
                invariant
                    i <= v@.len(),
                    ns == opt_texts(v@),
                    (match found {
                        Some(s) => Some(s@),
                        None => None,
                    }) == last_uri(ns.take(i as int)),
                decreases v@.len() - i,
            {
                assert(ns.take(i + 1).drop_last() =~= ns.take(i as int));
                match &v[i] {
                    Some(u) => {
                        found = Some(u.clone());
                    },
                    None => {},
                }
                i = i + 1;
            }
            assert(ns.take(v@.len() as int) =~= ns);
            match found {
                Some(u) => u,
                None => String::from_str(
                    "Authority Information Access X.509 Extension (1.3.6.1.5.5.7.1.1) URI is not present in the EK certificate",
                ),
            }
        },
    }
}

/// Reads an EK certificate: its digest, serial number and issuer, and where its CA can be
/// fetched.
pub fn ek_cert_facts(ek_der: &[u8]) -> (r: Result<EkCertFacts, ApiError>)
    ensures
        match r {
            Ok(f) => ek_facts(ek_der@) == Ok::<(Seq<u8>, Seq<char>, Seq<u8>, Seq<char>), ApiErrorView>(
                (f.sha256@, f.serial@, f.issuer@, f.issuer_access_info@),
            ),
            Err(e) => ek_facts(ek_der@) == Err::<(Seq<u8>, Seq<char>, Seq<u8>, Seq<char>), ApiErrorView>(e@),
        },
{
    if let Some(e) = certificate_parse_error(ek_der) {
        return Err(ApiError::InvalidArgument(prefixed_message("Could not parse EK cert: ", e.as_str())));
    }
    let serial = match certificate_serial(ek_der) {
        Some(s) => s,
        None => {
            return Err(ApiError::InvalidArgument(String::from_str("Could not parse EK cert")));
        },
    };
    let issuer = match certificate_issuer(ek_der) {
        Some(s) => s,
        None => {
            return Err(ApiError::InvalidArgument(String::from_str("Could not parse EK cert")));
        },
    };
    let names = match certificate_ca_issuers(ek_der) {
        Some(n) => n,
        None => {
            return Err(ApiError::InvalidArgument(String::from_str("Could not parse EK cert")));
        },
    };
    let issuer_access_info = pick_access_info(names);
    let digest = sha256_digest(ek_der);
    Ok(EkCertFacts { sha256: digest, serial, issuer, issuer_access_info })
}

/// Whether an EK certificate's signing CA was found, and its ID: given the CA entry found
/// by the certificate's issuer, if any, the CA is the signer only when its certificate
/// parses and verifies the EK certificate's signature.
pub open spec fn signing_ca(ek: Seq<u8>, ca: Option<(i32, Seq<u8>)>) -> Result<(bool, Option<i32>), ApiErrorView> {
    match ca {
        None => Ok((false, None)),
        Some((id, der)) => match x509_parse_error(der) {
            Some(e) => Err(ApiErrorView::InvalidArgument("Could not parse CA cert: "@ + e)),
            None => if x509_signed_by(ek, der) {
                Ok((true, Some(id)))
            } else {
                Ok((false, None))
            },
        },
    }
}

/// Whether an EK certificate's signing CA was found, given the CA entry found by its issuer.
pub fn find_signing_ca(ek_der: &[u8], ca_entry: Option<(i32, Vec<u8>)>) -> (r: Result<
    (bool, Option<i32>),
    ApiError,
>)
    ensures
        match r {
            Ok(v) => signing_ca(
                ek_der@,
                match ca_entry {
                    Some((id, der)) => Some((id, der@)),
                    None => None,
                },
            ) == Ok::<(bool, Option<i32>), ApiErrorView>(v),
            Err(e) => signing_ca(
                ek_der@,
                match ca_entry {
                    Some((id, der)) => Some((id, der@)),
                    None => None,
                },
            ) == Err::<(bool, Option<i32>), ApiErrorView>(e@),
        },
{
    match ca_entry {
        None => Ok((false, None)),
        Some((id, der)) => {
            if let Some(e) = certificate_parse_error(der.as_slice()) {
                return Err(ApiError::InvalidArgument(prefixed_message("Could not parse CA cert: ", e.as_str())));
            }
            if certificate_signed_by(ek_der, der.as_slice()) {
                Ok((true, Some(id)))
            } else {
                Ok((false, None))
            }
        },
    }
}

/// What is written of an EK certificate's verification status.
#[derive(Debug, Clone, PartialEq, Eq)]
pub enum EkStatusWrite {
    /// The certificate's status exists: only whether its CA was found changes.
    Update { signing_ca_found: bool, ca_id: Option<i32> },
    /// The certificate is new: its whole status is inserted.
    Insert { signing_ca_found: bool, ca_id: Option<i32> },
}

/// What is written of an EK certificate's status, given whether one is recorded already.
pub fn ek_status_write(already_recorded: bool, signing_ca_found: bool, ca_id: Option<i32>) -> (r: EkStatusWrite)
    ensures
        r == (if already_recorded {
            EkStatusWrite::Update { signing_ca_found, ca_id }
        } else {
            EkStatusWrite::Insert { signing_ca_found, ca_id }
        }),
{
    if already_recorded {
        EkStatusWrite::Update { signing_ca_found, ca_id }
    } else {
        EkStatusWrite::Insert { signing_ca_found, ca_id }
    }
}


/// What has been learned while checking a newly reported EK certificate against the known
/// CAs: nothing yet; the CA certificate recorded under its issuer, if any; and whether a
/// status is already recorded under its digest, with what the CA check found.
#[derive(Debug)]
pub enum EkCheckEvent {
    Start,
    CaLookedUp { ca_entry: Option<(i32, Vec<u8>)> },
    StatusLookedUp { signing_ca_found: bool, ca_id: Option<i32>, recorded: bool },
}

/// The next step in checking an EK certificate against the known CAs.
#[derive(Debug)]
pub enum EkCheckAction {
    /// Look up the CA certificate whose subject is this issuer.
    FindCaBySubject(Vec<u8>),
    /// Look up the status recorded under this digest; the CA check's outcome is handed back
    /// with the answer.
    FindStatusByDigest { sha256: Vec<u8>, signing_ca_found: bool, ca_id: Option<i32> },
    /// Write the certificate's status.
    Write { sha256: Vec<u8>, serial: String, issuer: Vec<u8>, issuer_access_info: String, write: EkStatusWrite },
    Failed(ApiError),
}

/// Checking a newly reported EK certificate against the known CAs, one step at a time: the
/// certificate is read; the CA certificate recorded under its issuer is looked up and, where
/// there is one, checked to have signed it; then the status recorded under its digest is
/// looked up, and updated where it exists or inserted whole where it does not.
pub fn ek_cert_check_step(ek_der: &[u8], event: EkCheckEvent) -> (r: EkCheckAction)
    ensures
        match ek_facts(ek_der@) {
            Err(e) => r matches EkCheckAction::Failed(x) && x@ == e,
            Ok(f) => match event {
                EkCheckEvent::Start => r matches EkCheckAction::FindCaBySubject(x) && x@ == f.2,
                EkCheckEvent::CaLookedUp { ca_entry } => match signing_ca(
                    ek_der@,
                    match ca_entry {
                        Some((id, der)) => Some((id, der@)),
                        None => None,
                    },
                ) {
                    Ok((found, id)) => r matches EkCheckAction::FindStatusByDigest { sha256: x, signing_ca_found: b, ca_id: c }
                        && x@ == f.0 && b == found && c == id,
                    Err(e) => r matches EkCheckAction::Failed(x) && x@ == e,
                },
                EkCheckEvent::StatusLookedUp { signing_ca_found, ca_id, recorded } => r matches EkCheckAction::Write {
                    sha256: a,
                    serial: b,
                    issuer: c,
                    issuer_access_info: d,
                    write: w,
                } && a@ == f.0 && b@ == f.1 && c@ == f.2 && d@ == f.3 && w == (if recorded {
                    EkStatusWrite::Update { signing_ca_found, ca_id }
                } else {
                    EkStatusWrite::Insert { signing_ca_found, ca_id }
                }),
            },
        },
{
    let facts = match ek_cert_facts(ek_der) {
        Ok(f) => f,
        Err(e) => return EkCheckAction::Failed(e),
    };
    match event {
        EkCheckEvent::Start => EkCheckAction::FindCaBySubject(facts.issuer),
        EkCheckEvent::CaLookedUp { ca_entry } => match find_signing_ca(ek_der, ca_entry) {
            Ok((found, id)) => EkCheckAction::FindStatusByDigest { sha256: facts.sha256, signing_ca_found: found, ca_id: id },
            Err(e) => EkCheckAction::Failed(e),
        },
        EkCheckEvent::StatusLookedUp { signing_ca_found, ca_id, recorded } => EkCheckAction::Write {
            sha256: facts.sha256,
            serial: facts.serial,
            issuer: facts.issuer,
            issuer_access_info: facts.issuer_access_info,
            write: ek_status_write(recorded, signing_ca_found, ca_id),
        },
    }
}

/// Whether a newly known CA signed the EK certificate of a machine, or why the two
/// certificates could not be read.
pub open spec fn newly_signed(ek: Seq<u8>, ca: Seq<u8>) -> Result<bool, ApiErrorView> {
    match x509_parse_error(ek) {
        Some(e) => Err(ApiErrorView::Internal("Could not parse EK cert: "@ + e)),
        None => match x509_parse_error(ca) {
            Some(e) => Err(ApiErrorView::Internal("Could not parse CA cert: "@ + e)),
            None => Ok(x509_signed_by(ek, ca)),
        },
    }
}


/// Whether a newly known CA signed the EK certificate of a machine.
pub fn ek_cert_signed_by_ca(ek_der: &[u8], ca_cert_bytes: &[u8]) -> (r: Result<bool, ApiError>)
    ensures
        match r {
            Ok(b) => newly_signed(ek_der@, ca_cert_bytes@) == Ok::<bool, ApiErrorView>(b),
            Err(e) => newly_signed(ek_der@, ca_cert_bytes@) == Err::<bool, ApiErrorView>(e@),
        },
{
    if let Some(e) = certificate_parse_error(ek_der) {
        return Err(ApiError::Internal(prefixed_message("Could not parse EK cert: ", e.as_str())));
    }
    if let Some(e) = certificate_parse_error(ca_cert_bytes) {
        return Err(ApiError::Internal(prefixed_message("Could not parse CA cert: ", e.as_str())));
    }
    Ok(certificate_signed_by(ek_der, ca_cert_bytes))
}

/// The error of a failed status update for a certificate: its serial number and issuer, and
/// what the update gave.
pub fn status_update_error(ek_der: &[u8], error: &str) -> (r: Option<ApiError>)
    ensures
        match r {
            Some(e) => x509_parse_error(ek_der@) is None && e@ == ApiErrorView::Internal(
                "Could not update CA verification status for EK serial - "@ + x509_serial(ek_der@)->0 + ", issuer - "@
                    + x509_issuer_text(ek_der@)->0 + ", error: "@ + error@,
            ),
            None => x509_parse_error(ek_der@) is Some,
        },
{
    let serial = match certificate_serial(ek_der) {
        Some(s) => s,
        None => return None,
    };
    let issuer = match certificate_issuer_text(ek_der) {
        Some(s) => s,
        None => return None,
    };
    let mut m = String::from_str("Could not update CA verification status for EK serial - ");
    push_str(&mut m, serial.as_str());
    push_str(&mut m, ", issuer - ");
    push_str(&mut m, issuer.as_str());
    push_str(&mut m, ", error: ");
    push_str(&mut m, error);
    Some(ApiError::Internal(m))
}

// ---------------------------------------------------------------------------
// Quotes and attestation requests
// ---------------------------------------------------------------------------

/// A hexadecimal digit, in lower case.
pub open spec fn hex_digit(d: nat) -> char {
    if d < 10 {
        (('0' as nat) + d) as char
    } else {
        (('a' as nat) + d - 10) as char
    }
}

/// Bytes in hexadecimal: two lower-case digits per byte, the high one first.
pub open spec fn hex_of(bytes: Seq<u8>) -> Seq<char>
    decreases bytes.len(),
{
    if bytes.len() == 0 {
        Seq::empty()
    } else {
        hex_of(bytes.drop_last()) + seq![hex_digit((bytes.last() / 16) as nat), hex_digit((bytes.last() % 16) as nat)]
    }
}

/// `hex::encode`: each byte as two lower-case hexadecimal digits, the high one first.
#[verifier::external_body]
fn hex_encode(data: &[u8]) -> (r: String)
    ensures
        r@ == hex_of(data@),
{
    hex::encode(data)
}

/// The PCR register values of a quote, in hexadecimal, as they are stored in a measurement
/// report.
pub fn pcr_values_hex(pcr_values: &Vec<Vec<u8>>) -> (r: Vec<String>)
    ensures
        r@.len() == pcr_values@.len(),
        forall|i: int| 0 <= i < r@.len() ==> #[trigger] r@[i]@ == hex_of(pcr_values@[i]@),
{
    let mut r: Vec<String> = Vec::new();
    let mut i: usize = 0;
    while i < pcr_values.len()
        invariant
            i <= pcr_values@.len(),
            r@.len() == i,
            forall|j: int| 0 <= j < i ==> #[trigger] r@[j]@ == hex_of(pcr_values@[j]@),
        decreases pcr_values@.len() - i,
    {
        r.push(hex_encode(pcr_values[i].as_slice()));
        i = i + 1;
    }
    r
}

/// The AK public key that a quote's credential was issued for; without one the quote cannot
/// be checked.
pub fn ak_pub_for_quote(entry: Option<Vec<u8>>) -> (r: Result<Vec<u8>, ApiError>)
    ensures
        match entry {
            Some(k) => r matches Ok(x) && x@ == k@,
            None => r matches Err(e) && e@ == ApiErrorView::AttestQuote("Could not form SQL query to fetch AK Pub"@),
        },
{
    match entry {
        Some(k) => Ok(k),
        None => Err(ApiError::AttestQuote(String::from_str("Could not form SQL query to fetch AK Pub"))),
    }
}

/// Whether attestation failed for a quote: only when attestation is enabled and the
/// machine's measurements did not pass it. A failed attestation vends no certificate.
pub fn attestation_failed(attestation_enabled: bool, passed_attestation: bool) -> (r: bool)
    ensures
        r == (attestation_enabled && !passed_attestation),
{
    if attestation_enabled {
        !passed_attestation
    } else {
        false
    }
}


/// What has been learned while attesting a quote: the request's machine ID; the AK public
/// key recorded for the request's credential, if any; whether the quote's signature and PCR
/// hash check out; the measurement report stored for the PCR values, or why it was not; whether
/// the machine's measurements passed attestation; that the transaction is committed; and
/// the machine's certificate, or why there is none.
#[derive(Debug)]
pub enum QuoteEvent {
    Requested { machine_id: Option<String> },
    AkPubLookedUp { entry: Option<Vec<u8>> },
    QuoteChecked { outcome: Result<(), ApiError> },
    ReportStored { machine_id: String, outcome: Result<String, String> },
    AttestationChecked { passed: bool },
    Committed { vend: bool, machine_id: String },
    CertificateGot { outcome: Result<(), String> },
}

/// The next step in attesting a quote.
#[derive(Debug)]
pub enum QuoteAction {
    /// Look up the AK public key recorded for the request's credential.
    FindAkPub,
    /// Check the quote's signature with this key, then its PCR hash.
    CheckQuote(Vec<u8>),
    /// Delete the credential's secret and store these PCR values as a measurement report.
    StoreReport(Vec<String>),
    /// Check whether the machine's measurements in this report passed attestation.
    CheckAttestation(String),
    /// Commit the transaction; a certificate is vended after it only where `vend` holds.
    Commit { vend: bool },
    /// Get the client certificate of the machine with this ID.
    GetCertificate(String),
    /// Answer: whether the quote succeeded, and whether the certificate goes with it.
    Respond { success: bool, with_certificate: bool },
    Failed(ApiError),
}

/// Attesting a quote, one step at a time: the machine ID must be given; the AK public key of
/// the credential must be recorded; the quote must check out; the PCR values are stored as a
/// measurement report, in hex; where attestation is enabled the report must pass it; after
/// the commit, a failed attestation is answered without a certificate, and otherwise the
/// machine's certificate is got and vended.
pub fn attest_quote_step(attestation_enabled: bool, pcr_values: &Vec<Vec<u8>>, event: QuoteEvent) -> (r: QuoteAction)
    ensures
        match event {
            QuoteEvent::Requested { machine_id } => match machine_id {
                Some(_) => r is FindAkPub,
                None => r matches QuoteAction::Failed(e) && e@ == ApiErrorView::MissingArgument("Machine ID"@),
            },
            QuoteEvent::AkPubLookedUp { entry } => match entry {
                Some(k) => r matches QuoteAction::CheckQuote(x) && x@ == k@,
                None => r matches QuoteAction::Failed(e) && e@ == ApiErrorView::AttestQuote(
                    "Could not form SQL query to fetch AK Pub"@,
                ),
            },
            QuoteEvent::QuoteChecked { outcome } => match outcome {
                Ok(()) => r matches QuoteAction::StoreReport(v) && v@.len() == pcr_values@.len() && forall|i: int|
                    0 <= i < v@.len() ==> #[trigger] v@[i]@ == hex_of(pcr_values@[i]@),
                Err(e) => r matches QuoteAction::Failed(x) && x@ == e@,
            },
            QuoteEvent::ReportStored { machine_id, outcome } => match outcome {
                Ok(report_id) => if attestation_enabled {
                    r matches QuoteAction::CheckAttestation(x) && x@ == report_id@
                } else {
                    r == (QuoteAction::Commit { vend: true })
                },
                Err(m) => r matches QuoteAction::Failed(e) && e@ == ApiErrorView::Internal(
                    "Failed storing measurement report: (machine_id: "@ + machine_id@ + ", err: "@ + m@ + ")"@,
                ),
            },
            QuoteEvent::AttestationChecked { passed } => r == (QuoteAction::Commit {
                vend: !(attestation_enabled && !passed),
            }),
            QuoteEvent::Committed { vend, machine_id } => if vend {
                r matches QuoteAction::GetCertificate(x) && x@ == machine_id@
            } else {
                r == (QuoteAction::Respond { success: false, with_certificate: false })
            },
            QuoteEvent::CertificateGot { outcome } => match outcome {
                Ok(()) => r == (QuoteAction::Respond { success: true, with_certificate: true }),
                Err(m) => r matches QuoteAction::Failed(e) && e@ == ApiErrorView::ClientCertificate(m@),
            },
        },
{
    match event {
        QuoteEvent::Requested { machine_id } => match crate::api_error::convert_and_log_machine_id(machine_id) {
            Ok(_) => QuoteAction::FindAkPub,
            Err(e) => QuoteAction::Failed(e),
        },
        QuoteEvent::AkPubLookedUp { entry } => match ak_pub_for_quote(entry) {
            Ok(k) => QuoteAction::CheckQuote(k),
            Err(e) => QuoteAction::Failed(e),
        },
        QuoteEvent::QuoteChecked { outcome } => match outcome {
            Ok(()) => QuoteAction::StoreReport(pcr_values_hex(pcr_values)),
            Err(e) => QuoteAction::Failed(e),
        },
        QuoteEvent::ReportStored { machine_id, outcome } => match outcome {
            Ok(report_id) => if attestation_enabled {
                QuoteAction::CheckAttestation(report_id)
            } else {
                QuoteAction::Commit { vend: true }
            },
            Err(m) => {
                let mut msg = String::from_str("Failed storing measurement report: (machine_id: ");
                push_str(&mut msg, machine_id.as_str());
                push_str(&mut msg, ", err: ");
                push_str(&mut msg, m.as_str());
                push_str(&mut msg, ")");
                QuoteAction::Failed(ApiError::Internal(msg))
            },
        },
        QuoteEvent::AttestationChecked { passed } => QuoteAction::Commit {
            vend: !attestation_failed(attestation_enabled, passed),
        },
        QuoteEvent::Committed { vend, machine_id } => if vend {
            QuoteAction::GetCertificate(machine_id)
        } else {
            QuoteAction::Respond { success: false, with_certificate: false }
        },
        QuoteEvent::CertificateGot { outcome } => match outcome {
            Ok(()) => QuoteAction::Respond { success: true, with_certificate: true },
            Err(m) => QuoteAction::Failed(ApiError::ClientCertificate(m)),
        },
    }
}

/// The machine ID of an attestation trigger, which must be given.
pub fn trigger_machine_id(machine_id: Option<String>) -> (r: Result<String, ApiError>)
    ensures
        match machine_id {
            Some(m) => r matches Ok(x) && x@ == m@,
            None => r matches Err(e) && e@ == ApiErrorView::Internal("No machine id supplied"@),
        },
{
    match machine_id {
        Some(m) => Ok(m),
        None => Err(ApiError::Internal(String::from_str("No machine id supplied"))),
    }
}

/// Checks that exactly one machine has the ID to attest: none is not found, several are an
/// internal error.
pub fn single_machine(count: usize, machine_id: &str) -> (r: Result<(), ApiError>)
    ensures
        count == 1 ==> r is Ok,
        count == 0 ==> (r matches Err(e) && e@ == (ApiErrorView::NotFound { kind: "machine"@, id: machine_id@ })),
        count > 1 ==> (r matches Err(e) && e@ == ApiErrorView::Internal(
            "Found more than one machine for machine id "@ + machine_id@,
        )),
{
    if count == 0 {
        Err(ApiError::NotFound { kind: String::from_str("machine"), id: String::from_str(machine_id) })
    } else if count == 1 {
        Ok(())
    } else {
        let mut m = String::from_str("Found more than one machine for machine id ");
        push_str(&mut m, machine_id);
        Err(ApiError::Internal(m))
    }
}

/// The error when the Redfish client could not be made within the timeout.
pub fn redfish_timeout_error(timeout_secs: u64) -> (r: ApiError)
    ensures
        r@ == ApiErrorView::Internal("redfish creation could not finish in "@ + decimal(timeout_secs as nat) + " seconds"@),
{
    let mut m = String::from_str("redfish creation could not finish in ");
    push_decimal(&mut m, timeout_secs);
    push_str(&mut m, " seconds");
    ApiError::Internal(m)
}

/// How many devices are under attestation, as the response carries it: the count of
/// records inserted, as a 32-bit signed number.
pub fn devices_under_attestation(records_inserted: u64) -> (r: i32)
    ensures
        r == records_inserted as i32,
{
    #[verifier::truncate]
    (records_inserted as i32)
}

/// How making a Redfish client for a machine's BMC ended.
#[derive(Debug, Clone)]
pub enum RedfishOutcome {
    Made,
    Failed(String),
    TimedOut,
}

/// What has been learned while triggering the attestation of a machine: the request; how
/// many machines have its ID; the address of its BMC, or why it could not be read; how making
/// the Redfish client ended; and how many devices the trigger put under attestation, or why
/// it failed.
#[derive(Debug)]
pub enum TriggerEvent {
    Requested { machine_id: Option<String>, redfish_timeout_secs: u32 },
    MachinesFound { machine_id: String, redfish_timeout_secs: u32, count: usize },
    BmcAddressRead { machine_id: String, redfish_timeout_secs: u32, address: Result<String, String>, port: Option<u32> },
    RedfishClientMade { machine_id: String, redfish_timeout_secs: u32, outcome: RedfishOutcome },
    AttestationTriggered { machine_id: String, outcome: Result<u64, String> },
}

/// The next step in triggering the attestation of a machine.
#[derive(Debug, Clone)]
pub enum TriggerAction {
    /// Look up the machines with this ID.
    FindMachine(String),
    /// Read the address of the BMC of the one machine found.
    ReadBmcAddress,
    /// Make a Redfish client for the BMC, giving up after the timeout.
    MakeRedfishClient { address: String, port: Option<u32>, timeout_secs: u64 },
    /// Trigger the attestation through the Redfish client.
    TriggerAttestation { timeout_secs: u64 },
    /// Answer with the machine and the number of devices under attestation.
    Respond { machine_id: String, devices_under_attestation: i32 },
    Failed(ApiError),
}

/// Triggering the attestation of a machine, one step at a time: the machine ID must be
/// given; exactly one machine must have it; its BMC address must read as an address; the
/// Redfish client must be made within the timeout; then the attestation is triggered, and
/// the answer is the number of devices put under attestation.
pub fn trigger_attestation_step(event: TriggerEvent) -> (r: TriggerAction)
    ensures
        match event {
            TriggerEvent::Requested { machine_id, .. } => match machine_id {
                Some(m) => r matches TriggerAction::FindMachine(x) && x@ == m@,
                None => r matches TriggerAction::Failed(e) && e@ == ApiErrorView::Internal("No machine id supplied"@),
            },
            TriggerEvent::MachinesFound { machine_id, count, .. } => if count == 1 {
                r is ReadBmcAddress
            } else if count == 0 {
                r matches TriggerAction::Failed(e) && e@ == (ApiErrorView::NotFound { kind: "machine"@, id: machine_id@ })
            } else {
                r matches TriggerAction::Failed(e) && e@ == ApiErrorView::Internal(
                    "Found more than one machine for machine id "@ + machine_id@,
                )
            },
            TriggerEvent::BmcAddressRead { redfish_timeout_secs, address, port, .. } => match address {
                Ok(a) => r matches TriggerAction::MakeRedfishClient { address: x, port: p, timeout_secs: t } && x@ == a@
                    && p == port && t == redfish_timeout_secs,
                Err(m) => r matches TriggerAction::Failed(e) && e@ == ApiErrorView::Internal(m@),
            },
            TriggerEvent::RedfishClientMade { machine_id, redfish_timeout_secs, outcome } => match outcome {
                RedfishOutcome::Made => r matches TriggerAction::TriggerAttestation { timeout_secs: t }
                    && t == redfish_timeout_secs,
                RedfishOutcome::Failed(m) => r matches TriggerAction::Failed(e) && e@
                    == (ApiErrorView::RedfishClientCreation { machine_id: machine_id@, inner: m@ }),
                RedfishOutcome::TimedOut => r matches TriggerAction::Failed(e) && e@ == ApiErrorView::Internal(
                    "redfish creation could not finish in "@ + decimal(redfish_timeout_secs as nat) + " seconds"@,
                ),
            },
            TriggerEvent::AttestationTriggered { machine_id, outcome } => match outcome {
                Ok(n) => r matches TriggerAction::Respond { machine_id: x, devices_under_attestation: d } && x@
                    == machine_id@ && d == n as i32,
                Err(m) => r matches TriggerAction::Failed(e) && e@ == ApiErrorView::Attestation("trigger error: "@ + m@),
            },
        },
{
    match event {
        TriggerEvent::Requested { machine_id, .. } => match trigger_machine_id(machine_id) {
            Ok(m) => TriggerAction::FindMachine(m),
            Err(e) => TriggerAction::Failed(e),
        },
        TriggerEvent::MachinesFound { machine_id, count, .. } => match single_machine(count, machine_id.as_str()) {
            Ok(()) => TriggerAction::ReadBmcAddress,
            Err(e) => TriggerAction::Failed(e),
        },
        TriggerEvent::BmcAddressRead { redfish_timeout_secs, address, port, .. } => match address {
            Ok(a) => TriggerAction::MakeRedfishClient { address: a, port, timeout_secs: redfish_timeout_secs as u64 },
            Err(m) => TriggerAction::Failed(ApiError::Internal(m)),
        },
        TriggerEvent::RedfishClientMade { machine_id, redfish_timeout_secs, outcome } => match outcome {
            RedfishOutcome::Made => TriggerAction::TriggerAttestation { timeout_secs: redfish_timeout_secs as u64 },
            RedfishOutcome::Failed(m) => TriggerAction::Failed(ApiError::RedfishClientCreation { machine_id, inner: m }),
            RedfishOutcome::TimedOut => TriggerAction::Failed(redfish_timeout_error(redfish_timeout_secs as u64)),
        },
        TriggerEvent::AttestationTriggered { machine_id, outcome } => match outcome {
            Ok(n) => TriggerAction::Respond { machine_id, devices_under_attestation: devices_under_attestation(n) },
            Err(m) => {
                let mut msg = String::from_str("trigger error: ");
                push_str(&mut msg, m.as_str());
                TriggerAction::Failed(ApiError::Attestation(msg))
            },
        },
    }
}

} // verus!
