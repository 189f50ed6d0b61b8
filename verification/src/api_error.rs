//! The errors that the API's request handlers answer with, and the checks on request
//! arguments that they share.

use vstd::prelude::*;

verus! {

/// Why a request to the API failed.
#[derive(Debug, Clone)]
pub enum ApiError {
    InvalidArgument(String),
    Internal(String),
    NotFound { kind: String, id: String },
    AttestQuote(String),
    MissingArgument(String),
    /// A Redfish client for the machine could not be made.
    RedfishClientCreation { machine_id: String, inner: String },
    /// Attestation could not be carried out.
    Attestation(String),
    /// No client certificate could be had for the machine.
    ClientCertificate(String),
}

pub enum ApiErrorView {
    InvalidArgument(Seq<char>),
    Internal(Seq<char>),
    NotFound { kind: Seq<char>, id: Seq<char> },
    AttestQuote(Seq<char>),
    MissingArgument(Seq<char>),
    RedfishClientCreation { machine_id: Seq<char>, inner: Seq<char> },
    Attestation(Seq<char>),
    ClientCertificate(Seq<char>),
}

impl View for ApiError {
    type V = ApiErrorView;

    open spec fn view(&self) -> ApiErrorView {
        match self {
            ApiError::InvalidArgument(m) => ApiErrorView::InvalidArgument(m@),
            ApiError::Internal(m) => ApiErrorView::Internal(m@),
            ApiError::NotFound { kind, id } => ApiErrorView::NotFound { kind: kind@, id: id@ },
            ApiError::AttestQuote(m) => ApiErrorView::AttestQuote(m@),
            ApiError::MissingArgument(m) => ApiErrorView::MissingArgument(m@),
            ApiError::RedfishClientCreation { machine_id, inner } => ApiErrorView::RedfishClientCreation {
                machine_id: machine_id@,
                inner: inner@,
            },
            ApiError::Attestation(m) => ApiErrorView::Attestation(m@),
            ApiError::ClientCertificate(m) => ApiErrorView::ClientCertificate(m@),
        }
    }
}

/// The machine ID of a request, which must be given.
pub fn convert_and_log_machine_id(id: Option<String>) -> (r: Result<String, ApiError>)
    ensures
        match id {
            Some(m) => r matches Ok(x) && x@ == m@,
            None => r matches Err(e) && e@ == ApiErrorView::MissingArgument("Machine ID"@),
        },
{
    match id {
        Some(m) => Ok(m),
        None => Err(ApiError::MissingArgument(String::from_str("Machine ID"))),
    }
}

} // verus!
