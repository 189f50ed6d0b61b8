//! Errors of the model layer.

use vstd::prelude::*;

verus! {

/// Errors specific to the model layer.
#[derive(Debug, Clone, PartialEq, Eq)]
pub enum ModelError {
    /// Failed to map a device to a DPU.
    DpuMappingError(String),
    /// A value read from the database has no meaning here.
    DatabaseTypeConversionError(String),
    /// An argument is missing in the input.
    MissingArgument(String),
    /// An argument is invalid.
    InvalidArgument(String),
}

/// The mathematical value of a [`ModelError`]: its kind and its text.
pub enum ModelErrorView {
    DpuMappingError(Seq<char>),
    DatabaseTypeConversionError(Seq<char>),
    MissingArgument(Seq<char>),
    InvalidArgument(Seq<char>),
}

impl View for ModelError {
    type V = ModelErrorView;

    open spec fn view(&self) -> ModelErrorView {
        match self {
            ModelError::DpuMappingError(s) => ModelErrorView::DpuMappingError(s@),
            ModelError::DatabaseTypeConversionError(s) => ModelErrorView::DatabaseTypeConversionError(s@),
            ModelError::MissingArgument(s) => ModelErrorView::MissingArgument(s@),
            ModelError::InvalidArgument(s) => ModelErrorView::InvalidArgument(s@),
        }
    }
}

} // verus!
