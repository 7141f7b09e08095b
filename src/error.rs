//! Failures of parsing a vector string.

use vstd::prelude::*;
use crate::metric::MetricType;

verus! {

/// Why a vector string was rejected.
#[derive(Clone, Debug, PartialEq, Eq)]
pub enum Error {
    /// A component that does not hold exactly one `:`.
    InvalidComponent { component: String },
    /// A known metric with a value that it does not have.
    InvalidMetric { metric_type: MetricType, value: String },
    /// The first component does not name the expected prefix.
    InvalidPrefix { prefix: String },
    /// An acronym that is not in the registry, or not in this group.
    UnknownMetric { name: String },
    /// A `major.minor` pair that is not implemented.
    UnsupportedVersion { version: String },
    /// A mandatory metric is absent (the first one missing in canonical order).
    MissingMandatoryMetric { metric_type: MetricType },
    /// A metric given twice.
    DuplicateMetric { metric_type: MetricType },
}

/// What an [`Error`] says, with its texts as character sequences.
pub enum ErrorModel {
    InvalidComponent(Seq<char>),
    InvalidMetric(MetricType, Seq<char>),
    InvalidPrefix(Seq<char>),
    UnknownMetric(Seq<char>),
    UnsupportedVersion(Seq<char>),
    MissingMandatoryMetric(MetricType),
    DuplicateMetric(MetricType),
}

impl View for Error {
    type V = ErrorModel;

    open spec fn view(&self) -> ErrorModel {
        match self {
            Error::InvalidComponent { component } => ErrorModel::InvalidComponent(component@),
            Error::InvalidMetric { metric_type, value } => ErrorModel::InvalidMetric(*metric_type, value@),
            Error::InvalidPrefix { prefix } => ErrorModel::InvalidPrefix(prefix@),
            Error::UnknownMetric { name } => ErrorModel::UnknownMetric(name@),
            Error::UnsupportedVersion { version } => ErrorModel::UnsupportedVersion(version@),
            Error::MissingMandatoryMetric { metric_type } => ErrorModel::MissingMandatoryMetric(*metric_type),
            Error::DuplicateMetric { metric_type } => ErrorModel::DuplicateMetric(*metric_type),
        }
    }
}

/// The model of a parse result: the value itself on success, the error's
/// model on failure.
pub open spec fn result_model<T>(r: Result<T, Error>) -> Result<T, ErrorModel> {
    match r {
        Ok(v) => Ok(v),
        Err(e) => Err(e@),
    }
}

} // verus!
