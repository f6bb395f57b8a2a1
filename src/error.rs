use vstd::prelude::*;

use crate::config::EnvVar;
use crate::geo::GeoField;

verus! {

/// Every way a workflow of this tool can fail.
#[derive(Clone, Debug, PartialEq, Eq)]
pub enum AdotError {
    /// A required environment value is absent.
    MissingConfig { var: EnvVar },
    /// The geolocation service answered with a status outside 200..=299.
    RemoteApi { status: u16, body: String },
    /// The geolocation payload lacks one of the required string fields.
    MissingField { field: GeoField },
    /// The geolocation payload is not a JSON document.
    MalformedPayload,
    /// The geolocation request did not complete.
    Transport { message: String },
    /// The document store refused or failed a write.
    Store { message: String },
}

/// The mathematical value of an [`AdotError`]: text fields as character sequences.
pub ghost enum ErrorModel {
    MissingConfig { var: EnvVar },
    RemoteApi { status: u16, body: Seq<char> },
    MissingField { field: GeoField },
    MalformedPayload,
    Transport { message: Seq<char> },
    Store { message: Seq<char> },
}

impl View for AdotError {
    type V = ErrorModel;

    open spec fn view(&self) -> ErrorModel {
        match self {
            AdotError::MissingConfig { var } => ErrorModel::MissingConfig { var: *var },
            AdotError::RemoteApi { status, body } => ErrorModel::RemoteApi { status: *status, body: body@ },
            AdotError::MissingField { field } => ErrorModel::MissingField { field: *field },
            AdotError::MalformedPayload => ErrorModel::MalformedPayload,
            AdotError::Transport { message } => ErrorModel::Transport { message: message@ },
            AdotError::Store { message } => ErrorModel::Store { message: message@ },
        }
    }
}

} // verus!
