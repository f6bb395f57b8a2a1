use vstd::prelude::*;

use crate::error::{AdotError, ErrorModel};

verus! {

/// The environment values that the workflows read.
#[derive(Clone, Copy, Debug, PartialEq, Eq, Structural)]
pub enum EnvVar {
    /// The document store's project identifier.
    ProjectId,
    /// The path of the service-account credential file.
    Credentials,
    /// The geolocation service's API token.
    GeoToken,
}

impl EnvVar {
    pub open spec fn spec_name(self) -> Seq<char> {
        match self {
            EnvVar::ProjectId => "PROJECT_ID"@,
            EnvVar::Credentials => "GOOGLE_APPLICATION_CREDENTIALS"@,
            EnvVar::GeoToken => "IPINFO_TOKEN"@,
        }
    }

    /// The name of the environment variable that holds this value.
    pub fn name(self) -> (r: &'static str)
        ensures
            r@ == self.spec_name(),
    {
        match self {
            EnvVar::ProjectId => "PROJECT_ID",
            EnvVar::Credentials => "GOOGLE_APPLICATION_CREDENTIALS",
            EnvVar::GeoToken => "IPINFO_TOKEN",
        }
    }
}

/// What the document store client needs before it is built.
#[derive(Clone, Debug, PartialEq, Eq)]
pub struct StoreConfig {
    pub project_id: String,
    pub credentials_path: String,
}

/// What the location workflow needs: the store's settings and the geolocation token.
#[derive(Clone, Debug, PartialEq, Eq)]
pub struct LocationConfig {
    pub store: StoreConfig,
    pub geo_token: String,
}

/// Builds the store settings from the two environment values, or names the
/// first absent one (the project identifier is checked first).
pub fn resolve_store_config(project_id: Option<String>, credentials_path: Option<String>) -> (r: Result<StoreConfig, AdotError>)
    ensures
        project_id is None ==> r is Err && r->Err_0@ == (ErrorModel::MissingConfig { var: EnvVar::ProjectId }),
        project_id is Some && credentials_path is None ==> r is Err && r->Err_0@ == (ErrorModel::MissingConfig { var: EnvVar::Credentials }),
        project_id is Some && credentials_path is Some ==> r is Ok
            && r->Ok_0.project_id@ == project_id->Some_0@
            && r->Ok_0.credentials_path@ == credentials_path->Some_0@,
{
    let project_id = match project_id {
        Some(p) => p,
        None => return Err(AdotError::MissingConfig { var: EnvVar::ProjectId }),
    };
    let credentials_path = match credentials_path {
        Some(c) => c,
        None => return Err(AdotError::MissingConfig { var: EnvVar::Credentials }),
    };
    Ok(StoreConfig { project_id, credentials_path })
}

/// Builds the location workflow's settings from the three environment values,
/// or names the first absent one, in the order project identifier, credential
/// path, geolocation token.
pub fn resolve_location_config(
    project_id: Option<String>,
    credentials_path: Option<String>,
    geo_token: Option<String>,
) -> (r: Result<LocationConfig, AdotError>)
    ensures
        project_id is None ==> r is Err && r->Err_0@ == (ErrorModel::MissingConfig { var: EnvVar::ProjectId }),
        project_id is Some && credentials_path is None ==> r is Err && r->Err_0@ == (ErrorModel::MissingConfig { var: EnvVar::Credentials }),
        project_id is Some && credentials_path is Some && geo_token is None ==> r is Err
            && r->Err_0@ == (ErrorModel::MissingConfig { var: EnvVar::GeoToken }),
        project_id is Some && credentials_path is Some && geo_token is Some ==> r is Ok
            && r->Ok_0.store.project_id@ == project_id->Some_0@
            && r->Ok_0.store.credentials_path@ == credentials_path->Some_0@
            && r->Ok_0.geo_token@ == geo_token->Some_0@,
{
    let store = match resolve_store_config(project_id, credentials_path) {
        Ok(s) => s,
        Err(e) => return Err(e),
    };
    match geo_token {
        Some(geo_token) => Ok(LocationConfig { store, geo_token }),
        None => Err(AdotError::MissingConfig { var: EnvVar::GeoToken }),
    }
}

} // verus!
