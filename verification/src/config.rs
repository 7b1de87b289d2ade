//! Backend configuration: the polling backend's own settings and secrets,
//! and the closed selector among backend configurations, of which exactly
//! one is active per deployment.

use vstd::prelude::*;

use crate::types::BackendKind;

verus! {

/// Configuration of the polling backend: the namespace identifier as a hex
/// string, the executor (dispersal) endpoint, and the ordered,
/// comma-separated list of validator endpoints.
#[derive(Debug, Clone, PartialEq)]
pub struct NomosDaConfig {
    pub app_id: String,
    pub executor_rpc: String,
    pub validator_rpcs: String,
}

/// Credentials for basic authentication against the DA endpoints.
#[derive(Debug, Clone, PartialEq)]
pub struct NomosSecrets {
    pub username: String,
    pub password: String,
}

/// The closed choice of backend configurations. Selection is a startup-time
/// decision: the wiring layer consumes the active variant together with
/// matching secrets to construct one client. Only the polling backend's
/// configuration belongs to this crate; the other variants are the tags
/// under which their backends are selected.
#[derive(Debug, Clone)]
pub enum DAClientConfig {
    Avail,
    Celestia,
    Eigen,
    Nomos(NomosDaConfig),
    ObjectStore,
    NoDA,
}

impl DAClientConfig {
    /// The identity tag that a client constructed from this configuration
    /// reports.
    pub open spec fn spec_kind(&self) -> BackendKind {
        match self {
            DAClientConfig::Avail => BackendKind::Avail,
            DAClientConfig::Celestia => BackendKind::Celestia,
            DAClientConfig::Eigen => BackendKind::Eigen,
            DAClientConfig::Nomos(_) => BackendKind::Nomos,
            DAClientConfig::ObjectStore => BackendKind::ObjectStore,
            DAClientConfig::NoDA => BackendKind::NoDA,
        }
    }

    /// The backend kind this configuration selects.
    pub fn kind(&self) -> (r: BackendKind)
        ensures
            r == self.spec_kind(),
    {
        match self {
            DAClientConfig::Avail => BackendKind::Avail,
            DAClientConfig::Celestia => BackendKind::Celestia,
            DAClientConfig::Eigen => BackendKind::Eigen,
            DAClientConfig::Nomos(_) => BackendKind::Nomos,
            DAClientConfig::ObjectStore => BackendKind::ObjectStore,
            DAClientConfig::NoDA => BackendKind::NoDA,
        }
    }
}

impl From<NomosDaConfig> for DAClientConfig {
    /// Selects the polling backend with the given configuration.
    fn from(config: NomosDaConfig) -> (r: DAClientConfig) {
        DAClientConfig::Nomos(config)
    }
}

impl vstd::std_specs::convert::FromSpecImpl<NomosDaConfig> for DAClientConfig {
    open spec fn obeys_from_spec() -> bool {
        true
    }

    open spec fn from_spec(config: NomosDaConfig) -> DAClientConfig {
        DAClientConfig::Nomos(config)
    }
}

} // verus!
