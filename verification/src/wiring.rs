//! The wiring layer for the polling backend: consumes the backend's
//! configuration and secrets at startup and constructs the one client handle
//! handed to the node's submission pipeline.

use vstd::prelude::*;

use crate::client::NomosDaClient;
use crate::config::{NomosDaConfig, NomosSecrets};
use crate::error::DAError;

verus! {

/// The startup step that turns the polling backend's configuration and
/// secrets into a client.
#[derive(Debug)]
pub struct NomosWiringLayer {
    pub config: NomosDaConfig,
    pub secret: NomosSecrets,
}

/// What wiring produces: the one client handle for the submission pipeline.
#[derive(Debug)]
pub struct Output {
    pub client: NomosDaClient,
}

impl NomosWiringLayer {
    /// Bundles the configuration and secrets for wiring.
    pub fn new(config: NomosDaConfig, secret: NomosSecrets) -> (r: NomosWiringLayer)
        ensures
            r.config == config,
            r.secret == secret,
    {
        NomosWiringLayer { config, secret }
    }

    /// The layer's name in the wiring registry.
    pub fn layer_name(&self) -> (r: &'static str)
        ensures
            r@ == "nomos_client_layer"@,
    {
        "nomos_client_layer"
    }

    /// Constructs the client from the bundled configuration and secrets.
    /// Fails exactly when the configured namespace id is malformed — the one
    /// unrecoverable-at-construction condition.
    pub fn wire(self) -> (r: Result<Output, DAError>)
        ensures
            match r {
                Ok(out) => NomosDaClient::app_id_ok(&self.config) && out.client.config
                    == self.config && out.client.secrets == self.secret,
                Err(e) => !NomosDaClient::app_id_ok(&self.config) && !e.is_retriable && e.message@
                    == "Failed to decode app_id"@,
            },
    {
        let client = match NomosDaClient::new(self.config, self.secret) {
            Ok(c) => c,
            Err(e) => {
                return Err(e);
            },
        };
        Ok(Output { client })
    }
}

} // verus!
