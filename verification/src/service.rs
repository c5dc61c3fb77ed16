//! Life cycle of a tunnel endpoint.

use vstd::prelude::*;

use crate::options::{config_fault, TunnelConfigError, TunnelOptions};

verus! {

/// Handle to a tunnel endpoint that was started.
#[derive(Debug)]
pub struct TunnelService;

impl TunnelService {
    /// Starts an endpoint. The configuration is checked before anything else: a faulty one starts
    /// nothing.
    pub fn start(options: TunnelOptions) -> (started: Result<Self, TunnelConfigError>)
        ensures
            match config_fault(options) {
                Some(fault) => started == Err::<TunnelService, TunnelConfigError>(fault),
                None => started == Ok::<TunnelService, TunnelConfigError>(TunnelService),
            },
    {
        match options.validate() {
            Ok(()) => Ok(TunnelService),
            Err(fault) => Err(fault),
        }
    }
}

} // verus!
