//! The error taxonomy of the orchestrator and its snapshot helpers.

use vstd::prelude::*;

verus! {

/// Why an orchestration step, lookup or binding resolution failed.
///
/// - `ExternalTool`: an external query process failed, or returned
///   malformed structured output (for example a port descriptor that is
///   not two tokens).
/// - `SelectorNotFound`: a requested modem, bearer or interface id or
///   name is absent from the snapshot that was searched.
/// - `NoNetworkPort`: the modem's port list holds no network-capable
///   port, so no binding can be derived.
/// - `InterfaceNotFound`: the interface name derived for the binding
///   matches no entry of the interface snapshot (or is empty, which the
///   resolver rejects rather than letting it match everything).
/// - `NoBearerAfterConnect`: the daemon reported success but produced no
///   usable bearer (no bearer id, a bearer that is not connected, or one
///   without an address).
/// - `InvalidInput`: mutually exclusive requests, e.g. connect and
///   disconnect together; rejected before any side effect.
/// - `PermissionDenied`: the elevated-privilege precondition for
///   interface mutations is unmet; rejected before any side effect.
#[derive(Debug, Clone, PartialEq, Eq)]
pub enum OrchError {
    ExternalTool { message: String },
    SelectorNotFound,
    NoNetworkPort,
    InterfaceNotFound,
    NoBearerAfterConnect,
    InvalidInput,
    PermissionDenied,
}

impl OrchError {
    /// A short, user-facing description of the error.
    pub fn message(&self) -> (r: String)
        ensures
            match self {
                OrchError::ExternalTool { message } => r@ == message@,
                OrchError::SelectorNotFound => r@ == "selector not found"@,
                OrchError::NoNetworkPort => r@ == "no network port"@,
                OrchError::InterfaceNotFound => r@ == "interface not found"@,
                OrchError::NoBearerAfterConnect => r@ == "no usable bearer after connect"@,
                OrchError::InvalidInput => r@ == "invalid input"@,
                OrchError::PermissionDenied => r@ == "permission denied"@,
            },
    {
        match self {
            OrchError::ExternalTool { message } => message.clone(),
            OrchError::SelectorNotFound => "selector not found".to_owned(),
            OrchError::NoNetworkPort => "no network port".to_owned(),
            OrchError::InterfaceNotFound => "interface not found".to_owned(),
            OrchError::NoBearerAfterConnect => "no usable bearer after connect".to_owned(),
            OrchError::InvalidInput => "invalid input".to_owned(),
            OrchError::PermissionDenied => "permission denied".to_owned(),
        }
    }
}

} // verus!
