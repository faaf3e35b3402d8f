use vstd::prelude::*;

verus! {

/// A message answered to the client.
#[derive(Debug, Clone)]
pub struct Message {
    pub message: String,
}

/// A fixed message answered to the client.
#[derive(Debug, Clone, Copy)]
pub struct StaticMessage {
    pub message: &'static str,
}

/// What a package-manager run printed.
#[derive(Debug, Clone)]
pub struct InstallationResponse {
    pub stdout: String,
    pub stderr: String,
}

} // verus!
