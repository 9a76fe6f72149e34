//! The configuration of the two sides. Each is loaded once when its
//! process starts and is not changed afterwards.

use vstd::prelude::*;

verus! {

/// The configuration of the control surface: which instance it manages.
#[derive(Debug, PartialEq, Eq)]
pub struct Ec2Config {
    pub instance_id: String,
}

/// The configuration of the client: where the control surface is reached,
/// and the key that every request carries.
#[derive(Debug, PartialEq, Eq)]
pub struct GatewayInfo {
    pub url: String,
    pub api_key: String,
}

} // verus!
