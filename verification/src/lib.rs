//! Confidential-container policy core: policy generation from workload
//! manifests and container images, attestation binding of the generated
//! policy, and request-time enforcement decisions for the guest agent.

pub mod enforcer;
pub mod hashing;
pub mod json;
pub mod policy;
pub mod registry;
pub mod replica_set;
pub mod text;
pub mod verity;

use vstd::prelude::*;

verus! {

} // verus!
