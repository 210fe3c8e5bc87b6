//! The evidence side of the reference proving slices: their reports, the
//! decisions drawn from observed facts, and the pages and texts the
//! fixtures serve.
pub mod activation;
pub mod hosted;
pub mod request_policy;
pub mod request_policy_feasibility;
pub mod s0;
pub mod s1;
pub mod s3c;
pub mod s3d;
pub mod s3e;
