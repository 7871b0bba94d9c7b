//! Building blocks of a confidential-computing stack: attestation digests,
//! key conversions, policy generation, metrics bookkeeping, a blob store,
//! serial transfers and the initial vCPU save area.

pub mod crypto;
pub mod database;
pub mod digest;
pub mod metrics;
pub mod policy;
pub mod serial;
pub mod vmsa;
