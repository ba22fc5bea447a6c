//! Role-scoped authorization and record rules for a probation and parole case-management backend.
//!
//! Staff authenticate and act on a hierarchy of regional offices, local offices and officers,
//! and on client case records that each belong to one officer, one local office and one region.
//! The permission engine decides every access from the caller's principal and the minimal
//! ownership tuple of the resource; the resolver turns rows read from storage into such tuples.

pub mod types;
pub mod errors;
pub mod model;
pub mod authorization;
pub mod ownership;
pub mod klien;
pub mod org;
pub mod credentials;
pub mod text;
pub mod seed;
pub mod utils;
