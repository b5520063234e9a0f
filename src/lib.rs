//! Inspection helpers for policy artifacts kept in container registries:
//! locating a policy's signature manifest, building the human-readable report
//! of its metadata and signatures, and extracting the payload to evaluate from
//! an admission request.

pub mod signature;
pub mod text;
pub mod annotations;
pub mod manifest;
pub mod report;
pub mod request;
