//! Digital pin interfaces in two generations — an older infallible one
//! and a newer fallible one — and the compatibility shim that lets any
//! pin of the old generation serve where the new one is asked for.

pub mod v1;
pub mod v2;
pub mod v2_compat;
