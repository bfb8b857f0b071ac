//! Module dispatchers: each owns a module address, serializes access to a
//! shared transport, performs one blocking command/reply exchange at a time
//! and maps protocol status codes to typed results.

pub mod generic;
pub mod tmcm;
