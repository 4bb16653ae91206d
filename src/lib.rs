//! Handle management and capability-typed dispatch for a cryptographic
//! service that an untrusted caller reaches only through integer handles.
pub mod capability;
pub mod context;
pub mod error;
pub mod schema;
pub mod table;

pub use schema::witx_interfaces;
