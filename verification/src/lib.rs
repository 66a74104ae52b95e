//! An in-process mock DNS responder for use in test suites.
//!
//! A test registers name-to-outcome mappings on a [`Server`], then resolves
//! queries against it.  The core here is the record store and the resolution
//! policy: parsing raw packets, serializing responses and driving the socket
//! are left to an outside DNS server library and to the thin runtime shim
//! around this crate.
//!
//! Only the first question of a request is honored, mirroring the
//! single-question semantics of ordinary DNS exchanges; this is an intentional
//! limitation of the mock.

pub mod laws;
pub mod name;
pub mod records;
pub mod server;

pub use name::{NameError, NormalizedName};
pub use records::{Answer, IpAddress, Reply, Response, StatusCode};
pub use server::{Fallback, Server};
