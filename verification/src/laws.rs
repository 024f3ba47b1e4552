//! What holds of the library as a whole.
//!
//! Every law is stated over what a caller sees: the fields of a config, the
//! members of a document, the words of an argv.

pub mod eligibility;
pub mod isolation;
pub mod leases;
pub mod metering;
pub mod pairing;
pub mod printing;
pub mod protocol;
pub mod text;
pub mod tools;
pub mod viewing;
