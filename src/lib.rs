//! A registry of content-filtering engines addressed by opaque integer
//! handles, with the value conversions and error kinds that a foreign host
//! runtime needs around it.

pub mod blocker;
pub mod errors;
pub mod marshal;
pub mod registry;
