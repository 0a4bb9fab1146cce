//! Thermal and power control for MSI laptops through the embedded controller.
//!
//! The crate performs no I/O of its own. Every operation is expressed as
//! plain data: which register accesses to make, in which order, and what to
//! conclude from the bytes that come back. A front-end carries the
//! accesses out on the device files and feeds the results back in.

pub mod cli;
pub mod config;
pub mod curve_laws;
pub mod ec;
pub mod fan;
pub mod plan_laws;
pub mod port;
pub mod port_laws;
pub mod registers;
pub mod scenario;
pub mod sensor;
pub mod text;
