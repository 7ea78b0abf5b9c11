//! The host side of OpenFX image-effect plug-ins: property sets and the
//! suites of operations that a host hands to a plug-in (properties,
//! parameters, image effects and clips, memory, threads, interacts and
//! messages), with the decisions each operation takes.
//!
//! Raw handles and C calling conventions stay with the caller: the library
//! works on its own types, on the bytes of C strings, and on plain numbers
//! (addresses for pointers, IEEE-754 bit patterns for doubles).

pub mod host;
pub mod image_effect;
pub mod interact_suite;
pub mod log_utils;
pub mod memory;
pub mod message_suite;
pub mod multithread_suite;
pub mod names;
pub mod ofx_constants;
pub mod parameters;
pub mod property_set;
pub mod property_suite;
pub mod text;
