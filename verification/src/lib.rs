//! Device health polling for Android devices reached through adb.
//!
//! - `clock`: the wall clock, read so that it returns in every state.
//! - `text`: searching, trimming, splitting and numbers on sequences of
//!   characters, which everything that reads device output rests on.
//! - `types`: health records, the polling configuration, and the payloads
//!   exchanged with the user interface.
//! - `services`: the device health data source, failure classification and
//!   retry rules with their backoff, and the polling session with its cache.
//! - `commands`: the rules behind the commands of the user interface.
//!
//! The library runs no process: device commands are run by a shell function
//! that the caller hands in, and the owner of a polling session drives its
//! cycles. It reads the clock where a record or a measurement needs the
//! time.

pub mod clock;
pub mod commands;
pub mod services;
pub mod text;
pub mod types;
