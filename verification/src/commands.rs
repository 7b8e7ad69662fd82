//! The rules behind the commands of the user interface.

pub mod connection;
pub mod device;
pub mod health;
pub mod scrcpy;
pub mod system;
