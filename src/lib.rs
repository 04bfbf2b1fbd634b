//! Locates a system installation of the Meson build tool, reads its version,
//! and plans the configure / build / install invocations that drive it.

pub mod error;
pub mod version;
pub mod strmap;
pub mod outcome;
pub mod config;
pub mod driver;
