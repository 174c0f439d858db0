//! Post-build marking of application executables: finds the reserved
//! bundle-type slot inside an ELF or PE image and overwrites it with the
//! three-letter code of the package format the binary was bundled into.
//!
//! Alongside the patcher stand the configuration types the bundler reads
//! (bundle targets, allowlists, content security policy) and the small
//! decisions made on them.

pub mod package;
pub mod marker;
pub mod elf;
pub mod pe;
pub mod object;
pub mod laws;
pub mod allowlist;
pub mod csp;
pub mod names;
pub mod config;
pub mod bundle;
pub mod webview;
pub mod paths;
