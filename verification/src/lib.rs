//! Supervision of packaged helper processes, discovery of the default
//! gateway from the text an operating-system command prints, and the
//! decision taken when the main window is asked to close.
//!
//! Everything here works on plain values. Spawning and killing processes,
//! running commands and touching files are left to the caller, which feeds
//! the outcomes back in.

pub mod fetch;
pub mod gateway;
pub mod host;
pub mod ipv4;
pub mod scan;
pub mod settings;
pub mod shutdown;
pub mod supervisor;
pub mod text;
