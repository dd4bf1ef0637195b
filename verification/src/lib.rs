//! Verified core of a Node.js runtime installer.
//!
//! The library resolves the distribution archive for a platform and
//! version, plans the HTTP client configuration, and models the
//! download / extraction pipeline as a state machine whose progress
//! reporting and cancellation behaviour are proved.  The surrounding
//! application performs the actual network and filesystem work and
//! feeds the observed events back into the machine.

pub mod client;
pub mod configration;
pub mod draft;
pub mod engine;
pub mod errors;
pub mod groups;
pub mod listing;
pub mod paths;
pub mod platform;
pub mod progress;
pub mod projects;
pub mod settings;
pub mod strlist;
pub mod text;
pub mod version;
pub mod zipplan;

pub use text::join_path;
