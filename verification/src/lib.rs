//! Self-update library: checks a release host for a newer published version
//! of the running binary, selects the platform-matching release asset, and
//! drives a download / extract / atomic-replace sequence.
//!
//! The update logic (version comparison, asset selection, configuration
//! validation, progress rendering, the replacement protocol and the
//! orchestration state machine) is verified; the surrounding I/O (network,
//! terminal, filesystem) is left to the embedding application, which feeds
//! plain values in and carries actions out.

pub mod confirm;
pub mod errors;
pub mod github;
pub mod jsonval;
pub mod progress;
pub mod release;
pub mod replace;
pub mod target;
pub mod update;
pub mod version;

pub use github::Builder;
pub use progress::display_dl_progress;
pub use progress::DownloadState;
pub use target::get_target;
pub use target::PlatformFlags;
pub use github::Updater;
pub use update::AbortReason;
pub use update::UpdateStep;
pub use version::compare;
pub use version::strip_v;
