//! Settings resolution and file locking for a container tool.
//!
//! The library resolves the tool's effective runtime configuration from two
//! trust tiers — files under the acting user's home directory (trusted) and
//! files under the project root (untrusted) — and offers a scoped advisory
//! file lock used to serialize access to shared directories named in the
//! resolved settings.

pub mod file_util;
pub mod laws;
pub mod pathmap;
pub mod records;
pub mod paths;
pub mod settings;
