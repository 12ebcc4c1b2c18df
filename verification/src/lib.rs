//! Resolution of relay-chain binary sources.
//!
//! Maps a relay-chain identity, or a free-form command string that may name
//! one, to a concrete, versioned description of a downloadable release
//! archive, reconciling an optionally requested version against the list of
//! known releases and deciding whether the resolved version counts as the
//! latest one. Fetching, extraction and execution of the resulting binary
//! are collaborators outside this crate, as are the capabilities that
//! enumerate releases, resolve a version against a cache and detect the host
//! platform: their results enter this library as plain values.

pub mod registry;
pub mod repository;
pub mod resolver;
pub mod source;
pub mod text;

pub use registry::RelayChain;
pub use repository::{parse_repository, Repository};
pub use resolver::{
    latest_marker, match_command, match_lowered, resolve_command, resolve_default, resolve_kind,
    BinaryHandle, Error, ResolvedRelay,
};
pub use source::{build, opt_str_eq, vec_str_eq, ReleaseArchiveDescriptor};
pub use text::ends_with;
