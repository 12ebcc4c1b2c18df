//! Resolution of a command string to a concrete relay-chain binary handle.
//!
//! A command may be a bare binary name or a filesystem path ending in one;
//! matching is therefore suffix-based, on the lower-cased command, scanning
//! the catalog in declaration order. The external capabilities — the release
//! list for the matched entry, the version resolved against the cache, and
//! the host platform triple — enter resolution as plain values.

use vstd::prelude::*;
use crate::registry::{spec_variants, variants, RelayChain};
use crate::source::{build, build_model, opt_text, ReleaseArchiveDescriptor};
use crate::text::{ends_with, is_suffix_of, lower_of, lowercase};

verus! {

/// A failure of source resolution.
#[derive(Debug)]
pub enum Error {
    /// No catalog entry's binary name is a suffix of the given command; the
    /// payload is the original, un-lower-cased command string.
    UnsupportedCommand(String),
    /// A catalog entry's repository URL does not have the expected
    /// hosting-service shape; the payload is that URL.
    InvalidRepository(String),
    /// The host platform could not be determined.
    UnsupportedPlatform,
}

impl Error {
    /// The user-facing description of the failure.
    pub open spec fn spec_message(self) -> Seq<char> {
        match self {
            Error::UnsupportedCommand(c) => "the relay chain command is unsupported: "@ + c@,
            Error::InvalidRepository(u) => "the repository url is invalid: "@ + u@,
            Error::UnsupportedPlatform => "the platform is unsupported"@,
        }
    }

    /// The user-facing description of the failure.
    pub fn message(&self) -> (r: String)
        ensures
            r@ == self.spec_message(),
    {
        match self {
            Error::UnsupportedCommand(c) => String::from_str(
                "the relay chain command is unsupported: ",
            ).concat(c.as_str()),
            Error::InvalidRepository(u) => String::from_str(
                "the repository url is invalid: ",
            ).concat(u.as_str()),
            Error::UnsupportedPlatform => String::from_str("the platform is unsupported"),
        }
    }
}

/// The first entry, in order, whose binary name is a suffix of `lowered`.
pub open spec fn match_in(entries: Seq<RelayChain>, lowered: Seq<char>) -> Option<RelayChain>
    decreases entries.len(),
{
    if entries.len() == 0 {
        None
    } else if is_suffix_of(entries[0].spec_binary(), lowered) {
        Some(entries[0])
    } else {
        match_in(entries.skip(1), lowered)
    }
}

/// The catalog entry that a lower-cased command denotes: the first variant,
/// in declaration order, whose binary name is a suffix of the command.
pub open spec fn spec_match(lowered: Seq<char>) -> Option<RelayChain> {
    match_in(spec_variants(), lowered)
}

/// Scans the catalog, in declaration order, for the first entry whose
/// binary name is a suffix of the already lower-cased command.
pub fn match_lowered(lowered: &str) -> (r: Option<RelayChain>)
    ensures
        r == spec_match(lowered@),
{
    let entries = variants();
    let mut i: usize = 0;
    proof {
        assert(spec_variants().skip(0) =~= spec_variants());
    }
    while i < entries.len()
        invariant
            entries@ == spec_variants(),
            i <= entries@.len(),
            spec_match(lowered@) == match_in(spec_variants().skip(i as int), lowered@),
        decreases entries@.len() - i,
    {
        let e = entries[i];
        if ends_with(lowered, e.binary()) {
            proof {
                assert(spec_variants().skip(i as int)[0] == e);
            }
            return Some(e);
        }
        proof {
            assert(spec_variants().skip(i as int)[0] == e);
            assert(spec_variants().skip(i as int).skip(1) =~= spec_variants().skip(i as int + 1));
        }
        i += 1;
    }
    proof {
        assert(spec_variants().skip(i as int).len() == 0);
    }
    None
}

/// Matches a free-form command string against the catalog: the command is
/// lower-cased, and the first entry whose binary name is a suffix of the
/// result wins.
pub fn match_command(command: &str) -> (r: Option<RelayChain>)
    ensures
        r == spec_match(lower_of(command@)),
{
    let lowered = lowercase(command);
    match_lowered(lowered.as_str())
}

/// The latest marker for a resolution: absent whenever the caller supplied
/// an explicit version, and otherwise the newest (first) entry of the
/// release list, when the list is nonempty.
pub open spec fn spec_latest(
    version: Option<Seq<char>>,
    releases: Seq<Seq<char>>,
) -> Option<Seq<char>> {
    if version is Some {
        None
    } else if releases.len() > 0 {
        Some(releases[0])
    } else {
        None
    }
}

/// With an explicit version requested, the latest marker of the resulting
/// descriptor is never set.
pub proof fn lemma_explicit_version_no_latest(
    kind: RelayChain,
    version: Option<Seq<char>>,
    releases: Seq<Seq<char>>,
    resolved_tag: Option<Seq<char>>,
    platform: Seq<char>,
)
    requires
        version is Some,
    ensures
        spec_latest(version, releases) is None,
        build_model(kind, resolved_tag, spec_latest(version, releases), platform).latest is None,
{
}

/// Without an explicit version, the latest marker of the resulting
/// descriptor is the newest (first) entry of a nonempty release list, and
/// absent for an empty one.
pub proof fn lemma_latest_from_releases(
    kind: RelayChain,
    version: Option<Seq<char>>,
    releases: Seq<Seq<char>>,
    resolved_tag: Option<Seq<char>>,
    platform: Seq<char>,
)
    requires
        version is None,
    ensures
        releases.len() > 0 ==> build_model(
            kind,
            resolved_tag,
            spec_latest(version, releases),
            platform,
        ).latest == Some(releases[0]),
        releases.len() == 0 ==> build_model(
            kind,
            resolved_tag,
            spec_latest(version, releases),
            platform,
        ).latest is None,
{
}

/// Computes the latest marker from the caller's version hint and the known
/// releases, newest first.
pub fn latest_marker(version: &Option<String>, releases: &Vec<String>) -> (r: Option<String>)
    ensures
        opt_text(r) == spec_latest(opt_text(*version), releases.deep_view()),
{
    match version {
        Some(_) => None,
        None => {
            if releases.len() > 0 {
                let first = releases[0].clone();
                proof {
                    assert(releases.deep_view()[0] == releases@[0]@);
                }
                Some(first)
            } else {
                proof {
                    assert(releases.deep_view().len() == releases@.len());
                }
                None
            }
        },
    }
}

/// A binary obtainable through a release-archive descriptor and stored
/// under a cache directory.
#[derive(Debug)]
pub struct BinaryHandle {
    /// The name of the binary.
    pub name: String,
    /// Where and how the binary's release archive can be obtained.
    pub source: ReleaseArchiveDescriptor,
    /// The cache directory the binary is materialised under.
    pub cache: String,
}

/// The outcome of a resolution: a binary handle together with the worker
/// binaries required alongside it.
#[derive(Debug)]
pub struct ResolvedRelay {
    /// The handle of the primary relay-chain binary.
    pub binary: BinaryHandle,
    /// The names of the required worker binaries, in declaration order.
    pub workers: Vec<String>,
}

/// What a successful resolution of `kind` looks like, given the version
/// hint, the release list, the tag the version-resolution capability chose,
/// the platform triple, and the cache directory.
pub open spec fn resolved_model(
    rr: ResolvedRelay,
    kind: RelayChain,
    version: Option<Seq<char>>,
    releases: Seq<Seq<char>>,
    resolved_tag: Option<Seq<char>>,
    platform: Seq<char>,
    cache: Seq<char>,
) -> bool {
    &&& rr.binary.name@ == kind.spec_binary()
    &&& rr.binary.source@ == build_model(
        kind,
        resolved_tag,
        spec_latest(version, releases),
        platform,
    )
    &&& rr.binary.cache@ == cache
    &&& rr.workers.deep_view() == kind.spec_workers()
}

/// Assembles the resolution of a known catalog entry.
///
/// `releases` is what the release-query capability returned for `kind`,
/// newest first; `resolved_tag` is the tag the version-resolution capability
/// chose from the version hint, the releases and the cache; `platform` is
/// the host triple, when the platform-detection capability could determine
/// one. Fails only with `UnsupportedPlatform`, exactly when `platform` is
/// absent.
pub fn resolve_kind(
    kind: RelayChain,
    version: &Option<String>,
    releases: &Vec<String>,
    resolved_tag: Option<String>,
    platform: Option<String>,
    cache: &str,
) -> (r: Result<ResolvedRelay, Error>)
    ensures
        match r {
            Ok(rr) => platform matches Some(p) && resolved_model(
                rr,
                kind,
                opt_text(*version),
                releases.deep_view(),
                opt_text(resolved_tag),
                p@,
                cache@,
            ),
            Err(e) => e is UnsupportedPlatform && platform is None,
        },
{
    let latest = latest_marker(version, releases);
    let descriptor = match build(kind, resolved_tag, latest, platform) {
        Ok(d) => d,
        Err(e) => {
            return Err(e);
        },
    };
    let name = String::from_str(kind.binary());
    let workers = kind.workers();
    Ok(
        ResolvedRelay {
            binary: BinaryHandle { name, source: descriptor, cache: String::from_str(cache) },
            workers,
        },
    )
}

/// Resolves an arbitrary command string.
///
/// The command is matched against the catalog by lower-cased suffix; when no
/// entry matches, the resolution fails with `UnsupportedCommand` carrying
/// the original command, and the capabilities' results are not consulted.
/// For a matched entry the resolution succeeds exactly when the platform
/// triple was determined; `InvalidRepository` never escapes, since every
/// catalog entry's URL is well formed.
pub fn resolve_command(
    command: &str,
    version: &Option<String>,
    releases: &Vec<String>,
    resolved_tag: Option<String>,
    platform: Option<String>,
    cache: &str,
) -> (r: Result<ResolvedRelay, Error>)
    ensures
        match r {
            Ok(rr) => {
                &&& platform is Some
                &&& spec_match(lower_of(command@)) matches Some(kind) && resolved_model(
                    rr,
                    kind,
                    opt_text(*version),
                    releases.deep_view(),
                    opt_text(resolved_tag),
                    platform->Some_0@,
                    cache@,
                )
            },
            Err(e) => match e {
                Error::UnsupportedCommand(c) => {
                    &&& spec_match(lower_of(command@)) is None
                    &&& c@ == command@
                },
                Error::UnsupportedPlatform => {
                    &&& spec_match(lower_of(command@)) is Some
                    &&& platform is None
                },
                Error::InvalidRepository(_) => false,
            },
        },
{
    let kind = match match_command(command) {
        Some(k) => k,
        None => {
            return Err(Error::UnsupportedCommand(String::from_str(command)));
        },
    };
    resolve_kind(kind, version, releases, resolved_tag, platform, cache)
}

/// Resolves the catalog's canonical relay chain, the first entry in
/// declaration order, from the given version hint and capability results.
pub fn resolve_default(
    version: &Option<String>,
    releases: &Vec<String>,
    resolved_tag: Option<String>,
    platform: Option<String>,
    cache: &str,
) -> (r: Result<ResolvedRelay, Error>)
    ensures
        match r {
            Ok(rr) => platform matches Some(p) && resolved_model(
                rr,
                RelayChain::Polkadot,
                opt_text(*version),
                releases.deep_view(),
                opt_text(resolved_tag),
                p@,
                cache@,
            ),
            Err(e) => e is UnsupportedPlatform && platform is None,
        },
{
    resolve_kind(RelayChain::Polkadot, version, releases, resolved_tag, platform, cache)
}

} // verus!
