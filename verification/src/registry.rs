//! The closed catalog of supported relay-chain implementations.
//!
//! Each variant carries static metadata, fixed at compile time: the source
//! repository, the primary binary name, the release-tag template, a fallback
//! version, and the auxiliary worker binaries shipped alongside the primary
//! binary.

use vstd::prelude::*;

verus! {

/// A supported relay chain.
#[derive(Clone, Copy, Debug, PartialEq, Eq, Structural)]
pub enum RelayChain {
    /// Polkadot.
    Polkadot,
}

/// The catalog, in declaration order. Command matching scans this sequence
/// front to back, so its order is a tie-break rule, not a detail.
pub open spec fn spec_variants() -> Seq<RelayChain> {
    seq![RelayChain::Polkadot]
}

/// The catalog as a vector, in declaration order.
pub fn variants() -> (r: Vec<RelayChain>)
    ensures
        r@ == spec_variants(),
{
    let mut r: Vec<RelayChain> = Vec::new();
    r.push(RelayChain::Polkadot);
    proof {
        assert(r@ =~= spec_variants());
    }
    r
}

impl RelayChain {
    /// The URL of the source repository publishing this relay chain's
    /// release archives.
    pub open spec fn spec_repository(self) -> Seq<char> {
        match self {
            RelayChain::Polkadot => "https://github.com/r0gue-io/polkadot"@,
        }
    }

    /// The URL of the source repository publishing this relay chain's
    /// release archives.
    pub fn repository(&self) -> (r: &'static str)
        ensures
            r@ == self.spec_repository(),
    {
        match self {
            RelayChain::Polkadot => "https://github.com/r0gue-io/polkadot",
        }
    }

    /// The name of the primary node binary.
    pub open spec fn spec_binary(self) -> Seq<char> {
        match self {
            RelayChain::Polkadot => "polkadot"@,
        }
    }

    /// The name of the primary node binary.
    pub fn binary(&self) -> (r: &'static str)
        ensures
            r@ == self.spec_binary(),
    {
        match self {
            RelayChain::Polkadot => "polkadot",
        }
    }

    /// The template used to derive a release tag, containing a `{tag}`
    /// placeholder.
    pub open spec fn spec_tag_format(self) -> Seq<char> {
        match self {
            RelayChain::Polkadot => "polkadot-{tag}"@,
        }
    }

    /// The template used to derive a release tag, containing a `{tag}`
    /// placeholder.
    pub fn tag_format(&self) -> (r: &'static str)
        ensures
            r@ == self.spec_tag_format(),
    {
        match self {
            RelayChain::Polkadot => "polkadot-{tag}",
        }
    }

    /// The version used when no release can be determined.
    pub open spec fn spec_fallback(self) -> Seq<char> {
        match self {
            RelayChain::Polkadot => "v1.12.0"@,
        }
    }

    /// The version used when no release can be determined.
    pub fn fallback(&self) -> (r: &'static str)
        ensures
            r@ == self.spec_fallback(),
    {
        match self {
            RelayChain::Polkadot => "v1.12.0",
        }
    }

    /// The owner segment of the repository URL.
    pub open spec fn spec_owner(self) -> Seq<char> {
        match self {
            RelayChain::Polkadot => "r0gue-io"@,
        }
    }

    /// The repository-name segment of the repository URL.
    pub open spec fn spec_repo_name(self) -> Seq<char> {
        match self {
            RelayChain::Polkadot => "polkadot"@,
        }
    }

    /// The names of the additional worker binaries required for the relay
    /// chain, in declaration order.
    pub open spec fn spec_workers(self) -> Seq<Seq<char>> {
        match self {
            RelayChain::Polkadot => seq![
                "polkadot-execute-worker"@,
                "polkadot-prepare-worker"@,
            ],
        }
    }

    /// The additional worker binaries required for the relay chain.
    pub fn workers(&self) -> (r: Vec<String>)
        ensures
            r.deep_view() == self.spec_workers(),
    {
        let mut r: Vec<String> = Vec::new();
        match self {
            RelayChain::Polkadot => {
                r.push(String::from_str("polkadot-execute-worker"));
                r.push(String::from_str("polkadot-prepare-worker"));
            },
        }
        proof {
            assert(r.deep_view() =~= self.spec_workers());
        }
        r
    }
}

} // verus!
