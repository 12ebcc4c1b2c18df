//! Descriptors of downloadable release archives, and how one is built from a
//! catalog entry.

use vstd::prelude::*;
use crate::registry::RelayChain;
use crate::repository::{lemma_registry_url_shape, lemma_shape_unique, parse_repository};
use crate::resolver::Error;

verus! {

/// The mathematical value of a release-archive descriptor: every field as a
/// plain sequence of characters.
#[verifier::ext_equal]
pub struct DescriptorModel {
    /// The owning organisation or user of the source repository.
    pub owner: Seq<char>,
    /// The name of the source repository.
    pub repository: Seq<char>,
    /// The explicitly requested release tag, when one was given.
    pub tag: Option<Seq<char>>,
    /// The template used to derive a release tag.
    pub tag_format: Option<Seq<char>>,
    /// The file name of the release archive.
    pub archive: Seq<char>,
    /// The names of the binaries inside the archive.
    pub contents: Seq<Seq<char>>,
    /// The newest known release, when the version was chosen automatically.
    pub latest: Option<Seq<char>>,
}

/// The content of an optional string.
pub open spec fn opt_text(o: Option<String>) -> Option<Seq<char>> {
    match o {
        Some(s) => Some(s@),
        None => None,
    }
}

/// An immutable description of a downloadable release archive.
#[derive(Debug)]
pub struct ReleaseArchiveDescriptor {
    /// The owning organisation or user of the source repository.
    pub owner: String,
    /// The name of the source repository.
    pub repository: String,
    /// The explicitly requested release tag, when one was given.
    pub tag: Option<String>,
    /// The template used to derive a release tag.
    pub tag_format: Option<String>,
    /// The file name of the release archive.
    pub archive: String,
    /// The names of the binaries inside the archive: the primary binary
    /// first, then the workers in declaration order.
    pub contents: Vec<String>,
    /// The newest known release, when the version was chosen automatically.
    pub latest: Option<String>,
}

impl View for ReleaseArchiveDescriptor {
    type V = DescriptorModel;

    open spec fn view(&self) -> DescriptorModel {
        DescriptorModel {
            owner: self.owner@,
            repository: self.repository@,
            tag: opt_text(self.tag),
            tag_format: opt_text(self.tag_format),
            archive: self.archive@,
            contents: self.contents.deep_view(),
            latest: opt_text(self.latest),
        }
    }
}

/// The archive file name derived from a binary name and a platform triple.
pub open spec fn archive_name(binary: Seq<char>, platform: Seq<char>) -> Seq<char> {
    binary + "-"@ + platform + ".tar.gz"@
}

/// The descriptor built from a catalog entry, a requested tag, a latest
/// marker, and a platform triple: the repository URL's owner and name, the
/// tag and the marker passed through unchanged, the entry's tag template,
/// the archive name for the platform, and the contents led by the primary
/// binary.
pub open spec fn build_model(
    kind: RelayChain,
    tag: Option<Seq<char>>,
    latest: Option<Seq<char>>,
    platform: Seq<char>,
) -> DescriptorModel {
    DescriptorModel {
        owner: kind.spec_owner(),
        repository: kind.spec_repo_name(),
        tag: tag,
        tag_format: Some(kind.spec_tag_format()),
        archive: archive_name(kind.spec_binary(), platform),
        contents: seq![kind.spec_binary()] + kind.spec_workers(),
        latest: latest,
    }
}

/// Converts a catalog entry plus an optional explicit tag and an optional
/// latest marker into the descriptor of its downloadable release archive.
///
/// `platform` is the result of the external platform-detection capability;
/// when that capability could not determine the host triple the build fails
/// with `UnsupportedPlatform`, and with nothing else: every catalog entry's
/// repository URL is well formed, so `InvalidRepository` never escapes here.
pub fn build(
    kind: RelayChain,
    tag: Option<String>,
    latest: Option<String>,
    platform: Option<String>,
) -> (r: Result<ReleaseArchiveDescriptor, Error>)
    ensures
        match r {
            Ok(d) => {
                &&& platform matches Some(p) && d@ == build_model(
                    kind,
                    opt_text(tag),
                    opt_text(latest),
                    p@,
                )
            },
            Err(e) => e is UnsupportedPlatform && platform is None,
        },
{
    let p = match platform {
        Some(p) => p,
        None => {
            return Err(Error::UnsupportedPlatform);
        },
    };
    let repo = match parse_repository(kind.repository()) {
        Ok(repo) => repo,
        Err(e) => {
            proof {
                lemma_registry_url_shape(kind);
                assert(false);
            }
            return Err(e);
        },
    };
    proof {
        lemma_registry_url_shape(kind);
        lemma_shape_unique(
            kind.spec_repository(),
            repo.org@,
            repo.name@,
            kind.spec_owner(),
            kind.spec_repo_name(),
        );
    }
    let mut archive = String::from_str(kind.binary());
    archive.append("-");
    archive.append(p.as_str());
    archive.append(".tar.gz");
    let workers = kind.workers();
    let mut contents: Vec<String> = Vec::new();
    contents.push(String::from_str(kind.binary()));
    let mut wi: usize = 0;
    while wi < workers.len()
        invariant
            wi <= workers.len(),
            workers.deep_view() == kind.spec_workers(),
            contents@.len() == 1 + wi,
            contents@[0]@ == kind.spec_binary(),
            forall|j: int| 0 <= j < wi ==> contents@[1 + j]@ == kind.spec_workers()[j],
        decreases workers.len() - wi,
    {
        contents.push(workers[wi].clone());
        proof {
            assert(workers.deep_view()[wi as int] == workers@[wi as int]@);
        }
        wi += 1;
    }
    proof {
        assert(workers.deep_view().len() == workers@.len());
        assert forall|x: int| 0 <= x < contents@.len() implies contents.deep_view()[x] == (
        seq![kind.spec_binary()] + kind.spec_workers())[x] by {
            assert(contents.deep_view()[x] == contents@[x]@);
            if x > 0 {
                assert(contents@[x]@ == kind.spec_workers()[x - 1]);
            }
        }
        assert(contents.deep_view() =~= seq![kind.spec_binary()] + kind.spec_workers());
    }
    let d = ReleaseArchiveDescriptor {
        owner: repo.org,
        repository: repo.name,
        tag,
        tag_format: Some(String::from_str(kind.tag_format())),
        archive,
        contents,
        latest,
    };
    proof {
        assert(kind.spec_workers().take(kind.spec_workers().len() as int) =~= kind.spec_workers());
        assert(d@ =~= build_model(kind, opt_text(tag), opt_text(latest), p@));
    }
    Ok(d)
}

/// Whether two optional strings hold the same content.
pub fn opt_str_eq(a: &Option<String>, b: &Option<String>) -> (r: bool)
    ensures
        r == (opt_text(*a) == opt_text(*b)),
{
    match a {
        None => match b {
            None => true,
            Some(_) => false,
        },
        Some(x) => match b {
            None => false,
            Some(y) => *x == *y,
        },
    }
}

/// Whether two vectors of strings hold the same contents in the same order.
pub fn vec_str_eq(a: &Vec<String>, b: &Vec<String>) -> (r: bool)
    ensures
        r == (a.deep_view() == b.deep_view()),
{
    if a.len() != b.len() {
        proof {
            assert(a.deep_view().len() != b.deep_view().len());
        }
        return false;
    }
    let mut i: usize = 0;
    while i < a.len()
        invariant
            a@.len() == b@.len(),
            i <= a@.len(),
            forall|j: int| 0 <= j < i ==> a.deep_view()[j] == b.deep_view()[j],
        decreases a@.len() - i,
    {
        if !(a[i] == b[i]) {
            proof {
                assert(a.deep_view()[i as int] != b.deep_view()[i as int]);
            }
            return false;
        }
        i += 1;
    }
    proof {
        assert(a.deep_view() =~= b.deep_view());
    }
    true
}

impl PartialEq for ReleaseArchiveDescriptor {
    /// Two descriptors are equal exactly when every field matches.
    fn eq(&self, other: &Self) -> (r: bool) {
        let r = self.owner == other.owner && self.repository == other.repository && opt_str_eq(
            &self.tag,
            &other.tag,
        ) && opt_str_eq(&self.tag_format, &other.tag_format) && self.archive == other.archive
            && vec_str_eq(&self.contents, &other.contents) && opt_str_eq(
            &self.latest,
            &other.latest,
        );
        proof {
            if r {
                assert(self@ =~= other@);
            }
        }
        r
    }
}

impl vstd::std_specs::cmp::PartialEqSpecImpl for ReleaseArchiveDescriptor {
    open spec fn obeys_eq_spec() -> bool {
        true
    }

    open spec fn eq_spec(&self, other: &Self) -> bool {
        self@ == other@
    }
}

/// The contents of a built descriptor begin with the primary binary name and
/// continue with the worker binaries, in declaration order.
pub proof fn lemma_contents_layout(
    kind: RelayChain,
    tag: Option<Seq<char>>,
    latest: Option<Seq<char>>,
    platform: Seq<char>,
)
    ensures
        build_model(kind, tag, latest, platform).contents.len() == 1
            + kind.spec_workers().len(),
        build_model(kind, tag, latest, platform).contents[0] == kind.spec_binary(),
        build_model(kind, tag, latest, platform).contents.skip(1) == kind.spec_workers(),
{
    assert(build_model(kind, tag, latest, platform).contents.skip(1) =~= kind.spec_workers());
}

/// The archive file name is always the binary name, a dash, the platform
/// triple, and the fixed extension; changing only the platform triple leaves
/// every other field of the descriptor unchanged.
pub proof fn lemma_platform_only_changes_archive(
    kind: RelayChain,
    tag: Option<Seq<char>>,
    latest: Option<Seq<char>>,
    p1: Seq<char>,
    p2: Seq<char>,
)
    ensures
        build_model(kind, tag, latest, p1).archive == archive_name(kind.spec_binary(), p1),
        build_model(kind, tag, latest, p2).archive == archive_name(kind.spec_binary(), p2),
        build_model(kind, tag, latest, p1).owner == build_model(kind, tag, latest, p2).owner,
        build_model(kind, tag, latest, p1).repository == build_model(
            kind,
            tag,
            latest,
            p2,
        ).repository,
        build_model(kind, tag, latest, p1).tag == build_model(kind, tag, latest, p2).tag,
        build_model(kind, tag, latest, p1).tag_format == build_model(
            kind,
            tag,
            latest,
            p2,
        ).tag_format,
        build_model(kind, tag, latest, p1).contents == build_model(
            kind,
            tag,
            latest,
            p2,
        ).contents,
        build_model(kind, tag, latest, p1).latest == build_model(kind, tag, latest, p2).latest,
{
}

/// Building is deterministic: two descriptors built from identical inputs
/// are equal in value.
pub proof fn lemma_build_deterministic(
    kind: RelayChain,
    tag: Option<Seq<char>>,
    latest: Option<Seq<char>>,
    platform: Seq<char>,
    d1: DescriptorModel,
    d2: DescriptorModel,
)
    requires
        d1 == build_model(kind, tag, latest, platform),
        d2 == build_model(kind, tag, latest, platform),
    ensures
        d1 == d2,
{
}

} // verus!
