//! Parsing a repository URL into its owner and repository name.
//!
//! Every supported repository lives on the same hosting service, so a URL is
//! well formed exactly when it is the service prefix followed by a nonempty,
//! slash-free owner, a slash, and a nonempty, slash-free repository name.

use vstd::prelude::*;
use crate::registry::RelayChain;
use crate::resolver::Error;

verus! {

/// An owner and repository-name pair on the hosting service.
#[derive(Debug)]
pub struct Repository {
    /// The owning organisation or user.
    pub org: String,
    /// The repository name.
    pub name: String,
}

/// The scheme-and-host prefix that every supported repository URL starts
/// with.
pub open spec fn spec_url_prefix() -> Seq<char> {
    "https://github.com/"@
}

/// Whether `s` contains no `'/'` character.
pub open spec fn slash_free(s: Seq<char>) -> bool {
    forall|i: int| 0 <= i < s.len() ==> s[i] != '/'
}

/// Whether `url` decomposes as the hosting-service prefix, then `org`, a
/// slash, and `name`, with `org` and `name` nonempty and slash-free.
pub open spec fn repo_shape(url: Seq<char>, org: Seq<char>, name: Seq<char>) -> bool {
    &&& url == spec_url_prefix() + org + "/"@ + name
    &&& org.len() > 0
    &&& name.len() > 0
    &&& slash_free(org)
    &&& slash_free(name)
}

/// Whether `url` has the expected hosting-service shape.
pub open spec fn valid_repo_url(url: Seq<char>) -> bool {
    exists|org: Seq<char>, name: Seq<char>| repo_shape(url, org, name)
}

/// A decomposition fixes the length of the URL and every character position:
/// the prefix region, the owner region, the slash between owner and name,
/// and the name region.
pub proof fn lemma_shape_index(url: Seq<char>, org: Seq<char>, name: Seq<char>)
    requires
        repo_shape(url, org, name),
    ensures
        url.len() == spec_url_prefix().len() + org.len() + 1 + name.len(),
        forall|i: int| 0 <= i < spec_url_prefix().len() ==> url[i] == spec_url_prefix()[i],
        forall|i: int|
            0 <= i < org.len() ==> url[spec_url_prefix().len() + i] == org[i],
        url[spec_url_prefix().len() + org.len() as int] == '/',
        forall|i: int|
            0 <= i < name.len() ==> url[spec_url_prefix().len() + org.len() + 1 + i] == name[i],
{
    reveal_strlit("/");
    let p = spec_url_prefix().len() as int;
    let whole = spec_url_prefix() + org + "/"@ + name;
    assert("/"@.len() == 1);
    assert(url.len() == p + org.len() + 1 + name.len());
    assert forall|i: int| 0 <= i < p implies url[i] == spec_url_prefix()[i] by {
        assert(url[i] == whole[i]);
    }
    assert forall|i: int| 0 <= i < org.len() implies url[p + i] == org[i] by {
        assert(url[p + i] == whole[p + i]);
    }
    assert(url[p + org.len()] == whole[p + org.len()]);
    assert(whole[p + org.len()] == "/"@[0]);
    assert forall|i: int| 0 <= i < name.len() implies url[p + org.len() + 1 + i] == name[i] by {
        assert(url[p + org.len() + 1 + i] == whole[p + org.len() + 1 + i]);
    }
}

/// In a decomposed URL, the first slash at or after the prefix stands
/// exactly between the owner and the name.
pub proof fn lemma_shape_slash_position(url: Seq<char>, org: Seq<char>, name: Seq<char>, j: int)
    requires
        repo_shape(url, org, name),
        spec_url_prefix().len() <= j < url.len(),
        url[j] == '/',
        forall|k: int| spec_url_prefix().len() <= k < j ==> url[k] != '/',
    ensures
        j == spec_url_prefix().len() + org.len(),
{
    lemma_shape_index(url, org, name);
    let p = spec_url_prefix().len() as int;
    if j < p + org.len() {
        assert(url[j] == org[j - p]);
        assert(false);
    }
    if j > p + org.len() {
        assert(url[p + org.len()] != '/');
        assert(false);
    }
}

/// A URL decomposes in at most one way: the owner and the name are
/// determined by the URL alone.
pub proof fn lemma_shape_unique(
    url: Seq<char>,
    org1: Seq<char>,
    name1: Seq<char>,
    org2: Seq<char>,
    name2: Seq<char>,
)
    requires
        repo_shape(url, org1, name1),
        repo_shape(url, org2, name2),
    ensures
        org1 == org2,
        name1 == name2,
{
    let p = spec_url_prefix().len() as int;
    lemma_shape_index(url, org1, name1);
    lemma_shape_index(url, org2, name2);
    assert forall|k: int| p <= k < p + org1.len() implies url[k] != '/' by {
        assert(url[k] == org1[k - p]);
    }
    lemma_shape_slash_position(url, org2, name2, p + org1.len());
    assert(org1.len() == org2.len());
    assert(org1 =~= org2) by {
        assert forall|i: int| 0 <= i < org1.len() implies org1[i] == org2[i] by {
            assert(org1[i] == url[p + i]);
            assert(org2[i] == url[p + i]);
        }
    }
    assert(name1 =~= name2) by {
        assert forall|i: int| 0 <= i < name1.len() implies name1[i] == name2[i] by {
            assert(name1[i] == url[p + org1.len() + 1 + i]);
            assert(name2[i] == url[p + org2.len() + 1 + i]);
        }
    }
}

/// Every catalog entry's repository URL decomposes into the entry's owner
/// and repository name; in particular it is well formed.
pub proof fn lemma_registry_url_shape(kind: RelayChain)
    ensures
        repo_shape(kind.spec_repository(), kind.spec_owner(), kind.spec_repo_name()),
        valid_repo_url(kind.spec_repository()),
{
    match kind {
        RelayChain::Polkadot => {
            reveal_strlit("https://github.com/r0gue-io/polkadot");
            reveal_strlit("https://github.com/");
            reveal_strlit("r0gue-io");
            reveal_strlit("polkadot");
            reveal_strlit("/");
            assert("https://github.com/r0gue-io/polkadot"@ =~= spec_url_prefix() + "r0gue-io"@
                + "/"@ + "polkadot"@);
            assert(slash_free("r0gue-io"@));
            assert(slash_free("polkadot"@));
        },
    }
}

/// Builds the failure for a URL without the expected shape.
fn invalid(url: &str) -> (e: Error)
    ensures
        e matches Error::InvalidRepository(u) && u@ == url@,
{
    Error::InvalidRepository(String::from_str(url))
}

/// Splits a repository URL into its owner and repository name.
///
/// Succeeds exactly on URLs of the expected hosting-service shape and then
/// returns the two segments; any other URL is rejected with
/// `InvalidRepository` carrying the URL itself.
pub fn parse_repository(url: &str) -> (r: Result<Repository, Error>)
    ensures
        match r {
            Ok(repo) => repo_shape(url@, repo.org@, repo.name@),
            Err(e) => {
                &&& !valid_repo_url(url@)
                &&& e matches Error::InvalidRepository(u) && u@ == url@
            },
        },
{
    let prefix = "https://github.com/";
    let plen: usize = prefix.unicode_len();
    let n: usize = url.unicode_len();
    if n < plen {
        proof {
            assert(!valid_repo_url(url@)) by {
                if valid_repo_url(url@) {
                    let (org, name) = choose|org: Seq<char>, name: Seq<char>|
                        repo_shape(url@, org, name);
                    lemma_shape_index(url@, org, name);
                }
            }
        }
        return Err(invalid(url));
    }
    let mut i: usize = 0;
    while i < plen
        invariant
            plen == spec_url_prefix().len(),
            prefix@ == spec_url_prefix(),
            n == url@.len(),
            plen <= n,
            i <= plen,
            forall|k: int| 0 <= k < i ==> url@[k] == spec_url_prefix()[k],
        decreases plen - i,
    {
        if url.get_char(i) != prefix.get_char(i) {
            proof {
                assert(!valid_repo_url(url@)) by {
                    if valid_repo_url(url@) {
                        let (org, name) = choose|org: Seq<char>, name: Seq<char>|
                            repo_shape(url@, org, name);
                        lemma_shape_index(url@, org, name);
                    }
                }
            }
            return Err(invalid(url));
        }
        i += 1;
    }
    let mut j: usize = plen;
    while j < n && url.get_char(j) != '/'
        invariant
            plen == spec_url_prefix().len(),
            n == url@.len(),
            plen <= j <= n,
            forall|k: int| plen <= k < j ==> url@[k] != '/',
        decreases n - j,
    {
        j += 1;
    }
    if j == n {
        proof {
            assert(!valid_repo_url(url@)) by {
                if valid_repo_url(url@) {
                    let (org, name) = choose|org: Seq<char>, name: Seq<char>|
                        repo_shape(url@, org, name);
                    lemma_shape_index(url@, org, name);
                    assert(url@[spec_url_prefix().len() + org.len() as int] == '/');
                }
            }
        }
        return Err(invalid(url));
    }
    if j == plen {
        proof {
            assert(!valid_repo_url(url@)) by {
                if valid_repo_url(url@) {
                    let (org, name) = choose|org: Seq<char>, name: Seq<char>|
                        repo_shape(url@, org, name);
                    lemma_shape_index(url@, org, name);
                    assert(url@[spec_url_prefix().len() as int] == org[0]);
                }
            }
        }
        return Err(invalid(url));
    }
    if j + 1 == n {
        proof {
            assert(!valid_repo_url(url@)) by {
                if valid_repo_url(url@) {
                    let (org, name) = choose|org: Seq<char>, name: Seq<char>|
                        repo_shape(url@, org, name);
                    lemma_shape_slash_position(url@, org, name, j as int);
                    lemma_shape_index(url@, org, name);
                }
            }
        }
        return Err(invalid(url));
    }
    let mut k: usize = j + 1;
    while k < n && url.get_char(k) != '/'
        invariant
            plen == spec_url_prefix().len(),
            n == url@.len(),
            plen < j < n,
            url@[j as int] == '/',
            forall|m: int| plen <= m < j ==> url@[m] != '/',
            j + 1 <= k <= n,
            forall|m: int| j + 1 <= m < k ==> url@[m] != '/',
        decreases n - k,
    {
        k += 1;
    }
    if k < n {
        proof {
            assert(!valid_repo_url(url@)) by {
                if valid_repo_url(url@) {
                    let (org, name) = choose|org: Seq<char>, name: Seq<char>|
                        repo_shape(url@, org, name);
                    lemma_shape_slash_position(url@, org, name, j as int);
                    lemma_shape_index(url@, org, name);
                    assert(url@[k as int] == name[k - j - 1]);
                }
            }
        }
        return Err(invalid(url));
    }
    let org_str = url.substring_char(plen, j);
    let name_str = url.substring_char(j + 1, n);
    let repo = Repository {
        org: String::from_str(org_str),
        name: String::from_str(name_str),
    };
    proof {
        reveal_strlit("/");
        let p = plen as int;
        let org = url@.subrange(p, j as int);
        let name = url@.subrange(j as int + 1, n as int);
        let whole = spec_url_prefix() + org + "/"@ + name;
        assert(url@ =~= whole) by {
            assert("/"@.len() == 1);
            assert(whole.len() == url@.len());
            assert forall|x: int| 0 <= x < url@.len() implies url@[x] == whole[x] by {
                if x < p {
                    assert(whole[x] == spec_url_prefix()[x]);
                } else if x < j {
                    assert(whole[x] == org[x - p]);
                    assert(org[x - p] == url@[x]);
                } else if x == j {
                    assert(whole[x] == "/"@[0]);
                } else {
                    assert(whole[x] == name[x - j - 1]);
                    assert(name[x - j - 1] == url@[x]);
                }
            }
        }
        assert(slash_free(org)) by {
            assert forall|x: int| 0 <= x < org.len() implies org[x] != '/' by {
                assert(org[x] == url@[p + x]);
            }
        }
        assert(slash_free(name)) by {
            assert forall|x: int| 0 <= x < name.len() implies name[x] != '/' by {
                assert(name[x] == url@[j + 1 + x]);
            }
        }
        assert(repo_shape(url@, repo.org@, repo.name@));
    }
    Ok(repo)
}

} // verus!
