use relay_resolver::{ends_with, parse_repository, Error, RelayChain};

fn rejects(url: &str) {
    match parse_repository(url).unwrap_err() {
        Error::InvalidRepository(payload) => assert_eq!(payload, url),
        other => panic!("unexpected error: {other:?}"),
    }
}

#[test]
fn parses_well_formed_url() {
    let repo = parse_repository("https://github.com/r0gue-io/polkadot").unwrap();
    assert_eq!(repo.org, "r0gue-io");
    assert_eq!(repo.name, "polkadot");
}

#[test]
fn rejects_wrong_scheme() {
    rejects("http://github.com/r0gue-io/polkadot");
}

#[test]
fn rejects_wrong_host() {
    rejects("https://example.com/r0gue-io/polkadot");
}

#[test]
fn rejects_missing_separator() {
    rejects("https://github.com/r0gue-io");
}

#[test]
fn rejects_empty_owner() {
    rejects("https://github.com//polkadot");
}

#[test]
fn rejects_empty_repository_name() {
    rejects("https://github.com/r0gue-io/");
}

#[test]
fn rejects_extra_path_segment() {
    rejects("https://github.com/r0gue-io/polkadot/releases");
}

#[test]
fn rejects_bare_prefix() {
    rejects("https://github.com/");
}

#[test]
fn registry_metadata_is_fixed() {
    let relay = RelayChain::Polkadot;
    assert_eq!(relay.repository(), "https://github.com/r0gue-io/polkadot");
    assert_eq!(relay.binary(), "polkadot");
    assert_eq!(relay.tag_format(), "polkadot-{tag}");
    assert_eq!(relay.fallback(), "v1.12.0");
    assert_eq!(
        relay.workers(),
        vec!["polkadot-execute-worker", "polkadot-prepare-worker"]
    );
    assert_eq!(relay_resolver::registry::variants(), vec![RelayChain::Polkadot]);
}

#[test]
fn suffix_check_compares_whole_tail() {
    assert!(ends_with("./bin-v1.6.0/polkadot", "polkadot"));
    assert!(ends_with("polkadot", "polkadot"));
    assert!(!ends_with("polkadot", "./bin/polkadot"));
    assert!(!ends_with("polkadot-worker", "polkadot"));
    assert!(ends_with("anything", ""));
}

