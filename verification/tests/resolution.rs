use relay_resolver::{
    build, latest_marker, match_command, resolve_command, resolve_default, Error, RelayChain,
};

fn some(s: &str) -> Option<String> {
    Some(s.to_string())
}

fn releases() -> Vec<String> {
    vec!["v1.13.0".to_string(), "v1.12.0".to_string()]
}

const PLATFORM: &str = "x86_64-unknown-linux-gnu";

#[test]
fn default_works() {
    let version = some("v1.12.0");
    let relay = resolve_default(
        &version,
        &releases(),
        some("v1.12.0"),
        some(PLATFORM),
        "cache-dir",
    )
    .unwrap();
    assert_eq!(relay.binary.name, "polkadot");
    assert_eq!(relay.binary.cache, "cache-dir");
    let source = &relay.binary.source;
    assert_eq!(source.owner, "r0gue-io");
    assert_eq!(source.repository, "polkadot");
    assert_eq!(source.tag, some("v1.12.0"));
    assert_eq!(source.tag_format, some("polkadot-{tag}"));
    assert_eq!(source.archive, format!("polkadot-{PLATFORM}.tar.gz"));
    assert_eq!(
        source.contents,
        vec!["polkadot", "polkadot-execute-worker", "polkadot-prepare-worker"]
    );
    assert_eq!(source.latest, None);
    assert_eq!(
        relay.workers,
        vec!["polkadot-execute-worker", "polkadot-prepare-worker"]
    );
}

#[test]
fn from_handles_unsupported_command() {
    let err = resolve_command(
        "none",
        &None,
        &releases(),
        some("v1.12.0"),
        some(PLATFORM),
        "cache-dir",
    )
    .unwrap_err();
    match &err {
        Error::UnsupportedCommand(command) => assert_eq!(command, "none"),
        other => panic!("unexpected error: {other:?}"),
    }
    assert_eq!(
        err.message(),
        "the relay chain command is unsupported: none"
    );
}

#[test]
fn from_handles_local_command() {
    let version = some("v1.12.0");
    let relay = resolve_command(
        "./bin-v1.6.0/polkadot",
        &version,
        &releases(),
        some("v1.12.0"),
        some(PLATFORM),
        "cache-dir",
    )
    .unwrap();
    assert_eq!(relay.binary.name, "polkadot");
    assert_eq!(relay.binary.cache, "cache-dir");
    let source = &relay.binary.source;
    assert_eq!(source.owner, "r0gue-io");
    assert_eq!(source.repository, "polkadot");
    assert_eq!(source.tag, some("v1.12.0"));
    assert_eq!(source.tag_format, some("polkadot-{tag}"));
    assert_eq!(source.archive, format!("polkadot-{PLATFORM}.tar.gz"));
    assert_eq!(
        source.contents,
        vec!["polkadot", "polkadot-execute-worker", "polkadot-prepare-worker"]
    );
    assert_eq!(source.latest, None);
    assert_eq!(
        relay.workers,
        vec!["polkadot-execute-worker", "polkadot-prepare-worker"]
    );
}

#[test]
fn matching_is_case_insensitive() {
    let relay = resolve_command(
        "POLKADOT",
        &None,
        &releases(),
        some("v1.13.0"),
        some(PLATFORM),
        "cache-dir",
    )
    .unwrap();
    assert_eq!(relay.binary.name, "polkadot");
    assert_eq!(match_command("POLKADOT"), Some(RelayChain::Polkadot));
    assert_eq!(
        match_command("./bin-v1.6.0/polkadot"),
        Some(RelayChain::Polkadot)
    );
    assert_eq!(match_command("polka"), None);
}

#[test]
fn unsupported_command_keeps_original_case() {
    let err = resolve_command(
        "POLKA",
        &None,
        &releases(),
        None,
        some(PLATFORM),
        "cache-dir",
    )
    .unwrap_err();
    match err {
        Error::UnsupportedCommand(command) => assert_eq!(command, "POLKA"),
        other => panic!("unexpected error: {other:?}"),
    }
}

#[test]
fn explicit_version_never_sets_latest() {
    let version = some("v1.12.0");
    let relay = resolve_command(
        "polkadot",
        &version,
        &releases(),
        some("v1.12.0"),
        some(PLATFORM),
        "cache-dir",
    )
    .unwrap();
    assert_eq!(relay.binary.source.latest, None);
    assert_eq!(latest_marker(&version, &releases()), None);
}

#[test]
fn no_version_takes_newest_release_as_latest() {
    let relay = resolve_command(
        "polkadot",
        &None,
        &releases(),
        some("v1.13.0"),
        some(PLATFORM),
        "cache-dir",
    )
    .unwrap();
    assert_eq!(relay.binary.source.latest, some("v1.13.0"));
    assert_eq!(latest_marker(&None, &releases()), some("v1.13.0"));
}

#[test]
fn no_version_and_no_releases_leaves_latest_absent() {
    let relay = resolve_command(
        "polkadot",
        &None,
        &Vec::new(),
        some("v1.12.0"),
        some(PLATFORM),
        "cache-dir",
    )
    .unwrap();
    assert_eq!(relay.binary.source.latest, None);
    assert_eq!(latest_marker(&None, &Vec::new()), None);
}

#[test]
fn undetermined_platform_fails_resolution() {
    let err = resolve_command(
        "polkadot",
        &None,
        &releases(),
        some("v1.13.0"),
        None,
        "cache-dir",
    )
    .unwrap_err();
    assert!(matches!(err, Error::UnsupportedPlatform));
    assert_eq!(err.message(), "the platform is unsupported");
}

#[test]
fn build_starts_contents_with_binary_then_workers() {
    let descriptor = build(
        RelayChain::Polkadot,
        some("v1.12.0"),
        None,
        some(PLATFORM),
    )
    .unwrap();
    assert_eq!(descriptor.contents[0], "polkadot");
    assert_eq!(
        descriptor.contents[1..],
        ["polkadot-execute-worker", "polkadot-prepare-worker"].map(String::from)
    );
}

#[test]
fn build_is_deterministic() {
    let first = build(
        RelayChain::Polkadot,
        some("v1.12.0"),
        some("v1.13.0"),
        some(PLATFORM),
    )
    .unwrap();
    let second = build(
        RelayChain::Polkadot,
        some("v1.12.0"),
        some("v1.13.0"),
        some(PLATFORM),
    )
    .unwrap();
    assert!(first == second);
}

#[test]
fn platform_changes_only_the_archive_name() {
    let linux = build(RelayChain::Polkadot, some("v1.12.0"), None, some(PLATFORM)).unwrap();
    let mac = build(
        RelayChain::Polkadot,
        some("v1.12.0"),
        None,
        some("aarch64-apple-darwin"),
    )
    .unwrap();
    assert_eq!(linux.archive, format!("polkadot-{PLATFORM}.tar.gz"));
    assert_eq!(mac.archive, "polkadot-aarch64-apple-darwin.tar.gz");
    assert_eq!(linux.owner, mac.owner);
    assert_eq!(linux.repository, mac.repository);
    assert_eq!(linux.tag, mac.tag);
    assert_eq!(linux.tag_format, mac.tag_format);
    assert_eq!(linux.contents, mac.contents);
    assert_eq!(linux.latest, mac.latest);
    assert!(linux != mac);
}

#[test]
fn build_without_platform_fails() {
    let err = build(RelayChain::Polkadot, some("v1.12.0"), None, None).unwrap_err();
    assert!(matches!(err, Error::UnsupportedPlatform));
}
