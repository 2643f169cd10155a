use bux::oci::{Identifier, Reference};

#[test]
fn parse_simple() {
    let r = Reference::parse("ubuntu").unwrap();
    assert_eq!(r.registry, "docker.io");
    assert_eq!(r.repository, "library/ubuntu");
    assert_eq!(r.identifier, Identifier::Tag("latest".into()));
}

#[test]
fn parse_with_tag() {
    let r = Reference::parse("ubuntu:22.04").unwrap();
    assert_eq!(r.repository, "library/ubuntu");
    assert_eq!(r.identifier, Identifier::Tag("22.04".into()));
}

#[test]
fn parse_user_repo() {
    let r = Reference::parse("myuser/myapp:v1").unwrap();
    assert_eq!(r.registry, "docker.io");
    assert_eq!(r.repository, "myuser/myapp");
    assert_eq!(r.identifier, Identifier::Tag("v1".into()));
}

#[test]
fn parse_custom_registry() {
    let r = Reference::parse("ghcr.io/org/app:latest").unwrap();
    assert_eq!(r.registry, "ghcr.io");
    assert_eq!(r.repository, "org/app");
}

#[test]
fn parse_localhost_port() {
    let r = Reference::parse("localhost:5000/test:v1").unwrap();
    assert_eq!(r.registry, "localhost:5000");
    assert_eq!(r.repository, "test");
    assert_eq!(r.identifier, Identifier::Tag("v1".into()));
}

#[test]
fn parse_digest() {
    let r = Reference::parse("ubuntu@sha256:abc123").unwrap();
    assert_eq!(r.repository, "library/ubuntu");
    assert_eq!(r.identifier, Identifier::Digest("sha256:abc123".into()));
}

#[test]
fn display_roundtrip() {
    let r = Reference::parse("ghcr.io/org/app:v2").unwrap();
    assert_eq!(r.to_string(), "ghcr.io/org/app:v2");
}

#[test]
fn parse_rejects_empty_and_bad_digest() {
    assert!(matches!(Reference::parse("   "), Err(bux::oci::Error::InvalidReference(m)) if m == "empty reference"));
    assert!(matches!(Reference::parse("ubuntu@abc"), Err(bux::oci::Error::InvalidReference(m)) if m == "invalid digest: abc"));
}

#[test]
fn parse_trims_white_space() {
    let r = Reference::parse("  \tubuntu:22.04\n").unwrap();
    assert_eq!(r.to_string(), "docker.io/library/ubuntu:22.04");
}

#[test]
fn api_base_and_storage_key() {
    let r = Reference::parse("ubuntu").unwrap();
    assert_eq!(r.api_base(), "https://registry-1.docker.io/v2");
    assert_eq!(r.reference_str(), "latest");
    assert_eq!(r.storage_key(), "docker.io_library_ubuntu_latest");
    let g = Reference::parse("localhost:5000/test@sha256:ab").unwrap();
    assert_eq!(g.api_base(), "https://localhost:5000/v2");
    assert_eq!(g.storage_key(), "localhost_5000_test_sha256_ab");
    assert_eq!(g.to_string(), "localhost:5000/test@sha256:ab");
}
