//! What is asked of a registry: addresses, tokens, and the choice of a
//! platform.

use vstd::prelude::*;
use vstd::string::*;
use crate::oci::config::ImageConfig;
use crate::oci::reference::Reference;
use crate::oci::{Error, ErrorView};
use crate::text::{concat2, concat3, str_eq};

verus! {

/// Media types of manifests that a pull accepts.
pub const ACCEPT_MANIFEST: &'static str =
    "application/vnd.oci.image.manifest.v1+json, application/vnd.oci.image.index.v1+json, application/vnd.docker.distribution.manifest.v2+json, application/vnd.docker.distribution.manifest.list.v2+json";

/// Operating system of every guest.
pub const GUEST_OS: &'static str = "linux";

/// What names a blob.
#[derive(Debug, Clone)]
pub struct Descriptor {
    /// Media type of the blob.
    pub media_type: Option<String>,
    /// Digest of the blob.
    pub digest: String,
    /// Size of the blob in bytes.
    pub size: u64,
}

/// The manifest of an image for one platform.
#[derive(Debug, Clone)]
pub struct ImageManifest {
    /// The configuration.
    pub config: Descriptor,
    /// The layers, lowest first.
    pub layers: Vec<Descriptor>,
}

/// The configuration blob of an image.
#[derive(Debug, Clone)]
pub struct FullImageConfig {
    /// The part that matters for running a VM.
    pub config: Option<ImageConfig>,
}

/// An entry of an image index: a manifest and the platform it is for.
#[derive(Debug, Clone)]
pub struct IndexEntry {
    /// Digest of the manifest.
    pub digest: String,
    /// Architecture and operating system, where the entry names them.
    pub platform: Option<(String, String)>,
}

/// A token that was fetched for a repository.
#[derive(Debug, Clone)]
pub struct CachedToken {
    /// Registry and repository, with `/` between them.
    pub key: String,
    /// The token.
    pub token: String,
}

/// The client of the registries: it remembers the tokens it was given.
#[derive(Debug)]
pub struct Client {
    tokens: Vec<CachedToken>,
}

/// The name of an architecture in image indexes.
pub open spec fn spec_image_arch(host_arch: Seq<char>) -> Seq<char> {
    if host_arch == "x86_64"@ {
        "amd64"@
    } else if host_arch == "aarch64"@ {
        "arm64"@
    } else {
        host_arch
    }
}

/// The name of the architecture `host_arch` in image indexes.
pub fn image_arch(host_arch: &str) -> (r: &str)
    ensures
        r@ == spec_image_arch(host_arch@),
{
    if str_eq(host_arch, "x86_64") {
        "amd64"
    } else if str_eq(host_arch, "aarch64") {
        "arm64"
    } else {
        host_arch
    }
}

/// Whether an entry is for Linux on the architecture `arch`.
pub open spec fn spec_entry_matches(entry: IndexEntry, arch: Seq<char>) -> bool {
    entry.platform is Some && entry.platform->Some_0.0@ == arch && entry.platform->Some_0.1@
        == GUEST_OS@
}

/// Index of the first entry at or behind `from` that is for Linux on the
/// architecture `arch`; the number of entries where there is none.
pub open spec fn spec_find_platform(entries: Seq<IndexEntry>, arch: Seq<char>, from: int) -> int
    decreases entries.len() - from,
{
    if from >= entries.len() {
        entries.len() as int
    } else if from >= 0 && spec_entry_matches(entries[from], arch) {
        from
    } else {
        spec_find_platform(entries, arch, from + 1)
    }
}

/// Chooses from an image index the manifest for the host: the first entry for
/// Linux on its architecture.
pub fn select_platform(entries: &[IndexEntry], host_arch: &str) -> (r: Result<usize, Error>)
    ensures
        ({
            let arch = spec_image_arch(host_arch@);
            let at = spec_find_platform(entries@, arch, 0);
            if at < entries@.len() {
                r is Ok && r->Ok_0 == at
            } else {
                r is Err && r->Err_0@ == ErrorView::Registry(
                    "no manifest for platform "@ + arch + "/linux"@,
                )
            }
        }),
{
    let arch = image_arch(host_arch);
    let mut i: usize = 0;
    while i < entries.len()
        invariant
            i <= entries@.len(),
            arch@ == spec_image_arch(host_arch@),
            spec_find_platform(entries@, arch@, i as int) == spec_find_platform(
                entries@,
                arch@,
                0,
            ),
        decreases entries@.len() - i,
    {
        let hit = match &entries[i].platform {
            Some((a, os)) => str_eq(a.as_str(), arch) && str_eq(os.as_str(), GUEST_OS),
            None => false,
        };
        if hit {
            return Ok(i);
        }
        i += 1;
    }
    Err(Error::Registry(concat3("no manifest for platform ", arch, "/linux")))
}

/// The address of a manifest: `{api}/{repository}/manifests/{reference}`.
pub fn manifest_url(reference: &Reference, which: &str) -> (r: String)
    ensures
        r@ == reference@.api_base() + "/"@ + reference@.repository + "/manifests/"@ + which@,
{
    let mut url = reference.api_base();
    url.append("/");
    url.append(reference.repository.as_str());
    url.append("/manifests/");
    url.append(which);
    url
}

/// The address of a blob: `{api}/{repository}/blobs/{digest}`.
pub fn blob_url(reference: &Reference, digest: &str) -> (r: String)
    ensures
        r@ == reference@.api_base() + "/"@ + reference@.repository + "/blobs/"@ + digest@,
{
    let mut url = reference.api_base();
    url.append("/");
    url.append(reference.repository.as_str());
    url.append("/blobs/");
    url.append(digest);
    url
}

/// Where a registry hands out tokens, and the service it wants named: known
/// for Docker Hub and for GHCR.
pub open spec fn spec_token_endpoint(registry: Seq<char>) -> Option<(Seq<char>, Seq<char>)> {
    if registry == "docker.io"@ {
        Some(("https://auth.docker.io/token"@, "registry.docker.io"@))
    } else if registry == "ghcr.io"@ {
        Some(("https://ghcr.io/token"@, "ghcr.io"@))
    } else {
        None
    }
}

/// Where the registry `registry` hands out tokens, and the service it wants
/// named.
pub fn token_endpoint(registry: &str) -> (r: Option<(&'static str, &'static str)>)
    ensures
        match spec_token_endpoint(registry@) {
            Some((realm, service)) => r is Some && r->Some_0.0@ == realm && r->Some_0.1@
                == service,
            None => r is None,
        },
{
    if str_eq(registry, "docker.io") {
        Some(("https://auth.docker.io/token", "registry.docker.io"))
    } else if str_eq(registry, "ghcr.io") {
        Some(("https://ghcr.io/token", "ghcr.io"))
    } else {
        None
    }
}

/// The address that hands out a token for pulling from `repository`.
pub fn token_url(realm: &str, service: &str, repository: &str) -> (r: String)
    ensures
        r@ == realm@ + "?service="@ + service@ + "&scope="@ + "repository:"@ + repository@
            + ":pull"@,
{
    let mut url = concat3(realm, "?service=", service);
    url.append("&scope=");
    url.append("repository:");
    url.append(repository);
    url.append(":pull");
    url
}

/// The key under which the token for a reference is kept: registry and
/// repository, with `/` between them.
pub open spec fn spec_token_key(registry: Seq<char>, repository: Seq<char>) -> Seq<char> {
    registry + "/"@ + repository
}

/// Index of the token kept under `key` at or behind `from`; the number of
/// tokens where there is none.
pub open spec fn spec_find_token(tokens: Seq<CachedToken>, key: Seq<char>, from: int) -> int
    decreases tokens.len() - from,
{
    if from >= tokens.len() {
        tokens.len() as int
    } else if from >= 0 && tokens[from].key@ == key {
        from
    } else {
        spec_find_token(tokens, key, from + 1)
    }
}

impl Client {
    /// The tokens that the client remembers, oldest first.
    pub closed spec fn spec_tokens(&self) -> Seq<CachedToken> {
        self.tokens@
    }

    /// A client that remembers nothing.
    pub fn new() -> (r: Self)
        ensures
            r.spec_tokens() == Seq::<CachedToken>::empty(),
    {
        Client { tokens: Vec::new() }
    }

    /// The token that the client remembers for `reference`.
    pub fn cached_token(&self, reference: &Reference) -> (r: Option<String>)
        ensures
            ({
                let key = spec_token_key(reference@.registry, reference@.repository);
                let at = spec_find_token(self.spec_tokens(), key, 0);
                if at < self.spec_tokens().len() {
                    r is Some && r->Some_0@ == self.spec_tokens()[at].token@
                } else {
                    r is None
                }
            }),
    {
        let key = concat3(reference.registry.as_str(), "/", reference.repository.as_str());
        let mut i: usize = 0;
        while i < self.tokens.len()
            invariant
                i <= self.tokens@.len(),
                key@ == spec_token_key(reference@.registry, reference@.repository),
                spec_find_token(self.tokens@, key@, i as int) == spec_find_token(
                    self.tokens@,
                    key@,
                    0,
                ),
            decreases self.tokens@.len() - i,
        {
            if str_eq(self.tokens[i].key.as_str(), key.as_str()) {
                return Some(self.tokens[i].token.clone());
            }
            i += 1;
        }
        None
    }

    /// Remembers `token` for `reference`, behind the tokens that are there.
    pub fn remember(&mut self, reference: &Reference, token: &str)
        ensures
            final(self).spec_tokens().len() == old(self).spec_tokens().len() + 1,
            final(self).spec_tokens().drop_last() == old(self).spec_tokens(),
            final(self).spec_tokens().last().key@ == spec_token_key(
                reference@.registry,
                reference@.repository,
            ),
            final(self).spec_tokens().last().token@ == token@,
    {
        let key = concat3(reference.registry.as_str(), "/", reference.repository.as_str());
        self.tokens.push(CachedToken { key, token: String::from_str(token) });
        assert(self.tokens@.drop_last() =~= old(self).tokens@);
    }

    /// The value of the header that presents `token` to a registry.
    pub fn authorization(token: &str) -> (r: String)
        ensures
            r@ == "Bearer "@ + token@,
    {
        concat2("Bearer ", token)
    }
}

} // verus!
