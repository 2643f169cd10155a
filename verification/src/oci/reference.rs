//! Image references.
//!
//! A reference names a registry, a repository and either a tag or a digest.
//! What is left out is filled in: `ubuntu` stands for
//! `docker.io/library/ubuntu:latest`.

use vstd::prelude::*;
use vstd::string::*;
use crate::oci::{Error, ErrorView};
use crate::text::{
    concat2, concat3, contains_char, replace_chars, rsplit_once, spec_contains,
    spec_replace_chars, spec_rsplit_once, spec_split_once, spec_trim, split_once, str_eq, trim,
};

verus! {

/// Registry of a reference that names none.
pub const DEFAULT_REGISTRY: &'static str = "docker.io";

/// Tag of a reference that names neither tag nor digest.
pub const DEFAULT_TAG: &'static str = "latest";

/// Repository prefix of an official image.
pub const OFFICIAL_REPO_PREFIX: &'static str = "library";

/// Tag or digest of an image.
#[derive(Debug, Clone, PartialEq, Eq)]
pub enum Identifier {
    /// A named tag, such as `latest`.
    Tag(String),
    /// A content digest, such as `sha256:abc123`.
    Digest(String),
}

/// A parsed image reference.
#[derive(Debug, Clone, PartialEq, Eq)]
pub struct Reference {
    /// Host name of the registry.
    pub registry: String,
    /// Path of the repository.
    pub repository: String,
    /// Tag or digest.
    pub identifier: Identifier,
}

/// An identifier as plain data.
pub enum IdentifierView {
    /// A named tag.
    Tag(Seq<char>),
    /// A content digest.
    Digest(Seq<char>),
}

/// A reference as plain data.
pub struct ReferenceView {
    /// Host name of the registry.
    pub registry: Seq<char>,
    /// Path of the repository.
    pub repository: Seq<char>,
    /// Tag or digest.
    pub identifier: IdentifierView,
}

impl View for Identifier {
    type V = IdentifierView;

    open spec fn view(&self) -> IdentifierView {
        match self {
            Identifier::Tag(t) => IdentifierView::Tag(t@),
            Identifier::Digest(d) => IdentifierView::Digest(d@),
        }
    }
}

impl View for Reference {
    type V = ReferenceView;

    open spec fn view(&self) -> ReferenceView {
        ReferenceView {
            registry: self.registry@,
            repository: self.repository@,
            identifier: self.identifier@,
        }
    }
}

impl IdentifierView {
    /// The tag or the digest itself.
    pub open spec fn text(self) -> Seq<char> {
        match self {
            IdentifierView::Tag(t) => t,
            IdentifierView::Digest(d) => d,
        }
    }
}

impl ReferenceView {
    /// The canonical form: registry, `/`, repository, then `:` and the tag or
    /// `@` and the digest.
    pub open spec fn canonical(self) -> Seq<char> {
        self.registry + "/"@ + self.repository + (match self.identifier {
            IdentifierView::Tag(t) => ":"@ + t,
            IdentifierView::Digest(d) => "@"@ + d,
        })
    }

    /// Base address of the registry's API. Docker Hub answers under another
    /// host name than the one in references.
    pub open spec fn api_base(self) -> Seq<char> {
        "https://"@ + (if self.registry == "docker.io"@ {
            "registry-1.docker.io"@
        } else {
            self.registry
        }) + "/v2"@
    }

    /// A key for local storage: registry, repository and identifier with `/`
    /// between them, and then every `/` and `:` replaced by `_`.
    pub open spec fn storage_key(self) -> Seq<char> {
        spec_replace_chars(
            self.registry + "/"@ + self.repository + "/"@ + self.identifier.text(),
            '/',
            ':',
            '_',
        )
    }
}

/// Whether the first component of a name is a registry: it holds a dot or a
/// colon, or is `localhost`.
pub open spec fn spec_is_registry(s: Seq<char>) -> bool {
    spec_contains(s, '.') || spec_contains(s, ':') || s == "localhost"@
}

/// Registry and the rest of a name. The part before the first `/` is the
/// registry if it looks like one. Otherwise the registry is the default one,
/// and a name without any `/` is an official image.
pub open spec fn spec_split_registry(name: Seq<char>) -> (Seq<char>, Seq<char>) {
    match spec_split_once(name, '/') {
        Some((first, rest)) => if spec_is_registry(first) {
            (first, rest)
        } else {
            (DEFAULT_REGISTRY@, name)
        },
        None => (DEFAULT_REGISTRY@, OFFICIAL_REPO_PREFIX@ + "/"@ + name),
    }
}

/// What a reference string means, or why it means nothing.
pub open spec fn spec_parse(input: Seq<char>) -> Result<ReferenceView, ErrorView> {
    let trimmed = spec_trim(input);
    if trimmed.len() == 0 {
        Err(ErrorView::InvalidReference("empty reference"@))
    } else {
        match spec_split_once(trimmed, '@') {
            Some((name, digest)) => if !spec_contains(digest, ':') {
                Err(ErrorView::InvalidReference("invalid digest: "@ + digest))
            } else {
                let (registry, repository) = spec_split_registry(name);
                Ok(ReferenceView { registry, repository, identifier: IdentifierView::Digest(digest) })
            },
            None => {
                let (registry, repo_with_tag) = spec_split_registry(trimmed);
                match spec_rsplit_once(repo_with_tag, ':') {
                    Some((repository, tag)) => Ok(
                        ReferenceView { registry, repository, identifier: IdentifierView::Tag(tag) },
                    ),
                    None => Ok(
                        ReferenceView {
                            registry,
                            repository: repo_with_tag,
                            identifier: IdentifierView::Tag(DEFAULT_TAG@),
                        },
                    ),
                }
            },
        }
    }
}

/// Whether `s` looks like the host name of a registry.
pub fn is_registry(s: &str) -> (r: bool)
    ensures
        r == spec_is_registry(s@),
{
    contains_char(s, '.') || contains_char(s, ':') || str_eq(s, "localhost")
}

fn split_registry(name: &str) -> (r: (String, String))
    ensures
        (r.0@, r.1@) == spec_split_registry(name@),
{
    match split_once(name, '/') {
        Some((first, rest)) => {
            if is_registry(first) {
                (String::from_str(first), String::from_str(rest))
            } else {
                (String::from_str(DEFAULT_REGISTRY), String::from_str(name))
            }
        },
        None => (String::from_str(DEFAULT_REGISTRY), concat3(OFFICIAL_REPO_PREFIX, "/", name)),
    }
}

impl Reference {
    /// Parses an image reference.
    ///
    /// White space around it is ignored. An empty reference is refused, and so
    /// is a digest without a `:`.
    pub fn parse(input: &str) -> (r: Result<Reference, Error>)
        ensures
            match spec_parse(input@) {
                Ok(v) => r is Ok && r->Ok_0@ == v,
                Err(e) => r is Err && r->Err_0@ == e,
            },
    {
        let trimmed = trim(input);
        if trimmed.unicode_len() == 0 {
            return Err(Error::InvalidReference(String::from_str("empty reference")));
        }
        match split_once(trimmed, '@') {
            Some((name, digest)) => {
                if !contains_char(digest, ':') {
                    return Err(Error::InvalidReference(concat2("invalid digest: ", digest)));
                }
                let (registry, repository) = split_registry(name);
                Ok(
                    Reference {
                        registry,
                        repository,
                        identifier: Identifier::Digest(String::from_str(digest)),
                    },
                )
            },
            None => {
                let (registry, repo_with_tag) = split_registry(trimmed);
                match rsplit_once(repo_with_tag.as_str(), ':') {
                    Some((repo, tag)) => Ok(
                        Reference {
                            registry,
                            repository: String::from_str(repo),
                            identifier: Identifier::Tag(String::from_str(tag)),
                        },
                    ),
                    None => Ok(
                        Reference {
                            registry,
                            repository: repo_with_tag,
                            identifier: Identifier::Tag(String::from_str(DEFAULT_TAG)),
                        },
                    ),
                }
            },
        }
    }

    /// Base address of the registry's API.
    pub fn api_base(&self) -> (r: String)
        ensures
            r@ == self@.api_base(),
    {
        let host = if str_eq(self.registry.as_str(), "docker.io") {
            "registry-1.docker.io"
        } else {
            self.registry.as_str()
        };
        concat3("https://", host, "/v2")
    }

    /// The tag or the digest, as the registry's API takes it.
    pub fn reference_str(&self) -> (r: &str)
        ensures
            r@ == self@.identifier.text(),
    {
        match &self.identifier {
            Identifier::Tag(t) => t.as_str(),
            Identifier::Digest(d) => d.as_str(),
        }
    }

    /// A key for local storage that holds neither `/` nor `:`.
    pub fn storage_key(&self) -> (r: String)
        ensures
            r@ == self@.storage_key(),
            !spec_contains(r@, '/'),
            !spec_contains(r@, ':'),
    {
        let mut joined = concat3(self.registry.as_str(), "/", self.repository.as_str());
        joined.append("/");
        joined.append(self.reference_str());
        let key = replace_chars(joined.as_str(), '/', ':', '_');
        proof {
            crate::text::lemma_find_from(key@, '/', 0);
            crate::text::lemma_find_from(key@, ':', 0);
        }
        key
    }

    /// The canonical form of the reference, which is its key in the image
    /// index.
    pub fn to_string(&self) -> (r: String)
        ensures
            r@ == self@.canonical(),
    {
        let mut out = concat3(self.registry.as_str(), "/", self.repository.as_str());
        match &self.identifier {
            Identifier::Tag(t) => {
                out.append(":");
                out.append(t.as_str());
                assert(out@ =~= self@.canonical());
            },
            Identifier::Digest(d) => {
                out.append("@");
                out.append(d.as_str());
                assert(out@ =~= self@.canonical());
            },
        }
        out
    }
}

} // verus!
