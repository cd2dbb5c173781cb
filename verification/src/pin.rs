//! The pins that importers produce: which source is tracked, which version of
//! it is locked, and which hashes were recorded for it.

use vstd::prelude::*;

use crate::text::chars_of;

verus! {

/// A content hash as Nix records it: the algorithm and its digest.
#[derive(Debug, Clone, Copy, PartialEq, Eq)]
pub enum ContentHash {
    Md5([u8; 16]),
    Sha1([u8; 20]),
    Sha256([u8; 32]),
    Sha512([u8; 64]),
}

/// The `Result` of two viewable types, taken by its views.
pub open spec fn view_result<T: View, E: View>(r: Result<T, E>) -> Result<T::V, E::V> {
    match r {
        Ok(t) => Ok(t@),
        Err(e) => Err(e@),
    }
}

/// Whether a pin is left alone by updates.
#[derive(Debug, Clone, Copy, PartialEq, Eq)]
pub struct Frozen(pub bool);

/// Where a git repository lives.
#[derive(Debug, Clone, PartialEq, Eq)]
pub enum Repository {
    /// Any git remote, by its URL.
    Git { url: String },
    /// A repository on GitHub.
    GitHub { owner: String, repo: String },
}

pub enum RepositoryView {
    Git { url: Seq<char> },
    GitHub { owner: Seq<char>, repo: Seq<char> },
}

impl View for Repository {
    type V = RepositoryView;

    open spec fn view(&self) -> RepositoryView {
        match self {
            Repository::Git { url } => RepositoryView::Git { url: url@ },
            Repository::GitHub { owner, repo } => RepositoryView::GitHub { owner: owner@, repo: repo@ },
        }
    }
}

impl Repository {
    /// A generic git remote.
    pub fn git(url: String) -> (r: Self)
        ensures
            r@ == (RepositoryView::Git { url: url@ }),
    {
        Repository::Git { url }
    }

    /// A GitHub repository `owner/repo`.
    pub fn github(owner: &str, repo: &str) -> (r: Self)
        ensures
            r@ == (RepositoryView::GitHub { owner: owner@, repo: repo@ }),
    {
        Repository::GitHub { owner: owner.to_owned(), repo: repo.to_owned() }
    }
}

/// A git pin: the repository, the branch that is followed, and whether
/// submodules are fetched too.
#[derive(Debug, Clone, PartialEq, Eq)]
pub struct GitPin {
    pub repository: Repository,
    pub branch: String,
    pub submodules: bool,
}

pub struct GitPinView {
    pub repository: RepositoryView,
    pub branch: Seq<char>,
    pub submodules: bool,
}

impl View for GitPin {
    type V = GitPinView;

    open spec fn view(&self) -> GitPinView {
        GitPinView {
            repository: self.repository@,
            branch: self.branch@,
            submodules: self.submodules,
        }
    }
}

impl GitPin {
    pub fn new(repository: Repository, branch: String, submodules: bool) -> (r: Self)
        ensures
            r@ == (GitPinView { repository: repository@, branch: branch@, submodules }),
    {
        GitPin { repository, branch, submodules }
    }
}

/// The commit that a git pin is locked to.
#[derive(Debug, Clone, PartialEq, Eq)]
pub struct GitRevision {
    pub revision: String,
}

/// Whether `c` is an ASCII hexadecimal digit (`char::is_ascii_hexdigit`).
pub open spec fn is_hex_digit(c: char) -> bool {
    ('0' <= c && c <= '9') || ('a' <= c && c <= 'f') || ('A' <= c && c <= 'F')
}

/// Whether `s` is a full git commit hash: 40 hexadecimal digits.
pub open spec fn is_commit_hash(s: Seq<char>) -> bool {
    s.len() == 40 && forall|i: int| 0 <= i < s.len() ==> is_hex_digit(#[trigger] s[i])
}

impl GitRevision {
    /// A revision from a full commit hash; anything else is handed back as
    /// the error.
    pub fn new(revision: String) -> (r: Result<Self, String>)
        ensures
            is_commit_hash(revision@) ==> (r matches Ok(g) && g.revision@ == revision@),
            !is_commit_hash(revision@) ==> (r matches Err(e) && e@ == revision@),
    {
        let cs = chars_of(revision.as_str());
        if cs.len() != 40 {
            return Err(revision);
        }
        let mut i: usize = 0;
        while i < cs.len()
            invariant
                cs@ == revision@,
                i <= cs@.len(),
                forall|j: int| 0 <= j < i ==> is_hex_digit(#[trigger] cs@[j]),
            decreases cs@.len() - i,
        {
            let c = cs[i];
            if !(('0' <= c && c <= '9') || ('a' <= c && c <= 'f') || ('A' <= c && c <= 'F')) {
                return Err(revision);
            }
            i = i + 1;
        }
        Ok(GitRevision { revision })
    }
}

/// The hashes of a git pin: an optional tarball URL and the content hash.
#[derive(Debug, Clone, PartialEq, Eq)]
pub struct OptionalUrlHashes {
    pub url: Option<String>,
    pub hash: ContentHash,
}

pub struct OptionalUrlHashesView {
    pub url: Option<Seq<char>>,
    pub hash: ContentHash,
}

impl View for OptionalUrlHashes {
    type V = OptionalUrlHashesView;

    open spec fn view(&self) -> OptionalUrlHashesView {
        OptionalUrlHashesView { url: self.url.deep_view(), hash: self.hash }
    }
}

/// The content hash of a URL pin.
#[derive(Debug, Clone, Copy, PartialEq, Eq)]
pub struct GenericHash {
    pub hash: ContentHash,
}

/// A URL whose content never changes.
#[derive(Debug, Clone, PartialEq, Eq)]
pub struct UrlPin {
    pub url: String,
    pub unpack: bool,
}

/// A URL that redirects to an immutable snapshot; the snapshot is the version.
#[derive(Debug, Clone, PartialEq, Eq)]
pub struct MutableUrlPin {
    pub update_url: String,
    pub unpack: bool,
}

/// The snapshot URL that a mutable URL pin is locked to.
#[derive(Debug, Clone, PartialEq, Eq)]
pub struct LockedTarballVersion {
    pub url: String,
}

/// A pin: what is tracked, the version it is locked to, the hashes recorded
/// for that version, and whether updates leave it alone.
#[derive(Debug, Clone, PartialEq, Eq)]
pub enum Pin {
    Git {
        input: GitPin,
        version: Option<GitRevision>,
        hashes: Option<OptionalUrlHashes>,
        frozen: Frozen,
    },
    Url {
        input: UrlPin,
        version: Option<()>,
        hashes: Option<GenericHash>,
        frozen: Frozen,
    },
    MutableUrl {
        input: MutableUrlPin,
        version: Option<LockedTarballVersion>,
        hashes: Option<GenericHash>,
        frozen: Frozen,
    },
}

#[allow(inconsistent_fields)]
pub enum PinView {
    Git {
        input: GitPinView,
        version: Option<Seq<char>>,
        hashes: Option<OptionalUrlHashesView>,
        frozen: bool,
    },
    Url {
        url: Seq<char>,
        unpack: bool,
        version: Option<()>,
        hashes: Option<ContentHash>,
        frozen: bool,
    },
    MutableUrl {
        update_url: Seq<char>,
        unpack: bool,
        version: Option<Seq<char>>,
        hashes: Option<ContentHash>,
        frozen: bool,
    },
}

impl PinView {
    /// Whether the version the pin is locked to is recorded.
    pub open spec fn version_known(self) -> bool {
        match self {
            PinView::Git { version, .. } => version is Some,
            PinView::Url { version, .. } => version is Some,
            PinView::MutableUrl { version, .. } => version is Some,
        }
    }

    /// Whether hashes are recorded.
    pub open spec fn hashes_known(self) -> bool {
        match self {
            PinView::Git { hashes, .. } => hashes is Some,
            PinView::Url { hashes, .. } => hashes is Some,
            PinView::MutableUrl { hashes, .. } => hashes is Some,
        }
    }

    pub open spec fn frozen(self) -> bool {
        match self {
            PinView::Git { frozen, .. } => frozen,
            PinView::Url { frozen, .. } => frozen,
            PinView::MutableUrl { frozen, .. } => frozen,
        }
    }
}

impl View for Pin {
    type V = PinView;

    open spec fn view(&self) -> PinView {
        match self {
            Pin::Git { input, version, hashes, frozen } => PinView::Git {
                input: input@,
                version: match version {
                    Some(v) => Some(v.revision@),
                    None => None,
                },
                hashes: match hashes {
                    Some(h) => Some(h@),
                    None => None,
                },
                frozen: frozen.0,
            },
            Pin::Url { input, version, hashes, frozen } => PinView::Url {
                url: input.url@,
                unpack: input.unpack,
                version: *version,
                hashes: match hashes {
                    Some(h) => Some(h.hash),
                    None => None,
                },
                frozen: frozen.0,
            },
            Pin::MutableUrl { input, version, hashes, frozen } => PinView::MutableUrl {
                update_url: input.update_url@,
                unpack: input.unpack,
                version: match version {
                    Some(v) => Some(v.url@),
                    None => None,
                },
                hashes: match hashes {
                    Some(h) => Some(h.hash),
                    None => None,
                },
                frozen: frozen.0,
            },
        }
    }
}

impl Pin {
    /// Whether updates leave this pin alone.
    pub fn is_frozen(&self) -> (r: bool)
        ensures
            r == self@.frozen(),
    {
        match self {
            Pin::Git { frozen, .. } => frozen.0,
            Pin::Url { frozen, .. } => frozen.0,
            Pin::MutableUrl { frozen, .. } => frozen.0,
        }
    }
}

impl From<GitPin> for Pin {
    /// A git pin with no version or hashes yet, not frozen.
    fn from(input: GitPin) -> (r: Pin) {
        Pin::Git { input, version: None, hashes: None, frozen: Frozen(false) }
    }
}

impl vstd::std_specs::convert::FromSpecImpl<GitPin> for Pin {
    open spec fn obeys_from_spec() -> bool {
        true
    }

    open spec fn from_spec(input: GitPin) -> Pin {
        Pin::Git { input, version: None, hashes: None, frozen: Frozen(false) }
    }
}

impl From<UrlPin> for Pin {
    /// A URL pin with no version or hashes yet, not frozen.
    fn from(input: UrlPin) -> (r: Pin) {
        Pin::Url { input, version: None, hashes: None, frozen: Frozen(false) }
    }
}

impl vstd::std_specs::convert::FromSpecImpl<UrlPin> for Pin {
    open spec fn obeys_from_spec() -> bool {
        true
    }

    open spec fn from_spec(input: UrlPin) -> Pin {
        Pin::Url { input, version: None, hashes: None, frozen: Frozen(false) }
    }
}

} // verus!
