//! Convert+Import Lon files

use vstd::prelude::*;

use crate::import::error::{ImportError, ImportErrorView};
use crate::pin::{
    is_commit_hash, view_result, ContentHash, Frozen, GenericHash, GitPin, GitPinView, GitRevision, LockedTarballVersion,
    MutableUrlPin, OptionalUrlHashes, OptionalUrlHashesView, Pin, PinView, Repository, RepositoryView,
    UrlPin,
};
use crate::text::{parse_url, url_parse, view_parsed, UrlError, UrlErrorView};

verus! {

/// One source of a lon lock file (format v1).
#[derive(Debug, Clone, PartialEq, Eq)]
pub enum Source {
    Git(GitSource),
    GitHub(GitHubSource),
    Tarball(TarballSource),
}

/// This type indicates what fetcher to use to download this source.
#[derive(Debug, Clone, Copy, PartialEq, Eq)]
pub enum FetchType {
    Git,
    Tarball,
}

#[derive(Debug, Clone, PartialEq, Eq)]
pub struct GitSource {
    pub fetch_type: FetchType,
    pub frozen: bool,
    pub branch: String,
    pub revision: String,
    pub url: String,
    pub hash: ContentHash,
    pub last_modified: Option<u64>,
    /// Whether to fetch submodules
    pub submodules: bool,
}

#[derive(Debug, Clone, PartialEq, Eq)]
pub struct GitHubSource {
    pub fetch_type: FetchType,
    pub frozen: bool,
    pub owner: String,
    pub repo: String,
    pub branch: String,
    pub revision: String,
    pub url: String,
    pub hash: ContentHash,
}

#[derive(Debug, Clone, PartialEq, Eq)]
pub struct TarballSource {
    pub fetch_type: FetchType,
    pub frozen: bool,
    pub origin: Option<String>,
    pub revision: Option<String>,
    pub url: String,
    pub hash: ContentHash,
}

/// The pin for a lon git source, given what parsing its URL gave. The URL is
/// looked at before the revision, which must be a full commit hash.
pub open spec fn lon_git_pin(src: GitSource, url: Result<Seq<char>, UrlErrorView>) -> Result<
    PinView,
    ImportErrorView,
> {
    match url {
        Err(e) => Err(ImportErrorView::InvalidGitRepositoryUrl(e)),
        Ok(_) if !is_commit_hash(src.revision@) => Err(ImportErrorView::InvalidGitRevision(src.revision@)),
        Ok(u) => Ok(
            PinView::Git {
                input: GitPinView {
                    repository: RepositoryView::Git { url: u },
                    branch: src.branch@,
                    submodules: src.submodules,
                },
                version: Some(src.revision@),
                hashes: Some(OptionalUrlHashesView { url: None, hash: src.hash }),
                frozen: src.frozen,
            },
        ),
    }
}

/// The pin for a lon GitHub source. `tarball_url` is what parsing its URL
/// gave when the source is fetched as a tarball, and `None` otherwise. The
/// revision, which must be a full commit hash, is looked at before that URL.
pub open spec fn lon_github_pin(
    src: GitHubSource,
    tarball_url: Option<Result<Seq<char>, UrlErrorView>>,
) -> Result<PinView, ImportErrorView> {
    let pin = |url: Option<Seq<char>>|
        PinView::Git {
            input: GitPinView {
                repository: RepositoryView::GitHub { owner: src.owner@, repo: src.repo@ },
                branch: src.branch@,
                submodules: false,
            },
            version: Some(src.revision@),
            hashes: Some(OptionalUrlHashesView { url, hash: src.hash }),
            frozen: src.frozen,
        };
    if !is_commit_hash(src.revision@) {
        Err(ImportErrorView::InvalidGitRevision(src.revision@))
    } else {
        match tarball_url {
        None => Ok(pin(None)),
        Some(Err(e)) => Err(ImportErrorView::InvalidTarballUrl(e)),
        Some(Ok(u)) => Ok(pin(Some(u))),
        }
    }
}

/// The pin for a lon tarball source, given what parsing its URL gave and, when
/// it has an origin, what parsing the origin gave.
pub open spec fn lon_tarball_pin(
    src: TarballSource,
    url: Result<Seq<char>, UrlErrorView>,
    origin: Option<Result<Seq<char>, UrlErrorView>>,
) -> Result<PinView, ImportErrorView> {
    match url {
        Err(e) => Err(ImportErrorView::InvalidTarballUrl(e)),
        Ok(u) => match origin {
            None => Ok(
                PinView::Url {
                    url: u,
                    unpack: true,
                    version: Some(()),
                    hashes: Some(src.hash),
                    frozen: src.frozen,
                },
            ),
            Some(Err(e)) => Err(ImportErrorView::InvalidTarballOriginUrl(e)),
            Some(Ok(o)) => Ok(
                PinView::MutableUrl {
                    update_url: o,
                    unpack: true,
                    version: Some(u),
                    hashes: Some(src.hash),
                    frozen: src.frozen,
                },
            ),
        },
    }
}

/// The pin for a lon source, with its URLs parsed as `url::Url::parse` does.
pub open spec fn lon_pin(src: Source) -> Result<PinView, ImportErrorView> {
    match src {
        Source::Git(g) => lon_git_pin(g, url_parse(g.url@)),
        Source::GitHub(g) => lon_github_pin(
            g,
            match g.fetch_type {
                FetchType::Tarball => Some(url_parse(g.url@)),
                FetchType::Git => None,
            },
        ),
        Source::Tarball(t) => lon_tarball_pin(
            t,
            url_parse(t.url@),
            match t.origin {
                Some(o) => Some(url_parse(o@)),
                None => None,
            },
        ),
    }
}

/// Whether a lon source is frozen.
pub open spec fn source_frozen(src: Source) -> bool {
    match src {
        Source::Git(g) => g.frozen,
        Source::GitHub(g) => g.frozen,
        Source::Tarball(t) => t.frozen,
    }
}

/// A lon source that imports becomes a locked pin: its version and hashes are
/// recorded, and it stays frozen or not as it was.
pub proof fn law_lon_import_is_locked(src: Source)
    ensures
        lon_pin(src) matches Ok(p) ==> p.version_known() && p.hashes_known() && p.frozen()
            == source_frozen(src),
{
}

/// A git source whose URL parses imports as a pin of that parsed URL, on its
/// branch, with its submodule setting, locked to its revision, exactly when
/// the revision is a full commit hash; a URL that does not parse is reported
/// as such whatever the revision.
pub proof fn law_lon_git_repository(src: GitSource, url: Result<Seq<char>, UrlErrorView>)
    ensures
        url matches Err(e) ==> lon_git_pin(src, url) == Err::<PinView, ImportErrorView>(
            ImportErrorView::InvalidGitRepositoryUrl(e),
        ),
        url matches Ok(u) ==> (lon_git_pin(src, url) is Ok <==> is_commit_hash(src.revision@)),
        url matches Ok(u) ==> (is_commit_hash(src.revision@) ==> lon_git_pin(src, url) == Ok::<
            PinView,
            ImportErrorView,
        >(
            PinView::Git {
                input: GitPinView {
                    repository: RepositoryView::Git { url: u },
                    branch: src.branch@,
                    submodules: src.submodules,
                },
                version: Some(src.revision@),
                hashes: Some(OptionalUrlHashesView { url: None, hash: src.hash }),
                frozen: src.frozen,
            },
        )),
{
    if let Ok(u) = url {
        if is_commit_hash(src.revision@) {
            assert(lon_git_pin(src, url) == Ok::<PinView, ImportErrorView>(
                PinView::Git {
                    input: GitPinView {
                        repository: RepositoryView::Git { url: u },
                        branch: src.branch@,
                        submodules: src.submodules,
                    },
                    version: Some(src.revision@),
                    hashes: Some(OptionalUrlHashesView { url: None, hash: src.hash }),
                    frozen: src.frozen,
                },
            ));
        }
    }
}

/// A tarball source whose URL parses imports as an unpacked URL pin locked
/// to that URL when it has no origin, and as an unpacked mutable pin that is
/// updated from the origin and locked to the URL when it has one.
pub proof fn law_lon_tarball_kinds(
    src: TarballSource,
    url: Result<Seq<char>, UrlErrorView>,
    origin: Option<Result<Seq<char>, UrlErrorView>>,
)
    ensures
        url matches Ok(u) ==> (origin is None ==> lon_tarball_pin(src, url, origin) == Ok::<
            PinView,
            ImportErrorView,
        >(
            PinView::Url {
                url: u,
                unpack: true,
                version: Some(()),
                hashes: Some(src.hash),
                frozen: src.frozen,
            },
        )),
        url matches Ok(u) ==> (origin matches Some(Ok(o)) ==> lon_tarball_pin(src, url, origin)
            == Ok::<PinView, ImportErrorView>(
            PinView::MutableUrl {
                update_url: o,
                unpack: true,
                version: Some(u),
                hashes: Some(src.hash),
                frozen: src.frozen,
            },
        )),
        url is Err ==> (lon_tarball_pin(src, url, origin) matches Err(
            ImportErrorView::InvalidTarballUrl(_),
        )),
        url is Ok ==> (origin matches Some(Err(e)) ==> lon_tarball_pin(src, url, origin) == Err::<
            PinView,
            ImportErrorView,
        >(ImportErrorView::InvalidTarballOriginUrl(e))),
{
}

/// A GitHub source imports as a pin of the GitHub repository `owner/repo`
/// on its branch, without submodules, locked to its revision, whatever its
/// fetch type and whatever its tarball URL parsed to. The tarball URL is
/// recorded exactly when the source is fetched as a tarball.
pub proof fn law_lon_github_repository(
    src: GitHubSource,
    tarball_url: Option<Result<Seq<char>, UrlErrorView>>,
)
    ensures
        lon_github_pin(src, tarball_url) matches Ok(p) ==> (p matches PinView::Git {
            input,
            version,
            hashes,
            ..
        } && input.repository == (RepositoryView::GitHub { owner: src.owner@, repo: src.repo@ })
            && input.branch == src.branch@ && !input.submodules && version == Some(src.revision@)
            && (hashes matches Some(h) && h.hash == src.hash && (h.url is Some <==> tarball_url is Some))),
        lon_pin(Source::GitHub(src)) matches Ok(p) ==> (p matches PinView::Git { input, hashes, .. }
            && input.repository == (RepositoryView::GitHub { owner: src.owner@, repo: src.repo@ })
            && input.branch == src.branch@ && (hashes matches Some(h) && (h.url is Some <==> src.fetch_type
            == FetchType::Tarball))),
{
}

/// Turns a lon git source into a pin, given the parsed repository URL.
pub fn git_source_to_pin(src: GitSource, url: Result<String, UrlError>) -> (r: Result<Pin, ImportError>)
    ensures
        view_result(r) == lon_git_pin(src, view_result(url)),
{
    let u = match url {
        Err(e) => {
            return Err(ImportError::InvalidGitRepositoryUrl(e));
        },
        Ok(u) => u,
    };
    let input = GitPin::new(Repository::git(u), src.branch, src.submodules);
    let version = match GitRevision::new(src.revision) {
        Ok(v) => v,
        Err(rev) => {
            return Err(ImportError::InvalidGitRevision(rev));
        },
    };
    Ok(
        Pin::Git {
            input,
            version: Some(version),
            hashes: Some(OptionalUrlHashes { url: None, hash: src.hash }),
            frozen: Frozen(src.frozen),
        },
    )
}

/// Turns a lon GitHub source into a pin, given the parsed tarball URL when the
/// source is fetched as a tarball.
pub fn github_source_to_pin(
    src: GitHubSource,
    tarball_url: Option<Result<String, UrlError>>,
) -> (r: Result<Pin, ImportError>)
    ensures
        view_result(r) == lon_github_pin(
            src,
            view_parsed(tarball_url),
        ),
{
    let ghost expected = lon_github_pin(
        src,
        view_parsed(tarball_url),
    );
    let input = GitPin::new(Repository::github(src.owner.as_str(), src.repo.as_str()), src.branch, false);
    let version = match GitRevision::new(src.revision) {
        Ok(v) => v,
        Err(rev) => {
            return Err(ImportError::InvalidGitRevision(rev));
        },
    };
    let url = match tarball_url {
        None => None,
        Some(Err(e)) => {
            return Err(ImportError::InvalidTarballUrl(e));
        },
        Some(Ok(u)) => Some(u),
    };
    let r = Pin::Git {
        input,
        version: Some(version),
        hashes: Some(OptionalUrlHashes { url, hash: src.hash }),
        frozen: Frozen(src.frozen),
    };
    assert(view_result(Ok::<Pin, ImportError>(r)) == expected);
    Ok(r)
}

/// Turns a lon tarball source into a pin, given the parsed URL and, when the
/// source has an origin, the parsed origin.
pub fn tarball_source_to_pin(
    src: TarballSource,
    url: Result<String, UrlError>,
    origin: Option<Result<String, UrlError>>,
) -> (r: Result<Pin, ImportError>)
    ensures
        view_result(r) == lon_tarball_pin(
            src,
            view_result(url),
            view_parsed(origin),
        ),
{
    let url = match url {
        Err(e) => {
            return Err(ImportError::InvalidTarballUrl(e));
        },
        Ok(u) => u,
    };
    let hashes = Some(GenericHash { hash: src.hash });
    match origin {
        None => Ok(
            Pin::Url {
                input: UrlPin { url, unpack: true },
                version: Some(()),
                hashes,
                frozen: Frozen(src.frozen),
            },
        ),
        Some(Err(e)) => Err(ImportError::InvalidTarballOriginUrl(e)),
        Some(Ok(update_url)) => Ok(
            Pin::MutableUrl {
                input: MutableUrlPin { update_url, unpack: true },
                version: Some(LockedTarballVersion { url }),
                hashes,
                frozen: Frozen(src.frozen),
            },
        ),
    }
}

impl Pin {
    /// Converts a lon source into a pin, parsing its URLs.
    pub fn try_from_lon(lon: Source) -> (r: Result<Pin, ImportError>)
        ensures
            view_result(r) == lon_pin(lon),
    {
        match lon {
            Source::Git(g) => {
                let url = parse_url(g.url.as_str());
                git_source_to_pin(g, url)
            },
            Source::GitHub(g) => {
                let url = match g.fetch_type {
                    FetchType::Tarball => Some(parse_url(g.url.as_str())),
                    FetchType::Git => None,
                };
                github_source_to_pin(g, url)
            },
            Source::Tarball(t) => {
                let url = parse_url(t.url.as_str());
                // the origin is only looked at once the URL itself parsed
                let origin = match (&url, &t.origin) {
                    (Ok(_), Some(o)) => Some(parse_url(o.as_str())),
                    _ => None,
                };
                tarball_source_to_pin(t, url, origin)
            },
        }
    }
}

} // verus!
