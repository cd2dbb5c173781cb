//! Convert+Import Niv files

use vstd::prelude::*;

use crate::import::error::{ImportError, ImportErrorView};
use crate::pin::{
    view_result, GitPin, GitPinView, Pin, PinView, Repository, RepositoryView, UrlPin,
};
use crate::text::{parse_url, str_eq, url_parse, UrlError, UrlErrorView};

verus! {

/// Pin entry from Niv's sources.json
///
/// We only take the minimum information required to get things working. This does not include
/// the actual hashes, so an update must be performed afterwards.
///
/// Niv's format is untagged: an entry with `branch`, `repo` and `owner` is a
/// git entry, and any other entry with `type` and `url` is a URL entry.
#[derive(Debug, Clone, PartialEq, Eq)]
pub enum NivPin {
    Git(NivGitPin),
    Url(NivUrlPin),
}

#[derive(Debug, Clone, PartialEq, Eq)]
pub struct NivGitPin {
    pub branch: String,
    /// Either owner is None repo is the git URL, or owner is Some and then it's a GitHub
    /// owner/repo style thing
    pub repo: String,
    pub owner: Option<String>,
}

/// A URL entry; Niv writes the kind as `type`.
#[derive(Debug, Clone, PartialEq, Eq)]
pub struct NivUrlPin {
    /// Should be only "tarball" or "file", but who knows
    pub kind: String,
    pub url: String,
}

/// Whether a Niv entry has a URL to parse: a git entry without owner (its
/// repository) and every URL entry.
pub open spec fn niv_needs_url(niv: NivPin) -> bool {
    match niv {
        NivPin::Git(g) => g.owner is None,
        NivPin::Url(_) => true,
    }
}

/// The URL of a Niv entry that has one.
pub open spec fn niv_url_text(niv: NivPin) -> Seq<char> {
    match niv {
        NivPin::Git(g) => g.repo@,
        NivPin::Url(u) => u.url@,
    }
}

/// The pin for a Niv entry, given what parsing its URL gave when it has one.
/// Imported pins carry no version and no hashes, and are not frozen.
pub open spec fn niv_pin_from(niv: NivPin, url: Result<Seq<char>, UrlErrorView>) -> Result<
    PinView,
    ImportErrorView,
> {
    match niv {
        NivPin::Git(g) => {
            let repository = match g.owner {
                None => match url {
                    Ok(u) => Ok(RepositoryView::Git { url: u }),
                    Err(e) => Err(ImportErrorView::Url(e)),
                },
                Some(owner) => Ok(RepositoryView::GitHub { owner: owner@, repo: g.repo@ }),
            };
            match repository {
                Err(e) => Err(e),
                Ok(repository) => Ok(
                    PinView::Git {
                        input: GitPinView { repository, branch: g.branch@, submodules: false },
                        version: None,
                        hashes: None,
                        frozen: false,
                    },
                ),
            }
        },
        NivPin::Url(u) => match url {
            Err(e) => Err(ImportErrorView::InvalidUrl(e)),
            Ok(parsed) => Ok(
                PinView::Url {
                    url: parsed,
                    unpack: u.kind@ == "tarball"@,
                    version: None,
                    hashes: None,
                    frozen: false,
                },
            ),
        },
    }
}

/// The pin for a Niv entry, with its URL parsed as `url::Url::parse` does.
pub open spec fn niv_pin(niv: NivPin) -> Result<PinView, ImportErrorView> {
    niv_pin_from(niv, url_parse(niv_url_text(niv)))
}

/// A Niv git entry with an owner imports as the GitHub repository
/// `owner/repo`; one without imports as the git repository at its parsed URL.
/// A URL entry is unpacked exactly when its type is `tarball`, and keeps its
/// parsed URL. Branches are kept and submodules are never fetched.
pub proof fn law_niv_kinds(niv: NivPin, url: Result<Seq<char>, UrlErrorView>)
    ensures
        niv matches NivPin::Git(g) ==> (g.owner matches Some(owner) ==> niv_pin_from(niv, url) == Ok::<
            PinView,
            ImportErrorView,
        >(
            PinView::Git {
                input: GitPinView {
                    repository: RepositoryView::GitHub { owner: owner@, repo: g.repo@ },
                    branch: g.branch@,
                    submodules: false,
                },
                version: None,
                hashes: None,
                frozen: false,
            },
        )),
        niv matches NivPin::Git(g) ==> (g.owner is None ==> (url matches Ok(u) ==> (niv_pin_from(
            niv,
            url,
        ) matches Ok(PinView::Git { input, .. }) && input.repository == (RepositoryView::Git {
            url: u,
        }) && input.branch == g.branch@ && !input.submodules))),
        niv matches NivPin::Url(e) ==> (url matches Ok(u) ==> (niv_pin_from(niv, url) matches Ok(
            PinView::Url { url: pinned, unpack, .. },
        ) && pinned == u && (unpack <==> e.kind@ == "tarball"@))),
{
    if let NivPin::Git(g) = niv {
        if let Some(owner) = g.owner {
            let expected = PinView::Git {
                input: GitPinView {
                    repository: RepositoryView::GitHub { owner: owner@, repo: g.repo@ },
                    branch: g.branch@,
                    submodules: false,
                },
                version: None,
                hashes: None,
                frozen: false,
            };
            assert(niv_pin_from(niv, url) == Ok::<PinView, ImportErrorView>(expected));
        }
    }
}

/// A Niv entry imports as an unlocked pin: neither version nor hashes are
/// taken over, so an update must follow, and the pin is not frozen.
pub proof fn law_niv_import_is_unlocked(niv: NivPin)
    ensures
        niv_pin(niv) matches Ok(p) ==> !p.version_known() && !p.hashes_known() && !p.frozen(),
{
}

/// Turns a Niv entry into a pin, given the parsed URL for the entries that have
/// one (`url` is not looked at for a git entry with an owner).
pub fn niv_to_pin(niv: NivPin, url: Result<String, UrlError>) -> (r: Result<Pin, ImportError>)
    ensures
        niv_needs_url(niv) ==> view_result(r) == niv_pin_from(niv, view_result(url)),
        !niv_needs_url(niv) ==> view_result(r) == niv_pin(niv),
{
    match niv {
        NivPin::Git(g) => {
            let repository = match g.owner {
                None => match url {
                    Ok(u) => Repository::git(u),
                    Err(e) => {
                        return Err(ImportError::Url(e));
                    },
                },
                Some(owner) => Repository::github(owner.as_str(), g.repo.as_str()),
            };
            Ok(Pin::from(GitPin::new(repository, g.branch, false)))
        },
        NivPin::Url(u) => match url {
            Err(e) => Err(ImportError::InvalidUrl(e)),
            Ok(parsed) => {
                let unpack = str_eq(u.kind.as_str(), "tarball");
                Ok(Pin::from(UrlPin { url: parsed, unpack }))
            },
        },
    }
}

impl Pin {
    /// Converts a Niv entry into a pin, parsing its URL.
    pub fn try_from_niv(niv: NivPin) -> (r: Result<Pin, ImportError>)
        ensures
            view_result(r) == niv_pin(niv),
    {
        let url = match &niv {
            NivPin::Git(g) => match &g.owner {
                None => parse_url(g.repo.as_str()),
                Some(_) => Ok(g.repo.clone()),
            },
            NivPin::Url(u) => parse_url(u.url.as_str()),
        };
        niv_to_pin(niv, url)
    }
}

} // verus!
