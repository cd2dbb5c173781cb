//! Why an imported entry could not be turned into a pin.

use vstd::prelude::*;

use crate::text::{UrlError, UrlErrorView};

verus! {

/// Each variant names the URL field that did not parse, with the parser's
/// complaint.
#[derive(Debug, Clone, PartialEq, Eq)]
pub enum ImportError {
    /// lon: the URL of a git source ("Invalid git repository URL").
    InvalidGitRepositoryUrl(UrlError),
    /// lon: the revision of a git or GitHub source is not a full commit hash.
    InvalidGitRevision(String),
    /// lon: the tarball URL of a GitHub or tarball source ("Invalid tarball URL").
    InvalidTarballUrl(UrlError),
    /// lon: the origin of a tarball source ("Invalid tarball origin URL").
    InvalidTarballOriginUrl(UrlError),
    /// Niv: the URL of a URL entry ("Invalid URL").
    InvalidUrl(UrlError),
    /// Niv: the repository of a git entry without owner, reported as the parser reports it.
    Url(UrlError),
}

pub enum ImportErrorView {
    InvalidGitRepositoryUrl(UrlErrorView),
    InvalidGitRevision(Seq<char>),
    InvalidTarballUrl(UrlErrorView),
    InvalidTarballOriginUrl(UrlErrorView),
    InvalidUrl(UrlErrorView),
    Url(UrlErrorView),
}

impl View for ImportError {
    type V = ImportErrorView;

    open spec fn view(&self) -> ImportErrorView {
        match self {
            ImportError::InvalidGitRepositoryUrl(e) => ImportErrorView::InvalidGitRepositoryUrl(e@),
            ImportError::InvalidGitRevision(r) => ImportErrorView::InvalidGitRevision(r@),
            ImportError::InvalidTarballUrl(e) => ImportErrorView::InvalidTarballUrl(e@),
            ImportError::InvalidTarballOriginUrl(e) => ImportErrorView::InvalidTarballOriginUrl(e@),
            ImportError::InvalidUrl(e) => ImportErrorView::InvalidUrl(e@),
            ImportError::Url(e) => ImportErrorView::Url(e@),
        }
    }
}

} // verus!
