use npins::import::error::ImportError;
use npins::import::lon::{
    git_source_to_pin, github_source_to_pin, tarball_source_to_pin, FetchType, GitHubSource, GitSource,
    Source, TarballSource,
};
use npins::import::niv::{niv_to_pin, NivGitPin, NivPin, NivUrlPin};
use npins::pin::{
    ContentHash, Frozen, GenericHash, GitPin, GitRevision, LockedTarballVersion, MutableUrlPin,
    OptionalUrlHashes, Pin, Repository, UrlPin,
};
use npins::text::{UrlError, UrlErrorKind};

const HASH: ContentHash = ContentHash::Sha256([7u8; 32]);
const REV: &str = "0123456789abcdef0123456789abcdef01234567";

fn git_source(url: &str) -> GitSource {
    GitSource {
        fetch_type: FetchType::Git,
        frozen: true,
        branch: "main".to_string(),
        revision: REV.to_string(),
        url: url.to_string(),
        hash: HASH,
        last_modified: Some(1700000000),
        submodules: true,
    }
}

fn github_source(fetch_type: FetchType) -> GitHubSource {
    GitHubSource {
        fetch_type,
        frozen: false,
        owner: "nixos".to_string(),
        repo: "nixpkgs".to_string(),
        branch: "nixos-unstable".to_string(),
        revision: REV.to_string(),
        url: "https://github.com/nixos/nixpkgs/archive/abc.tar.gz".to_string(),
        hash: HASH,
    }
}

fn tarball_source(url: &str, origin: Option<&str>) -> TarballSource {
    TarballSource {
        fetch_type: FetchType::Tarball,
        frozen: false,
        origin: origin.map(String::from),
        revision: None,
        url: url.to_string(),
        hash: HASH,
    }
}

fn url_error(kind: UrlErrorKind, description: &str) -> UrlError {
    UrlError { kind, description: description.to_string() }
}

#[test]
fn lon_git_source() {
    let pin = Pin::try_from_lon(Source::Git(git_source("HTTPS://Example.org/repo.git"))).unwrap();
    assert_eq!(
        pin,
        Pin::Git {
            input: GitPin {
                repository: Repository::Git { url: "https://example.org/repo.git".to_string() },
                branch: "main".to_string(),
                submodules: true,
            },
            version: Some(GitRevision { revision: REV.to_string() }),
            hashes: Some(OptionalUrlHashes { url: None, hash: HASH }),
            frozen: Frozen(true),
        }
    );
    assert!(pin.is_frozen());
}

#[test]
fn lon_git_source_bad_url() {
    let r = Pin::try_from_lon(Source::Git(git_source("example.org/repo.git")));
    assert_eq!(
        r,
        Err(ImportError::InvalidGitRepositoryUrl(url_error(
            UrlErrorKind::RelativeUrlWithoutBase,
            "relative URL without a base"
        )))
    );
}

#[test]
fn lon_github_source_fetched_with_git() {
    let pin = Pin::try_from_lon(Source::GitHub(github_source(FetchType::Git))).unwrap();
    assert_eq!(
        pin,
        Pin::Git {
            input: GitPin {
                repository: Repository::GitHub { owner: "nixos".to_string(), repo: "nixpkgs".to_string() },
                branch: "nixos-unstable".to_string(),
                submodules: false,
            },
            version: Some(GitRevision { revision: REV.to_string() }),
            hashes: Some(OptionalUrlHashes { url: None, hash: HASH }),
            frozen: Frozen(false),
        }
    );
}

#[test]
fn lon_github_source_fetched_as_tarball() {
    let pin = Pin::try_from_lon(Source::GitHub(github_source(FetchType::Tarball))).unwrap();
    match pin {
        Pin::Git { hashes: Some(h), .. } => {
            assert_eq!(h.url, Some("https://github.com/nixos/nixpkgs/archive/abc.tar.gz".to_string()));
            assert_eq!(h.hash, HASH);
        },
        other => panic!("unexpected pin {other:?}"),
    }
}

#[test]
fn lon_github_source_bad_tarball_url() {
    let mut src = github_source(FetchType::Tarball);
    src.url = "http://[::1".to_string();
    assert_eq!(
        Pin::try_from_lon(Source::GitHub(src.clone())),
        Err(ImportError::InvalidTarballUrl(url_error(UrlErrorKind::Other, "invalid IPv6 address")))
    );
    // fetched with git, the URL is not looked at
    src.fetch_type = FetchType::Git;
    assert!(Pin::try_from_lon(Source::GitHub(src)).is_ok());
}

#[test]
fn lon_tarball_without_origin() {
    let pin = Pin::try_from_lon(Source::Tarball(tarball_source("https://example.org/a.tar.gz", None))).unwrap();
    assert_eq!(
        pin,
        Pin::Url {
            input: UrlPin { url: "https://example.org/a.tar.gz".to_string(), unpack: true },
            version: Some(()),
            hashes: Some(GenericHash { hash: HASH }),
            frozen: Frozen(false),
        }
    );
}

#[test]
fn lon_tarball_with_origin() {
    let pin = Pin::try_from_lon(Source::Tarball(tarball_source(
        "https://example.org/snapshot/abc.tar.gz",
        Some("https://example.org/latest"),
    )))
    .unwrap();
    assert_eq!(
        pin,
        Pin::MutableUrl {
            input: MutableUrlPin { update_url: "https://example.org/latest".to_string(), unpack: true },
            version: Some(LockedTarballVersion { url: "https://example.org/snapshot/abc.tar.gz".to_string() }),
            hashes: Some(GenericHash { hash: HASH }),
            frozen: Frozen(false),
        }
    );
}

#[test]
fn lon_tarball_bad_urls() {
    assert_eq!(
        Pin::try_from_lon(Source::Tarball(tarball_source("https://example.org/a.tar.gz", Some("latest")))),
        Err(ImportError::InvalidTarballOriginUrl(url_error(
            UrlErrorKind::RelativeUrlWithoutBase,
            "relative URL without a base"
        )))
    );
    // the URL is checked before the origin
    assert_eq!(
        Pin::try_from_lon(Source::Tarball(tarball_source("a.tar.gz", Some("latest")))),
        Err(ImportError::InvalidTarballUrl(url_error(
            UrlErrorKind::RelativeUrlWithoutBase,
            "relative URL without a base"
        )))
    );
}

#[test]
fn lon_functions_on_given_parse_results() {
    let e = url_error(UrlErrorKind::InvalidPort, "invalid port number");
    assert_eq!(
        git_source_to_pin(git_source("ignored"), Err(e.clone())),
        Err(ImportError::InvalidGitRepositoryUrl(e.clone()))
    );
    let pin = git_source_to_pin(git_source("ignored"), Ok("git://host/x".to_string())).unwrap();
    match pin {
        Pin::Git { input, .. } => assert_eq!(input.repository, Repository::Git { url: "git://host/x".to_string() }),
        other => panic!("unexpected pin {other:?}"),
    }
    assert_eq!(
        github_source_to_pin(github_source(FetchType::Tarball), Some(Err(e.clone()))),
        Err(ImportError::InvalidTarballUrl(e.clone()))
    );
    assert_eq!(
        tarball_source_to_pin(tarball_source("x", None), Ok("u".to_string()), Some(Err(e.clone()))),
        Err(ImportError::InvalidTarballOriginUrl(e.clone()))
    );
    assert_eq!(
        tarball_source_to_pin(tarball_source("x", None), Err(e.clone()), Some(Ok("o".to_string()))),
        Err(ImportError::InvalidTarballUrl(e))
    );
}

#[test]
fn niv_github_entry() {
    let niv = NivPin::Git(NivGitPin {
        branch: "master".to_string(),
        repo: "niv".to_string(),
        owner: Some("nmattia".to_string()),
    });
    assert_eq!(
        Pin::try_from_niv(niv).unwrap(),
        Pin::Git {
            input: GitPin {
                repository: Repository::GitHub { owner: "nmattia".to_string(), repo: "niv".to_string() },
                branch: "master".to_string(),
                submodules: false,
            },
            version: None,
            hashes: None,
            frozen: Frozen(false),
        }
    );
}

#[test]
fn niv_git_entry() {
    let niv = NivPin::Git(NivGitPin {
        branch: "main".to_string(),
        repo: "https://git.example.org/repo.git".to_string(),
        owner: None,
    });
    assert_eq!(
        Pin::try_from_niv(niv).unwrap(),
        Pin::from(GitPin::new(Repository::git("https://git.example.org/repo.git".to_string()), "main".to_string(), false))
    );
}

#[test]
fn niv_git_entry_bad_repository() {
    let niv = NivPin::Git(NivGitPin { branch: "main".to_string(), repo: "repo.git".to_string(), owner: None });
    assert_eq!(
        Pin::try_from_niv(niv),
        Err(ImportError::Url(url_error(UrlErrorKind::RelativeUrlWithoutBase, "relative URL without a base")))
    );
}

#[test]
fn niv_url_entries() {
    let tarball = NivPin::Url(NivUrlPin { kind: "tarball".to_string(), url: "https://example.org/x.tar.gz".to_string() });
    assert_eq!(
        Pin::try_from_niv(tarball).unwrap(),
        Pin::Url {
            input: UrlPin { url: "https://example.org/x.tar.gz".to_string(), unpack: true },
            version: None,
            hashes: None,
            frozen: Frozen(false),
        }
    );
    let file = NivPin::Url(NivUrlPin { kind: "file".to_string(), url: "https://example.org/x.txt".to_string() });
    match Pin::try_from_niv(file).unwrap() {
        Pin::Url { input, .. } => assert!(!input.unpack),
        other => panic!("unexpected pin {other:?}"),
    }
    let bad = NivPin::Url(NivUrlPin { kind: "tarball".to_string(), url: "x.tar.gz".to_string() });
    assert_eq!(
        Pin::try_from_niv(bad),
        Err(ImportError::InvalidUrl(url_error(UrlErrorKind::RelativeUrlWithoutBase, "relative URL without a base")))
    );
}

#[test]
fn niv_function_on_given_parse_result() {
    let niv = NivPin::Url(NivUrlPin { kind: "tarball".to_string(), url: "ignored".to_string() });
    assert_eq!(
        niv_to_pin(niv.clone(), Ok("https://parsed/".to_string())).unwrap(),
        Pin::from(UrlPin { url: "https://parsed/".to_string(), unpack: true })
    );
    let e = url_error(UrlErrorKind::Other, "empty host");
    assert_eq!(niv_to_pin(niv, Err(e.clone())), Err(ImportError::InvalidUrl(e)));
}

#[test]
fn git_revision_must_be_a_commit_hash() {
    assert_eq!(GitRevision::new(REV.to_string()), Ok(GitRevision { revision: REV.to_string() }));
    let upper = "0123456789ABCDEF0123456789ABCDEF01234567";
    assert!(GitRevision::new(upper.to_string()).is_ok());
    assert_eq!(GitRevision::new("main".to_string()), Err("main".to_string()));
    assert_eq!(GitRevision::new(REV[..39].to_string()), Err(REV[..39].to_string()));
    let bad = "g123456789abcdef0123456789abcdef01234567";
    assert_eq!(GitRevision::new(bad.to_string()), Err(bad.to_string()));
}

#[test]
fn lon_bad_revision_rejected() {
    let mut src = git_source("https://example.org/repo.git");
    src.revision = "not a commit hash".to_string();
    assert_eq!(
        Pin::try_from_lon(Source::Git(src.clone())),
        Err(ImportError::InvalidGitRevision("not a commit hash".to_string()))
    );
    // for git sources the URL is looked at first
    src.url = "repo.git".to_string();
    assert!(matches!(Pin::try_from_lon(Source::Git(src)), Err(ImportError::InvalidGitRepositoryUrl(_))));

    let mut gh = github_source(FetchType::Tarball);
    gh.revision = "v1.0".to_string();
    assert_eq!(
        Pin::try_from_lon(Source::GitHub(gh.clone())),
        Err(ImportError::InvalidGitRevision("v1.0".to_string()))
    );
    // for GitHub sources the revision is looked at before the tarball URL
    gh.url = "http://[::1".to_string();
    assert_eq!(
        Pin::try_from_lon(Source::GitHub(gh)),
        Err(ImportError::InvalidGitRevision("v1.0".to_string()))
    );
}
