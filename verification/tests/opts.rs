use npins::opts::{
    complete_frozen, complete_pin, complete_pins, default_gitlab_server, parse_git_remote_url,
    repo_path_is_valid, GitForgeOpts, SourceMode, DEFAULT_DIRECTORY, DEFAULT_FLAKE_LOCK, DEFAULT_NIV_SOURCES, DEFAULT_MAX_CONCURRENT_DOWNLOADS,
    INVALID_PORT_HINT, MISSING_SCHEME_HINT, NIXPKGS_ARTIFACT,
};
use npins::pin::{Frozen, GitPin, Pin, Repository, UrlPin};
use npins::pins::NixPins;

fn names(c: &[(String, Option<String>)]) -> Vec<&str> {
    for (_, description) in c {
        assert_eq!(*description, None);
    }
    c.iter().map(|(n, _)| n.as_str()).collect()
}

fn git_pin(name: &str, frozen: bool) -> Pin {
    Pin::Git {
        input: GitPin::new(Repository::github("owner", name), "main".to_string(), false),
        version: None,
        hashes: None,
        frozen: Frozen(frozen),
    }
}

fn sample_pins() -> NixPins {
    let mut pins = NixPins::new();
    pins.insert("lix".to_string(), git_pin("lix", false));
    pins.insert("lix-module".to_string(), git_pin("lix-module", true));
    pins.insert("nixpkgs".to_string(), Pin::from(UrlPin { url: "https://example.org/".to_string(), unpack: true }));
    pins.insert("home-manager".to_string(), git_pin("home-manager", true));
    pins
}

#[test]
fn directory_mode_paths() {
    let mode = SourceMode::from_directory(DEFAULT_DIRECTORY.to_string());
    assert_eq!(
        mode,
        SourceMode::Directory {
            sources: "npins/sources.json".to_string(),
            default_nix: "npins/default.nix".to_string(),
            directory: "npins".to_string(),
        }
    );
    assert_eq!(mode.lockfile(), "npins/sources.json");
}

#[test]
fn directory_mode_with_trailing_separator() {
    let mode = SourceMode::from_directory("deps/".to_string());
    assert_eq!(mode.lockfile(), "deps/sources.json");
}

#[test]
fn directory_mode_joins() {
    assert_eq!(SourceMode::from_directory("".to_string()).lockfile(), "sources.json");
    assert_eq!(SourceMode::from_directory("/srv/pins".to_string()).lockfile(), "/srv/pins/sources.json");
}

#[test]
fn lockfile_mode_path() {
    let mode = SourceMode::Lockfile("pins.json".to_string());
    assert_eq!(mode.lockfile(), "pins.json");
}

#[test]
fn defaults() {
    assert_eq!(DEFAULT_MAX_CONCURRENT_DOWNLOADS, 5);
    assert_eq!(DEFAULT_NIV_SOURCES, "nix/sources.json");
    assert_eq!(DEFAULT_FLAKE_LOCK, "flake.lock");
    assert_eq!(NIXPKGS_ARTIFACT, "nixexprs.tar.xz");
    assert_eq!(GitForgeOpts::default(), GitForgeOpts::Auto);
    assert_eq!(GitForgeOpts::default().as_str(), "auto");
}

#[test]
fn forge_names_round_trip() {
    for forge in [
        GitForgeOpts::Generic,
        GitForgeOpts::Auto,
        GitForgeOpts::Gitlab,
        GitForgeOpts::Github,
        GitForgeOpts::Forgejo,
    ] {
        assert_eq!(GitForgeOpts::from_name(forge.as_str()), Ok(forge));
    }
    assert_eq!(GitForgeOpts::from_name("none"), Ok(GitForgeOpts::Generic));
    assert_eq!(GitForgeOpts::from_name("forgejo"), Ok(GitForgeOpts::Forgejo));
}

#[test]
fn forge_name_rejected() {
    assert_eq!(
        GitForgeOpts::from_name("gitea"),
        Err("invalid value 'gitea' for forge".to_string())
    );
    assert_eq!(
        GitForgeOpts::from_name("GitHub"),
        Err("invalid value 'GitHub' for forge".to_string())
    );
    assert_eq!(GitForgeOpts::from_name(""), Err("invalid value '' for forge".to_string()));
}

#[test]
fn git_remote_url_accepted() {
    assert_eq!(
        parse_git_remote_url("https://github.com/andir/ate.git"),
        Ok("https://github.com/andir/ate.git".to_string())
    );
    assert_eq!(
        parse_git_remote_url("HTTPS://Example.COM"),
        Ok("https://example.com/".to_string())
    );
}

#[test]
fn git_remote_url_without_scheme() {
    assert_eq!(
        parse_git_remote_url("github.com/andir/ate.git"),
        Err(MISSING_SCHEME_HINT.to_string())
    );
}

#[test]
fn git_remote_url_with_bad_port() {
    assert_eq!(
        parse_git_remote_url("git+ssh://git@gitlab-instance.net:user/repo.git"),
        Err(INVALID_PORT_HINT.to_string())
    );
}

#[test]
fn git_remote_url_other_error() {
    assert_eq!(
        parse_git_remote_url("http://[::1"),
        Err("invalid IPv6 address".to_string())
    );
}

#[test]
fn gitlab_default_server() {
    assert_eq!(default_gitlab_server(), Ok("https://gitlab.com/".to_string()));
}

#[test]
fn gitlab_repo_path_needs_two_segments() {
    assert!(!repo_path_is_valid(&vec![]));
    assert!(!repo_path_is_valid(&vec!["owner".to_string()]));
    assert!(repo_path_is_valid(&vec!["owner".to_string(), "repo".to_string()]));
    assert!(repo_path_is_valid(&vec!["group".to_string(), "sub".to_string(), "repo".to_string()]));
}

#[test]
fn complete_single_pin() {
    let pins = sample_pins();
    assert_eq!(names(&complete_pin(Some(&pins), &"lix".to_string())), vec!["lix", "lix-module"]);
    assert_eq!(names(&complete_pin(Some(&pins), &"".to_string())), vec!["home-manager", "lix", "lix-module", "nixpkgs"]);
    assert_eq!(names(&complete_pin(Some(&pins), &"z".to_string())), Vec::<&str>::new());
    assert!(complete_pin(None, &"lix".to_string()).is_empty());
}

#[test]
fn complete_many_pins_keeps_exact_match() {
    let pins = sample_pins();
    let v = vec!["lix".to_string()];
    assert_eq!(names(&complete_pins(Some(&pins), &v)), vec!["lix", "lix-module"]);
}

#[test]
fn complete_many_pins_skips_given_names() {
    let pins = sample_pins();
    let v = vec!["lix".to_string(), "li".to_string()];
    assert_eq!(names(&complete_pins(Some(&pins), &v)), vec!["lix-module"]);
    let v = vec!["nixpkgs".to_string(), "lix".to_string(), "".to_string()];
    assert_eq!(names(&complete_pins(Some(&pins), &v)), vec!["home-manager", "lix-module"]);
}

#[test]
fn complete_many_pins_from_nothing() {
    let pins = sample_pins();
    assert_eq!(names(&complete_pins(Some(&pins), &vec![])), vec!["home-manager", "lix", "lix-module", "nixpkgs"]);
    assert!(complete_pins(None, &vec![]).is_empty());
}

#[test]
fn complete_frozen_and_thawed() {
    let pins = sample_pins();
    let v = vec!["".to_string()];
    assert_eq!(names(&complete_frozen(Some(&pins), true, &v)), vec!["home-manager", "lix-module"]);
    assert_eq!(names(&complete_frozen(Some(&pins), false, &v)), vec!["lix", "nixpkgs"]);
    let v = vec!["lix-module".to_string(), "l".to_string()];
    assert_eq!(names(&complete_frozen(Some(&pins), true, &v)), Vec::<&str>::new());
    assert_eq!(names(&complete_frozen(Some(&pins), false, &v)), vec!["lix"]);
    assert!(complete_frozen(None, true, &v).is_empty());
}

#[test]
fn frozen_partition_on_sample() {
    let pins = sample_pins();
    for word in ["", "l", "lix", "n", "h", "x"] {
        let v = vec![word.to_string()];
        let all = names(&complete_pins(Some(&pins), &v)).into_iter().map(String::from).collect::<Vec<_>>();
        let frozen = complete_frozen(Some(&pins), true, &v);
        let thawed = complete_frozen(Some(&pins), false, &v);
        let mut both: Vec<String> = frozen.iter().chain(thawed.iter()).map(|(n, _)| n.clone()).collect();
        both.sort();
        let mut sorted_all = all.clone();
        sorted_all.sort();
        assert_eq!(both, sorted_all);
        for word in &all {
            assert!(word.starts_with(&v[0]));
        }
    }
}

#[test]
fn pins_insert_replaces_in_place() {
    let mut pins = sample_pins();
    assert_eq!(pins.len(), 4);
    pins.insert("lix".to_string(), git_pin("lix", true));
    assert_eq!(pins.len(), 4);
    let (name, pin) = pins.entry(1);
    assert_eq!(name, "lix");
    assert!(pin.is_frozen());
    assert_eq!(names(&complete_frozen(Some(&pins), true, &vec!["lix".to_string()])), vec!["lix", "lix-module"]);
}

#[test]
fn pins_kept_in_name_order() {
    let mut pins = NixPins::new();
    for name in ["zz", "a", "é", "Z", "ab", "", "a"] {
        pins.insert(name.to_string(), git_pin(name, false));
    }
    pins.names_are_sorted();
    let listed: Vec<String> = (0..pins.len()).map(|i| pins.entry(i).0.clone()).collect();
    let mut expected: Vec<String> = ["zz", "a", "é", "Z", "ab", ""].iter().map(|s| s.to_string()).collect();
    expected.sort();
    assert_eq!(listed, expected);
}
