use npins::nix::{
    container_image_digest_command, image_digest_from_output, nix_eval_pin_command,
    nix_prefetch_docker_command, nix_prefetch_git_command, nix_prefetch_url_command, DigestError,
    eval_pin_path_from_decoded, eval_pin_path_from_output, prefetch_url_digest, EvalPinError,
};

fn strs(v: &[String]) -> Vec<&str> {
    v.iter().map(String::as_str).collect()
}

#[test]
fn prefetch_url_arguments() {
    let c = nix_prefetch_url_command("https://example.org/a.tar.gz", true);
    assert_eq!(c.program, "nix-prefetch-url");
    assert_eq!(
        strs(&c.args),
        vec!["--unpack", "--name", "source", "--type", "sha256", "https://example.org/a.tar.gz"]
    );
    assert!(c.envs.is_empty());
    let c = nix_prefetch_url_command("https://example.org/a.txt", false);
    assert_eq!(strs(&c.args), vec!["--name", "source", "--type", "sha256", "https://example.org/a.txt"]);
}

#[test]
fn prefetch_git_arguments() {
    let c = nix_prefetch_git_command("https://example.org/r.git", "refs/heads/main", true);
    assert_eq!(c.program, "nix-prefetch-git");
    assert_eq!(
        strs(&c.args),
        vec!["--fetch-submodules", "--hash", "sha256", "https://example.org/r.git", "refs/heads/main"]
    );
    assert_eq!(
        c.envs,
        vec![
            ("GIT_TERMINAL_PROMPT".to_string(), "0".to_string()),
            ("GIT_SSH_COMMAND".to_string(), "ssh -o StrictHostKeyChecking=yes".to_string()),
        ]
    );
    let c = nix_prefetch_git_command("u", "r", false);
    assert_eq!(strs(&c.args), vec!["--hash", "sha256", "u", "r"]);
}

#[test]
fn prefetch_docker_arguments() {
    let c = nix_prefetch_docker_command("alpine", "3.20", &Some("arm64".to_string()), Some("sha256:abc"));
    assert_eq!(c.program, "nix-prefetch-docker");
    assert_eq!(
        strs(&c.args),
        vec!["alpine", "3.20", "--json", "--quiet", "--image-digest", "sha256:abc", "--arch", "arm64"]
    );
    let c = nix_prefetch_docker_command("alpine", "latest", &None, None);
    assert_eq!(strs(&c.args), vec!["alpine", "latest", "--json", "--quiet"]);
}

#[test]
fn image_digest_arguments() {
    let c = container_image_digest_command("alpine", "3.20", Some("amd64"));
    assert_eq!(c.program, "skopeo");
    assert_eq!(
        strs(&c.args),
        vec!["--insecure-policy", "--override-arch", "amd64", "inspect", "--format", "{{.Digest}}", "docker://alpine:3.20"]
    );
    let c = container_image_digest_command("ghcr.io/a/b", "v1", None);
    assert_eq!(
        strs(&c.args),
        vec!["--insecure-policy", "inspect", "--format", "{{.Digest}}", "docker://ghcr.io/a/b:v1"]
    );
}

#[test]
fn image_digest_output() {
    assert_eq!(image_digest_from_output(true, b"sha256:abc\n"), Ok("sha256:abc".to_string()));
    assert_eq!(image_digest_from_output(true, " \u{3000}sha256:abc\u{a0}\u{85}\r\n".as_bytes()), Ok("sha256:abc".to_string()));
    assert_eq!(image_digest_from_output(true, b" \n\t"), Err(DigestError::Empty));
    assert_eq!(image_digest_from_output(true, b""), Err(DigestError::Empty));
    assert_eq!(image_digest_from_output(true, &[0xff, 0x61]), Err(DigestError::InvalidUtf8));
    assert_eq!(image_digest_from_output(false, b"sha256:abc\n"), Err(DigestError::Failed));
}

#[test]
fn prefetch_url_output() {
    assert_eq!(
        prefetch_url_digest(true, b"0mdqa9w1p6cmli6976v4wi0sw9r4p5prkj7lzfd1877wk11c9c73\n"),
        Some(b"0mdqa9w1p6cmli6976v4wi0sw9r4p5prkj7lzfd1877wk11c9c73".to_vec())
    );
    assert_eq!(prefetch_url_digest(false, b"abc\n"), None);
}

#[test]
fn eval_pin_output() {
    assert_eq!(
        eval_pin_path_from_output(true, b"\"/nix/store/abc-source\"\n"),
        Ok("/nix/store/abc-source".to_string())
    );
    assert_eq!(
        eval_pin_path_from_output(true, b"\"a\\\"b\""),
        Ok("a\"b".to_string())
    );
    assert_eq!(eval_pin_path_from_output(true, b"/nix/store/abc"), Err(EvalPinError::NotJson));
    assert_eq!(eval_pin_path_from_output(true, b"42"), Err(EvalPinError::NotJson));
    assert_eq!(eval_pin_path_from_output(false, b"\"/nix/store/abc\""), Err(EvalPinError::Failed));
    assert_eq!(eval_pin_path_from_decoded(true, Some("p".to_string())), Ok("p".to_string()));
    assert_eq!(eval_pin_path_from_decoded(true, None), Err(EvalPinError::NotJson));
    assert_eq!(eval_pin_path_from_decoded(false, Some("p".to_string())), Err(EvalPinError::Failed));
}

#[test]
fn eval_pin_code_ignores_pin_name() {
    let a = nix_eval_pin_command("D", "/a/sources.json", "nixpkgs");
    let b = nix_eval_pin_command("D", "/b/sources.json", "\"; builtins.abort \"x");
    assert_eq!(a.args.len(), b.args.len());
    for i in 0..a.args.len() {
        if i != 7 && i != 10 {
            assert_eq!(a.args[i], b.args[i]);
        }
    }
    assert_eq!(b.args[7], "\"; builtins.abort \"x");
}

#[test]
fn eval_pin_arguments() {
    let c = nix_eval_pin_command("DEFAULT", "/home/u/npins/sources.json", "nixpkgs");
    assert_eq!(c.program, "nix-instantiate");
    assert_eq!(
        strs(&c.args),
        vec![
            "--show-trace",
            "--eval",
            "--json",
            "--expr",
            "{pin, path}: ((DEFAULT) { input = /. + path; }).${pin}.outPath",
            "--argstr",
            "pin",
            "nixpkgs",
            "--argstr",
            "path",
            "/home/u/npins/sources.json",
        ]
    );
}
