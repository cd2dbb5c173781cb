//! The Nix helper programs that npins runs: the command line of each run and
//! what is made of its output.

use vstd::prelude::*;
use vstd::string::*;
use vstd::utf8::*;

use crate::text::{law_trim_line_end, trim, trim_ascii_end, trim_ascii_end_spec, trim_spec, utf8_decode};

verus! {

#[allow(unused)]
pub struct PrefetchInfo {
    store_path: String,
    hash: String,
}

/// What `nix-prefetch-docker --json` reports about an image.
#[derive(Debug, Clone, PartialEq, Eq)]
pub struct NixPrefetchDockerResponse {
    pub hash: String,
    pub image_name: String,
    pub image_digest: String,
    pub final_image_name: String,
    pub final_image_tag: String,
}

/// A program to run: its name, its arguments and the environment variables
/// that are set for it.
#[derive(Debug, Clone, PartialEq, Eq)]
pub struct CommandLine {
    pub program: String,
    pub args: Vec<String>,
    pub envs: Vec<(String, String)>,
}

pub struct CommandLineView {
    pub program: Seq<char>,
    pub args: Seq<Seq<char>>,
    pub envs: Seq<(Seq<char>, Seq<char>)>,
}

impl View for CommandLine {
    type V = CommandLineView;

    open spec fn view(&self) -> CommandLineView {
        CommandLineView {
            program: self.program@,
            args: self.args.deep_view(),
            envs: self.envs.deep_view(),
        }
    }
}

fn push_arg(args: &mut Vec<String>, a: &str)
    ensures
        final(args).deep_view() == old(args).deep_view().push(a@),
{
    let ghost before = args.deep_view();
    args.push(String::from_str(a));
    assert(args.deep_view() =~= before.push(a@));
}

fn push_env(envs: &mut Vec<(String, String)>, key: &str, value: &str)
    ensures
        final(envs).deep_view() == old(envs).deep_view().push((key@, value@)),
{
    let ghost before = envs.deep_view();
    let k = String::from_str(key);
    let v = String::from_str(value);
    envs.push((k, v));
    assert(envs.deep_view()[before.len() as int] == (key@, value@));
    assert(envs.deep_view() =~= before.push((key@, value@)));
}

fn no_args() -> (r: Vec<String>)
    ensures
        r.deep_view() == Seq::<Seq<char>>::empty(),
{
    let r: Vec<String> = Vec::new();
    assert(r.deep_view() =~= Seq::<Seq<char>>::empty());
    r
}

fn no_envs() -> (r: Vec<(String, String)>)
    ensures
        r.deep_view() == Seq::<(Seq<char>, Seq<char>)>::empty(),
{
    let r: Vec<(String, String)> = Vec::new();
    assert(r.deep_view() =~= Seq::<(Seq<char>, Seq<char>)>::empty());
    r
}

/// `flag` when `on`, nothing otherwise.
pub open spec fn flag_if(on: bool, flag: Seq<char>) -> Seq<Seq<char>> {
    if on {
        seq![flag]
    } else {
        Seq::empty()
    }
}

/// `option value` when there is a value, nothing otherwise.
pub open spec fn option_if(option: Seq<char>, value: Option<Seq<char>>) -> Seq<Seq<char>> {
    match value {
        Some(v) => seq![option, v],
        None => Seq::empty(),
    }
}

/// The arguments of `nix-prefetch-url` for `url`. `--unpack` asks for the
/// hash of the unpacked archive; the store name `source` is the one that
/// `builtins.fetchTarball` uses, so the download is not repeated.
pub open spec fn prefetch_url_args(url: Seq<char>, unpack: bool) -> Seq<Seq<char>> {
    flag_if(unpack, "--unpack"@) + seq!["--name"@, "source"@, "--type"@, "sha256"@, url]
}

/// How `nix-prefetch-url` is run for `url`.
pub fn nix_prefetch_url_command(url: &str, unpack: bool) -> (r: CommandLine)
    ensures
        r@.program == "nix-prefetch-url"@,
        r@.args == prefetch_url_args(url@, unpack),
        r@.envs == Seq::<(Seq<char>, Seq<char>)>::empty(),
{
    let mut args = no_args();
    if unpack {
        push_arg(&mut args, "--unpack");
    }
    push_arg(&mut args, "--name");
    push_arg(&mut args, "source");
    push_arg(&mut args, "--type");
    push_arg(&mut args, "sha256");
    push_arg(&mut args, url);
    assert(args.deep_view() =~= prefetch_url_args(url@, unpack));
    CommandLine { program: String::from_str("nix-prefetch-url"), args, envs: no_envs() }
}

/// The arguments of `nix-prefetch-git` for a reference of a repository.
pub open spec fn prefetch_git_args(url: Seq<char>, git_ref: Seq<char>, submodules: bool) -> Seq<
    Seq<char>,
> {
    flag_if(submodules, "--fetch-submodules"@) + seq!["--hash"@, "sha256"@, url, git_ref]
}

/// The environment of `nix-prefetch-git`: no interactive login attempts, and
/// no SSH connection to a host whose key is not known.
pub open spec fn prefetch_git_envs() -> Seq<(Seq<char>, Seq<char>)> {
    seq![
        ("GIT_TERMINAL_PROMPT"@, "0"@),
        ("GIT_SSH_COMMAND"@, "ssh -o StrictHostKeyChecking=yes"@),
    ]
}

/// How `nix-prefetch-git` is run for a reference of a repository.
pub fn nix_prefetch_git_command(url: &str, git_ref: &str, submodules: bool) -> (r: CommandLine)
    ensures
        r@.program == "nix-prefetch-git"@,
        r@.args == prefetch_git_args(url@, git_ref@, submodules),
        r@.envs == prefetch_git_envs(),
{
    let mut args = no_args();
    if submodules {
        push_arg(&mut args, "--fetch-submodules");
    }
    push_arg(&mut args, "--hash");
    push_arg(&mut args, "sha256");
    push_arg(&mut args, url);
    push_arg(&mut args, git_ref);
    assert(args.deep_view() =~= prefetch_git_args(url@, git_ref@, submodules));
    let mut envs = no_envs();
    push_env(&mut envs, "GIT_TERMINAL_PROMPT", "0");
    push_env(&mut envs, "GIT_SSH_COMMAND", "ssh -o StrictHostKeyChecking=yes");
    assert(envs.deep_view() =~= prefetch_git_envs());
    CommandLine { program: String::from_str("nix-prefetch-git"), args, envs }
}

/// The arguments of `nix-prefetch-docker` for an image.
pub open spec fn prefetch_docker_args(
    image_name: Seq<char>,
    image_tag: Seq<char>,
    arch: Option<Seq<char>>,
    image_digest: Option<Seq<char>>,
) -> Seq<Seq<char>> {
    seq![image_name, image_tag, "--json"@, "--quiet"@] + option_if("--image-digest"@, image_digest)
        + option_if("--arch"@, arch)
}

/// `nix-prefetch-url` asks for the unpacked hash (`--unpack` first) exactly
/// when `unpack` is set, always names the store path `source` and the hash
/// type `sha256`, and gets the URL last.
pub proof fn law_prefetch_url_options(url: Seq<char>, unpack: bool)
    ensures
        ({
            let args = prefetch_url_args(url, unpack);
            let k: int = if unpack { 1 } else { 0 };
            &&& args.len() == 5 + k
            &&& unpack ==> args[0] == "--unpack"@
            &&& args[k] == "--name"@ && args[k + 1] == "source"@
            &&& args[k + 2] == "--type"@ && args[k + 3] == "sha256"@
            &&& args[k + 4] == url
        }),
{
}

/// `nix-prefetch-git` fetches submodules (`--fetch-submodules` first) exactly
/// when asked, always hashes with sha256, and gets the URL and then the
/// reference last.
pub proof fn law_prefetch_git_options(url: Seq<char>, git_ref: Seq<char>, submodules: bool)
    ensures
        ({
            let args = prefetch_git_args(url, git_ref, submodules);
            let k: int = if submodules { 1 } else { 0 };
            &&& args.len() == 4 + k
            &&& submodules ==> args[0] == "--fetch-submodules"@
            &&& args[k] == "--hash"@ && args[k + 1] == "sha256"@
            &&& args[k + 2] == url && args[k + 3] == git_ref
        }),
{
}

/// `skopeo` is asked for `docker://name:tag` last, after `inspect --format
/// {{.Digest}}`, with `--override-arch a` after `--insecure-policy` exactly
/// when an architecture `a` is given.
pub proof fn law_image_digest_options(image_name: Seq<char>, image_tag: Seq<char>, arch: Option<Seq<char>>)
    ensures
        ({
            let args = image_digest_args(image_name, image_tag, arch);
            let k: int = if arch is Some { 2 } else { 0 };
            &&& args.len() == 5 + k
            &&& args[0] == "--insecure-policy"@
            &&& arch matches Some(a) ==> args[1] == "--override-arch"@ && args[2] == a
            &&& args[1 + k] == "inspect"@ && args[2 + k] == "--format"@
            &&& args[3 + k] == "{{.Digest}}"@
            &&& args[4 + k] == "docker://"@ + image_name + ":"@ + image_tag
        }),
{
}

/// `nix-prefetch-docker` gets the image name and tag, then `--json --quiet`,
/// then `--image-digest d` exactly when a digest `d` is given (whether or not
/// an architecture is), then `--arch a` exactly when an architecture `a` is
/// given.
pub proof fn law_prefetch_docker_options(
    image_name: Seq<char>,
    image_tag: Seq<char>,
    arch: Option<Seq<char>>,
    image_digest: Option<Seq<char>>,
)
    ensures
        ({
            let args = prefetch_docker_args(image_name, image_tag, arch, image_digest);
            let n_digest: int = if image_digest is Some { 2 } else { 0 };
            let n_arch: int = if arch is Some { 2 } else { 0 };
            &&& args.len() == 4 + n_digest + n_arch
            &&& args[0] == image_name && args[1] == image_tag
            &&& args[2] == "--json"@ && args[3] == "--quiet"@
            &&& image_digest matches Some(d) ==> args[4] == "--image-digest"@ && args[5] == d
            &&& arch matches Some(a) ==> args[4 + n_digest] == "--arch"@ && args[5 + n_digest] == a
        }),
{
}

/// How `nix-prefetch-docker` is run for an image.
pub fn nix_prefetch_docker_command(
    image_name: &str,
    image_tag: &str,
    arch: &Option<String>,
    image_digest: Option<&str>,
) -> (r: CommandLine)
    ensures
        r@.program == "nix-prefetch-docker"@,
        r@.args == prefetch_docker_args(
            image_name@,
            image_tag@,
            arch.deep_view(),
            match image_digest {
                Some(d) => Some(d@),
                None => None,
            },
        ),
        r@.envs == Seq::<(Seq<char>, Seq<char>)>::empty(),
{
    let mut args = no_args();
    push_arg(&mut args, image_name);
    push_arg(&mut args, image_tag);
    push_arg(&mut args, "--json");
    push_arg(&mut args, "--quiet");
    let ghost head = args.deep_view();
    if let Some(value) = image_digest {
        push_arg(&mut args, "--image-digest");
        push_arg(&mut args, value);
    }
    let ghost with_digest = args.deep_view();
    if let Some(value) = arch {
        push_arg(&mut args, "--arch");
        push_arg(&mut args, value.as_str());
    }
    proof {
        let digest_view = match image_digest {
            Some(d) => Some(d@),
            None => None,
        };
        assert(with_digest =~= head + option_if("--image-digest"@, digest_view));
        assert(args.deep_view() =~= with_digest + option_if("--arch"@, arch.deep_view()));
        assert(args.deep_view() =~= prefetch_docker_args(
            image_name@,
            image_tag@,
            arch.deep_view(),
            digest_view,
        ));
    }
    CommandLine { program: String::from_str("nix-prefetch-docker"), args, envs: no_envs() }
}

/// The image reference that `skopeo` inspects.
pub open spec fn docker_reference(image_name: Seq<char>, image_tag: Seq<char>) -> Seq<char> {
    "docker://"@ + image_name + ":"@ + image_tag
}

/// The arguments of `skopeo` that ask for the digest of an image.
pub open spec fn image_digest_args(image_name: Seq<char>, image_tag: Seq<char>, arch: Option<Seq<char>>) -> Seq<
    Seq<char>,
> {
    seq!["--insecure-policy"@] + option_if("--override-arch"@, arch) + seq![
        "inspect"@,
        "--format"@,
        "{{.Digest}}"@,
        docker_reference(image_name, image_tag),
    ]
}

/// How `skopeo` is run to learn the digest of an image without downloading it.
pub fn container_image_digest_command(image_name: &str, image_tag: &str, arch: Option<&str>) -> (r:
    CommandLine)
    ensures
        r@.program == "skopeo"@,
        r@.args == image_digest_args(
            image_name@,
            image_tag@,
            match arch {
                Some(a) => Some(a@),
                None => None,
            },
        ),
        r@.envs == Seq::<(Seq<char>, Seq<char>)>::empty(),
{
    let mut args = no_args();
    push_arg(&mut args, "--insecure-policy");
    let ghost head = args.deep_view();
    if let Some(a) = arch {
        push_arg(&mut args, "--override-arch");
        push_arg(&mut args, a);
    }
    let ghost with_arch = args.deep_view();
    push_arg(&mut args, "inspect");
    push_arg(&mut args, "--format");
    push_arg(&mut args, "{{.Digest}}");
    let mut reference = String::from_str("docker://");
    reference.append(image_name);
    reference.append(":");
    reference.append(image_tag);
    push_arg(&mut args, reference.as_str());
    proof {
        let arch_view = match arch {
            Some(a) => Some(a@),
            None => None,
        };
        assert(with_arch =~= head + option_if("--override-arch"@, arch_view));
        assert(args.deep_view() =~= image_digest_args(image_name@, image_tag@, arch_view));
    }
    CommandLine { program: String::from_str("skopeo"), args, envs: no_envs() }
}

/// Why the output of `skopeo` holds no digest.
#[derive(Debug, Clone, Copy, PartialEq, Eq)]
pub enum DigestError {
    /// `skopeo` did not succeed ("failed to inspect container image").
    Failed,
    /// The output is not UTF-8 ("skopeo sent invalid utf8").
    InvalidUtf8,
    /// The output is blank ("skopeo returned an empty digest").
    Empty,
}

/// The digest that `skopeo` printed, when it succeeded: its output without
/// surrounding whitespace, which must not be empty.
pub fn image_digest_from_output(success: bool, stdout: &[u8]) -> (r: Result<String, DigestError>)
    ensures
        !success ==> r == Err::<String, DigestError>(DigestError::Failed),
        success && !valid_utf8(stdout@) ==> r == Err::<String, DigestError>(DigestError::InvalidUtf8),
        success && valid_utf8(stdout@) && trim_spec(decode_utf8(stdout@)).len() == 0 ==> r == Err::<
            String,
            DigestError,
        >(DigestError::Empty),
        success && valid_utf8(stdout@) && trim_spec(decode_utf8(stdout@)).len() > 0 ==> (r matches Ok(
            d,
        ) && d@ == trim_spec(decode_utf8(stdout@))),
{
    if !success {
        return Err(DigestError::Failed);
    }
    let text = match utf8_decode(stdout) {
        Some(t) => t,
        None => {
            return Err(DigestError::InvalidUtf8);
        },
    };
    let digest = trim(text.as_str());
    if digest.as_str().is_empty() {
        return Err(DigestError::Empty);
    }
    Ok(digest)
}

/// The hash text that `nix-prefetch-url` printed, when it succeeded: its
/// output without the trailing newline (and any other trailing ASCII
/// whitespace). `None` when the program failed.
pub fn prefetch_url_digest(success: bool, stdout: &[u8]) -> (r: Option<Vec<u8>>)
    ensures
        !success ==> r is None,
        success ==> (r matches Some(d) && d@ == trim_ascii_end_spec(stdout@)),
        success && stdout@.len() > 1 && stdout@.last() == 0x0Au8 && !({
            let b = stdout@[stdout@.len() - 2];
            b == 0x20u8 || b == 0x09u8 || b == 0x0Au8 || b == 0x0Cu8 || b == 0x0Du8
        }) ==> (r matches Some(d) && d@ == stdout@.drop_last()),
{
    if !success {
        return None;
    }
    proof {
        if stdout@.len() > 1 && stdout@.last() == 0x0Au8 {
            let h = stdout@.drop_last();
            assert(h.push(0x0Au8) =~= stdout@);
            if !(h.last() == 0x20u8 || h.last() == 0x09u8 || h.last() == 0x0Au8 || h.last() == 0x0Cu8
                || h.last() == 0x0Du8) {
                law_trim_line_end(h);
            }
        }
    }
    Some(trim_ascii_end(stdout))
}

/// What `serde_json::from_slice::<String>` makes of some bytes: the string
/// that a JSON string literal denotes, or `None` when the bytes are not one.
pub uninterp spec fn json_string(bytes: Seq<u8>) -> Option<Seq<char>>;

/// Calls `serde_json::from_slice::<String>`. Claims only that the outcome is a
/// function of the bytes, named by `json_string`.
#[verifier::external_body]
pub(crate) fn decode_json_string(bytes: &[u8]) -> (r: Option<String>)
    ensures
        r.deep_view() == json_string(bytes@),
{
    serde_json::from_slice::<String>(bytes).ok()
}

/// Why `nix-instantiate` gave no store path.
#[derive(Debug, Clone, Copy, PartialEq, Eq)]
pub enum EvalPinError {
    /// It did not succeed ("Failed to eval pin").
    Failed,
    /// Its output is not a JSON string ("Failed to deserialize nix-instantiate JSON response.").
    NotJson,
}

/// The store path that `nix-instantiate --json` printed, given whether it
/// succeeded and what it wrote, and the outcome of reading that as a JSON
/// string.
pub fn eval_pin_path_from_decoded(success: bool, decoded: Option<String>) -> (r: Result<String, EvalPinError>)
    ensures
        !success ==> r == Err::<String, EvalPinError>(EvalPinError::Failed),
        success ==> match decoded {
            Some(p) => r matches Ok(s) && s@ == p@,
            None => r == Err::<String, EvalPinError>(EvalPinError::NotJson),
        },
{
    if !success {
        return Err(EvalPinError::Failed);
    }
    match decoded {
        Some(p) => Ok(p),
        None => Err(EvalPinError::NotJson),
    }
}

/// The store path that `nix-instantiate --json` printed, when it succeeded.
pub fn eval_pin_path_from_output(success: bool, stdout: &[u8]) -> (r: Result<String, EvalPinError>)
    ensures
        !success ==> r == Err::<String, EvalPinError>(EvalPinError::Failed),
        success ==> match json_string(stdout@) {
            Some(p) => r matches Ok(s) && s@ == p,
            None => r == Err::<String, EvalPinError>(EvalPinError::NotJson),
        },
{
    if !success {
        return Err(EvalPinError::Failed);
    }
    eval_pin_path_from_decoded(success, decode_json_string(stdout))
}

/// The Nix expression that evaluates to the store path of a pin: the
/// `default.nix` of npins applied to the lock file at `path`, then `outPath`
/// of the attribute `pin`. Both are passed with `--argstr`, so neither is
/// ever spliced into Nix code.
pub open spec fn eval_pin_expression(default_nix: Seq<char>) -> Seq<char> {
    "{pin, path}: (("@ + default_nix + ") { input = /. + path; }).${pin}.outPath"@
}

/// The arguments of `nix-instantiate` that evaluate the store path of a pin.
pub open spec fn eval_pin_args(default_nix: Seq<char>, lockfile_path: Seq<char>, pin: Seq<char>) -> Seq<
    Seq<char>,
> {
    seq![
        "--show-trace"@,
        "--eval"@,
        "--json"@,
        "--expr"@,
        eval_pin_expression(default_nix),
        "--argstr"@,
        "pin"@,
        pin,
        "--argstr"@,
        "path"@,
        lockfile_path,
    ]
}

/// The evaluated Nix code depends on `default.nix` alone: two evaluations
/// with the same `default.nix` differ only in the argument after
/// `--argstr pin` (the pin) and the one after `--argstr path` (the lock
/// file), so no pin name can alter the code that Nix evaluates.
pub proof fn law_eval_pin_code_fixed(
    default_nix: Seq<char>,
    lockfile1: Seq<char>,
    pin1: Seq<char>,
    lockfile2: Seq<char>,
    pin2: Seq<char>,
)
    ensures
        eval_pin_args(default_nix, lockfile1, pin1).len() == eval_pin_args(default_nix, lockfile2, pin2).len(),
        forall|i: int|
            0 <= i < eval_pin_args(default_nix, lockfile1, pin1).len() && i != 7 && i != 10
                ==> #[trigger] eval_pin_args(default_nix, lockfile1, pin1)[i] == eval_pin_args(
                default_nix,
                lockfile2,
                pin2,
            )[i],
        eval_pin_args(default_nix, lockfile1, pin1)[3] == "--expr"@,
        eval_pin_args(default_nix, lockfile1, pin1)[4] == eval_pin_expression(default_nix),
        eval_pin_args(default_nix, lockfile1, pin1)[5] == "--argstr"@,
        eval_pin_args(default_nix, lockfile1, pin1)[6] == "pin"@,
        eval_pin_args(default_nix, lockfile1, pin1)[7] == pin1,
        eval_pin_args(default_nix, lockfile1, pin1)[8] == "--argstr"@,
        eval_pin_args(default_nix, lockfile1, pin1)[9] == "path"@,
        eval_pin_args(default_nix, lockfile1, pin1)[10] == lockfile1,
{
}

/// How `nix-instantiate` is run to evaluate the store path of a pin, given the
/// text of npins' `default.nix` and the absolute path of the lock file.
pub fn nix_eval_pin_command(default_nix: &str, lockfile_path: &str, pin: &str) -> (r: CommandLine)
    ensures
        r@.program == "nix-instantiate"@,
        r@.args == eval_pin_args(default_nix@, lockfile_path@, pin@),
        r@.envs == Seq::<(Seq<char>, Seq<char>)>::empty(),
{
    let mut expr = String::from_str("{pin, path}: ((");
    expr.append(default_nix);
    expr.append(") { input = /. + path; }).${pin}.outPath");
    let mut args = no_args();
    push_arg(&mut args, "--show-trace");
    push_arg(&mut args, "--eval");
    push_arg(&mut args, "--json");
    push_arg(&mut args, "--expr");
    push_arg(&mut args, expr.as_str());
    push_arg(&mut args, "--argstr");
    push_arg(&mut args, "pin");
    push_arg(&mut args, pin);
    push_arg(&mut args, "--argstr");
    push_arg(&mut args, "path");
    push_arg(&mut args, lockfile_path);
    assert(args.deep_view() =~= eval_pin_args(default_nix@, lockfile_path@, pin@));
    CommandLine { program: String::from_str("nix-instantiate"), args, envs: no_envs() }
}

} // verus!
