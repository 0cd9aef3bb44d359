//! Launch strategy resolution: the platform gate for the bundled sidecar
//! binary, the logical artifact names the driver resolves to paths, the
//! port environment aliases handed to the spawned process, and the
//! composition of the diagnostic messages that launch failures produce.

use vstd::prelude::*;

verus! {

/// Operating system of the host, as far as the platform gate cares.
#[derive(Clone, Copy, PartialEq, Eq, Structural, Debug)]
pub enum HostOs {
    MacOs,
    Linux,
    Windows,
    Other,
}

/// Processor architecture of the host, as far as the platform gate cares.
#[derive(Clone, Copy, PartialEq, Eq, Structural, Debug)]
pub enum HostArch {
    Aarch64,
    X86_64,
    Other,
}

/// Why resolving the bundled binary failed. Unsupported platforms are a
/// first-class, non-retryable condition, never a silent fall-through.
#[derive(Clone, Copy, PartialEq, Eq, Structural, Debug)]
pub enum ResolutionError {
    UnsupportedOs,
    UnsupportedArch,
}

/// The capability table of the platform gate: which (operating system,
/// architecture) pairs have a known bundled binary, and its name.
pub open spec fn bundled_node_binary_table(os: HostOs, arch: HostArch) -> Result<
    Seq<char>,
    ResolutionError,
> {
    if os != HostOs::MacOs {
        Err(ResolutionError::UnsupportedOs)
    } else {
        match arch {
            HostArch::Aarch64 => Ok("neural-os-node-aarch64-apple-darwin"@),
            HostArch::X86_64 => Ok("neural-os-node-x86_64-apple-darwin"@),
            HostArch::Other => Err(ResolutionError::UnsupportedArch),
        }
    }
}

/// Name of the bundled runtime binary for this platform, or the exact
/// reason there is none.
pub fn bundled_node_binary_name(os: HostOs, arch: HostArch) -> (r: Result<
    &'static str,
    ResolutionError,
>)
    ensures
        (match r {
            Ok(name) => Ok(name@),
            Err(e) => Err(e),
        }) == bundled_node_binary_table(os, arch),
{
    if os != HostOs::MacOs {
        Err(ResolutionError::UnsupportedOs)
    } else {
        match arch {
            HostArch::Aarch64 => Ok("neural-os-node-aarch64-apple-darwin"),
            HostArch::X86_64 => Ok("neural-os-node-x86_64-apple-darwin"),
            HostArch::Other => Err(ResolutionError::UnsupportedArch),
        }
    }
}

/// Logical resource name of the bundled server script the sidecar runtime
/// executes.
pub fn bundled_server_script_name() -> (r: &'static str)
    ensures
        r@ == "sidecar/server.bundle.cjs"@,
{
    "sidecar/server.bundle.cjs"
}

/// Logical resource name of the legacy server script the fallback host
/// runtime executes.
pub fn legacy_server_script_name() -> (r: &'static str)
    ensures
        r@ == "server.mjs"@,
{
    "server.mjs"
}

/// Command name of the host-installed fallback runtime, found through the
/// operating system's normal executable search.
pub fn fallback_runtime_command() -> (r: &'static str)
    ensures
        r@ == "node"@,
{
    "node"
}

/// Resource path of a bundled binary: the binaries directory joined with
/// the binary's name.
pub open spec fn bundled_binary_resource_path_text(name: Seq<char>) -> Seq<char> {
    "binaries/"@ + name
}

/// Resource path under which the driver resolves a bundled binary.
pub fn bundled_binary_resource_path(name: &str) -> (r: String)
    ensures
        r@ == bundled_binary_resource_path_text(name@),
{
    let mut path = String::from_str("binaries/");
    path.append(name);
    path
}

/// The two environment variable names that both carry the fixed server
/// port, kept as aliases for differently-named consumers inside the
/// managed server.
pub fn port_env_aliases() -> (r: (&'static str, &'static str))
    ensures
        r.0@ == "NEURAL_OS_SERVER_PORT"@,
        r.1@ == "NEURAL_COMPUTER_SERVER_PORT"@,
{
    ("NEURAL_OS_SERVER_PORT", "NEURAL_COMPUTER_SERVER_PORT")
}

/// `needle` occurs contiguously somewhere inside `hay`.
pub open spec fn contains_seq(hay: Seq<char>, needle: Seq<char>) -> bool {
    exists|i: int|
        0 <= i && i + needle.len() <= hay.len() && #[trigger] hay.subrange(i, i + needle.len())
            == needle
}

/// Warning carried forward when the bundled sidecar launch failed and the
/// host runtime fallback is used instead.
pub open spec fn fallback_warning_text(sidecar_err: Seq<char>) -> Seq<char> {
    "Bundled sidecar launch failed, using host node fallback: "@ + sidecar_err
}

/// Compose the degraded-launch warning around the sidecar failure reason.
pub fn fallback_warning(sidecar_err: &str) -> (r: String)
    ensures
        r@ == fallback_warning_text(sidecar_err@),
{
    let mut s = String::from_str("Bundled sidecar launch failed, using host node fallback: ");
    s.append(sidecar_err);
    s
}

/// Combined error when both launch strategies failed: both causes must be
/// diagnosable, never only the last one.
pub open spec fn combined_launch_failure_text(
    sidecar_err: Seq<char>,
    fallback_err: Seq<char>,
) -> Seq<char> {
    "preferred sidecar launch failed: "@ + sidecar_err + "; fallback node launch failed: "@
        + fallback_err
}

/// Compose the combined failure message naming both launch failures.
pub fn combined_launch_failure(sidecar_err: &str, fallback_err: &str) -> (r: String)
    ensures
        r@ == combined_launch_failure_text(sidecar_err@, fallback_err@),
{
    let mut s = String::from_str("preferred sidecar launch failed: ");
    s.append(sidecar_err);
    s.append("; fallback node launch failed: ");
    s.append(fallback_err);
    s
}

/// A sequence embedded between two others is contained in the whole.
proof fn lemma_embedded_is_contained(before: Seq<char>, mid: Seq<char>, after: Seq<char>)
    ensures
        contains_seq(before + mid + after, mid),
{
    let hay = before + mid + after;
    let i = before.len() as int;
    assert(hay.subrange(i, i + mid.len()) =~= mid);
}

/// The fallback warning is never empty and carries the sidecar failure
/// reason verbatim.
pub proof fn lemma_fallback_warning_carries_reason(sidecar_err: Seq<char>)
    ensures
        fallback_warning_text(sidecar_err).len() > 0,
        contains_seq(fallback_warning_text(sidecar_err), sidecar_err),
{
    let prefix = "Bundled sidecar launch failed, using host node fallback: "@;
    reveal_strlit("Bundled sidecar launch failed, using host node fallback: ");
    assert(fallback_warning_text(sidecar_err) == prefix + sidecar_err + Seq::<char>::empty());
    lemma_embedded_is_contained(prefix, sidecar_err, Seq::empty());
    assert(contains_seq(fallback_warning_text(sidecar_err), sidecar_err));
}

/// The combined launch failure carries both the sidecar and the fallback
/// failure reasons verbatim.
pub proof fn lemma_combined_failure_carries_both(sidecar_err: Seq<char>, fallback_err: Seq<char>)
    ensures
        contains_seq(combined_launch_failure_text(sidecar_err, fallback_err), sidecar_err),
        contains_seq(combined_launch_failure_text(sidecar_err, fallback_err), fallback_err),
{
    let p1 = "preferred sidecar launch failed: "@;
    let p2 = "; fallback node launch failed: "@;
    let whole = combined_launch_failure_text(sidecar_err, fallback_err);
    assert(whole == p1 + sidecar_err + (p2 + fallback_err));
    lemma_embedded_is_contained(p1, sidecar_err, p2 + fallback_err);
    assert(contains_seq(whole, sidecar_err));
    assert(whole == (p1 + sidecar_err + p2) + fallback_err + Seq::<char>::empty());
    lemma_embedded_is_contained(p1 + sidecar_err + p2, fallback_err, Seq::empty());
    assert(contains_seq(whole, fallback_err));
}

} // verus!
