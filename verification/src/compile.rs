//! The cross-compile invoker and the bytecode linker adapter.
//!
//! The invoker's argument set is fixed: release profile, a rebuild of the
//! standard runtime restricted to core and allocation, panic behaviour set to
//! immediate abort, the single named binary, and a custom 64-bit RISC-V
//! bare-metal target description obtained from the linker's companion
//! facility. The front end spawns the subprocess, probes the artifact, and
//! makes the linking call itself (configured for stripping and optimization);
//! the plan and both outcome decisions are made here.

use vstd::prelude::*;
use crate::error::Error;

verus! {

/// A directory or file path, as its components from the root; rendered by
/// `path_string_of` below.
pub open spec fn path_string_of(p: Seq<Seq<char>>) -> Seq<char>
    decreases p.len(),
{
    if p.len() == 0 {
        "/"@
    } else if p.len() == 1 {
        "/"@ + p[0]
    } else {
        path_string_of(p.drop_last()) + "/"@ + p.last()
    }
}

/// Renders a path's components with a separator before each, the root as the
/// bare separator.
pub fn path_to_string(p: &Vec<String>) -> (r: String)
    ensures
        r@ == path_string_of(p.deep_view()),
{
    let ghost all = p.deep_view();
    let mut out = String::new();
    if p.len() == 0 {
        out.append("/");
        return out;
    }
    let mut i: usize = 0;
    while i < p.len()
        invariant
            all == p.deep_view(),
            i <= p@.len(),
            i > 0 ==> out@ == path_string_of(all.take(i as int)),
            i == 0 ==> out@ == Seq::<char>::empty(),
        decreases p@.len() - i,
    {
        out.append("/");
        out.append(p[i].as_str());
        proof {
            assert(all.take(i + 1).drop_last() =~= all.take(i as int));
            assert(all.take(i + 1).last() == all[i as int]);
            if i == 0 {
                assert(all.take(1)[0] == all[0]);
            }
        }
        i = i + 1;
    }
    proof {
        assert(all.take(all.len() as int) =~= all);
    }
    out
}

/// The subprocess the invoker runs: program, one environment override, and
/// the argument list, in order.
pub struct BuildInvocation {
    pub program: String,
    pub env_key: String,
    pub env_value: String,
    pub args: Vec<String>,
}

/// The fixed argument set of the cross-compile invocation.
pub open spec fn build_args_of(
    manifest_path: Seq<char>,
    bin_name: Seq<char>,
    target_json: Seq<char>,
) -> Seq<Seq<char>> {
    seq![
        "build"@,
        "--release"@,
        "--manifest-path"@,
        manifest_path,
        "-Zbuild-std=core,alloc"@,
        "-Zbuild-std-features=panic_immediate_abort"@,
        "--bin"@,
        bin_name,
        "--target"@,
        target_json,
    ]
}

/// Plans the cross-compile subprocess: `cargo`, run with the standard-library
/// rebuild enabled, and exactly the fixed argument set.
pub fn plan_build_invocation(manifest_path: &String, bin_name: &String, target_json: &String) -> (r:
    BuildInvocation)
    ensures
        r.program@ == "cargo"@,
        r.env_key@ == "RUSTC_BOOTSTRAP"@,
        r.env_value@ == "1"@,
        r.args.deep_view() == build_args_of(manifest_path@, bin_name@, target_json@),
{
    let mut args: Vec<String> = Vec::new();
    args.push("build".to_owned());
    args.push("--release".to_owned());
    args.push("--manifest-path".to_owned());
    args.push(manifest_path.clone());
    args.push("-Zbuild-std=core,alloc".to_owned());
    args.push("-Zbuild-std-features=panic_immediate_abort".to_owned());
    args.push("--bin".to_owned());
    args.push(bin_name.clone());
    args.push("--target".to_owned());
    args.push(target_json.clone());
    proof {
        assert(args.deep_view() =~= build_args_of(manifest_path@, bin_name@, target_json@));
    }
    BuildInvocation {
        program: "cargo".to_owned(),
        env_key: "RUSTC_BOOTSTRAP".to_owned(),
        env_value: "1".to_owned(),
        args,
    }
}

/// Where the toolchain places the artifact: `target` under the manifest's
/// directory, then the target triple, the release profile, and the binary.
pub open spec fn elf_path_of(manifest_path: Seq<Seq<char>>, bin_name: Seq<char>) -> Seq<Seq<char>> {
    manifest_path.drop_last() + seq![
        "target"@,
        "riscv64emac-unknown-none-polkavm"@,
        "release"@,
        bin_name,
    ]
}

/// The convention-derived path the ELF artifact must appear at after a
/// successful build invocation.
pub fn expected_elf_path(manifest_path: &Vec<String>, bin_name: &String) -> (r: Vec<String>)
    requires
        manifest_path@.len() > 0,
    ensures
        r.deep_view() == elf_path_of(manifest_path.deep_view(), bin_name@),
{
    let keep: usize = manifest_path.len() - 1;
    let mut out: Vec<String> = Vec::new();
    let mut i: usize = 0;
    while i < keep
        invariant
            keep < manifest_path@.len() + 1,
            i <= keep,
            out@.len() == i,
            forall|j: int| 0 <= j < i ==> out.deep_view()[j] == manifest_path.deep_view()[j],
        decreases keep - i,
    {
        out.push(manifest_path[i].clone());
        proof {
            assert(out.deep_view()[i as int] == manifest_path.deep_view()[i as int]);
        }
        i = i + 1;
    }
    out.push("target".to_owned());
    out.push("riscv64emac-unknown-none-polkavm".to_owned());
    out.push("release".to_owned());
    out.push(bin_name.clone());
    proof {
        assert(out.deep_view() =~= elf_path_of(manifest_path.deep_view(), bin_name@));
    }
    out
}

/// The invoker's outcome decision: success is owed exactly when the
/// subprocess reported success and the expected artifact is on disk. A
/// success exit with a missing artifact is still fatal, guarding against
/// toolchain or path-convention drift.
pub fn check_build_outcome(
    exit_success: bool,
    artifact_exists: bool,
    bin_name: &String,
    elf_path: &String,
) -> (r: Result<(), Error>)
    ensures
        r is Ok <==> (exit_success && artifact_exists),
        (!exit_success ==> (r matches Err(e) && e matches Error::BuildFailed(b) && b@
            == bin_name@)),
        ((exit_success && !artifact_exists) ==> (r matches Err(e) && e matches
            Error::MissingArtifact(p) && p@ == elf_path@)),
{
    if !exit_success {
        Err(Error::BuildFailed(bin_name.clone()))
    } else if !artifact_exists {
        Err(Error::MissingArtifact(elf_path.clone()))
    } else {
        Ok(())
    }
}

/// The default destination when no explicit output path was given:
/// `./<bin-name>.polkavm` in the invocation's working directory.
pub fn default_output_path(bin_name: &String) -> (r: String)
    ensures
        r@ == "./"@ + bin_name@ + ".polkavm"@,
{
    let mut out = "./".to_owned();
    out.append(bin_name.as_str());
    out.append(".polkavm");
    out
}

/// The linker adapter's outcome decision, over whatever the linking call
/// came back with: success passes the bytecode through unchanged; any
/// rejection is fatal and surfaces the linker's message. The call itself
/// stands in the front end: the linking routine can abort the process on
/// crafted ELF bytes, so no contract of this library can stand for it; this
/// function is verified for every value it may hand back.
pub fn check_link_outcome(outcome: Result<Vec<u8>, String>) -> (r: Result<Vec<u8>, Error>)
    ensures
        (outcome matches Ok(b) ==> r matches Ok(c) && c@ == b@),
        (outcome matches Err(m) ==> r matches Err(e) && e matches Error::LinkFailed(msg) && msg@
            == m@),
{
    match outcome {
        Ok(bytes) => Ok(bytes),
        Err(msg) => Err(Error::LinkFailed(msg)),
    }
}

/// Relies on `polkavm_linker::target_json_path` and
/// `polkavm_linker::TargetJsonArgs`: writes the target description matching
/// the linker's expected instruction-set encoding into a per-machine cache
/// and returns its canonical path. The location depends on the machine, so
/// nothing is stated of the result.
#[verifier::external_body]
fn target_json_path_for(is_64_bit: bool) -> Result<String, String> {
    let mut args = polkavm_linker::TargetJsonArgs::default();
    args.is_64_bit = is_64_bit;
    polkavm_linker::target_json_path(args).map(|p| p.to_string_lossy().into_owned())
}

/// The target description the compilation must use: the 64-bit variant, so
/// that the compilation target and the linking instruction set agree. The
/// path itself is machine-dependent; only the failure mapping is stated.
pub fn riscv64_target_json() -> (r: Result<String, Error>)
    ensures
        (r matches Err(e) ==> e matches Error::TargetJsonFailed(_)),
{
    match target_json_path_for(true) {
        Ok(path) => Ok(path),
        Err(msg) => Err(Error::TargetJsonFailed(msg)),
    }
}

} // verus!
