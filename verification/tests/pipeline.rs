use pvm_contract::compile::{
    check_build_outcome, check_link_outcome, default_output_path, expected_elf_path,
    path_to_string, plan_build_invocation,
};
use pvm_contract::error::Error;
use pvm_contract::locate::{find_manifest, locate_step, LocateStep};
use pvm_contract::manifest::{resolve_bin_name, select_bin_name};

fn path(xs: &[&str]) -> Vec<String> {
    xs.iter().map(|x| x.to_string()).collect()
}

#[test]
fn manifest_found_in_start_directory() {
    let start = path(&["home", "user", "proj"]);
    let answers = vec![true, false, false, false];
    let (found, probes) = find_manifest(&start, &answers);
    assert_eq!(found.unwrap(), path(&["home", "user", "proj", "Cargo.toml"]));
    assert_eq!(probes, 1);
}

#[test]
fn manifest_found_at_depth_two_after_three_probes() {
    let start = path(&["home", "user", "proj"]);
    let answers = vec![false, false, true, false];
    let (found, probes) = find_manifest(&start, &answers);
    assert_eq!(found.unwrap(), path(&["home", "Cargo.toml"]));
    assert_eq!(probes, 3);
}

#[test]
fn manifest_found_at_root() {
    let start = path(&["a", "b"]);
    let answers = vec![false, false, true];
    let (found, probes) = find_manifest(&start, &answers);
    assert_eq!(found.unwrap(), path(&["Cargo.toml"]));
    assert_eq!(probes, 3);
}

#[test]
fn manifest_not_found_probes_every_ancestor() {
    let start = path(&["home", "user", "proj"]);
    let answers = vec![false, false, false, false];
    let (found, probes) = find_manifest(&start, &answers);
    assert!(found.is_none());
    assert_eq!(probes, 4);
}

#[test]
fn locate_step_decisions() {
    match locate_step(path(&["a", "b"]), true) {
        LocateStep::Found(p) => assert_eq!(p, path(&["a", "b", "Cargo.toml"])),
        _ => panic!("expected a hit"),
    }
    match locate_step(path(&["a", "b"]), false) {
        LocateStep::Ascend(d) => assert_eq!(d, path(&["a"])),
        _ => panic!("expected an ascent"),
    }
    match locate_step(path(&[]), false) {
        LocateStep::NotFound => {}
        _ => panic!("expected the search to end"),
    }
}

#[test]
fn explicit_bin_name_used_verbatim() {
    let manifest = "[package]\nname = \"proj\"\n";
    let r = select_bin_name(Some("custom".to_string()), manifest);
    assert_eq!(r.unwrap(), "custom");
}

#[test]
fn explicit_bin_name_wins_over_declarations() {
    let manifest = "[[bin]]\nname = \"a\"\n\n[[bin]]\nname = \"b\"\n";
    let r = select_bin_name(Some("custom".to_string()), manifest);
    assert_eq!(r.unwrap(), "custom");
}

#[test]
fn first_declared_bin_selected() {
    let manifest = "[[bin]]\nname = \"a\"\n\n[[bin]]\nname = \"b\"\n";
    let r = select_bin_name(None, manifest);
    assert_eq!(r.unwrap(), "a");
}

#[test]
fn missing_bin_section_is_fatal() {
    let manifest = "[package]\nname = \"proj\"\n";
    match select_bin_name(None, manifest) {
        Err(Error::NoBinTarget) => {}
        _ => panic!("expected a configuration error"),
    }
}

#[test]
fn bin_entry_without_name_is_fatal() {
    let manifest = "[[bin]]\npath = \"src/main.rs\"\n";
    match select_bin_name(None, manifest) {
        Err(Error::NoBinTarget) => {}
        _ => panic!("expected a configuration error"),
    }
}

#[test]
fn unparseable_manifest_is_fatal_even_with_explicit_name() {
    let manifest = "this is not toml = =";
    match select_bin_name(Some("custom".to_string()), manifest) {
        Err(Error::ManifestParse(_)) => {}
        _ => panic!("expected a parse error"),
    }
}

#[test]
fn resolve_bin_name_ignores_declarations_when_explicit() {
    let r = resolve_bin_name(Some("n".to_string()), &None);
    assert_eq!(r.unwrap(), "n");
    let r = resolve_bin_name(Some("n".to_string()), &Some(vec![]));
    assert_eq!(r.unwrap(), "n");
}

#[test]
fn build_invocation_has_the_fixed_argument_set() {
    let inv = plan_build_invocation(
        &"/proj/Cargo.toml".to_string(),
        &"app".to_string(),
        &"/cache/rv64.json".to_string(),
    );
    assert_eq!(inv.program, "cargo");
    assert_eq!(inv.env_key, "RUSTC_BOOTSTRAP");
    assert_eq!(inv.env_value, "1");
    let expected = vec![
        "build",
        "--release",
        "--manifest-path",
        "/proj/Cargo.toml",
        "-Zbuild-std=core,alloc",
        "-Zbuild-std-features=panic_immediate_abort",
        "--bin",
        "app",
        "--target",
        "/cache/rv64.json",
    ];
    assert_eq!(inv.args, expected);
}

#[test]
fn elf_path_follows_the_target_convention() {
    let manifest = path(&["home", "proj", "Cargo.toml"]);
    let elf = expected_elf_path(&manifest, &"app".to_string());
    assert_eq!(
        elf,
        path(&["home", "proj", "target", "riscv64emac-unknown-none-polkavm", "release", "app"])
    );
}

#[test]
fn successful_exit_with_missing_artifact_fails() {
    let bin = "app".to_string();
    let elf = "/proj/target/x/release/app".to_string();
    match check_build_outcome(true, false, &bin, &elf) {
        Err(Error::MissingArtifact(p)) => assert_eq!(p, elf),
        _ => panic!("a missing artifact must be fatal"),
    }
}

#[test]
fn build_outcome_other_cases() {
    let bin = "app".to_string();
    let elf = "/e".to_string();
    assert!(check_build_outcome(true, true, &bin, &elf).is_ok());
    match check_build_outcome(false, true, &bin, &elf) {
        Err(Error::BuildFailed(b)) => assert_eq!(b, bin),
        _ => panic!("a failed exit must be fatal"),
    }
    match check_build_outcome(false, false, &bin, &elf) {
        Err(Error::BuildFailed(_)) => {}
        _ => panic!("a failed exit must be fatal"),
    }
}

#[test]
fn default_output_is_bin_name_with_extension() {
    assert_eq!(default_output_path(&"app".to_string()), "./app.polkavm");
}

#[test]
fn paths_render_with_leading_separator() {
    assert_eq!(path_to_string(&path(&["a", "b"])), "/a/b");
    assert_eq!(path_to_string(&path(&["a"])), "/a");
    assert_eq!(path_to_string(&path(&[])), "/");
}

#[test]
fn linker_rejection_is_fatal_and_surfaces_the_message() {
    let garbage = vec![0u8, 1, 2, 3, 4, 5, 6, 7];
    let mut config = polkavm_linker::Config::default();
    config.set_strip(true);
    config.set_optimize(true);
    let outcome = polkavm_linker::program_from_elf(
        config,
        polkavm_linker::TargetInstructionSet::ReviveV1,
        &garbage,
    )
    .map_err(|err| format!("{err:?}"));
    match check_link_outcome(outcome) {
        Err(Error::LinkFailed(msg)) => assert!(!msg.is_empty()),
        _ => panic!("the linker must reject bytes that are no ELF"),
    }
}

#[test]
fn link_success_passes_the_bytecode_through() {
    let bytes = vec![1u8, 2, 3];
    assert_eq!(check_link_outcome(Ok(bytes.clone())).unwrap(), bytes);
    match check_link_outcome(Err("rejected".to_string())) {
        Err(Error::LinkFailed(msg)) => assert_eq!(msg, "rejected"),
        _ => panic!("a linker error must map to the link failure"),
    }
}

#[test]
fn error_messages_render() {
    assert_eq!(
        Error::BuildFailed("app".to_string()).message(),
        "Failed to build binary app"
    );
    assert_eq!(
        Error::MissingArtifact("/e/app".to_string()).message(),
        "ELF binary was not generated at: /e/app"
    );
    assert_eq!(
        Error::NoManifest.message(),
        "Could not find Cargo.toml in current directory or parent directories"
    );
}
