use pvm_contract::error::Error;
use pvm_contract::template::{
    package_name, plan_materialization, resolve_template, scaffold, Template, TemplateFile,
};

fn path(xs: &[&str]) -> Vec<String> {
    xs.iter().map(|x| x.to_string()).collect()
}

fn file(p: &[&str], contents: &str) -> TemplateFile {
    TemplateFile { rel_path: path(p), contents: contents.as_bytes().to_vec() }
}

const PLACEHOLDER: &str = "# keep this comment\n[package]\nname = \"old-name\"\nversion = \"0.1.0\"\n\n[[bin]]\nname = \"contract\"\npath = \"src/contract.rs\"\n";

fn sample_template() -> Template {
    Template {
        name: "blank".to_string(),
        files: vec![
            file(&["src", "contract.rs"], "// contract entry points\n"),
            file(&["_Cargo.toml"], PLACEHOLDER),
            file(&["README.md"], "A contract skeleton.\n"),
        ],
    }
}

fn bundle() -> Vec<Template> {
    let second = Template {
        name: "pico-alloc".to_string(),
        files: vec![file(&["_Cargo.toml"], PLACEHOLDER)],
    };
    vec![sample_template(), second]
}

#[test]
fn materialization_copies_files_and_patches_the_manifest() {
    let t = sample_template();
    let plan = plan_materialization(&t, &"new-proj".to_string()).unwrap();
    assert_eq!(plan.len(), 3);

    // Every non-placeholder file, at the same relative path, unchanged.
    assert_eq!(plan[0].rel_path, path(&["src", "contract.rs"]));
    assert_eq!(plan[0].contents, "// contract entry points\n".as_bytes());
    assert_eq!(plan[1].rel_path, path(&["README.md"]));
    assert_eq!(plan[1].contents, "A contract skeleton.\n".as_bytes());

    // The manifest, under the real name, with the package name overwritten.
    let manifest = &plan[2];
    assert_eq!(manifest.rel_path, path(&["Cargo.toml"]));
    assert_eq!(package_name(&manifest.contents).unwrap(), "new-proj");

    // The rewrite preserves the document's formatting.
    let text = String::from_utf8(manifest.contents.clone()).unwrap();
    assert!(text.contains("# keep this comment"));
    assert!(text.contains("path = \"src/contract.rs\""));
}

#[test]
fn placeholder_is_never_copied_verbatim() {
    let t = sample_template();
    let plan = plan_materialization(&t, &"new-proj".to_string()).unwrap();
    for w in &plan {
        assert_ne!(w.rel_path.last().unwrap(), "_Cargo.toml");
    }
}

#[test]
fn nested_placeholder_names_are_skipped_too() {
    let mut t = sample_template();
    t.files.push(file(&["sub", "_Cargo.toml"], "[package]\nname = \"inner\"\n"));
    let plan = plan_materialization(&t, &"new-proj".to_string()).unwrap();
    assert_eq!(plan.len(), 3);
    for w in &plan {
        assert_ne!(w.rel_path.last().unwrap(), "_Cargo.toml");
    }
}

#[test]
fn template_without_placeholder_is_fatal() {
    let t = Template {
        name: "broken".to_string(),
        files: vec![file(&["src", "contract.rs"], "")],
    };
    match plan_materialization(&t, &"p".to_string()) {
        Err(Error::TemplateMissingManifest(name)) => assert_eq!(name, "broken"),
        _ => panic!("a template without its manifest stand-in must fail"),
    }
}

#[test]
fn unparseable_placeholder_is_fatal() {
    let t = Template {
        name: "broken".to_string(),
        files: vec![file(&["_Cargo.toml"], "not = = toml")],
    };
    match plan_materialization(&t, &"p".to_string()) {
        Err(Error::TemplateManifestInvalid(_)) => {}
        _ => panic!("an unpatchable manifest stand-in must fail"),
    }
}

#[test]
fn placeholder_binding_package_to_a_scalar_is_fatal() {
    let t = Template {
        name: "broken".to_string(),
        files: vec![file(&["_Cargo.toml"], "package = 1\n")],
    };
    match plan_materialization(&t, &"p".to_string()) {
        Err(Error::TemplateManifestInvalid(_)) => {}
        _ => panic!("a non-table package binding must fail"),
    }
}

#[test]
fn placeholder_binding_package_to_an_array_of_tables_is_fatal() {
    let t = Template {
        name: "broken".to_string(),
        files: vec![file(&["_Cargo.toml"], "[[package]]\nname = \"x\"\n")],
    };
    match plan_materialization(&t, &"p".to_string()) {
        Err(Error::TemplateManifestInvalid(_)) => {}
        _ => panic!("a non-table package binding must fail"),
    }
}

#[test]
fn placeholder_without_package_table_gets_one() {
    let t = Template {
        name: "spare".to_string(),
        files: vec![file(&["_Cargo.toml"], "[[bin]]\nname = \"contract\"\n")],
    };
    let plan = plan_materialization(&t, &"fresh".to_string()).unwrap();
    let manifest = plan.last().unwrap();
    assert_eq!(package_name(&manifest.contents).unwrap(), "fresh");
}

#[test]
fn scaffold_refuses_existing_target_directory() {
    let ts = bundle();
    match scaffold(&ts, &"blank".to_string(), &"p".to_string(), &"/work/p".to_string(), true) {
        Err(Error::TargetExists(p)) => assert_eq!(p, "/work/p"),
        _ => panic!("an existing target directory must fail"),
    }
}

#[test]
fn scaffold_unknown_template_enumerates_the_bundle() {
    let ts = bundle();
    let err = scaffold(&ts, &"nope".to_string(), &"p".to_string(), &"/work/p".to_string(), false)
        .unwrap_err();
    match &err {
        Error::UnknownTemplate { requested, available } => {
            assert_eq!(requested, "nope");
            assert_eq!(available, &vec!["blank".to_string(), "pico-alloc".to_string()]);
        }
        _ => panic!("an unknown template must fail"),
    }
    let msg = err.message();
    assert!(msg.contains("nope"));
    assert!(msg.contains("blank"));
    assert!(msg.contains("pico-alloc"));
    assert_eq!(msg, "Template 'nope' not found. Available templates: blank, pico-alloc");
}

#[test]
fn scaffold_known_template_plans_the_writes() {
    let ts = bundle();
    let plan = scaffold(&ts, &"blank".to_string(), &"fresh".to_string(), &"/w/fresh".to_string(), false)
        .unwrap();
    assert_eq!(plan.len(), 3);
    let manifest = plan.last().unwrap();
    assert_eq!(manifest.rel_path, path(&["Cargo.toml"]));
    assert_eq!(package_name(&manifest.contents).unwrap(), "fresh");
}

#[test]
fn resolve_template_finds_by_name() {
    let ts = bundle();
    let t = resolve_template(&ts, &"pico-alloc".to_string()).unwrap();
    assert_eq!(t.name, "pico-alloc");
}

#[test]
fn package_name_reads_the_declared_field() {
    let toml = "[package]\nname = \"declared\"\n".as_bytes().to_vec();
    assert_eq!(package_name(&toml).unwrap(), "declared");
    let none = "[package]\nversion = \"1\"\n".as_bytes().to_vec();
    assert!(package_name(&none).is_none());
}
