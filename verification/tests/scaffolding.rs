//! Tests of the title-to-id converter, the template renderer, and the
//! module entities.
use newdoc::Module;
use newdoc::ModuleType;
use newdoc::Options;
use newdoc::title::normalize;

fn default_options() -> Options {
    Options::new(false, false, false, false, false, None)
}

#[test]
fn normalize_basic_title() {
    assert_eq!(normalize("My First Concept"), "my-first-concept");
    assert_eq!(normalize("Alpha"), "alpha");
    assert_eq!(normalize("installing on bare metal"), "installing-on-bare-metal");
}

#[test]
fn normalize_collapses_runs_and_trims() {
    assert_eq!(normalize("  Hello,   World!  "), "hello-world");
    assert_eq!(normalize("--a--b--"), "a-b");
    assert_eq!(normalize("A_B_C"), "a-b-c");
    assert_eq!(normalize("Version 2.0"), "version-2-0");
}

#[test]
fn normalize_keeps_folded_unicode_letters() {
    assert_eq!(normalize("Caf\u{e9}"), "caf\u{e9}");
    assert_eq!(normalize("\u{c9}"), "\u{e9}");
    assert_eq!(normalize("Stra\u{df}e"), "stra\u{df}e");
    assert_eq!(normalize("Caf\u{e9} au lait"), "caf\u{e9}-au-lait");
}

#[test]
fn normalize_punctuation_only_title_is_empty() {
    assert_eq!(normalize("!!!"), "");
    assert_eq!(normalize("   "), "");
}

#[test]
fn normalize_is_idempotent_on_samples() {
    for title in [
        "My First Concept",
        "  Hello,   World!  ",
        "A_B_C",
        "Version 2.0",
        "already-normal",
        "!!!",
        "Caf\u{e9} au lait",
        "Stra\u{df}e",
    ] {
        let once = normalize(title);
        assert_eq!(normalize(&once), once);
    }
}

#[test]
fn id_carries_prefix_when_enabled() {
    let opts = default_options();
    assert!(opts.prefixes);
    let m = Module::new(ModuleType::Concept, "My First Concept", &opts);
    assert_eq!(m.id, "con_my-first-concept");
    let a = Module::new(ModuleType::Assembly, "My First Concept", &opts);
    assert_eq!(a.id, "assembly_my-first-concept");
    let p = Module::new(ModuleType::Procedure, "My First Concept", &opts);
    assert_eq!(p.id, "proc_my-first-concept");
    let r = Module::new(ModuleType::Reference, "My First Concept", &opts);
    assert_eq!(r.id, "ref_my-first-concept");
    let s = Module::new(ModuleType::Snippet, "My First Concept", &opts);
    assert_eq!(s.id, "snip_my-first-concept");
}

#[test]
fn id_bare_when_prefixes_disabled() {
    let opts = Options::new(false, false, false, true, false, None);
    let m = Module::new(ModuleType::Concept, "My First Concept", &opts);
    assert_eq!(m.id, "my-first-concept");
    assert!(!m.id.starts_with("con_"));
}

#[test]
fn scenario_concept_with_defaults() {
    let opts = default_options();
    let m = Module::new(ModuleType::Concept, "My First Concept", &opts);
    assert_eq!(m.file_name(), "con_my-first-concept.adoc");
    let mut expected = String::new();
    expected.push_str(":_content-type: CONCEPT\n");
    expected.push_str("\n");
    expected.push_str("[id=\"con_my-first-concept\"]\n");
    expected.push_str("= My First Concept\n");
    expected.push_str("//\n");
    expected.push_str("// Explain what the concept is and why the reader should care.\n");
    expected.push_str("// Keep the explanation to a few short paragraphs.\n");
    expected.push_str("//\n");
    expected.push_str("\n");
    expected.push_str("A paragraph that introduces the concept.\n");
    expected.push_str("// Example:\n");
    expected.push_str("include::con_my-first-concept.adoc[leveloffset=+1]\n");
    assert_eq!(m.content, expected);
}

#[test]
fn disabling_comments_removes_exactly_the_scaffold() {
    let with = Module::new(ModuleType::Procedure, "Install It", &default_options());
    let without = Module::new(
        ModuleType::Procedure,
        "Install It",
        &Options::new(false, false, true, false, false, None),
    );
    let mut block = String::new();
    block.push_str("//\n");
    block.push_str("// State the goal of the procedure and any prerequisites.\n");
    block.push_str("// Write each step as a single imperative sentence.\n");
    block.push_str("//\n");
    assert!(with.content.contains(&block));
    assert!(!without.content.contains(&block));
    assert_eq!(with.content.replacen(&block, "", 1), without.content);
}

#[test]
fn disabling_examples_removes_exactly_the_trailing_block() {
    let with = Module::new(ModuleType::Reference, "Config Keys", &default_options());
    let without = Module::new(
        ModuleType::Reference,
        "Config Keys",
        &Options::new(false, false, false, false, true, None),
    );
    assert!(with.content.starts_with(&without.content));
    let appended = &with.content[without.content.len()..];
    assert_eq!(appended.lines().next(), Some("// Example:"));
    assert_eq!(
        appended,
        "// Example:\ninclude::ref_config-keys.adoc[leveloffset=+1]\n"
    );
}

#[test]
fn include_statement_points_at_the_id() {
    let m = Module::new(ModuleType::Snippet, "Shared Note", &default_options());
    assert_eq!(
        m.include_statement,
        "include::snip_shared-note.adoc[leveloffset=+1]"
    );
}

#[test]
fn include_statement_round_trips_into_assembly() {
    let opts = default_options();
    let modules = vec![Module::new(ModuleType::Concept, "Alpha", &opts)];
    let stmt = modules[0].include_statement.clone();
    let assembly = newdoc::orchestrator::build_populated_assembly("My Assembly", &modules, &opts);
    assert!(assembly.content.contains(&stmt));
}

#[test]
fn module_types_carry_fixed_labels_and_prefixes() {
    assert_eq!(ModuleType::Assembly.label(), "assembly");
    assert_eq!(ModuleType::Concept.label(), "concept");
    assert_eq!(ModuleType::Procedure.label(), "procedure");
    assert_eq!(ModuleType::Reference.label(), "reference");
    assert_eq!(ModuleType::Snippet.label(), "snippet");
    assert_eq!(ModuleType::Assembly.prefix(), "assembly_");
    assert_eq!(ModuleType::Concept.prefix(), "con_");
    assert_eq!(ModuleType::Procedure.prefix(), "proc_");
    assert_eq!(ModuleType::Reference.prefix(), "ref_");
    assert_eq!(ModuleType::Snippet.prefix(), "snip_");
}

#[test]
fn target_path_joins_directory_and_file_name() {
    let opts = default_options();
    let m = Module::new(ModuleType::Concept, "Alpha", &opts);
    assert_eq!(m.target_path(&opts), "./con_alpha.adoc");
    let opts2 = Options::new(false, false, false, false, false, Some(String::from("docs")));
    assert_eq!(m.target_path(&opts2), "docs/con_alpha.adoc");
}
