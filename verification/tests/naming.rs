//! Tests of the name validator and of the orchestrator's pure phases.
use newdoc::Module;
use newdoc::ModuleType;
use newdoc::Options;
use newdoc::orchestrator::BuildError;
use newdoc::orchestrator::Invocation;
use newdoc::orchestrator::build_populated_assembly;
use newdoc::orchestrator::collect_modules;
use newdoc::orchestrator::gather_include_statements;
use newdoc::orchestrator::module_type_from_str;
use newdoc::orchestrator::process_module_type;
use newdoc::orchestrator::validate_all;
use newdoc::validation::Violation;
use newdoc::validation::check_name;
use newdoc::validation::validate;
use newdoc::Verbosity;

fn default_options() -> Options {
    Options::new(false, false, false, false, false, None)
}

#[test]
fn validator_accepts_generated_names() {
    assert!(validate("con_my-first-concept.adoc").is_ok());
    assert!(validate("assembly_install.adoc").is_ok());
    assert!(validate("proc_step-2-of-3.adoc").is_ok());
    assert!(check_name("snip_note.adoc").is_empty());
}

#[test]
fn validator_rejects_uppercase() {
    let v = check_name("con_Alpha.adoc");
    assert!(v.contains(&Violation::InvalidCharacter));
}

#[test]
fn validator_rejects_consecutive_separators() {
    let v = check_name("con_a--b.adoc");
    assert!(v.contains(&Violation::ConsecutiveSeparators));
}

#[test]
fn validator_rejects_wrong_extension() {
    let v = check_name("con_alpha.txt");
    assert!(v.contains(&Violation::WrongExtension));
}

#[test]
fn validator_flags_missing_prefix() {
    let v = check_name("alpha.adoc");
    assert!(v.contains(&Violation::MissingPrefix));
}

#[test]
fn validator_flags_edge_separators() {
    assert!(check_name("con_-alpha.adoc").contains(&Violation::LeadingSeparator));
    assert!(check_name("con_alpha-.adoc").contains(&Violation::TrailingSeparator));
}

#[test]
fn scenario_validate_bad_name() {
    let v = check_name("bad_Name.txt");
    assert!(v.len() >= 2);
    assert!(v.contains(&Violation::WrongExtension));
    assert!(v.contains(&Violation::InvalidCharacter));
    assert!(validate("bad_Name.txt").is_err());
    let e = validate("bad_Name.txt").err().unwrap();
    assert_eq!(e.violations, v);
}

#[test]
fn module_type_from_known_keys() {
    assert_eq!(module_type_from_str("assembly"), Some(ModuleType::Assembly));
    assert_eq!(module_type_from_str("include-in"), Some(ModuleType::Assembly));
    assert_eq!(module_type_from_str("concept"), Some(ModuleType::Concept));
    assert_eq!(module_type_from_str("procedure"), Some(ModuleType::Procedure));
    assert_eq!(module_type_from_str("reference"), Some(ModuleType::Reference));
    assert_eq!(module_type_from_str("snippet"), Some(ModuleType::Snippet));
    assert_eq!(module_type_from_str("chapter"), None);
}

#[test]
fn process_module_type_builds_in_title_order() {
    let opts = default_options();
    let titles = vec![String::from("First"), String::from("Second")];
    let modules = process_module_type(&titles, ModuleType::Concept, &opts).unwrap();
    assert_eq!(modules.len(), 2);
    assert_eq!(modules[0].id, "con_first");
    assert_eq!(modules[1].id, "con_second");
    assert_eq!(modules[0].title, "First");
}

#[test]
fn unicode_titles_build_modules() {
    let opts = default_options();
    let titles = vec![String::from("\u{e9}")];
    let modules = process_module_type(&titles, ModuleType::Concept, &opts).unwrap();
    assert_eq!(modules[0].id, "con_\u{e9}");
    assert!(validate(&modules[0].file_name()).is_ok());
}

#[test]
fn process_module_type_reports_empty_title() {
    let opts = default_options();
    let titles = vec![String::from("Fine"), String::from("!!!")];
    let r = process_module_type(&titles, ModuleType::Concept, &opts);
    assert_eq!(r.err(), Some(BuildError::EmptyTitle));
}

fn empty_invocation() -> Invocation {
    Invocation {
        assembly_titles: Vec::new(),
        concept_titles: Vec::new(),
        procedure_titles: Vec::new(),
        reference_titles: Vec::new(),
        snippet_titles: Vec::new(),
        include_in: None,
        validate_files: Vec::new(),
    }
}

#[test]
fn scenario_concept_procedure_into_assembly() {
    let opts = default_options();
    let mut inv = empty_invocation();
    inv.concept_titles.push(String::from("Alpha"));
    inv.procedure_titles.push(String::from("Beta"));
    inv.include_in = Some(String::from("My Assembly"));

    let modules = collect_modules(&inv, &opts).unwrap();
    assert_eq!(modules.len(), 2);
    assert_eq!(modules[0].file_name(), "con_alpha.adoc");
    assert_eq!(modules[1].file_name(), "proc_beta.adoc");

    let assembly = build_populated_assembly("My Assembly", &modules, &opts);
    assert_eq!(assembly.file_name(), "assembly_my-assembly.adoc");
    let alpha_pos = assembly
        .content
        .find("include::con_alpha.adoc[leveloffset=+1]")
        .unwrap();
    let beta_pos = assembly
        .content
        .find("include::proc_beta.adoc[leveloffset=+1]")
        .unwrap();
    assert!(alpha_pos < beta_pos);
}

#[test]
fn collect_modules_keeps_the_fixed_type_order() {
    let opts = default_options();
    let mut inv = empty_invocation();
    inv.snippet_titles.push(String::from("Last"));
    inv.assembly_titles.push(String::from("First"));
    let modules = collect_modules(&inv, &opts).unwrap();
    assert_eq!(modules.len(), 2);
    assert_eq!(modules[0].module_type, ModuleType::Assembly);
    assert_eq!(modules[1].module_type, ModuleType::Snippet);
}

#[test]
fn gathered_include_statements_follow_module_order() {
    let opts = default_options();
    let modules = vec![
        Module::new(ModuleType::Concept, "Alpha", &opts),
        Module::new(ModuleType::Procedure, "Beta", &opts),
    ];
    let incs = gather_include_statements(&modules);
    assert_eq!(
        incs,
        vec![
            String::from("include::con_alpha.adoc[leveloffset=+1]"),
            String::from("include::proc_beta.adoc[leveloffset=+1]"),
        ]
    );
}

#[test]
fn empty_assembly_keeps_placeholder_body() {
    let opts = default_options();
    let m = Module::new(ModuleType::Assembly, "Empty Shell", &opts);
    assert!(m.content.contains("The modules that this assembly collects."));
}

#[test]
fn validate_all_reports_per_file_in_order() {
    let files = vec![
        String::from("con_alpha.adoc"),
        String::from("bad_Name.txt"),
    ];
    let reports = validate_all(&files);
    assert_eq!(reports.len(), 2);
    assert_eq!(reports[0].0, "con_alpha.adoc");
    assert!(reports[0].1.is_empty());
    assert_eq!(reports[1].0, "bad_Name.txt");
    assert!(reports[1].1.len() >= 2);
}

#[test]
fn options_resolve_verbosity_and_target_dir() {
    let opts = Options::new(true, false, false, false, false, None);
    assert_eq!(opts.verbosity, Verbosity::Verbose);
    let opts = Options::new(false, true, false, false, false, None);
    assert_eq!(opts.verbosity, Verbosity::Quiet);
    let opts = Options::new(false, false, false, false, false, None);
    assert_eq!(opts.verbosity, Verbosity::Default);
    assert_eq!(opts.target_dir, ".");
    assert!(opts.comments && opts.prefixes && opts.examples);
    let opts = Options::new(false, false, true, true, true, Some(String::from("out")));
    assert!(!opts.comments && !opts.prefixes && !opts.examples);
    assert_eq!(opts.target_dir, "out");
}

#[test]
fn violation_descriptions_name_each_rule() {
    let all = [
        Violation::WrongExtension,
        Violation::MissingPrefix,
        Violation::InvalidCharacter,
        Violation::ConsecutiveSeparators,
        Violation::LeadingSeparator,
        Violation::TrailingSeparator,
    ];
    for v in all {
        assert!(!v.description().is_empty());
    }
    assert_eq!(BuildError::EmptyTitle.description(), "a title normalizes to an empty id");
}
