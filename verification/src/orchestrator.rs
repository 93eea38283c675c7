//! The orchestrator's pure phases: collecting the requested modules in
//! their fixed order, gathering include statements, building the one
//! populated assembly, and validating the named files.
use vstd::prelude::*;

use crate::Options;
use crate::module::Input;
use crate::module::Module;
use crate::module::ModuleType;
use crate::module::module_built;
use crate::templating::seq_views;
use crate::title::normalize;
use crate::title::normalize_spec;
use crate::title::str_eq;
use crate::validation::Violation;
use crate::validation::check_name;
use crate::validation::violations_spec;

verus! {

/// The parsed command invocation handed to the orchestrator: the titles
/// requested per module type, each list in the order given, the optional
/// title of the one populated assembly, and the file names to validate.
#[derive(Debug)]
pub struct Invocation {
    pub assembly_titles: Vec<String>,
    pub concept_titles: Vec<String>,
    pub procedure_titles: Vec<String>,
    pub reference_titles: Vec<String>,
    pub snippet_titles: Vec<String>,
    pub include_in: Option<String>,
    pub validate_files: Vec<String>,
}

/// A failure of pure module construction: a logic fault, fatal to the run.
#[derive(Debug, Clone, Copy, PartialEq, Eq, Structural)]
pub enum BuildError {
    /// A title normalized to an empty id.
    EmptyTitle,
}

impl BuildError {
    /// A short human-readable account of the fault.
    pub fn description(&self) -> &'static str {
        match self {
            BuildError::EmptyTitle => "a title normalizes to an empty id",
        }
    }
}

/// The module type a command key names; the populated-assembly key builds
/// an assembly too. An unrecognized key is a fault of the command-line
/// layer, not a user error.
pub open spec fn module_type_from_str_spec(s: Seq<char>) -> Option<ModuleType> {
    if s == "assembly"@ || s == "include-in"@ {
        Some(ModuleType::Assembly)
    } else if s == "concept"@ {
        Some(ModuleType::Concept)
    } else if s == "procedure"@ {
        Some(ModuleType::Procedure)
    } else if s == "reference"@ {
        Some(ModuleType::Reference)
    } else if s == "snippet"@ {
        Some(ModuleType::Snippet)
    } else {
        None
    }
}

/// Maps a command key to the module type it names.
pub fn module_type_from_str(s: &str) -> (r: Option<ModuleType>)
    ensures
        r == module_type_from_str_spec(s@),
{
    if str_eq(s, "assembly") || str_eq(s, "include-in") {
        Some(ModuleType::Assembly)
    } else if str_eq(s, "concept") {
        Some(ModuleType::Concept)
    } else if str_eq(s, "procedure") {
        Some(ModuleType::Procedure)
    } else if str_eq(s, "reference") {
        Some(ModuleType::Reference)
    } else if str_eq(s, "snippet") {
        Some(ModuleType::Snippet)
    } else {
        None
    }
}

/// The requested (type, title) pairs of one module type, in title order.
pub open spec fn titled(mt: ModuleType, titles: Seq<String>) -> Seq<(ModuleType, Seq<char>)> {
    titles.map_values(|t: String| (mt, t@))
}

/// Every requested (type, title) pair of an invocation, in the fixed
/// collection order: assembly, concept, procedure, reference, snippet, and
/// within each type the order the titles were given.
pub open spec fn requested_spec(inv: Invocation) -> Seq<(ModuleType, Seq<char>)> {
    titled(ModuleType::Assembly, inv.assembly_titles@) + titled(
        ModuleType::Concept,
        inv.concept_titles@,
    ) + titled(ModuleType::Procedure, inv.procedure_titles@) + titled(
        ModuleType::Reference,
        inv.reference_titles@,
    ) + titled(ModuleType::Snippet, inv.snippet_titles@)
}

/// True where every requested title normalizes to a non-empty id.
pub open spec fn all_titles_ok(pairs: Seq<(ModuleType, Seq<char>)>) -> bool {
    forall|i: int| 0 <= i < pairs.len() ==> normalize_spec((#[trigger] pairs[i]).1).len() > 0
}

/// True where the modules are exactly those the pairs describe, each built
/// without includes under the given options.
pub open spec fn modules_match(
    ms: Seq<Module>,
    pairs: Seq<(ModuleType, Seq<char>)>,
    opts: Options,
) -> bool {
    ms.len() == pairs.len() && forall|i: int|
        0 <= i < ms.len() ==> module_built(
            #[trigger] ms[i],
            pairs[i].0,
            pairs[i].1,
            Seq::<Seq<char>>::empty(),
            opts,
        )
}

proof fn lemma_modules_match_concat(
    a: Seq<Module>,
    b: Seq<Module>,
    pa: Seq<(ModuleType, Seq<char>)>,
    pb: Seq<(ModuleType, Seq<char>)>,
    opts: Options,
)
    requires
        modules_match(a, pa, opts),
        modules_match(b, pb, opts),
    ensures
        modules_match(a + b, pa + pb, opts),
{
    assert forall|i: int| 0 <= i < (a + b).len() implies module_built(
        #[trigger] (a + b)[i],
        (pa + pb)[i].0,
        (pa + pb)[i].1,
        Seq::<Seq<char>>::empty(),
        opts,
    ) by {
        if i < a.len() {
            assert((a + b)[i] == a[i]);
            assert((pa + pb)[i] == pa[i]);
        } else {
            assert((a + b)[i] == b[i - a.len()]);
            assert((pa + pb)[i] == pb[i - a.len()]);
        }
    }
}

proof fn lemma_titles_ok_concat(pa: Seq<(ModuleType, Seq<char>)>, pb: Seq<(ModuleType, Seq<char>)>)
    ensures
        all_titles_ok(pa + pb) == (all_titles_ok(pa) && all_titles_ok(pb)),
{
    if all_titles_ok(pa) && all_titles_ok(pb) {
        assert forall|i: int| 0 <= i < (pa + pb).len() implies normalize_spec(
            (#[trigger] (pa + pb)[i]).1,
        ).len() > 0 by {
            if i < pa.len() {
                assert((pa + pb)[i] == pa[i]);
            } else {
                assert((pa + pb)[i] == pb[i - pa.len()]);
            }
        }
    }
    if all_titles_ok(pa + pb) {
        assert forall|i: int| 0 <= i < pa.len() implies normalize_spec(
            (#[trigger] pa[i]).1,
        ).len() > 0 by {
            assert((pa + pb)[i] == pa[i]);
        }
        assert forall|i: int| 0 <= i < pb.len() implies normalize_spec(
            (#[trigger] pb[i]).1,
        ).len() > 0 by {
            assert((pa + pb)[pa.len() + i] == pb[i]);
        }
    }
}

/// The collect phase for the titles of a single module type: builds one
/// module per title, in order, or reports the first title that normalizes
/// to an empty id.
pub fn process_module_type(titles: &Vec<String>, module_type: ModuleType, options: &Options) -> (r:
    Result<Vec<Module>, BuildError>)
    ensures
        r matches Ok(ms) ==> modules_match(ms@, titled(module_type, titles@), *options),
        r is Ok <==> all_titles_ok(titled(module_type, titles@)),
{
    let ghost pairs = titled(module_type, titles@);
    let mut modules: Vec<Module> = Vec::new();
    let mut i: usize = 0;
    while i < titles.len()
        invariant
            i <= titles@.len(),
            pairs == titled(module_type, titles@),
            pairs.len() == titles@.len(),
            modules@.len() == i,
            forall|j: int|
                0 <= j < i ==> module_built(
                    #[trigger] modules@[j],
                    pairs[j].0,
                    pairs[j].1,
                    Seq::<Seq<char>>::empty(),
                    *options,
                ),
            forall|j: int| 0 <= j < i ==> normalize_spec((#[trigger] pairs[j]).1).len() > 0,
        decreases titles@.len() - i,
    {
        let title = &titles[i];
        let norm = normalize(title.as_str());
        if norm.as_str().is_empty() {
            proof {
                assert(normalize_spec(pairs[i as int].1).len() == 0);
            }
            return Err(BuildError::EmptyTitle);
        }
        let m = Module::new(module_type, title.as_str(), options);
        modules.push(m);
        i = i + 1;
    }
    Ok(modules)
}

/// The collect phase of a run: builds every requested module, in the fixed
/// collection order, or reports that some title normalizes to an empty id.
pub fn collect_modules(inv: &Invocation, options: &Options) -> (r: Result<Vec<Module>, BuildError>)
    ensures
        r matches Ok(ms) ==> modules_match(ms@, requested_spec(*inv), *options),
        r is Ok <==> all_titles_ok(requested_spec(*inv)),
{
    let ghost p1 = titled(ModuleType::Assembly, inv.assembly_titles@);
    let ghost p2 = titled(ModuleType::Concept, inv.concept_titles@);
    let ghost p3 = titled(ModuleType::Procedure, inv.procedure_titles@);
    let ghost p4 = titled(ModuleType::Reference, inv.reference_titles@);
    let ghost p5 = titled(ModuleType::Snippet, inv.snippet_titles@);
    proof {
        lemma_titles_ok_concat(p1, p2);
        lemma_titles_ok_concat(p1 + p2, p3);
        lemma_titles_ok_concat(p1 + p2 + p3, p4);
        lemma_titles_ok_concat(p1 + p2 + p3 + p4, p5);
    }
    let mut all: Vec<Module> = match process_module_type(
        &inv.assembly_titles,
        ModuleType::Assembly,
        options,
    ) {
        Ok(ms) => ms,
        Err(e) => {
            return Err(e);
        },
    };
    let mut part = match process_module_type(&inv.concept_titles, ModuleType::Concept, options) {
        Ok(ms) => ms,
        Err(e) => {
            return Err(e);
        },
    };
    let ghost a1 = all@;
    let ghost b2 = part@;
    all.append(&mut part);
    proof {
        lemma_modules_match_concat(a1, b2, p1, p2, *options);
    }
    let mut part = match process_module_type(&inv.procedure_titles, ModuleType::Procedure, options) {
        Ok(ms) => ms,
        Err(e) => {
            return Err(e);
        },
    };
    let ghost a2 = all@;
    let ghost b3 = part@;
    all.append(&mut part);
    proof {
        lemma_modules_match_concat(a2, b3, p1 + p2, p3, *options);
    }
    let mut part = match process_module_type(&inv.reference_titles, ModuleType::Reference, options) {
        Ok(ms) => ms,
        Err(e) => {
            return Err(e);
        },
    };
    let ghost a3 = all@;
    let ghost b4 = part@;
    all.append(&mut part);
    proof {
        lemma_modules_match_concat(a3, b4, p1 + p2 + p3, p4, *options);
    }
    let mut part = match process_module_type(&inv.snippet_titles, ModuleType::Snippet, options) {
        Ok(ms) => ms,
        Err(e) => {
            return Err(e);
        },
    };
    let ghost a4 = all@;
    let ghost b5 = part@;
    all.append(&mut part);
    proof {
        lemma_modules_match_concat(a4, b5, p1 + p2 + p3 + p4, p5, *options);
    }
    Ok(all)
}

/// The include statements of the collected modules, in collection order.
pub fn gather_include_statements(modules: &Vec<Module>) -> (incs: Vec<String>)
    ensures
        seq_views(incs@) == modules@.map_values(|m: Module| m.include_statement@),
{
    let mut incs: Vec<String> = Vec::new();
    let mut i: usize = 0;
    while i < modules.len()
        invariant
            i <= modules@.len(),
            incs@.len() == i,
            forall|j: int| 0 <= j < i ==> #[trigger] incs@[j]@ == modules@[j].include_statement@,
        decreases modules@.len() - i,
    {
        incs.push(modules[i].include_statement.clone());
        i = i + 1;
    }
    proof {
        assert(seq_views(incs@) =~= modules@.map_values(|m: Module| m.include_statement@));
    }
    incs
}

/// The populated-assembly phase: builds the one assembly that lists the
/// include statement of every collected module, in collection order. The
/// command-line layer guarantees a non-empty module list and a title that
/// does not normalize to an empty id; callers check both.
pub fn build_populated_assembly(title: &str, modules: &Vec<Module>, options: &Options) -> (m:
    Module)
    requires
        normalize_spec(title@).len() > 0,
        modules@.len() > 0,
    ensures
        module_built(
            m,
            ModuleType::Assembly,
            title@,
            modules@.map_values(|mm: Module| mm.include_statement@),
            *options,
        ),
{
    let incs = gather_include_statements(modules);
    let inp = Input::new(ModuleType::Assembly, title, options).with_includes(incs);
    inp.into_module()
}

/// The validate phase: the report of every named file, in the order given,
/// each with the rules it breaks.
pub fn validate_all(files: &Vec<String>) -> (reports: Vec<(String, Vec<Violation>)>)
    ensures
        reports@.len() == files@.len(),
        forall|i: int|
            0 <= i < files@.len() ==> (#[trigger] reports@[i]).0@ == files@[i]@
                && reports@[i].1@ == violations_spec(files@[i]@),
{
    let mut reports: Vec<(String, Vec<Violation>)> = Vec::new();
    let mut i: usize = 0;
    while i < files.len()
        invariant
            i <= files@.len(),
            reports@.len() == i,
            forall|j: int|
                0 <= j < i ==> (#[trigger] reports@[j]).0@ == files@[j]@ && reports@[j].1@
                    == violations_spec(files@[j]@),
        decreases files@.len() - i,
    {
        let name = files[i].clone();
        let violations = check_name(name.as_str());
        reports.push((name, violations));
        i = i + 1;
    }
    reports
}

} // verus!
