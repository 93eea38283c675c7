//! The module entity: the closed set of module types with their prefix
//! policy, the id derivation, and the in-memory representation of one
//! generated documentation file.
use vstd::prelude::*;

use crate::Options;
use crate::templating::include_statement;
use crate::templating::include_statement_spec;
use crate::templating::render;
use crate::templating::render_spec;
use crate::templating::seq_views;
use crate::title::id_chars_ok;
use crate::title::lemma_normalize_shape;
use crate::title::normalize;
use crate::title::normalize_spec;

verus! {

/// The closed enumeration of module types of the documentation convention.
#[derive(Debug, Clone, Copy, PartialEq, Eq, Structural)]
pub enum ModuleType {
    Assembly,
    Concept,
    Procedure,
    Reference,
    Snippet,
}

impl ModuleType {
    /// The fixed file-name prefix of this module type.
    pub open spec fn prefix_spec(self) -> Seq<char> {
        match self {
            ModuleType::Assembly => "assembly_"@,
            ModuleType::Concept => "con_"@,
            ModuleType::Procedure => "proc_"@,
            ModuleType::Reference => "ref_"@,
            ModuleType::Snippet => "snip_"@,
        }
    }

    /// The fixed display label of this module type.
    pub open spec fn label_spec(self) -> Seq<char> {
        match self {
            ModuleType::Assembly => "assembly"@,
            ModuleType::Concept => "concept"@,
            ModuleType::Procedure => "procedure"@,
            ModuleType::Reference => "reference"@,
            ModuleType::Snippet => "snippet"@,
        }
    }

    pub fn prefix(&self) -> (p: &'static str)
        ensures
            p@ == self.prefix_spec(),
    {
        match self {
            ModuleType::Assembly => "assembly_",
            ModuleType::Concept => "con_",
            ModuleType::Procedure => "proc_",
            ModuleType::Reference => "ref_",
            ModuleType::Snippet => "snip_",
        }
    }

    pub fn label(&self) -> (l: &'static str)
        ensures
            l@ == self.label_spec(),
    {
        match self {
            ModuleType::Assembly => "assembly",
            ModuleType::Concept => "concept",
            ModuleType::Procedure => "procedure",
            ModuleType::Reference => "reference",
            ModuleType::Snippet => "snippet",
        }
    }
}

/// The id a title yields for a module type: the normalized title, carrying
/// the type's prefix exactly when the `prefixes` option is on.
pub open spec fn id_spec(mt: ModuleType, title: Seq<char>, prefixes: bool) -> Seq<char> {
    if prefixes {
        mt.prefix_spec() + normalize_spec(title)
    } else {
        normalize_spec(title)
    }
}

/// Derives the file id of a module from its title, honoring the `prefixes`
/// option.
pub fn build_id(module_type: ModuleType, title: &str, options: &Options) -> (id: String)
    ensures
        id@ == id_spec(module_type, title@, options.prefixes),
{
    let norm = normalize(title);
    if options.prefixes {
        let mut id = String::from_str(module_type.prefix());
        id.append(norm.as_str());
        id
    } else {
        norm
    }
}

/// The prefix policy of the converter: with `prefixes` on, the id starts
/// with the type's own prefix; with `prefixes` off, no module-type prefix is
/// a leading segment of the id, since the normalized title never holds an
/// underscore.
pub proof fn lemma_id_prefix_policy(mt: ModuleType, other: ModuleType, title: Seq<char>)
    ensures
        mt.prefix_spec().is_prefix_of(id_spec(mt, title, true)),
        !other.prefix_spec().is_prefix_of(id_spec(mt, title, false)),
{
    let norm = normalize_spec(title);
    assert(mt.prefix_spec() =~= (mt.prefix_spec() + norm).subrange(0, mt.prefix_spec().len() as int));
    lemma_normalize_shape(title);
    let p = other.prefix_spec();
    match other {
        ModuleType::Assembly => {
            reveal_strlit("assembly_");
            assert(p[p.len() as int - 1] == '_');
        },
        ModuleType::Concept => {
            reveal_strlit("con_");
            assert(p[p.len() as int - 1] == '_');
        },
        ModuleType::Procedure => {
            reveal_strlit("proc_");
            assert(p[p.len() as int - 1] == '_');
        },
        ModuleType::Reference => {
            reveal_strlit("ref_");
            assert(p[p.len() as int - 1] == '_');
        },
        ModuleType::Snippet => {
            reveal_strlit("snip_");
            assert(p[p.len() as int - 1] == '_');
        },
    }
    if p.is_prefix_of(norm) {
        assert(norm[p.len() as int - 1] == p[p.len() as int - 1]);
        assert(id_chars_ok(norm));
        assert(false);
    }
}

/// One generated documentation file, fully determined in memory before it is
/// written: its type, title, derived id, rendered content, and the include
/// statement other modules would use to embed it.
#[derive(Debug)]
pub struct Module {
    pub module_type: ModuleType,
    pub title: String,
    pub id: String,
    pub content: String,
    pub include_statement: String,
}

/// What construction promises of a module built from a title, an include
/// list and an option set: the id follows the prefix policy, the include
/// statement points at that id, and the content is the rendering of the
/// type's template.
pub open spec fn module_built(
    m: Module,
    mt: ModuleType,
    title: Seq<char>,
    incs: Seq<Seq<char>>,
    opts: Options,
) -> bool {
    &&& m.module_type == mt
    &&& m.title@ == title
    &&& m.id@ == id_spec(mt, title, opts.prefixes)
    &&& m.include_statement@ == include_statement_spec(m.id@)
    &&& m.content@ == render_spec(mt, m.id@, title, incs, opts.comments, opts.examples)
}

/// A transient value object: everything needed to build one module,
/// including the include statements handed to a populated assembly.
#[derive(Debug)]
pub struct Input {
    pub module_type: ModuleType,
    pub title: String,
    pub options: Options,
    pub include_statements: Vec<String>,
}

impl Input {
    /// Starts an input with an empty include list.
    pub fn new(module_type: ModuleType, title: &str, options: &Options) -> (inp: Input)
        ensures
            inp.module_type == module_type,
            inp.title@ == title@,
            inp.options.comments == options.comments,
            inp.options.prefixes == options.prefixes,
            inp.options.examples == options.examples,
            inp.include_statements@ == Seq::<String>::empty(),
    {
        Input {
            module_type,
            title: String::from_str(title),
            options: options.clone(),
            include_statements: Vec::new(),
        }
    }

    /// Hands the input the include statements that the module it builds
    /// should list; used for the one populated assembly of a run.
    pub fn with_includes(self, include_statements: Vec<String>) -> (inp: Input)
        ensures
            inp.module_type == self.module_type,
            inp.title@ == self.title@,
            inp.options == self.options,
            inp.include_statements == include_statements,
    {
        Input {
            module_type: self.module_type,
            title: self.title,
            options: self.options,
            include_statements,
        }
    }

    /// Builds the module this input describes. The title must not normalize
    /// to an empty id: the caller checks that before building.
    pub fn into_module(self) -> (m: Module)
        requires
            normalize_spec(self.title@).len() > 0,
        ensures
            module_built(
                m,
                self.module_type,
                self.title@,
                seq_views(self.include_statements@),
                self.options,
            ),
    {
        let id = build_id(self.module_type, self.title.as_str(), &self.options);
        let content = render(
            self.module_type,
            id.as_str(),
            self.title.as_str(),
            &self.include_statements,
            &self.options,
        );
        let stmt = include_statement(id.as_str());
        Module { module_type: self.module_type, title: self.title, id, content, include_statement: stmt }
    }
}

impl Module {
    /// Pure construction of a module without includes: derives the id,
    /// renders the content, and computes the include statement. The title
    /// must not normalize to an empty id.
    pub fn new(module_type: ModuleType, title: &str, options: &Options) -> (m: Module)
        requires
            normalize_spec(title@).len() > 0,
        ensures
            module_built(m, module_type, title@, Seq::<Seq<char>>::empty(), *options),
    {
        let inp = Input::new(module_type, title, options);
        let m = inp.into_module();
        proof {
            assert(seq_views(Seq::<String>::empty()) =~= Seq::<Seq<char>>::empty());
        }
        m
    }

    /// The file name this module is written under: its id with the fixed
    /// extension of documentation module sources.
    pub fn file_name(&self) -> (name: String)
        ensures
            name@ == self.id@ + ".adoc"@,
    {
        let mut name = self.id.clone();
        name.append(".adoc");
        name
    }

    /// The path the module is written to: the target directory of the
    /// option set, then its file name.
    pub fn target_path(&self, options: &Options) -> (p: String)
        ensures
            p@ == options.target_dir@ + "/"@ + self.id@ + ".adoc"@,
    {
        let mut p = options.target_dir.clone();
        p.append("/");
        p.append(self.id.as_str());
        p.append(".adoc");
        p
    }
}

} // verus!
