//! A scaffolding library for modular documentation: it derives file ids from
//! free-text titles, renders templated module files, wires generated modules
//! into an assembly through include statements, and validates file names
//! against the naming convention.
use vstd::prelude::*;

pub mod module;
pub mod orchestrator;
pub mod templating;
pub mod title;
pub mod validation;

pub use module::Input;
pub use module::Module;
pub use module::ModuleType;

verus! {

/// Options resolved from the command line, passed to every module-building
/// and rendering call. No component mutates it after construction.
#[derive(Debug)]
pub struct Options {
    pub comments: bool,
    pub prefixes: bool,
    pub examples: bool,
    pub target_dir: String,
    pub verbosity: Verbosity,
}

/// How much diagnostic output the caller wants.
#[derive(Debug, Clone, Copy, PartialEq, Eq, Structural)]
pub enum Verbosity {
    Verbose,
    Default,
    Quiet,
}

impl Options {
    /// Builds the option set from the already-parsed command-line values.
    /// `verbose` wins over `quiet` when both are given; the feature toggles
    /// are on unless the corresponding `no_*` flag disables them; the target
    /// directory falls back on the current directory.
    pub fn new(
        verbose: bool,
        quiet: bool,
        no_comments: bool,
        no_prefixes: bool,
        no_examples: bool,
        target_dir: Option<String>,
    ) -> (opts: Options)
        ensures
            opts.comments == !no_comments,
            opts.prefixes == !no_prefixes,
            opts.examples == !no_examples,
            opts.verbosity == (if verbose {
                Verbosity::Verbose
            } else if quiet {
                Verbosity::Quiet
            } else {
                Verbosity::Default
            }),
            target_dir matches Some(d) ==> opts.target_dir@ == d@,
            target_dir is None ==> opts.target_dir@ == "."@,
    {
        let verbosity = if verbose {
            Verbosity::Verbose
        } else if quiet {
            Verbosity::Quiet
        } else {
            Verbosity::Default
        };
        Options {
            comments: !no_comments,
            prefixes: !no_prefixes,
            examples: !no_examples,
            target_dir: match target_dir {
                Some(d) => d,
                None => String::from_str("."),
            },
            verbosity,
        }
    }
}

impl Clone for Options {
    /// A clone keeps every option, the target directory included.
    fn clone(&self) -> (opts: Options)
        ensures
            opts.comments == self.comments,
            opts.prefixes == self.prefixes,
            opts.examples == self.examples,
            opts.target_dir@ == self.target_dir@,
            opts.verbosity == self.verbosity,
    {
        Options {
            comments: self.comments,
            prefixes: self.prefixes,
            examples: self.examples,
            target_dir: self.target_dir.clone(),
            verbosity: self.verbosity,
        }
    }
}

} // verus!
