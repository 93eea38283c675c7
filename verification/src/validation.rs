//! The name validator: checks an existing file name against the naming
//! convention, independent of module construction, and reports every rule
//! the name breaks.
use vstd::prelude::*;

use crate::Options;
use crate::module::Module;
use crate::module::ModuleType;
use crate::module::id_spec;
use crate::module::module_built;
use crate::title::ascii_fold;
use crate::title::folded;
use crate::title::id_chars_ok;
use crate::title::is_word;
use crate::title::is_word_char;
use crate::title::lemma_normalize_shape;
use crate::title::no_double_separator;
use crate::title::normalize_spec;
use crate::title::str_eq;

verus! {

/// One naming rule that a file name breaks.
#[derive(Debug, Clone, Copy, PartialEq, Eq, Structural)]
pub enum Violation {
    /// The name does not end in the extension of documentation module
    /// sources.
    WrongExtension,
    /// The stem starts with no recognized module-type prefix; advisory
    /// where the convention tolerates unprefixed names.
    MissingPrefix,
    /// The stem holds a character outside the allowed set of lowercase
    /// letters, digits and the separator.
    InvalidCharacter,
    /// Two separators stand next to each other.
    ConsecutiveSeparators,
    /// The stem starts with a separator.
    LeadingSeparator,
    /// The stem ends with a separator.
    TrailingSeparator,
}

/// The violations of one validated file name, reported together.
#[derive(Debug)]
pub struct ValidationError {
    pub violations: Vec<Violation>,
}

/// True of a name that carries the fixed extension of documentation module
/// sources.
pub open spec fn has_extension(name: Seq<char>) -> bool {
    name.len() >= 5 && name.subrange(name.len() - 5, name.len() as int) == ".adoc"@
}

/// The stem the naming rules apply to: the name with a correct extension
/// stripped, the whole name otherwise.
pub open spec fn stem_spec(name: Seq<char>) -> Seq<char> {
    if has_extension(name) {
        name.subrange(0, name.len() - 5)
    } else {
        name
    }
}

/// The module type whose prefix the stem carries, if exactly one does.
pub open spec fn recognized_prefix(stem: Seq<char>) -> Option<ModuleType> {
    if ModuleType::Assembly.prefix_spec().is_prefix_of(stem) {
        Some(ModuleType::Assembly)
    } else if ModuleType::Concept.prefix_spec().is_prefix_of(stem) {
        Some(ModuleType::Concept)
    } else if ModuleType::Procedure.prefix_spec().is_prefix_of(stem) {
        Some(ModuleType::Procedure)
    } else if ModuleType::Reference.prefix_spec().is_prefix_of(stem) {
        Some(ModuleType::Reference)
    } else if ModuleType::Snippet.prefix_spec().is_prefix_of(stem) {
        Some(ModuleType::Snippet)
    } else {
        None
    }
}

/// The stem with a recognized prefix stripped.
pub open spec fn rest_spec(stem: Seq<char>) -> Seq<char> {
    match recognized_prefix(stem) {
        Some(mt) => stem.skip(mt.prefix_spec().len() as int),
        None => stem,
    }
}

/// Every rule the name breaks, in a fixed report order.
pub open spec fn violations_spec(name: Seq<char>) -> Seq<Violation> {
    let rest = rest_spec(stem_spec(name));
    (if !has_extension(name) {
        seq![Violation::WrongExtension]
    } else {
        Seq::<Violation>::empty()
    }) + (if recognized_prefix(stem_spec(name)) is None {
        seq![Violation::MissingPrefix]
    } else {
        Seq::<Violation>::empty()
    }) + (if !id_chars_ok(rest) {
        seq![Violation::InvalidCharacter]
    } else {
        Seq::<Violation>::empty()
    }) + (if !no_double_separator(rest) {
        seq![Violation::ConsecutiveSeparators]
    } else {
        Seq::<Violation>::empty()
    }) + (if rest.len() > 0 && rest[0] == '-' {
        seq![Violation::LeadingSeparator]
    } else {
        Seq::<Violation>::empty()
    }) + (if rest.len() > 0 && rest.last() == '-' {
        seq![Violation::TrailingSeparator]
    } else {
        Seq::<Violation>::empty()
    })
}

/// True when `prefix` opens `s`, decided character-wise.
fn starts_with(s: &str, prefix: &str) -> (r: bool)
    ensures
        r == prefix@.is_prefix_of(s@),
{
    let n = s.unicode_len();
    let plen = prefix.unicode_len();
    if n < plen {
        return false;
    }
    let opening = s.substring_char(0, plen);
    let r = str_eq(opening, prefix);
    proof {
        if prefix@ =~= s@.subrange(0, plen as int) {
            assert(opening@ == prefix@);
        }
    }
    r
}

/// Splits a recognized module-type prefix off the stem.
fn split_prefix<'a>(stem: &'a str) -> (r: (Option<ModuleType>, &'a str))
    ensures
        r.0 == recognized_prefix(stem@),
        r.1@ == rest_spec(stem@),
{
    let n = stem.unicode_len();
    let mut found: Option<ModuleType> = None;
    if starts_with(stem, ModuleType::Assembly.prefix()) {
        found = Some(ModuleType::Assembly);
    } else if starts_with(stem, ModuleType::Concept.prefix()) {
        found = Some(ModuleType::Concept);
    } else if starts_with(stem, ModuleType::Procedure.prefix()) {
        found = Some(ModuleType::Procedure);
    } else if starts_with(stem, ModuleType::Reference.prefix()) {
        found = Some(ModuleType::Reference);
    } else if starts_with(stem, ModuleType::Snippet.prefix()) {
        found = Some(ModuleType::Snippet);
    }
    match found {
        Some(mt) => {
            let plen = mt.prefix().unicode_len();
            let rest = stem.substring_char(plen, n);
            proof {
                assert(rest@ =~= stem@.skip(plen as int));
            }
            (Some(mt), rest)
        },
        None => (None, stem),
    }
}

/// Checks a file name against every naming rule and returns the broken
/// ones, in the fixed report order.
#[verifier::rlimit(60)]
pub fn check_name(file_name: &str) -> (violations: Vec<Violation>)
    ensures
        violations@ == violations_spec(file_name@),
{
    let n = file_name.unicode_len();
    let has_ext = n >= 5 && str_eq(file_name.substring_char(n - 5, n), ".adoc");
    proof {
        assert(has_ext == has_extension(file_name@));
    }
    let stem = if has_ext {
        file_name.substring_char(0, n - 5)
    } else {
        file_name
    };
    let (recognized, rest) = split_prefix(stem);
    let rn = rest.unicode_len();

    let mut chars_ok = true;
    let mut i: usize = 0;
    while i < rn
        invariant
            i <= rn,
            rn == rest@.len(),
            chars_ok == (forall|j: int|
                0 <= j < i ==> is_word_char(#[trigger] rest@[j]) || rest@[j] == '-'),
        decreases rn - i,
    {
        let c = rest.get_char(i);
        let good = is_word(c) || c == '-';
        if !good {
            chars_ok = false;
        }
        i = i + 1;
    }
    proof {
        assert(chars_ok == id_chars_ok(rest@));
    }

    let mut no_double = true;
    let mut i: usize = 0;
    while i + 1 < rn
        invariant
            rn == rest@.len(),
            i + 1 <= rn || i == 0,
            no_double == (forall|j: int|
                0 <= j < i ==> !(#[trigger] rest@[j] == '-' && rest@[j + 1] == '-')),
        decreases rn - i,
    {
        if rest.get_char(i) == '-' && rest.get_char(i + 1) == '-' {
            no_double = false;
        }
        i = i + 1;
    }
    proof {
        assert(no_double == no_double_separator(rest@));
    }

    let leading = rn > 0 && rest.get_char(0) == '-';
    let trailing = rn > 0 && rest.get_char(rn - 1) == '-';

    let mut violations: Vec<Violation> = Vec::new();
    let ghost name = file_name@;
    let ghost grest = rest_spec(stem_spec(name));
    if !has_ext {
        violations.push(Violation::WrongExtension);
    }
    let ghost v1 = (if !has_extension(name) {
        seq![Violation::WrongExtension]
    } else {
        Seq::<Violation>::empty()
    });
    proof {
        assert(violations@ =~= v1);
    }
    if recognized.is_none() {
        violations.push(Violation::MissingPrefix);
    }
    let ghost v2 = v1 + (if recognized_prefix(stem_spec(name)) is None {
        seq![Violation::MissingPrefix]
    } else {
        Seq::<Violation>::empty()
    });
    proof {
        assert(violations@ =~= v2);
    }
    if !chars_ok {
        violations.push(Violation::InvalidCharacter);
    }
    let ghost v3 = v2 + (if !id_chars_ok(grest) {
        seq![Violation::InvalidCharacter]
    } else {
        Seq::<Violation>::empty()
    });
    proof {
        assert(violations@ =~= v3);
    }
    if !no_double {
        violations.push(Violation::ConsecutiveSeparators);
    }
    let ghost v4 = v3 + (if !no_double_separator(grest) {
        seq![Violation::ConsecutiveSeparators]
    } else {
        Seq::<Violation>::empty()
    });
    proof {
        assert(violations@ =~= v4);
    }
    if leading {
        violations.push(Violation::LeadingSeparator);
    }
    let ghost v5 = v4 + (if grest.len() > 0 && grest[0] == '-' {
        seq![Violation::LeadingSeparator]
    } else {
        Seq::<Violation>::empty()
    });
    proof {
        assert(violations@ =~= v5);
    }
    if trailing {
        violations.push(Violation::TrailingSeparator);
    }
    proof {
        assert(violations@ =~= violations_spec(name));
    }
    violations
}

/// Validates one file name: `Ok` exactly when the name breaks no naming
/// rule, otherwise an error carrying every broken rule.
pub fn validate(file_name: &str) -> (r: Result<(), ValidationError>)
    ensures
        r is Ok <==> violations_spec(file_name@).len() == 0,
        r matches Err(e) ==> e.violations@ == violations_spec(file_name@),
{
    let violations = check_name(file_name);
    if violations.len() == 0 {
        Ok(())
    } else {
        Err(ValidationError { violations })
    }
}

/// The validator accepts exactly what the title-to-id converter and the
/// prefix policy produce: a prefixed id of a non-empty normalized title,
/// carrying the fixed extension, breaks no naming rule.
pub proof fn lemma_validator_accepts_generated(mt: ModuleType, title: Seq<char>)
    requires
        normalize_spec(title).len() > 0,
    ensures
        violations_spec(id_spec(mt, title, true) + ".adoc"@).len() == 0,
{
    reveal_strlit(".adoc");
    reveal_strlit("assembly_");
    reveal_strlit("con_");
    reveal_strlit("proc_");
    reveal_strlit("ref_");
    reveal_strlit("snip_");
    lemma_normalize_shape(title);
    let norm = normalize_spec(title);
    let id = id_spec(mt, title, true);
    let name = id + ".adoc"@;
    assert(mt.prefix_spec().len() >= 4);
    assert(name.subrange(name.len() - 5, name.len() as int) =~= ".adoc"@);
    assert(has_extension(name));
    assert(stem_spec(name) =~= id);
    assert(mt.prefix_spec() =~= id.subrange(0, mt.prefix_spec().len() as int));
    assert(mt.prefix_spec().is_prefix_of(id));
    assert(id[0] == mt.prefix_spec()[0]);
    assert forall|t: ModuleType| t != mt implies !t.prefix_spec().is_prefix_of(id) by {
        if t.prefix_spec().is_prefix_of(id) {
            assert(id[0] == t.prefix_spec()[0]);
        }
    }
    assert(recognized_prefix(id) == Some(mt));
    assert(rest_spec(id) =~= norm);
    assert(violations_spec(name).len() == 0);
}

/// The module invariant: the file name of a module built with prefixes on
/// breaks no naming rule.
pub proof fn lemma_module_name_valid(
    m: Module,
    mt: ModuleType,
    title: Seq<char>,
    incs: Seq<Seq<char>>,
    opts: Options,
)
    requires
        module_built(m, mt, title, incs, opts),
        opts.prefixes,
        normalize_spec(title).len() > 0,
    ensures
        violations_spec(m.id@ + ".adoc"@).len() == 0,
{
    lemma_validator_accepts_generated(mt, title);
}

/// The validator rejects what the rules name: a wrong extension, an
/// uppercase letter, or two separators in a row each put their violation in
/// the report.
pub proof fn lemma_validator_rejects(name: Seq<char>)
    ensures
        !has_extension(name) ==> violations_spec(name).contains(Violation::WrongExtension),
        (exists|i: int|
            0 <= i < rest_spec(stem_spec(name)).len() && 'A' <= #[trigger] rest_spec(
                stem_spec(name),
            )[i] && rest_spec(stem_spec(name))[i] <= 'Z') ==> violations_spec(name).contains(
            Violation::InvalidCharacter,
        ),
        !no_double_separator(rest_spec(stem_spec(name))) ==> violations_spec(name).contains(
            Violation::ConsecutiveSeparators,
        ),
{
    let rest = rest_spec(stem_spec(name));
    let vs = violations_spec(name);
    if !has_extension(name) {
        assert(vs[0] == Violation::WrongExtension);
        assert(vs.contains(Violation::WrongExtension));
    }
    if exists|i: int| 0 <= i < rest.len() && 'A' <= #[trigger] rest[i] && rest[i] <= 'Z' {
        let i = choose|i: int| 0 <= i < rest.len() && 'A' <= #[trigger] rest[i] && rest[i] <= 'Z';
        let c = rest[i];
        assert(folded(c) == seq![ascii_fold(c)]);
        if folded(c) == seq![c] {
            assert(folded(c)[0] == seq![c][0]);
            assert(ascii_fold(c) == c);
            assert((((c as u8) + 32) as u8) as char == c);
            assert(((((c as u8) + 32) as u8) as char) as u8 == c as u8);
            assert(false);
        }
        assert(!(is_word_char(c) || c == '-'));
        assert(!id_chars_ok(rest));
        let k = (if !has_extension(name) {
            1int
        } else {
            0int
        }) + (if recognized_prefix(stem_spec(name)) is None {
            1int
        } else {
            0int
        });
        assert(vs[k] == Violation::InvalidCharacter);
        assert(vs.contains(Violation::InvalidCharacter));
    }
    if !no_double_separator(rest) {
        let k = (if !has_extension(name) {
            1int
        } else {
            0int
        }) + (if recognized_prefix(stem_spec(name)) is None {
            1int
        } else {
            0int
        }) + (if !id_chars_ok(rest) {
            1int
        } else {
            0int
        });
        assert(vs[k] == Violation::ConsecutiveSeparators);
        assert(vs.contains(Violation::ConsecutiveSeparators));
    }
}

impl Violation {
    /// A short human-readable account of the broken rule.
    pub fn description(&self) -> &'static str {
        match self {
            Violation::WrongExtension => "the file extension is not .adoc",
            Violation::MissingPrefix => "the name starts with no module-type prefix",
            Violation::InvalidCharacter => "the name holds a character besides lowercase letters, digits and -",
            Violation::ConsecutiveSeparators => "the name holds two separators in a row",
            Violation::LeadingSeparator => "the name starts with a separator",
            Violation::TrailingSeparator => "the name ends with a separator",
        }
    }
}

} // verus!
