//! The template renderer: builds the full text of a module file from its
//! type, id, title, and the feature toggles, and the include statement that
//! other modules use to embed it.
use vstd::prelude::*;

use crate::Options;
use crate::module::ModuleType;

verus! {

/// The views of a list of strings.
pub open spec fn seq_views(ss: Seq<String>) -> Seq<Seq<char>> {
    ss.map_values(|s: String| s@)
}

/// The uppercase content-type label that marks a rendered file.
pub open spec fn marker_label_spec(mt: ModuleType) -> Seq<char> {
    match mt {
        ModuleType::Assembly => "ASSEMBLY"@,
        ModuleType::Concept => "CONCEPT"@,
        ModuleType::Procedure => "PROCEDURE"@,
        ModuleType::Reference => "REFERENCE"@,
        ModuleType::Snippet => "SNIPPET"@,
    }
}

/// The structural head of every rendered file: the content-type marker, the
/// anchor carrying the id, and the title heading.
pub open spec fn header_spec(mt: ModuleType, id: Seq<char>, title: Seq<char>) -> Seq<char> {
    ":_content-type: "@ + marker_label_spec(mt) + "\n\n[id=\""@ + id + "\"]\n= "@ + title + "\n"@
}

/// The explanatory scaffolding comments of a module type, emitted only when
/// the `comments` option is on.
pub open spec fn comment_block_spec(mt: ModuleType) -> Seq<char> {
    match mt {
        ModuleType::Assembly => "//\n// Give an overview of the work this assembly covers.\n// List the modules it collects below.\n//\n"@,
        ModuleType::Concept => "//\n// Explain what the concept is and why the reader should care.\n// Keep the explanation to a few short paragraphs.\n//\n"@,
        ModuleType::Procedure => "//\n// State the goal of the procedure and any prerequisites.\n// Write each step as a single imperative sentence.\n//\n"@,
        ModuleType::Reference => "//\n// Collect the reference data the reader looks up.\n// Prefer a structured list or a table to prose.\n//\n"@,
        ModuleType::Snippet => "//\n// Write content that other modules can reuse verbatim.\n// Keep it free of context that ties it to one place.\n//\n"@,
    }
}

/// The include statements of a populated assembly, one per line, in the
/// order received.
pub open spec fn joined_includes_spec(incs: Seq<Seq<char>>) -> Seq<char>
    decreases incs.len(),
{
    if incs.len() == 0 {
        Seq::empty()
    } else {
        joined_includes_spec(incs.drop_last()) + incs.last() + "\n"@
    }
}

/// The structural body of a module type. An assembly that was given include
/// statements lists them in place of its placeholder body.
pub open spec fn body_spec(mt: ModuleType, incs: Seq<Seq<char>>) -> Seq<char> {
    match mt {
        ModuleType::Assembly => if incs.len() == 0 {
            "\nThe modules that this assembly collects.\n"@
        } else {
            "\n"@ + joined_includes_spec(incs)
        },
        ModuleType::Concept => "\nA paragraph that introduces the concept.\n"@,
        ModuleType::Procedure => "\n.Procedure\n\n. The first step.\n. The second step.\n"@,
        ModuleType::Reference => "\nA list or table of the reference data.\n"@,
        ModuleType::Snippet => "\nA reusable paragraph of shared content.\n"@,
    }
}

/// The include directive that embeds the module with the given id.
pub open spec fn include_statement_spec(id: Seq<char>) -> Seq<char> {
    "include::"@ + id + ".adoc[leveloffset=+1]"@
}

/// The example block appended when the `examples` option is on: the example
/// marker line, then the module's own include directive as sample syntax.
pub open spec fn example_block_spec(id: Seq<char>) -> Seq<char> {
    "// Example:\n"@ + include_statement_spec(id) + "\n"@
}

/// The full rendered content of a module file.
pub open spec fn render_spec(
    mt: ModuleType,
    id: Seq<char>,
    title: Seq<char>,
    incs: Seq<Seq<char>>,
    comments: bool,
    examples: bool,
) -> Seq<char> {
    header_spec(mt, id, title) + (if comments {
        comment_block_spec(mt)
    } else {
        Seq::<char>::empty()
    }) + body_spec(mt, incs) + (if examples {
        example_block_spec(id)
    } else {
        Seq::<char>::empty()
    })
}

fn marker_label(module_type: ModuleType) -> (l: &'static str)
    ensures
        l@ == marker_label_spec(module_type),
{
    match module_type {
        ModuleType::Assembly => "ASSEMBLY",
        ModuleType::Concept => "CONCEPT",
        ModuleType::Procedure => "PROCEDURE",
        ModuleType::Reference => "REFERENCE",
        ModuleType::Snippet => "SNIPPET",
    }
}

fn comment_block(module_type: ModuleType) -> (b: &'static str)
    ensures
        b@ == comment_block_spec(module_type),
{
    match module_type {
        ModuleType::Assembly => "//\n// Give an overview of the work this assembly covers.\n// List the modules it collects below.\n//\n",
        ModuleType::Concept => "//\n// Explain what the concept is and why the reader should care.\n// Keep the explanation to a few short paragraphs.\n//\n",
        ModuleType::Procedure => "//\n// State the goal of the procedure and any prerequisites.\n// Write each step as a single imperative sentence.\n//\n",
        ModuleType::Reference => "//\n// Collect the reference data the reader looks up.\n// Prefer a structured list or a table to prose.\n//\n",
        ModuleType::Snippet => "//\n// Write content that other modules can reuse verbatim.\n// Keep it free of context that ties it to one place.\n//\n",
    }
}

/// Builds the include directive that embeds the module with the given id.
pub fn include_statement(id: &str) -> (stmt: String)
    ensures
        stmt@ == include_statement_spec(id@),
{
    let mut s = String::from_str("include::");
    s.append(id);
    s.append(".adoc[leveloffset=+1]");
    s
}

/// Renders the full content of a module file from its parts, honoring the
/// `comments` and `examples` options.
pub fn render(
    module_type: ModuleType,
    id: &str,
    title: &str,
    include_statements: &Vec<String>,
    options: &Options,
) -> (content: String)
    ensures
        content@ == render_spec(
            module_type,
            id@,
            title@,
            seq_views(include_statements@),
            options.comments,
            options.examples,
        ),
{
    let ghost incs = seq_views(include_statements@);
    let mut s = String::from_str(":_content-type: ");
    s.append(marker_label(module_type));
    s.append("\n\n[id=\"");
    s.append(id);
    s.append("\"]\n= ");
    s.append(title);
    s.append("\n");
    proof {
        assert(s@ =~= header_spec(module_type, id@, title@));
    }
    if options.comments {
        s.append(comment_block(module_type));
    }
    let ghost with_comments = header_spec(module_type, id@, title@) + (if options.comments {
        comment_block_spec(module_type)
    } else {
        Seq::<char>::empty()
    });
    proof {
        assert(s@ =~= with_comments);
    }
    match module_type {
        ModuleType::Assembly => {
            if include_statements.len() == 0 {
                s.append("\nThe modules that this assembly collects.\n");
            } else {
                s.append("\n");
                let mut i: usize = 0;
                while i < include_statements.len()
                    invariant
                        i <= include_statements.len(),
                        incs == seq_views(include_statements@),
                        incs.len() == include_statements@.len(),
                        s@ == with_comments + "\n"@ + joined_includes_spec(incs.subrange(0, i as int)),
                    decreases include_statements.len() - i,
                {
                    s.append(include_statements[i].as_str());
                    s.append("\n");
                    proof {
                        assert(incs.subrange(0, i + 1).drop_last() =~= incs.subrange(0, i as int));
                        assert(incs.subrange(0, i + 1).last() == include_statements@[i as int]@);
                        assert(s@ =~= with_comments + "\n"@ + joined_includes_spec(
                            incs.subrange(0, i + 1),
                        ));
                    }
                    i = i + 1;
                }
                proof {
                    assert(incs.subrange(0, incs.len() as int) =~= incs);
                }
            }
        },
        ModuleType::Concept => {
            s.append("\nA paragraph that introduces the concept.\n");
        },
        ModuleType::Procedure => {
            s.append("\n.Procedure\n\n. The first step.\n. The second step.\n");
        },
        ModuleType::Reference => {
            s.append("\nA list or table of the reference data.\n");
        },
        ModuleType::Snippet => {
            s.append("\nA reusable paragraph of shared content.\n");
        },
    }
    proof {
        assert(s@ =~= with_comments + body_spec(module_type, incs));
    }
    if options.examples {
        s.append("// Example:\n");
        s.append("include::");
        s.append(id);
        s.append(".adoc[leveloffset=+1]");
        s.append("\n");
    }
    proof {
        assert(s@ =~= render_spec(
            module_type,
            id@,
            title@,
            incs,
            options.comments,
            options.examples,
        ));
    }
    s
}

/// Turning the `comments` option off removes exactly the comment-scaffold
/// block from the rendered content and changes nothing else: both renderings
/// split into the same head and tail, with the block between them only when
/// comments are on.
pub proof fn lemma_comments_toggle(
    mt: ModuleType,
    id: Seq<char>,
    title: Seq<char>,
    incs: Seq<Seq<char>>,
    examples: bool,
)
    ensures
        ({
            let head = header_spec(mt, id, title);
            let tail = body_spec(mt, incs) + (if examples {
                example_block_spec(id)
            } else {
                Seq::<char>::empty()
            });
            render_spec(mt, id, title, incs, true, examples) == head + comment_block_spec(mt)
                + tail && render_spec(mt, id, title, incs, false, examples) == head + tail
        }),
{
    let head = header_spec(mt, id, title);
    let tail = body_spec(mt, incs) + (if examples {
        example_block_spec(id)
    } else {
        Seq::<char>::empty()
    });
    assert(render_spec(mt, id, title, incs, true, examples) =~= head + comment_block_spec(mt)
        + tail);
    assert(render_spec(mt, id, title, incs, false, examples) =~= head + tail);
}

/// Turning the `examples` option on appends exactly the example block, whose
/// first line is the example marker; turning it off removes exactly that
/// trailing block.
pub proof fn lemma_examples_toggle(
    mt: ModuleType,
    id: Seq<char>,
    title: Seq<char>,
    incs: Seq<Seq<char>>,
    comments: bool,
)
    ensures
        render_spec(mt, id, title, incs, comments, true) == render_spec(
            mt,
            id,
            title,
            incs,
            comments,
            false,
        ) + example_block_spec(id),
        example_block_spec(id).subrange(0, 12) == "// Example:\n"@,
{
    assert(render_spec(mt, id, title, incs, comments, true) =~= render_spec(
        mt,
        id,
        title,
        incs,
        comments,
        false,
    ) + example_block_spec(id));
    reveal_strlit("// Example:\n");
    assert(example_block_spec(id).subrange(0, 12) =~= "// Example:\n"@);
}

/// The round trip of an include statement: rendered as the sole entry of an
/// assembly's include list, it appears verbatim in the assembly's content.
pub proof fn lemma_include_round_trip(
    id: Seq<char>,
    title: Seq<char>,
    stmt: Seq<char>,
    comments: bool,
    examples: bool,
)
    ensures
        ({
            let content = render_spec(ModuleType::Assembly, id, title, seq![stmt], comments, examples);
            exists|k: int|
                0 <= k && k + stmt.len() <= content.len() && #[trigger] content.subrange(
                    k,
                    k + stmt.len() as int,
                ) == stmt
        }),
{
    reveal_strlit("\n");
    let content = render_spec(ModuleType::Assembly, id, title, seq![stmt], comments, examples);
    let pre = header_spec(ModuleType::Assembly, id, title) + (if comments {
        comment_block_spec(ModuleType::Assembly)
    } else {
        Seq::<char>::empty()
    });
    let one = seq![stmt];
    assert(one.drop_last() =~= Seq::<Seq<char>>::empty());
    assert(joined_includes_spec(one.drop_last()) == Seq::<char>::empty());
    let j = joined_includes_spec(one);
    assert(j == Seq::<char>::empty() + stmt + "\n"@);
    let body = body_spec(ModuleType::Assembly, one);
    assert(body == "\n"@ + j);
    let tail = if examples {
        example_block_spec(id)
    } else {
        Seq::<char>::empty()
    };
    assert(content == pre + body + tail);
    assert("\n"@.len() == 1);
    let k = pre.len() as int + 1;
    assert forall|t: int| 0 <= t < stmt.len() implies content[k + t] == stmt[t] by {
        assert(j[t] == stmt[t]);
        assert(body[1 + t] == j[t]);
        assert(content[k + t] == body[1 + t]);
    }
    assert(content.subrange(k, k + stmt.len() as int) =~= stmt);
    assert(0 <= k && k + stmt.len() <= content.len() && content.subrange(k, k + stmt.len() as int)
        == stmt);
}

} // verus!
