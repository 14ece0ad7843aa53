//! The whole run, collector then generator, as one function on plain values;
//! and the startup precondition the tool checks before it runs.

use vstd::prelude::*;
use crate::codec::spec_content;
use crate::entry::{
    all_encodable, collect_entries, entry_matches, spec_collect_err, CollectError, RawFile,
};
use crate::render::{
    entry_texts, lemma_one_line_per_entry, lemma_render_empty, line_seq, render, spec_head,
    spec_render, tpl_tail,
};

verus! {

/// The (name, content) text a raw file contributes, where it is encodable.
pub open spec fn spec_entry_text(f: RawFile) -> (Seq<char>, Seq<char>) {
    (
        f.name@,
        match spec_content(f.strategy(), f.bytes@) {
            Some(c) => c,
            None => Seq::empty(),
        },
    )
}

pub open spec fn spec_entry_texts(files: Seq<RawFile>) -> Seq<(Seq<char>, Seq<char>)> {
    files.map_values(|f: RawFile| spec_entry_text(f))
}

/// The text of a whole run over the given raw files: a function of the files
/// and the structure name alone.
pub open spec fn spec_generate(files: Seq<RawFile>, name: Seq<char>) -> Seq<char> {
    spec_render(spec_entry_texts(files), name)
}

/// Runs the pipeline: encodes every raw file in order, then renders the
/// lookup-table source text under the given structure name. Fails exactly
/// where some file cannot be encoded, with the first such file's error.
pub fn generate(files: &Vec<RawFile>, struct_name: &str) -> (r: Result<String, CollectError>)
    ensures
        r is Ok <==> all_encodable(files@),
        (r matches Ok(s) ==> s@ == spec_generate(files@, struct_name@)),
        (r matches Err(err) ==> exists|i: int|
            0 <= i < files@.len() && spec_collect_err(err, #[trigger] files@[i]) && (forall|j: int|
                0 <= j < i ==> files@[j].encodable())),
{
    match collect_entries(files) {
        Ok(entries) => {
            proof {
                assert forall|i: int|
                    0 <= i < files@.len() implies entry_texts(entries@)[i] == spec_entry_texts(
                    files@,
                )[i] by {
                    assert(entry_matches(entries@[i], files@[i]));
                }
                assert(entry_texts(entries@) =~= spec_entry_texts(files@));
            }
            Ok(render(&entries, struct_name))
        },
        Err(err) => Err(err),
    }
}

/// Two runs on the same raw files and the same structure name produce the
/// same output text: generation is deterministic, so running the tool twice
/// on an unchanged input writes byte-identical output.
pub proof fn lemma_generate_deterministic(
    files_a: Seq<RawFile>,
    files_b: Seq<RawFile>,
    name_a: Seq<char>,
    name_b: Seq<char>,
)
    requires
        files_a == files_b,
        name_a == name_b,
    ensures
        spec_generate(files_a, name_a) == spec_generate(files_b, name_b),
{
}

/// Over a whole run: the generated text is the template's head, then the
/// concatenation of exactly one insertion line per raw file, in the files'
/// order, then the tail.
pub proof fn lemma_generate_one_line_per_file(files: Seq<RawFile>, name: Seq<char>)
    ensures
        spec_generate(files, name) == spec_head(name) + line_seq(
            spec_entry_texts(files),
        ).flatten() + tpl_tail(),
        line_seq(spec_entry_texts(files)).len() == files.len(),
{
    lemma_one_line_per_entry(spec_entry_texts(files), name);
}

/// A run over no files generates just the structure definition, with no
/// insertion line: so an empty or nonexistent input directory still renders
/// complete output text.
pub proof fn lemma_generate_empty(name: Seq<char>)
    ensures
        spec_generate(Seq::empty(), name) == spec_head(name) + tpl_tail(),
{
    assert(spec_entry_texts(Seq::empty()) =~= Seq::<(Seq<char>, Seq<char>)>::empty());
    lemma_render_empty(name);
}

/// The startup precondition: the tool runs only when invoked through its
/// host build tool, whose marker variable's value the caller hands in.
pub fn invocation_allowed(host_marker: &Option<String>) -> (r: bool)
    ensures
        r == (host_marker is Some),
{
    match host_marker {
        Some(_) => true,
        None => false,
    }
}

} // verus!
