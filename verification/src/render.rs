//! The generator: renders the collected entries into the generated source
//! text, a struct holding a string-to-string lookup table and a constructor
//! that inserts one (name, content) pair per entry.

use vstd::prelude::*;
use vstd::string::StringExecFns;
use crate::entry::FileEntry;

verus! {

// The fixed template, split at the points where the structure name and the
// entries are interpolated. The name is interpolated three times: in the
// struct definition, in the impl header, and in the constructor's signature.

pub open spec fn tpl_head_a() -> Seq<char> {
    "\nuse std::collections::HashMap;\n\npub struct StaticFiles"@
}

pub open spec fn tpl_head_b() -> Seq<char> {
    "<'a> {\n    pub(crate) map: HashMap<&'a str, &'a str>\n}\n\nimpl<'a> StaticFiles"@
}

pub open spec fn tpl_head_c() -> Seq<char> {
    "<'a> {\n    pub fn new() -> StaticFiles"@
}

pub open spec fn tpl_head_d() -> Seq<char> {
    "<'a> {\n        let mut files = StaticFiles {\n            map: HashMap::new()\n        };\n        "@
}

pub open spec fn tpl_insert_open() -> Seq<char> {
    "\n        files.map.insert(\""@
}

pub open spec fn tpl_insert_mid() -> Seq<char> {
    "\", \""@
}

pub open spec fn tpl_insert_close() -> Seq<char> {
    "\");"@
}

pub open spec fn tpl_tail() -> Seq<char> {
    "\n\n        files\n    }\n}\n"@
}

/// Everything above the first insertion line: the template's head with the
/// structure name filled in at each of its three places.
pub open spec fn spec_head(name: Seq<char>) -> Seq<char> {
    tpl_head_a() + name + tpl_head_b() + name + tpl_head_c() + name + tpl_head_d()
}

/// The one insertion line an entry contributes.
pub open spec fn spec_insert_line(name: Seq<char>, content: Seq<char>) -> Seq<char> {
    tpl_insert_open() + name + tpl_insert_mid() + content + tpl_insert_close()
}

/// The block of insertion lines: the entries' lines, in the entries' order.
pub open spec fn spec_lines(entries: Seq<(Seq<char>, Seq<char>)>) -> Seq<char>
    decreases entries.len(),
{
    if entries.len() == 0 {
        Seq::empty()
    } else {
        spec_lines(entries.drop_last()) + spec_insert_line(
            entries.last().0,
            entries.last().1,
        )
    }
}

/// The whole rendered text.
pub open spec fn spec_render(entries: Seq<(Seq<char>, Seq<char>)>, name: Seq<char>) -> Seq<char> {
    spec_head(name) + spec_lines(entries) + tpl_tail()
}

/// The (name, content) texts of a sequence of entries.
pub open spec fn entry_texts(entries: Seq<FileEntry>) -> Seq<(Seq<char>, Seq<char>)> {
    entries.map_values(|e: FileEntry| (e.name@, e.content@))
}

/// The insertion lines, one per entry.
pub open spec fn line_seq(entries: Seq<(Seq<char>, Seq<char>)>) -> Seq<Seq<char>> {
    entries.map_values(|p: (Seq<char>, Seq<char>)| spec_insert_line(p.0, p.1))
}

proof fn lemma_lines_flatten(entries: Seq<(Seq<char>, Seq<char>)>)
    ensures
        spec_lines(entries) == line_seq(entries).flatten_alt(),
    decreases entries.len(),
{
    if entries.len() == 0 {
        assert(line_seq(entries).len() == 0);
        assert(spec_lines(entries) =~= line_seq(entries).flatten_alt());
    } else {
        lemma_lines_flatten(entries.drop_last());
        assert(line_seq(entries.drop_last()) =~= line_seq(entries).drop_last());
        assert(line_seq(entries).last() == spec_insert_line(entries.last().0, entries.last().1));
    }
}

/// One insertion line per collected file, in order: the rendered text is the
/// head, then the concatenation of exactly one line for each entry, then the
/// tail.
pub proof fn lemma_one_line_per_entry(entries: Seq<(Seq<char>, Seq<char>)>, name: Seq<char>)
    ensures
        spec_render(entries, name) == spec_head(name) + line_seq(entries).flatten() + tpl_tail(),
        line_seq(entries).len() == entries.len(),
        forall|i: int|
            0 <= i < entries.len() ==> line_seq(entries)[i] == spec_insert_line(
                (#[trigger] entries[i]).0,
                entries[i].1,
            ),
{
    lemma_lines_flatten(entries);
    line_seq(entries).lemma_flatten_and_flatten_alt_are_equivalent();
}

/// An empty collection renders to just the structure definition: the head
/// with the name filled in, then the tail, with no insertion line between.
pub proof fn lemma_render_empty(name: Seq<char>)
    ensures
        spec_render(Seq::empty(), name) == spec_head(name) + tpl_tail(),
{
    assert(spec_lines(Seq::empty()) =~= Seq::<char>::empty());
    assert(spec_head(name) + Seq::<char>::empty() + tpl_tail() =~= spec_head(name) + tpl_tail());
}

/// Renders the fixed template: the head with the structure name interpolated,
/// one insertion line per entry in the entries' order, and the tail.
pub fn render(entries: &Vec<FileEntry>, struct_name: &str) -> (r: String)
    ensures
        r@ == spec_render(entry_texts(entries@), struct_name@),
{
    let ghost txts = entry_texts(entries@);
    let mut out = "\nuse std::collections::HashMap;\n\npub struct StaticFiles".to_owned();
    out.append(struct_name);
    out.append("<'a> {\n    pub(crate) map: HashMap<&'a str, &'a str>\n}\n\nimpl<'a> StaticFiles");
    out.append(struct_name);
    out.append("<'a> {\n    pub fn new() -> StaticFiles");
    out.append(struct_name);
    out.append(
        "<'a> {\n        let mut files = StaticFiles {\n            map: HashMap::new()\n        };\n        ",
    );
    proof {
        assert(out@ =~= spec_head(struct_name@) + spec_lines(txts.take(0)));
    }
    let mut i: usize = 0;
    while i < entries.len()
        invariant
            i <= entries@.len(),
            txts == entry_texts(entries@),
            out@ == spec_head(struct_name@) + spec_lines(txts.take(i as int)),
        decreases entries@.len() - i,
    {
        out.append("\n        files.map.insert(\"");
        out.append(entries[i].name.as_str());
        out.append("\", \"");
        out.append(entries[i].content.as_str());
        out.append("\");");
        proof {
            assert(txts.take(i + 1).drop_last() =~= txts.take(i as int));
            assert(txts.take(i + 1).last() == txts[i as int]);
            assert(out@ =~= spec_head(struct_name@) + spec_lines(txts.take(i + 1)));
        }
        i += 1;
    }
    out.append("\n\n        files\n    }\n}\n");
    proof {
        assert(txts.take(entries@.len() as int) =~= txts);
        assert(out@ =~= spec_render(txts, struct_name@));
    }
    out
}

} // verus!
