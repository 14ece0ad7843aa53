//! The collector: raw files as the directory walk hands them in, and the
//! encoded entries made from them.

use vstd::prelude::*;
use vstd::utf8::valid_utf8;
use crate::codec::{
    encode_content, opt_string_view, spec_content, spec_encodable, spec_image_kind, spec_strategy,
    str_eq, strategy_of, Strategy,
};

verus! {

/// A file as the directory walk found it: its path text, its extension (if
/// it has one), and its raw bytes.
pub struct RawFile {
    pub name: String,
    pub extension: Option<String>,
    pub bytes: Vec<u8>,
}

impl RawFile {
    pub open spec fn ext_view(&self) -> Option<Seq<char>> {
        opt_string_view(self.extension)
    }

    /// The encoding strategy the file's extension selects.
    pub open spec fn strategy(&self) -> Strategy {
        spec_strategy(self.ext_view())
    }

    /// Whether the file's bytes can be encoded under that strategy.
    pub open spec fn encodable(&self) -> bool {
        spec_encodable(self.strategy(), self.bytes@)
    }
}

/// One processed file: its name and its text-safe encoded content.
pub struct FileEntry {
    pub name: String,
    pub content: String,
}

/// Why collection aborted: the named file cannot be read as text, or claims
/// to be an image of no kind the image encoder knows.
#[derive(Debug)]
pub enum CollectError {
    NotText(String),
    UnknownImageType(String),
}

/// The error that collecting a given raw file produces: its kind names the
/// failure and it carries the file's name.
pub open spec fn spec_collect_err(err: CollectError, f: RawFile) -> bool {
    match err {
        CollectError::NotText(n) => n@ == f.name@ && f.strategy() is Text && !valid_utf8(
            f.bytes@,
        ),
        CollectError::UnknownImageType(n) => n@ == f.name@ && f.strategy() is Image
            && spec_image_kind(f.bytes@) is None,
    }
}

/// The entry is the one the raw file encodes to.
pub open spec fn entry_matches(e: FileEntry, f: RawFile) -> bool {
    e.name@ == f.name@ && Some(e.content@) == spec_content(f.strategy(), f.bytes@)
}

pub open spec fn all_encodable(files: Seq<RawFile>) -> bool {
    forall|i: int| 0 <= i < files.len() ==> (#[trigger] files[i]).encodable()
}

/// The walk skips OS metadata files: exactly those named ".DS_Store".
pub fn should_process(file_name: &str) -> (r: bool)
    ensures
        r == (file_name@ != ".DS_Store"@),
{
    !str_eq(file_name, ".DS_Store")
}

/// Turns one raw file into its entry: the file's name, and its bytes encoded
/// under the strategy its extension selects. Fails exactly where the bytes
/// cannot be encoded, naming the file and the failure's kind.
pub fn process_file(file: &RawFile) -> (r: Result<FileEntry, CollectError>)
    ensures
        r is Ok <==> file.encodable(),
        (r matches Ok(e) ==> entry_matches(e, *file)),
        (r matches Err(err) ==> spec_collect_err(err, *file)),
{
    let strategy = strategy_of(&file.extension);
    match encode_content(strategy, &file.bytes) {
        Some(content) => Ok(FileEntry { name: file.name.clone(), content }),
        None => match strategy {
            Strategy::Text => Err(CollectError::NotText(file.name.clone())),
            Strategy::Image => Err(CollectError::UnknownImageType(file.name.clone())),
        },
    }
}

/// Encodes the raw files in order, one entry per file; the first file whose
/// bytes cannot be encoded aborts the run with its error, and no entries are
/// handed out.
pub fn collect_entries(files: &Vec<RawFile>) -> (r: Result<Vec<FileEntry>, CollectError>)
    ensures
        r is Ok <==> all_encodable(files@),
        (r matches Ok(es) ==> es@.len() == files@.len() && forall|i: int|
            0 <= i < files@.len() ==> entry_matches(#[trigger] es@[i], files@[i])),
        (r matches Err(err) ==> exists|i: int|
            0 <= i < files@.len() && spec_collect_err(err, #[trigger] files@[i]) && (forall|j: int|
                0 <= j < i ==> files@[j].encodable())),
{
    let mut out: Vec<FileEntry> = Vec::new();
    let mut i: usize = 0;
    while i < files.len()
        invariant
            i <= files@.len(),
            out@.len() == i,
            forall|j: int| 0 <= j < i ==> (#[trigger] files@[j]).encodable(),
            forall|j: int| 0 <= j < i ==> entry_matches(#[trigger] out@[j], files@[j]),
        decreases files@.len() - i,
    {
        match process_file(&files[i]) {
            Ok(e) => out.push(e),
            Err(err) => {
                proof {
                    assert(spec_collect_err(err, files@[i as int]));
                    assert(!files@[i as int].encodable());
                }
                return Err(err);
            },
        }
        i += 1;
    }
    Ok(out)
}

} // verus!
