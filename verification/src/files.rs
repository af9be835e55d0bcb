//! A file together with the pieces of its path that the rest of the crate
//! reads: its name, its extension and its content. The driver reads the
//! file from disk and hands the content in.

use vstd::prelude::*;

verus! {

use vstd::string::StrSliceExecFns;
use vstd::string::StringExecFns;
use crate::util::{find_last_char, last_index_of_char, last_segment, last_segment_str};

/// The file's name: the last path component, when it is non-empty.
pub open spec fn spec_file_name(path: Seq<char>) -> Option<Seq<char>> {
    let seg = last_segment(path, '/');
    if seg.len() > 0 {
        Some(seg)
    } else {
        None
    }
}

/// The file's extension: the part of its name after the final `.`, when
/// the name holds a `.` past its first character.
pub open spec fn spec_file_extension(path: Seq<char>) -> Option<Seq<char>> {
    let seg = last_segment(path, '/');
    let k = last_index_of_char(seg, '.');
    if k > 0 {
        Some(seg.subrange(k + 1, seg.len() as int))
    } else {
        None
    }
}

/// A file handed in by the driver: its path, the name and extension
/// derived from it, and its content.
pub struct FileHandler {
    pub file_extension: Option<String>,
    pub file_name: Option<String>,
    pub file_path: String,
    pub file_content: String,
}

impl FileHandler {
    /// Derives the name and extension of the file at `file_path`, whose
    /// content the driver has read.
    pub fn new(file_path: &str, file_content: String) -> (r: FileHandler)
        ensures
            r.file_path@ == file_path@,
            r.file_content@ == file_content@,
            match r.file_name {
                Some(n) => spec_file_name(file_path@) == Some(n@),
                None => spec_file_name(file_path@) is None,
            },
            match r.file_extension {
                Some(e) => spec_file_extension(file_path@) == Some(e@),
                None => spec_file_extension(file_path@) is None,
            },
    {
        let seg = last_segment_str(file_path, '/');
        let n = seg.unicode_len();
        let name = if n == 0 {
            None
        } else {
            Some(String::from_str(seg))
        };
        let extension = match find_last_char(seg, '.') {
            Some(k) => if k > 0 {
                proof {
                    crate::util::lemma_last_index_of_char(seg@, '.');
                }
                Some(String::from_str(seg.substring_char(k + 1, n)))
            } else {
                None
            },
            None => None,
        };
        FileHandler {
            file_extension: extension,
            file_name: name,
            file_path: String::from_str(file_path),
            file_content,
        }
    }
}

} // verus!
