use super::file_type::{file_type_for, FileType};
use crate::utils::text::{lemma_split_nonempty, split, split_str, str_eq};
use vstd::prelude::*;

verus! {

/// The name a hosted file is served under: its file name up to the first `.`.
pub open spec fn served_name(file_name: Seq<char>) -> Seq<char> {
    split(file_name, "."@)[0]
}

/// The position of the last `.` among the first `end` characters of `name`.
pub open spec fn last_dot_before(name: Seq<char>, end: int) -> Option<int>
    decreases end,
{
    if end <= 0 {
        None
    } else if name[end - 1] == '.' {
        Some(end - 1)
    } else {
        last_dot_before(name, end - 1)
    }
}

/// The extension of a file name, as `Path::extension` reads it: what follows
/// the last `.`, unless there is none, the name starts with its only `.`,
/// or the name is `..`.
pub open spec fn extension_of(file_name: Seq<char>) -> Option<Seq<char>> {
    if file_name == ".."@ {
        None
    } else {
        match last_dot_before(file_name, file_name.len() as int) {
            None => None,
            Some(i) => if i == 0 {
                None
            } else {
                Some(file_name.subrange(i + 1, file_name.len() as int))
            },
        }
    }
}

/// internal file type for static hosted files
#[derive(Debug, Clone)]
pub struct StaticFile {
    pub name: String,
    /// where the file is on disk: the bytes of its path
    pub location: Vec<u8>,
    pub kind: FileType,
}

impl StaticFile {
    /// The extension of a file name: what follows its last `.`, if the name
    /// has one after its first character and is not `..`.
    pub fn file_extension(file_name: &str) -> (r: Option<String>)
        ensures
            match extension_of(file_name@) {
                Some(e) => r matches Some(x) && x@ == e,
                None => r is None,
            },
    {
        proof {
            reveal_strlit("..");
        }
        if str_eq(file_name, "..") {
            return None;
        }
        let n = file_name.unicode_len();
        let mut end = n;
        while end > 0
            invariant
                n == file_name@.len(),
                file_name@ != ".."@,
                end <= n,
                last_dot_before(file_name@, n as int) == last_dot_before(file_name@, end as int),
            decreases end,
        {
            if file_name.get_char(end - 1) == '.' {
                assert(last_dot_before(file_name@, end as int) == Some(end - 1));
                if end == 1 {
                    return None;
                }
                return Some(String::from_str(file_name.substring_char(end, n)));
            }
            end = end - 1;
        }
        None
    }

    /// A hosted file, from its file name and its path on disk; the kind of
    /// file is the one the name's extension names.
    pub fn new(file_name: &str, location: Vec<u8>) -> (r: Self)
        requires
            extension_of(file_name@) matches Some(e) && file_type_for(e) is Some,
        ensures
            r.name@ == served_name(file_name@),
            r.location@ == location@,
            file_type_for(extension_of(file_name@).unwrap()) == Some(r.kind),
    {
        proof {
            reveal_strlit(".");
            lemma_split_nonempty(file_name@, "."@);
        }
        let chunks = split_str(file_name, ".");
        let name = String::from_str(chunks[0]);
        let kind = match Self::file_extension(file_name) {
            Some(ext) => match Self::get_file_type(ext.as_str()) {
                Some(ft) => ft,
                None => FileType::HTML,
            },
            None => FileType::HTML,
        };
        Self { name, location, kind }
    }

    /// The kind of file an extension names, if the server hosts such files.
    pub fn get_file_type(extension: &str) -> (r: Option<FileType>)
        ensures
            r == file_type_for(extension@),
    {
        if crate::utils::text::str_eq(extension, "html") {
            Some(FileType::HTML)
        } else if crate::utils::text::str_eq(extension, "png") {
            Some(FileType::PNG)
        } else if crate::utils::text::str_eq(extension, "jpg") {
            Some(FileType::JPG)
        } else if crate::utils::text::str_eq(extension, "jpeg") {
            Some(FileType::JPEG)
        } else if crate::utils::text::str_eq(extension, "txt") {
            Some(FileType::TEXT)
        } else if crate::utils::text::str_eq(extension, "rs") {
            // this is just for testing purposes
            Some(FileType::RS)
        } else {
            None
        }
    }
}

} // verus!
