use crate::utils::constants;
use vstd::prelude::*;

verus! {

/// The kinds of file the server can host statically.
#[derive(Debug, Clone, Copy, PartialEq, Eq, Structural)]
pub enum FileType {
    HTML,
    PNG,
    JPG,
    JPEG,
    TEXT,
    RS,
}

/// Whether a file of this kind is sent as text (and so must be UTF-8).
pub open spec fn is_text_kind(kind: FileType) -> bool {
    kind == FileType::HTML || kind == FileType::TEXT || kind == FileType::RS
}

/// The `Content-Type` the server sends a hosted file of this kind with.
pub open spec fn content_type_of(kind: FileType) -> &'static str {
    match kind {
        FileType::HTML | FileType::TEXT => constants::CONTENT_TEXT_HTML,
        FileType::PNG => constants::CONTENT_PNG,
        FileType::JPG => constants::CONTENT_JPG,
        FileType::JPEG => constants::CONTENT_JPEG,
        FileType::RS => constants::CONTENT_RS,
    }
}

/// The kind of file a file-name extension stands for, if the server hosts it.
pub open spec fn file_type_for(extension: Seq<char>) -> Option<FileType> {
    if extension == "html"@ {
        Some(FileType::HTML)
    } else if extension == "png"@ {
        Some(FileType::PNG)
    } else if extension == "jpg"@ {
        Some(FileType::JPG)
    } else if extension == "jpeg"@ {
        Some(FileType::JPEG)
    } else if extension == "txt"@ {
        Some(FileType::TEXT)
    } else if extension == "rs"@ {
        Some(FileType::RS)
    } else {
        None
    }
}

impl FileType {
    /// Whether a file of this kind is sent as text.
    pub fn is_text(self) -> (r: bool)
        ensures
            r == is_text_kind(self),
    {
        match self {
            FileType::HTML | FileType::TEXT | FileType::RS => true,
            _ => false,
        }
    }

    /// The `Content-Type` of a hosted file of this kind.
    pub fn content_type(self) -> (r: &'static str)
        ensures
            r == content_type_of(self),
    {
        match self {
            FileType::HTML | FileType::TEXT => constants::CONTENT_TEXT_HTML,
            FileType::PNG => constants::CONTENT_PNG,
            FileType::JPG => constants::CONTENT_JPG,
            FileType::JPEG => constants::CONTENT_JPEG,
            FileType::RS => constants::CONTENT_RS,
        }
    }
}

/// A hosted file is announced with the MIME type of its kind: images as
/// `image/png`, `image/jpg` or `image/jpeg`, pages and text as `text/html`;
/// so no image is sent as a page, and a file is sent as text exactly when its
/// type is `text/html` (or the test kind's marker).
pub proof fn lemma_content_types()
    ensures
        content_type_of(FileType::HTML)@ == "text/html"@,
        content_type_of(FileType::TEXT)@ == "text/html"@,
        content_type_of(FileType::PNG)@ == "image/png"@,
        content_type_of(FileType::JPG)@ == "image/jpg"@,
        content_type_of(FileType::JPEG)@ == "image/jpeg"@,
        content_type_of(FileType::RS)@ == "testing `fail`"@,
        forall|k: FileType| !is_text_kind(k) ==> content_type_of(k)@ != "text/html"@,
{
    reveal_strlit("text/html");
    reveal_strlit("image/png");
    reveal_strlit("image/jpg");
    reveal_strlit("image/jpeg");
    assert("image/png"@[0] != "text/html"@[0]);
    assert("image/jpg"@[0] != "text/html"@[0]);
    assert("image/jpeg"@[0] != "text/html"@[0]);
}

} // verus!
