//! What the file commands hand over and what they decide before they touch
//! the disk.

use vstd::prelude::*;
use crate::text::chars_of;

verus! {

/// One entry of a directory listing.
#[derive(Debug, PartialEq, Eq)]
pub struct FileInfo {
    pub name: String,
    pub path: String,
    pub is_directory: bool,
    /// The length in bytes, for a regular file only.
    pub size: Option<u64>,
    /// The time of the last change; the listing does not fill it.
    pub modified: Option<String>,
}

/// The content of a file that is to be saved.
#[derive(Debug, PartialEq, Eq)]
pub struct SaveFileRequest {
    pub content: String,
}

/// Why a file is not renamed.
#[derive(Debug, Clone, Copy, PartialEq, Eq, Structural)]
pub enum RenameError {
    /// The old path has no parent directory.
    InvalidPath,
    /// The new name is empty or holds a character that no file name may hold.
    InvalidName,
    /// The parent directory already has an entry of the new name.
    AlreadyExists,
}

/// The characters that no file name may hold.
pub open spec fn is_forbidden_in_name(c: char) -> bool {
    c == '<' || c == '>' || c == ':' || c == '"' || c == '|' || c == '?' || c == '*'
}

pub open spec fn is_valid_name(name: Seq<char>) -> bool {
    name.len() > 0 && forall|i: int| 0 <= i < name.len() ==> !is_forbidden_in_name(#[trigger] name[i])
}

/// What stands in the way of a rename. The old path is looked at first, the
/// new name second, and last whether the name is taken.
pub open spec fn rename_obstacle(has_parent: bool, new_name: Seq<char>, target_exists: bool) -> Option<
    RenameError,
> {
    if !has_parent {
        Some(RenameError::InvalidPath)
    } else if !is_valid_name(new_name) {
        Some(RenameError::InvalidName)
    } else if target_exists {
        Some(RenameError::AlreadyExists)
    } else {
        None
    }
}

impl FileInfo {
    /// The entry for a file or directory as a listing shows it.
    pub fn describe(name: String, path: String, is_directory: bool, is_file: bool, len: u64) -> (info:
        FileInfo)
        ensures
            info.name == name,
            info.path == path,
            info.is_directory == is_directory,
            info.size == (if is_file {
                Some(len)
            } else {
                None
            }),
            info.modified is None,
    {
        FileInfo {
            name,
            path,
            is_directory,
            size: if is_file {
                Some(len)
            } else {
                None
            },
            modified: None,
        }
    }
}

impl RenameError {
    pub open spec fn message_text(self) -> Seq<char> {
        match self {
            RenameError::InvalidPath => "Geçersiz dosya yolu"@,
            RenameError::InvalidName => "Geçersiz dosya adı"@,
            RenameError::AlreadyExists => "Bu isimde bir dosya zaten mevcut"@,
        }
    }

    /// The text shown to the user for this error.
    pub fn message(&self) -> (text: &'static str)
        ensures
            text@ == self.message_text(),
    {
        match self {
            RenameError::InvalidPath => "Geçersiz dosya yolu",
            RenameError::InvalidName => "Geçersiz dosya adı",
            RenameError::AlreadyExists => "Bu isimde bir dosya zaten mevcut",
        }
    }
}

pub fn is_valid_file_name(name: &str) -> (valid: bool)
    ensures
        valid == is_valid_name(name@),
{
    let n = chars_of(name);
    if n.len() == 0 {
        return false;
    }
    let mut i: usize = 0;
    while i < n.len()
        invariant
            i <= n.len(),
            n@ == name@,
            forall|k: int| 0 <= k < i ==> !is_forbidden_in_name(#[trigger] n@[k]),
        decreases n.len() - i,
    {
        let c = n[i];
        if c == '<' || c == '>' || c == ':' || c == '"' || c == '|' || c == '?' || c == '*' {
            assert(is_forbidden_in_name(name@[i as int]));
            return false;
        }
        i += 1;
    }
    true
}

/// Decides whether a file may be given a new name in its directory.
pub fn check_rename(has_parent: bool, new_name: &str, target_exists: bool) -> (r: Result<
    (),
    RenameError,
>)
    ensures
        match r {
            Ok(_) => rename_obstacle(has_parent, new_name@, target_exists) is None,
            Err(e) => rename_obstacle(has_parent, new_name@, target_exists) == Some(e),
        },
{
    if !has_parent {
        Err(RenameError::InvalidPath)
    } else if !is_valid_file_name(new_name) {
        Err(RenameError::InvalidName)
    } else if target_exists {
        Err(RenameError::AlreadyExists)
    } else {
        Ok(())
    }
}

} // verus!
