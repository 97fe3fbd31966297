//! The upload folder: which names files are stored under, and what a listing
//! of the folder shows.

use crate::config::{ensure_upload_folder, expansion_of, Config, ExpandedPath};
use vstd::prelude::*;
use vstd::string::StringExecFns;

verus! {

/// A character that no stored file name holds: a path separator, a character
/// that a shell or a file system gives a meaning to, or a control character.
pub open spec fn is_unsafe_char(c: char) -> bool {
    ||| c == '/'
    ||| c == '?'
    ||| c == '<'
    ||| c == '>'
    ||| c == '\\'
    ||| c == ':'
    ||| c == '*'
    ||| c == '|'
    ||| c == '"'
    ||| (c as u32) <= 0x1f
    ||| 0x80 <= (c as u32) <= 0x9f
}

/// A name that can be stored in the upload folder. It holds no unsafe
/// character and is neither `.` nor `..`, so it names nothing outside the
/// folder, and it is no longer than 255 characters.
pub open spec fn is_stored_name(name: Seq<char>) -> bool {
    &&& name.len() <= 255
    &&& forall|i: int| 0 <= i < name.len() ==> !is_unsafe_char(#[trigger] name[i])
    &&& name != seq!['.']
    &&& name != seq!['.', '.']
}

/// `sanitize_filename::sanitize`. It removes every match of its patterns for
/// illegal and control characters, then a name that is made of dots alone,
/// and at last cuts what is longer than 255 bytes down to at most 255; what
/// else it removes depends on the platform. The contract claims what holds
/// on every platform: the result is a stored name.
#[verifier::external_body]
fn sanitize(name: &str) -> (clean: String)
    ensures
        is_stored_name(clean@),
{
    sanitize_filename::sanitize(name)
}

/// The name under which an upload is stored: the sanitized name that came
/// with it, or the sanitized stand-in where none came.
pub fn upload_name(filename: Option<&str>) -> (name: String)
    ensures
        is_stored_name(name@),
{
    match filename {
        Some(given) => sanitize(given),
        None => sanitize("unnamed_file"),
    }
}

/// A file of the upload folder: the folder and the file's name in it.
#[derive(Debug, Clone, PartialEq, Eq)]
pub struct StoredFile {
    pub folder: ExpandedPath,
    pub name: String,
}

/// Where the file that a request calls `filename` lies: in the upload folder
/// of the current configuration, under the sanitized name.
pub fn get_file_path(store: &Config, filename: &str) -> (file: StoredFile)
    ensures
        file.folder@ == expansion_of(store@.upload_folder),
        is_stored_name(file.name@),
{
    StoredFile { folder: ensure_upload_folder(store), name: sanitize(filename) }
}

/// How an attempt to delete a stored file went.
#[derive(Debug, Clone, PartialEq, Eq)]
pub enum Removal {
    /// There is no such file.
    Missing,
    /// The file is gone.
    Removed,
    /// The file system refused, with this message.
    Refused(String),
}

/// What the attempt comes to, as mathematics: `Ok` or the message to report.
pub open spec fn removal_report(removal: Removal) -> Result<(), Seq<char>> {
    match removal {
        Removal::Missing => Err("File not found"@),
        Removal::Removed => Ok(()),
        Removal::Refused(reason) => Err("Failed to delete file: "@ + reason@),
    }
}

/// What to report after an attempt to delete a stored file.
pub fn delete_file(removal: Removal) -> (report: Result<(), String>)
    ensures
        match report {
            Ok(_) => removal_report(removal) is Ok,
            Err(message) => removal_report(removal) == Err::<(), Seq<char>>(message@),
        },
{
    match removal {
        Removal::Missing => Err(String::from_str("File not found")),
        Removal::Removed => Ok(()),
        Removal::Refused(reason) => {
            let mut message = String::from_str("Failed to delete file: ");
            message.append(reason.as_str());
            Err(message)
        },
    }
}

/// One entry of a folder, as the file system reports it.
#[derive(Debug, Clone, PartialEq, Eq)]
pub struct FolderEntry {
    /// The entry's name, where it is Unicode.
    pub name: Option<String>,
    /// The extension of the name, where it has one that is Unicode.
    pub extension: Option<String>,
    /// Whether the entry is known to be a regular file.
    pub is_file: bool,
}

/// Whether a listing shows `entry`: it is a regular file with a Unicode name.
pub open spec fn is_listed(entry: FolderEntry) -> bool {
    entry.is_file && entry.name is Some
}

/// The name of an entry that has one.
pub open spec fn name_of(entry: FolderEntry) -> Seq<char> {
    entry.name->Some_0@
}

/// The names of the regular files among `entries`, in their order.
pub fn list_files(entries: &Vec<FolderEntry>) -> (names: Vec<String>)
    ensures
        names@.map_values(|name: String| name@) == entries@.filter(
            |entry: FolderEntry| is_listed(entry),
        ).map_values(|entry: FolderEntry| name_of(entry)),
{
    let ghost listed = |entry: FolderEntry| is_listed(entry);
    let ghost name = |entry: FolderEntry| name_of(entry);
    let ghost text = |name: String| name@;
    let mut names: Vec<String> = Vec::new();
    let mut i: usize = 0;
    while i < entries.len()
        invariant
            i <= entries.len(),
            listed == |entry: FolderEntry| is_listed(entry),
            name == |entry: FolderEntry| name_of(entry),
            text == |name: String| name@,
            names@.map_values(text) == entries@.take(i as int).filter(listed).map_values(name),
        decreases entries.len() - i,
    {
        let ghost before = names@;
        proof {
            assert(entries@.take(i + 1) =~= entries@.take(i as int).push(entries@[i as int]));
            entries@.take(i as int).lemma_filter_push(entries@[i as int], listed);
        }
        let entry = &entries[i];
        if entry.is_file {
            match &entry.name {
                Some(found) => {
                    names.push(found.clone());
                    assert(names@.map_values(text) =~= before.map_values(text).push(found@));
                    assert(entries@.take(i as int).filter(listed).push(
                        entries@[i as int],
                    ).map_values(name) =~= entries@.take(i as int).filter(listed).map_values(
                        name,
                    ).push(found@));
                },
                None => {},
            }
        }
        i += 1;
    }
    assert(entries@.take(entries.len() as int) =~= entries@);
    names
}

} // verus!
