//! The audio folders: which of their files count as audio, and how a folder's
//! files are listed.

use crate::config::{add_audio_folder, remove_audio_folder, Config};
use crate::services::files::{is_listed, name_of, FolderEntry};
use crate::text::texts;
use vstd::prelude::*;
use vstd::string::StringExecFns;

verus! {

/// The lowercase form of `text`, as Unicode defines it.
pub uninterp spec fn lowercased(text: Seq<char>) -> Seq<char>;

/// `str::to_lowercase`. The contract only gives the result its name,
/// `lowercased`.
#[verifier::external_body]
fn lowercase(text: &str) -> (lowered: String)
    ensures
        lowered@ == lowercased(text@),
{
    text.to_lowercase()
}

/// Whether `first` comes no later than `second` where strings are ordered as
/// `str` orders them: character by character by code point, a prefix before
/// what it is a prefix of.
pub open spec fn text_le(first: Seq<char>, second: Seq<char>) -> bool
    decreases first.len(),
{
    if first.len() == 0 {
        true
    } else if second.len() == 0 {
        false
    } else if first[0] != second[0] {
        (first[0] as u32) < (second[0] as u32)
    } else {
        text_le(first.skip(1), second.skip(1))
    }
}

/// Whether each text of `list` comes no later than those behind it.
pub open spec fn is_sorted(list: Seq<Seq<char>>) -> bool {
    forall|i: int, j: int| 0 <= i < j < list.len() ==> text_le(list[i], list[j])
}

/// `<[String]>::sort`. The contract says what the documentation of `sort` and
/// of the order of `str` say: the strings are the same as before, each as
/// often as before, and stand in ascending order.
#[verifier::external_body]
fn sort(list: &mut Vec<String>)
    ensures
        texts(final(list)@).to_multiset() == texts(old(list)@).to_multiset(),
        is_sorted(texts(final(list)@)),
{
    list.sort()
}

/// Whether `lowered`, an extension in lowercase, is that of an audio file.
pub open spec fn is_audio_name(lowered: Seq<char>) -> bool {
    ||| lowered == "mp3"@
    ||| lowered == "wav"@
    ||| lowered == "ogg"@
    ||| lowered == "flac"@
    ||| lowered == "m4a"@
    ||| lowered == "aac"@
}

/// Whether a file with `extension` is an audio file: it has an extension, and
/// in lowercase that is one of `mp3`, `wav`, `ogg`, `flac`, `m4a`, `aac`.
pub open spec fn is_audio(extension: Option<Seq<char>>) -> bool {
    match extension {
        Some(extension) => is_audio_name(lowercased(extension)),
        None => false,
    }
}

fn reads(text: &String, wanted: &str) -> (same: bool)
    ensures
        same == (text@ == wanted@),
{
    let wanted = String::from_str(wanted);
    *text == wanted
}

/// Whether `lowered`, an extension in lowercase, is that of an audio file.
pub fn is_audio_extension(lowered: &String) -> (audio: bool)
    ensures
        audio == is_audio_name(lowered@),
{
    reads(lowered, "mp3") || reads(lowered, "wav") || reads(lowered, "ogg") || reads(
        lowered,
        "flac",
    ) || reads(lowered, "m4a") || reads(lowered, "aac")
}

/// Whether a file is an audio file, going by the extension of its name.
pub fn is_audio_file(extension: Option<&str>) -> (audio: bool)
    ensures
        audio == is_audio(
            match extension {
                Some(extension) => Some(extension@),
                None => None,
            },
        ),
{
    match extension {
        Some(extension) => {
            let lowered = lowercase(extension);
            is_audio_extension(&lowered)
        },
        None => false,
    }
}

/// Whether a listing of audio files shows `entry`: it is a regular file with
/// a Unicode name and the extension of an audio file.
pub open spec fn is_listed_audio(entry: FolderEntry) -> bool {
    is_listed(entry) && is_audio(
        match entry.extension {
            Some(extension) => Some(extension@),
            None => None,
        },
    )
}

/// The audio files among `entries`, each as often as it occurs.
pub open spec fn audio_names(entries: Seq<FolderEntry>) -> Seq<Seq<char>> {
    entries.filter(|entry: FolderEntry| is_listed_audio(entry)).map_values(
        |entry: FolderEntry| name_of(entry),
    )
}

/// The names of the audio files among the entries of one folder, sorted.
pub fn list_audio_files(entries: &Vec<FolderEntry>) -> (names: Vec<String>)
    ensures
        texts(names@).to_multiset() == audio_names(entries@).to_multiset(),
        is_sorted(texts(names@)),
{
    let ghost listed = |entry: FolderEntry| is_listed_audio(entry);
    let ghost name = |entry: FolderEntry| name_of(entry);
    let mut names: Vec<String> = Vec::new();
    let mut i: usize = 0;
    while i < entries.len()
        invariant
            i <= entries.len(),
            listed == |entry: FolderEntry| is_listed_audio(entry),
            name == |entry: FolderEntry| name_of(entry),
            texts(names@) == entries@.take(i as int).filter(listed).map_values(name),
        decreases entries.len() - i,
    {
        let ghost before = names@;
        proof {
            assert(entries@.take(i + 1) =~= entries@.take(i as int).push(entries@[i as int]));
            entries@.take(i as int).lemma_filter_push(entries@[i as int], listed);
        }
        let entry = &entries[i];
        let audio = match &entry.extension {
            Some(extension) => is_audio_file(Some(extension.as_str())),
            None => is_audio_file(None),
        };
        if entry.is_file && audio {
            match &entry.name {
                Some(found) => {
                    names.push(found.clone());
                    assert(texts(names@) =~= texts(before).push(found@));
                    assert(entries@.take(i as int).filter(listed).push(
                        entries@[i as int],
                    ).map_values(name) =~= entries@.take(i as int).filter(listed).map_values(
                        name,
                    ).push(found@));
                },
                None => {},
            }
        }
        i += 1;
    }
    assert(entries@.take(entries.len() as int) =~= entries@);
    sort(&mut names);
    names
}

/// Adds `dir` to the audio folders of the current configuration.
pub fn add_folder(store: &mut Config, dir: &str) -> (done: Result<(), String>)
    ensures
        done is Ok,
        final(store)@ == old(store)@.with_audio_folder(dir@),
{
    add_audio_folder(store, dir.to_owned())
}

/// Removes `dir` from the audio folders of the current configuration.
pub fn remove_folder(store: &mut Config, dir: &str) -> (done: Result<(), String>)
    ensures
        done is Ok,
        final(store)@ == old(store)@.without_audio_folder(dir@),
{
    remove_audio_folder(store, dir)
}

} // verus!
