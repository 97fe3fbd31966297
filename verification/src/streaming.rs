//! Streaming audio files: the content type to announce.

use vstd::prelude::*;
use vstd::string::StringExecFns;

verus! {

/// The content type of a file with `extension`. The extension counts as it
/// is written: `MP3` is not `mp3`.
pub open spec fn content_type_of(extension: Option<Seq<char>>) -> Seq<char> {
    match extension {
        Some(extension) => {
            if extension == "mp3"@ {
                "audio/mpeg"@
            } else if extension == "wav"@ {
                "audio/wav"@
            } else if extension == "ogg"@ {
                "audio/ogg"@
            } else if extension == "flac"@ {
                "audio/flac"@
            } else {
                "application/octet-stream"@
            }
        },
        None => "application/octet-stream"@,
    }
}

fn reads(text: &str, wanted: &str) -> (same: bool)
    ensures
        same == (text@ == wanted@),
{
    let text = String::from_str(text);
    let wanted = String::from_str(wanted);
    text == wanted
}

/// The content type to announce for a file, going by the extension of its
/// name.
pub fn get_content_type(extension: Option<&str>) -> (content_type: String)
    ensures
        content_type@ == content_type_of(
            match extension {
                Some(extension) => Some(extension@),
                None => None,
            },
        ),
{
    match extension {
        Some(extension) => {
            if reads(extension, "mp3") {
                String::from_str("audio/mpeg")
            } else if reads(extension, "wav") {
                String::from_str("audio/wav")
            } else if reads(extension, "ogg") {
                String::from_str("audio/ogg")
            } else if reads(extension, "flac") {
                String::from_str("audio/flac")
            } else {
                String::from_str("application/octet-stream")
            }
        },
        None => String::from_str("application/octet-stream"),
    }
}

} // verus!
