//! The audio transcription tool: its arguments, its answer, and the media
//! type that a file's name stands for. Reading the file and transcribing it
//! are the caller's part.

use crate::text::{same, to_chars};
use crate::tools::{ParameterKind, ToolParameter};
use vstd::prelude::*;
use vstd::string::{StrSliceExecFns, StringExecFns};
use vstd::utf8::is_ascii_chars;

verus! {

/// The name under which the tool is announced.
pub const TRANSCRIBE_AUDIO_TOOL_NAME: &'static str = "transcribe_audio";

/// A failed transcription.
#[derive(Debug, Clone)]
pub struct TranscribeAudioError(pub String);

/// A request to transcribe a file.
#[derive(Debug, Clone)]
pub struct TranscribeAudioArgs {
    /// Path to the audio file, absolute or relative to the workspace.
    pub path: String,
}

/// The answer to a transcription request.
#[derive(Debug, Clone)]
pub struct TranscribeAudioOutput {
    /// The transcribed text.
    pub transcript: String,
}

/// The text that `str::to_lowercase` makes of `text`.
pub uninterp spec fn lowercase(text: Seq<char>) -> Seq<char>;

/// The lower-case form of an ASCII letter; any other character as it is.
pub open spec fn ascii_lower(c: char) -> char {
    if 'A' <= c <= 'Z' {
        ((c as u32 + 32) as u32) as char
    } else {
        c
    }
}

/// `text` with each of its ASCII capitals in lower case.
pub open spec fn ascii_lowercase(text: Seq<char>) -> Seq<char> {
    Seq::new(text.len(), |i: int| ascii_lower(text[i]))
}

/// `str::to_lowercase`: the lower-case form of `text` by Unicode's rules.
/// Of text that is ASCII throughout, the rules change the letters `A` to
/// `Z` and nothing else; of other text the result is only named.
#[verifier::external_body]
fn to_lowercase(text: &str) -> (lower: String)
    ensures
        lower@ == lowercase(text@),
        is_ascii_chars(text@) ==> lower@ == ascii_lowercase(text@),
{
    text.to_lowercase()
}

/// What stands behind the last `.` of `path`; all of it where it has none.
pub open spec fn extension(path: Seq<char>) -> Seq<char>
    decreases path.len(),
{
    if path.len() == 0 || path.last() == '.' {
        Seq::empty()
    } else {
        extension(path.drop_last()).push(path.last())
    }
}

/// The media type that a lower-case extension stands for. What is not
/// known counts as Ogg.
pub open spec fn mime_of(ext: Seq<char>) -> Seq<char> {
    if ext == "mp3"@ {
        "audio/mpeg"@
    } else if ext == "wav"@ {
        "audio/wav"@
    } else if ext == "flac"@ {
        "audio/flac"@
    } else if ext == "aac"@ {
        "audio/aac"@
    } else if ext == "m4a"@ || ext == "mp4"@ {
        "audio/mp4"@
    } else if ext == "opus"@ {
        "audio/opus"@
    } else {
        "audio/ogg"@
    }
}

fn is_text(chars: &Vec<char>, text: &str) -> (b: bool)
    ensures
        b == (chars@ == text@),
{
    let other = to_chars(text);
    same(chars.as_slice(), other.as_slice())
}

/// The media type of an extension that is already in lower case.
pub fn mime_for_extension(ext: &str) -> (mime: &'static str)
    ensures
        mime@ == mime_of(ext@),
{
    let chars = to_chars(ext);
    if is_text(&chars, "mp3") {
        "audio/mpeg"
    } else if is_text(&chars, "wav") {
        "audio/wav"
    } else if is_text(&chars, "flac") {
        "audio/flac"
    } else if is_text(&chars, "aac") {
        "audio/aac"
    } else if is_text(&chars, "m4a") || is_text(&chars, "mp4") {
        "audio/mp4"
    } else if is_text(&chars, "opus") {
        "audio/opus"
    } else {
        "audio/ogg"
    }
}

/// The extension of `path`, as `extension` defines it.
pub fn extension_of(path: &str) -> (ext: &str)
    ensures
        ext@ == extension(path@),
{
    let chars = to_chars(path);
    let n = chars.len();
    let mut start: usize = 0;
    let mut i: usize = 0;
    proof {
        assert(path@.take(0) =~= Seq::<char>::empty());
        assert(path@.subrange(0, 0) =~= Seq::<char>::empty());
    }
    while i < n
        invariant
            n == chars.len(),
            chars@ == path@,
            start <= i <= n,
            extension(path@.take(i as int)) == path@.subrange(start as int, i as int),
        decreases n - i,
    {
        proof {
            let next = path@.take(i + 1);
            assert(next.drop_last() =~= path@.take(i as int));
            assert(next.last() == path@[i as int]);
        }
        if chars[i] == '.' {
            start = i + 1;
            proof {
                assert(path@.subrange(i + 1, i + 1) =~= Seq::<char>::empty());
            }
        } else {
            proof {
                assert(path@.subrange(start as int, i as int).push(path@[i as int])
                    =~= path@.subrange(start as int, i + 1));
            }
        }
        i += 1;
    }
    proof {
        assert(path@.take(n as int) =~= path@);
    }
    path.substring_char(start, n)
}

/// The media type that the name of an audio file stands for: that of its
/// extension, taken in lower case. Where the extension is ASCII throughout,
/// that is the extension with its capitals in lower case.
pub fn mime_from_path(path: &str) -> (mime: &'static str)
    ensures
        mime@ == mime_of(lowercase(extension(path@))),
        is_ascii_chars(extension(path@)) ==> mime@ == mime_of(
            ascii_lowercase(extension(path@)),
        ),
{
    let lower = to_lowercase(extension_of(path));
    mime_for_extension(lower.as_str())
}

/// The parameters that the tool announces: the path, which a call must give.
pub fn parameters() -> (params: Vec<ToolParameter>)
    ensures
        params@.len() == 1,
        params@[0].name@ == "path"@,
        params@[0].kind == ParameterKind::Text,
        params@[0].required,
        params@[0].minimum is None,
        params@[0].maximum is None,
        params@[0].default is None,
        params@[0].description@
            == "Path to the audio file to transcribe (absolute or relative to the workspace). Supports ogg, opus, mp3, flac, wav, m4a."@,
{
    let mut params: Vec<ToolParameter> = Vec::new();
    params.push(
        ToolParameter {
            name: "path",
            kind: ParameterKind::Text,
            description: "Path to the audio file to transcribe (absolute or relative to the workspace). Supports ogg, opus, mp3, flac, wav, m4a.",
            required: true,
            minimum: None,
            maximum: None,
            default: None,
        },
    );
    params
}

impl TranscribeAudioError {
    /// The failure to read the file at `path`, with what the system said of it.
    pub fn read_failure(path: &str, cause: &str) -> (e: TranscribeAudioError)
        ensures
            e.0@ == "failed to read "@ + path@ + ": "@ + cause@,
    {
        let mut message = String::from_str("failed to read ");
        message.append(path);
        message.append(": ");
        message.append(cause);
        TranscribeAudioError(message)
    }

    /// The error as one line of text.
    pub fn to_text(&self) -> (text: String)
        ensures
            text@ == "Audio transcription failed: "@ + self.0@,
    {
        let mut text = String::from_str("Audio transcription failed: ");
        text.append(self.0.as_str());
        text
    }
}

} // verus!
