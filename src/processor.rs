//! What the analysis service needs to know of a transient audio file.

use vstd::prelude::*;
use vstd::string::StringExecFns;

verus! {

/// Why a file cannot be handed to the analysis service.
#[derive(Debug)]
pub enum ProcessorError {
    /// Reading the file failed; the text says why.
    Io(String),
    /// No file at this path.
    NotFound(String),
}

/// The extension of a path, as `Path::extension` reads it.
pub uninterp spec fn path_extension(p: Seq<char>) -> Option<Seq<char>>;

/// Relies on `Path::extension`: the part of the file name after its last
/// `.`, if there is one; it depends on the path alone.
#[verifier::external_body]
fn extension_of(path: &str) -> (r: Option<String>)
    ensures
        match r {
            Some(e) => path_extension(path@) == Some(e@),
            None => path_extension(path@) is None,
        },
{
    std::path::Path::new(path).extension().and_then(|e| e.to_str()).map(|e| e.to_string())
}

/// Relies on `Path::exists`: whether something is at the path, as the file
/// system says when asked; nothing is assumed of the answer.
#[verifier::external_body]
fn path_exists(path: &str) -> (r: bool) {
    std::path::Path::new(path).exists()
}

/// The media type announced for audio with a given extension.
pub open spec fn mime_for(ext: Option<Seq<char>>) -> Seq<char> {
    match ext {
        Some(e) => if e == "ogg"@ {
            "audio/ogg"@
        } else if e == "opus"@ {
            "audio/ogg"@
        } else if e == "mp3"@ {
            "audio/mp3"@
        } else if e == "wav"@ {
            "audio/wav"@
        } else if e == "flac"@ {
            "audio/flac"@
        } else if e == "pcm"@ {
            "audio/pcm"@
        } else {
            "audio/ogg"@
        },
        None => "audio/ogg"@,
    }
}

pub struct AudioProcessor;

impl AudioProcessor {
    /// Whether a file holds raw Opus frames that a container would have to
    /// wrap for the service.
    pub fn needs_conversion(path: &str) -> (r: bool)
        ensures
            r == (path_extension(path@) == Some("opus"@)),
    {
        match extension_of(path) {
            Some(e) => e == String::from_str("opus"),
            None => false,
        }
    }

    /// The media type announced when uploading a file.
    pub fn get_mime_type(path: &str) -> (r: &'static str)
        ensures
            r@ == mime_for(path_extension(path@)),
    {
        match extension_of(path) {
            Some(e) => AudioProcessor::mime_type_for_extension(Some(e.as_str())),
            None => AudioProcessor::mime_type_for_extension(None),
        }
    }

    /// The media type announced for audio with a given extension.
    pub fn mime_type_for_extension(ext: Option<&str>) -> (r: &'static str)
        ensures
            r@ == mime_for(
                match ext {
                    Some(e) => Some(e@),
                    None => None,
                },
            ),
    {
        match ext {
            Some(x) => {
                let e = String::from_str(x);
                if e == String::from_str("ogg") {
                    "audio/ogg"
                } else if e == String::from_str("opus") {
                    "audio/ogg"
                } else if e == String::from_str("mp3") {
                    "audio/mp3"
                } else if e == String::from_str("wav") {
                    "audio/wav"
                } else if e == String::from_str("flac") {
                    "audio/flac"
                } else if e == String::from_str("pcm") {
                    "audio/pcm"
                } else {
                    "audio/ogg"
                }
            },
            None => "audio/ogg",
        }
    }

    /// The path to upload for a file: the file itself, which must exist.
    pub fn prepare_for_upload(path: &str) -> (r: Result<String, ProcessorError>)
        ensures
            match r {
                Ok(p) => p@ == path@,
                Err(e) => e is NotFound && e->NotFound_0@ == path@,
            },
    {
        AudioProcessor::upload_path(path, path_exists(path))
    }

    /// The path to upload for a file, given whether something is at it:
    /// the path itself when it exists, else `NotFound`.
    pub fn upload_path(path: &str, exists: bool) -> (r: Result<String, ProcessorError>)
        ensures
            exists ==> (r is Ok && r->Ok_0@ == path@),
            !exists ==> (r is Err && r->Err_0 is NotFound && r->Err_0->NotFound_0@ == path@),
    {
        if exists {
            Ok(String::from_str(path))
        } else {
            Err(ProcessorError::NotFound(String::from_str(path)))
        }
    }
}

} // verus!
