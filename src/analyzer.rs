//! The decisions around the remote analysis service: how its failures are
//! told apart, how a reply becomes report text, and when to stop waiting for
//! an uploaded file to become usable.

use crate::mode::AnalysisMode;
use crate::prompts::{get_prompt, DEBATE, SUMMARY};
use crate::report::string_views;
use vstd::prelude::*;
use vstd::string::{StrSliceExecFns, StringExecFns};

verus! {

/// Why a call to the remote analysis service failed.
#[derive(Debug)]
pub enum AnalyzerError {
    Http(String),
    Io(String),
    Api(String),
    NoAudioFiles,
    RateLimitExceeded,
}

/// The description of an analysis failure.
pub open spec fn analyzer_error_text(e: AnalyzerError) -> Seq<char> {
    match e {
        AnalyzerError::Http(m) => "HTTP request failed: "@ + m@,
        AnalyzerError::Io(m) => "IO error: "@ + m@,
        AnalyzerError::Api(m) => "API error: "@ + m@,
        AnalyzerError::NoAudioFiles => "No audio files provided"@,
        AnalyzerError::RateLimitExceeded => "Rate limit exceeded"@,
    }
}

impl AnalyzerError {
    /// A human-readable description.
    pub fn message(&self) -> (r: String)
        ensures
            r@ == analyzer_error_text(*self),
    {
        match self {
            AnalyzerError::Http(m) => String::from_str("HTTP request failed: ").concat(m.as_str()),
            AnalyzerError::Io(m) => String::from_str("IO error: ").concat(m.as_str()),
            AnalyzerError::Api(m) => String::from_str("API error: ").concat(m.as_str()),
            AnalyzerError::NoAudioFiles => String::from_str("No audio files provided"),
            AnalyzerError::RateLimitExceeded => String::from_str("Rate limit exceeded"),
        }
    }
}

/// Whether `needle` occurs in `hay` as a contiguous run of characters.
pub open spec fn occurs_in(hay: Seq<char>, needle: Seq<char>) -> bool {
    exists|i: int| 0 <= i <= hay.len() - needle.len() && #[trigger] hay.subrange(i, i + needle.len())
        == needle
}

/// Whether `needle` occurs in `hay` as a contiguous run of characters.
pub fn text_contains(hay: &str, needle: &str) -> (r: bool)
    ensures
        r == occurs_in(hay@, needle@),
{
    let n = hay.unicode_len();
    let m = needle.unicode_len();
    if m == 0 {
        assert(hay@.subrange(0int, 0int + needle@.len()) =~= needle@);
        return true;
    }
    if m > n {
        return false;
    }
    let target = String::from_str(needle);
    let mut i: usize = 0;
    while i < n - m + 1
        invariant
            n == hay@.len(),
            m == needle@.len(),
            1 <= m <= n,
            target@ == needle@,
            forall|j: int| 0 <= j < i ==> #[trigger] hay@.subrange(j, j + m) != needle@,
        decreases n - m + 1 - i,
    {
        let piece = String::from_str(hay.substring_char(i, i + m));
        if piece == target {
            assert(hay@.subrange(i as int, i + needle@.len()) == needle@);
            return true;
        }
        i = i + 1;
    }
    proof {
        assert forall|j: int| 0 <= j <= hay@.len() - needle@.len() implies #[trigger] hay@.subrange(
            j,
            j + needle@.len(),
        ) != needle@ by {
            assert(0 <= j < i);
        }
    }
    false
}

/// The HTTP status that signals a quota or rate limit.
pub const TOO_MANY_REQUESTS: u16 = 429;

/// Whether a failed generation request hit the service's quota: status 429,
/// or a body that says so.
pub fn is_rate_limited(status: u16, body: &str) -> (r: bool)
    ensures
        r == (status == TOO_MANY_REQUESTS || occurs_in(body@, "Quota exceeded"@)),
{
    status == TOO_MANY_REQUESTS || text_contains(body, "Quota exceeded")
}

/// The error for a generation request that came back with a non-success
/// status; `status_text` is how the status reads.
pub fn generation_failure(status: u16, status_text: &str, body: &str) -> (r: AnalyzerError)
    ensures
        (status == TOO_MANY_REQUESTS || occurs_in(body@, "Quota exceeded"@)) ==> r
            is RateLimitExceeded,
        !(status == TOO_MANY_REQUESTS || occurs_in(body@, "Quota exceeded"@)) ==> (r is Api && r->Api_0@
            == "Generation failed: "@ + status_text@ + " - "@ + body@),
{
    if is_rate_limited(status, body) {
        AnalyzerError::RateLimitExceeded
    } else {
        AnalyzerError::Api(
            String::from_str("Generation failed: ").concat(status_text).concat(" - ").concat(body),
        )
    }
}

/// What a successful generation request returned: for each candidate, the
/// text of each of its parts; and the service's error message, if any.
pub struct GenerateReply {
    pub candidates: Option<Vec<Vec<Option<String>>>>,
    pub error_message: Option<String>,
}

/// The text used when a reply carries no report.
pub const NO_RESULT_TEXT: &'static str = "分析結果を取得できませんでした。";

/// The text of the first part of the first candidate, if there is one.
pub open spec fn first_text(reply: GenerateReply) -> Option<String> {
    match reply.candidates {
        Some(c) => if c@.len() > 0 && c@[0]@.len() > 0 {
            c@[0]@[0]
        } else {
            None
        },
        None => None,
    }
}

/// The report carried by a reply: the service's error when it names one,
/// else the first text it holds, else a fixed notice.
pub fn report_from_reply(reply: GenerateReply) -> (r: Result<String, AnalyzerError>)
    ensures
        reply.error_message is Some ==> r == Err::<String, AnalyzerError>(
            AnalyzerError::Api(reply.error_message->Some_0),
        ),
        reply.error_message is None && first_text(reply) is Some ==> r == Ok::<
            String,
            AnalyzerError,
        >(first_text(reply)->Some_0),
        reply.error_message is None && first_text(reply) is None ==> (r is Ok && r->Ok_0@
            == NO_RESULT_TEXT@),
{
    let ghost first = first_text(reply);
    match reply.error_message {
        Some(m) => Err(AnalyzerError::Api(m)),
        None => {
            let mut text: Option<String> = None;
            match reply.candidates {
                Some(mut c) => {
                    if c.len() > 0 {
                        let mut parts = c.swap_remove(0);
                        if parts.len() > 0 {
                            text = parts.swap_remove(0);
                        }
                    }
                },
                None => {},
            }
            assert(text == first);
            match text {
                Some(t) => Ok(t),
                None => Ok(String::from_str(NO_RESULT_TEXT)),
            }
        },
    }
}

/// The text that introduces the previous report's context in a request.
pub open spec fn context_preamble_spec(context: Seq<char>) -> Seq<char> {
    "前回の文脈:\n"@ + context + "\n---\n今回の議論:"@
}

/// The texts that open an analysis request: the mode's instructions, then the
/// previous context when there is any.
pub fn request_preamble(mode: AnalysisMode, context: &str) -> (r: Vec<String>)
    ensures
        context@.len() == 0 ==> string_views(r@) == seq![prompt_text(mode)],
        context@.len() > 0 ==> string_views(r@) == seq![
            prompt_text(mode),
            context_preamble_spec(context@),
        ],
{
    let mut out: Vec<String> = Vec::new();
    out.push(String::from_str(get_prompt(&mode)));
    if context.unicode_len() > 0 {
        out.push(String::from_str("前回の文脈:\n").concat(context).concat("\n---\n今回の議論:"));
    }
    proof {
        if context@.len() == 0 {
            assert(string_views(out@) =~= seq![prompt_text(mode)]);
        } else {
            assert(string_views(out@) =~= seq![
                prompt_text(mode),
                context_preamble_spec(context@),
            ]);
        }
    }
    out
}

/// The instructions for a mode.
pub open spec fn prompt_text(mode: AnalysisMode) -> Seq<char> {
    match mode {
        AnalysisMode::Debate => DEBATE@,
        AnalysisMode::Summary => SUMMARY@,
    }
}

/// The text that names the speaker of the audio file that follows it.
pub fn speaker_label_text(name: &str) -> (r: String)
    ensures
        r@ == "発言者: "@ + name@,
{
    String::from_str("発言者: ").concat(name)
}

/// How many times an uploaded file's state is looked up before giving up.
pub const MAX_FILE_POLLS: u32 = 30;

/// What an uploaded file's state lookup showed.
pub enum FileState {
    /// The lookup failed or returned no state.
    Unknown,
    /// The state the service reported.
    Reported(String),
}

/// What to do after looking up an uploaded file's state.
#[derive(Debug, PartialEq, Eq, Structural)]
pub enum FilePollStep {
    /// The file is ready to be used.
    Ready,
    /// The service could not process the file.
    Failed,
    /// Wait a little and look again.
    Retry,
    /// Too many lookups: give up.
    TimedOut,
}

/// Decides what follows the `polls_done`-th lookup of a file's state.
pub fn next_file_poll(polls_done: u32, seen: &FileState) -> (r: FilePollStep)
    requires
        polls_done >= 1,
    ensures
        (seen is Reported && seen->Reported_0@ == "ACTIVE"@) ==> r == FilePollStep::Ready,
        (seen is Reported && seen->Reported_0@ == "FAILED"@) ==> r == FilePollStep::Failed,
        !(seen is Reported && (seen->Reported_0@ == "ACTIVE"@ || seen->Reported_0@ == "FAILED"@))
            ==> r == (if polls_done >= MAX_FILE_POLLS {
            FilePollStep::TimedOut
        } else {
            FilePollStep::Retry
        }),
{
    proof {
        reveal_strlit("ACTIVE");
        reveal_strlit("FAILED");
        assert("ACTIVE"@[0] != "FAILED"@[0]);
    }
    match seen {
        FileState::Reported(s) => {
            if *s == String::from_str("ACTIVE") {
                return FilePollStep::Ready;
            }
            if *s == String::from_str("FAILED") {
                return FilePollStep::Failed;
            }
        },
        FileState::Unknown => {},
    }
    if polls_done >= MAX_FILE_POLLS {
        FilePollStep::TimedOut
    } else {
        FilePollStep::Retry
    }
}

/// The error a finished poll ends in, if it ends in one.
pub fn file_poll_error(step: FilePollStep) -> (r: Option<AnalyzerError>)
    ensures
        step == FilePollStep::Failed ==> (r is Some && r->Some_0 is Api && r->Some_0->Api_0@
            == "File processing failed"@),
        step == FilePollStep::TimedOut ==> (r is Some && r->Some_0 is Api && r->Some_0->Api_0@
            == "File processing timeout"@),
        (step == FilePollStep::Ready || step == FilePollStep::Retry) ==> r is None,
{
    match step {
        FilePollStep::Failed => Some(AnalyzerError::Api(String::from_str("File processing failed"))),
        FilePollStep::TimedOut => Some(
            AnalyzerError::Api(String::from_str("File processing timeout")),
        ),
        _ => None,
    }
}

} // verus!
