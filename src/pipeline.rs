//! The decisions of one analysis pass over a session's audio.
//!
//! A pass flushes the recorder, persists and uploads each speaker's audio,
//! asks the remote service for a report once, publishes what came back and
//! releases the transient files. Everything but the decisions is outside
//! work: the caller performs each action that `AnalysisRun::step` returns and
//! reports back what happened, until the run finishes with a result.

use crate::analyzer::{analyzer_error_text, AnalyzerError};
use crate::report::{
    report_messages,
    report_messages_spec,
    rolling_context,
    string_views,
    tail_chars,
    CONTEXT_LIMIT,
};
use vstd::prelude::*;
use vstd::string::StringExecFns;

verus! {

/// How an analysis pass ended.
#[derive(Debug)]
pub enum AnalysisResult {
    /// The service returned this report.
    Success(String),
    /// The service's quota was reached; the next scheduled pass tries again.
    RateLimited,
    /// There was no audio to analyse.
    NoAudio,
    /// The service or the network failed; the text says how.
    TransientError(String),
}

/// The fixed advisory published when the service's quota was reached.
pub const RATE_LIMIT_NOTICE: &'static str = "⚠️ 分析のリクエスト制限（Quota Limit）に達しました。";

/// What precedes a failure's description when it is published.
pub const ERROR_NOTICE_PREFIX: &'static str = "分析中にエラーが発生しました: ";

/// Whether `r` is how the service's answer `outcome` is classified.
pub open spec fn classified(outcome: Result<String, AnalyzerError>, r: AnalysisResult) -> bool {
    match outcome {
        Ok(text) => r == AnalysisResult::Success(text),
        Err(e) => match e {
            AnalyzerError::RateLimitExceeded => r is RateLimited,
            AnalyzerError::NoAudioFiles => r is NoAudio,
            _ => r is TransientError && r->TransientError_0@ == analyzer_error_text(e),
        },
    }
}

/// Classifies the service's answer.
pub fn classify_outcome(outcome: Result<String, AnalyzerError>) -> (r: AnalysisResult)
    ensures
        classified(outcome, r),
{
    match outcome {
        Ok(text) => AnalysisResult::Success(text),
        Err(e) => match e {
            AnalyzerError::RateLimitExceeded => AnalysisResult::RateLimited,
            AnalyzerError::NoAudioFiles => AnalysisResult::NoAudio,
            _ => AnalysisResult::TransientError(e.message()),
        },
    }
}

/// The report body published for a result.
pub open spec fn published_body(r: AnalysisResult) -> Seq<char> {
    match r {
        AnalysisResult::Success(text) => text@,
        AnalysisResult::RateLimited => RATE_LIMIT_NOTICE@,
        AnalysisResult::TransientError(m) => ERROR_NOTICE_PREFIX@ + m@,
        AnalysisResult::NoAudio => Seq::empty(),
    }
}

/// The channel message that announces a report.
pub open spec fn starter_text_spec(is_final: bool, timestamp: Seq<char>) -> Seq<char> {
    if is_final {
        "🛑 **セッション終了** ("@ + timestamp + ")"@
    } else {
        "📅 **自動分析** ("@ + timestamp + ")"@
    }
}

/// The title of the thread a report is published in.
pub open spec fn thread_title_spec(is_final: bool, timestamp: Seq<char>) -> Seq<char> {
    if is_final {
        "議論分析レポート (最終) "@ + timestamp
    } else {
        "議論分析レポート "@ + timestamp
    }
}

/// The line that heads a report.
pub open spec fn header_spec(is_final: bool) -> Seq<char> {
    if is_final {
        "🏁 **最終分析レポート**\n"@
    } else {
        "📊 **議論分析レポート**\n"@
    }
}

/// How a result is published, and the context the session keeps from it.
pub struct Publication {
    /// Posted in the session's channel.
    pub starter: String,
    /// The title of the thread opened on the starter message.
    pub thread_title: String,
    /// Posted in the thread, in order.
    pub messages: Vec<String>,
    /// The session's new rolling context, when the pass succeeded.
    pub context: Option<String>,
}

/// Whether `p` publishes result `r` of a pass (final or periodic) made at
/// `timestamp`.
pub open spec fn publishes(p: Publication, is_final: bool, timestamp: Seq<char>, r: AnalysisResult) -> bool {
    &&& p.starter@ == starter_text_spec(is_final, timestamp)
    &&& p.thread_title@ == thread_title_spec(is_final, timestamp)
    &&& string_views(p.messages@) == report_messages_spec(header_spec(is_final), published_body(r))
    &&& match r {
        AnalysisResult::Success(text) => p.context is Some && p.context->Some_0@ == tail_chars(
            text@,
            CONTEXT_LIMIT as nat,
        ),
        _ => p.context is None,
    }
}

/// Lays out the publication of a result.
pub fn publication_for(is_final: bool, timestamp: &str, r: &AnalysisResult) -> (p: Publication)
    requires
        !(r is NoAudio),
    ensures
        publishes(p, is_final, timestamp@, *r),
        p.context is Some ==> p.context->Some_0@.len() <= CONTEXT_LIMIT,
{
    let starter = if is_final {
        String::from_str("🛑 **セッション終了** (").concat(timestamp).concat(")")
    } else {
        String::from_str("📅 **自動分析** (").concat(timestamp).concat(")")
    };
    let thread_title = if is_final {
        String::from_str("議論分析レポート (最終) ").concat(timestamp)
    } else {
        String::from_str("議論分析レポート ").concat(timestamp)
    };
    let header = if is_final {
        "🏁 **最終分析レポート**\n"
    } else {
        "📊 **議論分析レポート**\n"
    };
    let (body, context) = match r {
        AnalysisResult::Success(text) => (text.clone(), Some(rolling_context(text.as_str()))),
        AnalysisResult::RateLimited => (String::from_str(RATE_LIMIT_NOTICE), None),
        AnalysisResult::TransientError(m) => (
            String::from_str(ERROR_NOTICE_PREFIX).concat(m.as_str()),
            None,
        ),
        AnalysisResult::NoAudio => (String::new(), None),
    };
    let messages = report_messages(header, body.as_str());
    Publication { starter, thread_title, messages, context }
}

/// Where an analysis pass stands.
#[derive(Debug)]
pub enum PipelineStage {
    /// Waiting for the recorder's flush.
    AwaitingSnapshot,
    /// Waiting for the flushed audio to be persisted and uploaded.
    AwaitingUploads,
    /// Waiting for the remote service's answer.
    AwaitingAnalysis,
    /// Waiting for the result to be published.
    AwaitingPublication(AnalysisResult),
    /// Waiting for the transient files to be released.
    AwaitingCleanup(AnalysisResult),
    /// The pass is over.
    Finished,
}

/// What the caller reports back after performing an action.
pub enum PipelineEvent {
    /// The recorder was flushed; this many speakers had audio.
    Flushed { speakers: usize },
    /// The flushed audio was persisted and uploaded; this many files made it.
    Uploaded { succeeded: usize },
    /// The remote service answered.
    Analyzed(Result<String, AnalyzerError>),
    /// Publication was attempted.
    Published,
    /// Releasing the transient files was attempted.
    CleanedUp,
}

/// What the caller does next.
pub enum PipelineAction {
    /// Persist each speaker's flushed audio and upload it, skipping failures.
    PersistAndUpload,
    /// Ask the remote service for a report on the uploaded batch, once.
    Analyze,
    /// Store the new context, if any, and post the messages.
    Publish(Publication),
    /// Release the transient files, best effort.
    CleanUp,
    /// The pass is over with this result.
    Finish(AnalysisResult),
    /// The event did not fit the stage; nothing to do.
    Ignore,
}

/// Whether, from stage `s`, event `e` leads to stage `t` and action `a`, for
/// a pass (final or periodic) made at `timestamp`.
pub open spec fn stepped(
    s: PipelineStage,
    e: PipelineEvent,
    t: PipelineStage,
    a: PipelineAction,
    is_final: bool,
    timestamp: Seq<char>,
) -> bool {
    match (s, e) {
        (PipelineStage::AwaitingSnapshot, PipelineEvent::Flushed { speakers }) => if speakers == 0 {
            t is Finished && a is Finish && a->Finish_0 is NoAudio
        } else {
            t is AwaitingUploads && a is PersistAndUpload
        },
        (PipelineStage::AwaitingUploads, PipelineEvent::Uploaded { succeeded }) => if succeeded == 0 {
            t is AwaitingCleanup && t->AwaitingCleanup_0 is NoAudio && a is CleanUp
        } else {
            t is AwaitingAnalysis && a is Analyze
        },
        (PipelineStage::AwaitingAnalysis, PipelineEvent::Analyzed(outcome)) => match t {
            PipelineStage::AwaitingCleanup(res) => res is NoAudio && classified(outcome, res)
                && a is CleanUp,
            PipelineStage::AwaitingPublication(res) => !(res is NoAudio) && classified(outcome, res)
                && a is Publish && publishes(a->Publish_0, is_final, timestamp, res),
            _ => false,
        },
        (PipelineStage::AwaitingPublication(res), PipelineEvent::Published) => t
            == PipelineStage::AwaitingCleanup(res) && a is CleanUp,
        (PipelineStage::AwaitingCleanup(res), PipelineEvent::CleanedUp) => t is Finished && a
            == PipelineAction::Finish(res),
        _ => t == s && a is Ignore,
    }
}

/// One analysis pass.
pub struct AnalysisRun {
    pub is_final: bool,
    pub timestamp: String,
    pub stage: PipelineStage,
}

impl AnalysisRun {
    /// A pass that starts by flushing the recorder.
    pub fn new(is_final: bool, timestamp: String) -> (r: AnalysisRun)
        ensures
            r.is_final == is_final,
            r.timestamp == timestamp,
            r.stage is AwaitingSnapshot,
    {
        AnalysisRun { is_final, timestamp, stage: PipelineStage::AwaitingSnapshot }
    }

    /// Takes in what happened and decides what to do next.
    pub fn step(&mut self, event: PipelineEvent) -> (a: PipelineAction)
        ensures
            final(self).is_final == old(self).is_final,
            final(self).timestamp == old(self).timestamp,
            stepped(
                old(self).stage,
                event,
                final(self).stage,
                a,
                old(self).is_final,
                old(self).timestamp@,
            ),
    {
        let mut stage = PipelineStage::Finished;
        std::mem::swap(&mut stage, &mut self.stage);
        match event {
            PipelineEvent::Flushed { speakers } => match stage {
                PipelineStage::AwaitingSnapshot => {
                    if speakers == 0 {
                        self.stage = PipelineStage::Finished;
                        PipelineAction::Finish(AnalysisResult::NoAudio)
                    } else {
                        self.stage = PipelineStage::AwaitingUploads;
                        PipelineAction::PersistAndUpload
                    }
                },
                _ => {
                    self.stage = stage;
                    PipelineAction::Ignore
                },
            },
            PipelineEvent::Uploaded { succeeded } => match stage {
                PipelineStage::AwaitingUploads => {
                    if succeeded == 0 {
                        self.stage = PipelineStage::AwaitingCleanup(AnalysisResult::NoAudio);
                    } else {
                        self.stage = PipelineStage::AwaitingAnalysis;
                    }
                    if succeeded == 0 {
                        PipelineAction::CleanUp
                    } else {
                        PipelineAction::Analyze
                    }
                },
                _ => {
                    self.stage = stage;
                    PipelineAction::Ignore
                },
            },
            PipelineEvent::Analyzed(outcome) => match stage {
                PipelineStage::AwaitingAnalysis => {
                    let res = classify_outcome(outcome);
                    match res {
                        AnalysisResult::NoAudio => {
                            self.stage = PipelineStage::AwaitingCleanup(res);
                            PipelineAction::CleanUp
                        },
                        _ => {
                            let p = publication_for(self.is_final, self.timestamp.as_str(), &res);
                            self.stage = PipelineStage::AwaitingPublication(res);
                            PipelineAction::Publish(p)
                        },
                    }
                },
                _ => {
                    self.stage = stage;
                    PipelineAction::Ignore
                },
            },
            PipelineEvent::Published => match stage {
                PipelineStage::AwaitingPublication(res) => {
                    self.stage = PipelineStage::AwaitingCleanup(res);
                    PipelineAction::CleanUp
                },
                _ => {
                    self.stage = stage;
                    PipelineAction::Ignore
                },
            },
            PipelineEvent::CleanedUp => match stage {
                PipelineStage::AwaitingCleanup(res) => {
                    self.stage = PipelineStage::Finished;
                    PipelineAction::Finish(res)
                },
                _ => {
                    self.stage = stage;
                    PipelineAction::Ignore
                },
            },
        }
    }
}

} // verus!
