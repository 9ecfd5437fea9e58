//! Analysis modes and their textual names.

use vstd::prelude::*;
use vstd::string::StringExecFns;

verus! {

/// The kind of report the remote analysis service is asked for.
#[derive(Debug, Clone, Copy, PartialEq, Eq, Structural)]
pub enum AnalysisMode {
    Debate,
    Summary,
}

/// The lower-case form of a string, as `str::to_lowercase` computes it.
pub uninterp spec fn lowercase_of(s: Seq<char>) -> Seq<char>;

/// Relies on `str::to_lowercase`: the result depends on the characters alone.
#[verifier::external_body]
fn to_lowercase(s: &str) -> (r: String)
    ensures
        r@ == lowercase_of(s@),
{
    s.to_lowercase()
}

/// The stored name of a mode.
pub open spec fn mode_name(m: AnalysisMode) -> Seq<char> {
    match m {
        AnalysisMode::Debate => "debate"@,
        AnalysisMode::Summary => "summary"@,
    }
}

/// The mode whose stored name is exactly `t`, if any.
pub open spec fn mode_named(t: Seq<char>) -> Option<AnalysisMode> {
    if t == "debate"@ {
        Some(AnalysisMode::Debate)
    } else if t == "summary"@ {
        Some(AnalysisMode::Summary)
    } else {
        None
    }
}

impl AnalysisMode {
    /// The name under which the mode is stored and shown.
    pub fn as_str(&self) -> (r: &'static str)
        ensures
            r@ == mode_name(*self),
    {
        match self {
            AnalysisMode::Debate => "debate",
            AnalysisMode::Summary => "summary",
        }
    }

    /// Reads a mode from its name, ignoring letter case.
    pub fn from_str(s: &str) -> (r: Option<AnalysisMode>)
        ensures
            r == mode_named(lowercase_of(s@)),
    {
        let lower = to_lowercase(s);
        AnalysisMode::from_lowercase_name(lower.as_str())
    }

    /// The mode whose stored name is exactly `name`.
    pub fn from_lowercase_name(name: &str) -> (r: Option<AnalysisMode>)
        ensures
            r == mode_named(name@),
    {
        let n = String::from_str(name);
        if n == String::from_str("debate") {
            Some(AnalysisMode::Debate)
        } else if n == String::from_str("summary") {
            Some(AnalysisMode::Summary)
        } else {
            None
        }
    }
}

impl Default for AnalysisMode {
    fn default() -> (r: AnalysisMode)
        ensures
            r == AnalysisMode::Debate,
    {
        AnalysisMode::Debate
    }
}

} // verus!
