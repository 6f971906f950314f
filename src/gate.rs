//! The existing-submission gate: whether a new submission may go ahead when
//! one for the same package and version is already in flight.
use vstd::prelude::*;

verus! {

/// The state of a submission already made for the same package and version.
#[derive(PartialEq, Eq, Structural, Clone, Copy, Debug)]
pub enum SubmissionState {
    Open,
    Closed,
    Merged,
}

/// A submission (pull request) already made for the same package and version.
pub struct ExistingSubmission {
    pub state: SubmissionState,
    pub url: String,
    /// Creation time, in seconds since the Unix epoch (UTC).
    pub created_at: i64,
}

/// What one submission attempt is about, and how it runs.
pub struct SubmissionContext {
    pub identifier: String,
    pub version: String,
    pub dry_run: bool,
    /// Set when nobody is there to answer prompts.
    pub non_interactive: bool,
}

/// What a value of the unattended signal means: only `true` turns it on.
pub open spec fn signal_is_set(value: Option<Seq<char>>) -> bool {
    value == Some("true"@)
}

/// Relies on `<bool as FromStr>::from_str`, whose documentation says that the
/// only accepted values are "true" and "false" and that any other input is an
/// error.
#[verifier::external_body]
fn parse_bool(s: &str) -> (r: Option<bool>)
    ensures
        r == (if s@ == "true"@ {
            Some(true)
        } else if s@ == "false"@ {
            Some(false)
        } else {
            None
        }),
{
    <bool as std::str::FromStr>::from_str(s).ok()
}

/// Whether a value of the unattended signal (absent if the signal is not set)
/// marks the run as unattended: it does when it parses as the boolean `true`.
pub fn is_unattended(value: Option<&str>) -> (r: bool)
    ensures
        r == signal_is_set(
            match value {
                Some(v) => Some(v@),
                None => None,
            },
        ),
{
    match value {
        Some(v) => match parse_bool(v) {
            Some(b) => b,
            None => false,
        },
        None => false,
    }
}

impl SubmissionContext {
    /// Whether the operator has to be asked before going on past `existing`:
    /// never when the run is unattended.
    pub fn must_confirm(&self, existing: &ExistingSubmission) -> (r: bool)
        ensures
            r == !self.non_interactive,
    {
        !self.non_interactive
    }

    /// Whether the attempt may go on past `existing`, given the operator's
    /// answer if one was obtained. An unattended run is always blocked, whatever
    /// the state of `existing`; otherwise the answer decides, and `None` comes
    /// back while there is no answer yet.
    pub fn should_proceed(&self, existing: &ExistingSubmission, answer: Option<bool>) -> (r: Option<bool>)
        ensures
            self.non_interactive ==> r == Some(false),
            !self.non_interactive ==> r == answer,
    {
        if self.non_interactive {
            Some(false)
        } else {
            answer
        }
    }
}

} // verus!
