//! The result-polling protocol: what the polling endpoint replies, given the
//! job's recorded lifecycle state and whatever output artifact text currently
//! exists. Polling never blocks on the computation and is idempotent: it only
//! reads, and the same state and artifact always draw the same reply.

use crate::extract::{dps_of, extract, Extraction};
use crate::store::JobState;
use vstd::prelude::*;

verus! {

/// The reply of the result-polling endpoint.
pub enum PollReply {
    /// The job produced its output: the metric's JSON text.
    Dps(String),
    /// The job is known to have failed for good; polling further is useless.
    TerminalError,
    /// No readable result yet: the job is treated as still running.
    StillRunning,
}

/// Whether an artifact text (absent while `None`) yields the metric.
pub open spec fn metric_ready(content: Option<Seq<char>>) -> bool {
    content matches Some(t) && dps_of(t) is Some
}

/// The view of the artifact argument handed to `poll_reply`.
pub open spec fn content_view(content: Option<&String>) -> Option<Seq<char>> {
    match content {
        Some(t) => Some(t@),
        None => None,
    }
}

/// Decision rule of the result-polling endpoint. `state` is the lifecycle
/// state recorded for the polled id (`None` for an id never issued);
/// `content` is the output artifact's current text (`None` while absent).
///
/// A readable metric is always served. Otherwise a missing or unreadable
/// artifact reports "still running" — never a hard error — unless the job is
/// independently known to have failed, in which case the error is terminal
/// rather than an indefinite "still running".
pub fn poll_reply(state: Option<JobState>, content: Option<&String>) -> (r: PollReply)
    ensures
        content matches Some(t) ==> (match dps_of(t@) {
            Some(m) => r matches PollReply::Dps(s) && s@ == m,
            None => true,
        }),
        !metric_ready(content_view(content)) && state == Some(JobState::Failed) ==> r
            is TerminalError,
        !metric_ready(content_view(content)) && state != Some(JobState::Failed) ==> r
            is StillRunning,
{
    let ex = extract(content);
    match ex {
        Extraction::Metric(m) => PollReply::Dps(m),
        _ => match state {
            Some(JobState::Failed) => PollReply::TerminalError,
            _ => PollReply::StillRunning,
        },
    }
}

/// JSON body of each poll reply, exactly as the endpoint serves it.
pub open spec fn render_spec(r: PollReply) -> Seq<char> {
    match r {
        PollReply::Dps(m) => "{\"dps\":"@ + m@ + "}"@,
        PollReply::TerminalError => "{\"error\":\"Simulation failed\"}"@,
        PollReply::StillRunning => "{\"error\":\"Simulation running\"}"@,
    }
}

/// Builds the JSON body served for a poll reply.
pub fn render_reply(r: &PollReply) -> (body: String)
    ensures
        body@ == render_spec(*r),
{
    match r {
        PollReply::Dps(m) => {
            let mut s = String::from_str("{\"dps\":");
            s.append(m.as_str());
            s.append("}");
            s
        },
        PollReply::TerminalError => String::from_str("{\"error\":\"Simulation failed\"}"),
        PollReply::StillRunning => String::from_str("{\"error\":\"Simulation running\"}"),
    }
}

} // verus!
