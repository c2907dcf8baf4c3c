//! Extraction of the single numeric metric from the simulation's structured
//! output artifact. The artifact is owned by the external simulation; this
//! module only reads whatever text of it currently exists, without blocking.

use vstd::prelude::*;

verus! {

/// The metric text that the fixed field path of a simulation output document
/// yields: the JSON text of the number at
/// `sim.players[0].collected_data.dps.mean`, or nothing when the document is
/// not valid JSON, the path is absent, or the value there is not a number.
/// A function of the document text alone.
pub uninterp spec fn dps_of(text: Seq<char>) -> Option<Seq<char>>;

/// Relies on serde_json::from_str, serde_json::Value::get,
/// serde_json::Value::is_number and serde_json::to_string: parses the output
/// document and hands back the JSON text of the number at
/// `sim.players[0].collected_data.dps.mean`; `None` when the document is
/// malformed, the path absent, or the value there not a number. serde_json
/// parses and prints deterministically, so the result is a function of
/// `text` alone, named `dps_of`.
#[verifier::external_body]
fn parse_dps_metric(text: &str) -> (r: Option<String>)
    ensures
        match r {
            Some(m) => dps_of(text@) == Some(m@),
            None => dps_of(text@) is None,
        },
{
    let v: serde_json::Value = match serde_json::from_str(text) {
        Ok(v) => v,
        Err(_) => return None,
    };
    let players = v.get("sim")?.get("players")?;
    let mean = players.get(0)?.get("collected_data")?.get("dps")?.get("mean")?;
    if mean.is_number() {
        serde_json::to_string(mean).ok()
    } else {
        None
    }
}

/// What one non-blocking read of the output artifact yielded.
pub enum Extraction {
    /// The metric, as the JSON text of the number found at the fixed path.
    Metric(String),
    /// The artifact does not exist yet: the common case while the job runs.
    NotReady,
    /// The artifact exists but is not valid JSON, lacks the fixed field
    /// path, or holds a non-number there. A partially written artifact shows
    /// up here too, so callers polling a live job treat this like `NotReady`.
    Malformed,
}

/// Reads the metric out of the output artifact's text; `content` is the
/// artifact's text when it exists, `None` while it is absent. Absence is not
/// an error: the job simply has not produced its output yet.
pub fn extract(content: Option<&String>) -> (r: Extraction)
    ensures
        content is None ==> r is NotReady,
        content matches Some(t) ==> (match dps_of(t@) {
            Some(m) => r matches Extraction::Metric(s) && s@ == m,
            None => r is Malformed,
        }),
{
    match content {
        None => Extraction::NotReady,
        Some(text) => match parse_dps_metric(text.as_str()) {
            Some(m) => Extraction::Metric(m),
            None => Extraction::Malformed,
        },
    }
}

} // verus!
