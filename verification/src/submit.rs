//! Acceptance of a submission: a fresh job id is issued, the job registered
//! as `Pending` with its input staged, and the caller handed everything it
//! needs to write the input artifact and dispatch the execution.

use crate::paths::{input_path, input_path_spec, output_path, output_path_spec};
use crate::stage::{stage_profile, staged_spec};
use crate::store::{JobState, JobStore};
use vstd::prelude::*;

verus! {

/// Everything the caller acts on for an accepted submission: the issued job
/// id, the staged input text to write, and the two artifact paths.
pub struct SubmitTicket {
    pub id: String,
    pub staged: String,
    pub input_path: String,
    pub output_path: String,
}

/// What the ticket issued for `token` and `profile` holds.
pub open spec fn ticket_ok(t: SubmitTicket, token: Seq<char>, profile: Seq<char>) -> bool {
    &&& t.id@ == token
    &&& t.staged@ == staged_spec(profile)
    &&& t.input_path@ == input_path_spec(token)
    &&& t.output_path@ == output_path_spec(token)
}

/// Accepts a submission under the id `token`: registers the job as `Pending`
/// with its input staged, and returns its ticket. Succeeds exactly when
/// `token` was never issued before on this store; on the refused duplicate
/// the store is unchanged.
pub fn submit(store: &mut JobStore, token: String, profile: &str) -> (r: Option<SubmitTicket>)
    ensures
        r is Some <==> !old(store)@.dom().contains(token@),
        r matches Some(t) ==> ticket_ok(t, token@, profile@) && final(store)@ == old(
            store,
        )@.insert(token@, (JobState::Pending, true)),
        r is None ==> final(store)@ == old(store)@,
{
    let id = token.clone();
    let staged = stage_profile(profile);
    let input_path = input_path(&token);
    let output_path = output_path(&token);
    if store.create(token) {
        Some(SubmitTicket { id, staged, input_path, output_path })
    } else {
        None
    }
}

/// Where an accepted submission is redirected to: the job's status page.
pub open spec fn status_page_target_spec(id: Seq<char>) -> Seq<char> {
    "/quicksim/"@ + id
}

/// Builds the redirect target for an accepted submission.
pub fn status_page_target(id: &String) -> (t: String)
    ensures
        t@ == status_page_target_spec(id@),
{
    let mut t = String::from_str("/quicksim/");
    t.append(id.as_str());
    t
}

/// Relies on uuid::Uuid::new_v4 and its hyphenated `Display` form: a fresh
/// random 128-bit identifier written as 36 characters. The value is random,
/// so no two calls are related; each outcome is only known to be a
/// 36-character token.
#[verifier::external_body]
fn fresh_token() -> (r: String)
    ensures
        r@.len() == 36,
{
    uuid::Uuid::new_v4().to_string()
}

/// Accepts a submission under a freshly drawn random job id. The id is new:
/// on the astronomically unlikely collision with an earlier id the
/// submission is refused with the store unchanged, never re-dispatched under
/// the old id, and the client may simply resubmit.
pub fn submit_new(store: &mut JobStore, profile: &str) -> (r: Option<SubmitTicket>)
    ensures
        r matches Some(t) ==> !old(store)@.dom().contains(t.id@) && ticket_ok(
            t,
            t.id@,
            profile@,
        ) && final(store)@ == old(store)@.insert(t.id@, (JobState::Pending, true)),
        r is None ==> final(store)@ == old(store)@,
{
    let token = fresh_token();
    submit(store, token, profile)
}

} // verus!
