//! In-memory store of every job of one server process.
//!
//! A job is created when a submission is accepted, moves from `Pending` to
//! `Running` when its execution is dispatched, and ends `Completed` or
//! `Failed` when the execution signals success or failure. The store also
//! records whether the job's staged input artifact is still expected on disk;
//! recording a finished execution always clears that flag, so a terminal job
//! never claims an input artifact.
//!
//! The store is modelled as a map from job id to a pair of lifecycle state
//! and input-artifact flag. Ids held by the store are pairwise distinct, and
//! `create` accepts an id only when no job holds it yet: an id, once issued,
//! is never reused.

use vstd::prelude::*;

verus! {

/// Lifecycle state of one job.
#[derive(Clone, Copy, PartialEq, Eq, Structural, Debug)]
pub enum JobState {
    /// Input staged, execution not yet confirmed started.
    Pending,
    /// Execution dispatched; no result recorded yet.
    Running,
    /// Execution finished and signalled success.
    Completed,
    /// Execution finished and signalled failure.
    Failed,
}

/// A state from which no further transition is possible.
pub open spec fn is_terminal(st: JobState) -> bool {
    st == JobState::Completed || st == JobState::Failed
}

/// One job known to the store.
struct JobRecord {
    id: String,
    state: JobState,
    input_present: bool,
}

/// All jobs of one server process, keyed by job id.
pub struct JobStore {
    jobs: Vec<JobRecord>,
}

spec fn ids_distinct(jobs: Seq<JobRecord>) -> bool {
    forall|i: int, j: int|
        0 <= i < j < jobs.len() ==> (#[trigger] jobs[i].id)@ != (#[trigger] jobs[j].id)@
}

spec fn terminal_inputs_gone(jobs: Seq<JobRecord>) -> bool {
    forall|i: int|
        0 <= i < jobs.len() && is_terminal((#[trigger] jobs[i]).state) ==> !jobs[i].input_present
}

impl View for JobStore {
    type V = Map<Seq<char>, (JobState, bool)>;

    closed spec fn view(&self) -> Map<Seq<char>, (JobState, bool)> {
        Map::new(
            |id: Seq<char>| exists|i: int| 0 <= i < self.jobs@.len() && (#[trigger] self.jobs@[i].id)@ == id,
            |id: Seq<char>|
                {
                    let i = choose|i: int|
                        0 <= i < self.jobs@.len() && (#[trigger] self.jobs@[i].id)@ == id;
                    (self.jobs@[i].state, self.jobs@[i].input_present)
                },
        )
    }
}

impl JobStore {
    #[verifier::type_invariant]
    spec fn wf(self) -> bool {
        ids_distinct(self.jobs@) && terminal_inputs_gone(self.jobs@)
    }

    /// Every job that has reached a terminal state has had its staged input
    /// artifact withdrawn: the store never shows a finished job whose input
    /// is still claimed to be on disk.
    pub open spec fn inputs_cleaned(self) -> bool {
        forall|id: Seq<char>|
            #[trigger] self@.dom().contains(id) && is_terminal(self@[id].0) ==> !self@[id].1
    }

    /// The record at index `k` is what the map view reports under its id.
    proof fn lemma_view_index(self, k: int)
        requires
            self.wf(),
            0 <= k < self.jobs@.len(),
        ensures
            self@.dom().contains(self.jobs@[k].id@),
            self@[self.jobs@[k].id@] == (self.jobs@[k].state, self.jobs@[k].input_present),
    {
        let id = self.jobs@[k].id@;
        assert(0 <= k < self.jobs@.len() && self.jobs@[k].id@ == id);
        let j = choose|j: int| 0 <= j < self.jobs@.len() && (#[trigger] self.jobs@[j].id)@ == id;
        if j != k {
            if j < k {
                assert(self.jobs@[j].id@ != self.jobs@[k].id@);
            } else {
                assert(self.jobs@[k].id@ != self.jobs@[j].id@);
            }
        }
    }

    /// A well-formed store satisfies `inputs_cleaned`.
    proof fn lemma_wf_inputs_cleaned(self)
        requires
            self.wf(),
        ensures
            self.inputs_cleaned(),
    {
        assert forall|id: Seq<char>|
            #[trigger] self@.dom().contains(id) && is_terminal(self@[id].0) implies !self@[id].1 by {
            let i = choose|i: int|
                0 <= i < self.jobs@.len() && (#[trigger] self.jobs@[i].id)@ == id;
            self.lemma_view_index(i);
        }
    }

    /// An empty store: no job is known.
    pub fn new() -> (s: JobStore)
        ensures
            s@ == Map::<Seq<char>, (JobState, bool)>::empty(),
    {
        let s = JobStore { jobs: Vec::new() };
        proof {
            assert(s@ =~= Map::<Seq<char>, (JobState, bool)>::empty());
        }
        s
    }

    /// Index of the job holding `id`, if any.
    fn find(&self, id: &String) -> (r: Option<usize>)
        ensures
            match r {
                Some(k) => k < self.jobs@.len() && self.jobs@[k as int].id@ == id@,
                None => forall|i: int|
                    0 <= i < self.jobs@.len() ==> (#[trigger] self.jobs@[i].id)@ != id@,
            },
    {
        let mut k: usize = 0;
        while k < self.jobs.len()
            invariant
                k <= self.jobs@.len(),
                forall|i: int| 0 <= i < k ==> (#[trigger] self.jobs@[i].id)@ != id@,
            decreases self.jobs@.len() - k,
        {
            if self.jobs[k].id == *id {
                return Some(k);
            }
            k += 1;
        }
        None
    }

    /// Creates a job under the id `token`, in state `Pending` and with its
    /// input artifact staged. Succeeds exactly when no job holds that id yet:
    /// an id, once issued, is never issued again by the same store.
    pub fn create(&mut self, token: String) -> (created: bool)
        ensures
            created == !old(self)@.dom().contains(token@),
            created ==> final(self)@ == old(self)@.insert(token@, (JobState::Pending, true)),
            !created ==> final(self)@ == old(self)@,
    {
        proof {
            use_type_invariant(&*self);
        }
        let found = self.find(&token);
        match found {
            Some(k) => {
                proof {
                    self.lemma_view_index(k as int);
                }
                false
            },
            None => {
                let ghost pre = *self;
                let mut jobs: Vec<JobRecord> = Vec::new();
                std::mem::swap(&mut jobs, &mut self.jobs);
                jobs.push(
                    JobRecord { id: token, state: JobState::Pending, input_present: true },
                );
                self.jobs = jobs;
                proof {
                    use_type_invariant(&*self);
                    let post = *self;
                    let n = pre.jobs@.len() as int;
                    let target = pre@.insert(token@, (JobState::Pending, true));
                    assert forall|x: Seq<char>| #[trigger] target.dom().contains(x) implies
                        post@.dom().contains(x) by {
                        if x == token@ {
                            post.lemma_view_index(n);
                        } else {
                            let i = choose|i: int|
                                0 <= i < pre.jobs@.len() && (#[trigger] pre.jobs@[i].id)@ == x;
                            post.lemma_view_index(i);
                        }
                    }
                    assert forall|x: Seq<char>| #[trigger] post@.dom().contains(x) implies
                        target.dom().contains(x) && post@[x] == target[x] by {
                        let i = choose|i: int|
                            0 <= i < post.jobs@.len() && (#[trigger] post.jobs@[i].id)@ == x;
                        post.lemma_view_index(i);
                        if i < n {
                            assert(pre.jobs@[i].id@ == x);
                            pre.lemma_view_index(i);
                        } else {
                            assert(i == n);
                            assert(x == token@);
                        }
                    }
                    assert(self@ =~= target);
                }
                true
            },
        }
    }

    /// The lifecycle state recorded for `id`, or `None` for an id no
    /// submission ever received.
    pub fn get_state(&self, id: &String) -> (r: Option<JobState>)
        ensures
            r == (if self@.dom().contains(id@) {
                Some(self@[id@].0)
            } else {
                None::<JobState>
            }),
            self.inputs_cleaned(),
    {
        proof {
            use_type_invariant(&*self);
            self.lemma_wf_inputs_cleaned();
        }
        match self.find(id) {
            Some(k) => {
                proof {
                    self.lemma_view_index(k as int);
                }
                Some(self.jobs[k].state)
            },
            None => None,
        }
    }

    /// Whether the staged input artifact of `id` is still expected on disk.
    pub fn input_staged(&self, id: &String) -> (r: Option<bool>)
        ensures
            r == (if self@.dom().contains(id@) {
                Some(self@[id@].1)
            } else {
                None::<bool>
            }),
    {
        proof {
            use_type_invariant(&*self);
        }
        match self.find(id) {
            Some(k) => {
                proof {
                    self.lemma_view_index(k as int);
                }
                Some(self.jobs[k].input_present)
            },
            None => None,
        }
    }

    /// After a record at `k` is replaced by one with the same id, the view is
    /// the old view with that id's entry overwritten.
    proof fn lemma_view_update(pre: JobStore, post: JobStore, k: int)
        requires
            pre.wf(),
            post.wf(),
            0 <= k < pre.jobs@.len(),
            post.jobs@.len() == pre.jobs@.len(),
            post.jobs@[k].id@ == pre.jobs@[k].id@,
            forall|i: int| 0 <= i < pre.jobs@.len() && i != k ==> post.jobs@[i] == pre.jobs@[i],
        ensures
            post@ == pre@.insert(
                pre.jobs@[k].id@,
                (post.jobs@[k].state, post.jobs@[k].input_present),
            ),
    {
        let id = pre.jobs@[k].id@;
        assert forall|x: Seq<char>| true implies
            (post@.dom().contains(x) <==> pre@.dom().contains(x) || x == id) by {
            if post@.dom().contains(x) {
                let i = choose|i: int|
                    0 <= i < post.jobs@.len() && (#[trigger] post.jobs@[i].id)@ == x;
                assert(pre.jobs@[i].id@ == x || i == k);
                if i == k && x != id {
                    assert(pre.jobs@[i].id@ == x);
                }
            }
            if pre@.dom().contains(x) {
                let i = choose|i: int|
                    0 <= i < pre.jobs@.len() && (#[trigger] pre.jobs@[i].id)@ == x;
                if i == k {
                    assert(post.jobs@[k].id@ == x);
                } else {
                    assert(post.jobs@[i].id@ == x);
                }
            }
            if x == id {
                assert(post.jobs@[k].id@ == x);
            }
        }
        assert forall|x: Seq<char>| #[trigger] post@.dom().contains(x) implies
            post@[x] == pre@.insert(id, (post.jobs@[k].state, post.jobs@[k].input_present))[x] by {
            let i = choose|i: int|
                0 <= i < post.jobs@.len() && (#[trigger] post.jobs@[i].id)@ == x;
            if x == id {
                if i != k {
                    if i < k {
                        assert(post.jobs@[i].id@ != post.jobs@[k].id@);
                    } else {
                        assert(post.jobs@[k].id@ != post.jobs@[i].id@);
                    }
                }
                assert(i == k);
            } else {
                assert(i != k);
                assert(pre.jobs@[i].id@ == x);
                pre.lemma_view_index(i);
                let j = choose|j: int|
                    0 <= j < pre.jobs@.len() && (#[trigger] pre.jobs@[j].id)@ == x;
                if i != j {
                    if i < j {
                        assert(post.jobs@[i].id@ != post.jobs@[j].id@);
                        assert(pre.jobs@[j].id@ == x);
                        assert(post.jobs@[j].id@ == x);
                    } else {
                        assert(post.jobs@[j].id@ == x);
                    }
                }
            }
        }
        assert(post@ =~= pre@.insert(id, (post.jobs@[k].state, post.jobs@[k].input_present)));
    }

    /// Records that the execution for `id` was dispatched. Succeeds exactly
    /// when the job exists and is still `Pending`, so a second dispatch of
    /// the same job is refused: at most one execution per id.
    pub fn mark_running(&mut self, id: &String) -> (ok: bool)
        ensures
            ok == (old(self)@.dom().contains(id@) && old(self)@[id@].0 == JobState::Pending),
            ok ==> final(self)@ == old(self)@.insert(
                id@,
                (JobState::Running, old(self)@[id@].1),
            ),
            !ok ==> final(self)@ == old(self)@,
    {
        proof {
            use_type_invariant(&*self);
        }
        let ghost pre = *self;
        match self.find(id) {
            Some(k) => {
                proof {
                    self.lemma_view_index(k as int);
                }
                match self.jobs[k].state {
                    JobState::Pending => {
                        let mut jobs: Vec<JobRecord> = Vec::new();
                        std::mem::swap(&mut jobs, &mut self.jobs);
                        let rec = &mut jobs[k];
                        rec.state = JobState::Running;
                        self.jobs = jobs;
                        proof {
                            JobStore::lemma_view_update(pre, *self, k as int);
                        }
                        true
                    },
                    _ => false,
                }
            },
            None => false,
        }
    }

    /// Records that the execution for `id` finished, successfully or not, and
    /// that its staged input artifact is gone: the caller deletes that
    /// artifact as part of the same completion step, never before the
    /// execution has finished. Succeeds exactly when the job exists and had
    /// not already reached a terminal state.
    pub fn finish(&mut self, id: &String, success: bool) -> (ok: bool)
        ensures
            ok == (old(self)@.dom().contains(id@) && !is_terminal(old(self)@[id@].0)),
            ok ==> final(self)@ == old(self)@.insert(
                id@,
                (if success {
                    JobState::Completed
                } else {
                    JobState::Failed
                }, false),
            ),
            !ok ==> final(self)@ == old(self)@,
            final(self).inputs_cleaned(),
    {
        proof {
            use_type_invariant(&*self);
            self.lemma_wf_inputs_cleaned();
        }
        let ghost pre = *self;
        match self.find(id) {
            Some(k) => {
                proof {
                    self.lemma_view_index(k as int);
                }
                match self.jobs[k].state {
                    JobState::Completed => false,
                    JobState::Failed => false,
                    _ => {
                        let mut jobs: Vec<JobRecord> = Vec::new();
                        std::mem::swap(&mut jobs, &mut self.jobs);
                        let rec = &mut jobs[k];
                        rec.state = if success {
                            JobState::Completed
                        } else {
                            JobState::Failed
                        };
                        rec.input_present = false;
                        self.jobs = jobs;
                        proof {
                            JobStore::lemma_view_update(pre, *self, k as int);
                            use_type_invariant(&*self);
                            self.lemma_wf_inputs_cleaned();
                        }
                        true
                    },
                }
            },
            None => false,
        }
    }
}

/// A job id accepted for a new submission was never issued before: if a
/// store's map moved from `s0` to `s1` by issuing `t1`, and a later
/// submission's id `t2` was still absent from `s1`, the two submissions
/// received distinct ids.
pub proof fn lemma_job_ids_never_reused(
    s0: Map<Seq<char>, (JobState, bool)>,
    s1: Map<Seq<char>, (JobState, bool)>,
    t1: Seq<char>,
    t2: Seq<char>,
)
    requires
        s1 == s0.insert(t1, (JobState::Pending, true)),
        !s1.dom().contains(t2),
    ensures
        t1 != t2,
{
    assert(s1.dom().contains(t1));
}

} // verus!
