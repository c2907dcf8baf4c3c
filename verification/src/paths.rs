//! The artifact-path scheme: each job owns two files under the jobs
//! directory, named by its id with one extension for the staged input and
//! another for the simulation's output. Distinct ids own disjoint path pairs,
//! and a job's input path never collides with any output path, so no lock is
//! needed across jobs: the filesystem namespace itself separates them.

use vstd::prelude::*;

verus! {

/// Path of the staged input artifact of a job.
pub open spec fn input_path_spec(id: Seq<char>) -> Seq<char> {
    "files/"@ + id + ".simc"@
}

/// Path of the simulation's output artifact of a job.
pub open spec fn output_path_spec(id: Seq<char>) -> Seq<char> {
    "files/"@ + id + ".json"@
}

/// Builds the input artifact path of a job.
pub fn input_path(id: &String) -> (p: String)
    ensures
        p@ == input_path_spec(id@),
{
    let mut p = String::from_str("files/");
    p.append(id.as_str());
    p.append(".simc");
    p
}

/// Builds the output artifact path of a job.
pub fn output_path(id: &String) -> (p: String)
    ensures
        p@ == output_path_spec(id@),
{
    let mut p = String::from_str("files/");
    p.append(id.as_str());
    p.append(".json");
    p
}

/// Jobs never share artifacts: the four paths of two jobs with distinct ids
/// are pairwise distinct, and even one job's own input and output paths
/// differ. Two concurrent submissions therefore work on independent,
/// non-interfering artifact pairs.
pub proof fn lemma_artifact_paths_disjoint(a: Seq<char>, b: Seq<char>)
    ensures
        input_path_spec(a) != output_path_spec(b),
        a != b ==> input_path_spec(a) != input_path_spec(b),
        a != b ==> output_path_spec(a) != output_path_spec(b),
{
    reveal_strlit("files/");
    reveal_strlit(".simc");
    reveal_strlit(".json");
    assert("files/"@.len() == 6);
    assert(".simc"@.len() == 5);
    assert(".json"@.len() == 5);
    assert(input_path_spec(a).len() == a.len() + 11);
    assert(input_path_spec(b).len() == b.len() + 11);
    assert(output_path_spec(a).len() == a.len() + 11);
    assert(output_path_spec(b).len() == b.len() + 11);
    if input_path_spec(a) == output_path_spec(b) {
        assert(a.len() == b.len());
        let i = 6 + a.len() as int + 4;
        assert(input_path_spec(a)[i] == 'c');
        assert(output_path_spec(b)[i] == 'n');
        assert(false);
    }
    if a != b && a.len() == b.len() {
        if input_path_spec(a) == input_path_spec(b) {
            assert(a =~= b) by {
                assert forall|i: int| 0 <= i < a.len() implies a[i] == b[i] by {
                    assert(input_path_spec(a)[6 + i] == a[i]);
                    assert(input_path_spec(b)[6 + i] == b[i]);
                }
            }
        }
        if output_path_spec(a) == output_path_spec(b) {
            assert(a =~= b) by {
                assert forall|i: int| 0 <= i < a.len() implies a[i] == b[i] by {
                    assert(output_path_spec(a)[6 + i] == a[i]);
                    assert(output_path_spec(b)[6 + i] == b[i]);
                }
            }
        }
    }
}

} // verus!
