//! Staging of a submitted simulation profile into the text of the job's input
//! artifact: the client's text followed by fixed execution parameters.

use vstd::prelude::*;

verus! {

/// The fixed execution parameters appended to every staged profile: a time
/// bound and an iteration count. They stand after the client's text, so a
/// tool that reads duplicate parameters as "last occurrence wins" cannot be
/// steered past these bounds by anything the client submits.
pub open spec fn params_suffix() -> Seq<char> {
    "\nmax_time=300\niterations=10000\n"@
}

/// The text of the staged input artifact for a submitted profile.
pub open spec fn staged_spec(profile: Seq<char>) -> Seq<char> {
    profile + params_suffix()
}

/// Builds the input artifact's text for a submitted profile: the profile
/// itself, then the fixed execution parameters.
pub fn stage_profile(profile: &str) -> (staged: String)
    ensures
        staged@ == staged_spec(profile@),
{
    let mut staged = String::from_str(profile);
    staged.append("\nmax_time=300\niterations=10000\n");
    staged
}

/// Number of positions of `s` at which `pat` stands as a substring.
pub open spec fn count_occ(s: Seq<char>, pat: Seq<char>) -> nat
    decreases s.len(),
{
    if pat.len() == 0 || s.len() < pat.len() {
        0
    } else {
        (if s.subrange(0, pat.len() as int) == pat {
            1nat
        } else {
            0nat
        }) + count_occ(s.skip(1), pat)
    }
}

/// The parameter name of the time bound.
pub open spec fn max_time_key() -> Seq<char> {
    "max_time="@
}

/// The parameter name of the iteration count.
pub open spec fn iterations_key() -> Seq<char> {
    "iterations="@
}

/// Whether `pat` stands in `s` at position `i`.
pub open spec fn occurs_at(s: Seq<char>, pat: Seq<char>, i: int) -> bool {
    0 <= i <= s.len() - pat.len() && s.subrange(i, i + pat.len()) == pat
}

/// Occurrences split over a concatenation whose right part starts with a
/// character that the pattern does not hold: no occurrence straddles the
/// boundary.
proof fn lemma_count_occ_append(a: Seq<char>, b: Seq<char>, pat: Seq<char>)
    requires
        pat.len() > 0,
        b.len() > 0,
        forall|k: int| 0 <= k < pat.len() ==> pat[k] != b[0],
    ensures
        count_occ(a + b, pat) == count_occ(a, pat) + count_occ(b, pat),
    decreases a.len(),
{
    if a.len() == 0 {
        assert(a + b =~= b);
    } else {
        assert((a + b).skip(1) =~= a.skip(1) + b);
        lemma_count_occ_append(a.skip(1), b, pat);
        if a.len() >= pat.len() {
            assert((a + b).subrange(0, pat.len() as int) =~= a.subrange(0, pat.len() as int));
        } else {
            if (a + b).len() >= pat.len() && (a + b).subrange(0, pat.len() as int) == pat {
                assert(pat[a.len() as int] == (a + b)[a.len() as int]);
                assert((a + b)[a.len() as int] == b[0]);
                assert(false);
            }
        }
    }
}

/// A text without any occurrence has count zero.
proof fn lemma_count_occ_none(s: Seq<char>, pat: Seq<char>)
    requires
        pat.len() > 0,
        forall|i: int| !(#[trigger] occurs_at(s, pat, i)),
    ensures
        count_occ(s, pat) == 0,
    decreases s.len(),
{
    if s.len() >= pat.len() {
        assert(!occurs_at(s, pat, 0));
        assert(s.subrange(0, pat.len() as int) != pat);
        assert forall|i: int| !(#[trigger] occurs_at(s.skip(1), pat, i)) by {
            if occurs_at(s.skip(1), pat, i) {
                assert(s.skip(1).subrange(i, i + pat.len()) =~= s.subrange(
                    i + 1,
                    i + 1 + pat.len(),
                ));
                assert(occurs_at(s, pat, i + 1));
            }
        }
        lemma_count_occ_none(s.skip(1), pat);
    }
}

/// A text whose only occurrence stands at `p` has count one.
proof fn lemma_count_occ_one(s: Seq<char>, pat: Seq<char>, p: int)
    requires
        pat.len() > 0,
        occurs_at(s, pat, p),
        forall|i: int| i != p ==> !(#[trigger] occurs_at(s, pat, i)),
    ensures
        count_occ(s, pat) == 1,
    decreases s.len(),
{
    assert forall|i: int| i != p - 1 implies !(#[trigger] occurs_at(s.skip(1), pat, i)) by {
        if occurs_at(s.skip(1), pat, i) {
            assert(s.skip(1).subrange(i, i + pat.len()) =~= s.subrange(i + 1, i + 1 + pat.len()));
            assert(occurs_at(s, pat, i + 1));
        }
    }
    if p == 0 {
        assert(s.subrange(0, pat.len() as int) == pat);
        lemma_count_occ_none(s.skip(1), pat);
    } else {
        assert(!occurs_at(s, pat, 0));
        assert(s.subrange(0, pat.len() as int) != pat);
        assert(s.skip(1).subrange(p - 1, p - 1 + pat.len()) =~= s.subrange(p, p + pat.len()));
        assert(occurs_at(s.skip(1), pat, p - 1));
        lemma_count_occ_one(s.skip(1), pat, p - 1);
    }
}

/// Each fixed execution parameter is appended to the staged text exactly
/// once, whatever the client submitted: one occurrence of each parameter
/// name beyond those the client's own text carries.
pub proof fn lemma_params_appended_once(profile: Seq<char>)
    ensures
        count_occ(staged_spec(profile), max_time_key()) == count_occ(profile, max_time_key())
            + 1,
        count_occ(staged_spec(profile), iterations_key()) == count_occ(
            profile,
            iterations_key(),
        ) + 1,
{
    reveal_strlit("\nmax_time=300\niterations=10000\n");
    reveal_strlit("max_time=");
    reveal_strlit("iterations=");
    let sfx = params_suffix();
    let mk = max_time_key();
    let ik = iterations_key();
    assert(sfx.len() == 31);
    assert(mk.len() == 9);
    assert(ik.len() == 11);
    assert(occurs_at(sfx, mk, 1)) by {
        assert(sfx.subrange(1, 1 + mk.len() as int) =~= mk);
    }
    assert forall|i: int| i != 1 implies !(#[trigger] occurs_at(sfx, mk, i)) by {
        if occurs_at(sfx, mk, i) {
            assert(0 <= i <= 22);
            assert(sfx.subrange(i, i + mk.len())[0] == sfx[i]);
            assert(sfx[i] == 'm');
            assert(i == 7);
            assert(sfx.subrange(i, i + mk.len())[1] == sfx[8]);
            assert(false);
        }
    }
    lemma_count_occ_one(sfx, mk, 1);
    assert(occurs_at(sfx, ik, 14)) by {
        assert(sfx.subrange(14, 14 + ik.len() as int) =~= ik);
    }
    assert forall|i: int| i != 14 implies !(#[trigger] occurs_at(sfx, ik, i)) by {
        if occurs_at(sfx, ik, i) {
            assert(0 <= i <= 20);
            assert(sfx.subrange(i, i + ik.len())[0] == sfx[i]);
            assert(sfx[i] == 'i');
            assert(i == 6 || i == 20);
            assert(sfx.subrange(i, i + ik.len())[1] == sfx[i + 1]);
            assert(false);
        }
    }
    lemma_count_occ_one(sfx, ik, 14);
    assert(forall|k: int| 0 <= k < mk.len() ==> mk[k] != '\n');
    assert(forall|k: int| 0 <= k < ik.len() ==> ik[k] != '\n');
    assert(sfx[0] == '\n');
    lemma_count_occ_append(profile, sfx, mk);
    lemma_count_occ_append(profile, sfx, ik);
}

/// A profile that does not itself mention the fixed parameter names yields a
/// staged text holding each of them exactly once.
pub proof fn lemma_params_exactly_once(profile: Seq<char>)
    requires
        count_occ(profile, max_time_key()) == 0,
        count_occ(profile, iterations_key()) == 0,
    ensures
        count_occ(staged_spec(profile), max_time_key()) == 1,
        count_occ(staged_spec(profile), iterations_key()) == 1,
{
    lemma_params_appended_once(profile);
}

/// The execution parameters stand after the whole of the client's text, and
/// the client's text reaches the artifact unchanged.
pub proof fn lemma_params_after_profile(profile: Seq<char>)
    ensures
        staged_spec(profile).len() == profile.len() + params_suffix().len(),
        staged_spec(profile).subrange(0, profile.len() as int) == profile,
        staged_spec(profile).subrange(
            profile.len() as int,
            staged_spec(profile).len() as int,
        ) == params_suffix(),
{
    assert(staged_spec(profile).subrange(0, profile.len() as int) =~= profile);
    assert(staged_spec(profile).subrange(
        profile.len() as int,
        staged_spec(profile).len() as int,
    ) =~= params_suffix());
}

} // verus!
