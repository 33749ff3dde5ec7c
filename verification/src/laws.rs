//! What holds of every rename run.

use vstd::prelude::*;
use crate::paths::{spec_path_key, spec_same_path};
use crate::plan::{
    bound_for, claimed_by, destination_keys, is_plan, lemma_planned_keeps_plan, CandidateView,
    NoticeKind, RenameErrorView, Verdict, verdict,
};
use crate::rename::{
    actions_for, considered, first_unusable, gathered, lemma_failure_sticks,
    lemma_first_unusable_at, lemma_gathered_step, survey, unusable_path, Located, Progress,
};
use crate::text::lemma_first_index_found;

verus! {

/// Whether `candidate` is a titled package that already stands where its
/// title would put it.
pub open spec fn settled(candidate: CandidateView) -> bool {
    candidate.exists && bound_for(candidate) is Some && spec_same_path(
        bound_for(candidate).unwrap(),
        candidate.path,
    )
}

/// Whether `candidate` is a titled package that would have to move.
pub open spec fn unsettled(candidate: CandidateView) -> bool {
    candidate.exists && bound_for(candidate) is Some && !spec_same_path(
        bound_for(candidate).unwrap(),
        candidate.path,
    )
}

/// Whether `found` holds the candidate at `at` that the move `entry`, a
/// destination and a source, was planned for.
pub open spec fn planned_for(found: Seq<Located>, entry: (Seq<char>, Seq<char>), at: int) -> bool {
    &&& 0 <= at < found.len()
    &&& considered(found[at]) is Some
    &&& considered(found[at]).unwrap().path == entry.1
    &&& bound_for(considered(found[at]).unwrap()) == Some(entry.0)
}

/// Whether `found` holds a candidate that the move `entry` was planned for.
pub open spec fn has_candidate(found: Seq<Located>, entry: (Seq<char>, Seq<char>)) -> bool {
    exists|at: int| planned_for(found, entry, at)
}

/// Whether one path always comes with one title in `found`: two candidates
/// at one path are bound for one place.
pub open spec fn one_title_per_path(found: Seq<Located>) -> bool {
    forall|i: int, j: int|
        0 <= i < found.len() && 0 <= j < found.len() && considered(#[trigger] found[i]) is Some
            && considered(#[trigger] found[j]) is Some && bound_for(
            considered(found[i]).unwrap(),
        ) is Some && bound_for(considered(found[j]).unwrap()) is Some && spec_same_path(
            considered(found[i]).unwrap().path,
            considered(found[j]).unwrap().path,
        ) ==> spec_same_path(
            bound_for(considered(found[i]).unwrap()).unwrap(),
            bound_for(considered(found[j]).unwrap()).unwrap(),
        )
}

/// No unusable argument is found exactly where none of the things found is
/// one.
pub proof fn lemma_first_unusable_none(found: Seq<Located>)
    ensures
        first_unusable(found) is None <==> forall|j: int|
            0 <= j < found.len() ==> unusable_path(#[trigger] found[j]) is None,
    decreases found.len(),
{
    if found.len() > 0 {
        let rest = found.drop_first();
        lemma_first_unusable_none(rest);
        if first_unusable(found) is None {
            assert forall|j: int| 0 <= j < found.len() implies unusable_path(
                #[trigger] found[j],
            ) is None by {
                if j > 0 {
                    assert(rest[j - 1] == found[j]);
                }
            }
        } else if unusable_path(found[0]) is None {
            let j = choose|j: int| 0 <= j < rest.len() && unusable_path(#[trigger] rest[j]) is Some;
            assert(found[j + 1] == rest[j]);
        }
    }
}

/// Where every argument is a file or a directory, so is every argument among
/// the first `k` things found, and planning looks at every candidate.
pub proof fn lemma_usable_prefix(found: Seq<Located>, k: int)
    requires
        0 <= k <= found.len(),
        first_unusable(found) is None,
    ensures
        first_unusable(found.take(k)) is None,
        survey(found.take(k)) == gathered(found.take(k)),
        survey(found) == gathered(found),
{
    lemma_first_unusable_none(found);
    let front = found.take(k);
    assert forall|j: int| 0 <= j < front.len() implies unusable_path(front[j]) is None by {
        assert(front[j] == found[j]);
    }
    lemma_first_unusable_at(front, k);
}

/// An argument that is neither a file nor a directory fails the run before
/// planning begins: the error names the first such argument, no candidate is
/// noted and no move is planned, whatever else was found.
pub proof fn lemma_unusable_argument_fails_at_once(found: Seq<Located>, k: int)
    requires
        0 <= k < found.len(),
        found[k] is Neither,
    ensures
        first_unusable(found) is Some,
        survey(found) == (Progress {
            notices: Seq::empty(),
            plan: Seq::empty(),
            failure: Some(
                RenameErrorView::InvalidArgument { path: first_unusable(found).unwrap() },
            ),
        }),
{
    lemma_first_unusable_none(found);
    assert(unusable_path(found[k]) is Some);
}

/// The moves that are settled on while candidates are looked at always form
/// a mapping from destination to source.
pub proof fn lemma_gathered_is_plan(found: Seq<Located>)
    ensures
        is_plan(gathered(found).plan),
    decreases found.len(),
{
    if found.len() > 0 {
        lemma_gathered_is_plan(found.drop_last());
        let before = gathered(found.drop_last());
        match considered(found.last()) {
            Some(candidate) => {
                if before.failure is None {
                    match verdict(before.plan, candidate) {
                        Verdict::Planned(destination) => {
                            lemma_planned_keeps_plan(before.plan, destination, candidate.path);
                        },
                        _ => {},
                    }
                }
            },
            None => {},
        }
    }
}

/// The moves that planning settles on always form a mapping from
/// destination to source.
pub proof fn lemma_survey_is_plan(found: Seq<Located>)
    ensures
        is_plan(survey(found).plan),
{
    lemma_gathered_is_plan(found);
}

/// Every move that is settled on was planned for a candidate that was found:
/// its source is the candidate's path, its destination the place that the
/// candidate is bound for.
pub proof fn lemma_moves_come_from_candidates(found: Seq<Located>)
    ensures
        forall|m: int|
            0 <= m < gathered(found).plan.len() ==> has_candidate(
                found,
                #[trigger] gathered(found).plan[m],
            ),
    decreases found.len(),
{
    if found.len() > 0 {
        let front = found.drop_last();
        lemma_moves_come_from_candidates(front);
        let before = gathered(front).plan;
        let after = gathered(found).plan;
        assert forall|m: int| 0 <= m < after.len() implies has_candidate(
            found,
            #[trigger] after[m],
        ) by {
            if m < before.len() {
                assert(after[m] == before[m]);
                assert(has_candidate(front, before[m]));
                let at = choose|at: int| planned_for(front, before[m], at);
                assert(front[at] == found[at]);
                assert(planned_for(found, after[m], at));
            } else {
                assert(planned_for(found, after[m], found.len() - 1));
            }
        }
    }
}

/// In a run in which one path always comes with one title, no source stands
/// twice in the plan: every file is planned for exactly one destination.
pub proof fn lemma_no_source_stands_twice(found: Seq<Located>)
    requires
        one_title_per_path(found),
    ensures
        forall|m: int, n: int|
            0 <= m < n < survey(found).plan.len() ==> !spec_same_path(
                (#[trigger] survey(found).plan[m]).1,
                (#[trigger] survey(found).plan[n]).1,
            ),
{
    if first_unusable(found) is None {
        lemma_gathered_is_plan(found);
        lemma_moves_come_from_candidates(found);
        let plan = gathered(found).plan;
        assert forall|m: int, n: int| 0 <= m < n < plan.len() implies !spec_same_path(
            (#[trigger] plan[m]).1,
            (#[trigger] plan[n]).1,
        ) by {
            assert(has_candidate(found, plan[m]) && has_candidate(found, plan[n]));
            let i = choose|at: int| planned_for(found, plan[m], at);
            let j = choose|at: int| planned_for(found, plan[n], at);
            if spec_same_path(plan[m].1, plan[n].1) {
                assert(considered(found[i]) is Some && considered(found[j]) is Some);
                assert(spec_same_path(plan[m].0, plan[n].0));
            }
        }
    }
}

/// While planning has not been given up, it had not been given up earlier
/// either, and what was planned earlier still opens the plan.
pub proof fn lemma_plan_grows(found: Seq<Located>, k: int, m: int)
    requires
        0 <= k <= m <= found.len(),
        gathered(found.take(m)).failure is None,
    ensures
        gathered(found.take(k)).failure is None,
        gathered(found.take(k)).plan.len() <= gathered(found.take(m)).plan.len(),
        gathered(found.take(k)).plan == gathered(found.take(m)).plan.take(
            gathered(found.take(k)).plan.len() as int,
        ),
    decreases m - k,
{
    if m > k {
        lemma_gathered_step(found, m - 1);
        let before = gathered(found.take(m - 1));
        if before.failure is Some {
            lemma_failure_sticks(found, m - 1, m);
        }
        lemma_plan_grows(found, k, m - 1);
        let early = gathered(found.take(k)).plan;
        assert(early =~= gathered(found.take(m)).plan.take(early.len() as int));
    } else {
        let early = gathered(found.take(k)).plan;
        assert(early =~= early.take(early.len() as int));
    }
}

/// A file that already carries the name its title gives it is passed over,
/// whatever was planned before it.
pub proof fn lemma_settled_is_passed_over(
    plan: Seq<(Seq<char>, Seq<char>)>,
    candidate: CandidateView,
)
    requires
        settled(candidate),
    ensures
        verdict(plan, candidate) == Verdict::Noted(NoticeKind::AlreadyNamed),
{
}

/// Looking at files that all carry the names their titles give them plans
/// nothing and does not fail.
proof fn lemma_settled_files_gather_nothing(found: Seq<Located>)
    requires
        forall|i: int|
            0 <= i < found.len() ==> (considered(#[trigger] found[i]) is Some ==> settled(
                considered(found[i]).unwrap(),
            )),
    ensures
        gathered(found).plan.len() == 0,
        gathered(found).failure is None,
    decreases found.len(),
{
    if found.len() > 0 {
        let front = found.drop_last();
        assert forall|i: int|
            0 <= i < front.len() && considered(#[trigger] front[i]) is Some implies settled(
                considered(front[i]).unwrap(),
            ) by {
            assert(front[i] == found[i]);
        }
        lemma_settled_files_gather_nothing(front);
        assert(found.last() == found[found.len() - 1]);
    }
}

/// A run over files that all carry the names their titles give them plans
/// nothing and does not fail: renaming what was renamed changes nothing.
pub proof fn lemma_settled_files_plan_nothing(found: Seq<Located>)
    requires
        forall|i: int|
            0 <= i < found.len() ==> !(#[trigger] found[i] is Neither) && (considered(found[i])
                is Some ==> settled(considered(found[i]).unwrap())),
    ensures
        survey(found).plan.len() == 0,
        survey(found).failure is None,
{
    lemma_settled_files_gather_nothing(found);
    lemma_first_unusable_at(found, found.len() as int);
}

/// A file whose destination is taken on disk stops the run. Where every
/// argument is a file or a directory, and the run had not been given up
/// before, the error names the destination and the file.
pub proof fn lemma_occupied_destination_is_refused(found: Seq<Located>, k: int)
    requires
        0 <= k < found.len(),
        considered(found[k]) is Some,
        unsettled(considered(found[k]).unwrap()),
        considered(found[k]).unwrap().occupied,
    ensures
        survey(found).failure is Some,
        first_unusable(found) is None && survey(found.take(k)).failure is None ==> survey(
            found,
        ).failure == Some(
            RenameErrorView::WouldOverwrite {
                destination: bound_for(considered(found[k]).unwrap()).unwrap(),
                source: considered(found[k]).unwrap().path,
            },
        ),
{
    if first_unusable(found) is None {
        lemma_usable_prefix(found, k);
        lemma_gathered_step(found, k);
        if gathered(found.take(k)).failure is Some {
            lemma_failure_sticks(found, k, found.len() as int);
        } else {
            lemma_failure_sticks(found, k + 1, found.len() as int);
        }
        assert(found.take(found.len() as int) =~= found);
    }
}

/// Two files that would have to move to the same place stop the run. Where
/// every argument is a file or a directory, and the run had not been given
/// up before the second of the two, the error is their collision, and names
/// both and the place.
pub proof fn lemma_shared_destination_collides(found: Seq<Located>, i: int, j: int)
    requires
        0 <= i < j < found.len(),
        considered(found[i]) is Some,
        considered(found[j]) is Some,
        unsettled(considered(found[i]).unwrap()),
        unsettled(considered(found[j]).unwrap()),
        !considered(found[i]).unwrap().occupied,
        !considered(found[j]).unwrap().occupied,
        spec_same_path(
            bound_for(considered(found[i]).unwrap()).unwrap(),
            bound_for(considered(found[j]).unwrap()).unwrap(),
        ),
    ensures
        survey(found).failure is Some,
        first_unusable(found) is None && survey(found.take(j)).failure is None ==> survey(
            found,
        ).failure == Some(
            RenameErrorView::Collision {
                first: considered(found[i]).unwrap().path,
                second: considered(found[j]).unwrap().path,
                destination: bound_for(considered(found[j]).unwrap()).unwrap(),
            },
        ),
{
    let a = considered(found[i]).unwrap();
    let b = considered(found[j]).unwrap();
    let place = bound_for(b).unwrap();
    assert(found.take(found.len() as int) =~= found);
    if first_unusable(found) is None {
        lemma_usable_prefix(found, j);
        if gathered(found.take(j)).failure is Some {
            lemma_failure_sticks(found, j, found.len() as int);
        } else {
            lemma_plan_grows(found, i + 1, j);
            lemma_plan_grows(found, i, i + 1);
            lemma_gathered_step(found, i);
            lemma_gathered_step(found, j);
            lemma_gathered_is_plan(found.take(j));
            let early = gathered(found.take(i)).plan;
            let late = gathered(found.take(j)).plan;
            let at = early.len() as int;
            let first_place = bound_for(a).unwrap();
            assert(gathered(found.take(i + 1)).plan == early.push((first_place, a.path)));
            assert(gathered(found.take(i + 1)).plan[at] == (first_place, a.path));
            assert(late.take(at + 1)[at] == late[at]);
            assert(late[at] == (first_place, a.path));
            assert forall|m: int| 0 <= m < at implies destination_keys(late)[m] != spec_path_key(
                place,
            ) by {
                assert(!spec_same_path(late[m].0, late[at].0));
            }
            assert(destination_keys(late)[at] == spec_path_key(place));
            lemma_first_index_found(destination_keys(late), spec_path_key(place), at);
            assert(claimed_by(late, place) == Some(a.path));
            lemma_failure_sticks(found, j + 1, found.len() as int);
        }
    }
}

/// Showing a plan moves nothing: without the word to execute, every step
/// is a line to print.
pub proof fn lemma_dry_run_moves_nothing(plan: Seq<(Seq<char>, Seq<char>)>)
    ensures
        forall|i: int|
            0 <= i < actions_for(plan, false).len() ==> #[trigger] actions_for(
                plan,
                false,
            )[i] is Say,
{
}

} // verus!
