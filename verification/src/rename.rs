//! The rename command: from what was found on disk to a plan, and from a plan
//! to the steps that carry it out.

use vstd::prelude::*;
use vstd::string::*;
use crate::paths::{has_package_extension, spec_has_package_extension};
use crate::plan::{
    is_plan, Candidate, CandidateView, Notice, NoticeKind, RenameError, RenameErrorView,
    RenamePlan, Verdict, verdict,
};
use crate::report::{
    action_views, done_line, nothing_line, renaming_line, rerun_line, would_rename_line, Action,
    ActionView, Line,
};

verus! {

/// What the caller found for one argument of the command, or for one file
/// below an argument that is a directory.
#[derive(Debug, Clone)]
pub enum Located {
    /// An argument that is a file: a candidate whatever its name.
    File(Candidate),
    /// A file below an argument that is a directory: a candidate only under
    /// the package extension.
    Below(Candidate),
    /// An argument that is neither a file nor a directory. One of these
    /// fails the run before anything is planned.
    Neither(String),
}

/// How far planning has come.
pub struct Progress {
    /// The candidates passed over so far.
    pub notices: Seq<(NoticeKind, Seq<char>)>,
    /// The moves settled so far.
    pub plan: Seq<(Seq<char>, Seq<char>)>,
    /// Why planning was given up, if it was.
    pub failure: Option<RenameErrorView>,
}

/// Planning before anything was looked at.
pub open spec fn begin() -> Progress {
    Progress { notices: Seq::empty(), plan: Seq::empty(), failure: None }
}

/// Planning after `candidate` was looked at. Once given up, planning looks at
/// nothing more.
pub open spec fn advance(before: Progress, candidate: CandidateView) -> Progress {
    if before.failure is Some {
        before
    } else {
        match verdict(before.plan, candidate) {
            Verdict::Noted(kind) => Progress {
                notices: before.notices.push((kind, candidate.path)),
                plan: before.plan,
                failure: None,
            },
            Verdict::Refused(error) => Progress {
                notices: before.notices,
                plan: before.plan,
                failure: Some(error),
            },
            Verdict::Planned(destination) => Progress {
                notices: before.notices,
                plan: before.plan.push((destination, candidate.path)),
                failure: None,
            },
        }
    }
}

/// The candidate that planning looks at for `located`, if it looks at one.
pub open spec fn considered(located: Located) -> Option<CandidateView> {
    match located {
        Located::File(candidate) => Some(candidate@),
        Located::Below(candidate) => if spec_has_package_extension(candidate.path@) {
            Some(candidate@)
        } else {
            None
        },
        Located::Neither(_) => None,
    }
}

/// The path of `located`, where it is an argument that is neither a file nor
/// a directory.
pub open spec fn unusable_path(located: Located) -> Option<Seq<char>> {
    match located {
        Located::Neither(path) => Some(path@),
        _ => None,
    }
}

/// The path of the first argument in `found` that is neither a file nor a
/// directory, if there is one.
pub open spec fn first_unusable(found: Seq<Located>) -> Option<Seq<char>>
    decreases found.len(),
{
    if found.len() == 0 {
        None
    } else {
        match unusable_path(found.first()) {
            Some(path) => Some(path),
            None => first_unusable(found.drop_first()),
        }
    }
}

/// Planning after one more thing that the caller found.
pub open spec fn advance_located(before: Progress, located: Located) -> Progress {
    match considered(located) {
        Some(candidate) => advance(before, candidate),
        None => before,
    }
}

/// Planning after every candidate in `found` was looked at, in order.
pub open spec fn gathered(found: Seq<Located>) -> Progress
    decreases found.len(),
{
    if found.len() == 0 {
        begin()
    } else {
        advance_located(gathered(found.drop_last()), found.last())
    }
}

/// What planning comes to on `found`. Where an argument is neither a file
/// nor a directory, planning does not begin: it fails on the first such
/// argument, with no notice and no move. Else it looks at every candidate,
/// in order.
pub open spec fn survey(found: Seq<Located>) -> Progress {
    match first_unusable(found) {
        Some(path) => Progress {
            notices: Seq::empty(),
            plan: Seq::empty(),
            failure: Some(RenameErrorView::InvalidArgument { path }),
        },
        None => gathered(found),
    }
}

/// The notices of `items`, each as its kind and its path.
pub open spec fn notice_views(items: Seq<Notice>) -> Seq<(NoticeKind, Seq<char>)> {
    Seq::new(items.len(), |i: int| items[i]@)
}

/// What planning came to.
#[derive(Debug)]
pub struct Survey {
    /// The candidates that were passed over, in the order they were met.
    pub notices: Vec<Notice>,
    /// The plan, or why there is none.
    pub outcome: Result<RenamePlan, RenameError>,
}

impl Survey {
    /// Whether this is what `progress` came to.
    pub open spec fn reports(&self, progress: Progress) -> bool {
        &&& notice_views(self.notices@) == progress.notices
        &&& match self.outcome {
            Ok(plan) => progress.failure is None && plan@ == progress.plan,
            Err(error) => progress.failure == Some(error@),
        }
    }
}

/// The steps that carry a plan out: each move announced, then made.
pub open spec fn moves(plan: Seq<(Seq<char>, Seq<char>)>) -> Seq<ActionView>
    decreases plan.len(),
{
    if plan.len() == 0 {
        Seq::empty()
    } else {
        moves(plan.drop_last()) + seq![
            ActionView::Say(renaming_line(plan.last())),
            ActionView::Move { from: plan.last().1, to: plan.last().0 },
        ]
    }
}

/// The steps that show a plan: one line for each move.
pub open spec fn previews(plan: Seq<(Seq<char>, Seq<char>)>) -> Seq<ActionView> {
    Seq::new(plan.len(), |i: int| ActionView::Say(would_rename_line(plan[i])))
}

/// What is to be done with `plan`: nothing but a word where it is empty;
/// else its moves, where `execute` is set, and a view of them where it is
/// not.
pub open spec fn actions_for(plan: Seq<(Seq<char>, Seq<char>)>, execute: bool) -> Seq<ActionView> {
    if plan.len() == 0 {
        seq![ActionView::Say(nothing_line())]
    } else if execute {
        moves(plan) + seq![ActionView::Say(done_line())]
    } else {
        previews(plan) + seq![ActionView::Say(rerun_line())]
    }
}

/// What a rename run came to.
#[derive(Debug)]
pub struct Run {
    /// The candidates that were passed over, in the order they were met.
    pub notices: Vec<Notice>,
    /// What is left to do, or why the run was given up.
    pub outcome: Result<Vec<Action>, RenameError>,
}

impl Run {
    /// Whether this is what a run comes to when planning came to `progress`.
    pub open spec fn reports(&self, progress: Progress, execute: bool) -> bool {
        &&& notice_views(self.notices@) == progress.notices
        &&& match self.outcome {
            Ok(actions) => progress.failure is None && action_views(actions@) == actions_for(
                progress.plan,
                execute,
            ),
            Err(error) => progress.failure == Some(error@),
        }
    }
}

/// Renames packages after their titles.
#[derive(Debug, Clone)]
pub struct Rename {
    /// The files, and the directories of files, to rename.
    pub paths: Vec<String>,
    /// Whether to carry the plan out, or only to show it.
    pub execute: bool,
}

impl Rename {
    /// Decides what becomes of one candidate, and enters it into `files`
    /// where it is to be moved.
    pub fn process_file_path(&self, candidate: &Candidate, files: &mut RenamePlan) -> (r: Result<
        Option<Notice>,
        RenameError,
    >)
        ensures
            match verdict(old(files)@, candidate@) {
                Verdict::Noted(kind) => {
                    &&& r is Ok
                    &&& r.unwrap() is Some
                    &&& r.unwrap().unwrap()@ == (kind, candidate.path@)
                    &&& final(files)@ == old(files)@
                },
                Verdict::Refused(error) => {
                    &&& r is Err
                    &&& r.unwrap_err()@ == error
                    &&& final(files)@ == old(files)@
                },
                Verdict::Planned(destination) => {
                    &&& r is Ok
                    &&& r.unwrap() is None
                    &&& final(files)@ == old(files)@.push((destination, candidate.path@))
                },
            },
            is_plan(final(files)@),
    {
        let new_name = candidate.new_name();
        files.consider(&candidate.path, candidate.exists, new_name, candidate.occupied)
    }

    /// Plans the moves for `found`. Fails before it looks at any candidate
    /// where an argument is neither a file nor a directory; else looks at
    /// every candidate, in order, and stops at the first that makes the run
    /// unsafe.
    pub fn plan(&self, found: &Vec<Located>) -> (r: Survey)
        ensures
            r.reports(survey(found@)),
    {
        let mut notices: Vec<Notice> = Vec::new();
        let mut k: usize = 0;
        while k < found.len()
            invariant
                k <= found@.len(),
                notices@.len() == 0,
                forall|j: int| 0 <= j < k ==> unusable_path(found@[j]) is None,
            decreases found@.len() - k,
        {
            match &found[k] {
                Located::Neither(path) => {
                    proof {
                        lemma_first_unusable_at(found@, k as int);
                        assert(notice_views(notices@) =~= Seq::empty());
                    }
                    return Survey {
                        notices,
                        outcome: Err(RenameError::InvalidArgument { path: path.clone() }),
                    };
                },
                _ => {},
            }
            k += 1;
        }
        proof {
            lemma_first_unusable_at(found@, k as int);
            assert(notice_views(notices@) =~= Seq::empty());
        }
        let mut files = RenamePlan::new();
        let mut i: usize = 0;
        assert(found@.take(0) =~= Seq::empty());
        while i < found.len()
            invariant
                i <= found@.len(),
                first_unusable(found@) is None,
                gathered(found@.take(i as int)) == (Progress {
                    notices: notice_views(notices@),
                    plan: files@,
                    failure: None,
                }),
            decreases found@.len() - i,
        {
            proof {
                lemma_gathered_step(found@, i as int);
            }
            let ghost seen = notice_views(notices@);
            let step = match &found[i] {
                Located::File(candidate) => self.process_file_path(candidate, &mut files),
                Located::Below(candidate) => if has_package_extension(candidate.path.as_str()) {
                    self.process_file_path(candidate, &mut files)
                } else {
                    Ok(None)
                },
                Located::Neither(_) => Ok(None),
            };
            match step {
                Ok(Some(notice)) => {
                    notices.push(notice);
                    assert(notice_views(notices@) =~= seen.push(notice@));
                },
                Ok(None) => {},
                Err(error) => {
                    proof {
                        lemma_failure_sticks(found@, i + 1, found@.len() as int);
                        assert(found@.take(found@.len() as int) =~= found@);
                    }
                    return Survey { notices, outcome: Err(error) };
                },
            }
            i += 1;
        }
        assert(found@.take(i as int) =~= found@);
        Survey { notices, outcome: Ok(files) }
    }

    /// The steps for `files`: a word where there is nothing to rename; each
    /// move announced and made, where the command is to execute; else each
    /// move shown, and not one made.
    pub fn actions(&self, files: &RenamePlan) -> (r: Vec<Action>)
        ensures
            action_views(r@) == actions_for(files@, self.execute),
            !self.execute ==> forall|i: int| 0 <= i < r@.len() ==> r@[i] is Say,
    {
        let mut out: Vec<Action> = Vec::new();
        let n = files.len();
        if n == 0 {
            out.push(Action::Say(Line::nothing()));
            assert(action_views(out@) =~= actions_for(files@, self.execute));
            return out;
        }
        let mut i: usize = 0;
        if self.execute {
            assert(files@.take(0) =~= Seq::empty());
            assert(action_views(out@) =~= moves(files@.take(0)));
            while i < n
                invariant
                    i <= n == files@.len(),
                    action_views(out@) == moves(files@.take(i as int)),
                decreases n - i,
            {
                let ghost done = action_views(out@);
                match files.get(i) {
                    Some((destination, source)) => {
                        out.push(
                            Action::Say(Line::renaming(source.as_str(), destination.as_str())),
                        );
                        out.push(Action::Move { from: source, to: destination });
                    },
                    None => {},
                }
                proof {
                    let upto = files@.take(i + 1);
                    assert(upto.drop_last() =~= files@.take(i as int));
                    assert(upto.last() == files@[i as int]);
                    assert(action_views(out@) =~= done + seq![
                        ActionView::Say(renaming_line(upto.last())),
                        ActionView::Move { from: upto.last().1, to: upto.last().0 },
                    ]);
                }
                i += 1;
            }
            assert(files@.take(i as int) =~= files@);
            let ghost done = action_views(out@);
            out.push(Action::Say(Line::done()));
            assert(action_views(out@) =~= done + seq![ActionView::Say(done_line())]);
        } else {
            assert(action_views(out@) =~= previews(files@).take(0));
            while i < n
                invariant
                    i <= n == files@.len(),
                    out@.len() == i,
                    action_views(out@) == previews(files@).take(i as int),
                    forall|k: int| 0 <= k < out@.len() ==> out@[k] is Say,
                decreases n - i,
            {
                let ghost done = action_views(out@);
                match files.get(i) {
                    Some((destination, source)) => {
                        out.push(
                            Action::Say(Line::would_rename(source.as_str(), destination.as_str())),
                        );
                    },
                    None => {},
                }
                assert(action_views(out@) =~= previews(files@).take(i + 1));
                i += 1;
            }
            assert(previews(files@).take(i as int) =~= previews(files@));
            let ghost done = action_views(out@);
            out.push(Action::Say(Line::rerun()));
            assert(action_views(out@) =~= done + seq![ActionView::Say(rerun_line())]);
        }
        out
    }

    /// Runs the command on what the caller found: plans, and, where the plan
    /// holds, lays out the steps. Nothing is to be done where planning was
    /// given up.
    pub fn run(&self, found: &Vec<Located>) -> (r: Run)
        ensures
            r.reports(survey(found@), self.execute),
            !self.execute && r.outcome is Ok ==> forall|i: int|
                0 <= i < r.outcome.unwrap()@.len() ==> r.outcome.unwrap()@[i] is Say,
    {
        let Survey { notices, outcome } = self.plan(found);
        match outcome {
            Ok(files) => {
                let actions = self.actions(&files);
                Run { notices, outcome: Ok(actions) }
            },
            Err(error) => Run { notices, outcome: Err(error) },
        }
    }
}

/// A position that no unusable argument precedes, and that holds one unless
/// it is the end, is where the first unusable argument stands.
pub proof fn lemma_first_unusable_at(found: Seq<Located>, at: int)
    requires
        0 <= at <= found.len(),
        forall|j: int| 0 <= j < at ==> unusable_path(found[j]) is None,
        at < found.len() ==> unusable_path(found[at]) is Some,
    ensures
        first_unusable(found) == if at < found.len() {
            unusable_path(found[at])
        } else {
            None
        },
    decreases at,
{
    if at > 0 {
        let rest = found.drop_first();
        assert(unusable_path(found[0]) is None);
        assert forall|j: int| 0 <= j < at - 1 implies unusable_path(rest[j]) is None by {
            assert(rest[j] == found[j + 1]);
        }
        assert(at < found.len() ==> rest[at - 1] == found[at]);
        lemma_first_unusable_at(rest, at - 1);
    }
}

/// Looking at one more thing advances planning by that thing.
pub proof fn lemma_gathered_step(found: Seq<Located>, k: int)
    requires
        0 <= k < found.len(),
    ensures
        gathered(found.take(k + 1)) == advance_located(gathered(found.take(k)), found[k]),
{
    assert(found.take(k + 1).drop_last() =~= found.take(k));
}

/// Once planning is given up, whatever is found later changes nothing.
pub proof fn lemma_failure_sticks(found: Seq<Located>, k: int, m: int)
    requires
        0 <= k <= m <= found.len(),
        gathered(found.take(k)).failure is Some,
    ensures
        gathered(found.take(m)) == gathered(found.take(k)),
    decreases m - k,
{
    if m > k {
        lemma_failure_sticks(found, k, m - 1);
        lemma_gathered_step(found, m - 1);
    }
}

} // verus!
