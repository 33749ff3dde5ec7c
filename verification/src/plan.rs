//! The rename plan and the rule that decides what becomes of one candidate.

use vstd::prelude::*;
use vstd::string::*;
use crate::metadata::{first_value, MetadataRecord};
use crate::paths::{destination, same_path, spec_destination, spec_path_key, spec_same_path};
use crate::text::{first_index, lemma_first_index, lemma_first_index_found, opt_text};

verus! {

/// The metadata key that holds a package's title.
pub open spec fn title_key() -> Seq<char> {
    seq!['t', 'i', 't', 'l', 'e']
}

/// What the caller found out about one file that may be renamed.
#[derive(Debug, Clone)]
pub struct Candidate {
    /// The file's path.
    pub path: String,
    /// Whether anything exists at the path.
    pub exists: bool,
    /// The file's metadata, if it could be opened as a package.
    pub package: Option<MetadataRecord>,
    /// Whether a file already stands where this one would be moved to.
    /// Read only where the file has a title.
    pub occupied: bool,
}

/// A candidate as the planning rule sees it.
pub struct CandidateView {
    pub path: Seq<char>,
    pub exists: bool,
    pub title: Option<Seq<char>>,
    pub occupied: bool,
}

impl View for Candidate {
    type V = CandidateView;

    open spec fn view(&self) -> CandidateView {
        CandidateView {
            path: self.path@,
            exists: self.exists,
            title: match self.package {
                Some(record) => first_value(record@, title_key()),
                None => None,
            },
            occupied: self.occupied,
        }
    }
}

/// Why a candidate was passed over without stopping the run.
#[derive(Clone, Copy, Debug, PartialEq, Eq, Structural)]
pub enum NoticeKind {
    /// Nothing exists at the path.
    InvalidPath,
    /// The file is no package, or has no title.
    CannotRename,
    /// The file is already named after its title.
    AlreadyNamed,
}

/// A candidate that was passed over, and why.
#[derive(Debug, Clone, PartialEq, Eq)]
pub struct Notice {
    pub kind: NoticeKind,
    pub path: String,
}

impl View for Notice {
    type V = (NoticeKind, Seq<char>);

    open spec fn view(&self) -> (NoticeKind, Seq<char>) {
        (self.kind, self.path@)
    }
}

/// Why a whole rename run was given up.
#[derive(Debug, Clone, PartialEq, Eq)]
pub enum RenameError {
    /// An argument is neither a file nor a directory.
    InvalidArgument { path: String },
    /// A file already stands at the destination of `source`.
    WouldOverwrite { destination: String, source: String },
    /// Two candidates are bound for the same destination.
    Collision { first: String, second: String, destination: String },
}

/// A rename error over plain text.
pub enum RenameErrorView {
    InvalidArgument { path: Seq<char> },
    WouldOverwrite { destination: Seq<char>, source: Seq<char> },
    Collision { first: Seq<char>, second: Seq<char>, destination: Seq<char> },
}

impl View for RenameError {
    type V = RenameErrorView;

    open spec fn view(&self) -> RenameErrorView {
        match self {
            RenameError::InvalidArgument { path } => RenameErrorView::InvalidArgument {
                path: path@,
            },
            RenameError::WouldOverwrite { destination, source } => RenameErrorView::WouldOverwrite {
                destination: destination@,
                source: source@,
            },
            RenameError::Collision { first, second, destination } => RenameErrorView::Collision {
                first: first@,
                second: second@,
                destination: destination@,
            },
        }
    }
}

/// The keys of the destinations of `plan`, in order.
pub open spec fn destination_keys(plan: Seq<(Seq<char>, Seq<char>)>) -> Seq<Seq<Seq<char>>> {
    Seq::new(plan.len(), |i: int| spec_path_key(plan[i].0))
}

/// A plan is a mapping from destination to source: no destination stands
/// twice, and no file is bound for the place where it already is. Paths
/// count as `std::path::Path` compares them.
pub open spec fn is_plan(plan: Seq<(Seq<char>, Seq<char>)>) -> bool {
    &&& forall|i: int, j: int|
        0 <= i < j < plan.len() ==> !spec_same_path(
            (#[trigger] plan[i]).0,
            (#[trigger] plan[j]).0,
        )
    &&& forall|i: int| 0 <= i < plan.len() ==> !spec_same_path((#[trigger] plan[i]).0, plan[i].1)
}

/// The source that `plan` moves to `destination`, if it moves one there.
pub open spec fn claimed_by(plan: Seq<(Seq<char>, Seq<char>)>, destination: Seq<char>) -> Option<
    Seq<char>,
> {
    let at = first_index(destination_keys(plan), spec_path_key(destination));
    if at < plan.len() {
        Some(plan[at].1)
    } else {
        None
    }
}

/// What becomes of one candidate.
pub enum Verdict {
    /// It is passed over, and the run goes on.
    Noted(NoticeKind),
    /// The run is given up.
    Refused(RenameErrorView),
    /// It enters the plan, bound for this destination.
    Planned(Seq<char>),
}

/// The planning rule, for a file at `path` that is bound for `destination`,
/// if its title gave it one, when `plan` holds what was planned before it.
pub open spec fn verdict_at(
    plan: Seq<(Seq<char>, Seq<char>)>,
    path: Seq<char>,
    exists: bool,
    destination: Option<Seq<char>>,
    occupied: bool,
) -> Verdict {
    if !exists {
        Verdict::Noted(NoticeKind::InvalidPath)
    } else {
        match destination {
            None => Verdict::Noted(NoticeKind::CannotRename),
            Some(destination) => {
                if spec_same_path(destination, path) {
                    Verdict::Noted(NoticeKind::AlreadyNamed)
                } else if occupied {
                    Verdict::Refused(RenameErrorView::WouldOverwrite { destination, source: path })
                } else {
                    match claimed_by(plan, destination) {
                        Some(first) => Verdict::Refused(
                            RenameErrorView::Collision { first, second: path, destination },
                        ),
                        None => Verdict::Planned(destination),
                    }
                }
            },
        }
    }
}

/// Where `candidate` is bound for: the place that its title gives it, if it
/// has a title.
pub open spec fn bound_for(candidate: CandidateView) -> Option<Seq<char>> {
    match candidate.title {
        Some(title) => Some(spec_destination(candidate.path, title)),
        None => None,
    }
}

impl Candidate {
    /// Where the file is bound for: beside where it is, under the file name
    /// that the first title of its metadata gives it. `None` where it is no
    /// package or has no title.
    pub fn new_name(&self) -> (r: Option<String>)
        ensures
            opt_text(r) == bound_for(self@),
    {
        proof {
            reveal_strlit("title");
            assert("title"@ =~= title_key());
        }
        let title = match &self.package {
            Some(record) => record.first("title"),
            None => None,
        };
        match title {
            Some(title) => Some(destination(self.path.as_str(), title.as_str())),
            None => None,
        }
    }
}

/// The planning rule: what becomes of `candidate` when `plan` holds what was
/// planned before it.
pub open spec fn verdict(plan: Seq<(Seq<char>, Seq<char>)>, candidate: CandidateView) -> Verdict {
    verdict_at(plan, candidate.path, candidate.exists, bound_for(candidate), candidate.occupied)
}

/// One planned move.
#[derive(Debug, PartialEq, Eq)]
struct Entry {
    destination: String,
    source: String,
}

/// The moves that a run has settled on, in the order in which it did.
#[derive(Debug, PartialEq, Eq)]
pub struct RenamePlan {
    entries: Vec<Entry>,
}

/// Each of `entries` as its destination and its source.
spec fn pairs_of(entries: Seq<Entry>) -> Seq<(Seq<char>, Seq<char>)> {
    Seq::new(entries.len(), |i: int| (entries[i].destination@, entries[i].source@))
}

impl View for RenamePlan {
    type V = Seq<(Seq<char>, Seq<char>)>;

    /// Each move as its destination and its source.
    closed spec fn view(&self) -> Seq<(Seq<char>, Seq<char>)> {
        pairs_of(self.entries@)
    }
}

impl RenamePlan {
    /// Every plan is a mapping from destination to source.
    #[verifier::type_invariant]
    spec fn is_mapping(self) -> bool {
        is_plan(self@)
    }

    /// The plan without any move.
    pub fn new() -> (r: RenamePlan)
        ensures
            r@ == Seq::<(Seq<char>, Seq<char>)>::empty(),
    {
        let entries: Vec<Entry> = Vec::new();
        assert(pairs_of(entries@) =~= Seq::<(Seq<char>, Seq<char>)>::empty());
        RenamePlan { entries }
    }

    /// The number of moves. As the plan is a mapping, no destination is
    /// counted twice.
    pub fn len(&self) -> (n: usize)
        ensures
            n == self@.len(),
            is_plan(self@),
    {
        proof {
            use_type_invariant(self);
        }
        self.entries.len()
    }

    /// Whether there is no move.
    pub fn is_empty(&self) -> (r: bool)
        ensures
            r == (self@.len() == 0),
    {
        self.entries.len() == 0
    }

    /// The move at `index`, as its destination and its source.
    pub fn get(&self, index: usize) -> (r: Option<(String, String)>)
        ensures
            r is Some == (index < self@.len()),
            r is Some ==> (r.unwrap().0@, r.unwrap().1@) == self@[index as int],
    {
        if index < self.entries.len() {
            Some((self.entries[index].destination.clone(), self.entries[index].source.clone()))
        } else {
            None
        }
    }

    /// The source that the plan moves to `destination`, if it moves one there.
    pub fn source_of(&self, destination: &String) -> (r: Option<String>)
        ensures
            opt_text(r) == claimed_by(self@, destination@),
    {
        let ghost keys = destination_keys(self@);
        let ghost wanted = spec_path_key(destination@);
        let mut i: usize = 0;
        while i < self.entries.len()
            invariant
                i <= self.entries@.len(),
                keys == destination_keys(self@),
                wanted == spec_path_key(destination@),
                forall|j: int| 0 <= j < i ==> keys[j] != wanted,
            decreases self.entries@.len() - i,
        {
            if same_path(self.entries[i].destination.as_str(), destination.as_str()) {
                proof {
                    lemma_first_index_found(keys, wanted, i as int);
                }
                return Some(self.entries[i].source.clone());
            }
            i += 1;
        }
        proof {
            lemma_first_index_found(keys, wanted, i as int);
        }
        None
    }

    /// Applies the planning rule to the file at `path`, bound for
    /// `destination` if its title gave it one: passes it over with a notice,
    /// gives the run up with an error, or enters its move into the plan.
    pub fn consider(
        &mut self,
        path: &String,
        exists: bool,
        destination: Option<String>,
        occupied: bool,
    ) -> (r: Result<Option<Notice>, RenameError>)
        ensures
            match verdict_at(old(self)@, path@, exists, opt_text(destination), occupied) {
                Verdict::Noted(kind) => {
                    &&& r is Ok
                    &&& r.unwrap() is Some
                    &&& r.unwrap().unwrap()@ == (kind, path@)
                    &&& final(self)@ == old(self)@
                },
                Verdict::Refused(error) => {
                    &&& r is Err
                    &&& r.unwrap_err()@ == error
                    &&& final(self)@ == old(self)@
                },
                Verdict::Planned(place) => {
                    &&& r is Ok
                    &&& r.unwrap() is None
                    &&& final(self)@ == old(self)@.push((place, path@))
                },
            },
            is_plan(final(self)@),
    {
        proof {
            use_type_invariant(&*self);
        }
        if !exists {
            return Ok(Some(Notice { kind: NoticeKind::InvalidPath, path: path.clone() }));
        }
        match destination {
            None => Ok(Some(Notice { kind: NoticeKind::CannotRename, path: path.clone() })),
            Some(new_name) => {
                if same_path(new_name.as_str(), path.as_str()) {
                    Ok(Some(Notice { kind: NoticeKind::AlreadyNamed, path: path.clone() }))
                } else if occupied {
                    Err(RenameError::WouldOverwrite { destination: new_name, source: path.clone() })
                } else {
                    match self.source_of(&new_name) {
                        Some(first) => Err(
                            RenameError::Collision {
                                first,
                                second: path.clone(),
                                destination: new_name,
                            },
                        ),
                        None => {
                            self.insert(new_name, path.clone());
                            proof {
                                use_type_invariant(&*self);
                            }
                            Ok(None)
                        },
                    }
                }
            },
        }
    }

    /// Adds the move of `source` to `destination` at the end.
    fn insert(&mut self, destination: String, source: String)
        requires
            claimed_by(old(self)@, destination@) is None,
            !spec_same_path(destination@, source@),
        ensures
            final(self)@ == old(self)@.push((destination@, source@)),
    {
        proof {
            use_type_invariant(&*self);
            lemma_planned_keeps_plan(old(self)@, destination@, source@);
        }
        let mut entries: Vec<Entry> = Vec::new();
        std::mem::swap(&mut entries, &mut self.entries);
        entries.push(Entry { destination, source });
        assert(pairs_of(entries@) =~= old(self)@.push((destination@, source@)));
        self.entries = entries;
    }
}

/// A plan stays a mapping when a move is added whose destination is new to
/// it and differs from its source.
pub proof fn lemma_planned_keeps_plan(
    plan: Seq<(Seq<char>, Seq<char>)>,
    destination: Seq<char>,
    source: Seq<char>,
)
    requires
        is_plan(plan),
        claimed_by(plan, destination) is None,
        !spec_same_path(destination, source),
    ensures
        is_plan(plan.push((destination, source))),
{
    lemma_first_index(destination_keys(plan), spec_path_key(destination));
    let after = plan.push((destination, source));
    assert forall|i: int, j: int| 0 <= i < j < after.len() implies !spec_same_path(
        (#[trigger] after[i]).0,
        (#[trigger] after[j]).0,
    ) by {
        if j == plan.len() {
            assert(destination_keys(plan)[i] == spec_path_key(plan[i].0));
        } else {
            assert(after[i] == plan[i] && after[j] == plan[j]);
        }
    }
    assert forall|i: int| 0 <= i < after.len() implies !spec_same_path(
        (#[trigger] after[i]).0,
        after[i].1,
    ) by {
        if i < plan.len() {
            assert(after[i] == plan[i]);
        }
    }
}

} // verus!
