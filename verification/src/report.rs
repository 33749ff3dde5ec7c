//! What a command has to tell, as lines of toned text, and what it asks the
//! caller to do.

use vstd::prelude::*;
use vstd::string::*;
use crate::plan::{Notice, NoticeKind, RenameError, RenameErrorView};
use crate::style::{paint, shows, Tone};

verus! {

/// A piece of text in one tone.
#[derive(Debug, Clone, PartialEq, Eq)]
pub struct Span {
    pub tone: Tone,
    pub text: String,
}

impl View for Span {
    type V = (Tone, Seq<char>);

    open spec fn view(&self) -> (Tone, Seq<char>) {
        (self.tone, self.text@)
    }
}

/// A line of console output: its spans, in order. The line's end is not
/// part of it.
#[derive(Debug, Clone, PartialEq, Eq)]
pub struct Line {
    pub spans: Vec<Span>,
}

impl View for Line {
    type V = Seq<(Tone, Seq<char>)>;

    open spec fn view(&self) -> Seq<(Tone, Seq<char>)> {
        Seq::new(self.spans@.len(), |i: int| self.spans@[i]@)
    }
}

/// The text of `spans` without any tone.
pub open spec fn plain_text(spans: Seq<(Tone, Seq<char>)>) -> Seq<char>
    decreases spans.len(),
{
    if spans.len() == 0 {
        Seq::empty()
    } else {
        plain_text(spans.drop_last()) + spans.last().1
    }
}

/// The texts of `pieces`, one behind the other.
pub open spec fn joined(pieces: Seq<Seq<char>>) -> Seq<char>
    decreases pieces.len(),
{
    if pieces.len() == 0 {
        Seq::empty()
    } else {
        joined(pieces.drop_last()) + pieces.last()
    }
}

/// Whether `pieces` are a way to put `spans` on the console: one piece for
/// each span, which is the span's text or that text in its tone's colour.
pub open spec fn paints(spans: Seq<(Tone, Seq<char>)>, pieces: Seq<Seq<char>>) -> bool {
    &&& pieces.len() == spans.len()
    &&& forall|i: int| 0 <= i < spans.len() ==> shows(spans[i].0, spans[i].1, #[trigger] pieces[i])
}

/// Whether `shown` is a way to put `spans` on the console: each span in
/// turn, as its text or in its tone's colour.
pub open spec fn renders(spans: Seq<(Tone, Seq<char>)>, shown: Seq<char>) -> bool {
    exists|pieces: Seq<Seq<char>>| #[trigger] paints(spans, pieces) && shown == joined(pieces)
}

/// One span of `text` in `tone`.
fn span(tone: Tone, text: String) -> (r: Span)
    ensures
        r@ == (tone, text@),
{
    Span { tone, text }
}

/// `a`, `b` and `c` in a row.
fn join(a: &str, b: &str, c: &str) -> (r: String)
    ensures
        r@ == a@ + b@ + c@,
{
    String::from_str(a).concat(b).concat(c)
}

/// The line that `spans` make up.
fn line_of(spans: Vec<Span>) -> (r: Line)
    ensures
        r@ == Seq::new(spans@.len(), |i: int| spans@[i]@),
{
    Line { spans }
}

/// The line made of `text` in `tone`, behind `lead` in the plain tone.
fn led_line(lead: &str, tone: Tone, text: &str) -> (r: Line)
    ensures
        r@ == seq![(Tone::Plain, lead@), (tone, text@)],
{
    let mut spans: Vec<Span> = Vec::new();
    spans.push(span(Tone::Plain, String::from_str(lead)));
    spans.push(span(tone, String::from_str(text)));
    let r = line_of(spans);
    assert(r@ =~= seq![(Tone::Plain, lead@), (tone, text@)]);
    r
}

/// The line that tells of a move of `source` to `destination`, behind `lead`.
fn move_line(lead: &str, source: &str, destination: &str) -> (r: Line)
    ensures
        r@ == spec_move_line(lead@, source@, destination@),
{
    let mut spans: Vec<Span> = Vec::new();
    spans.push(span(Tone::Plain, String::from_str(lead)));
    spans.push(span(Tone::Highlight, String::from_str(source)));
    spans.push(span(Tone::Plain, String::from_str(" to ")));
    spans.push(span(Tone::Highlight, String::from_str(destination)));
    let r = line_of(spans);
    assert(r@ =~= spec_move_line(lead@, source@, destination@));
    r
}

/// A line about a move: the lead, the source picked out, " to ", the
/// destination picked out.
pub open spec fn spec_move_line(lead: Seq<char>, source: Seq<char>, destination: Seq<char>) -> Seq<
    (Tone, Seq<char>),
> {
    seq![
        (Tone::Plain, lead),
        (Tone::Highlight, source),
        (Tone::Plain, " to "@),
        (Tone::Highlight, destination),
    ]
}

/// The line that tells of a candidate that was passed over.
pub open spec fn notice_line(notice: (NoticeKind, Seq<char>)) -> Seq<(Tone, Seq<char>)> {
    match notice.0 {
        NoticeKind::InvalidPath => seq![
            (Tone::Plain, "  "@),
            (Tone::Failure, "INVALID PATH"@),
            (Tone::Plain, ": "@ + notice.1),
        ],
        NoticeKind::CannotRename => seq![
            (
                Tone::Highlight,
                "  Cannot rename: "@ + notice.1
                    + ". The file is invalid or does not have title metadata"@,
            ),
        ],
        NoticeKind::AlreadyNamed => seq![
            (Tone::Plain, "  Skipping "@),
            (Tone::Highlight, notice.1),
            (Tone::Plain, " as its name already matches the title"@),
        ],
    }
}

/// The message of a rename error.
pub open spec fn rename_error_message(error: RenameErrorView) -> Seq<char> {
    match error {
        RenameErrorView::InvalidArgument { path } => path + " is neither a file nor a directory"@,
        RenameErrorView::WouldOverwrite { destination, source } => destination
            + " would be overwritten by "@ + source,
        RenameErrorView::Collision { first, second, destination } => "Collision detected: "@ + first
            + " and "@ + second + " resolve to "@ + destination,
    }
}

/// The line that says that a run found nothing to rename.
pub open spec fn nothing_line() -> Seq<(Tone, Seq<char>)> {
    seq![(Tone::Plain, "\n  "@), (Tone::Highlight, "No eligible files found to rename."@)]
}

/// The line that closes a run that moved files.
pub open spec fn done_line() -> Seq<(Tone, Seq<char>)> {
    seq![(Tone::Plain, "\n  "@), (Tone::Success, "Done"@)]
}

/// The line that closes a run that only showed its plan.
pub open spec fn rerun_line() -> Seq<(Tone, Seq<char>)> {
    seq![
        (Tone::Plain, "\n  "@),
        (Tone::Attention, "Rerun with --execute to actually make changes."@),
    ]
}

/// The line that announces the move of `entry`, a destination and a source.
pub open spec fn renaming_line(entry: (Seq<char>, Seq<char>)) -> Seq<(Tone, Seq<char>)> {
    spec_move_line("  Renaming "@, entry.1, entry.0)
}

/// The line that shows the move of `entry`, a destination and a source,
/// without making it.
pub open spec fn would_rename_line(entry: (Seq<char>, Seq<char>)) -> Seq<(Tone, Seq<char>)> {
    spec_move_line("  Would rename "@, entry.1, entry.0)
}

/// Something that a command asks its caller to do.
#[derive(Debug, Clone, PartialEq, Eq)]
pub enum Action {
    /// Write the line to standard output.
    Say(Line),
    /// Move the file at `from` to `to`.
    Move { from: String, to: String },
}

/// An action over plain text.
pub enum ActionView {
    Say(Seq<(Tone, Seq<char>)>),
    Move { from: Seq<char>, to: Seq<char> },
}

impl View for Action {
    type V = ActionView;

    open spec fn view(&self) -> ActionView {
        match self {
            Action::Say(line) => ActionView::Say(line@),
            Action::Move { from, to } => ActionView::Move { from: from@, to: to@ },
        }
    }
}

/// The actions of `items`, each over plain text.
pub open spec fn action_views(items: Seq<Action>) -> Seq<ActionView> {
    Seq::new(items.len(), |i: int| items[i]@)
}

impl Line {
    /// A line of one plain span.
    pub fn plain(text: &str) -> (r: Line)
        ensures
            r@ == seq![(Tone::Plain, text@)],
    {
        let mut spans: Vec<Span> = Vec::new();
        spans.push(span(Tone::Plain, String::from_str(text)));
        let r = line_of(spans);
        assert(r@ =~= seq![(Tone::Plain, text@)]);
        r
    }

    /// The line that says that a run found nothing to rename.
    pub fn nothing() -> (r: Line)
        ensures
            r@ == nothing_line(),
    {
        led_line("\n  ", Tone::Highlight, "No eligible files found to rename.")
    }

    /// The line that closes a run that moved files.
    pub fn done() -> (r: Line)
        ensures
            r@ == done_line(),
    {
        led_line("\n  ", Tone::Success, "Done")
    }

    /// The line that closes a run that only showed its plan.
    pub fn rerun() -> (r: Line)
        ensures
            r@ == rerun_line(),
    {
        led_line("\n  ", Tone::Attention, "Rerun with --execute to actually make changes.")
    }

    /// The line that announces the move of `source` to `destination`.
    pub fn renaming(source: &str, destination: &str) -> (r: Line)
        ensures
            r@ == renaming_line((destination@, source@)),
    {
        move_line("  Renaming ", source, destination)
    }

    /// The line that shows the move of `source` to `destination` without
    /// making it.
    pub fn would_rename(source: &str, destination: &str) -> (r: Line)
        ensures
            r@ == would_rename_line((destination@, source@)),
    {
        move_line("  Would rename ", source, destination)
    }

    /// The line's text without any tone.
    pub fn text(&self) -> (r: String)
        ensures
            r@ == plain_text(self@),
    {
        let mut out = String::new();
        let mut i: usize = 0;
        assert(self@.take(0) =~= Seq::empty());
        while i < self.spans.len()
            invariant
                i <= self.spans@.len(),
                out@ == plain_text(self@.take(i as int)),
            decreases self.spans@.len() - i,
        {
            assert(self@.take(i + 1).drop_last() =~= self@.take(i as int));
            out.append(self.spans[i].text.as_str());
            i += 1;
        }
        assert(self@.take(i as int) =~= self@);
        out
    }

    /// The line as the console should show it: every span painted in its
    /// tone.
    pub fn render(&self) -> (r: String)
        ensures
            renders(self@, r@),
    {
        let mut out = String::new();
        let mut i: usize = 0;
        let ghost mut pieces: Seq<Seq<char>> = Seq::empty();
        while i < self.spans.len()
            invariant
                i <= self.spans@.len(),
                paints(self@.take(i as int), pieces),
                out@ == joined(pieces),
            decreases self.spans@.len() - i,
        {
            let painted = paint(self.spans[i].tone, self.spans[i].text.as_str());
            out.append(painted.as_str());
            proof {
                let before = pieces;
                pieces = pieces.push(painted@);
                assert(pieces.drop_last() =~= before);
                let upto = self@.take(i + 1);
                assert forall|k: int| 0 <= k < upto.len() implies shows(
                    upto[k].0,
                    upto[k].1,
                    #[trigger] pieces[k],
                ) by {
                    if k < i {
                        assert(upto[k] == self@.take(i as int)[k]);
                        assert(pieces[k] == before[k]);
                    }
                }
            }
            i += 1;
        }
        assert(self@.take(i as int) =~= self@);
        out
    }
}

impl Notice {
    /// The line that tells the user of this notice.
    pub fn line(&self) -> (r: Line)
        ensures
            r@ == notice_line(self@),
    {
        let mut spans: Vec<Span> = Vec::new();
        match self.kind {
            NoticeKind::InvalidPath => {
                spans.push(span(Tone::Plain, String::from_str("  ")));
                spans.push(span(Tone::Failure, String::from_str("INVALID PATH")));
                spans.push(span(Tone::Plain, String::from_str(": ").concat(self.path.as_str())));
            },
            NoticeKind::CannotRename => {
                spans.push(
                    span(
                        Tone::Highlight,
                        join(
                            "  Cannot rename: ",
                            self.path.as_str(),
                            ". The file is invalid or does not have title metadata",
                        ),
                    ),
                );
            },
            NoticeKind::AlreadyNamed => {
                spans.push(span(Tone::Plain, String::from_str("  Skipping ")));
                spans.push(span(Tone::Highlight, self.path.clone()));
                spans.push(
                    span(Tone::Plain, String::from_str(" as its name already matches the title")),
                );
            },
        }
        let r = line_of(spans);
        assert(r@ =~= notice_line(self@));
        r
    }
}

impl RenameError {
    /// The message that tells the user of this error.
    pub fn message(&self) -> (r: String)
        ensures
            r@ == rename_error_message(self@),
    {
        match self {
            RenameError::InvalidArgument { path } => String::from_str(path.as_str()).concat(
                " is neither a file nor a directory",
            ),
            RenameError::WouldOverwrite { destination, source } => join(
                destination.as_str(),
                " would be overwritten by ",
                source.as_str(),
            ),
            RenameError::Collision { first, second, destination } => {
                let r = join("Collision detected: ", first.as_str(), " and ").concat(
                    second.as_str(),
                ).concat(" resolve to ").concat(destination.as_str());
                r
            },
        }
    }
}

} // verus!
