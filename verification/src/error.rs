//! Errors that record where they arose and through which callers they
//! passed.

use vstd::prelude::*;
use vstd::string::*;
use crate::decimal::{decimal_text, render_u32};

verus! {

/// A place in a source file.
#[derive(Clone, Copy, Debug, PartialEq, Eq, Structural)]
pub struct Position {
    pub line: u32,
    pub column: u32,
}

impl Position {
    /// The text of a position: line and column, with a colon between.
    pub open spec fn text_spec(self) -> Seq<char> {
        decimal_text(self.line as nat) + ":"@ + decimal_text(self.column as nat)
    }

    /// Writes the position out as text.
    pub fn to_text(&self) -> (text: String)
        ensures
            text@ == self.text_spec(),
    {
        render_u32(self.line).concat(":").concat(render_u32(self.column).as_str())
    }
}

impl Default for Position {
    /// The start of a file, line and column zero.
    fn default() -> (position: Position)
        ensures
            position == (Position { line: 0, column: 0 }),
    {
        Position { line: 0, column: 0 }
    }
}

/// An error: what went wrong, and the functions it passed through, the
/// one it arose in first.
#[derive(Clone, Debug, PartialEq, Eq)]
pub struct Error {
    pub place: Vec<(&'static str, Position)>,
    pub name: String,
    pub message: String,
}

/// The model of an [`Error`].
pub struct ErrorModel {
    pub place: Seq<(Seq<char>, Position)>,
    pub name: Seq<char>,
    pub message: Seq<char>,
}

/// The model of the places of an error.
pub open spec fn place_view(place: Seq<(&'static str, Position)>) -> Seq<(Seq<char>, Position)> {
    Seq::new(place.len(), |i: int| (place[i].0@, place[i].1))
}

impl DeepView for Error {
    type V = ErrorModel;

    open spec fn deep_view(&self) -> ErrorModel {
        ErrorModel { place: place_view(self.place@), name: self.name@, message: self.message@ }
    }
}

/// The line that reports one caller.
pub open spec fn caller_line(function: Seq<char>, position: Position) -> Seq<char> {
    "Called by `"@ + function + "` at "@ + position.text_spec() + "\n"@
}

/// The lines that report the callers `place[from..]`, one line each.
pub open spec fn caller_lines(place: Seq<(Seq<char>, Position)>, from: int) -> Seq<char>
    decreases place.len() - from,
{
    if from < 0 || from >= place.len() {
        Seq::empty()
    } else {
        caller_line(place[from].0, place[from].1) + caller_lines(place, from + 1)
    }
}

/// The line that reports where the error arose; an error without a place
/// arose in `unknown` at the start of a file.
pub open spec fn origin_line(place: Seq<(Seq<char>, Position)>) -> Seq<char> {
    if place.len() == 0 {
        "From `unknown` at "@ + (Position { line: 0, column: 0 }).text_spec() + "\n"@
    } else {
        "From `"@ + place[0].0 + "` at "@ + place[0].1.text_spec() + "\n"@
    }
}

impl ErrorModel {
    /// The report of an error: where it arose, each caller it passed
    /// through, its name with an exclamation mark, its message with a full
    /// stop, each on a line of its own.
    pub open spec fn report(self) -> Seq<char> {
        origin_line(self.place) + caller_lines(self.place, 1) + self.name + "!\n"@ + self.message
            + ".\n"@
    }
}

/// The lines of the callers up to `upto`, followed by those from `upto`
/// on, are the lines of them all.
proof fn lemma_caller_lines_split(place: Seq<(Seq<char>, Position)>, from: int, upto: int)
    requires
        0 <= from <= upto < place.len(),
    ensures
        caller_lines(place.take(upto), from) + caller_line(place[upto].0, place[upto].1)
            == caller_lines(place.take(upto + 1), from),
    decreases upto - from,
{
    if from < upto {
        lemma_caller_lines_split(place, from + 1, upto);
    } else {
        assert(caller_lines(place.take(upto + 1), from + 1) =~= Seq::<char>::empty());
    }
}

impl Error {
    /// Records that the error passed through `func` at `position`.
    pub fn push(self, func: &'static str, position: Position) -> (error: Error)
        ensures
            error.deep_view() == (ErrorModel {
                place: self.deep_view().place.push((func@, position)),
                ..self.deep_view()
            }),
    {
        let ghost before = self.deep_view().place;
        let mut error = self;
        error.place.push((func, position));
        assert(place_view(error.place@) =~= before.push((func@, position)));
        error
    }

    /// Writes the report of the error.
    pub fn render(&self) -> (text: String)
        ensures
            text@ == self.deep_view().report(),
    {
        let ghost place = self.deep_view().place;
        let mut text = if self.place.len() == 0 {
            String::from_str("From `unknown` at ").concat(Position::default().to_text().as_str())
        } else {
            String::from_str("From `").concat(self.place[0].0).concat("` at ").concat(
                self.place[0].1.to_text().as_str(),
            )
        };
        text = text.concat("\n");
        if self.place.len() > 1 {
            let mut i: usize = 1;
            while i < self.place.len()
                invariant
                    1 <= i <= self.place.len(),
                    place == self.deep_view().place,
                    place.len() == self.place.len(),
                    text@ == origin_line(place) + caller_lines(place.take(i as int), 1),
                decreases self.place.len() - i,
            {
                let line = String::from_str("Called by `").concat(self.place[i].0).concat(
                    "` at ",
                ).concat(self.place[i].1.to_text().as_str()).concat("\n");
                proof {
                    lemma_caller_lines_split(place, 1, i as int);
                }
                text = text.concat(line.as_str());
                i += 1;
            }
            assert(place.take(self.place.len() as int) =~= place);
        }
        text.concat(self.name.as_str()).concat("!\n").concat(self.message.as_str()).concat(".\n")
    }
}

} // verus!
