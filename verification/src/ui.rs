use crate::app::InputMode;
use crate::command::date_text;
use crate::task::{Priority, Task};
use vstd::prelude::*;
use vstd::string::{StrSliceExecFns, StringExecFns};

verus! {

/// The colors in which priorities are shown.
#[derive(Debug, Clone, Copy, PartialEq, Eq, Structural)]
pub enum Color {
    Green,
    Yellow,
    Red,
}

/// The color of a priority: green for low, yellow for medium, red for high.
pub fn priority_to_color(priority: &Priority) -> (r: Color)
    ensures
        r == (match *priority {
            Priority::Low => Color::Green,
            Priority::Medium => Color::Yellow,
            Priority::High => Color::Red,
        }),
{
    match priority {
        Priority::Low => Color::Green,
        Priority::Medium => Color::Yellow,
        Priority::High => Color::Red,
    }
}

/// The column of the cursor in an input field that begins at column
/// `field_x` and holds a text of `typed` bytes: one column for the border,
/// then one for every byte, counted as the screen counts, in sixteen bits.
pub fn cursor_column(field_x: u16, typed: usize) -> (x: u16)
    requires
        field_x + typed % 0x1_0000 + 1 <= u16::MAX,
    ensures
        x == field_x + typed % 0x1_0000 + 1,
{
    let width: u16 = (typed % 0x1_0000) as u16;
    field_x + width + 1
}

/// A run of `count` blanks.
pub open spec fn blanks(count: int) -> Seq<char> {
    Seq::new(
        if count < 0 {
            0
        } else {
            count as nat
        },
        |i: int| ' ',
    )
}

/// A text set flush right in a column of `width` characters: blanks come
/// before it as far as it is shorter; a longer text stays as it is.
pub open spec fn flush_right(text: Seq<char>, width: int) -> Seq<char> {
    blanks(width - text.len()) + text
}

/// Sets a text flush right in a column of `width` characters.
pub fn pad_left(text: &str, width: usize) -> (r: String)
    ensures
        r@ == flush_right(text@, width as int),
{
    let len: usize = text.unicode_len();
    let mut padded = String::new();
    let mut i: usize = len;
    assert(padded@ =~= blanks(0));
    while i < width
        invariant
            i >= len,
            i <= width || i == len,
            padded@ == blanks(i - len),
        decreases width - i,
    {
        padded.push(' ');
        i += 1;
        assert(padded@ =~= blanks(i - len));
    }
    padded.append(text);
    assert(padded@ =~= flush_right(text@, width as int));
    padded
}

/// The width of the column in which due dates are shown.
pub const DATE_COLUMN: usize = 14;

/// What one line of the task list shows, piece by piece.
#[derive(Debug, Clone, PartialEq, Eq)]
pub struct TaskRow {
    /// A box, ticked or empty.
    pub mark: String,
    /// The sign of the priority in brackets.
    pub priority: String,
    /// The color of that sign.
    pub priority_color: Color,
    /// The due date, flush right in its column.
    pub date: String,
    /// Title and description.
    pub text: String,
    /// Whether the line is shown as done.
    pub completed: bool,
}

/// The sign that stands for a priority.
pub open spec fn sign(priority: Priority) -> Seq<char> {
    match priority {
        Priority::Low => "\u{2193}"@,
        Priority::Medium => "="@,
        Priority::High => "\u{2191}"@,
    }
}

/// The due date as a line of the list shows it: the date, or ten blanks
/// where there is none.
pub open spec fn shown_date(task: Task) -> Seq<char> {
    if task.date.0 is Some && date_text(task.date).len() > 0 {
        date_text(task.date)
    } else {
        blanks(10)
    }
}

/// The line of the list for a task.
pub fn task_row(task: &Task) -> (row: TaskRow)
    ensures
        row.completed == task.completed,
        row.mark@ == if task.completed {
            " \u{2713}"@
        } else {
            " \u{2610}"@
        },
        row.priority@ == " ("@ + sign(task.priority) + ")"@,
        row.priority_color == (match task.priority {
            Priority::Low => Color::Green,
            Priority::Medium => Color::Yellow,
            Priority::High => Color::Red,
        }),
        row.date@ == flush_right(shown_date(*task), DATE_COLUMN as int),
        row.text@ == "    "@ + task.title@ + " - "@ + task.description@,
{
    let mark = if task.completed {
        " \u{2713}".to_owned()
    } else {
        " \u{2610}".to_owned()
    };
    let sign = task.priority.to_string();
    let priority = String::from_str(" (").concat(sign.as_str()).concat(")");
    let shown = match task.date.0 {
        Some(day) => match day.format() {
            Some(text) => if text.as_str().is_empty() {
                pad_left("", 10)
            } else {
                text
            },
            None => pad_left("", 10),
        },
        None => pad_left("", 10),
    };
    proof {
        reveal_strlit("");
        assert(flush_right(""@, 10) =~= blanks(10));
    }
    let date = pad_left(shown.as_str(), DATE_COLUMN);
    let text = String::from_str("    ").concat(task.title.as_str()).concat(" - ").concat(
        task.description.as_str(),
    );
    TaskRow {
        mark,
        priority,
        priority_color: priority_to_color(&task.priority),
        date,
        text,
        completed: task.completed,
    }
}

/// How a piece of the message line is set off.
#[derive(Debug, Clone, Copy, PartialEq, Eq, Structural)]
pub enum Emphasis {
    /// Black on white: the name of what the program is doing.
    Label,
    /// As the line is.
    Plain,
    /// Bold: the name of a key.
    Key,
    /// Red: the error.
    Alert,
}

/// A piece of the message line.
#[derive(Debug, Clone, PartialEq, Eq)]
pub struct Segment {
    pub text: String,
    pub emphasis: Emphasis,
}

/// The texts of the message line while no error is on show: what the
/// program is doing, and what the two keys do.
pub open spec fn hints(mode: InputMode) -> (Seq<char>, Seq<char>, Seq<char>) {
    match mode {
        InputMode::View => ("Tasks list"@, "h"@, " for help "@),
        InputMode::Adding => ("Add task"@, " to stop editing, "@, " to add new item"@),
        InputMode::EditingExisting => ("Edit task"@, " to cancel, "@, " to save changes"@),
        InputMode::Export => ("Export tasks list"@, " to cancel, "@, " to save file"@),
    }
}

/// The pieces of the message line, as texts and how they are set off.
pub open spec fn message_of(mode: InputMode, error: Option<String>) -> Seq<(Seq<char>, Emphasis)> {
    if mode == InputMode::View {
        seq![
            (hints(mode).0, Emphasis::Label),
            ("  Press "@, Emphasis::Plain),
            (hints(mode).1, Emphasis::Key),
            (hints(mode).2, Emphasis::Plain),
        ]
    } else {
        match error {
            Some(line) => seq![
                ("Error"@, Emphasis::Label),
                (" "@, Emphasis::Plain),
                (line@, Emphasis::Alert),
            ],
            None => seq![
                (hints(mode).0, Emphasis::Label),
                ("  Press "@, Emphasis::Plain),
                ("Esc"@, Emphasis::Key),
                (hints(mode).1, Emphasis::Plain),
                ("Enter"@, Emphasis::Key),
                (hints(mode).2, Emphasis::Plain),
            ],
        }
    }
}

/// Whether the pieces say what they are meant to say.
pub open spec fn says(pieces: Seq<Segment>, meant: Seq<(Seq<char>, Emphasis)>) -> bool {
    &&& pieces.len() == meant.len()
    &&& forall|i: int|
        0 <= i < pieces.len() ==> (#[trigger] pieces[i]).text@ == meant[i].0 && pieces[i].emphasis
            == meant[i].1
}

fn piece(text: &str, emphasis: Emphasis) -> (r: Segment)
    ensures
        r.text@ == text@,
        r.emphasis == emphasis,
{
    Segment { text: text.to_owned(), emphasis }
}

/// The message line: while the keys work on the list, a hint at the help;
/// in the other modes the error, if one is on show, and else what the
/// escape key and the enter key do.
pub fn message_area(mode: InputMode, error: &Option<String>) -> (pieces: Vec<Segment>)
    ensures
        says(pieces@, message_of(mode, *error)),
{
    let mut pieces: Vec<Segment> = Vec::new();
    match mode {
        InputMode::View => {
            pieces.push(piece("Tasks list", Emphasis::Label));
            pieces.push(piece("  Press ", Emphasis::Plain));
            pieces.push(piece("h", Emphasis::Key));
            pieces.push(piece(" for help ", Emphasis::Plain));
        },
        _ => match error {
            Some(line) => {
                pieces.push(piece("Error", Emphasis::Label));
                pieces.push(piece(" ", Emphasis::Plain));
                pieces.push(piece(line.as_str(), Emphasis::Alert));
            },
            None => {
                let (label, escape, enter) = match mode {
                    InputMode::Adding => ("Add task", " to stop editing, ", " to add new item"),
                    InputMode::EditingExisting => ("Edit task", " to cancel, ", " to save changes"),
                    _ => ("Export tasks list", " to cancel, ", " to save file"),
                };
                pieces.push(piece(label, Emphasis::Label));
                pieces.push(piece("  Press ", Emphasis::Plain));
                pieces.push(piece("Esc", Emphasis::Key));
                pieces.push(piece(escape, Emphasis::Plain));
                pieces.push(piece("Enter", Emphasis::Key));
                pieces.push(piece(enter, Emphasis::Plain));
            },
        },
    }
    pieces
}

} // verus!
