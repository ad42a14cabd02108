use crate::engine::{Engine, Reply, Request};
use crate::habit::Habit;
use crate::list::cli::ListCli;
use crate::utils::{
    bold, bright_black, display_days, displayed, is_styled, texts, wrap, wrapped,
};
use vstd::prelude::*;
use vstd::string::StringExecFns;

verus! {

/// How far the listing has come.
#[derive(Debug, Clone, Copy, PartialEq, Eq, Structural)]
pub enum ListStage {
    /// Nothing was asked yet.
    Start,
    /// The store is asked for the habits, or for their names.
    Listing,
    /// The terminal is asked for its width.
    Measuring,
    /// A habit is due on a single day, which no sentence is made for.
    Broken,
    /// The lines are printed, one after the other.
    Printing,
}

/// The engine that lists the habits.
#[derive(Debug, Clone)]
pub struct ListEngine {
    /// Whether to show all of each habit, not just its name.
    pub verbose: bool,
    /// The habits, once the store has told them.
    pub habits: Vec<Habit>,
    /// The lines to print, once they are known.
    pub lines: Vec<String>,
    /// The number of lines that are printed.
    pub printed: usize,
    pub stage: ListStage,
}

/// The engine that lists the habits, in the way that `cli` asks for.
pub fn get_engine(cli: ListCli) -> (engine: ListEngine)
    ensures
        engine.verbose == cli.verbose,
        engine.stage == ListStage::Start,
        engine.habits@.len() == 0,
        engine.lines@.len() == 0,
        engine.printed == 0,
{
    ListEngine {
        verbose: cli.verbose,
        habits: Vec::new(),
        lines: Vec::new(),
        printed: 0,
        stage: ListStage::Start,
    }
}

/// The width to which the lines of a habit are broken: eight columns less
/// than the terminal has, and 65535 where its width is unknown or below 8.
pub open spec fn max_width(columns: Option<u16>) -> int {
    let columns = match columns {
        Some(columns) => columns,
        None => u16::MAX,
    };
    if columns >= 8 {
        columns - 8
    } else {
        u16::MAX as int
    }
}

/// The sentence that says when a habit is due, after the mark `marker`.
pub open spec fn schedule_text(marker: Seq<char>, habit: Habit) -> Seq<char> {
    marker + " Each "@ + displayed(habit.days@) + " at "@ + habit.at.text() + "."@
}

/// The lines `lines`, each after four blanks.
pub open spec fn indented(lines: Seq<Seq<char>>) -> Seq<Seq<char>> {
    Seq::new(lines.len(), |i: int| "    "@ + lines[i])
}

/// The lines of one habit: the heading `head`, the description and the
/// sentence that says when the habit is due, the last two broken at `width`
/// columns and set in by four blanks.
pub open spec fn block_text(habit: Habit, head: Seq<char>, marker: Seq<char>, width: int) -> Seq<
    Seq<char>,
> {
    seq![head] + indented(wrapped(habit.description@, width)) + indented(
        wrapped(schedule_text(marker, habit), width),
    )
}

/// The lines of the habits `habits`, one block after the other, with the
/// headings `heads` and the marks `markers`.
pub open spec fn listing_text(
    habits: Seq<Habit>,
    heads: Seq<Seq<char>>,
    markers: Seq<Seq<char>>,
    width: int,
) -> Seq<Seq<char>>
    decreases habits.len(),
{
    if habits.len() == 0 {
        Seq::empty()
    } else {
        listing_text(habits.drop_last(), heads.drop_last(), markers.drop_last(), width)
            + block_text(habits.last(), heads.last(), markers.last(), width)
    }
}

/// Whether `heads` and `markers` are, for each of `habits`, its name in
/// bold and the mark `>` in a faint colour.
pub open spec fn are_styled(
    habits: Seq<Habit>,
    heads: Seq<Seq<char>>,
    markers: Seq<Seq<char>>,
) -> bool {
    &&& heads.len() == habits.len()
    &&& markers.len() == habits.len()
    &&& forall|i: int|
        0 <= i < habits.len() ==> is_styled(#[trigger] heads[i], habits[i].name@) && is_styled(
            markers[i],
            ">"@,
        )
}

/// Whether `lines` list `habits` at `width` columns. The heading of a habit
/// is its name in bold and the mark is `>` in a faint colour, each as far as
/// the terminal takes it.
pub open spec fn is_listing(lines: Seq<Seq<char>>, habits: Seq<Habit>, width: int) -> bool {
    exists|heads: Seq<Seq<char>>, markers: Seq<Seq<char>>|
        are_styled(habits, heads, markers) && lines == #[trigger] listing_text(
            habits,
            heads,
            markers,
            width,
        )
}

/// Whether each habit is due on no day or on two and more.
pub open spec fn all_listable(habits: Seq<Habit>) -> bool {
    forall|i: int| 0 <= i < habits.len() ==> (#[trigger] habits[i]).days@.len() != 1
}

/// The width to which the lines of a habit are broken, for a terminal of
/// `columns` columns.
pub fn width_for(columns: Option<u16>) -> (width: usize)
    ensures
        width == max_width(columns),
{
    let columns: u16 = match columns {
        Some(columns) => columns,
        None => u16::MAX,
    };
    if columns >= 8 {
        (columns - 8) as usize
    } else {
        u16::MAX as usize
    }
}

/// The sentence that says when a habit is due, after the mark `marker`.
pub fn schedule_sentence(marker: &str, habit: &Habit) -> (text: String)
    requires
        habit.days@.len() != 1,
    ensures
        text@ == schedule_text(marker@, *habit),
{
    let mut text = String::from_str(marker);
    text.append(" Each ");
    text.append(display_days(habit.days.as_slice()).as_str());
    text.append(" at ");
    text.append(habit.at.to_string().as_str());
    text.append(".");
    text
}

/// Appends `more` to `lines`, each line after four blanks.
fn push_indented(lines: &mut Vec<String>, more: &Vec<String>)
    ensures
        texts(final(lines)@) == texts(old(lines)@) + indented(texts(more@)),
{
    let mut i: usize = 0;
    assert(texts(lines@) =~= texts(old(lines)@) + indented(texts(more@.take(0))));
    while i < more.len()
        invariant
            i <= more@.len(),
            texts(lines@) == texts(old(lines)@) + indented(texts(more@.take(i as int))),
        decreases more@.len() - i,
    {
        let mut line = String::from_str("    ");
        line.append(more[i].as_str());
        let ghost before = lines@;
        lines.push(line);
        proof {
            assert(lines@ == before.push(line));
            assert(texts(lines@) =~= texts(before).push(line@));
            assert(indented(texts(more@.take(i + 1))) =~= indented(
                texts(more@.take(i as int)),
            ).push("    "@ + more@[i as int]@));
            assert(texts(lines@) =~= texts(old(lines)@) + indented(
                texts(more@.take(i + 1)),
            ));
        }
        i += 1;
    }
    proof {
        assert(more@.take(more@.len() as int) =~= more@);
    }
}

/// Appends the lines of `habit` to `lines`.
fn push_block(lines: &mut Vec<String>, habit: &Habit, width: usize)
    requires
        habit.days@.len() != 1,
    ensures
        exists|head: Seq<char>, marker: Seq<char>|
            is_styled(head, habit.name@) && is_styled(marker, ">"@) && texts(final(lines)@)
                == texts(old(lines)@) + #[trigger] block_text(*habit, head, marker, width as int),
{
    let head = bold(habit.name.as_str());
    let ghost before = lines@;
    lines.push(head);
    assert(texts(lines@) =~= texts(before) + seq![head@]);
    push_indented(lines, &wrap(habit.description.as_str(), width));
    let marker = bright_black(">");
    let sentence = schedule_sentence(marker.as_str(), habit);
    push_indented(lines, &wrap(sentence.as_str(), width));
    assert(texts(lines@) =~= texts(before) + block_text(*habit, head@, marker@, width as int));
}

/// The lines that list `habits` at `width` columns.
pub fn listing(habits: &Vec<Habit>, width: usize) -> (lines: Vec<String>)
    requires
        all_listable(habits@),
    ensures
        is_listing(texts(lines@), habits@, width as int),
{
    let mut lines: Vec<String> = Vec::new();
    let ghost mut heads: Seq<Seq<char>> = Seq::empty();
    let ghost mut markers: Seq<Seq<char>> = Seq::empty();
    let mut i: usize = 0;
    assert(texts(lines@) =~= listing_text(habits@.take(0), heads, markers, width as int));
    while i < habits.len()
        invariant
            i <= habits@.len(),
            all_listable(habits@),
            are_styled(habits@.take(i as int), heads, markers),
            texts(lines@) == listing_text(habits@.take(i as int), heads, markers, width as int),
        decreases habits@.len() - i,
    {
        let ghost before = texts(lines@);
        push_block(&mut lines, &habits[i], width);
        proof {
            let (head, marker) = choose|head: Seq<char>, marker: Seq<char>|
                is_styled(head, habits@[i as int].name@) && is_styled(marker, ">"@) && texts(
                    lines@,
                ) == before + #[trigger] block_text(habits@[i as int], head, marker, width as int);
            let next = habits@.take(i + 1);
            assert(next.drop_last() == habits@.take(i as int));
            assert(heads.push(head).drop_last() == heads);
            assert(markers.push(marker).drop_last() == markers);
            let ghost old_heads = heads;
            let ghost old_markers = markers;
            heads = heads.push(head);
            markers = markers.push(marker);
            assert forall|k: int| 0 <= k < next.len() implies is_styled(
                #[trigger] heads[k],
                next[k].name@,
            ) && is_styled(markers[k], ">"@) by {
                if k < i {
                    assert(heads[k] == old_heads[k]);
                    assert(markers[k] == old_markers[k]);
                    assert(next[k] == habits@.take(i as int)[k]);
                }
            }
        }
        i += 1;
    }
    proof {
        assert(habits@.take(habits@.len() as int) =~= habits@);
    }
    lines
}

/// Whether each of `habits` is due on no day or on two and more.
pub fn listable(habits: &Vec<Habit>) -> (fine: bool)
    ensures
        fine == all_listable(habits@),
{
    let mut i: usize = 0;
    while i < habits.len()
        invariant
            i <= habits@.len(),
            forall|k: int| 0 <= k < i ==> (#[trigger] habits@[k]).days@.len() != 1,
        decreases habits@.len() - i,
    {
        if habits[i].days.len() == 1 {
            return false;
        }
        i += 1;
    }
    true
}

impl ListEngine {
    /// Whether `next` is what `self` becomes on `reply`: it asks the store,
    /// then for a full listing the terminal, then prints line after line.
    pub open spec fn becomes(self, reply: Reply, next: ListEngine) -> bool {
        &&& next.verbose == self.verbose
        &&& match (self.stage, reply) {
            (ListStage::Start, _) => {
                &&& next.stage == ListStage::Listing
                &&& next.habits == self.habits
                &&& next.lines == self.lines
                &&& next.printed == self.printed
            },
            (ListStage::Listing, Reply::Names { names }) if !self.verbose => {
                &&& next.stage == ListStage::Printing
                &&& next.habits == self.habits
                &&& next.lines == names
                &&& next.printed == 0
            },
            (ListStage::Listing, Reply::Habits { habits }) if self.verbose => {
                &&& next.stage == ListStage::Measuring
                &&& next.habits == habits
                &&& next.lines == self.lines
                &&& next.printed == self.printed
            },
            (ListStage::Measuring, Reply::Width { columns }) => {
                &&& next.habits == self.habits
                &&& next.printed == 0
                &&& if all_listable(self.habits@) {
                    &&& next.stage == ListStage::Printing
                    &&& is_listing(texts(next.lines@), self.habits@, max_width(columns))
                } else {
                    &&& next.stage == ListStage::Broken
                    &&& next.lines == self.lines
                }
            },
            (ListStage::Printing, Reply::Printed) if self.printed < self.lines@.len() => {
                &&& next.stage == ListStage::Printing
                &&& next.habits == self.habits
                &&& next.lines == self.lines
                &&& next.printed == self.printed + 1
            },
            _ => next == self,
        }
    }

    /// Whether `request` is what the engine asks at its stage.
    pub open spec fn asks(self, request: Request) -> bool {
        match self.stage {
            ListStage::Start | ListStage::Listing => if self.verbose {
                request is ListHabits
            } else {
                request is ListNames
            },
            ListStage::Measuring => request is TerminalWidth,
            ListStage::Broken => request matches Request::Abort { message } && message@
                == "a habit is due on a single day"@,
            ListStage::Printing => if self.printed < self.lines@.len() {
                request matches Request::Print { line } && line == self.lines@[self.printed as int]
            } else {
                request is Finish
            },
        }
    }

    /// What the engine asks at its stage.
    pub fn request(&self) -> (request: Request)
        ensures
            self.asks(request),
    {
        match self.stage {
            ListStage::Start | ListStage::Listing => if self.verbose {
                Request::ListHabits
            } else {
                Request::ListNames
            },
            ListStage::Measuring => Request::TerminalWidth,
            ListStage::Broken => Request::Abort {
                message: String::from_str("a habit is due on a single day"),
            },
            ListStage::Printing => if self.printed < self.lines.len() {
                Request::Print { line: self.lines[self.printed].clone() }
            } else {
                Request::Finish
            },
        }
    }
}

impl Engine for ListEngine {
    open spec fn follows(&self, reply: Reply, next: &Self, request: Request) -> bool {
        self.becomes(reply, *next) && next.asks(request)
    }

    fn step(&mut self, reply: Reply) -> (request: Request) {
        match self.stage {
            ListStage::Start => {
                self.stage = ListStage::Listing;
            },
            ListStage::Listing => match reply {
                Reply::Names { names } => {
                    if !self.verbose {
                        self.lines = names;
                        self.printed = 0;
                        self.stage = ListStage::Printing;
                    }
                },
                Reply::Habits { habits } => {
                    if self.verbose {
                        self.habits = habits;
                        self.stage = ListStage::Measuring;
                    }
                },
                _ => {},
            },
            ListStage::Measuring => match reply {
                Reply::Width { columns } => {
                    self.printed = 0;
                    if listable(&self.habits) {
                        self.lines = listing(&self.habits, width_for(columns));
                        self.stage = ListStage::Printing;
                    } else {
                        self.stage = ListStage::Broken;
                    }
                },
                _ => {},
            },
            ListStage::Printing => match reply {
                Reply::Printed => {
                    if self.printed < self.lines.len() {
                        self.printed = self.printed + 1;
                    }
                },
                _ => {},
            },
            ListStage::Broken => {},
        }
        self.request()
    }
}

} // verus!
