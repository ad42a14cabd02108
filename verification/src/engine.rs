//! Engines: what a command does, as a conversation with the outside world.
//!
//! An engine touches neither the store nor the terminal. It asks: each step
//! takes the reply to what it asked last and gives its next request, until
//! it asks to finish or to fail. Whoever runs the engine carries the
//! requests out.

use crate::calendar::Date;
use crate::cli::{Cli, Command};
use crate::delete::DeleteEngine;
use crate::edit::EditEngine;
use crate::list::ListEngine;
use crate::log::LogEngine;
use crate::new::NewEngine;
use crate::show::ShowEngine;
use crate::habit::{At, Day, Habit};
use crate::utils::concat3;
use vstd::prelude::*;

verus! {

/// A change to the store.
#[derive(Debug, Clone)]
pub enum Change {
    /// Add a habit.
    Insert { habit: Habit },
    /// Give habit `habit` the name `name`.
    Rename { habit: String, name: String },
    /// Give habit `habit` the description `description`.
    Describe { habit: String, description: String },
    /// Make habit `habit` due on `days`.
    Reschedule { habit: String, days: Vec<Day> },
    /// Make habit `habit` due at `at`.
    Retime { habit: String, at: At },
    /// Remove habit `habit` and its logs.
    Delete { habit: String },
    /// Log a rep of habit `habit`, now.
    LogRep { habit: String },
}

/// A question to the user.
#[derive(Debug, Clone)]
pub enum Question {
    /// The name of a habit that does not exist yet.
    Name,
    Description,
    Days,
    At,
    /// Yes or no, to `message`.
    Confirm { message: String },
}

/// What an engine asks of the outside world.
#[derive(Debug, Clone)]
pub enum Request {
    /// Whether the store has a habit of this name.
    Exists { habit: String },
    /// An answer of the user.
    Ask { question: Question },
    /// A change to the store.
    Apply { change: Change },
    /// The number of reps logged for a habit.
    CountReps { habit: String },
    /// The names of all habits.
    ListNames,
    /// All habits.
    ListHabits,
    /// The habit of this name, or without a name the habit that a rep was
    /// logged for most recently.
    Find { habit: Option<String> },
    /// For each habit, in the order of `ListHabits`, the dates of its logs.
    Logs,
    /// The width of the terminal, in columns.
    TerminalWidth,
    /// A line on the terminal.
    Print { line: String },
    /// The interactive session over `habits`, with habit `selected` shown
    /// first.
    Show { habits: Vec<Habit>, logs: Vec<Vec<Date>>, selected: usize },
    /// The end of the work, as an error that says `message`.
    Fail { message: String },
    /// The end of the work, because the store contradicts itself.
    Abort { message: String },
    /// The end of the work.
    Finish,
}

/// What the outside world answers.
#[derive(Debug, Clone)]
pub enum Reply {
    /// The engine is being started: nothing was asked yet.
    Start,
    Exists { exists: bool },
    Name { name: String },
    Description { description: String },
    Days { days: Vec<Day> },
    Time { at: At },
    Confirmed { yes: bool },
    Applied,
    Count { reps: usize },
    Names { names: Vec<String> },
    Habits { habits: Vec<Habit> },
    Found { habit: Habit },
    Logs { logs: Vec<Vec<Date>> },
    Width { columns: Option<u16> },
    Printed,
    Shown,
}

impl Request {
    /// Whether the request ends the work of the engine.
    pub open spec fn is_final(self) -> bool {
        self is Fail || self is Abort || self is Finish
    }

    /// Whether the request ends the work of the engine.
    pub fn ends(&self) -> (last: bool)
        ensures
            last == self.is_final(),
    {
        match self {
            Request::Fail { .. } | Request::Abort { .. } | Request::Finish => true,
            _ => false,
        }
    }
}

/// What is said of a habit that the store does not have.
pub open spec fn missing_text(habit: Seq<char>) -> Seq<char> {
    "Habit '"@ + habit + "' does not exists!"@
}

/// What is said of a habit that the store does not have.
pub fn missing_message(habit: &str) -> (message: String)
    ensures
        message@ == missing_text(habit@),
{
    concat3("Habit '", habit, "' does not exists!")
}

/// What carries a command out, one request after the other.
pub trait Engine: Sized {
    /// Whether the engine, on `reply` to its last request, becomes `next`
    /// and asks `request`.
    spec fn follows(&self, reply: Reply, next: &Self, request: Request) -> bool;

    /// Takes the reply to the last request and gives the next one. The
    /// first reply is `Reply::Start`. A reply that answers another question
    /// than the one asked changes nothing, and the question is asked again.
    fn step(&mut self, reply: Reply) -> (request: Request)
        ensures
            old(self).follows(reply, final(self), request),
    ;
}

/// The engine of any command.
#[derive(Debug, Clone)]
pub enum AnyEngine {
    New(NewEngine),
    Edit(EditEngine),
    Delete(DeleteEngine),
    List(ListEngine),
    Log(LogEngine),
    Show(ShowEngine),
}

impl Engine for AnyEngine {
    open spec fn follows(&self, reply: Reply, next: &Self, request: Request) -> bool {
        match (*self, *next) {
            (AnyEngine::New(before), AnyEngine::New(after)) => before.follows(
                reply,
                &after,
                request,
            ),
            (AnyEngine::Edit(before), AnyEngine::Edit(after)) => before.follows(
                reply,
                &after,
                request,
            ),
            (AnyEngine::Delete(before), AnyEngine::Delete(after)) => before.follows(
                reply,
                &after,
                request,
            ),
            (AnyEngine::List(before), AnyEngine::List(after)) => before.follows(
                reply,
                &after,
                request,
            ),
            (AnyEngine::Log(before), AnyEngine::Log(after)) => before.follows(
                reply,
                &after,
                request,
            ),
            (AnyEngine::Show(before), AnyEngine::Show(after)) => before.follows(
                reply,
                &after,
                request,
            ),
            _ => false,
        }
    }

    fn step(&mut self, reply: Reply) -> (request: Request) {
        match self {
            AnyEngine::New(engine) => engine.step(reply),
            AnyEngine::Edit(engine) => engine.step(reply),
            AnyEngine::Delete(engine) => engine.step(reply),
            AnyEngine::List(engine) => engine.step(reply),
            AnyEngine::Log(engine) => engine.step(reply),
            AnyEngine::Show(engine) => engine.step(reply),
        }
    }
}

/// The engine of the command of `cli`, as the `get_engine` of that command
/// makes it from the command's arguments.
pub fn get_engine(cli: Cli) -> (engine: AnyEngine)
    ensures
        match cli.command {
            Command::New(cli) => engine matches AnyEngine::New(made) && made.stage
                == crate::new::engine::NewStage::Start,
            Command::Edit(cli) => engine matches AnyEngine::Edit(made) && made.habit == cli.habit
                && made.what == cli.what && made.stage == crate::edit::engine::EditStage::Start,
            Command::Delete(cli) => engine matches AnyEngine::Delete(made) && made.habit
                == cli.habit && made.stage == crate::delete::engine::DeleteStage::Start,
            Command::List(cli) => engine matches AnyEngine::List(made) && made.verbose
                == cli.verbose && made.stage == crate::list::engine::ListStage::Start,
            Command::Log(cli) => engine matches AnyEngine::Log(made) && made.habit == cli.habit
                && made.stage == crate::log::engine::LogStage::Start,
            Command::Show(cli) => engine matches AnyEngine::Show(made) && made.habit == cli.habit
                && made.stage == crate::show::engine::ShowStage::Start,
        },
{
    match cli.command {
        Command::New(cli) => AnyEngine::New(crate::new::get_engine(cli)),
        Command::Edit(cli) => AnyEngine::Edit(crate::edit::get_engine(cli)),
        Command::Delete(cli) => AnyEngine::Delete(crate::delete::get_engine(cli)),
        Command::List(cli) => AnyEngine::List(crate::list::get_engine(cli)),
        Command::Log(cli) => AnyEngine::Log(crate::log::get_engine(cli)),
        Command::Show(cli) => AnyEngine::Show(crate::show::get_engine(cli)),
    }
}

} // verus!
