use crate::engine::{missing_message, missing_text, Change, Engine, Reply, Request};
use crate::log::cli::LogCli;
use crate::utils::{bold, decimal, decimal_digits, is_styled};
use vstd::prelude::*;
use vstd::string::StringExecFns;

verus! {

/// How far the logging of a rep has come.
#[derive(Debug, Clone, Copy, PartialEq, Eq, Structural)]
pub enum LogStage {
    /// Nothing was asked yet.
    Start,
    /// The store is asked whether it has the habit.
    Checking,
    /// The store has no such habit.
    Missing,
    /// The store is asked to log a rep.
    Logging,
    /// The store is asked for the number of reps.
    Counting,
    /// The user is told that the rep is logged.
    Logged,
    /// The user is told the number of reps.
    Praising,
    /// All is said.
    Done,
}

/// The engine that logs a rep of a habit.
#[derive(Debug, Clone)]
pub struct LogEngine {
    /// The name of the habit.
    pub habit: String,
    /// The number of reps of the habit, once the store has told it.
    pub reps: usize,
    pub stage: LogStage,
}

/// The engine that logs a rep of the habit that `cli` names.
pub fn get_engine(cli: LogCli) -> (engine: LogEngine)
    ensures
        engine.habit == cli.habit,
        engine.reps == 0,
        engine.stage == LogStage::Start,
{
    LogEngine { habit: cli.habit, reps: 0, stage: LogStage::Start }
}

/// A number of reps in words: `1 rep`, `2 reps`.
pub open spec fn reps_text(reps: nat) -> Seq<char> {
    decimal_digits(reps) + " "@ + if reps <= 1 {
        "rep"@
    } else {
        "reps"@
    }
}

/// The sentence that tells the number of reps of a habit, with the number
/// written as `count`.
pub open spec fn praise_text(count: Seq<char>, habit: Seq<char>) -> Seq<char> {
    "Good job! You are at "@ + count + " for habit '"@ + habit + "'."@
}

/// A number of reps in words: `1 rep`, `2 reps`.
pub fn reps_in_words(reps: usize) -> (text: String)
    ensures
        text@ == reps_text(reps as nat),
{
    let mut text = decimal(reps as u64);
    text.append(" ");
    if reps <= 1 {
        text.append("rep");
    } else {
        text.append("reps");
    }
    text
}

/// The sentence that tells the number of reps of a habit, with the number
/// written as `count`.
pub fn praise(count: &str, habit: &str) -> (text: String)
    ensures
        text@ == praise_text(count@, habit@),
{
    let mut text = String::from_str("Good job! You are at ");
    text.append(count);
    text.append(" for habit '");
    text.append(habit);
    text.append("'.");
    text
}

impl LogEngine {
    /// The stage that follows `stage` on `reply`. A rep is logged only
    /// where the store has the habit.
    pub open spec fn advance(stage: LogStage, reply: Reply) -> LogStage {
        match (stage, reply) {
            (LogStage::Start, _) => LogStage::Checking,
            (LogStage::Checking, Reply::Exists { exists }) => if exists {
                LogStage::Logging
            } else {
                LogStage::Missing
            },
            (LogStage::Logging, Reply::Applied) => LogStage::Counting,
            (LogStage::Counting, Reply::Count { reps }) => LogStage::Logged,
            (LogStage::Logged, Reply::Printed) => LogStage::Praising,
            (LogStage::Praising, Reply::Printed) => LogStage::Done,
            _ => stage,
        }
    }

    /// Whether `request` is what the engine asks at its stage. The number
    /// of reps is printed in bold, as far as the terminal takes it.
    pub open spec fn asks(self, request: Request) -> bool {
        match self.stage {
            LogStage::Start | LogStage::Checking => request matches Request::Exists { habit }
                && habit == self.habit,
            LogStage::Missing => request matches Request::Fail { message } && message@
                == missing_text(self.habit@),
            LogStage::Logging => request matches Request::Apply {
                change: Change::LogRep { habit },
            } && habit == self.habit,
            LogStage::Counting => request matches Request::CountReps { habit } && habit
                == self.habit,
            LogStage::Logged => request matches Request::Print { line } && line@
                == "Rep successfully logged."@,
            LogStage::Praising => request matches Request::Print { line } && exists|
                count: Seq<char>,
            |
                is_styled(count, reps_text(self.reps as nat)) && line@ == #[trigger] praise_text(
                    count,
                    self.habit@,
                ),
            LogStage::Done => request is Finish,
        }
    }

    /// What the engine asks at its stage.
    pub fn request(&self) -> (request: Request)
        ensures
            self.asks(request),
    {
        match self.stage {
            LogStage::Start | LogStage::Checking => Request::Exists { habit: self.habit.clone() },
            LogStage::Missing => Request::Fail { message: missing_message(self.habit.as_str()) },
            LogStage::Logging => Request::Apply {
                change: Change::LogRep { habit: self.habit.clone() },
            },
            LogStage::Counting => Request::CountReps { habit: self.habit.clone() },
            LogStage::Logged => Request::Print {
                line: String::from_str("Rep successfully logged."),
            },
            LogStage::Praising => {
                let count = bold(reps_in_words(self.reps).as_str());
                Request::Print { line: praise(count.as_str(), self.habit.as_str()) }
            },
            LogStage::Done => Request::Finish,
        }
    }
}

impl Engine for LogEngine {
    open spec fn follows(&self, reply: Reply, next: &Self, request: Request) -> bool {
        &&& next.habit == self.habit
        &&& next.stage == Self::advance(self.stage, reply)
        &&& next.reps == match (self.stage, reply) {
            (LogStage::Counting, Reply::Count { reps }) => reps,
            _ => self.reps,
        }
        &&& next.asks(request)
    }

    fn step(&mut self, reply: Reply) -> (request: Request) {
        match self.stage {
            LogStage::Start => {
                self.stage = LogStage::Checking;
            },
            LogStage::Checking => match reply {
                Reply::Exists { exists } => {
                    self.stage = if exists {
                        LogStage::Logging
                    } else {
                        LogStage::Missing
                    };
                },
                _ => {},
            },
            LogStage::Logging => match reply {
                Reply::Applied => {
                    self.stage = LogStage::Counting;
                },
                _ => {},
            },
            LogStage::Counting => match reply {
                Reply::Count { reps } => {
                    self.reps = reps;
                    self.stage = LogStage::Logged;
                },
                _ => {},
            },
            LogStage::Logged => match reply {
                Reply::Printed => {
                    self.stage = LogStage::Praising;
                },
                _ => {},
            },
            LogStage::Praising => match reply {
                Reply::Printed => {
                    self.stage = LogStage::Done;
                },
                _ => {},
            },
            _ => {},
        }
        self.request()
    }
}

} // verus!
