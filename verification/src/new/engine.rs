use crate::engine::{Change, Engine, Question, Reply, Request};
use crate::habit::{copy_days, At, Day, Habit};
use crate::new::cli::NewCli;
use crate::utils::concat3;
use vstd::prelude::*;

verus! {

/// How far the making of a habit has come.
#[derive(Debug, Clone, Copy, PartialEq, Eq, Structural)]
pub enum NewStage {
    /// Nothing was asked yet.
    Start,
    /// The user is asked for the name.
    Naming,
    /// The user is asked for the description.
    Describing,
    /// The user is asked for the days.
    Scheduling,
    /// The user is asked for the time of day.
    Timing,
    /// The store is asked to add the habit.
    Storing,
    /// The user is told that the habit exists now.
    Created,
    /// The user is told how to log a rep.
    HintingLog,
    /// The user is told how to see the progress.
    HintingShow,
    /// All is said.
    Done,
}

/// The engine that makes a new habit from the answers of the user.
#[derive(Debug, Clone)]
pub struct NewEngine {
    /// The answers so far. What was not asked yet is empty, and midnight.
    pub name: String,
    pub description: String,
    pub days: Vec<Day>,
    pub at: At,
    pub stage: NewStage,
}

/// The engine that makes a new habit.
pub fn get_engine(cli: NewCli) -> (engine: NewEngine)
    ensures
        engine.stage == NewStage::Start,
        engine.name@.len() == 0,
        engine.description@.len() == 0,
        engine.days@.len() == 0,
        engine.at == (At { hour: 0, minutes: 0 }),
{
    let _ = cli;
    NewEngine {
        name: String::new(),
        description: String::new(),
        days: Vec::new(),
        at: At { hour: 0, minutes: 0 },
        stage: NewStage::Start,
    }
}

impl NewEngine {
    /// The stage that follows `stage` on `reply`: the four questions in
    /// their order, then the store, then three lines to the user.
    pub open spec fn advance(stage: NewStage, reply: Reply) -> NewStage {
        match (stage, reply) {
            (NewStage::Start, _) => NewStage::Naming,
            (NewStage::Naming, Reply::Name { name }) => NewStage::Describing,
            (NewStage::Describing, Reply::Description { description }) => NewStage::Scheduling,
            (NewStage::Scheduling, Reply::Days { days }) => NewStage::Timing,
            (NewStage::Timing, Reply::Time { at }) => NewStage::Storing,
            (NewStage::Storing, Reply::Applied) => NewStage::Created,
            (NewStage::Created, Reply::Printed) => NewStage::HintingLog,
            (NewStage::HintingLog, Reply::Printed) => NewStage::HintingShow,
            (NewStage::HintingShow, Reply::Printed) => NewStage::Done,
            _ => stage,
        }
    }

    /// Whether `next` holds the answers of `self` and, where `reply` is the
    /// answer that was asked for, that answer.
    pub open spec fn keeps(self, reply: Reply, next: NewEngine) -> bool {
        &&& next.name == match (self.stage, reply) {
            (NewStage::Naming, Reply::Name { name }) => name,
            _ => self.name,
        }
        &&& next.description == match (self.stage, reply) {
            (NewStage::Describing, Reply::Description { description }) => description,
            _ => self.description,
        }
        &&& next.days == match (self.stage, reply) {
            (NewStage::Scheduling, Reply::Days { days }) => days,
            _ => self.days,
        }
        &&& next.at == match (self.stage, reply) {
            (NewStage::Timing, Reply::Time { at }) => at,
            _ => self.at,
        }
    }

    /// Whether `request` is what the engine asks at its stage.
    pub open spec fn asks(self, request: Request) -> bool {
        match self.stage {
            NewStage::Start | NewStage::Naming => request matches Request::Ask {
                question: Question::Name,
            },
            NewStage::Describing => request matches Request::Ask {
                question: Question::Description,
            },
            NewStage::Scheduling => request matches Request::Ask { question: Question::Days },
            NewStage::Timing => request matches Request::Ask { question: Question::At },
            NewStage::Storing => request matches Request::Apply {
                change: Change::Insert { habit },
            } && habit.name == self.name && habit.description == self.description && habit.days@
                == self.days@ && habit.at == self.at,
            NewStage::Created => request matches Request::Print { line } && line@ == "Habit '"@
                + self.name@ + "' successfully created!"@,
            NewStage::HintingLog => request matches Request::Print { line } && line@
                == "Run 'habit log "@ + self.name@ + "' to log progress."@,
            NewStage::HintingShow => request matches Request::Print { line } && line@
                == "Run 'habit show "@ + self.name@ + "' to show progress."@,
            NewStage::Done => request is Finish,
        }
    }

    /// What the engine asks at its stage.
    pub fn request(&self) -> (request: Request)
        ensures
            self.asks(request),
    {
        match self.stage {
            NewStage::Start | NewStage::Naming => Request::Ask { question: Question::Name },
            NewStage::Describing => Request::Ask { question: Question::Description },
            NewStage::Scheduling => Request::Ask { question: Question::Days },
            NewStage::Timing => Request::Ask { question: Question::At },
            NewStage::Storing => Request::Apply {
                change: Change::Insert {
                    habit: Habit::new(
                        self.name.clone(),
                        self.description.clone(),
                        copy_days(&self.days),
                        self.at,
                    ),
                },
            },
            NewStage::Created => Request::Print {
                line: concat3("Habit '", self.name.as_str(), "' successfully created!"),
            },
            NewStage::HintingLog => Request::Print {
                line: concat3("Run 'habit log ", self.name.as_str(), "' to log progress."),
            },
            NewStage::HintingShow => Request::Print {
                line: concat3("Run 'habit show ", self.name.as_str(), "' to show progress."),
            },
            NewStage::Done => Request::Finish,
        }
    }
}

impl Engine for NewEngine {
    open spec fn follows(&self, reply: Reply, next: &Self, request: Request) -> bool {
        &&& next.stage == Self::advance(self.stage, reply)
        &&& self.keeps(reply, *next)
        &&& next.asks(request)
    }

    fn step(&mut self, reply: Reply) -> (request: Request) {
        match self.stage {
            NewStage::Start => {
                self.stage = NewStage::Naming;
            },
            NewStage::Naming => match reply {
                Reply::Name { name } => {
                    self.name = name;
                    self.stage = NewStage::Describing;
                },
                _ => {},
            },
            NewStage::Describing => match reply {
                Reply::Description { description } => {
                    self.description = description;
                    self.stage = NewStage::Scheduling;
                },
                _ => {},
            },
            NewStage::Scheduling => match reply {
                Reply::Days { days } => {
                    self.days = days;
                    self.stage = NewStage::Timing;
                },
                _ => {},
            },
            NewStage::Timing => match reply {
                Reply::Time { at } => {
                    self.at = at;
                    self.stage = NewStage::Storing;
                },
                _ => {},
            },
            NewStage::Storing => match reply {
                Reply::Applied => {
                    self.stage = NewStage::Created;
                },
                _ => {},
            },
            NewStage::Created => match reply {
                Reply::Printed => {
                    self.stage = NewStage::HintingLog;
                },
                _ => {},
            },
            NewStage::HintingLog => match reply {
                Reply::Printed => {
                    self.stage = NewStage::HintingShow;
                },
                _ => {},
            },
            NewStage::HintingShow => match reply {
                Reply::Printed => {
                    self.stage = NewStage::Done;
                },
                _ => {},
            },
            NewStage::Done => {},
        }
        self.request()
    }
}

} // verus!
