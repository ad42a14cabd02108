use crate::edit::cli::{EditCli, What};
use crate::engine::{missing_message, missing_text, Change, Engine, Question, Reply, Request};
use crate::habit::{copy_days, At, Day};
use vstd::prelude::*;
use vstd::string::StringExecFns;

verus! {

/// How far the change of a habit has come.
#[derive(Debug, Clone, Copy, PartialEq, Eq, Structural)]
pub enum EditStage {
    /// Nothing was asked yet.
    Start,
    /// The store is asked whether it has the habit.
    Checking,
    /// The store has no such habit.
    Missing,
    /// The user is asked for the new value.
    Asking,
    /// The store is asked to take the new value.
    Updating,
    /// The user is told that the habit is changed.
    Updated,
    /// All is said.
    Done,
}

/// The engine that changes one part of a habit.
#[derive(Debug, Clone)]
pub struct EditEngine {
    /// The name of the habit.
    pub habit: String,
    /// The part to change.
    pub what: What,
    /// The new value, once the user has given it: a name or a description,
    pub text: String,
    /// or days,
    pub days: Vec<Day>,
    /// or a time of day.
    pub at: At,
    pub stage: EditStage,
}

/// The engine that changes, of the habit that `cli` names, the part that
/// `cli` names.
pub fn get_engine(cli: EditCli) -> (engine: EditEngine)
    ensures
        engine.habit == cli.habit,
        engine.what == cli.what,
        engine.stage == EditStage::Start,
{
    EditEngine {
        habit: cli.habit,
        what: cli.what,
        text: String::new(),
        days: Vec::new(),
        at: At { hour: 0, minutes: 0 },
        stage: EditStage::Start,
    }
}

/// What is said when a part of a habit was changed.
pub open spec fn updated_text(what: What) -> Seq<char> {
    match what {
        What::Name => "Name successfully updated!"@,
        What::Description => "Description successfully updated!"@,
        What::Days => "Days successfully updated!"@,
        What::At => "At successfully updated!"@,
    }
}

impl EditEngine {
    /// Whether `reply` is an answer to the question after `what`.
    pub open spec fn answers(what: What, reply: Reply) -> bool {
        match what {
            What::Name => reply is Name,
            What::Description => reply is Description,
            What::Days => reply is Days,
            What::At => reply is Time,
        }
    }

    /// The stage that follows `stage` on `reply`. The user is asked only
    /// where the store has the habit.
    pub open spec fn advance(stage: EditStage, what: What, reply: Reply) -> EditStage {
        match (stage, reply) {
            (EditStage::Start, _) => EditStage::Checking,
            (EditStage::Checking, Reply::Exists { exists }) => if exists {
                EditStage::Asking
            } else {
                EditStage::Missing
            },
            (EditStage::Asking, _) => if Self::answers(what, reply) {
                EditStage::Updating
            } else {
                stage
            },
            (EditStage::Updating, Reply::Applied) => EditStage::Updated,
            (EditStage::Updated, Reply::Printed) => EditStage::Done,
            _ => stage,
        }
    }

    /// Whether `next` holds the value that `reply` gives, where it is the
    /// answer that was asked for, and else what `self` holds.
    pub open spec fn keeps(self, reply: Reply, next: EditEngine) -> bool {
        let answered = self.stage == EditStage::Asking && Self::answers(self.what, reply);
        &&& next.text == match reply {
            Reply::Name { name } if answered => name,
            Reply::Description { description } if answered => description,
            _ => self.text,
        }
        &&& next.days == match reply {
            Reply::Days { days } if answered => days,
            _ => self.days,
        }
        &&& next.at == match reply {
            Reply::Time { at } if answered => at,
            _ => self.at,
        }
    }

    /// Whether `request` is what the engine asks at its stage.
    pub open spec fn asks(self, request: Request) -> bool {
        match self.stage {
            EditStage::Start | EditStage::Checking => request matches Request::Exists { habit }
                && habit == self.habit,
            EditStage::Missing => request matches Request::Fail { message } && message@
                == missing_text(self.habit@),
            EditStage::Asking => request matches Request::Ask { question } && match self.what {
                What::Name => question is Name,
                What::Description => question is Description,
                What::Days => question is Days,
                What::At => question is At,
            },
            EditStage::Updating => request matches Request::Apply { change } && match self.what {
                What::Name => change matches Change::Rename { habit, name } && habit
                    == self.habit && name == self.text,
                What::Description => change matches Change::Describe { habit, description }
                    && habit == self.habit && description == self.text,
                What::Days => change matches Change::Reschedule { habit, days } && habit
                    == self.habit && days@ == self.days@,
                What::At => change matches Change::Retime { habit, at } && habit == self.habit
                    && at == self.at,
            },
            EditStage::Updated => request matches Request::Print { line } && line@
                == updated_text(self.what),
            EditStage::Done => request is Finish,
        }
    }

    /// What the engine asks at its stage.
    pub fn request(&self) -> (request: Request)
        ensures
            self.asks(request),
    {
        match self.stage {
            EditStage::Start | EditStage::Checking => Request::Exists {
                habit: self.habit.clone(),
            },
            EditStage::Missing => Request::Fail { message: missing_message(self.habit.as_str()) },
            EditStage::Asking => Request::Ask {
                question: match self.what {
                    What::Name => Question::Name,
                    What::Description => Question::Description,
                    What::Days => Question::Days,
                    What::At => Question::At,
                },
            },
            EditStage::Updating => Request::Apply {
                change: match self.what {
                    What::Name => Change::Rename {
                        habit: self.habit.clone(),
                        name: self.text.clone(),
                    },
                    What::Description => Change::Describe {
                        habit: self.habit.clone(),
                        description: self.text.clone(),
                    },
                    What::Days => Change::Reschedule {
                        habit: self.habit.clone(),
                        days: copy_days(&self.days),
                    },
                    What::At => Change::Retime { habit: self.habit.clone(), at: self.at },
                },
            },
            EditStage::Updated => Request::Print {
                line: match self.what {
                    What::Name => String::from_str("Name successfully updated!"),
                    What::Description => String::from_str("Description successfully updated!"),
                    What::Days => String::from_str("Days successfully updated!"),
                    What::At => String::from_str("At successfully updated!"),
                },
            },
            EditStage::Done => Request::Finish,
        }
    }
}

impl Engine for EditEngine {
    open spec fn follows(&self, reply: Reply, next: &Self, request: Request) -> bool {
        &&& next.habit == self.habit
        &&& next.what == self.what
        &&& next.stage == Self::advance(self.stage, self.what, reply)
        &&& self.keeps(reply, *next)
        &&& next.asks(request)
    }

    fn step(&mut self, reply: Reply) -> (request: Request) {
        match self.stage {
            EditStage::Start => {
                self.stage = EditStage::Checking;
            },
            EditStage::Checking => match reply {
                Reply::Exists { exists } => {
                    self.stage = if exists {
                        EditStage::Asking
                    } else {
                        EditStage::Missing
                    };
                },
                _ => {},
            },
            EditStage::Asking => match (self.what, reply) {
                (What::Name, Reply::Name { name }) => {
                    self.text = name;
                    self.stage = EditStage::Updating;
                },
                (What::Description, Reply::Description { description }) => {
                    self.text = description;
                    self.stage = EditStage::Updating;
                },
                (What::Days, Reply::Days { days }) => {
                    self.days = days;
                    self.stage = EditStage::Updating;
                },
                (What::At, Reply::Time { at }) => {
                    self.at = at;
                    self.stage = EditStage::Updating;
                },
                _ => {},
            },
            EditStage::Updating => match reply {
                Reply::Applied => {
                    self.stage = EditStage::Updated;
                },
                _ => {},
            },
            EditStage::Updated => match reply {
                Reply::Printed => {
                    self.stage = EditStage::Done;
                },
                _ => {},
            },
            _ => {},
        }
        self.request()
    }
}

} // verus!
