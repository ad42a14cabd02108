use crate::delete::cli::DeleteCli;
use crate::engine::{missing_message, missing_text, Change, Engine, Question, Reply, Request};
use crate::utils::concat3;
use vstd::prelude::*;
use vstd::string::StringExecFns;

verus! {

/// How far the deletion of a habit has come.
#[derive(Debug, Clone, Copy, PartialEq, Eq, Structural)]
pub enum DeleteStage {
    /// Nothing was asked yet.
    Start,
    /// The store is asked whether it has the habit.
    Checking,
    /// The store has no such habit.
    Missing,
    /// The user is asked whether to go on.
    Confirming,
    /// The user said yes: the store is asked to delete the habit.
    Deleting,
    /// The habit is deleted, and the user is told so.
    Deleted,
    /// The user said no, and is told that nothing was done.
    Declined,
    /// All is said.
    Done,
}

/// The engine that deletes a habit, if the user confirms it.
#[derive(Debug, Clone)]
pub struct DeleteEngine {
    /// The name of the habit.
    pub habit: String,
    pub stage: DeleteStage,
}

/// The engine that deletes the habit that `cli` names.
pub fn get_engine(cli: DeleteCli) -> (engine: DeleteEngine)
    ensures
        engine.habit == cli.habit,
        engine.stage == DeleteStage::Start,
{
    DeleteEngine { habit: cli.habit, stage: DeleteStage::Start }
}

/// The question that is put before a habit is deleted.
pub open spec fn confirmation_text(habit: Seq<char>) -> Seq<char> {
    "Are you sure? All data for '"@ + habit
        + "' will be lost. Consider exporting it before with 'habit export "@ + habit + "'."@
}

/// What is said when a habit was deleted.
pub open spec fn deleted_text(habit: Seq<char>) -> Seq<char> {
    "Habit '"@ + habit + "' successfully deleted!"@
}

impl DeleteEngine {
    /// The stage that follows `stage` on `reply`. The habit is deleted only
    /// on a yes of the user, and the user is asked only where the store has
    /// the habit.
    pub open spec fn advance(stage: DeleteStage, reply: Reply) -> DeleteStage {
        match (stage, reply) {
            (DeleteStage::Start, _) => DeleteStage::Checking,
            (DeleteStage::Checking, Reply::Exists { exists }) => if exists {
                DeleteStage::Confirming
            } else {
                DeleteStage::Missing
            },
            (DeleteStage::Confirming, Reply::Confirmed { yes }) => if yes {
                DeleteStage::Deleting
            } else {
                DeleteStage::Declined
            },
            (DeleteStage::Deleting, Reply::Applied) => DeleteStage::Deleted,
            (DeleteStage::Deleted, Reply::Printed) => DeleteStage::Done,
            (DeleteStage::Declined, Reply::Printed) => DeleteStage::Done,
            _ => stage,
        }
    }

    /// Whether `request` is what the engine asks at its stage.
    pub open spec fn asks(self, request: Request) -> bool {
        match self.stage {
            DeleteStage::Start | DeleteStage::Checking => request matches Request::Exists { habit }
                && habit == self.habit,
            DeleteStage::Missing => request matches Request::Fail { message } && message@
                == missing_text(self.habit@),
            DeleteStage::Confirming => request matches Request::Ask {
                question: Question::Confirm { message },
            } && message@ == confirmation_text(self.habit@),
            DeleteStage::Deleting => request matches Request::Apply {
                change: Change::Delete { habit },
            } && habit == self.habit,
            DeleteStage::Deleted => request matches Request::Print { line } && line@
                == deleted_text(self.habit@),
            DeleteStage::Declined => request matches Request::Print { line } && line@
                == "Nothing done."@,
            DeleteStage::Done => request is Finish,
        }
    }

    /// The stage that follows `stage` on `reply`.
    fn advanced(stage: DeleteStage, reply: &Reply) -> (next: DeleteStage)
        ensures
            next == Self::advance(stage, *reply),
    {
        match stage {
            DeleteStage::Start => DeleteStage::Checking,
            DeleteStage::Checking => match reply {
                Reply::Exists { exists } => if *exists {
                    DeleteStage::Confirming
                } else {
                    DeleteStage::Missing
                },
                _ => stage,
            },
            DeleteStage::Confirming => match reply {
                Reply::Confirmed { yes } => if *yes {
                    DeleteStage::Deleting
                } else {
                    DeleteStage::Declined
                },
                _ => stage,
            },
            DeleteStage::Deleting => match reply {
                Reply::Applied => DeleteStage::Deleted,
                _ => stage,
            },
            DeleteStage::Deleted | DeleteStage::Declined => match reply {
                Reply::Printed => DeleteStage::Done,
                _ => stage,
            },
            _ => stage,
        }
    }

    /// What the engine asks at its stage.
    pub fn request(&self) -> (request: Request)
        ensures
            self.asks(request),
    {
        match self.stage {
            DeleteStage::Start | DeleteStage::Checking => Request::Exists {
                habit: self.habit.clone(),
            },
            DeleteStage::Missing => Request::Fail {
                message: missing_message(self.habit.as_str()),
            },
            DeleteStage::Confirming => {
                let mut message = concat3(
                    "Are you sure? All data for '",
                    self.habit.as_str(),
                    "' will be lost. Consider exporting it before with 'habit export ",
                );
                message.append(self.habit.as_str());
                message.append("'.");
                Request::Ask { question: Question::Confirm { message } }
            },
            DeleteStage::Deleting => Request::Apply {
                change: Change::Delete { habit: self.habit.clone() },
            },
            DeleteStage::Deleted => Request::Print {
                line: concat3("Habit '", self.habit.as_str(), "' successfully deleted!"),
            },
            DeleteStage::Declined => Request::Print { line: String::from_str("Nothing done.") },
            DeleteStage::Done => Request::Finish,
        }
    }
}

impl Engine for DeleteEngine {
    open spec fn follows(&self, reply: Reply, next: &Self, request: Request) -> bool {
        &&& next.habit == self.habit
        &&& next.stage == Self::advance(self.stage, reply)
        &&& next.asks(request)
    }

    fn step(&mut self, reply: Reply) -> (request: Request) {
        self.stage = Self::advanced(self.stage, &reply);
        self.request()
    }
}

} // verus!
