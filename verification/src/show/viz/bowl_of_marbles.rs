//! The bowl of marbles: for now a label that names the habit.

use crate::habit::Habit;
use crate::show::layout::Rect;
use crate::show::ui::{centered_rect, is_centered_in};
use crate::show::viz::Picture;
use vstd::prelude::*;
use vstd::string::StringExecFns;

verus! {

/// Whether `picture` is the bowl of marbles of `habit` on `canvas`: the
/// label that names the habit, in a box that takes the middle half of the
/// canvas each way.
pub open spec fn is_bowl(picture: Picture, habit: Habit, canvas: Rect) -> bool {
    &&& picture matches Picture::Label { area, text }
    &&& is_centered_in(canvas, area, 50, 50)
    &&& text@ == "Bowl of marbles for habit "@ + habit.name@
}

/// The bowl of marbles of a habit.
pub struct BowlOfMarbles<'a> {
    pub habit: &'a Habit,
}

impl<'a> BowlOfMarbles<'a> {
    /// The bowl of marbles of `habit`.
    pub fn new(habit: &'a Habit) -> (bowl: Self)
        ensures
            bowl.habit == habit,
    {
        BowlOfMarbles { habit }
    }

    /// The text of the label.
    pub fn label(&self) -> (text: String)
        ensures
            text@ == "Bowl of marbles for habit "@ + self.habit.name@,
    {
        let mut text = String::from_str("Bowl of marbles for habit ");
        text.append(self.habit.name.as_str());
        text
    }

    /// The picture on `canvas`: the label, in a box that takes the middle
    /// half of the canvas each way.
    pub fn render(&self, canvas: &Rect) -> (picture: Picture)
        ensures
            is_bowl(picture, *self.habit, *canvas),
    {
        let area = centered_rect(*canvas, 50, 50);
        Picture::Label { area, text: self.label() }
    }
}

} // verus!
