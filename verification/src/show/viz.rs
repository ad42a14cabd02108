//! The visualizers of a habit's progress.

pub mod bowl_of_marbles;
pub mod heatmap;

pub use bowl_of_marbles::BowlOfMarbles;
pub use heatmap::HeatMap;

use crate::habit::Habit;
use crate::show::grid::CalendarGrid;
use crate::show::layout::Rect;
use crate::show::viz::bowl_of_marbles::is_bowl;
use crate::show::viz::heatmap::is_heat_map;
use vstd::prelude::*;

verus! {

/// The colour of a glyph.
#[derive(Debug, Clone, Copy, PartialEq, Eq, Structural)]
pub enum Tone {
    /// The colour of the terminal.
    Plain,
    /// The colour of what was done.
    Affirmative,
    /// The colour of what was missed.
    Negative,
}

/// How a character cell is drawn.
#[derive(Debug, Clone, Copy, PartialEq, Eq, Structural)]
pub struct CellStyle {
    pub tone: Tone,
    pub bold: bool,
    pub dim: bool,
    /// Whether the cell has the background that marks today.
    pub highlighted: bool,
}

/// One character cell of the terminal with what is drawn in it.
#[derive(Debug, Clone, Copy, PartialEq, Eq, Structural)]
pub struct StyledCell {
    pub column: u16,
    pub row: u16,
    pub symbol: char,
    pub style: CellStyle,
}

/// What a visualizer draws on the canvas.
#[derive(Debug, Clone)]
pub enum Picture {
    /// Single cells, all of them within `frame`.
    Cells { frame: Rect, cells: Vec<StyledCell> },
    /// A text in a box that fills `area`.
    Label { area: Rect, text: String },
}

/// The number of visualizers.
pub const VISUALIZER_COUNT: usize = 2;

/// A way to draw the progress of a habit.
#[derive(Debug, Clone, Copy, PartialEq, Eq, Structural)]
pub enum ProgressVisualizer {
    HeatMap,
    BowlOfMarbles,
}

impl ProgressVisualizer {
    /// The visualizer of tab `index`.
    pub open spec fn at(index: int) -> ProgressVisualizer {
        if index == 0 {
            ProgressVisualizer::HeatMap
        } else {
            ProgressVisualizer::BowlOfMarbles
        }
    }

    /// The visualizer of tab `index`, or `None` where there is no such tab.
    pub fn from_index(index: usize) -> (visualizer: Option<ProgressVisualizer>)
        ensures
            index < VISUALIZER_COUNT ==> visualizer == Some(ProgressVisualizer::at(index as int)),
            index >= VISUALIZER_COUNT ==> visualizer.is_none(),
    {
        if index == 0 {
            Some(ProgressVisualizer::HeatMap)
        } else if index == 1 {
            Some(ProgressVisualizer::BowlOfMarbles)
        } else {
            None
        }
    }

    /// The visualizer of tab `index`.
    pub fn of(index: usize) -> (visualizer: ProgressVisualizer)
        requires
            index < VISUALIZER_COUNT,
        ensures
            visualizer == ProgressVisualizer::at(index as int),
    {
        if index == 0 {
            ProgressVisualizer::HeatMap
        } else {
            ProgressVisualizer::BowlOfMarbles
        }
    }

    /// Whether the visualizer draws the calendar grid of the habit.
    pub fn uses_grid(&self) -> (uses: bool)
        ensures
            uses == (*self is HeatMap),
    {
        match self {
            ProgressVisualizer::HeatMap => true,
            ProgressVisualizer::BowlOfMarbles => false,
        }
    }

    /// Whether `picture` is what the visualizer draws of `habit` on
    /// `canvas`, with `grid` where it uses one: the heat map of the grid,
    /// or the label of the bowl of marbles, each in the middle of the
    /// canvas.
    pub open spec fn draws(
        self,
        habit: Habit,
        grid: Option<&CalendarGrid>,
        canvas: Rect,
        picture: Picture,
    ) -> bool {
        match self {
            ProgressVisualizer::HeatMap => grid matches Some(grid) && is_heat_map(
                picture,
                *grid,
                canvas,
            ),
            ProgressVisualizer::BowlOfMarbles => is_bowl(picture, habit, canvas),
        }
    }

    /// What the visualizer draws of `habit` on `canvas`. A visualizer that
    /// uses the calendar grid of the habit is handed it as `grid`.
    pub fn render(&self, habit: &Habit, grid: Option<&CalendarGrid>, canvas: &Rect) -> (picture:
        Picture)
        requires
            *self is HeatMap ==> grid is Some,
            grid matches Some(grid) ==> grid.wf(),
        ensures
            self.draws(*habit, grid, *canvas, picture),
    {
        match self {
            ProgressVisualizer::HeatMap => match grid {
                Some(grid) => HeatMap::new(habit).render(grid, canvas),
                None => vstd::pervasive::unreached(),
            },
            ProgressVisualizer::BowlOfMarbles => BowlOfMarbles::new(habit).render(canvas),
        }
    }

    /// The title of the visualizer's tab.
    pub fn title(&self) -> (title: String)
        ensures
            title@ == match *self {
                ProgressVisualizer::HeatMap => "Heatmap"@,
                ProgressVisualizer::BowlOfMarbles => "Bowl of marbles"@,
            },
    {
        match self {
            ProgressVisualizer::HeatMap => String::from_str("Heatmap"),
            ProgressVisualizer::BowlOfMarbles => String::from_str("Bowl of marbles"),
        }
    }
}

} // verus!
