//! The state of a session and the reducer that takes it from one input event
//! to the next.
//!
//! A session is running until a quit key arrives, and has exited from then
//! on. The run loop draws the state, waits a moment for an event, reduces,
//! and repeats while the state asks to be drawn.

use crate::habit::Habit;
use crate::show::layout::Regions;
use crate::show::viz::VISUALIZER_COUNT;
use vstd::prelude::*;

verus! {

/// The key of a key press.
#[derive(Debug, Clone, Copy, PartialEq, Eq, Structural)]
pub enum KeyCode {
    Char(char),
    Up,
    Down,
    Home,
    End,
    Enter,
    Tab,
    BackTab,
    Esc,
    /// Any other key.
    Other,
}

/// What a poll of the terminal brought.
#[derive(Debug, Clone, Copy, PartialEq, Eq, Structural)]
pub enum Event {
    /// A key was pressed.
    Key(KeyCode),
    /// The mouse moved to a cell.
    MouseMove { column: u16, row: u16 },
    /// A mouse button was pressed on a cell.
    MouseClick { column: u16, row: u16 },
    /// The terminal has a new size.
    Resize { width: u16, height: u16 },
    /// Nothing happened before the poll timed out.
    Idle,
}

/// What an event asks of a running session.
#[derive(Debug, Clone, Copy, PartialEq, Eq, Structural)]
pub enum Intent {
    Quit,
    CursorDown,
    CursorUp,
    CursorHome,
    CursorEnd,
    Select,
    NextVisualizer,
    PreviousVisualizer,
    Hover { column: u16, row: u16 },
    Nothing,
}

impl Event {
    /// What the event asks for.
    pub open spec fn intent(self) -> Intent {
        match self {
            Event::Key(KeyCode::Char('q')) | Event::Key(KeyCode::Esc) => Intent::Quit,
            Event::Key(KeyCode::Char('j')) | Event::Key(KeyCode::Down) => Intent::CursorDown,
            Event::Key(KeyCode::Char('k')) | Event::Key(KeyCode::Up) => Intent::CursorUp,
            Event::Key(KeyCode::Char('g')) | Event::Key(KeyCode::Home) => Intent::CursorHome,
            Event::Key(KeyCode::Char('G')) | Event::Key(KeyCode::End) => Intent::CursorEnd,
            Event::Key(KeyCode::Enter) => Intent::Select,
            Event::Key(KeyCode::Tab) => Intent::NextVisualizer,
            Event::Key(KeyCode::BackTab) => Intent::PreviousVisualizer,
            Event::MouseMove { column, row } => Intent::Hover { column, row },
            _ => Intent::Nothing,
        }
    }

    /// Whether the event is a press of a quit key, `q` or Esc.
    pub open spec fn is_quit(self) -> bool {
        self.intent() == Intent::Quit
    }

    /// Whether the event moves the cursor of the list: up, down, home or end.
    pub open spec fn is_navigation(self) -> bool {
        let intent = self.intent();
        intent == Intent::CursorDown || intent == Intent::CursorUp || intent == Intent::CursorHome
            || intent == Intent::CursorEnd
    }

    /// What the event asks for.
    pub fn classify(&self) -> (intent: Intent)
        ensures
            intent == self.intent(),
    {
        match *self {
            Event::Key(code) => match code {
                KeyCode::Char(c) => if c == 'q' {
                    Intent::Quit
                } else if c == 'j' {
                    Intent::CursorDown
                } else if c == 'k' {
                    Intent::CursorUp
                } else if c == 'g' {
                    Intent::CursorHome
                } else if c == 'G' {
                    Intent::CursorEnd
                } else {
                    Intent::Nothing
                },
                KeyCode::Esc => Intent::Quit,
                KeyCode::Down => Intent::CursorDown,
                KeyCode::Up => Intent::CursorUp,
                KeyCode::Home => Intent::CursorHome,
                KeyCode::End => Intent::CursorEnd,
                KeyCode::Enter => Intent::Select,
                KeyCode::Tab => Intent::NextVisualizer,
                KeyCode::BackTab => Intent::PreviousVisualizer,
                KeyCode::Other => Intent::Nothing,
            },
            Event::MouseMove { column, row } => Intent::Hover { column, row },
            _ => Intent::Nothing,
        }
    }
}

/// Why a session cannot start.
#[derive(Debug, Clone, Copy, PartialEq, Eq, Structural)]
pub enum StartError {
    /// There is no habit to show.
    NoHabits,
    /// The habit to select is not in the list.
    SelectionOutOfRange,
}

/// The state of a session.
#[derive(Debug, Clone)]
pub struct AppState {
    /// The habits, as they were when the session began.
    pub habits: Vec<Habit>,
    /// The index of the habit that the canvas shows.
    pub selected_habit: usize,
    /// The index of the visualizer that draws the canvas.
    pub selected_visualizer: usize,
    /// The index of the habit that the cursor of the list is on.
    pub cursor: usize,
    /// Whether the mouse is on the bar of tabs.
    pub tabs_hovered: bool,
    /// Whether the mouse is on the list of habits.
    pub list_hovered: bool,
    /// Whether the session has ended.
    pub exited: bool,
}

impl AppState {
    /// Whether there is a habit and the three indices are in range.
    pub open spec fn wf(self) -> bool {
        &&& self.habits@.len() > 0
        &&& self.selected_habit < self.habits@.len()
        &&& self.cursor < self.habits@.len()
        &&& self.selected_visualizer < VISUALIZER_COUNT
    }

    /// The state in which a session over `habits` starts, with habit
    /// `selected` shown and under the cursor.
    pub open spec fn initial(habits: Vec<Habit>, selected: usize) -> AppState {
        AppState {
            habits,
            selected_habit: selected,
            selected_visualizer: 0,
            cursor: selected,
            tabs_hovered: false,
            list_hovered: false,
            exited: false,
        }
    }

    /// The state that follows `self` on `event`, while the screen is laid
    /// out as `regions`.
    pub open spec fn next(self, event: Event, regions: Regions) -> AppState {
        if self.exited {
            self
        } else {
            match event.intent() {
                Intent::Quit => AppState { exited: true, ..self },
                Intent::CursorDown => AppState {
                    cursor: if self.cursor + 1 < self.habits@.len() {
                        (self.cursor + 1) as usize
                    } else {
                        self.cursor
                    },
                    ..self
                },
                Intent::CursorUp => AppState {
                    cursor: if self.cursor > 0 {
                        (self.cursor - 1) as usize
                    } else {
                        self.cursor
                    },
                    ..self
                },
                Intent::CursorHome => AppState { cursor: 0, ..self },
                Intent::CursorEnd => AppState {
                    cursor: (self.habits@.len() - 1) as usize,
                    ..self
                },
                Intent::Select => AppState { selected_habit: self.cursor, ..self },
                Intent::NextVisualizer => AppState {
                    selected_visualizer: ((self.selected_visualizer + 1) % (
                    VISUALIZER_COUNT as int)) as usize,
                    ..self
                },
                Intent::PreviousVisualizer => AppState {
                    selected_visualizer: ((self.selected_visualizer - 1 + VISUALIZER_COUNT) % (
                    VISUALIZER_COUNT as int)) as usize,
                    ..self
                },
                Intent::Hover { column, row } => AppState {
                    tabs_hovered: regions.tabs.holds(column as int, row as int),
                    list_hovered: regions.list.holds(column as int, row as int),
                    ..self
                },
                Intent::Nothing => self,
            }
        }
    }

    /// The state after the events of `events`, one after the other.
    pub open spec fn after(self, events: Seq<Event>, regions: Regions) -> AppState
        decreases events.len(),
    {
        if events.len() == 0 {
            self
        } else {
            self.after(events.drop_last(), regions).next(events.last(), regions)
        }
    }

    /// Whether the run loop is to draw the state and poll again. It is not
    /// once the session has exited.
    pub open spec fn wants_draw(self) -> bool {
        !self.exited
    }

    /// The state in which a session starts: habit `selected` is shown and
    /// under the cursor, the first visualizer draws it, and the mouse is
    /// nowhere. An empty list and a selection outside the list are refused.
    pub fn build(habits: Vec<Habit>, selected: usize) -> (result: Result<AppState, StartError>)
        ensures
            habits@.len() == 0 ==> result == Err::<AppState, StartError>(StartError::NoHabits),
            0 < habits@.len() <= selected ==> result == Err::<AppState, StartError>(
                StartError::SelectionOutOfRange,
            ),
            selected < habits@.len() ==> result == Ok::<AppState, StartError>(
                AppState::initial(habits, selected),
            ),
            result matches Ok(state) ==> state.wf(),
    {
        if habits.len() == 0 {
            Err(StartError::NoHabits)
        } else if selected >= habits.len() {
            Err(StartError::SelectionOutOfRange)
        } else {
            Ok(
                AppState {
                    habits,
                    selected_habit: selected,
                    selected_visualizer: 0,
                    cursor: selected,
                    tabs_hovered: false,
                    list_hovered: false,
                    exited: false,
                },
            )
        }
    }

    /// The state that follows on `event`, while the screen is laid out as
    /// `regions`. Every event has a next state; an exited session stays as
    /// it is.
    pub fn reduce(self, event: Event, regions: &Regions) -> (next: AppState)
        requires
            self.wf(),
        ensures
            next == self.next(event, *regions),
            next.wf(),
            next.habits == self.habits,
            self.exited ==> next == self,
            event.is_quit() ==> next.exited,
            !event.is_quit() ==> next.exited == self.exited,
    {
        if self.exited {
            return self;
        }
        let mut state = self;
        match event.classify() {
            Intent::Quit => {
                state.exited = true;
            },
            Intent::CursorDown => {
                if state.cursor < state.habits.len() - 1 {
                    state.cursor = state.cursor + 1;
                }
            },
            Intent::CursorUp => {
                if state.cursor > 0 {
                    state.cursor = state.cursor - 1;
                }
            },
            Intent::CursorHome => {
                state.cursor = 0;
            },
            Intent::CursorEnd => {
                state.cursor = state.habits.len() - 1;
            },
            Intent::Select => {
                state.selected_habit = state.cursor;
            },
            Intent::NextVisualizer => {
                state.selected_visualizer = (state.selected_visualizer + 1) % VISUALIZER_COUNT;
            },
            Intent::PreviousVisualizer => {
                state.selected_visualizer = (state.selected_visualizer + VISUALIZER_COUNT - 1)
                    % VISUALIZER_COUNT;
            },
            Intent::Hover { column, row } => {
                state.tabs_hovered = regions.tabs.contains(column, row);
                state.list_hovered = regions.list.contains(column, row);
            },
            Intent::Nothing => {},
        }
        state
    }

    /// Whether there is a habit and the three indices are in range.
    pub fn check(&self) -> (fine: bool)
        ensures
            fine == self.wf(),
    {
        self.habits.len() > 0 && self.selected_habit < self.habits.len() && self.cursor
            < self.habits.len() && self.selected_visualizer < VISUALIZER_COUNT
    }

    /// Whether the run loop is to draw the state and poll again.
    pub fn should_draw(&self) -> (draw: bool)
        ensures
            draw == self.wants_draw(),
            draw == !self.exited,
    {
        !self.exited
    }
}

/// Whatever the events, the state stays well formed and keeps its habits: the
/// cursor stays on a habit of the list, and so do the two selections.
pub proof fn lemma_indices_stay_in_range(state: AppState, events: Seq<Event>, regions: Regions)
    requires
        state.wf(),
    ensures
        state.after(events, regions).wf(),
        state.after(events, regions).habits == state.habits,
        0 <= state.after(events, regions).cursor < state.habits@.len(),
    decreases events.len(),
{
    if events.len() > 0 {
        lemma_indices_stay_in_range(state, events.drop_last(), regions);
    }
}

/// The events that are `count` presses of the key `code`.
pub open spec fn presses(code: KeyCode, count: nat) -> Seq<Event> {
    Seq::new(count, |i: int| Event::Key(code))
}

/// As many presses of Tab as there are visualizers bring a running session
/// back to the state it was in, and so do as many presses of Shift+Tab. One
/// press of either undoes one press of the other.
pub proof fn lemma_visualizers_cycle(state: AppState, regions: Regions)
    requires
        state.wf(),
        !state.exited,
    ensures
        state.after(presses(KeyCode::Tab, VISUALIZER_COUNT as nat), regions) == state,
        state.after(presses(KeyCode::BackTab, VISUALIZER_COUNT as nat), regions) == state,
        state.next(Event::Key(KeyCode::Tab), regions).next(Event::Key(KeyCode::BackTab), regions)
            == state,
        state.next(Event::Key(KeyCode::BackTab), regions).next(Event::Key(KeyCode::Tab), regions)
            == state,
{
    lemma_two_presses(state, KeyCode::Tab, regions);
    lemma_two_presses(state, KeyCode::BackTab, regions);
}

/// Two presses of a key are one after the other.
proof fn lemma_two_presses(state: AppState, code: KeyCode, regions: Regions)
    ensures
        state.after(presses(code, 2), regions) == state.next(Event::Key(code), regions).next(
            Event::Key(code),
            regions,
        ),
{
    let two = presses(code, 2);
    let one = two.drop_last();
    assert(one.drop_last().len() == 0);
    assert(state.after(one.drop_last(), regions) == state);
    assert(one.last() == Event::Key(code));
    assert(two.last() == Event::Key(code));
    assert(state.after(one, regions) == state.next(Event::Key(code), regions));
}

/// A quit key ends the session from any state, and nothing that comes after
/// brings it back: the state stays as the quit key left it and never asks to
/// be drawn again.
pub proof fn lemma_quit_is_final(
    state: AppState,
    quit: Event,
    later: Seq<Event>,
    regions: Regions,
)
    requires
        quit.is_quit(),
    ensures
        state.next(quit, regions).exited,
        state.next(quit, regions).after(later, regions) == state.next(quit, regions),
        !state.next(quit, regions).after(later, regions).wants_draw(),
    decreases later.len(),
{
    if later.len() > 0 {
        lemma_quit_is_final(state, quit, later.drop_last(), regions);
    }
}

/// Whether `a` and `b` are the same but for where the mouse is.
pub open spec fn same_but_hover(a: AppState, b: AppState) -> bool {
    b == (AppState { tabs_hovered: b.tabs_hovered, list_hovered: b.list_hovered, ..a })
}

/// Where the mouse is changes nothing but the two hover flags, and the hover
/// flags change nothing of what a key does: keys always act on the list.
pub proof fn lemma_hover_routes_nothing(
    state: AppState,
    twin: AppState,
    event: Event,
    regions: Regions,
    other: Regions,
)
    requires
        same_but_hover(state, twin),
    ensures
        event is MouseMove ==> same_but_hover(state, state.next(event, regions)),
        !(event is MouseMove) ==> {
            &&& state.next(event, regions) == state.next(event, other)
            &&& state.next(event, regions).tabs_hovered == state.tabs_hovered
            &&& state.next(event, regions).list_hovered == state.list_hovered
            &&& same_but_hover(state.next(event, regions), twin.next(event, regions))
        },
{
}

} // verus!
