//! The command that shows the progress of the habits: what it asks of the
//! store before the session starts, and what a session draws.

use crate::calendar::{Date, MAX_YEAR, MIN_YEAR};
use crate::engine::{Engine, Reply, Request};
use crate::habit::Habit;
use crate::show::cli::ShowCli;
use crate::show::grid::CalendarGrid;
use crate::show::layout::{Rect, Regions};
use crate::show::state::AppState;
use crate::show::viz::{HeatMap, Picture, ProgressVisualizer};
use crate::utils::{same_text, texts};
use vstd::prelude::*;
use vstd::string::StringExecFns;

verus! {

/// Whether `index` is the first place of `habits` with a habit called
/// `name`.
pub open spec fn is_position(habits: Seq<Habit>, name: Seq<char>, index: int) -> bool {
    &&& 0 <= index < habits.len()
    &&& habits[index].name@ == name
    &&& forall|k: int| 0 <= k < index ==> (#[trigger] habits[k]).name@ != name
}

/// The first place of `habits` with a habit called `name`, if there is one.
pub fn position(habits: &Vec<Habit>, name: &str) -> (found: Option<usize>)
    ensures
        found matches Some(index) ==> is_position(habits@, name@, index as int),
        found.is_none() ==> forall|k: int|
            0 <= k < habits@.len() ==> (#[trigger] habits@[k]).name@ != name@,
{
    let mut i: usize = 0;
    while i < habits.len()
        invariant
            i <= habits@.len(),
            forall|k: int| 0 <= k < i ==> (#[trigger] habits@[k]).name@ != name@,
        decreases habits@.len() - i,
    {
        if same_text(habits[i].name.as_str(), name) {
            return Some(i);
        }
        i += 1;
    }
    None
}

/// The dates of each list of `logs`.
pub open spec fn dates(logs: Seq<Vec<Date>>) -> Seq<Seq<Date>> {
    Seq::new(logs.len(), |i: int| logs[i]@)
}

/// Whether `logs` has a list of dates of the calendar for each of
/// `habits` habits.
pub open spec fn logs_fit(logs: Seq<Vec<Date>>, habits: nat) -> bool {
    &&& logs.len() == habits
    &&& forall|i: int, j: int|
        0 <= i < logs.len() && 0 <= j < logs[i]@.len() ==> (#[trigger] logs[i]@[j]).valid()
}

/// Whether `copy` holds, habit for habit, what `habits` holds.
pub open spec fn same_habits(habits: Seq<Habit>, copy: Seq<Habit>) -> bool {
    &&& copy.len() == habits.len()
    &&& forall|i: int| 0 <= i < habits.len() ==> (#[trigger] habits[i]).same_as(copy[i])
}

/// Whether `logs` has a list of dates of the calendar for each of `habits`
/// habits.
pub fn check_logs(logs: &Vec<Vec<Date>>, habits: usize) -> (fit: bool)
    ensures
        fit == logs_fit(logs@, habits as nat),
{
    if logs.len() != habits {
        return false;
    }
    let mut i: usize = 0;
    while i < logs.len()
        invariant
            i <= logs@.len(),
            logs@.len() == habits,
            forall|a: int, b: int|
                0 <= a < i && 0 <= b < logs@[a]@.len() ==> (#[trigger] logs@[a]@[b]).valid(),
        decreases logs@.len() - i,
    {
        let list = &logs[i];
        let mut j: usize = 0;
        while j < list.len()
            invariant
                j <= list@.len(),
                i < logs@.len(),
                list@ == logs@[i as int]@,
                logs@.len() == habits,
                forall|b: int| 0 <= b < j ==> (#[trigger] list@[b]).valid(),
            decreases list@.len() - j,
        {
            if !list[j].is_valid() {
                assert(!logs@[i as int]@[j as int].valid());
                return false;
            }
            j += 1;
        }
        i += 1;
    }
    true
}

/// The habits of `habits`, in a vector of their own.
pub fn copy_habits(habits: &Vec<Habit>) -> (copy: Vec<Habit>)
    ensures
        same_habits(habits@, copy@),
{
    let mut copy: Vec<Habit> = Vec::new();
    let mut i: usize = 0;
    while i < habits.len()
        invariant
            i <= habits@.len(),
            copy@.len() == i,
            forall|k: int| 0 <= k < i ==> (#[trigger] habits@[k]).same_as(copy@[k]),
        decreases habits@.len() - i,
    {
        copy.push(habits[i].copy());
        i += 1;
    }
    copy
}

/// The lists of `logs`, in vectors of their own.
pub fn copy_logs(logs: &Vec<Vec<Date>>) -> (copy: Vec<Vec<Date>>)
    ensures
        dates(copy@) == dates(logs@),
{
    let mut copy: Vec<Vec<Date>> = Vec::new();
    let mut i: usize = 0;
    while i < logs.len()
        invariant
            i <= logs@.len(),
            copy@.len() == i,
            forall|k: int| 0 <= k < i ==> (#[trigger] copy@[k])@ == logs@[k]@,
        decreases logs@.len() - i,
    {
        let list = &logs[i];
        let mut dates_of: Vec<Date> = Vec::new();
        let mut j: usize = 0;
        while j < list.len()
            invariant
                j <= list@.len(),
                dates_of@ == list@.take(j as int),
            decreases list@.len() - j,
        {
            dates_of.push(list[j]);
            assert(dates_of@ =~= list@.take(j + 1));
            j += 1;
        }
        assert(list@.take(list@.len() as int) =~= list@);
        copy.push(dates_of);
        i += 1;
    }
    assert(dates(copy@) =~= dates(logs@));
    copy
}

/// How far the command has come.
#[derive(Debug, Clone, Copy, PartialEq, Eq, Structural)]
pub enum ShowStage {
    /// Nothing was asked yet.
    Start,
    /// The store is asked for the habit to show first.
    Finding,
    /// The store is asked for all habits.
    Listing,
    /// The store is asked for the logs of the habits.
    Reading,
    /// The habit to show first is not among the habits.
    Broken,
    /// The logs do not go with the habits: there is not one list for each
    /// habit, or a date is none of the calendar.
    Mismatched,
    /// The session runs.
    Showing,
    /// The session is over.
    Done,
}

/// The engine that shows the progress of the habits.
#[derive(Debug, Clone)]
pub struct ShowEngine {
    /// The name of the habit to show first, if the user gave one.
    pub habit: Option<String>,
    /// The name of the habit to show first, once the store has told it.
    pub first: String,
    /// The habits, once the store has told them.
    pub habits: Vec<Habit>,
    /// The logs of the habits, once the store has told them.
    pub logs: Vec<Vec<Date>>,
    /// The place of the habit to show first among the habits.
    pub selected: usize,
    pub stage: ShowStage,
}

/// The engine that shows the progress of the habits, first that of the
/// habit that `cli` names.
pub fn get_engine(cli: ShowCli) -> (engine: ShowEngine)
    ensures
        engine.habit == cli.habit,
        engine.stage == ShowStage::Start,
        engine.habits@.len() == 0,
        engine.logs@.len() == 0,
        engine.selected == 0,
{
    ShowEngine {
        habit: cli.habit,
        first: String::new(),
        habits: Vec::new(),
        logs: Vec::new(),
        selected: 0,
        stage: ShowStage::Start,
    }
}

impl ShowEngine {
    /// Whether `next` is what `self` becomes on `reply`: it asks for the
    /// habit to show first, for all habits and for their logs, and starts
    /// the session on the first habit of that name. It gives up where no
    /// habit has that name, and where one has but the logs do not go with
    /// the habits.
    pub open spec fn becomes(self, reply: Reply, next: ShowEngine) -> bool {
        &&& next.habit == self.habit
        &&& match (self.stage, reply) {
            (ShowStage::Start, _) => {
                &&& next.stage == ShowStage::Finding
                &&& next.first == self.first
                &&& next.habits == self.habits
                &&& next.logs == self.logs
                &&& next.selected == self.selected
            },
            (ShowStage::Finding, Reply::Found { habit }) => {
                &&& next.stage == ShowStage::Listing
                &&& next.first == habit.name
                &&& next.habits == self.habits
                &&& next.logs == self.logs
                &&& next.selected == self.selected
            },
            (ShowStage::Listing, Reply::Habits { habits }) => {
                &&& next.stage == ShowStage::Reading
                &&& next.first == self.first
                &&& next.habits == habits
                &&& next.logs == self.logs
                &&& next.selected == self.selected
            },
            (ShowStage::Reading, Reply::Logs { logs }) => {
                &&& next.first == self.first
                &&& next.habits == self.habits
                &&& next.logs == logs
                &&& if !exists|index: int| is_position(self.habits@, self.first@, index) {
                    &&& next.stage == ShowStage::Broken
                    &&& next.selected == self.selected
                } else if !logs_fit(logs@, self.habits@.len()) {
                    &&& next.stage == ShowStage::Mismatched
                    &&& next.selected == self.selected
                } else {
                    &&& next.stage == ShowStage::Showing
                    &&& is_position(self.habits@, self.first@, next.selected as int)
                }
            },
            (ShowStage::Showing, Reply::Shown) => {
                &&& next.stage == ShowStage::Done
                &&& next.first == self.first
                &&& next.habits == self.habits
                &&& next.logs == self.logs
                &&& next.selected == self.selected
            },
            _ => next == self,
        }
    }

    /// Whether `request` is what the engine asks at its stage.
    pub open spec fn asks(self, request: Request) -> bool {
        match self.stage {
            ShowStage::Start | ShowStage::Finding => request matches Request::Find { habit }
                && habit == self.habit,
            ShowStage::Listing => request is ListHabits,
            ShowStage::Reading => request is Logs,
            ShowStage::Broken => request matches Request::Abort { message } && message@
                == "Initial habit comes from database, so should be within all the habits"@,
            ShowStage::Mismatched => request matches Request::Abort { message } && message@
                == "Logs come from database, so there should be a list of dates for each habit"@,
            ShowStage::Showing => request matches Request::Show { habits, logs, selected }
                && same_habits(self.habits@, habits@) && dates(logs@) == dates(self.logs@)
                && selected == self.selected,
            ShowStage::Done => request is Finish,
        }
    }

    /// What the engine asks at its stage.
    pub fn request(&self) -> (request: Request)
        ensures
            self.asks(request),
    {
        match self.stage {
            ShowStage::Start | ShowStage::Finding => Request::Find { habit: self.habit.clone() },
            ShowStage::Listing => Request::ListHabits,
            ShowStage::Reading => Request::Logs,
            ShowStage::Broken => Request::Abort {
                message: String::from_str(
                    "Initial habit comes from database, so should be within all the habits",
                ),
            },
            ShowStage::Mismatched => Request::Abort {
                message: String::from_str(
                    "Logs come from database, so there should be a list of dates for each habit",
                ),
            },
            ShowStage::Showing => Request::Show {
                habits: copy_habits(&self.habits),
                logs: copy_logs(&self.logs),
                selected: self.selected,
            },
            ShowStage::Done => Request::Finish,
        }
    }
}

impl Engine for ShowEngine {
    open spec fn follows(&self, reply: Reply, next: &Self, request: Request) -> bool {
        self.becomes(reply, *next) && next.asks(request)
    }

    fn step(&mut self, reply: Reply) -> (request: Request) {
        match self.stage {
            ShowStage::Start => {
                self.stage = ShowStage::Finding;
            },
            ShowStage::Finding => match reply {
                Reply::Found { habit } => {
                    self.first = habit.name;
                    self.stage = ShowStage::Listing;
                },
                _ => {},
            },
            ShowStage::Listing => match reply {
                Reply::Habits { habits } => {
                    self.habits = habits;
                    self.stage = ShowStage::Reading;
                },
                _ => {},
            },
            ShowStage::Reading => match reply {
                Reply::Logs { logs } => {
                    self.logs = logs;
                    let fit = check_logs(&self.logs, self.habits.len());
                    match position(&self.habits, self.first.as_str()) {
                        Some(index) => {
                            if fit {
                                self.selected = index;
                                self.stage = ShowStage::Showing;
                            } else {
                                self.stage = ShowStage::Mismatched;
                            }
                        },
                        None => {
                            self.stage = ShowStage::Broken;
                        },
                    }
                },
                _ => {},
            },
            ShowStage::Showing => match reply {
                Reply::Shown => {
                    self.stage = ShowStage::Done;
                },
                _ => {},
            },
            _ => {},
        }
        self.request()
    }
}

/// The bar of tabs as it is drawn.
#[derive(Debug, Clone)]
pub struct TabBar {
    pub area: Rect,
    /// The titles of the tabs, one for each visualizer.
    pub titles: Vec<String>,
    /// The index of the tab that is set off as the selected one.
    pub selected: usize,
    /// Whether the border is set off because the mouse is on the bar.
    pub hovered: bool,
}

/// One entry of the list of habits as it is drawn.
#[derive(Debug, Clone)]
pub struct ListEntry {
    /// The name of the habit.
    pub name: String,
    /// Whether the cursor is on the entry: it is set off, after a mark.
    pub pointed: bool,
    /// Whether the canvas shows this habit.
    pub shown: bool,
}

/// The list of habits as it is drawn.
#[derive(Debug, Clone)]
pub struct HabitList {
    pub area: Rect,
    pub entries: Vec<ListEntry>,
    /// Whether the border is set off because the mouse is on the list.
    pub hovered: bool,
}

/// All that a session draws for one state.
#[derive(Debug, Clone)]
pub struct Scene {
    pub tabs: TabBar,
    pub list: HabitList,
    /// The region of the picture.
    pub canvas: Rect,
    /// What the selected visualizer draws of the selected habit.
    pub picture: Picture,
}

/// Whether `tabs` is the bar of tabs of `state` in `area`.
pub open spec fn is_tab_bar(tabs: TabBar, state: AppState, area: Rect) -> bool {
    &&& tabs.area == area
    &&& texts(tabs.titles@) == seq!["Heatmap"@, "Bowl of marbles"@]
    &&& tabs.selected == state.selected_visualizer
    &&& tabs.hovered == state.tabs_hovered
}

/// Whether `list` is the list of the habits of `state` in `area`: an entry
/// for each habit, in their order, the one under the cursor pointed at.
pub open spec fn is_habit_list(list: HabitList, state: AppState, area: Rect) -> bool {
    &&& list.area == area
    &&& list.hovered == state.list_hovered
    &&& list.entries@.len() == state.habits@.len()
    &&& forall|i: int|
        0 <= i < list.entries@.len() ==> {
            &&& (#[trigger] list.entries@[i]).name == state.habits@[i].name
            &&& list.entries@[i].pointed == (i == state.cursor)
            &&& list.entries@[i].shown == (i == state.selected_habit)
        }
}

/// Whether `picture` is what the visualizer of tab `visualizer` draws on
/// `canvas` of `habit` with the logs `logs`, for `year` as it stands on
/// `today`. The heat map is that of the calendar grid of the habit.
pub open spec fn is_picture(
    picture: Picture,
    canvas: Rect,
    visualizer: int,
    habit: Habit,
    logs: Seq<Date>,
    year: int,
    today: Date,
) -> bool {
    match ProgressVisualizer::at(visualizer) {
        ProgressVisualizer::HeatMap => exists|grid: CalendarGrid| #[trigger]
            grid.is_grid_of(year, today, habit.days@, logs) && ProgressVisualizer::HeatMap.draws(
                habit,
                Some(&grid),
                canvas,
                picture,
            ),
        ProgressVisualizer::BowlOfMarbles => ProgressVisualizer::BowlOfMarbles.draws(
            habit,
            None,
            canvas,
            picture,
        ),
    }
}

/// Whether `scene` is what is drawn for `state` on a screen laid out as
/// `regions`.
pub open spec fn is_scene(
    scene: Scene,
    state: AppState,
    regions: Regions,
    logs: Seq<Vec<Date>>,
    year: int,
    today: Date,
) -> bool {
    &&& is_tab_bar(scene.tabs, state, regions.tabs)
    &&& is_habit_list(scene.list, state, regions.list)
    &&& scene.canvas == regions.canvas
    &&& is_picture(
        scene.picture,
        regions.canvas,
        state.selected_visualizer as int,
        state.habits@[state.selected_habit as int],
        logs[state.selected_habit as int]@,
        year,
        today,
    )
}

/// The bar of tabs of `state` in `area`.
pub fn tab_bar(state: &AppState, area: Rect) -> (tabs: TabBar)
    ensures
        is_tab_bar(tabs, *state, area),
{
    let mut titles: Vec<String> = Vec::new();
    titles.push(ProgressVisualizer::HeatMap.title());
    titles.push(ProgressVisualizer::BowlOfMarbles.title());
    assert(texts(titles@) =~= seq!["Heatmap"@, "Bowl of marbles"@]);
    TabBar { area, titles, selected: state.selected_visualizer, hovered: state.tabs_hovered }
}

/// The list of the habits of `state` in `area`.
pub fn habit_list(state: &AppState, area: Rect) -> (list: HabitList)
    ensures
        is_habit_list(list, *state, area),
{
    let mut entries: Vec<ListEntry> = Vec::new();
    let mut i: usize = 0;
    while i < state.habits.len()
        invariant
            i <= state.habits@.len(),
            entries@.len() == i,
            forall|k: int|
                0 <= k < i ==> {
                    &&& (#[trigger] entries@[k]).name == state.habits@[k].name
                    &&& entries@[k].pointed == (k == state.cursor)
                    &&& entries@[k].shown == (k == state.selected_habit)
                },
        decreases state.habits@.len() - i,
    {
        entries.push(
            ListEntry {
                name: state.habits[i].name.clone(),
                pointed: i == state.cursor,
                shown: i == state.selected_habit,
            },
        );
        i += 1;
    }
    HabitList { area, entries, hovered: state.list_hovered }
}

/// What is drawn for `state` on a screen laid out as `regions`: the bar of
/// tabs, the list of habits, and on the canvas what the selected visualizer
/// makes of the selected habit and its logs, for `year` as it stands on
/// `today`.
pub fn render_in(
    state: &AppState,
    regions: &Regions,
    logs: &Vec<Vec<Date>>,
    year: i32,
    today: &Date,
) -> (scene: Scene)
    requires
        state.wf(),
        logs_fit(logs@, state.habits@.len()),
        MIN_YEAR <= year <= MAX_YEAR,
        today.valid(),
    ensures
        is_scene(scene, *state, *regions, logs@, year as int, *today),
{
    let habit = &state.habits[state.selected_habit];
    let visualizer = ProgressVisualizer::of(state.selected_visualizer);
    let picture = if visualizer.uses_grid() {
        let grid = HeatMap::new(habit).grid(year, today, &logs[state.selected_habit]);
        visualizer.render(habit, Some(&grid), &regions.canvas)
    } else {
        visualizer.render(habit, None, &regions.canvas)
    };
    Scene {
        tabs: tab_bar(state, regions.tabs),
        list: habit_list(state, regions.list),
        canvas: regions.canvas,
        picture,
    }
}

/// What is drawn for `state` on a screen of the size of `area`, laid out
/// by `Regions::compose`.
pub fn render(state: &AppState, area: &Rect, logs: &Vec<Vec<Date>>, year: i32, today: &Date) -> (scene:
    Scene)
    requires
        state.wf(),
        logs_fit(logs@, state.habits@.len()),
        MIN_YEAR <= year <= MAX_YEAR,
        today.valid(),
    ensures
        exists|regions: Regions| #[trigger]
            regions.arranged_in(*area) && is_scene(scene, *state, regions, logs@, year as int, *today),
{
    let regions = Regions::compose(area);
    render_in(state, &regions, logs, year, today)
}

} // verus!
