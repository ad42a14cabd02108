use habit::calendar::Date;
use habit::habit::{At, Day, Habit};
use habit::show::engine::{check_logs, copy_habits, copy_logs, habit_list, position, render, render_in, tab_bar};
use habit::show::layout::{Rect, Regions};
use habit::show::state::{AppState, Event, KeyCode};
use habit::show::viz::{HeatMap, Picture};
use habit::show::How;

fn habit(name: &str) -> Habit {
    Habit::new(name.to_string(), String::new(), vec![Day::Monday, Day::Wednesday], At { hour: 7, minutes: 5 })
}

fn date(year: i32, month: u8, day: u8) -> Date {
    Date::new(year, month, day).expect("a date of the calendar")
}

fn regions() -> Regions {
    Regions {
        tabs: Rect { x: 0, y: 0, width: 120, height: 3 },
        list: Rect { x: 0, y: 3, width: 10, height: 37 },
        canvas: Rect { x: 10, y: 3, width: 110, height: 37 },
    }
}

#[test]
fn the_ways_to_show_progress() {
    assert_ne!(How::HeatMap, How::BowlOfMarbles);
}

#[test]
fn the_first_habit_of_a_name_is_found() {
    let habits = vec![habit("run"), habit("read"), habit("read")];
    assert_eq!(position(&habits, "run"), Some(0));
    assert_eq!(position(&habits, "read"), Some(1));
    assert_eq!(position(&habits, "swim"), None);
    assert_eq!(position(&habits, "Run"), None);
    assert_eq!(position(&Vec::new(), "run"), None);
}

#[test]
fn logs_are_checked_against_the_habits() {
    assert!(check_logs(&Vec::new(), 0));
    assert!(!check_logs(&Vec::new(), 1));
    assert!(check_logs(&vec![Vec::new(), vec![date(2024, 2, 29)]], 2));
    assert!(!check_logs(&vec![Vec::new(), vec![date(2024, 2, 29)]], 3));
    assert!(!check_logs(&vec![vec![date(2024, 1, 1), Date { year: 2024, month: 2, day: 30 }]], 1));
    let logs = vec![vec![date(2024, 1, 1)], Vec::new()];
    assert_eq!(copy_logs(&logs), logs);
    let habits = vec![habit("run"), habit("read")];
    let copy = copy_habits(&habits);
    assert_eq!(copy.len(), 2);
    assert_eq!(copy[1].name, "read");
    assert_eq!(copy[1].days, habits[1].days);
}

#[test]
fn the_scene_of_a_state() {
    let regions = regions();
    let mut state = AppState::build(vec![habit("run"), habit("read"), habit("swim")], 1).unwrap();
    state = state.reduce(Event::Key(KeyCode::Down), &regions);
    state = state.reduce(Event::MouseMove { column: 3, row: 5 }, &regions);
    let logs = vec![Vec::new(), vec![date(2024, 1, 1), date(2024, 1, 8)], Vec::new()];
    let today = date(2024, 3, 3);
    let scene = render_in(&state, &regions, &logs, 2024, &today);
    assert_eq!(scene.tabs.area, regions.tabs);
    assert_eq!(scene.tabs.titles, vec!["Heatmap".to_string(), "Bowl of marbles".to_string()]);
    assert_eq!(scene.tabs.selected, 0);
    assert!(!scene.tabs.hovered);
    assert_eq!(scene.list.area, regions.list);
    assert!(scene.list.hovered);
    let entries: Vec<(String, bool, bool)> =
        scene.list.entries.iter().map(|e| (e.name.clone(), e.pointed, e.shown)).collect();
    assert_eq!(
        entries,
        vec![
            ("run".to_string(), false, false),
            ("read".to_string(), false, true),
            ("swim".to_string(), true, false)
        ]
    );
    assert_eq!(scene.canvas, regions.canvas);
    match scene.picture {
        Picture::Cells { frame, cells } => {
            assert_eq!(frame, Rect { x: 12, y: 18, width: 106, height: 7 });
            let grid = HeatMap::new(&state.habits[1]).grid(2024, &today, &logs[1]);
            assert_eq!(cells, HeatMap::paint(&grid, &frame));
            assert_eq!(cells[0].symbol, '1');
            assert_eq!(cells[14].symbol, '1');
        }
        Picture::Label { .. } => panic!("the first tab is the heat map"),
    }
}

#[test]
fn the_scene_follows_the_tab() {
    let regions = regions();
    let mut state = AppState::build(vec![habit("run"), habit("read")], 0).unwrap();
    state = state.reduce(Event::Key(KeyCode::Tab), &regions);
    state = state.reduce(Event::MouseMove { column: 3, row: 1 }, &regions);
    let logs = vec![Vec::new(), Vec::new()];
    let scene = render_in(&state, &regions, &logs, 2024, &date(2024, 3, 3));
    assert_eq!(scene.tabs.selected, 1);
    assert!(scene.tabs.hovered);
    assert!(!scene.list.hovered);
    match scene.picture {
        Picture::Label { text, .. } => assert_eq!(text, "Bowl of marbles for habit run"),
        Picture::Cells { .. } => panic!("the second tab is the bowl of marbles"),
    }
    let bar = tab_bar(&state, regions.tabs);
    assert_eq!(bar.selected, 1);
    let list = habit_list(&state, regions.list);
    assert_eq!(list.entries.len(), 2);
    assert!(list.entries[0].pointed && list.entries[0].shown);
}

#[test]
fn the_scene_on_a_screen() {
    let state = AppState::build(vec![habit("run")], 0).unwrap();
    let logs = vec![vec![date(2024, 1, 1)]];
    let scene = render(&state, &Rect { x: 0, y: 0, width: 120, height: 40 }, &logs, 2024, &date(2024, 3, 3));
    assert_eq!(scene.tabs.area, Rect { x: 0, y: 0, width: 120, height: 3 });
    assert_eq!(scene.list.area, Rect { x: 0, y: 3, width: 10, height: 37 });
    assert_eq!(scene.canvas, Rect { x: 10, y: 3, width: 110, height: 37 });
    match scene.picture {
        Picture::Cells { frame, cells } => {
            assert_eq!(frame, Rect { x: 12, y: 18, width: 106, height: 7 });
            assert_eq!(cells.len(), 742);
        }
        Picture::Label { .. } => panic!("the first tab is the heat map"),
    }
}
