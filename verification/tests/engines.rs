use habit::calendar::Date;
use habit::cli::{Cli, Command};
use habit::delete::DeleteCli;
use habit::edit::{EditCli, What};
use habit::engine::{get_engine, missing_message, AnyEngine, Change, Engine, Question, Reply, Request};
use habit::habit::{At, Day, Habit};
use habit::list::engine::{listing, schedule_sentence, width_for};
use habit::list::ListCli;
use habit::log::engine::{praise, reps_in_words};
use habit::log::LogCli;
use habit::new::NewCli;
use habit::show::ShowCli;

fn habit(name: &str, days: Vec<Day>) -> Habit {
    Habit::new(name.to_string(), "a long description of the habit".to_string(), days, At { hour: 7, minutes: 5 })
}

fn printed(request: Request) -> String {
    match request {
        Request::Print { line } => line,
        other => panic!("a line was to be printed, not {:?}", other),
    }
}

#[test]
fn requests_that_end_the_work() {
    assert!(Request::Finish.ends());
    assert!(Request::Fail { message: String::new() }.ends());
    assert!(Request::Abort { message: String::new() }.ends());
    assert!(!Request::ListNames.ends());
    assert!(!Request::Print { line: String::new() }.ends());
    assert_eq!(missing_message("run"), "Habit 'run' does not exists!");
}

#[test]
fn delete_asks_before_it_deletes() {
    let mut engine = habit::delete::get_engine(DeleteCli { habit: "run".to_string() });
    assert!(matches!(engine.step(Reply::Start), Request::Exists { habit } if habit == "run"));
    match engine.step(Reply::Exists { exists: true }) {
        Request::Ask { question: Question::Confirm { message } } => assert_eq!(
            message,
            "Are you sure? All data for 'run' will be lost. Consider exporting it before with 'habit export run'."
        ),
        other => panic!("unexpected {:?}", other),
    }
    // a reply to another question changes nothing
    assert!(matches!(
        engine.step(Reply::Printed),
        Request::Ask { question: Question::Confirm { .. } }
    ));
    assert!(matches!(
        engine.step(Reply::Confirmed { yes: true }),
        Request::Apply { change: Change::Delete { habit } } if habit == "run"
    ));
    assert_eq!(printed(engine.step(Reply::Applied)), "Habit 'run' successfully deleted!");
    assert!(matches!(engine.step(Reply::Printed), Request::Finish));
    assert!(matches!(engine.step(Reply::Printed), Request::Finish));
}

#[test]
fn delete_does_nothing_on_a_no() {
    let mut engine = habit::delete::get_engine(DeleteCli { habit: "run".to_string() });
    engine.step(Reply::Start);
    engine.step(Reply::Exists { exists: true });
    assert_eq!(printed(engine.step(Reply::Confirmed { yes: false })), "Nothing done.");
    assert!(matches!(engine.step(Reply::Printed), Request::Finish));
}

#[test]
fn delete_fails_on_a_habit_that_is_not_there() {
    let mut engine = habit::delete::get_engine(DeleteCli { habit: "run".to_string() });
    engine.step(Reply::Start);
    match engine.step(Reply::Exists { exists: false }) {
        Request::Fail { message } => assert_eq!(message, "Habit 'run' does not exists!"),
        other => panic!("unexpected {:?}", other),
    }
    assert!(matches!(engine.step(Reply::Confirmed { yes: true }), Request::Fail { .. }));
}

#[test]
fn log_counts_the_reps() {
    assert_eq!(reps_in_words(0), "0 rep");
    assert_eq!(reps_in_words(1), "1 rep");
    assert_eq!(reps_in_words(2), "2 reps");
    assert_eq!(reps_in_words(120), "120 reps");
    assert_eq!(praise("3 reps", "run"), "Good job! You are at 3 reps for habit 'run'.");
    let mut engine = habit::log::get_engine(LogCli { habit: "run".to_string() });
    assert!(matches!(engine.step(Reply::Start), Request::Exists { habit } if habit == "run"));
    assert!(matches!(
        engine.step(Reply::Exists { exists: true }),
        Request::Apply { change: Change::LogRep { habit } } if habit == "run"
    ));
    assert!(matches!(engine.step(Reply::Applied), Request::CountReps { habit } if habit == "run"));
    assert_eq!(printed(engine.step(Reply::Count { reps: 12 })), "Rep successfully logged.");
    let line = printed(engine.step(Reply::Printed));
    assert!(line.starts_with("Good job! You are at "));
    assert!(line.contains("12 reps"));
    assert!(line.ends_with(" for habit 'run'."));
    assert!(matches!(engine.step(Reply::Printed), Request::Finish));
    let mut missing = habit::log::get_engine(LogCli { habit: "swim".to_string() });
    missing.step(Reply::Start);
    assert!(matches!(
        missing.step(Reply::Exists { exists: false }),
        Request::Fail { message } if message == "Habit 'swim' does not exists!"
    ));
}

#[test]
fn new_asks_four_questions_and_stores_the_habit() {
    let mut engine = habit::new::get_engine(NewCli {});
    assert!(matches!(engine.step(Reply::Start), Request::Ask { question: Question::Name }));
    assert!(matches!(
        engine.step(Reply::Name { name: "read".to_string() }),
        Request::Ask { question: Question::Description }
    ));
    assert!(matches!(
        engine.step(Reply::Name { name: "other".to_string() }),
        Request::Ask { question: Question::Description }
    ));
    assert!(matches!(
        engine.step(Reply::Description { description: "ten pages".to_string() }),
        Request::Ask { question: Question::Days }
    ));
    assert!(matches!(
        engine.step(Reply::Days { days: vec![Day::Monday, Day::Friday] }),
        Request::Ask { question: Question::At }
    ));
    match engine.step(Reply::Time { at: At { hour: 21, minutes: 15 } }) {
        Request::Apply { change: Change::Insert { habit } } => {
            assert_eq!(habit.name, "read");
            assert_eq!(habit.description, "ten pages");
            assert_eq!(habit.days, vec![Day::Monday, Day::Friday]);
            assert_eq!(habit.at, At { hour: 21, minutes: 15 });
        }
        other => panic!("unexpected {:?}", other),
    }
    assert_eq!(printed(engine.step(Reply::Applied)), "Habit 'read' successfully created!");
    assert_eq!(printed(engine.step(Reply::Printed)), "Run 'habit log read' to log progress.");
    assert_eq!(printed(engine.step(Reply::Printed)), "Run 'habit show read' to show progress.");
    assert!(matches!(engine.step(Reply::Printed), Request::Finish));
}

#[test]
fn edit_changes_the_part_that_was_named() {
    let mut name = habit::edit::get_engine(EditCli { habit: "run".to_string(), what: What::Name });
    assert!(matches!(name.step(Reply::Start), Request::Exists { habit } if habit == "run"));
    assert!(matches!(
        name.step(Reply::Exists { exists: true }),
        Request::Ask { question: Question::Name }
    ));
    assert!(matches!(
        name.step(Reply::Description { description: "no".to_string() }),
        Request::Ask { question: Question::Name }
    ));
    assert!(matches!(
        name.step(Reply::Name { name: "jog".to_string() }),
        Request::Apply { change: Change::Rename { habit, name } } if habit == "run" && name == "jog"
    ));
    assert_eq!(printed(name.step(Reply::Applied)), "Name successfully updated!");
    assert!(matches!(name.step(Reply::Printed), Request::Finish));

    let mut description =
        habit::edit::get_engine(EditCli { habit: "run".to_string(), what: What::Description });
    description.step(Reply::Start);
    assert!(matches!(
        description.step(Reply::Exists { exists: true }),
        Request::Ask { question: Question::Description }
    ));
    assert!(matches!(
        description.step(Reply::Description { description: "far".to_string() }),
        Request::Apply { change: Change::Describe { habit, description } }
            if habit == "run" && description == "far"
    ));
    assert_eq!(printed(description.step(Reply::Applied)), "Description successfully updated!");

    let mut days = habit::edit::get_engine(EditCli { habit: "run".to_string(), what: What::Days });
    days.step(Reply::Start);
    assert!(matches!(
        days.step(Reply::Exists { exists: true }),
        Request::Ask { question: Question::Days }
    ));
    assert!(matches!(
        days.step(Reply::Days { days: vec![Day::Sunday] }),
        Request::Apply { change: Change::Reschedule { habit, days } }
            if habit == "run" && days == vec![Day::Sunday]
    ));
    assert_eq!(printed(days.step(Reply::Applied)), "Days successfully updated!");

    let mut at = habit::edit::get_engine(EditCli { habit: "run".to_string(), what: What::At });
    at.step(Reply::Start);
    assert!(matches!(at.step(Reply::Exists { exists: true }), Request::Ask { question: Question::At }));
    assert!(matches!(
        at.step(Reply::Time { at: At { hour: 5, minutes: 0 } }),
        Request::Apply { change: Change::Retime { habit, at } }
            if habit == "run" && at == At { hour: 5, minutes: 0 }
    ));
    assert_eq!(printed(at.step(Reply::Applied)), "At successfully updated!");

    let mut missing = habit::edit::get_engine(EditCli { habit: "run".to_string(), what: What::At });
    missing.step(Reply::Start);
    assert!(matches!(
        missing.step(Reply::Exists { exists: false }),
        Request::Fail { message } if message == "Habit 'run' does not exists!"
    ));
}

#[test]
fn list_prints_the_names() {
    let mut engine = habit::list::get_engine(ListCli { verbose: false });
    assert!(matches!(engine.step(Reply::Start), Request::ListNames));
    assert!(matches!(engine.step(Reply::Habits { habits: Vec::new() }), Request::ListNames));
    let names = vec!["run".to_string(), "read".to_string()];
    assert_eq!(printed(engine.step(Reply::Names { names })), "run");
    assert_eq!(printed(engine.step(Reply::Applied)), "run");
    assert_eq!(printed(engine.step(Reply::Printed)), "read");
    assert!(matches!(engine.step(Reply::Printed), Request::Finish));
    let mut empty = habit::list::get_engine(ListCli { verbose: false });
    empty.step(Reply::Start);
    assert!(matches!(empty.step(Reply::Names { names: Vec::new() }), Request::Finish));
}

#[test]
fn the_width_of_a_listing() {
    assert_eq!(width_for(Some(80)), 72);
    assert_eq!(width_for(Some(8)), 0);
    assert_eq!(width_for(Some(7)), 65535);
    assert_eq!(width_for(Some(0)), 65535);
    assert_eq!(width_for(None), 65527);
    assert_eq!(width_for(Some(65535)), 65527);
}

#[test]
fn list_prints_all_of_each_habit() {
    assert_eq!(
        schedule_sentence(">", &habit("run", vec![Day::Monday, Day::Friday])),
        "> Each Monday and Friday at 07:05."
    );
    assert_eq!(schedule_sentence("*", &habit("run", Vec::new())), "* Each  at 07:05.");
    let habits = vec![habit("run", vec![Day::Monday, Day::Friday]), habit("read", Vec::new())];
    let lines = listing(&habits, 20);
    assert!(lines[0].contains("run"));
    assert!(lines[3].contains(">"));
    assert_eq!(lines[1], "    a long description");
    assert_eq!(lines[2], "    of the habit");
    assert!(lines[3].starts_with("    "));
    assert!(lines[3].contains("Each Monday and"));
    assert!(lines.iter().skip(1).take(4).all(|line| line.starts_with("    ")));
    let second = lines.iter().position(|line| line.contains("read")).unwrap();
    assert_eq!(lines[second + 1], "    a long description");
    assert!(lines.last().unwrap().ends_with("at 07:05."));

    let mut engine = habit::list::get_engine(ListCli { verbose: true });
    assert!(matches!(engine.step(Reply::Start), Request::ListHabits));
    assert!(matches!(engine.step(Reply::Habits { habits }), Request::TerminalWidth));
    let mut request = engine.step(Reply::Width { columns: Some(28) });
    let mut seen = Vec::new();
    while let Request::Print { line } = request {
        seen.push(line);
        request = engine.step(Reply::Printed);
    }
    assert!(matches!(request, Request::Finish));
    assert_eq!(seen, lines);
}

#[test]
fn list_gives_up_on_a_habit_of_one_day() {
    let mut engine = habit::list::get_engine(ListCli { verbose: true });
    engine.step(Reply::Start);
    engine.step(Reply::Habits { habits: vec![habit("run", vec![Day::Monday])] });
    assert!(matches!(engine.step(Reply::Width { columns: None }), Request::Abort { .. }));
    assert!(matches!(engine.step(Reply::Printed), Request::Abort { .. }));
}

#[test]
fn show_starts_the_session_on_the_habit_it_found() {
    let habits = vec![habit("run", Vec::new()), habit("read", Vec::new()), habit("read", Vec::new())];
    let logs = vec![vec![Date { year: 2024, month: 1, day: 1 }], Vec::new(), Vec::new()];
    let mut engine = habit::show::get_engine(ShowCli { habit: Some("read".to_string()) });
    assert!(matches!(
        engine.step(Reply::Start),
        Request::Find { habit: Some(name) } if name == "read"
    ));
    assert!(matches!(engine.step(Reply::Found { habit: habit("read", Vec::new()) }), Request::ListHabits));
    assert!(matches!(engine.step(Reply::Habits { habits }), Request::Logs));
    match engine.step(Reply::Logs { logs: logs.clone() }) {
        Request::Show { habits, logs: shown, selected } => {
            assert_eq!(selected, 1);
            assert_eq!(habits.len(), 3);
            assert_eq!(habits[0].name, "run");
            assert_eq!(habits[2].name, "read");
            assert_eq!(shown, logs);
        }
        other => panic!("unexpected {:?}", other),
    }
    assert!(matches!(engine.step(Reply::Shown), Request::Finish));
    let mut recent = habit::show::get_engine(ShowCli { habit: None });
    assert!(matches!(recent.step(Reply::Start), Request::Find { habit: None }));
}

#[test]
fn show_gives_up_on_a_store_that_contradicts_itself() {
    let mut engine = habit::show::get_engine(ShowCli { habit: None });
    engine.step(Reply::Start);
    engine.step(Reply::Found { habit: habit("swim", Vec::new()) });
    engine.step(Reply::Habits { habits: vec![habit("run", Vec::new())] });
    assert!(matches!(
        engine.step(Reply::Logs { logs: vec![Vec::new()] }),
        Request::Abort { message }
            if message == "Initial habit comes from database, so should be within all the habits"
    ));
    let mut short = habit::show::get_engine(ShowCli { habit: None });
    short.step(Reply::Start);
    short.step(Reply::Found { habit: habit("run", Vec::new()) });
    short.step(Reply::Habits { habits: vec![habit("run", Vec::new())] });
    assert!(matches!(
        short.step(Reply::Logs { logs: Vec::new() }),
        Request::Abort { message }
            if message == "Logs come from database, so there should be a list of dates for each habit"
    ));
    let mut wrong = habit::show::get_engine(ShowCli { habit: None });
    wrong.step(Reply::Start);
    wrong.step(Reply::Found { habit: habit("run", Vec::new()) });
    wrong.step(Reply::Habits { habits: vec![habit("run", Vec::new())] });
    let logs = vec![vec![Date { year: 2023, month: 2, day: 29 }]];
    assert!(matches!(
        wrong.step(Reply::Logs { logs }),
        Request::Abort { message }
            if message == "Logs come from database, so there should be a list of dates for each habit"
    ));
    // a habit that is missing is told first
    let mut both = habit::show::get_engine(ShowCli { habit: None });
    both.step(Reply::Start);
    both.step(Reply::Found { habit: habit("swim", Vec::new()) });
    both.step(Reply::Habits { habits: vec![habit("run", Vec::new())] });
    assert!(matches!(
        both.step(Reply::Logs { logs: Vec::new() }),
        Request::Abort { message }
            if message == "Initial habit comes from database, so should be within all the habits"
    ));
}

#[test]
fn a_command_gets_its_engine() {
    let command = |command: Command| get_engine(Cli { command });
    assert!(matches!(command(Command::New(NewCli {})), AnyEngine::New(_)));
    assert!(matches!(
        command(Command::Edit(EditCli { habit: "run".to_string(), what: What::Days })),
        AnyEngine::Edit(engine) if engine.habit == "run" && engine.what == What::Days
    ));
    assert!(matches!(
        command(Command::Delete(DeleteCli { habit: "run".to_string() })),
        AnyEngine::Delete(engine) if engine.habit == "run"
    ));
    assert!(matches!(
        command(Command::List(ListCli { verbose: true })),
        AnyEngine::List(engine) if engine.verbose
    ));
    assert!(matches!(
        command(Command::Log(LogCli { habit: "run".to_string() })),
        AnyEngine::Log(engine) if engine.habit == "run"
    ));
    assert!(matches!(
        command(Command::Show(ShowCli { habit: None })),
        AnyEngine::Show(engine) if engine.habit.is_none()
    ));
    let mut any = command(Command::Delete(DeleteCli { habit: "run".to_string() }));
    assert!(matches!(any.step(Reply::Start), Request::Exists { habit } if habit == "run"));
    assert!(matches!(
        any.step(Reply::Exists { exists: false }),
        Request::Fail { message } if message == "Habit 'run' does not exists!"
    ));
}
