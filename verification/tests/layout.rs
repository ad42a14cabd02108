use habit::show::layout::{centre, centred, centred_percent, leading, middle_part, Constraint, Direction, Rect, Regions};
use habit::show::ui::centered_rect;

fn rect(x: u16, y: u16, width: u16, height: u16) -> Rect {
    Rect { x, y, width, height }
}

#[test]
fn a_cell_is_in_a_region_or_not() {
    let r = rect(2, 3, 4, 5);
    assert!(r.contains(2, 3));
    assert!(r.contains(5, 7));
    assert!(!r.contains(6, 7));
    assert!(!r.contains(5, 8));
    assert!(!r.contains(1, 3));
    assert!(!r.contains(2, 2));
    assert!(!rect(2, 3, 0, 5).contains(2, 3));
    assert!(!rect(2, 3, 4, 0).contains(2, 3));
    assert!(rect(65535, 65535, 1, 1).contains(65535, 65535));
    assert!(rect(65000, 0, 65535, 1).contains(65535, 0));
}

#[test]
fn constraints_of_the_layouts() {
    assert_eq!(leading(3), vec![Constraint::Length(3), Constraint::Fill(1)]);
    assert_eq!(
        centred(7),
        vec![Constraint::Fill(1), Constraint::Length(7), Constraint::Fill(1)]
    );
    assert_eq!(
        centred_percent(50),
        vec![Constraint::Percentage(25), Constraint::Percentage(50), Constraint::Percentage(25)]
    );
    assert_eq!(
        centred_percent(100),
        vec![Constraint::Percentage(0), Constraint::Percentage(100), Constraint::Percentage(0)]
    );
    assert_eq!(
        centred_percent(25),
        vec![Constraint::Percentage(37), Constraint::Percentage(25), Constraint::Percentage(37)]
    );
}

#[test]
fn the_screen_of_a_session() {
    let regions = Regions::compose(&rect(0, 0, 80, 24));
    assert_eq!(regions.tabs, rect(0, 0, 80, 3));
    assert_eq!(regions.list, rect(0, 3, 10, 21));
    assert_eq!(regions.canvas, rect(10, 3, 70, 21));
    let moved = Regions::compose(&rect(5, 7, 120, 40));
    assert_eq!(moved.tabs, rect(5, 7, 120, 3));
    assert_eq!(moved.list, rect(5, 10, 10, 37));
    assert_eq!(moved.canvas, rect(15, 10, 110, 37));
}

#[test]
fn regions_are_put_together_from_the_parts() {
    let rows = vec![rect(0, 0, 9, 1), rect(0, 1, 9, 8)];
    let columns = vec![rect(0, 1, 2, 8), rect(2, 1, 7, 8)];
    let regions = Regions::assemble(&rows, &columns);
    assert_eq!(regions.tabs, rows[0]);
    assert_eq!(regions.list, columns[0]);
    assert_eq!(regions.canvas, columns[1]);
}

#[test]
fn the_middle_of_an_area() {
    assert_eq!(centre(&rect(0, 0, 200, 21), 106, 7), rect(47, 7, 106, 7));
    assert_eq!(centre(&rect(10, 3, 110, 37), 106, 7), rect(12, 18, 106, 7));
    assert_eq!(
        middle_part(&rect(0, 0, 10, 9), Direction::Vertical, &centred(3)),
        rect(0, 3, 10, 3)
    );
    assert_eq!(
        middle_part(&rect(0, 0, 10, 9), Direction::Horizontal, &centred(4)),
        rect(3, 0, 4, 9)
    );
}

#[test]
fn the_middle_of_an_area_in_hundredths() {
    assert_eq!(centered_rect(rect(0, 0, 100, 100), 50, 50), rect(25, 25, 50, 50));
    assert_eq!(centered_rect(rect(10, 20, 80, 40), 50, 50), rect(30, 30, 40, 20));
    assert_eq!(centered_rect(rect(0, 0, 100, 100), 100, 100), rect(0, 0, 100, 100));
}

fn limit(start: u16, length: u16) -> u32 {
    (start as u32 + length as u32).min(65535)
}

#[test]
fn the_session_layout_on_many_screens() {
    for x in [0u16, 7, 65000, 65530] {
        for y in [0u16, 2, 65533] {
            for width in [0u16, 1, 9, 10, 11, 80, 600, 40001, 65535] {
                for height in [0u16, 1, 2, 3, 4, 24, 1001, 65535] {
                    let area = rect(x, y, width, height);
                    let rows = (limit(y, height) - y as u32) as u16;
                    let columns = (limit(x, width) - x as u32) as u16;
                    let regions = Regions::compose(&area);
                    let what = format!("{:?}", area);
                    assert_eq!(regions.tabs.x, x, "{}", what);
                    assert_eq!(regions.tabs.width, width, "{}", what);
                    assert_eq!(regions.tabs.y, y, "{}", what);
                    assert_eq!(regions.tabs.height, rows.min(3), "{}", what);
                    assert_eq!(regions.list.x, x, "{}", what);
                    assert_eq!(regions.list.y, y + regions.tabs.height, "{}", what);
                    assert_eq!(regions.list.height, rows - regions.tabs.height, "{}", what);
                    assert_eq!(regions.list.width, columns.min(10), "{}", what);
                    assert_eq!(regions.canvas.x, x + regions.list.width, "{}", what);
                    assert_eq!(regions.canvas.y, regions.list.y, "{}", what);
                    assert_eq!(regions.canvas.height, regions.list.height, "{}", what);
                    assert_eq!(regions.canvas.width, columns - regions.list.width, "{}", what);
                }
            }
        }
    }
}

#[test]
fn the_middle_part_on_many_areas() {
    for start in [0u16, 3, 65500] {
        for length in (0..=40u16).chain([107, 1000, 1001, 40001, 65534, 65535]) {
            for wanted in [0u16, 1, 2, 7, 20, 39, 40, 41, 106, 65535] {
                let extent = (limit(start, length) - start as u32) as u16;
                let across = rect(11, start, 13, length);
                let part = middle_part(&across, Direction::Vertical, &centred(wanted));
                let what = format!("{:?} {}", across, wanted);
                assert_eq!((part.x, part.width), (11, 13), "{}", what);
                assert!(part.y >= start, "{}", what);
                assert!(part.y as u32 + part.height as u32 <= limit(start, length), "{}", what);
                assert_eq!(part.height, wanted.min(extent), "{}", what);
                let above = (part.y - start) as i32;
                let below = (extent - part.height) as i32 - above;
                assert!((above - below).abs() <= 1, "{} {} {}", what, above, below);
                let along = rect(start, 11, length, 13);
                let part = middle_part(&along, Direction::Horizontal, &centred(wanted));
                assert_eq!((part.y, part.height), (11, 13), "{}", what);
                assert_eq!(part.width, wanted.min(extent), "{}", what);
                let left = (part.x - start) as i32;
                let right = (extent - part.width) as i32 - left;
                assert!((left - right).abs() <= 1, "{} {} {}", what, left, right);
            }
        }
    }
}

#[test]
fn the_middle_hundredths_of_many_areas() {
    for start in [0u16, 3, 65500] {
        for length in (0..=120u16).chain([999, 1000, 1001, 40001, 65534, 65535]) {
            for percent in [0u16, 1, 25, 33, 50, 51, 99, 100] {
                let extent = (limit(start, length) - start as u32) as i64;
                let side = ((100 - percent) / 2) as i64;
                let area = rect(start, start, length, length);
                let popup = centered_rect(area, percent, percent);
                let what = format!("{:?} {}", area, percent);
                for (from, size) in [(popup.x, popup.width), (popup.y, popup.height)] {
                    assert!(from >= start, "{}", what);
                    assert!(from as u32 + size as u32 <= limit(start, length), "{}", what);
                    assert!((100 * size as i64 - percent as i64 * extent).abs() <= 100, "{}", what);
                    let before = (from - start) as i64;
                    assert!((100 * before - side * extent).abs() <= 50, "{} {}", what, before);
                }
            }
        }
    }
}
