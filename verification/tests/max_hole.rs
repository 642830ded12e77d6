use log_holes::max_hole::MaxHole;
use log_holes::timed_line::TimedLine;

fn timed(time: i64, line: &str) -> TimedLine {
    TimedLine { time, line: line.to_string() }
}

fn fed(times: &[i64]) -> MaxHole {
    let mut tracker = MaxHole::new();
    for (at, time) in times.iter().enumerate() {
        tracker = tracker.update(*time, format!("line {}", at));
    }
    tracker
}

fn best_times(times: &[i64]) -> Option<(i64, i64)> {
    fed(times).into_best().map(|(earlier, later)| (earlier.time, later.time))
}

fn first_widest(times: &[i64]) -> Option<usize> {
    let mut widest: Option<usize> = None;
    let mut at: usize = 0;
    while at + 1 < times.len() {
        let gap: i128 = (times[at + 1] as i128) - (times[at] as i128);
        let wider = match widest {
            Some(held) => gap > (times[held + 1] as i128) - (times[held] as i128),
            None => true,
        };
        if wider {
            widest = Some(at);
        }
        at += 1;
    }
    widest
}

#[test]
fn no_line_gives_no_pair() {
    assert_eq!(MaxHole::new().into_best(), None);
}

#[test]
fn one_line_gives_no_pair() {
    assert_eq!(MaxHole::new().update(7, "only".to_string()).into_best(), None);
}

#[test]
fn two_lines_are_the_first_pair() {
    let tracker = MaxHole::new().update(10, "a".to_string()).update(30, "b".to_string());
    assert_eq!(tracker.into_best(), Some((timed(10, "a"), timed(30, "b"))));
}

#[test]
fn a_line_out_of_order_leaves_the_pair() {
    let tracker = MaxHole::new()
        .update(1609495200000, "[2021-01-01T10:00:00Z] a".to_string())
        .update(1609495205000, "[2021-01-01T10:00:05Z] b".to_string())
        .update(1609495201000, "[2021-01-01T10:00:01Z] c".to_string());
    assert_eq!(
        tracker.into_best(),
        Some((
            timed(1609495200000, "[2021-01-01T10:00:00Z] a"),
            timed(1609495205000, "[2021-01-01T10:00:05Z] b"),
        ))
    );
}

#[test]
fn a_line_out_of_order_is_retained_beside_the_pair() {
    let tracker = MaxHole::new()
        .update(1609495200000, "a".to_string())
        .update(1609495205000, "b".to_string())
        .update(1609495201000, "c".to_string())
        .update(1609495207000, "d".to_string());
    assert_eq!(
        tracker.into_best(),
        Some((timed(1609495201000, "c"), timed(1609495207000, "d")))
    );
}

#[test]
fn a_wider_hole_after_the_pair_takes_its_place() {
    assert_eq!(best_times(&[0, 10, 25]), Some((10, 25)));
}

#[test]
fn a_wider_hole_after_a_retained_line_takes_the_place_of_the_pair() {
    assert_eq!(best_times(&[0, 10, 15, 30]), Some((15, 30)));
}

#[test]
fn only_the_last_line_is_retained_beside_the_pair() {
    assert_eq!(best_times(&[0, 10, 15, 24]), Some((0, 10)));
    assert_eq!(best_times(&[0, 10, 15, 24, 40]), Some((24, 40)));
    assert_eq!(best_times(&[0, 10, 15, 24, 34]), Some((0, 10)));
}

#[test]
fn an_equal_hole_leaves_the_earlier_pair() {
    assert_eq!(best_times(&[0, 10, 20]), Some((0, 10)));
    assert_eq!(best_times(&[0, 10, 15, 25]), Some((0, 10)));
    assert_eq!(best_times(&[5, 5, 5, 5]), Some((5, 5)));
}

#[test]
fn the_lines_of_the_pair_come_back_with_their_text() {
    let tracker = MaxHole::new()
        .update(0, "zero".to_string())
        .update(1, "one".to_string())
        .update(1, "again".to_string())
        .update(9, "nine".to_string());
    assert_eq!(tracker.into_best(), Some((timed(1, "again"), timed(9, "nine"))));
}

#[test]
fn the_widest_times_do_not_overflow() {
    assert_eq!(best_times(&[i64::MIN, i64::MAX]), Some((i64::MIN, i64::MAX)));
    assert_eq!(best_times(&[i64::MIN, i64::MAX, i64::MIN]), Some((i64::MIN, i64::MAX)));
    assert_eq!(
        best_times(&[i64::MIN, i64::MAX, i64::MIN, i64::MAX]),
        Some((i64::MIN, i64::MAX))
    );
    assert_eq!(best_times(&[i64::MAX, i64::MIN, i64::MAX]), Some((i64::MIN, i64::MAX)));
    assert_eq!(best_times(&[0, i64::MIN, i64::MAX]), Some((i64::MIN, i64::MAX)));
    assert_eq!(best_times(&[i64::MAX, i64::MIN, i64::MIN]), Some((i64::MIN, i64::MIN)));
}

#[test]
fn the_pair_is_around_the_first_widest_hole() {
    let mut state: u64 = 77;
    let mut round: u32 = 0;
    while round < 3000 {
        let mut times: Vec<i64> = Vec::new();
        state = state.wrapping_mul(6364136223846793005).wrapping_add(1442695040888963407);
        let length: u64 = (state >> 33) % 12;
        let mut at: u64 = 0;
        while at < length {
            state = state.wrapping_mul(6364136223846793005).wrapping_add(1442695040888963407);
            times.push(((state >> 33) % 21) as i64 - 10);
            at += 1;
        }
        let expected = first_widest(&times).map(|held| (times[held], times[held + 1]));
        assert_eq!(best_times(&times), expected, "times {:?}", times);
        round += 1;
    }
}

#[test]
fn the_widest_hole_never_narrows_along_a_stream() {
    let times: Vec<i64> = vec![100, 90, 95, 97, 120, 121, 150, 140, 200, 201];
    let mut widest: Option<i64> = None;
    let mut upto: usize = 0;
    while upto <= times.len() {
        let held = best_times(&times[..upto]).map(|(earlier, later)| later - earlier);
        if upto < 2 {
            assert_eq!(held, None);
        } else {
            assert!(held.is_some());
            assert!(held >= widest);
        }
        widest = held;
        upto += 1;
    }
    assert_eq!(widest, Some(60));
}
