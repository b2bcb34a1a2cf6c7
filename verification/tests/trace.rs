use backend_launcher::trace::{stamped_line, trace_line};

#[test]
fn trace_line_has_stamp_message_and_line_end() {
    assert_eq!(
        trace_line("2024-03-09 07:05:01", "Startup complete"),
        "[2024-03-09 07:05:01] Startup complete\n"
    );
}

#[test]
fn trace_line_of_an_empty_message() {
    assert_eq!(trace_line("2024-03-09 07:05:01", ""), "[2024-03-09 07:05:01] \n");
}

#[test]
fn trace_line_keeps_the_message_as_it_is() {
    assert_eq!(trace_line("t", "a [b] c"), "[t] a [b] c\n");
}

#[test]
fn stamped_line_wraps_the_message() {
    let line = stamped_line("Process spawned successfully");
    assert!(line.starts_with('['));
    assert!(line.ends_with("] Process spawned successfully\n"));
}

#[test]
fn stamped_line_carries_a_time_stamp() {
    let line = stamped_line("x");
    let close = line.find(']').unwrap();
    let stamp: Vec<char> = line[1..close].chars().collect();
    assert!(stamp.len() >= 19);
    assert!(stamp.iter().all(|c| c.is_ascii_digit() || "- :+".contains(*c)));
    let n = stamp.len();
    assert_eq!(stamp[n - 15], '-');
    assert_eq!(stamp[n - 12], '-');
    assert_eq!(stamp[n - 9], ' ');
    assert_eq!(stamp[n - 6], ':');
    assert_eq!(stamp[n - 3], ':');
    assert!(stamp[n - 2].is_ascii_digit() && stamp[n - 1].is_ascii_digit());
    assert_eq!(&line[close..], "] x\n");
}
