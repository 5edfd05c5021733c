use auto_pr::error::RunError;
use auto_pr::inspect::CommandOutput;
use auto_pr::stats::{
    hours_between, read_commit_count, read_commit_time, read_first_commit_time, read_stats,
};

fn printed(text: &str) -> CommandOutput {
    CommandOutput { status: Some(0), stdout: text.as_bytes().to_vec() }
}

#[test]
fn hours_are_rounded_toward_zero() {
    assert_eq!(hours_between(0, 3599), 0);
    assert_eq!(hours_between(0, 3600), 1);
    assert_eq!(hours_between(1000, 1000 + 7 * 3600 + 1), 7);
    assert_eq!(hours_between(3600, 0), -1);
    assert_eq!(hours_between(3599, 0), 0);
    assert_eq!(hours_between(7201, 0), -2);
}

#[test]
fn hours_do_not_overflow() {
    assert_eq!(hours_between(i64::MIN, i64::MAX), 5124095576030431);
    assert_eq!(hours_between(i64::MAX, i64::MIN), -5124095576030431);
}

#[test]
fn the_commit_time_is_on_the_first_line() {
    assert_eq!(read_commit_time(&printed("1000\n2000\n")), Ok(1000));
    assert_eq!(read_commit_time(&printed("1700000000")), Ok(1700000000));
}

#[test]
fn no_commit_means_time_zero() {
    assert_eq!(read_commit_time(&printed("")), Ok(0));
}

#[test]
fn a_time_that_is_no_number_is_a_command_error() {
    assert_eq!(read_commit_time(&printed("\n1000\n")), Err(RunError::VcsCommand));
    assert_eq!(read_commit_time(&printed("yesterday\n")), Err(RunError::VcsCommand));
    assert_eq!(read_commit_time(&printed(" 1000\n")), Err(RunError::VcsCommand));
}

#[test]
fn the_commit_count_is_trimmed_and_not_negative() {
    assert_eq!(read_commit_count(&printed("3\n")), Ok(3));
    assert_eq!(read_commit_count(&printed("0\n")), Ok(0));
    assert_eq!(read_commit_count(&printed("-1\n")), Err(RunError::VcsCommand));
    assert_eq!(read_commit_count(&printed("\n")), Err(RunError::VcsCommand));
    assert_eq!(read_commit_count(&CommandOutput { status: Some(1), stdout: b"3".to_vec() }), Err(RunError::VcsCommand));
}

#[test]
fn same_times_divide_by_one() {
    let stats = read_stats(&printed("1000\n"), &printed("1000\n"), &printed("1\n"), &printed("     1\tAda\n"), 3).unwrap();
    assert_eq!(stats.duration_hours, 0);
    assert_eq!(stats.velocity_denominator(), 1);
    assert_eq!(stats.velocity_numerator(), 3);
    let velocity = stats.velocity_numerator() as f64 / stats.velocity_denominator() as f64;
    assert_eq!(velocity, 3.0);
}

#[test]
fn velocity_divides_by_the_hours() {
    let stats = read_stats(&printed("0\n"), &printed("14400\n"), &printed("5\n"), &printed("3\tAda\n2\tBob"), 2).unwrap();
    assert_eq!(stats.duration_hours, 4);
    assert_eq!(stats.commit_count, 5);
    assert_eq!(stats.contributors, "3\tAda\n2\tBob");
    assert_eq!(stats.changed_files, 2);
    assert_eq!(stats.velocity_denominator(), 4);
    assert_eq!(stats.velocity_numerator() as f64 / stats.velocity_denominator() as f64, 0.5);
}

#[test]
fn inverted_times_divide_by_one() {
    let stats = read_stats(&printed("90000\n"), &printed("0\n"), &printed("1"), &printed(""), 4).unwrap();
    assert_eq!(stats.duration_hours, -25);
    assert_eq!(stats.velocity_denominator(), 1);
    let velocity = stats.velocity_numerator() as f64 / stats.velocity_denominator() as f64;
    assert!(velocity.is_finite() && velocity >= 0.0);
}

#[test]
fn no_commits_on_the_branch() {
    let stats = read_stats(&printed(""), &printed("1700003600\n"), &printed("0\n"), &printed(""), 0).unwrap();
    assert_eq!(stats.duration_hours, 472223);
    assert_eq!(stats.commit_count, 0);
    assert_eq!(stats.contributors, "");
}

#[test]
fn the_first_unusable_answer_decides_the_error() {
    let failed = CommandOutput { status: Some(1), stdout: Vec::new() };
    let garbled = CommandOutput { status: Some(0), stdout: vec![0xff] };
    assert_eq!(read_stats(&failed, &garbled, &printed("1"), &printed(""), 0).err(), Some(RunError::VcsCommand));
    assert_eq!(read_stats(&garbled, &failed, &printed("1"), &printed(""), 0).err(), Some(RunError::Encoding));
    assert_eq!(read_stats(&printed("1"), &printed("x"), &garbled, &printed(""), 0).err(), Some(RunError::VcsCommand));
    assert_eq!(read_stats(&printed("1"), &printed("2"), &garbled, &failed, 0).err(), Some(RunError::Encoding));
    assert_eq!(read_stats(&printed("1"), &printed("2"), &printed("3"), &garbled, 0).err(), Some(RunError::Encoding));
}

#[test]
fn the_first_commit_time_is_the_least_of_all_lines() {
    assert_eq!(read_first_commit_time(&printed("3700\n100\n")), Ok(100));
    assert_eq!(read_first_commit_time(&printed("100\n3700\n")), Ok(100));
    assert_eq!(read_first_commit_time(&printed("5\n-7\n3")), Ok(-7));
    assert_eq!(read_first_commit_time(&printed("1700000000\r\n1600000000\r\n")), Ok(1600000000));
    assert_eq!(read_first_commit_time(&printed("42")), Ok(42));
}

#[test]
fn no_commit_means_first_time_zero() {
    assert_eq!(read_first_commit_time(&printed("")), Ok(0));
}

#[test]
fn any_line_that_is_no_number_spoils_the_first_commit_time() {
    assert_eq!(read_first_commit_time(&printed("100\nsoon\n")), Err(RunError::VcsCommand));
    assert_eq!(read_first_commit_time(&printed("\n")), Err(RunError::VcsCommand));
    assert_eq!(read_first_commit_time(&printed("100\n\n200\n")), Err(RunError::VcsCommand));
    assert_eq!(read_first_commit_time(&printed(" 100\n")), Err(RunError::VcsCommand));
    let failed = CommandOutput { status: Some(1), stdout: b"100".to_vec() };
    assert_eq!(read_first_commit_time(&failed), Err(RunError::VcsCommand));
    let garbled = CommandOutput { status: Some(0), stdout: vec![0xff] };
    assert_eq!(read_first_commit_time(&garbled), Err(RunError::Encoding));
}

#[test]
fn the_duration_starts_at_the_earliest_commit() {
    let stats = read_stats(&printed("3700\n100\n"), &printed("7300\n"), &printed("2\n"), &printed(""), 1).unwrap();
    assert_eq!(stats.duration_hours, 2);
    assert_eq!(stats.velocity_denominator(), 2);
}

#[test]
fn only_the_first_line_counts_for_the_last_commit() {
    assert_eq!(read_commit_time(&printed("7300\nnoise\n")), Ok(7300));
}
