use todo::reply::{Reply, Stream};
use todo::tasks::{add_task, entry_line, list_tasks, remove_task, tasks_of, Change, Removal};

fn lines(words: &[&str]) -> Vec<String> {
    words.iter().map(|word| word.to_string()).collect()
}

fn out(words: &[&str]) -> Reply {
    Reply { stream: Stream::Stdout, lines: lines(words) }
}

fn err(words: &[&str]) -> Reply {
    Reply { stream: Stream::Stderr, lines: lines(words) }
}

fn written(text: &str) -> Removal {
    Removal { change: Change::Write(text.to_string()), reply: None }
}

#[test]
fn add_task_to_empty_file_is_the_task() {
    assert_eq!(add_task(Some(""), "buy milk"), "buy milk");
}

#[test]
fn add_task_without_file_is_the_task() {
    assert_eq!(add_task(None, "buy milk"), "buy milk");
}

#[test]
fn add_task_goes_behind_a_newline() {
    assert_eq!(add_task(Some("buy milk"), "call ann"), "buy milk\ncall ann");
    assert_eq!(add_task(Some("a\nb"), "c"), "a\nb\nc");
}

#[test]
fn add_task_keeps_a_trailing_newline() {
    assert_eq!(add_task(Some("a\n"), "b"), "a\n\nb");
}

#[test]
fn add_task_allows_the_same_task_twice() {
    assert_eq!(add_task(Some("a"), "a"), "a\na");
}

#[test]
fn add_task_stores_an_empty_task() {
    assert_eq!(add_task(Some(""), ""), "");
    assert_eq!(add_task(Some("a"), ""), "a\n");
}

#[test]
fn tasks_of_leaves_out_empty_lines() {
    assert_eq!(tasks_of("a\n\nb\n"), lines(&["a", "b"]));
    assert_eq!(tasks_of("\n\n"), lines(&[]));
    assert_eq!(tasks_of(""), lines(&[]));
    assert_eq!(tasks_of("a"), lines(&["a"]));
}

#[test]
fn remove_task_from_empty_file_says_no_tasks() {
    assert_eq!(
        remove_task(Some(""), 1),
        Removal { change: Change::Keep, reply: Some(out(&["No tasks"])) }
    );
    assert_eq!(
        remove_task(Some(""), 0),
        Removal { change: Change::Keep, reply: Some(out(&["No tasks"])) }
    );
}

#[test]
fn remove_task_without_file_says_no_tasks() {
    assert_eq!(
        remove_task(None, 1),
        Removal { change: Change::Keep, reply: Some(out(&["No tasks"])) }
    );
}

#[test]
fn remove_task_takes_the_first() {
    assert_eq!(remove_task(Some("a\nb\nc"), 1), written("b\nc"));
}

#[test]
fn remove_task_takes_one_in_the_middle() {
    assert_eq!(remove_task(Some("a\nb\nc"), 2), written("a\nc"));
}

#[test]
fn remove_task_takes_the_last() {
    assert_eq!(remove_task(Some("a\nb\nc"), 3), written("a\nb"));
}

#[test]
fn remove_task_takes_one_of_two_alike() {
    assert_eq!(remove_task(Some("a\na\nb"), 1), written("a\nb"));
}

#[test]
fn remove_task_deletes_file_of_last_task() {
    assert_eq!(remove_task(Some("a"), 1), Removal { change: Change::Delete, reply: None });
    assert_eq!(remove_task(Some("\na\n"), 1), Removal { change: Change::Delete, reply: None });
}

#[test]
fn remove_task_counts_lines_that_are_not_empty() {
    assert_eq!(remove_task(Some("a\n\nb\n"), 2), written("a"));
    assert_eq!(remove_task(Some("\n\na\nb"), 1), written("b"));
}

#[test]
fn remove_task_writes_back_no_empty_lines() {
    assert_eq!(remove_task(Some("a\n\nb\n\nc\n"), 1), written("b\nc"));
}

#[test]
fn remove_task_turns_down_position_zero() {
    assert_eq!(
        remove_task(Some("a\nb"), 0),
        Removal { change: Change::Keep, reply: Some(err(&["Index out of range"])) }
    );
}

#[test]
fn remove_task_turns_down_position_behind_the_last() {
    assert_eq!(
        remove_task(Some("a\nb"), 3),
        Removal { change: Change::Keep, reply: Some(err(&["Index out of range"])) }
    );
    assert_eq!(
        remove_task(Some("a\nb"), usize::MAX),
        Removal { change: Change::Keep, reply: Some(err(&["Index out of range"])) }
    );
}

#[test]
fn remove_task_turns_down_position_among_empty_lines() {
    assert_eq!(
        remove_task(Some("a\n\n"), 2),
        Removal { change: Change::Keep, reply: Some(err(&["Index out of range"])) }
    );
    assert_eq!(
        remove_task(Some("\n"), 1),
        Removal { change: Change::Keep, reply: Some(err(&["Index out of range"])) }
    );
}

#[test]
fn entry_line_has_position_period_space_task() {
    assert_eq!(entry_line(1, "buy milk"), "1. buy milk");
    assert_eq!(entry_line(12, ""), "12. ");
    assert_eq!(entry_line(100, "x"), "100. x");
}

#[test]
fn list_tasks_without_file_says_no_tasks() {
    assert_eq!(list_tasks(None), out(&["No tasks"]));
}

#[test]
fn list_tasks_numbers_the_lines_from_one() {
    assert_eq!(
        list_tasks(Some("buy milk\ncall ann")),
        out(&["Tasks:", "", "1. buy milk", "2. call ann"])
    );
}

#[test]
fn list_tasks_of_one_task() {
    assert_eq!(list_tasks(Some("buy milk")), out(&["Tasks:", "", "1. buy milk"]));
}

#[test]
fn list_tasks_shows_empty_last_line_of_file_that_ends_in_newline() {
    assert_eq!(list_tasks(Some("a\nb\n")), out(&["Tasks:", "", "1. a", "2. b", "3. "]));
}

#[test]
fn list_tasks_of_file_without_text_shows_one_empty_line() {
    assert_eq!(list_tasks(Some("")), out(&["Tasks:", "", "1. "]));
}

#[test]
fn list_tasks_counts_past_nine() {
    let reply = list_tasks(Some("a\nb\nc\nd\ne\nf\ng\nh\ni\nj\nk"));
    assert_eq!(reply.stream, Stream::Stdout);
    assert_eq!(reply.lines.len(), 13);
    assert_eq!(reply.lines[10], "9. i");
    assert_eq!(reply.lines[11], "10. j");
    assert_eq!(reply.lines[12], "11. k");
}

#[test]
fn list_after_remove_shows_what_is_left() {
    let removed = remove_task(Some("a\n\nb\nc\n"), 2);
    let Change::Write(text) = removed.change else {
        panic!("the file should be written");
    };
    assert_eq!(list_tasks(Some(&text)), out(&["Tasks:", "", "1. a", "2. c"]));
    assert_eq!(tasks_of(&text), lines(&["a", "c"]));
}
