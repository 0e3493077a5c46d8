//! The tasks of one project, held as the text of the project's file: one task
//! on each line, in the order in which they were added.
//!
//! Listing shows every line of the file, empty ones too. Removing counts the
//! lines that are not empty, and writes back only those. The two views of a
//! file differ on purpose. They agree on a tidy file, one without an empty
//! line: such is every file that removing has written, and every file that
//! has grown from nothing by tasks that were not empty.
use vstd::prelude::*;
use vstd::string::*;
use crate::number::{decimal, decimal_string};
use crate::reply::{complained, said, Reply, ReplyView, Stream};
use crate::text::{
    are_lines, is_line, join, join_lines, lemma_split_lines_are_lines, lemma_split_of_join,
    lemma_split_with_line_behind, lemma_split_with_newline_behind, split, split_lines,
};

verus! {

/// The text that adding and removing find in a project's file: a file that is
/// not there, or that cannot be read, counts as one without text.
pub open spec fn text_of(file: Option<Seq<char>>) -> Seq<char> {
    match file {
        Some(text) => text,
        None => Seq::empty(),
    }
}

/// The text of a project's file once `task` has been added as its last line.
/// A file without text takes the task as its whole text. The task is stored
/// as it is: nothing is done about a newline in it, nor about a task that is
/// already there.
pub open spec fn with_task(content: Seq<char>, task: Seq<char>) -> Seq<char> {
    if content.len() == 0 {
        task
    } else {
        content + seq!['\n'] + task
    }
}

/// A line that counts as a task when one is removed: any line but the empty one.
pub open spec fn is_task() -> spec_fn(Seq<char>) -> bool {
    |line: Seq<char>| line.len() > 0
}

/// The tasks that removing counts in `content`: its lines that are not empty.
pub open spec fn stored_tasks(content: Seq<char>) -> Seq<Seq<char>> {
    split_lines(content).filter(is_task())
}

/// What becomes of a project's file.
#[derive(Clone, Debug, PartialEq, Eq)]
pub enum Change {
    /// The file stays as it is.
    Keep,
    /// The file is written anew, with this text.
    Write(String),
    /// The file is deleted.
    Delete,
}

/// A change as plain sequences of characters.
pub enum ChangeView {
    Keep,
    Write(Seq<char>),
    Delete,
}

impl View for Change {
    type V = ChangeView;

    open spec fn view(&self) -> ChangeView {
        match self {
            Change::Keep => ChangeView::Keep,
            Change::Write(text) => ChangeView::Write(text@),
            Change::Delete => ChangeView::Delete,
        }
    }
}

/// How removing a task ends: what becomes of the file, and what is printed.
#[derive(Clone, Debug, PartialEq, Eq)]
pub struct Removal {
    pub change: Change,
    pub reply: Option<Reply>,
}

/// A removal as plain sequences of characters.
pub struct RemovalView {
    pub change: ChangeView,
    pub reply: Option<ReplyView>,
}

impl View for Removal {
    type V = RemovalView;

    open spec fn view(&self) -> RemovalView {
        RemovalView {
            change: self.change@,
            reply: match self.reply {
                Some(reply) => Some(reply@),
                None => None,
            },
        }
    }
}

/// Removing the task at the 1-based `position` from a file that holds
/// `content`.
///
/// A file without text has no tasks, and says so. A position that is not
/// between 1 and the number of stored tasks is turned down and the file is
/// kept. Otherwise the task leaves and the others stay in their order; the
/// file of a project that is left without tasks is deleted.
pub open spec fn removal(content: Seq<char>, position: usize) -> RemovalView {
    let tasks = stored_tasks(content);
    if content.len() == 0 {
        RemovalView { change: ChangeView::Keep, reply: Some(said("No tasks"@)) }
    } else if position < 1 || position > tasks.len() {
        RemovalView { change: ChangeView::Keep, reply: Some(complained("Index out of range"@)) }
    } else if tasks.len() == 1 {
        RemovalView { change: ChangeView::Delete, reply: None }
    } else {
        RemovalView {
            change: ChangeView::Write(join_lines(tasks.remove(position - 1))),
            reply: None,
        }
    }
}

/// A line of a listing: the position, a period, a space, and the task.
pub open spec fn entry(position: nat, line: Seq<char>) -> Seq<char> {
    decimal(position) + ". "@ + line
}

/// The lines, each behind its 1-based position.
pub open spec fn numbered(lines: Seq<Seq<char>>) -> Seq<Seq<char>> {
    Seq::new(lines.len(), |i: int| entry((i + 1) as nat, lines[i]))
}

/// What listing a project prints: that there are no tasks where the project
/// has no file; otherwise a heading, an empty line, and every line of the
/// file behind its position.
pub open spec fn listing(file: Option<Seq<char>>) -> ReplyView {
    match file {
        None => said("No tasks"@),
        Some(text) => ReplyView {
            stream: Stream::Stdout,
            lines: seq!["Tasks:"@, Seq::empty()] + numbered(split_lines(text)),
        },
    }
}

/// A task added to a file that has text becomes its last line, and the lines
/// before it stay; added to a file without text, it is the only line.
pub proof fn lemma_with_task_adds_line(content: Seq<char>, task: Seq<char>)
    requires
        is_line(task),
    ensures
        content.len() == 0 ==> split_lines(with_task(content, task)) == seq![task],
        content.len() > 0 ==> split_lines(with_task(content, task)) == split_lines(content).push(
            task,
        ),
{
    if content.len() == 0 {
        lemma_split_of_join(seq![task]);
    } else {
        let opened = content + seq!['\n'];
        lemma_split_with_newline_behind(content);
        lemma_split_with_line_behind(opened, task);
    }
}

/// Lines that are all tasks stay as they are when the tasks among them are
/// picked.
pub proof fn lemma_tasks_are_kept(lines: Seq<Seq<char>>)
    requires
        forall|i: int| 0 <= i < lines.len() ==> (#[trigger] lines[i]).len() > 0,
    ensures
        lines.filter(is_task()) == lines,
    decreases lines.len(),
{
    if lines.len() == 0 {
        reveal(Seq::filter);
    } else {
        let front = lines.drop_last();
        lemma_tasks_are_kept(front);
        front.lemma_filter_push(lines.last(), is_task());
        assert(front.push(lines.last()) == lines);
    }
}

/// The stored tasks of a file are lines, and none of them is empty.
pub proof fn lemma_stored_tasks_are_tasks(content: Seq<char>)
    ensures
        are_lines(stored_tasks(content)),
        forall|i: int|
            0 <= i < stored_tasks(content).len() ==> (#[trigger] stored_tasks(content)[i]).len()
                > 0,
{
    let lines = split_lines(content);
    let tasks = stored_tasks(content);
    lemma_split_lines_are_lines(content);
    assert forall|i: int| 0 <= i < tasks.len() implies {
        &&& is_line(#[trigger] tasks[i])
        &&& tasks[i].len() > 0
    } by {
        lines.lemma_filter_pred(is_task(), i);
        lines.lemma_filter_contains_rev(is_task(), tasks[i]);
    }
}

/// A file that removing has written holds the tasks that were joined, as its
/// lines and as its stored tasks alike.
pub proof fn lemma_joined_tasks_are_stored(tasks: Seq<Seq<char>>)
    requires
        tasks.len() >= 1,
        are_lines(tasks),
        forall|i: int| 0 <= i < tasks.len() ==> (#[trigger] tasks[i]).len() > 0,
    ensures
        split_lines(join_lines(tasks)) == tasks,
        stored_tasks(join_lines(tasks)) == tasks,
        join_lines(tasks).len() > 0,
{
    lemma_split_of_join(tasks);
    lemma_tasks_are_kept(tasks);
}

/// A position between 1 and the number of stored tasks takes that one task
/// out: the others stay, in their order, and nothing is printed. What is
/// written back has them as its lines; the file of the last task is deleted.
pub proof fn lemma_removal_in_range(content: Seq<char>, position: usize)
    requires
        1 <= position <= stored_tasks(content).len(),
    ensures
        removal(content, position).reply is None,
        removal(content, position).change != ChangeView::Keep,
        removal(content, position).change == ChangeView::Delete <==> stored_tasks(content).len()
            == 1,
        removal(content, position).change matches ChangeView::Write(text) ==> ({
            &&& text.len() > 0
            &&& stored_tasks(text) == stored_tasks(content).remove(position - 1)
            &&& split_lines(text) == stored_tasks(content).remove(position - 1)
        }),
{
    let tasks = stored_tasks(content);
    if content.len() == 0 {
        assert(tasks.len() == 0) by {
            reveal_with_fuel(Seq::filter, 2);
        }
    }
    if tasks.len() > 1 {
        let rest = tasks.remove(position - 1);
        lemma_stored_tasks_are_tasks(content);
        assert forall|i: int| 0 <= i < rest.len() implies {
            &&& is_line(#[trigger] rest[i])
            &&& rest[i].len() > 0
        } by {
            if i < position - 1 {
                assert(rest[i] == tasks[i]);
            } else {
                assert(rest[i] == tasks[i + 1]);
            }
        }
        lemma_joined_tasks_are_stored(rest);
    }
}

/// No line of the text is empty: listing and removing then see the same tasks
/// at the same positions.
pub open spec fn is_tidy(content: Seq<char>) -> bool {
    forall|i: int|
        0 <= i < split_lines(content).len() ==> (#[trigger] split_lines(content)[i]).len() > 0
}

/// The lines of a tidy text are its stored tasks.
pub proof fn lemma_tidy_lines_are_stored(content: Seq<char>)
    requires
        is_tidy(content),
    ensures
        stored_tasks(content) == split_lines(content),
        content.len() > 0,
{
    lemma_tasks_are_kept(split_lines(content));
    if content.len() == 0 {
        assert(split_lines(content)[0].len() == 0);
    }
}

/// A task that is a line and not empty, added to a tidy text or to none,
/// leaves a tidy text.
pub proof fn lemma_with_task_stays_tidy(content: Seq<char>, task: Seq<char>)
    requires
        content.len() == 0 || is_tidy(content),
        is_line(task),
        task.len() > 0,
    ensures
        is_tidy(with_task(content, task)),
{
    lemma_with_task_adds_line(content, task);
}

/// What removing writes back is tidy.
pub proof fn lemma_removal_writes_tidy(content: Seq<char>, position: usize)
    ensures
        removal(content, position).change matches ChangeView::Write(text) ==> is_tidy(text),
{
    if removal(content, position).change is Write {
        let rest = stored_tasks(content).remove(position - 1);
        lemma_removal_in_range(content, position);
        lemma_stored_tasks_are_tasks(join_lines(rest));
    }
}

/// A position that is not between 1 and the number of stored tasks is turned
/// down: the file is kept as it is, and a line says why.
pub proof fn lemma_removal_out_of_range(content: Seq<char>, position: usize)
    requires
        !(1 <= position <= stored_tasks(content).len()),
    ensures
        removal(content, position).change == ChangeView::Keep,
        removal(content, position).reply is Some,
{
}

fn text_in<'a>(file: Option<&'a str>) -> (text: &'a str)
    ensures
        text@ == text_of(file.deep_view()),
{
    match file {
        Some(text) => text,
        None => {
            proof {
                reveal_strlit("");
            }
            ""
        },
    }
}

/// Adds `task` behind the tasks in the project's file: `file` is the text of
/// the file, or `None` where there is no file to read. Returns the text to
/// write.
pub fn add_task(file: Option<&str>, task: &str) -> (updated: String)
    ensures
        updated@ == with_task(text_of(file.deep_view()), task@),
{
    let content = text_in(file);
    if content.is_empty() {
        String::from_str(task)
    } else {
        let mut updated = String::from_str(content);
        updated.append("\n");
        proof {
            reveal_strlit("\n");
        }
        updated.append(task);
        updated
    }
}

/// The lines of `content` that are not empty.
pub fn tasks_of(content: &str) -> (tasks: Vec<String>)
    ensures
        tasks.deep_view() == stored_tasks(content@),
{
    let lines = split(content);
    let mut tasks: Vec<String> = Vec::new();
    let mut at: usize = 0;
    assert(Seq::<Seq<char>>::empty().filter(is_task()) == Seq::<Seq<char>>::empty()) by {
        reveal(Seq::filter);
    }
    while at < lines.len()
        invariant
            at <= lines.len(),
            tasks.deep_view() == lines.deep_view().take(at as int).filter(is_task()),
        decreases lines.len() - at,
    {
        let ghost seen = lines.deep_view().take(at as int);
        assert(lines.deep_view().take(at + 1) == seen.push(lines[at as int]@));
        proof {
            seen.lemma_filter_push(lines[at as int]@, is_task());
        }
        if !lines[at].as_str().is_empty() {
            tasks.push(lines[at].clone());
        }
        at = at + 1;
    }
    assert(lines.deep_view().take(lines.len() as int) == lines.deep_view());
    tasks
}

/// Removes the task at the 1-based `position` from the project's file: `file`
/// is the text of the file, or `None` where there is no file to read.
pub fn remove_task(file: Option<&str>, position: usize) -> (removed: Removal)
    ensures
        removed@ == removal(text_of(file.deep_view()), position),
{
    let content = text_in(file);
    if content.is_empty() {
        return Removal {
            change: Change::Keep,
            reply: Some(Reply::say(String::from_str("No tasks"))),
        };
    }
    let mut tasks = tasks_of(content);
    if position < 1 || position > tasks.len() {
        return Removal {
            change: Change::Keep,
            reply: Some(Reply::complain(String::from_str("Index out of range"))),
        };
    }
    let ghost before = tasks.deep_view();
    tasks.remove(position - 1);
    assert(tasks.deep_view() == before.remove(position - 1));
    if tasks.len() == 0 {
        Removal { change: Change::Delete, reply: None }
    } else {
        Removal { change: Change::Write(join(&tasks)), reply: None }
    }
}

/// One line of a listing.
pub fn entry_line(position: usize, line: &str) -> (text: String)
    ensures
        text@ == entry(position as nat, line@),
{
    let mut text = decimal_string(position);
    text.append(". ");
    text.append(line);
    text
}

/// Lists a project: `file` is the text of its file, or `None` where it has no
/// file.
pub fn list_tasks(file: Option<&str>) -> (reply: Reply)
    ensures
        reply@ == listing(file.deep_view()),
{
    match file {
        None => Reply::say(String::from_str("No tasks")),
        Some(text) => {
            let tasks = split(text);
            let mut lines: Vec<String> = Vec::new();
            lines.push(String::from_str("Tasks:"));
            lines.push(String::new());
            let ghost heading = seq!["Tasks:"@, Seq::<char>::empty()];
            let mut at: usize = 0;
            while at < tasks.len()
                invariant
                    at <= tasks.len(),
                    tasks.deep_view() == split_lines(text@),
                    lines.deep_view() == heading + numbered(split_lines(text@)).take(at as int),
                decreases tasks.len() - at,
            {
                let ghost shown = lines.deep_view();
                let ghost all = numbered(split_lines(text@));
                lines.push(entry_line(at + 1, tasks[at].as_str()));
                assert(lines.deep_view() == shown.push(all[at as int]));
                at = at + 1;
            }
            assert(numbered(split_lines(text@)).take(tasks.len() as int) == numbered(
                split_lines(text@),
            ));
            Reply { stream: Stream::Stdout, lines }
        },
    }
}

} // verus!
