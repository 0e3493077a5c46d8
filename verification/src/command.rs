//! Command lines: what the arguments of the program ask for.
//!
//! The arguments are those of the process: the program's own name first, then
//! the command, then what the command takes. Each function here reads them and
//! returns a [`Plan`]: either a reply to print, or the work to do on the
//! projects' files. Nothing here fails; a command line that cannot be followed
//! is answered with a line that says how to put it right.
use vstd::prelude::*;
use vstd::string::*;
use crate::number::{parse_position, read_position};
use crate::project::{default_name, normalize, normalized};
use crate::reply::{complained, said, Reply, ReplyView, Stream};
use crate::text::{has_space, same};

verus! {

/// What a command line asks for.
#[derive(Clone, Debug, PartialEq, Eq)]
pub enum Plan {
    /// Print the reply; touch no file.
    Tell(Reply),
    /// Add `task` as the last task of `project`: write the project's file
    /// anew with what [`crate::tasks::add_task`] returns for the text of the
    /// file, or for `None` where the file cannot be read.
    Add { project: String, task: String },
    /// Remove the task at the 1-based `position` from `project`: do and print
    /// what [`crate::tasks::remove_task`] returns for the text of the
    /// project's file, or for `None` where the file cannot be read.
    Remove { project: String, position: usize },
    /// Print the tasks of `project`: what [`crate::tasks::list_tasks`] returns
    /// for the text of the project's file, or for `None` where the file
    /// cannot be opened.
    List { project: String },
    /// Delete the file of `project`, and with it all its tasks. A project
    /// without a file stays as it is; that is no failure.
    Clear { project: String },
    /// Print the names of the projects: what
    /// [`crate::project::projects_list`] returns for the entries of the
    /// directory that holds the files.
    ListProjects,
    /// Delete the directory that holds the files, and with it every project.
    /// Unlike `Clear`, this fails where there is nothing to delete.
    ClearProjects,
}

/// A plan as plain sequences of characters.
pub enum PlanView {
    Tell(ReplyView),
    Add { project: Seq<char>, task: Seq<char> },
    Remove { project: Seq<char>, position: usize },
    List { project: Seq<char> },
    Clear { project: Seq<char> },
    ListProjects,
    ClearProjects,
}

impl PlanView {
    /// The project whose file the plan reads or changes.
    pub open spec fn project(self) -> Option<Seq<char>> {
        match self {
            PlanView::Add { project, .. } => Some(project),
            PlanView::Remove { project, .. } => Some(project),
            PlanView::List { project } => Some(project),
            PlanView::Clear { project } => Some(project),
            PlanView::Tell(_) | PlanView::ListProjects | PlanView::ClearProjects => None,
        }
    }
}

impl View for Plan {
    type V = PlanView;

    open spec fn view(&self) -> PlanView {
        match self {
            Plan::Tell(reply) => PlanView::Tell(reply@),
            Plan::Add { project, task } => PlanView::Add { project: project@, task: task@ },
            Plan::Remove { project, position } => PlanView::Remove {
                project: project@,
                position: *position,
            },
            Plan::List { project } => PlanView::List { project: project@ },
            Plan::Clear { project } => PlanView::Clear { project: project@ },
            Plan::ListProjects => PlanView::ListProjects,
            Plan::ClearProjects => PlanView::ClearProjects,
        }
    }
}

/// The argument at `at` is there and reads `word`.
pub open spec fn reads(args: Seq<Seq<char>>, at: int, word: Seq<char>) -> bool {
    at < args.len() && args[at] == word
}

/// The argument at `at` is there and asks for help.
pub open spec fn asks_help(args: Seq<Seq<char>>, at: int) -> bool {
    reads(args, at, "--help"@) || reads(args, at, "-h"@)
}

/// `word` as it is typed on a command line: between double quotes where it
/// holds a space.
pub open spec fn quoted(word: Seq<char>) -> Seq<char> {
    if word.contains(' ') {
        "\""@ + word + "\""@
    } else {
        word
    }
}

/// What `add` asks for: a task behind the command, then `-p` and a project
/// name, or neither for the default project.
pub open spec fn add_plan(args: Seq<Seq<char>>) -> PlanView {
    if args.len() <= 2 {
        PlanView::Tell(complained("No task-name given"@))
    } else if asks_help(args, 2) {
        PlanView::Tell(said("Usage: todo add {task-name} -p {project-name}"@))
    } else if !reads(args, 3, "-p"@) {
        PlanView::Add { project: default_name(), task: args[2] }
    } else if args.len() <= 4 {
        PlanView::Tell(said("Usage: todo add "@ + quoted(args[2]) + " -p {project-name}"@))
    } else {
        PlanView::Add { project: normalized(args[4]), task: args[2] }
    }
}

/// What `remove` asks for: a position behind the command, then `-p` and a
/// project name, or neither for the default project.
///
/// A `-p` without a name is answered before the position is read, so the
/// answer repeats the position as it was typed. Help is answered with the
/// usage line that `add` has.
pub open spec fn remove_plan(args: Seq<Seq<char>>) -> PlanView {
    if args.len() <= 2 {
        PlanView::Tell(complained("No index given"@))
    } else if asks_help(args, 2) {
        PlanView::Tell(said("Usage: todo add {task-name} -p {project-name}"@))
    } else if reads(args, 3, "-p"@) && args.len() <= 4 {
        PlanView::Tell(said("Usage: todo remove "@ + quoted(args[2]) + " -p {project-name}"@))
    } else {
        match parse_position(args[2]) {
            None => PlanView::Tell(complained("Invalid index format"@)),
            Some(position) => PlanView::Remove {
                project: if reads(args, 3, "-p"@) {
                    normalized(args[4])
                } else {
                    default_name()
                },
                position,
            },
        }
    }
}

/// What `clear` asks for: `-p` and a project name behind the command, or
/// neither for the default project.
pub open spec fn clear_plan(args: Seq<Seq<char>>) -> PlanView {
    if reads(args, 2, "-p"@) {
        if args.len() <= 3 {
            PlanView::Tell(said("Usage: todo clear -p {project-name}"@))
        } else {
            PlanView::Clear { project: normalized(args[3]) }
        }
    } else if asks_help(args, 2) {
        PlanView::Tell(said("Usage: todo clear -p {project-name}"@))
    } else {
        PlanView::Clear { project: default_name() }
    }
}

/// What `list` asks for: `-p` and a project name behind the command, or
/// neither for the default project.
pub open spec fn list_plan(args: Seq<Seq<char>>) -> PlanView {
    if reads(args, 2, "-p"@) {
        if args.len() <= 3 {
            PlanView::Tell(said("Usage: todo list -p {project-name}"@))
        } else {
            PlanView::List { project: normalized(args[3]) }
        }
    } else if asks_help(args, 2) {
        PlanView::Tell(said("Usage: todo list -p {project-name}"@))
    } else {
        PlanView::List { project: default_name() }
    }
}

/// The arguments of the `clear` that `projects remove` stands for: `-p`, and
/// behind it what follows the first three arguments.
pub open spec fn forwarded(args: Seq<Seq<char>>) -> Seq<Seq<char>> {
    seq!["todo"@, "clear"@, "-p"@] + if args.len() > 3 {
        args.skip(3)
    } else {
        Seq::empty()
    }
}

/// What `projects remove` asks for: to clear the project named behind it.
pub open spec fn projects_remove_plan(args: Seq<Seq<char>>) -> PlanView {
    if args.len() <= 3 {
        PlanView::Tell(said("Usage: todo clear -p {project-name}"@))
    } else {
        PlanView::Clear { project: normalized(args[3]) }
    }
}

/// What `projects` asks for, by the word behind it.
pub open spec fn projects_plan(args: Seq<Seq<char>>) -> PlanView {
    if reads(args, 2, "list"@) {
        PlanView::ListProjects
    } else if reads(args, 2, "clear"@) {
        PlanView::ClearProjects
    } else if reads(args, 2, "remove"@) {
        projects_remove_plan(args)
    } else {
        PlanView::Tell(said("Usage: todo projects {command} {project-name} {modifiers}"@))
    }
}

/// What is printed where no command is given: how the program is called, and
/// the commands it has.
pub open spec fn usage() -> ReplyView {
    ReplyView {
        stream: Stream::Stdout,
        lines: seq![
            "Usage: todo {command} {task-name} {modifiers}"@,
            Seq::empty(),
            "Available commands:"@,
            Seq::empty(),
            "add"@,
            "remove"@,
            "list"@,
            "clear"@,
        ],
    }
}

/// What the program's arguments ask for, by the command behind the program's
/// name.
pub open spec fn dispatch_plan(args: Seq<Seq<char>>) -> PlanView {
    if args.len() <= 1 {
        PlanView::Tell(usage())
    } else if reads(args, 1, "add"@) {
        add_plan(args)
    } else if reads(args, 1, "remove"@) {
        remove_plan(args)
    } else if reads(args, 1, "clear"@) {
        clear_plan(args)
    } else if reads(args, 1, "list"@) {
        list_plan(args)
    } else if reads(args, 1, "projects"@) {
        projects_plan(args)
    } else {
        PlanView::Tell(said("Unknown command: "@ + args[1]))
    }
}

fn is_word(args: &Vec<String>, at: usize, word: &str) -> (yes: bool)
    ensures
        yes == reads(args.deep_view(), at as int, word@),
{
    at < args.len() && same(args[at].as_str(), word)
}

fn is_help(args: &Vec<String>, at: usize) -> (yes: bool)
    ensures
        yes == asks_help(args.deep_view(), at as int),
{
    is_word(args, at, "--help") || is_word(args, at, "-h")
}

fn tell(line: &str) -> (plan: Plan)
    ensures
        plan@ == PlanView::Tell(said(line@)),
{
    Plan::Tell(Reply::say(String::from_str(line)))
}

fn warn(line: &str) -> (plan: Plan)
    ensures
        plan@ == PlanView::Tell(complained(line@)),
{
    Plan::Tell(Reply::complain(String::from_str(line)))
}

/// `word` as it is typed on a command line.
pub fn quote(word: &str) -> (text: String)
    ensures
        text@ == quoted(word@),
{
    if has_space(word) {
        let mut text = String::from_str("\"");
        text.append(word);
        text.append("\"");
        text
    } else {
        String::from_str(word)
    }
}

fn hint(before: &str, word: &str, behind: &str) -> (plan: Plan)
    ensures
        plan@ == PlanView::Tell(said(before@ + quoted(word@) + behind@)),
{
    let mut line = String::from_str(before);
    line.append(quote(word).as_str());
    line.append(behind);
    Plan::Tell(Reply::say(line))
}

/// Reads the arguments of `add`.
pub fn add(args: &Vec<String>) -> (plan: Plan)
    ensures
        plan@ == add_plan(args.deep_view()),
{
    if args.len() <= 2 {
        warn("No task-name given")
    } else if is_help(args, 2) {
        tell("Usage: todo add {task-name} -p {project-name}")
    } else if !is_word(args, 3, "-p") {
        Plan::Add { project: String::from_str("default"), task: args[2].clone() }
    } else if args.len() <= 4 {
        hint("Usage: todo add ", args[2].as_str(), " -p {project-name}")
    } else {
        Plan::Add { project: normalize(args[4].as_str()), task: args[2].clone() }
    }
}

/// Reads the arguments of `remove`.
pub fn remove(args: &Vec<String>) -> (plan: Plan)
    ensures
        plan@ == remove_plan(args.deep_view()),
{
    if args.len() <= 2 {
        warn("No index given")
    } else if is_help(args, 2) {
        tell("Usage: todo add {task-name} -p {project-name}")
    } else if is_word(args, 3, "-p") && args.len() <= 4 {
        hint("Usage: todo remove ", args[2].as_str(), " -p {project-name}")
    } else {
        match read_position(args[2].as_str()) {
            None => warn("Invalid index format"),
            Some(position) => {
                let project = if is_word(args, 3, "-p") {
                    normalize(args[4].as_str())
                } else {
                    String::from_str("default")
                };
                Plan::Remove { project, position }
            },
        }
    }
}

/// Reads the arguments of `clear`.
pub fn clear(args: &Vec<String>) -> (plan: Plan)
    ensures
        plan@ == clear_plan(args.deep_view()),
{
    if is_word(args, 2, "-p") {
        if args.len() <= 3 {
            tell("Usage: todo clear -p {project-name}")
        } else {
            Plan::Clear { project: normalize(args[3].as_str()) }
        }
    } else if is_help(args, 2) {
        tell("Usage: todo clear -p {project-name}")
    } else {
        Plan::Clear { project: String::from_str("default") }
    }
}

/// Reads the arguments of `list`.
pub fn list(args: &Vec<String>) -> (plan: Plan)
    ensures
        plan@ == list_plan(args.deep_view()),
{
    if is_word(args, 2, "-p") {
        if args.len() <= 3 {
            tell("Usage: todo list -p {project-name}")
        } else {
            Plan::List { project: normalize(args[3].as_str()) }
        }
    } else if is_help(args, 2) {
        tell("Usage: todo list -p {project-name}")
    } else {
        Plan::List { project: String::from_str("default") }
    }
}

/// Reads the arguments of `projects remove`: the project named behind the
/// first three arguments is cleared, as `clear -p` would clear it.
pub fn projects_remove(args: &Vec<String>) -> (plan: Plan)
    ensures
        plan@ == projects_remove_plan(args.deep_view()),
        plan@ == clear_plan(forwarded(args.deep_view())),
{
    let mut passed: Vec<String> = Vec::new();
    passed.push(String::from_str("todo"));
    passed.push(String::from_str("clear"));
    passed.push(String::from_str("-p"));
    let ghost head = seq!["todo"@, "clear"@, "-p"@];
    let mut at: usize = 3;
    while at < args.len()
        invariant
            3 <= at,
            at > 3 ==> at <= args.len(),
            passed.deep_view() == head + Seq::new(
                (at - 3) as nat,
                |i: int| args.deep_view()[i + 3],
            ),
        decreases args.len() - at,
    {
        let ghost before = passed.deep_view();
        passed.push(args[at].clone());
        assert(passed.deep_view() == before.push(args[at as int]@));
        at = at + 1;
    }
    self::clear(&passed)
}

/// Reads the arguments of `projects`.
pub fn projects(args: &Vec<String>) -> (plan: Plan)
    ensures
        plan@ == projects_plan(args.deep_view()),
{
    if is_word(args, 2, "list") {
        Plan::ListProjects
    } else if is_word(args, 2, "clear") {
        Plan::ClearProjects
    } else if is_word(args, 2, "remove") {
        projects_remove(args)
    } else {
        tell("Usage: todo projects {command} {project-name} {modifiers}")
    }
}

fn print_usage() -> (reply: Reply)
    ensures
        reply@ == usage(),
{
    let mut lines: Vec<String> = Vec::new();
    lines.push(String::from_str("Usage: todo {command} {task-name} {modifiers}"));
    lines.push(String::new());
    lines.push(String::from_str("Available commands:"));
    lines.push(String::new());
    lines.push(String::from_str("add"));
    lines.push(String::from_str("remove"));
    lines.push(String::from_str("list"));
    lines.push(String::from_str("clear"));
    let reply = Reply { stream: Stream::Stdout, lines };
    assert(reply.lines.deep_view() == usage().lines);
    reply
}

/// Reads the arguments of the program.
pub fn dispatch(args: &Vec<String>) -> (plan: Plan)
    ensures
        plan@ == dispatch_plan(args.deep_view()),
{
    if args.len() <= 1 {
        Plan::Tell(print_usage())
    } else if is_word(args, 1, "add") {
        self::add(args)
    } else if is_word(args, 1, "remove") {
        remove(args)
    } else if is_word(args, 1, "clear") {
        clear(args)
    } else if is_word(args, 1, "list") {
        list(args)
    } else if is_word(args, 1, "projects") {
        projects(args)
    } else {
        let mut line = String::from_str("Unknown command: ");
        line.append(args[1].as_str());
        Plan::Tell(Reply::say(line))
    }
}

} // verus!
