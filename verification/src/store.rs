//! The files of all projects, and what holds of them as one plan after
//! another is carried out.
//!
//! The library touches no file: the program around it reads a project's file,
//! hands the text to [`crate::tasks`], and writes back or deletes as the
//! answer says. This module states that protocol over a map from each project
//! that has a file to the text of the file, and proves what the commands
//! promise of one another.
use vstd::prelude::*;
use crate::command::{
    add_plan, asks_help, clear_plan, dispatch_plan, list_plan, reads, remove_plan, PlanView,
};
use crate::number::parse_position;
use crate::project::{
    default_name, file_name, lemma_file_has_project_listed, lemma_listed_project_has_file,
    lemma_normalized_has_no_space, lemma_normalized_keeps_plain_name, listed_projects, names_of,
    normalized,
};
use crate::reply::{complained, said, Stream};
use crate::tasks::{
    is_tidy, lemma_removal_in_range, lemma_removal_out_of_range, lemma_removal_writes_tidy,
    lemma_tidy_lines_are_stored,
    lemma_with_task_adds_line, lemma_with_task_stays_tidy, listing, numbered, removal,
    stored_tasks, text_of, with_task, ChangeView,
};
use crate::text::{are_lines, is_line, join_lines, lemma_join_of_split, split_lines};

verus! {

/// The text of the file of each project that has one, by the project's name.
pub type Files = Map<Seq<char>, Seq<char>>;

/// The file of the project: its text, or `None` where the project has no
/// file.
pub open spec fn file_of(files: Files, project: Seq<char>) -> Option<Seq<char>> {
    if files.dom().contains(project) {
        Some(files[project])
    } else {
        None
    }
}

/// The text of the project, as adding and removing read it: a project without
/// a file has none.
pub open spec fn content_of(files: Files, project: Seq<char>) -> Seq<char> {
    text_of(file_of(files, project))
}

/// The files once the file of `project` has been changed.
pub open spec fn changed(files: Files, project: Seq<char>, change: ChangeView) -> Files {
    match change {
        ChangeView::Keep => files,
        ChangeView::Write(text) => files.insert(project, text),
        ChangeView::Delete => files.remove(project),
    }
}

/// The files once the plan has been carried out.
pub open spec fn carried_out(files: Files, plan: PlanView) -> Files {
    match plan {
        PlanView::Add { project, task } => files.insert(
            project,
            with_task(content_of(files, project), task),
        ),
        PlanView::Remove { project, position } => changed(
            files,
            project,
            removal(content_of(files, project), position).change,
        ),
        PlanView::Clear { project } => files.remove(project),
        PlanView::ClearProjects => Map::empty(),
        PlanView::Tell(_) | PlanView::List { .. } | PlanView::ListProjects => files,
    }
}

/// The files once each of the tasks has been added to the project, in order.
pub open spec fn after_adding(files: Files, project: Seq<char>, tasks: Seq<Seq<char>>) -> Files
    decreases tasks.len(),
{
    if tasks.len() == 0 {
        files
    } else {
        carried_out(
            after_adding(files, project, tasks.drop_last()),
            PlanView::Add { project, task: tasks.last() },
        )
    }
}

/// The entries are those of the directory that holds the files: a project has
/// a file exactly when the name of its file is among the entries.
pub open spec fn is_directory_of(entries: Seq<Option<Seq<char>>>, files: Files) -> bool {
    forall|project: Seq<char>|
        files.dom().contains(project) <==> entries.contains(Some(#[trigger] file_name(project)))
}

/// Tasks added one after another become the last lines of the project's
/// file, in the order in which they were added, behind the lines that the file
/// held; no other project changes.
///
/// This holds of tasks without a newline. Where the file has no text it does
/// not hold if the first of two or more tasks is empty: an empty task leaves
/// the file without text, and the next task then takes its place.
pub proof fn lemma_added_tasks_follow(files: Files, project: Seq<char>, tasks: Seq<Seq<char>>)
    requires
        are_lines(tasks),
        content_of(files, project).len() > 0 || tasks.len() <= 1 || tasks[0].len() > 0,
    ensures
        tasks.len() > 0 ==> ({
            let before = content_of(files, project);
            let after = after_adding(files, project, tasks);
            &&& after.dom().contains(project)
            &&& before.len() == 0 ==> split_lines(after[project]) == tasks
            &&& before.len() > 0 ==> split_lines(after[project]) == split_lines(before) + tasks
            &&& before.len() > 0 || tasks[0].len() > 0 ==> after[project].len() > 0
        }),
        forall|other: Seq<char>|
            other != project ==> file_of(after_adding(files, project, tasks), other) == file_of(
                files,
                other,
            ),
    decreases tasks.len(),
{
    if tasks.len() > 0 {
        let front = tasks.drop_last();
        let before = content_of(files, project);
        let grown = content_of(after_adding(files, project, front), project);
        lemma_added_tasks_follow(files, project, front);
        lemma_with_task_adds_line(grown, tasks.last());
        assert(front.push(tasks.last()) == tasks);
        assert((split_lines(before) + front).push(tasks.last()) == split_lines(before) + tasks);
    }
}

/// Tasks added one after another to a project that had no file are listed in
/// the order in which they were added, each behind its position counted from
/// 1.
///
/// This holds of tasks without a newline. It does not hold where the first of
/// two or more tasks is empty: an empty task leaves the file without text, and
/// the next task then takes its place.
pub proof fn lemma_added_tasks_are_listed(files: Files, project: Seq<char>, tasks: Seq<Seq<char>>)
    requires
        !files.dom().contains(project),
        are_lines(tasks),
        tasks.len() <= 1 || tasks[0].len() > 0,
    ensures
        tasks.len() == 0 ==> file_of(after_adding(files, project, tasks), project) is None,
        tasks.len() == 0 ==> listing(file_of(after_adding(files, project, tasks), project))
            == said("No tasks"@),
        tasks.len() > 0 ==> file_of(after_adding(files, project, tasks), project) == Some(
            join_lines(tasks),
        ),
        tasks.len() > 0 ==> listing(file_of(after_adding(files, project, tasks), project)).stream
            == Stream::Stdout,
        tasks.len() > 0 ==> listing(file_of(after_adding(files, project, tasks), project)).lines
            == seq!["Tasks:"@, Seq::empty()] + numbered(tasks),
{
    lemma_added_tasks_follow(files, project, tasks);
    if tasks.len() > 0 {
        lemma_join_of_split(after_adding(files, project, tasks)[project]);
    }
}

/// Removing at a position between 1 and the number of stored tasks leaves the
/// project with the other tasks, in their order. A listing shows the same
/// tasks, or no tasks where none is left.
pub proof fn lemma_remove_takes_one_task(files: Files, project: Seq<char>, position: usize)
    requires
        1 <= position <= stored_tasks(content_of(files, project)).len(),
    ensures
        ({
            let rest = stored_tasks(content_of(files, project)).remove(position - 1);
            let after = carried_out(files, (PlanView::Remove { project, position }));
            &&& stored_tasks(content_of(after, project)) == rest
            &&& file_of(after, project) is None <==> rest.len() == 0
            &&& file_of(after, project) matches Some(text) ==> split_lines(text) == rest
        }),
{
    lemma_removal_in_range(content_of(files, project), position);
    assert(stored_tasks(Seq::empty()).len() == 0) by {
        reveal_with_fuel(Seq::filter, 2);
    }
}

/// Every file is tidy: none holds an empty line.
pub open spec fn are_tidy(files: Files) -> bool {
    forall|project: Seq<char>| files.dom().contains(project) ==> is_tidy(#[trigger] files[project])
}

/// Tidy files stay tidy, whatever plan is carried out, as long as the tasks
/// that are added are lines and not empty.
pub proof fn lemma_files_stay_tidy(files: Files, plan: PlanView)
    requires
        are_tidy(files),
        (plan matches PlanView::Add { task, .. } ==> is_line(task) && task.len() > 0),
    ensures
        are_tidy(carried_out(files, plan)),
{
    match plan {
        PlanView::Add { project, task } => {
            lemma_with_task_stays_tidy(content_of(files, project), task);
        },
        PlanView::Remove { project, position } => {
            lemma_removal_writes_tidy(content_of(files, project), position);
        },
        _ => {},
    }
}

/// In a tidy file the position that a listing shows for a task is the
/// position at which removing finds it: the task that was listed at
/// `position` leaves, and the listing of the others closes up.
pub proof fn lemma_remove_takes_listed_task(files: Files, project: Seq<char>, position: usize)
    requires
        files.dom().contains(project),
        is_tidy(files[project]),
        1 <= position <= split_lines(files[project]).len(),
    ensures
        ({
            let rest = split_lines(files[project]).remove(position - 1);
            let after = carried_out(files, (PlanView::Remove { project, position }));
            &&& file_of(after, project) is None <==> rest.len() == 0
            &&& file_of(after, project) matches Some(text) ==> split_lines(text) == rest
        }),
{
    lemma_tidy_lines_are_stored(files[project]);
    lemma_remove_takes_one_task(files, project, position);
}

/// Removing at any other position changes no file.
pub proof fn lemma_remove_out_of_range_keeps_files(
    files: Files,
    project: Seq<char>,
    position: usize,
)
    requires
        !(1 <= position <= stored_tasks(content_of(files, project)).len()),
    ensures
        carried_out(files, (PlanView::Remove { project, position })) == files,
        removal(content_of(files, project), position).reply is Some,
{
    lemma_removal_out_of_range(content_of(files, project), position);
}

/// A project that was cleared lists no tasks.
pub proof fn lemma_cleared_project_lists_no_tasks(files: Files, project: Seq<char>)
    ensures
        listing(file_of(carried_out(files, (PlanView::Clear { project })), project)) == said(
            "No tasks"@,
        ),
{
}

/// A project whose last task was removed has no file, and a listing of the
/// projects does not show it.
pub proof fn lemma_emptied_project_is_not_listed(
    files: Files,
    project: Seq<char>,
    entries: Seq<Option<Seq<char>>>,
)
    requires
        stored_tasks(content_of(files, project)).len() == 1,
        is_directory_of(
            entries,
            carried_out(files, (PlanView::Remove { project, position: 1 })),
        ),
    ensures
        !carried_out(files, (PlanView::Remove { project, position: 1 })).dom().contains(project),
        !listed_projects(names_of(entries)).contains(project),
{
    lemma_removal_in_range(content_of(files, project), 1);
    let names = names_of(entries);
    if listed_projects(names).contains(project) {
        lemma_listed_project_has_file(names, project);
        assert(file_name(project).len() > 0) by {
            reveal_strlit(".todo");
        }
    }
}

/// A project that has a file, other than the default project, is shown in a
/// listing of the projects.
pub proof fn lemma_project_with_file_is_listed(
    files: Files,
    project: Seq<char>,
    entries: Seq<Option<Seq<char>>>,
)
    requires
        files.dom().contains(project),
        project != default_name(),
        is_directory_of(entries, files),
    ensures
        listed_projects(names_of(entries)).contains(project),
{
    let i = choose|i: int| 0 <= i < entries.len() && entries[i] == Some(file_name(project));
    assert(names_of(entries)[i] == file_name(project));
    lemma_file_has_project_listed(names_of(entries), project);
}

/// `add` without a task changes no file, and says that the task is missing.
pub proof fn lemma_add_without_task_changes_nothing(files: Files, args: Seq<Seq<char>>)
    requires
        args.len() <= 2,
    ensures
        add_plan(args) == PlanView::Tell(complained("No task-name given"@)),
        carried_out(files, add_plan(args)) == files,
        reads(args, 1, "add"@) ==> dispatch_plan(args) == add_plan(args),
{
}

/// A name behind `-p` stands for the same project in every command: the name
/// with an underscore for each space, which is the name itself where it holds
/// no space. A command that is answered with a reply alone works on no
/// project.
pub proof fn lemma_commands_agree_on_project(name: Seq<char>, args: Seq<Seq<char>>)
    ensures
        !normalized(name).contains(' '),
        !name.contains(' ') ==> normalized(name) == name,
        reads(args, 3, "-p"@) && reads(args, 4, name) ==> ({
            &&& add_plan(args).project() is Some ==> add_plan(args).project() == Some(
                normalized(name),
            )
            &&& remove_plan(args).project() is Some ==> remove_plan(args).project() == Some(
                normalized(name),
            )
        }),
        reads(args, 2, "-p"@) && reads(args, 3, name) ==> ({
            &&& list_plan(args) == (PlanView::List { project: normalized(name) })
            &&& clear_plan(args) == (PlanView::Clear { project: normalized(name) })
        }),
{
    lemma_normalized_has_no_space(name);
    if !name.contains(' ') {
        lemma_normalized_keeps_plain_name(name);
    }
}

/// With a task that does not ask for help, a position that reads as a number,
/// and a name behind `-p`, `add` and `remove` work on the project of that
/// name; without `-p`, every command works on the default project.
pub proof fn lemma_commands_name_their_project(args: Seq<Seq<char>>)
    ensures
        args.len() > 4 && reads(args, 3, "-p"@) && !asks_help(args, 2) ==> ({
            &&& add_plan(args) == (PlanView::Add { project: normalized(args[4]), task: args[2] })
            &&& parse_position(args[2]) matches Some(position) ==> remove_plan(args)
                == (PlanView::Remove { project: normalized(args[4]), position })
        }),
        args.len() > 2 && !reads(args, 3, "-p"@) && !asks_help(args, 2) ==> ({
            &&& add_plan(args) == (PlanView::Add { project: default_name(), task: args[2] })
            &&& parse_position(args[2]) matches Some(position) ==> remove_plan(args)
                == (PlanView::Remove { project: default_name(), position })
        }),
        args.len() <= 2 ==> ({
            &&& list_plan(args) == (PlanView::List { project: default_name() })
            &&& clear_plan(args) == (PlanView::Clear { project: default_name() })
        }),
{
}

} // verus!
