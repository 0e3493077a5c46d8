//! Projects: named task lists, each kept in a file of its own.
//!
//! A project is known by its name alone. The name is made of what the user
//! typed by putting an underscore for every space; the project's file is that
//! name followed by `.todo`, in one directory below the user's home directory.
//! A project exists as long as its file does.
use vstd::prelude::*;
use vstd::string::*;
use crate::reply::{complained, said, Reply, ReplyView, Stream};
use crate::text::same;

verus! {

/// The name of the project that is meant where none is given.
pub open spec fn default_name() -> Seq<char> {
    "default"@
}

/// `name` with an underscore in place of every space.
pub open spec fn normalized(name: Seq<char>) -> Seq<char> {
    name.map_values(
        |c: char|
            if c == ' ' {
                '_'
            } else {
                c
            },
    )
}

/// The name of the file that holds the project.
pub open spec fn file_name(project: Seq<char>) -> Seq<char> {
    project + ".todo"@
}

/// The directory that holds the files of all projects, for a user whose home
/// directory is `home`.
pub open spec fn store_path(home: Seq<char>) -> Seq<char> {
    home + "/.todo/projects"@
}

/// The path of the file that holds the project, in the directory `store`.
pub open spec fn file_path(store: Seq<char>, project: Seq<char>) -> Seq<char> {
    store + "/"@ + file_name(project)
}

/// `text` ends in `ending`.
pub open spec fn ends_with(text: Seq<char>, ending: Seq<char>) -> bool {
    ending.len() <= text.len() && text.skip(text.len() - ending.len()) == ending
}

/// A directory entry that a listing of projects shows: a file of a project
/// other than the default one.
pub open spec fn shown() -> spec_fn(Seq<char>) -> bool {
    |entry: Seq<char>| ends_with(entry, ".todo"@) && entry != file_name(default_name())
}

/// The project that a file name stands for: the name without its ending.
pub open spec fn project_of() -> spec_fn(Seq<char>) -> Seq<char> {
    |entry: Seq<char>| entry.take(entry.len() - ".todo"@.len())
}

/// The projects that a listing shows for the entries of the directory, in the
/// order of the entries.
pub open spec fn listed_projects(entries: Seq<Seq<char>>) -> Seq<Seq<char>> {
    entries.filter(shown()).map_values(project_of())
}

/// The names of the entries; an entry without a readable name has none.
pub open spec fn names_of(entries: Seq<Option<Seq<char>>>) -> Seq<Seq<char>> {
    entries.map_values(
        |entry: Option<Seq<char>>|
            match entry {
                Some(name) => name,
                None => Seq::empty(),
            },
    )
}

/// What listing the projects prints, given the entries of the directory in
/// the order in which it was read; `None` stands for an entry whose name is
/// not readable text.
///
/// One unreadable name fails the whole listing. A directory without files of
/// projects, as one that is not there, has no projects.
pub open spec fn projects_listing(entries: Seq<Option<Seq<char>>>) -> ReplyView {
    let projects = listed_projects(names_of(entries));
    if entries.contains(None) {
        complained("Failed to read project-name"@)
    } else if projects.len() == 0 {
        said("No projects"@)
    } else {
        ReplyView { stream: Stream::Stdout, lines: seq!["Projects:"@, Seq::empty()] + projects }
    }
}

/// A normalized name holds no space, and normalizing it again changes nothing.
pub proof fn lemma_normalized_has_no_space(name: Seq<char>)
    ensures
        !normalized(name).contains(' '),
        normalized(normalized(name)) == normalized(name),
        normalized(name).len() == name.len(),
{
}

/// A name without a space is its own normalized name.
pub proof fn lemma_normalized_keeps_plain_name(name: Seq<char>)
    requires
        !name.contains(' '),
    ensures
        normalized(name) == name,
{
}

/// A project that a listing shows has its file among the entries.
pub proof fn lemma_listed_project_has_file(entries: Seq<Seq<char>>, project: Seq<char>)
    requires
        listed_projects(entries).contains(project),
    ensures
        entries.contains(file_name(project)),
        project != default_name(),
{
    let files = entries.filter(shown());
    let listed = listed_projects(entries);
    let i = choose|i: int| 0 <= i < listed.len() && listed[i] == project;
    let entry = files[i];
    entries.lemma_filter_pred(shown(), i);
    entries.lemma_filter_contains_rev(shown(), entry);
    let cut = entry.len() - ".todo"@.len();
    assert(entry == entry.take(cut) + entry.skip(cut));
}

/// An entry that is the file of a project other than the default one has the
/// project shown in a listing.
pub proof fn lemma_file_has_project_listed(entries: Seq<Seq<char>>, project: Seq<char>)
    requires
        entries.contains(file_name(project)),
        project != default_name(),
    ensures
        listed_projects(entries).contains(project),
{
    let entry = file_name(project);
    let i = choose|i: int| 0 <= i < entries.len() && entries[i] == entry;
    let cut = entry.len() - ".todo"@.len();
    assert(entry.skip(cut) == ".todo"@);
    assert(entry.take(cut) == project);
    if entry == file_name(default_name()) {
        assert(file_name(default_name()).take(cut) == default_name());
    }
    entries.lemma_filter_contains(shown(), i);
    let files = entries.filter(shown());
    let j = choose|j: int| 0 <= j < files.len() && files[j] == entry;
    assert(listed_projects(entries)[j] == project);
}

/// The project name for what the user typed.
pub fn normalize(name: &str) -> (project: String)
    ensures
        project@ == normalized(name@),
{
    let length = name.unicode_len();
    let mut project = String::new();
    let mut start: usize = 0;
    let mut at: usize = 0;
    for c in chars: name.chars()
        invariant
            chars.seq() == name@,
            length == name@.len(),
            at == chars.index(),
            start <= at <= length,
            project@ == normalized(name@.take(start as int)),
            forall|i: int| start <= i < at ==> name@[i] != ' ',
    {
        if c == ' ' {
            project.append(name.substring_char(start, at));
            project.append("_");
            proof {
                reveal_strlit("_");
            }
            start = at + 1;
        }
        at = at + 1;
    }
    project.append(name.substring_char(start, length));
    project
}

/// The name of the file that holds the project.
pub fn file_name_of(project: &str) -> (name: String)
    ensures
        name@ == file_name(project@),
{
    let mut name = String::from_str(project);
    name.append(".todo");
    name
}

/// The directory that holds the files of all projects, below the home
/// directory `home`.
pub fn store_dir(home: &str) -> (path: String)
    ensures
        path@ == store_path(home@),
{
    let mut path = String::from_str(home);
    path.append("/.todo/projects");
    path
}

/// The path of the file that holds the project, in the directory `store`.
pub fn project_file(store: &str, project: &str) -> (path: String)
    ensures
        path@ == file_path(store@, project@),
{
    let mut path = String::from_str(store);
    path.append("/");
    path.append(file_name_of(project).as_str());
    path
}

/// The project that a directory entry stands for in a listing of projects,
/// if it stands for one.
pub fn project_in(entry: &str) -> (project: Option<String>)
    ensures
        shown()(entry@) ==> project.deep_view() == Some(project_of()(entry@)),
        !shown()(entry@) ==> project is None,
{
    let length = entry.unicode_len();
    let ending = ".todo";
    let tail = ending.unicode_len();
    if length < tail {
        return None;
    }
    let cut = length - tail;
    if same(entry.substring_char(cut, length), ending) && !same(
        entry,
        file_name_of("default").as_str(),
    ) {
        Some(String::from_str(entry.substring_char(0, cut)))
    } else {
        None
    }
}

/// Lists the projects, given the entries of the directory.
pub fn projects_list(entries: &Vec<Option<String>>) -> (reply: Reply)
    ensures
        reply@ == projects_listing(entries.deep_view()),
{
    let mut lines: Vec<String> = Vec::new();
    lines.push(String::from_str("Projects:"));
    lines.push(String::new());
    let ghost heading = seq!["Projects:"@, Seq::<char>::empty()];
    let ghost names = names_of(entries.deep_view());
    let mut at: usize = 0;
    assert(listed_projects(Seq::<Seq<char>>::empty()) == Seq::<Seq<char>>::empty()) by {
        reveal(Seq::filter);
    }
    while at < entries.len()
        invariant
            at <= entries.len(),
            names == names_of(entries.deep_view()),
            forall|i: int| 0 <= i < at ==> entries.deep_view()[i] is Some,
            lines.deep_view() == heading + listed_projects(names.take(at as int)),
        decreases entries.len() - at,
    {
        let ghost seen = names.take(at as int);
        let ghost shown_lines = lines.deep_view();
        match &entries[at] {
            None => {
                assert(entries.deep_view()[at as int] == None::<Seq<char>>);
                return Reply::complain(String::from_str("Failed to read project-name"));
            },
            Some(name) => {
                assert(names.take(at + 1) == seen.push(name@));
                proof {
                    seen.lemma_filter_push(name@, shown());
                }
                match project_in(name.as_str()) {
                    Some(project) => {
                        lines.push(project);
                        assert(lines.deep_view() == shown_lines.push(project@));
                    },
                    None => {},
                }
            },
        }
        at = at + 1;
    }
    assert(names.take(entries.len() as int) == names);
    if lines.len() == 2 {
        Reply::say(String::from_str("No projects"))
    } else {
        Reply { stream: Stream::Stdout, lines }
    }
}

} // verus!
