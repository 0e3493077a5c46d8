use todo::project::{file_name_of, normalize, project_file, project_in, projects_list, store_dir};
use todo::reply::{Reply, Stream};

fn entries(names: &[&str]) -> Vec<Option<String>> {
    names.iter().map(|name| Some(name.to_string())).collect()
}

fn lines(words: &[&str]) -> Vec<String> {
    words.iter().map(|word| word.to_string()).collect()
}

#[test]
fn normalize_puts_underscores_for_spaces() {
    assert_eq!(normalize("home stuff"), "home_stuff");
}

#[test]
fn normalize_changes_every_space() {
    assert_eq!(normalize(" a  b "), "_a__b_");
    assert_eq!(normalize("   "), "___");
}

#[test]
fn normalize_keeps_other_characters() {
    assert_eq!(normalize("groceries"), "groceries");
    assert_eq!(normalize(""), "");
    assert_eq!(normalize("a\tb_c-d"), "a\tb_c-d");
    assert_eq!(normalize("größe eins"), "größe_eins");
}

#[test]
fn normalize_twice_is_normalize_once() {
    for name in ["home stuff", "a b c", "plain", " x "] {
        assert_eq!(normalize(&normalize(name)), normalize(name));
    }
}

#[test]
fn normalize_agrees_with_std() {
    for name in ["home stuff", "", " ", "a  b", "日本 語"] {
        assert_eq!(normalize(name), name.replace(' ', "_"));
    }
}

#[test]
fn file_name_has_the_ending() {
    assert_eq!(file_name_of("groceries"), "groceries.todo");
    assert_eq!(file_name_of("default"), "default.todo");
    assert_eq!(file_name_of(""), ".todo");
}

#[test]
fn store_dir_is_below_home() {
    assert_eq!(store_dir("/home/ann"), "/home/ann/.todo/projects");
}

#[test]
fn project_file_is_in_the_store() {
    assert_eq!(project_file("/tmp/store", "groceries"), "/tmp/store/groceries.todo");
    assert_eq!(
        project_file(&store_dir("/home/ann"), "default"),
        "/home/ann/.todo/projects/default.todo"
    );
}

#[test]
fn project_in_takes_files_of_projects() {
    assert_eq!(project_in("groceries.todo"), Some("groceries".to_string()));
    assert_eq!(project_in("home_stuff.todo"), Some("home_stuff".to_string()));
    assert_eq!(project_in("größe.todo"), Some("größe".to_string()));
    assert_eq!(project_in("a.todo.todo"), Some("a.todo".to_string()));
}

#[test]
fn project_in_takes_the_file_of_the_project_without_name() {
    assert_eq!(project_in(".todo"), Some(String::new()));
}

#[test]
fn project_in_leaves_out_the_default_project() {
    assert_eq!(project_in("default.todo"), None);
    assert_eq!(project_in("my_default.todo"), Some("my_default".to_string()));
}

#[test]
fn project_in_leaves_out_other_files() {
    assert_eq!(project_in("groceries.txt"), None);
    assert_eq!(project_in("groceries"), None);
    assert_eq!(project_in("todo"), None);
    assert_eq!(project_in(""), None);
    assert_eq!(project_in("groceries.todo.bak"), None);
    assert_eq!(project_in("groceries.Todo"), None);
}

#[test]
fn projects_list_of_empty_directory_has_no_projects() {
    assert_eq!(
        projects_list(&entries(&[])),
        Reply { stream: Stream::Stdout, lines: lines(&["No projects"]) }
    );
}

#[test]
fn projects_list_of_default_project_alone_has_no_projects() {
    assert_eq!(
        projects_list(&entries(&["default.todo", "notes.txt"])),
        Reply { stream: Stream::Stdout, lines: lines(&["No projects"]) }
    );
}

#[test]
fn projects_list_shows_projects_in_directory_order() {
    assert_eq!(
        projects_list(&entries(&[
            "work.todo",
            "default.todo",
            "groceries.todo",
            "readme",
            "home_stuff.todo",
        ])),
        Reply {
            stream: Stream::Stdout,
            lines: lines(&["Projects:", "", "work", "groceries", "home_stuff"]),
        }
    );
}

#[test]
fn projects_list_fails_on_unreadable_name() {
    let mut found = entries(&["work.todo"]);
    found.push(None);
    found.push(Some("groceries.todo".to_string()));
    assert_eq!(
        projects_list(&found),
        Reply { stream: Stream::Stderr, lines: lines(&["Failed to read project-name"]) }
    );
}

#[test]
fn projects_list_fails_on_unreadable_name_alone() {
    assert_eq!(
        projects_list(&vec![None]),
        Reply { stream: Stream::Stderr, lines: lines(&["Failed to read project-name"]) }
    );
}
