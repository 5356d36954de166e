use tray_shell::shell_reveal::{contains_char, parent_dir, plan_reveal, Platform, RevealPlan};

#[test]
fn windows_uses_explorer_select() {
    let plan = plan_reveal(Platform::Windows, "C:/data/report.pdf".to_owned(), false);
    match plan {
        RevealPlan::ExplorerSelect { path } => assert_eq!(path, "C:/data/report.pdf"),
        _ => panic!("windows reveals through explorer"),
    }
}

#[test]
fn macos_uses_finder() {
    let plan = plan_reveal(Platform::MacOs, "/Users/me/file.txt".to_owned(), false);
    match plan {
        RevealPlan::FinderReveal { path } => assert_eq!(path, "/Users/me/file.txt"),
        _ => panic!("macos reveals through finder"),
    }
}

#[test]
fn linux_uses_the_bus_for_a_safe_path() {
    let plan = plan_reveal(Platform::Linux, "/home/me/file.txt".to_owned(), true);
    match plan {
        RevealPlan::DbusShowItems { path } => assert_eq!(path, "/home/me/file.txt"),
        _ => panic!("a bus-safe path goes over the bus"),
    }
}

#[test]
fn a_comma_breaks_the_bus_call() {
    let plan = plan_reveal(Platform::Linux, "/home/me/a,b/file.txt".to_owned(), true);
    match plan {
        RevealPlan::OpenContainingDir { dir } => assert_eq!(dir, "/home/me/a,b"),
        _ => panic!("a comma falls back to the containing directory"),
    }
}

#[test]
fn a_missing_bus_falls_back() {
    let plan = plan_reveal(Platform::Linux, "/home/me/file.txt".to_owned(), false);
    match plan {
        RevealPlan::OpenContainingDir { dir } => assert_eq!(dir, "/home/me"),
        _ => panic!("no bus connection falls back to the containing directory"),
    }
}

#[test]
fn parent_of_nested_path() {
    assert_eq!(parent_dir("a/b/c.txt"), "a/b");
    assert_eq!(parent_dir("/home/me/file"), "/home/me");
}

#[test]
fn parent_of_root_level_path_is_root() {
    assert_eq!(parent_dir("/file"), "/");
}

#[test]
fn parent_of_bare_name_is_the_current_directory() {
    assert_eq!(parent_dir("file.txt"), ".");
    assert_eq!(parent_dir(""), ".");
}

#[test]
fn parent_of_trailing_slash_drops_it() {
    assert_eq!(parent_dir("a/b/"), "a/b");
}

#[test]
fn contains_char_finds_and_misses() {
    assert!(contains_char("a,b", ','));
    assert!(!contains_char("ab", ','));
    assert!(!contains_char("", ','));
    assert!(contains_char("x/y", '/'));
}
