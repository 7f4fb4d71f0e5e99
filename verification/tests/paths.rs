use editor_commands::paths::{commands_file_path, COMMANDS_FILE, SEPARATOR};

#[test]
fn commands_file_name_and_separator() {
    assert_eq!(COMMANDS_FILE, "commands.yaml");
    assert_eq!(SEPARATOR, '/');
}

#[test]
fn root_without_trailing_separator_gets_one() {
    assert_eq!(commands_file_path("/a/b"), "/a/b/commands.yaml");
    assert_eq!(commands_file_path("/home/user/my project"), "/home/user/my project/commands.yaml");
}

#[test]
fn root_with_trailing_separator_gets_none() {
    assert_eq!(commands_file_path("/a/b/"), "/a/b/commands.yaml");
    assert_eq!(commands_file_path("/"), "/commands.yaml");
}

#[test]
fn empty_root_gives_the_bare_file_name() {
    assert_eq!(commands_file_path(""), "commands.yaml");
}

#[test]
fn relative_root_stays_relative() {
    assert_eq!(commands_file_path("project"), "project/commands.yaml");
    assert_eq!(commands_file_path("./project"), "./project/commands.yaml");
}

#[test]
fn root_beyond_ascii_is_kept() {
    assert_eq!(commands_file_path("/données/projet"), "/données/projet/commands.yaml");
    assert_eq!(commands_file_path("/案件/"), "/案件/commands.yaml");
    assert_eq!(commands_file_path("é"), "é/commands.yaml");
}

#[test]
fn only_the_last_character_decides() {
    assert_eq!(commands_file_path("/a//"), "/a//commands.yaml");
    assert_eq!(commands_file_path("/a/b\\"), "/a/b\\/commands.yaml");
}

#[test]
fn path_starts_with_root_and_ends_with_file_name() {
    for root in ["", "/", "/a", "/a/", "a/b/c", "/x y/z"] {
        let path = commands_file_path(root);
        assert!(path.starts_with(root));
        assert!(path.ends_with(COMMANDS_FILE));
        let between = &path[root.len()..path.len() - COMMANDS_FILE.len()];
        assert!(between.is_empty() || between == "/");
        if !root.is_empty() {
            assert!(path[..path.len() - COMMANDS_FILE.len()].ends_with('/'));
        }
    }
}

#[test]
fn agrees_with_the_host_where_it_separates_alike() {
    if std::path::MAIN_SEPARATOR == SEPARATOR {
        for root in ["", "/", "/a/b", "/a/b/", "rel", "rel/", "/données/projet", "/a//"] {
            let host = std::path::Path::new(root).join(COMMANDS_FILE);
            assert_eq!(commands_file_path(root), host.to_string_lossy());
        }
    }
}
