use bevy_mod_yarn::assets::{find_table_path, get_table_pathbuf_from_yarnc_path, table_file_name};

#[test]
fn table_file_name_joins_stem_kind_and_extension() {
    assert_eq!(table_file_name("story", "lines"), "story.lines.csv");
    assert_eq!(table_file_name("a.b", "metadata"), "a.b.metadata.csv");
    assert_eq!(table_file_name("", ""), "..csv");
}

#[test]
fn table_path_keeps_the_directory() {
    assert_eq!(
        get_table_pathbuf_from_yarnc_path("../assets/minimal.yarnc", "lines"),
        "../assets/minimal.lines.csv"
    );
    assert_eq!(
        get_table_pathbuf_from_yarnc_path("../assets/kitchen_sink.yarnc", "metadata"),
        "../assets/kitchen_sink.metadata.csv"
    );
    assert_eq!(get_table_pathbuf_from_yarnc_path("/x.yarnc", "lines"), "/x.lines.csv");
    assert_eq!(get_table_pathbuf_from_yarnc_path("story.yarnc", "lines"), "story.lines.csv");
}

#[test]
fn table_path_drops_only_the_last_extension() {
    assert_eq!(get_table_pathbuf_from_yarnc_path("a.b.yarnc", "lines"), "a.b.lines.csv");
    assert_eq!(get_table_pathbuf_from_yarnc_path("dir.d/x", "lines"), "dir.d/x.lines.csv");
    assert_eq!(get_table_pathbuf_from_yarnc_path(".hidden", "lines"), ".hidden.lines.csv");
}

#[test]
fn table_path_needs_a_file_name() {
    assert_eq!(find_table_path("", "lines"), None);
    assert_eq!(find_table_path("/", "lines"), None);
    assert_eq!(find_table_path("..", "lines"), None);
    assert_eq!(find_table_path("assets/..", "lines"), None);
}

#[test]
fn find_table_path_agrees_with_the_table_path() {
    assert_eq!(
        find_table_path("assets/a.b.yarnc", "lines"),
        Some(get_table_pathbuf_from_yarnc_path("assets/a.b.yarnc", "lines"))
    );
    assert_eq!(find_table_path("a//b.yarnc", "metadata"), Some("a/b.metadata.csv".to_string()));
}
