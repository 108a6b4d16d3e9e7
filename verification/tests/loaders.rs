use bevy_mod_yarn::assets::{
    BevyYarnMetadataTableAssetLoader, BevyYarnProjectAssetLoader, BevyYarnStringTableAssetLoader,
    LineInfo, ProgramLoadError,
};
use bevy_mod_yarn::data::Line;

fn line(id: &str) -> Line {
    Line { id: id.to_string(), substitutions: vec![] }
}

#[test]
fn loaders_name_their_extensions() {
    assert_eq!(BevyYarnProjectAssetLoader.extensions(), vec!["yarnc"]);
    assert_eq!(BevyYarnStringTableAssetLoader.extensions(), vec!["lines.csv"]);
    assert_eq!(BevyYarnMetadataTableAssetLoader.extensions(), vec!["metadata.csv"]);
}

#[test]
fn program_loads_with_the_paths_of_its_tables() {
    // field 1 of the message, the program's name: "test"
    let asset = BevyYarnProjectAssetLoader.load(b"\x0a\x04test", "assets/story.yarnc").unwrap();
    assert_eq!(asset.program.name, "test");
    assert!(asset.program.nodes.is_empty());
    assert_eq!(asset.string_table, "assets/story.lines.csv");
    assert_eq!(asset.metadata_table, "assets/story.metadata.csv");
}

#[test]
fn empty_bytes_are_an_empty_program() {
    let asset = BevyYarnProjectAssetLoader.load(b"", "story.yarnc").unwrap();
    assert_eq!(asset.program.name, "");
    assert_eq!(asset.string_table, "story.lines.csv");
}

#[test]
fn bytes_that_are_no_program_fail_to_decode() {
    assert!(matches!(
        BevyYarnProjectAssetLoader.load(b"\xff", "story.yarnc"),
        Err(ProgramLoadError::Decode(_))
    ));
    assert!(matches!(
        BevyYarnProjectAssetLoader.load(b"\x0a\x04te", "story.yarnc"),
        Err(ProgramLoadError::Decode(_))
    ));
}

#[test]
fn a_program_needs_a_file_name() {
    assert!(matches!(
        BevyYarnProjectAssetLoader.load(b"", "assets/.."),
        Err(ProgramLoadError::NoFileName)
    ));
    assert!(matches!(BevyYarnProjectAssetLoader.load(b"", ""), Err(ProgramLoadError::NoFileName)));
}

#[test]
fn decoding_fails_before_the_path_is_looked_at() {
    assert!(matches!(
        BevyYarnProjectAssetLoader.load(b"\xff", ".."),
        Err(ProgramLoadError::Decode(_))
    ));
}

#[test]
fn string_table_loads_its_rows() {
    let data = "id,text,file,node,lineNumber\n\
                line:1,Hello,test.yarn,Start,1\n\
                line:2,\"Bye, now\",test.yarn,Start,2\n";
    let table = BevyYarnStringTableAssetLoader.load(data.as_bytes()).unwrap();
    assert_eq!(
        table.get("line:1"),
        Some(&LineInfo {
            id: "line:1".to_string(),
            text: "Hello".to_string(),
            file: "test.yarn".to_string(),
            node: "Start".to_string(),
            line_number: 1,
        })
    );
    assert_eq!(table.find_string_in_table("line:2"), "Bye, now");
    assert_eq!(table.get("line:3"), None);
}

#[test]
fn string_table_finds_its_columns_by_name() {
    let data = "text,id,lineNumber,node,file,extra\nHello,line:1,7,Start,test.yarn,zzz\n";
    let table = BevyYarnStringTableAssetLoader.load(data.as_bytes()).unwrap();
    let row = table.get("line:1").unwrap();
    assert_eq!(row.text, "Hello");
    assert_eq!(row.line_number, 7);
    assert_eq!(row.file, "test.yarn");
}

#[test]
fn string_table_lets_the_later_row_win() {
    let data = "id,text,file,node,lineNumber\nline:1,One,f,n,1\nline:1,Two,f,n,2\n";
    let table = BevyYarnStringTableAssetLoader.load(data.as_bytes()).unwrap();
    assert_eq!(table.find_string_in_table("line:1"), "Two");
}

#[test]
fn string_table_without_rows_is_empty() {
    let table = BevyYarnStringTableAssetLoader.load(b"").unwrap();
    assert_eq!(table.get("line:1"), None);
    let table = BevyYarnStringTableAssetLoader.load(b"id,text,file,node,lineNumber\n").unwrap();
    assert_eq!(table.get("line:1"), None);
}

#[test]
fn string_table_with_a_malformed_row_fails() {
    let bad_number = "id,text,file,node,lineNumber\nline:1,Hello,test.yarn,Start,abc\n";
    assert!(BevyYarnStringTableAssetLoader.load(bad_number.as_bytes()).is_err());
    let missing_column = "id,text,file,node\nline:1,Hello,test.yarn,Start\n";
    assert!(BevyYarnStringTableAssetLoader.load(missing_column.as_bytes()).is_err());
    let short_row = "id,text,file,node,lineNumber\nline:1,Hello,test.yarn,Start\n";
    assert!(BevyYarnStringTableAssetLoader.load(short_row.as_bytes()).is_err());
    let late = "id,text,file,node,lineNumber\nline:1,Hello,f,n,1\nline:2,Bye,f,n,-2\n";
    assert!(BevyYarnStringTableAssetLoader.load(late.as_bytes()).is_err());
}

#[test]
fn metadata_table_reads_the_tags_from_the_end_of_the_row() {
    let data = "id,node,lineNumber,tags\n\
                line:1,Start,1,tag:a,tag:b\n\
                line:2,Start,2,only\n\
                line:3,Start,3,\n";
    let table = BevyYarnMetadataTableAssetLoader.load(data.as_bytes()).unwrap();
    assert_eq!(table.get_tags_for_line(&line("line:1")), vec!["tag:a", "tag:b"]);
    assert_eq!(table.get_tags_for_line(&line("line:2")), vec!["only"]);
    assert_eq!(table.get_tags_for_line(&line("line:3")), vec![""]);
    assert_eq!(table.get_tags_for_line(&line("line:4")), Vec::<String>::new());
}

#[test]
fn metadata_table_skips_the_header() {
    let table = BevyYarnMetadataTableAssetLoader.load(b"line:1,Start,1,t\n").unwrap();
    assert_eq!(table.get_tags_for_line(&line("line:1")), Vec::<String>::new());
    let table = BevyYarnMetadataTableAssetLoader.load(b"").unwrap();
    assert_eq!(table.get_tags_for_line(&line("line:1")), Vec::<String>::new());
}

#[test]
fn metadata_table_with_a_malformed_row_fails() {
    let short_row = "id,node,lineNumber,tags\nline:1,Start\n";
    assert!(BevyYarnMetadataTableAssetLoader.load(short_row.as_bytes()).is_err());
    let no_tags_field = "id,node,lineNumber,tags\nline:1,Start,1\n";
    assert!(BevyYarnMetadataTableAssetLoader.load(no_tags_field.as_bytes()).is_err());
    let bad_number = "id,node,lineNumber,tags\nline:1,Start,x,t\n";
    assert!(BevyYarnMetadataTableAssetLoader.load(bad_number.as_bytes()).is_err());
}
