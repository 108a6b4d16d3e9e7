//! The three files of a compiled dialogue: the program, its string table and
//! its metadata table.

use vstd::prelude::*;
use vstd::hash_map::StringHashMap;
use vstd::string::StringExecFns;
use crate::data::{copy_strings, Line, LineView};
use crate::entries::{lemma_map_of_push, map_of};
use crate::paths::{file_stem, path_file_stem, path_with_file_name, with_file_name};
use crate::pattern::{first_captures, regex_captures};
use crate::text::{
    decimal_digits, lemma_decimal_digits_differ, lemma_replace_all_absent, occurs_at,
    push_decimal, remove_char, replace, replace_all, without_char,
};

verus! {

/// The name of a table file: the stem of the program's file, a dot, the
/// table's kind, and the extension `.csv`.
pub open spec fn table_file_name_text(stem: Seq<char>, prefix: Seq<char>) -> Seq<char> {
    stem + "."@ + prefix + ".csv"@
}

/// The path of the table of kind `prefix` that goes with the program at
/// `yarnc_path`: the same directory, the file name `table_file_name_text`.
/// `None` where the program's path has no file stem.
pub open spec fn table_path(yarnc_path: Seq<char>, prefix: Seq<char>) -> Option<Seq<char>> {
    match path_file_stem(yarnc_path) {
        Some(stem) => Some(path_with_file_name(yarnc_path, table_file_name_text(stem, prefix))),
        None => None,
    }
}

/// Builds the file name of a table from the program's file stem.
pub fn table_file_name(stem: &str, prefix: &str) -> (name: String)
    ensures
        name@ == table_file_name_text(stem@, prefix@),
{
    let mut name = String::from_str(stem);
    name.append(".");
    name.append(prefix);
    name.append(".csv");
    name
}

/// The path of the table of kind `prefix` beside the program at
/// `yarnc_path`, which must name a file. `find_table_path` takes any path.
pub fn get_table_pathbuf_from_yarnc_path(yarnc_path: &str, prefix: &str) -> (path: String)
    requires
        path_file_stem(yarnc_path@) is Some,
    ensures
        Some(path@) == table_path(yarnc_path@, prefix@),
{
    match file_stem(yarnc_path) {
        Some(stem) => {
            let name = table_file_name(stem.as_str(), prefix);
            with_file_name(yarnc_path, name.as_str())
        },
        None => vstd::pervasive::unreached(),
    }
}

/// The path of the table of kind `prefix` beside the program at
/// `yarnc_path`, or `None` where that path names no file.
pub fn find_table_path(yarnc_path: &str, prefix: &str) -> (path: Option<String>)
    ensures
        path.deep_view() == table_path(yarnc_path@, prefix@),
{
    if file_stem(yarnc_path).is_some() {
        Some(get_table_pathbuf_from_yarnc_path(yarnc_path, prefix))
    } else {
        None
    }
}

/// One row of the string table: the text of a line, and where in the
/// dialogue's source it stands. The fields are those of `yharnam::LineInfo`.
#[derive(Debug, Clone, PartialEq, Eq)]
pub struct LineInfo {
    /// The key of the line
    pub id: String,
    /// The text of the line, with its placeholders
    pub text: String,
    /// The source file of the line
    pub file: String,
    /// The node of the line
    pub node: String,
    /// The number of the line in its source file
    pub line_number: u32,
}

/// What a `LineInfo` holds, as sequences.
pub struct LineInfoView {
    pub id: Seq<char>,
    pub text: Seq<char>,
    pub file: Seq<char>,
    pub node: Seq<char>,
    pub line_number: u32,
}

impl View for LineInfo {
    type V = LineInfoView;

    open spec fn view(&self) -> LineInfoView {
        LineInfoView {
            id: self.id@,
            text: self.text@,
            file: self.file@,
            node: self.node@,
            line_number: self.line_number,
        }
    }
}

impl DeepView for LineInfo {
    type V = LineInfoView;

    open spec fn deep_view(&self) -> LineInfoView {
        self@
    }
}

/// The string table that results from entering `rows` in order under
/// their keys, a later row replacing an earlier one of the same key.
pub open spec fn string_table_of(rows: Seq<LineInfoView>) -> Map<Seq<char>, LineInfoView> {
    map_of(rows.map_values(|row: LineInfoView| (row.id, row)))
}

/// The text that stands in for a line that the string table lacks.
pub open spec fn missing_string_text(id: Seq<char>) -> Seq<char> {
    "<missing_string: "@ + id + ">"@
}

/// The text of the line `id`: the table's, or the stand-in where the
/// table has no such line.
pub open spec fn line_text(table: Map<Seq<char>, LineInfoView>, id: Seq<char>) -> Seq<char> {
    if table.contains_key(id) {
        table[id].text
    } else {
        missing_string_text(id)
    }
}

/// The placeholder of the substitution at `index`: the index in decimal,
/// in braces.
pub open spec fn placeholder_text(index: nat) -> Seq<char> {
    seq!['{'] + decimal_digits(index) + seq!['}']
}

/// `text` after the substitutions have been made in order: first every
/// `{0}` becomes `substitutions[0]`, then in what results every `{1}`
/// becomes `substitutions[1]`, and so on.
pub open spec fn substituted(text: Seq<char>, substitutions: Seq<Seq<char>>) -> Seq<char>
    decreases substitutions.len(),
{
    if substitutions.len() == 0 {
        text
    } else {
        replace_all(
            substituted(text, substitutions.drop_last()),
            placeholder_text((substitutions.len() - 1) as nat),
            substitutions.last(),
        )
    }
}

/// The pattern of a line of dialogue: a speaker's name of letters and
/// digits with a colon, which may be missing; white space; the rest of
/// the line.
pub const CHARACTER_PATTERN: &'static str = r"([a-zA-Z0-9]+:)?\s*(.*)";

/// The speaker and the spoken text that the capture groups of
/// `CHARACTER_PATTERN` give. The speaker is the first group without its
/// colons, the spoken text the second group. Where the groups are not
/// three, or the second is missing, there is no speaker and the text stays
/// as it was.
pub open spec fn character_of_captures(
    groups: Option<Seq<Option<Seq<char>>>>,
    formatted_text: Seq<char>,
) -> (Option<Seq<char>>, Seq<char>) {
    match groups {
        Some(found) => if found.len() == 3 && found[2] is Some {
            (
                match found[1] {
                    Some(name) => Some(without_char(name, ':')),
                    None => None,
                },
                found[2]->0,
            )
        } else {
            (None, formatted_text)
        },
        None => (None, formatted_text),
    }
}

/// The speaker and the spoken text of `formatted_text`.
pub open spec fn character_and_text(formatted_text: Seq<char>) -> (Option<Seq<char>>, Seq<char>) {
    character_of_captures(regex_captures(CHARACTER_PATTERN@, formatted_text), formatted_text)
}

/// The speaker and the text of `line`, with its substitutions made, as the
/// table `table` has it.
pub open spec fn substituted_text(table: Map<Seq<char>, LineInfoView>, line: LineView) -> (
    Option<Seq<char>>,
    Seq<char>,
) {
    let (character, text) = character_and_text(line_text(table, line.id));
    (character, substituted(text, line.substitutions))
}

/// The placeholders of two different substitutions differ, so a value is
/// never put in the place of another.
pub proof fn lemma_placeholders_differ(first: nat, second: nat)
    requires
        first != second,
    ensures
        placeholder_text(first) != placeholder_text(second),
{
    if placeholder_text(first) == placeholder_text(second) {
        let digits_first = decimal_digits(first);
        let digits_second = decimal_digits(second);
        assert(placeholder_text(first).subrange(1, 1 + digits_first.len() as int) =~= digits_first);
        assert(placeholder_text(second).subrange(1, 1 + digits_second.len() as int)
            =~= digits_second);
        assert(placeholder_text(first).len() == digits_first.len() + 2);
        assert(placeholder_text(second).len() == digits_second.len() + 2);
        lemma_decimal_digits_differ(first, second);
    }
}

/// A text without an opening brace holds no placeholder: the substitutions
/// leave it as it is.
pub proof fn lemma_substituted_without_brace(text: Seq<char>, substitutions: Seq<Seq<char>>)
    requires
        !text.contains('{'),
    ensures
        substituted(text, substitutions) == text,
    decreases substitutions.len(),
{
    if substitutions.len() > 0 {
        lemma_substituted_without_brace(text, substitutions.drop_last());
        let from = placeholder_text((substitutions.len() - 1) as nat);
        assert forall|at: int| !occurs_at(text, from, at) by {
            if occurs_at(text, from, at) {
                assert(text.subrange(at, at + from.len())[0] == from[0]);
                assert(text[at] == '{');
                assert(text.contains('{'));
            }
        }
        lemma_replace_all_absent(text, from, substitutions.last());
    }
}

/// Without values to put in, the text stays as it is.
pub proof fn lemma_substituted_nothing(text: Seq<char>)
    ensures
        substituted(text, Seq::empty()) == text,
{
}

/// The text of a line that the table lacks is the stand-in, which holds
/// the missing key and eighteen characters around it.
pub proof fn lemma_line_text_of_missing(table: Map<Seq<char>, LineInfoView>, id: Seq<char>)
    requires
        !table.contains_key(id),
    ensures
        line_text(table, id) == missing_string_text(id),
        line_text(table, id).len() == id.len() + 18,
{
    reveal_strlit("<missing_string: ");
    reveal_strlit(">");
}

/// Builds the placeholder of the substitution at `index`.
pub fn placeholder(index: usize) -> (text: String)
    ensures
        text@ == placeholder_text(index as nat),
{
    let mut text = String::new();
    text.push('{');
    push_decimal(&mut text, index);
    text.push('}');
    text
}

/// A resource to contain the string table
pub struct BevyYarnStringTable {
    entries: StringHashMap<LineInfo>,
}

impl View for BevyYarnStringTable {
    type V = Map<Seq<char>, LineInfoView>;

    closed spec fn view(&self) -> Map<Seq<char>, LineInfoView> {
        self.entries@.map_values(|info: LineInfo| info@)
    }
}

impl Default for BevyYarnStringTable {
    fn default() -> (table: Self)
        ensures
            table@ == Map::<Seq<char>, LineInfoView>::empty(),
    {
        BevyYarnStringTable::new()
    }
}

impl BevyYarnStringTable {
    /// A table without lines.
    pub fn new() -> (table: Self)
        ensures
            table@ == Map::<Seq<char>, LineInfoView>::empty(),
    {
        let table = BevyYarnStringTable { entries: StringHashMap::new() };
        proof {
            assert(table@ =~= Map::<Seq<char>, LineInfoView>::empty());
        }
        table
    }

    /// Enters `info` under its key, in place of what stood there.
    pub fn insert(&mut self, info: LineInfo)
        ensures
            final(self)@ == old(self)@.insert(info.id@, info@),
    {
        let key = info.id.clone();
        self.entries.insert(key, info);
        proof {
            assert(self@ =~= old(self)@.insert(info.id@, info@));
        }
    }

    /// The table that holds `rows`, a later row replacing an earlier one of
    /// the same key.
    pub fn from_rows(rows: Vec<LineInfo>) -> (table: Self)
        ensures
            table@ == string_table_of(rows.deep_view()),
    {
        let ghost all = rows.deep_view();
        let ghost given = rows@;
        let mut table = BevyYarnStringTable::new();
        for info in it: rows.into_iter()
            invariant
                it.seq() == given,
                all.len() == given.len(),
                forall|k: int| 0 <= k < given.len() ==> all[k] == given[k]@,
                table@ == string_table_of(all.take(it.index())),
        {
            proof {
                let keyed = |row: LineInfoView| (row.id, row);
                assert(all.take(it.index() + 1).map_values(keyed) =~= all.take(
                    it.index(),
                ).map_values(keyed).push(keyed(info@)));
                lemma_map_of_push(all.take(it.index()).map_values(keyed), info.id@, info@);
            }
            table.insert(info);
        }
        proof {
            assert(all.take(all.len() as int) =~= all);
        }
        table
    }

    /// The row of the line `id`, if the table has one.
    pub fn get(&self, id: &str) -> (info: Option<&LineInfo>)
        ensures
            match info {
                Some(found) => self@.contains_key(id@) && found@ == self@[id@],
                None => !self@.contains_key(id@),
            },
    {
        self.entries.get(id)
    }

    /// Finds the string for a line from the given string table
    pub fn find_string_in_table(&self, id: &str) -> (text: String)
        ensures
            text@ == line_text(self@, id@),
    {
        match self.get(id) {
            Some(info) => info.text.clone(),
            None => {
                let mut text = String::from_str("<missing_string: ");
                text.append(id);
                text.append(">");
                text
            },
        }
    }

    /// Completes variable substitutions in the given string
    pub fn perform_variable_substitutions(initial: String, substitutions: &[String]) -> (text:
        String)
        ensures
            text@ == substituted(initial@, substitutions.deep_view()),
    {
        let ghost all = substitutions.deep_view();
        let mut current = initial;
        let mut index: usize = 0;
        proof {
            assert(all.take(0) =~= Seq::<Seq<char>>::empty());
        }
        while index < substitutions.len()
            invariant
                index <= substitutions.len(),
                all == substitutions.deep_view(),
                current@ == substituted(initial@, all.take(index as int)),
            decreases substitutions.len() - index,
        {
            proof {
                assert(all.take(index + 1).drop_last() =~= all.take(index as int));
                assert(all.take(index + 1).last() == substitutions@[index as int]@);
            }
            let from = placeholder(index);
            current = replace(current.as_str(), from.as_str(), substitutions[index].as_str());
            index += 1;
        }
        proof {
            assert(all.take(all.len() as int) =~= all);
        }
        current
    }

    /// Tells the speaker and the spoken text apart in the capture groups
    /// that `CHARACTER_PATTERN` gave for `formatted_text`.
    pub fn character_from_captures(
        groups: Option<Vec<Option<String>>>,
        formatted_text: String,
    ) -> (parts: (Option<String>, String))
        ensures
            parts.deep_view() == character_of_captures(groups.deep_view(), formatted_text@),
    {
        match groups {
            Some(found) => {
                if found.len() == 3 {
                    match &found[2] {
                        Some(spoken) => {
                            let character = match &found[1] {
                                Some(name) => Some(remove_char(name.as_str(), ':')),
                                None => None,
                            };
                            (character, spoken.clone())
                        },
                        None => (None, formatted_text),
                    }
                } else {
                    (None, formatted_text)
                }
            },
            None => (None, formatted_text),
        }
    }

    /// Pulls out the character (if any) from the given formatted string.
    /// Characters are represented by e.g. "character 1 name: line" in the yarn file
    pub fn extract_character(formatted_text: String) -> (parts: (Option<String>, String))
        ensures
            parts.deep_view() == character_and_text(formatted_text@),
    {
        let groups = first_captures(CHARACTER_PATTERN, formatted_text.as_str());
        BevyYarnStringTable::character_from_captures(groups, formatted_text)
    }

    /// Gets the speaker and the text of `line`, with its substitutions made.
    pub fn get_substituted_text(&self, line: &Line) -> (parts: (Option<String>, String))
        ensures
            parts.deep_view() == substituted_text(self@, line@),
    {
        let initial = self.find_string_in_table(line.id.as_str());
        let (character, initial) = BevyYarnStringTable::extract_character(initial);
        let text = BevyYarnStringTable::perform_variable_substitutions(
            initial,
            line.substitutions.as_slice(),
        );
        (character, text)
    }
}

/// One row of the metadata table: the tags of a line, and where in the
/// dialogue's source it stands.
#[derive(Debug, Clone, PartialEq, Eq)]
pub struct MetadataInfo {
    /// The key of the line
    pub id: String,
    /// The node of the line
    pub node: String,
    /// The number of the line in its source file
    pub line_number: u32,
    /// The tags of the line
    pub tags: Vec<String>,
}

/// What a `MetadataInfo` holds, as sequences.
pub struct MetadataInfoView {
    pub id: Seq<char>,
    pub node: Seq<char>,
    pub line_number: u32,
    pub tags: Seq<Seq<char>>,
}

impl View for MetadataInfo {
    type V = MetadataInfoView;

    open spec fn view(&self) -> MetadataInfoView {
        MetadataInfoView {
            id: self.id@,
            node: self.node@,
            line_number: self.line_number,
            tags: self.tags.deep_view(),
        }
    }
}

impl DeepView for MetadataInfo {
    type V = MetadataInfoView;

    open spec fn deep_view(&self) -> MetadataInfoView {
        self@
    }
}

/// The metadata table that results from entering `rows` in order under
/// their keys, a later row replacing an earlier one of the same key.
pub open spec fn metadata_table_of(rows: Seq<MetadataInfoView>) -> Map<
    Seq<char>,
    MetadataInfoView,
> {
    map_of(rows.map_values(|row: MetadataInfoView| (row.id, row)))
}

/// The tags of the line `id`: the table's, or none where the table has no
/// such line.
pub open spec fn line_tags(table: Map<Seq<char>, MetadataInfoView>, id: Seq<char>) -> Seq<
    Seq<char>,
> {
    if table.contains_key(id) {
        table[id].tags
    } else {
        Seq::empty()
    }
}

/// A resource to contain the metadata table
pub struct BevyYarnMetadataTable {
    entries: StringHashMap<MetadataInfo>,
}

impl View for BevyYarnMetadataTable {
    type V = Map<Seq<char>, MetadataInfoView>;

    closed spec fn view(&self) -> Map<Seq<char>, MetadataInfoView> {
        self.entries@.map_values(|info: MetadataInfo| info@)
    }
}

impl Default for BevyYarnMetadataTable {
    fn default() -> (table: Self)
        ensures
            table@ == Map::<Seq<char>, MetadataInfoView>::empty(),
    {
        BevyYarnMetadataTable::new()
    }
}

impl BevyYarnMetadataTable {
    /// A table without lines.
    pub fn new() -> (table: Self)
        ensures
            table@ == Map::<Seq<char>, MetadataInfoView>::empty(),
    {
        let table = BevyYarnMetadataTable { entries: StringHashMap::new() };
        proof {
            assert(table@ =~= Map::<Seq<char>, MetadataInfoView>::empty());
        }
        table
    }

    /// Enters `info` under its key, in place of what stood there.
    pub fn insert(&mut self, info: MetadataInfo)
        ensures
            final(self)@ == old(self)@.insert(info.id@, info@),
    {
        let key = info.id.clone();
        self.entries.insert(key, info);
        proof {
            assert(self@ =~= old(self)@.insert(info.id@, info@));
        }
    }

    /// The table that holds `rows`, a later row replacing an earlier one of
    /// the same key.
    pub fn from_rows(rows: Vec<MetadataInfo>) -> (table: Self)
        ensures
            table@ == metadata_table_of(rows.deep_view()),
    {
        let ghost all = rows.deep_view();
        let ghost given = rows@;
        let mut table = BevyYarnMetadataTable::new();
        for info in it: rows.into_iter()
            invariant
                it.seq() == given,
                all.len() == given.len(),
                forall|k: int| 0 <= k < given.len() ==> all[k] == given[k]@,
                table@ == metadata_table_of(all.take(it.index())),
        {
            proof {
                let keyed = |row: MetadataInfoView| (row.id, row);
                assert(all.take(it.index() + 1).map_values(keyed) =~= all.take(
                    it.index(),
                ).map_values(keyed).push(keyed(info@)));
                lemma_map_of_push(all.take(it.index()).map_values(keyed), info.id@, info@);
            }
            table.insert(info);
        }
        proof {
            assert(all.take(all.len() as int) =~= all);
        }
        table
    }

    /// Gets the tags associated with a given line, if any
    pub fn get_tags_for_line(&self, line: &Line) -> (tags: Vec<String>)
        ensures
            tags.deep_view() == line_tags(self@, line.id@),
    {
        match self.entries.get(line.id.as_str()) {
            Some(info) => copy_strings(&info.tags),
            None => {
                let tags: Vec<String> = Vec::new();
                proof {
                    assert(tags.deep_view() =~= Seq::<Seq<char>>::empty());
                }
                tags
            },
        }
    }
}

/// `yharnam::Program`, a compiled dialogue. It is carried through as it is.
#[verifier::external_type_specification]
#[verifier::external_body]
pub struct ExProgram(yharnam::Program);

/// `prost::DecodeError`, the reason why bytes are no program.
#[verifier::external_type_specification]
#[verifier::external_body]
pub struct ExDecodeError(prost::DecodeError);

/// `csv::Error`, the reason why a row of a table cannot be read.
#[verifier::external_type_specification]
#[verifier::external_body]
pub struct ExCsvError(csv::Error);

/// Whether `bytes` decode as a compiled program, that is, whether
/// `prost::Message::decode` returns `Ok` for `yharnam::Program` on them.
pub uninterp spec fn program_decodes(bytes: Seq<u8>) -> bool;

/// The rows that `csv::Reader::deserialize` yields as `yharnam::LineInfo`
/// from a reader with the crate's default settings over `bytes`: the first
/// record names the columns, each further record is one row. `None` where
/// one of the rows is an error.
pub uninterp spec fn csv_line_infos(bytes: Seq<u8>) -> Option<Seq<LineInfoView>>;

/// The rows that `csv::Reader::deserialize` yields from a flexible reader
/// over `bytes`, each read as a key, a node, a line number and, in what
/// is left of the record, the tags. The first record is the header and is
/// no row. `None` where one of the rows is an error.
pub uninterp spec fn csv_metadata_infos(bytes: Seq<u8>) -> Option<Seq<MetadataInfoView>>;

/// Decodes a compiled program with `prost::Message::decode`. Trusted: it
/// succeeds exactly where `program_decodes` says so. Nothing is stated of
/// the program that comes out.
#[verifier::external_body]
pub(crate) fn decode_program(bytes: &[u8]) -> (decoded: Result<
    yharnam::Program,
    prost::DecodeError,
>)
    ensures
        decoded is Ok <==> program_decodes(bytes@),
{
    prost::Message::decode(bytes)
}

/// Reads the rows of a string table with `csv::Reader::deserialize`, up
/// to the first error. Trusted: the rows are those named `csv_line_infos`.
#[verifier::external_body]
pub(crate) fn read_line_infos(bytes: &[u8]) -> (rows: Result<Vec<LineInfo>, csv::Error>)
    ensures
        match rows {
            Ok(found) => csv_line_infos(bytes@) == Some(found.deep_view()),
            Err(_) => csv_line_infos(bytes@) is None,
        },
{
    csv::Reader::from_reader(bytes).deserialize::<yharnam::LineInfo>().map(
        |row|
            row.map(
                |info|
                    LineInfo {
                        id: info.id,
                        text: info.text,
                        file: info.file,
                        node: info.node,
                        line_number: info.line_number,
                    },
            ),
    ).collect()
}

/// Reads the rows of a metadata table with `csv::Reader::deserialize` on
/// a reader built with `csv::ReaderBuilder::flexible(true)`, up to the
/// first error. Trusted: the rows are those named `csv_metadata_infos`.
#[verifier::external_body]
pub(crate) fn read_metadata_infos(bytes: &[u8]) -> (rows: Result<Vec<MetadataInfo>, csv::Error>)
    ensures
        match rows {
            Ok(found) => csv_metadata_infos(bytes@) == Some(found.deep_view()),
            Err(_) => csv_metadata_infos(bytes@) is None,
        },
{
    csv::ReaderBuilder::new().flexible(true).from_reader(bytes).deserialize::<
        (String, String, u32, Vec<String>),
    >().map(
        |row|
            row.map(|(id, node, line_number, tags)| MetadataInfo { id, node, line_number, tags }),
    ).collect()
}

/// A compiled dialogue program, with the paths of the two tables that
/// belong to it.
#[derive(Debug)]
pub struct BevyYarnProgram {
    /// The program loaded from the yarnc file
    pub program: yharnam::Program,
    /// The path of the string table for this yarnc file
    pub string_table: String,
    /// The path of the metadata table for this yarnc file
    pub metadata_table: String,
}

/// Why a compiled program could not be loaded.
#[derive(Debug)]
pub enum ProgramLoadError {
    /// The bytes are no compiled program.
    Decode(prost::DecodeError),
    /// The program's path names no file, so its tables cannot be found.
    NoFileName,
}

/// A table holds a row that cannot be read.
#[derive(Debug)]
pub struct TableError {
    /// What the reader reported
    pub cause: csv::Error,
}

/// A custom loader for BevyYarnProgram assets.
#[derive(Debug, Default, Clone, Copy)]
pub struct BevyYarnProjectAssetLoader;

impl BevyYarnProjectAssetLoader {
    /// Decodes the program in `bytes`, which were read from `path`, and
    /// notes where its string table and its metadata table are.
    pub fn load(&self, bytes: &[u8], path: &str) -> (loaded: Result<
        BevyYarnProgram,
        ProgramLoadError,
    >)
        ensures
            match loaded {
                Ok(asset) => {
                    &&& program_decodes(bytes@)
                    &&& Some(asset.string_table@) == table_path(path@, "lines"@)
                    &&& Some(asset.metadata_table@) == table_path(path@, "metadata"@)
                },
                Err(ProgramLoadError::Decode(_)) => !program_decodes(bytes@),
                Err(ProgramLoadError::NoFileName) => {
                    &&& program_decodes(bytes@)
                    &&& path_file_stem(path@) is None
                },
            },
    {
        let program = match decode_program(bytes) {
            Ok(program) => program,
            Err(cause) => {
                return Err(ProgramLoadError::Decode(cause));
            },
        };
        let string_table = match find_table_path(path, "lines") {
            Some(found) => found,
            None => {
                return Err(ProgramLoadError::NoFileName);
            },
        };
        let metadata_table = match find_table_path(path, "metadata") {
            Some(found) => found,
            None => {
                return Err(ProgramLoadError::NoFileName);
            },
        };
        Ok(BevyYarnProgram { program, string_table, metadata_table })
    }

    /// The file extensions of the files that this loader reads.
    pub fn extensions(&self) -> (list: Vec<&'static str>)
        ensures
            list@.len() == 1,
            list@[0]@ == "yarnc"@,
    {
        vec!["yarnc"]
    }
}

/// A custom loader for BevyYarnStringTable assets.
#[derive(Debug, Default, Clone, Copy)]
pub struct BevyYarnStringTableAssetLoader;

impl BevyYarnStringTableAssetLoader {
    /// Reads the string table in `bytes`. A row that cannot be read makes
    /// the whole load fail.
    pub fn load(&self, bytes: &[u8]) -> (loaded: Result<BevyYarnStringTable, TableError>)
        ensures
            match loaded {
                Ok(table) => csv_line_infos(bytes@) matches Some(rows) && table@
                    == string_table_of(rows),
                Err(_) => csv_line_infos(bytes@) is None,
            },
    {
        match read_line_infos(bytes) {
            Ok(rows) => Ok(BevyYarnStringTable::from_rows(rows)),
            Err(cause) => Err(TableError { cause }),
        }
    }

    /// The file extensions of the files that this loader reads.
    pub fn extensions(&self) -> (list: Vec<&'static str>)
        ensures
            list@.len() == 1,
            list@[0]@ == "lines.csv"@,
    {
        vec!["lines.csv"]
    }
}

/// A custom loader for BevyYarnMetadataTable assets.
#[derive(Debug, Default, Clone, Copy)]
pub struct BevyYarnMetadataTableAssetLoader;

impl BevyYarnMetadataTableAssetLoader {
    /// Reads the metadata table in `bytes`. A row that cannot be read
    /// makes the whole load fail.
    pub fn load(&self, bytes: &[u8]) -> (loaded: Result<BevyYarnMetadataTable, TableError>)
        ensures
            match loaded {
                Ok(table) => csv_metadata_infos(bytes@) matches Some(rows) && table@
                    == metadata_table_of(rows),
                Err(_) => csv_metadata_infos(bytes@) is None,
            },
    {
        match read_metadata_infos(bytes) {
            Ok(rows) => Ok(BevyYarnMetadataTable::from_rows(rows)),
            Err(cause) => Err(TableError { cause }),
        }
    }

    /// The file extensions of the files that this loader reads.
    pub fn extensions(&self) -> (list: Vec<&'static str>)
        ensures
            list@.len() == 1,
            list@[0]@ == "metadata.csv"@,
    {
        vec!["metadata.csv"]
    }
}

} // verus!
