//! The values that a running dialogue hands to the game.

use vstd::prelude::*;

verus! {

/// Names the compiled dialogue that an engine is to be started from.
///
/// The string table and the metadata table are looked for beside the
/// program: for `mystory.yarnc` these are `mystory.lines.csv` and
/// `mystory.metadata.csv`.
#[derive(Debug, Clone, PartialEq, Eq)]
pub struct YarnData {
    /// The path to load the yarnc file from
    pub yarnc_path: String,
}

/// A line as the virtual machine reports it: the key of its text in the
/// string table, and the values to put in the text's placeholders.
#[derive(Debug, Clone, PartialEq, Eq)]
pub struct Line {
    /// The key of the line in the string table
    pub id: String,
    /// The value for placeholder `{i}` stands at index `i`
    pub substitutions: Vec<String>,
}

/// What a `Line` holds, as sequences.
pub struct LineView {
    pub id: Seq<char>,
    pub substitutions: Seq<Seq<char>>,
}

impl View for Line {
    type V = LineView;

    open spec fn view(&self) -> LineView {
        LineView { id: self.id@, substitutions: self.substitutions.deep_view() }
    }
}

impl DeepView for Line {
    type V = LineView;

    open spec fn deep_view(&self) -> LineView {
        self@
    }
}

/// Represents a line that can be said, including some metadata
#[derive(Debug, Clone, PartialEq, Eq)]
pub struct BevyYarnLine {
    /// The line as the virtual machine reported it
    pub line: Line,
    /// The text of the line with its substitutions made
    pub formatted_text: String,
    /// If the line is prefixed with "<character name>: ", this is trimmed from the text and available here.
    pub character: Option<String>,
    /// A list of tags associated with this line
    pub tags: Vec<String>,
}

/// What a `BevyYarnLine` holds, as sequences.
pub struct BevyYarnLineView {
    pub line: LineView,
    pub formatted_text: Seq<char>,
    pub character: Option<Seq<char>>,
    pub tags: Seq<Seq<char>>,
}

impl View for BevyYarnLine {
    type V = BevyYarnLineView;

    open spec fn view(&self) -> BevyYarnLineView {
        BevyYarnLineView {
            line: self.line@,
            formatted_text: self.formatted_text@,
            character: self.character.deep_view(),
            tags: self.tags.deep_view(),
        }
    }
}

impl DeepView for BevyYarnLine {
    type V = BevyYarnLineView;

    open spec fn deep_view(&self) -> BevyYarnLineView {
        self@
    }
}

/// Represents a choice that can be made, including some metadata
#[derive(Debug, Clone, PartialEq, Eq)]
pub struct BevyYarnChoice {
    /// The line ID for this choice
    pub line_id: String,
    /// The destination node that this choice navigates to
    pub destination_node: String,
    /// The line to display for this choice
    pub formatted_line: BevyYarnLine,
}

/// What a `BevyYarnChoice` holds, as sequences.
pub struct BevyYarnChoiceView {
    pub line_id: Seq<char>,
    pub destination_node: Seq<char>,
    pub formatted_line: BevyYarnLineView,
}

impl View for BevyYarnChoice {
    type V = BevyYarnChoiceView;

    open spec fn view(&self) -> BevyYarnChoiceView {
        BevyYarnChoiceView {
            line_id: self.line_id@,
            destination_node: self.destination_node@,
            formatted_line: self.formatted_line@,
        }
    }
}

impl DeepView for BevyYarnChoice {
    type V = BevyYarnChoiceView;

    open spec fn deep_view(&self) -> BevyYarnChoiceView {
        self@
    }
}

/// A copy of `strings`, element by element.
pub fn copy_strings(strings: &Vec<String>) -> (copy: Vec<String>)
    ensures
        copy.deep_view() == strings.deep_view(),
{
    let mut copy: Vec<String> = Vec::new();
    let mut i: usize = 0;
    while i < strings.len()
        invariant
            i <= strings.len(),
            copy.len() == i,
            forall|k: int| 0 <= k < i ==> copy@[k]@ == strings@[k]@,
        decreases strings.len() - i,
    {
        copy.push(strings[i].clone());
        i += 1;
    }
    proof {
        assert(copy.deep_view() =~= strings.deep_view());
    }
    copy
}

impl Line {
    /// A copy of this line.
    pub fn duplicate(&self) -> (copy: Line)
        ensures
            copy@ == self@,
    {
        Line { id: self.id.clone(), substitutions: copy_strings(&self.substitutions) }
    }
}

} // verus!
