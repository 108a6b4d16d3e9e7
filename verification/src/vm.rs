//! What the dialogue virtual machine reports when it pauses.

use vstd::prelude::*;
use crate::data::{Line, LineView};

verus! {

/// One of the options that the virtual machine offers at a choice.
#[derive(Debug, Clone, PartialEq, Eq)]
pub struct YarnOption {
    /// The line to show for the option
    pub line: Line,
    /// The number by which the option is selected
    pub id: u32,
    /// The node that the dialogue goes on with when the option is taken
    pub destination_node: String,
}

/// What a `YarnOption` holds, as sequences.
pub struct YarnOptionView {
    pub line: LineView,
    pub id: u32,
    pub destination_node: Seq<char>,
}

impl View for YarnOption {
    type V = YarnOptionView;

    open spec fn view(&self) -> YarnOptionView {
        YarnOptionView {
            line: self.line@,
            id: self.id,
            destination_node: self.destination_node@,
        }
    }
}

impl DeepView for YarnOption {
    type V = YarnOptionView;

    open spec fn deep_view(&self) -> YarnOptionView {
        self@
    }
}

/// Why the virtual machine paused.
#[derive(Debug, Clone, PartialEq, Eq)]
pub enum SuspendReason {
    /// Nothing to report
    Nop,
    /// A line is to be said
    Line(Line),
    /// The player is to choose among options
    Options(Vec<YarnOption>),
    /// The game is to run a command
    Command(String),
    /// The dialogue went from one node to another
    NodeChange {
        /// The node that starts
        start: String,
        /// The node that ends
        end: String,
    },
    /// The dialogue ended, in the node named
    DialogueComplete(String),
    /// An option was selected that was not on offer
    InvalidOption(u32),
}

/// What a `SuspendReason` holds, as sequences.
pub enum SuspendReasonView {
    Nop,
    Line(LineView),
    Options(Seq<YarnOptionView>),
    Command(Seq<char>),
    NodeChange { start: Seq<char>, end: Seq<char> },
    DialogueComplete(Seq<char>),
    InvalidOption(u32),
}

impl View for SuspendReason {
    type V = SuspendReasonView;

    open spec fn view(&self) -> SuspendReasonView {
        match self {
            SuspendReason::Nop => SuspendReasonView::Nop,
            SuspendReason::Line(line) => SuspendReasonView::Line(line@),
            SuspendReason::Options(options) => SuspendReasonView::Options(options.deep_view()),
            SuspendReason::Command(text) => SuspendReasonView::Command(text@),
            SuspendReason::NodeChange { start, end } => SuspendReasonView::NodeChange {
                start: start@,
                end: end@,
            },
            SuspendReason::DialogueComplete(node) => SuspendReasonView::DialogueComplete(node@),
            SuspendReason::InvalidOption(id) => SuspendReasonView::InvalidOption(*id),
        }
    }
}

/// The virtual machine failed to run on.
#[derive(Debug, Clone, PartialEq, Eq)]
pub struct VmError {
    /// What the virtual machine said of the failure
    pub message: String,
}

} // verus!
