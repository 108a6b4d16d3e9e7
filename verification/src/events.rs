//! Events that carry what the dialogue does from the virtual machine to
//! the game.

use vstd::prelude::*;
use crate::commands::{BevyYarnCommand, BevyYarnCommandView};
use crate::data::{BevyYarnChoice, BevyYarnChoiceView, BevyYarnLine, BevyYarnLineView};

verus! {

/// An event that is raised when the dialogue should step forward
#[derive(Debug, Clone, Copy, PartialEq, Eq, Default)]
pub struct BevyYarnStepDialogueEvent;

/// Events that can be raised by the YarnEngine for processing
/// by the game (usually by client code)
#[derive(Debug, Clone, PartialEq, Eq)]
pub enum BevyYarnEvent {
    /// Say a line
    Say(BevyYarnLine),
    /// Offer some choices
    Choices(Vec<BevyYarnChoice>),
    /// Run a command
    Command(BevyYarnCommand),
    /// End the conversation
    EndConversation,
}

/// What a `BevyYarnEvent` holds, as sequences.
pub enum BevyYarnEventView {
    Say(BevyYarnLineView),
    Choices(Seq<BevyYarnChoiceView>),
    Command(BevyYarnCommandView),
    EndConversation,
}

impl View for BevyYarnEvent {
    type V = BevyYarnEventView;

    open spec fn view(&self) -> BevyYarnEventView {
        match self {
            BevyYarnEvent::Say(line) => BevyYarnEventView::Say(line@),
            BevyYarnEvent::Choices(choices) => BevyYarnEventView::Choices(choices.deep_view()),
            BevyYarnEvent::Command(command) => BevyYarnEventView::Command(command@),
            BevyYarnEvent::EndConversation => BevyYarnEventView::EndConversation,
        }
    }
}

impl DeepView for BevyYarnEvent {
    type V = BevyYarnEventView;

    open spec fn deep_view(&self) -> BevyYarnEventView {
        self@
    }
}

} // verus!
