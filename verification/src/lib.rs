//! Glue between a Yarn dialogue virtual machine and a game's event loop.
//!
//! The virtual machine runs the compiled dialogue. This crate reads the
//! tables that belong to a program, turns what the machine reports into
//! events for the game, and keeps the handlers that the game registers for
//! the dialogue's commands.

use vstd::prelude::*;
use crate::assets::{
    find_table_path, line_tags, substituted_text, table_path, BevyYarnMetadataTable,
    BevyYarnStringTable, LineInfoView, MetadataInfoView,
};
use crate::commands::{
    command_of_text, handlers_of, BevyYarnCommand, BevyYarnCommandView, CommandHandlers,
};
use crate::data::{
    BevyYarnChoice, BevyYarnChoiceView, BevyYarnLine, BevyYarnLineView, Line, LineView, YarnData,
};
use crate::events::{BevyYarnEvent, BevyYarnEventView};
use crate::paths::path_file_stem;
use crate::vm::{SuspendReason, SuspendReasonView, VmError, YarnOption, YarnOptionView};

pub mod assets;
pub mod commands;
pub mod data;
pub mod entries;
pub mod events;
pub mod paths;
pub mod pattern;
pub mod prelude;
pub mod text;
pub mod vm;

verus! {

/// The locale to use for the yarn engine pluralisation etc
pub const LOCALE: &'static str = "en";

/// The state of one running dialogue.
#[derive(Debug, Clone, PartialEq, Eq)]
pub struct BevyYarnDialogueEngine {
    /// The name of the file this engine was loaded from
    pub engine_name: String,
    /// The number of choices currently available to the user to select from
    pub num_choices: usize,
    /// A flag that is set to true to indicate that the dialogue is complete
    pub is_complete: bool,
    /// The path of the string table of the dialogue
    pub string_table: String,
    /// The path of the metadata table of the dialogue
    pub metadata_table: String,
}

/// What a `BevyYarnDialogueEngine` holds, as sequences.
pub struct BevyYarnDialogueEngineView {
    pub engine_name: Seq<char>,
    pub num_choices: usize,
    pub is_complete: bool,
    pub string_table: Seq<char>,
    pub metadata_table: Seq<char>,
}

impl View for BevyYarnDialogueEngine {
    type V = BevyYarnDialogueEngineView;

    open spec fn view(&self) -> BevyYarnDialogueEngineView {
        BevyYarnDialogueEngineView {
            engine_name: self.engine_name@,
            num_choices: self.num_choices,
            is_complete: self.is_complete,
            string_table: self.string_table@,
            metadata_table: self.metadata_table@,
        }
    }
}

/// What the game is to do after one report of the virtual machine.
#[derive(Debug, Clone, PartialEq, Eq)]
pub struct StepOutcome {
    /// The event to raise, if any
    pub event: Option<BevyYarnEvent>,
    /// The command to hand to its registered handler, if any
    pub command: Option<BevyYarnCommand>,
    /// Whether the dialogue now waits for the next step event. Where it is
    /// false the virtual machine is to run on at once.
    pub suspended: bool,
}

/// An engine after a report, and what the game is to do, as sequences.
pub struct StepView {
    pub num_choices: usize,
    pub is_complete: bool,
    pub event: Option<BevyYarnEventView>,
    pub command: Option<BevyYarnCommandView>,
    pub suspended: bool,
}

/// The line that the game is shown for `line`: its speaker and text from
/// the string table, its tags from the metadata table.
pub open spec fn shown_line(
    string_table: Map<Seq<char>, LineInfoView>,
    metadata_table: Map<Seq<char>, MetadataInfoView>,
    line: LineView,
) -> BevyYarnLineView {
    BevyYarnLineView {
        line,
        formatted_text: substituted_text(string_table, line).1,
        character: substituted_text(string_table, line).0,
        tags: line_tags(metadata_table, line.id),
    }
}

/// The choice that the game is shown for `option`.
pub open spec fn shown_choice(
    string_table: Map<Seq<char>, LineInfoView>,
    metadata_table: Map<Seq<char>, MetadataInfoView>,
    option: YarnOptionView,
) -> BevyYarnChoiceView {
    BevyYarnChoiceView {
        line_id: option.line.id,
        destination_node: option.destination_node,
        formatted_line: shown_line(string_table, metadata_table, option.line),
    }
}

/// The command that `text` stands for, marked as handled where a handler
/// is registered under its name.
pub open spec fn shown_command<H>(handlers: Map<Seq<char>, H>, text: Seq<char>) -> BevyYarnCommandView {
    let command = command_of_text(text);
    BevyYarnCommandView {
        command_name: command.command_name,
        args: command.args,
        handled: handlers.contains_key(command.command_name),
    }
}

/// How an engine with `num_choices` and `is_complete` takes a report of the
/// virtual machine; `None` stands for a failure of the machine.
///
/// A line and a list of options are shown and end the step. The end of the
/// dialogue is announced, marks the engine complete and ends the step. A
/// command is announced, and handed to its handler where it has one; the
/// machine then runs on, as it does after a change of node. Each of these
/// but a list of options leaves no choice open. A report of nothing or of
/// an invalid option changes nothing and lets the machine run on. A failure
/// changes nothing either, and the step is given up: it is not tried again.
pub open spec fn step_of<H>(
    num_choices: usize,
    is_complete: bool,
    report: Option<SuspendReasonView>,
    string_table: Map<Seq<char>, LineInfoView>,
    metadata_table: Map<Seq<char>, MetadataInfoView>,
    handlers: Map<Seq<char>, H>,
) -> StepView {
    match report {
        Some(SuspendReasonView::Line(line)) => StepView {
            num_choices: 0,
            is_complete,
            event: Some(BevyYarnEventView::Say(shown_line(string_table, metadata_table, line))),
            command: None,
            suspended: true,
        },
        Some(SuspendReasonView::Options(options)) => StepView {
            num_choices: options.len() as usize,
            is_complete,
            event: Some(
                BevyYarnEventView::Choices(
                    options.map_values(
                        |option: YarnOptionView| shown_choice(string_table, metadata_table, option),
                    ),
                ),
            ),
            command: None,
            suspended: true,
        },
        Some(SuspendReasonView::Command(text)) => StepView {
            num_choices: 0,
            is_complete,
            event: Some(BevyYarnEventView::Command(shown_command(handlers, text))),
            command: if shown_command(handlers, text).handled {
                Some(shown_command(handlers, text))
            } else {
                None
            },
            suspended: false,
        },
        Some(SuspendReasonView::NodeChange { .. }) => StepView {
            num_choices: 0,
            is_complete,
            event: None,
            command: None,
            suspended: false,
        },
        Some(SuspendReasonView::DialogueComplete(_)) => StepView {
            num_choices: 0,
            is_complete: true,
            event: Some(BevyYarnEventView::EndConversation),
            command: None,
            suspended: true,
        },
        Some(SuspendReasonView::Nop) | Some(SuspendReasonView::InvalidOption(_)) => StepView {
            num_choices,
            is_complete,
            event: None,
            command: None,
            suspended: false,
        },
        None => StepView { num_choices, is_complete, event: None, command: None, suspended: true },
    }
}

/// The report in `result`, as sequences; `None` for a failure.
pub open spec fn report_of(result: Result<SuspendReason, VmError>) -> Option<SuspendReasonView> {
    match result {
        Ok(reason) => Some(reason@),
        Err(_) => None,
    }
}

/// The keys that were pressed since the last update.
#[derive(Debug, Clone, Copy, PartialEq, Eq, Default)]
pub struct KeyPresses {
    /// The key 1 of the top row
    pub key1: bool,
    /// The key 1 of the number pad
    pub numpad1: bool,
    /// The key 2 of the top row
    pub key2: bool,
    /// The key 2 of the number pad
    pub numpad2: bool,
    /// The key 3 of the top row
    pub key3: bool,
    /// The key 3 of the number pad
    pub numpad3: bool,
    /// The space bar
    pub space: bool,
}

/// What a key press asks of the dialogue.
#[derive(Debug, Clone, Copy, PartialEq, Eq)]
pub enum InputAction {
    /// Select the option with this number, then raise a step event
    Select(u32),
    /// Raise a step event
    Step,
}

/// What an action gives when it is asked for, and nothing otherwise.
pub open spec fn action_if(asked: bool, action: InputAction) -> Seq<InputAction> {
    if asked {
        seq![action]
    } else {
        Seq::empty()
    }
}

/// The actions that `keys` ask for while `num_choices` options are open.
///
/// With options open, the keys 1, 2 and 3 select the first, second and
/// third option, the keys of the top row only where there are that many
/// options. Without options the space bar steps the dialogue.
pub open spec fn input_actions(num_choices: usize, keys: KeyPresses) -> Seq<InputAction> {
    if num_choices > 0 {
        action_if(keys.key1 || keys.numpad1, InputAction::Select(0)) + action_if(
            num_choices > 1 && keys.key2 || keys.numpad2,
            InputAction::Select(1),
        ) + action_if(num_choices > 2 && keys.key3 || keys.numpad3, InputAction::Select(2))
    } else {
        action_if(keys.space, InputAction::Step)
    }
}

/// A dialogue that is complete stays complete, whatever is reported. The
/// machine runs on exactly after a command, a change of node, a report of
/// nothing and one of an invalid option. Only a command is handed to a
/// handler, and only a failure ends a step without an event.
pub proof fn lemma_step_of<H>(
    num_choices: usize,
    is_complete: bool,
    report: Option<SuspendReasonView>,
    string_table: Map<Seq<char>, LineInfoView>,
    metadata_table: Map<Seq<char>, MetadataInfoView>,
    handlers: Map<Seq<char>, H>,
)
    ensures
        is_complete ==> step_of(
            num_choices,
            is_complete,
            report,
            string_table,
            metadata_table,
            handlers,
        ).is_complete,
        !step_of(num_choices, is_complete, report, string_table, metadata_table, handlers).suspended
            <==> (report matches Some(reason) && (reason is Command || reason is NodeChange
            || reason is Nop || reason is InvalidOption)),
        step_of(
            num_choices,
            is_complete,
            report,
            string_table,
            metadata_table,
            handlers,
        ).command is Some ==> report matches Some(SuspendReasonView::Command(_)),
        ({
            let step = step_of(
                num_choices,
                is_complete,
                report,
                string_table,
                metadata_table,
                handlers,
            );
            step.suspended && step.event is None
        }) <==> report is None,
{
}

/// The keys ask for at most three actions. While options are open every
/// action selects one, and without options none does.
pub proof fn lemma_input_actions(num_choices: usize, keys: KeyPresses)
    ensures
        input_actions(num_choices, keys).len() <= 3,
        forall|i: int|
            0 <= i < input_actions(num_choices, keys).len() ==> (
            #[trigger] input_actions(num_choices, keys)[i] is Select <==> num_choices > 0),
{
}

impl BevyYarnDialogueEngine {
    /// The engine for the dialogue that `data` names, before its first step:
    /// no choice is open and the dialogue is not complete. `None` where the
    /// path in `data` names no file.
    pub fn load_yarn_data(data: &YarnData) -> (engine: Option<BevyYarnDialogueEngine>)
        ensures
            match engine {
                Some(started) => {
                    &&& started.engine_name@ == data.yarnc_path@
                    &&& started.num_choices == 0
                    &&& !started.is_complete
                    &&& Some(started.string_table@) == table_path(data.yarnc_path@, "lines"@)
                    &&& Some(started.metadata_table@) == table_path(data.yarnc_path@, "metadata"@)
                },
                None => path_file_stem(data.yarnc_path@) is None,
            },
    {
        let string_table = match find_table_path(data.yarnc_path.as_str(), "lines") {
            Some(path) => path,
            None => {
                return None;
            },
        };
        let metadata_table = match find_table_path(data.yarnc_path.as_str(), "metadata") {
            Some(path) => path,
            None => {
                return None;
            },
        };
        Some(
            BevyYarnDialogueEngine {
                engine_name: data.yarnc_path.clone(),
                num_choices: 0,
                is_complete: false,
                string_table,
                metadata_table,
            },
        )
    }

    /// Builds the line that the game is shown for `line`.
    pub fn show_line(
        line: Line,
        string_table: &BevyYarnStringTable,
        metadata_table: &BevyYarnMetadataTable,
    ) -> (shown: BevyYarnLine)
        ensures
            shown@ == shown_line(string_table@, metadata_table@, line@),
    {
        let (character, formatted_text) = string_table.get_substituted_text(&line);
        let tags = metadata_table.get_tags_for_line(&line);
        BevyYarnLine { line, formatted_text, character, tags }
    }

    /// Builds the choices that the game is shown for `options`.
    pub fn show_choices(
        options: Vec<YarnOption>,
        string_table: &BevyYarnStringTable,
        metadata_table: &BevyYarnMetadataTable,
    ) -> (choices: Vec<BevyYarnChoice>)
        ensures
            choices.deep_view() == options.deep_view().map_values(
                |option: YarnOptionView| shown_choice(string_table@, metadata_table@, option),
            ),
    {
        let ghost given = options@;
        let mut choices: Vec<BevyYarnChoice> = Vec::new();
        for option in it: options.into_iter()
            invariant
                it.seq() == given,
                choices.len() == it.index(),
                forall|k: int|
                    0 <= k < choices.len() ==> choices@[k]@ == shown_choice(
                        string_table@,
                        metadata_table@,
                        given[k]@,
                    ),
        {
            let line_id = option.line.id.clone();
            let formatted_line = BevyYarnDialogueEngine::show_line(
                option.line,
                string_table,
                metadata_table,
            );
            choices.push(
                BevyYarnChoice {
                    line_id,
                    destination_node: option.destination_node,
                    formatted_line,
                },
            );
        }
        proof {
            assert(choices.deep_view() =~= options.deep_view().map_values(
                |option: YarnOptionView| shown_choice(string_table@, metadata_table@, option),
            ));
        }
        choices
    }

    /// Builds the command that the game is shown for `text`.
    pub fn show_command<H>(text: &str, command_handlers: &CommandHandlers<H>) -> (command:
        BevyYarnCommand)
        ensures
            command@ == shown_command(command_handlers@, text@),
    {
        let mut command = BevyYarnCommand::parse(text);
        if command_handlers.contains(command.command_name.as_str()) {
            command.handled = true;
        }
        command
    }

    /// Takes one report of the virtual machine: updates the engine, and
    /// says which event to raise, which command to hand to its handler, and
    /// whether the step is over or the machine is to run on.
    pub fn process_yarn_events<H>(
        &mut self,
        report: Result<SuspendReason, VmError>,
        string_table: &BevyYarnStringTable,
        metadata_table: &BevyYarnMetadataTable,
        command_handlers: &CommandHandlers<H>,
    ) -> (outcome: StepOutcome)
        ensures
            final(self).engine_name == old(self).engine_name,
            final(self).string_table == old(self).string_table,
            final(self).metadata_table == old(self).metadata_table,
            (StepView {
                num_choices: final(self).num_choices,
                is_complete: final(self).is_complete,
                event: outcome.event.deep_view(),
                command: outcome.command.deep_view(),
                suspended: outcome.suspended,
            }) == step_of(
                old(self).num_choices,
                old(self).is_complete,
                report_of(report),
                string_table@,
                metadata_table@,
                command_handlers@,
            ),
    {
        match report {
            Ok(SuspendReason::Line(line)) => {
                self.num_choices = 0;
                let shown = BevyYarnDialogueEngine::show_line(line, string_table, metadata_table);
                StepOutcome { event: Some(BevyYarnEvent::Say(shown)), command: None, suspended: true }
            },
            Ok(SuspendReason::Options(options)) => {
                let choices = BevyYarnDialogueEngine::show_choices(
                    options,
                    string_table,
                    metadata_table,
                );
                proof {
                    assert(choices.deep_view().len() == choices.len());
                    assert(options.deep_view().len() == options.len());
                }
                self.num_choices = choices.len();
                StepOutcome {
                    event: Some(BevyYarnEvent::Choices(choices)),
                    command: None,
                    suspended: true,
                }
            },
            Ok(SuspendReason::Command(text)) => {
                self.num_choices = 0;
                let shown = BevyYarnDialogueEngine::show_command(text.as_str(), command_handlers);
                let command = if shown.handled {
                    Some(shown.duplicate())
                } else {
                    None
                };
                StepOutcome { event: Some(BevyYarnEvent::Command(shown)), command, suspended: false }
            },
            Ok(SuspendReason::NodeChange { start: _, end: _ }) => {
                self.num_choices = 0;
                StepOutcome { event: None, command: None, suspended: false }
            },
            Ok(SuspendReason::DialogueComplete(_)) => {
                self.num_choices = 0;
                self.is_complete = true;
                StepOutcome {
                    event: Some(BevyYarnEvent::EndConversation),
                    command: None,
                    suspended: true,
                }
            },
            Ok(SuspendReason::Nop) | Ok(SuspendReason::InvalidOption(_)) => StepOutcome {
                event: None,
                command: None,
                suspended: false,
            },
            Err(_) => StepOutcome { event: None, command: None, suspended: true },
        }
    }

    /// The actions that the keys pressed ask of this dialogue, in the order
    /// in which they are to be carried out.
    pub fn handle_input(&self, keys: &KeyPresses) -> (actions: Vec<InputAction>)
        ensures
            actions@ == input_actions(self.num_choices, *keys),
    {
        let mut actions: Vec<InputAction> = Vec::new();
        if self.num_choices > 0 {
            if keys.key1 || keys.numpad1 {
                actions.push(InputAction::Select(0));
            }
            if self.num_choices > 1 && keys.key2 || keys.numpad2 {
                actions.push(InputAction::Select(1));
            }
            if self.num_choices > 2 && keys.key3 || keys.numpad3 {
                actions.push(InputAction::Select(2));
            }
        } else if keys.space {
            actions.push(InputAction::Step);
        }
        proof {
            assert(actions@ =~= input_actions(self.num_choices, *keys));
        }
        actions
    }
}

/// The part of the game's setup that adds support for the Yarn engine
#[derive(Debug, Clone)]
pub struct YarnPlugin<H> {
    commands: Vec<(String, H)>,
}

impl<H> YarnPlugin<H> {
    /// The commands given to the plugin, with their handlers, in the order
    /// in which they were given.
    pub closed spec fn commands(&self) -> Seq<(String, H)> {
        self.commands@
    }

    /// The registry to start the game with: the plugin's commands, a later
    /// one replacing an earlier one of the same name.
    pub fn build(self) -> (registry: CommandHandlers<H>)
        ensures
            registry@ == handlers_of(self.commands()),
    {
        CommandHandlers::from_commands(self.commands)
    }
}

impl<H> Default for YarnPlugin<H> {
    fn default() -> (plugin: Self)
        ensures
            plugin.commands() == Seq::<(String, H)>::empty(),
    {
        YarnPlugin { commands: Vec::new() }
    }
}

/// Builds up a YarnPlugin with the given configuration
#[derive(Debug, Clone)]
pub struct YarnPluginBuilder<H> {
    commands: Vec<(String, H)>,
}

impl<H> Default for YarnPluginBuilder<H> {
    fn default() -> (builder: Self)
        ensures
            builder.commands() == Seq::<(String, H)>::empty(),
    {
        YarnPluginBuilder { commands: Vec::new() }
    }
}

impl<H> YarnPluginBuilder<H> {
    /// The commands given to the builder so far, with their handlers.
    pub closed spec fn commands(&self) -> Seq<(String, H)> {
        self.commands@
    }

    /// Adds the given yarn command handlers to the builder, replacing any existing
    /// commands. Returns the builder.
    pub fn with_yarn_commands(self, yarn_commands: Vec<(String, H)>) -> (builder: Self)
        ensures
            builder.commands() == yarn_commands@,
    {
        YarnPluginBuilder { commands: yarn_commands }
    }

    /// Adds a command to the command handlers, keeping the existing commands in place.
    /// Returns the builder
    pub fn with_yarn_command(self, command_name: String, command: H) -> (builder: Self)
        ensures
            builder.commands() == self.commands().push((command_name, command)),
    {
        let mut commands = self.commands;
        commands.push((command_name, command));
        YarnPluginBuilder { commands }
    }

    /// Builds a yarn plugin
    pub fn build(self) -> (plugin: YarnPlugin<H>)
        ensures
            plugin.commands() == self.commands(),
    {
        YarnPlugin { commands: self.commands }
    }
}

} // verus!
