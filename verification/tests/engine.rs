use bevy_mod_yarn::assets::{BevyYarnMetadataTable, BevyYarnStringTable, LineInfo, MetadataInfo};
use bevy_mod_yarn::commands::{AddBevyCommandHandlerExt, BevyYarnCommand, CommandHandlers};
use bevy_mod_yarn::data::{BevyYarnChoice, BevyYarnLine, Line, YarnData};
use bevy_mod_yarn::events::BevyYarnEvent;
use bevy_mod_yarn::vm::{SuspendReason, VmError, YarnOption};
use bevy_mod_yarn::{BevyYarnDialogueEngine, InputAction, KeyPresses, StepOutcome, LOCALE};

fn strings(items: &[&str]) -> Vec<String> {
    items.iter().map(|s| s.to_string()).collect()
}

fn line(id: &str, substitutions: &[&str]) -> Line {
    Line { id: id.to_string(), substitutions: strings(substitutions) }
}

fn string_table() -> BevyYarnStringTable {
    let row = |id: &str, text: &str| LineInfo {
        id: id.to_string(),
        text: text.to_string(),
        file: "story.yarn".to_string(),
        node: "Start".to_string(),
        line_number: 1,
    };
    BevyYarnStringTable::from_rows(vec![
        row("line:1", "Alice: Hello {0}"),
        row("line:2", "Go left"),
        row("line:3", "Bob: Go {0}"),
    ])
}

fn metadata_table() -> BevyYarnMetadataTable {
    let row = |id: &str, tags: &[&str]| MetadataInfo {
        id: id.to_string(),
        node: "Start".to_string(),
        line_number: 1,
        tags: strings(tags),
    };
    BevyYarnMetadataTable::from_rows(vec![row("line:1", &["greeting"]), row("line:3", &["a", "b"])])
}

fn handlers() -> CommandHandlers<u32> {
    let mut registry = CommandHandlers::new();
    registry.add_yarn_command("echo".to_string(), 1);
    registry
}

fn engine(num_choices: usize, is_complete: bool) -> BevyYarnDialogueEngine {
    BevyYarnDialogueEngine {
        engine_name: "story.yarnc".to_string(),
        num_choices,
        is_complete,
        string_table: "story.lines.csv".to_string(),
        metadata_table: "story.metadata.csv".to_string(),
    }
}

fn step(
    engine: &mut BevyYarnDialogueEngine,
    report: Result<SuspendReason, VmError>,
) -> StepOutcome {
    engine.process_yarn_events(report, &string_table(), &metadata_table(), &handlers())
}

#[test]
fn locale_is_english() {
    assert_eq!(LOCALE, "en");
}

#[test]
fn load_yarn_data_starts_an_engine() {
    let data = YarnData { yarnc_path: "../assets/minimal.yarnc".to_string() };
    assert_eq!(
        BevyYarnDialogueEngine::load_yarn_data(&data),
        Some(BevyYarnDialogueEngine {
            engine_name: "../assets/minimal.yarnc".to_string(),
            num_choices: 0,
            is_complete: false,
            string_table: "../assets/minimal.lines.csv".to_string(),
            metadata_table: "../assets/minimal.metadata.csv".to_string(),
        })
    );
}

#[test]
fn load_yarn_data_needs_a_file_name() {
    let data = YarnData { yarnc_path: "..".to_string() };
    assert_eq!(BevyYarnDialogueEngine::load_yarn_data(&data), None);
}

#[test]
fn a_line_is_said_and_ends_the_step() {
    let mut state = engine(2, false);
    let outcome = step(&mut state, Ok(SuspendReason::Line(line("line:1", &["Bob"]))));
    assert_eq!(
        outcome,
        StepOutcome {
            event: Some(BevyYarnEvent::Say(BevyYarnLine {
                line: line("line:1", &["Bob"]),
                formatted_text: "Hello Bob".to_string(),
                character: Some("Alice".to_string()),
                tags: strings(&["greeting"]),
            })),
            command: None,
            suspended: true,
        }
    );
    assert_eq!(state, engine(0, false));
}

#[test]
fn a_line_without_metadata_has_no_tags() {
    let mut state = engine(0, false);
    let outcome = step(&mut state, Ok(SuspendReason::Line(line("line:2", &[]))));
    assert_eq!(
        outcome.event,
        Some(BevyYarnEvent::Say(BevyYarnLine {
            line: line("line:2", &[]),
            formatted_text: "Go left".to_string(),
            character: None,
            tags: vec![],
        }))
    );
}

#[test]
fn options_are_offered_and_counted() {
    let mut state = engine(0, false);
    let options = vec![
        YarnOption { line: line("line:2", &[]), id: 0, destination_node: "Left".to_string() },
        YarnOption { line: line("line:3", &["right"]), id: 1, destination_node: "Right".to_string() },
    ];
    let outcome = step(&mut state, Ok(SuspendReason::Options(options)));
    assert_eq!(
        outcome,
        StepOutcome {
            event: Some(BevyYarnEvent::Choices(vec![
                BevyYarnChoice {
                    line_id: "line:2".to_string(),
                    destination_node: "Left".to_string(),
                    formatted_line: BevyYarnLine {
                        line: line("line:2", &[]),
                        formatted_text: "Go left".to_string(),
                        character: None,
                        tags: vec![],
                    },
                },
                BevyYarnChoice {
                    line_id: "line:3".to_string(),
                    destination_node: "Right".to_string(),
                    formatted_line: BevyYarnLine {
                        line: line("line:3", &["right"]),
                        formatted_text: "Go right".to_string(),
                        character: Some("Bob".to_string()),
                        tags: strings(&["a", "b"]),
                    },
                },
            ])),
            command: None,
            suspended: true,
        }
    );
    assert_eq!(state, engine(2, false));
}

#[test]
fn no_options_leave_no_choice() {
    let mut state = engine(3, false);
    let outcome = step(&mut state, Ok(SuspendReason::Options(vec![])));
    assert_eq!(outcome.event, Some(BevyYarnEvent::Choices(vec![])));
    assert!(outcome.suspended);
    assert_eq!(state, engine(0, false));
}

#[test]
fn a_registered_command_is_handed_to_its_handler() {
    let mut state = engine(2, false);
    let outcome = step(&mut state, Ok(SuspendReason::Command("echo \"a b\" c".to_string())));
    let command = BevyYarnCommand {
        command_name: "echo".to_string(),
        args: strings(&["a b", "c"]),
        handled: true,
    };
    assert_eq!(
        outcome,
        StepOutcome {
            event: Some(BevyYarnEvent::Command(command.clone())),
            command: Some(command),
            suspended: false,
        }
    );
    assert_eq!(state, engine(0, false));
}

#[test]
fn an_unregistered_command_is_only_announced() {
    let mut state = engine(0, false);
    let outcome = step(&mut state, Ok(SuspendReason::Command("jump high".to_string())));
    assert_eq!(
        outcome,
        StepOutcome {
            event: Some(BevyYarnEvent::Command(BevyYarnCommand {
                command_name: "jump".to_string(),
                args: strings(&["high"]),
                handled: false,
            })),
            command: None,
            suspended: false,
        }
    );
}

#[test]
fn a_change_of_node_runs_on() {
    let mut state = engine(2, false);
    let report = SuspendReason::NodeChange { start: "Next".to_string(), end: "Start".to_string() };
    let outcome = step(&mut state, Ok(report));
    assert_eq!(outcome, StepOutcome { event: None, command: None, suspended: false });
    assert_eq!(state, engine(0, false));
}

#[test]
fn the_end_of_the_dialogue_completes_the_engine() {
    let mut state = engine(2, false);
    let outcome = step(&mut state, Ok(SuspendReason::DialogueComplete("Start".to_string())));
    assert_eq!(
        outcome,
        StepOutcome { event: Some(BevyYarnEvent::EndConversation), command: None, suspended: true }
    );
    assert_eq!(state, engine(0, true));
}

#[test]
fn a_complete_engine_stays_complete() {
    let mut state = engine(0, true);
    step(&mut state, Ok(SuspendReason::Line(line("line:2", &[]))));
    assert!(state.is_complete);
    step(&mut state, Ok(SuspendReason::Options(vec![])));
    assert!(state.is_complete);
}

#[test]
fn nothing_and_an_invalid_option_change_nothing() {
    for report in [Ok(SuspendReason::Nop), Ok(SuspendReason::InvalidOption(7))] {
        let mut state = engine(2, false);
        let outcome = step(&mut state, report);
        assert_eq!(outcome, StepOutcome { event: None, command: None, suspended: false });
        assert_eq!(state, engine(2, false));
    }
}

#[test]
fn a_failure_gives_the_step_up() {
    let mut state = engine(2, false);
    let report = Err(VmError { message: "no node selected".to_string() });
    let outcome = step(&mut state, report);
    assert_eq!(outcome, StepOutcome { event: None, command: None, suspended: true });
    assert_eq!(state, engine(2, false));
}

#[test]
fn show_command_marks_registered_commands() {
    assert!(BevyYarnDialogueEngine::show_command("echo 1", &handlers()).handled);
    assert!(!BevyYarnDialogueEngine::show_command("Echo 1", &handlers()).handled);
    assert!(!BevyYarnDialogueEngine::show_command("", &handlers()).handled);
}

#[test]
fn show_line_and_show_choices_build_what_is_shown() {
    let shown = BevyYarnDialogueEngine::show_line(
        line("line:9", &[]),
        &string_table(),
        &metadata_table(),
    );
    assert_eq!(shown.formatted_text, "<missing_string: line:9>");
    assert_eq!(shown.character, None);
    let choices = BevyYarnDialogueEngine::show_choices(vec![], &string_table(), &metadata_table());
    assert!(choices.is_empty());
}

fn keys() -> KeyPresses {
    KeyPresses::default()
}

#[test]
fn space_steps_a_dialogue_without_choices() {
    let state = engine(0, false);
    assert_eq!(state.handle_input(&KeyPresses { space: true, ..keys() }), vec![InputAction::Step]);
    assert_eq!(state.handle_input(&keys()), vec![]);
    assert_eq!(state.handle_input(&KeyPresses { key1: true, numpad2: true, ..keys() }), vec![]);
}

#[test]
fn space_does_nothing_while_choices_are_open() {
    let state = engine(2, false);
    assert_eq!(state.handle_input(&KeyPresses { space: true, ..keys() }), vec![]);
}

#[test]
fn number_keys_select_options() {
    let state = engine(3, false);
    assert_eq!(
        state.handle_input(&KeyPresses { key1: true, ..keys() }),
        vec![InputAction::Select(0)]
    );
    assert_eq!(
        state.handle_input(&KeyPresses { numpad1: true, ..keys() }),
        vec![InputAction::Select(0)]
    );
    assert_eq!(
        state.handle_input(&KeyPresses { key2: true, ..keys() }),
        vec![InputAction::Select(1)]
    );
    assert_eq!(
        state.handle_input(&KeyPresses { key3: true, ..keys() }),
        vec![InputAction::Select(2)]
    );
    assert_eq!(
        state.handle_input(&KeyPresses { key1: true, key2: true, numpad3: true, ..keys() }),
        vec![InputAction::Select(0), InputAction::Select(1), InputAction::Select(2)]
    );
}

#[test]
fn top_row_keys_need_that_many_options() {
    let state = engine(1, false);
    assert_eq!(state.handle_input(&KeyPresses { key2: true, key3: true, ..keys() }), vec![]);
    let state = engine(2, false);
    assert_eq!(
        state.handle_input(&KeyPresses { key2: true, key3: true, ..keys() }),
        vec![InputAction::Select(1)]
    );
}

#[test]
fn number_pad_keys_select_whatever_the_number_of_options() {
    let state = engine(1, false);
    assert_eq!(
        state.handle_input(&KeyPresses { numpad2: true, numpad3: true, ..keys() }),
        vec![InputAction::Select(1), InputAction::Select(2)]
    );
}
