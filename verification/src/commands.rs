//! Commands that a dialogue hands to the game, and the handlers that the
//! game registers for them by name.
//!
//! For instance if the yarn file has `<<my_command abcd>>`, then a handler
//! registered under the name `my_command` is the one to call, with the
//! argument `abcd`.

use vstd::prelude::*;
use vstd::hash_map::StringHashMap;
use crate::data::copy_strings;
use crate::entries::{lemma_map_of_keys, lemma_map_of_last_wins, lemma_map_of_push, map_of};
use crate::pattern::{find_all, regex_matches};
use crate::text::{lemma_without_char, remove_char, without_char};

verus! {

/// The pattern of one token of a command's text: a run of quoted strings
/// and of characters that are not white space.
pub const COMMAND_PATTERN: &'static str = r#"(("[^"]+")|\S+)+"#;

/// Represents a custom command from within the Yarn file, usually expressed as
///
/// ```yarn
/// <<my_command arg1 arg2 argN>>
/// ```
#[derive(Debug, Clone, PartialEq, Eq)]
pub struct BevyYarnCommand {
    /// The name of the command
    pub command_name: String,
    /// The arguments provided to the command
    pub args: Vec<String>,
    /// Whether the command has already been handled by a pre-registered command
    pub handled: bool,
}

/// What a `BevyYarnCommand` holds, as sequences.
pub struct BevyYarnCommandView {
    pub command_name: Seq<char>,
    pub args: Seq<Seq<char>>,
    pub handled: bool,
}

impl View for BevyYarnCommand {
    type V = BevyYarnCommandView;

    open spec fn view(&self) -> BevyYarnCommandView {
        BevyYarnCommandView {
            command_name: self.command_name@,
            args: self.args.deep_view(),
            handled: self.handled,
        }
    }
}

impl DeepView for BevyYarnCommand {
    type V = BevyYarnCommandView;

    open spec fn deep_view(&self) -> BevyYarnCommandView {
        self@
    }
}

/// A token of a command with its double quotes taken out.
pub open spec fn unquoted(token: Seq<char>) -> Seq<char> {
    without_char(token, '"')
}

/// The command that a list of tokens stands for: the first token names
/// it, the others are its arguments, and every token loses its double
/// quotes. Without a token the name is empty.
pub open spec fn command_of_tokens(tokens: Seq<Seq<char>>) -> BevyYarnCommandView {
    BevyYarnCommandView {
        command_name: if tokens.len() > 0 {
            unquoted(tokens[0])
        } else {
            Seq::empty()
        },
        args: Seq::new(
            if tokens.len() > 0 {
                (tokens.len() - 1) as nat
            } else {
                0
            },
            |i: int| unquoted(tokens[i + 1]),
        ),
        handled: false,
    }
}

/// The command that `text` stands for: its tokens are the matches of
/// `COMMAND_PATTERN`. A pattern that the regex engine rejects leaves no
/// token.
pub open spec fn command_of_text(text: Seq<char>) -> BevyYarnCommandView {
    match regex_matches(COMMAND_PATTERN@, text) {
        Some(tokens) => command_of_tokens(tokens),
        None => command_of_tokens(Seq::empty()),
    }
}

/// A command has one argument for each token after the first, and neither
/// its name nor its arguments hold a double quote.
pub proof fn lemma_command_of_tokens(tokens: Seq<Seq<char>>)
    ensures
        tokens.len() > 0 ==> command_of_tokens(tokens).args.len() == tokens.len() - 1,
        tokens.len() == 0 ==> command_of_tokens(tokens).args.len() == 0,
        !command_of_tokens(tokens).command_name.contains('"'),
        forall|i: int|
            0 <= i < command_of_tokens(tokens).args.len() ==> !(
            #[trigger] command_of_tokens(tokens).args[i]).contains('"'),
        !command_of_tokens(tokens).handled,
{
    if tokens.len() > 0 {
        lemma_without_char(tokens[0], '"');
    }
    assert forall|i: int| 0 <= i < command_of_tokens(tokens).args.len() implies !(
    #[trigger] command_of_tokens(tokens).args[i]).contains('"') by {
        lemma_without_char(tokens[i + 1], '"');
    }
}

/// The handler of a command is the one it was registered with last.
pub proof fn lemma_handlers_of_last_wins<H>(commands: Seq<(String, H)>, at: int)
    requires
        0 <= at < commands.len(),
        forall|later: int|
            at < later < commands.len() ==> (#[trigger] commands[later]).0@ != commands[at].0@,
    ensures
        handlers_of(commands).contains_key(commands[at].0@),
        handlers_of(commands)[commands[at].0@] == commands[at].1,
{
    let named = commands.map_values(|command: (String, H)| (command.0@, command.1));
    assert forall|later: int| at < later < named.len() implies (#[trigger] named[later]).0
        != named[at].0 by {
        assert(commands[later].0@ != commands[at].0@);
    }
    lemma_map_of_last_wins(named, at);
}

/// A command has a handler exactly if it was registered.
pub proof fn lemma_handlers_of_names<H>(commands: Seq<(String, H)>, name: Seq<char>)
    ensures
        handlers_of(commands).contains_key(name) <==> exists|i: int|
            0 <= i < commands.len() && (#[trigger] commands[i]).0@ == name,
{
    let named = commands.map_values(|command: (String, H)| (command.0@, command.1));
    lemma_map_of_keys(named, name);
    if handlers_of(commands).contains_key(name) {
        let i = choose|i: int| 0 <= i < named.len() && (#[trigger] named[i]).0 == name;
        assert(commands[i].0@ == name);
    }
    if exists|i: int| 0 <= i < commands.len() && (#[trigger] commands[i]).0@ == name {
        let i = choose|i: int| 0 <= i < commands.len() && (#[trigger] commands[i]).0@ == name;
        assert(named[i].0 == name);
    }
}

impl BevyYarnCommand {
    /// Builds the command from the tokens of its text.
    pub fn from_tokens(tokens: &Vec<String>) -> (command: BevyYarnCommand)
        ensures
            command@ == command_of_tokens(tokens.deep_view()),
    {
        let mut command_name = String::new();
        let mut args: Vec<String> = Vec::new();
        let mut i: usize = 0;
        while i < tokens.len()
            invariant
                i <= tokens.len(),
                i == 0 ==> command_name@ == Seq::<char>::empty(),
                i > 0 ==> command_name@ == unquoted(tokens@[0]@),
                i == 0 ==> args.len() == 0,
                i > 0 ==> args.len() == i - 1,
                forall|k: int| 0 <= k < args.len() ==> args@[k]@ == unquoted(tokens@[k + 1]@),
            decreases tokens.len() - i,
        {
            let item = remove_char(tokens[i].as_str(), '"');
            if i == 0 {
                command_name = item;
            } else {
                args.push(item);
            }
            i += 1;
        }
        let command = BevyYarnCommand { command_name, args, handled: false };
        proof {
            let expected = command_of_tokens(tokens.deep_view());
            assert(command@.args =~= expected.args);
            assert(command@.command_name == expected.command_name);
        }
        command
    }

    /// Splits the text of a command into its name and its arguments.
    pub fn parse(text: &str) -> (command: BevyYarnCommand)
        ensures
            command@ == command_of_text(text@),
    {
        match find_all(COMMAND_PATTERN, text) {
            Some(tokens) => BevyYarnCommand::from_tokens(&tokens),
            None => {
                let tokens: Vec<String> = Vec::new();
                proof {
                    assert(tokens.deep_view() =~= Seq::<Seq<char>>::empty());
                }
                BevyYarnCommand::from_tokens(&tokens)
            },
        }
    }
}

/// The handlers that the game has registered, by the name of their command.
#[verifier::reject_recursive_types(H)]
pub struct CommandHandlers<H> {
    handlers: StringHashMap<H>,
}

impl<H> View for CommandHandlers<H> {
    type V = Map<Seq<char>, H>;

    closed spec fn view(&self) -> Map<Seq<char>, H> {
        self.handlers@
    }
}

/// The registry that results from registering `commands` in order, a later
/// entry replacing an earlier one of the same name.
pub open spec fn handlers_of<H>(commands: Seq<(String, H)>) -> Map<Seq<char>, H> {
    map_of(commands.map_values(|command: (String, H)| (command.0@, command.1)))
}

/// Registers or replaces handlers after the registry has been set up.
pub trait AddBevyCommandHandlerExt<H> {
    /// The handlers registered so far.
    spec fn registered(&self) -> Map<Seq<char>, H>;

    /// Add a command to the handlers. If the command already exists,
    /// the existing handler is replaced.
    fn add_yarn_command(&mut self, command_name: String, handler: H)
        ensures
            final(self).registered() == old(self).registered().insert(command_name@, handler),
    ;
}

impl<H> AddBevyCommandHandlerExt<H> for CommandHandlers<H> {
    open spec fn registered(&self) -> Map<Seq<char>, H> {
        self@
    }

    fn add_yarn_command(&mut self, command_name: String, handler: H) {
        self.handlers.insert(command_name, handler);
    }
}

impl<H> Default for CommandHandlers<H> {
    fn default() -> (registry: Self)
        ensures
            registry@ == Map::<Seq<char>, H>::empty(),
    {
        CommandHandlers::new()
    }
}

impl<H> CommandHandlers<H> {
    /// A registry without handlers.
    pub fn new() -> (registry: Self)
        ensures
            registry@ == Map::<Seq<char>, H>::empty(),
    {
        CommandHandlers { handlers: StringHashMap::new() }
    }

    /// The registry that holds `commands`, a later entry replacing an
    /// earlier one of the same name.
    pub fn from_commands(commands: Vec<(String, H)>) -> (registry: Self)
        ensures
            registry@ == handlers_of(commands@),
    {
        let ghost all = commands@;
        let mut registry = CommandHandlers::new();
        for entry in it: commands.into_iter()
            invariant
                it.seq() == all,
                registry@ == handlers_of(all.take(it.index())),
        {
            proof {
                let named = |command: (String, H)| (command.0@, command.1);
                assert(all.take(it.index() + 1).map_values(named) =~= all.take(
                    it.index(),
                ).map_values(named).push(named(entry)));
                lemma_map_of_push(all.take(it.index()).map_values(named), entry.0@, entry.1);
            }
            let (name, handler) = entry;
            registry.handlers.insert(name, handler);
        }
        proof {
            assert(all.take(all.len() as int) =~= all);
        }
        registry
    }

    /// The handler registered under `command_name`, if there is one.
    pub fn get(&self, command_name: &str) -> (handler: Option<&H>)
        ensures
            match handler {
                Some(h) => self@.contains_key(command_name@) && *h == self@[command_name@],
                None => !self@.contains_key(command_name@),
            },
    {
        self.handlers.get(command_name)
    }

    /// Whether a handler is registered under `command_name`.
    pub fn contains(&self, command_name: &str) -> (found: bool)
        ensures
            found == self@.contains_key(command_name@),
    {
        self.handlers.contains_key(command_name)
    }
}

impl BevyYarnCommand {
    /// A copy of this command.
    pub fn duplicate(&self) -> (copy: BevyYarnCommand)
        ensures
            copy@ == self@,
    {
        BevyYarnCommand {
            command_name: self.command_name.clone(),
            args: copy_strings(&self.args),
            handled: self.handled,
        }
    }

    /// The handler that the registry holds for this command.
    pub fn handler<'a, H>(&self, registry: &'a CommandHandlers<H>) -> (handler: Option<&'a H>)
        ensures
            match handler {
                Some(h) => registry@.contains_key(self.command_name@) && *h
                    == registry@[self.command_name@],
                None => !registry@.contains_key(self.command_name@),
            },
    {
        registry.get(self.command_name.as_str())
    }
}

} // verus!
