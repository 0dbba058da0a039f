//! The command line: which typed command runs what.
use vstd::prelude::*;
use std::sync::Arc;

use crate::error::MugenError;
use crate::handlers::{LogLine, MugenCliHandler};
use crate::text::{trim, trimmed};
use crate::service::MugenService;

verus! {

/// What a typed command does.
#[derive(PartialEq, Eq, Structural, Clone, Copy, Debug)]
pub enum CLICommand {
    /// Ask for two fighters and run a battle between them.
    StartBattle,
}

/// The command that `name` selects in `table`: that of its first entry with this name.
pub open spec fn lookup(table: Seq<(Seq<char>, CLICommand)>, name: Seq<char>) -> Option<CLICommand>
    decreases table.len(),
{
    if table.len() == 0 {
        None
    } else if table[0].0 == name {
        Some(table[0].1)
    } else {
        lookup(table.drop_first(), name)
    }
}

/// The commands the command line knows: `start` runs a battle.
pub open spec fn known_commands() -> Seq<(Seq<char>, CLICommand)> {
    seq![("start"@, CLICommand::StartBattle)]
}

/// Reads commands and runs what they select.
pub struct CLIRunner<S: MugenService + ?Sized = dyn MugenService> {
    handler: Arc<MugenCliHandler<S>>,
    /// Each command's name with what it does, looked up by the first entry with
    /// the typed name. A `Vec` stands here because vstd specifies `HashMap` only
    /// for keys that obey its key model, and `String` is not among them.
    commands: Vec<(String, CLICommand)>,
}

impl<S: MugenService + ?Sized> CLIRunner<S> {
    /// The handler that runs the battles.
    pub closed spec fn handler_spec(&self) -> Arc<MugenCliHandler<S>> {
        self.handler
    }

    /// Each command's name, with what it does.
    pub closed spec fn commands(&self) -> Seq<(Seq<char>, CLICommand)> {
        self.commands@.map_values(|entry: (String, CLICommand)| (entry.0@, entry.1))
    }

    pub fn new(handler: Arc<MugenCliHandler<S>>) -> (runner: Self)
        ensures
            runner.handler_spec() == handler,
            runner.commands() == known_commands(),
    {
        let mut commands: Vec<(String, CLICommand)> = Vec::new();
        commands.push(("start".to_owned(), CLICommand::StartBattle));
        let runner = Self { handler, commands };
        proof {
            assert(runner.commands() =~= known_commands());
        }
        runner
    }

    /// The handler that runs the battles.
    pub fn handler(&self) -> (handler: &MugenCliHandler<S>)
        ensures
            *handler == *self.handler_spec(),
    {
        &self.handler
    }

    /// The command that the typed line `command_type` selects, if any: the one
    /// named by the line without the white space at its ends.
    pub fn command_for(&self, command_type: &str) -> (command: Option<CLICommand>)
        ensures
            command == lookup(self.commands(), trimmed(command_type@)),
    {
        let name = trim(command_type).to_owned();
        let mut i: usize = 0;
        proof {
            assert(self.commands().skip(0) =~= self.commands());
        }
        while i < self.commands.len()
            invariant
                name@ == trimmed(command_type@),
                i <= self.commands.len(),
                self.commands().len() == self.commands@.len(),
                lookup(self.commands(), name@) == lookup(self.commands().skip(i as int), name@),
            decreases self.commands.len() - i,
        {
            proof {
                assert(self.commands().skip(i as int)[0] == self.commands()[i as int]);
                assert(self.commands().skip(i as int).drop_first() =~= self.commands().skip(i + 1));
            }
            if self.commands[i].0 == name {
                return Some(self.commands[i].1);
            }
            i = i + 1;
        }
        None
    }

    /// Runs a battle between the fighters named by two typed lines, each without
    /// the white space at its ends, the first as player 1, and gives what the
    /// terminal reports of it.
    pub fn start_battle(&self, player_one_line: &str, player_two_line: &str) -> (reported: Result<
        LogLine,
        MugenError,
    >)
        ensures
            exists|fighter_one: &str, fighter_two: &str|
                #![trigger (*self.handler_spec()).reports_battle(fighter_one, fighter_two, reported)]
                fighter_one@ == trimmed(player_one_line@) && fighter_two@ == trimmed(
                    player_two_line@,
                ) && (*self.handler_spec()).reports_battle(fighter_one, fighter_two, reported),
    {
        let fighter_one = trim(player_one_line);
        let fighter_two = trim(player_two_line);
        let reported = self.handler.start(fighter_one, fighter_two);
        assert((*self.handler_spec()).reports_battle(fighter_one, fighter_two, reported));
        reported
    }
}

/// Of the commands the command line knows, `start` runs a battle and no other
/// line selects anything.
pub proof fn only_start_is_known(name: Seq<char>)
    ensures
        lookup(known_commands(), name) == if name == "start"@ {
            Some(CLICommand::StartBattle)
        } else {
            None
        },
{
    reveal_with_fuel(lookup, 2);
}

}
