//! The battle service: what runs a battle, and the decisions it takes.
//!
//! A battle starts the game with both fighters and a stage, asks the stats reader
//! for the winner, then ends the game whatever the reader said, and answers with
//! what the reader said. Ending the game asks the system to kill it, waits for
//! that twice, and kills the waiter's child itself when the second wait runs out.
use vstd::prelude::*;
use rand::Rng;

use crate::error::MugenError;
use crate::text::{
    free_of,
    lemma_replaced_free_prefix,
    lemma_replaced_other_tag,
    lemma_replaced_pattern_prefix,
    lemma_replaced_untouched,
    replace_all,
    replaced,
};

verus! {

/// Runs one battle between two fighters and names the winner.
pub trait MugenService: Send + Sync {
    fn start<'a>(&self, fighter_one: &'a str, fighter_two: &'a str) -> Result<&'a str, MugenError>;
}

/// The stages a battle may be fought on.
pub const STAGES: [&'static str; 1] = ["dbartic"];

/// The command line that starts the game; `{p1}`, `{p2}` and `{stage}` are filled in.
pub const LAUNCH_TEMPLATE: &'static str =
    "cd C:\\game && .\\game.exe -p1 {p1} -p2 {p2} -p1.ai 1 -p2.ai 2 -stage {stage} -rounds 1";

/// The command line that asks the system to end the game.
pub const KILL_COMMAND: &'static str = "taskkill /IM game.exe";

/// Seconds to wait, each time, for the kill command to finish.
pub const KILL_WAIT_SECS: u64 = 2;

/// An index drawn at random below `len` (`rand::thread_rng().gen_range(0..len)`).
#[verifier::external_body]
fn random_below(len: usize) -> (index: usize)
    requires
        len > 0,
    ensures
        index < len,
{
    rand::thread_rng().gen_range(0..len)
}

/// A stage drawn at random from `STAGES`.
pub fn choose_stage() -> (stage: &'static str)
    ensures
        exists|i: int| 0 <= i < STAGES@.len() && stage == STAGES@[i],
{
    let index = random_below(STAGES.len());
    STAGES[index]
}

/// The command line that starts a battle of `fighter_one` (player 1) against
/// `fighter_two` (player 2) on `stage`: the template with `{p1}`, then `{p2}`,
/// then `{stage}` replaced, each everywhere it then occurs.
pub open spec fn launch_text(fighter_one: Seq<char>, fighter_two: Seq<char>, stage: Seq<char>) -> Seq<char> {
    replaced(
        replaced(replaced(LAUNCH_TEMPLATE@, "{p1}"@, fighter_one), "{p2}"@, fighter_two),
        "{stage}"@,
        stage,
    )
}

/// The command line that starts a battle of `fighter_one` against `fighter_two` on `stage`.
pub fn launch_command(fighter_one: &str, fighter_two: &str, stage: &str) -> (command: String)
    ensures
        command@ == launch_text(fighter_one@, fighter_two@, stage@),
{
    proof {
        reveal_strlit("{p1}");
        reveal_strlit("{p2}");
        reveal_strlit("{stage}");
    }
    let with_one = replace_all(LAUNCH_TEMPLATE, "{p1}", fighter_one);
    let with_two = replace_all(with_one.as_str(), "{p2}", fighter_two);
    replace_all(with_two.as_str(), "{stage}", stage)
}


/// The command line with the fighters' names and the stage written in as they are.
pub open spec fn plain_launch_text(fighter_one: Seq<char>, fighter_two: Seq<char>, stage: Seq<char>) -> Seq<char> {
    "cd C:\\game && .\\game.exe -p1 "@ + fighter_one + " -p2 "@ + fighter_two
        + " -p1.ai 1 -p2.ai 2 -stage "@ + stage + " -rounds 1"@
}

/// Where neither name nor the stage holds a `{`, the command line carries them
/// as they are, each in its place.
pub proof fn launch_text_keeps_names(fighter_one: Seq<char>, fighter_two: Seq<char>, stage: Seq<char>)
    requires
        free_of(fighter_one, '{'),
        free_of(fighter_two, '{'),
        free_of(stage, '{'),
    ensures
        launch_text(fighter_one, fighter_two, stage) == plain_launch_text(fighter_one, fighter_two, stage),
{
    reveal_strlit("cd C:\\game && .\\game.exe -p1 {p1} -p2 {p2} -p1.ai 1 -p2.ai 2 -stage {stage} -rounds 1");
    reveal_strlit("cd C:\\game && .\\game.exe -p1 ");
    reveal_strlit(" -p2 ");
    reveal_strlit(" -p1.ai 1 -p2.ai 2 -stage ");
    reveal_strlit(" -rounds 1");
    reveal_strlit("{p1}");
    reveal_strlit("{p2}");
    reveal_strlit("{stage}");
    let a = "cd C:\\game && .\\game.exe -p1 "@;
    let b = " -p2 "@;
    let c = " -p1.ai 1 -p2.ai 2 -stage "@;
    let d = " -rounds 1"@;
    let p1 = "{p1}"@;
    let p2 = "{p2}"@;
    let st = "{stage}"@;
    assert(LAUNCH_TEMPLATE@ =~= a + (p1 + (b + (p2 + (c + (st + d))))));
    assert(free_of(a, '{'));
    assert(free_of(b, '{'));
    assert(free_of(c, '{'));
    assert(free_of(d, '{'));
    assert(free_of(p2.skip(1), '{'));
    assert(free_of(st.skip(1), '{'));
    assert(free_of(st.skip(1) + d, '{'));
    // `{p1}`
    lemma_replaced_free_prefix(a, p1 + (b + (p2 + (c + (st + d)))), p1, fighter_one);
    lemma_replaced_pattern_prefix(b + (p2 + (c + (st + d))), p1, fighter_one);
    lemma_replaced_free_prefix(b, p2 + (c + (st + d)), p1, fighter_one);
    lemma_replaced_other_tag(p2, c + (st + d), p1, fighter_one, 2);
    lemma_replaced_free_prefix(c, st + d, p1, fighter_one);
    lemma_replaced_other_tag(st, d, p1, fighter_one, 1);
    lemma_replaced_untouched(d, p1, fighter_one);
    let one = replaced(LAUNCH_TEMPLATE@, p1, fighter_one);
    assert(one =~= (a + fighter_one + b) + (p2 + (c + (st + d))));
    // `{p2}`
    assert(free_of(a + fighter_one + b, '{'));
    lemma_replaced_free_prefix(a + fighter_one + b, p2 + (c + (st + d)), p2, fighter_two);
    lemma_replaced_pattern_prefix(c + (st + d), p2, fighter_two);
    lemma_replaced_free_prefix(c, st + d, p2, fighter_two);
    lemma_replaced_other_tag(st, d, p2, fighter_two, 1);
    lemma_replaced_untouched(d, p2, fighter_two);
    let two = replaced(one, p2, fighter_two);
    assert(two =~= (a + fighter_one + b + fighter_two + c) + (st + d));
    // `{stage}`
    assert(free_of(a + fighter_one + b + fighter_two + c, '{'));
    lemma_replaced_free_prefix(a + fighter_one + b + fighter_two + c, st + d, st, stage);
    lemma_replaced_pattern_prefix(d, st, stage);
    lemma_replaced_untouched(d, st, stage);
    assert(replaced(two, st, stage) =~= plain_launch_text(fighter_one, fighter_two, stage));
}

/// There is one stage, so a battle between the same two fighters is always
/// started with the same command line, whichever stage is drawn.
pub proof fn launch_text_is_fixed(fighter_one: Seq<char>, fighter_two: Seq<char>, i: int, j: int)
    requires
        0 <= i < STAGES@.len(),
        0 <= j < STAGES@.len(),
    ensures
        launch_text(fighter_one, fighter_two, STAGES@[i]@) == launch_text(
            fighter_one,
            fighter_two,
            STAGES@[j]@,
        ),
{
    assert(STAGES@.len() == 1);
    assert(i == j);
}

/// What running a battle does next.
pub enum MatchAction<'a> {
    /// Start the game with this command line.
    Launch(String),
    /// Ask the stats reader who won between these two fighters.
    ReadWinner { fighter_one: &'a str, fighter_two: &'a str },
    /// End the game.
    TearDown,
    /// The battle is over, with this outcome.
    Finish(Result<&'a str, MugenError>),
}

/// How far a battle has come.
pub enum MatchPhase<'a> {
    /// The game is being started.
    Launching,
    /// The stats reader is watching for the winner.
    Reading,
    /// The game is being ended; the reader said this.
    TearingDown(Result<&'a str, MugenError>),
    /// The battle is over.
    Over,
}

/// One battle between two fighters, step by step.
pub struct MatchSession<'a> {
    fighter_one: &'a str,
    fighter_two: &'a str,
    phase: MatchPhase<'a>,
}

impl<'a> MatchSession<'a> {
    pub closed spec fn fighter_one(&self) -> &'a str {
        self.fighter_one
    }

    pub closed spec fn fighter_two(&self) -> &'a str {
        self.fighter_two
    }

    pub closed spec fn phase(&self) -> MatchPhase<'a> {
        self.phase
    }

    /// Starts a battle of `fighter_one` against `fighter_two` on a stage drawn
    /// from `STAGES`: the first step is to start the game.
    pub fn begin(fighter_one: &'a str, fighter_two: &'a str) -> (started: (Self, MatchAction<'a>))
        ensures
            started.0.fighter_one() == fighter_one,
            started.0.fighter_two() == fighter_two,
            started.0.phase() is Launching,
            started.1 matches MatchAction::Launch(command) && command@ == launch_text(
                fighter_one@,
                fighter_two@,
                "dbartic"@,
            ),
            started.1 matches MatchAction::Launch(command) && exists|i: int|
                0 <= i < STAGES@.len() && command@ == launch_text(
                    fighter_one@,
                    fighter_two@,
                    (#[trigger] STAGES@[i])@,
                ),
    {
        let stage = choose_stage();
        let command = launch_command(fighter_one, fighter_two, stage);
        proof {
            reveal_strlit("dbartic");
            assert(STAGES@[0]@ == "dbartic"@);
        }
        (MatchSession { fighter_one, fighter_two, phase: MatchPhase::Launching }, MatchAction::Launch(command))
    }

    /// The game was started, or failed to start: on failure the battle is over
    /// with that failure, else the stats reader is asked who won.
    pub fn launched(&mut self, launch: Result<(), MugenError>) -> (next: MatchAction<'a>)
        requires
            old(self).phase() is Launching,
        ensures
            final(self).fighter_one() == old(self).fighter_one(),
            final(self).fighter_two() == old(self).fighter_two(),
            match launch {
                Ok(_) => final(self).phase() is Reading && next == MatchAction::ReadWinner {
                    fighter_one: old(self).fighter_one(),
                    fighter_two: old(self).fighter_two(),
                },
                Err(e) => final(self).phase() is Over && next == MatchAction::<'a>::Finish(Err(e)),
            },
    {
        match launch {
            Ok(_) => {
                self.phase = MatchPhase::Reading;
                MatchAction::ReadWinner { fighter_one: self.fighter_one, fighter_two: self.fighter_two }
            },
            Err(e) => {
                self.phase = MatchPhase::Over;
                MatchAction::Finish(Err(e))
            },
        }
    }

    /// The stats reader answered: whatever it said, the game is ended next.
    pub fn winner_read(&mut self, read: Result<&'a str, MugenError>) -> (next: MatchAction<'a>)
        requires
            old(self).phase() is Reading,
        ensures
            final(self).fighter_one() == old(self).fighter_one(),
            final(self).fighter_two() == old(self).fighter_two(),
            final(self).phase() == MatchPhase::TearingDown(read),
            next is TearDown,
    {
        self.phase = MatchPhase::TearingDown(read);
        MatchAction::TearDown
    }

    /// The game was ended (however that went): the battle is over with what the
    /// stats reader said.
    pub fn torn_down(&mut self) -> (next: MatchAction<'a>)
        requires
            old(self).phase() is TearingDown,
        ensures
            final(self).fighter_one() == old(self).fighter_one(),
            final(self).fighter_two() == old(self).fighter_two(),
            final(self).phase() is Over,
            next == MatchAction::Finish(old(self).phase()->TearingDown_0),
    {
        let mut phase = MatchPhase::Over;
        std::mem::swap(&mut phase, &mut self.phase);
        match phase {
            MatchPhase::TearingDown(read) => MatchAction::Finish(read),
            _ => vstd::pervasive::unreached(),
        }
    }
}

/// What ending the game does next.
pub enum TeardownAction {
    /// Run this command line.
    Spawn(String),
    /// Wait up to this many seconds for the command to finish.
    Wait(u64),
    /// Kill the command.
    Kill,
    /// Wait for the killed command to finish.
    Reap,
    /// Ending the game is over, with this outcome.
    Finish(Result<(), MugenError>),
}

/// How far ending the game has come.
#[derive(PartialEq, Eq, Structural, Clone, Copy, Debug)]
pub enum TeardownPhase {
    Spawning,
    FirstWait,
    SecondWait,
    Killing,
    Reaping,
    Over,
}

/// Ending the game, step by step: the kill command is run, waited for twice,
/// and killed itself if the second wait runs out. Any failure ends it.
pub struct Teardown {
    phase: TeardownPhase,
}

impl Teardown {
    pub closed spec fn phase(&self) -> TeardownPhase {
        self.phase
    }

    /// Starts ending the game: the first step runs the kill command.
    pub fn begin() -> (started: (Self, TeardownAction))
        ensures
            started.0.phase() == TeardownPhase::Spawning,
            started.1 matches TeardownAction::Spawn(command) && command@ == KILL_COMMAND@,
    {
        (Teardown { phase: TeardownPhase::Spawning }, TeardownAction::Spawn(KILL_COMMAND.to_owned()))
    }

    /// The kill command was started, or failed to start.
    pub fn spawned(&mut self, spawn: Result<(), MugenError>) -> (next: TeardownAction)
        requires
            old(self).phase() == TeardownPhase::Spawning,
        ensures
            match spawn {
                Ok(_) => final(self).phase() == TeardownPhase::FirstWait && next
                    == TeardownAction::Wait(KILL_WAIT_SECS),
                Err(e) => final(self).phase() == TeardownPhase::Over && next == TeardownAction::Finish(
                    Err(e),
                ),
            },
    {
        match spawn {
            Ok(_) => {
                self.phase = TeardownPhase::FirstWait;
                TeardownAction::Wait(KILL_WAIT_SECS)
            },
            Err(e) => {
                self.phase = TeardownPhase::Over;
                TeardownAction::Finish(Err(e))
            },
        }
    }

    /// A wait ended: `Ok(true)` if the command had finished, `Ok(false)` if the
    /// wait ran out. The first wait is followed by a second whatever it found;
    /// after the second, the command is killed if it has not finished.
    pub fn waited(&mut self, wait: Result<bool, MugenError>) -> (next: TeardownAction)
        requires
            old(self).phase() == TeardownPhase::FirstWait || old(self).phase()
                == TeardownPhase::SecondWait,
        ensures
            match wait {
                Err(e) => final(self).phase() == TeardownPhase::Over && next == TeardownAction::Finish(
                    Err(e),
                ),
                Ok(finished) => if old(self).phase() == TeardownPhase::FirstWait {
                    final(self).phase() == TeardownPhase::SecondWait && next == TeardownAction::Wait(
                        KILL_WAIT_SECS,
                    )
                } else if finished {
                    final(self).phase() == TeardownPhase::Over && next == TeardownAction::Finish(
                        Ok(()),
                    )
                } else {
                    final(self).phase() == TeardownPhase::Killing && next is Kill
                },
            },
    {
        match wait {
            Err(e) => {
                self.phase = TeardownPhase::Over;
                TeardownAction::Finish(Err(e))
            },
            Ok(finished) => {
                if self.phase == TeardownPhase::FirstWait {
                    self.phase = TeardownPhase::SecondWait;
                    TeardownAction::Wait(KILL_WAIT_SECS)
                } else if finished {
                    self.phase = TeardownPhase::Over;
                    TeardownAction::Finish(Ok(()))
                } else {
                    self.phase = TeardownPhase::Killing;
                    TeardownAction::Kill
                }
            },
        }
    }

    /// The kill was sent, or failed.
    pub fn killed(&mut self, kill: Result<(), MugenError>) -> (next: TeardownAction)
        requires
            old(self).phase() == TeardownPhase::Killing,
        ensures
            match kill {
                Ok(_) => final(self).phase() == TeardownPhase::Reaping && next is Reap,
                Err(e) => final(self).phase() == TeardownPhase::Over && next == TeardownAction::Finish(
                    Err(e),
                ),
            },
    {
        match kill {
            Ok(_) => {
                self.phase = TeardownPhase::Reaping;
                TeardownAction::Reap
            },
            Err(e) => {
                self.phase = TeardownPhase::Over;
                TeardownAction::Finish(Err(e))
            },
        }
    }

    /// The killed command was waited for, or the wait failed.
    pub fn reaped(&mut self, reap: Result<(), MugenError>) -> (next: TeardownAction)
        requires
            old(self).phase() == TeardownPhase::Reaping,
        ensures
            final(self).phase() == TeardownPhase::Over,
            match reap {
                Ok(_) => next == TeardownAction::Finish(Ok(())),
                Err(e) => next == TeardownAction::Finish(Err(e)),
            },
    {
        self.phase = TeardownPhase::Over;
        match reap {
            Ok(_) => TeardownAction::Finish(Ok(())),
            Err(e) => TeardownAction::Finish(Err(e)),
        }
    }
}

}
