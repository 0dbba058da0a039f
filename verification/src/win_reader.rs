//! The decisions of the reader that watches the game's memory for the winner.
//!
//! The game keeps, for each side, a flag that turns to 1 when that side has won.
//! The reader finds the game's process, follows a pointer to the fight's data, and
//! then polls both flags once a second until one of them is set, a read keeps
//! failing, or it has polled too often.
use vstd::prelude::*;

use crate::error::MugenError;

verus! {

/// The name of the game's executable, as the process list shows it.
pub const MUGEN_PROCESS_NAME: &'static str = "game.exe";
/// Polls without a winner after which the reader gives up.
pub const MAX_LOOPS: u16 = 180;
/// Failed reads after which the reader gives up.
pub const MAX_READ_ERRORS: u16 = 5;
/// Milliseconds to wait before each poll.
pub const AWAIT_TIME_EACH_LOOP: u64 = 1000;
/// Seconds to wait, before anything else, for the game to be fully up.
pub const STARTUP_WAIT_SECS: u64 = 5;
/// Offset, from the module's base address, of the pointer to the fight's data.
pub const WIN_OFFSET: usize = 0x001040E8;
/// Offset, in the fight's data, of the red side's flag.
pub const RED_OFFSET: usize = 0x00008728;
/// Offset, in the fight's data, of the blue side's flag.
pub const BLUE_OFFSET: usize = 0x0000871C;
/// Bytes read at each address.
pub const READ_SIZE: usize = 4;
/// The value of a handle that refers to nothing (`INVALID_HANDLE_VALUE`).
pub const INVALID_HANDLE: usize = usize::MAX;

/// The side whose flag was set.
#[derive(PartialEq, Eq, Structural, Clone, Copy, Debug)]
pub enum Side {
    /// The first fighter named, whose flag is the blue one.
    FighterOne,
    /// The second fighter named, whose flag is the red one.
    FighterTwo,
}

impl Side {
    /// The name of the fighter on this side.
    pub open spec fn chosen<'a>(self, fighter_one: &'a str, fighter_two: &'a str) -> &'a str {
        match self {
            Side::FighterOne => fighter_one,
            Side::FighterTwo => fighter_two,
        }
    }

    /// The name of the fighter on this side.
    pub fn pick<'a>(self, fighter_one: &'a str, fighter_two: &'a str) -> (winner: &'a str)
        ensures
            winner == self.chosen(fighter_one, fighter_two),
            self == Side::FighterOne ==> winner == fighter_one,
            self == Side::FighterTwo ==> winner == fighter_two,
    {
        match self {
            Side::FighterOne => fighter_one,
            Side::FighterTwo => fighter_two,
        }
    }
}

/// Whichever side's flag is set, the winner named is one of the two fighters.
pub proof fn winner_is_a_fighter(side: Side, fighter_one: &str, fighter_two: &str)
    ensures
        side.chosen(fighter_one, fighter_two) == fighter_one || side.chosen(fighter_one, fighter_two)
            == fighter_two,
{
}

/// The number whose little-endian bytes start `bytes`.
pub open spec fn le_u32(bytes: Seq<u8>) -> int {
    bytes[0] + 256 * bytes[1] + 65536 * bytes[2] + 16777216 * bytes[3]
}

/// The pid of the first process named `name`, or 0 where none is.
pub open spec fn first_pid_named(processes: Seq<(u32, String)>, name: Seq<char>) -> u32
    decreases processes.len(),
{
    if processes.len() == 0 {
        0
    } else if processes[0].1@ == name {
        processes[0].0
    } else {
        first_pid_named(processes.drop_first(), name)
    }
}

/// The reader that watches the game's memory for the winner.
pub struct MugenStatsWinReader;

impl MugenStatsWinReader {
    /// Whether `value` is a handle that refers to something.
    pub fn is_process_handler_valid(value: usize) -> (valid: bool)
        ensures
            valid == (value != 0 && value != INVALID_HANDLE),
    {
        value != 0 && value != INVALID_HANDLE
    }

    /// The pid of the game's process among `processes` (pid and name of each):
    /// that of the first one named `game.exe`, which must not be 0.
    pub fn select_process(processes: &Vec<(u32, String)>) -> (pid: Result<u32, MugenError>)
        ensures
            match pid {
                Ok(p) => p != 0 && p == first_pid_named(processes@, MUGEN_PROCESS_NAME@),
                Err(e) => e is ProcessNotFound && first_pid_named(processes@, MUGEN_PROCESS_NAME@)
                    == 0,
            },
    {
        let name = MUGEN_PROCESS_NAME.to_owned();
        let mut i: usize = 0;
        proof {
            assert(processes@.skip(0) =~= processes@);
        }
        while i < processes.len()
            invariant
                name@ == MUGEN_PROCESS_NAME@,
                i <= processes.len(),
                first_pid_named(processes@, name@) == first_pid_named(processes@.skip(i as int), name@),
            decreases processes.len() - i,
        {
            proof {
                assert(processes@.skip(i as int)[0] == processes@[i as int]);
                assert(processes@.skip(i as int).drop_first() =~= processes@.skip(i + 1));
            }
            if processes[i].1 == name {
                let mugen_pid = processes[i].0;
                if mugen_pid == 0 {
                    return Err(MugenError::ProcessNotFound);
                }
                return Ok(mugen_pid);
            }
            i = i + 1;
        }
        Err(MugenError::ProcessNotFound)
    }

    /// The address of the pointer to the fight's data, for the module based at `base_address`.
    pub fn win_pointer_address(base_address: usize) -> (address: usize)
        requires
            base_address + WIN_OFFSET <= usize::MAX,
        ensures
            address == base_address + WIN_OFFSET,
    {
        base_address + WIN_OFFSET
    }

    /// The number whose little-endian bytes start `bytes` (`u32::from_le_bytes`).
    pub fn decode_u32_le(bytes: &[u8]) -> (value: u32)
        requires
            bytes@.len() >= 4,
        ensures
            value == le_u32(bytes@),
            value == bytes@[0] + 256 * bytes@[1] + 65536 * bytes@[2] + 16777216 * bytes@[3],
    {
        let b0 = bytes[0] as u32;
        let b1 = bytes[1] as u32;
        let b2 = bytes[2] as u32;
        let b3 = bytes[3] as u32;
        b0 + 256 * b1 + 65536 * b2 + 16777216 * b3
    }
}


/// What the poll loop does next.
pub enum WatchAction {
    /// Stop: the winner was not found in time.
    GiveUp(MugenError),
    /// Wait `wait_ms` milliseconds, then read both flags.
    ReadFlags { wait_ms: u64, red_address: usize, blue_address: usize },
}

/// What one poll of both flags decided.
pub enum WatchOutcome {
    /// Neither flag is set, or a read failed but may be retried: poll again.
    Continue,
    /// This side's flag is set.
    Winner(Side),
    /// A read failed once too often; this is its failure.
    Failed(MugenError),
}

/// The value read of a flag that was read.
pub open spec fn flag_value(read: Result<Vec<u8>, MugenError>) -> int {
    le_u32(read->Ok_0@)
}

/// One poll of the flags, from `n_loops` polls without a winner and `read_errors`
/// failed reads: the counts after it, and what it decided. A failed red read is
/// reported before a failed blue one; a set blue flag wins before a set red one.
pub open spec fn watch_step(
    n_loops: nat,
    read_errors: nat,
    red: Result<Vec<u8>, MugenError>,
    blue: Result<Vec<u8>, MugenError>,
) -> (nat, nat, WatchOutcome) {
    if red is Err || blue is Err {
        let failure = if red is Err { red->Err_0 } else { blue->Err_0 };
        if read_errors + 1 >= MAX_READ_ERRORS {
            (n_loops, read_errors + 1, WatchOutcome::Failed(failure))
        } else {
            (n_loops, read_errors + 1, WatchOutcome::Continue)
        }
    } else if flag_value(blue) == 1 {
        (n_loops, read_errors, WatchOutcome::Winner(Side::FighterOne))
    } else if flag_value(red) == 1 {
        (n_loops, read_errors, WatchOutcome::Winner(Side::FighterTwo))
    } else {
        (n_loops + 1, read_errors, WatchOutcome::Continue)
    }
}

/// Whether polling from `n_loops` polls without a winner and `read_errors` failed
/// reads comes to an end (gives up, fails, or finds the winner) by the time it has
/// used the reads in `reads`, in order.
pub open spec fn watch_ends_within(
    n_loops: nat,
    read_errors: nat,
    reads: Seq<(Result<Vec<u8>, MugenError>, Result<Vec<u8>, MugenError>)>,
) -> bool
    decreases reads.len(),
{
    if n_loops > MAX_LOOPS {
        true
    } else if reads.len() == 0 {
        false
    } else {
        let (n, e, outcome) = watch_step(n_loops, read_errors, reads[0].0, reads[0].1);
        match outcome {
            WatchOutcome::Continue => watch_ends_within(n, e, reads.drop_first()),
            _ => true,
        }
    }
}

/// The poll loop's state: where the two flags are, how many polls found no
/// winner, and how many reads failed.
pub struct WinnerWatch {
    red_address: usize,
    blue_address: usize,
    n_loops: u16,
    read_errors: u16,
}

impl WinnerWatch {
    pub closed spec fn red_address(&self) -> usize {
        self.red_address
    }

    pub closed spec fn blue_address(&self) -> usize {
        self.blue_address
    }

    /// Polls so far that found no winner.
    pub closed spec fn loops(&self) -> nat {
        self.n_loops as nat
    }

    /// Reads so far that failed.
    pub closed spec fn errors(&self) -> nat {
        self.read_errors as nat
    }

    /// Whether the loop may still go on: it has not polled more than once past
    /// the limit, and fewer reads than the limit have failed.
    pub open spec fn running(&self) -> bool {
        &&& self.loops() <= MAX_LOOPS + 1
        &&& self.errors() < MAX_READ_ERRORS
    }

    /// A fresh loop over the fight whose data starts at `fight_address`.
    pub fn new(fight_address: usize) -> (watch: Self)
        requires
            fight_address + RED_OFFSET <= usize::MAX,
        ensures
            watch.red_address() == fight_address + RED_OFFSET,
            watch.blue_address() == fight_address + BLUE_OFFSET,
            watch.loops() == 0,
            watch.errors() == 0,
            watch.running(),
    {
        WinnerWatch {
            red_address: fight_address + RED_OFFSET,
            blue_address: fight_address + BLUE_OFFSET,
            n_loops: 0,
            read_errors: 0,
        }
    }

    /// What to do next: give up once more than `MAX_LOOPS` polls found no
    /// winner, else wait and read both flags.
    pub fn next_action(&self) -> (action: WatchAction)
        ensures
            self.loops() > MAX_LOOPS ==> (action matches WatchAction::GiveUp(e)
                && e is MaxLoopsReached),
            self.loops() <= MAX_LOOPS ==> (action matches WatchAction::ReadFlags {
                wait_ms,
                red_address,
                blue_address,
            } && wait_ms == AWAIT_TIME_EACH_LOOP && red_address == self.red_address()
                && blue_address == self.blue_address()),
    {
        if self.n_loops > MAX_LOOPS {
            WatchAction::GiveUp(MugenError::MaxLoopsReached)
        } else {
            WatchAction::ReadFlags {
                wait_ms: AWAIT_TIME_EACH_LOOP,
                red_address: self.red_address,
                blue_address: self.blue_address,
            }
        }
    }

    /// Takes in the reads of the red and the blue flag and decides.
    pub fn observe(
        &mut self,
        red: Result<Vec<u8>, MugenError>,
        blue: Result<Vec<u8>, MugenError>,
    ) -> (outcome: WatchOutcome)
        requires
            old(self).running(),
            old(self).loops() <= MAX_LOOPS,
            red matches Ok(bytes) ==> bytes@.len() >= READ_SIZE,
            blue matches Ok(bytes) ==> bytes@.len() >= READ_SIZE,
        ensures
            (final(self).loops(), final(self).errors(), outcome) == watch_step(
                old(self).loops(),
                old(self).errors(),
                red,
                blue,
            ),
            final(self).red_address() == old(self).red_address(),
            final(self).blue_address() == old(self).blue_address(),
            outcome is Continue ==> final(self).running(),
    {
        match (red, blue) {
            (Err(err), _) => self.failed_read(err),
            (_, Err(err)) => self.failed_read(err),
            (Ok(red_bytes), Ok(blue_bytes)) => {
                let red_value = MugenStatsWinReader::decode_u32_le(red_bytes.as_slice());
                let blue_value = MugenStatsWinReader::decode_u32_le(blue_bytes.as_slice());
                if blue_value == 1 {
                    WatchOutcome::Winner(Side::FighterOne)
                } else if red_value == 1 {
                    WatchOutcome::Winner(Side::FighterTwo)
                } else {
                    self.n_loops = self.n_loops + 1;
                    WatchOutcome::Continue
                }
            },
        }
    }

    fn failed_read(&mut self, err: MugenError) -> (outcome: WatchOutcome)
        requires
            old(self).running(),
        ensures
            final(self).loops() == old(self).loops(),
            final(self).errors() == old(self).errors() + 1,
            final(self).red_address() == old(self).red_address(),
            final(self).blue_address() == old(self).blue_address(),
            old(self).errors() + 1 >= MAX_READ_ERRORS ==> outcome == WatchOutcome::Failed(err),
            old(self).errors() + 1 < MAX_READ_ERRORS ==> outcome is Continue,
    {
        self.read_errors = self.read_errors + 1;
        if self.read_errors >= MAX_READ_ERRORS {
            WatchOutcome::Failed(err)
        } else {
            WatchOutcome::Continue
        }
    }
}

/// Polling ends, whatever the reads give: from `n_loops` polls without a winner
/// and `read_errors` failed reads, within as many reads as polls without a winner
/// are still allowed plus failed reads still tolerated.
pub proof fn lemma_watch_ends(
    n_loops: nat,
    read_errors: nat,
    reads: Seq<(Result<Vec<u8>, MugenError>, Result<Vec<u8>, MugenError>)>,
)
    requires
        n_loops <= MAX_LOOPS + 1,
        read_errors < MAX_READ_ERRORS,
        reads.len() >= (MAX_LOOPS + 1 - n_loops) + (MAX_READ_ERRORS - 1 - read_errors),
    ensures
        watch_ends_within(n_loops, read_errors, reads),
    decreases reads.len(),
{
    if n_loops <= MAX_LOOPS {
        let (n, e, outcome) = watch_step(n_loops, read_errors, reads[0].0, reads[0].1);
        if outcome is Continue {
            lemma_watch_ends(n, e, reads.drop_first());
        }
    }
}

/// A fresh poll loop comes to an end within `MAX_LOOPS + MAX_READ_ERRORS` reads,
/// whatever they give: the reader never waits for a winner forever.
pub proof fn watch_always_ends(
    reads: Seq<(Result<Vec<u8>, MugenError>, Result<Vec<u8>, MugenError>)>,
)
    requires
        reads.len() >= MAX_LOOPS + MAX_READ_ERRORS,
    ensures
        watch_ends_within(0, 0, reads),
{
    lemma_watch_ends(0, 0, reads);
}


/// The blue side is always the first fighter and the red side the second,
/// whatever the names are.
pub proof fn sides_name_their_fighters(fighter_one: &str, fighter_two: &str)
    ensures
        Side::FighterOne.chosen(fighter_one, fighter_two) == fighter_one,
        Side::FighterTwo.chosen(fighter_one, fighter_two) == fighter_two,
{
}

/// Four bytes are read as a little-endian number: each byte can be read back
/// from the number at its place, the first byte being the lowest.
pub proof fn le_u32_reads_each_byte(bytes: Seq<u8>)
    requires
        bytes.len() >= 4,
    ensures
        le_u32(bytes) == bytes[0] + 256 * bytes[1] + 65536 * bytes[2] + 16777216 * bytes[3],
        0 <= le_u32(bytes) <= 0xffff_ffff,
        le_u32(bytes) % 256 == bytes[0],
        (le_u32(bytes) / 256) % 256 == bytes[1],
        (le_u32(bytes) / 65536) % 256 == bytes[2],
        le_u32(bytes) / 16777216 == bytes[3],
{
    let b0 = bytes[0] as int;
    let b1 = bytes[1] as int;
    let b2 = bytes[2] as int;
    let b3 = bytes[3] as int;
    let v = le_u32(bytes);
    assert(v == b0 + 256 * (b1 + 256 * (b2 + 256 * b3)));
    assert(v % 256 == b0 && v / 256 == b1 + 256 * (b2 + 256 * b3)) by (nonlinear_arith)
        requires
            0 <= b0 < 256,
            0 <= b1 + 256 * (b2 + 256 * b3),
            v == b0 + 256 * (b1 + 256 * (b2 + 256 * b3)),
    ;
    let w = b1 + 256 * (b2 + 256 * b3);
    assert(w % 256 == b1 && w / 256 == b2 + 256 * b3) by (nonlinear_arith)
        requires
            0 <= b1 < 256,
            0 <= b2 + 256 * b3,
            w == b1 + 256 * (b2 + 256 * b3),
    ;
    let x = b2 + 256 * b3;
    assert(x % 256 == b2 && x / 256 == b3) by (nonlinear_arith)
        requires
            0 <= b2 < 256,
            0 <= b3,
            x == b2 + 256 * b3,
    ;
    assert(v / 65536 == x) by (nonlinear_arith)
        requires
            v / 256 == w,
            w / 256 == x,
            v >= 0,
    ;
    assert(v / 16777216 == b3) by (nonlinear_arith)
        requires
            v / 65536 == x,
            x / 256 == b3,
            v >= 0,
    ;
}

/// The process chosen is the first one with the name: when the entry at `i` has
/// the name and none before it does, its pid is the one found, wherever `i` is.
pub proof fn first_named_process_is_found(processes: Seq<(u32, String)>, name: Seq<char>, i: int)
    requires
        0 <= i < processes.len(),
        processes[i].1@ == name,
        forall|j: int| 0 <= j < i ==> processes[j].1@ != name,
    ensures
        first_pid_named(processes, name) == processes[i].0,
    decreases i,
{
    if i > 0 {
        let rest = processes.drop_first();
        assert forall|j: int| 0 <= j < i - 1 implies rest[j].1@ != name by {
            assert(rest[j] == processes[j + 1]);
        }
        assert(rest[i - 1] == processes[i]);
        first_named_process_is_found(rest, name, i - 1);
    }
}

/// Where no process has the name, none is found.
pub proof fn unnamed_processes_give_none(processes: Seq<(u32, String)>, name: Seq<char>)
    requires
        forall|j: int| 0 <= j < processes.len() ==> processes[j].1@ != name,
    ensures
        first_pid_named(processes, name) == 0,
    decreases processes.len(),
{
    if processes.len() > 0 {
        let rest = processes.drop_first();
        assert forall|j: int| 0 <= j < rest.len() implies rest[j].1@ != name by {
            assert(rest[j] == processes[j + 1]);
        }
        unnamed_processes_give_none(rest, name);
    }
}

/// Whichever poll it is and however many reads failed before, a poll whose two
/// reads succeed names fighter one when the blue flag reads 1, else fighter two
/// when the red flag reads 1, else finds no winner and counts one more poll.
pub proof fn poll_names_the_side_whose_flag_is_set(
    n_loops: nat,
    read_errors: nat,
    red: Vec<u8>,
    blue: Vec<u8>,
)
    requires
        red@.len() >= 4,
        blue@.len() >= 4,
    ensures
        ({
            let (n, e, outcome) = watch_step(
                n_loops,
                read_errors,
                Ok::<Vec<u8>, MugenError>(red),
                Ok::<Vec<u8>, MugenError>(blue),
            );
            let blue_value = blue@[0] + 256 * blue@[1] + 65536 * blue@[2] + 16777216 * blue@[3];
            let red_value = red@[0] + 256 * red@[1] + 65536 * red@[2] + 16777216 * red@[3];
            &&& e == read_errors
            &&& blue_value == 1 ==> n == n_loops && outcome == WatchOutcome::Winner(Side::FighterOne)
            &&& blue_value != 1 && red_value == 1 ==> n == n_loops && outcome == WatchOutcome::Winner(
                Side::FighterTwo,
            )
            &&& blue_value != 1 && red_value != 1 ==> n == n_loops + 1 && outcome is Continue
        }),
{
    le_u32_reads_each_byte(red@);
    le_u32_reads_each_byte(blue@);
}

/// A poll with a failed read never names a winner: it counts one more failed
/// read, leaves the poll count alone, and fails with the red read's failure
/// (else the blue one's) once `MAX_READ_ERRORS` reads have failed.
pub proof fn failed_read_names_no_winner(
    n_loops: nat,
    read_errors: nat,
    red: Result<Vec<u8>, MugenError>,
    blue: Result<Vec<u8>, MugenError>,
)
    requires
        red is Err || blue is Err,
    ensures
        ({
            let (n, e, outcome) = watch_step(n_loops, read_errors, red, blue);
            &&& n == n_loops
            &&& e == read_errors + 1
            &&& read_errors + 1 < MAX_READ_ERRORS ==> outcome is Continue
            &&& read_errors + 1 >= MAX_READ_ERRORS && red is Err ==> outcome == WatchOutcome::Failed(
                red->Err_0,
            )
            &&& read_errors + 1 >= MAX_READ_ERRORS && red is Ok ==> outcome == WatchOutcome::Failed(
                blue->Err_0,
            )
        }),
{
}

}
