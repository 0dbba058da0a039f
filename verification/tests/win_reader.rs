use mugen_runner::error::MugenError;
use mugen_runner::win_reader::{
    MugenStatsWinReader, Side, WatchAction, WatchOutcome, WinnerWatch, AWAIT_TIME_EACH_LOOP,
    BLUE_OFFSET, MAX_LOOPS, MAX_READ_ERRORS, RED_OFFSET, WIN_OFFSET,
};

fn flag(value: u32) -> Result<Vec<u8>, MugenError> {
    Ok(value.to_le_bytes().to_vec())
}

fn failure(code: u32) -> Result<Vec<u8>, MugenError> {
    Err(MugenError::Os(code))
}

#[test]
fn handle_validity() {
    assert!(!MugenStatsWinReader::is_process_handler_valid(0));
    assert!(!MugenStatsWinReader::is_process_handler_valid(usize::MAX));
    assert!(MugenStatsWinReader::is_process_handler_valid(0x1234));
}

#[test]
fn select_process_takes_the_first_game_process() {
    let processes = vec![
        (10, "explorer.exe".to_string()),
        (42, "game.exe".to_string()),
        (43, "game.exe".to_string()),
    ];
    assert!(matches!(MugenStatsWinReader::select_process(&processes), Ok(42)));
}

#[test]
fn select_process_without_the_game_fails() {
    let processes = vec![(10, "explorer.exe".to_string()), (11, "Game.exe".to_string())];
    assert!(matches!(
        MugenStatsWinReader::select_process(&processes),
        Err(MugenError::ProcessNotFound)
    ));
    assert!(matches!(
        MugenStatsWinReader::select_process(&Vec::new()),
        Err(MugenError::ProcessNotFound)
    ));
}

#[test]
fn select_process_with_pid_zero_fails() {
    let processes = vec![(0, "game.exe".to_string()), (42, "game.exe".to_string())];
    assert!(matches!(
        MugenStatsWinReader::select_process(&processes),
        Err(MugenError::ProcessNotFound)
    ));
}

#[test]
fn decode_little_endian() {
    assert_eq!(MugenStatsWinReader::decode_u32_le(&[1, 0, 0, 0]), 1);
    assert_eq!(MugenStatsWinReader::decode_u32_le(&[0x78, 0x56, 0x34, 0x12]), 0x12345678);
    assert_eq!(MugenStatsWinReader::decode_u32_le(&[0xff, 0xff, 0xff, 0xff]), u32::MAX);
    assert_eq!(MugenStatsWinReader::decode_u32_le(&[2, 0, 0, 0, 9]), 2);
}

#[test]
fn win_pointer_address_adds_the_offset() {
    assert_eq!(MugenStatsWinReader::win_pointer_address(0x400000), 0x400000 + 0x001040E8);
    assert_eq!(WIN_OFFSET, 0x001040E8);
}

#[test]
fn watch_reads_both_flags_first() {
    let watch = WinnerWatch::new(0x1000);
    match watch.next_action() {
        WatchAction::ReadFlags { wait_ms, red_address, blue_address } => {
            assert_eq!(wait_ms, AWAIT_TIME_EACH_LOOP);
            assert_eq!(red_address, 0x1000 + RED_OFFSET);
            assert_eq!(blue_address, 0x1000 + BLUE_OFFSET);
        }
        WatchAction::GiveUp(_) => panic!("a fresh watch reads"),
    }
}

#[test]
fn blue_flag_means_fighter_one_wins() {
    let mut watch = WinnerWatch::new(0x1000);
    assert!(matches!(watch.observe(flag(0), flag(1)), WatchOutcome::Winner(Side::FighterOne)));
}

#[test]
fn red_flag_means_fighter_two_wins() {
    let mut watch = WinnerWatch::new(0x1000);
    assert!(matches!(watch.observe(flag(1), flag(0)), WatchOutcome::Winner(Side::FighterTwo)));
}

#[test]
fn both_flags_favour_fighter_one() {
    let mut watch = WinnerWatch::new(0x1000);
    assert!(matches!(watch.observe(flag(1), flag(1)), WatchOutcome::Winner(Side::FighterOne)));
}

#[test]
fn other_flag_values_are_no_winner() {
    let mut watch = WinnerWatch::new(0x1000);
    assert!(matches!(watch.observe(flag(2), flag(0x100)), WatchOutcome::Continue));
}

#[test]
fn side_picks_the_fighter() {
    assert_eq!(Side::FighterOne.pick("FreezaZ2", "GokuZ2"), "FreezaZ2");
    assert_eq!(Side::FighterTwo.pick("FreezaZ2", "GokuZ2"), "GokuZ2");
}

#[test]
fn fifth_failed_read_fails_with_the_red_failure_first() {
    let mut watch = WinnerWatch::new(0x1000);
    for _ in 1..MAX_READ_ERRORS {
        assert!(matches!(watch.observe(failure(1), flag(1)), WatchOutcome::Continue));
    }
    assert!(matches!(
        watch.observe(failure(31), failure(32)),
        WatchOutcome::Failed(MugenError::Os(31))
    ));
}

#[test]
fn failed_blue_read_is_reported_when_red_was_read() {
    let mut watch = WinnerWatch::new(0x1000);
    for _ in 1..MAX_READ_ERRORS {
        assert!(matches!(watch.observe(flag(1), failure(7)), WatchOutcome::Continue));
    }
    assert!(matches!(watch.observe(flag(0), failure(8)), WatchOutcome::Failed(MugenError::Os(8))));
}

#[test]
fn failed_reads_do_not_count_as_polls_and_a_winner_still_counts() {
    let mut watch = WinnerWatch::new(0x1000);
    for _ in 1..MAX_READ_ERRORS {
        assert!(matches!(watch.observe(failure(1), flag(0)), WatchOutcome::Continue));
    }
    assert!(matches!(watch.observe(flag(1), flag(0)), WatchOutcome::Winner(Side::FighterTwo)));
}

#[test]
fn watch_gives_up_after_too_many_polls() {
    let mut watch = WinnerWatch::new(0x1000);
    let mut polls = 0u32;
    loop {
        match watch.next_action() {
            WatchAction::GiveUp(e) => {
                assert!(matches!(e, MugenError::MaxLoopsReached));
                break;
            }
            WatchAction::ReadFlags { .. } => {
                polls += 1;
                assert!(matches!(watch.observe(flag(0), flag(0)), WatchOutcome::Continue));
            }
        }
    }
    assert_eq!(polls, MAX_LOOPS as u32 + 1);
}
