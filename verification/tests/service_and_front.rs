use std::sync::Arc;

use mugen_runner::cli::{CLICommand, CLIRunner};
use mugen_runner::error::MugenError;
use mugen_runner::handlers::{handle_run_request, report, rest_reply, LogLevel, MugenCliHandler};
use mugen_runner::messages::{RunGameRequest, RunGameResponse};
use mugen_runner::service::{
    choose_stage, launch_command, MatchAction, MatchSession, MugenService, Teardown,
    TeardownAction, KILL_COMMAND, KILL_WAIT_SECS, STAGES,
};

struct FixedService {
    blue_wins: bool,
}

impl MugenService for FixedService {
    fn start<'a>(&self, fighter_one: &'a str, fighter_two: &'a str) -> Result<&'a str, MugenError> {
        if fighter_one.starts_with("INVALID") {
            Err(MugenError::MaxLoopsReached)
        } else if self.blue_wins {
            Ok(fighter_one)
        } else {
            Ok(fighter_two)
        }
    }
}

#[test]
fn launch_command_fills_in_the_template() {
    assert_eq!(
        launch_command("FreezaZ2", "GokuZ2", "dbartic"),
        "cd C:\\game && .\\game.exe -p1 FreezaZ2 -p2 GokuZ2 -p1.ai 1 -p2.ai 2 -stage dbartic -rounds 1"
    );
}

#[test]
fn launch_command_replaces_in_turn() {
    assert_eq!(
        launch_command("{p2}", "{stage}", "x"),
        "cd C:\\game && .\\game.exe -p1 x -p2 x -p1.ai 1 -p2.ai 2 -stage x -rounds 1"
    );
}

#[test]
fn stage_is_one_of_the_stages() {
    for _ in 0..10 {
        assert!(STAGES.contains(&choose_stage()));
    }
    assert_eq!(choose_stage(), "dbartic");
}

#[test]
fn match_runs_launch_read_teardown_and_answers_the_read() {
    let (mut session, first) = MatchSession::begin("FreezaZ2", "GokuZ2");
    match first {
        MatchAction::Launch(command) => assert_eq!(
            command,
            "cd C:\\game && .\\game.exe -p1 FreezaZ2 -p2 GokuZ2 -p1.ai 1 -p2.ai 2 -stage dbartic -rounds 1"
        ),
        _ => panic!("a battle starts by launching the game"),
    }
    match session.launched(Ok(())) {
        MatchAction::ReadWinner { fighter_one, fighter_two } => {
            assert_eq!(fighter_one, "FreezaZ2");
            assert_eq!(fighter_two, "GokuZ2");
        }
        _ => panic!("after the launch the winner is read"),
    }
    assert!(matches!(session.winner_read(Ok("GokuZ2")), MatchAction::TearDown));
    match session.torn_down() {
        MatchAction::Finish(Ok(winner)) => assert_eq!(winner, "GokuZ2"),
        _ => panic!("the battle ends with the winner read"),
    }
}

#[test]
fn match_tears_down_after_a_failed_read_and_answers_the_failure() {
    let (mut session, _) = MatchSession::begin("A", "B");
    assert!(matches!(session.launched(Ok(())), MatchAction::ReadWinner { .. }));
    assert!(matches!(session.winner_read(Err(MugenError::ProcessNotFound)), MatchAction::TearDown));
    assert!(matches!(session.torn_down(), MatchAction::Finish(Err(MugenError::ProcessNotFound))));
}

#[test]
fn match_stops_at_a_failed_launch() {
    let (mut session, _) = MatchSession::begin("A", "B");
    match session.launched(Err(MugenError::Io("cannot start".to_string()))) {
        MatchAction::Finish(Err(MugenError::Io(text))) => assert_eq!(text, "cannot start"),
        _ => panic!("a failed launch ends the battle"),
    }
}

#[test]
fn teardown_waits_twice_and_ends_when_the_command_finished() {
    let (mut teardown, first) = Teardown::begin();
    match first {
        TeardownAction::Spawn(command) => assert_eq!(command, KILL_COMMAND),
        _ => panic!("ending the game starts the kill command"),
    }
    assert!(matches!(teardown.spawned(Ok(())), TeardownAction::Wait(KILL_WAIT_SECS)));
    assert!(matches!(teardown.waited(Ok(true)), TeardownAction::Wait(2)));
    assert!(matches!(teardown.waited(Ok(true)), TeardownAction::Finish(Ok(()))));
}

#[test]
fn teardown_kills_when_the_second_wait_runs_out() {
    let (mut teardown, _) = Teardown::begin();
    assert!(matches!(teardown.spawned(Ok(())), TeardownAction::Wait(_)));
    assert!(matches!(teardown.waited(Ok(false)), TeardownAction::Wait(_)));
    assert!(matches!(teardown.waited(Ok(false)), TeardownAction::Kill));
    assert!(matches!(teardown.killed(Ok(())), TeardownAction::Reap));
    assert!(matches!(teardown.reaped(Ok(())), TeardownAction::Finish(Ok(()))));
}

#[test]
fn teardown_stops_at_the_first_failure() {
    let (mut teardown, _) = Teardown::begin();
    assert!(matches!(
        teardown.spawned(Err(MugenError::Io("no cmd".to_string()))),
        TeardownAction::Finish(Err(MugenError::Io(_)))
    ));
    let (mut teardown, _) = Teardown::begin();
    assert!(matches!(teardown.spawned(Ok(())), TeardownAction::Wait(_)));
    assert!(matches!(
        teardown.waited(Err(MugenError::Os(6))),
        TeardownAction::Finish(Err(MugenError::Os(6)))
    ));
    let (mut teardown, _) = Teardown::begin();
    teardown.spawned(Ok(()));
    teardown.waited(Ok(false));
    teardown.waited(Ok(false));
    assert!(matches!(
        teardown.killed(Err(MugenError::Os(5))),
        TeardownAction::Finish(Err(MugenError::Os(5)))
    ));
}

#[test]
fn report_names_the_winner() {
    let line = report(&Ok("FreezaZ2"));
    assert_eq!(line.level, LogLevel::Info);
    assert_eq!(line.text, "the winner is... FreezaZ2");
}

#[test]
fn report_of_a_failure_is_an_error_line() {
    let line = report(&Err(MugenError::ProcessNotFound));
    assert_eq!(line.level, LogLevel::Error);
    assert_eq!(line.text, "mugen process not found...");
}

#[test]
fn rest_reply_with_a_winner_is_ok() {
    let reply = rest_reply(&Ok("GokuZ2"));
    assert_eq!(reply.status, 200);
    assert_eq!(reply.body.expect("a winner is sent back").winner(), "GokuZ2");
}

#[test]
fn rest_reply_to_a_failed_battle_is_internal_server_error() {
    let reply = rest_reply(&Err(MugenError::OpenProcessFailed));
    assert_eq!(reply.status, 500);
    assert!(reply.body.is_none());
}

#[test]
fn winner_is_one_of_the_two_fighters() {
    for blue_wins in [true, false] {
        let service: Arc<dyn MugenService> = Arc::new(FixedService { blue_wins });
        let request = RunGameRequest::new("FreezaZ2".to_string(), "GokuZ2".to_string());
        let outcome = service.start(request.blue_fighter(), request.red_fighter());
        let reply = rest_reply(&outcome);
        assert_eq!(reply.status, 200);
        let winner = reply.body.unwrap();
        assert!(winner.winner() == "FreezaZ2" || winner.winner() == "GokuZ2");
    }
}

#[test]
fn invalid_characters_give_internal_server_error() {
    let service: Arc<dyn MugenService> = Arc::new(FixedService { blue_wins: true });
    let request =
        RunGameRequest::new("INVALID_CHARACTER".to_string(), "INVALID_CHARACTER_2".to_string());
    let outcome = service.start(request.blue_fighter(), request.red_fighter());
    assert_eq!(rest_reply(&outcome).status, 500);
}

#[test]
fn cli_handler_reports_the_battle() {
    let service: Arc<dyn MugenService> = Arc::new(FixedService { blue_wins: false });
    let handler = MugenCliHandler::new(service);
    let line = handler.start("FreezaZ2", "GokuZ2").expect("the battle has a winner");
    assert_eq!(line.level, LogLevel::Info);
    assert_eq!(line.text, "the winner is... GokuZ2");
    assert!(matches!(
        handler.start("INVALID_CHARACTER", "GokuZ2"),
        Err(MugenError::MaxLoopsReached)
    ));
}

#[test]
fn cli_knows_only_start() {
    let service: Arc<dyn MugenService> = Arc::new(FixedService { blue_wins: true });
    let runner = CLIRunner::new(Arc::new(MugenCliHandler::new(service)));
    assert_eq!(runner.command_for("start"), Some(CLICommand::StartBattle));
    assert_eq!(runner.command_for("start\n"), Some(CLICommand::StartBattle));
    assert_eq!(runner.command_for("  start \r\n"), Some(CLICommand::StartBattle));
    assert_eq!(runner.command_for("stop"), None);
    assert_eq!(runner.command_for("st art"), None);
    assert_eq!(runner.command_for(""), None);
    assert_eq!(runner.handler().start("a", "b").unwrap().text, "the winner is... a");
}

#[test]
fn cli_battle_trims_the_typed_names() {
    let service: Arc<dyn MugenService> = Arc::new(FixedService { blue_wins: true });
    let runner = CLIRunner::new(Arc::new(MugenCliHandler::new(service)));
    let line = runner.start_battle("  FreezaZ2\r\n", "GokuZ2\n").unwrap();
    assert_eq!(line.text, "the winner is... FreezaZ2");
    assert!(matches!(
        runner.start_battle("INVALID_CHARACTER\n", "x\n"),
        Err(MugenError::MaxLoopsReached)
    ));
}

#[test]
fn run_request_puts_blue_first() {
    let request = RunGameRequest::new("FreezaZ2".to_string(), "GokuZ2".to_string());
    let (reply, line) = handle_run_request(&FixedService { blue_wins: true }, &request);
    assert_eq!(reply.status, 200);
    assert_eq!(reply.body.unwrap().winner(), "FreezaZ2");
    assert_eq!(line.text, "the winner is... FreezaZ2");
    let (reply, _) = handle_run_request(&FixedService { blue_wins: false }, &request);
    assert_eq!(reply.body.unwrap().winner(), "GokuZ2");
}

#[test]
fn run_request_that_fails_is_internal_server_error() {
    let request =
        RunGameRequest::new("INVALID_CHARACTER".to_string(), "INVALID_CHARACTER_2".to_string());
    let (reply, line) = handle_run_request(&FixedService { blue_wins: true }, &request);
    assert_eq!(reply.status, 500);
    assert!(reply.body.is_none());
    assert_eq!(line.level, LogLevel::Error);
    assert_eq!(line.text, "max loops reached trying to find winner");
}

#[test]
fn request_and_response_keep_their_fields() {
    let request = RunGameRequest::new("FreezaZ2".to_string(), "GokuZ2".to_string());
    assert_eq!(request.blue_fighter(), "FreezaZ2");
    assert_eq!(request.red_fighter(), "GokuZ2");
    let response = RunGameResponse::new("GokuZ2".to_string());
    assert_eq!(response.winner(), "GokuZ2");
}

#[test]
fn same_fighters_get_the_same_command_line() {
    let (_, first) = MatchSession::begin("FreezaZ2", "GokuZ2");
    let (_, second) = MatchSession::begin("FreezaZ2", "GokuZ2");
    match (first, second) {
        (MatchAction::Launch(a), MatchAction::Launch(b)) => assert_eq!(a, b),
        _ => panic!("a battle starts by launching the game"),
    }
}
