//! What the command line and the web front answer for a battle.
use vstd::prelude::*;
use std::sync::Arc;

use crate::error::MugenError;
use crate::messages::{RunGameRequest, RunGameResponse};
use crate::service::MugenService;

verus! {

/// How important a reported line is.
#[derive(PartialEq, Eq, Structural, Clone, Copy, Debug)]
pub enum LogLevel {
    Info,
    Error,
}

/// One line to report.
pub struct LogLine {
    pub level: LogLevel,
    pub text: String,
}

/// The level at which the outcome of a battle is reported.
pub open spec fn report_level(outcome: Result<&str, MugenError>) -> LogLevel {
    match outcome {
        Ok(_) => LogLevel::Info,
        Err(_) => LogLevel::Error,
    }
}

/// The text that reports the outcome of a battle.
pub open spec fn report_text(outcome: Result<&str, MugenError>) -> Seq<char> {
    match outcome {
        Ok(winner) => "the winner is... "@ + winner@,
        Err(e) => e.describe(),
    }
}

/// The line that reports the outcome of a battle.
pub fn report(outcome: &Result<&str, MugenError>) -> (line: LogLine)
    ensures
        line.level == report_level(*outcome),
        line.text@ == report_text(*outcome),
{
    match outcome {
        Ok(winner) => {
            let mut text = "the winner is... ".to_owned();
            text.append(winner);
            LogLine { level: LogLevel::Info, text }
        },
        Err(e) => LogLine { level: LogLevel::Error, text: e.message() },
    }
}

/// The HTTP status and body that answer a battle request.
pub struct RestReply {
    pub status: u16,
    pub body: Option<RunGameResponse>,
}

/// Whether `reply` answers a battle with this outcome: `200` with the winner's
/// name when the battle named one, `500` with no body when it failed.
pub open spec fn answers(outcome: Result<&str, MugenError>, reply: RestReply) -> bool {
    match outcome {
        Ok(winner) => {
            &&& reply.status == 200
            &&& reply.body matches Some(b) && b.winner_name() == winner@
        },
        Err(_) => reply.status == 500 && reply.body is None,
    }
}

/// The answer to a battle request with this outcome.
pub fn rest_reply(outcome: &Result<&str, MugenError>) -> (reply: RestReply)
    ensures
        answers(*outcome, reply),
{
    match outcome {
        Ok(winner) => RestReply { status: 200, body: Some(RunGameResponse::new((*winner).to_owned())) },
        Err(_) => RestReply { status: 500, body: None },
    }
}

/// Runs the battle that `request` asks for, the blue fighter as fighter one and
/// the red one as fighter two, and gives the answer and the line that reports it.
pub fn handle_run_request<S: MugenService + ?Sized>(service: &S, request: &RunGameRequest) -> (answer: (RestReply, LogLine))
    ensures
        exists|blue: &str, red: &str, outcome: Result<&str, MugenError>|
            #![trigger call_ensures(S::start, (service, blue, red), outcome)]
            blue@ == request.blue() && red@ == request.red() && call_ensures(
                S::start,
                (service, blue, red),
                outcome,
            ) && answers(outcome, answer.0) && answer.1.level == report_level(outcome)
                && answer.1.text@ == report_text(outcome),
{
    let blue = request.blue_fighter();
    let red = request.red_fighter();
    let outcome = service.start(blue, red);
    (rest_reply(&outcome), report(&outcome))
}

/// Whether `reported` is what the terminal reports of a battle with this
/// outcome: the line naming the winner, or the failure itself.
pub open spec fn terminal_report(outcome: Result<&str, MugenError>, reported: Result<LogLine, MugenError>) -> bool {
    match outcome {
        Ok(winner) => reported matches Ok(line) && line.level == LogLevel::Info && line.text@
            == "the winner is... "@ + winner@,
        Err(e) => reported == Err::<LogLine, MugenError>(e),
    }
}

/// Runs battles asked for on the command line.
pub struct MugenCliHandler<S: MugenService + ?Sized = dyn MugenService> {
    service: Arc<S>,
}

impl<S: MugenService + ?Sized> MugenCliHandler<S> {
    /// The service that runs the battles.
    pub closed spec fn service(&self) -> Arc<S> {
        self.service
    }

    /// Whether `reported` is what the terminal reports of a battle between
    /// `fighter_one` and `fighter_two`, run by this handler's service.
    pub open spec fn reports_battle(
        &self,
        fighter_one: &str,
        fighter_two: &str,
        reported: Result<LogLine, MugenError>,
    ) -> bool {
        exists|outcome: Result<&str, MugenError>|
            call_ensures(S::start, (&*self.service(), fighter_one, fighter_two), outcome)
                && terminal_report(outcome, reported)
    }

    pub fn new(service: Arc<S>) -> (handler: Self)
        ensures
            handler.service() == service,
    {
        Self { service }
    }

    /// Runs one battle, `fighter_one` as player 1, and gives the line that names
    /// the winner, or the failure, which the terminal reports with its backtrace.
    pub fn start(&self, fighter_one: &str, fighter_two: &str) -> (reported: Result<LogLine, MugenError>)
        ensures
            self.reports_battle(fighter_one, fighter_two, reported),
    {
        let outcome = self.service.start(fighter_one, fighter_two);
        let ghost returned = outcome;
        let reported = match outcome {
            Ok(winner) => Ok(report(&Ok(winner))),
            Err(e) => Err(e),
        };
        assert(terminal_report(returned, reported));
        reported
    }
}

}
