//! The conformance script for engines that speak the USI protocol.
use vstd::prelude::*;

use crate::condition::{WaitCondition, WaitSpec};
use crate::driver::{steps_of, Step, StepSpec};
use crate::pattern::{regex_compiles, Pattern, PatternError};

verus! {

/// Handshake request.
pub const USI: &'static str = "usi\n";
/// Handshake acknowledgement.
pub const USIOK: &'static str = "usiok\n";
/// Readiness request.
pub const ISREADY: &'static str = "isready\n";
/// Readiness confirmation.
pub const READYOK: &'static str = "readyok\n";
/// New game notification.
pub const USINEWGAME: &'static str = "usinewgame\n";
/// Initial position notification.
pub const POSITION_STARTPOS: &'static str = "position startpos\n";
/// Request to compute a move.
pub const GO: &'static str = "go\n";
/// Request to terminate.
pub const QUIT: &'static str = "quit\n";
/// A line that carries the engine's chosen move.
pub const BESTMOVE_PATTERN: &'static str = r"bestmove \w+";

/// The handshake, readiness check, one search, and the quit request, in
/// that order.
pub open spec fn usi_steps() -> Seq<StepSpec> {
    seq![
        StepSpec { command: USI@, wait: Some(WaitSpec::Exact(USIOK@)) },
        StepSpec { command: ISREADY@, wait: Some(WaitSpec::Exact(READYOK@)) },
        StepSpec { command: USINEWGAME@, wait: None },
        StepSpec { command: POSITION_STARTPOS@, wait: None },
        StepSpec { command: GO@, wait: Some(WaitSpec::Matches(BESTMOVE_PATTERN@)) },
        StepSpec { command: QUIT@, wait: None },
    ]
}

fn step(command: &str, wait: Option<WaitCondition>) -> (r: Step)
    ensures
        r.command@ == command@,
        r.wait == wait,
{
    Step { command: command.to_owned(), wait }
}

/// Builds the USI conformance script. It fails only if the move pattern is
/// not accepted as an expression.
pub fn usi_script() -> (r: Result<Vec<Step>, PatternError>)
    ensures
        r is Ok <==> regex_compiles(BESTMOVE_PATTERN@),
        r matches Ok(v) ==> steps_of(v@) == usi_steps(),
{
    let bestmove = match Pattern::new(BESTMOVE_PATTERN) {
        Ok(p) => p,
        Err(e) => {
            return Err(e);
        },
    };
    let mut v: Vec<Step> = Vec::new();
    v.push(step(USI, Some(WaitCondition::Exact(USIOK.to_owned()))));
    v.push(step(ISREADY, Some(WaitCondition::Exact(READYOK.to_owned()))));
    v.push(step(USINEWGAME, None));
    v.push(step(POSITION_STARTPOS, None));
    v.push(step(GO, Some(WaitCondition::Matches(bestmove))));
    v.push(step(QUIT, None));
    assert(steps_of(v@) =~= usi_steps());
    Ok(v)
}

} // verus!
