//! The two operations that the application offers on the sidecar: what `start`
//! answers, and which port `stop` clears.

use vstd::prelude::*;
use crate::config::ConfigFile;
use crate::port::{session_backend_port, session_port};
use crate::supervisor::{Started, StartupError};
use crate::text::str_text;

verus! {

/// What `start` answers: a status for an attempt that went well, the message of
/// the error for one that failed.
pub open spec fn start_answer(result: Result<Started, StartupError>) -> Result<
    Seq<char>,
    Seq<char>,
> {
    match result {
        Ok(Started::AlreadyRunning) => Ok("Python backend already running"@),
        Ok(Started::Spawned) => Ok("Python backend started"@),
        Err(error) => Err(error.message_spec()),
    }
}

/// What a result of text holds as text.
pub open spec fn answer_text(answer: Result<String, String>) -> Result<Seq<char>, Seq<char>> {
    match answer {
        Ok(text) => Ok(text@),
        Err(text) => Err(text@),
    }
}

/// The answer of `start` to the result of a start attempt. An adopted sidecar
/// and a spawned one are told apart; an error is passed on as its message.
pub fn start_status(result: &Result<Started, StartupError>) -> (answer: Result<String, String>)
    ensures
        answer_text(answer) == start_answer(*result),
{
    match result {
        Ok(Started::AlreadyRunning) => Ok("Python backend already running".to_owned()),
        Ok(Started::Spawned) => Ok("Python backend started".to_owned()),
        Err(error) => Err(error.message()),
    }
}

/// The answer of `stop`.
pub fn stop_status() -> (answer: String)
    ensures
        answer@ == "Python backend stopped"@,
{
    "Python backend stopped".to_owned()
}

/// The port that `stop` clears of listeners after it has given up the handle
/// of the sidecar: the port of the session.
pub fn port_to_clear(config: &ConfigFile, env_value: Option<&str>) -> (port: u16)
    ensures
        port == session_port(*config, str_text(env_value)),
        port > 0,
{
    session_backend_port(config, env_value)
}

} // verus!
