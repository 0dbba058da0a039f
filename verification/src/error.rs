//! Failures of a battle, and the text that reports each.
use vstd::prelude::*;

use crate::text::{decimal, decimal_string};

verus! {

/// Why a battle produced no winner.
#[derive(Debug)]
pub enum MugenError {
    /// Starting or stopping a program failed; the text is the system's description.
    Io(String),
    /// A Windows call failed; the number is the code that `GetLastError` gave.
    Os(u32),
    /// No running process carries the game's name.
    ProcessNotFound,
    /// The game's process was found but could not be opened.
    OpenProcessFailed,
    /// The flags were polled as often as allowed and neither fighter had won.
    MaxLoopsReached,
}

impl MugenError {
    /// The text that reports this failure.
    pub open spec fn describe(&self) -> Seq<char> {
        match self {
            MugenError::Io(text) => text@,
            MugenError::Os(code) => decimal(*code as nat),
            MugenError::ProcessNotFound => "mugen process not found..."@,
            MugenError::OpenProcessFailed => "error opening mugen process..."@,
            MugenError::MaxLoopsReached => "max loops reached trying to find winner"@,
        }
    }

    /// The text that reports this failure.
    pub fn message(&self) -> (text: String)
        ensures
            text@ == self.describe(),
    {
        match self {
            MugenError::Io(text) => text.clone(),
            MugenError::Os(code) => decimal_string(*code),
            MugenError::ProcessNotFound => "mugen process not found...".to_owned(),
            MugenError::OpenProcessFailed => "error opening mugen process...".to_owned(),
            MugenError::MaxLoopsReached => "max loops reached trying to find winner".to_owned(),
        }
    }
}

}
