//! The bodies of the battle request and of its answer.
use vstd::prelude::*;

verus! {

/// A request to run one battle: the fighter in blue and the fighter in red.
pub struct RunGameRequest {
    blue_fighter: String,
    red_fighter: String,
}

impl RunGameRequest {
    /// The name of the fighter in blue.
    pub closed spec fn blue(&self) -> Seq<char> {
        self.blue_fighter@
    }

    /// The name of the fighter in red.
    pub closed spec fn red(&self) -> Seq<char> {
        self.red_fighter@
    }

    pub fn blue_fighter(&self) -> (name: &str)
        ensures
            name@ == self.blue(),
    {
        self.blue_fighter.as_str()
    }

    pub fn red_fighter(&self) -> (name: &str)
        ensures
            name@ == self.red(),
    {
        self.red_fighter.as_str()
    }

    pub fn new(blue_fighter: String, red_fighter: String) -> (request: Self)
        ensures
            request.blue() == blue_fighter@,
            request.red() == red_fighter@,
    {
        Self { blue_fighter, red_fighter }
    }
}

/// The answer to a battle: the name of the fighter who won.
pub struct RunGameResponse {
    winner: String,
}

impl RunGameResponse {
    /// The name of the winner.
    pub closed spec fn winner_name(&self) -> Seq<char> {
        self.winner@
    }

    pub fn new(winner: String) -> (response: Self)
        ensures
            response.winner_name() == winner@,
    {
        Self { winner }
    }

    pub fn winner(&self) -> (name: &str)
        ensures
            name@ == self.winner_name(),
    {
        self.winner.as_str()
    }
}

}
