use vstd::prelude::*;

use crate::decimal::{parse_u32, parse_u32_spec, trim, trimmed};
use crate::price_oracle::hints::{hint_for, lemma_hint_tells_the_truth, price_hint, Direction, PriceHint};

verus! {

/// Lowest price that can be drawn.
pub const MIN_PRICE: u32 = 50;

/// Highest price that can be drawn.
pub const MAX_PRICE: u32 = 300;

/// Guesses allowed per game.
pub const TRIES: i32 = 5;

/// Calls `rand::rng()` and `RngExt::random_range(low..=high)`, which returns
/// a random number in the inclusive range (and panics on an empty range).
/// The contract claims only that the number lies in the range.
#[verifier::external_body]
fn random_in_range(low: u32, high: u32) -> (r: u32)
    requires
        low <= high,
    ensures
        low <= r <= high,
{
    rand::RngExt::random_range(&mut rand::rng(), low..=high)
}

/// A guessing game: the hidden price and the tries left.
#[derive(Clone, Copy, Debug)]
pub struct GuessGame {
    pub secret: u32,
    pub tries: i32,
    /// The price has been guessed exactly.
    pub solved: bool,
}

/// What the game shows next.
#[derive(Clone, Copy, Debug, PartialEq, Eq, Structural)]
pub enum Prompt {
    /// Out of tries: the market closes and the price is revealed.
    MarketClosed { secret: u32 },
    /// Ask for a guess, showing the tries left.
    AskGuess { tries: i32 },
    /// The price was guessed; the game is over.
    Solved,
}

/// What became of one line of input.
#[derive(Clone, Copy, Debug, PartialEq, Eq, Structural)]
pub enum GuessOutcome {
    /// Not a number: no try is used.
    InvalidNumber,
    /// The exact price.
    Exact { guess: u32 },
    /// A miss, with its hint; one try is used.
    Miss { guess: u32, hint: PriceHint },
}

/// The guess a line holds: the trimmed line as a decimal `u32`.
pub open spec fn guess_of(line: Seq<char>) -> Option<u32> {
    parse_u32_spec(trimmed(line))
}

impl GuessGame {
    /// A game for the given price with all tries left.
    pub fn new(secret: u32) -> (g: GuessGame)
        ensures
            g == (GuessGame { secret, tries: TRIES, solved: false }),
    {
        GuessGame { secret, tries: TRIES, solved: false }
    }

    /// A game for a price drawn at random in `MIN_PRICE..=MAX_PRICE`.
    pub fn start() -> (g: GuessGame)
        ensures
            MIN_PRICE <= g.secret <= MAX_PRICE,
            g.tries == TRIES,
            !g.solved,
    {
        let secret = random_in_range(MIN_PRICE, MAX_PRICE);
        GuessGame::new(secret)
    }

    /// The prompt for the current state.
    pub open spec fn prompt_for(self) -> Prompt {
        if self.solved {
            Prompt::Solved
        } else if self.tries <= 0 {
            Prompt::MarketClosed { secret: self.secret }
        } else {
            Prompt::AskGuess { tries: self.tries }
        }
    }

    /// What to show next: closed market when out of tries, else a request
    /// for a guess.
    pub fn next_prompt(&self) -> (r: Prompt)
        ensures
            r == self.prompt_for(),
    {
        if self.solved {
            Prompt::Solved
        } else if self.tries <= 0 {
            Prompt::MarketClosed { secret: self.secret }
        } else {
            Prompt::AskGuess { tries: self.tries }
        }
    }

    /// The state and outcome after reading `line` while a guess is asked for.
    pub open spec fn after_guess(self, line: Seq<char>) -> (GuessGame, GuessOutcome) {
        match guess_of(line) {
            None => (self, GuessOutcome::InvalidNumber),
            Some(guess) => if guess == self.secret {
                (GuessGame { solved: true, ..self }, GuessOutcome::Exact { guess })
            } else {
                (
                    GuessGame { tries: (self.tries - 1) as i32, ..self },
                    GuessOutcome::Miss { guess, hint: hint_for(guess, self.secret) },
                )
            },
        }
    }

    /// Takes one line of input as a guess: a line that is not a number uses
    /// no try; the exact price ends the game; a miss uses a try and gives a
    /// hint.
    pub fn submit_guess(&mut self, line: &str) -> (r: GuessOutcome)
        requires
            old(self).prompt_for() is AskGuess,
        ensures
            (*final(self), r) == old(self).after_guess(line@),
    {
        let guess = match parse_u32(trim(line)) {
            Some(g) => g,
            None => {
                return GuessOutcome::InvalidNumber;
            },
        };
        if guess == self.secret {
            self.solved = true;
            return GuessOutcome::Exact { guess };
        }
        let hint = price_hint(guess, self.secret);
        self.tries = self.tries - 1;
        GuessOutcome::Miss { guess, hint }
    }
}

/// A game runs out after at most `TRIES` misses: every miss uses one try,
/// nothing else does, the price never changes, and once no try is left the
/// market is closed.
pub proof fn lemma_tries_bound_the_game(g: GuessGame, line: Seq<char>)
    requires
        g.prompt_for() is AskGuess,
    ensures
        ({
            let (next, outcome) = g.after_guess(line);
            &&& next.secret == g.secret
            &&& outcome is Miss ==> next.tries == g.tries - 1 && !next.solved
            &&& outcome is InvalidNumber ==> next == g
            &&& outcome is Exact ==> next.prompt_for() == Prompt::Solved
            &&& next.tries >= 0
        }),
        g.tries == 1 ==> (g.after_guess(line).1 is Miss ==> g.after_guess(line).0.prompt_for()
            == Prompt::MarketClosed { secret: g.secret }),
{
}

/// A guess is judged against the price: the exact price, and only it, wins;
/// a miss is told truthfully on which side of the price it lies; a line that
/// holds no number is turned away without judging.
pub proof fn lemma_guess_is_judged_truthfully(g: GuessGame, line: Seq<char>)
    ensures
        (g.after_guess(line).1 is InvalidNumber <==> guess_of(line) is None),
        g.after_guess(line).1 matches GuessOutcome::Exact { guess } ==> guess == g.secret
            && guess_of(line) == Some(guess),
        g.after_guess(line).1 matches GuessOutcome::Miss { guess, hint } ==> {
            &&& guess != g.secret
            &&& guess_of(line) == Some(guess)
            &&& (hint.direction == Direction::TooBearish <==> guess < g.secret)
        },
        guess_of(line) == Some(g.secret) ==> g.after_guess(line).1 == (GuessOutcome::Exact {
            guess: g.secret,
        }),
{
    if let Some(guess) = guess_of(line) {
        lemma_hint_tells_the_truth(guess, g.secret);
    }
}

} // verus!
