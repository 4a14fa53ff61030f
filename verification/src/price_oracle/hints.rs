use vstd::prelude::*;

verus! {

/// On which side of the price a guess is.
#[derive(Clone, Copy, Debug, PartialEq, Eq, Structural)]
pub enum Direction {
    /// The guess is below the price.
    TooBearish,
    /// The guess is at or above the price.
    TooBullish,
}

/// How close a guess is: within 5, 15, 30, or farther.
#[derive(Clone, Copy, Debug, PartialEq, Eq, Structural)]
pub enum Signal {
    VeryClose,
    StrongSignal,
    WeakSignal,
    NoAlpha,
}

/// The hint shown after a wrong guess.
#[derive(Clone, Copy, Debug, PartialEq, Eq, Structural)]
pub struct PriceHint {
    pub direction: Direction,
    pub signal: Signal,
}

/// Distance between guess and price.
pub open spec fn distance(guess: u32, secret: u32) -> int {
    if guess < secret {
        secret - guess
    } else {
        guess - secret
    }
}

/// The hint for a guess: its side of the price and its closeness.
pub open spec fn hint_for(guess: u32, secret: u32) -> PriceHint {
    let d = distance(guess, secret);
    PriceHint {
        direction: if guess < secret {
            Direction::TooBearish
        } else {
            Direction::TooBullish
        },
        signal: if d <= 5 {
            Signal::VeryClose
        } else if d <= 15 {
            Signal::StrongSignal
        } else if d <= 30 {
            Signal::WeakSignal
        } else {
            Signal::NoAlpha
        },
    }
}

/// The hint for `guess` against the price `secret`.
pub fn price_hint(guess: u32, secret: u32) -> (r: PriceHint)
    ensures
        r == hint_for(guess, secret),
        (r.direction == Direction::TooBearish <==> guess < secret),
        (r.direction == Direction::TooBullish <==> guess >= secret),
        (r.signal == Signal::VeryClose <==> -5 <= guess - secret <= 5),
        (r.signal == Signal::StrongSignal <==> -15 <= guess - secret <= 15 && !(-5 <= guess
            - secret <= 5)),
        (r.signal == Signal::WeakSignal <==> -30 <= guess - secret <= 30 && !(-15 <= guess
            - secret <= 15)),
        (r.signal == Signal::NoAlpha <==> guess - secret < -30 || guess - secret > 30),
{
    let diff = if guess < secret {
        secret - guess
    } else {
        guess - secret
    };
    let direction = if guess < secret {
        Direction::TooBearish
    } else {
        Direction::TooBullish
    };
    let signal = if diff <= 5 {
        Signal::VeryClose
    } else if diff <= 15 {
        Signal::StrongSignal
    } else if diff <= 30 {
        Signal::WeakSignal
    } else {
        Signal::NoAlpha
    };
    PriceHint { direction, signal }
}

/// A hint tells the side of the price truthfully, too bearish exactly when
/// the guess is below the price, and grades closeness by the distance to the
/// price: within 5, within 15, within 30, or farther.
pub proof fn lemma_hint_tells_the_truth(guess: u32, secret: u32)
    ensures
        ({
            let r = hint_for(guess, secret);
            &&& (r.direction == Direction::TooBearish <==> guess < secret)
            &&& (r.direction == Direction::TooBullish <==> guess >= secret)
            &&& (r.signal == Signal::VeryClose <==> -5 <= guess - secret <= 5)
            &&& (r.signal == Signal::StrongSignal <==> -15 <= guess - secret <= 15 && !(-5 <= guess
                - secret <= 5))
            &&& (r.signal == Signal::WeakSignal <==> -30 <= guess - secret <= 30 && !(-15 <= guess
                - secret <= 15))
            &&& (r.signal == Signal::NoAlpha <==> guess - secret < -30 || guess - secret > 30)
        }),
{
}

impl Direction {
    /// The words shown for the direction.
    pub fn label(&self) -> (r: &'static str)
        ensures
            *self == Direction::TooBearish ==> r@ == "Too bearish"@,
            *self == Direction::TooBullish ==> r@ == "Too bullish"@,
    {
        match self {
            Direction::TooBearish => "Too bearish",
            Direction::TooBullish => "Too bullish",
        }
    }
}

impl Signal {
    /// The words shown for the signal.
    pub fn label(&self) -> (r: &'static str)
        ensures
            *self == Signal::VeryClose ==> r@ == "very close"@,
            *self == Signal::StrongSignal ==> r@ == "strong signal"@,
            *self == Signal::WeakSignal ==> r@ == "weak signal"@,
            *self == Signal::NoAlpha ==> r@ == "no alpha"@,
    {
        match self {
            Signal::VeryClose => "very close",
            Signal::StrongSignal => "strong signal",
            Signal::WeakSignal => "weak signal",
            Signal::NoAlpha => "no alpha",
        }
    }
}

} // verus!
