use solana_programs::price_oracle::game::{GuessGame, GuessOutcome, Prompt, MAX_PRICE, MIN_PRICE, TRIES};
use solana_programs::price_oracle::hints::{price_hint, Direction, PriceHint, Signal};

#[test]
fn hint_directions_and_signals() {
    assert_eq!(price_hint(100, 103), PriceHint { direction: Direction::TooBearish, signal: Signal::VeryClose });
    assert_eq!(price_hint(110, 100), PriceHint { direction: Direction::TooBullish, signal: Signal::StrongSignal });
    assert_eq!(price_hint(70, 100), PriceHint { direction: Direction::TooBearish, signal: Signal::WeakSignal });
    assert_eq!(price_hint(131, 100), PriceHint { direction: Direction::TooBullish, signal: Signal::NoAlpha });
    assert_eq!(price_hint(95, 100).signal, Signal::VeryClose);
    assert_eq!(price_hint(116, 100).signal, Signal::WeakSignal);
}

#[test]
fn hint_labels() {
    assert_eq!(Direction::TooBearish.label(), "Too bearish");
    assert_eq!(Direction::TooBullish.label(), "Too bullish");
    assert_eq!(Signal::VeryClose.label(), "very close");
    assert_eq!(Signal::StrongSignal.label(), "strong signal");
    assert_eq!(Signal::WeakSignal.label(), "weak signal");
    assert_eq!(Signal::NoAlpha.label(), "no alpha");
}

#[test]
fn game_draws_price_in_range() {
    for _ in 0..50 {
        let g = GuessGame::start();
        assert!(g.secret >= MIN_PRICE && g.secret <= MAX_PRICE);
        assert_eq!(g.tries, TRIES);
    }
}

#[test]
fn exact_guess_wins() {
    let mut g = GuessGame::new(120);
    assert_eq!(g.next_prompt(), Prompt::AskGuess { tries: 5 });
    assert_eq!(g.submit_guess(" 120\n"), GuessOutcome::Exact { guess: 120 });
    assert_eq!(g.next_prompt(), Prompt::Solved);
}

#[test]
fn invalid_input_costs_nothing() {
    let mut g = GuessGame::new(120);
    assert_eq!(g.submit_guess("abc\n"), GuessOutcome::InvalidNumber);
    assert_eq!(g.submit_guess("-5\n"), GuessOutcome::InvalidNumber);
    assert_eq!(g.tries, 5);
}

#[test]
fn five_misses_close_the_market() {
    let mut g = GuessGame::new(120);
    for i in 0..5 {
        assert_eq!(g.next_prompt(), Prompt::AskGuess { tries: 5 - i });
        match g.submit_guess("100\n") {
            GuessOutcome::Miss { guess, hint } => {
                assert_eq!(guess, 100);
                assert_eq!(hint.direction, Direction::TooBearish);
            }
            other => panic!("unexpected {:?}", other),
        }
    }
    assert_eq!(g.next_prompt(), Prompt::MarketClosed { secret: 120 });
}
