use hangman::round::frame_index;
use hangman::text::{contains_char, same_text};
use hangman::{GameState, GuessOutcome, RoundStatus};

fn cat() -> GameState {
    GameState::init(String::from("cat"))
}

#[test]
fn fresh_round_has_full_health_and_hidden_word() {
    let round = cat();
    assert_eq!(round.health(), 6);
    assert_eq!(round.secret(), "cat");
    assert_eq!(round.render_mask(), "___");
    assert_eq!(round.status(), RoundStatus::InProgress);
    assert_eq!(round.frame(), 0);
    assert!(!round.has_guessed('c'));
}

#[test]
fn right_guesses_reveal_the_word_and_win() {
    let mut round = cat();
    assert_eq!(round.apply_guess('a'), GuessOutcome::Accepted);
    assert_eq!(round.render_mask(), "_a_");
    assert_eq!(round.status(), RoundStatus::InProgress);
    assert_eq!(round.apply_guess('t'), GuessOutcome::Accepted);
    assert_eq!(round.render_mask(), "_at");
    assert_eq!(round.status(), RoundStatus::InProgress);
    assert_eq!(round.apply_guess('c'), GuessOutcome::Accepted);
    assert_eq!(round.render_mask(), "cat");
    assert_eq!(round.status(), RoundStatus::Won);
    assert_eq!(round.health(), 6);
}

#[test]
fn six_wrong_guesses_lose() {
    let mut round = cat();
    let mut expected: u8 = 6;
    for c in ['x', 'y', 'z', 'q', 'w', 'e'] {
        assert_eq!(round.status(), RoundStatus::InProgress);
        assert_eq!(round.apply_guess(c), GuessOutcome::Accepted);
        expected -= 1;
        assert_eq!(round.health(), expected);
        assert_eq!(round.frame(), usize::from(6 - expected));
    }
    assert_eq!(round.health(), 0);
    assert_eq!(round.status(), RoundStatus::Lost);
    assert_eq!(round.render_mask(), "___");
}

#[test]
fn repeated_guess_changes_nothing() {
    let mut round = cat();
    assert_eq!(round.apply_guess('a'), GuessOutcome::Accepted);
    let health = round.health();
    assert_eq!(round.apply_guess('a'), GuessOutcome::AlreadyGuessed);
    assert_eq!(round.health(), health);
    assert_eq!(round.render_mask(), "_a_");
}

#[test]
fn wrong_guess_costs_one_attempt_once() {
    let mut round = cat();
    assert_eq!(round.apply_guess('x'), GuessOutcome::Accepted);
    assert_eq!(round.health(), 5);
    assert_eq!(round.apply_guess('x'), GuessOutcome::AlreadyGuessed);
    assert_eq!(round.health(), 5);
    assert!(round.has_guessed('x'));
}

#[test]
fn mask_is_the_same_when_asked_twice() {
    let mut round = GameState::init(String::from("banana"));
    round.apply_guess('a');
    let first = round.render_mask();
    let second = round.render_mask();
    assert_eq!(first, "_a_a_a");
    assert_eq!(first, second);
}

#[test]
fn loss_is_reported_even_when_the_word_is_complete() {
    let mut round = cat();
    for c in ['x', 'y', 'z', 'q', 'w', 'e', 'c', 'a', 't'] {
        round.apply_guess(c);
    }
    assert_eq!(round.render_mask(), "cat");
    assert_eq!(round.health(), 0);
    assert_eq!(round.status(), RoundStatus::Lost);
}

#[test]
fn health_stops_at_zero() {
    let mut round = cat();
    for c in ['x', 'y', 'z', 'q', 'w', 'e'] {
        round.apply_guess(c);
    }
    assert_eq!(round.apply_guess('k'), GuessOutcome::Accepted);
    assert_eq!(round.health(), 0);
    assert_eq!(round.status(), RoundStatus::Lost);
}

#[test]
fn health_is_six_less_the_distinct_wrong_guesses() {
    let mut round = cat();
    for c in ['x', 'a', 'x', 'y', 'a', 'y', 'z'] {
        round.apply_guess(c);
    }
    assert_eq!(round.health(), 3);
    assert_eq!(round.render_mask(), "_a_");
}

#[test]
fn a_word_beyond_ascii_is_masked_letter_by_letter() {
    let mut round = GameState::init(String::from("n\u{e9}e"));
    assert_eq!(round.render_mask(), "___");
    round.apply_guess('e');
    assert_eq!(round.render_mask(), "__e");
    round.apply_guess('\u{e9}');
    assert_eq!(round.render_mask(), "_\u{e9}e");
    assert_eq!(round.health(), 6);
}

#[test]
fn frame_index_is_the_distance_from_full_health() {
    assert_eq!(frame_index(6), 0);
    assert_eq!(frame_index(5), 1);
    assert_eq!(frame_index(0), 6);
    assert_eq!(frame_index(9), 3);
}

#[test]
fn text_helpers_compare_characters() {
    assert!(contains_char("cat", 't'));
    assert!(!contains_char("cat", 'x'));
    assert!(!contains_char("", 'x'));
    assert!(same_text("play", "play"));
    assert!(!same_text("play", "plaY"));
    assert!(!same_text("play", "pla"));
    assert!(same_text("", ""));
}
