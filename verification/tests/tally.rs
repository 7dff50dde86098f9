use hangman::text::{digit_char, push_decimal};
use hangman::WinLoss;

fn tally(wins: usize, losses: usize) -> WinLoss {
    let mut t = WinLoss::new();
    for _ in 0..wins {
        t.record_win();
    }
    for _ in 0..losses {
        t.record_loss();
    }
    t
}

#[test]
fn no_games_gives_the_fixed_message() {
    let t = WinLoss::new();
    assert_eq!(t.wins(), 0);
    assert_eq!(t.losses(), 0);
    assert_eq!(t.winrate(), "> No games played yet");
}

#[test]
fn three_wins_and_a_loss() {
    let t = tally(3, 1);
    assert_eq!(t.wins(), 3);
    assert_eq!(t.losses(), 1);
    assert_eq!(t.winrate(), "> Won 3 / 4 (75.00%)");
}

#[test]
fn recording_counts_by_one() {
    let mut t = WinLoss::new();
    t.record_win();
    assert_eq!((t.wins(), t.losses()), (1, 0));
    t.record_loss();
    assert_eq!((t.wins(), t.losses()), (1, 1));
    t.record_loss();
    assert_eq!((t.wins(), t.losses()), (1, 2));
}

#[test]
fn win_rate_is_rounded_to_two_decimals() {
    assert_eq!(tally(1, 0).winrate(), "> Won 1 / 1 (100.00%)");
    assert_eq!(tally(0, 1).winrate(), "> Won 0 / 1 (0.00%)");
    assert_eq!(tally(1, 2).winrate(), "> Won 1 / 3 (33.33%)");
    assert_eq!(tally(2, 1).winrate(), "> Won 2 / 3 (66.67%)");
    assert_eq!(tally(1, 7).winrate(), "> Won 1 / 8 (12.50%)");
    assert_eq!(tally(1, 10).winrate(), "> Won 1 / 11 (9.09%)");
    assert_eq!(tally(12, 1).winrate(), "> Won 12 / 13 (92.31%)");
}

#[test]
fn win_rate_halfway_goes_to_the_even_hundredth() {
    assert_eq!(tally(1, 31).winrate(), "> Won 1 / 32 (3.12%)");
    assert_eq!(tally(3, 29).winrate(), "> Won 3 / 32 (9.38%)");
}

#[test]
fn decimal_digits_are_written_in_order() {
    let mut out = String::from("n=");
    push_decimal(&mut out, 0);
    out.push(',');
    push_decimal(&mut out, 7);
    out.push(',');
    push_decimal(&mut out, 1203);
    out.push(',');
    push_decimal(&mut out, u128::MAX);
    assert_eq!(out, format!("n=0,7,1203,{}", u128::MAX));
    assert_eq!(digit_char(0), '0');
    assert_eq!(digit_char(9), '9');
    assert_eq!(digit_char(200), '9');
}

#[test]
fn win_rate_agrees_with_floating_point_away_from_ties() {
    let mut differing: Vec<String> = Vec::new();
    for total in 1usize..=200 {
        for wins in 0..=total {
            let halfway = (20000 * wins) % total == 0 && (10000 * wins) % total != 0;
            if halfway && total % 32 == 0 && total != 32 {
                continue;
            }
            let ours = tally(wins, total - wins).winrate();
            let float = format!(
                "> Won {} / {} ({:.2}%)",
                wins,
                total,
                (wins as f32 / total as f32) * 100f32
            );
            if ours != float {
                differing.push(format!("{ours} vs {float}"));
            }
        }
    }
    assert!(differing.is_empty(), "{differing:?}");
}

#[test]
fn win_rate_halfway_is_decided_exactly() {
    assert_eq!(tally(47, 113).winrate(), "> Won 47 / 160 (29.38%)");
    assert_eq!(tally(81, 79).winrate(), "> Won 81 / 160 (50.62%)");
    assert_eq!(tally(99, 61).winrate(), "> Won 99 / 160 (61.88%)");
    assert_eq!(tally(101, 59).winrate(), "> Won 101 / 160 (63.12%)");
}

#[test]
fn win_rate_of_a_long_session() {
    assert_eq!(tally(123456, 654321).winrate(), "> Won 123456 / 777777 (15.87%)");
    assert_eq!(tally(1999, 1).winrate(), "> Won 1999 / 2000 (99.95%)");
    assert_eq!(tally(19999, 1).winrate(), "> Won 19999 / 20000 (100.00%)");
    assert_eq!(tally(1, 19999).winrate(), "> Won 1 / 20000 (0.00%)");
    assert_eq!(tally(3, 19997).winrate(), "> Won 3 / 20000 (0.02%)");
}
