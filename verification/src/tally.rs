//! Wins and losses of a session, and the win rate they give.

use vstd::prelude::*;
use vstd::string::*;
use crate::text::{decimal, digit, digit_char, push_char, push_decimal};

verus! {

/// Mathematical model of the tally.
pub struct Tally {
    pub wins: nat,
    pub losses: nat,
}

/// The share of wins among `total` games, in hundredths of a percent,
/// rounded to the nearest hundredth; a share exactly halfway between two
/// hundredths goes to the even one.
pub open spec fn percent_hundredths(wins: nat, total: nat) -> nat
    recommends
        total > 0,
{
    let scaled = 10000 * wins;
    let below = scaled / total;
    let rest = scaled % total;
    if 2 * rest > total || (2 * rest == total && below % 2 == 1) {
        below + 1
    } else {
        below
    }
}

/// The win-rate line: a fixed message before the first game, otherwise the
/// wins, the games played and the percentage with two decimals.
pub open spec fn summary(wins: nat, losses: nat) -> Seq<char> {
    let total = wins + losses;
    if total == 0 {
        "> No games played yet"@
    } else {
        let rate = percent_hundredths(wins, total);
        "> Won "@ + decimal(wins) + " / "@ + decimal(total) + " ("@ + decimal(rate / 100) + "."@
            + seq![digit((rate % 100) / 10), digit(rate % 10)] + "%)"@
    }
}

/// Running totals of a session. They only ever grow.
#[derive(Debug)]
pub struct WinLoss {
    win: usize,
    loss: usize,
}

impl View for WinLoss {
    type V = Tally;

    closed spec fn view(&self) -> Tally {
        Tally { wins: self.win as nat, losses: self.loss as nat }
    }
}

impl WinLoss {
    /// A tally with no games played.
    pub fn new() -> (tally: WinLoss)
        ensures
            tally@ == (Tally { wins: 0, losses: 0 }),
    {
        WinLoss { win: 0, loss: 0 }
    }

    /// Games won so far.
    pub fn wins(&self) -> (n: usize)
        ensures
            n == self@.wins,
    {
        self.win
    }

    /// Games lost so far.
    pub fn losses(&self) -> (n: usize)
        ensures
            n == self@.losses,
    {
        self.loss
    }

    /// Counts one more win.
    pub fn record_win(&mut self)
        requires
            old(self)@.wins < usize::MAX,
        ensures
            final(self)@ == (Tally { wins: old(self)@.wins + 1, losses: old(self)@.losses }),
    {
        self.win += 1;
    }

    /// Counts one more loss.
    pub fn record_loss(&mut self)
        requires
            old(self)@.losses < usize::MAX,
        ensures
            final(self)@ == (Tally { wins: old(self)@.wins, losses: old(self)@.losses + 1 }),
    {
        self.loss += 1;
    }

    /// The session's win rate as a line of text.
    pub fn winrate(&self) -> (line: String)
        ensures
            line@ == summary(self@.wins, self@.losses),
    {
        let wins: u128 = self.win as u128;
        let total: u128 = wins + self.loss as u128;
        if total == 0 {
            return "> No games played yet".to_owned();
        }
        let scaled: u128 = 10000 * wins;
        let below: u128 = scaled / total;
        let rest: u128 = scaled % total;
        let rate: u128 = if 2 * rest > total || (2 * rest == total && below % 2 == 1) {
            below + 1
        } else {
            below
        };
        assert(below <= 10000) by (nonlinear_arith)
            requires
                below == scaled / total,
                scaled == 10000 * wins,
                wins <= total,
                total > 0,
        ;
        let mut line = "> Won ".to_owned();
        push_decimal(&mut line, wins);
        line.append(" / ");
        push_decimal(&mut line, total);
        line.append(" (");
        push_decimal(&mut line, rate / 100);
        line.append(".");
        let ghost before = line@;
        push_char(&mut line, digit_char(((rate % 100) / 10) as u8));
        push_char(&mut line, digit_char((rate % 10) as u8));
        proof {
            assert(line@ =~= before + seq![
                digit(((rate % 100) / 10) as nat),
                digit((rate % 10) as nat),
            ]);
        }
        line.append("%)");
        line
    }
}

} // verus!
