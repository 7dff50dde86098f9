//! One hangman round: a secret word, the letters guessed so far and the
//! attempts that remain.

use std::collections::HashSet;
use vstd::prelude::*;
use vstd::string::*;
use crate::text::{contains_char, push_char};

verus! {

broadcast use vstd::std_specs::hash::group_hash_axioms;

/// Attempts a fresh round starts with.
pub const MAX_HEALTH: u8 = 6;

/// Glyph shown in place of a letter that has not been guessed.
pub const PLACEHOLDER: char = '_';

/// What a guess did to the round.
#[derive(Clone, Copy, Debug, PartialEq, Eq, Structural)]
pub enum GuessOutcome {
    /// The letter had been guessed before; nothing changed.
    AlreadyGuessed,
    /// The letter was new and has been recorded.
    Accepted,
}

/// Where a round stands.
#[derive(Clone, Copy, Debug, PartialEq, Eq, Structural)]
pub enum RoundStatus {
    InProgress,
    Lost,
    Won,
}

/// Mathematical model of a round.
pub struct RoundView {
    pub health: nat,
    pub secret: Seq<char>,
    pub guessed: Set<char>,
}

impl RoundView {
    /// The round as it starts: full health, nothing guessed.
    pub open spec fn fresh(secret: Seq<char>) -> RoundView {
        RoundView { health: 6, secret, guessed: Set::empty() }
    }

    /// The guessed letters that do not occur in the secret.
    pub open spec fn wrong_guesses(self) -> Set<char> {
        self.guessed.difference(self.secret.to_set())
    }

    /// Health owed to a round with `wrong` distinct wrong guesses: one
    /// attempt lost per wrong guess, never below zero.
    pub open spec fn health_after(wrong: nat) -> nat {
        if wrong >= 6 {
            0
        } else {
            (6 - wrong) as nat
        }
    }

    /// A round is well formed when finitely many letters were guessed and
    /// its health is what its distinct wrong guesses leave.
    pub open spec fn wf(self) -> bool {
        &&& self.guessed.finite()
        &&& self.health == Self::health_after(self.wrong_guesses().len())
    }

    /// What guessing `c` reports.
    pub open spec fn outcome(self, c: char) -> GuessOutcome {
        if self.guessed.contains(c) {
            GuessOutcome::AlreadyGuessed
        } else {
            GuessOutcome::Accepted
        }
    }

    /// The round after guessing `c`. A repeated guess changes nothing; a new
    /// one is recorded and, if it misses the secret, costs one attempt
    /// while any is left.
    pub open spec fn apply_guess(self, c: char) -> RoundView {
        if self.guessed.contains(c) {
            self
        } else {
            RoundView {
                health: if self.secret.contains(c) || self.health == 0 {
                    self.health
                } else {
                    (self.health - 1) as nat
                },
                secret: self.secret,
                guessed: self.guessed.insert(c),
            }
        }
    }

    /// The round after guessing each letter of `guesses` in order.
    pub open spec fn apply_all(self, guesses: Seq<char>) -> RoundView
        decreases guesses.len(),
    {
        if guesses.len() == 0 {
            self
        } else {
            self.apply_guess(guesses[0]).apply_all(guesses.drop_first())
        }
    }

    /// The secret with every letter not yet guessed replaced by the
    /// placeholder.
    pub open spec fn mask(self) -> Seq<char> {
        Seq::new(
            self.secret.len(),
            |i: int|
                if self.guessed.contains(self.secret[i]) {
                    self.secret[i]
                } else {
                    '_'
                },
        )
    }

    /// Every position of the secret holds a guessed letter.
    pub open spec fn covered(self) -> bool {
        forall|i: int| 0 <= i < self.secret.len() ==> self.guessed.contains(#[trigger] self.secret[i])
    }

    /// Loss is looked at first: a round without health is lost whatever its
    /// mask shows. Otherwise it is won once the mask equals the secret.
    pub open spec fn status(self) -> RoundStatus {
        if self.health == 0 {
            RoundStatus::Lost
        } else if self.mask() == self.secret {
            RoundStatus::Won
        } else {
            RoundStatus::InProgress
        }
    }

    /// Index of the drawing for this round: 0 at full health, 6 when lost.
    pub open spec fn frame(self) -> nat {
        if self.health <= 6 {
            (6 - self.health) as nat
        } else {
            (self.health - 6) as nat
        }
    }
}

/// An in-progress puzzle.
pub struct GameState {
    hp: u8,
    secret: String,
    guessed: HashSet<u32>,
    letters: Ghost<Set<char>>,
}

impl View for GameState {
    type V = RoundView;

    closed spec fn view(&self) -> RoundView {
        RoundView { health: self.hp as nat, secret: self.secret@, guessed: self.letters@ }
    }
}

impl GameState {
    /// The stored set of code points holds exactly the guessed letters, and
    /// the model is well formed.
    pub closed spec fn wf(&self) -> bool {
        &&& self@.wf()
        &&& forall|c: char| self.letters@.contains(c) <==> #[trigger] self.guessed@.contains(c as u32)
    }

    /// The model of a well-formed round is well formed, so the laws of the
    /// model hold of it; in particular its health is at most six.
    pub proof fn lemma_view_wf(&self)
        requires
            self.wf(),
        ensures
            self@.wf(),
            self@.health <= 6,
    {
    }

    /// Starts a round on `secret` with full health and no guesses.
    pub fn init(secret: String) -> (round: GameState)
        ensures
            round.wf(),
            round@ == RoundView::fresh(secret@),
    {
        let round = GameState {
            hp: MAX_HEALTH,
            secret,
            guessed: HashSet::new(),
            letters: Ghost(Set::empty()),
        };
        proof {
            assert(round@.wrong_guesses() =~= Set::<char>::empty());
        }
        round
    }

    /// Attempts that remain.
    pub fn health(&self) -> (hp: u8)
        ensures
            hp == self@.health,
    {
        self.hp
    }

    /// The word being guessed.
    pub fn secret(&self) -> (word: &String)
        ensures
            word@ == self@.secret,
    {
        &self.secret
    }

    /// Whether `c` has been guessed in this round.
    pub fn has_guessed(&self, c: char) -> (found: bool)
        requires
            self.wf(),
        ensures
            found == self@.guessed.contains(c),
    {
        let code: u32 = c as u32;
        self.guessed.contains(&code)
    }

    /// Records the guess `c`.
    pub fn apply_guess(&mut self, c: char) -> (outcome: GuessOutcome)
        requires
            old(self).wf(),
        ensures
            final(self).wf(),
            final(self)@ == old(self)@.apply_guess(c),
            outcome == old(self)@.outcome(c),
            final(self)@.health <= old(self)@.health,
    {
        let code: u32 = c as u32;
        let fresh = self.guessed.insert(code);
        if !fresh {
            proof {
                assert(self.guessed@ =~= old(self).guessed@);
            }
            return GuessOutcome::AlreadyGuessed;
        }
        proof {
            self.letters = Ghost(self.letters@.insert(c));
        }
        if self.hp > 0 && !contains_char(self.secret.as_str(), c) {
            self.hp -= 1;
        }
        proof {
            lemma_guess_keeps_wf(old(self)@, c);
        }
        GuessOutcome::Accepted
    }

    /// The secret with unguessed letters hidden.
    pub fn render_mask(&self) -> (shown: String)
        requires
            self.wf(),
        ensures
            shown@ == self@.mask(),
    {
        let word = self.secret.as_str();
        let n: usize = word.unicode_len();
        let mut shown = String::new();
        let mut i: usize = 0;
        while i < n
            invariant
                self.wf(),
                word@ == self@.secret,
                n == word@.len(),
                i <= n,
                shown@ == self@.mask().take(i as int),
            decreases n - i,
        {
            let c = word.get_char(i);
            let glyph = if self.has_guessed(c) {
                c
            } else {
                PLACEHOLDER
            };
            push_char(&mut shown, glyph);
            proof {
                assert(shown@ =~= self@.mask().take(i + 1));
            }
            i += 1;
        }
        proof {
            assert(shown@ =~= self@.mask());
        }
        shown
    }

    /// Whether the round goes on, is lost or is won.
    pub fn status(&self) -> (status: RoundStatus)
        requires
            self.wf(),
        ensures
            status == self@.status(),
    {
        if self.hp == 0 {
            return RoundStatus::Lost;
        }
        let shown = self.render_mask();
        if shown == self.secret {
            RoundStatus::Won
        } else {
            RoundStatus::InProgress
        }
    }

    /// Index of the drawing that goes with the remaining health.
    pub fn frame(&self) -> (index: usize)
        ensures
            index == self@.frame(),
    {
        frame_index(self.hp)
    }
}

/// Index of the drawing for `health`: its distance from full health.
pub fn frame_index(health: u8) -> (index: usize)
    ensures
        health <= 6 ==> index == 6 - health,
        health > 6 ==> index == health - 6,
{
    if health <= MAX_HEALTH {
        (MAX_HEALTH - health) as usize
    } else {
        (health - MAX_HEALTH) as usize
    }
}

/// A guess keeps a well-formed round well formed.
pub proof fn lemma_guess_keeps_wf(r: RoundView, c: char)
    requires
        r.wf(),
    ensures
        r.apply_guess(c).wf(),
        r.apply_guess(c).health <= r.health,
{
    let next = r.apply_guess(c);
    if r.guessed.contains(c) {
    } else if r.secret.contains(c) {
        assert(next.wrong_guesses() =~= r.wrong_guesses());
    } else {
        assert(next.wrong_guesses() =~= r.wrong_guesses().insert(c));
    }
}

} // verus!
