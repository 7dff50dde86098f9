//! Laws of a round and of a session, stated over their models and proved
//! once for all rounds and sessions.

use vstd::prelude::*;
use crate::round::{lemma_guess_keeps_wf, GuessOutcome, RoundStatus, RoundView};
use crate::session::SessionView;

verus! {

/// Guessing a sequence of letters keeps the round well formed and the
/// secret untouched, adds exactly those letters to the guessed set, and
/// never raises the health.
pub proof fn lemma_guesses_accumulate(r: RoundView, guesses: Seq<char>)
    requires
        r.wf(),
    ensures
        r.apply_all(guesses).wf(),
        r.apply_all(guesses).secret == r.secret,
        r.apply_all(guesses).guessed == r.guessed.union(guesses.to_set()),
        r.apply_all(guesses).health <= r.health,
    decreases guesses.len(),
{
    if guesses.len() == 0 {
        assert(r.guessed.union(guesses.to_set()) =~= r.guessed);
    } else {
        let c = guesses[0];
        let rest = guesses.drop_first();
        let next = r.apply_guess(c);
        lemma_guess_keeps_wf(r, c);
        lemma_guesses_accumulate(next, rest);
        assert forall|x: char| guesses.to_set().contains(x) <==> (x == c || rest.to_set().contains(
            x,
        )) by {
            if guesses.contains(x) {
                let i = choose|i: int| 0 <= i < guesses.len() && guesses[i] == x;
                if i > 0 {
                    assert(rest[i - 1] == x);
                }
            }
            if rest.contains(x) {
                let j = choose|j: int| 0 <= j < rest.len() && rest[j] == x;
                assert(guesses[j + 1] == x);
            }
            if x == c {
                assert(guesses[0] == x);
            }
        }
        assert(next.guessed.union(rest.to_set()) =~= r.guessed.union(guesses.to_set()));
    }
}

/// Health never rises during a round: whatever is guessed after a prefix of
/// the guesses, the health is at most what it was after the prefix.
pub proof fn lemma_health_never_rises(r: RoundView, earlier: Seq<char>, later: Seq<char>)
    requires
        r.wf(),
    ensures
        r.apply_all(earlier + later) == r.apply_all(earlier).apply_all(later),
        r.apply_all(earlier + later).health <= r.apply_all(earlier).health,
        r.apply_all(earlier).health <= r.health,
    decreases earlier.len(),
{
    if earlier.len() == 0 {
        assert(earlier + later =~= later);
    } else {
        let next = r.apply_guess(earlier[0]);
        lemma_guess_keeps_wf(r, earlier[0]);
        assert((earlier + later).drop_first() =~= earlier.drop_first() + later);
        lemma_health_never_rises(next, earlier.drop_first(), later);
    }
    lemma_guesses_accumulate(r, earlier);
    lemma_guesses_accumulate(r.apply_all(earlier), later);
}

/// From a fresh round, the health after any guesses is six less the number
/// of distinct guessed letters that miss the secret, and zero from the
/// sixth such letter on; a round without health is lost, whatever its mask
/// shows.
pub proof fn lemma_health_counts_wrong_guesses(secret: Seq<char>, guesses: Seq<char>)
    ensures
        ({
            let end = RoundView::fresh(secret).apply_all(guesses);
            let wrong = guesses.to_set().difference(secret.to_set());
            &&& wrong.finite()
            &&& wrong.len() < 6 ==> end.health == 6 - wrong.len()
            &&& wrong.len() >= 6 ==> end.health == 0
            &&& end.health == 0 ==> end.status() == RoundStatus::Lost
        }),
{
    let start = RoundView::fresh(secret);
    assert(start.wrong_guesses() =~= Set::<char>::empty());
    lemma_guesses_accumulate(start, guesses);
    let end = start.apply_all(guesses);
    assert(end.guessed =~= guesses.to_set());
}

/// In a round that still has health, a new letter that misses the secret
/// costs exactly one attempt the first time it is guessed; guessing it
/// again is reported as a repeat and changes nothing.
pub proof fn lemma_wrong_guess_costs_once(r: RoundView, c: char)
    requires
        r.wf(),
        r.health > 0,
        !r.secret.contains(c),
        !r.guessed.contains(c),
    ensures
        r.outcome(c) == GuessOutcome::Accepted,
        r.apply_guess(c).health == r.health - 1,
        r.apply_guess(c).outcome(c) == GuessOutcome::AlreadyGuessed,
        r.apply_guess(c).apply_guess(c) == r.apply_guess(c),
{
}

/// A new letter that occurs in the secret costs nothing.
pub proof fn lemma_right_guess_is_free(r: RoundView, c: char)
    requires
        r.secret.contains(c),
    ensures
        r.apply_guess(c).health == r.health,
{
}

/// The mask depends on the round alone: it has the secret's length, shows
/// exactly the guessed letters, and a repeated guess leaves it as it was.
pub proof fn lemma_mask_is_stable(r: RoundView, c: char)
    ensures
        r.mask().len() == r.secret.len(),
        forall|i: int|
            0 <= i < r.secret.len() ==> #[trigger] r.mask()[i] == if r.guessed.contains(
                r.secret[i],
            ) {
                r.secret[i]
            } else {
                '_'
            },
        r.guessed.contains(c) ==> r.apply_guess(c).mask() == r.mask(),
{
}

/// A round whose every letter is guessed shows its secret; where the secret
/// holds no placeholder glyph, the converse holds too.
pub proof fn lemma_mask_shows_secret_when_covered(r: RoundView)
    ensures
        r.covered() ==> r.mask() == r.secret,
        !r.secret.contains('_') && r.mask() == r.secret ==> r.covered(),
{
    if r.covered() {
        assert(r.mask() =~= r.secret);
    }
    if !r.secret.contains('_') && r.mask() == r.secret {
        assert forall|i: int| 0 <= i < r.secret.len() implies r.guessed.contains(
            #[trigger] r.secret[i],
        ) by {
            assert(r.mask()[i] == r.secret[i]);
            assert(r.secret.contains(r.secret[i]));
        }
    }
}

/// Won and lost exclude each other, and a round with health left whose
/// letters are all guessed is won.
pub proof fn lemma_end_conditions_exclusive(r: RoundView)
    ensures
        r.status() == RoundStatus::Lost <==> r.health == 0,
        r.status() == RoundStatus::Won <==> r.health > 0 && r.mask() == r.secret,
        r.health > 0 && r.covered() ==> r.status() == RoundStatus::Won,
{
    lemma_mask_shows_secret_when_covered(r);
}

/// In a round with health left, take distinct letters, none guessed before,
/// that between them include every letter of the secret. After guessing
/// them all the round is won with its health untouched if and only if every
/// one of them occurs in the secret.
pub proof fn lemma_won_unscathed_iff_all_hits(r: RoundView, guesses: Seq<char>)
    requires
        r.wf(),
        r.health > 0,
        guesses.no_duplicates(),
        forall|i: int| 0 <= i < guesses.len() ==> !r.guessed.contains(#[trigger] guesses[i]),
        forall|j: int| 0 <= j < r.secret.len() ==> guesses.contains(#[trigger] r.secret[j]),
    ensures
        (r.apply_all(guesses).status() == RoundStatus::Won && r.apply_all(guesses).health
            == r.health) <==> (forall|i: int|
            0 <= i < guesses.len() ==> r.secret.contains(#[trigger] guesses[i])),
{
    let end = r.apply_all(guesses);
    lemma_guesses_accumulate(r, guesses);
    assert(end.covered()) by {
        assert forall|j: int| 0 <= j < end.secret.len() implies end.guessed.contains(
            #[trigger] end.secret[j],
        ) by {
            assert(guesses.contains(r.secret[j]));
        }
    }
    lemma_mask_shows_secret_when_covered(end);
    let all_hits = forall|i: int|
        0 <= i < guesses.len() ==> r.secret.contains(#[trigger] guesses[i]);
    if all_hits {
        assert(end.wrong_guesses() =~= r.wrong_guesses()) by {
            assert forall|x: char| end.wrong_guesses().contains(x) implies r.wrong_guesses().contains(
                x,
            ) by {
                if guesses.contains(x) {
                    let i = choose|i: int| 0 <= i < guesses.len() && guesses[i] == x;
                    assert(r.secret.contains(guesses[i]));
                }
            }
        }
    } else {
        let i = choose|i: int| 0 <= i < guesses.len() && !r.secret.contains(#[trigger] guesses[i]);
        let miss = guesses[i];
        assert(guesses.contains(miss));
        assert(end.wrong_guesses().contains(miss));
        assert(!r.wrong_guesses().contains(miss));
        let grown = r.wrong_guesses().insert(miss);
        assert(grown.subset_of(end.wrong_guesses()));
        vstd::set_lib::lemma_len_subset(grown, end.wrong_guesses());
        assert(end.health < r.health);
    }
}

/// A round on a word that is not empty and holds no placeholder glyph
/// starts in progress: the session enters the round and counts nothing.
/// Whatever the word, no finished round is left behind.
pub proof fn lemma_start_enters_round(s: SessionView, secret: Seq<char>)
    requires
        s.wf(),
    ensures
        s.start(secret).wf(),
        s.start(secret).settled(),
        secret.len() > 0 && !secret.contains('_') ==> s.start(secret) == (SessionView {
            round: Some(RoundView::fresh(secret)),
            wins: s.wins,
            losses: s.losses,
        }),
{
    let fresh = RoundView::fresh(secret);
    assert(fresh.wrong_guesses() =~= Set::<char>::empty());
    if secret.len() > 0 && !secret.contains('_') {
        assert(secret.contains(secret[0]));
        assert(fresh.mask()[0] == '_');
    }
}

/// One line of input moves a session by one transition. In the menu no
/// line starts a round or counts a game. In a round, the round either goes
/// on with the same secret and nothing is counted, or it has ended and
/// exactly one game is counted: a loss if its health is gone, else a win.
/// The counters never fall, and a session that held no finished round holds
/// none afterwards.
pub proof fn lemma_step_is_one_transition(s: SessionView, line: Seq<char>)
    requires
        s.wf(),
    ensures
        s.step(line).wf(),
        s.settled() ==> s.step(line).settled(),
        s.step(line).wins >= s.wins,
        s.step(line).losses >= s.losses,
        s.round is None ==> s.step(line) == s,
        s.round is Some && s.step(line).round is Some ==> {
            &&& s.step(line).round->0.secret == s.round->0.secret
            &&& s.step(line).round->0.health <= s.round->0.health
            &&& s.step(line).wins == s.wins
            &&& s.step(line).losses == s.losses
        },
        s.round is Some && s.step(line).round is None ==> {
            ||| s.step(line).wins == s.wins && s.step(line).losses == s.losses + 1
            ||| s.step(line).wins == s.wins + 1 && s.step(line).losses == s.losses
        },
{
    if s.round is Some {
        let r = s.round->0;
        match crate::session::guess_of(line) {
            Some(c) => {
                lemma_guess_keeps_wf(r, c);
            },
            None => {},
        }
    }
}

} // verus!
