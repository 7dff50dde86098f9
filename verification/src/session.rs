//! The session: a menu from which rounds are started, one round at a time,
//! and the tally that outlives them.

use vstd::prelude::*;
use vstd::string::*;
use crate::round::{GameState, GuessOutcome, RoundStatus, RoundView};
use crate::tally::{summary, WinLoss};
use crate::text::same_text;

verus! {

/// The two modes of a session.
#[derive(Clone, Copy, Debug, PartialEq, Eq, Structural)]
pub enum HangmanState {
    Menu,
    Playing,
}

/// The menu's vocabulary.
#[derive(Clone, Copy, Debug, PartialEq, Eq, Structural)]
pub enum Command {
    Play,
    Quit,
    Help,
    WinRate,
}

/// The command that a line of input names, if any.
pub open spec fn command_of(line: Seq<char>) -> Option<Command> {
    if line == "play"@ {
        Some(Command::Play)
    } else if line == "quit"@ {
        Some(Command::Quit)
    } else if line == "help"@ {
        Some(Command::Help)
    } else if line == "winr"@ {
        Some(Command::WinRate)
    } else {
        None
    }
}

/// Whether `c` is one of the 52 unaccented Latin letters.
pub open spec fn is_ascii_letter(c: char) -> bool {
    ('a' <= c && c <= 'z') || ('A' <= c && c <= 'Z')
}

/// The lower-case form of an unaccented Latin letter; other characters are
/// left alone.
pub open spec fn lowered(c: char) -> char {
    if 'A' <= c && c <= 'Z' {
        ((c as u8) + 32) as char
    } else {
        c
    }
}

/// The guess that a line of input makes: the line must be a single
/// unaccented Latin letter, and the guess is its lower-case form.
pub open spec fn guess_of(line: Seq<char>) -> Option<char> {
    if line.len() == 1 && is_ascii_letter(line[0]) {
        Some(lowered(line[0]))
    } else {
        None
    }
}

impl Command {
    /// Reads a menu command.
    pub fn parse(line: &str) -> (command: Option<Command>)
        ensures
            command == command_of(line@),
    {
        if same_text(line, "play") {
            Some(Command::Play)
        } else if same_text(line, "quit") {
            Some(Command::Quit)
        } else if same_text(line, "help") {
            Some(Command::Help)
        } else if same_text(line, "winr") {
            Some(Command::WinRate)
        } else {
            None
        }
    }
}

/// Reads a guess.
pub fn parse_guess(line: &str) -> (guess: Option<char>)
    ensures
        guess == guess_of(line@),
{
    if line.unicode_len() != 1 {
        return None;
    }
    let c = line.get_char(0);
    if 'a' <= c && c <= 'z' {
        Some(c)
    } else if 'A' <= c && c <= 'Z' {
        Some(((c as u8) + 32) as char)
    } else {
        None
    }
}

/// What there is to draw of a round.
#[derive(Debug)]
pub struct Screen {
    /// Index of the drawing: 0 at full health, 6 when lost.
    pub frame: usize,
    /// The secret with unguessed letters hidden.
    pub word: String,
    /// The secret itself, to be revealed once the round has ended.
    pub secret: String,
    /// Whether the round goes on.
    pub status: RoundStatus,
}

impl Screen {
    /// The screen is that of round `r`.
    pub open spec fn shows(self, r: RoundView) -> bool {
        &&& self.frame == r.frame()
        &&& self.word@ == r.mask()
        &&& self.secret@ == r.secret
        &&& self.status == r.status()
    }
}

/// What the terminal loop is to do after a line of input.
#[derive(Debug)]
pub enum Action {
    /// The menu did not recognise the line.
    Ignore,
    /// Obtain a word and hand it to [`App::play`].
    FetchWord,
    /// Leave the loop.
    Quit,
    /// Print the list of commands.
    ShowHelp,
    /// Print this win-rate line.
    ShowWinRate(String),
    /// The line was no guess.
    InvalidGuess,
    /// This letter had been guessed before.
    AlreadyGuessed(char),
    /// A new guess was made: draw the round.
    Redraw(Screen),
}

/// Mathematical model of a session.
pub struct SessionView {
    pub round: Option<RoundView>,
    pub wins: nat,
    pub losses: nat,
}

impl SessionView {
    /// A session is in the menu exactly when it holds no round.
    pub open spec fn mode(self) -> HangmanState {
        if self.round is Some {
            HangmanState::Playing
        } else {
            HangmanState::Menu
        }
    }

    pub open spec fn wf(self) -> bool {
        self.round is Some ==> self.round->0.wf()
    }

    /// No finished round is held: a round that is held is in progress.
    pub open spec fn settled(self) -> bool {
        self.round is Some ==> self.round->0.status() == RoundStatus::InProgress
    }

    /// Ends the round if it is over: a lost round counts as a loss, a won
    /// one as a win, and either way the session returns to the menu. A
    /// round in progress stays.
    pub open spec fn settle(self) -> SessionView {
        match self.round {
            None => self,
            Some(r) => match r.status() {
                RoundStatus::InProgress => self,
                RoundStatus::Lost => SessionView {
                    round: None,
                    wins: self.wins,
                    losses: self.losses + 1,
                },
                RoundStatus::Won => SessionView {
                    round: None,
                    wins: self.wins + 1,
                    losses: self.losses,
                },
            },
        }
    }

    /// Starts a round on `secret`, replacing any round there was.
    pub open spec fn start(self, secret: Seq<char>) -> SessionView {
        SessionView {
            round: Some(RoundView::fresh(secret)),
            wins: self.wins,
            losses: self.losses,
        }.settle()
    }

    /// The round's letter `c` is guessed; a new guess may end the round.
    pub open spec fn guess(self, c: char) -> SessionView {
        match self.round {
            None => self,
            Some(r) => if r.guessed.contains(c) {
                self
            } else {
                SessionView {
                    round: Some(r.apply_guess(c)),
                    wins: self.wins,
                    losses: self.losses,
                }.settle()
            },
        }
    }

    /// The session after one line of input. In the menu no line changes
    /// it; in a round only a valid guess does.
    pub open spec fn step(self, line: Seq<char>) -> SessionView {
        match (self.round, guess_of(line)) {
            (Some(_), Some(c)) => self.guess(c),
            _ => self,
        }
    }
}

impl Action {
    /// The action is the one owed to `line` by a session in state `pre`.
    pub open spec fn answers(self, pre: SessionView, line: Seq<char>) -> bool {
        match pre.round {
            None => match command_of(line) {
                None => self is Ignore,
                Some(Command::Play) => self is FetchWord,
                Some(Command::Quit) => self is Quit,
                Some(Command::Help) => self is ShowHelp,
                Some(Command::WinRate) => self matches Action::ShowWinRate(text) && text@
                    == summary(pre.wins, pre.losses),
            },
            Some(r) => match guess_of(line) {
                None => self is InvalidGuess,
                Some(c) => if r.guessed.contains(c) {
                    self matches Action::AlreadyGuessed(letter) && letter == c
                } else {
                    self matches Action::Redraw(screen) && screen.shows(r.apply_guess(c))
                },
            },
        }
    }
}

/// A hangman session.
pub struct App {
    state: HangmanState,
    playstate: Option<GameState>,
    winloss: WinLoss,
}

impl View for App {
    type V = SessionView;

    closed spec fn view(&self) -> SessionView {
        SessionView {
            round: match self.playstate {
                Some(round) => Some(round@),
                None => None,
            },
            wins: self.winloss@.wins,
            losses: self.winloss@.losses,
        }
    }
}

impl App {
    /// The mode agrees with whether a round is held, and a held round is
    /// well formed.
    pub closed spec fn wf(&self) -> bool {
        &&& self.state == HangmanState::Playing <==> self.playstate is Some
        &&& self.playstate is Some ==> self.playstate->0.wf()
    }

    /// The model of a well-formed session is well formed, so the laws of
    /// the model hold of it.
    pub proof fn lemma_view_wf(&self)
        requires
            self.wf(),
        ensures
            self@.wf(),
    {
        if self.playstate is Some {
            self.playstate->0.lemma_view_wf();
        }
    }

    /// A session in the menu with nothing played.
    pub fn init() -> (app: App)
        ensures
            app.wf(),
            app@ == (SessionView { round: None, wins: 0, losses: 0 }),
    {
        App { state: HangmanState::Menu, playstate: None, winloss: WinLoss::new() }
    }

    /// The current mode.
    pub fn mode(&self) -> (mode: HangmanState)
        requires
            self.wf(),
        ensures
            mode == self@.mode(),
    {
        self.state
    }

    /// The session's tally.
    pub fn tally(&self) -> (tally: &WinLoss)
        ensures
            tally@.wins == self@.wins,
            tally@.losses == self@.losses,
    {
        &self.winloss
    }

    /// Records the guess `c` in the current round and says whether it was
    /// new. The round is not ended here, even if the guess decided it.
    pub fn handle_guess(&mut self, c: char) -> (fresh: bool)
        requires
            old(self).wf(),
            old(self)@.round is Some,
        ensures
            final(self).wf(),
            final(self)@ == (SessionView {
                round: Some(old(self)@.round->0.apply_guess(c)),
                wins: old(self)@.wins,
                losses: old(self)@.losses,
            }),
            fresh == !old(self)@.round->0.guessed.contains(c),
    {
        let mut round = self.playstate.take().unwrap();
        let outcome = round.apply_guess(c);
        self.playstate = Some(round);
        match outcome {
            GuessOutcome::AlreadyGuessed => false,
            GuessOutcome::Accepted => true,
        }
    }

    /// Says what to draw of the current round and ends the round if it is
    /// over, loss being looked at before win.
    pub fn display(&mut self) -> (screen: Screen)
        requires
            old(self).wf(),
            old(self)@.round is Some,
            old(self)@.wins < usize::MAX,
            old(self)@.losses < usize::MAX,
        ensures
            final(self).wf(),
            screen.shows(old(self)@.round->0),
            final(self)@ == old(self)@.settle(),
    {
        let round = self.playstate.take().unwrap();
        let status = round.status();
        let screen = Screen {
            frame: round.frame(),
            word: round.render_mask(),
            secret: round.secret().clone(),
            status,
        };
        match status {
            RoundStatus::Lost => {
                self.winloss.record_loss();
                self.state = HangmanState::Menu;
            },
            RoundStatus::Won => {
                self.winloss.record_win();
                self.state = HangmanState::Menu;
            },
            RoundStatus::InProgress => {
                self.playstate = Some(round);
            },
        }
        screen
    }

    /// Takes what the word source gave. Without a word nothing changes.
    /// With one, a fresh round on it replaces any current round, and is
    /// drawn and settled at once.
    pub fn play(&mut self, word: Option<String>) -> (screen: Option<Screen>)
        requires
            old(self).wf(),
            old(self)@.wins < usize::MAX,
            old(self)@.losses < usize::MAX,
        ensures
            final(self).wf(),
            match word {
                None => screen is None && final(self)@ == old(self)@,
                Some(secret) => screen is Some && screen->0.shows(RoundView::fresh(secret@))
                    && final(self)@ == old(self)@.start(secret@),
            },
    {
        match word {
            None => None,
            Some(secret) => {
                self.state = HangmanState::Playing;
                self.playstate = Some(GameState::init(secret));
                Some(self.display())
            },
        }
    }

    /// Handles one line of input: a command in the menu, a guess in a
    /// round.
    pub fn step(&mut self, line: &str) -> (action: Action)
        requires
            old(self).wf(),
            old(self)@.wins < usize::MAX,
            old(self)@.losses < usize::MAX,
        ensures
            final(self).wf(),
            final(self)@ == old(self)@.step(line@),
            action.answers(old(self)@, line@),
    {
        match self.state {
            HangmanState::Menu => match Command::parse(line) {
                None => Action::Ignore,
                Some(Command::Play) => Action::FetchWord,
                Some(Command::Quit) => Action::Quit,
                Some(Command::Help) => Action::ShowHelp,
                Some(Command::WinRate) => Action::ShowWinRate(self.winloss.winrate()),
            },
            HangmanState::Playing => match parse_guess(line) {
                None => Action::InvalidGuess,
                Some(c) => if self.handle_guess(c) {
                    Action::Redraw(self.display())
                } else {
                    Action::AlreadyGuessed(c)
                },
            },
        }
    }
}

} // verus!
