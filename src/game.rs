//! One session of the guessing game: a secret number in `[1, 100]`, the text
//! typed so far, and the feedback on the last submission.

use vstd::prelude::*;
use crate::chrome::WindowCommand;
use crate::palette::Tone;
use crate::text::{
    is_ascii_digit, is_white_space, lemma_non_numeric_is_rejected, parsed_u32, read_guess, trimmed,
};
use rand::Rng;

verus! {

pub const SECRET_MIN: u32 = 1;

pub const SECRET_MAX: u32 = 100;

/// Relies on `rand::thread_rng().gen_range(low..=high)`: a value drawn from the
/// closed range. The call panics on an empty range, which `requires` excludes.
#[verifier::external_body]
fn random_in(low: u32, high: u32) -> (r: u32)
    requires
        low <= high,
    ensures
        low <= r <= high,
{
    rand::thread_rng().gen_range(low..=high)
}

/// Whether the session still takes guesses.
#[derive(Clone, Copy, Debug, PartialEq, Eq, Structural)]
pub enum Phase {
    Playing,
    Won,
}

/// The outcome of the last submission, shown to the player.
#[derive(Clone, Copy, Debug, PartialEq, Eq, Structural)]
pub enum Feedback {
    /// Nothing submitted yet in this session.
    Prompt,
    TooSmall,
    TooBig,
    /// The text was not a number.
    Invalid,
    Win,
}

pub open spec fn feedback_text(f: Feedback) -> Seq<char> {
    match f {
        Feedback::Prompt => "Guess the number!"@,
        Feedback::TooSmall => "Too small!"@,
        Feedback::TooBig => "Too big!"@,
        Feedback::Invalid => "Please enter a valid number!"@,
        Feedback::Win => "You win! Congratulations!"@,
    }
}

pub open spec fn feedback_tone(f: Feedback) -> Tone {
    match f {
        Feedback::Prompt => Tone::Neutral,
        Feedback::Win => Tone::Success,
        _ => Tone::Error,
    }
}

impl Feedback {
    pub fn text(&self) -> (r: &'static str)
        ensures
            r@ == feedback_text(*self),
    {
        match self {
            Feedback::Prompt => "Guess the number!",
            Feedback::TooSmall => "Too small!",
            Feedback::TooBig => "Too big!",
            Feedback::Invalid => "Please enter a valid number!",
            Feedback::Win => "You win! Congratulations!",
        }
    }

    pub fn tone(&self) -> (r: Tone)
        ensures
            r == feedback_tone(*self),
    {
        match self {
            Feedback::Prompt => Tone::Neutral,
            Feedback::Win => Tone::Success,
            _ => Tone::Error,
        }
    }
}

/// The abstract state of a session.
pub struct GameView {
    pub input: Seq<char>,
    pub secret: u32,
    pub last_guess: Option<u32>,
    pub feedback: Feedback,
    pub won: bool,
}

impl GameView {
    /// The secret lies in its range; the session is won exactly when the
    /// last number read was the secret, and exactly when the feedback says so.
    pub open spec fn wf(self) -> bool {
        &&& SECRET_MIN <= self.secret <= SECRET_MAX
        &&& self.won <==> self.last_guess == Some(self.secret)
        &&& self.won <==> self.feedback == Feedback::Win
    }

    pub open spec fn phase(self) -> Phase {
        if self.won {
            Phase::Won
        } else {
            Phase::Playing
        }
    }
}

/// A new session around `secret`.
pub open spec fn fresh(secret: u32) -> GameView {
    GameView {
        input: Seq::empty(),
        secret,
        last_guess: None,
        feedback: Feedback::Prompt,
        won: false,
    }
}

/// The session after the guess `g` was read from the field.
pub open spec fn after_guess(v: GameView, g: u32) -> GameView {
    GameView {
        input: Seq::empty(),
        secret: v.secret,
        last_guess: Some(g),
        feedback: if g < v.secret {
            Feedback::TooSmall
        } else if g > v.secret {
            Feedback::TooBig
        } else {
            Feedback::Win
        },
        won: g == v.secret,
    }
}

/// The session after the field's text was submitted. A won session takes no
/// more guesses; otherwise the text is read, and the field is cleared whether
/// or not it held a number.
pub open spec fn after_submit(v: GameView) -> GameView {
    if v.won {
        v
    } else {
        match parsed_u32(trimmed(v.input)) {
            Some(g) => after_guess(v, g),
            None => GameView {
                input: Seq::empty(),
                secret: v.secret,
                last_guess: v.last_guess,
                feedback: Feedback::Invalid,
                won: false,
            },
        }
    }
}

pub struct Game {
    user_input: String,
    secret_number: u32,
    feedback: Feedback,
    last_guess: Option<u32>,
    display_win_buttons: bool,
}

impl View for Game {
    type V = GameView;

    closed spec fn view(&self) -> GameView {
        GameView {
            input: self.user_input@,
            secret: self.secret_number,
            last_guess: self.last_guess,
            feedback: self.feedback,
            won: self.display_win_buttons,
        }
    }
}

impl Game {
    pub open spec fn wf(&self) -> bool {
        self@.wf()
    }

    /// A session whose secret is `secret`.
    pub fn with_secret(secret: u32) -> (g: Game)
        requires
            SECRET_MIN <= secret <= SECRET_MAX,
        ensures
            g@ == fresh(secret),
            g.wf(),
    {
        Game {
            user_input: String::new(),
            secret_number: secret,
            feedback: Feedback::Prompt,
            last_guess: None,
            display_win_buttons: false,
        }
    }

    /// A session whose secret is drawn at random from `[1, 100]`.
    pub fn new() -> (g: Game)
        ensures
            g@ == fresh(g@.secret),
            g.wf(),
    {
        Game::with_secret(random_in(SECRET_MIN, SECRET_MAX))
    }

    /// The text in the field, not yet submitted.
    pub fn input(&self) -> (r: &str)
        ensures
            r@ == self@.input,
    {
        self.user_input.as_str()
    }

    /// Replaces the text in the field, as the player edits it.
    pub fn set_input(&mut self, text: String)
        ensures
            final(self)@ == (GameView { input: text@, ..old(self)@ }),
    {
        self.user_input = text;
    }

    /// Submits the field's text as a guess (the player pressed Enter).
    pub fn submit(&mut self)
        requires
            old(self).wf(),
        ensures
            final(self)@ == after_submit(old(self)@),
            final(self).wf(),
    {
        if self.display_win_buttons {
            return;
        }
        let parsed = read_guess(self.user_input.as_str());
        self.user_input = String::new();
        match parsed {
            Some(guess) => {
                self.last_guess = Some(guess);
                if guess < self.secret_number {
                    self.feedback = Feedback::TooSmall;
                } else if guess > self.secret_number {
                    self.feedback = Feedback::TooBig;
                } else {
                    self.feedback = Feedback::Win;
                    self.display_win_buttons = true;
                }
            },
            None => {
                self.feedback = Feedback::Invalid;
            },
        }
    }

    /// Starts a new session around `secret` once the current one is won; a
    /// session still in play is left as it is.
    pub fn replay_with(&mut self, secret: u32)
        requires
            old(self).wf(),
            SECRET_MIN <= secret <= SECRET_MAX,
        ensures
            old(self)@.won ==> final(self)@ == fresh(secret),
            !old(self)@.won ==> final(self)@ == old(self)@,
            final(self).wf(),
    {
        if self.display_win_buttons {
            self.user_input = String::new();
            self.secret_number = secret;
            self.feedback = Feedback::Prompt;
            self.last_guess = None;
            self.display_win_buttons = false;
        }
    }

    /// "Play again": once the session is won, starts a new one around a secret
    /// drawn afresh from `[1, 100]` (it may happen to equal the old one).
    pub fn play_again(&mut self)
        requires
            old(self).wf(),
        ensures
            old(self)@.won ==> final(self)@ == fresh(final(self)@.secret),
            !old(self)@.won ==> final(self)@ == old(self)@,
            final(self).wf(),
    {
        if self.display_win_buttons {
            let secret = random_in(SECRET_MIN, SECRET_MAX);
            self.replay_with(secret);
        }
    }

    /// "Quit": the window is to close; the control exists only once the
    /// session is won.
    pub fn quit_command(&self) -> (r: Option<WindowCommand>)
        ensures
            r == (if self@.won { Some(WindowCommand::Close) } else { None::<WindowCommand> }),
    {
        if self.display_win_buttons {
            Some(WindowCommand::Close)
        } else {
            None
        }
    }

    pub fn phase(&self) -> (r: Phase)
        ensures
            r == self@.phase(),
    {
        if self.display_win_buttons {
            Phase::Won
        } else {
            Phase::Playing
        }
    }

    /// Whether the "Quit" and "Play again" controls are shown.
    pub fn shows_win_controls(&self) -> (r: bool)
        ensures
            r == self@.won,
    {
        self.display_win_buttons
    }

    /// Whether the field is to hold the keyboard focus: while the session is in
    /// play, so that the player never has to click it; not once it is won, so
    /// that the controls receive clicks.
    pub fn wants_input_focus(&self) -> (r: bool)
        ensures
            r == !self@.won,
    {
        !self.display_win_buttons
    }

    pub fn secret_number(&self) -> (r: u32)
        ensures
            r == self@.secret,
    {
        self.secret_number
    }

    pub fn last_guess(&self) -> (r: Option<u32>)
        ensures
            r == self@.last_guess,
    {
        self.last_guess
    }

    pub fn feedback(&self) -> (r: Feedback)
        ensures
            r == self@.feedback,
    {
        self.feedback
    }

    /// The feedback line's text.
    pub fn message(&self) -> (r: String)
        ensures
            r@ == feedback_text(self@.feedback),
    {
        self.feedback.text().to_owned()
    }

    /// The feedback line's colour.
    pub fn message_tone(&self) -> (r: Tone)
        ensures
            r == feedback_tone(self@.feedback),
    {
        self.feedback.tone()
    }
}

impl Default for Game {
    /// The same as `Game::new`: a fresh session around a random secret.
    fn default() -> (g: Game)
        ensures
            g@ == fresh(g@.secret),
            g.wf(),
    {
        Game::new()
    }
}

/// Submitting the secret itself wins the session.
pub proof fn lemma_exact_guess_wins(v: GameView, g: u32)
    requires
        v.wf(),
        !v.won,
        SECRET_MIN <= g <= SECRET_MAX,
        g == v.secret,
        parsed_u32(trimmed(v.input)) == Some(g),
    ensures
        after_submit(v).won,
        after_submit(v).phase() == Phase::Won,
        after_submit(v).feedback == Feedback::Win,
        feedback_tone(after_submit(v).feedback) == Tone::Success,
        after_submit(v).wf(),
{
}

/// A guess below the secret keeps the session in play and reports "too small"
/// in the error colour.
pub proof fn lemma_low_guess(v: GameView, g: u32)
    requires
        v.wf(),
        !v.won,
        g < v.secret,
        parsed_u32(trimmed(v.input)) == Some(g),
    ensures
        after_submit(v).phase() == Phase::Playing,
        after_submit(v).feedback == Feedback::TooSmall,
        feedback_tone(after_submit(v).feedback) == Tone::Error,
        after_submit(v).last_guess == Some(g),
        after_submit(v).wf(),
{
}

/// A guess above the secret keeps the session in play and reports "too big"
/// in the error colour.
pub proof fn lemma_high_guess(v: GameView, g: u32)
    requires
        v.wf(),
        !v.won,
        g > v.secret,
        parsed_u32(trimmed(v.input)) == Some(g),
    ensures
        after_submit(v).phase() == Phase::Playing,
        after_submit(v).feedback == Feedback::TooBig,
        feedback_tone(after_submit(v).feedback) == Tone::Error,
        after_submit(v).last_guess == Some(g),
        after_submit(v).wf(),
{
}

/// Text that is not a number keeps the session in play, reports invalid input
/// and clears the field; the last guess and the secret are kept.
pub proof fn lemma_invalid_input(v: GameView)
    requires
        v.wf(),
        !v.won,
        parsed_u32(trimmed(v.input)) is None,
    ensures
        after_submit(v).phase() == Phase::Playing,
        after_submit(v).feedback == Feedback::Invalid,
        feedback_tone(after_submit(v).feedback) == Tone::Error,
        after_submit(v).input.len() == 0,
        after_submit(v).last_guess == v.last_guess,
        after_submit(v).secret == v.secret,
        after_submit(v).wf(),
{
}

/// A field holding a character other than a digit, `+` or white space is
/// invalid input: the session stays in play and the field is cleared.
pub proof fn lemma_non_numeric_input_is_invalid(v: GameView, k: int)
    requires
        v.wf(),
        !v.won,
        0 <= k < v.input.len(),
        !is_ascii_digit(v.input[k]),
        v.input[k] != '+',
        !is_white_space(v.input[k]),
    ensures
        after_submit(v).phase() == Phase::Playing,
        after_submit(v).feedback == Feedback::Invalid,
        after_submit(v).input.len() == 0,
{
    lemma_non_numeric_is_rejected(v.input, k);
}

/// An empty field is invalid input.
pub proof fn lemma_empty_input_is_invalid(v: GameView)
    requires
        v.wf(),
        !v.won,
        v.input.len() == 0,
    ensures
        after_submit(v).phase() == Phase::Playing,
        after_submit(v).feedback == Feedback::Invalid,
        after_submit(v).input.len() == 0,
{
    reveal_with_fuel(crate::text::leading_white, 1);
    reveal_with_fuel(crate::text::trailing_white, 1);
    assert(trimmed(v.input).len() == 0);
}

/// The session that "Play again" starts after a win (see `Game::play_again`)
/// is in play, with no last guess, the opening prompt and an empty field.
pub proof fn lemma_replay_resets(secret: u32)
    requires
        SECRET_MIN <= secret <= SECRET_MAX,
    ensures
        fresh(secret).phase() == Phase::Playing,
        fresh(secret).last_guess is None,
        fresh(secret).feedback == Feedback::Prompt,
        feedback_tone(fresh(secret).feedback) == Tone::Neutral,
        fresh(secret).input.len() == 0,
        fresh(secret).wf(),
{
}

} // verus!
