//! The game session state machine.
//!
//! [`App`] is the authoritative model of one play session: current screen,
//! active phrase index, accumulated score, input buffer and time budget.
//! An outside event loop delivers one [`GameEvent`] per cycle to
//! [`App::step`]; the returned [`StepAction`] tells that loop what to do
//! next (keep going, drain stale key events, or quit). Rendering reads the
//! public fields and the snapshot methods; it never mutates the session.
//!
//! The whole transition table is written down once, mathematically, as
//! [`step_model`]; `App::step` is proved to follow it exactly.

use vstd::prelude::*;

use crate::matcher::correct_prefix_len;
use crate::matcher::lemma_prefix_len_bound;
use crate::matcher::lemma_prefix_len_matches;
use crate::matcher::lemma_prefix_len_refl;
use crate::matcher::longest_correct_prefix;

verus! {

/// The screen the session is currently showing.
#[derive(Clone, Copy, Debug, PartialEq, Eq, Structural)]
pub enum CurrentScreen {
    Home,
    Game,
    Result,
}

/// One discrete event delivered to the session per processing cycle.
///
/// `Character`, `Backspace`, `Confirm` and `Cancel` come from the key
/// source; `Tick` carries the milliseconds elapsed since the game started,
/// sampled from the caller's monotonic clock, and is delivered every cycle
/// so the time box is polled continuously.
#[derive(Clone, Copy, Debug, PartialEq, Eq, Structural)]
pub enum GameEvent {
    Character(char),
    Backspace,
    Confirm,
    Cancel,
    Tick(u64),
}

/// What the event loop must do after a step.
///
/// `DrainInput` is returned exactly when a phrase was completed: key events
/// still queued at that instant belong to the finished phrase and must be
/// read and thrown away, not applied to the next phrase.
#[derive(Clone, Copy, Debug, PartialEq, Eq, Structural)]
pub enum StepAction {
    Continue,
    DrainInput,
    Quit,
}

/// The mathematical model of a session: what an [`App`] value denotes.
pub struct SessionModel {
    /// Current screen.
    pub screen: CurrentScreen,
    /// The fixed, cyclic list of target phrases, as character sequences.
    pub phrases: Seq<Seq<char>>,
    /// The unconfirmed input typed against the active phrase.
    pub input: Seq<char>,
    /// Characters typed correctly so far.
    pub point: nat,
    /// Index of the active phrase.
    pub next_sentence: nat,
    /// The time budget of one game, in milliseconds.
    pub budget_ms: nat,
}

impl SessionModel {
    /// A session is well formed when the phrase list is non-empty and the
    /// active index stays inside it.
    pub open spec fn wf(self) -> bool {
        &&& self.phrases.len() > 0
        &&& self.next_sentence < self.phrases.len()
    }

    /// The phrase the player is currently typing.
    pub open spec fn active_phrase(self) -> Seq<char> {
        self.phrases[self.next_sentence as int]
    }

    /// Length of the correct prefix of the current input.
    pub open spec fn correct_len(self) -> nat {
        correct_prefix_len(self.input, self.active_phrase())
    }

    /// The session after a fresh game start: input, score and phrase index
    /// reset, screen on `Game`.
    pub open spec fn started(self) -> SessionModel {
        SessionModel {
            screen: CurrentScreen::Game,
            input: Seq::<char>::empty(),
            point: 0,
            next_sentence: 0,
            ..self
        }
    }

    /// The session after the game ends (cancel or timeout): the correct
    /// prefix of the pending input is folded into the score and the screen
    /// moves to `Result`.
    pub open spec fn ended(self) -> SessionModel {
        SessionModel {
            screen: CurrentScreen::Result,
            point: self.point + self.correct_len(),
            ..self
        }
    }

    /// The session right after the active phrase was completed: its length
    /// is added to the score, the phrase index advances by one modulo the
    /// phrase count, and the input is cleared, atomically.
    pub open spec fn completed(self) -> SessionModel {
        SessionModel {
            input: Seq::<char>::empty(),
            point: self.point + self.active_phrase().len(),
            next_sentence: ((self.next_sentence + 1) % self.phrases.len()) as nat,
            ..self
        }
    }
}

/// The transition table of the session: next state and required action for
/// each (state, event) pair. Events not listed for a screen are no-ops.
pub open spec fn step_model(m: SessionModel, event: GameEvent) -> (SessionModel, StepAction) {
    match m.screen {
        CurrentScreen::Home => match event {
            GameEvent::Confirm => (m.started(), StepAction::Continue),
            GameEvent::Cancel => (m, StepAction::Quit),
            _ => (m, StepAction::Continue),
        },
        CurrentScreen::Game => match event {
            GameEvent::Character(c) => if m.input.push(c) == m.active_phrase() {
                (
                    SessionModel { input: m.input.push(c), ..m }.completed(),
                    StepAction::DrainInput,
                )
            } else {
                (SessionModel { input: m.input.push(c), ..m }, StepAction::Continue)
            },
            GameEvent::Backspace => if m.input.len() == 0 {
                (m, StepAction::Continue)
            } else {
                (SessionModel { input: m.input.drop_last(), ..m }, StepAction::Continue)
            },
            GameEvent::Cancel => (m.ended(), StepAction::Continue),
            GameEvent::Tick(elapsed) => if elapsed >= m.budget_ms {
                (m.ended(), StepAction::Continue)
            } else {
                (m, StepAction::Continue)
            },
            GameEvent::Confirm => (m, StepAction::Continue),
        },
        CurrentScreen::Result => match event {
            GameEvent::Confirm => (
                SessionModel { screen: CurrentScreen::Home, ..m },
                StepAction::Continue,
            ),
            GameEvent::Cancel => (m, StepAction::Quit),
            _ => (m, StepAction::Continue),
        },
    }
}

/// A step keeps the session well formed and never touches the phrase list
/// or the budget.
pub proof fn lemma_step_preserves_wf(m: SessionModel, event: GameEvent)
    requires
        m.wf(),
    ensures
        step_model(m, event).0.wf(),
        step_model(m, event).0.phrases == m.phrases,
        step_model(m, event).0.budget_ms == m.budget_ms,
{
}

/// The score never decreases across any event, except the one transition
/// that starts a new game (confirm on `Home`), which resets it to zero.
pub proof fn lemma_step_point_monotonic(m: SessionModel, event: GameEvent)
    requires
        m.wf(),
        !(m.screen is Home && event is Confirm),
    ensures
        step_model(m, event).0.point >= m.point,
{
}

/// Completing the active phrase exactly always clears the input to empty,
/// advances the phrase index by exactly one position modulo the phrase
/// count, adds the phrase length to the score, and asks the event loop to
/// drain stale key events.
pub proof fn lemma_step_completion(m: SessionModel, c: char)
    requires
        m.wf(),
        m.screen is Game,
        m.input.push(c) == m.active_phrase(),
    ensures
        step_model(m, GameEvent::Character(c)).0.input == Seq::<char>::empty(),
        step_model(m, GameEvent::Character(c)).0.next_sentence == (m.next_sentence + 1)
            % m.phrases.len(),
        step_model(m, GameEvent::Character(c)).0.point == m.point + m.active_phrase().len(),
        step_model(m, GameEvent::Character(c)).1 is DrainInput,
{
}

/// Starting a game from `Home` always resets the score to zero, the phrase
/// index to zero and the input to empty, whatever the session did before.
pub proof fn lemma_step_start_resets(m: SessionModel)
    requires
        m.wf(),
        m.screen is Home,
    ensures
        step_model(m, GameEvent::Confirm).0.screen is Game,
        step_model(m, GameEvent::Confirm).0.point == 0,
        step_model(m, GameEvent::Confirm).0.next_sentence == 0,
        step_model(m, GameEvent::Confirm).0.input == Seq::<char>::empty(),
{
}

/// Views of the phrase list: each phrase as its character sequence.
pub open spec fn phrase_views(sentences: Seq<Vec<char>>) -> Seq<Seq<char>> {
    Seq::new(sentences.len(), |i: int| sentences[i]@)
}

/// One play session. Phrases and input are held as vectors of Unicode
/// scalar values, so every length and index in the model counts characters,
/// never bytes.
pub struct App {
    /// The fixed, cyclic list of target phrases.
    pub sentences: Vec<Vec<char>>,
    /// The unconfirmed input typed against the active phrase.
    pub input: Vec<char>,
    /// Index of the active phrase.
    pub next_sentence: usize,
    /// Characters typed correctly so far.
    pub point: usize,
    /// Current screen.
    pub current_screen: CurrentScreen,
    /// Time budget of one game, in milliseconds.
    pub budget_ms: u64,
}

impl View for App {
    type V = SessionModel;

    open spec fn view(&self) -> SessionModel {
        SessionModel {
            screen: self.current_screen,
            phrases: phrase_views(self.sentences@),
            input: self.input@,
            point: self.point as nat,
            next_sentence: self.next_sentence as nat,
            budget_ms: self.budget_ms as nat,
        }
    }
}

impl App {
    /// A fresh session on the `Home` screen, over the given phrase list and
    /// time budget.
    pub fn new(sentences: Vec<Vec<char>>, budget_ms: u64) -> (app: App)
        requires
            sentences@.len() > 0,
        ensures
            app@.wf(),
            app@.screen is Home,
            app@.phrases == phrase_views(sentences@),
            app@.input == Seq::<char>::empty(),
            app@.point == 0,
            app@.next_sentence == 0,
            app@.budget_ms == budget_ms,
    {
        App {
            sentences,
            input: Vec::new(),
            next_sentence: 0,
            point: 0,
            current_screen: CurrentScreen::Home,
            budget_ms,
        }
    }

    /// The phrase the player is currently typing.
    pub fn get_next_sentence(&self) -> (phrase: &Vec<char>)
        requires
            self@.wf(),
        ensures
            phrase@ == self@.active_phrase(),
    {
        &self.sentences[self.next_sentence]
    }

    /// Advance the active phrase index by one, cycling past the end of the
    /// phrase list.
    pub fn change_sentence(&mut self)
        requires
            old(self)@.wf(),
        ensures
            final(self)@.wf(),
            final(self)@ == (SessionModel {
                next_sentence: ((old(self)@.next_sentence + 1) % old(self)@.phrases.len()) as nat,
                ..old(self)@
            }),
    {
        let n = self.sentences.len();
        proof {
            assert(self.next_sentence < n);
        }
        self.next_sentence += 1;
        self.next_sentence %= n;
    }

    /// Completion check, run after every appended character while playing:
    /// exactly when the input equals the active phrase, fold its length into
    /// the score, advance to the next phrase and clear the input.
    pub fn check_input(&mut self) -> (done: bool)
        requires
            old(self)@.wf(),
            old(self)@.point + old(self)@.active_phrase().len() <= usize::MAX,
        ensures
            final(self)@.wf(),
            done == (old(self)@.input == old(self)@.active_phrase()),
            done ==> final(self)@ == old(self)@.completed(),
            !done ==> final(self)@ == old(self)@,
    {
        let k = longest_correct_prefix(&self.input, &self.sentences[self.next_sentence]);
        proof {
            lemma_prefix_len_matches(self.input@, self@.active_phrase());
        }
        if k == self.input.len() && k == self.sentences[self.next_sentence].len() {
            proof {
                assert(self.input@ =~= self@.active_phrase());
            }
            self.point += self.input.len();
            self.change_sentence();
            self.input.clear();
            true
        } else {
            proof {
                if self.input@ == self@.active_phrase() {
                    lemma_prefix_len_refl(self.input@);
                }
            }
            false
        }
    }

    /// The correct prefix of the current input, as its own vector: the
    /// leading run of characters that match the active phrase.
    pub fn get_correct(&self) -> (correct: Vec<char>)
        requires
            self@.wf(),
        ensures
            correct@ == self@.input.take(self@.correct_len() as int),
            correct@.len() == self@.correct_len(),
    {
        let k = longest_correct_prefix(&self.input, &self.sentences[self.next_sentence]);
        proof {
            lemma_prefix_len_bound(self.input@, self@.active_phrase());
        }
        let correct = copy_range(&self.input, 0, k);
        proof {
            assert(correct@ =~= self@.input.take(self@.correct_len() as int));
        }
        correct
    }

    /// Start a game: reset input, score and phrase index, and show the
    /// `Game` screen. The caller re-anchors its monotonic clock at the same
    /// instant.
    pub fn start_game(&mut self)
        requires
            old(self)@.wf(),
        ensures
            final(self)@.wf(),
            final(self)@ == old(self)@.started(),
    {
        self.current_screen = CurrentScreen::Game;
        self.input.clear();
        self.next_sentence = 0;
        self.point = 0;
    }

    /// End the game: fold the correct prefix of the pending input into the
    /// score and show the `Result` screen.
    pub fn end_game(&mut self)
        requires
            old(self)@.wf(),
            old(self)@.point + old(self)@.active_phrase().len() <= usize::MAX,
        ensures
            final(self)@.wf(),
            final(self)@ == old(self)@.ended(),
    {
        self.current_screen = CurrentScreen::Result;
        let k = longest_correct_prefix(&self.input, &self.sentences[self.next_sentence]);
        proof {
            lemma_prefix_len_bound(self.input@, self@.active_phrase());
        }
        self.point += k;
    }

    /// Apply one event to the session and report what the event loop must
    /// do next. The result is exactly what the transition table
    /// [`step_model`] prescribes.
    pub fn step(&mut self, event: GameEvent) -> (action: StepAction)
        requires
            old(self)@.wf(),
            old(self)@.point + old(self)@.active_phrase().len() <= usize::MAX,
        ensures
            final(self)@.wf(),
            final(self)@ == step_model(old(self)@, event).0,
            action == step_model(old(self)@, event).1,
    {
        match self.current_screen {
            CurrentScreen::Home => match event {
                GameEvent::Confirm => {
                    self.start_game();
                    StepAction::Continue
                },
                GameEvent::Cancel => StepAction::Quit,
                _ => StepAction::Continue,
            },
            CurrentScreen::Game => match event {
                GameEvent::Character(c) => {
                    self.input.push(c);
                    let done = self.check_input();
                    if done {
                        StepAction::DrainInput
                    } else {
                        StepAction::Continue
                    }
                },
                GameEvent::Backspace => {
                    self.input.pop();
                    StepAction::Continue
                },
                GameEvent::Cancel => {
                    self.end_game();
                    StepAction::Continue
                },
                GameEvent::Tick(elapsed) => {
                    if elapsed >= self.budget_ms {
                        self.end_game();
                    }
                    StepAction::Continue
                },
                GameEvent::Confirm => StepAction::Continue,
            },
            CurrentScreen::Result => match event {
                GameEvent::Confirm => {
                    self.current_screen = CurrentScreen::Home;
                    StepAction::Continue
                },
                GameEvent::Cancel => StepAction::Quit,
                _ => StepAction::Continue,
            },
        }
    }

    /// The score to display while playing: confirmed score plus the correct
    /// prefix of the phrase being typed.
    pub fn current_point(&self) -> (p: usize)
        requires
            self@.wf(),
            self@.point + self@.active_phrase().len() <= usize::MAX,
        ensures
            p == self@.point + self@.correct_len(),
    {
        let k = longest_correct_prefix(&self.input, &self.sentences[self.next_sentence]);
        proof {
            lemma_prefix_len_bound(self.input@, self@.active_phrase());
        }
        self.point + k
    }

    /// Milliseconds left on the clock, saturating at zero once the budget
    /// is spent.
    pub fn remaining_ms(&self, elapsed_ms: u64) -> (r: u64)
        ensures
            r == if elapsed_ms < self.budget_ms {
                self.budget_ms - elapsed_ms
            } else {
                0
            },
    {
        if elapsed_ms < self.budget_ms {
            self.budget_ms - elapsed_ms
        } else {
            0
        }
    }

    /// The three spans the renderer shows of the active phrase: the correct
    /// prefix of the input, the incorrect rest of the input, and the part of
    /// the phrase not yet typed over.
    pub fn phrase_spans(&self) -> (spans: (Vec<char>, Vec<char>, Vec<char>))
        requires
            self@.wf(),
        ensures
            spans.0@ == self@.input.take(self@.correct_len() as int),
            spans.1@ == self@.input.skip(self@.correct_len() as int),
            spans.2@ == self@.active_phrase().skip(
                if self@.input.len() < self@.active_phrase().len() {
                    self@.input.len() as int
                } else {
                    self@.active_phrase().len() as int
                },
            ),
    {
        let phrase = &self.sentences[self.next_sentence];
        let k = longest_correct_prefix(&self.input, phrase);
        proof {
            lemma_prefix_len_bound(self.input@, self@.active_phrase());
        }
        let typed = if self.input.len() < phrase.len() {
            self.input.len()
        } else {
            phrase.len()
        };
        let correct = copy_range(&self.input, 0, k);
        let wrong = copy_range(&self.input, k, self.input.len());
        let untyped = copy_range(phrase, typed, phrase.len());
        proof {
            assert(correct@ =~= self@.input.take(self@.correct_len() as int));
            assert(wrong@ =~= self@.input.skip(self@.correct_len() as int));
            assert(untyped@ =~= self@.active_phrase().skip(
                if self@.input.len() < self@.active_phrase().len() {
                    self@.input.len() as int
                } else {
                    self@.active_phrase().len() as int
                },
            ));
        }
        (correct, wrong, untyped)
    }
}

/// The characters of `v` from `from` (inclusive) to `to` (exclusive), as a
/// fresh vector.
fn copy_range(v: &Vec<char>, from: usize, to: usize) -> (out: Vec<char>)
    requires
        from <= to <= v@.len(),
    ensures
        out@ == v@.subrange(from as int, to as int),
{
    let mut out: Vec<char> = Vec::new();
    let mut i: usize = from;
    while i < to
        invariant
            from <= i <= to <= v@.len(),
            out@ == v@.subrange(from as int, i as int),
        decreases to - i,
    {
        let c = v[i];
        out.push(c);
        proof {
            assert(out@ =~= v@.subrange(from as int, i + 1 as int));
        }
        i += 1;
    }
    out
}

} // verus!
