//! The state of the terminal application and how input changes it.

use vstd::prelude::*;

verus! {

/// What the application is showing.
#[derive(Clone, Copy, Debug, PartialEq, Eq, Structural)]
pub enum PrimaryMode {
    Search,
    ViewArticle,
    CreateArticle,
}

/// What one poll of the terminal brought.
#[derive(Clone, Copy, Debug, PartialEq, Eq, Structural)]
pub enum Input {
    /// A key that stands for a character was pressed.
    Key(char),
    /// Something else happened: another key, the mouse, a resize.
    Other,
    /// The poll timed out.
    Nothing,
}

/// Whether the event loop goes on.
#[derive(Clone, Copy, Debug, PartialEq, Eq, Structural)]
pub enum Flow {
    Continue,
    Exit,
}

/// The mathematical value of an `AppState`.
pub struct AppStateView<D> {
    pub db: D,
    pub mode: PrimaryMode,
    pub quit: bool,
}

impl<D> AppStateView<D> {
    /// The state after `input`: the key `q` asks to quit, and nothing else
    /// changes anything.
    pub open spec fn after(self, input: Input) -> AppStateView<D> {
        AppStateView { quit: self.quit || input == Input::Key('q'), ..self }
    }
}

/// The state of the application: the store it works on, what it shows,
/// and whether the user asked to quit.
pub struct AppState<D> {
    db: D,
    mode: PrimaryMode,
    quit: bool,
}

impl<D> View for AppState<D> {
    type V = AppStateView<D>;

    closed spec fn view(&self) -> AppStateView<D> {
        AppStateView { db: self.db, mode: self.mode, quit: self.quit }
    }
}

impl<D> AppState<D> {
    /// The state at the start: searching, with no wish to quit.
    pub fn new(db: D) -> (state: AppState<D>)
        ensures
            state@ == (AppStateView { db, mode: PrimaryMode::Search, quit: false }),
    {
        Self { db, mode: PrimaryMode::Search, quit: false }
    }

    /// The store that the application works on.
    pub fn db(&self) -> (db: &D)
        ensures
            *db == self@.db,
    {
        &self.db
    }

    /// What the application is showing.
    pub fn mode(&self) -> (mode: PrimaryMode)
        ensures
            mode == self@.mode,
    {
        self.mode
    }

    /// Whether the user has asked to quit.
    pub fn should_quit(&self) -> (quit: bool)
        ensures
            quit == self@.quit,
    {
        self.quit
    }

    /// Takes in what a poll brought, and says whether the loop goes on: it
    /// ends once the user has asked to quit.
    pub fn handle(&mut self, input: Input) -> (flow: Flow)
        ensures
            final(self)@ == old(self)@.after(input),
            flow == if final(self)@.quit {
                Flow::Exit
            } else {
                Flow::Continue
            },
    {
        match input {
            Input::Key(key) => {
                if key == 'q' {
                    self.quit = true;
                }
            },
            _ => {},
        }
        if self.quit {
            Flow::Exit
        } else {
            Flow::Continue
        }
    }
}

/// How long the next poll may wait: what is left of the tick, and nothing
/// once the tick is over. Both times are in milliseconds.
pub fn poll_timeout(tick_rate: u64, elapsed: u64) -> (timeout: u64)
    ensures
        timeout == if elapsed <= tick_rate {
            tick_rate - elapsed
        } else {
            0
        },
{
    match tick_rate.checked_sub(elapsed) {
        Some(left) => left,
        None => 0,
    }
}

} // verus!
