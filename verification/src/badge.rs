//! The game as the badge firmware drives it: a clock, a two-item menu, and the
//! three front buttons.
//!
//! The host owns the screen, the buttons and the clock. It hands the game the
//! time through `start` and `tick` and each key press through `key`, and reads
//! back a [`GameAction`]. Drawing is the application's business; this module
//! only decides.

use vstd::prelude::*;

use crate::{GameState, GameStateModel};

verus! {

// -- Buttons ------------------------------------------------------------------
// The three front buttons, in physical left-to-right order.

/// Left button: move the cursor.
pub const KEY_SELECT: char = '\u{2190}';

/// Center button: act on the current selection.
pub const KEY_OK: char = '\u{1F525}';

/// Right button: back out.
pub const KEY_CANCEL: char = '\u{2192}';

/// Number of menu items.
pub const ITEM_COUNT: usize = 2;

/// Index of the item that leaves the game.
pub const ITEM_END: usize = 1;

/// How long the acknowledgement stays up.
pub const MESSAGE_MS: u64 = 2000;

/// What the host should do after handing a key to the game.
#[derive(Debug, Clone, Copy, PartialEq, Eq, Structural)]
pub enum GameAction {
    /// Keep the game running.
    Continue,
    /// Leave the game and return to the mode that called it.
    Exit,
}

/// What a [`VirtualPet`] holds.
pub struct VirtualPetModel {
    pub state: GameStateModel,
    pub cursor: Option<usize>,
    pub message: Option<(Seq<char>, u64)>,
    pub now_ms: u64,
}

pub struct VirtualPet {
    state: GameState,
    /// `None` means nothing is selected -- the state Cancel returns you to.
    cursor: Option<usize>,
    /// Text to show at the bottom, and the deadline after which it disappears.
    message: Option<(String, u64)>,
    /// Latest clock reading, so that `key()` can set a deadline without being
    /// handed the time itself.
    now_ms: u64,
}

impl View for VirtualPet {
    type V = VirtualPetModel;

    closed spec fn view(&self) -> VirtualPetModel {
        VirtualPetModel {
            state: self.state@,
            cursor: self.cursor,
            message: match self.message {
                Some(m) => Some((m.0@, m.1)),
                None => None,
            },
            now_ms: self.now_ms,
        }
    }
}

/// The acknowledgement the first menu item shows.
pub open spec fn greeting() -> Seq<char> {
    "Hello, world!"@
}

impl VirtualPetModel {
    /// The cursor, if any, is on a menu item.
    pub open spec fn wf(self) -> bool {
        self.cursor matches Some(i) ==> i < ITEM_COUNT
    }

    /// The game after a key press, and what the host should do next.
    pub open spec fn after_key(self, k: char) -> (GameAction, VirtualPetModel) {
        if k == KEY_SELECT {
            (
                GameAction::Continue,
                VirtualPetModel {
                    cursor: Some(
                        match self.cursor {
                            Some(i) => ((i + 1) % (ITEM_COUNT as int)) as usize,
                            None => 0,
                        },
                    ),
                    ..self
                },
            )
        } else if k == KEY_CANCEL {
            // Cancel backs out one step at a time: first it drops the
            // selection, then it hands the badge back.
            match self.cursor {
                Some(_) => (GameAction::Continue, VirtualPetModel { cursor: None, ..self }),
                None => (GameAction::Exit, self),
            }
        } else if k == KEY_OK {
            match self.cursor {
                Some(i) => if i == ITEM_END {
                    (GameAction::Exit, self)
                } else {
                    (
                        GameAction::Continue,
                        VirtualPetModel {
                            message: Some((greeting(), (self.now_ms + MESSAGE_MS) as u64)),
                            ..self
                        },
                    )
                },
                None => (GameAction::Continue, self),
            }
        } else {
            (GameAction::Continue, self)
        }
    }
}

/// What the three buttons do. Only two presses hand the badge back -- Cancel
/// with nothing selected, and OK on the item that ends the game -- and those
/// change nothing else. Select moves the cursor to the next item, wrapping
/// from the last to the first, and selects the first when nothing is. Cancel
/// with a selection drops it. OK on the other item puts the greeting up for
/// `MESSAGE_MS` from now. Any other key is ignored.
pub proof fn lemma_buttons(m: VirtualPetModel, k: char)
    requires
        m.wf(),
    ensures
        (m.after_key(k).0 == GameAction::Exit) == ((k == KEY_CANCEL && m.cursor is None) || (k
            == KEY_OK && m.cursor == Some(ITEM_END))),
        m.after_key(k).0 == GameAction::Exit ==> m.after_key(k).1 == m,
        m.after_key(k).1.wf(),
        m.after_key(k).1.state == m.state && m.after_key(k).1.now_ms == m.now_ms,
        k == KEY_SELECT ==> m.after_key(k).1.cursor == Some(
            match m.cursor {
                Some(i) => if i + 1 < ITEM_COUNT {
                    (i + 1) as usize
                } else {
                    0usize
                },
                None => 0usize,
            },
        ),
        k == KEY_CANCEL && m.cursor is Some ==> m.after_key(k).1.cursor is None,
        k == KEY_OK && m.cursor == Some(0usize) ==> m.after_key(k).1.message == Some(
            (greeting(), (m.now_ms + MESSAGE_MS) as u64),
        ) && m.after_key(k).1.cursor == m.cursor,
        k != KEY_OK ==> m.after_key(k).1.message == m.message,
        k != KEY_SELECT && k != KEY_CANCEL && k != KEY_OK ==> m.after_key(k) == (
        GameAction::Continue, m),
{
}

impl Default for VirtualPet {
    fn default() -> (r: Self)
        ensures
            r@.cursor == Some(0usize),
            r@.message is None,
            r@.now_ms == 0,
            r@.state == (GameStateModel { start_ms: 0, now_ms: 0 }),
    {
        Self::new()
    }
}

impl VirtualPet {
    pub fn new() -> (r: Self)
        ensures
            r@.cursor == Some(0usize),
            r@.message is None,
            r@.now_ms == 0,
            r@.state == (GameStateModel { start_ms: 0, now_ms: 0 }),
            r@.wf(),
    {
        VirtualPet { state: GameState::new(), cursor: Some(0), message: None, now_ms: 0 }
    }

    /// Called when the game is entered: take the time reference and reset the
    /// menu.
    pub fn start(&mut self, now_ms: u64)
        ensures
            final(self)@.state == (GameStateModel { start_ms: now_ms, now_ms }),
            final(self)@.cursor == Some(0usize),
            final(self)@.message is None,
            final(self)@.now_ms == now_ms,
    {
        self.state.start(now_ms);
        self.cursor = Some(0);
        self.message = None;
        self.now_ms = now_ms;
    }

    /// Called periodically: advance the clock, and expire the acknowledgement
    /// once its deadline has passed.
    pub fn tick(&mut self, now_ms: u64)
        ensures
            final(self)@.state.start_ms == old(self)@.state.start_ms,
            final(self)@.state.now_ms == (if now_ms < old(self)@.state.start_ms {
                old(self)@.state.start_ms
            } else {
                now_ms
            }),
            final(self)@.cursor == old(self)@.cursor,
            final(self)@.now_ms == now_ms,
            final(self)@.message == (match old(self)@.message {
                Some(m) => if now_ms >= m.1 {
                    None
                } else {
                    Some(m)
                },
                None => None,
            }),
    {
        self.state.tick(now_ms);
        self.now_ms = now_ms;
        let expired = match &self.message {
            Some(m) => now_ms >= m.1,
            None => false,
        };
        if expired {
            self.message = None;
        }
    }

    /// A key press. Keys the menu does not use are ignored.
    pub fn key(&mut self, k: char) -> (r: GameAction)
        requires
            old(self)@.wf(),
            k == KEY_OK && old(self)@.cursor == Some(0usize) ==> old(self)@.now_ms + MESSAGE_MS
                <= u64::MAX,
        ensures
            (r, final(self)@) == old(self)@.after_key(k),
            final(self)@.wf(),
    {
        if k == KEY_SELECT {
            self.cursor = Some(
                match self.cursor {
                    Some(i) => (i + 1) % ITEM_COUNT,
                    None => 0,
                },
            );
        } else if k == KEY_CANCEL {
            match self.cursor {
                Some(_) => self.cursor = None,
                None => return GameAction::Exit,
            }
        } else if k == KEY_OK {
            match self.cursor {
                Some(i) => {
                    if i == ITEM_END {
                        return GameAction::Exit;
                    }
                    self.message = Some(("Hello, world!".to_owned(), self.now_ms + MESSAGE_MS));
                },
                None => {},
            }
        }
        GameAction::Continue
    }

    /// The in-game clock, for the screen.
    pub fn state(&self) -> (r: &GameState)
        ensures
            r@ == self@.state,
    {
        &self.state
    }

    /// The latest clock reading handed to the game.
    pub fn now_ms(&self) -> (r: u64)
        ensures
            r == self@.now_ms,
    {
        self.now_ms
    }

    /// The selected menu item, if any.
    pub fn cursor(&self) -> (r: Option<usize>)
        ensures
            r == self@.cursor,
    {
        self.cursor
    }

    /// The acknowledgement on show, if any.
    pub fn message(&self) -> (r: Option<&str>)
        ensures
            r matches Some(t) ==> self@.message matches Some(m) && t@ == m.0,
            r is None <==> self@.message is None,
    {
        match &self.message {
            Some(m) => Some(m.0.as_str()),
            None => None,
        }
    }
}

} // verus!
