//! The screen state machine: three screens, a menu cursor, a text buffer and
//! an editing flag, driven by keyboard events.

use vstd::prelude::*;
use crate::text::{blank, is_blank};

verus! {

/// Which of the three views is drawn.
#[derive(Clone, Copy, PartialEq, Eq, Structural, Debug)]
pub enum Screen {
    List,
    Status,
    Input,
}

/// A keyboard event as the state machine reads it. The terminal layer maps
/// its own key type onto this one; keys the machine never reacts to arrive
/// as `Other`.
#[derive(Clone, Copy, PartialEq, Eq, Structural, Debug)]
pub enum Key {
    Char(char),
    Enter,
    Esc,
    Backspace,
    Other,
}

/// The mathematical image of the application state, over sequences of
/// characters instead of heap strings.
pub ghost struct AppModel {
    pub screen: Screen,
    pub cursor: nat,
    pub input: Seq<char>,
    pub editing: bool,
    pub exit: bool,
    pub items: Seq<Seq<char>>,
}

/// The cursor position after one step down: forward by one, wrapping past
/// the last item to the front; pinned to zero on an empty menu.
pub open spec fn down_index(cursor: nat, len: nat) -> nat {
    if len == 0 {
        0
    } else if cursor == (len - 1) as nat {
        0
    } else {
        cursor + 1
    }
}

/// The cursor position after one step up: back by one, wrapping past the
/// front to the last item; pinned to zero on an empty menu.
pub open spec fn up_index(cursor: nat, len: nat) -> nat {
    if cursor == 0 {
        if len == 0 {
            0
        } else {
            (len - 1) as nat
        }
    } else {
        (cursor - 1) as nat
    }
}

/// The state after a confirm: the first menu entry opens the commit-message
/// editor, the second the status view; any other cursor value changes
/// nothing.
pub open spec fn confirm_step(m: AppModel) -> AppModel {
    if m.cursor == 0 {
        AppModel { screen: Screen::Input, editing: true, ..m }
    } else if m.cursor == 1 {
        AppModel { screen: Screen::Status, ..m }
    } else {
        m
    }
}

/// The state after a submit: on a non-blank buffer the buffer empties,
/// editing ends and the view returns to the menu; a blank buffer changes
/// nothing.
pub open spec fn submit_step(m: AppModel) -> AppModel {
    if is_blank(m.input) {
        m
    } else {
        AppModel { screen: Screen::List, input: Seq::empty(), editing: false, ..m }
    }
}

/// The full transition relation of the machine: what one key event does to
/// the state, in editing mode and outside it.
pub open spec fn step(m: AppModel, key: Key) -> AppModel {
    if m.editing {
        match key {
            Key::Enter => submit_step(m),
            Key::Esc => AppModel { editing: false, ..m },
            Key::Char(c) => AppModel { input: m.input.push(c), ..m },
            Key::Backspace => AppModel {
                input: if m.input.len() == 0 {
                    m.input
                } else {
                    m.input.drop_last()
                },
                ..m
            },
            Key::Other => m,
        }
    } else {
        match key {
            Key::Char(c) => if c == 'q' {
                AppModel { exit: true, ..m }
            } else if c == 'j' {
                AppModel { cursor: down_index(m.cursor, m.items.len()), ..m }
            } else if c == 'k' {
                AppModel { cursor: up_index(m.cursor, m.items.len()), ..m }
            } else {
                m
            },
            Key::Enter => confirm_step(m),
            Key::Esc => AppModel { screen: Screen::List, ..m },
            _ => m,
        }
    }
}

/// The command a key event asks the outside world to run: a submit on a
/// non-blank buffer hands out the buffered commit message; nothing else
/// does.
pub open spec fn step_command(m: AppModel, key: Key) -> Option<Seq<char>> {
    if m.editing && key == Key::Enter && !is_blank(m.input) {
        Some(m.input)
    } else {
        None
    }
}

/// The application state: the current screen, the menu cursor, the menu
/// labels, the commit-message buffer and the two flags the event loop reads.
pub struct App {
    pub cursor: usize,
    pub input: String,
    pub editing: bool,
    pub exit: bool,
    pub items: Vec<String>,
    pub current_screen: Screen,
}

impl App {
    /// The state as the contracts speak of it.
    pub open spec fn model(self) -> AppModel {
        AppModel {
            screen: self.current_screen,
            cursor: self.cursor as nat,
            input: self.input@,
            editing: self.editing,
            exit: self.exit,
            items: self.items.deep_view(),
        }
    }

    /// The cursor stays inside the menu, and sits at zero while the menu is
    /// empty.
    pub open spec fn wf(self) -> bool {
        if self.items@.len() == 0 {
            self.cursor == 0
        } else {
            (self.cursor as nat) < self.items@.len()
        }
    }

    /// Move the menu cursor one item down, wrapping to the first item past
    /// the last.
    pub fn move_cursor_down(&mut self)
        requires
            old(self).wf(),
        ensures
            final(self).model() == (AppModel {
                cursor: down_index(old(self).model().cursor, old(self).model().items.len()),
                ..old(self).model()
            }),
            final(self).wf(),
    {
        let len = self.items.len();
        if len == 0 || self.cursor == len - 1 {
            self.cursor = 0;
        } else {
            self.cursor = self.cursor + 1;
        }
    }

    /// Move the menu cursor one item up, wrapping to the last item past the
    /// first.
    pub fn move_cursor_up(&mut self)
        requires
            old(self).wf(),
        ensures
            final(self).model() == (AppModel {
                cursor: up_index(old(self).model().cursor, old(self).model().items.len()),
                ..old(self).model()
            }),
            final(self).wf(),
    {
        if self.cursor == 0 {
            let len = self.items.len();
            self.cursor = if len == 0 {
                0
            } else {
                len - 1
            };
        } else {
            self.cursor = self.cursor - 1;
        }
    }

    /// Append one typed character to the commit-message buffer.
    pub fn input_push(&mut self, c: char)
        ensures
            final(self).model() == (AppModel {
                input: old(self).model().input.push(c),
                ..old(self).model()
            }),
    {
        self.input.push(c);
    }

    /// Dispatch the confirm key on the menu: the first entry opens the
    /// commit-message editor, the second the status view, and any other
    /// cursor value changes nothing.
    pub fn confirm(&mut self)
        ensures
            final(self).model() == confirm_step(old(self).model()),
            old(self).cursor == 0 ==> final(self).current_screen == Screen::Input
                && final(self).editing,
            old(self).cursor == 1 ==> final(self).current_screen == Screen::Status,
    {
        if self.cursor == 0 {
            self.current_screen = Screen::Input;
            self.editing = true;
        } else if self.cursor == 1 {
            self.current_screen = Screen::Status;
        }
    }

    /// Submit the commit-message buffer. On a non-blank buffer the message
    /// is handed back to be committed, the buffer empties, editing ends and
    /// the view returns to the menu; a blank buffer asks for nothing and
    /// changes nothing.
    pub fn submit(&mut self) -> (cmd: Option<String>)
        ensures
            final(self).model() == submit_step(old(self).model()),
            is_blank(old(self).input@) ==> cmd is None && *final(self) == *old(self),
            !is_blank(old(self).input@) ==> (cmd matches Some(msg) && msg@ == old(self).input@),
    {
        if !blank(self.input.as_str()) {
            let msg = self.input.clone();
            self.input = String::new();
            self.editing = false;
            self.current_screen = Screen::List;
            Some(msg)
        } else {
            None
        }
    }

    /// Feed one key event to the machine. The state moves along the
    /// transition relation, and the returned command is the commit message
    /// to run, on the one event that asks for one.
    pub fn handle_key(&mut self, key: Key) -> (cmd: Option<String>)
        requires
            old(self).wf(),
        ensures
            final(self).model() == step(old(self).model(), key),
            final(self).wf(),
            step_command(old(self).model(), key) is None ==> cmd is None,
            step_command(old(self).model(), key) matches Some(m) ==> (cmd matches Some(s)
                && s@ == m),
    {
        if self.editing {
            match key {
                Key::Enter => {
                    return self.submit();
                },
                Key::Esc => {
                    self.editing = false;
                },
                Key::Char(c) => {
                    self.input_push(c);
                },
                Key::Backspace => {
                    self.input.pop();
                },
                Key::Other => {},
            }
        } else {
            match key {
                Key::Char(c) => {
                    if c == 'q' {
                        self.exit = true;
                    } else if c == 'j' {
                        self.move_cursor_down();
                    } else if c == 'k' {
                        self.move_cursor_up();
                    }
                },
                Key::Enter => {
                    self.confirm();
                },
                Key::Esc => {
                    self.current_screen = Screen::List;
                },
                _ => {},
            }
        }
        None
    }
}

impl Default for App {
    /// The state at process start: menu view, cursor on the first of the
    /// two fixed menu entries, empty buffer, no flags set.
    fn default() -> (a: App)
        ensures
            a.current_screen == Screen::List,
            a.cursor == 0,
            a.input@ == Seq::<char>::empty(),
            !a.editing,
            !a.exit,
            a.items@.len() == 2,
            a.items@[0]@ == "Push"@,
            a.items@[1]@ == "Status"@,
            a.wf(),
    {
        let mut items: Vec<String> = Vec::new();
        items.push(String::from_str("Push"));
        items.push(String::from_str("Status"));
        App {
            cursor: 0,
            input: String::new(),
            editing: false,
            exit: false,
            items,
            current_screen: Screen::List,
        }
    }
}

/// Moving the cursor one step down and then one step up, or up and then
/// down, returns every state of a non-empty menu to where it started.
pub proof fn lemma_cursor_round_trip(cursor: nat, len: nat)
    requires
        len > 0,
        cursor < len,
    ensures
        up_index(down_index(cursor, len), len) == cursor,
        down_index(up_index(cursor, len), len) == cursor,
{
}

/// The same round trip over whole states: outside editing mode, the down
/// key followed by the up key (or the reverse) leaves the state unchanged.
pub proof fn lemma_move_round_trip(m: AppModel)
    requires
        !m.editing,
        m.items.len() > 0,
        m.cursor < m.items.len(),
    ensures
        step(step(m, Key::Char('j')), Key::Char('k')) == m,
        step(step(m, Key::Char('k')), Key::Char('j')) == m,
{
    lemma_cursor_round_trip(m.cursor, m.items.len());
}

/// The cancel key outside editing mode always lands on the menu view, and a
/// second cancel changes nothing more.
pub proof fn lemma_cancel_idempotent(m: AppModel)
    requires
        !m.editing,
    ensures
        step(m, Key::Esc).screen == Screen::List,
        step(step(m, Key::Esc), Key::Esc) == step(m, Key::Esc),
{
}

} // verus!
