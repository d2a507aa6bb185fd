//! The view computation: from the application state to the text of one
//! frame. Drawing the frame on a terminal is left to the caller.

use vstd::prelude::*;
use crate::state::{App, Screen};

verus! {

/// What one frame shows: a bordered panel's title, its text lines, and the
/// menu row to emphasise, when the frame has one.
pub struct FrameModel {
    pub title: String,
    pub lines: Vec<String>,
    pub highlight: Option<usize>,
}

impl App {
    /// The text of the menu view: one line per menu item, the cursor's row
    /// marked with an arrow, the others indented to align.
    pub fn list_lines(&self) -> (lines: Vec<String>)
        ensures
            lines@.len() == self.items@.len(),
            forall|i: int|
                0 <= i < lines@.len() ==> lines@[i]@ == (if i == self.cursor {
                    " > "@ + self.items@[i]@
                } else {
                    "  "@ + self.items@[i]@
                }),
    {
        let mut lines: Vec<String> = Vec::new();
        let mut i: usize = 0;
        while i < self.items.len()
            invariant
                i <= self.items@.len(),
                lines@.len() == i,
                forall|j: int|
                    0 <= j < i ==> lines@[j]@ == (if j == self.cursor {
                        " > "@ + self.items@[j]@
                    } else {
                        "  "@ + self.items@[j]@
                    }),
            decreases self.items@.len() - i,
        {
            let mut line = if i == self.cursor {
                String::from_str(" > ")
            } else {
                String::from_str("  ")
            };
            line.append(self.items[i].as_str());
            lines.push(line);
            i += 1;
        }
        lines
    }

    /// The frame for the current screen. `status` is the captured output of
    /// the status query; the Status view shows it verbatim, the other views
    /// ignore it. The menu view shows the items with the cursor's row both
    /// marked and named for emphasis; the editor view shows the buffer
    /// verbatim.
    pub fn draw(&self, status: &str) -> (f: FrameModel)
        ensures
            self.current_screen == Screen::List ==> {
                &&& f.title@ == " Home "@
                &&& f.lines@.len() == self.items@.len()
                &&& (forall|i: int|
                    0 <= i < f.lines@.len() ==> f.lines@[i]@ == (if i == self.cursor {
                        " > "@ + self.items@[i]@
                    } else {
                        "  "@ + self.items@[i]@
                    }))
                &&& f.highlight == Some(self.cursor)
            },
            self.current_screen == Screen::Status ==> {
                &&& f.title@ == " Git Status "@
                &&& f.lines@.len() == 1
                &&& f.lines@[0]@ == status@
                &&& f.highlight is None
            },
            self.current_screen == Screen::Input ==> {
                &&& f.title@ == " Commit Message "@
                &&& f.lines@.len() == 1
                &&& f.lines@[0]@ == self.input@
                &&& f.highlight is None
            },
    {
        match self.current_screen {
            Screen::List => FrameModel {
                title: String::from_str(" Home "),
                lines: self.list_lines(),
                highlight: Some(self.cursor),
            },
            Screen::Status => {
                let mut lines: Vec<String> = Vec::new();
                lines.push(String::from_str(status));
                FrameModel { title: String::from_str(" Git Status "), lines, highlight: None }
            },
            Screen::Input => {
                let mut lines: Vec<String> = Vec::new();
                lines.push(self.input.clone());
                FrameModel { title: String::from_str(" Commit Message "), lines, highlight: None }
            },
        }
    }
}

} // verus!
