//! State of the terminal interface: the tab bar and the text-entry screen.
use vstd::prelude::*;

verus! {

/// A key press, as the interface sees it.
#[derive(Clone, Copy, Debug, PartialEq, Eq, Structural)]
pub enum Key {
    Char(char),
    Enter,
    Backspace,
    Esc,
    Left,
    Right,
    Other,
}

/// The tabs shown and the one selected.
pub struct TabState<'a> {
    pub titles: Vec<&'a str>,
    pub index: usize,
}

impl<'a> TabState<'a> {
    pub open spec fn wf(&self) -> bool {
        self.index < self.titles@.len()
    }

    /// Tabs with the first one selected.
    pub fn new(titles: Vec<&'a str>) -> (r: TabState<'a>)
        ensures
            r.titles@ == titles@,
            r.index == 0,
    {
        TabState { titles, index: 0 }
    }

    /// Selects the next tab, wrapping from the last to the first.
    pub fn next(&mut self)
        requires
            old(self).wf(),
        ensures
            final(self).wf(),
            final(self).titles@ == old(self).titles@,
            final(self).index == (old(self).index + 1) % (old(self).titles@.len() as int),
    {
        let n = self.titles.len();
        self.index = (self.index + 1) % n;
    }

    /// Selects the previous tab, wrapping from the first to the last.
    pub fn prev(&mut self)
        requires
            old(self).wf(),
        ensures
            final(self).wf(),
            final(self).titles@ == old(self).titles@,
            final(self).index == if old(self).index > 0 {
                old(self).index - 1
            } else {
                old(self).titles@.len() - 1
            },
    {
        if self.index > 0 {
            self.index -= 1;
        } else {
            self.index = self.titles.len() - 1;
        }
    }
}

#[derive(Clone, Copy, Debug, PartialEq, Eq, Structural)]
pub enum InputMode {
    Normal,
    Editing,
}

/// The text-entry screen: the line being typed, whether keys go into it, and
/// the lines entered so far.
pub struct App {
    pub input: Vec<char>,
    pub input_mode: InputMode,
    pub messages: Vec<Vec<char>>,
}

impl Default for App {
    fn default() -> (r: App)
        ensures
            r.input@.len() == 0,
            r.input_mode == InputMode::Normal,
            r.messages@.len() == 0,
    {
        App { input: Vec::new(), input_mode: InputMode::Normal, messages: Vec::new() }
    }
}

/// Whether `key` ends the session.
pub open spec fn quits(mode: InputMode, key: Key) -> bool {
    mode == InputMode::Normal && key == Key::Char('q')
}

impl App {
    /// Handles one key. In normal mode `i` starts editing and `q` quits; while
    /// editing, characters are typed, backspace deletes the last one, enter
    /// moves the line into the messages and escape stops editing. Returns
    /// whether the session ends.
    pub fn on_key(&mut self, key: Key) -> (quit: bool)
        ensures
            quit == quits(old(self).input_mode, key),
            old(self).input_mode == InputMode::Normal ==> {
                &&& final(self).input@ == old(self).input@
                &&& final(self).messages@ == old(self).messages@
                &&& final(self).input_mode == if key == Key::Char('i') {
                    InputMode::Editing
                } else {
                    InputMode::Normal
                }
            },
            old(self).input_mode == InputMode::Editing ==> match key {
                Key::Enter => {
                    &&& final(self).input@.len() == 0
                    &&& final(self).messages@.len() == old(self).messages@.len() + 1
                    &&& final(self).messages@.last()@ == old(self).input@
                    &&& final(self).messages@.drop_last() == old(self).messages@
                    &&& final(self).input_mode == InputMode::Editing
                },
                Key::Char(c) => {
                    &&& final(self).input@ == old(self).input@.push(c)
                    &&& final(self).messages@ == old(self).messages@
                    &&& final(self).input_mode == InputMode::Editing
                },
                Key::Backspace => {
                    &&& final(self).input@ == if old(self).input@.len() > 0 {
                        old(self).input@.drop_last()
                    } else {
                        old(self).input@
                    }
                    &&& final(self).messages@ == old(self).messages@
                    &&& final(self).input_mode == InputMode::Editing
                },
                Key::Esc => {
                    &&& final(self).input@ == old(self).input@
                    &&& final(self).messages@ == old(self).messages@
                    &&& final(self).input_mode == InputMode::Normal
                },
                _ => {
                    &&& final(self).input@ == old(self).input@
                    &&& final(self).messages@ == old(self).messages@
                    &&& final(self).input_mode == InputMode::Editing
                },
            },
    {
        match self.input_mode {
            InputMode::Normal => match key {
                Key::Char('i') => {
                    self.input_mode = InputMode::Editing;
                    false
                },
                Key::Char('q') => true,
                _ => false,
            },
            InputMode::Editing => {
                match key {
                    Key::Enter => {
                        let mut line: Vec<char> = Vec::new();
                        std::mem::swap(&mut line, &mut self.input);
                        self.messages.push(line);
                    },
                    Key::Char(c) => {
                        self.input.push(c);
                    },
                    Key::Backspace => {
                        self.input.pop();
                    },
                    Key::Esc => {
                        self.input_mode = InputMode::Normal;
                    },
                    _ => {},
                }
                false
            },
        }
    }
}

} // verus!
