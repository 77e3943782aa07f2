//! What each key does, in the list and in the search.

use vstd::prelude::*;

verus! {

/// `String::pop` takes the last character off the string and returns it; from an
/// empty string it takes nothing.
pub assume_specification[ String::pop ](s: &mut String) -> (c: Option<char>)
    ensures
        old(s)@.len() == 0 ==> c.is_none() && final(s)@ == old(s)@,
        old(s)@.len() > 0 ==> c == Some(old(s)@.last()) && final(s)@ == old(s)@.drop_last(),
;

/// A key as the player tells keys apart.
#[derive(Clone, Copy, Debug, PartialEq, Eq, Structural)]
pub enum Key {
    /// A key that gives a character; the enter key gives a line feed.
    Char(char),
    Up,
    Down,
    Esc,
    Backspace,
    /// Any other key.
    Other,
}

/// What the player is to do after a key.
#[derive(Clone, Copy, Debug, PartialEq, Eq, Structural)]
pub enum Command {
    TogglePause,
    /// Raise the volume by a tenth of the full one.
    VolumeUp,
    /// Lower the volume by a tenth of the full one.
    VolumeDown,
    /// Go to the next track, as asked for by the listener.
    PlayNext,
    PlayPrevious,
    /// Go to the repeat mode that follows.
    ToggleRepeat,
    ToggleShuffle,
    PlaySelected,
    /// Put the selected track into the queue.
    Enqueue,
    SelectPrevious,
    SelectNext,
    Quit,
    /// Show the empty search in place of the queue.
    StartSearch,
    /// Search for the text as it now stands.
    Search,
    /// Show the queue again in place of the search.
    EndSearch,
    Nothing,
}

/// What the keys have led to so far: whether a search is being typed, and its text.
pub struct Input {
    search_mode: bool,
    search_string: String,
}

/// The keys' state as plain values.
pub struct InputView {
    pub search_mode: bool,
    pub search_string: Seq<char>,
}

impl View for Input {
    type V = InputView;

    closed spec fn view(&self) -> InputView {
        InputView { search_mode: self.search_mode, search_string: self.search_string@ }
    }
}

/// What `key` asks for while no search is being typed.
pub open spec fn list_command(key: Key) -> Command {
    match key {
        Key::Char(c) => if c == ' ' {
            Command::TogglePause
        } else if c == '+' {
            Command::VolumeUp
        } else if c == '-' {
            Command::VolumeDown
        } else if c == 'n' {
            Command::PlayNext
        } else if c == 'p' {
            Command::PlayPrevious
        } else if c == 'r' {
            Command::ToggleRepeat
        } else if c == 's' {
            Command::ToggleShuffle
        } else if c == '\n' {
            Command::PlaySelected
        } else if c == 'a' {
            Command::Enqueue
        } else if c == '/' {
            Command::StartSearch
        } else if c == 'q' {
            Command::Quit
        } else {
            Command::Nothing
        },
        Key::Up => Command::SelectPrevious,
        Key::Down => Command::SelectNext,
        _ => Command::Nothing,
    }
}

/// What `key` asks for while a search is being typed.
pub open spec fn search_command(key: Key) -> Command {
    match key {
        Key::Char(c) => if c == '\n' {
            Command::EndSearch
        } else {
            Command::Search
        },
        Key::Esc => Command::EndSearch,
        Key::Backspace => Command::Search,
        _ => Command::Nothing,
    }
}

impl InputView {
    /// What `key` asks for.
    pub open spec fn command(self, key: Key) -> Command {
        if self.search_mode {
            search_command(key)
        } else {
            list_command(key)
        }
    }

    /// The state after `key`: the slash begins a search; in a search a character
    /// joins the text, backspace takes the last one off, and enter and escape end the
    /// search and forget the text.
    pub open spec fn after(self, key: Key) -> InputView {
        if !self.search_mode {
            InputView { search_mode: list_command(key) == Command::StartSearch, ..self }
        } else {
            match key {
                Key::Char(c) => if c == '\n' {
                    InputView { search_mode: false, search_string: Seq::empty() }
                } else {
                    InputView { search_string: self.search_string.push(c), ..self }
                },
                Key::Esc => InputView { search_mode: false, search_string: Seq::empty() },
                Key::Backspace => if self.search_string.len() == 0 {
                    self
                } else {
                    InputView { search_string: self.search_string.drop_last(), ..self }
                },
                _ => self,
            }
        }
    }
}

impl Input {
    /// The state before any key: no search, no text.
    pub fn new() -> (input: Input)
        ensures
            input@ == (InputView { search_mode: false, search_string: Seq::empty() }),
    {
        Input { search_mode: false, search_string: String::new() }
    }

    /// Whether a search is being typed.
    pub fn search_mode(&self) -> (on: bool)
        ensures
            on == self@.search_mode,
    {
        self.search_mode
    }

    /// The text of the search as it now stands.
    pub fn search_string(&self) -> (text: &str)
        ensures
            text@ == self@.search_string,
    {
        self.search_string.as_str()
    }

    /// Takes the key `key`, and says what the player is to do.
    pub fn press(&mut self, key: Key) -> (command: Command)
        ensures
            command == old(self)@.command(key),
            final(self)@ == old(self)@.after(key),
    {
        if !self.search_mode {
            let command = command_for(key);
            if let Command::StartSearch = command {
                self.search_mode = true;
            }
            return command;
        }
        match key {
            Key::Char(c) => {
                if c == '\n' {
                    self.search_string = String::new();
                    self.search_mode = false;
                    Command::EndSearch
                } else {
                    self.search_string.push(c);
                    Command::Search
                }
            },
            Key::Esc => {
                self.search_string = String::new();
                self.search_mode = false;
                Command::EndSearch
            },
            Key::Backspace => {
                self.search_string.pop();
                Command::Search
            },
            _ => Command::Nothing,
        }
    }
}

/// What `key` asks for while no search is being typed: space pauses, plus and minus
/// change the volume, `n` and `p` go to the next and the previous track, `r` changes
/// the repeat mode, `s` the shuffle, enter plays the selected track, `a` puts it into
/// the queue, the slash begins a search, up and down move the cursor, `q` quits.
pub fn command_for(key: Key) -> (command: Command)
    ensures
        command == list_command(key),
{
    match key {
        Key::Char(c) => {
            if c == ' ' {
                Command::TogglePause
            } else if c == '+' {
                Command::VolumeUp
            } else if c == '-' {
                Command::VolumeDown
            } else if c == 'n' {
                Command::PlayNext
            } else if c == 'p' {
                Command::PlayPrevious
            } else if c == 'r' {
                Command::ToggleRepeat
            } else if c == 's' {
                Command::ToggleShuffle
            } else if c == '\n' {
                Command::PlaySelected
            } else if c == 'a' {
                Command::Enqueue
            } else if c == '/' {
                Command::StartSearch
            } else if c == 'q' {
                Command::Quit
            } else {
                Command::Nothing
            }
        },
        Key::Up => Command::SelectPrevious,
        Key::Down => Command::SelectNext,
        _ => Command::Nothing,
    }
}

} // verus!
