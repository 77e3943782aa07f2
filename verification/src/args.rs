//! The options of the command line.

use crate::repeat::{match_repeat, repeat_of, Repeat};
use crate::text::{chars_of, texts};
use vstd::prelude::*;

verus! {

/// What the command line asks for.
#[derive(Clone, Debug, PartialEq, Eq)]
pub struct Options {
    /// Show the help and do nothing else.
    pub help: bool,
    pub repeat: Repeat,
    pub shuffle: bool,
    /// The directory with the music.
    pub path: String,
    /// The volume as it was written, in hundredths of the full one, if one was given.
    pub volume: Option<String>,
}

/// The options as plain values.
pub struct OptionsView {
    pub help: bool,
    pub repeat: Repeat,
    pub shuffle: bool,
    pub path: Seq<char>,
    pub volume: Option<Seq<char>>,
}

impl View for Options {
    type V = OptionsView;

    open spec fn view(&self) -> OptionsView {
        OptionsView {
            help: self.help,
            repeat: self.repeat,
            shuffle: self.shuffle,
            path: self.path@,
            volume: match self.volume {
                Some(v) => Some(v@),
                None => None,
            },
        }
    }
}

/// The flag with the letter `letter`.
pub open spec fn flag(letter: char) -> Seq<char> {
    seq!['-', letter]
}

/// Whether the flag `arg` takes the argument behind it as its value.
pub open spec fn takes_value(arg: Seq<char>) -> bool {
    arg == flag('r') || arg == flag('v') || arg == flag('d')
}

/// The options without any flag: no repeat, no shuffle, the music in the present
/// directory, the volume left as it is.
pub open spec fn default_options() -> OptionsView {
    OptionsView { help: false, repeat: Repeat::Off, shuffle: false, path: seq!['.'], volume: None }
}

/// `options` after the flag `arg` with the value `value`: `-r` sets the repeat mode,
/// Off where the value names none; `-v` sets the volume; `-d` sets the directory.
pub open spec fn with_value(options: OptionsView, arg: Seq<char>, value: Seq<char>) -> OptionsView {
    if arg == flag('r') {
        OptionsView {
            repeat: match repeat_of(value) {
                Some(r) => r,
                None => Repeat::Off,
            },
            ..options
        }
    } else if arg == flag('v') {
        OptionsView { volume: Some(value), ..options }
    } else {
        OptionsView { path: value, ..options }
    }
}

/// `options` after the arguments from place `at` on. `-h` asks for the help and ends
/// the reading; `-s` turns shuffle on; `-r`, `-v` and `-d` take the next argument as
/// their value, and do nothing where none follows; any other argument is passed over.
pub open spec fn read_from(args: Seq<Seq<char>>, at: int, options: OptionsView) -> OptionsView
    decreases args.len() - at,
{
    if at < 0 || at >= args.len() {
        options
    } else if args[at] == flag('h') {
        OptionsView { help: true, ..options }
    } else if args[at] == flag('s') {
        read_from(args, at + 1, OptionsView { shuffle: true, ..options })
    } else if takes_value(args[at]) {
        if at + 1 >= args.len() {
            options
        } else {
            read_from(args, at + 2, with_value(options, args[at], args[at + 1]))
        }
    } else {
        read_from(args, at + 1, options)
    }
}

/// What the command line `args` asks for; its first argument is the program's name.
pub open spec fn options_of(args: Seq<Seq<char>>) -> OptionsView {
    read_from(args, 1, default_options())
}

/// The letter of the flag `arg`, if it is a flag of one letter.
fn flag_letter(arg: &str) -> (letter: Option<char>)
    ensures
        match letter {
            Some(c) => arg@ == flag(c),
            None => forall|c: char| arg@ != flag(c),
        },
{
    let chars = chars_of(arg);
    if chars.len() == 2 && chars[0] == '-' {
        assert(chars@ =~= flag(chars@[1]));
        Some(chars[1])
    } else {
        assert forall|c: char| arg@ != flag(c) by {
            assert(flag(c).len() == 2 && flag(c)[0] == '-');
        }
        None
    }
}

/// Reads the command line `args`, whose first argument is the program's name.
pub fn parse_args(args: &Vec<String>) -> (options: Options)
    ensures
        options@ == options_of(texts(args@)),
{
    let ghost all = texts(args@);
    let mut options = Options {
        help: false,
        repeat: Repeat::Off,
        shuffle: false,
        path: String::from_str("."),
        volume: None,
    };
    proof {
        reveal_strlit(".");
        assert(options@.path =~= seq!['.']);
    }
    let mut at: usize = 1;
    while at < args.len()
        invariant
            1 <= at,
            all == texts(args@),
            read_from(all, at as int, options@) == options_of(all),
        decreases args.len() - at,
    {
        let ghost arg = all[at as int];
        proof {
            assert(flag('h')[1] == 'h' && flag('s')[1] == 's' && flag('r')[1] == 'r' && flag(
                'v',
            )[1] == 'v' && flag('d')[1] == 'd');
        }
        let letter = flag_letter(args[at].as_str());
        match letter {
            Some(c) => {
                assert(arg == flag(c) && flag(c)[1] == c);
                if c == 'h' {
                    options.help = true;
                    return options;
                } else if c == 's' {
                    options.shuffle = true;
                    at += 1;
                } else if c == 'r' || c == 'v' || c == 'd' {
                    if at + 1 >= args.len() {
                        return options;
                    }
                    let value = args[at + 1].as_str();
                    if c == 'r' {
                        options.repeat = match match_repeat(value) {
                            Some(r) => r,
                            None => Repeat::Off,
                        };
                    } else if c == 'v' {
                        options.volume = Some(value.to_owned());
                    } else {
                        options.path = value.to_owned();
                    }
                    at += 2;
                } else {
                    at += 1;
                }
            },
            None => {
                at += 1;
            },
        }
    }
    options
}

} // verus!
