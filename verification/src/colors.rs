//! The colors of the screen's parts, and the text format they are configured in.

use crate::text::chars_of;
use vstd::prelude::*;

verus! {

/// A color as red, green and blue.
#[derive(Clone, Copy, Debug, PartialEq, Eq, Structural)]
pub struct Rgb(pub u8, pub u8, pub u8);

/// One color for each part of the screen.
#[derive(Clone, Copy, Debug, PartialEq, Eq, Structural)]
pub struct Colors {
    pub name: Rgb,
    pub status: Rgb,
    pub repeat: Rgb,
    pub shuffle: Rgb,
    pub volume: Rgb,
    pub bar_fg: Rgb,
    pub bar_bg: Rgb,
    pub selected: Rgb,
    pub now_playing: Rgb,
    pub both: Rgb,
    pub queue: Rgb,
}

/// Whether `c` is white space within a line.
pub open spec fn is_blank(c: char) -> bool {
    c == ' ' || c == '\t' || c == '\r' || c == '\x0b' || c == '\x0c'
}

/// `s` without its white space; line ends stay.
pub open spec fn without_blanks(s: Seq<char>) -> Seq<char>
    decreases s.len(),
{
    if s.len() == 0 {
        s
    } else if is_blank(s.last()) {
        without_blanks(s.drop_last())
    } else {
        without_blanks(s.drop_last()).push(s.last())
    }
}

/// The place of the first `sep` in `s`, or the length of `s` where it has none.
pub open spec fn first_at(s: Seq<char>, sep: char) -> int
    decreases s.len(),
{
    if s.len() == 0 || s[0] == sep {
        0
    } else {
        1 + first_at(s.skip(1), sep)
    }
}

/// What stands in `s` before the first `sep`.
pub open spec fn head(s: Seq<char>, sep: char) -> Seq<char> {
    s.take(first_at(s, sep))
}

/// What stands in `s` behind the first `sep`, if there is a `sep`.
pub open spec fn tail(s: Seq<char>, sep: char) -> Option<Seq<char>> {
    if first_at(s, sep) < s.len() {
        Some(s.skip(first_at(s, sep) + 1))
    } else {
        None
    }
}

/// The number that a run of decimal digits stands for.
pub open spec fn digits_value(s: Seq<char>) -> nat
    decreases s.len(),
{
    if s.len() == 0 {
        0
    } else {
        digits_value(s.drop_last()) * 10 + (s.last() as nat - 48) as nat
    }
}

/// Whether `s` holds decimal digits only.
pub open spec fn all_digits(s: Seq<char>) -> bool {
    forall|i: int| 0 <= i < s.len() ==> '0' <= #[trigger] s[i] <= '9'
}

/// `s` without the plus sign in front of it, where it has one.
pub open spec fn signless(s: Seq<char>) -> Seq<char> {
    if s.len() > 0 && s[0] == '+' {
        s.skip(1)
    } else {
        s
    }
}

/// One component of a color: a number from 0 to 255 in decimal digits, with or without
/// a plus sign in front. Anything else counts as 0.
pub open spec fn component(s: Seq<char>) -> u8 {
    let digits = signless(s);
    if digits.len() > 0 && all_digits(digits) && digits_value(digits) <= 255 {
        digits_value(digits) as u8
    } else {
        0
    }
}

/// The component at the start of `s`, if there is an `s`; 0 if not.
pub open spec fn leading_component(s: Option<Seq<char>>) -> u8 {
    match s {
        Some(s) => component(head(s, ',')),
        None => 0,
    }
}

/// What follows the first comma of `s`, if there is an `s` with a comma.
pub open spec fn after_comma(s: Option<Seq<char>>) -> Option<Seq<char>> {
    match s {
        Some(s) => tail(s, ','),
        None => None,
    }
}

/// The color that `s` names as `R,G,B`. A component that is missing is 0, and what
/// follows the third is not read.
pub open spec fn rgb_of(s: Seq<char>) -> Rgb {
    let second = tail(s, ',');
    let third = after_comma(second);
    Rgb(component(head(s, ',')), leading_component(second), leading_component(third))
}

/// `colors` after the line `line`, which is `key:R,G,B`. A line with another key
/// changes nothing; a line whose key has no value sets black.
pub open spec fn apply_line(colors: Colors, line: Seq<char>) -> Colors {
    let key = head(line, ':');
    let rgb = match tail(line, ':') {
        Some(rest) => rgb_of(head(rest, ':')),
        None => rgb_of(Seq::empty()),
    };
    if key == "name"@ {
        Colors { name: rgb, ..colors }
    } else if key == "status"@ {
        Colors { status: rgb, ..colors }
    } else if key == "repeat"@ {
        Colors { repeat: rgb, ..colors }
    } else if key == "shuffle"@ {
        Colors { shuffle: rgb, ..colors }
    } else if key == "volume"@ {
        Colors { volume: rgb, ..colors }
    } else if key == "bar_fg"@ {
        Colors { bar_fg: rgb, ..colors }
    } else if key == "bar_bg"@ {
        Colors { bar_bg: rgb, ..colors }
    } else if key == "selected"@ {
        Colors { selected: rgb, ..colors }
    } else if key == "now_playing"@ {
        Colors { now_playing: rgb, ..colors }
    } else if key == "both"@ {
        Colors { both: rgb, ..colors }
    } else if key == "queue"@ {
        Colors { queue: rgb, ..colors }
    } else {
        colors
    }
}

/// `colors` after each line of `text` in turn.
pub open spec fn apply_lines(colors: Colors, text: Seq<char>) -> Colors
    decreases text.len(),
{
    let after = apply_line(colors, head(text, '\n'));
    match tail(text, '\n') {
        Some(rest) => if rest.len() < text.len() {
            apply_lines(after, rest)
        } else {
            after
        },
        None => after,
    }
}

/// The built-in colors.
pub open spec fn default_colors() -> Colors {
    Colors {
        name: Rgb(255, 255, 0),
        status: Rgb(255, 0, 255),
        repeat: Rgb(255, 0, 0),
        shuffle: Rgb(0, 255, 0),
        volume: Rgb(255, 255, 255),
        bar_fg: Rgb(255, 255, 255),
        bar_bg: Rgb(0, 255, 255),
        selected: Rgb(255, 0, 0),
        now_playing: Rgb(0, 255, 255),
        both: Rgb(255, 0, 255),
        queue: Rgb(0, 0, 0),
    }
}

/// The colors that the configuration `text` gives: the built-in ones, changed by each
/// line of `text` in turn, white space left aside.
pub open spec fn config_colors(text: Seq<char>) -> Colors {
    apply_lines(default_colors(), without_blanks(text))
}

/// The first `sep` of `s` stands at `first_at`, with none before it.
pub proof fn lemma_first_at(s: Seq<char>, sep: char)
    ensures
        0 <= first_at(s, sep) <= s.len(),
        first_at(s, sep) < s.len() ==> s[first_at(s, sep)] == sep,
        forall|k: int| 0 <= k < first_at(s, sep) ==> s[k] != sep,
    decreases s.len(),
{
    if s.len() == 0 || s[0] == sep {
    } else {
        let rest = s.skip(1);
        lemma_first_at(rest, sep);
        assert forall|k: int| 0 <= k < first_at(s, sep) implies s[k] != sep by {
            if k > 0 {
                assert(rest[k - 1] == s[k]);
            }
        }
    }
}

/// A place with `sep` on it and none before it is `first_at`.
pub proof fn lemma_first_at_is(s: Seq<char>, sep: char, at: int)
    requires
        0 <= at <= s.len(),
        at < s.len() ==> s[at] == sep,
        forall|k: int| 0 <= k < at ==> s[k] != sep,
    ensures
        first_at(s, sep) == at,
{
    lemma_first_at(s, sep);
    let found = first_at(s, sep);
    if found < at {
        assert(s[found] != sep);
    }
}

/// More digits make no smaller number.
proof fn lemma_digits_grow(s: Seq<char>, k: int)
    requires
        0 <= k <= s.len(),
        all_digits(s),
    ensures
        digits_value(s.take(k)) <= digits_value(s),
    decreases s.len() - k,
{
    if k == s.len() {
        assert(s.take(k) =~= s);
    } else {
        lemma_digits_grow(s, k + 1);
        assert(s.take(k + 1).drop_last() =~= s.take(k));
        assert(s.take(k + 1).last() == s[k]);
    }
}

/// The place of the first `sep` in `v` from `from` on, or the length of `v`.
fn find_from(v: &Vec<char>, from: usize, sep: char) -> (at: usize)
    requires
        from <= v.len(),
    ensures
        from <= at <= v.len(),
        at == from + first_at(v@.skip(from as int), sep),
{
    let mut at: usize = from;
    while at < v.len() && v[at] != sep
        invariant
            from <= at <= v.len(),
            forall|k: int| from <= k < at ==> v@[k] != sep,
        decreases v.len() - at,
    {
        at += 1;
    }
    proof {
        lemma_first_at_is(v@.skip(from as int), sep, at - from);
    }
    at
}

/// Whether `v[from..to]` spells `word`.
fn range_is(v: &Vec<char>, from: usize, to: usize, word: &str) -> (same: bool)
    requires
        from <= to <= v.len(),
    ensures
        same == (v@.subrange(from as int, to as int) == word@),
{
    let w = chars_of(word);
    let ghost part = v@.subrange(from as int, to as int);
    if w.len() != to - from {
        assert(part.len() != w@.len());
        return false;
    }
    let mut i: usize = 0;
    while i < w.len()
        invariant
            from <= to <= v.len(),
            w.len() == to - from,
            w@ == word@,
            i <= w.len(),
            part == v@.subrange(from as int, to as int),
            forall|k: int| 0 <= k < i ==> part[k] == w@[k],
        decreases w.len() - i,
    {
        if v[from + i] != w[i] {
            assert(part[i as int] != w@[i as int]);
            return false;
        }
        i += 1;
    }
    assert(part =~= w@);
    true
}

/// The component that `v[from..to]` spells.
fn component_of(v: &Vec<char>, from: usize, to: usize) -> (value: u8)
    requires
        from <= to <= v.len(),
    ensures
        value == component(v@.subrange(from as int, to as int)),
{
    let ghost whole = v@.subrange(from as int, to as int);
    let start: usize = if from < to && v[from] == '+' {
        from + 1
    } else {
        from
    };
    let ghost digits = v@.subrange(start as int, to as int);
    assert(digits =~= signless(whole));
    if start == to {
        assert(digits.len() == 0);
        return 0;
    }
    let mut value: u32 = 0;
    let mut i: usize = start;
    while i < to
        invariant
            from <= start <= i <= to <= v.len(),
            start < to,
            digits == v@.subrange(start as int, to as int),
            digits == signless(v@.subrange(from as int, to as int)),
            all_digits(digits.take(i - start)),
            value == digits_value(digits.take(i - start)),
            value <= 255,
        decreases to - i,
    {
        let c = v[i];
        let ghost seen = digits.take(i - start + 1);
        proof {
            assert(seen.drop_last() =~= digits.take(i - start));
            assert(seen.last() == c);
        }
        if c < '0' || c > '9' {
            assert(!('0' <= digits[i - start] <= '9'));
            return 0;
        }
        value = value * 10 + (c as u32 - 48);
        assert(all_digits(seen)) by {
            assert forall|k: int| 0 <= k < seen.len() implies '0' <= #[trigger] seen[k] <= '9' by {
                if k < seen.len() - 1 {
                    assert(seen[k] == digits.take(i - start)[k]);
                }
            }
        }
        if value > 255 {
            proof {
                if all_digits(digits) {
                    lemma_digits_grow(digits, i - start + 1);
                }
            }
            return 0;
        }
        i += 1;
    }
    assert(digits.take(to - start) =~= digits);
    value as u8
}

/// The color that `v[from..to]` names as `R,G,B`.
fn rgb_in(v: &Vec<char>, from: usize, to: usize) -> (rgb: Rgb)
    requires
        from <= to <= v.len(),
    ensures
        rgb == rgb_of(v@.subrange(from as int, to as int)),
{
    let mut part: Vec<char> = Vec::new();
    let mut i: usize = from;
    while i < to
        invariant
            from <= i <= to <= v.len(),
            part@ == v@.subrange(from as int, i as int),
        decreases to - i,
    {
        part.push(v[i]);
        i += 1;
        assert(v@.subrange(from as int, i as int) =~= v@.subrange(from as int, i - 1).push(
            v@[i - 1],
        ));
    }
    rgb_of_chars(&part)
}

/// Reads a color written as `R,G,B`. Each component is a number from 0 to 255; one
/// that is missing or is no such number is 0, and what follows the third is not read.
pub fn parse_rgb(rgb_str: &str) -> (rgb: Rgb)
    ensures
        rgb == rgb_of(rgb_str@),
{
    let chars = chars_of(rgb_str);
    rgb_of_chars(&chars)
}

/// The color that the characters `rgb_str` name as `R,G,B`.
fn rgb_of_chars(rgb_str: &Vec<char>) -> (rgb: Rgb)
    ensures
        rgb == rgb_of(rgb_str@),
{
    let n = rgb_str.len();
    let ghost s = rgb_str@;
    let a = find_from(rgb_str, 0, ',');
    assert(s.skip(0) =~= s);
    assert(s.subrange(0, a as int) =~= head(s, ','));
    let red = component_of(rgb_str, 0, a);
    if a == n {
        return Rgb(red, 0, 0);
    }
    let ghost second = s.skip(a + 1);
    let b = find_from(rgb_str, a + 1, ',');
    assert(s.subrange(a + 1, b as int) =~= head(second, ','));
    let green = component_of(rgb_str, a + 1, b);
    if b == n {
        return Rgb(red, green, 0);
    }
    let ghost third = s.skip(b + 1);
    assert(third =~= second.skip(b - a));
    let c = find_from(rgb_str, b + 1, ',');
    assert(s.subrange(b + 1, c as int) =~= head(third, ','));
    let blue = component_of(rgb_str, b + 1, c);
    Rgb(red, green, blue)
}

impl Colors {
    /// The built-in colors.
    pub fn new_default() -> (colors: Colors)
        ensures
            colors == default_colors(),
    {
        Colors {
            name: Rgb(255, 255, 0),
            status: Rgb(255, 0, 255),
            repeat: Rgb(255, 0, 0),
            shuffle: Rgb(0, 255, 0),
            volume: Rgb(255, 255, 255),
            bar_fg: Rgb(255, 255, 255),
            bar_bg: Rgb(0, 255, 255),
            selected: Rgb(255, 0, 0),
            now_playing: Rgb(0, 255, 255),
            both: Rgb(255, 0, 255),
            queue: Rgb(0, 0, 0),
        }
    }

    /// The colors after the line `v[from..to]`.
    fn with_line(self, v: &Vec<char>, from: usize, to: usize) -> (colors: Colors)
        requires
            from <= to <= v.len(),
        ensures
            colors == apply_line(self, v@.subrange(from as int, to as int)),
    {
        let ghost line = v@.subrange(from as int, to as int);
        let mut colon = find_from(v, from, ':');
        if colon > to {
            colon = to;
        }
        proof {
            lemma_first_at(v@.skip(from as int), ':');
            assert forall|k: int| 0 <= k < colon - from implies line[k] != ':' by {
                assert(line[k] == v@.skip(from as int)[k]);
            }
            lemma_first_at_is(line, ':', colon - from);
            assert(line.take(colon - from) =~= v@.subrange(from as int, colon as int));
        }
        let rgb = if colon < to {
            let mut end = find_from(v, colon + 1, ':');
            if end > to {
                end = to;
            }
            proof {
                let rest = line.skip(colon - from + 1);
                lemma_first_at(v@.skip(colon + 1), ':');
                assert forall|k: int| 0 <= k < end - colon - 1 implies rest[k] != ':' by {
                    assert(rest[k] == v@.skip(colon + 1)[k]);
                }
                lemma_first_at_is(rest, ':', end - colon - 1);
                assert(rest.take(end - colon - 1) =~= v@.subrange(colon + 1, end as int));
            }
            rgb_in(v, colon + 1, end)
        } else {
            assert(v@.subrange(to as int, to as int) =~= Seq::<char>::empty());
            rgb_in(v, to, to)
        };
        let mut colors = self;
        if range_is(v, from, colon, "name") {
            colors.name = rgb;
        } else if range_is(v, from, colon, "status") {
            colors.status = rgb;
        } else if range_is(v, from, colon, "repeat") {
            colors.repeat = rgb;
        } else if range_is(v, from, colon, "shuffle") {
            colors.shuffle = rgb;
        } else if range_is(v, from, colon, "volume") {
            colors.volume = rgb;
        } else if range_is(v, from, colon, "bar_fg") {
            colors.bar_fg = rgb;
        } else if range_is(v, from, colon, "bar_bg") {
            colors.bar_bg = rgb;
        } else if range_is(v, from, colon, "selected") {
            colors.selected = rgb;
        } else if range_is(v, from, colon, "now_playing") {
            colors.now_playing = rgb;
        } else if range_is(v, from, colon, "both") {
            colors.both = rgb;
        } else if range_is(v, from, colon, "queue") {
            colors.queue = rgb;
        }
        colors
    }

    /// Reads the configuration `config`: one `key:R,G,B` on each line, for the keys
    /// `name`, `status`, `repeat`, `shuffle`, `volume`, `bar_fg`, `bar_bg`, `selected`,
    /// `now_playing`, `both` and `queue`. White space is left aside, lines with another
    /// key are passed over, and a part that no line names keeps its built-in color.
    pub fn new_from_config(config: &str) -> (colors: Colors)
        ensures
            colors == config_colors(config@),
    {
        let raw = chars_of(config);
        let mut text: Vec<char> = Vec::new();
        let mut i: usize = 0;
        while i < raw.len()
            invariant
                i <= raw.len(),
                text@ == without_blanks(raw@.take(i as int)),
            decreases raw.len() - i,
        {
            let c = raw[i];
            proof {
                assert(raw@.take(i + 1).drop_last() =~= raw@.take(i as int));
                assert(raw@.take(i + 1).last() == c);
            }
            if !(c == ' ' || c == '\t' || c == '\r' || c == '\x0b' || c == '\x0c') {
                text.push(c);
            }
            i += 1;
        }
        assert(raw@.take(raw.len() as int) =~= raw@);
        assert(text@.skip(0) =~= text@);
        let mut colors = Colors::new_default();
        let mut from: usize = 0;
        loop
            invariant
                from <= text.len(),
                apply_lines(colors, text@.skip(from as int)) == config_colors(config@),
            decreases text.len() - from,
        {
            let ghost rest = text@.skip(from as int);
            let end = find_from(&text, from, '\n');
            assert(head(rest, '\n') =~= text@.subrange(from as int, end as int));
            colors = colors.with_line(&text, from, end);
            if end == text.len() {
                return colors;
            }
            assert(rest.skip(end - from + 1) =~= text@.skip(end + 1));
            from = end + 1;
        }
    }
}

} // verus!
