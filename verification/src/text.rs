//! Characters, decimal numbers, display names and clock times.

use vstd::prelude::*;

verus! {

/// `String::push` appends one character to the string.
pub assume_specification[ String::push ](s: &mut String, c: char)
    ensures
        final(s)@ == old(s)@.push(c),
;

/// The texts that the strings of `v` hold.
pub open spec fn texts(v: Seq<String>) -> Seq<Seq<char>> {
    Seq::new(v.len(), |i: int| v[i]@)
}

/// The characters of a string, in order.
pub fn chars_of(s: &str) -> (v: Vec<char>)
    ensures
        v@ == s@,
{
    let mut v: Vec<char> = Vec::new();
    for c in it: s.chars()
        invariant
            it.seq() == s@,
            v@ == s@.take(it.index() as int),
    {
        v.push(c);
        assert(s@.take(it.index() + 1) =~= s@.take(it.index() as int).push(c));
    }
    assert(s@.take(s@.len() as int) =~= s@);
    v
}

/// The string that holds the characters `v[from..to]`.
pub fn string_of(v: &Vec<char>, from: usize, to: usize) -> (s: String)
    requires
        from <= to <= v.len(),
    ensures
        s@ == v@.subrange(from as int, to as int),
{
    let mut s = String::new();
    let mut i: usize = from;
    while i < to
        invariant
            from <= i <= to <= v.len(),
            s@ == v@.subrange(from as int, i as int),
        decreases to - i,
    {
        s.push(v[i]);
        i += 1;
        assert(v@.subrange(from as int, i as int) =~= v@.subrange(from as int, i - 1).push(
            v@[i - 1],
        ));
    }
    s
}

/// The character for the decimal digit `d`.
pub open spec fn digit(d: nat) -> char
    recommends
        d < 10,
{
    (48 + d) as char
}

/// `n` written in decimal, without leading zeros.
pub open spec fn decimal(n: nat) -> Seq<char>
    decreases n,
{
    if n < 10 {
        seq![digit(n)]
    } else {
        decimal(n / 10).push(digit(n % 10))
    }
}

/// `n` in decimal, with a leading zero where it has one digit.
pub open spec fn two_digits(n: nat) -> Seq<char> {
    if n <= 9 {
        seq!['0'] + decimal(n)
    } else {
        decimal(n)
    }
}

/// Appends `n` in decimal to `s`.
pub fn push_decimal(s: &mut String, n: u64)
    ensures
        final(s)@ == old(s)@ + decimal(n as nat),
    decreases n,
{
    if n >= 10 {
        push_decimal(s, n / 10);
    }
    let d: u8 = (n % 10) as u8;
    s.push((48u8 + d) as char);
    proof {
        let last = digit((n % 10) as nat);
        if n >= 10 {
            assert(old(s)@ + decimal(n as nat) =~= (old(s)@ + decimal((n / 10) as nat)).push(last));
        } else {
            assert(old(s)@ + decimal(n as nat) =~= old(s)@.push(last));
        }
    }
}

/// How a number of seconds reads on the progress line: minutes and seconds, with the
/// hours in front where there are any. Hours and minutes both wrap at sixty.
pub open spec fn clock_text(secs: nat) -> Seq<char> {
    let hours = (secs / 3600) % 60;
    let minutes = (secs / 60) % 60;
    let seconds = secs % 60;
    if hours != 0 {
        decimal(hours) + seq![':'] + two_digits(minutes) + seq![':'] + two_digits(seconds)
    } else {
        decimal(minutes) + seq![':'] + two_digits(seconds)
    }
}

/// Appends `n` in decimal to `s`, with a leading zero where it has one digit.
fn push_two_digits(s: &mut String, n: u64)
    ensures
        final(s)@ == old(s)@ + two_digits(n as nat),
{
    if n <= 9 {
        s.push('0');
    }
    push_decimal(s, n);
    proof {
        if n <= 9 {
            assert(old(s)@ + two_digits(n as nat) =~= old(s)@.push('0') + decimal(n as nat));
        }
    }
}

/// Formats a time of `secs` seconds as `m:ss`, or `h:mm:ss` from one hour on.
pub fn format_time(secs: u64) -> (text: String)
    ensures
        text@ == clock_text(secs as nat),
{
    let minutes = (secs / 60) % 60;
    let seconds = secs % 60;
    let hours = (secs / 3600) % 60;
    let mut text = String::new();
    if hours != 0 {
        push_decimal(&mut text, hours);
        text.push(':');
        push_two_digits(&mut text, minutes);
        assert(text@ =~= decimal(hours as nat) + seq![':'] + two_digits(minutes as nat));
    } else {
        push_decimal(&mut text, minutes);
        assert(text@ =~= decimal(minutes as nat));
    }
    let ghost head = text@;
    text.push(':');
    push_two_digits(&mut text, seconds);
    assert(text@ =~= head + seq![':'] + two_digits(seconds as nat));
    text
}

/// The number of bytes that `c` takes in UTF-8.
pub open spec fn utf8_width(c: char) -> nat {
    let v = c as u32;
    if v < 0x80 {
        1
    } else if v < 0x800 {
        2
    } else if v < 0x10000 {
        3
    } else {
        4
    }
}

/// The number of bytes that the characters of `s` take in UTF-8.
pub open spec fn utf8_len(s: Seq<char>) -> nat
    decreases s.len(),
{
    if s.len() == 0 {
        0
    } else {
        utf8_len(s.drop_last()) + utf8_width(s.last())
    }
}

/// The number of bytes that `c` takes in UTF-8.
pub fn char_width(c: char) -> (w: u8)
    ensures
        w == utf8_width(c),
        1 <= w <= 4,
{
    let v = c as u32;
    if v < 0x80 {
        1
    } else if v < 0x800 {
        2
    } else if v < 0x10000 {
        3
    } else {
        4
    }
}

/// The suffix that marks a track's file.
pub open spec fn extension() -> Seq<char> {
    seq!['.', 'm', 'p', '3']
}

/// Whether `s` ends with `suffix`.
pub open spec fn ends_with(s: Seq<char>, suffix: Seq<char>) -> bool {
    s.len() >= suffix.len() && s.subrange(s.len() - suffix.len(), s.len() as int) == suffix
}

/// `s` without the extension at its end, where it has one.
pub open spec fn strip_extension(s: Seq<char>) -> Seq<char> {
    if ends_with(s, extension()) {
        s.take(s.len() - 4)
    } else {
        s
    }
}

/// Whether `cut` is `name` cut to `limit`: the shortest run of whole characters from
/// the start of `name` that fills `limit` bytes, or all of `name` where it is shorter.
pub open spec fn is_cut(name: Seq<char>, limit: nat, cut: Seq<char>) -> bool {
    &&& cut.len() <= name.len()
    &&& cut == name.take(cut.len() as int)
    &&& cut.len() == name.len() || utf8_len(cut) >= limit
    &&& forall|k: int| 0 <= k < cut.len() ==> utf8_len(#[trigger] name.take(k)) < limit
}

/// The display name of a track: its file name without the extension, cut to `limit`.
pub open spec fn display_name(name: Seq<char>, limit: nat) -> Seq<char> {
    choose|cut: Seq<char>| is_cut(strip_extension(name), limit, cut)
}

/// The byte length of a text grows with each character.
pub proof fn lemma_utf8_len_take(s: Seq<char>, k: int)
    requires
        0 <= k < s.len(),
    ensures
        utf8_len(s.take(k + 1)) == utf8_len(s.take(k)) + utf8_width(s[k]),
{
    assert(s.take(k + 1).drop_last() =~= s.take(k));
    assert(s.take(k + 1).last() == s[k]);
}

/// A name has one cut to a given limit, and no other.
pub proof fn lemma_cut_unique(name: Seq<char>, limit: nat, a: Seq<char>, b: Seq<char>)
    requires
        is_cut(name, limit, a),
        is_cut(name, limit, b),
    ensures
        a == b,
{
    if a.len() < b.len() {
        assert(name.take(a.len() as int) == a);
        assert(utf8_len(name.take(a.len() as int)) < limit);
    } else if b.len() < a.len() {
        assert(name.take(b.len() as int) == b);
        assert(utf8_len(name.take(b.len() as int)) < limit);
    }
}

/// A display name is made of whole characters from the start of the file name, and
/// holds none of a trailing extension.
pub proof fn lemma_display_name_is_prefix(name: Seq<char>, limit: nat, shown: Seq<char>)
    requires
        is_cut(strip_extension(name), limit, shown),
    ensures
        shown == display_name(name, limit),
        shown.len() <= name.len(),
        shown == name.take(shown.len() as int),
        ends_with(name, extension()) ==> shown.len() <= name.len() - 4,
{
    let stripped = strip_extension(name);
    lemma_cut_unique(stripped, limit, shown, display_name(name, limit));
    assert(stripped.take(shown.len() as int) =~= name.take(shown.len() as int));
}

/// Whether the file name in `v` ends with the extension.
pub fn has_extension(v: &Vec<char>) -> (b: bool)
    ensures
        b == ends_with(v@, extension()),
{
    let n = v.len();
    if n < 4 {
        return false;
    }
    let b = v[n - 4] == '.' && v[n - 3] == 'm' && v[n - 2] == 'p' && v[n - 1] == '3';
    proof {
        let tail = v@.subrange(n - 4, n as int);
        assert(tail.len() == 4);
        assert(tail[0] == v@[n - 4] && tail[1] == v@[n - 3] && tail[2] == v@[n - 2] && tail[3]
            == v@[n - 1]);
        if b {
            assert(tail =~= extension());
        } else {
            assert(extension()[0] == '.' && extension()[1] == 'm' && extension()[2] == 'p'
                && extension()[3] == '3');
        }
    }
    b
}

/// The display name of the file `s`: the extension at its end is dropped, and what is
/// left is cut after the first character with which it fills `limit` bytes. No
/// character is ever split.
pub fn cut_string(s: String, limit: usize) -> (shown: String)
    ensures
        is_cut(strip_extension(s@), limit as nat, shown@),
        shown@ == display_name(s@, limit as nat),
{
    let chars = chars_of(s.as_str());
    let end: usize = if has_extension(&chars) {
        chars.len() - 4
    } else {
        chars.len()
    };
    let ghost name = strip_extension(s@);
    assert(name =~= chars@.take(end as int));
    let mut bytes: u128 = 0;
    let mut i: usize = 0;
    while i < end && bytes < limit as u128
        invariant
            i <= end <= chars.len(),
            name == chars@.take(end as int),
            bytes == utf8_len(name.take(i as int)),
            bytes <= 4 * i,
            forall|k: int| 0 <= k < i ==> utf8_len(#[trigger] name.take(k)) < limit,
        decreases end - i,
    {
        proof {
            lemma_utf8_len_take(name, i as int);
        }
        let w = char_width(chars[i]);
        bytes = bytes + w as u128;
        i += 1;
    }
    let shown = string_of(&chars, 0, i);
    proof {
        assert(shown@ =~= name.take(i as int));
        lemma_display_name_is_prefix(s@, limit as nat, shown@);
    }
    shown
}

/// The byte length of a text is that of its first character and of the rest.
proof fn lemma_utf8_len_front(s: Seq<char>)
    requires
        s.len() > 0,
    ensures
        utf8_len(s) == utf8_width(s[0]) + utf8_len(s.drop_first()),
    decreases s.len(),
{
    let rest = s.drop_first();
    if s.len() == 1 {
        assert(utf8_len(s.drop_last()) == 0);
        assert(utf8_len(rest) == 0);
    } else {
        lemma_utf8_len_front(s.drop_last());
        assert(s.drop_last().drop_first() =~= rest.drop_last());
        assert(utf8_len(rest) == utf8_len(rest.drop_last()) + utf8_width(rest.last()));
    }
}

/// The byte length of a text, as counted here, is the length of its UTF-8 encoding.
pub proof fn lemma_utf8_len_is_encoded_length(s: Seq<char>)
    ensures
        utf8_len(s) == vstd::utf8::encode_utf8(s).len(),
    decreases s.len(),
{
    if s.len() > 0 {
        vstd::utf8::char_is_scalar(s[0]);
        lemma_utf8_len_front(s);
        lemma_utf8_len_is_encoded_length(s.drop_first());
    }
}

} // verus!
