//! Text helpers of the terminal client: the standard string operations it
//! uses, trimming and line counting.

use vstd::prelude::*;

verus! {

/// `String::push`: appends one character (std documents exactly this).
pub assume_specification[ String::push ](text: &mut String, ch: char)
    ensures
        final(text)@ == old(text)@.push(ch),
;

/// `String::pop`: removes and returns the last character, `None` on an
/// empty string (std documents exactly this).
pub assume_specification[ String::pop ](text: &mut String) -> (last: Option<char>)
    ensures
        old(text)@.len() == 0 ==> last is None && final(text)@ == old(text)@,
        old(text)@.len() > 0 ==> last == Some(old(text)@.last()) && final(text)@ == old(text)@.drop_last(),
;

/// `String::clear`: removes all contents (std documents exactly this).
pub assume_specification[ String::clear ](text: &mut String)
    ensures
        final(text)@ == Seq::<char>::empty(),
;

/// Whether `c` has the Unicode `White_Space` property, which is what
/// `char::is_whitespace` and `str::trim` go by.
pub open spec fn is_white_space(c: char) -> bool {
    let code = c as u32;
    ||| 0x9 <= code <= 0xd
    ||| code == 0x20
    ||| code == 0x85
    ||| code == 0xa0
    ||| code == 0x1680
    ||| 0x2000 <= code <= 0x200a
    ||| code == 0x2028
    ||| code == 0x2029
    ||| code == 0x202f
    ||| code == 0x205f
    ||| code == 0x3000
}

/// `text` without its leading white space.
pub open spec fn trim_start(text: Seq<char>) -> Seq<char>
    decreases text.len(),
{
    if text.len() > 0 && is_white_space(text[0]) {
        trim_start(text.drop_first())
    } else {
        text
    }
}

/// `text` without its trailing white space.
pub open spec fn trim_end(text: Seq<char>) -> Seq<char>
    decreases text.len(),
{
    if text.len() > 0 && is_white_space(text.last()) {
        trim_end(text.drop_last())
    } else {
        text
    }
}

/// `text` without its leading and trailing white space, as `str::trim` leaves it.
pub open spec fn spec_trimmed(text: Seq<char>) -> Seq<char> {
    trim_end(trim_start(text))
}

/// Whether `c` is white space.
pub fn is_white_space_char(c: char) -> (white: bool)
    ensures
        white == is_white_space(c),
{
    let code = c as u32;
    (0x9 <= code && code <= 0xd) || code == 0x20 || code == 0x85 || code == 0xa0 || code == 0x1680
        || (0x2000 <= code && code <= 0x200a) || code == 0x2028 || code == 0x2029 || code == 0x202f
        || code == 0x205f || code == 0x3000
}

proof fn lemma_trim_start_skips(text: Seq<char>, i: int)
    requires
        0 <= i <= text.len(),
        forall|k: int| 0 <= k < i ==> is_white_space(#[trigger] text[k]),
    ensures
        trim_start(text) == trim_start(text.subrange(i, text.len() as int)),
    decreases i,
{
    if i > 0 {
        let rest = text.drop_first();
        assert forall|k: int| 0 <= k < i - 1 implies is_white_space(#[trigger] rest[k]) by {
            assert(rest[k] == text[k + 1]);
        }
        lemma_trim_start_skips(rest, i - 1);
        assert(rest.subrange(i - 1, rest.len() as int) == text.subrange(i, text.len() as int));
    } else {
        assert(text.subrange(0, text.len() as int) == text);
    }
}

proof fn lemma_trim_end_skips(text: Seq<char>, j: int)
    requires
        0 <= j <= text.len(),
        forall|k: int| j <= k < text.len() ==> is_white_space(#[trigger] text[k]),
    ensures
        trim_end(text) == trim_end(text.subrange(0, j)),
    decreases text.len() - j,
{
    if j < text.len() {
        let rest = text.drop_last();
        assert forall|k: int| j <= k < rest.len() implies is_white_space(#[trigger] rest[k]) by {
            assert(rest[k] == text[k]);
        }
        lemma_trim_end_skips(rest, j);
        assert(rest.subrange(0, j) == text.subrange(0, j));
    } else {
        assert(text.subrange(0, j) == text);
    }
}

/// `text` without its leading and trailing white space.
pub fn trim_white_space(text: &str) -> (trimmed: String)
    ensures
        trimmed@ == spec_trimmed(text@),
{
    let length = text.unicode_len();
    let mut start: usize = 0;
    while start < length && is_white_space_char(text.get_char(start))
        invariant
            length == text@.len(),
            start <= length,
            forall|k: int| 0 <= k < start ==> is_white_space(#[trigger] text@[k]),
        decreases length - start,
    {
        start = start + 1;
    }
    let mut end: usize = length;
    while end > start && is_white_space_char(text.get_char(end - 1))
        invariant
            length == text@.len(),
            start <= end <= length,
            forall|k: int| end <= k < length ==> is_white_space(#[trigger] text@[k]),
        decreases end - start,
    {
        end = end - 1;
    }
    proof {
        let s = text@;
        lemma_trim_start_skips(s, start as int);
        let tail = s.subrange(start as int, length as int);
        assert(trim_start(tail) == tail);
        assert forall|k: int| end - start <= k < tail.len() implies is_white_space(#[trigger] tail[k]) by {
            assert(tail[k] == s[k + start]);
        }
        lemma_trim_end_skips(tail, end - start);
        let middle = tail.subrange(0, end - start);
        assert(middle == s.subrange(start as int, end as int));
        if middle.len() > 0 {
            assert(middle.last() == s[end - 1]);
        }
        assert(trim_end(middle) == middle);
    }
    text.substring_char(start, end).to_string()
}

/// The number of line feeds in `text`.
pub open spec fn spec_newlines(text: Seq<char>) -> nat
    decreases text.len(),
{
    if text.len() == 0 {
        0
    } else {
        spec_newlines(text.drop_last()) + if text.last() == '\n' { 1nat } else { 0nat }
    }
}

/// The number of lines of `text`, as `str::lines` yields them: lines end at a
/// line feed (a carriage return before it belongs to the ending), the last
/// line needs no ending, and an empty text has no lines.
pub open spec fn spec_line_count(text: Seq<char>) -> nat {
    spec_newlines(text) + if text.len() > 0 && text.last() != '\n' { 1nat } else { 0nat }
}

/// Counts the lines of `text`.
pub fn line_count(text: &str) -> (count: usize)
    ensures
        count == spec_line_count(text@),
{
    let mut newlines: usize = 0;
    let mut last: Option<char> = None;
    let mut index: usize = 0;
    let length = text.unicode_len();
    while index < length
        invariant
            length == text@.len(),
            index <= length,
            newlines == spec_newlines(text@.take(index as int)),
            newlines <= index,
            index == 0 ==> last is None,
            index > 0 ==> last == Some(text@[index - 1]),
            last matches Some(c) && c != '\n' ==> newlines < index,
        decreases length - index,
    {
        let ch = text.get_char(index);
        assert(text@.take(index + 1).drop_last() == text@.take(index as int));
        if ch == '\n' {
            newlines = newlines + 1;
        }
        last = Some(ch);
        index = index + 1;
    }
    assert(text@.take(length as int) == text@);
    match last {
        Some(ch) => if ch != '\n' {
            newlines + 1
        } else {
            newlines
        },
        None => newlines,
    }
}

} // verus!
