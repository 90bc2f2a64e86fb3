//! The lines on which the host's messages come in.

use vstd::prelude::*;

verus! {

/// The characters with Unicode's `White_Space` property.
pub open spec fn white_space(c: char) -> bool {
    let code = c as u32;
    ||| 0x9 <= code <= 0xD
    ||| code == 0x20
    ||| code == 0x85
    ||| code == 0xA0
    ||| code == 0x1680
    ||| 0x2000 <= code <= 0x200A
    ||| code == 0x2028
    ||| code == 0x2029
    ||| code == 0x202F
    ||| code == 0x205F
    ||| code == 0x3000
}

/// `char::is_whitespace` tells whether a character has Unicode's `White_Space` property.
pub assume_specification[ char::is_whitespace ](c: char) -> (white: bool)
    ensures
        white == white_space(c),
;

/// Where the text of a line begins and ends, given for each of its characters whether it
/// is white: from the first that is not to the last that is not.
pub open spec fn is_span(white: Seq<bool>, start: int, end: int) -> bool {
    &&& 0 <= start < end <= white.len()
    &&& !white[start]
    &&& !white[end - 1]
    &&& forall|i: int| 0 <= i < start ==> #[trigger] white[i]
    &&& forall|i: int| end <= i < white.len() ==> #[trigger] white[i]
}

/// For each character whether it is white.
pub open spec fn whiteness(line: Seq<char>) -> Seq<bool> {
    line.map_values(|c: char| white_space(c))
}

/// A line with nothing but white space on it.
pub open spec fn is_blank(line: Seq<char>) -> bool {
    forall|i: int| 0 <= i < line.len() ==> white_space(#[trigger] line[i])
}

/// `text` is what is left of `line` without the white space before and behind.
pub open spec fn trims_to(line: Seq<char>, text: Seq<char>) -> bool {
    exists|start: int, end: int| #[trigger]
        is_span(whiteness(line), start, end) && text == line.subrange(start, end)
}

/// A line has one text at most, and none if it is blank.
pub proof fn law_text_is_unique(line: Seq<char>, a: Seq<char>, b: Seq<char>)
    requires
        trims_to(line, a),
    ensures
        trims_to(line, b) ==> a == b,
        !is_blank(line),
        a.len() > 0,
        !white_space(a[0]),
        !white_space(a.last()),
{
    let (start, end) = choose|start: int, end: int| #[trigger]
        is_span(whiteness(line), start, end) && a == line.subrange(start, end);
    assert(whiteness(line)[start] == white_space(line[start]));
    assert(whiteness(line)[end - 1] == white_space(line[end - 1]));
    if trims_to(line, b) {
        let (s, e) = choose|s: int, e: int| #[trigger]
            is_span(whiteness(line), s, e) && b == line.subrange(s, e);
        assert(s == start && e == end);
    }
}

/// Nothing but white space is lost of a line: what stands before its text and behind it.
pub proof fn law_only_white_space_is_lost(line: Seq<char>, text: Seq<char>)
    requires
        trims_to(line, text),
    ensures
        exists|before: Seq<char>, behind: Seq<char>|
            {
                &&& line == #[trigger] (before + text + behind)
                &&& forall|i: int| 0 <= i < before.len() ==> white_space(#[trigger] before[i])
                &&& forall|i: int| 0 <= i < behind.len() ==> white_space(#[trigger] behind[i])
            },
{
    let (start, end) = choose|start: int, end: int| #[trigger]
        is_span(whiteness(line), start, end) && text == line.subrange(start, end);
    let before = line.take(start);
    let behind = line.skip(end);
    assert(line =~= before + text + behind);
    assert forall|i: int| 0 <= i < before.len() implies white_space(#[trigger] before[i]) by {
        assert(whiteness(line)[i] == white_space(line[i]));
    }
    assert forall|i: int| 0 <= i < behind.len() implies white_space(#[trigger] behind[i]) by {
        assert(whiteness(line)[end + i] == white_space(line[end + i]));
    }
}

/// White space around a text makes no difference, however much of it there is: a text that
/// starts and ends with something else is what the line says.
pub proof fn law_white_space_around_makes_no_difference(
    before: Seq<char>,
    text: Seq<char>,
    behind: Seq<char>,
)
    requires
        forall|i: int| 0 <= i < before.len() ==> white_space(#[trigger] before[i]),
        forall|i: int| 0 <= i < behind.len() ==> white_space(#[trigger] behind[i]),
        text.len() > 0,
        !white_space(text[0]),
        !white_space(text.last()),
    ensures
        trims_to(before + text + behind, text),
        !is_blank(before + text + behind),
{
    let line = before + text + behind;
    let (start, end) = (before.len() as int, (before.len() + text.len()) as int);
    let white = whiteness(line);
    assert(white[start] == white_space(text[0]));
    assert(white[end - 1] == white_space(text.last()));
    assert forall|i: int| 0 <= i < start implies #[trigger] white[i] by {
        assert(line[i] == before[i]);
    }
    assert forall|i: int| end <= i < white.len() implies #[trigger] white[i] by {
        assert(line[i] == behind[i - end]);
    }
    assert(is_span(white, start, end));
    assert(line.subrange(start, end) =~= text);
    law_text_is_unique(line, text, text);
}

/// A line is blank exactly if every character on it is white; so any other character, wherever
/// it stands, makes it say something.
pub proof fn law_blank_means_nothing_but_white_space(line: Seq<char>, i: int)
    requires
        0 <= i < line.len(),
    ensures
        !white_space(line[i]) ==> !is_blank(line),
        !is_blank(line) ==> exists|k: int| 0 <= k < line.len() && !white_space(#[trigger] line[k]),
        is_blank(Seq::empty()),
{
}

/// Among the ASCII characters, the tab, the four line breaks and the space are white, and no
/// others are.
pub proof fn law_ascii_white_space(c: char)
    requires
        (c as u32) < 0x80,
    ensures
        white_space(c) <==> c == ' ' || c == '\t' || c == '\n' || c == '\r' || c == '\x0b' || c
            == '\x0c',
{
}

/// Trimming a text again changes nothing.
pub proof fn law_text_is_trimmed(line: Seq<char>, text: Seq<char>)
    requires
        trims_to(line, text),
    ensures
        trims_to(text, text),
{
    law_text_is_unique(line, text, text);
    assert(whiteness(text)[0] == white_space(text[0]));
    assert(whiteness(text)[text.len() - 1] == white_space(text.last()));
    assert(is_span(whiteness(text), 0, text.len() as int));
    assert(text.subrange(0, text.len() as int) =~= text);
}

/// Finds where the text of a line begins and ends.
pub fn text_span(white: &Vec<bool>) -> (span: Option<(usize, usize)>)
    ensures
        match span {
            Some((start, end)) => is_span(white@, start as int, end as int),
            None => forall|i: int| 0 <= i < white@.len() ==> #[trigger] white@[i],
        },
        span is None <==> forall|i: int| 0 <= i < white@.len() ==> #[trigger] white@[i],
        span matches Some((start, end)) ==> {
            &&& start < end <= white@.len()
            &&& !white@[start as int]
            &&& !white@[end - 1]
            &&& forall|i: int| 0 <= i < start || end <= i < white@.len() ==> #[trigger] white@[i]
        },
{
    let mut start: usize = 0;
    while start < white.len() && white[start]
        invariant
            start <= white@.len(),
            forall|i: int| 0 <= i < start ==> #[trigger] white@[i],
        decreases white@.len() - start,
    {
        start += 1;
    }
    if start == white.len() {
        return None;
    }
    let mut end: usize = white.len();
    while white[end - 1]
        invariant
            start < end <= white@.len(),
            !white@[start as int],
            forall|i: int| end <= i < white@.len() ==> #[trigger] white@[i],
        decreases end,
    {
        end -= 1;
    }
    Some((start, end))
}

/// What reading a line brought.
#[derive(Debug, PartialEq, Eq)]
pub enum Line<'a> {
    /// There was nothing left to read.
    End,
    /// The line says nothing.
    Blank,
    /// The line says this.
    Text(&'a str),
}

/// Looks at a line. `bytes_read` is how many bytes reading it took: none at the end of the
/// input, or where reading failed.
pub fn read_line(bytes_read: usize, line: &str) -> (found: Line<'_>)
    ensures
        match found {
            Line::End => bytes_read == 0,
            Line::Blank => bytes_read != 0 && is_blank(line@),
            Line::Text(text) => bytes_read != 0 && !is_blank(line@) && trims_to(line@, text@),
        },
        found is End <==> bytes_read == 0,
        found is Blank <==> bytes_read != 0 && forall|i: int|
            0 <= i < line@.len() ==> white_space(#[trigger] line@[i]),
        found matches Line::Text(text) ==> {
            &&& text@.len() > 0
            &&& !white_space(text@[0])
            &&& !white_space(text@.last())
            &&& exists|before: Seq<char>, behind: Seq<char>|
                {
                    &&& line@ == #[trigger] (before + text@ + behind)
                    &&& forall|i: int| 0 <= i < before.len() ==> white_space(#[trigger] before[i])
                    &&& forall|i: int| 0 <= i < behind.len() ==> white_space(#[trigger] behind[i])
                }
        },
{
    if bytes_read == 0 {
        return Line::End;
    }
    let mut white: Vec<bool> = Vec::new();
    for c in chars: line.chars()
        invariant
            chars.seq() == line@,
            white@ == whiteness(line@.take(chars.index() as int)),
    {
        white.push(c.is_whitespace());
        assert(line@.take(chars.index() + 1) =~= line@.take(chars.index() as int).push(c));
    }
    assert(line@.take(line@.len() as int) =~= line@);
    match text_span(&white) {
        Some((start, end)) => {
            assert(whiteness(line@)[start as int] == white_space(line@[start as int]));
            let text = line.substring_char(start, end);
            proof {
                law_text_is_unique(line@, text@, text@);
                law_only_white_space_is_lost(line@, text@);
            }
            Line::Text(text)
        },
        None => {
            assert forall|i: int| 0 <= i < line@.len() implies white_space(#[trigger] line@[i]) by {
                assert(whiteness(line@)[i]);
            }
            Line::Blank
        },
    }
}

} // verus!
