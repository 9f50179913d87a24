//! Laying out JSON text: decimal numbers, members, and blocks in the compact
//! and in the indented form.
use vstd::prelude::*;

verus! {

/// The character that stands for the digit `d`, for `d` below ten.
pub open spec fn digit_char(d: nat) -> char {
    if d == 0 {
        '0'
    } else if d == 1 {
        '1'
    } else if d == 2 {
        '2'
    } else if d == 3 {
        '3'
    } else if d == 4 {
        '4'
    } else if d == 5 {
        '5'
    } else if d == 6 {
        '6'
    } else if d == 7 {
        '7'
    } else if d == 8 {
        '8'
    } else {
        '9'
    }
}

/// The decimal digits of `n`, most significant first, without leading zeros.
pub open spec fn decimal_text(n: nat) -> Seq<char>
    decreases n,
{
    if n < 10 {
        seq![digit_char(n)]
    } else {
        decimal_text(n / 10).push(digit_char(n % 10))
    }
}

/// `parts` in order, with `sep` between each two neighbours.
pub open spec fn join(parts: Seq<Seq<char>>, sep: Seq<char>) -> Seq<char>
    decreases parts.len(),
{
    if parts.len() == 0 {
        Seq::empty()
    } else if parts.len() == 1 {
        parts[0]
    } else {
        join(parts.drop_last(), sep) + sep + parts.last()
    }
}

/// The views of a sequence of strings.
pub open spec fn texts(parts: Seq<String>) -> Seq<Seq<char>> {
    Seq::new(parts.len(), |i: int| parts[i]@)
}

/// How JSON text is laid out.
#[derive(Clone, Copy, Debug, PartialEq, Eq, Structural)]
pub enum Layout {
    /// On one line, without any space between the tokens.
    Compact,
    /// One member or element per line, indented by two spaces per level.
    Pretty,
}

/// One step of indentation.
pub open spec fn indent() -> Seq<char> {
    seq![' ', ' ']
}

/// `text` moved one step to the right: every line but the first starts one
/// step of indentation later.
pub open spec fn shifted(text: Seq<char>) -> Seq<char>
    decreases text.len(),
{
    if text.len() == 0 {
        Seq::empty()
    } else if text.last() == '\n' {
        shifted(text.drop_last()).push('\n') + indent()
    } else {
        shifted(text.drop_last()).push(text.last())
    }
}

/// A member of an object in the compact form: the quoted key, a colon, the value.
pub open spec fn compact_member(key: Seq<char>, value: Seq<char>) -> Seq<char> {
    seq!['"'] + key + seq!['"', ':'] + value
}

/// A member of an object in the indented form: the quoted key, a colon, a
/// space, the value.
pub open spec fn pretty_member(key: Seq<char>, value: Seq<char>) -> Seq<char> {
    seq!['"'] + key + seq!['"', ':', ' '] + value
}

/// A block in the compact form: `parts` between `open` and `close`, with
/// commas between them.
pub open spec fn compact_block(open: char, close: char, parts: Seq<Seq<char>>) -> Seq<char> {
    seq![open] + join(parts, seq![',']) + seq![close]
}

/// The lines that an indented block gives to its parts: each part moved one
/// step to the right.
pub open spec fn block_lines(parts: Seq<Seq<char>>) -> Seq<Seq<char>> {
    Seq::new(parts.len(), |i: int| indent() + shifted(parts[i]))
}

/// A block in the indented form: an empty block is `open` and `close`
/// together; otherwise each part stands on lines of its own, one step to the
/// right, with a comma after each part but the last.
pub open spec fn pretty_block(open: char, close: char, parts: Seq<Seq<char>>) -> Seq<char> {
    if parts.len() == 0 {
        seq![open, close]
    } else {
        seq![open, '\n'] + join(block_lines(parts), seq![',', '\n']) + seq!['\n', close]
    }
}

/// A member of an object in the given layout.
pub open spec fn member_text(layout: Layout, key: Seq<char>, value: Seq<char>) -> Seq<char> {
    match layout {
        Layout::Compact => compact_member(key, value),
        Layout::Pretty => pretty_member(key, value),
    }
}

/// A block in the given layout.
pub open spec fn block_text(layout: Layout, open: char, close: char, parts: Seq<Seq<char>>) -> Seq<
    char,
> {
    match layout {
        Layout::Compact => compact_block(open, close, parts),
        Layout::Pretty => pretty_block(open, close, parts),
    }
}

/// An array whose elements are the given texts.
pub open spec fn array_text(layout: Layout, elements: Seq<Seq<char>>) -> Seq<char> {
    block_text(layout, '[', ']', elements)
}

/// An object whose members are the given texts.
pub open spec fn object_text(layout: Layout, members: Seq<Seq<char>>) -> Seq<char> {
    block_text(layout, '{', '}', members)
}

/// `String::push`: the character is appended to the end of the string.
pub assume_specification[ std::string::String::push ](text: &mut std::string::String, c: char)
    ensures
        final(text)@ == old(text)@.push(c),
;

/// Writes one decimal digit.
fn digit(d: u8) -> (c: char)
    requires
        d < 10,
    ensures
        c == digit_char(d as nat),
{
    if d == 0 {
        '0'
    } else if d == 1 {
        '1'
    } else if d == 2 {
        '2'
    } else if d == 3 {
        '3'
    } else if d == 4 {
        '4'
    } else if d == 5 {
        '5'
    } else if d == 6 {
        '6'
    } else if d == 7 {
        '7'
    } else if d == 8 {
        '8'
    } else {
        '9'
    }
}

/// Writes `n` in decimal.
pub fn decimal(n: u64) -> (text: String)
    ensures
        text@ == decimal_text(n as nat),
    decreases n,
{
    if n < 10 {
        let mut text = String::new();
        text.push(digit(n as u8));
        assert(text@ =~= seq![digit_char(n as nat)]);
        text
    } else {
        let mut text = decimal(n / 10);
        text.push(digit((n % 10) as u8));
        text
    }
}

/// Joins `parts` with `sep` between each two neighbours.
pub fn join_texts(parts: &Vec<String>, sep: &str) -> (text: String)
    ensures
        text@ == join(texts(parts@), sep@),
{
    let mut text = String::new();
    let mut i: usize = 0;
    while i < parts.len()
        invariant
            i <= parts.len(),
            text@ == join(texts(parts@).take(i as int), sep@),
        decreases parts.len() - i,
    {
        proof {
            let done = texts(parts@).take(i as int);
            let next = texts(parts@).take(i + 1);
            assert(next.drop_last() =~= done);
            assert(next.last() == parts@[i as int]@);
            if i > 0 {
                assert(join(next, sep@) == join(done, sep@) + sep@ + parts@[i as int]@);
            } else {
                assert(join(next, sep@) == parts@[i as int]@);
                assert(join(done, sep@) =~= Seq::<char>::empty());
            }
        }
        if i > 0 {
            text.append(sep);
        }
        text.append(parts[i].as_str());
        assert(text@ =~= join(texts(parts@).take(i + 1), sep@));
        i += 1;
    }
    assert(texts(parts@).take(i as int) =~= texts(parts@));
    text
}

/// Moves `text` one step to the right.
pub fn shift(text: &str) -> (moved: String)
    ensures
        moved@ == shifted(text@),
{
    let mut moved = String::new();
    for c in it: text.chars()
        invariant
            it.seq() == text@,
            moved@ == shifted(text@.take(it.index() as int)),
    {
        proof {
            let done = text@.take(it.index() as int);
            let next = text@.take(it.index() + 1);
            assert(next.drop_last() =~= done);
            assert(next.last() == c);
        }
        moved.push(c);
        if c == '\n' {
            proof {
                reveal_strlit("  ");
                assert("  "@ =~= indent());
            }
            moved.append("  ");
        }
    }
    assert(text@.take(text@.len() as int) =~= text@);
    moved
}

/// Writes a member of an object: the key in quotes, as it stands, then the
/// value.
pub fn write_member(layout: Layout, key: &str, value: &str) -> (text: String)
    ensures
        text@ == member_text(layout, key@, value@),
{
    let mut text = String::new();
    text.push('"');
    text.append(key);
    text.push('"');
    text.push(':');
    match layout {
        Layout::Compact => {},
        Layout::Pretty => {
            text.push(' ');
        },
    }
    text.append(value);
    assert(text@ =~= member_text(layout, key@, value@));
    text
}

/// Moves each part one step to the right, for a place inside an indented block.
fn write_block_lines(parts: &Vec<String>) -> (lines: Vec<String>)
    ensures
        texts(lines@) == block_lines(texts(parts@)),
{
    let mut lines: Vec<String> = Vec::new();
    let mut i: usize = 0;
    while i < parts.len()
        invariant
            i <= parts.len(),
            lines@.len() == i,
            forall|j: int| 0 <= j < i ==> (#[trigger] lines@[j])@ == indent() + shifted(parts@[j]@),
        decreases parts.len() - i,
    {
        let mut line = String::new();
        line.push(' ');
        line.push(' ');
        let moved = shift(parts[i].as_str());
        line.append(moved.as_str());
        assert(line@ =~= indent() + shifted(parts@[i as int]@));
        lines.push(line);
        i += 1;
    }
    assert(texts(lines@) =~= block_lines(texts(parts@)));
    lines
}

/// Writes a block: `parts` between `open` and `close`.
pub fn write_block(layout: Layout, open: char, close: char, parts: &Vec<String>) -> (text: String)
    ensures
        text@ == block_text(layout, open, close, texts(parts@)),
{
    let mut text = String::new();
    text.push(open);
    match layout {
        Layout::Compact => {
            proof {
                reveal_strlit(",");
                assert(","@ =~= seq![',']);
            }
            let inner = join_texts(parts, ",");
            text.append(inner.as_str());
        },
        Layout::Pretty => {
            if parts.len() > 0 {
                proof {
                    reveal_strlit(",\n");
                    assert(",\n"@ =~= seq![',', '\n']);
                }
                let lines = write_block_lines(parts);
                let inner = join_texts(&lines, ",\n");
                text.push('\n');
                text.append(inner.as_str());
                text.push('\n');
            }
        },
    }
    text.push(close);
    assert(text@ =~= block_text(layout, open, close, texts(parts@)));
    text
}

/// Writes an array of the given elements.
pub fn write_array(layout: Layout, elements: &Vec<String>) -> (text: String)
    ensures
        text@ == array_text(layout, texts(elements@)),
{
    write_block(layout, '[', ']', elements)
}

/// Writes an object of the given members.
pub fn write_object(layout: Layout, members: &Vec<String>) -> (text: String)
    ensures
        text@ == object_text(layout, texts(members@)),
{
    write_block(layout, '{', '}', members)
}

} // verus!
