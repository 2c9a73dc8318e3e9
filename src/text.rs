use vstd::prelude::*;

verus! {

/// Unicode's White_Space property: the characters that `str::trim` removes.
pub open spec fn is_white_space(c: char) -> bool {
    let n = c as u32;
    (0x9 <= n && n <= 0xd) || n == 0x20 || n == 0x85 || n == 0xa0 || n == 0x1680 || (0x2000 <= n
        && n <= 0x200a) || n == 0x2028 || n == 0x2029 || n == 0x202f || n == 0x205f || n == 0x3000
}

/// A text is blank when every character of it is white space (the empty text too).
pub open spec fn is_blank(s: Seq<char>) -> bool {
    forall|i: int| 0 <= i < s.len() ==> is_white_space(#[trigger] s[i])
}

/// Drops one carriage return that ends a line.
pub open spec fn strip_carriage_return(line: Seq<char>) -> Seq<char> {
    if line.len() > 0 && line.last() == '\r' {
        line.drop_last()
    } else {
        line
    }
}

/// The lines of `s`, where `current` is the part of a line read so far:
/// lines end at `\n` or `\r\n`, and the last line needs no ending.
pub open spec fn lines_from(s: Seq<char>, current: Seq<char>) -> Seq<Seq<char>>
    decreases s.len(),
{
    if s.len() == 0 {
        if current.len() == 0 {
            seq![]
        } else {
            seq![current]
        }
    } else if s[0] == '\n' {
        seq![strip_carriage_return(current)] + lines_from(s.drop_first(), seq![])
    } else {
        lines_from(s.drop_first(), current.push(s[0]))
    }
}

/// The lines of a text, without their line endings.
pub open spec fn text_lines(s: Seq<char>) -> Seq<Seq<char>> {
    lines_from(s, seq![])
}

/// `t` is `s` with its leading and trailing white space removed.
pub open spec fn is_trim_of(t: Seq<char>, s: Seq<char>) -> bool {
    exists|a: int, b: int|
        0 <= a <= b <= s.len() && t == s.subrange(a, b) && (forall|i: int|
            0 <= i < a ==> is_white_space(#[trigger] s[i])) && (forall|i: int|
            b <= i < s.len() ==> is_white_space(#[trigger] s[i])) && (t.len() > 0
            ==> !is_white_space(t[0]))
}

/// Relies on `str::trim`: the result is the text with its leading and
/// trailing white space removed.
#[verifier::external_body]
fn trim(s: &str) -> (r: &str)
    ensures
        is_trim_of(r@, s@),
{
    s.trim()
}

/// Whether a text holds nothing but white space.
pub fn is_blank_text(s: &str) -> (r: bool)
    ensures
        r == is_blank(s@),
{
    let t = trim(s);
    let r = t.is_empty();
    proof {
        let (a, b) = choose|a: int, b: int|
            0 <= a <= b <= s@.len() && t@ == s@.subrange(a, b) && (forall|i: int|
                0 <= i < a ==> is_white_space(#[trigger] s@[i])) && (forall|i: int|
                b <= i < s@.len() ==> is_white_space(#[trigger] s@[i])) && (t@.len() > 0
                ==> !is_white_space(t@[0]));
        if r {
            assert forall|i: int| 0 <= i < s@.len() implies is_white_space(#[trigger] s@[i]) by {
                assert(a == b);
            }
        } else {
            assert(t@[0] == s@[a]);
        }
    }
    r
}

/// Relies on `str::lines`: the text is cut at each `\n` or `\r\n`, the line
/// endings are left out, and a final line ending adds no empty line.
#[verifier::external_body]
pub(crate) fn split_lines(s: &str) -> (r: Vec<String>)
    ensures
        r.deep_view() == text_lines(s@),
{
    s.lines().map(String::from).collect()
}

} // verus!
