use vstd::prelude::*;

verus! {

/// Unicode white space, the separator of the words of a request line.
pub open spec fn is_space(c: char) -> bool {
    let u = c as u32;
    ||| 0x09 <= u <= 0x0d
    ||| u == 0x20
    ||| u == 0x85
    ||| u == 0xa0
    ||| u == 0x1680
    ||| 0x2000 <= u <= 0x200a
    ||| u == 0x2028
    ||| u == 0x2029
    ||| u == 0x202f
    ||| u == 0x205f
    ||| u == 0x3000
}

/// The first position at or after `i` that holds no white space, or the end.
pub open spec fn skip_spaces(s: Seq<char>, i: int) -> int
    decreases s.len() - i,
{
    if 0 <= i < s.len() && is_space(s[i]) {
        skip_spaces(s, i + 1)
    } else {
        i
    }
}

/// The first position at or after `i` that holds white space, or the end.
pub open spec fn skip_word(s: Seq<char>, i: int) -> int
    decreases s.len() - i,
{
    if 0 <= i < s.len() && !is_space(s[i]) {
        skip_word(s, i + 1)
    } else {
        i
    }
}

/// Where the second word of `line` starts; at the end of `line` when it has
/// fewer than two words.
pub open spec fn second_word_start(line: Seq<char>) -> int {
    skip_spaces(line, skip_word(line, skip_spaces(line, 0)))
}

/// Whether the request line has a second word.
pub open spec fn has_path(line: Seq<char>) -> bool {
    second_word_start(line) < line.len()
}

/// The path of a request line: its second whitespace-separated word, or `/`
/// when it has none.
pub open spec fn spec_request_path(line: Seq<char>) -> Seq<char> {
    if has_path(line) {
        let a = second_word_start(line);
        line.subrange(a, skip_word(line, a))
    } else {
        "/"@
    }
}

/// Whether `c` is white space.
pub fn is_space_char(c: char) -> (r: bool)
    ensures
        r == is_space(c),
{
    let u = c as u32;
    (0x09 <= u && u <= 0x0d) || u == 0x20 || u == 0x85 || u == 0xa0 || u == 0x1680 || (0x2000
        <= u && u <= 0x200a) || u == 0x2028 || u == 0x2029 || u == 0x202f || u == 0x205f || u
        == 0x3000
}

/// The characters of `s`, one per element.
pub fn chars_of(s: &str) -> (r: Vec<char>)
    ensures
        r@ == s@,
{
    let mut v: Vec<char> = Vec::new();
    for c in it: s.chars()
        invariant
            v@ == it.seq().take(it.index() as int),
    {
        v.push(c);
    }
    v
}

/// The first position at or after `i` in `cs` that holds no white space.
fn skip_spaces_from(cs: &Vec<char>, i: usize) -> (r: usize)
    requires
        i <= cs@.len(),
    ensures
        r == skip_spaces(cs@, i as int),
        i <= r <= cs@.len(),
{
    let mut j: usize = i;
    while j < cs.len() && is_space_char(cs[j])
        invariant
            i <= j <= cs@.len(),
            skip_spaces(cs@, i as int) == skip_spaces(cs@, j as int),
        decreases cs@.len() - j,
    {
        j = j + 1;
    }
    j
}

/// The first position at or after `i` in `cs` that holds white space.
fn skip_word_from(cs: &Vec<char>, i: usize) -> (r: usize)
    requires
        i <= cs@.len(),
    ensures
        r == skip_word(cs@, i as int),
        i <= r <= cs@.len(),
{
    let mut j: usize = i;
    while j < cs.len() && !is_space_char(cs[j])
        invariant
            i <= j <= cs@.len(),
            skip_word(cs@, i as int) == skip_word(cs@, j as int),
        decreases cs@.len() - j,
    {
        j = j + 1;
    }
    j
}

/// The path that a request line asks for: its second whitespace-separated
/// word, or `/` when there is none. The method and the protocol version are
/// not looked at.
pub fn request_path(line: &str) -> (r: &str)
    ensures
        r@ == spec_request_path(line@),
{
    let cs = chars_of(line);
    let a0 = skip_spaces_from(&cs, 0);
    let b0 = skip_word_from(&cs, a0);
    let a1 = skip_spaces_from(&cs, b0);
    if a1 < cs.len() {
        let b1 = skip_word_from(&cs, a1);
        line.substring_char(a1, b1)
    } else {
        "/"
    }
}

} // verus!
