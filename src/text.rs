//! Plain text helpers: decimal numerals, emitted code as lines of text.
use vstd::prelude::*;

verus! {

/// Generated source code, one entry per emitted line.
pub type Code = Vec<String>;

/// The text of each line of `code`.
pub open spec fn lines_of(code: Code) -> Seq<Seq<char>> {
    code@.map_values(|s: String| s@)
}

/// `lines`, each prefixed with `indent`.
pub open spec fn indented(indent: Seq<char>, lines: Seq<Seq<char>>) -> Seq<Seq<char>> {
    lines.map_values(|l: Seq<char>| indent + l)
}

pub open spec fn digit_char(d: nat) -> char {
    if d == 0 {
        '0'
    } else if d == 1 {
        '1'
    } else if d == 2 {
        '2'
    } else if d == 3 {
        '3'
    } else if d == 4 {
        '4'
    } else if d == 5 {
        '5'
    } else if d == 6 {
        '6'
    } else if d == 7 {
        '7'
    } else if d == 8 {
        '8'
    } else {
        '9'
    }
}

/// The decimal numeral of `n`, most significant digit first, without leading zeros.
pub open spec fn decimal(n: nat) -> Seq<char>
    decreases n,
{
    if n < 10 {
        seq![digit_char(n)]
    } else {
        decimal(n / 10).push(digit_char(n % 10))
    }
}

fn digit_str(d: u64) -> (r: &'static str)
    requires
        d < 10,
    ensures
        r@ == seq![digit_char(d as nat)],
{
    if d == 0 {
        proof { reveal_strlit("0"); }
        "0"
    } else if d == 1 {
        proof { reveal_strlit("1"); }
        "1"
    } else if d == 2 {
        proof { reveal_strlit("2"); }
        "2"
    } else if d == 3 {
        proof { reveal_strlit("3"); }
        "3"
    } else if d == 4 {
        proof { reveal_strlit("4"); }
        "4"
    } else if d == 5 {
        proof { reveal_strlit("5"); }
        "5"
    } else if d == 6 {
        proof { reveal_strlit("6"); }
        "6"
    } else if d == 7 {
        proof { reveal_strlit("7"); }
        "7"
    } else if d == 8 {
        proof { reveal_strlit("8"); }
        "8"
    } else {
        proof { reveal_strlit("9"); }
        "9"
    }
}

/// The decimal numeral of `n`.
pub fn decimal_string(n: u64) -> (r: String)
    ensures
        r@ == decimal(n as nat),
    decreases n,
{
    if n < 10 {
        String::from_str(digit_str(n))
    } else {
        let head = decimal_string(n / 10);
        head.concat(digit_str(n % 10))
    }
}

/// `a` followed by `b`.
pub fn cat(a: &str, b: &str) -> (r: String)
    ensures
        r@ == a@ + b@,
{
    String::from_str(a).concat(b)
}

/// Adds `line` at the end of `code`.
pub fn push_line(code: &mut Code, line: String)
    ensures
        lines_of(*final(code)) == lines_of(*old(code)).push(line@),
{
    let ghost l = line@;
    code.push(line);
    assert(lines_of(*code) =~= lines_of(*old(code)).push(l));
}

/// Adds the lines of `src` at the end of `dest`.
pub fn extend_code(dest: &mut Code, src: Code)
    ensures
        lines_of(*final(dest)) == lines_of(*old(dest)) + lines_of(src),
{
    let mut src = src;
    let ghost s = lines_of(src);
    dest.append(&mut src);
    assert(lines_of(*dest) =~= lines_of(*old(dest)) + s);
}

/// Adds the lines of `src`, each prefixed with `indent`, at the end of `dest`.
pub fn append_code(dest: &mut Code, indent: &str, src: Code)
    ensures
        lines_of(*final(dest)) == lines_of(*old(dest)) + indented(indent@, lines_of(src)),
{
    let mut i: usize = 0;
    while i < src.len()
        invariant
            i <= src@.len(),
            lines_of(*dest) == lines_of(*old(dest)) + indented(indent@, lines_of(src).take(i as int)),
        decreases src@.len() - i,
    {
        let line = cat(indent, src[i].as_str());
        push_line(dest, line);
        i = i + 1;
        assert(indented(indent@, lines_of(src).take(i as int)) =~= indented(
            indent@,
            lines_of(src).take(i - 1),
        ).push(indent@ + lines_of(src)[i - 1]));
    }
    assert(lines_of(src).take(i as int) =~= lines_of(src));
}

/// The parts, separated by `sep`.
pub open spec fn joined(parts: Seq<Seq<char>>, sep: Seq<char>) -> Seq<char>
    decreases parts.len(),
{
    if parts.len() == 0 {
        seq![]
    } else if parts.len() == 1 {
        parts[0]
    } else {
        joined(parts.drop_last(), sep) + sep + parts.last()
    }
}

/// The parts, separated by `sep`, as one text.
pub fn join_strs(parts: &Vec<String>, sep: &str) -> (r: String)
    ensures
        r@ == joined(lines_of(*parts), sep@),
{
    let mut out = String::new();
    let mut i: usize = 0;
    while i < parts.len()
        invariant
            i <= parts@.len(),
            out@ == joined(lines_of(*parts).take(i as int), sep@),
        decreases parts@.len() - i,
    {
        if i > 0 {
            out = out.concat(sep);
        }
        out = out.concat(parts[i].as_str());
        i = i + 1;
        assert(lines_of(*parts).take(i as int).drop_last() =~= lines_of(*parts).take(i - 1));
    }
    assert(lines_of(*parts).take(i as int) =~= lines_of(*parts));
    out
}

/// The lines of `code` separated by newlines, as one text.
pub fn join_lines(code: &Code) -> (r: String)
    ensures
        r@ == joined(lines_of(*code), seq!['\n']),
{
    let mut out = String::new();
    let mut i: usize = 0;
    while i < code.len()
        invariant
            i <= code@.len(),
            out@ == joined(lines_of(*code).take(i as int), seq!['\n']),
        decreases code@.len() - i,
    {
        if i > 0 {
            proof { reveal_strlit("\n"); }
            out = out.concat("\n");
        }
        out = out.concat(code[i].as_str());
        i = i + 1;
        assert(lines_of(*code).take(i as int).drop_last() =~= lines_of(*code).take(i - 1));
    }
    assert(lines_of(*code).take(i as int) =~= lines_of(*code));
    out
}

} // verus!
