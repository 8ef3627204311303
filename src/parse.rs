//! The DSL's grammar, on characters:
//!
//! ```text
//! root       := line (LINE_END line)*
//! line       := (definition (',' definition)*)?
//! definition := ident ':' type
//! type       := unit_type | tuple_like | matrix
//! unit_type  := 'int0' | 'int' | 'float' | 'str'
//! array      := '[' unit_type ';' len ']'
//! list       := '[' unit_type ']'
//! tuple      := '(' elem (',' elem)* ')'      elem := unit_type | array | list
//! tuple_like := tuple | array | list
//! matrix     := '[' tuple_like ';' len ']'
//! len        := one or more characters other than ']'
//! ```
//!
//! Spaces and tabs may surround every item. Alternatives are tried in the
//! order written and the first that matches is taken; a separator that is
//! not followed by an item ends its list, and the separator is left unread.
use vstd::prelude::*;
use crate::ast::{
    Array, DefModel, Definition, ElemModel, Len, Line, List, Matrix, Root, RowModel, Tuple, TupleElem,
    TupleLike, Type, TypeModel, UnitType, Var,
};

verus! {

pub open spec fn is_space(c: char) -> bool {
    c == ' ' || c == '\t'
}

pub open spec fn is_alpha(c: char) -> bool {
    ('a' <= c && c <= 'z') || ('A' <= c && c <= 'Z')
}

pub open spec fn ident_start(c: char) -> bool {
    is_alpha(c) || c == '_'
}

pub open spec fn ident_char(c: char) -> bool {
    ident_start(c) || ('0' <= c && c <= '9')
}

pub open spec fn char_at(s: Seq<char>, i: int, c: char) -> bool {
    0 <= i < s.len() && s[i] == c
}

pub open spec fn word_at(s: Seq<char>, i: int, w: Seq<char>) -> bool {
    0 <= i && i + w.len() <= s.len() && s.subrange(i, i + w.len()) == w
}

/// The position after the spaces and tabs that start at `i`.
pub open spec fn skip_spaces(s: Seq<char>, i: int) -> int
    decreases s.len() - i,
{
    if 0 <= i < s.len() && is_space(s[i]) {
        skip_spaces(s, i + 1)
    } else {
        i
    }
}

/// The end of the run of identifier characters that starts at `i`.
pub open spec fn scan_ident(s: Seq<char>, i: int) -> int
    decreases s.len() - i,
{
    if 0 <= i < s.len() && ident_char(s[i]) {
        scan_ident(s, i + 1)
    } else {
        i
    }
}

/// The end of the run of characters other than `]` that starts at `i`.
pub open spec fn scan_len(s: Seq<char>, i: int) -> int
    decreases s.len() - i,
{
    if 0 <= i < s.len() && s[i] != ']' {
        scan_len(s, i + 1)
    } else {
        i
    }
}

pub open spec fn unit_type_at(s: Seq<char>, i: int) -> Option<(UnitType, int)> {
    if word_at(s, i, seq!['i', 'n', 't', '0']) {
        Some((UnitType::Int0, i + 4))
    } else if word_at(s, i, seq!['i', 'n', 't']) {
        Some((UnitType::Int, i + 3))
    } else if word_at(s, i, seq!['f', 'l', 'o', 'a', 't']) {
        Some((UnitType::Float, i + 5))
    } else if word_at(s, i, seq!['s', 't', 'r']) {
        Some((UnitType::Str, i + 3))
    } else {
        None
    }
}

pub open spec fn ident_at(s: Seq<char>, i: int) -> Option<(Seq<char>, int)> {
    if 0 <= i < s.len() && ident_start(s[i]) {
        let e = scan_ident(s, i + 1);
        Some((s.subrange(i, e), e))
    } else {
        None
    }
}

pub open spec fn len_at(s: Seq<char>, i: int) -> Option<(Seq<char>, int)> {
    let e = scan_len(s, i);
    if 0 <= i < e {
        Some((s.subrange(i, e), e))
    } else {
        None
    }
}

/// `[ unit ; len ]`
pub open spec fn array_at(s: Seq<char>, i: int) -> Option<((UnitType, Seq<char>), int)> {
    if char_at(s, i, '[') {
        match unit_type_at(s, skip_spaces(s, i + 1)) {
            Some((u, j)) => {
                let j = skip_spaces(s, j);
                if char_at(s, j, ';') {
                    match len_at(s, skip_spaces(s, j + 1)) {
                        Some((len, k)) => {
                            let k = skip_spaces(s, k);
                            if char_at(s, k, ']') {
                                Some(((u, len), k + 1))
                            } else {
                                None
                            }
                        },
                        None => None,
                    }
                } else {
                    None
                }
            },
            None => None,
        }
    } else {
        None
    }
}

/// `[ unit ]`
pub open spec fn list_at(s: Seq<char>, i: int) -> Option<(UnitType, int)> {
    if char_at(s, i, '[') {
        match unit_type_at(s, skip_spaces(s, i + 1)) {
            Some((u, j)) => {
                let j = skip_spaces(s, j);
                if char_at(s, j, ']') {
                    Some((u, j + 1))
                } else {
                    None
                }
            },
            None => None,
        }
    } else {
        None
    }
}

/// A tuple element, surrounded by optional spaces.
pub open spec fn elem_at(s: Seq<char>, i: int) -> Option<(ElemModel, int)> {
    let i = skip_spaces(s, i);
    match unit_type_at(s, i) {
        Some((u, j)) => Some((ElemModel::Unit(u), skip_spaces(s, j))),
        None => match array_at(s, i) {
            Some(((u, len), j)) => Some((ElemModel::Array(u, len), skip_spaces(s, j))),
            None => match list_at(s, i) {
                Some((u, j)) => Some((ElemModel::List(u), skip_spaces(s, j))),
                None => None,
            },
        },
    }
}

/// Further `, elem` items from `i`.
pub open spec fn elems_from(s: Seq<char>, i: int) -> (Seq<ElemModel>, int)
    decreases s.len() - i,
{
    if char_at(s, i, ',') {
        match elem_at(s, i + 1) {
            Some((e, j)) => if i < j <= s.len() {
                let (rest, k) = elems_from(s, j);
                (seq![e] + rest, k)
            } else {
                (seq![e], j)
            },
            None => (seq![], i),
        }
    } else {
        (seq![], i)
    }
}

/// `( elem , ... )`
pub open spec fn tuple_at(s: Seq<char>, i: int) -> Option<(Seq<ElemModel>, int)> {
    if char_at(s, i, '(') {
        match elem_at(s, i + 1) {
            Some((e, j)) => {
                let (rest, k) = elems_from(s, j);
                if char_at(s, k, ')') {
                    Some((seq![e] + rest, k + 1))
                } else {
                    None
                }
            },
            None => None,
        }
    } else {
        None
    }
}

pub open spec fn tuple_like_at(s: Seq<char>, i: int) -> Option<(RowModel, int)> {
    match tuple_at(s, i) {
        Some((elems, j)) => Some((RowModel::Tuple(elems), j)),
        None => match array_at(s, i) {
            Some(((u, len), j)) => Some((RowModel::Array(u, len), j)),
            None => match list_at(s, i) {
                Some((u, j)) => Some((RowModel::List(u), j)),
                None => None,
            },
        },
    }
}

/// `[ tuple_like ; len ]`
pub open spec fn matrix_at(s: Seq<char>, i: int) -> Option<((RowModel, Seq<char>), int)> {
    if char_at(s, i, '[') {
        match tuple_like_at(s, skip_spaces(s, i + 1)) {
            Some((row, j)) => {
                let j = skip_spaces(s, j);
                if char_at(s, j, ';') {
                    match len_at(s, skip_spaces(s, j + 1)) {
                        Some((len, k)) => {
                            let k = skip_spaces(s, k);
                            if char_at(s, k, ']') {
                                Some(((row, len), k + 1))
                            } else {
                                None
                            }
                        },
                        None => None,
                    }
                } else {
                    None
                }
            },
            None => None,
        }
    } else {
        None
    }
}

pub open spec fn type_at(s: Seq<char>, i: int) -> Option<(TypeModel, int)> {
    match unit_type_at(s, i) {
        Some((u, j)) => Some((TypeModel::Unit(u), j)),
        None => match tuple_like_at(s, i) {
            Some((r, j)) => Some((TypeModel::Row(r), j)),
            None => match matrix_at(s, i) {
                Some(((r, len), j)) => Some((TypeModel::Matrix(r, len), j)),
                None => None,
            },
        },
    }
}

/// `name : type`, surrounded by optional spaces.
pub open spec fn definition_at(s: Seq<char>, i: int) -> Option<(DefModel, int)> {
    match ident_at(s, skip_spaces(s, i)) {
        Some((var, j)) => {
            let j = skip_spaces(s, j);
            if char_at(s, j, ':') {
                match type_at(s, skip_spaces(s, j + 1)) {
                    Some((ty, k)) => Some((DefModel { var, ty }, skip_spaces(s, k))),
                    None => None,
                }
            } else {
                None
            }
        },
        None => None,
    }
}

/// Further `, definition` items from `i`.
pub open spec fn definitions_from(s: Seq<char>, i: int) -> (Seq<DefModel>, int)
    decreases s.len() - i,
{
    if char_at(s, i, ',') {
        match definition_at(s, i + 1) {
            Some((d, j)) => if i < j <= s.len() {
                let (rest, k) = definitions_from(s, j);
                (seq![d] + rest, k)
            } else {
                (seq![d], j)
            },
            None => (seq![], i),
        }
    } else {
        (seq![], i)
    }
}

/// A line, surrounded by optional spaces; it may be empty.
pub open spec fn line_at(s: Seq<char>, i: int) -> (Seq<DefModel>, int) {
    let i = skip_spaces(s, i);
    match definition_at(s, i) {
        Some((d, j)) => {
            let (rest, k) = definitions_from(s, j);
            (seq![d] + rest, skip_spaces(s, k))
        },
        None => (seq![], skip_spaces(s, i)),
    }
}

/// The position after the line ending at `i`, if there is one.
pub open spec fn line_end_at(s: Seq<char>, i: int) -> Option<int> {
    if char_at(s, i, '\n') {
        Some(i + 1)
    } else if char_at(s, i, '\r') && char_at(s, i + 1, '\n') {
        Some(i + 2)
    } else {
        None
    }
}

/// Further lines, each after a line ending, from `i`.
pub open spec fn lines_from(s: Seq<char>, i: int) -> (Seq<Seq<DefModel>>, int)
    decreases s.len() - i,
{
    match line_end_at(s, i) {
        Some(j) => {
            let (l, k) = line_at(s, j);
            if i < k <= s.len() {
                let (rest, e) = lines_from(s, k);
                (seq![l] + rest, e)
            } else {
                (seq![l], k)
            }
        },
        None => (seq![], i),
    }
}

/// The lines of the program, and where they stop.
pub open spec fn root_at(s: Seq<char>) -> (Seq<Seq<DefModel>>, int) {
    let (l, j) = line_at(s, 0);
    let (rest, k) = lines_from(s, j);
    (seq![l] + rest, k)
}

/// The program `s` denotes, or the position where the text stops matching
/// the grammar.
pub open spec fn parse_spec(s: Seq<char>) -> Result<Seq<Seq<DefModel>>, int> {
    let (lines, end) = root_at(s);
    if end == s.len() {
        Ok(lines)
    } else {
        Err(end)
    }
}


/// Where the text stopped matching the grammar, counted in characters.
#[derive(Debug, Clone, Copy, PartialEq, Eq, Structural)]
pub struct ParseError {
    pub at: usize,
}

fn skip_spaces_exec(s: &Vec<char>, i: usize) -> (r: usize)
    requires
        i <= s@.len(),
        s@.len() <= usize::MAX,
    ensures
        r as int == skip_spaces(s@, i as int),
        i <= r <= s@.len(),
{
    let mut j = i;
    while j < s.len() && (s[j] == ' ' || s[j] == '\t')
        invariant
            i <= j <= s@.len(),
            skip_spaces(s@, j as int) == skip_spaces(s@, i as int),
        decreases s@.len() - j,
    {
        j = j + 1;
    }
    j
}

fn is_ident_start(c: char) -> (r: bool)
    ensures
        r == ident_start(c),
{
    ('a' <= c && c <= 'z') || ('A' <= c && c <= 'Z') || c == '_'
}

fn scan_ident_exec(s: &Vec<char>, i: usize) -> (r: usize)
    requires
        i <= s@.len(),
        s@.len() <= usize::MAX,
    ensures
        r as int == scan_ident(s@, i as int),
        i <= r <= s@.len(),
{
    let mut j = i;
    while j < s.len() && (is_ident_start(s[j]) || ('0' <= s[j] && s[j] <= '9'))
        invariant
            i <= j <= s@.len(),
            scan_ident(s@, j as int) == scan_ident(s@, i as int),
        decreases s@.len() - j,
    {
        j = j + 1;
    }
    j
}

fn scan_len_exec(s: &Vec<char>, i: usize) -> (r: usize)
    requires
        i <= s@.len(),
        s@.len() <= usize::MAX,
    ensures
        r as int == scan_len(s@, i as int),
        i <= r <= s@.len(),
{
    let mut j = i;
    while j < s.len() && s[j] != ']'
        invariant
            i <= j <= s@.len(),
            scan_len(s@, j as int) == scan_len(s@, i as int),
        decreases s@.len() - j,
    {
        j = j + 1;
    }
    j
}

fn char_at_exec(s: &Vec<char>, i: usize, c: char) -> (r: bool)
    requires
        s@.len() <= usize::MAX,
    ensures
        r == char_at(s@, i as int, c),
{
    i < s.len() && s[i] == c
}

fn word_at_exec(s: &Vec<char>, i: usize, w: &Vec<char>) -> (r: bool)
    requires
        i <= s@.len(),
        s@.len() <= usize::MAX,
    ensures
        r == word_at(s@, i as int, w@),
{
    if w.len() > s.len() - i {
        return false;
    }
    let mut k: usize = 0;
    while k < w.len()
        invariant
            i + w@.len() <= s@.len(),
            s@.len() <= usize::MAX,
            k <= w@.len(),
            forall|m: int| 0 <= m < k ==> s@[i + m] == w@[m],
        decreases w@.len() - k,
    {
        if s[i + k] != w[k] {
            assert(s@.subrange(i as int, i + w@.len())[k as int] != w@[k as int]);
            return false;
        }
        k = k + 1;
    }
    assert(s@.subrange(i as int, i + w@.len()) =~= w@);
    true
}

fn word(a: char, b: char, c: char) -> (r: Vec<char>)
    ensures
        r@ == seq![a, b, c],
{
    let mut w: Vec<char> = Vec::new();
    w.push(a);
    w.push(b);
    w.push(c);
    assert(w@ =~= seq![a, b, c]);
    w
}

fn unit_type_at_exec(s: &Vec<char>, i: usize) -> (r: Option<(UnitType, usize)>)
    requires
        i <= s@.len(),
        s@.len() <= usize::MAX,
    ensures
        match (r, unit_type_at(s@, i as int)) {
            (Some((u, j)), Some((v, k))) => u == v && j == k && j <= s@.len(),
            (None, None) => true,
            _ => false,
        },
{
    let mut int0 = word('i', 'n', 't');
    int0.push('0');
    assert(int0@ =~= seq!['i', 'n', 't', '0']);
    let mut float = word('f', 'l', 'o');
    float.push('a');
    float.push('t');
    assert(float@ =~= seq!['f', 'l', 'o', 'a', 't']);
    if word_at_exec(s, i, &int0) {
        Some((UnitType::Int0, i + 4))
    } else if word_at_exec(s, i, &word('i', 'n', 't')) {
        Some((UnitType::Int, i + 3))
    } else if word_at_exec(s, i, &float) {
        Some((UnitType::Float, i + 5))
    } else if word_at_exec(s, i, &word('s', 't', 'r')) {
        Some((UnitType::Str, i + 3))
    } else {
        None
    }
}

fn text_of(text: &str, from: usize, to: usize) -> (r: String)
    requires
        from <= to <= text@.len(),
    ensures
        r@ == text@.subrange(from as int, to as int),
{
    String::from_str(text.substring_char(from, to))
}

fn ident_at_exec(s: &Vec<char>, text: &str, i: usize) -> (r: Option<(String, usize)>)
    requires
        i <= s@.len(),
        s@.len() <= usize::MAX,
        text@ == s@,
    ensures
        match (r, ident_at(s@, i as int)) {
            (Some((v, j)), Some((w, k))) => v@ == w && j == k && j <= s@.len(),
            (None, None) => true,
            _ => false,
        },
{
    if i < s.len() && is_ident_start(s[i]) {
        let e = scan_ident_exec(s, i + 1);
        Some((text_of(text, i, e), e))
    } else {
        None
    }
}

fn len_at_exec(s: &Vec<char>, text: &str, i: usize) -> (r: Option<(Len, usize)>)
    requires
        i <= s@.len(),
        s@.len() <= usize::MAX,
        text@ == s@,
    ensures
        match (r, len_at(s@, i as int)) {
            (Some((v, j)), Some((w, k))) => v.0@ == w && j == k && j <= s@.len(),
            (None, None) => true,
            _ => false,
        },
{
    let e = scan_len_exec(s, i);
    if i < e {
        Some((Len(text_of(text, i, e)), e))
    } else {
        None
    }
}

fn array_at_exec(s: &Vec<char>, text: &str, i: usize) -> (r: Option<(Array, usize)>)
    requires
        i <= s@.len(),
        s@.len() <= usize::MAX,
        text@ == s@,
    ensures
        match (r, array_at(s@, i as int)) {
            (Some((a, j)), Some((m, k))) => a@ == m && j == k && j <= s@.len(),
            (None, None) => true,
            _ => false,
        },
{
    if !char_at_exec(s, i, '[') {
        return None;
    }
    let (u, j) = match unit_type_at_exec(s, skip_spaces_exec(s, i + 1)) {
        Some(p) => p,
        None => {
            return None;
        },
    };
    let j = skip_spaces_exec(s, j);
    if !char_at_exec(s, j, ';') {
        return None;
    }
    let (len, k) = match len_at_exec(s, text, skip_spaces_exec(s, j + 1)) {
        Some(p) => p,
        None => {
            return None;
        },
    };
    let k = skip_spaces_exec(s, k);
    if !char_at_exec(s, k, ']') {
        return None;
    }
    Some((Array(u, len), k + 1))
}

fn list_at_exec(s: &Vec<char>, i: usize) -> (r: Option<(UnitType, usize)>)
    requires
        i <= s@.len(),
        s@.len() <= usize::MAX,
    ensures
        match (r, list_at(s@, i as int)) {
            (Some((u, j)), Some((v, k))) => u == v && j == k && j <= s@.len(),
            (None, None) => true,
            _ => false,
        },
{
    if !char_at_exec(s, i, '[') {
        return None;
    }
    let (u, j) = match unit_type_at_exec(s, skip_spaces_exec(s, i + 1)) {
        Some(p) => p,
        None => {
            return None;
        },
    };
    let j = skip_spaces_exec(s, j);
    if !char_at_exec(s, j, ']') {
        return None;
    }
    Some((u, j + 1))
}

fn elem_at_exec(s: &Vec<char>, text: &str, i: usize) -> (r: Option<(TupleElem, usize)>)
    requires
        i <= s@.len(),
        s@.len() <= usize::MAX,
        text@ == s@,
    ensures
        match (r, elem_at(s@, i as int)) {
            (Some((e, j)), Some((m, k))) => e@ == m && j == k && j <= s@.len(),
            (None, None) => true,
            _ => false,
        },
{
    let i = skip_spaces_exec(s, i);
    match unit_type_at_exec(s, i) {
        Some((u, j)) => Some((TupleElem::UnitType(u), skip_spaces_exec(s, j))),
        None => match array_at_exec(s, text, i) {
            Some((a, j)) => Some((TupleElem::Array(a), skip_spaces_exec(s, j))),
            None => match list_at_exec(s, i) {
                Some((u, j)) => Some((TupleElem::List(List(u)), skip_spaces_exec(s, j))),
                None => None,
            },
        },
    }
}

pub open spec fn elems_model(v: Seq<TupleElem>) -> Seq<ElemModel> {
    v.map_values(|e: TupleElem| e@)
}

fn elems_from_exec(s: &Vec<char>, text: &str, i: usize, acc: &mut Vec<TupleElem>) -> (r: usize)
    requires
        i <= s@.len(),
        s@.len() <= usize::MAX,
        text@ == s@,
    ensures
        r <= s@.len(),
        (elems_model(final(acc)@), r as int) == ({
            let (rest, e) = elems_from(s@, i as int);
            (elems_model(old(acc)@) + rest, e)
        }),
{
    let mut pos = i;
    while char_at_exec(s, pos, ',')
        invariant
            pos <= s@.len(),
            s@.len() <= usize::MAX,
            text@ == s@,
            ({
                let (rest, e) = elems_from(s@, pos as int);
                (elems_model(acc@) + rest, e)
            }) == ({
                let (rest, e) = elems_from(s@, i as int);
                (elems_model(old(acc)@) + rest, e)
            }),
        decreases s@.len() - pos,
    {
        match elem_at_exec(s, text, pos + 1) {
            Some((e, j)) => {
                let ghost m = e@;
                let ghost before = elems_model(acc@);
                acc.push(e);
                assert(elems_model(acc@) =~= before.push(m));
                if pos < j {
                    let ghost (rest, k) = elems_from(s@, j as int);
                    assert(before + (seq![m] + rest) =~= before.push(m) + rest);
                    pos = j;
                } else {
                    assert(before + seq![m] =~= before.push(m));
                    return j;
                }
            },
            None => {
                return pos;
            },
        }
    }
    proof {
        let (rest, e) = elems_from(s@, pos as int);
        assert(elems_model(acc@) + rest =~= elems_model(acc@));
    }
    pos
}

fn tuple_at_exec(s: &Vec<char>, text: &str, i: usize) -> (r: Option<(Tuple, usize)>)
    requires
        i <= s@.len(),
        s@.len() <= usize::MAX,
        text@ == s@,
    ensures
        match (r, tuple_at(s@, i as int)) {
            (Some((t, j)), Some((m, k))) => t@ == m && j == k && j <= s@.len(),
            (None, None) => true,
            _ => false,
        },
{
    if !char_at_exec(s, i, '(') {
        return None;
    }
    let (e, j) = match elem_at_exec(s, text, i + 1) {
        Some(p) => p,
        None => {
            return None;
        },
    };
    let mut elems: Vec<TupleElem> = Vec::new();
    let ghost m = e@;
    elems.push(e);
    assert(elems_model(elems@) =~= seq![m]);
    let k = elems_from_exec(s, text, j, &mut elems);
    if !char_at_exec(s, k, ')') {
        return None;
    }
    Some((Tuple(elems), k + 1))
}

fn tuple_like_at_exec(s: &Vec<char>, text: &str, i: usize) -> (r: Option<(TupleLike, usize)>)
    requires
        i <= s@.len(),
        s@.len() <= usize::MAX,
        text@ == s@,
    ensures
        match (r, tuple_like_at(s@, i as int)) {
            (Some((t, j)), Some((m, k))) => t@ == m && j == k && j <= s@.len(),
            (None, None) => true,
            _ => false,
        },
{
    match tuple_at_exec(s, text, i) {
        Some((t, j)) => Some((TupleLike::Tuple(t), j)),
        None => match array_at_exec(s, text, i) {
            Some((a, j)) => Some((TupleLike::Array(a), j)),
            None => match list_at_exec(s, i) {
                Some((u, j)) => Some((TupleLike::List(List(u)), j)),
                None => None,
            },
        },
    }
}

fn matrix_at_exec(s: &Vec<char>, text: &str, i: usize) -> (r: Option<(Matrix, usize)>)
    requires
        i <= s@.len(),
        s@.len() <= usize::MAX,
        text@ == s@,
    ensures
        match (r, matrix_at(s@, i as int)) {
            (Some((a, j)), Some((m, k))) => a@ == m && j == k && j <= s@.len(),
            (None, None) => true,
            _ => false,
        },
{
    if !char_at_exec(s, i, '[') {
        return None;
    }
    let (row, j) = match tuple_like_at_exec(s, text, skip_spaces_exec(s, i + 1)) {
        Some(p) => p,
        None => {
            return None;
        },
    };
    let j = skip_spaces_exec(s, j);
    if !char_at_exec(s, j, ';') {
        return None;
    }
    let (len, k) = match len_at_exec(s, text, skip_spaces_exec(s, j + 1)) {
        Some(p) => p,
        None => {
            return None;
        },
    };
    let k = skip_spaces_exec(s, k);
    if !char_at_exec(s, k, ']') {
        return None;
    }
    Some((Matrix(row, len), k + 1))
}

fn type_at_exec(s: &Vec<char>, text: &str, i: usize) -> (r: Option<(Type, usize)>)
    requires
        i <= s@.len(),
        s@.len() <= usize::MAX,
        text@ == s@,
    ensures
        match (r, type_at(s@, i as int)) {
            (Some((t, j)), Some((m, k))) => t@ == m && j == k && j <= s@.len(),
            (None, None) => true,
            _ => false,
        },
{
    match unit_type_at_exec(s, i) {
        Some((u, j)) => Some((Type::UnitType(u), j)),
        None => match tuple_like_at_exec(s, text, i) {
            Some((t, j)) => Some((Type::TupleLike(t), j)),
            None => match matrix_at_exec(s, text, i) {
                Some((m, j)) => Some((Type::Matrix(m), j)),
                None => None,
            },
        },
    }
}

fn definition_at_exec(s: &Vec<char>, text: &str, i: usize) -> (r: Option<(Definition, usize)>)
    requires
        i <= s@.len(),
        s@.len() <= usize::MAX,
        text@ == s@,
    ensures
        match (r, definition_at(s@, i as int)) {
            (Some((d, j)), Some((m, k))) => d@ == m && j == k && j <= s@.len(),
            (None, None) => true,
            _ => false,
        },
{
    let (var, j) = match ident_at_exec(s, text, skip_spaces_exec(s, i)) {
        Some(p) => p,
        None => {
            return None;
        },
    };
    let j = skip_spaces_exec(s, j);
    if !char_at_exec(s, j, ':') {
        return None;
    }
    match type_at_exec(s, text, skip_spaces_exec(s, j + 1)) {
        Some((ty, k)) => Some((Definition(Var(var), ty), skip_spaces_exec(s, k))),
        None => None,
    }
}

pub open spec fn defs_model(v: Seq<Definition>) -> Seq<DefModel> {
    v.map_values(|d: Definition| d@)
}

fn definitions_from_exec(s: &Vec<char>, text: &str, i: usize, acc: &mut Vec<Definition>) -> (r: usize)
    requires
        i <= s@.len(),
        s@.len() <= usize::MAX,
        text@ == s@,
    ensures
        r <= s@.len(),
        (defs_model(final(acc)@), r as int) == ({
            let (rest, e) = definitions_from(s@, i as int);
            (defs_model(old(acc)@) + rest, e)
        }),
{
    let mut pos = i;
    while char_at_exec(s, pos, ',')
        invariant
            pos <= s@.len(),
            s@.len() <= usize::MAX,
            text@ == s@,
            ({
                let (rest, e) = definitions_from(s@, pos as int);
                (defs_model(acc@) + rest, e)
            }) == ({
                let (rest, e) = definitions_from(s@, i as int);
                (defs_model(old(acc)@) + rest, e)
            }),
        decreases s@.len() - pos,
    {
        match definition_at_exec(s, text, pos + 1) {
            Some((d, j)) => {
                let ghost m = d@;
                let ghost before = defs_model(acc@);
                acc.push(d);
                assert(defs_model(acc@) =~= before.push(m));
                if pos < j {
                    let ghost (rest, k) = definitions_from(s@, j as int);
                    assert(before + (seq![m] + rest) =~= before.push(m) + rest);
                    pos = j;
                } else {
                    assert(before + seq![m] =~= before.push(m));
                    return j;
                }
            },
            None => {
                return pos;
            },
        }
    }
    proof {
        let (rest, e) = definitions_from(s@, pos as int);
        assert(defs_model(acc@) + rest =~= defs_model(acc@));
    }
    pos
}

fn line_at_exec(s: &Vec<char>, text: &str, i: usize) -> (r: (Line, usize))
    requires
        i <= s@.len(),
        s@.len() <= usize::MAX,
        text@ == s@,
    ensures
        (r.0@, r.1 as int) == line_at(s@, i as int),
        r.1 <= s@.len(),
{
    let i = skip_spaces_exec(s, i);
    match definition_at_exec(s, text, i) {
        Some((d, j)) => {
            let mut defs: Vec<Definition> = Vec::new();
            let ghost m = d@;
            defs.push(d);
            assert(defs_model(defs@) =~= seq![m]);
            let k = definitions_from_exec(s, text, j, &mut defs);
            (Line(defs), skip_spaces_exec(s, k))
        },
        None => {
            let line = Line(Vec::new());
            assert(line@ =~= Seq::<DefModel>::empty());
            (line, skip_spaces_exec(s, i))
        },
    }
}

fn line_end_at_exec(s: &Vec<char>, i: usize) -> (r: Option<usize>)
    requires
        i <= s@.len(),
        s@.len() <= usize::MAX,
    ensures
        match (r, line_end_at(s@, i as int)) {
            (Some(j), Some(k)) => j == k && j <= s@.len(),
            (None, None) => true,
            _ => false,
        },
{
    if char_at_exec(s, i, '\n') {
        Some(i + 1)
    } else if char_at_exec(s, i, '\r') && char_at_exec(s, i + 1, '\n') {
        Some(i + 2)
    } else {
        None
    }
}

pub open spec fn lines_model(v: Seq<Line>) -> Seq<Seq<DefModel>> {
    v.map_values(|l: Line| l@)
}

fn lines_from_exec(s: &Vec<char>, text: &str, i: usize, acc: &mut Vec<Line>) -> (r: usize)
    requires
        i <= s@.len(),
        s@.len() <= usize::MAX,
        text@ == s@,
    ensures
        r <= s@.len(),
        (lines_model(final(acc)@), r as int) == ({
            let (rest, e) = lines_from(s@, i as int);
            (lines_model(old(acc)@) + rest, e)
        }),
{
    let mut pos = i;
    loop
        invariant
            pos <= s@.len(),
            s@.len() <= usize::MAX,
            text@ == s@,
            ({
                let (rest, e) = lines_from(s@, pos as int);
                (lines_model(acc@) + rest, e)
            }) == ({
                let (rest, e) = lines_from(s@, i as int);
                (lines_model(old(acc)@) + rest, e)
            }),
        decreases s@.len() - pos,
    {
        match line_end_at_exec(s, pos) {
            Some(j) => {
                let (l, k) = line_at_exec(s, text, j);
                let ghost m = l@;
                let ghost before = lines_model(acc@);
                acc.push(l);
                assert(lines_model(acc@) =~= before.push(m));
                if pos < k {
                    let ghost (rest, e) = lines_from(s@, k as int);
                    assert(before + (seq![m] + rest) =~= before.push(m) + rest);
                    pos = k;
                } else {
                    assert(before + seq![m] =~= before.push(m));
                    return k;
                }
            },
            None => {
                proof {
                    let (rest, e) = lines_from(s@, pos as int);
                    assert(lines_model(acc@) + rest =~= lines_model(acc@));
                }
                return pos;
            },
        }
    }
}

/// The characters of `text`, in order.
fn chars_of(text: &str) -> (r: Vec<char>)
    ensures
        r@ == text@,
{
    let n = text.unicode_len();
    let mut out: Vec<char> = Vec::new();
    let mut i: usize = 0;
    while i < n
        invariant
            n == text@.len(),
            i <= n,
            out@ =~= text@.take(i as int),
        decreases n - i,
    {
        out.push(text.get_char(i));
        i = i + 1;
    }
    out
}

/// Reads the program that `input` describes.
pub fn parse(input: &str) -> (r: Result<Root, ParseError>)
    ensures
        match (r, parse_spec(input@)) {
            (Ok(root), Ok(m)) => root@ == m,
            (Err(e), Err(p)) => e.at as int == p,
            _ => false,
        },
{
    let s = chars_of(input);
    let n = s.len();
    let (first, j) = line_at_exec(&s, input, 0);
    let mut lines: Vec<Line> = Vec::new();
    let ghost m = first@;
    lines.push(first);
    assert(lines_model(lines@) =~= seq![m]);
    let k = lines_from_exec(&s, input, j, &mut lines);
    let root = Root(lines);
    assert(root@ =~= lines_model(lines@));
    if k == n {
        Ok(root)
    } else {
        Err(ParseError { at: k })
    }
}


/// The scalar kind `input` names, if `input` is exactly that and nothing more.
pub fn parse_unit_type(input: &str) -> (r: Result<UnitType, ParseError>)
    ensures
        match (r, unit_type_at(input@, 0)) {
            (Ok(v), Some((m, k))) => v == m && k == input@.len(),
            (Err(e), Some((_, k))) => k != input@.len() && e.at as int == k,
            (Err(e), None) => e.at == 0,
            _ => false,
        },
{
    let s = chars_of(input);
    let n = s.len();
    match unit_type_at_exec(&s, 0) {
        Some((v, j)) => if j == n {
            Ok(v)
        } else {
            Err(ParseError { at: j })
        },
        None => Err(ParseError { at: 0 }),
    }
}

/// The name `input` spells, if `input` is exactly that and nothing more.
pub fn parse_var(input: &str) -> (r: Result<String, ParseError>)
    ensures
        match (r, ident_at(input@, 0)) {
            (Ok(v), Some((m, k))) => v@ == m && k == input@.len(),
            (Err(e), Some((_, k))) => k != input@.len() && e.at as int == k,
            (Err(e), None) => e.at == 0,
            _ => false,
        },
{
    let s = chars_of(input);
    let n = s.len();
    match ident_at_exec(&s, input, 0) {
        Some((v, j)) => if j == n {
            Ok(v)
        } else {
            Err(ParseError { at: j })
        },
        None => Err(ParseError { at: 0 }),
    }
}

/// The length expression `input` holds, if `input` is exactly that and nothing more.
pub fn parse_len(input: &str) -> (r: Result<Len, ParseError>)
    ensures
        match (r, len_at(input@, 0)) {
            (Ok(v), Some((m, k))) => v.0@ == m && k == input@.len(),
            (Err(e), Some((_, k))) => k != input@.len() && e.at as int == k,
            (Err(e), None) => e.at == 0,
            _ => false,
        },
{
    let s = chars_of(input);
    let n = s.len();
    match len_at_exec(&s, input, 0) {
        Some((v, j)) => if j == n {
            Ok(v)
        } else {
            Err(ParseError { at: j })
        },
        None => Err(ParseError { at: 0 }),
    }
}

/// The array type `input` describes, if `input` is exactly that and nothing more.
pub fn parse_array(input: &str) -> (r: Result<Array, ParseError>)
    ensures
        match (r, array_at(input@, 0)) {
            (Ok(v), Some((m, k))) => v@ == m && k == input@.len(),
            (Err(e), Some((_, k))) => k != input@.len() && e.at as int == k,
            (Err(e), None) => e.at == 0,
            _ => false,
        },
{
    let s = chars_of(input);
    let n = s.len();
    match array_at_exec(&s, input, 0) {
        Some((v, j)) => if j == n {
            Ok(v)
        } else {
            Err(ParseError { at: j })
        },
        None => Err(ParseError { at: 0 }),
    }
}

/// The element kind of the list type `input` describes, if `input` is exactly that and nothing more.
pub fn parse_list(input: &str) -> (r: Result<UnitType, ParseError>)
    ensures
        match (r, list_at(input@, 0)) {
            (Ok(v), Some((m, k))) => v == m && k == input@.len(),
            (Err(e), Some((_, k))) => k != input@.len() && e.at as int == k,
            (Err(e), None) => e.at == 0,
            _ => false,
        },
{
    let s = chars_of(input);
    let n = s.len();
    match list_at_exec(&s, 0) {
        Some((v, j)) => if j == n {
            Ok(v)
        } else {
            Err(ParseError { at: j })
        },
        None => Err(ParseError { at: 0 }),
    }
}

/// The tuple type `input` describes, if `input` is exactly that and nothing more.
pub fn parse_tuple(input: &str) -> (r: Result<Tuple, ParseError>)
    ensures
        match (r, tuple_at(input@, 0)) {
            (Ok(v), Some((m, k))) => v@ == m && k == input@.len(),
            (Err(e), Some((_, k))) => k != input@.len() && e.at as int == k,
            (Err(e), None) => e.at == 0,
            _ => false,
        },
{
    let s = chars_of(input);
    let n = s.len();
    match tuple_at_exec(&s, input, 0) {
        Some((v, j)) => if j == n {
            Ok(v)
        } else {
            Err(ParseError { at: j })
        },
        None => Err(ParseError { at: 0 }),
    }
}

/// The matrix type `input` describes, if `input` is exactly that and nothing more.
pub fn parse_matrix(input: &str) -> (r: Result<Matrix, ParseError>)
    ensures
        match (r, matrix_at(input@, 0)) {
            (Ok(v), Some((m, k))) => v@ == m && k == input@.len(),
            (Err(e), Some((_, k))) => k != input@.len() && e.at as int == k,
            (Err(e), None) => e.at == 0,
            _ => false,
        },
{
    let s = chars_of(input);
    let n = s.len();
    match matrix_at_exec(&s, input, 0) {
        Some((v, j)) => if j == n {
            Ok(v)
        } else {
            Err(ParseError { at: j })
        },
        None => Err(ParseError { at: 0 }),
    }
}

/// The definition `input` holds, if `input` is exactly that and nothing more.
pub fn parse_definition(input: &str) -> (r: Result<Definition, ParseError>)
    ensures
        match (r, definition_at(input@, 0)) {
            (Ok(v), Some((m, k))) => v@ == m && k == input@.len(),
            (Err(e), Some((_, k))) => k != input@.len() && e.at as int == k,
            (Err(e), None) => e.at == 0,
            _ => false,
        },
{
    let s = chars_of(input);
    let n = s.len();
    match definition_at_exec(&s, input, 0) {
        Some((v, j)) => if j == n {
            Ok(v)
        } else {
            Err(ParseError { at: j })
        },
        None => Err(ParseError { at: 0 }),
    }
}

/// The definitions of the one line `input` holds, if it is exactly that.
pub fn parse_line(input: &str) -> (r: Result<Line, ParseError>)
    ensures
        match r {
            Ok(v) => line_at(input@, 0) == (v@, input@.len() as int),
            Err(e) => line_at(input@, 0).1 != input@.len() && e.at as int == line_at(input@, 0).1,
        },
{
    let s = chars_of(input);
    let n = s.len();
    let (line, j) = line_at_exec(&s, input, 0);
    if j == n {
        Ok(line)
    } else {
        Err(ParseError { at: j })
    }
}


/// Every tuple in the definition has at least one element.
pub open spec fn tuples_nonempty(d: DefModel) -> bool {
    match d.ty {
        TypeModel::Unit(_) => true,
        TypeModel::Row(r) => r is Tuple ==> r->Tuple_0.len() >= 1,
        TypeModel::Matrix(r, _) => r is Tuple ==> r->Tuple_0.len() >= 1,
    }
}

pub open spec fn all_tuples_nonempty(defs: Seq<DefModel>) -> bool {
    forall|k: int| 0 <= k < defs.len() ==> tuples_nonempty(#[trigger] defs[k])
}

proof fn lemma_definition_nonempty(s: Seq<char>, i: int)
    ensures
        definition_at(s, i) is Some ==> tuples_nonempty(definition_at(s, i)->Some_0.0),
{
}

proof fn lemma_definitions_nonempty(s: Seq<char>, i: int)
    ensures
        all_tuples_nonempty(definitions_from(s, i).0),
    decreases s.len() - i,
{
    if char_at(s, i, ',') {
        lemma_definition_nonempty(s, i + 1);
        match definition_at(s, i + 1) {
            Some((d, j)) => if i < j <= s.len() {
                lemma_definitions_nonempty(s, j);
                let (rest, k) = definitions_from(s, j);
                assert forall|m: int| 0 <= m < (seq![d] + rest).len() implies tuples_nonempty(
                    #[trigger] (seq![d] + rest)[m],
                ) by {
                    if m > 0 {
                        assert((seq![d] + rest)[m] == rest[m - 1]);
                    }
                }
            },
            None => {},
        }
    }
}

proof fn lemma_line_nonempty(s: Seq<char>, i: int)
    ensures
        all_tuples_nonempty(line_at(s, i).0),
{
    let i0 = skip_spaces(s, i);
    lemma_definition_nonempty(s, i0);
    match definition_at(s, i0) {
        Some((d, j)) => {
            lemma_definitions_nonempty(s, j);
            let (rest, k) = definitions_from(s, j);
            assert forall|m: int| 0 <= m < (seq![d] + rest).len() implies tuples_nonempty(
                #[trigger] (seq![d] + rest)[m],
            ) by {
                if m > 0 {
                    assert((seq![d] + rest)[m] == rest[m - 1]);
                }
            }
        },
        None => {},
    }
}

proof fn lemma_lines_nonempty(s: Seq<char>, i: int)
    ensures
        forall|m: int| 0 <= m < lines_from(s, i).0.len() ==> all_tuples_nonempty(#[trigger] lines_from(s, i).0[m]),
    decreases s.len() - i,
{
    match line_end_at(s, i) {
        Some(j) => {
            lemma_line_nonempty(s, j);
            let (l, k) = line_at(s, j);
            if i < k <= s.len() {
                lemma_lines_nonempty(s, k);
                let (rest, e) = lines_from(s, k);
                assert forall|m: int| 0 <= m < (seq![l] + rest).len() implies all_tuples_nonempty(
                    #[trigger] (seq![l] + rest)[m],
                ) by {
                    if m > 0 {
                        assert((seq![l] + rest)[m] == rest[m - 1]);
                    }
                }
            }
        },
        None => {},
    }
}

/// The grammar gives every tuple at least one element.
pub proof fn parsed_tuples_are_nonempty(s: Seq<char>)
    ensures
        parse_spec(s) is Ok ==> forall|i: int|
            0 <= i < parse_spec(s)->Ok_0.len() ==> all_tuples_nonempty(#[trigger] parse_spec(s)->Ok_0[i]),
{
    let (l, j) = line_at(s, 0);
    lemma_line_nonempty(s, 0);
    lemma_lines_nonempty(s, j);
    let (rest, k) = lines_from(s, j);
    assert forall|m: int| 0 <= m < (seq![l] + rest).len() implies all_tuples_nonempty(#[trigger] (seq![l] + rest)[m]) by {
        if m > 0 {
            assert((seq![l] + rest)[m] == rest[m - 1]);
        }
    }
}

} // verus!
