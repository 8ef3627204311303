//! Ruby.
use vstd::prelude::*;
use crate::ast::{Array, List, Matrix, RowModel, UnitType};
use crate::codegen::readline::{tuple_like, tuple_like_spec, LineBackend};
use crate::codegen::{binds_of, emitted, join_binds, lines_part, new_var, Bind, Emitted, Error, Index, Range, Slice};
use crate::names::{after, fresh_name, Namer};
use crate::text::{append_code, cat, decimal, indented, joined, lines_of, push_line, Code};

verus! {

pub struct Ruby;

pub open spec fn convert_spec(ty: UnitType, v: Seq<char>) -> Seq<char> {
    match ty {
        UnitType::Int => v + ".to_i"@,
        UnitType::Int0 => "("@ + v + ".to_i - 1)"@,
        UnitType::Float => v + ".to_f"@,
        UnitType::Str => v,
    }
}

pub open spec fn read_line_spec(bind: Seq<char>, c: u64) -> (Seq<Seq<char>>, Seq<char>, u64) {
    (seq![bind + " = gets.chomp.split"@], bind + ".size"@, c)
}

pub open spec fn unit_type_spec(
    bind: Seq<char>,
    ty: UnitType,
    xs: Seq<char>,
    lo: Seq<char>,
    hi: Seq<char>,
    c: u64,
) -> (Seq<Seq<char>>, u64) {
    (seq![bind + " = "@ + convert_spec(ty, xs + "["@ + lo + "]"@)], c)
}

pub open spec fn map_spec(bind: Seq<char>, ty: UnitType, xs: Seq<char>, from: Seq<char>, hi: Seq<char>) -> Seq<char> {
    bind + " = "@ + xs + "["@ + from + "..."@ + hi + "].map { |x| "@ + convert_spec(ty, "x"@) + " }"@
}

pub open spec fn array_spec(
    bind: Seq<char>,
    ty: UnitType,
    len: Seq<char>,
    xs: Seq<char>,
    lo: Seq<char>,
    hi: Seq<char>,
    c: u64,
) -> (Seq<Seq<char>>, u64) {
    (seq![map_spec(bind, ty, xs, lo, hi)], c)
}

/// The elements of a list: the scalars `xs[lo+1..hi]` bound to `bind`.
pub open spec fn list_elements_spec(
    bind: Seq<char>,
    ty: UnitType,
    xs: Seq<char>,
    lo: Seq<char>,
    hi: Seq<char>,
    c: u64,
) -> (Seq<Seq<char>>, u64) {
    (seq![map_spec(bind, ty, xs, "("@ + lo + "+1)"@, hi)], c)
}

/// The count token `t` read into the new variable `n`.
pub open spec fn count_spec(n: Seq<char>, t: Seq<char>) -> Seq<char> {
    n + " = "@ + t + ".to_i"@
}

/// A list over `[lo, hi)`: its count `xs[lo]` read into a fresh name, then
/// its elements `xs[lo+1..hi]` bound to `bind`.
pub open spec fn list_spec(
    bind: Seq<char>,
    ty: UnitType,
    xs: Seq<char>,
    lo: Seq<char>,
    hi: Seq<char>,
    c: u64,
) -> (Seq<Seq<char>>, u64) {
    let n = crate::names::fresh_name(c);
    let (body, c1) = list_elements_spec(bind, ty, xs, lo, hi, crate::names::after(c));
    (seq![count_spec(n, xs + "["@ + lo + "]"@)] + body, c1)
}

pub open spec fn matrix_spec(bind: Seq<char>, row: RowModel, rep: Seq<char>, c: u64) -> Emitted {
    let line = fresh_name(c);
    let (read, len, c1) = read_line_spec(line, after(c));
    let t = fresh_name(c1);
    match tuple_like_spec(LineBackend::Ruby, t, row, line, decimal(0), len, after(c1)) {
        Ok((body, c2)) => Ok((
            seq![bind + " = []"@, rep + ".times do"@] + indented("  "@, read + body + seq![bind + " << "@ + t]) + seq![
                "end"@,
            ],
            c2,
        )),
        Err(e) => Err(e),
    }
}

pub open spec fn tuple_spec(bind: Seq<char>, binds: Seq<Seq<char>>) -> Result<Seq<Seq<char>>, Error> {
    if binds.len() == 1 {
        Ok(seq![bind + " = "@ + joined(binds, ", "@)])
    } else {
        Ok(seq![bind + " = ["@ + joined(binds, ", "@) + "]"@])
    }
}

fn unit_type_convert(ty: &UnitType, v: &str) -> (r: String)
    ensures
        r@ == convert_spec(*ty, v@),
{
    match ty {
        UnitType::Int => cat(v, ".to_i"),
        UnitType::Int0 => cat("(", v).concat(".to_i - 1)"),
        UnitType::Float => cat(v, ".to_f"),
        UnitType::Str => String::from_str(v),
    }
}

fn map_line(bind: &Bind, ty: &UnitType, xs: &Bind, from: &str, hi: &str) -> (r: String)
    ensures
        r@ == map_spec(bind@, *ty, xs@, from@, hi@),
{
    cat(bind.as_str(), " = ").concat(xs.as_str()).concat("[").concat(from).concat("...").concat(hi).concat(
        "].map { |x| ",
    ).concat(unit_type_convert(ty, "x").as_str()).concat(" }")
}

fn count_line(n: &Bind, t: &str) -> (r: String)
    ensures
        r@ == count_spec(n@, t@),
{
    cat(n.as_str(), " = ").concat(t).concat(".to_i")
}

impl Ruby {
    pub fn read_line(names: &mut Namer, bind: Bind) -> (r: (Code, Index))
        ensures
            (lines_of(r.0), r.1@, final(names).next) == read_line_spec(bind@, old(names).next),
    {
        let mut code: Code = Vec::new();
        push_line(&mut code, cat(bind.as_str(), " = gets.chomp.split"));
        (code, Index(cat(bind.as_str(), ".size")))
    }

    pub fn unit_type(names: &mut Namer, bind: Bind, ast: &UnitType, source: Slice) -> (r: Code)
        ensures
            (lines_of(r), final(names).next) == unit_type_spec(
                bind@,
                *ast,
                source@.0,
                source@.1,
                source@.2,
                old(names).next,
            ),
    {
        let Slice(xs, Range(i, _j)) = source;
        let v = cat(xs.as_str(), "[").concat(i.0.as_str()).concat("]");
        let mut code: Code = Vec::new();
        push_line(&mut code, cat(bind.as_str(), " = ").concat(unit_type_convert(ast, v.as_str()).as_str()));
        code
    }

    pub fn array(names: &mut Namer, bind: Bind, ast: &Array, source: Slice) -> (r: Code)
        ensures
            (lines_of(r), final(names).next) == array_spec(
                bind@,
                ast@.0,
                ast@.1,
                source@.0,
                source@.1,
                source@.2,
                old(names).next,
            ),
    {
        let Slice(xs, Range(i, j)) = source;
        let mut code: Code = Vec::new();
        push_line(&mut code, map_line(&bind, &ast.0, &xs, i.0.as_str(), j.0.as_str()));
        code
    }

    fn list_elements(names: &mut Namer, bind: Bind, ast: &List, source: Slice) -> (r: Code)
        ensures
            (lines_of(r), final(names).next) == list_elements_spec(
                bind@,
                ast.0,
                source@.0,
                source@.1,
                source@.2,
                old(names).next,
            ),
    {
        let Slice(xs, Range(i, j)) = source;
        let from = cat("(", i.0.as_str()).concat("+1)");
        let mut code: Code = Vec::new();
        push_line(&mut code, map_line(&bind, &ast.0, &xs, from.as_str(), j.0.as_str()));
        code
    }

    pub fn list(names: &mut Namer, bind: Bind, ast: &List, source: Slice) -> (r: Code)
        ensures
            (lines_of(r), final(names).next) == list_spec(
                bind@,
                ast.0,
                source@.0,
                source@.1,
                source@.2,
                old(names).next,
            ),
    {
        let n = crate::codegen::new_var(names);
        let token = cat(source.0.as_str(), "[").concat(source.1.0.0.as_str()).concat("]");
        let mut code: Code = Vec::new();
        push_line(&mut code, count_line(&n, token.as_str()));
        let body = Self::list_elements(names, bind, ast, source);
        crate::text::extend_code(&mut code, body);
        code
    }

    pub fn matrix(names: &mut Namer, bind: Bind, ast: &Matrix) -> (r: Result<Code, Error>)
        ensures
            emitted(r, final(names).next, matrix_spec(bind@, ast@.0, ast@.1, old(names).next)),
    {
        let mut code: Code = Vec::new();
        push_line(&mut code, cat(bind.as_str(), " = []"));
        push_line(&mut code, cat(ast.1.0.as_str(), ".times do"));
        let line = new_var(names);
        let (mut inner, len) = Ruby::read_line(names, line.dup());
        let t = new_var(names);
        match tuple_like(LineBackend::Ruby, names, t.dup(), &ast.0, Slice(line, Range(Index::zero(), len))) {
            Ok(body) => {
                crate::text::extend_code(&mut inner, body);
                push_line(&mut inner, cat(bind.as_str(), " << ").concat(t.as_str()));
                append_code(&mut code, "  ", inner);
                push_line(&mut code, String::from_str("end"));
                assert(lines_of(code) =~= lines_part(matrix_spec(bind@, ast@.0, ast@.1, old(names).next)));
                Ok(code)
            },
            Err(e) => Err(e),
        }
    }

    pub fn tuple(bind: Bind, elems: Vec<Bind>) -> (r: Result<Code, Error>)
        ensures
            match (r, tuple_spec(bind@, binds_of(elems@))) {
                (Ok(c), Ok(t)) => lines_of(c) == t,
                (Err(e), Err(f)) => e == f,
                _ => false,
            },
    {
        let n = elems.len();
        let inner = join_binds(&elems, ", ");
        let mut code: Code = Vec::new();
        if n == 1 {
            push_line(&mut code, cat(bind.as_str(), " = ").concat(inner.as_str()));
        } else {
            push_line(&mut code, cat(bind.as_str(), " = [").concat(inner.as_str()).concat("]"));
        }
        Ok(code)
    }
}

} // verus!
