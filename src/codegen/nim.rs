//! Nim.
use vstd::prelude::*;
use crate::ast::{Array, List, Matrix, RowModel, UnitType};
use crate::codegen::readline::{tuple_like, tuple_like_spec, LineBackend};
use crate::codegen::{binds_of, emitted, join_binds, lines_part, new_var, Bind, Emitted, Error, Index, Range, Slice};
use crate::names::{after, fresh_name, Namer};
use crate::text::{append_code, cat, decimal, extend_code, indented, joined, lines_of, push_line, Code};

pub mod typing;

verus! {

pub struct Nim;

pub open spec fn read_line_spec(bind: Seq<char>, c: u64) -> (Seq<Seq<char>>, Seq<char>, u64) {
    let n = fresh_name(c);
    (seq!["let "@ + bind + " = readLine(stdin).split(' ')"@, "let "@ + n + " = len("@ + bind + ")"@], n, after(c))
}

pub open spec fn unit_type_spec(
    bind: Seq<char>,
    ty: UnitType,
    xs: Seq<char>,
    lo: Seq<char>,
    hi: Seq<char>,
    c: u64,
) -> (Seq<Seq<char>>, u64) {
    let v = xs + "["@ + lo + "]"@;
    let rhs = match ty {
        UnitType::Int => v + ".parseInt"@,
        UnitType::Int0 => "("@ + v + ".parseInt - 1)"@,
        UnitType::Float => "("@ + v + ".parseFloat)"@,
        UnitType::Str => v,
    };
    (seq!["let "@ + bind + " = "@ + rhs], c)
}

/// A procedure converting one token.
pub open spec fn mapper_spec(ty: UnitType) -> Seq<char> {
    match ty {
        UnitType::Int => "proc (x: string): int = x.parseInt"@,
        UnitType::Int0 => "proc (x: string): int = (x.parseInt - 1)"@,
        UnitType::Float => "proc (x: string): float = x.parseFloat"@,
        UnitType::Str => "proc (x: string): string = x"@,
    }
}

pub open spec fn map_spec(bind: Seq<char>, ty: UnitType, xs: Seq<char>, from: Seq<char>, hi: Seq<char>) -> Seq<char> {
    "let "@ + bind + " = "@ + xs + "["@ + from + "..<"@ + hi + "].map("@ + mapper_spec(ty) + ")"@
}

pub open spec fn array_spec(
    bind: Seq<char>,
    ty: UnitType,
    len: Seq<char>,
    xs: Seq<char>,
    lo: Seq<char>,
    hi: Seq<char>,
    c: u64,
) -> (Seq<Seq<char>>, u64) {
    (seq![map_spec(bind, ty, xs, lo, hi)], c)
}

/// The elements of a list: the scalars `xs[lo+1..hi]` bound to `bind`.
pub open spec fn list_elements_spec(
    bind: Seq<char>,
    ty: UnitType,
    xs: Seq<char>,
    lo: Seq<char>,
    hi: Seq<char>,
    c: u64,
) -> (Seq<Seq<char>>, u64) {
    (seq![map_spec(bind, ty, xs, "("@ + lo + "+1)"@, hi)], c)
}

/// The count token `t` read into the new variable `n`.
pub open spec fn count_spec(n: Seq<char>, t: Seq<char>) -> Seq<char> {
    "let "@ + n + " = "@ + t + ".parseInt"@
}

/// A list over `[lo, hi)`: its count `xs[lo]` read into a fresh name, then
/// its elements `xs[lo+1..hi]` bound to `bind`.
pub open spec fn list_spec(
    bind: Seq<char>,
    ty: UnitType,
    xs: Seq<char>,
    lo: Seq<char>,
    hi: Seq<char>,
    c: u64,
) -> (Seq<Seq<char>>, u64) {
    let n = crate::names::fresh_name(c);
    let (body, c1) = list_elements_spec(bind, ty, xs, lo, hi, crate::names::after(c));
    (seq![count_spec(n, xs + "["@ + lo + "]"@)] + body, c1)
}

pub open spec fn matrix_spec(bind: Seq<char>, row: RowModel, rep: Seq<char>, c: u64) -> Emitted {
    let line = fresh_name(c);
    let (read, len, c1) = read_line_spec(line, after(c));
    let t = fresh_name(c1);
    match tuple_like_spec(LineBackend::Nim, t, row, line, decimal(0), len, after(c1)) {
        Ok((body, c2)) => Ok((
            seq!["var "@ + bind + ": seq["@ + typing::tuple_like_spec(row) + "]"@, "for _ in 0..<"@ + rep + ":"@]
                + indented("    "@, read + body + seq![bind + ".add("@ + t + ")"@]),
            c2,
        )),
        Err(e) => Err(e),
    }
}

pub open spec fn tuple_spec(bind: Seq<char>, binds: Seq<Seq<char>>) -> Result<Seq<Seq<char>>, Error> {
    Ok(seq!["let "@ + bind + " = ("@ + joined(binds, ","@) + ")"@])
}

fn unit_type_mapper(ty: &UnitType) -> (r: &'static str)
    ensures
        r@ == mapper_spec(*ty),
{
    match ty {
        UnitType::Int => "proc (x: string): int = x.parseInt",
        UnitType::Int0 => "proc (x: string): int = (x.parseInt - 1)",
        UnitType::Float => "proc (x: string): float = x.parseFloat",
        UnitType::Str => "proc (x: string): string = x",
    }
}

fn map_line(bind: &Bind, ty: &UnitType, xs: &Bind, from: &str, hi: &str) -> (r: String)
    ensures
        r@ == map_spec(bind@, *ty, xs@, from@, hi@),
{
    cat("let ", bind.as_str()).concat(" = ").concat(xs.as_str()).concat("[").concat(from).concat("..<").concat(
        hi,
    ).concat("].map(").concat(unit_type_mapper(ty)).concat(")")
}

fn count_line(n: &Bind, t: &str) -> (r: String)
    ensures
        r@ == count_spec(n@, t@),
{
    cat("let ", n.as_str()).concat(" = ").concat(t).concat(".parseInt")
}

impl Nim {
    pub fn read_line(names: &mut Namer, bind: Bind) -> (r: (Code, Index))
        ensures
            (lines_of(r.0), r.1@, final(names).next) == read_line_spec(bind@, old(names).next),
    {
        let mut code: Code = Vec::new();
        push_line(&mut code, cat("let ", bind.as_str()).concat(" = readLine(stdin).split(' ')"));
        let n = new_var(names);
        push_line(&mut code, cat("let ", n.as_str()).concat(" = len(").concat(bind.as_str()).concat(")"));
        assert(lines_of(code) =~= read_line_spec(bind@, old(names).next).0);
        (code, Index(n.0))
    }

    pub fn unit_type(names: &mut Namer, bind: Bind, ast: &UnitType, source: Slice) -> (r: Code)
        ensures
            (lines_of(r), final(names).next) == unit_type_spec(
                bind@,
                *ast,
                source@.0,
                source@.1,
                source@.2,
                old(names).next,
            ),
    {
        let Slice(xs, Range(i, _j)) = source;
        let v = cat(xs.as_str(), "[").concat(i.0.as_str()).concat("]");
        let rhs = match ast {
            UnitType::Int => cat(v.as_str(), ".parseInt"),
            UnitType::Int0 => cat("(", v.as_str()).concat(".parseInt - 1)"),
            UnitType::Float => cat("(", v.as_str()).concat(".parseFloat)"),
            UnitType::Str => v,
        };
        let mut code: Code = Vec::new();
        push_line(&mut code, cat("let ", bind.as_str()).concat(" = ").concat(rhs.as_str()));
        code
    }

    pub fn array(names: &mut Namer, bind: Bind, ast: &Array, source: Slice) -> (r: Code)
        ensures
            (lines_of(r), final(names).next) == array_spec(
                bind@,
                ast@.0,
                ast@.1,
                source@.0,
                source@.1,
                source@.2,
                old(names).next,
            ),
    {
        let Slice(xs, Range(i, j)) = source;
        let mut code: Code = Vec::new();
        push_line(&mut code, map_line(&bind, &ast.0, &xs, i.0.as_str(), j.0.as_str()));
        code
    }

    fn list_elements(names: &mut Namer, bind: Bind, ast: &List, source: Slice) -> (r: Code)
        ensures
            (lines_of(r), final(names).next) == list_elements_spec(
                bind@,
                ast.0,
                source@.0,
                source@.1,
                source@.2,
                old(names).next,
            ),
    {
        let Slice(xs, Range(i, j)) = source;
        let from = cat("(", i.0.as_str()).concat("+1)");
        let mut code: Code = Vec::new();
        push_line(&mut code, map_line(&bind, &ast.0, &xs, from.as_str(), j.0.as_str()));
        code
    }

    pub fn list(names: &mut Namer, bind: Bind, ast: &List, source: Slice) -> (r: Code)
        ensures
            (lines_of(r), final(names).next) == list_spec(
                bind@,
                ast.0,
                source@.0,
                source@.1,
                source@.2,
                old(names).next,
            ),
    {
        let n = crate::codegen::new_var(names);
        let token = cat(source.0.as_str(), "[").concat(source.1.0.0.as_str()).concat("]");
        let mut code: Code = Vec::new();
        push_line(&mut code, count_line(&n, token.as_str()));
        let body = Self::list_elements(names, bind, ast, source);
        crate::text::extend_code(&mut code, body);
        code
    }

    pub fn matrix(names: &mut Namer, bind: Bind, ast: &Matrix) -> (r: Result<Code, Error>)
        ensures
            emitted(r, final(names).next, matrix_spec(bind@, ast@.0, ast@.1, old(names).next)),
    {
        let mut code: Code = Vec::new();
        push_line(&mut code, cat("var ", bind.as_str()).concat(": seq[").concat(typing::tuple_like(&ast.0).as_str()).concat("]"));
        push_line(&mut code, cat("for _ in 0..<", ast.1.0.as_str()).concat(":"));
        let line = new_var(names);
        let (mut inner, len) = Nim::read_line(names, line.dup());
        let t = new_var(names);
        match tuple_like(LineBackend::Nim, names, t.dup(), &ast.0, Slice(line, Range(Index::zero(), len))) {
            Ok(body) => {
                extend_code(&mut inner, body);
                push_line(&mut inner, cat(bind.as_str(), ".add(").concat(t.as_str()).concat(")"));
                append_code(&mut code, "    ", inner);
                assert(lines_of(code) =~= lines_part(matrix_spec(bind@, ast@.0, ast@.1, old(names).next)));
                Ok(code)
            },
            Err(e) => Err(e),
        }
    }

    pub fn tuple(bind: Bind, elems: Vec<Bind>) -> (r: Result<Code, Error>)
        ensures
            match (r, tuple_spec(bind@, binds_of(elems@))) {
                (Ok(c), Ok(t)) => lines_of(c) == t,
                (Err(e), Err(f)) => e == f,
                _ => false,
            },
    {
        let inner = join_binds(&elems, ",");
        let mut code: Code = Vec::new();
        push_line(&mut code, cat("let ", bind.as_str()).concat(" = (").concat(inner.as_str()).concat(")"));
        Ok(code)
    }
}

} // verus!
