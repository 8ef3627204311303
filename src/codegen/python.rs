//! Python 3.
use vstd::prelude::*;
use crate::ast::{Array, List, Matrix, RowModel, UnitType};
use crate::codegen::readline::{tuple_like, tuple_like_spec, LineBackend};
use crate::codegen::{binds_of, emitted, lines_part, join_binds, new_var, Bind, Emitted, Error, Index, Range, Slice};
use crate::names::{after, fresh_name, Namer};
use crate::text::{append_code, cat, decimal, indented, joined, lines_of, push_line, Code};

verus! {

pub struct Python;

pub open spec fn convert_spec(ty: UnitType, v: Seq<char>) -> Seq<char> {
    match ty {
        UnitType::Int => "int("@ + v + ")"@,
        UnitType::Float => "float("@ + v + ")"@,
        UnitType::Int0 => "(int("@ + v + ")-1)"@,
        UnitType::Str => v,
    }
}

pub open spec fn read_line_spec(bind: Seq<char>, c: u64) -> (Seq<Seq<char>>, Seq<char>, u64) {
    (seq![bind + " = input().split()"@], "len("@ + bind + ")"@, c)
}

pub open spec fn unit_type_spec(
    bind: Seq<char>,
    ty: UnitType,
    xs: Seq<char>,
    lo: Seq<char>,
    hi: Seq<char>,
    c: u64,
) -> (Seq<Seq<char>>, u64) {
    (seq![bind + " = "@ + convert_spec(ty, xs + "["@ + lo + ":"@ + hi + "][0]"@)], c)
}

pub open spec fn array_spec(
    bind: Seq<char>,
    ty: UnitType,
    len: Seq<char>,
    xs: Seq<char>,
    lo: Seq<char>,
    hi: Seq<char>,
    c: u64,
) -> (Seq<Seq<char>>, u64) {
    (
        seq![bind + " = ["@ + convert_spec(ty, "x"@) + " for x in "@ + xs + "["@ + lo + ":"@ + hi + "]]"@],
        c,
    )
}

/// The elements of a list: the scalars `xs[lo+1..hi]` bound to `bind`.
pub open spec fn list_elements_spec(
    bind: Seq<char>,
    ty: UnitType,
    xs: Seq<char>,
    lo: Seq<char>,
    hi: Seq<char>,
    c: u64,
) -> (Seq<Seq<char>>, u64) {
    (
        seq![bind + " = ["@ + convert_spec(ty, "x"@) + " for x in "@ + xs + "[("@ + lo + "+1):"@ + hi + "]]"@],
        c,
    )
}

/// The count token `t` read into the new variable `n`.
pub open spec fn count_spec(n: Seq<char>, t: Seq<char>) -> Seq<char> {
    n + " = int("@ + t + ")"@
}

/// A list over `[lo, hi)`: its count `xs[lo]` read into a fresh name, then
/// its elements `xs[lo+1..hi]` bound to `bind`.
pub open spec fn list_spec(
    bind: Seq<char>,
    ty: UnitType,
    xs: Seq<char>,
    lo: Seq<char>,
    hi: Seq<char>,
    c: u64,
) -> (Seq<Seq<char>>, u64) {
    let n = crate::names::fresh_name(c);
    let (body, c1) = list_elements_spec(bind, ty, xs, lo, hi, crate::names::after(c));
    (seq![count_spec(n, xs + "["@ + lo + "]"@)] + body, c1)
}

pub open spec fn matrix_spec(bind: Seq<char>, row: RowModel, rep: Seq<char>, c: u64) -> Emitted {
    let line = fresh_name(c);
    let (read, len, c1) = read_line_spec(line, after(c));
    let t = fresh_name(c1);
    match tuple_like_spec(LineBackend::Python, t, row, line, decimal(0), len, after(c1)) {
        Ok((body, c2)) => Ok((
            seq![bind + " = []"@, "for _ in range("@ + rep + "):"@] + indented("\t"@, read) + indented(
                "\t"@,
                body,
            ) + seq!["\t"@ + bind + ".append("@ + t + ")"@],
            c2,
        )),
        Err(e) => Err(e),
    }
}

pub open spec fn tuple_spec(bind: Seq<char>, binds: Seq<Seq<char>>) -> Result<Seq<Seq<char>>, Error> {
    Ok(seq![bind + " = ("@ + joined(binds, ","@) + ")"@])
}

fn unit_type_convert(ty: &UnitType, v: &str) -> (r: String)
    ensures
        r@ == convert_spec(*ty, v@),
{
    match ty {
        UnitType::Int => cat("int(", v).concat(")"),
        UnitType::Float => cat("float(", v).concat(")"),
        UnitType::Int0 => cat("(int(", v).concat(")-1)"),
        UnitType::Str => String::from_str(v),
    }
}

fn count_line(n: &Bind, t: &str) -> (r: String)
    ensures
        r@ == count_spec(n@, t@),
{
    cat(n.as_str(), " = int(").concat(t).concat(")")
}

impl Python {
    pub fn read_line(names: &mut Namer, bind: Bind) -> (r: (Code, Index))
        ensures
            (lines_of(r.0), r.1@, final(names).next) == read_line_spec(bind@, old(names).next),
    {
        let mut code: Code = Vec::new();
        push_line(&mut code, cat(bind.as_str(), " = input().split()"));
        let len = Index(cat("len(", bind.as_str()).concat(")"));
        (code, len)
    }

    pub fn unit_type(names: &mut Namer, bind: Bind, ast: &UnitType, source: Slice) -> (r: Code)
        ensures
            (lines_of(r), final(names).next) == unit_type_spec(
                bind@,
                *ast,
                source@.0,
                source@.1,
                source@.2,
                old(names).next,
            ),
    {
        let Slice(xs, Range(i, j)) = source;
        let v = cat(xs.as_str(), "[").concat(i.0.as_str()).concat(":").concat(j.0.as_str()).concat("][0]");
        let mut code: Code = Vec::new();
        push_line(&mut code, cat(bind.as_str(), " = ").concat(unit_type_convert(ast, v.as_str()).as_str()));
        code
    }

    pub fn array(names: &mut Namer, bind: Bind, ast: &Array, source: Slice) -> (r: Code)
        ensures
            (lines_of(r), final(names).next) == array_spec(
                bind@,
                ast@.0,
                ast@.1,
                source@.0,
                source@.1,
                source@.2,
                old(names).next,
            ),
    {
        let Slice(xs, Range(i, j)) = source;
        let line = cat(bind.as_str(), " = [").concat(unit_type_convert(&ast.0, "x").as_str()).concat(
            " for x in ",
        ).concat(xs.as_str()).concat("[").concat(i.0.as_str()).concat(":").concat(j.0.as_str()).concat("]]");
        let mut code: Code = Vec::new();
        push_line(&mut code, line);
        code
    }

    fn list_elements(names: &mut Namer, bind: Bind, ast: &List, source: Slice) -> (r: Code)
        ensures
            (lines_of(r), final(names).next) == list_elements_spec(
                bind@,
                ast.0,
                source@.0,
                source@.1,
                source@.2,
                old(names).next,
            ),
    {
        let Slice(xs, Range(i, j)) = source;
        let line = cat(bind.as_str(), " = [").concat(unit_type_convert(&ast.0, "x").as_str()).concat(
            " for x in ",
        ).concat(xs.as_str()).concat("[(").concat(i.0.as_str()).concat("+1):").concat(j.0.as_str()).concat("]]");
        let mut code: Code = Vec::new();
        push_line(&mut code, line);
        code
    }

    pub fn list(names: &mut Namer, bind: Bind, ast: &List, source: Slice) -> (r: Code)
        ensures
            (lines_of(r), final(names).next) == list_spec(
                bind@,
                ast.0,
                source@.0,
                source@.1,
                source@.2,
                old(names).next,
            ),
    {
        let n = crate::codegen::new_var(names);
        let token = cat(source.0.as_str(), "[").concat(source.1.0.0.as_str()).concat("]");
        let mut code: Code = Vec::new();
        push_line(&mut code, count_line(&n, token.as_str()));
        let body = Self::list_elements(names, bind, ast, source);
        crate::text::extend_code(&mut code, body);
        code
    }

    pub fn matrix(names: &mut Namer, bind: Bind, ast: &Matrix) -> (r: Result<Code, Error>)
        ensures
            emitted(r, final(names).next, matrix_spec(bind@, ast@.0, ast@.1, old(names).next)),
    {
        let mut code: Code = Vec::new();
        push_line(&mut code, cat(bind.as_str(), " = []"));
        push_line(&mut code, cat("for _ in range(", ast.1.0.as_str()).concat("):"));
        let line = new_var(names);
        let (read, len) = Python::read_line(names, line.dup());
        append_code(&mut code, "\t", read);
        let t = new_var(names);
        let body = tuple_like(LineBackend::Python, names, t.dup(), &ast.0, Slice(line, Range(Index::zero(), len)));
        match body {
            Ok(body) => {
                append_code(&mut code, "\t", body);
                push_line(&mut code, cat("\t", bind.as_str()).concat(".append(").concat(t.as_str()).concat(")"));
                assert(lines_of(code) =~= lines_part(matrix_spec(bind@, ast@.0, ast@.1, old(names).next)));
                Ok(code)
            },
            Err(e) => Err(e),
        }
    }

    pub fn tuple(bind: Bind, elems: Vec<Bind>) -> (r: Result<Code, Error>)
        ensures
            match (r, tuple_spec(bind@, binds_of(elems@))) {
                (Ok(c), Ok(t)) => lines_of(c) == t,
                (Err(e), Err(f)) => e == f,
                _ => false,
            },
    {
        let inner = join_binds(&elems, ",");
        let mut code: Code = Vec::new();
        push_line(&mut code, cat(bind.as_str(), " = (").concat(inner.as_str()).concat(")"));
        Ok(code)
    }
}

} // verus!
