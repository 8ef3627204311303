//! Swift.
use vstd::prelude::*;
use crate::ast::{Array, List, Matrix, RowModel, UnitType};
use crate::codegen::readline::{tuple_like, tuple_like_spec, LineBackend};
use crate::codegen::{binds_of, emitted, join_binds, lines_part, new_var, Bind, Emitted, Error, Index, Range, Slice};
use crate::names::{after, fresh_name, Namer};
use crate::text::{append_code, cat, decimal, extend_code, indented, joined, lines_of, push_line, Code};

pub mod typing;

verus! {

pub struct Swift;

pub open spec fn convert_spec(ty: UnitType, v: Seq<char>) -> Seq<char> {
    match ty {
        UnitType::Int => "Int("@ + v + ")!"@,
        UnitType::Int0 => "(Int("@ + v + ")! - 1)"@,
        UnitType::Float => "Double("@ + v + ")!"@,
        UnitType::Str => "String("@ + v + ")"@,
    }
}

pub open spec fn read_line_spec(bind: Seq<char>, c: u64) -> (Seq<Seq<char>>, Seq<char>, u64) {
    let n = fresh_name(c);
    (
        seq!["let "@ + bind + " = readLine()!.split(separator: \" \")"@, "let "@ + n + " = "@ + bind + ".count"@],
        n,
        after(c),
    )
}

pub open spec fn unit_type_spec(
    bind: Seq<char>,
    ty: UnitType,
    xs: Seq<char>,
    lo: Seq<char>,
    hi: Seq<char>,
    c: u64,
) -> (Seq<Seq<char>>, u64) {
    (seq!["let "@ + bind + " = "@ + convert_spec(ty, xs + "["@ + lo + "]"@)], c)
}

/// The tokens `xs[from..hi]` converted one by one into the new array `bind`.
pub open spec fn collect_spec(bind: Seq<char>, ty: UnitType, xs: Seq<char>, from: Seq<char>, hi: Seq<char>) -> Seq<
    Seq<char>,
> {
    seq![
        "var "@ + bind + ": "@ + typing::array_of_spec(ty) + " = []"@,
        "for i in "@ + from + " ..< "@ + hi + " {"@,
        "\t"@ + bind + ".append("@ + convert_spec(ty, xs + "[i]"@) + ")"@,
        "}"@,
    ]
}

pub open spec fn array_spec(
    bind: Seq<char>,
    ty: UnitType,
    len: Seq<char>,
    xs: Seq<char>,
    lo: Seq<char>,
    hi: Seq<char>,
    c: u64,
) -> (Seq<Seq<char>>, u64) {
    (collect_spec(bind, ty, xs, lo, hi), c)
}

/// The elements of a list: the scalars `xs[lo+1..hi]` bound to `bind`.
pub open spec fn list_elements_spec(
    bind: Seq<char>,
    ty: UnitType,
    xs: Seq<char>,
    lo: Seq<char>,
    hi: Seq<char>,
    c: u64,
) -> (Seq<Seq<char>>, u64) {
    (collect_spec(bind, ty, xs, "("@ + lo + "+1)"@, hi), c)
}

/// The count token `t` read into the new variable `n`.
pub open spec fn count_spec(n: Seq<char>, t: Seq<char>) -> Seq<char> {
    "let "@ + n + " = Int("@ + t + ")!"@
}

/// A list over `[lo, hi)`: its count `xs[lo]` read into a fresh name, then
/// its elements `xs[lo+1..hi]` bound to `bind`.
pub open spec fn list_spec(
    bind: Seq<char>,
    ty: UnitType,
    xs: Seq<char>,
    lo: Seq<char>,
    hi: Seq<char>,
    c: u64,
) -> (Seq<Seq<char>>, u64) {
    let n = crate::names::fresh_name(c);
    let (body, c1) = list_elements_spec(bind, ty, xs, lo, hi, crate::names::after(c));
    (seq![count_spec(n, xs + "["@ + lo + "]"@)] + body, c1)
}

pub open spec fn matrix_spec(bind: Seq<char>, row: RowModel, rep: Seq<char>, c: u64) -> Emitted {
    let line = fresh_name(c);
    let (read, len, c1) = read_line_spec(line, after(c));
    let t = fresh_name(c1);
    match tuple_like_spec(LineBackend::Swift, t, row, line, decimal(0), len, after(c1)) {
        Ok((body, c2)) => Ok((
            seq!["var "@ + bind + ": ["@ + typing::tuple_like_spec(row) + "] = []"@, "for _ in 0..<"@ + rep + " {"@]
                + indented("    "@, read + body + seq![bind + ".append("@ + t + ")"@]) + seq!["}"@],
            c2,
        )),
        Err(e) => Err(e),
    }
}

pub open spec fn tuple_spec(bind: Seq<char>, binds: Seq<Seq<char>>) -> Result<Seq<Seq<char>>, Error> {
    Ok(seq!["let "@ + bind + " = ("@ + joined(binds, ","@) + ")"@])
}

fn unit_type_convert(ty: &UnitType, v: &str) -> (r: String)
    ensures
        r@ == convert_spec(*ty, v@),
{
    match ty {
        UnitType::Int => cat("Int(", v).concat(")!"),
        UnitType::Int0 => cat("(Int(", v).concat(")! - 1)"),
        UnitType::Float => cat("Double(", v).concat(")!"),
        UnitType::Str => cat("String(", v).concat(")"),
    }
}

fn collect(bind: &Bind, ty: &UnitType, xs: &Bind, from: &str, hi: &str) -> (r: Code)
    ensures
        lines_of(r) == collect_spec(bind@, *ty, xs@, from@, hi@),
{
    let mut code: Code = Vec::new();
    push_line(&mut code, cat("var ", bind.as_str()).concat(": ").concat(cat("[", typing::unit_type(ty).as_str()).concat("]").as_str()).concat(" = []"));
    push_line(&mut code, cat("for i in ", from).concat(" ..< ").concat(hi).concat(" {"));
    let v = cat(xs.as_str(), "[i]");
    push_line(&mut code, cat("\t", bind.as_str()).concat(".append(").concat(unit_type_convert(ty, v.as_str()).as_str()).concat(")"));
    push_line(&mut code, String::from_str("}"));
    assert(lines_of(code) =~= collect_spec(bind@, *ty, xs@, from@, hi@));
    code
}

fn count_line(n: &Bind, t: &str) -> (r: String)
    ensures
        r@ == count_spec(n@, t@),
{
    cat("let ", n.as_str()).concat(" = Int(").concat(t).concat(")!")
}

impl Swift {
    pub fn read_line(names: &mut Namer, bind: Bind) -> (r: (Code, Index))
        ensures
            (lines_of(r.0), r.1@, final(names).next) == read_line_spec(bind@, old(names).next),
    {
        let mut code: Code = Vec::new();
        push_line(&mut code, cat("let ", bind.as_str()).concat(" = readLine()!.split(separator: \" \")"));
        let n = new_var(names);
        push_line(&mut code, cat("let ", n.as_str()).concat(" = ").concat(bind.as_str()).concat(".count"));
        assert(lines_of(code) =~= read_line_spec(bind@, old(names).next).0);
        (code, Index(n.0))
    }

    pub fn unit_type(names: &mut Namer, bind: Bind, ast: &UnitType, source: Slice) -> (r: Code)
        ensures
            (lines_of(r), final(names).next) == unit_type_spec(
                bind@,
                *ast,
                source@.0,
                source@.1,
                source@.2,
                old(names).next,
            ),
    {
        let Slice(xs, Range(i, _j)) = source;
        let v = cat(xs.as_str(), "[").concat(i.0.as_str()).concat("]");
        let mut code: Code = Vec::new();
        push_line(&mut code, cat("let ", bind.as_str()).concat(" = ").concat(unit_type_convert(ast, v.as_str()).as_str()));
        code
    }

    pub fn array(names: &mut Namer, bind: Bind, ast: &Array, source: Slice) -> (r: Code)
        ensures
            (lines_of(r), final(names).next) == array_spec(
                bind@,
                ast@.0,
                ast@.1,
                source@.0,
                source@.1,
                source@.2,
                old(names).next,
            ),
    {
        let Slice(xs, Range(i, j)) = source;
        collect(&bind, &ast.0, &xs, i.0.as_str(), j.0.as_str())
    }

    fn list_elements(names: &mut Namer, bind: Bind, ast: &List, source: Slice) -> (r: Code)
        ensures
            (lines_of(r), final(names).next) == list_elements_spec(
                bind@,
                ast.0,
                source@.0,
                source@.1,
                source@.2,
                old(names).next,
            ),
    {
        let Slice(xs, Range(i, j)) = source;
        let from = cat("(", i.0.as_str()).concat("+1)");
        collect(&bind, &ast.0, &xs, from.as_str(), j.0.as_str())
    }

    pub fn list(names: &mut Namer, bind: Bind, ast: &List, source: Slice) -> (r: Code)
        ensures
            (lines_of(r), final(names).next) == list_spec(
                bind@,
                ast.0,
                source@.0,
                source@.1,
                source@.2,
                old(names).next,
            ),
    {
        let n = crate::codegen::new_var(names);
        let token = cat(source.0.as_str(), "[").concat(source.1.0.0.as_str()).concat("]");
        let mut code: Code = Vec::new();
        push_line(&mut code, count_line(&n, token.as_str()));
        let body = Self::list_elements(names, bind, ast, source);
        crate::text::extend_code(&mut code, body);
        code
    }

    pub fn matrix(names: &mut Namer, bind: Bind, ast: &Matrix) -> (r: Result<Code, Error>)
        ensures
            emitted(r, final(names).next, matrix_spec(bind@, ast@.0, ast@.1, old(names).next)),
    {
        let mut code: Code = Vec::new();
        push_line(&mut code, cat("var ", bind.as_str()).concat(": [").concat(typing::tuple_like(&ast.0).as_str()).concat("] = []"));
        push_line(&mut code, cat("for _ in 0..<", ast.1.0.as_str()).concat(" {"));
        let line = new_var(names);
        let (mut inner, len) = Swift::read_line(names, line.dup());
        let t = new_var(names);
        match tuple_like(LineBackend::Swift, names, t.dup(), &ast.0, Slice(line, Range(Index::zero(), len))) {
            Ok(body) => {
                extend_code(&mut inner, body);
                push_line(&mut inner, cat(bind.as_str(), ".append(").concat(t.as_str()).concat(")"));
                append_code(&mut code, "    ", inner);
                push_line(&mut code, String::from_str("}"));
                assert(lines_of(code) =~= lines_part(matrix_spec(bind@, ast@.0, ast@.1, old(names).next)));
                Ok(code)
            },
            Err(e) => Err(e),
        }
    }

    pub fn tuple(bind: Bind, elems: Vec<Bind>) -> (r: Result<Code, Error>)
        ensures
            match (r, tuple_spec(bind@, binds_of(elems@))) {
                (Ok(c), Ok(t)) => lines_of(c) == t,
                (Err(e), Err(f)) => e == f,
                _ => false,
            },
    {
        let inner = join_binds(&elems, ",");
        let mut code: Code = Vec::new();
        push_line(&mut code, cat("let ", bind.as_str()).concat(" = (").concat(inner.as_str()).concat(")"));
        Ok(code)
    }
}

} // verus!
