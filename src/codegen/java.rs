//! Java with a line buffer per input line.
use vstd::prelude::*;
use crate::ast::{Array, List, Matrix, RowModel, UnitType};
use crate::codegen::readline::{tuple_like, tuple_like_spec, LineBackend};
use crate::codegen::{binds_of, emitted, lines_part, new_var, Bind, Emitted, Error, Index, Range, Slice};
use crate::names::{after, fresh_name, Namer};
use crate::text::{append_code, cat, decimal, indented, lines_of, push_line, Code};

pub mod typing;

verus! {

pub struct Java;

pub open spec fn convert_spec(ty: UnitType, v: Seq<char>) -> Seq<char> {
    match ty {
        UnitType::Int => "Integer.parseInt("@ + v + ")"@,
        UnitType::Float => "Double.parseDouble("@ + v + ")"@,
        UnitType::Int0 => "(Integer.parseInt("@ + v + ")-1)"@,
        UnitType::Str => v,
    }
}

pub open spec fn read_line_spec(bind: Seq<char>, c: u64) -> (Seq<Seq<char>>, Seq<char>, u64) {
    let n = fresh_name(c);
    (
        seq!["var "@ + bind + " = input.readLine().split(\" \");"@, "var "@ + n + " = "@ + bind + ".length;"@],
        n,
        after(c),
    )
}

pub open spec fn unit_type_spec(
    bind: Seq<char>,
    ty: UnitType,
    xs: Seq<char>,
    lo: Seq<char>,
    hi: Seq<char>,
    c: u64,
) -> (Seq<Seq<char>>, u64) {
    (seq!["var "@ + bind + " = "@ + convert_spec(ty, xs + "["@ + lo + "]"@) + ";"@], c)
}

/// The tokens `xs[from..hi]` converted one by one into the list `bind`.
pub open spec fn collect_spec(
    bind: Seq<char>,
    ty: UnitType,
    xs: Seq<char>,
    from: Seq<char>,
    hi: Seq<char>,
    c: u64,
) -> (Seq<Seq<char>>, u64) {
    let k = fresh_name(c);
    let x = fresh_name(after(c));
    (
        seq![
            "var "@ + bind + " = new "@ + typing::list_of_spec(ty) + "();"@,
            "for (int "@ + k + "="@ + from + "; "@ + k + "<"@ + hi + "; "@ + k + "++) {"@,
            "\tvar "@ + x + " = "@ + convert_spec(ty, xs + "["@ + k + "]"@) + "; "@ + bind + ".add("@ + x + ");"@,
            "}"@,
        ],
        after(after(c)),
    )
}

pub open spec fn array_spec(
    bind: Seq<char>,
    ty: UnitType,
    len: Seq<char>,
    xs: Seq<char>,
    lo: Seq<char>,
    hi: Seq<char>,
    c: u64,
) -> (Seq<Seq<char>>, u64) {
    collect_spec(bind, ty, xs, lo, hi, c)
}

/// The elements of a list: the scalars `xs[lo+1..hi]` bound to `bind`.
pub open spec fn list_elements_spec(
    bind: Seq<char>,
    ty: UnitType,
    xs: Seq<char>,
    lo: Seq<char>,
    hi: Seq<char>,
    c: u64,
) -> (Seq<Seq<char>>, u64) {
    collect_spec(bind, ty, xs, lo + "+1"@, hi, c)
}

/// The count token `t` read into the new variable `n`.
pub open spec fn count_spec(n: Seq<char>, t: Seq<char>) -> Seq<char> {
    "var "@ + n + " = Integer.parseInt("@ + t + ");"@
}

/// A list over `[lo, hi)`: its count `xs[lo]` read into a fresh name, then
/// its elements `xs[lo+1..hi]` bound to `bind`.
pub open spec fn list_spec(
    bind: Seq<char>,
    ty: UnitType,
    xs: Seq<char>,
    lo: Seq<char>,
    hi: Seq<char>,
    c: u64,
) -> (Seq<Seq<char>>, u64) {
    let n = crate::names::fresh_name(c);
    let (body, c1) = list_elements_spec(bind, ty, xs, lo, hi, crate::names::after(c));
    (seq![count_spec(n, xs + "["@ + lo + "]"@)] + body, c1)
}

pub open spec fn matrix_spec(bind: Seq<char>, row: RowModel, rep: Seq<char>, c: u64) -> Emitted {
    match typing::tuple_like_spec(row) {
        Err(e) => Err(e),
        Ok(ty) => {
            let k = fresh_name(c);
            let line = fresh_name(after(c));
            let (read, len, c1) = read_line_spec(line, after(after(c)));
            let t = fresh_name(c1);
            match tuple_like_spec(LineBackend::Java, t, row, line, decimal(0), len, after(c1)) {
                Ok((body, c2)) => Ok((
                    seq![
                        "var "@ + bind + " = new ArrayList<"@ + ty + ">();"@,
                        "for (int "@ + k + "=0; "@ + k + "<"@ + rep + "; "@ + k + "++) {"@,
                    ] + indented("\t"@, read) + indented("\t"@, body) + seq![
                        "\t"@ + bind + ".add("@ + t + ");"@,
                        "}"@,
                    ],
                    c2,
                )),
                Err(e) => Err(e),
            }
        },
    }
}

/// Only one value can be bound: Java has no tuple literal.
pub open spec fn tuple_spec(bind: Seq<char>, binds: Seq<Seq<char>>) -> Result<Seq<Seq<char>>, Error> {
    if binds.len() != 1 {
        Err(Error::TupleNotSupported)
    } else {
        Ok(seq!["var "@ + bind + " = "@ + binds[0] + ";"@])
    }
}

fn unit_type_convert(ty: &UnitType, v: &str) -> (r: String)
    ensures
        r@ == convert_spec(*ty, v@),
{
    match ty {
        UnitType::Int => cat("Integer.parseInt(", v).concat(")"),
        UnitType::Float => cat("Double.parseDouble(", v).concat(")"),
        UnitType::Int0 => cat("(Integer.parseInt(", v).concat(")-1)"),
        UnitType::Str => String::from_str(v),
    }
}

fn collect(names: &mut Namer, bind: &Bind, ty: &UnitType, xs: &Bind, from: &str, hi: &str) -> (r: Code)
    ensures
        (lines_of(r), final(names).next) == collect_spec(bind@, *ty, xs@, from@, hi@, old(names).next),
{
    let mut code: Code = Vec::new();
    push_line(&mut code, cat("var ", bind.as_str()).concat(" = new ").concat(cat("ArrayList<", typing::unit_type(ty).as_str()).concat(">").as_str()).concat("();"));
    let k = new_var(names);
    push_line(
        &mut code,
        cat("for (int ", k.as_str()).concat("=").concat(from).concat("; ").concat(k.as_str()).concat("<").concat(
            hi,
        ).concat("; ").concat(k.as_str()).concat("++) {"),
    );
    let x = new_var(names);
    let v = cat(xs.as_str(), "[").concat(k.as_str()).concat("]");
    push_line(
        &mut code,
        cat("\tvar ", x.as_str()).concat(" = ").concat(unit_type_convert(ty, v.as_str()).as_str()).concat("; ").concat(
            bind.as_str(),
        ).concat(".add(").concat(x.as_str()).concat(");"),
    );
    push_line(&mut code, String::from_str("}"));
    assert(lines_of(code) =~= collect_spec(bind@, *ty, xs@, from@, hi@, old(names).next).0);
    code
}

fn count_line(n: &Bind, t: &str) -> (r: String)
    ensures
        r@ == count_spec(n@, t@),
{
    cat("var ", n.as_str()).concat(" = Integer.parseInt(").concat(t).concat(");")
}

impl Java {
    pub fn read_line(names: &mut Namer, bind: Bind) -> (r: (Code, Index))
        ensures
            (lines_of(r.0), r.1@, final(names).next) == read_line_spec(bind@, old(names).next),
    {
        let mut code: Code = Vec::new();
        push_line(&mut code, cat("var ", bind.as_str()).concat(" = input.readLine().split(\" \");"));
        let n = new_var(names);
        push_line(&mut code, cat("var ", n.as_str()).concat(" = ").concat(bind.as_str()).concat(".length;"));
        assert(lines_of(code) =~= read_line_spec(bind@, old(names).next).0);
        (code, Index(n.0))
    }

    pub fn unit_type(names: &mut Namer, bind: Bind, ast: &UnitType, source: Slice) -> (r: Code)
        ensures
            (lines_of(r), final(names).next) == unit_type_spec(
                bind@,
                *ast,
                source@.0,
                source@.1,
                source@.2,
                old(names).next,
            ),
    {
        let Slice(xs, Range(i, _j)) = source;
        let v = cat(xs.as_str(), "[").concat(i.0.as_str()).concat("]");
        let mut code: Code = Vec::new();
        push_line(&mut code, cat("var ", bind.as_str()).concat(" = ").concat(unit_type_convert(ast, v.as_str()).as_str()).concat(";"));
        code
    }

    pub fn array(names: &mut Namer, bind: Bind, ast: &Array, source: Slice) -> (r: Code)
        ensures
            (lines_of(r), final(names).next) == array_spec(
                bind@,
                ast@.0,
                ast@.1,
                source@.0,
                source@.1,
                source@.2,
                old(names).next,
            ),
    {
        let Slice(xs, Range(i, j)) = source;
        collect(names, &bind, &ast.0, &xs, i.0.as_str(), j.0.as_str())
    }

    fn list_elements(names: &mut Namer, bind: Bind, ast: &List, source: Slice) -> (r: Code)
        ensures
            (lines_of(r), final(names).next) == list_elements_spec(
                bind@,
                ast.0,
                source@.0,
                source@.1,
                source@.2,
                old(names).next,
            ),
    {
        let Slice(xs, Range(i, j)) = source;
        let from = cat(i.0.as_str(), "+1");
        collect(names, &bind, &ast.0, &xs, from.as_str(), j.0.as_str())
    }

    pub fn list(names: &mut Namer, bind: Bind, ast: &List, source: Slice) -> (r: Code)
        ensures
            (lines_of(r), final(names).next) == list_spec(
                bind@,
                ast.0,
                source@.0,
                source@.1,
                source@.2,
                old(names).next,
            ),
    {
        let n = crate::codegen::new_var(names);
        let token = cat(source.0.as_str(), "[").concat(source.1.0.0.as_str()).concat("]");
        let mut code: Code = Vec::new();
        push_line(&mut code, count_line(&n, token.as_str()));
        let body = Self::list_elements(names, bind, ast, source);
        crate::text::extend_code(&mut code, body);
        code
    }

    pub fn matrix(names: &mut Namer, bind: Bind, ast: &Matrix) -> (r: Result<Code, Error>)
        ensures
            emitted(r, final(names).next, matrix_spec(bind@, ast@.0, ast@.1, old(names).next)),
    {
        let ty = match typing::tuple_like(&ast.0) {
            Ok(ty) => ty,
            Err(e) => {
                return Err(e);
            },
        };
        let mut code: Code = Vec::new();
        let n = ast.1.0.as_str();
        push_line(&mut code, cat("var ", bind.as_str()).concat(" = new ArrayList<").concat(ty.as_str()).concat(">();"));
        let k = new_var(names);
        push_line(
            &mut code,
            cat("for (int ", k.as_str()).concat("=0; ").concat(k.as_str()).concat("<").concat(n).concat("; ").concat(
                k.as_str(),
            ).concat("++) {"),
        );
        let line = new_var(names);
        let (read, len) = Java::read_line(names, line.dup());
        append_code(&mut code, "\t", read);
        let t = new_var(names);
        match tuple_like(LineBackend::Java, names, t.dup(), &ast.0, Slice(line, Range(Index::zero(), len))) {
            Ok(body) => {
                append_code(&mut code, "\t", body);
                push_line(&mut code, cat("\t", bind.as_str()).concat(".add(").concat(t.as_str()).concat(");"));
                push_line(&mut code, String::from_str("}"));
                assert(lines_of(code) =~= lines_part(matrix_spec(bind@, ast@.0, ast@.1, old(names).next)));
                Ok(code)
            },
            Err(e) => Err(e),
        }
    }

    pub fn tuple(bind: Bind, elems: Vec<Bind>) -> (r: Result<Code, Error>)
        ensures
            match (r, tuple_spec(bind@, binds_of(elems@))) {
                (Ok(c), Ok(t)) => lines_of(c) == t,
                (Err(e), Err(f)) => e == f,
                _ => false,
            },
    {
        if elems.len() != 1 {
            return Err(Error::TupleNotSupported);
        }
        let mut code: Code = Vec::new();
        push_line(&mut code, cat("var ", bind.as_str()).concat(" = ").concat(elems[0].as_str()).concat(";"));
        Ok(code)
    }
}

} // verus!
