//! C#.
use vstd::prelude::*;
use crate::ast::{Array, List, Matrix, RowModel, UnitType};
use crate::codegen::readline::{tuple_like, tuple_like_spec, LineBackend};
use crate::codegen::{binds_of, emitted, join_binds, lines_part, new_var, Bind, Emitted, Error, Index, Range, Slice};
use crate::names::{after, fresh_name, Namer};
use crate::text::{append_code, cat, decimal, indented, joined, lines_of, push_line, Code};

pub mod typing;

verus! {

pub struct CSharp;

pub open spec fn convert_spec(ty: UnitType, v: Seq<char>) -> Seq<char> {
    match ty {
        UnitType::Int => "Convert.ToInt32("@ + v + ")"@,
        UnitType::Int0 => "(Convert.ToInt32("@ + v + ")-1)"@,
        UnitType::Float => "Convert.ToDouble("@ + v + ")"@,
        UnitType::Str => v,
    }
}

pub open spec fn read_line_spec(bind: Seq<char>, c: u64) -> (Seq<Seq<char>>, Seq<char>, u64) {
    let n = fresh_name(c);
    (
        seq!["var "@ + bind + " = Console.ReadLine().Split(' ');"@, "var "@ + n + " = "@ + bind + ".Length;"@],
        n,
        after(c),
    )
}

pub open spec fn unit_type_spec(
    bind: Seq<char>,
    ty: UnitType,
    xs: Seq<char>,
    lo: Seq<char>,
    hi: Seq<char>,
    c: u64,
) -> (Seq<Seq<char>>, u64) {
    (seq![typing::unit_type_spec(ty) + " "@ + bind + " = "@ + convert_spec(ty, xs + "["@ + lo + "]"@) + ";"@], c)
}

/// The tokens `xs[from..hi]` converted one by one into the new list `bind`.
pub open spec fn collect_spec(
    bind: Seq<char>,
    ty: UnitType,
    xs: Seq<char>,
    from: Seq<char>,
    hi: Seq<char>,
    c: u64,
) -> (Seq<Seq<char>>, u64) {
    let k = fresh_name(c);
    let x = fresh_name(after(c));
    (
        seq![
            "var "@ + bind + " = new "@ + typing::list_of_spec(ty) + "();"@,
            "for (int "@ + k + "="@ + from + "; "@ + k + "<"@ + hi + "; "@ + k + "++) {"@,
            "\t"@ + typing::unit_type_spec(ty) + " "@ + x + " = "@ + convert_spec(ty, xs + "["@ + k + "]"@) + ";"@,
            "\t"@ + bind + ".Add("@ + x + ");"@,
            "}"@,
        ],
        after(after(c)),
    )
}

pub open spec fn array_spec(
    bind: Seq<char>,
    ty: UnitType,
    len: Seq<char>,
    xs: Seq<char>,
    lo: Seq<char>,
    hi: Seq<char>,
    c: u64,
) -> (Seq<Seq<char>>, u64) {
    collect_spec(bind, ty, xs, lo, hi, c)
}

/// The elements of a list: the scalars `xs[lo+1..hi]` bound to `bind`.
pub open spec fn list_elements_spec(
    bind: Seq<char>,
    ty: UnitType,
    xs: Seq<char>,
    lo: Seq<char>,
    hi: Seq<char>,
    c: u64,
) -> (Seq<Seq<char>>, u64) {
    collect_spec(bind, ty, xs, lo + "+1"@, hi, c)
}

/// The count token `t` read into the new variable `n`.
pub open spec fn count_spec(n: Seq<char>, t: Seq<char>) -> Seq<char> {
    "int "@ + n + " = Convert.ToInt32("@ + t + ");"@
}

/// A list over `[lo, hi)`: its count `xs[lo]` read into a fresh name, then
/// its elements `xs[lo+1..hi]` bound to `bind`.
pub open spec fn list_spec(
    bind: Seq<char>,
    ty: UnitType,
    xs: Seq<char>,
    lo: Seq<char>,
    hi: Seq<char>,
    c: u64,
) -> (Seq<Seq<char>>, u64) {
    let n = crate::names::fresh_name(c);
    let (body, c1) = list_elements_spec(bind, ty, xs, lo, hi, crate::names::after(c));
    (seq![count_spec(n, xs + "["@ + lo + "]"@)] + body, c1)
}

pub open spec fn matrix_spec(bind: Seq<char>, row: RowModel, rep: Seq<char>, c: u64) -> Emitted {
    let k = fresh_name(c);
    let line = fresh_name(after(c));
    let (read, len, c1) = read_line_spec(line, after(after(c)));
    let t = fresh_name(c1);
    match tuple_like_spec(LineBackend::CSharp, t, row, line, decimal(0), len, after(c1)) {
        Ok((body, c2)) => Ok((
            seq![
                "var "@ + bind + " = new List<"@ + typing::tuple_like_spec(row) + ">();"@,
                "for (int "@ + k + "=0; "@ + k + "<"@ + rep + "; "@ + k + "++) {"@,
            ] + indented("\t"@, read) + indented("\t"@, body) + seq![
                "\t"@ + bind + ".Add("@ + t + ");"@,
                "}"@,
            ],
            c2,
        )),
        Err(e) => Err(e),
    }
}

pub open spec fn tuple_spec(bind: Seq<char>, binds: Seq<Seq<char>>) -> Result<Seq<Seq<char>>, Error> {
    Ok(seq!["var "@ + bind + " = ("@ + joined(binds, ","@) + ");"@])
}

fn unit_type_convert(ty: &UnitType, v: &str) -> (r: String)
    ensures
        r@ == convert_spec(*ty, v@),
{
    match ty {
        UnitType::Int => cat("Convert.ToInt32(", v).concat(")"),
        UnitType::Int0 => cat("(Convert.ToInt32(", v).concat(")-1)"),
        UnitType::Float => cat("Convert.ToDouble(", v).concat(")"),
        UnitType::Str => String::from_str(v),
    }
}

fn collect(names: &mut Namer, bind: &Bind, ty: &UnitType, xs: &Bind, from: &str, hi: &str) -> (r: Code)
    ensures
        (lines_of(r), final(names).next) == collect_spec(bind@, *ty, xs@, from@, hi@, old(names).next),
{
    let mut code: Code = Vec::new();
    push_line(&mut code, cat("var ", bind.as_str()).concat(" = new ").concat(cat("List<", typing::unit_type(ty).as_str()).concat(">").as_str()).concat("();"));
    let k = new_var(names);
    push_line(
        &mut code,
        cat("for (int ", k.as_str()).concat("=").concat(from).concat("; ").concat(k.as_str()).concat("<").concat(
            hi,
        ).concat("; ").concat(k.as_str()).concat("++) {"),
    );
    let x = new_var(names);
    let v = cat(xs.as_str(), "[").concat(k.as_str()).concat("]");
    push_line(
        &mut code,
        cat("\t", typing::unit_type(ty).as_str()).concat(" ").concat(x.as_str()).concat(" = ").concat(
            unit_type_convert(ty, v.as_str()).as_str(),
        ).concat(";"),
    );
    push_line(&mut code, cat("\t", bind.as_str()).concat(".Add(").concat(x.as_str()).concat(");"));
    push_line(&mut code, String::from_str("}"));
    assert(lines_of(code) =~= collect_spec(bind@, *ty, xs@, from@, hi@, old(names).next).0);
    code
}

fn count_line(n: &Bind, t: &str) -> (r: String)
    ensures
        r@ == count_spec(n@, t@),
{
    cat("int ", n.as_str()).concat(" = Convert.ToInt32(").concat(t).concat(");")
}

impl CSharp {
    pub fn read_line(names: &mut Namer, bind: Bind) -> (r: (Code, Index))
        ensures
            (lines_of(r.0), r.1@, final(names).next) == read_line_spec(bind@, old(names).next),
    {
        let mut code: Code = Vec::new();
        push_line(&mut code, cat("var ", bind.as_str()).concat(" = Console.ReadLine().Split(' ');"));
        let n = new_var(names);
        push_line(&mut code, cat("var ", n.as_str()).concat(" = ").concat(bind.as_str()).concat(".Length;"));
        assert(lines_of(code) =~= read_line_spec(bind@, old(names).next).0);
        (code, Index(n.0))
    }

    pub fn unit_type(names: &mut Namer, bind: Bind, ast: &UnitType, source: Slice) -> (r: Code)
        ensures
            (lines_of(r), final(names).next) == unit_type_spec(
                bind@,
                *ast,
                source@.0,
                source@.1,
                source@.2,
                old(names).next,
            ),
    {
        let Slice(xs, Range(i, _j)) = source;
        let v = cat(xs.as_str(), "[").concat(i.0.as_str()).concat("]");
        let mut code: Code = Vec::new();
        push_line(
            &mut code,
            typing::unit_type(ast).concat(" ").concat(bind.as_str()).concat(" = ").concat(
                unit_type_convert(ast, v.as_str()).as_str(),
            ).concat(";"),
        );
        code
    }

    pub fn array(names: &mut Namer, bind: Bind, ast: &Array, source: Slice) -> (r: Code)
        ensures
            (lines_of(r), final(names).next) == array_spec(
                bind@,
                ast@.0,
                ast@.1,
                source@.0,
                source@.1,
                source@.2,
                old(names).next,
            ),
    {
        let Slice(xs, Range(i, j)) = source;
        collect(names, &bind, &ast.0, &xs, i.0.as_str(), j.0.as_str())
    }

    fn list_elements(names: &mut Namer, bind: Bind, ast: &List, source: Slice) -> (r: Code)
        ensures
            (lines_of(r), final(names).next) == list_elements_spec(
                bind@,
                ast.0,
                source@.0,
                source@.1,
                source@.2,
                old(names).next,
            ),
    {
        let Slice(xs, Range(i, j)) = source;
        let from = cat(i.0.as_str(), "+1");
        collect(names, &bind, &ast.0, &xs, from.as_str(), j.0.as_str())
    }

    pub fn list(names: &mut Namer, bind: Bind, ast: &List, source: Slice) -> (r: Code)
        ensures
            (lines_of(r), final(names).next) == list_spec(
                bind@,
                ast.0,
                source@.0,
                source@.1,
                source@.2,
                old(names).next,
            ),
    {
        let n = crate::codegen::new_var(names);
        let token = cat(source.0.as_str(), "[").concat(source.1.0.0.as_str()).concat("]");
        let mut code: Code = Vec::new();
        push_line(&mut code, count_line(&n, token.as_str()));
        let body = Self::list_elements(names, bind, ast, source);
        crate::text::extend_code(&mut code, body);
        code
    }

    pub fn matrix(names: &mut Namer, bind: Bind, ast: &Matrix) -> (r: Result<Code, Error>)
        ensures
            emitted(r, final(names).next, matrix_spec(bind@, ast@.0, ast@.1, old(names).next)),
    {
        let mut code: Code = Vec::new();
        let n = ast.1.0.as_str();
        push_line(&mut code, cat("var ", bind.as_str()).concat(" = new List<").concat(typing::tuple_like(&ast.0).as_str()).concat(">();"));
        let k = new_var(names);
        push_line(
            &mut code,
            cat("for (int ", k.as_str()).concat("=0; ").concat(k.as_str()).concat("<").concat(n).concat("; ").concat(
                k.as_str(),
            ).concat("++) {"),
        );
        let line = new_var(names);
        let (read, len) = CSharp::read_line(names, line.dup());
        append_code(&mut code, "\t", read);
        let t = new_var(names);
        match tuple_like(LineBackend::CSharp, names, t.dup(), &ast.0, Slice(line, Range(Index::zero(), len))) {
            Ok(body) => {
                append_code(&mut code, "\t", body);
                push_line(&mut code, cat("\t", bind.as_str()).concat(".Add(").concat(t.as_str()).concat(");"));
                push_line(&mut code, String::from_str("}"));
                assert(lines_of(code) =~= lines_part(matrix_spec(bind@, ast@.0, ast@.1, old(names).next)));
                Ok(code)
            },
            Err(e) => Err(e),
        }
    }

    pub fn tuple(bind: Bind, elems: Vec<Bind>) -> (r: Result<Code, Error>)
        ensures
            match (r, tuple_spec(bind@, binds_of(elems@))) {
                (Ok(c), Ok(t)) => lines_of(c) == t,
                (Err(e), Err(f)) => e == f,
                _ => false,
            },
    {
        let inner = join_binds(&elems, ",");
        let mut code: Code = Vec::new();
        push_line(&mut code, cat("var ", bind.as_str()).concat(" = (").concat(inner.as_str()).concat(");"));
        Ok(code)
    }
}

} // verus!
