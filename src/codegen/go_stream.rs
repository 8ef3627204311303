//! Go reading tokens with a `bufio.Scanner` split on words.
use vstd::prelude::*;
use crate::ast::{Array, List, Matrix, RowModel, UnitType};
use crate::codegen::stream::{tuple_like, tuple_like_spec, StreamBackend};
use crate::codegen::{binds_of, emitted, lines_part, new_var, Bind, Emitted, Error};
use crate::names::{after, fresh_name, Namer};
use crate::text::{append_code, cat, indented, lines_of, push_line, Code};

pub mod typing;

verus! {

pub struct GoStream;

/// Reads one scalar into the new variable `bind`.
pub open spec fn scan_spec(bind: Seq<char>, ty: UnitType) -> Seq<Seq<char>> {
    let conv = match ty {
        UnitType::Int => bind + ", _ := strconv.Atoi(input.Text())"@,
        UnitType::Int0 => bind + ", _ := strconv.Atoi(input.Text()); "@ + bind + "--"@,
        UnitType::Float => bind + ", _ := strconv.ParseFloat(input.Text(), 64)"@,
        UnitType::Str => bind + " := input.Text()"@,
    };
    seq!["input.Scan()"@, conv]
}

pub open spec fn unit_type_spec(bind: Seq<char>, ty: UnitType, c: u64) -> (Seq<Seq<char>>, u64) {
    (scan_spec(bind, ty), c)
}

/// `n` scalars read one by one into the new slice `bind`.
pub open spec fn fill_spec(bind: Seq<char>, ty: UnitType, n: Seq<char>, c: u64) -> (Seq<Seq<char>>, u64) {
    let v = fresh_name(c);
    (
        seq![
            bind + " := make([]"@ + typing::unit_type_spec(ty) + ", 0, "@ + n + ")"@,
            "for i := 0; i < "@ + n + "; i++ {"@,
        ] + indented("\t"@, scan_spec(v, ty).push(bind + " = append("@ + bind + ", "@ + v + ")"@)) + seq!["}"@],
        after(c),
    )
}

pub open spec fn array_spec(bind: Seq<char>, ty: UnitType, len: Seq<char>, c: u64) -> (Seq<Seq<char>>, u64) {
    fill_spec(bind, ty, len, c)
}

pub open spec fn list_spec(bind: Seq<char>, ty: UnitType, c: u64) -> (Seq<Seq<char>>, u64) {
    let n = fresh_name(c);
    let (body, c1) = fill_spec(bind, ty, n, after(c));
    (seq!["input.Scan()"@, n + ", _ := strconv.Atoi(input.Text())"@] + body, c1)
}

pub open spec fn matrix_spec(bind: Seq<char>, row: RowModel, rep: Seq<char>, c: u64) -> Emitted {
    match typing::tuple_like_spec(row) {
        Err(e) => Err(e),
        Ok(ty) => {
            let k = fresh_name(c);
            let t = fresh_name(after(c));
            match tuple_like_spec(StreamBackend::GoStream, t, row, after(after(c))) {
                Ok((body, c1)) => Ok((
                    seq![
                        bind + " := make([]"@ + ty + ", 0, "@ + rep + ")"@,
                        "for "@ + k + " := 0; "@ + k + "<"@ + rep + "; "@ + k + "++ {"@,
                    ] + indented("\t"@, body.push(bind + " = append("@ + bind + ", "@ + t + ")"@)) + seq!["}"@],
                    c1,
                )),
                Err(e) => Err(e),
            }
        },
    }
}

/// Only one value can be bound: Go has no tuple literal.
pub open spec fn tuple_spec(bind: Seq<char>, binds: Seq<Seq<char>>) -> Result<Seq<Seq<char>>, Error> {
    if binds.len() != 1 {
        Err(Error::TupleNotSupported)
    } else {
        Ok(seq![bind + " := "@ + binds[0]])
    }
}

fn scan_unit_type(code: &mut Code, bind: &Bind, ty: &UnitType)
    ensures
        lines_of(*final(code)) == lines_of(*old(code)) + scan_spec(bind@, *ty),
{
    let ghost start = lines_of(*code);
    push_line(code, String::from_str("input.Scan()"));
    let conv = match ty {
        UnitType::Int => cat(bind.as_str(), ", _ := strconv.Atoi(input.Text())"),
        UnitType::Int0 => cat(bind.as_str(), ", _ := strconv.Atoi(input.Text()); ").concat(bind.as_str()).concat("--"),
        UnitType::Float => cat(bind.as_str(), ", _ := strconv.ParseFloat(input.Text(), 64)"),
        UnitType::Str => cat(bind.as_str(), " := input.Text()"),
    };
    push_line(code, conv);
    assert(lines_of(*code) =~= start + scan_spec(bind@, *ty));
}

fn fill(code: &mut Code, names: &mut Namer, bind: &Bind, ty: &UnitType, n: &str)
    ensures
        ({
            let (body, c1) = fill_spec(bind@, *ty, n@, old(names).next);
            lines_of(*final(code)) == lines_of(*old(code)) + body && final(names).next == c1
        }),
{
    let ghost start = lines_of(*code);
    push_line(code, cat(bind.as_str(), " := make([]").concat(typing::unit_type(ty).as_str()).concat(", 0, ").concat(n).concat(")"));
    push_line(code, cat("for i := 0; i < ", n).concat("; i++ {"));
    let v = new_var(names);
    let mut inner: Code = Vec::new();
    scan_unit_type(&mut inner, &v, ty);
    push_line(&mut inner, cat(bind.as_str(), " = append(").concat(bind.as_str()).concat(", ").concat(v.as_str()).concat(")"));
    assert(lines_of(inner) =~= scan_spec(v@, *ty).push(bind@ + " = append("@ + bind@ + ", "@ + v@ + ")"@));
    append_code(code, "\t", inner);
    push_line(code, String::from_str("}"));
    assert(lines_of(*code) =~= start + fill_spec(bind@, *ty, n@, old(names).next).0);
}

impl GoStream {
    pub fn unit_type(names: &mut Namer, bind: Bind, ast: &UnitType) -> (r: Code)
        ensures
            (lines_of(r), final(names).next) == unit_type_spec(bind@, *ast, old(names).next),
    {
        let mut code: Code = Vec::new();
        scan_unit_type(&mut code, &bind, ast);
        assert(lines_of(code) =~= scan_spec(bind@, *ast));
        code
    }

    pub fn array(names: &mut Namer, bind: Bind, ast: &Array) -> (r: Code)
        ensures
            (lines_of(r), final(names).next) == array_spec(bind@, ast@.0, ast@.1, old(names).next),
    {
        let mut code: Code = Vec::new();
        fill(&mut code, names, &bind, &ast.0, ast.1.0.as_str());
        assert(lines_of(code) =~= array_spec(bind@, ast@.0, ast@.1, old(names).next).0);
        code
    }

    pub fn list(names: &mut Namer, bind: Bind, ast: &List) -> (r: Code)
        ensures
            (lines_of(r), final(names).next) == list_spec(bind@, ast.0, old(names).next),
    {
        let mut code: Code = Vec::new();
        let n = new_var(names);
        push_line(&mut code, String::from_str("input.Scan()"));
        push_line(&mut code, cat(n.as_str(), ", _ := strconv.Atoi(input.Text())"));
        fill(&mut code, names, &bind, &ast.0, n.as_str());
        assert(lines_of(code) =~= list_spec(bind@, ast.0, old(names).next).0);
        code
    }

    pub fn matrix(names: &mut Namer, bind: Bind, ast: &Matrix) -> (r: Result<Code, Error>)
        ensures
            emitted(r, final(names).next, matrix_spec(bind@, ast@.0, ast@.1, old(names).next)),
    {
        let ty = match typing::tuple_like(&ast.0) {
            Ok(ty) => ty,
            Err(e) => {
                return Err(e);
            },
        };
        let mut code: Code = Vec::new();
        let n = ast.1.0.as_str();
        push_line(&mut code, cat(bind.as_str(), " := make([]").concat(ty.as_str()).concat(", 0, ").concat(n).concat(")"));
        let k = new_var(names);
        push_line(
            &mut code,
            cat("for ", k.as_str()).concat(" := 0; ").concat(k.as_str()).concat("<").concat(n).concat("; ").concat(
                k.as_str(),
            ).concat("++ {"),
        );
        let t = new_var(names);
        match tuple_like(StreamBackend::GoStream, names, t.dup(), &ast.0) {
            Ok(body) => {
                let mut body = body;
                push_line(&mut body, cat(bind.as_str(), " = append(").concat(bind.as_str()).concat(", ").concat(t.as_str()).concat(")"));
                append_code(&mut code, "\t", body);
                push_line(&mut code, String::from_str("}"));
                assert(lines_of(code) =~= lines_part(matrix_spec(bind@, ast@.0, ast@.1, old(names).next)));
                Ok(code)
            },
            Err(e) => Err(e),
        }
    }

    pub fn tuple(bind: Bind, elems: Vec<Bind>) -> (r: Result<Code, Error>)
        ensures
            match (r, tuple_spec(bind@, binds_of(elems@))) {
                (Ok(c), Ok(t)) => lines_of(c) == t,
                (Err(e), Err(f)) => e == f,
                _ => false,
            },
    {
        if elems.len() != 1 {
            return Err(Error::TupleNotSupported);
        }
        let mut code: Code = Vec::new();
        push_line(&mut code, cat(bind.as_str(), " := ").concat(elems[0].as_str()));
        Ok(code)
    }
}

} // verus!
