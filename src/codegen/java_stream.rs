//! Java reading tokens with a `Scanner`.
use vstd::prelude::*;
use crate::ast::{Array, List, Matrix, RowModel, UnitType};
use crate::codegen::java::{self, typing, Java};
use crate::codegen::stream::{tuple_like, tuple_like_spec, StreamBackend};
use crate::codegen::{binds_of, emitted, lines_part, new_var, Bind, Emitted, Error};
use crate::names::{after, fresh_name, Namer};
use crate::text::{append_code, cat, indented, lines_of, push_line, Code};

verus! {

pub struct JavaStream;

/// Reads one scalar into the new variable `bind`.
pub open spec fn scan_spec(bind: Seq<char>, ty: UnitType) -> Seq<char> {
    match ty {
        UnitType::Int => "var "@ + bind + " = input.nextInt();"@,
        UnitType::Float => "var "@ + bind + " = input.nextDouble();"@,
        UnitType::Int0 => "var "@ + bind + " = (input.nextInt()-1);"@,
        UnitType::Str => "var "@ + bind + " = input.next();"@,
    }
}

pub open spec fn unit_type_spec(bind: Seq<char>, ty: UnitType, c: u64) -> (Seq<Seq<char>>, u64) {
    (seq![scan_spec(bind, ty)], c)
}

/// `n` scalars read one by one into the new list `bind`.
pub open spec fn fill_spec(bind: Seq<char>, ty: UnitType, n: Seq<char>, c: u64) -> (Seq<Seq<char>>, u64) {
    let k = fresh_name(c);
    let x = fresh_name(after(c));
    (
        seq![
            "var "@ + bind + " = new "@ + typing::list_of_spec(ty) + "();"@,
            "for (int "@ + k + "=0; "@ + k + "<"@ + n + "; "@ + k + "++) {"@,
            "\t"@ + scan_spec(x, ty),
            "\t"@ + bind + ".add("@ + x + ");"@,
            "}"@,
        ],
        after(after(c)),
    )
}

pub open spec fn array_spec(bind: Seq<char>, ty: UnitType, len: Seq<char>, c: u64) -> (Seq<Seq<char>>, u64) {
    fill_spec(bind, ty, len, c)
}

pub open spec fn list_spec(bind: Seq<char>, ty: UnitType, c: u64) -> (Seq<Seq<char>>, u64) {
    let n = fresh_name(c);
    let (body, c1) = fill_spec(bind, ty, n, after(c));
    (seq!["var "@ + n + " = input.nextInt();"@] + body, c1)
}

pub open spec fn matrix_spec(bind: Seq<char>, row: RowModel, rep: Seq<char>, c: u64) -> Emitted {
    match typing::tuple_like_spec(row) {
        Err(e) => Err(e),
        Ok(ty) => {
            let k = fresh_name(c);
            let t = fresh_name(after(c));
            match tuple_like_spec(StreamBackend::JavaStream, t, row, after(after(c))) {
                Ok((body, c1)) => Ok((
                    seq![
                        "var "@ + bind + " = new ArrayList<"@ + ty + ">();"@,
                        "for (int "@ + k + "=0; "@ + k + "<"@ + rep + "; "@ + k + "++) {"@,
                    ] + indented("\t"@, body.push(bind + ".add("@ + t + ");"@)) + seq!["}"@],
                    c1,
                )),
                Err(e) => Err(e),
            }
        },
    }
}

pub open spec fn tuple_spec(bind: Seq<char>, binds: Seq<Seq<char>>) -> Result<Seq<Seq<char>>, Error> {
    java::tuple_spec(bind, binds)
}

fn scan_unit_type(bind: &Bind, ty: &UnitType) -> (r: String)
    ensures
        r@ == scan_spec(bind@, *ty),
{
    match ty {
        UnitType::Int => cat("var ", bind.as_str()).concat(" = input.nextInt();"),
        UnitType::Float => cat("var ", bind.as_str()).concat(" = input.nextDouble();"),
        UnitType::Int0 => cat("var ", bind.as_str()).concat(" = (input.nextInt()-1);"),
        UnitType::Str => cat("var ", bind.as_str()).concat(" = input.next();"),
    }
}

fn fill(code: &mut Code, names: &mut Namer, bind: &Bind, ty: &UnitType, n: &str)
    ensures
        ({
            let (body, c1) = fill_spec(bind@, *ty, n@, old(names).next);
            lines_of(*final(code)) == lines_of(*old(code)) + body && final(names).next == c1
        }),
{
    let ghost start = lines_of(*code);
    push_line(code, cat("var ", bind.as_str()).concat(" = new ").concat(cat("ArrayList<", typing::unit_type(ty).as_str()).concat(">").as_str()).concat("();"));
    let k = new_var(names);
    push_line(
        code,
        cat("for (int ", k.as_str()).concat("=0; ").concat(k.as_str()).concat("<").concat(n).concat("; ").concat(
            k.as_str(),
        ).concat("++) {"),
    );
    let x = new_var(names);
    push_line(code, cat("\t", scan_unit_type(&x, ty).as_str()));
    push_line(code, cat("\t", bind.as_str()).concat(".add(").concat(x.as_str()).concat(");"));
    push_line(code, String::from_str("}"));
    assert(lines_of(*code) =~= start + fill_spec(bind@, *ty, n@, old(names).next).0);
}

impl JavaStream {
    pub fn unit_type(names: &mut Namer, bind: Bind, ast: &UnitType) -> (r: Code)
        ensures
            (lines_of(r), final(names).next) == unit_type_spec(bind@, *ast, old(names).next),
    {
        let mut code: Code = Vec::new();
        push_line(&mut code, scan_unit_type(&bind, ast));
        code
    }

    pub fn array(names: &mut Namer, bind: Bind, ast: &Array) -> (r: Code)
        ensures
            (lines_of(r), final(names).next) == array_spec(bind@, ast@.0, ast@.1, old(names).next),
    {
        let mut code: Code = Vec::new();
        fill(&mut code, names, &bind, &ast.0, ast.1.0.as_str());
        assert(lines_of(code) =~= array_spec(bind@, ast@.0, ast@.1, old(names).next).0);
        code
    }

    pub fn list(names: &mut Namer, bind: Bind, ast: &List) -> (r: Code)
        ensures
            (lines_of(r), final(names).next) == list_spec(bind@, ast.0, old(names).next),
    {
        let mut code: Code = Vec::new();
        let n = new_var(names);
        push_line(&mut code, cat("var ", n.as_str()).concat(" = input.nextInt();"));
        fill(&mut code, names, &bind, &ast.0, n.as_str());
        code
    }

    pub fn matrix(names: &mut Namer, bind: Bind, ast: &Matrix) -> (r: Result<Code, Error>)
        ensures
            emitted(r, final(names).next, matrix_spec(bind@, ast@.0, ast@.1, old(names).next)),
    {
        let ty = match typing::tuple_like(&ast.0) {
            Ok(ty) => ty,
            Err(e) => {
                return Err(e);
            },
        };
        let mut code: Code = Vec::new();
        let n = ast.1.0.as_str();
        push_line(&mut code, cat("var ", bind.as_str()).concat(" = new ArrayList<").concat(ty.as_str()).concat(">();"));
        let k = new_var(names);
        push_line(
            &mut code,
            cat("for (int ", k.as_str()).concat("=0; ").concat(k.as_str()).concat("<").concat(n).concat("; ").concat(
                k.as_str(),
            ).concat("++) {"),
        );
        let t = new_var(names);
        match tuple_like(StreamBackend::JavaStream, names, t.dup(), &ast.0) {
            Ok(body) => {
                let mut body = body;
                push_line(&mut body, cat(bind.as_str(), ".add(").concat(t.as_str()).concat(");"));
                append_code(&mut code, "\t", body);
                push_line(&mut code, String::from_str("}"));
                assert(lines_of(code) =~= lines_part(matrix_spec(bind@, ast@.0, ast@.1, old(names).next)));
                Ok(code)
            },
            Err(e) => Err(e),
        }
    }

    pub fn tuple(bind: Bind, elems: Vec<Bind>) -> (r: Result<Code, Error>)
        ensures
            match (r, tuple_spec(bind@, binds_of(elems@))) {
                (Ok(c), Ok(t)) => lines_of(c) == t,
                (Err(e), Err(f)) => e == f,
                _ => false,
            },
    {
        Java::tuple(bind, elems)
    }
}

} // verus!
