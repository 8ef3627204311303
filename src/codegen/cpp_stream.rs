//! C++ reading tokens with `std::cin`.
use vstd::prelude::*;
use crate::ast::{Array, List, Matrix, RowModel, UnitType};
use crate::codegen::cpp::typing;
use crate::codegen::stream::{tuple_like, tuple_like_spec, StreamBackend};
use crate::codegen::{binds_of, emitted, join_binds, lines_part, new_var, Bind, Emitted, Error};
use crate::names::{after, fresh_name, Namer};
use crate::text::{append_code, cat, indented, joined, lines_of, push_line, Code};

verus! {

pub struct CppStream;

/// Declares `bind` and reads it from the cursor.
pub open spec fn scan_spec(bind: Seq<char>, ty: UnitType) -> Seq<Seq<char>> {
    let read = seq![typing::unit_type_spec(ty) + " "@ + bind + ";"@, "std::cin >> "@ + bind + ";"@];
    if ty == UnitType::Int0 {
        read.push(bind + "--;"@)
    } else {
        read
    }
}

pub open spec fn loop_head_spec(k: Seq<char>, n: Seq<char>) -> Seq<char> {
    "for (int "@ + k + "=0; "@ + k + "<"@ + n + "; ++"@ + k + ") {"@
}

pub open spec fn unit_type_spec(bind: Seq<char>, ty: UnitType, c: u64) -> (Seq<Seq<char>>, u64) {
    (scan_spec(bind, ty), c)
}

/// `n` scalars read one by one into the vector `bind`, with `k` as the loop
/// index and `x` as each scalar.
pub open spec fn fill_spec(bind: Seq<char>, ty: UnitType, n: Seq<char>, k: Seq<char>, x: Seq<char>) -> Seq<Seq<char>> {
    seq![typing::vector_spec(ty) + " "@ + bind + ";"@, bind + ".reserve("@ + n + ");"@, loop_head_spec(k, n)]
        + indented("\t"@, scan_spec(x, ty).push(bind + ".push_back("@ + x + ");"@)) + seq!["}"@]
}

pub open spec fn array_spec(bind: Seq<char>, ty: UnitType, len: Seq<char>, c: u64) -> (Seq<Seq<char>>, u64) {
    let k = fresh_name(c);
    let x = fresh_name(after(c));
    (fill_spec(bind, ty, len, k, x), after(after(c)))
}

pub open spec fn list_spec(bind: Seq<char>, ty: UnitType, c: u64) -> (Seq<Seq<char>>, u64) {
    let n = fresh_name(c);
    let k = fresh_name(after(c));
    let x = fresh_name(after(after(c)));
    (
        seq!["int "@ + n + "; std::cin >> "@ + n + ";"@] + fill_spec(bind, ty, n, k, x),
        after(after(after(c))),
    )
}

pub open spec fn matrix_spec(bind: Seq<char>, row: RowModel, rep: Seq<char>, c: u64) -> Emitted {
    let k = fresh_name(c);
    let t = fresh_name(after(c));
    match tuple_like_spec(StreamBackend::CppStream, t, row, after(after(c))) {
        Ok((body, c1)) => Ok((
            seq![
                "std::vector<"@ + typing::tuple_like_spec(row) + "> "@ + bind + ";"@,
                bind + ".reserve("@ + rep + ");"@,
                loop_head_spec(k, rep),
            ] + indented("\t"@, body) + seq!["\t"@ + bind + ".push_back("@ + t + ");"@, "}"@],
            c1,
        )),
        Err(e) => Err(e),
    }
}

pub open spec fn tuple_spec(bind: Seq<char>, binds: Seq<Seq<char>>) -> Result<Seq<Seq<char>>, Error> {
    if binds.len() == 1 {
        Ok(seq!["auto "@ + bind + " = "@ + joined(binds, ", "@) + ";"@])
    } else {
        Ok(seq!["auto "@ + bind + " = std::make_tuple("@ + joined(binds, ", "@) + ");"@])
    }
}

fn scan_unit_type(bind: &Bind, ast: &UnitType) -> (r: Code)
    ensures
        lines_of(r) == scan_spec(bind@, *ast),
{
    let mut code: Code = Vec::new();
    push_line(&mut code, typing::unit_type(ast).concat(" ").concat(bind.as_str()).concat(";"));
    push_line(&mut code, cat("std::cin >> ", bind.as_str()).concat(";"));
    match ast {
        UnitType::Int0 => {
            push_line(&mut code, cat(bind.as_str(), "--;"));
        },
        _ => {},
    }
    assert(lines_of(code) =~= scan_spec(bind@, *ast));
    code
}

fn loop_head(k: &Bind, n: &str) -> (r: String)
    ensures
        r@ == loop_head_spec(k@, n@),
{
    cat("for (int ", k.as_str()).concat("=0; ").concat(k.as_str()).concat("<").concat(n).concat("; ++").concat(
        k.as_str(),
    ).concat(") {")
}

fn fill(code: &mut Code, bind: &Bind, ty: &UnitType, n: &str, k: &Bind, x: &Bind)
    ensures
        lines_of(*final(code)) == lines_of(*old(code)) + fill_spec(bind@, *ty, n@, k@, x@),
{
    let ghost start = lines_of(*code);
    push_line(code, cat("std::vector<", typing::unit_type(ty).as_str()).concat(">").concat(" ").concat(bind.as_str()).concat(";"));
    push_line(code, cat(bind.as_str(), ".reserve(").concat(n).concat(");"));
    push_line(code, loop_head(k, n));
    let mut inner = scan_unit_type(x, ty);
    push_line(&mut inner, cat(bind.as_str(), ".push_back(").concat(x.as_str()).concat(");"));
    append_code(code, "\t", inner);
    push_line(code, String::from_str("}"));
    assert(lines_of(*code) =~= start + fill_spec(bind@, *ty, n@, k@, x@));
}

impl CppStream {
    pub fn unit_type(names: &mut Namer, bind: Bind, ast: &UnitType) -> (r: Code)
        ensures
            (lines_of(r), final(names).next) == unit_type_spec(bind@, *ast, old(names).next),
    {
        scan_unit_type(&bind, ast)
    }

    pub fn array(names: &mut Namer, bind: Bind, ast: &Array) -> (r: Code)
        ensures
            (lines_of(r), final(names).next) == array_spec(bind@, ast@.0, ast@.1, old(names).next),
    {
        let mut code: Code = Vec::new();
        let k = new_var(names);
        let x = new_var(names);
        fill(&mut code, &bind, &ast.0, ast.1.0.as_str(), &k, &x);
        assert(lines_of(code) =~= seq![] + fill_spec(bind@, ast@.0, ast@.1, k@, x@));
        code
    }

    pub fn list(names: &mut Namer, bind: Bind, ast: &List) -> (r: Code)
        ensures
            (lines_of(r), final(names).next) == list_spec(bind@, ast.0, old(names).next),
    {
        let mut code: Code = Vec::new();
        let n = new_var(names);
        let k = new_var(names);
        let x = new_var(names);
        push_line(&mut code, cat("int ", n.as_str()).concat("; std::cin >> ").concat(n.as_str()).concat(";"));
        fill(&mut code, &bind, &ast.0, n.as_str(), &k, &x);
        code
    }

    pub fn matrix(names: &mut Namer, bind: Bind, ast: &Matrix) -> (r: Result<Code, Error>)
        ensures
            emitted(r, final(names).next, matrix_spec(bind@, ast@.0, ast@.1, old(names).next)),
    {
        let mut code: Code = Vec::new();
        let n = ast.1.0.as_str();
        push_line(&mut code, cat("std::vector<", typing::tuple_like(&ast.0).as_str()).concat("> ").concat(bind.as_str()).concat(";"));
        push_line(&mut code, cat(bind.as_str(), ".reserve(").concat(n).concat(");"));
        let k = new_var(names);
        push_line(&mut code, loop_head(&k, n));
        let t = new_var(names);
        match tuple_like(StreamBackend::CppStream, names, t.dup(), &ast.0) {
            Ok(body) => {
                append_code(&mut code, "\t", body);
                push_line(&mut code, cat("\t", bind.as_str()).concat(".push_back(").concat(t.as_str()).concat(");"));
                push_line(&mut code, String::from_str("}"));
                assert(lines_of(code) =~= lines_part(matrix_spec(bind@, ast@.0, ast@.1, old(names).next)));
                Ok(code)
            },
            Err(e) => Err(e),
        }
    }

    pub fn tuple(bind: Bind, elems: Vec<Bind>) -> (r: Result<Code, Error>)
        ensures
            match (r, tuple_spec(bind@, binds_of(elems@))) {
                (Ok(c), Ok(t)) => lines_of(c) == t,
                (Err(e), Err(f)) => e == f,
                _ => false,
            },
    {
        let n = elems.len();
        let inner = join_binds(&elems, ", ");
        let mut code: Code = Vec::new();
        if n == 1 {
            push_line(&mut code, cat("auto ", bind.as_str()).concat(" = ").concat(inner.as_str()).concat(";"));
        } else {
            push_line(&mut code, cat("auto ", bind.as_str()).concat(" = std::make_tuple(").concat(inner.as_str()).concat(");"));
        }
        Ok(code)
    }
}

} // verus!
