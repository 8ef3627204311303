//! C++11, converting each token with a `std::istringstream`.
use vstd::prelude::*;
use crate::ast::{Array, List, Matrix, RowModel, UnitType};
use crate::codegen::cpp::{self, typing, Cpp};
use crate::codegen::cpp_stream::{self, CppStream};
use crate::codegen::readline::{tuple_like, tuple_like_spec, LineBackend};
use crate::codegen::{binds_of, emitted, lines_part, new_var, Bind, Emitted, Error, Index, Range, Slice};
use crate::names::{after, fresh_name, Namer};
use crate::text::{append_code, cat, decimal, indented, lines_of, push_line, Code};

verus! {

pub struct Cpp11;

pub open spec fn read_line_spec(bind: Seq<char>, c: u64) -> (Seq<Seq<char>>, Seq<char>, u64) {
    cpp::read_line_spec(bind, c)
}

pub open spec fn unit_type_spec(
    bind: Seq<char>,
    ty: UnitType,
    xs: Seq<char>,
    lo: Seq<char>,
    hi: Seq<char>,
    c: u64,
) -> (Seq<Seq<char>>, u64) {
    let ss = fresh_name(c);
    let read = seq![
        typing::unit_type_spec(ty) + " "@ + bind + ";"@,
        "std::istringstream "@ + ss + "("@ + xs + "["@ + lo + "]);"@,
        ss + " >> "@ + bind + ";"@,
    ];
    (if ty == UnitType::Int0 {
        read.push(bind + "--;"@)
    } else {
        read
    }, after(c))
}

/// Converts the token `xs[k]` into `s` and appends it to `bind`.
pub open spec fn convert_push_spec(bind: Seq<char>, ty: UnitType, xs: Seq<char>, k: Seq<char>) -> Seq<char> {
    let head = "\t"@ + typing::unit_type_spec(ty) + " s; std::istringstream ss("@ + xs + "["@ + k + "]); ss >> s; "@;
    if ty == UnitType::Int0 {
        head + "s--; "@ + bind + ".push_back(s);"@
    } else {
        head + bind + ".push_back(s);"@
    }
}

/// The tokens `xs[from..hi]` converted one by one into the new vector `bind`.
pub open spec fn collect_spec(
    bind: Seq<char>,
    ty: UnitType,
    xs: Seq<char>,
    from: Seq<char>,
    hi: Seq<char>,
    c: u64,
) -> (Seq<Seq<char>>, u64) {
    let k = fresh_name(c);
    (
        seq![
            typing::vector_spec(ty) + " "@ + bind + ";"@,
            "for (int "@ + k + "="@ + from + "; "@ + k + "<"@ + hi + "; "@ + k + "++) {"@,
            convert_push_spec(bind, ty, xs, k),
            "}"@,
        ],
        after(c),
    )
}

pub open spec fn array_spec(
    bind: Seq<char>,
    ty: UnitType,
    len: Seq<char>,
    xs: Seq<char>,
    lo: Seq<char>,
    hi: Seq<char>,
    c: u64,
) -> (Seq<Seq<char>>, u64) {
    collect_spec(bind, ty, xs, lo, hi, c)
}

/// The elements of a list: the scalars `xs[lo+1..hi]` bound to `bind`.
pub open spec fn list_elements_spec(
    bind: Seq<char>,
    ty: UnitType,
    xs: Seq<char>,
    lo: Seq<char>,
    hi: Seq<char>,
    c: u64,
) -> (Seq<Seq<char>>, u64) {
    collect_spec(bind, ty, xs, lo + "+1"@, hi, c)
}

/// The count token `t` read into the new variable `n`.
pub open spec fn count_spec(n: Seq<char>, t: Seq<char>) -> Seq<char> {
    "int "@ + n + " = std::stoi("@ + t + ");"@
}

/// A list over `[lo, hi)`: its count `xs[lo]` read into a fresh name, then
/// its elements `xs[lo+1..hi]` bound to `bind`.
pub open spec fn list_spec(
    bind: Seq<char>,
    ty: UnitType,
    xs: Seq<char>,
    lo: Seq<char>,
    hi: Seq<char>,
    c: u64,
) -> (Seq<Seq<char>>, u64) {
    let n = crate::names::fresh_name(c);
    let (body, c1) = list_elements_spec(bind, ty, xs, lo, hi, crate::names::after(c));
    (seq![count_spec(n, xs + "["@ + lo + "]"@)] + body, c1)
}

pub open spec fn matrix_spec(bind: Seq<char>, row: RowModel, rep: Seq<char>, c: u64) -> Emitted {
    let k = fresh_name(c);
    let line = fresh_name(after(c));
    let (read, len, c1) = read_line_spec(line, after(after(c)));
    let t = fresh_name(c1);
    match tuple_like_spec(LineBackend::Cpp11, t, row, line, decimal(0), len, after(c1)) {
        Ok((body, c2)) => Ok((
            seq![
                "std::vector<"@ + typing::tuple_like_spec(row) + "> "@ + bind + ";"@,
                "for (int "@ + k + "=0; "@ + k + "<"@ + rep + "; "@ + k + "++) {"@,
            ] + indented("\t"@, read) + indented("\t"@, body) + seq![
                "\t"@ + bind + ".push_back("@ + t + ");"@,
                "}"@,
            ],
            c2,
        )),
        Err(e) => Err(e),
    }
}

pub open spec fn tuple_spec(bind: Seq<char>, binds: Seq<Seq<char>>) -> Result<Seq<Seq<char>>, Error> {
    cpp_stream::tuple_spec(bind, binds)
}

fn collect(names: &mut Namer, bind: &Bind, ty: &UnitType, xs: &Bind, from: &str, hi: &str) -> (r: Code)
    ensures
        (lines_of(r), final(names).next) == collect_spec(bind@, *ty, xs@, from@, hi@, old(names).next),
{
    let mut code: Code = Vec::new();
    push_line(&mut code, cat("std::vector<", typing::unit_type(ty).as_str()).concat(">").concat(" ").concat(bind.as_str()).concat(";"));
    let k = new_var(names);
    push_line(
        &mut code,
        cat("for (int ", k.as_str()).concat("=").concat(from).concat("; ").concat(k.as_str()).concat("<").concat(
            hi,
        ).concat("; ").concat(k.as_str()).concat("++) {"),
    );
    let head = cat("\t", typing::unit_type(ty).as_str()).concat(" s; std::istringstream ss(").concat(xs.as_str()).concat(
        "[",
    ).concat(k.as_str()).concat("]); ss >> s; ");
    let line = match ty {
        UnitType::Int0 => head.concat("s--; ").concat(bind.as_str()).concat(".push_back(s);"),
        _ => head.concat(bind.as_str()).concat(".push_back(s);"),
    };
    push_line(&mut code, line);
    push_line(&mut code, String::from_str("}"));
    assert(lines_of(code) =~= collect_spec(bind@, *ty, xs@, from@, hi@, old(names).next).0);
    code
}

fn count_line(n: &Bind, t: &str) -> (r: String)
    ensures
        r@ == count_spec(n@, t@),
{
    cat("int ", n.as_str()).concat(" = std::stoi(").concat(t).concat(");")
}

impl Cpp11 {
    pub fn read_line(names: &mut Namer, bind: Bind) -> (r: (Code, Index))
        ensures
            (lines_of(r.0), r.1@, final(names).next) == read_line_spec(bind@, old(names).next),
    {
        Cpp::read_line(names, bind)
    }

    pub fn unit_type(names: &mut Namer, bind: Bind, ast: &UnitType, source: Slice) -> (r: Code)
        ensures
            (lines_of(r), final(names).next) == unit_type_spec(
                bind@,
                *ast,
                source@.0,
                source@.1,
                source@.2,
                old(names).next,
            ),
    {
        let Slice(xs, Range(i, _j)) = source;
        let mut code: Code = Vec::new();
        let ss = new_var(names);
        push_line(&mut code, typing::unit_type(ast).concat(" ").concat(bind.as_str()).concat(";"));
        push_line(
            &mut code,
            cat("std::istringstream ", ss.as_str()).concat("(").concat(xs.as_str()).concat("[").concat(i.0.as_str()).concat(
                "]);",
            ),
        );
        push_line(&mut code, cat(ss.as_str(), " >> ").concat(bind.as_str()).concat(";"));
        match ast {
            UnitType::Int0 => {
                push_line(&mut code, cat(bind.as_str(), "--;"));
            },
            _ => {},
        }
        assert(lines_of(code) =~= unit_type_spec(bind@, *ast, xs@, i@, _j@, old(names).next).0);
        code
    }

    pub fn array(names: &mut Namer, bind: Bind, ast: &Array, source: Slice) -> (r: Code)
        ensures
            (lines_of(r), final(names).next) == array_spec(
                bind@,
                ast@.0,
                ast@.1,
                source@.0,
                source@.1,
                source@.2,
                old(names).next,
            ),
    {
        let Slice(xs, Range(i, j)) = source;
        collect(names, &bind, &ast.0, &xs, i.0.as_str(), j.0.as_str())
    }

    fn list_elements(names: &mut Namer, bind: Bind, ast: &List, source: Slice) -> (r: Code)
        ensures
            (lines_of(r), final(names).next) == list_elements_spec(
                bind@,
                ast.0,
                source@.0,
                source@.1,
                source@.2,
                old(names).next,
            ),
    {
        let Slice(xs, Range(i, j)) = source;
        let from = cat(i.0.as_str(), "+1");
        collect(names, &bind, &ast.0, &xs, from.as_str(), j.0.as_str())
    }

    pub fn list(names: &mut Namer, bind: Bind, ast: &List, source: Slice) -> (r: Code)
        ensures
            (lines_of(r), final(names).next) == list_spec(
                bind@,
                ast.0,
                source@.0,
                source@.1,
                source@.2,
                old(names).next,
            ),
    {
        let n = crate::codegen::new_var(names);
        let token = cat(source.0.as_str(), "[").concat(source.1.0.0.as_str()).concat("]");
        let mut code: Code = Vec::new();
        push_line(&mut code, count_line(&n, token.as_str()));
        let body = Self::list_elements(names, bind, ast, source);
        crate::text::extend_code(&mut code, body);
        code
    }

    pub fn matrix(names: &mut Namer, bind: Bind, ast: &Matrix) -> (r: Result<Code, Error>)
        ensures
            emitted(r, final(names).next, matrix_spec(bind@, ast@.0, ast@.1, old(names).next)),
    {
        let mut code: Code = Vec::new();
        let n = ast.1.0.as_str();
        push_line(&mut code, cat("std::vector<", typing::tuple_like(&ast.0).as_str()).concat("> ").concat(bind.as_str()).concat(";"));
        let k = new_var(names);
        push_line(
            &mut code,
            cat("for (int ", k.as_str()).concat("=0; ").concat(k.as_str()).concat("<").concat(n).concat("; ").concat(
                k.as_str(),
            ).concat("++) {"),
        );
        let line = new_var(names);
        let (read, len) = Cpp11::read_line(names, line.dup());
        append_code(&mut code, "\t", read);
        let t = new_var(names);
        match tuple_like(LineBackend::Cpp11, names, t.dup(), &ast.0, Slice(line, Range(Index::zero(), len))) {
            Ok(body) => {
                append_code(&mut code, "\t", body);
                push_line(&mut code, cat("\t", bind.as_str()).concat(".push_back(").concat(t.as_str()).concat(");"));
                push_line(&mut code, String::from_str("}"));
                assert(lines_of(code) =~= lines_part(matrix_spec(bind@, ast@.0, ast@.1, old(names).next)));
                Ok(code)
            },
            Err(e) => Err(e),
        }
    }

    pub fn tuple(bind: Bind, elems: Vec<Bind>) -> (r: Result<Code, Error>)
        ensures
            match (r, tuple_spec(bind@, binds_of(elems@))) {
                (Ok(c), Ok(t)) => lines_of(c) == t,
                (Err(e), Err(f)) => e == f,
                _ => false,
            },
    {
        CppStream::tuple(bind, elems)
    }
}

} // verus!
