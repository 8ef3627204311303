//! C++ with a line buffer per input line.
use vstd::prelude::*;
use crate::ast::{Array, List, Matrix, RowModel, UnitType};
use crate::codegen::cpp_stream::{self, CppStream};
use crate::codegen::readline::{tuple_like, tuple_like_spec, LineBackend};
use crate::codegen::{binds_of, emitted, lines_part, new_var, Bind, Emitted, Error, Index, Range, Slice};
use crate::names::{after, fresh_name, Namer};
use crate::text::{append_code, cat, decimal, indented, lines_of, push_line, Code};

pub mod typing;

verus! {

pub struct Cpp;

pub open spec fn read_line_spec(bind: Seq<char>, c: u64) -> (Seq<Seq<char>>, Seq<char>, u64) {
    let line = fresh_name(c);
    let s = fresh_name(after(c));
    let ss = fresh_name(after(after(c)));
    let n = fresh_name(after(after(after(c))));
    (
        seq![
            "std::vector<std::string> "@ + bind + ";"@,
            "std::string "@ + line + "; std::getline(std::cin, "@ + line + ");"@,
            "std::istringstream "@ + ss + "("@ + line + "); std::string "@ + s + ";"@,
            "while (std::getline("@ + ss + ", "@ + s + ", ' ')) { "@ + bind + ".push_back("@ + s + "); }"@,
            "int "@ + n + " = "@ + bind + ".size();"@,
        ],
        n,
        after(after(after(after(c)))),
    )
}

/// Declares `bind` and converts the token text `s` into it.
pub open spec fn scan_spec(bind: Seq<char>, ty: UnitType, s: Seq<char>) -> Seq<Seq<char>> {
    let decl = typing::unit_type_spec(ty) + " "@ + bind + ";"@;
    match ty {
        UnitType::Int => seq![decl, bind + " = atoi("@ + s + ".c_str());"@],
        UnitType::Int0 => seq![decl, bind + " = atoi("@ + s + ".c_str());"@, bind + "--;"@],
        UnitType::Float => seq![decl, bind + " = atof("@ + s + ".c_str());"@],
        UnitType::Str => seq![decl, bind + " = "@ + s + ";"@],
    }
}

pub open spec fn unit_type_spec(
    bind: Seq<char>,
    ty: UnitType,
    xs: Seq<char>,
    lo: Seq<char>,
    hi: Seq<char>,
    c: u64,
) -> (Seq<Seq<char>>, u64) {
    (scan_spec(bind, ty, xs + "["@ + lo + "]"@), c)
}

/// The tokens `xs[from..hi]` converted one by one into the vector `bind`.
pub open spec fn collect_spec(
    bind: Seq<char>,
    ty: UnitType,
    xs: Seq<char>,
    from: Seq<char>,
    hi: Seq<char>,
    c: u64,
) -> (Seq<Seq<char>>, u64) {
    let k = fresh_name(c);
    let x = fresh_name(after(c));
    (
        seq!["for (int "@ + k + "="@ + from + "; "@ + k + "<"@ + hi + "; "@ + k + "++) {"@] + indented(
            "\t"@,
            scan_spec(x, ty, xs + "["@ + k + "]"@).push(bind + ".push_back("@ + x + ");"@),
        ) + seq!["}"@],
        after(after(c)),
    )
}

pub open spec fn array_spec(
    bind: Seq<char>,
    ty: UnitType,
    len: Seq<char>,
    xs: Seq<char>,
    lo: Seq<char>,
    hi: Seq<char>,
    c: u64,
) -> (Seq<Seq<char>>, u64) {
    let (body, c1) = collect_spec(bind, ty, xs, lo, hi, c);
    (seq![typing::vector_spec(ty) + " "@ + bind + ";"@, bind + ".reserve("@ + len + ");"@] + body, c1)
}

/// The elements of a list: the scalars `xs[lo+1..hi]` bound to `bind`.
pub open spec fn list_elements_spec(
    bind: Seq<char>,
    ty: UnitType,
    xs: Seq<char>,
    lo: Seq<char>,
    hi: Seq<char>,
    c: u64,
) -> (Seq<Seq<char>>, u64) {
    let (body, c1) = collect_spec(bind, ty, xs, lo + "+1"@, hi, c);
    (seq![typing::vector_spec(ty) + " "@ + bind + ";"@] + body, c1)
}

/// The count token `t` read into the new variable `n`.
pub open spec fn count_spec(n: Seq<char>, t: Seq<char>) -> Seq<char> {
    "int "@ + n + " = atoi("@ + t + ".c_str());"@
}

/// A list over `[lo, hi)`: its count `xs[lo]` read into a fresh name, then
/// its elements `xs[lo+1..hi]` bound to `bind`.
pub open spec fn list_spec(
    bind: Seq<char>,
    ty: UnitType,
    xs: Seq<char>,
    lo: Seq<char>,
    hi: Seq<char>,
    c: u64,
) -> (Seq<Seq<char>>, u64) {
    let n = crate::names::fresh_name(c);
    let (body, c1) = list_elements_spec(bind, ty, xs, lo, hi, crate::names::after(c));
    (seq![count_spec(n, xs + "["@ + lo + "]"@)] + body, c1)
}

pub open spec fn matrix_spec(bind: Seq<char>, row: RowModel, rep: Seq<char>, c: u64) -> Emitted {
    let k = fresh_name(c);
    let line = fresh_name(after(c));
    let (read, len, c1) = read_line_spec(line, after(after(c)));
    let t = fresh_name(c1);
    match tuple_like_spec(LineBackend::Cpp, t, row, line, decimal(0), len, after(c1)) {
        Ok((body, c2)) => Ok((
            seq![
                "std::vector<"@ + typing::tuple_like_spec(row) + "> "@ + bind + ";"@,
                bind + ".reserve("@ + rep + ");"@,
                "for (int "@ + k + "=0; "@ + k + "<"@ + rep + "; "@ + k + "++) {"@,
            ] + indented("\t"@, read) + indented("\t"@, body) + seq![
                "\t"@ + bind + ".push_back("@ + t + ");"@,
                "}"@,
            ],
            c2,
        )),
        Err(e) => Err(e),
    }
}

pub open spec fn tuple_spec(bind: Seq<char>, binds: Seq<Seq<char>>) -> Result<Seq<Seq<char>>, Error> {
    cpp_stream::tuple_spec(bind, binds)
}

fn scan_unit_type(code: &mut Code, bind: &Bind, ast: &UnitType, s: &str)
    ensures
        lines_of(*final(code)) == lines_of(*old(code)) + scan_spec(bind@, *ast, s@),
{
    let ghost start = lines_of(*code);
    push_line(code, typing::unit_type(ast).concat(" ").concat(bind.as_str()).concat(";"));
    match ast {
        UnitType::Int => {
            push_line(code, cat(bind.as_str(), " = atoi(").concat(s).concat(".c_str());"));
        },
        UnitType::Int0 => {
            push_line(code, cat(bind.as_str(), " = atoi(").concat(s).concat(".c_str());"));
            push_line(code, cat(bind.as_str(), "--;"));
        },
        UnitType::Float => {
            push_line(code, cat(bind.as_str(), " = atof(").concat(s).concat(".c_str());"));
        },
        UnitType::Str => {
            push_line(code, cat(bind.as_str(), " = ").concat(s).concat(";"));
        },
    }
    assert(lines_of(*code) =~= start + scan_spec(bind@, *ast, s@));
}

fn collect(code: &mut Code, names: &mut Namer, bind: &Bind, ty: &UnitType, xs: &Bind, from: &str, hi: &str)
    ensures
        ({
            let (body, c1) = collect_spec(bind@, *ty, xs@, from@, hi@, old(names).next);
            lines_of(*final(code)) == lines_of(*old(code)) + body && final(names).next == c1
        }),
{
    let ghost start = lines_of(*code);
    let k = new_var(names);
    push_line(
        code,
        cat("for (int ", k.as_str()).concat("=").concat(from).concat("; ").concat(k.as_str()).concat("<").concat(
            hi,
        ).concat("; ").concat(k.as_str()).concat("++) {"),
    );
    let x = new_var(names);
    let mut inner: Code = Vec::new();
    let s = cat(xs.as_str(), "[").concat(k.as_str()).concat("]");
    scan_unit_type(&mut inner, &x, ty, s.as_str());
    push_line(&mut inner, cat(bind.as_str(), ".push_back(").concat(x.as_str()).concat(");"));
    assert(lines_of(inner) =~= scan_spec(x@, *ty, s@).push(bind@ + ".push_back("@ + x@ + ");"@));
    append_code(code, "\t", inner);
    push_line(code, String::from_str("}"));
    assert(lines_of(*code) =~= start + collect_spec(bind@, *ty, xs@, from@, hi@, old(names).next).0);
}

fn count_line(n: &Bind, t: &str) -> (r: String)
    ensures
        r@ == count_spec(n@, t@),
{
    cat("int ", n.as_str()).concat(" = atoi(").concat(t).concat(".c_str());")
}

impl Cpp {
    pub fn read_line(names: &mut Namer, bind: Bind) -> (r: (Code, Index))
        ensures
            (lines_of(r.0), r.1@, final(names).next) == read_line_spec(bind@, old(names).next),
    {
        let mut code: Code = Vec::new();
        let line = new_var(names);
        let s = new_var(names);
        let ss = new_var(names);
        let n = new_var(names);
        push_line(&mut code, cat("std::vector<std::string> ", bind.as_str()).concat(";"));
        push_line(
            &mut code,
            cat("std::string ", line.as_str()).concat("; std::getline(std::cin, ").concat(line.as_str()).concat(");"),
        );
        push_line(
            &mut code,
            cat("std::istringstream ", ss.as_str()).concat("(").concat(line.as_str()).concat("); std::string ").concat(
                s.as_str(),
            ).concat(";"),
        );
        push_line(
            &mut code,
            cat("while (std::getline(", ss.as_str()).concat(", ").concat(s.as_str()).concat(", ' ')) { ").concat(
                bind.as_str(),
            ).concat(".push_back(").concat(s.as_str()).concat("); }"),
        );
        push_line(&mut code, cat("int ", n.as_str()).concat(" = ").concat(bind.as_str()).concat(".size();"));
        assert(lines_of(code) =~= read_line_spec(bind@, old(names).next).0);
        (code, Index(n.0))
    }

    pub fn unit_type(names: &mut Namer, bind: Bind, ast: &UnitType, source: Slice) -> (r: Code)
        ensures
            (lines_of(r), final(names).next) == unit_type_spec(
                bind@,
                *ast,
                source@.0,
                source@.1,
                source@.2,
                old(names).next,
            ),
    {
        let Slice(xs, Range(i, _j)) = source;
        let mut code: Code = Vec::new();
        let s = cat(xs.as_str(), "[").concat(i.0.as_str()).concat("]");
        scan_unit_type(&mut code, &bind, ast, s.as_str());
        assert(lines_of(code) =~= seq![] + scan_spec(bind@, *ast, s@));
        code
    }

    pub fn array(names: &mut Namer, bind: Bind, ast: &Array, source: Slice) -> (r: Code)
        ensures
            (lines_of(r), final(names).next) == array_spec(
                bind@,
                ast@.0,
                ast@.1,
                source@.0,
                source@.1,
                source@.2,
                old(names).next,
            ),
    {
        let Slice(xs, Range(i, j)) = source;
        let mut code: Code = Vec::new();
        push_line(&mut code, typing::array(ast).concat(" ").concat(bind.as_str()).concat(";"));
        push_line(&mut code, cat(bind.as_str(), ".reserve(").concat(ast.1.0.as_str()).concat(");"));
        collect(&mut code, names, &bind, &ast.0, &xs, i.0.as_str(), j.0.as_str());
        code
    }

    fn list_elements(names: &mut Namer, bind: Bind, ast: &List, source: Slice) -> (r: Code)
        ensures
            (lines_of(r), final(names).next) == list_elements_spec(
                bind@,
                ast.0,
                source@.0,
                source@.1,
                source@.2,
                old(names).next,
            ),
    {
        let Slice(xs, Range(i, j)) = source;
        let mut code: Code = Vec::new();
        push_line(&mut code, typing::list(ast).concat(" ").concat(bind.as_str()).concat(";"));
        let from = cat(i.0.as_str(), "+1");
        collect(&mut code, names, &bind, &ast.0, &xs, from.as_str(), j.0.as_str());
        code
    }

    pub fn list(names: &mut Namer, bind: Bind, ast: &List, source: Slice) -> (r: Code)
        ensures
            (lines_of(r), final(names).next) == list_spec(
                bind@,
                ast.0,
                source@.0,
                source@.1,
                source@.2,
                old(names).next,
            ),
    {
        let n = crate::codegen::new_var(names);
        let token = cat(source.0.as_str(), "[").concat(source.1.0.0.as_str()).concat("]");
        let mut code: Code = Vec::new();
        push_line(&mut code, count_line(&n, token.as_str()));
        let body = Self::list_elements(names, bind, ast, source);
        crate::text::extend_code(&mut code, body);
        code
    }

    pub fn matrix(names: &mut Namer, bind: Bind, ast: &Matrix) -> (r: Result<Code, Error>)
        ensures
            emitted(r, final(names).next, matrix_spec(bind@, ast@.0, ast@.1, old(names).next)),
    {
        let mut code: Code = Vec::new();
        let n = ast.1.0.as_str();
        push_line(&mut code, cat("std::vector<", typing::tuple_like(&ast.0).as_str()).concat("> ").concat(bind.as_str()).concat(";"));
        push_line(&mut code, cat(bind.as_str(), ".reserve(").concat(n).concat(");"));
        let k = new_var(names);
        push_line(
            &mut code,
            cat("for (int ", k.as_str()).concat("=0; ").concat(k.as_str()).concat("<").concat(n).concat("; ").concat(
                k.as_str(),
            ).concat("++) {"),
        );
        let line = new_var(names);
        let (read, len) = Cpp::read_line(names, line.dup());
        append_code(&mut code, "\t", read);
        let t = new_var(names);
        match tuple_like(LineBackend::Cpp, names, t.dup(), &ast.0, Slice(line, Range(Index::zero(), len))) {
            Ok(body) => {
                append_code(&mut code, "\t", body);
                push_line(&mut code, cat("\t", bind.as_str()).concat(".push_back(").concat(t.as_str()).concat(");"));
                push_line(&mut code, String::from_str("}"));
                assert(lines_of(code) =~= lines_part(matrix_spec(bind@, ast@.0, ast@.1, old(names).next)));
                Ok(code)
            },
            Err(e) => Err(e),
        }
    }

    pub fn tuple(bind: Bind, elems: Vec<Bind>) -> (r: Result<Code, Error>)
        ensures
            match (r, tuple_spec(bind@, binds_of(elems@))) {
                (Ok(c), Ok(t)) => lines_of(c) == t,
                (Err(e), Err(f)) => e == f,
                _ => false,
            },
    {
        CppStream::tuple(bind, elems)
    }
}

} // verus!
