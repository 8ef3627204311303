//! The line-buffered engine: each physical line is read and split into a
//! token sequence, and every field gets a symbolic `[start, end)` range of it.
use vstd::prelude::*;
use crate::arity::{elem_arity, type_arity, Arity, GetArity};
use crate::ast::{Array, DefModel, Definition, ElemModel, Line, List, Matrix, Root, RowModel, TupleElem, TupleLike, Type, TypeModel, UnitType};
use crate::codegen::{
    binds_of, chain, chain_stops_at_failure, emitted, lemma_chain_at, lemma_chain_fails, lemma_prepend_empty, lemma_prepend_twice, new_var,
    prepend, resolve, text_outcome, resolve_spec, Bind, Emitted, Error, Index, Range, Slice, arities_of,
};
use crate::codegen::python::{self, Python};
use crate::codegen::cpp11::{self, Cpp11};
use crate::codegen::swift::{self, Swift};
use crate::codegen::rust::{self, Rust};
use crate::codegen::csharp::{self, CSharp};
use crate::codegen::kotlin::{self, Kotlin};
use crate::codegen::java::{self, Java};
use crate::codegen::nim::{self, Nim};
use crate::codegen::ruby::{self, Ruby};
use crate::codegen::cpp::{self, Cpp};
use crate::names::{after, fresh_name, Namer};
use crate::text::{decimal, extend_code, joined, lines_of, Code, join_lines};

verus! {

/// The backends that render the line-buffered strategy.
#[derive(Clone, Copy, Debug, PartialEq, Eq, Structural)]
pub enum LineBackend {
    Python,
    Cpp,
    Ruby,
    Nim,
    Java,
    Kotlin,
    CSharp,
    Rust,
    Swift,
    Cpp11,
}

/// Whether the target language has a literal for tuples of two or more values.
pub open spec fn supports_tuple(lang: LineBackend) -> bool {
    match lang {
        LineBackend::Python => true,
        LineBackend::Cpp11 => true,
        LineBackend::Swift => true,
        LineBackend::Rust => true,
        LineBackend::CSharp => true,
        LineBackend::Kotlin => false,
        LineBackend::Java => false,
        LineBackend::Nim => true,
        LineBackend::Ruby => true,
        LineBackend::Cpp => true,
    }
}

/// Code that reads one line into `bind`, and the text of its token count.
pub open spec fn read_line_spec(lang: LineBackend, bind: Seq<char>, c: u64) -> (
    Seq<Seq<char>>,
    Seq<char>,
    u64,
) {
    match lang {
        LineBackend::Python => python::read_line_spec(bind, c),
        LineBackend::Cpp11 => cpp11::read_line_spec(bind, c),
        LineBackend::Swift => swift::read_line_spec(bind, c),
        LineBackend::Rust => rust::read_line_spec(bind, c),
        LineBackend::CSharp => csharp::read_line_spec(bind, c),
        LineBackend::Kotlin => kotlin::read_line_spec(bind, c),
        LineBackend::Java => java::read_line_spec(bind, c),
        LineBackend::Nim => nim::read_line_spec(bind, c),
        LineBackend::Ruby => ruby::read_line_spec(bind, c),
        LineBackend::Cpp => cpp::read_line_spec(bind, c),
    }
}

/// Code that binds the scalar at `xs[lo]` to `bind`.
pub open spec fn unit_type_spec(
    lang: LineBackend,
    bind: Seq<char>,
    ty: UnitType,
    xs: Seq<char>,
    lo: Seq<char>,
    hi: Seq<char>,
    c: u64,
) -> (Seq<Seq<char>>, u64) {
    match lang {
        LineBackend::Python => python::unit_type_spec(bind, ty, xs, lo, hi, c),
        LineBackend::Cpp11 => cpp11::unit_type_spec(bind, ty, xs, lo, hi, c),
        LineBackend::Swift => swift::unit_type_spec(bind, ty, xs, lo, hi, c),
        LineBackend::Rust => rust::unit_type_spec(bind, ty, xs, lo, hi, c),
        LineBackend::CSharp => csharp::unit_type_spec(bind, ty, xs, lo, hi, c),
        LineBackend::Kotlin => kotlin::unit_type_spec(bind, ty, xs, lo, hi, c),
        LineBackend::Java => java::unit_type_spec(bind, ty, xs, lo, hi, c),
        LineBackend::Nim => nim::unit_type_spec(bind, ty, xs, lo, hi, c),
        LineBackend::Ruby => ruby::unit_type_spec(bind, ty, xs, lo, hi, c),
        LineBackend::Cpp => cpp::unit_type_spec(bind, ty, xs, lo, hi, c),
    }
}

/// Code that binds the scalars `xs[lo..hi]` to `bind`.
pub open spec fn array_spec(
    lang: LineBackend,
    bind: Seq<char>,
    ty: UnitType,
    len: Seq<char>,
    xs: Seq<char>,
    lo: Seq<char>,
    hi: Seq<char>,
    c: u64,
) -> (Seq<Seq<char>>, u64) {
    match lang {
        LineBackend::Python => python::array_spec(bind, ty, len, xs, lo, hi, c),
        LineBackend::Cpp11 => cpp11::array_spec(bind, ty, len, xs, lo, hi, c),
        LineBackend::Swift => swift::array_spec(bind, ty, len, xs, lo, hi, c),
        LineBackend::Rust => rust::array_spec(bind, ty, len, xs, lo, hi, c),
        LineBackend::CSharp => csharp::array_spec(bind, ty, len, xs, lo, hi, c),
        LineBackend::Kotlin => kotlin::array_spec(bind, ty, len, xs, lo, hi, c),
        LineBackend::Java => java::array_spec(bind, ty, len, xs, lo, hi, c),
        LineBackend::Nim => nim::array_spec(bind, ty, len, xs, lo, hi, c),
        LineBackend::Ruby => ruby::array_spec(bind, ty, len, xs, lo, hi, c),
        LineBackend::Cpp => cpp::array_spec(bind, ty, len, xs, lo, hi, c),
    }
}

/// Code that reads the count `xs[lo]` into a fresh name, then binds the
/// scalars `xs[lo+1..hi]` to `bind`.
pub open spec fn list_spec(
    lang: LineBackend,
    bind: Seq<char>,
    ty: UnitType,
    xs: Seq<char>,
    lo: Seq<char>,
    hi: Seq<char>,
    c: u64,
) -> (Seq<Seq<char>>, u64) {
    match lang {
        LineBackend::Python => python::list_spec(bind, ty, xs, lo, hi, c),
        LineBackend::Cpp11 => cpp11::list_spec(bind, ty, xs, lo, hi, c),
        LineBackend::Swift => swift::list_spec(bind, ty, xs, lo, hi, c),
        LineBackend::Rust => rust::list_spec(bind, ty, xs, lo, hi, c),
        LineBackend::CSharp => csharp::list_spec(bind, ty, xs, lo, hi, c),
        LineBackend::Kotlin => kotlin::list_spec(bind, ty, xs, lo, hi, c),
        LineBackend::Java => java::list_spec(bind, ty, xs, lo, hi, c),
        LineBackend::Nim => nim::list_spec(bind, ty, xs, lo, hi, c),
        LineBackend::Ruby => ruby::list_spec(bind, ty, xs, lo, hi, c),
        LineBackend::Cpp => cpp::list_spec(bind, ty, xs, lo, hi, c),
    }
}

/// Code that reads `rep` rows, each from its own line.
pub open spec fn matrix_spec(
    lang: LineBackend,
    bind: Seq<char>,
    row: RowModel,
    rep: Seq<char>,
    c: u64,
) -> Emitted {
    match lang {
        LineBackend::Python => python::matrix_spec(bind, row, rep, c),
        LineBackend::Cpp11 => cpp11::matrix_spec(bind, row, rep, c),
        LineBackend::Swift => swift::matrix_spec(bind, row, rep, c),
        LineBackend::Rust => rust::matrix_spec(bind, row, rep, c),
        LineBackend::CSharp => csharp::matrix_spec(bind, row, rep, c),
        LineBackend::Kotlin => kotlin::matrix_spec(bind, row, rep, c),
        LineBackend::Java => java::matrix_spec(bind, row, rep, c),
        LineBackend::Nim => nim::matrix_spec(bind, row, rep, c),
        LineBackend::Ruby => ruby::matrix_spec(bind, row, rep, c),
        LineBackend::Cpp => cpp::matrix_spec(bind, row, rep, c),
    }
}

/// Code that combines the already bound `binds` into one tuple `bind`.
pub open spec fn tuple_spec(lang: LineBackend, bind: Seq<char>, binds: Seq<Seq<char>>) -> Result<
    Seq<Seq<char>>,
    Error,
> {
    match lang {
        LineBackend::Python => python::tuple_spec(bind, binds),
        LineBackend::Cpp11 => cpp11::tuple_spec(bind, binds),
        LineBackend::Swift => swift::tuple_spec(bind, binds),
        LineBackend::Rust => rust::tuple_spec(bind, binds),
        LineBackend::CSharp => csharp::tuple_spec(bind, binds),
        LineBackend::Kotlin => kotlin::tuple_spec(bind, binds),
        LineBackend::Java => java::tuple_spec(bind, binds),
        LineBackend::Nim => nim::tuple_spec(bind, binds),
        LineBackend::Ruby => ruby::tuple_spec(bind, binds),
        LineBackend::Cpp => cpp::tuple_spec(bind, binds),
    }
}

pub open spec fn elem_spec(
    lang: LineBackend,
    bind: Seq<char>,
    e: ElemModel,
    xs: Seq<char>,
    lo: Seq<char>,
    hi: Seq<char>,
    c: u64,
) -> (Seq<Seq<char>>, u64) {
    match e {
        ElemModel::Unit(u) => unit_type_spec(lang, bind, u, xs, lo, hi, c),
        ElemModel::Array(u, len) => array_spec(lang, bind, u, len, xs, lo, hi, c),
        ElemModel::List(u) => list_spec(lang, bind, u, xs, lo, hi, c),
    }
}

/// The code of the elements of a tuple, each bound to a fresh name over its
/// range, and those names.
pub open spec fn elems_spec(
    lang: LineBackend,
    elems: Seq<ElemModel>,
    xs: Seq<char>,
    ranges: Seq<(Seq<char>, Seq<char>)>,
    c: u64,
) -> (Seq<Seq<char>>, Seq<Seq<char>>, u64)
    decreases elems.len(),
{
    if elems.len() == 0 {
        (seq![], seq![], c)
    } else {
        let (code, binds, c1) = elems_spec(lang, elems.drop_last(), xs, ranges, c);
        let k = elems.len() - 1;
        let v = fresh_name(c1);
        let (ec, c2) = elem_spec(lang, v, elems.last(), xs, ranges[k].0, ranges[k].1, after(c1));
        (code + ec, binds.push(v), c2)
    }
}

pub open spec fn elem_arities(elems: Seq<ElemModel>) -> Seq<Option<Seq<char>>> {
    crate::arity::elem_arities_of(elems)
}

/// The shared decomposition of a row type over `[lo, hi)` of `xs`: arrays and
/// lists go to their primitive; a tuple's elements are laid out left to right
/// within its range, bound one by one, then combined.
pub open spec fn tuple_like_spec(
    lang: LineBackend,
    bind: Seq<char>,
    row: RowModel,
    xs: Seq<char>,
    lo: Seq<char>,
    hi: Seq<char>,
    c: u64,
) -> Emitted {
    match row {
        RowModel::Array(u, len) => Ok(array_spec(lang, bind, u, len, xs, lo, hi, c)),
        RowModel::List(u) => Ok(list_spec(lang, bind, u, xs, lo, hi, c)),
        RowModel::Tuple(elems) => {
            let rs = resolve_spec(elem_arities(elems), lo, hi);
            let (code, binds, c1) = elems_spec(lang, elems, xs, rs, c);
            match tuple_spec(lang, bind, binds) {
                Ok(t) => Ok((code + t, c1)),
                Err(e) => Err(e),
            }
        },
    }
}

pub fn read_line(lang: LineBackend, names: &mut Namer, bind: Bind) -> (r: (Code, Index))
    ensures
        (lines_of(r.0), r.1@, final(names).next) == read_line_spec(lang, bind@, old(names).next),
{
    match lang {
        LineBackend::Python => Python::read_line(names, bind),
        LineBackend::Cpp11 => Cpp11::read_line(names, bind),
        LineBackend::Swift => Swift::read_line(names, bind),
        LineBackend::Rust => Rust::read_line(names, bind),
        LineBackend::CSharp => CSharp::read_line(names, bind),
        LineBackend::Kotlin => Kotlin::read_line(names, bind),
        LineBackend::Java => Java::read_line(names, bind),
        LineBackend::Nim => Nim::read_line(names, bind),
        LineBackend::Ruby => Ruby::read_line(names, bind),
        LineBackend::Cpp => Cpp::read_line(names, bind),
    }
}

pub fn unit_type(lang: LineBackend, names: &mut Namer, bind: Bind, ast: &UnitType, source: Slice) -> (r: Code)
    ensures
        (lines_of(r), final(names).next) == unit_type_spec(
            lang,
            bind@,
            *ast,
            source@.0,
            source@.1,
            source@.2,
            old(names).next,
        ),
{
    match lang {
        LineBackend::Python => Python::unit_type(names, bind, ast, source),
        LineBackend::Cpp11 => Cpp11::unit_type(names, bind, ast, source),
        LineBackend::Swift => Swift::unit_type(names, bind, ast, source),
        LineBackend::Rust => Rust::unit_type(names, bind, ast, source),
        LineBackend::CSharp => CSharp::unit_type(names, bind, ast, source),
        LineBackend::Kotlin => Kotlin::unit_type(names, bind, ast, source),
        LineBackend::Java => Java::unit_type(names, bind, ast, source),
        LineBackend::Nim => Nim::unit_type(names, bind, ast, source),
        LineBackend::Ruby => Ruby::unit_type(names, bind, ast, source),
        LineBackend::Cpp => Cpp::unit_type(names, bind, ast, source),
    }
}

pub fn array(lang: LineBackend, names: &mut Namer, bind: Bind, ast: &Array, source: Slice) -> (r: Code)
    ensures
        (lines_of(r), final(names).next) == array_spec(
            lang,
            bind@,
            ast@.0,
            ast@.1,
            source@.0,
            source@.1,
            source@.2,
            old(names).next,
        ),
{
    match lang {
        LineBackend::Python => Python::array(names, bind, ast, source),
        LineBackend::Cpp11 => Cpp11::array(names, bind, ast, source),
        LineBackend::Swift => Swift::array(names, bind, ast, source),
        LineBackend::Rust => Rust::array(names, bind, ast, source),
        LineBackend::CSharp => CSharp::array(names, bind, ast, source),
        LineBackend::Kotlin => Kotlin::array(names, bind, ast, source),
        LineBackend::Java => Java::array(names, bind, ast, source),
        LineBackend::Nim => Nim::array(names, bind, ast, source),
        LineBackend::Ruby => Ruby::array(names, bind, ast, source),
        LineBackend::Cpp => Cpp::array(names, bind, ast, source),
    }
}

pub fn list(lang: LineBackend, names: &mut Namer, bind: Bind, ast: &List, source: Slice) -> (r: Code)
    ensures
        (lines_of(r), final(names).next) == list_spec(
            lang,
            bind@,
            ast.0,
            source@.0,
            source@.1,
            source@.2,
            old(names).next,
        ),
{
    match lang {
        LineBackend::Python => Python::list(names, bind, ast, source),
        LineBackend::Cpp11 => Cpp11::list(names, bind, ast, source),
        LineBackend::Swift => Swift::list(names, bind, ast, source),
        LineBackend::Rust => Rust::list(names, bind, ast, source),
        LineBackend::CSharp => CSharp::list(names, bind, ast, source),
        LineBackend::Kotlin => Kotlin::list(names, bind, ast, source),
        LineBackend::Java => Java::list(names, bind, ast, source),
        LineBackend::Nim => Nim::list(names, bind, ast, source),
        LineBackend::Ruby => Ruby::list(names, bind, ast, source),
        LineBackend::Cpp => Cpp::list(names, bind, ast, source),
    }
}

pub fn matrix(lang: LineBackend, names: &mut Namer, bind: Bind, ast: &Matrix) -> (r: Result<Code, Error>)
    ensures
        emitted(r, final(names).next, matrix_spec(lang, bind@, ast@.0, ast@.1, old(names).next)),
{
    match lang {
        LineBackend::Python => Python::matrix(names, bind, ast),
        LineBackend::Cpp11 => Cpp11::matrix(names, bind, ast),
        LineBackend::Swift => Swift::matrix(names, bind, ast),
        LineBackend::Rust => Rust::matrix(names, bind, ast),
        LineBackend::CSharp => CSharp::matrix(names, bind, ast),
        LineBackend::Kotlin => Kotlin::matrix(names, bind, ast),
        LineBackend::Java => Java::matrix(names, bind, ast),
        LineBackend::Nim => Nim::matrix(names, bind, ast),
        LineBackend::Ruby => Ruby::matrix(names, bind, ast),
        LineBackend::Cpp => Cpp::matrix(names, bind, ast),
    }
}

pub fn tuple(lang: LineBackend, bind: Bind, elems: Vec<Bind>) -> (r: Result<Code, Error>)
    ensures
        match (r, tuple_spec(lang, bind@, binds_of(elems@))) {
            (Ok(c), Ok(t)) => lines_of(c) == t,
            (Err(e), Err(f)) => e == f,
            _ => false,
        },
{
    match lang {
        LineBackend::Python => Python::tuple(bind, elems),
        LineBackend::Cpp11 => Cpp11::tuple(bind, elems),
        LineBackend::Swift => Swift::tuple(bind, elems),
        LineBackend::Rust => Rust::tuple(bind, elems),
        LineBackend::CSharp => CSharp::tuple(bind, elems),
        LineBackend::Kotlin => Kotlin::tuple(bind, elems),
        LineBackend::Java => Java::tuple(bind, elems),
        LineBackend::Nim => Nim::tuple(bind, elems),
        LineBackend::Ruby => Ruby::tuple(bind, elems),
        LineBackend::Cpp => Cpp::tuple(bind, elems),
    }
}

fn tuple_elem(lang: LineBackend, names: &mut Namer, bind: Bind, ast: &TupleElem, source: Slice) -> (r: Code)
    ensures
        (lines_of(r), final(names).next) == elem_spec(
            lang,
            bind@,
            ast@,
            source@.0,
            source@.1,
            source@.2,
            old(names).next,
        ),
{
    match ast {
        TupleElem::UnitType(x) => unit_type(lang, names, bind, x, source),
        TupleElem::Array(x) => array(lang, names, bind, x, source),
        TupleElem::List(x) => list(lang, names, bind, x, source),
    }
}

/// Binds the row type `ast` over the range of `source` to `bind`; shared by
/// every backend.
pub fn tuple_like(lang: LineBackend, names: &mut Namer, bind: Bind, ast: &TupleLike, source: Slice) -> (r:
    Result<Code, Error>)
    ensures
        emitted(
            r,
            final(names).next,
            tuple_like_spec(lang, bind@, ast@, source@.0, source@.1, source@.2, old(names).next),
        ),
{
    match ast {
        TupleLike::Array(x) => Ok(array(lang, names, bind, x, source)),
        TupleLike::List(x) => Ok(list(lang, names, bind, x, source)),
        TupleLike::Tuple(t) => {
            let ghost elems = t@;
            let ghost c0 = names.next;
            let Slice(xs, Range(fi, la)) = source;
            let mut arities: Vec<Arity> = Vec::new();
            let mut i: usize = 0;
            while i < t.0.len()
                invariant
                    i <= t.0@.len(),
                    elems == t@,
                    arities_of(arities@) =~= elem_arities(elems).take(i as int),
                decreases t.0@.len() - i,
            {
                assert(elems[i as int] == t.0@[i as int]@);
                let a = t.0[i].arity();
                assert(a@ == elem_arity(elems[i as int]));
                let ghost before = arities_of(arities@);
                arities.push(a);
                assert(arities_of(arities@) =~= before.push(a@));
                assert(elem_arities(elems).take(i + 1) =~= elem_arities(elems).take(i as int).push(elem_arity(elems[i as int])));
                i = i + 1;
            }
            let ranges = resolve(&arities, &fi, &la);
            let ghost rs = resolve_spec(elem_arities(elems), fi@, la@);
            assert(arities_of(arities@) =~= elem_arities(elems));
            assert(ranges@.map_values(|x: Range| x@).len() == ranges@.len());
            let mut out: Code = Vec::new();
            let mut inner: Vec<Bind> = Vec::new();
            let mut i: usize = 0;
            while i < t.0.len()
                invariant
                    i <= t.0@.len(),
                    elems == t@,
                    ranges@.len() == elems.len(),
                    ranges@.map_values(|x: Range| x@) == rs,
                    (lines_of(out), binds_of(inner@), names.next) == elems_spec(
                        lang,
                        elems.take(i as int),
                        xs@,
                        rs,
                        c0,
                    ),
                decreases t.0@.len() - i,
            {
                let var = new_var(names);
                let src = Slice(xs.dup(), Range(ranges[i].0.dup(), ranges[i].1.dup()));
                assert(rs[i as int] == ranges@[i as int]@);
                let code = tuple_elem(lang, names, var.dup(), &t.0[i], src);
                extend_code(&mut out, code);
                inner.push(var);
                i = i + 1;
                assert(elems.take(i as int).drop_last() =~= elems.take(i - 1));
                assert(binds_of(inner@) =~= binds_of(inner@).drop_last().push(inner@.last()@));
                assert(binds_of(inner@).drop_last() =~= binds_of(inner@.drop_last()));
            }
            assert(elems.take(i as int) =~= elems);
            match tuple(lang, bind, inner) {
                Ok(code) => {
                    extend_code(&mut out, code);
                    Ok(out)
                },
                Err(e) => Err(e),
            }
        },
    }
}


pub open spec fn is_matrix(d: DefModel) -> bool {
    d.ty is Matrix
}

/// Some definition of the line takes its tokens from the line itself.
pub open spec fn reads_line(defs: Seq<DefModel>) -> bool {
    exists|k: int| 0 <= k < defs.len() && !is_matrix(#[trigger] defs[k])
}

/// Some definition of the line is a matrix.
pub open spec fn has_matrix(defs: Seq<DefModel>) -> bool {
    exists|k: int| 0 <= k < defs.len() && is_matrix(#[trigger] defs[k])
}

/// A definition read from the shared line over its range.
pub open spec fn def_spec(
    lang: LineBackend,
    xs: Seq<char>,
    d: DefModel,
    range: (Seq<char>, Seq<char>),
    c: u64,
) -> Emitted {
    match d.ty {
        TypeModel::Unit(u) => Ok(unit_type_spec(lang, d.var, u, xs, range.0, range.1, c)),
        TypeModel::Row(r) => tuple_like_spec(lang, d.var, r, xs, range.0, range.1, c),
        TypeModel::Matrix(_, _) => Err(Error::MixedLine),
    }
}

pub open spec fn def_step(lang: LineBackend, xs: Seq<char>) -> spec_fn(
    (DefModel, (Seq<char>, Seq<char>)),
    u64,
) -> Emitted {
    |p: (DefModel, (Seq<char>, Seq<char>)), c: u64| def_spec(lang, xs, p.0, p.1, c)
}

/// A matrix definition, which reads its own lines.
pub open spec fn matrix_def_spec(lang: LineBackend, d: DefModel, c: u64) -> Emitted {
    match d.ty {
        TypeModel::Matrix(row, rep) => matrix_spec(lang, d.var, row, rep, c),
        _ => Err(Error::MixedLine),
    }
}

pub open spec fn matrix_step(lang: LineBackend) -> spec_fn(DefModel, u64) -> Emitted {
    |d: DefModel, c: u64| matrix_def_spec(lang, d, c)
}

pub open spec fn def_arities(defs: Seq<DefModel>) -> Seq<Option<Seq<char>>> {
    defs.map_values(|d: DefModel| type_arity(d.ty))
}

/// Each definition paired with its range.
pub open spec fn with_ranges(defs: Seq<DefModel>, rs: Seq<(Seq<char>, Seq<char>)>) -> Seq<
    (DefModel, (Seq<char>, Seq<char>)),
> {
    Seq::new(defs.len(), |k: int| (defs[k], rs[k]))
}

/// One line of the program: either one read of the physical line shared by
/// its definitions, laid out left to right from `0` to the line's length, or
/// the line's matrices one after the other. A line that mixes the two is
/// rejected.
///
/// A list, or a tuple holding one, claims every token up to the line's end.
/// A line or tuple holds at most one such field, as its last: a field after
/// it is laid out from the line's end, so its range lies past the tokens the
/// line has, and the generated program reads garbage or fails for it. Such a
/// description is the user's error; it is not rejected here.
pub open spec fn line_spec(lang: LineBackend, defs: Seq<DefModel>, c: u64) -> Emitted {
    if reads_line(defs) {
        if has_matrix(defs) {
            Err(Error::MixedLine)
        } else {
            let xs = fresh_name(c);
            let (read, len, c1) = read_line_spec(lang, xs, after(c));
            let rs = resolve_spec(def_arities(defs), decimal(0), len);
            prepend(read, chain(with_ranges(defs, rs), def_step(lang, xs), c1))
        }
    } else {
        chain(defs, matrix_step(lang), c)
    }
}

pub open spec fn line_step(lang: LineBackend) -> spec_fn(Seq<DefModel>, u64) -> Emitted {
    |l: Seq<DefModel>, c: u64| line_spec(lang, l, c)
}

/// The whole program, line by line from the counter value `c`.
pub open spec fn emit_spec(lang: LineBackend, lines: Seq<Seq<DefModel>>, c: u64) -> Emitted {
    chain(lines, line_step(lang), c)
}

fn emit_matrices(lang: LineBackend, names: &mut Namer, line: &Line) -> (r: Result<Code, Error>)
    ensures
        emitted(r, final(names).next, chain(line@, matrix_step(lang), old(names).next)),
{
    let ghost items = line@;
    let ghost step = matrix_step(lang);
    let ghost c0 = names.next;
    let mut out: Code = Vec::new();
    proof {
        assert(items.skip(0) =~= items);
        lemma_prepend_empty(chain(items, step, c0));
    }
    let mut i: usize = 0;
    while i < line.0.len()
        invariant
            i <= line.0@.len(),
            items == line@,
            step == matrix_step(lang),
            c0 == old(names).next,
            chain(items, step, c0) == prepend(lines_of(out), chain(items.skip(i as int), step, names.next)),
        decreases line.0@.len() - i,
    {
        let ghost n = names.next;
        proof { lemma_chain_at(items, step, i as int, n); }
        let Definition(var, typ) = &line.0[i];
        assert(items[i as int] == line.0@[i as int]@);
        match typ {
            Type::Matrix(x) => {
                match matrix(lang, names, Bind(var.0.clone()), x) {
                    Ok(code) => {
                        proof { lemma_prepend_twice(lines_of(out), lines_of(code), chain(items.skip(i + 1), step, names.next)); }
                        extend_code(&mut out, code);
                    },
                    Err(e) => {
                        return Err(e);
                    },
                }
            },
            _ => {
                assert(!is_matrix(items[i as int]));
                return Err(Error::MixedLine);
            },
        }
        i = i + 1;
    }
    proof {
        assert(items.skip(i as int) =~= Seq::<DefModel>::empty());
        assert(lines_of(out) + seq![] =~= lines_of(out));
    }
    Ok(out)
}


/// Emits one line of the program.
pub fn emit_line(lang: LineBackend, names: &mut Namer, line: &Line) -> (r: Result<Code, Error>)
    ensures
        emitted(r, final(names).next, line_spec(lang, line@, old(names).next)),
{
    let ghost defs = line@;
    let mut reads = false;
    let mut mats = false;
    let mut i: usize = 0;
    while i < line.0.len()
        invariant
            i <= line.0@.len(),
            defs == line@,
            reads == exists|k: int| 0 <= k < i && !is_matrix(#[trigger] defs[k]),
            mats == exists|k: int| 0 <= k < i && is_matrix(#[trigger] defs[k]),
        decreases line.0@.len() - i,
    {
        assert(defs[i as int] == line.0@[i as int]@);
        match &line.0[i].1 {
            Type::Matrix(_) => {
                mats = true;
            },
            _ => {
                reads = true;
            },
        }
        i = i + 1;
    }
    if !reads {
        return emit_matrices(lang, names, line);
    }
    if mats {
        return Err(Error::MixedLine);
    }
    let line_var = new_var(names);
    let (mut out, len) = read_line(lang, names, line_var.dup());
    let ghost read = lines_of(out);
    let ghost c1 = names.next;
    let mut arities: Vec<Arity> = Vec::new();
    let mut i: usize = 0;
    while i < line.0.len()
        invariant
            i <= line.0@.len(),
            defs == line@,
            arities_of(arities@) =~= def_arities(defs).take(i as int),
        decreases line.0@.len() - i,
    {
        assert(defs[i as int] == line.0@[i as int]@);
        let a = line.0[i].1.arity();
        let ghost before = arities_of(arities@);
        arities.push(a);
        assert(arities_of(arities@) =~= before.push(a@));
        assert(def_arities(defs).take(i + 1) =~= def_arities(defs).take(i as int).push(type_arity(defs[i as int].ty)));
        i = i + 1;
    }
    assert(arities_of(arities@) =~= def_arities(defs));
    let zero = Index::zero();
    let ranges = resolve(&arities, &zero, &len);
    let ghost rs = resolve_spec(def_arities(defs), zero@, len@);
    let ghost items = with_ranges(defs, rs);
    let ghost step = def_step(lang, line_var@);
    assert(ranges@.map_values(|x: Range| x@).len() == ranges@.len());
    proof {
        assert(items.skip(0) =~= items);
        assert(reads_line(defs));
        assert(!has_matrix(defs));
    }
    assert(line_spec(lang, defs, old(names).next) == prepend(read, chain(items, step, c1)));
    let mut i: usize = 0;
    while i < line.0.len()
        invariant
            i <= line.0@.len(),
            defs == line@,
            line_spec(lang, defs, old(names).next) == prepend(read, chain(items, step, c1)),
            ranges@.len() == defs.len(),
            ranges@.map_values(|x: Range| x@) == rs,
            items == with_ranges(defs, rs),
            step == def_step(lang, line_var@),
            prepend(read, chain(items, step, c1)) == prepend(lines_of(out), chain(items.skip(i as int), step, names.next)),
        decreases line.0@.len() - i,
    {
        let ghost n = names.next;
        proof { lemma_chain_at(items, step, i as int, n); }
        let Definition(var, typ) = &line.0[i];
        assert(items[i as int] == (defs[i as int], rs[i as int]));
        assert(defs[i as int] == line.0@[i as int]@);
        assert(rs[i as int] == ranges@[i as int]@);
        let src = Slice(line_var.dup(), Range(ranges[i].0.dup(), ranges[i].1.dup()));
        let r = match typ {
            Type::UnitType(x) => Ok(unit_type(lang, names, Bind(var.0.clone()), x, src)),
            Type::TupleLike(x) => tuple_like(lang, names, Bind(var.0.clone()), x, src),
            Type::Matrix(_) => Err(Error::MixedLine),
        };
        match r {
            Ok(code) => {
                proof {
                    lemma_prepend_twice(lines_of(out), lines_of(code), chain(items.skip(i + 1), step, names.next));
                }
                extend_code(&mut out, code);
            },
            Err(e) => {
                return Err(e);
            },
        }
        i = i + 1;
    }
    proof {
        assert(items.skip(i as int) =~= Seq::<(DefModel, (Seq<char>, Seq<char>))>::empty());
        assert(lines_of(out) + seq![] =~= lines_of(out));
    }
    Ok(out)
}

/// The outcome of generating a whole program: its text, lines separated by
/// newlines, or the error.
pub open spec fn program_text(e: Emitted) -> Result<Seq<char>, Error> {
    match e {
        Ok((t, _)) => Ok(joined(t, seq!['\n'])),
        Err(err) => Err(err),
    }
}

/// Generates the program that reads input of the shape `root`, numbering
/// temporaries from `v0`.
pub fn emit(lang: LineBackend, root: &Root) -> (r: Result<String, Error>)
    ensures
        text_outcome(r) == program_text(emit_spec(lang, root@, 0)),
{
    let mut names = Namer::new();
    let ghost items = root@;
    let ghost step = line_step(lang);
    let mut out: Code = Vec::new();
    proof {
        assert(items.skip(0) =~= items);
        lemma_prepend_empty(chain(items, step, 0));
    }
    let mut i: usize = 0;
    while i < root.0.len()
        invariant
            i <= root.0@.len(),
            items == root@,
            step == line_step(lang),
            chain(items, step, 0) == prepend(lines_of(out), chain(items.skip(i as int), step, names.next)),
        decreases root.0@.len() - i,
    {
        let ghost n = names.next;
        proof { lemma_chain_at(items, step, i as int, n); }
        assert(items[i as int] == root.0@[i as int]@);
        match emit_line(lang, &mut names, &root.0[i]) {
            Ok(code) => {
                proof {
                    lemma_prepend_twice(lines_of(out), lines_of(code), chain(items.skip(i + 1), step, names.next));
                }
                extend_code(&mut out, code);
            },
            Err(e) => {
                return Err(e);
            },
        }
        i = i + 1;
    }
    proof {
        assert(items.skip(i as int) =~= Seq::<Seq<DefModel>>::empty());
        assert(lines_of(out) + seq![] =~= lines_of(out));
    }
    Ok(join_lines(&out))
}


/// A row type that `lang` cannot bind: a tuple of other than one element, in
/// a language without tuples.
pub open spec fn row_unsupported(lang: LineBackend, row: RowModel) -> bool {
    !supports_tuple(lang) && row is Tuple && row->Tuple_0.len() != 1
}

/// A definition whose type holds a row type that `lang` cannot bind.
pub open spec fn def_unsupported(lang: LineBackend, d: DefModel) -> bool {
    match d.ty {
        TypeModel::Unit(_) => false,
        TypeModel::Row(r) => row_unsupported(lang, r),
        TypeModel::Matrix(r, _) => row_unsupported(lang, r),
    }
}

pub open spec fn line_unsupported(lang: LineBackend, defs: Seq<DefModel>) -> bool {
    exists|k: int| 0 <= k < defs.len() && def_unsupported(lang, #[trigger] defs[k])
}

pub open spec fn tuple_error() -> Emitted {
    Err(Error::TupleNotSupported)
}

proof fn lemma_tuple_fails(lang: LineBackend, bind: Seq<char>, binds: Seq<Seq<char>>)
    ensures
        tuple_spec(lang, bind, binds) is Err <==> (!supports_tuple(lang) && binds.len() != 1),
        tuple_spec(lang, bind, binds) is Err ==> tuple_spec(lang, bind, binds) == Err::<Seq<Seq<char>>, Error>(
            Error::TupleNotSupported,
        ),
{
}

proof fn lemma_elems_binds(
    lang: LineBackend,
    elems: Seq<ElemModel>,
    xs: Seq<char>,
    ranges: Seq<(Seq<char>, Seq<char>)>,
    c: u64,
)
    ensures
        elems_spec(lang, elems, xs, ranges, c).1.len() == elems.len(),
    decreases elems.len(),
{
    if elems.len() > 0 {
        lemma_elems_binds(lang, elems.drop_last(), xs, ranges, c);
    }
}

proof fn lemma_tuple_like_fails(lang: LineBackend)
    ensures
        forall|bind: Seq<char>, row: RowModel, xs: Seq<char>, lo: Seq<char>, hi: Seq<char>, c: u64|
            (#[trigger] tuple_like_spec(lang, bind, row, xs, lo, hi, c)) is Err <==> row_unsupported(lang, row),
        forall|bind: Seq<char>, row: RowModel, xs: Seq<char>, lo: Seq<char>, hi: Seq<char>, c: u64|
            (#[trigger] tuple_like_spec(lang, bind, row, xs, lo, hi, c)) is Err ==> tuple_like_spec(
                lang,
                bind,
                row,
                xs,
                lo,
                hi,
                c,
            ) == tuple_error(),
{
    assert forall|bind: Seq<char>, row: RowModel, xs: Seq<char>, lo: Seq<char>, hi: Seq<char>, c: u64|
        ((#[trigger] tuple_like_spec(lang, bind, row, xs, lo, hi, c)) is Err <==> row_unsupported(lang, row)) && (
        tuple_like_spec(lang, bind, row, xs, lo, hi, c) is Err ==> tuple_like_spec(lang, bind, row, xs, lo, hi, c)
            == tuple_error()) by {
        match row {
            RowModel::Tuple(elems) => {
                let rs = resolve_spec(elem_arities(elems), lo, hi);
                lemma_elems_binds(lang, elems, xs, rs, c);
                lemma_tuple_fails(lang, bind, elems_spec(lang, elems, xs, rs, c).1);
            },
            _ => {},
        }
    }
}

proof fn lemma_matrix_fails(lang: LineBackend)
    ensures
        forall|bind: Seq<char>, row: RowModel, rep: Seq<char>, c: u64|
            (#[trigger] matrix_spec(lang, bind, row, rep, c)) is Err <==> row_unsupported(lang, row),
        forall|bind: Seq<char>, row: RowModel, rep: Seq<char>, c: u64|
            (#[trigger] matrix_spec(lang, bind, row, rep, c)) is Err ==> matrix_spec(lang, bind, row, rep, c)
                == tuple_error(),
{
    lemma_tuple_like_fails(lang);
}

/// A line without mixed definitions fails exactly when one of its
/// definitions holds a row type that `lang` cannot bind.
proof fn lemma_line_fails(lang: LineBackend, defs: Seq<DefModel>, c: u64)
    requires
        !(reads_line(defs) && has_matrix(defs)),
    ensures
        line_spec(lang, defs, c) is Err <==> line_unsupported(lang, defs),
        line_spec(lang, defs, c) is Err ==> line_spec(lang, defs, c) == tuple_error(),
{
    lemma_tuple_like_fails(lang);
    lemma_matrix_fails(lang);
    if reads_line(defs) {
        let xs = fresh_name(c);
        let (read, len, c1) = read_line_spec(lang, xs, after(c));
        let rs = resolve_spec(def_arities(defs), decimal(0), len);
        let items = with_ranges(defs, rs);
        let step = def_step(lang, xs);
        let bad = |p: (DefModel, (Seq<char>, Seq<char>))| def_unsupported(lang, p.0);
        assert forall|k: int, n: u64| 0 <= k < items.len() implies ((#[trigger] step(items[k], n)) is Err <==> bad(
            items[k],
        )) && (step(items[k], n) is Err ==> step(items[k], n) == tuple_error()) by {
            assert(items[k].0 == defs[k]);
            assert(!is_matrix(defs[k]));
        }
        lemma_chain_fails(items, step, bad, Error::TupleNotSupported, c1);
        if line_unsupported(lang, defs) {
            let k = choose|k: int| 0 <= k < defs.len() && def_unsupported(lang, #[trigger] defs[k]);
            assert(bad(items[k]));
        }
        if exists|k: int| 0 <= k < items.len() && bad(#[trigger] items[k]) {
            let k = choose|k: int| 0 <= k < items.len() && bad(#[trigger] items[k]);
            assert(def_unsupported(lang, defs[k]));
        }
    } else {
        let step = matrix_step(lang);
        let bad = |d: DefModel| def_unsupported(lang, d);
        assert forall|k: int, n: u64| 0 <= k < defs.len() implies ((#[trigger] step(defs[k], n)) is Err <==> bad(
            defs[k],
        )) && (step(defs[k], n) is Err ==> step(defs[k], n) == tuple_error()) by {
            assert(is_matrix(defs[k]));
        }
        lemma_chain_fails(defs, step, bad, Error::TupleNotSupported, c);
    }
}

/// A program whose lines do not mix matrices with other definitions fails
/// exactly when some definition holds a row type that `lang` cannot bind,
/// and then with `TupleNotSupported`.
pub proof fn lemma_emit_fails(lang: LineBackend, lines: Seq<Seq<DefModel>>, c: u64)
    requires
        forall|i: int| 0 <= i < lines.len() ==> !(reads_line(#[trigger] lines[i]) && has_matrix(lines[i])),
    ensures
        emit_spec(lang, lines, c) is Err <==> exists|i: int|
            0 <= i < lines.len() && line_unsupported(lang, #[trigger] lines[i]),
        emit_spec(lang, lines, c) is Err ==> emit_spec(lang, lines, c) == tuple_error(),
{
    let step = line_step(lang);
    let bad = |l: Seq<DefModel>| line_unsupported(lang, l);
    assert forall|k: int, n: u64| 0 <= k < lines.len() implies ((#[trigger] step(lines[k], n)) is Err <==> bad(
        lines[k],
    )) && (step(lines[k], n) is Err ==> step(lines[k], n) == tuple_error()) by {
        lemma_line_fails(lang, lines[k], n);
    }
    lemma_chain_fails(lines, step, bad, Error::TupleNotSupported, c);
}


/// On a line read as a whole, a definition that fails makes the line fail
/// with its error, whatever the definitions before it emitted.
pub proof fn a_failing_definition_fails_its_line(
    lang: LineBackend,
    defs: Seq<DefModel>,
    c: u64,
    k: int,
    done: Seq<Seq<char>>,
    n: u64,
    e: Error,
)
    requires
        reads_line(defs),
        !has_matrix(defs),
        0 <= k < defs.len(),
        ({
            let xs = fresh_name(c);
            let (read, len, c1) = read_line_spec(lang, xs, after(c));
            let rs = resolve_spec(def_arities(defs), decimal(0), len);
            &&& chain(with_ranges(defs, rs).take(k), def_step(lang, xs), c1) == Ok::<(Seq<Seq<char>>, u64), Error>(
                (done, n),
            )
            &&& def_spec(lang, xs, defs[k], rs[k], n) == Err::<(Seq<Seq<char>>, u64), Error>(e)
        }),
    ensures
        line_spec(lang, defs, c) == Err::<(Seq<Seq<char>>, u64), Error>(e),
{
    let xs = fresh_name(c);
    let (read, len, c1) = read_line_spec(lang, xs, after(c));
    let rs = resolve_spec(def_arities(defs), decimal(0), len);
    let items = with_ranges(defs, rs);
    assert(items[k] == (defs[k], rs[k]));
    chain_stops_at_failure(items, def_step(lang, xs), c1, k, done, n, e);
}

} // verus!
