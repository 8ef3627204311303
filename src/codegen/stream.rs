//! The token-cursor engine: every primitive takes exactly the tokens it
//! needs, in order, from an implicit cursor over the input.
use vstd::prelude::*;
use crate::ast::{Array, DefModel, Definition, ElemModel, Line, List, Matrix, Root, RowModel, TupleElem, TupleLike, Type, TypeModel, UnitType};
use crate::codegen::{
    binds_of, chain, chain_stops_at_failure, emitted, lemma_chain_at, lemma_chain_fails, lemma_prepend_empty, lemma_prepend_twice, new_var,
    prepend, text_outcome, Bind, Emitted, Error,
};
use crate::codegen::cpp_stream::{self, CppStream};
use crate::codegen::go_stream::{self, GoStream};
use crate::codegen::java_stream::{self, JavaStream};
use crate::codegen::readline::program_text;
use crate::names::{after, fresh_name, Namer};
use crate::text::{extend_code, join_lines, lines_of, Code};

verus! {

/// The backends that render the token-cursor strategy.
#[derive(Clone, Copy, Debug, PartialEq, Eq, Structural)]
pub enum StreamBackend {
    CppStream,
    JavaStream,
    GoStream,
}

/// Whether the target language has a literal for tuples of two or more values.
pub open spec fn supports_tuple(lang: StreamBackend) -> bool {
    match lang {
        StreamBackend::CppStream => true,
        StreamBackend::GoStream => false,
        StreamBackend::JavaStream => false,
    }
}

/// Code that reads one scalar into `bind`.
pub open spec fn unit_type_spec(lang: StreamBackend, bind: Seq<char>, ty: UnitType, c: u64) -> (Seq<Seq<char>>, u64) {
    match lang {
        StreamBackend::CppStream => cpp_stream::unit_type_spec(bind, ty, c),
        StreamBackend::GoStream => go_stream::unit_type_spec(bind, ty, c),
        StreamBackend::JavaStream => java_stream::unit_type_spec(bind, ty, c),
    }
}

/// Code that reads `len` scalars into `bind`.
pub open spec fn array_spec(lang: StreamBackend, bind: Seq<char>, ty: UnitType, len: Seq<char>, c: u64) -> (
    Seq<Seq<char>>,
    u64,
) {
    match lang {
        StreamBackend::CppStream => cpp_stream::array_spec(bind, ty, len, c),
        StreamBackend::GoStream => go_stream::array_spec(bind, ty, len, c),
        StreamBackend::JavaStream => java_stream::array_spec(bind, ty, len, c),
    }
}

/// Code that reads a count, then that many scalars into `bind`.
pub open spec fn list_spec(lang: StreamBackend, bind: Seq<char>, ty: UnitType, c: u64) -> (Seq<Seq<char>>, u64) {
    match lang {
        StreamBackend::CppStream => cpp_stream::list_spec(bind, ty, c),
        StreamBackend::GoStream => go_stream::list_spec(bind, ty, c),
        StreamBackend::JavaStream => java_stream::list_spec(bind, ty, c),
    }
}

/// Code that reads `rep` rows into `bind`.
pub open spec fn matrix_spec(lang: StreamBackend, bind: Seq<char>, row: RowModel, rep: Seq<char>, c: u64) -> Emitted {
    match lang {
        StreamBackend::CppStream => cpp_stream::matrix_spec(bind, row, rep, c),
        StreamBackend::GoStream => go_stream::matrix_spec(bind, row, rep, c),
        StreamBackend::JavaStream => java_stream::matrix_spec(bind, row, rep, c),
    }
}

/// Code that combines the already bound `binds` into one tuple `bind`.
pub open spec fn tuple_spec(lang: StreamBackend, bind: Seq<char>, binds: Seq<Seq<char>>) -> Result<
    Seq<Seq<char>>,
    Error,
> {
    match lang {
        StreamBackend::CppStream => cpp_stream::tuple_spec(bind, binds),
        StreamBackend::GoStream => go_stream::tuple_spec(bind, binds),
        StreamBackend::JavaStream => java_stream::tuple_spec(bind, binds),
    }
}

pub open spec fn elem_spec(lang: StreamBackend, bind: Seq<char>, e: ElemModel, c: u64) -> (Seq<Seq<char>>, u64) {
    match e {
        ElemModel::Unit(u) => unit_type_spec(lang, bind, u, c),
        ElemModel::Array(u, len) => array_spec(lang, bind, u, len, c),
        ElemModel::List(u) => list_spec(lang, bind, u, c),
    }
}

/// The code of the elements of a tuple, each read into a fresh name, and
/// those names.
pub open spec fn elems_spec(lang: StreamBackend, elems: Seq<ElemModel>, c: u64) -> (
    Seq<Seq<char>>,
    Seq<Seq<char>>,
    u64,
)
    decreases elems.len(),
{
    if elems.len() == 0 {
        (seq![], seq![], c)
    } else {
        let (code, binds, c1) = elems_spec(lang, elems.drop_last(), c);
        let v = fresh_name(c1);
        let (ec, c2) = elem_spec(lang, v, elems.last(), after(c1));
        (code + ec, binds.push(v), c2)
    }
}

/// The shared decomposition of a row type: a tuple's elements are read in
/// order, bound one by one, then combined.
pub open spec fn tuple_like_spec(lang: StreamBackend, bind: Seq<char>, row: RowModel, c: u64) -> Emitted {
    match row {
        RowModel::Array(u, len) => Ok(array_spec(lang, bind, u, len, c)),
        RowModel::List(u) => Ok(list_spec(lang, bind, u, c)),
        RowModel::Tuple(elems) => {
            let (code, binds, c1) = elems_spec(lang, elems, c);
            match tuple_spec(lang, bind, binds) {
                Ok(t) => Ok((code + t, c1)),
                Err(e) => Err(e),
            }
        },
    }
}

/// One definition, read from the cursor.
pub open spec fn def_spec(lang: StreamBackend, d: DefModel, c: u64) -> Emitted {
    match d.ty {
        TypeModel::Unit(u) => Ok(unit_type_spec(lang, d.var, u, c)),
        TypeModel::Row(r) => tuple_like_spec(lang, d.var, r, c),
        TypeModel::Matrix(r, rep) => matrix_spec(lang, d.var, r, rep, c),
    }
}

pub open spec fn def_step(lang: StreamBackend) -> spec_fn(DefModel, u64) -> Emitted {
    |d: DefModel, c: u64| def_spec(lang, d, c)
}

pub open spec fn line_spec(lang: StreamBackend, defs: Seq<DefModel>, c: u64) -> Emitted {
    chain(defs, def_step(lang), c)
}

pub open spec fn line_step(lang: StreamBackend) -> spec_fn(Seq<DefModel>, u64) -> Emitted {
    |l: Seq<DefModel>, c: u64| line_spec(lang, l, c)
}

/// The whole program, definition by definition from the counter value `c`.
pub open spec fn emit_spec(lang: StreamBackend, lines: Seq<Seq<DefModel>>, c: u64) -> Emitted {
    chain(lines, line_step(lang), c)
}

pub fn unit_type(lang: StreamBackend, names: &mut Namer, bind: Bind, ast: &UnitType) -> (r: Code)
    ensures
        (lines_of(r), final(names).next) == unit_type_spec(lang, bind@, *ast, old(names).next),
{
    match lang {
        StreamBackend::CppStream => CppStream::unit_type(names, bind, ast),
        StreamBackend::GoStream => GoStream::unit_type(names, bind, ast),
        StreamBackend::JavaStream => JavaStream::unit_type(names, bind, ast),
    }
}

pub fn array(lang: StreamBackend, names: &mut Namer, bind: Bind, ast: &Array) -> (r: Code)
    ensures
        (lines_of(r), final(names).next) == array_spec(lang, bind@, ast@.0, ast@.1, old(names).next),
{
    match lang {
        StreamBackend::CppStream => CppStream::array(names, bind, ast),
        StreamBackend::GoStream => GoStream::array(names, bind, ast),
        StreamBackend::JavaStream => JavaStream::array(names, bind, ast),
    }
}

pub fn list(lang: StreamBackend, names: &mut Namer, bind: Bind, ast: &List) -> (r: Code)
    ensures
        (lines_of(r), final(names).next) == list_spec(lang, bind@, ast.0, old(names).next),
{
    match lang {
        StreamBackend::CppStream => CppStream::list(names, bind, ast),
        StreamBackend::GoStream => GoStream::list(names, bind, ast),
        StreamBackend::JavaStream => JavaStream::list(names, bind, ast),
    }
}

pub fn matrix(lang: StreamBackend, names: &mut Namer, bind: Bind, ast: &Matrix) -> (r: Result<Code, Error>)
    ensures
        emitted(r, final(names).next, matrix_spec(lang, bind@, ast@.0, ast@.1, old(names).next)),
{
    match lang {
        StreamBackend::CppStream => CppStream::matrix(names, bind, ast),
        StreamBackend::GoStream => GoStream::matrix(names, bind, ast),
        StreamBackend::JavaStream => JavaStream::matrix(names, bind, ast),
    }
}

pub fn tuple(lang: StreamBackend, bind: Bind, elems: Vec<Bind>) -> (r: Result<Code, Error>)
    ensures
        match (r, tuple_spec(lang, bind@, binds_of(elems@))) {
            (Ok(c), Ok(t)) => lines_of(c) == t,
            (Err(e), Err(f)) => e == f,
            _ => false,
        },
{
    match lang {
        StreamBackend::CppStream => CppStream::tuple(bind, elems),
        StreamBackend::GoStream => GoStream::tuple(bind, elems),
        StreamBackend::JavaStream => JavaStream::tuple(bind, elems),
    }
}

/// Reads the row type `ast` into `bind`; shared by every backend.
pub fn tuple_like(lang: StreamBackend, names: &mut Namer, bind: Bind, ast: &TupleLike) -> (r: Result<Code, Error>)
    ensures
        emitted(r, final(names).next, tuple_like_spec(lang, bind@, ast@, old(names).next)),
{
    match ast {
        TupleLike::Array(x) => Ok(array(lang, names, bind, x)),
        TupleLike::List(x) => Ok(list(lang, names, bind, x)),
        TupleLike::Tuple(t) => {
            let ghost elems = t@;
            let ghost c0 = names.next;
            let mut out: Code = Vec::new();
            let mut inner: Vec<Bind> = Vec::new();
            let mut i: usize = 0;
            while i < t.0.len()
                invariant
                    i <= t.0@.len(),
                    elems == t@,
                    (lines_of(out), binds_of(inner@), names.next) == elems_spec(lang, elems.take(i as int), c0),
                decreases t.0@.len() - i,
            {
                let var = new_var(names);
                assert(elems[i as int] == t.0@[i as int]@);
                let code = match &t.0[i] {
                    TupleElem::UnitType(x) => unit_type(lang, names, var.dup(), x),
                    TupleElem::Array(x) => array(lang, names, var.dup(), x),
                    TupleElem::List(x) => list(lang, names, var.dup(), x),
                };
                extend_code(&mut out, code);
                inner.push(var);
                i = i + 1;
                assert(elems.take(i as int).drop_last() =~= elems.take(i - 1));
                assert(binds_of(inner@) =~= binds_of(inner@).drop_last().push(inner@.last()@));
                assert(binds_of(inner@).drop_last() =~= binds_of(inner@.drop_last()));
            }
            assert(elems.take(i as int) =~= elems);
            match tuple(lang, bind, inner) {
                Ok(code) => {
                    extend_code(&mut out, code);
                    Ok(out)
                },
                Err(e) => Err(e),
            }
        },
    }
}

fn emit_line(lang: StreamBackend, names: &mut Namer, line: &Line) -> (r: Result<Code, Error>)
    ensures
        emitted(r, final(names).next, line_spec(lang, line@, old(names).next)),
{
    let ghost items = line@;
    let ghost step = def_step(lang);
    let ghost c0 = names.next;
    let mut out: Code = Vec::new();
    proof {
        assert(items.skip(0) =~= items);
        lemma_prepend_empty(chain(items, step, c0));
    }
    let mut i: usize = 0;
    while i < line.0.len()
        invariant
            i <= line.0@.len(),
            items == line@,
            step == def_step(lang),
            c0 == old(names).next,
            chain(items, step, c0) == prepend(lines_of(out), chain(items.skip(i as int), step, names.next)),
        decreases line.0@.len() - i,
    {
        let ghost n = names.next;
        proof { lemma_chain_at(items, step, i as int, n); }
        let Definition(var, typ) = &line.0[i];
        assert(items[i as int] == line.0@[i as int]@);
        let bind = Bind(var.0.clone());
        let r = match typ {
            Type::UnitType(x) => Ok(unit_type(lang, names, bind, x)),
            Type::TupleLike(x) => tuple_like(lang, names, bind, x),
            Type::Matrix(x) => matrix(lang, names, bind, x),
        };
        match r {
            Ok(code) => {
                proof {
                    lemma_prepend_twice(lines_of(out), lines_of(code), chain(items.skip(i + 1), step, names.next));
                }
                extend_code(&mut out, code);
            },
            Err(e) => {
                return Err(e);
            },
        }
        i = i + 1;
    }
    proof {
        assert(items.skip(i as int) =~= Seq::<DefModel>::empty());
        assert(lines_of(out) + seq![] =~= lines_of(out));
    }
    Ok(out)
}

/// Generates the program that reads input of the shape `root`, numbering
/// temporaries from `v0`.
pub fn emit(lang: StreamBackend, root: &Root) -> (r: Result<String, Error>)
    ensures
        text_outcome(r) == program_text(emit_spec(lang, root@, 0)),
{
    let mut names = Namer::new();
    let ghost items = root@;
    let ghost step = line_step(lang);
    let mut out: Code = Vec::new();
    proof {
        assert(items.skip(0) =~= items);
        lemma_prepend_empty(chain(items, step, 0));
    }
    let mut i: usize = 0;
    while i < root.0.len()
        invariant
            i <= root.0@.len(),
            items == root@,
            step == line_step(lang),
            chain(items, step, 0) == prepend(lines_of(out), chain(items.skip(i as int), step, names.next)),
        decreases root.0@.len() - i,
    {
        let ghost n = names.next;
        proof { lemma_chain_at(items, step, i as int, n); }
        assert(items[i as int] == root.0@[i as int]@);
        match emit_line(lang, &mut names, &root.0[i]) {
            Ok(code) => {
                proof {
                    lemma_prepend_twice(lines_of(out), lines_of(code), chain(items.skip(i + 1), step, names.next));
                }
                extend_code(&mut out, code);
            },
            Err(e) => {
                return Err(e);
            },
        }
        i = i + 1;
    }
    proof {
        assert(items.skip(i as int) =~= Seq::<Seq<DefModel>>::empty());
        assert(lines_of(out) + seq![] =~= lines_of(out));
    }
    Ok(join_lines(&out))
}


/// A row type that `lang` cannot bind: a tuple of other than one element, in
/// a language without tuples.
pub open spec fn row_unsupported(lang: StreamBackend, row: RowModel) -> bool {
    !supports_tuple(lang) && row is Tuple && row->Tuple_0.len() != 1
}

/// A definition whose type holds a row type that `lang` cannot bind.
pub open spec fn def_unsupported(lang: StreamBackend, d: DefModel) -> bool {
    match d.ty {
        TypeModel::Unit(_) => false,
        TypeModel::Row(r) => row_unsupported(lang, r),
        TypeModel::Matrix(r, _) => row_unsupported(lang, r),
    }
}

pub open spec fn line_unsupported(lang: StreamBackend, defs: Seq<DefModel>) -> bool {
    exists|k: int| 0 <= k < defs.len() && def_unsupported(lang, #[trigger] defs[k])
}

pub open spec fn tuple_error() -> Emitted {
    Err(Error::TupleNotSupported)
}

proof fn lemma_elems_binds(lang: StreamBackend, elems: Seq<ElemModel>, c: u64)
    ensures
        elems_spec(lang, elems, c).1.len() == elems.len(),
    decreases elems.len(),
{
    if elems.len() > 0 {
        lemma_elems_binds(lang, elems.drop_last(), c);
    }
}

proof fn lemma_tuple_like_fails(lang: StreamBackend)
    ensures
        forall|bind: Seq<char>, row: RowModel, c: u64|
            (#[trigger] tuple_like_spec(lang, bind, row, c)) is Err <==> row_unsupported(lang, row),
        forall|bind: Seq<char>, row: RowModel, c: u64|
            (#[trigger] tuple_like_spec(lang, bind, row, c)) is Err ==> tuple_like_spec(lang, bind, row, c)
                == tuple_error(),
{
    assert forall|bind: Seq<char>, row: RowModel, c: u64|
        ((#[trigger] tuple_like_spec(lang, bind, row, c)) is Err <==> row_unsupported(lang, row)) && (
        tuple_like_spec(lang, bind, row, c) is Err ==> tuple_like_spec(lang, bind, row, c) == tuple_error()) by {
        match row {
            RowModel::Tuple(elems) => {
                lemma_elems_binds(lang, elems, c);
            },
            _ => {},
        }
    }
}

proof fn lemma_def_fails(lang: StreamBackend)
    ensures
        forall|d: DefModel, c: u64| (#[trigger] def_spec(lang, d, c)) is Err <==> def_unsupported(lang, d),
        forall|d: DefModel, c: u64|
            (#[trigger] def_spec(lang, d, c)) is Err ==> def_spec(lang, d, c) == tuple_error(),
{
    lemma_tuple_like_fails(lang);
}

/// A program fails exactly when some definition holds a row type that
/// `lang` cannot bind, and then with `TupleNotSupported`.
pub proof fn lemma_emit_fails(lang: StreamBackend, lines: Seq<Seq<DefModel>>, c: u64)
    ensures
        emit_spec(lang, lines, c) is Err <==> exists|i: int|
            0 <= i < lines.len() && line_unsupported(lang, #[trigger] lines[i]),
        emit_spec(lang, lines, c) is Err ==> emit_spec(lang, lines, c) == tuple_error(),
{
    lemma_def_fails(lang);
    let step = line_step(lang);
    let bad = |l: Seq<DefModel>| line_unsupported(lang, l);
    assert forall|k: int, n: u64| 0 <= k < lines.len() implies ((#[trigger] step(lines[k], n)) is Err <==> bad(
        lines[k],
    )) && (step(lines[k], n) is Err ==> step(lines[k], n) == tuple_error()) by {
        let dstep = def_step(lang);
        let dbad = |d: DefModel| def_unsupported(lang, d);
        lemma_chain_fails(lines[k], dstep, dbad, Error::TupleNotSupported, n);
    }
    lemma_chain_fails(lines, step, bad, Error::TupleNotSupported, c);
}


/// A definition that fails makes its line fail with its error, whatever the
/// definitions before it emitted.
pub proof fn a_failing_definition_fails_its_line(
    lang: StreamBackend,
    defs: Seq<DefModel>,
    c: u64,
    k: int,
    done: Seq<Seq<char>>,
    n: u64,
    e: Error,
)
    requires
        0 <= k < defs.len(),
        chain(defs.take(k), def_step(lang), c) == Ok::<(Seq<Seq<char>>, u64), Error>((done, n)),
        def_spec(lang, defs[k], n) == Err::<(Seq<Seq<char>>, u64), Error>(e),
    ensures
        line_spec(lang, defs, c) == Err::<(Seq<Seq<char>>, u64), Error>(e),
{
    chain_stops_at_failure(defs, def_step(lang), c, k, done, n, e);
}

} // verus!
