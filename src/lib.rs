//! Compiles a small declarative description of a contest input's shape into
//! source code, in one of several target languages, that reads such input
//! into typed variables.
pub mod arity;
pub mod ast;
pub mod codegen;
pub mod names;
pub mod parse;
pub mod text;

use vstd::prelude::*;
use crate::arity::{
    all_finite, elem_arities_of, literal_texts, sum_from, sum_value, sum_value_shifts, tuple_arity,
    tuple_arity_is_sum,
};
use crate::ast::{DefModel, ElemModel, RowModel, TypeModel};
use crate::codegen::readline::{self, program_text, LineBackend};
use crate::codegen::stream::{self, StreamBackend};
use crate::codegen::{chain_stops_at_failure, ranges_end_at_sum, ranges_tile, resolve_spec, Emitted, Error};
use crate::parse::{
    all_tuples_nonempty, parse, parse_spec, parsed_tuples_are_nonempty, tuples_nonempty, ParseError,
};
use crate::text::decimal;

verus! {

/// The target languages.
#[derive(Clone, Copy, Debug, PartialEq, Eq, Structural)]
pub enum Lang {
    Python,
    Cpp,
    CppStream,
    Nim,
    Ruby,
    Java,
    JavaStream,
    CSharp,
    Rust,
    Kotlin,
    GoStream,
    Swift,
    Cpp11,
}

/// How a target language reads its input: whole lines split into tokens, or
/// one token at a time.
pub enum Engine {
    Line(LineBackend),
    Stream(StreamBackend),
}

pub open spec fn engine_of(lang: Lang) -> Engine {
    match lang {
        Lang::Python => Engine::Line(LineBackend::Python),
        Lang::Cpp => Engine::Line(LineBackend::Cpp),
        Lang::CppStream => Engine::Stream(StreamBackend::CppStream),
        Lang::Nim => Engine::Line(LineBackend::Nim),
        Lang::Ruby => Engine::Line(LineBackend::Ruby),
        Lang::Java => Engine::Line(LineBackend::Java),
        Lang::JavaStream => Engine::Stream(StreamBackend::JavaStream),
        Lang::CSharp => Engine::Line(LineBackend::CSharp),
        Lang::Rust => Engine::Line(LineBackend::Rust),
        Lang::Kotlin => Engine::Line(LineBackend::Kotlin),
        Lang::GoStream => Engine::Stream(StreamBackend::GoStream),
        Lang::Swift => Engine::Line(LineBackend::Swift),
        Lang::Cpp11 => Engine::Line(LineBackend::Cpp11),
    }
}

/// Why compilation failed.
#[derive(Clone, Copy, Debug, PartialEq, Eq, Structural)]
pub enum CompileError {
    /// The description does not follow the grammar.
    Parse(ParseError),
    /// Code could not be generated for the target language.
    Codegen(Error),
}

/// The program generated in `lang` for the type model `root`, with
/// temporaries numbered from `v0`.
pub open spec fn generated(lang: Lang, root: Seq<Seq<DefModel>>) -> Result<Seq<char>, Error> {
    match engine_of(lang) {
        Engine::Line(b) => program_text(readline::emit_spec(b, root, 0)),
        Engine::Stream(b) => program_text(stream::emit_spec(b, root, 0)),
    }
}

/// What compiling the description `text` for `lang` yields.
pub open spec fn compile_spec(lang: Lang, text: Seq<char>) -> Result<Seq<char>, CompileError> {
    match parse_spec(text) {
        Err(p) => Err(CompileError::Parse(ParseError { at: p as usize })),
        Ok(root) => match generated(lang, root) {
            Ok(t) => Ok(t),
            Err(e) => Err(CompileError::Codegen(e)),
        },
    }
}

pub open spec fn compile_outcome(r: Result<String, CompileError>) -> Result<Seq<char>, CompileError> {
    match r {
        Ok(s) => Ok(s@),
        Err(e) => Err(e),
    }
}

/// Compiles the description `input` into a program in `lang`. Nothing is
/// produced unless the whole program could be generated.
pub fn compile(lang: Lang, input: &str) -> (r: Result<String, CompileError>)
    ensures
        compile_outcome(r) == compile_spec(lang, input@),
{
    let root = match parse(input) {
        Ok(root) => root,
        Err(e) => {
            return Err(CompileError::Parse(e));
        },
    };
    let out = match lang {
        Lang::Python => readline::emit(LineBackend::Python, &root),
        Lang::Cpp => readline::emit(LineBackend::Cpp, &root),
        Lang::CppStream => stream::emit(StreamBackend::CppStream, &root),
        Lang::Nim => readline::emit(LineBackend::Nim, &root),
        Lang::Ruby => readline::emit(LineBackend::Ruby, &root),
        Lang::Java => readline::emit(LineBackend::Java, &root),
        Lang::JavaStream => stream::emit(StreamBackend::JavaStream, &root),
        Lang::CSharp => readline::emit(LineBackend::CSharp, &root),
        Lang::Rust => readline::emit(LineBackend::Rust, &root),
        Lang::Kotlin => readline::emit(LineBackend::Kotlin, &root),
        Lang::GoStream => stream::emit(StreamBackend::GoStream, &root),
        Lang::Swift => readline::emit(LineBackend::Swift, &root),
        Lang::Cpp11 => readline::emit(LineBackend::Cpp11, &root),
    };
    match out {
        Ok(s) => Ok(s),
        Err(e) => Err(CompileError::Codegen(e)),
    }
}


/// Whether `lang` has a literal for tuples of two or more values.
pub open spec fn supports_tuples(lang: Lang) -> bool {
    match engine_of(lang) {
        Engine::Line(b) => readline::supports_tuple(b),
        Engine::Stream(b) => stream::supports_tuple(b),
    }
}

pub open spec fn row_is_wide_tuple(r: RowModel) -> bool {
    r is Tuple && r->Tuple_0.len() >= 2
}

/// The definition holds a tuple of two or more elements.
pub open spec fn def_has_wide_tuple(d: DefModel) -> bool {
    match d.ty {
        TypeModel::Unit(_) => false,
        TypeModel::Row(r) => row_is_wide_tuple(r),
        TypeModel::Matrix(r, _) => row_is_wide_tuple(r),
    }
}

pub open spec fn has_wide_tuple(root: Seq<Seq<DefModel>>) -> bool {
    exists|i: int, k: int| 0 <= i < root.len() && 0 <= k < root[i].len() && def_has_wide_tuple(#[trigger] root[i][k])
}

/// Each line holds either only matrices or no matrix.
pub open spec fn lines_unmixed(root: Seq<Seq<DefModel>>) -> bool {
    forall|i: int| 0 <= i < root.len() ==> !(readline::reads_line(#[trigger] root[i]) && readline::has_matrix(root[i]))
}

/// A type model as the grammar produces it, whose lines each hold either
/// only matrices or no matrix.
pub open spec fn well_formed(root: Seq<Seq<DefModel>>) -> bool {
    &&& lines_unmixed(root)
    &&& forall|i: int, k: int| 0 <= i < root.len() && 0 <= k < root[i].len() ==> tuples_nonempty(#[trigger] root[i][k])
}

/// Generating code fails exactly when the type model holds a tuple of two or
/// more elements and the target language has no tuples, and then with
/// `TupleNotSupported`; a tuple of one element never makes it fail.
pub proof fn tuple_support_decides_failure(lang: Lang, root: Seq<Seq<DefModel>>)
    requires
        well_formed(root),
    ensures
        generated(lang, root) is Err <==> (!supports_tuples(lang) && has_wide_tuple(root)),
        generated(lang, root) is Err ==> generated(lang, root) == Err::<Seq<char>, Error>(Error::TupleNotSupported),
{
    match engine_of(lang) {
        Engine::Line(b) => {
            readline::lemma_emit_fails(b, root, 0);
            if exists|i: int| 0 <= i < root.len() && readline::line_unsupported(b, #[trigger] root[i]) {
                let i = choose|i: int| 0 <= i < root.len() && readline::line_unsupported(b, #[trigger] root[i]);
                let k = choose|k: int| 0 <= k < root[i].len() && readline::def_unsupported(b, #[trigger] root[i][k]);
                assert(tuples_nonempty(root[i][k]));
                assert(def_has_wide_tuple(root[i][k]));
            }
            if !supports_tuples(lang) && has_wide_tuple(root) {
                let (i, k) = choose|i: int, k: int|
                    0 <= i < root.len() && 0 <= k < root[i].len() && def_has_wide_tuple(#[trigger] root[i][k]);
                assert(readline::def_unsupported(b, root[i][k]));
                assert(readline::line_unsupported(b, root[i]));
            }
        },
        Engine::Stream(b) => {
            stream::lemma_emit_fails(b, root, 0);
            if exists|i: int| 0 <= i < root.len() && stream::line_unsupported(b, #[trigger] root[i]) {
                let i = choose|i: int| 0 <= i < root.len() && stream::line_unsupported(b, #[trigger] root[i]);
                let k = choose|k: int| 0 <= k < root[i].len() && stream::def_unsupported(b, #[trigger] root[i][k]);
                assert(tuples_nonempty(root[i][k]));
                assert(def_has_wide_tuple(root[i][k]));
            }
            if !supports_tuples(lang) && has_wide_tuple(root) {
                let (i, k) = choose|i: int, k: int|
                    0 <= i < root.len() && 0 <= k < root[i].len() && def_has_wide_tuple(#[trigger] root[i][k]);
                assert(stream::def_unsupported(b, root[i][k]));
                assert(stream::line_unsupported(b, root[i]));
            }
        },
    }
}

/// Compiling a description that follows the grammar, and whose lines each
/// hold either only matrices or no matrix, fails exactly when it holds a
/// tuple of two or more elements and `lang` has no tuples, and then with
/// `TupleNotSupported` and no output.
pub proof fn wide_tuples_need_tuple_support(lang: Lang, text: Seq<char>)
    requires
        parse_spec(text) is Ok,
        lines_unmixed(parse_spec(text)->Ok_0),
    ensures
        compile_spec(lang, text) is Err <==> (!supports_tuples(lang) && has_wide_tuple(parse_spec(text)->Ok_0)),
        compile_spec(lang, text) is Err ==> compile_spec(lang, text) == Err::<Seq<char>, CompileError>(
            CompileError::Codegen(Error::TupleNotSupported),
        ),
{
    let root = parse_spec(text)->Ok_0;
    parsed_tuples_are_nonempty(text);
    assert forall|i: int, k: int| 0 <= i < root.len() && 0 <= k < root[i].len() implies tuples_nonempty(
        #[trigger] root[i][k],
    ) by {
        assert(all_tuples_nonempty(root[i]));
    }
    tuple_support_decides_failure(lang, root);
}

/// Compiling depends on the language and the description alone: each
/// compilation numbers its temporaries afresh from `v0`, so compiling the same
/// text twice gives the same outcome, byte for byte.
pub proof fn compilation_is_deterministic(lang: Lang, first: Seq<char>, second: Seq<char>)
    requires
        first == second,
    ensures
        compile_spec(lang, first) == compile_spec(lang, second),
{
}


/// How many tokens the elements of a tuple take when counted one after
/// another by kind, in the order the token-cursor engine reads them: one per
/// scalar, `len` per array, each length text `t` standing for `env(t)`. The
/// count is taken over the type model, not over emitted code.
pub open spec fn element_token_count(elems: Seq<ElemModel>, env: spec_fn(Seq<char>) -> int) -> int
    decreases elems.len(),
{
    if elems.len() == 0 {
        0
    } else {
        element_token_count(elems.drop_last(), env) + match elems.last() {
            ElemModel::Unit(_) => 1,
            ElemModel::Array(_, len) => env(len),
            ElemModel::List(_) => 0,
        }
    }
}

proof fn lemma_element_token_count(elems: Seq<ElemModel>, env: spec_fn(Seq<char>) -> int)
    requires
        all_finite(elem_arities_of(elems)),
        env(decimal(1)) == 1,
    ensures
        element_token_count(elems, env) == sum_value(0, literal_texts(elem_arities_of(elems)), env),
    decreases elems.len(),
{
    if elems.len() > 0 {
        let init = elems.drop_last();
        assert(elem_arities_of(init) =~= elem_arities_of(elems).drop_last());
        assert(literal_texts(elem_arities_of(init)) =~= literal_texts(elem_arities_of(elems)).drop_last());
        assert(elem_arities_of(elems)[elems.len() - 1] is Some);
        lemma_element_token_count(init, env);
    }
}

/// For a tuple whose elements all have finite arity `a0, a1, ...`, laid out
/// over a range that starts at `lo`: the tuple's arity is the sum
/// `((0 + a0) + a1) ...`; its last element ends at `((lo + a0) + a1) ...`,
/// which, each text read as the number `env` gives it, is `lo` plus the
/// tuple's arity; and counting the elements' tokens one by one, by kind,
/// gives that arity too. The last point is a statement about the type model:
/// it does not inspect the code the token-cursor backends emit.
pub proof fn tuple_arity_is_additive(
    elems: Seq<ElemModel>,
    lo: Seq<char>,
    hi: Seq<char>,
    env: spec_fn(Seq<char>) -> int,
)
    requires
        elems.len() > 0,
        all_finite(elem_arities_of(elems)),
        env(decimal(0)) == 0,
        env(decimal(1)) == 1,
    ensures
        tuple_arity(elems) == Some(sum_from(decimal(0), literal_texts(elem_arities_of(elems)))),
        resolve_spec(elem_arities_of(elems), lo, hi).last().1 == sum_from(lo, literal_texts(elem_arities_of(elems))),
        sum_value(env(lo), literal_texts(elem_arities_of(elems)), env) == env(lo) + sum_value(
            env(decimal(0)),
            literal_texts(elem_arities_of(elems)),
            env,
        ),
        element_token_count(elems, env) == sum_value(env(decimal(0)), literal_texts(elem_arities_of(elems)), env),
{
    let a = elem_arities_of(elems);
    tuple_arity_is_sum(elems);
    ranges_tile(a, lo, hi);
    ranges_end_at_sum(a, lo, hi);
    sum_value_shifts(env(lo), literal_texts(a), env);
    lemma_element_token_count(elems, env);
}


/// The emitted lines of the whole program, from the counter value `c`.
pub open spec fn emitted_program(lang: Lang, root: Seq<Seq<DefModel>>, c: u64) -> Emitted {
    match engine_of(lang) {
        Engine::Line(b) => readline::emit_spec(b, root, c),
        Engine::Stream(b) => stream::emit_spec(b, root, c),
    }
}

/// The emitted lines of one line of the program, from the counter value `c`.
pub open spec fn emitted_line(lang: Lang, defs: Seq<DefModel>, c: u64) -> Emitted {
    match engine_of(lang) {
        Engine::Line(b) => readline::line_spec(b, defs, c),
        Engine::Stream(b) => stream::line_spec(b, defs, c),
    }
}

/// A line that fails makes the whole program fail with its error, however
/// many lines before it were emitted: no partial program is produced.
pub proof fn a_failing_line_fails_the_program(
    lang: Lang,
    root: Seq<Seq<DefModel>>,
    k: int,
    done: Seq<Seq<char>>,
    n: u64,
    e: Error,
)
    requires
        0 <= k < root.len(),
        emitted_program(lang, root.take(k), 0) == Ok::<(Seq<Seq<char>>, u64), Error>((done, n)),
        emitted_line(lang, root[k], n) == Err::<(Seq<Seq<char>>, u64), Error>(e),
    ensures
        generated(lang, root) == Err::<Seq<char>, Error>(e),
{
    match engine_of(lang) {
        Engine::Line(b) => {
            chain_stops_at_failure(root, readline::line_step(b), 0, k, done, n, e);
        },
        Engine::Stream(b) => {
            chain_stops_at_failure(root, stream::line_step(b), 0, k, done, n, e);
        },
    }
}

} // verus!
