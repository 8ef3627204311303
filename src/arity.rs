//! Symbolic arity: how many tokens a type consumes, as expression text that
//! the generated program evaluates, or "the rest of the line".
use vstd::prelude::*;
use crate::ast::{Array, ElemModel, List, RowModel, Tuple, TupleElem, TupleLike, Type, TypeModel, UnitType};
use crate::text::{cat, decimal, decimal_string};

verus! {

/// A token count: `Literal(text)` is target-language arithmetic, `Inf` claims
/// every remaining token of the line.
#[derive(Clone, Debug)]
pub enum Arity {
    Literal(String),
    Inf,
}

impl View for Arity {
    /// `Some(text)` for a literal, `None` for the rest of the line.
    type V = Option<Seq<char>>;

    open spec fn view(&self) -> Option<Seq<char>> {
        match self {
            Arity::Literal(s) => Some(s@),
            Arity::Inf => None,
        }
    }
}

/// The text `(a + b)`.
pub open spec fn sum_text(a: Seq<char>, b: Seq<char>) -> Seq<char> {
    "("@ + a + " + "@ + b + ")"@
}

/// The text `(a - b)`.
pub open spec fn diff_text(a: Seq<char>, b: Seq<char>) -> Seq<char> {
    "("@ + a + " - "@ + b + ")"@
}

/// Sum of two arities: literals compose as text, anything plus the rest of
/// the line is the rest of the line.
pub open spec fn arity_add(a: Option<Seq<char>>, b: Option<Seq<char>>) -> Option<Seq<char>> {
    match (a, b) {
        (Some(x), Some(y)) => Some(sum_text(x, y)),
        _ => None,
    }
}

/// Arity of a scalar: one token.
pub open spec fn unit_arity() -> Option<Seq<char>> {
    Some(decimal(1))
}

pub open spec fn elem_arity(e: ElemModel) -> Option<Seq<char>> {
    match e {
        ElemModel::Unit(_) => unit_arity(),
        ElemModel::Array(_, len) => Some(len),
        ElemModel::List(_) => None,
    }
}

/// Arity of a tuple: the sum of its elements' arities, starting from `0`,
/// left to right.
pub open spec fn tuple_arity(elems: Seq<ElemModel>) -> Option<Seq<char>>
    decreases elems.len(),
{
    if elems.len() == 0 {
        Some(decimal(0))
    } else {
        arity_add(tuple_arity(elems.drop_last()), elem_arity(elems.last()))
    }
}

pub open spec fn row_arity(r: RowModel) -> Option<Seq<char>> {
    match r {
        RowModel::Tuple(elems) => tuple_arity(elems),
        RowModel::Array(_, len) => Some(len),
        RowModel::List(_) => None,
    }
}

/// Arity of a type that shares a line (a matrix never does).
pub open spec fn type_arity(t: TypeModel) -> Option<Seq<char>> {
    match t {
        TypeModel::Unit(_) => unit_arity(),
        TypeModel::Row(r) => row_arity(r),
        TypeModel::Matrix(_, _) => None,
    }
}

impl Arity {
    /// The literal arity `n`.
    pub fn n(n: usize) -> (r: Arity)
        ensures
            r@ == Some(decimal(n as nat)),
    {
        Arity::Literal(decimal_string(n as u64))
    }

    /// Textual sum: `(a + b)` for two literals, else the rest of the line.
    pub fn add(self, rhs: Arity) -> (r: Arity)
        ensures
            r@ == arity_add(self@, rhs@),
    {
        match (self, rhs) {
            (Arity::Literal(a), Arity::Literal(b)) => {
                proof {
                    reveal_strlit("(");
                    reveal_strlit(" + ");
                    reveal_strlit(")");
                }
                let s = cat("(", a.as_str()).concat(" + ").concat(b.as_str()).concat(")");
                Arity::Literal(s)
            },
            _ => Arity::Inf,
        }
    }

    /// Textual difference `(a - b)` of two literals, for diagnostics.
    pub fn sub(self, rhs: Arity) -> (r: Arity)
        requires
            self@ is Some,
            rhs@ is Some,
        ensures
            r@ == Some(diff_text(self@->0, rhs@->0)),
    {
        match (self, rhs) {
            (Arity::Literal(a), Arity::Literal(b)) => {
                let s = cat("(", a.as_str()).concat(" - ").concat(b.as_str()).concat(")");
                Arity::Literal(s)
            },
            _ => Arity::Inf,
        }
    }
}

/// Types whose token count can be stated.
pub trait GetArity {
    spec fn arity_model(&self) -> Option<Seq<char>>;

    fn arity(&self) -> (r: Arity)
        ensures
            r@ == self.arity_model(),
    ;
}

impl GetArity for UnitType {
    open spec fn arity_model(&self) -> Option<Seq<char>> {
        unit_arity()
    }

    fn arity(&self) -> (r: Arity) {
        Arity::n(1)
    }
}

impl GetArity for Array {
    open spec fn arity_model(&self) -> Option<Seq<char>> {
        Some(self.1.0@)
    }

    fn arity(&self) -> (r: Arity) {
        Arity::Literal(self.1.0.clone())
    }
}

impl GetArity for List {
    open spec fn arity_model(&self) -> Option<Seq<char>> {
        None
    }

    fn arity(&self) -> (r: Arity) {
        Arity::Inf
    }
}

impl GetArity for TupleElem {
    open spec fn arity_model(&self) -> Option<Seq<char>> {
        elem_arity(self@)
    }

    fn arity(&self) -> (r: Arity) {
        match self {
            TupleElem::UnitType(x) => x.arity(),
            TupleElem::Array(x) => x.arity(),
            TupleElem::List(x) => x.arity(),
        }
    }
}

impl GetArity for Tuple {
    open spec fn arity_model(&self) -> Option<Seq<char>> {
        tuple_arity(self@)
    }

    fn arity(&self) -> (r: Arity) {
        let mut sum = Arity::n(0);
        let mut i: usize = 0;
        while i < self.0.len()
            invariant
                i <= self.0@.len(),
                sum@ == tuple_arity(self@.take(i as int)),
            decreases self.0@.len() - i,
        {
            let a = self.0[i].arity();
            sum = sum.add(a);
            i = i + 1;
            assert(self@.take(i as int).drop_last() =~= self@.take(i - 1));
        }
        assert(self@.take(i as int) =~= self@);
        sum
    }
}

impl GetArity for TupleLike {
    open spec fn arity_model(&self) -> Option<Seq<char>> {
        row_arity(self@)
    }

    fn arity(&self) -> (r: Arity) {
        match self {
            TupleLike::Array(x) => x.arity(),
            TupleLike::Tuple(x) => x.arity(),
            TupleLike::List(x) => x.arity(),
        }
    }
}

impl GetArity for Type {
    /// A matrix reads its own lines: it takes nothing from the line it is
    /// declared on, and is given the rest-of-line arity.
    open spec fn arity_model(&self) -> Option<Seq<char>> {
        type_arity(self@)
    }

    fn arity(&self) -> (r: Arity) {
        match self {
            Type::UnitType(x) => x.arity(),
            Type::TupleLike(x) => x.arity(),
            Type::Matrix(_) => Arity::Inf,
        }
    }
}


/// `seed` followed by each of `texts` in turn, as sum text:
/// `((seed + t0) + t1) ...`.
pub open spec fn sum_from(seed: Seq<char>, texts: Seq<Seq<char>>) -> Seq<char>
    decreases texts.len(),
{
    if texts.len() == 0 {
        seed
    } else {
        sum_text(sum_from(seed, texts.drop_last()), texts.last())
    }
}

/// The number `sum_from(seed, texts)` stands for when `seed` stands for
/// `start` and each text `t` for `env(t)`.
pub open spec fn sum_value(start: int, texts: Seq<Seq<char>>, env: spec_fn(Seq<char>) -> int) -> int
    decreases texts.len(),
{
    if texts.len() == 0 {
        start
    } else {
        sum_value(start, texts.drop_last(), env) + env(texts.last())
    }
}

pub open spec fn literal_text(a: Option<Seq<char>>) -> Seq<char> {
    match a {
        Some(t) => t,
        None => seq![],
    }
}

pub open spec fn all_finite(arities: Seq<Option<Seq<char>>>) -> bool {
    forall|k: int| 0 <= k < arities.len() ==> (#[trigger] arities[k]) is Some
}

pub open spec fn literal_texts(arities: Seq<Option<Seq<char>>>) -> Seq<Seq<char>> {
    arities.map_values(|a: Option<Seq<char>>| literal_text(a))
}

pub open spec fn elem_arities_of(elems: Seq<ElemModel>) -> Seq<Option<Seq<char>>> {
    elems.map_values(|e: ElemModel| elem_arity(e))
}

/// A tuple whose elements all have finite arity has the arity
/// `((0 + a0) + a1) ...` of its elements' arities `a0, a1, ...`.
pub proof fn tuple_arity_is_sum(elems: Seq<ElemModel>)
    requires
        all_finite(elem_arities_of(elems)),
    ensures
        tuple_arity(elems) == Some(sum_from(decimal(0), literal_texts(elem_arities_of(elems)))),
    decreases elems.len(),
{
    if elems.len() > 0 {
        let init = elems.drop_last();
        assert(elem_arities_of(init) =~= elem_arities_of(elems).drop_last());
        assert(literal_texts(elem_arities_of(init)) =~= literal_texts(elem_arities_of(elems)).drop_last());
        assert(elem_arities_of(elems)[elems.len() - 1] is Some);
        tuple_arity_is_sum(init);
    }
}

/// Starting the sum at `start` adds `start` to its value.
pub proof fn sum_value_shifts(start: int, texts: Seq<Seq<char>>, env: spec_fn(Seq<char>) -> int)
    ensures
        sum_value(start, texts, env) == start + sum_value(0, texts, env),
    decreases texts.len(),
{
    if texts.len() > 0 {
        sum_value_shifts(start, texts.drop_last(), env);
    }
}

} // verus!
