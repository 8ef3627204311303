//! Code generation shared by every backend: bindings, symbolic token
//! indices, the left-to-right range resolver, and how emitted fragments
//! compose.
use vstd::prelude::*;
use crate::arity::{all_finite, literal_texts, sum_from, sum_text, Arity};
use crate::names::{fresh_name, after, Namer};
use crate::text::{cat, decimal, decimal_string, joined, lines_of, Code};

pub mod readline;
pub mod stream;

pub mod cpp11;
pub mod cpp;
pub mod cpp_stream;
pub mod csharp;
pub mod go_stream;
pub mod java;
pub mod java_stream;
pub mod kotlin;
pub mod nim;
pub mod python;
pub mod ruby;
pub mod rust;
pub mod swift;

verus! {

/// A binding name in generated code.
#[derive(Debug)]
pub struct Bind(pub String);

impl View for Bind {
    type V = Seq<char>;

    open spec fn view(&self) -> Seq<char> {
        self.0@
    }
}

impl Bind {
    /// A copy of this binding.
    pub fn dup(&self) -> (r: Bind)
        ensures
            r@ == self@,
    {
        Bind(self.0.clone())
    }

    pub fn as_str(&self) -> (r: &str)
        ensures
            r@ == self@,
    {
        self.0.as_str()
    }
}

/// A token position: target-language arithmetic text.
#[derive(Debug)]
pub struct Index(pub String);

impl View for Index {
    type V = Seq<char>;

    open spec fn view(&self) -> Seq<char> {
        self.0@
    }
}

impl Index {
    /// A copy of this position.
    pub fn dup(&self) -> (r: Index)
        ensures
            r@ == self@,
    {
        Index(self.0.clone())
    }

    /// The position `0`.
    pub fn zero() -> (r: Index)
        ensures
            r@ == decimal(0),
    {
        Index(decimal_string(0))
    }

    /// The position `n`.
    pub fn n(n: u64) -> (r: Index)
        ensures
            r@ == decimal(n as nat),
    {
        Index(decimal_string(n))
    }

    /// The text `(self + rhs)`.
    pub fn add(self, rhs: Index) -> (r: Index)
        ensures
            r@ == sum_text(self@, rhs@),
    {
        proof {
            reveal_strlit("(");
            reveal_strlit(" + ");
            reveal_strlit(")");
        }
        Index(cat("(", self.0.as_str()).concat(" + ").concat(rhs.0.as_str()).concat(")"))
    }

    /// The text `(self - rhs)`.
    pub fn sub(self, rhs: Index) -> (r: Index)
        ensures
            r@ == crate::arity::diff_text(self@, rhs@),
    {
        Index(cat("(", self.0.as_str()).concat(" - ").concat(rhs.0.as_str()).concat(")"))
    }
}

/// The half-open token range `[start, end)`.
pub struct Range(pub Index, pub Index);

impl View for Range {
    type V = (Seq<char>, Seq<char>);

    open spec fn view(&self) -> (Seq<char>, Seq<char>) {
        (self.0@, self.1@)
    }
}

/// A range of the token sequence bound to a name.
pub struct Slice(pub Bind, pub Range);

impl View for Slice {
    /// The sequence's name, and the range's start and end.
    type V = (Seq<char>, Seq<char>, Seq<char>);

    open spec fn view(&self) -> (Seq<char>, Seq<char>, Seq<char>) {
        (self.0@, self.1.0@, self.1.1@)
    }
}

impl Slice {
    pub fn dup(&self) -> (r: Slice)
        ensures
            r@ == self@,
    {
        Slice(self.0.dup(), Range(self.1.0.dup(), self.1.1.dup()))
    }
}

pub open spec fn binds_of(b: Seq<Bind>) -> Seq<Seq<char>> {
    b.map_values(|x: Bind| x@)
}

/// The names in `binds`, separated by `sep`.
pub fn join_binds(binds: &Vec<Bind>, sep: &str) -> (r: String)
    ensures
        r@ == joined(binds_of(binds@), sep@),
{
    let mut out = String::new();
    let mut i: usize = 0;
    while i < binds.len()
        invariant
            i <= binds@.len(),
            out@ == joined(binds_of(binds@).take(i as int), sep@),
        decreases binds@.len() - i,
    {
        if i > 0 {
            out = out.concat(sep);
        }
        out = out.concat(binds[i].as_str());
        i = i + 1;
        assert(binds_of(binds@).take(i as int).drop_last() =~= binds_of(binds@).take(i - 1));
    }
    assert(binds_of(binds@).take(i as int) =~= binds_of(binds@));
    out
}

/// Why code could not be generated.
#[derive(Clone, Copy, Debug, PartialEq, Eq, Structural)]
pub enum Error {
    /// The target language has no literal for a tuple of two or more values.
    TupleNotSupported,
    /// A line mixes matrix definitions with definitions read from the line itself.
    MixedLine,
}

/// A fresh binding.
pub fn new_var(names: &mut Namer) -> (r: Bind)
    ensures
        r@ == fresh_name(old(names).next),
        final(names).next == after(old(names).next),
{
    Bind(names.new_id())
}

/// What a spec-level emitter yields: the lines and the counter afterwards, or
/// an error.
pub type Emitted = Result<(Seq<Seq<char>>, u64), Error>;

/// `r`, with the naming counter `next`, is the outcome `s`.
pub open spec fn emitted(r: Result<Code, Error>, next: u64, s: Emitted) -> bool {
    match (r, s) {
        (Ok(c), Ok((t, n))) => lines_of(c) == t && next == n,
        (Err(e), Err(f)) => e == f,
        _ => false,
    }
}

/// The text of a result, or its error.
pub open spec fn text_outcome(r: Result<String, Error>) -> Result<Seq<char>, Error> {
    match r {
        Ok(s) => Ok(s@),
        Err(e) => Err(e),
    }
}

/// The lines of a successful outcome.
pub open spec fn lines_part(e: Emitted) -> Seq<Seq<char>> {
    match e {
        Ok((t, _)) => t,
        Err(_) => seq![],
    }
}

/// `p` followed by the lines of `s`, if `s` succeeded.
pub open spec fn prepend(p: Seq<Seq<char>>, s: Emitted) -> Emitted {
    match s {
        Ok((t, n)) => Ok((p + t, n)),
        Err(e) => Err(e),
    }
}

/// Emits each item in turn, threading the naming counter; the first error
/// aborts the whole.
pub open spec fn chain<T>(
    items: Seq<T>,
    step: spec_fn(T, u64) -> Emitted,
    c: u64,
) -> Emitted
    decreases items.len(),
{
    if items.len() == 0 {
        Ok((seq![], c))
    } else {
        match step(items[0], c) {
            Err(e) => Err(e),
            Ok((a, c1)) => prepend(a, chain(items.drop_first(), step, c1)),
        }
    }
}

pub proof fn lemma_prepend_twice(a: Seq<Seq<char>>, b: Seq<Seq<char>>, s: Emitted)
    ensures
        prepend(a, prepend(b, s)) == prepend(a + b, s),
{
    match s {
        Ok((t, n)) => {
            assert(a + (b + t) =~= (a + b) + t);
        },
        Err(_) => {},
    }
}

pub proof fn lemma_prepend_empty(s: Emitted)
    ensures
        prepend(seq![], s) == s,
{
    match s {
        Ok((t, n)) => {
            assert(seq![] + t =~= t);
        },
        Err(_) => {},
    }
}

/// Unfolds `chain` at position `i`.
pub proof fn lemma_chain_at<T>(items: Seq<T>, step: spec_fn(T, u64) -> Emitted, i: int, c: u64)
    requires
        0 <= i < items.len(),
    ensures
        chain(items.skip(i), step, c) == (match step(items[i], c) {
            Err(e) => Err(e),
            Ok((a, c1)) => prepend(a, chain(items.skip(i + 1), step, c1)),
        }),
{
    assert(items.skip(i).drop_first() =~= items.skip(i + 1));
    assert(items.skip(i)[0] == items[i]);
}

/// Where a field that starts at `head` ends: `head` plus its arity, or the
/// end of the line when it claims the rest.
pub open spec fn range_end(head: Seq<char>, a: Option<Seq<char>>, end: Seq<char>) -> Seq<char> {
    match a {
        Some(t) => sum_text(head, t),
        None => end,
    }
}

/// Where the `k`-th field starts when fields of the given arities are laid
/// out from `start`.
pub open spec fn head_at(
    arities: Seq<Option<Seq<char>>>,
    k: nat,
    start: Seq<char>,
    end: Seq<char>,
) -> Seq<char>
    decreases k,
{
    if k == 0 {
        start
    } else {
        range_end(head_at(arities, (k - 1) as nat, start, end), arities[k - 1], end)
    }
}

/// The ranges assigned to fields of the given arities over `[start, end)`.
pub open spec fn resolve_spec(
    arities: Seq<Option<Seq<char>>>,
    start: Seq<char>,
    end: Seq<char>,
) -> Seq<(Seq<char>, Seq<char>)> {
    Seq::new(
        arities.len(),
        |k: int| (head_at(arities, k as nat, start, end), head_at(arities, (k + 1) as nat, start, end)),
    )
}

pub open spec fn arities_of(a: Seq<Arity>) -> Seq<Option<Seq<char>>> {
    a.map_values(|x: Arity| x@)
}

/// Assigns each field, left to right, the range from the running offset to
/// the offset plus its arity (or to `end` for a field that claims the rest
/// of the line).
///
/// Only the last field may claim the rest of the line: a field after it
/// starts at `end`, past every token there is. Such input is the caller's
/// error and is laid out as stated, not rejected.
pub fn resolve(arities: &Vec<Arity>, start: &Index, end: &Index) -> (r: Vec<Range>)
    ensures
        r@.map_values(|x: Range| x@) == resolve_spec(arities_of(arities@), start@, end@),
{
    let ghost a = arities_of(arities@);
    let mut out: Vec<Range> = Vec::new();
    let mut head = start.dup();
    let mut i: usize = 0;
    while i < arities.len()
        invariant
            i <= arities@.len(),
            a == arities_of(arities@),
            head@ == head_at(a, i as nat, start@, end@),
            out@.map_values(|x: Range| x@) =~= resolve_spec(a, start@, end@).take(i as int),
        decreases arities@.len() - i,
    {
        let last = match &arities[i] {
            Arity::Literal(t) => head.dup().add(Index(t.clone())),
            Arity::Inf => end.dup(),
        };
        assert(a[i as int] == arities@[i as int]@);
        assert(last@ == head_at(a, (i + 1) as nat, start@, end@));
        let ghost before = out@.map_values(|x: Range| x@);
        out.push(Range(head, last.dup()));
        assert(out@.map_values(|x: Range| x@) =~= before.push(resolve_spec(a, start@, end@)[i as int]));
        head = last;
        i = i + 1;
    }
    out
}


/// A chain of emissions fails exactly when one of its items fails, and then
/// with that items' shared error `e`, whatever the naming counter.
pub proof fn lemma_chain_fails<T>(
    items: Seq<T>,
    step: spec_fn(T, u64) -> Emitted,
    bad: spec_fn(T) -> bool,
    e: Error,
    c: u64,
)
    requires
        forall|k: int, n: u64|
            0 <= k < items.len() ==> ((#[trigger] step(items[k], n)) is Err <==> bad(items[k])),
        forall|k: int, n: u64|
            0 <= k < items.len() && (#[trigger] step(items[k], n)) is Err ==> step(items[k], n) == Err::<
                (Seq<Seq<char>>, u64),
                Error,
            >(e),
    ensures
        chain(items, step, c) is Err <==> exists|k: int| 0 <= k < items.len() && bad(#[trigger] items[k]),
        chain(items, step, c) is Err ==> chain(items, step, c) == Err::<(Seq<Seq<char>>, u64), Error>(e),
    decreases items.len(),
{
    if items.len() > 0 {
        let rest = items.drop_first();
        assert forall|k: int, n: u64| 0 <= k < rest.len() implies ((#[trigger] step(rest[k], n)) is Err <==> bad(
            rest[k],
        )) by {
            assert(rest[k] == items[k + 1]);
        }
        assert forall|k: int, n: u64|
            0 <= k < rest.len() && (#[trigger] step(rest[k], n)) is Err implies step(rest[k], n) == Err::<
                (Seq<Seq<char>>, u64),
                Error,
            >(e) by {
            assert(rest[k] == items[k + 1]);
        }
        match step(items[0], c) {
            Err(_) => {
                assert(bad(items[0]));
            },
            Ok((a, c1)) => {
                lemma_chain_fails(rest, step, bad, e, c1);
                if exists|k: int| 0 <= k < items.len() && bad(#[trigger] items[k]) {
                    let k = choose|k: int| 0 <= k < items.len() && bad(#[trigger] items[k]);
                    assert(k != 0);
                    assert(rest[k - 1] == items[k]);
                }
                if exists|k: int| 0 <= k < rest.len() && bad(#[trigger] rest[k]) {
                    let k = choose|k: int| 0 <= k < rest.len() && bad(#[trigger] rest[k]);
                    assert(rest[k] == items[k + 1]);
                }
            },
        }
    }
}


/// The resolved ranges tile the token sequence: the first starts at
/// `start`, each one starts where the one before it ends, and each ends its
/// arity after its start, or at `end` when it claims the rest of the line.
pub proof fn ranges_tile(arities: Seq<Option<Seq<char>>>, start: Seq<char>, end: Seq<char>)
    ensures
        resolve_spec(arities, start, end).len() == arities.len(),
        arities.len() > 0 ==> resolve_spec(arities, start, end)[0].0 == start,
        forall|k: int|
            0 <= k < arities.len() - 1 ==> (#[trigger] resolve_spec(arities, start, end)[k]).1 == resolve_spec(
                arities,
                start,
                end,
            )[k + 1].0,
        forall|k: int|
            0 <= k < arities.len() ==> (#[trigger] resolve_spec(arities, start, end)[k]).1 == range_end(
                resolve_spec(arities, start, end)[k].0,
                arities[k],
                end,
            ),
{
}

/// Fields of finite arities laid out from `start` end, together, at `start`
/// plus the sum of their arities: `((start + a0) + a1) ...`.
pub proof fn ranges_end_at_sum(arities: Seq<Option<Seq<char>>>, start: Seq<char>, end: Seq<char>)
    requires
        all_finite(arities),
    ensures
        head_at(arities, arities.len(), start, end) == sum_from(start, literal_texts(arities)),
{
    lemma_heads_are_sums(arities, arities.len(), start, end);
    assert(literal_texts(arities).take(arities.len() as int) =~= literal_texts(arities));
}

proof fn lemma_heads_are_sums(arities: Seq<Option<Seq<char>>>, k: nat, start: Seq<char>, end: Seq<char>)
    requires
        all_finite(arities),
        k <= arities.len(),
    ensures
        head_at(arities, k, start, end) == sum_from(start, literal_texts(arities).take(k as int)),
    decreases k,
{
    if k > 0 {
        lemma_heads_are_sums(arities, (k - 1) as nat, start, end);
        assert(literal_texts(arities).take(k as int).drop_last() =~= literal_texts(arities).take(k - 1));
        assert(arities[k - 1] is Some);
    }
}


/// Once an item fails, the whole chain fails with that item's error,
/// whatever the items before it emitted: no partial output is returned.
pub proof fn chain_stops_at_failure<T>(
    items: Seq<T>,
    step: spec_fn(T, u64) -> Emitted,
    c: u64,
    k: int,
    done: Seq<Seq<char>>,
    n: u64,
    e: Error,
)
    requires
        0 <= k < items.len(),
        chain(items.take(k), step, c) == Ok::<(Seq<Seq<char>>, u64), Error>((done, n)),
        step(items[k], n) == Err::<(Seq<Seq<char>>, u64), Error>(e),
    ensures
        chain(items, step, c) == Err::<(Seq<Seq<char>>, u64), Error>(e),
    decreases k,
{
    if k > 0 {
        let first = items.take(k);
        assert(first[0] == items[0]);
        match step(items[0], c) {
            Ok((a, c1)) => {
                assert(first.drop_first() =~= items.drop_first().take(k - 1));
                let rest = chain(items.drop_first().take(k - 1), step, c1);
                match rest {
                    Ok((b, m)) => {
                        assert(items.drop_first()[k - 1] == items[k]);
                        chain_stops_at_failure(items.drop_first(), step, c1, k - 1, b, n, e);
                    },
                    Err(_) => {},
                }
            },
            Err(_) => {},
        }
    }
}

} // verus!
