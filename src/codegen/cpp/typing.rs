//! C++ type names of the model's types.
use vstd::prelude::*;
use crate::ast::{Array, ElemModel, List, RowModel, Tuple, TupleElem, TupleLike, UnitType};
use crate::text::{cat, join_strs, joined, lines_of};

verus! {

pub open spec fn unit_type_spec(ty: UnitType) -> Seq<char> {
    match ty {
        UnitType::Int => "int"@,
        UnitType::Int0 => "int"@,
        UnitType::Float => "double"@,
        UnitType::Str => "std::string"@,
    }
}

pub open spec fn vector_spec(ty: UnitType) -> Seq<char> {
    "std::vector<"@ + unit_type_spec(ty) + ">"@
}

pub open spec fn elem_spec(e: ElemModel) -> Seq<char> {
    match e {
        ElemModel::Unit(u) => unit_type_spec(u),
        ElemModel::Array(u, _) => vector_spec(u),
        ElemModel::List(u) => vector_spec(u),
    }
}

pub open spec fn tuple_spec(elems: Seq<ElemModel>) -> Seq<char> {
    let inner = joined(elems.map_values(|e: ElemModel| elem_spec(e)), ","@);
    if elems.len() == 1 {
        inner
    } else {
        "std::tuple<"@ + inner + ">"@
    }
}

pub open spec fn tuple_like_spec(row: RowModel) -> Seq<char> {
    match row {
        RowModel::Array(u, _) => vector_spec(u),
        RowModel::List(u) => vector_spec(u),
        RowModel::Tuple(elems) => tuple_spec(elems),
    }
}

pub fn unit_type(ty: &UnitType) -> (r: String)
    ensures
        r@ == unit_type_spec(*ty),
{
    match ty {
        UnitType::Int => String::from_str("int"),
        UnitType::Int0 => String::from_str("int"),
        UnitType::Float => String::from_str("double"),
        UnitType::Str => String::from_str("std::string"),
    }
}

fn vector(ty: &UnitType) -> (r: String)
    ensures
        r@ == vector_spec(*ty),
{
    cat("std::vector<", unit_type(ty).as_str()).concat(">")
}

pub fn array(ty: &Array) -> (r: String)
    ensures
        r@ == vector_spec(ty.0),
{
    vector(&ty.0)
}

pub fn list(ty: &List) -> (r: String)
    ensures
        r@ == vector_spec(ty.0),
{
    vector(&ty.0)
}

pub fn tuple(ty: &Tuple) -> (r: String)
    ensures
        r@ == tuple_spec(ty@),
{
    let ghost elems = ty@;
    let mut inner: Vec<String> = Vec::new();
    let mut i: usize = 0;
    while i < ty.0.len()
        invariant
            i <= ty.0@.len(),
            elems == ty@,
            lines_of(inner) =~= elems.map_values(|e: ElemModel| elem_spec(e)).take(i as int),
        decreases ty.0@.len() - i,
    {
        assert(elems[i as int] == ty.0@[i as int]@);
        let t = match &ty.0[i] {
            TupleElem::Array(x) => array(x),
            TupleElem::List(x) => list(x),
            TupleElem::UnitType(x) => unit_type(x),
        };
        let ghost before = lines_of(inner);
        inner.push(t);
        assert(lines_of(inner) =~= before.push(elem_spec(elems[i as int])));
        i = i + 1;
    }
    assert(lines_of(inner) =~= elems.map_values(|e: ElemModel| elem_spec(e)));
    let inner = join_strs(&inner, ",");
    if ty.0.len() == 1 {
        inner
    } else {
        cat("std::tuple<", inner.as_str()).concat(">")
    }
}

pub fn tuple_like(ty: &TupleLike) -> (r: String)
    ensures
        r@ == tuple_like_spec(ty@),
{
    match ty {
        TupleLike::Array(x) => array(x),
        TupleLike::List(x) => list(x),
        TupleLike::Tuple(x) => tuple(x),
    }
}

} // verus!
