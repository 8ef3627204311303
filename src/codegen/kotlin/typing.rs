//! Kotlin type names of the model's types. Only a tuple of one element has a
//! name here.
use vstd::prelude::*;
use crate::ast::{Array, ElemModel, List, RowModel, Tuple, TupleElem, TupleLike, UnitType};
use crate::codegen::Error;
use crate::text::cat;

verus! {

pub open spec fn unit_type_spec(ty: UnitType) -> Seq<char> {
    match ty {
        UnitType::Int => "Int"@,
        UnitType::Int0 => "Int"@,
        UnitType::Float => "Double"@,
        UnitType::Str => "String"@,
    }
}

pub open spec fn list_of_spec(ty: UnitType) -> Seq<char> {
    "ArrayList<"@ + unit_type_spec(ty) + ">"@
}

pub open spec fn elem_spec(e: ElemModel) -> Seq<char> {
    match e {
        ElemModel::Unit(u) => unit_type_spec(u),
        ElemModel::Array(u, _) => list_of_spec(u),
        ElemModel::List(u) => list_of_spec(u),
    }
}

pub open spec fn tuple_spec(elems: Seq<ElemModel>) -> Result<Seq<char>, Error> {
    if elems.len() != 1 {
        Err(Error::TupleNotSupported)
    } else {
        Ok(elem_spec(elems[0]))
    }
}

pub open spec fn tuple_like_spec(row: RowModel) -> Result<Seq<char>, Error> {
    match row {
        RowModel::Array(u, _) => Ok(list_of_spec(u)),
        RowModel::List(u) => Ok(list_of_spec(u)),
        RowModel::Tuple(elems) => tuple_spec(elems),
    }
}

pub fn unit_type(ty: &UnitType) -> (r: String)
    ensures
        r@ == unit_type_spec(*ty),
{
    match ty {
        UnitType::Int => String::from_str("Int"),
        UnitType::Int0 => String::from_str("Int"),
        UnitType::Float => String::from_str("Double"),
        UnitType::Str => String::from_str("String"),
    }
}

fn list_of(ty: &UnitType) -> (r: String)
    ensures
        r@ == list_of_spec(*ty),
{
    cat("ArrayList<", unit_type(ty).as_str()).concat(">")
}

pub fn array(ty: &Array) -> (r: String)
    ensures
        r@ == list_of_spec(ty.0),
{
    list_of(&ty.0)
}

pub fn list(ty: &List) -> (r: String)
    ensures
        r@ == list_of_spec(ty.0),
{
    list_of(&ty.0)
}

pub fn tuple(ty: &Tuple) -> (r: Result<String, Error>)
    ensures
        match (r, tuple_spec(ty@)) {
            (Ok(s), Ok(t)) => s@ == t,
            (Err(e), Err(f)) => e == f,
            _ => false,
        },
{
    if ty.0.len() != 1 {
        return Err(Error::TupleNotSupported);
    }
    assert(ty@[0] == ty.0@[0]@);
    match &ty.0[0] {
        TupleElem::Array(x) => Ok(list_of(&x.0)),
        TupleElem::List(x) => Ok(list_of(&x.0)),
        TupleElem::UnitType(x) => Ok(unit_type(x)),
    }
}

pub fn tuple_like(ty: &TupleLike) -> (r: Result<String, Error>)
    ensures
        match (r, tuple_like_spec(ty@)) {
            (Ok(s), Ok(t)) => s@ == t,
            (Err(e), Err(f)) => e == f,
            _ => false,
        },
{
    match ty {
        TupleLike::Array(x) => Ok(list_of(&x.0)),
        TupleLike::List(x) => Ok(list_of(&x.0)),
        TupleLike::Tuple(x) => tuple(x),
    }
}

} // verus!
