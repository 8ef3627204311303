use procon_input_compiler::arity::{Arity, GetArity};
use procon_input_compiler::ast::{Array, Len, List, Tuple, TupleElem, UnitType};
use procon_input_compiler::codegen::{resolve, Index};

fn text(a: &Arity) -> Option<String> {
    match a {
        Arity::Literal(s) => Some(s.clone()),
        Arity::Inf => None,
    }
}

#[test]
fn test_arity() {
    let a = Arity::n(10);
    let b = Arity::Literal("m".to_string());
    let c = Arity::n(20);
    assert_eq!(text(&a.clone().sub(b.clone())).unwrap(), "(10 - m)");
    assert_eq!(text(&a.clone().sub(c.clone())).unwrap(), "(10 - 20)");
    assert_eq!(text(&a.clone().add(b).sub(c)).unwrap(), "((10 + m) - 20)");
}

#[test]
fn arity_sums_as_text() {
    assert_eq!(text(&Arity::n(0)).unwrap(), "0");
    assert_eq!(text(&Arity::n(1234567)).unwrap(), "1234567");
    assert_eq!(text(&Arity::n(3).add(Arity::n(4))).unwrap(), "(3 + 4)");
    assert!(text(&Arity::n(3).add(Arity::Inf)).is_none());
    assert!(text(&Arity::Inf.add(Arity::n(3))).is_none());
}

#[test]
fn tuple_arity_is_the_sum_of_its_elements() {
    let t = Tuple(vec![
        TupleElem::UnitType(UnitType::Int),
        TupleElem::Array(Array(UnitType::Str, Len("n".to_string()))),
        TupleElem::UnitType(UnitType::Float),
    ]);
    assert_eq!(text(&t.arity()).unwrap(), "(((0 + 1) + n) + 1)");
    let open = Tuple(vec![TupleElem::UnitType(UnitType::Int), TupleElem::List(List(UnitType::Int))]);
    assert!(text(&open.arity()).is_none());
    assert_eq!(text(&UnitType::Str.arity()).unwrap(), "1");
    assert!(text(&List(UnitType::Int).arity()).is_none());
}

#[test]
fn ranges_tile_the_line() {
    let arities = vec![Arity::n(1), Arity::Literal("n".to_string())];
    let r = resolve(&arities, &Index("0".to_string()), &Index("len(xs)".to_string()));
    assert_eq!(r.len(), 2);
    assert_eq!((r[0].0).0, "0");
    assert_eq!((r[0].1).0, "(0 + 1)");
    assert_eq!((r[1].0).0, "(0 + 1)");
    assert_eq!((r[1].1).0, "((0 + 1) + n)");
}

#[test]
fn a_list_claims_the_rest_of_the_line() {
    let arities = vec![Arity::n(1), Arity::Inf, Arity::n(1)];
    let r = resolve(&arities, &Index("0".to_string()), &Index("len(xs)".to_string()));
    assert_eq!((r[1].0).0, "(0 + 1)");
    assert_eq!((r[1].1).0, "len(xs)");
    assert_eq!((r[2].0).0, "len(xs)");
    assert_eq!((r[2].1).0, "(len(xs) + 1)");
}
