use procon_input_compiler::ast::{TupleElem, TupleLike, Type, UnitType};
use procon_input_compiler::parse::{
    parse, parse_array, parse_definition, parse_len, parse_line, parse_list, parse_matrix, parse_tuple,
    parse_unit_type, parse_var,
};

#[test]
fn test_parse() {
    assert!(parse("").is_ok());
    assert!(parse("n: int").is_ok());
    assert!(parse("n: int\nm: int").is_ok());
}

#[test]
fn test_line() {
    assert!(parse_line("n: int").is_ok());
    assert!(parse_line("n: int, m: int").is_ok());
    assert!(parse_line("n: int, m: [int; 4]").is_ok());
    assert!(parse_line(" n: int , m: int ").is_ok());
}

#[test]
fn test_array() {
    assert!(parse_array("[int;10]").is_ok());
    assert!(parse_array("[int;m]").is_ok());
    assert!(parse_array("[ int;m ]").is_ok());
    assert!(parse_array("[int; 10]").is_ok());
    assert!(parse_array("[int; n+1]").is_ok());
    assert!(parse_array("[int; n-1]").is_ok());
    assert!(parse_array("[int; n+m]").is_ok());
    assert!(parse_array("[int; 2*n]").is_ok());
    assert!(parse_array("[float; n]").is_ok());
}

#[test]
fn test_list() {
    assert!(parse_list("[int]").is_ok());
}

#[test]
fn test_var() {
    assert!(parse_var("x01").is_ok());
    assert!(parse_var("Aa01").is_ok());
    assert!(parse_var("01x").is_err());
}

#[test]
fn test_len() {
    assert!(parse_len("10").is_ok());
    assert!(parse_len("m").is_ok());
    assert!(parse_len("M").is_ok());
    assert!(parse_len("n+1").is_ok());
}

#[test]
fn test_unit_type() {
    assert!(parse_unit_type("int").is_ok());
    assert!(parse_unit_type("int0").is_ok());
    assert!(parse_unit_type("str").is_ok());
    assert!(parse_unit_type("float").is_ok());
}

#[test]
fn test_tuple() {
    assert!(parse_tuple("(int, str)").is_ok());
    assert!(parse_tuple("( int, str,   int)").is_ok());
    assert!(parse_tuple("(int, [int])").is_ok());
    assert!(parse_tuple("([int;3], [int;2])").is_ok());
}

#[test]
fn test_matrix() {
    assert!(parse_matrix("[[int; 4]; 5]").is_ok());
    assert!(parse_matrix("[[int]; 4]").is_ok());
}

#[test]
fn test_definition() {
    assert!(parse_definition("n: int").is_ok());
    assert!(parse_definition("e: [(int0, int0); m]").is_ok());
}

#[test]
fn unit_types_are_told_apart() {
    assert_eq!(parse_unit_type("int0").unwrap(), UnitType::Int0);
    assert_eq!(parse_unit_type("int").unwrap(), UnitType::Int);
    assert_eq!(parse_unit_type("float").unwrap(), UnitType::Float);
    assert_eq!(parse_unit_type("str").unwrap(), UnitType::Str);
    assert_eq!(parse_unit_type("integer").unwrap_err().at, 3);
    assert_eq!(parse_unit_type("bool").unwrap_err().at, 0);
}

#[test]
fn length_text_is_kept_verbatim() {
    let a = parse_array("[ int; n+1 ]").unwrap();
    assert_eq!(a.0, UnitType::Int);
    assert_eq!((a.1).0, "n+1 ");
    assert_eq!(parse_len("n+1").unwrap().0, "n+1");
    assert!(parse_len("").is_err());
    assert_eq!(parse_var("_a1 b").unwrap_err().at, 3);
}

#[test]
fn tuple_elements_in_order() {
    let t = parse_tuple("(int, [str; 3], [float])").unwrap();
    assert_eq!(t.0.len(), 3);
    assert!(matches!(t.0[0], TupleElem::UnitType(UnitType::Int)));
    match &t.0[1] {
        TupleElem::Array(a) => {
            assert_eq!(a.0, UnitType::Str);
            assert_eq!((a.1).0, "3");
        }
        _ => panic!("expected an array"),
    }
    assert!(matches!(t.0[2], TupleElem::List(_)));
    assert!(parse_tuple("()").is_err());
    assert!(parse_tuple("(int,)").is_err());
}

#[test]
fn matrix_of_tuples() {
    let d = parse_definition("e: [(int0, int0); m]").unwrap();
    assert_eq!((d.0).0, "e");
    match &d.1 {
        Type::Matrix(m) => {
            assert_eq!((m.1).0, "m");
            match &m.0 {
                TupleLike::Tuple(t) => assert_eq!(t.0.len(), 2),
                _ => panic!("expected a tuple row"),
            }
        }
        _ => panic!("expected a matrix"),
    }
}

#[test]
fn lines_and_line_endings() {
    let root = parse("n: int, m: int\r\na: [int; n]\n").unwrap();
    assert_eq!(root.0.len(), 3);
    assert_eq!(root.0[0].0.len(), 2);
    assert_eq!(root.0[1].0.len(), 1);
    assert_eq!(root.0[2].0.len(), 0);
    assert_eq!(parse("n: int,").unwrap_err().at, 6);
    assert_eq!(parse("n int").unwrap_err().at, 0);
    assert_eq!(parse_line("n: int m: int").unwrap_err().at, 7);
}
