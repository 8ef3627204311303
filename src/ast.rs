//! The type model: the shape of each input record, as the frontend builds it.
use vstd::prelude::*;

verus! {

/// A scalar token kind. `Int0` is a 1-based integer that the generated program
/// turns 0-based.
#[derive(Debug, Clone, Copy, PartialEq, Eq, Structural)]
pub enum UnitType {
    Int,
    Int0,
    Float,
    Str,
}

/// The name a definition binds.
#[derive(Debug)]
pub struct Var(pub String);

/// A length expression, target-language arithmetic text copied verbatim.
#[derive(Debug)]
pub struct Len(pub String);

/// A constant count.
#[derive(Debug)]
pub struct ConstNum(pub usize);

/// A fixed-length homogeneous sequence.
#[derive(Debug)]
pub struct Array(pub UnitType, pub Len);

/// A homogeneous sequence whose first token is its element count.
#[derive(Debug)]
pub struct List(pub UnitType);

/// What a tuple may hold.
#[derive(Debug)]
pub enum TupleElem {
    UnitType(UnitType),
    Array(Array),
    List(List),
}

/// A heterogeneous group bound as one value.
#[derive(Debug)]
pub struct Tuple(pub Vec<TupleElem>);

/// What a matrix row may be.
#[derive(Debug)]
pub enum TupleLike {
    Tuple(Tuple),
    Array(Array),
    List(List),
}

/// `rep` rows, each read from its own line.
#[derive(Debug)]
pub struct Matrix(pub TupleLike, pub Len);

#[derive(Debug)]
pub enum Type {
    UnitType(UnitType),
    TupleLike(TupleLike),
    Matrix(Matrix),
}

/// A name bound to a type.
#[derive(Debug)]
pub struct Definition(pub Var, pub Type);

/// The definitions that share one physical input line.
#[derive(Debug)]
pub struct Line(pub Vec<Definition>);

/// The whole program, lines in declaration order.
#[derive(Debug)]
pub struct Root(pub Vec<Line>);

/// Mathematical value of a tuple element.
pub enum ElemModel {
    Unit(UnitType),
    Array(UnitType, Seq<char>),
    List(UnitType),
}

/// Mathematical value of a tuple-like row type.
pub enum RowModel {
    Tuple(Seq<ElemModel>),
    Array(UnitType, Seq<char>),
    List(UnitType),
}

/// Mathematical value of a type.
pub enum TypeModel {
    Unit(UnitType),
    Row(RowModel),
    Matrix(RowModel, Seq<char>),
}

/// Mathematical value of a definition.
pub struct DefModel {
    pub var: Seq<char>,
    pub ty: TypeModel,
}

impl View for Array {
    type V = (UnitType, Seq<char>);

    open spec fn view(&self) -> (UnitType, Seq<char>) {
        (self.0, self.1.0@)
    }
}

impl View for TupleElem {
    type V = ElemModel;

    open spec fn view(&self) -> ElemModel {
        match self {
            TupleElem::UnitType(u) => ElemModel::Unit(*u),
            TupleElem::Array(a) => ElemModel::Array(a.0, a.1.0@),
            TupleElem::List(l) => ElemModel::List(l.0),
        }
    }
}

impl View for Tuple {
    type V = Seq<ElemModel>;

    open spec fn view(&self) -> Seq<ElemModel> {
        self.0@.map_values(|e: TupleElem| e@)
    }
}

impl View for TupleLike {
    type V = RowModel;

    open spec fn view(&self) -> RowModel {
        match self {
            TupleLike::Tuple(t) => RowModel::Tuple(t@),
            TupleLike::Array(a) => RowModel::Array(a.0, a.1.0@),
            TupleLike::List(l) => RowModel::List(l.0),
        }
    }
}

impl View for Matrix {
    type V = (RowModel, Seq<char>);

    open spec fn view(&self) -> (RowModel, Seq<char>) {
        (self.0@, self.1.0@)
    }
}

impl View for Type {
    type V = TypeModel;

    open spec fn view(&self) -> TypeModel {
        match self {
            Type::UnitType(u) => TypeModel::Unit(*u),
            Type::TupleLike(t) => TypeModel::Row(t@),
            Type::Matrix(m) => TypeModel::Matrix(m.0@, m.1.0@),
        }
    }
}

impl View for Definition {
    type V = DefModel;

    open spec fn view(&self) -> DefModel {
        DefModel { var: self.0.0@, ty: self.1@ }
    }
}

impl View for Line {
    type V = Seq<DefModel>;

    open spec fn view(&self) -> Seq<DefModel> {
        self.0@.map_values(|d: Definition| d@)
    }
}

impl View for Root {
    type V = Seq<Seq<DefModel>>;

    open spec fn view(&self) -> Seq<Seq<DefModel>> {
        self.0@.map_values(|l: Line| l@)
    }
}

} // verus!
