//! Expressions, their mathematical model, and copying.
use arrow::datatypes::DataType;
use std::sync::Arc;
use vstd::prelude::*;

use crate::scalar::{
    clone_data_type, clone_text, same_text, text_model, ScalarModel, ScalarValue,
};

verus! {

/// A reference to a column, with the name of the relation that it belongs to where that is
/// known.
#[derive(Debug, PartialEq, Eq)]
pub struct Column {
    pub relation: Option<String>,
    pub name: String,
}

/// A [`Column`] with its strings as sequences of characters.
#[verifier::ext_equal]
pub struct ColumnModel {
    pub relation: Option<Seq<char>>,
    pub name: Seq<char>,
}

impl View for Column {
    type V = ColumnModel;

    open spec fn view(&self) -> ColumnModel {
        ColumnModel { relation: text_model(self.relation), name: self.name@ }
    }
}

impl Clone for Column {
    fn clone(&self) -> (copy: Self)
        ensures
            copy@ == self@,
    {
        Column { relation: clone_text(&self.relation), name: self.name.clone() }
    }
}

impl Column {
    /// The column of that name, of no particular relation.
    pub fn from_name(name: String) -> (column: Column)
        ensures
            column@ == (ColumnModel { relation: None, name: name@ }),
    {
        Column { relation: None, name }
    }

    /// Whether two columns have the same name and the same relation.
    pub fn same(&self, other: &Column) -> (same: bool)
        ensures
            same == (self@ == other@),
    {
        same_text(&self.relation, &other.relation) && self.name == other.name
    }
}

/// The operator of a binary expression.
#[derive(Clone, Copy, Debug, PartialEq, Eq, Structural)]
pub enum Operator {
    Eq,
    NotEq,
    Lt,
    LtEq,
    Gt,
    GtEq,
    Plus,
    Minus,
    Multiply,
    Divide,
    Modulo,
    And,
    Or,
    Like,
    NotLike,
    RegexMatch,
    RegexIMatch,
    RegexNotMatch,
    RegexNotIMatch,
}

/// A scalar function that the engine brings, known by its name.
#[derive(Debug, PartialEq, Eq)]
pub struct BuiltinScalarFunction {
    pub name: String,
}

impl View for BuiltinScalarFunction {
    type V = Seq<char>;

    open spec fn view(&self) -> Seq<char> {
        self.name@
    }
}

impl Clone for BuiltinScalarFunction {
    fn clone(&self) -> (copy: Self)
        ensures
            copy@ == self@,
    {
        BuiltinScalarFunction { name: self.name.clone() }
    }
}

/// A scalar function of the user. The registry that holds its body finds it by its name.
#[derive(Debug, PartialEq, Eq)]
pub struct ScalarUDF {
    pub name: String,
}

impl View for ScalarUDF {
    type V = Seq<char>;

    open spec fn view(&self) -> Seq<char> {
        self.name@
    }
}

/// An aggregate function of the user. The registry that holds its body finds it by its name.
#[derive(Debug, PartialEq, Eq)]
pub struct AggregateUDF {
    pub name: String,
}

impl View for AggregateUDF {
    type V = Seq<char>;

    open spec fn view(&self) -> Seq<char> {
        self.name@
    }
}

/// An aggregate function that the engine brings.
#[derive(Clone, Copy, Debug, PartialEq, Eq, Structural)]
pub enum AggregateFunction {
    Count,
    Sum,
    Min,
    Max,
    Avg,
    ApproxDistinct,
    ArrayAgg,
}

/// A window function that is no aggregate.
#[derive(Clone, Copy, Debug, PartialEq, Eq, Structural)]
pub enum BuiltInWindowFunction {
    RowNumber,
    Rank,
    DenseRank,
    PercentRank,
    CumeDist,
    Ntile,
    Lag,
    Lead,
    FirstValue,
    LastValue,
    NthValue,
}

/// A function that is computed over a window of rows.
#[derive(Clone, Copy, Debug, PartialEq, Eq, Structural)]
pub enum WindowFunction {
    AggregateFunction(AggregateFunction),
    BuiltInWindowFunction(BuiltInWindowFunction),
}

/// What the bounds of a window frame count.
#[derive(Clone, Copy, Debug, PartialEq, Eq, Structural)]
pub enum WindowFrameUnits {
    Range,
    Rows,
    Groups,
}

/// Where a window frame starts or ends; no number means unbounded.
#[derive(Clone, Copy, Debug, PartialEq, Eq, Structural)]
pub enum WindowFrameBound {
    Preceding(Option<u64>),
    CurrentRow,
    Following(Option<u64>),
}

/// The rows around the current row that a window function sees.
#[derive(Clone, Copy, Debug, PartialEq, Eq, Structural)]
pub struct WindowFrame {
    pub units: WindowFrameUnits,
    pub start_bound: WindowFrameBound,
    pub end_bound: WindowFrameBound,
}

/// An expression of a query.
#[derive(Debug, PartialEq, Eq)]
#[allow(inconsistent_fields)]
pub enum Expr {
    /// An expression under another name.
    Alias(Box<Expr>, String),
    Column(Column),
    /// A variable of the session, such as `@@version`, as the parts of its name.
    ScalarVariable(Vec<String>),
    Literal(ScalarValue),
    BinaryExpr { left: Box<Expr>, op: Operator, right: Box<Expr> },
    Not(Box<Expr>),
    IsNotNull(Box<Expr>),
    IsNull(Box<Expr>),
    Negative(Box<Expr>),
    /// Whether `expr` lies between `low` and `high`, both included.
    Between { expr: Box<Expr>, negated: bool, low: Box<Expr>, high: Box<Expr> },
    /// `CASE [expr] WHEN .. THEN .. [ELSE ..] END`.
    Case {
        expr: Option<Box<Expr>>,
        when_then_expr: Vec<(Box<Expr>, Box<Expr>)>,
        else_expr: Option<Box<Expr>>,
    },
    Cast { expr: Box<Expr>, data_type: DataType },
    /// A cast that gives null where it fails.
    TryCast { expr: Box<Expr>, data_type: DataType },
    /// An expression to sort by.
    Sort { expr: Box<Expr>, asc: bool, nulls_first: bool },
    ScalarFunction { fun: BuiltinScalarFunction, args: Vec<Expr> },
    ScalarUDF { fun: Arc<ScalarUDF>, args: Vec<Expr> },
    AggregateFunction { fun: AggregateFunction, args: Vec<Expr>, distinct: bool },
    WindowFunction {
        fun: WindowFunction,
        args: Vec<Expr>,
        partition_by: Vec<Expr>,
        order_by: Vec<Expr>,
        window_frame: Option<WindowFrame>,
    },
    AggregateUDF { fun: Arc<AggregateUDF>, args: Vec<Expr> },
    InList { expr: Box<Expr>, list: Vec<Expr>, negated: bool },
    /// All columns of a relation, before it is known which they are.
    Wildcard,
}

/// An [`Expr`] as a mathematical tree: strings and vectors are sequences, and a user's function
/// is its name.
#[verifier::ext_equal]
#[allow(inconsistent_fields)]
pub enum ExprModel {
    Alias(Box<ExprModel>, Seq<char>),
    Column(ColumnModel),
    ScalarVariable(Seq<Seq<char>>),
    Literal(ScalarModel),
    BinaryExpr { left: Box<ExprModel>, op: Operator, right: Box<ExprModel> },
    Not(Box<ExprModel>),
    IsNotNull(Box<ExprModel>),
    IsNull(Box<ExprModel>),
    Negative(Box<ExprModel>),
    Between { expr: Box<ExprModel>, negated: bool, low: Box<ExprModel>, high: Box<ExprModel> },
    Case {
        expr: Option<Box<ExprModel>>,
        when_then_expr: Seq<(ExprModel, ExprModel)>,
        else_expr: Option<Box<ExprModel>>,
    },
    Cast { expr: Box<ExprModel>, data_type: DataType },
    TryCast { expr: Box<ExprModel>, data_type: DataType },
    Sort { expr: Box<ExprModel>, asc: bool, nulls_first: bool },
    ScalarFunction { fun: Seq<char>, args: Seq<ExprModel> },
    ScalarUDF { fun: Seq<char>, args: Seq<ExprModel> },
    AggregateFunction { fun: AggregateFunction, args: Seq<ExprModel>, distinct: bool },
    WindowFunction {
        fun: WindowFunction,
        args: Seq<ExprModel>,
        partition_by: Seq<ExprModel>,
        order_by: Seq<ExprModel>,
        window_frame: Option<WindowFrame>,
    },
    AggregateUDF { fun: Seq<char>, args: Seq<ExprModel> },
    InList { expr: Box<ExprModel>, list: Seq<ExprModel>, negated: bool },
    Wildcard,
}

/// The model of an expression.
pub open spec fn expr_model(expr: Expr) -> ExprModel
    decreases expr,
{
    match expr {
        Expr::Alias(inner, alias) => ExprModel::Alias(Box::new(expr_model(*inner)), alias@),
        Expr::Column(column) => ExprModel::Column(column@),
        Expr::ScalarVariable(names) => ExprModel::ScalarVariable(strings_model(names@)),
        Expr::Literal(value) => ExprModel::Literal(value@),
        Expr::BinaryExpr { left, op, right } => ExprModel::BinaryExpr {
            left: Box::new(expr_model(*left)),
            op,
            right: Box::new(expr_model(*right)),
        },
        Expr::Not(inner) => ExprModel::Not(Box::new(expr_model(*inner))),
        Expr::IsNotNull(inner) => ExprModel::IsNotNull(Box::new(expr_model(*inner))),
        Expr::IsNull(inner) => ExprModel::IsNull(Box::new(expr_model(*inner))),
        Expr::Negative(inner) => ExprModel::Negative(Box::new(expr_model(*inner))),
        Expr::Between { expr: inner, negated, low, high } => ExprModel::Between {
            expr: Box::new(expr_model(*inner)),
            negated,
            low: Box::new(expr_model(*low)),
            high: Box::new(expr_model(*high)),
        },
        Expr::Case { expr: base, when_then_expr, else_expr } => ExprModel::Case {
            expr: optional_model(base),
            when_then_expr: pairs_model(when_then_expr@),
            else_expr: optional_model(else_expr),
        },
        Expr::Cast { expr: inner, data_type } => ExprModel::Cast {
            expr: Box::new(expr_model(*inner)),
            data_type,
        },
        Expr::TryCast { expr: inner, data_type } => ExprModel::TryCast {
            expr: Box::new(expr_model(*inner)),
            data_type,
        },
        Expr::Sort { expr: inner, asc, nulls_first } => ExprModel::Sort {
            expr: Box::new(expr_model(*inner)),
            asc,
            nulls_first,
        },
        Expr::ScalarFunction { fun, args } => ExprModel::ScalarFunction {
            fun: fun@,
            args: exprs_model(args@),
        },
        Expr::ScalarUDF { fun, args } => ExprModel::ScalarUDF {
            fun: (*fun)@,
            args: exprs_model(args@),
        },
        Expr::AggregateFunction { fun, args, distinct } => ExprModel::AggregateFunction {
            fun,
            args: exprs_model(args@),
            distinct,
        },
        Expr::WindowFunction { fun, args, partition_by, order_by, window_frame } =>
            ExprModel::WindowFunction {
            fun,
            args: exprs_model(args@),
            partition_by: exprs_model(partition_by@),
            order_by: exprs_model(order_by@),
            window_frame,
        },
        Expr::AggregateUDF { fun, args } => ExprModel::AggregateUDF {
            fun: (*fun)@,
            args: exprs_model(args@),
        },
        Expr::InList { expr: inner, list, negated } => ExprModel::InList {
            expr: Box::new(expr_model(*inner)),
            list: exprs_model(list@),
            negated,
        },
        Expr::Wildcard => ExprModel::Wildcard,
    }
}

/// The models of a sequence of expressions, one for one.
pub open spec fn exprs_model(exprs: Seq<Expr>) -> Seq<ExprModel>
    decreases exprs,
{
    Seq::new(
        exprs.len(),
        |i: int|
            if 0 <= i < exprs.len() {
                expr_model(exprs[i])
            } else {
                arbitrary()
            },
    )
}

/// The models of a sequence of pairs of expressions, one for one.
pub open spec fn pairs_model(pairs: Seq<(Box<Expr>, Box<Expr>)>) -> Seq<(ExprModel, ExprModel)>
    decreases pairs,
{
    Seq::new(
        pairs.len(),
        |i: int|
            if 0 <= i < pairs.len() {
                (expr_model(*pairs[i].0), expr_model(*pairs[i].1))
            } else {
                arbitrary()
            },
    )
}

/// The model of an expression that may be missing.
pub open spec fn optional_model(expr: Option<Box<Expr>>) -> Option<Box<ExprModel>>
    decreases expr,
{
    match expr {
        Some(inner) => Some(Box::new(expr_model(*inner))),
        None => None,
    }
}

/// The characters of each string of a sequence.
pub open spec fn strings_model(strings: Seq<String>) -> Seq<Seq<char>> {
    strings.map_values(|s: String| s@)
}

impl View for Expr {
    type V = ExprModel;

    open spec fn view(&self) -> ExprModel {
        expr_model(*self)
    }
}

pub broadcast proof fn lemma_exprs_model_len(exprs: Seq<Expr>)
    ensures
        #[trigger] exprs_model(exprs).len() == exprs.len(),
{
}

pub broadcast proof fn lemma_exprs_model_index(exprs: Seq<Expr>, i: int)
    requires
        0 <= i < exprs.len(),
    ensures
        #[trigger] exprs_model(exprs)[i] == exprs[i]@,
{
}

pub broadcast proof fn lemma_exprs_model_push(exprs: Seq<Expr>, expr: Expr)
    ensures
        #[trigger] exprs_model(exprs.push(expr)) == exprs_model(exprs).push(expr@),
{
    assert(exprs_model(exprs.push(expr)) =~= exprs_model(exprs).push(expr@));
}

pub broadcast proof fn lemma_exprs_model_add(left: Seq<Expr>, right: Seq<Expr>)
    ensures
        #[trigger] exprs_model(left + right) == exprs_model(left) + exprs_model(right),
{
    assert(exprs_model(left + right) =~= exprs_model(left) + exprs_model(right));
}

pub broadcast proof fn lemma_exprs_model_subrange(exprs: Seq<Expr>, from: int, to: int)
    requires
        0 <= from <= to <= exprs.len(),
    ensures
        #[trigger] exprs_model(exprs.subrange(from, to)) == exprs_model(exprs).subrange(from, to),
{
    assert(exprs_model(exprs.subrange(from, to)) =~= exprs_model(exprs).subrange(from, to));
}

pub broadcast proof fn lemma_exprs_model_empty()
    ensures
        #[trigger] exprs_model(Seq::<Expr>::empty()) == Seq::<ExprModel>::empty(),
{
    assert(exprs_model(Seq::<Expr>::empty()) =~= Seq::<ExprModel>::empty());
}

pub(crate) proof fn lemma_same_members(left: Seq<Expr>, right: Seq<Expr>)
    ensures
        exprs_model(left) == exprs_model(right) ==> {
            &&& left.len() == right.len()
            &&& forall|i: int| 0 <= i < left.len() ==> (#[trigger] left[i])@ == right[i]@
        },
{
    if exprs_model(left) == exprs_model(right) {
        assert(exprs_model(left).len() == left.len());
        assert(exprs_model(right).len() == right.len());
        assert forall|i: int| 0 <= i < left.len() implies (#[trigger] left[i])@ == right[i]@ by {
            assert(exprs_model(left)[i] == exprs_model(right)[i]);
        }
    }
}

pub broadcast group group_exprs_model {
    lemma_exprs_model_len,
    lemma_exprs_model_index,
    lemma_exprs_model_push,
    lemma_exprs_model_add,
    lemma_exprs_model_subrange,
    lemma_exprs_model_empty,
}

/// A copy of a slice of expressions.
pub(crate) fn clone_exprs(exprs: &[Expr]) -> (copy: Vec<Expr>)
    ensures
        exprs_model(copy@) == exprs_model(exprs@),
    decreases exprs@,
{
    let mut copy: Vec<Expr> = Vec::new();
    let mut i: usize = 0;
    while i < exprs.len()
        invariant
            i <= exprs.len(),
            exprs_model(copy@) == exprs_model(exprs@.take(i as int)),
        decreases exprs.len() - i,
    {
        let item = exprs[i].clone();
        proof {
            assert(exprs@.take(i + 1) == exprs@.take(i as int).push(exprs@[i as int]));
            lemma_exprs_model_push(exprs@.take(i as int), exprs@[i as int]);
            lemma_exprs_model_push(copy@, item);
        }
        copy.push(item);
        i += 1;
    }
    assert(exprs@.take(i as int) == exprs@);
    copy
}

/// A copy of the expressions of a slice from one position up to another.
pub(crate) fn clone_range(exprs: &[Expr], from: usize, to: usize) -> (copy: Vec<Expr>)
    requires
        from <= to <= exprs@.len(),
    ensures
        exprs_model(copy@) == exprs_model(exprs@).subrange(from as int, to as int),
{
    broadcast use group_exprs_model;

    let mut copy: Vec<Expr> = Vec::new();
    let mut i: usize = from;
    assert(exprs_model(copy@) =~= exprs_model(exprs@).subrange(from as int, i as int));
    while i < to
        invariant
            from <= i <= to <= exprs@.len(),
            exprs_model(copy@) == exprs_model(exprs@).subrange(from as int, i as int),
        decreases to - i,
    {
        let item = exprs[i].clone();
        proof {
            lemma_exprs_model_push(copy@, item);
            assert(exprs_model(exprs@).subrange(from as int, i + 1) =~= exprs_model(
                exprs@,
            ).subrange(from as int, i as int).push(exprs_model(exprs@)[i as int]));
        }
        copy.push(item);
        i += 1;
    }
    copy
}

fn clone_pairs(pairs: &Vec<(Box<Expr>, Box<Expr>)>) -> (copy: Vec<(Box<Expr>, Box<Expr>)>)
    ensures
        pairs_model(copy@) == pairs_model(pairs@),
    decreases pairs,
{
    let mut copy: Vec<(Box<Expr>, Box<Expr>)> = Vec::new();
    let mut i: usize = 0;
    while i < pairs.len()
        invariant
            i <= pairs.len(),
            copy@.len() == i,
            forall|j: int|
                0 <= j < i ==> #[trigger] pairs_model(copy@)[j] == pairs_model(pairs@)[j],
        decreases pairs.len() - i,
    {
        let ghost before = copy@;
        let first = Box::new((*pairs[i].0).clone());
        let second = Box::new((*pairs[i].1).clone());
        copy.push((first, second));
        i += 1;
        assert forall|j: int| 0 <= j < i implies #[trigger] pairs_model(copy@)[j] == pairs_model(
            pairs@,
        )[j] by {
            if j < i - 1 {
                assert(pairs_model(before)[j] == pairs_model(pairs@)[j]);
            }
        }
    }
    assert(pairs_model(copy@) =~= pairs_model(pairs@));
    copy
}

fn clone_optional(expr: &Option<Box<Expr>>) -> (copy: Option<Box<Expr>>)
    ensures
        optional_model(copy) == optional_model(*expr),
    decreases expr,
{
    match expr {
        Some(inner) => Some(Box::new((**inner).clone())),
        None => None,
    }
}

impl Clone for Expr {
    fn clone(&self) -> (copy: Self)
        ensures
            copy@ == self@,
        decreases self,
    {
        match self {
            Expr::Alias(expr, alias) => Expr::Alias(Box::new((**expr).clone()), alias.clone()),
            Expr::Column(column) => Expr::Column(column.clone()),
            Expr::ScalarVariable(names) => {
                let copy = names.clone();
                assert(copy@ =~= names@);
                Expr::ScalarVariable(copy)
            },
            Expr::Literal(value) => Expr::Literal(value.clone()),
            Expr::BinaryExpr { left, op, right } => Expr::BinaryExpr {
                left: Box::new((**left).clone()),
                op: *op,
                right: Box::new((**right).clone()),
            },
            Expr::Not(expr) => Expr::Not(Box::new((**expr).clone())),
            Expr::IsNotNull(expr) => Expr::IsNotNull(Box::new((**expr).clone())),
            Expr::IsNull(expr) => Expr::IsNull(Box::new((**expr).clone())),
            Expr::Negative(expr) => Expr::Negative(Box::new((**expr).clone())),
            Expr::Between { expr, negated, low, high } => Expr::Between {
                expr: Box::new((**expr).clone()),
                negated: *negated,
                low: Box::new((**low).clone()),
                high: Box::new((**high).clone()),
            },
            Expr::Case { expr, when_then_expr, else_expr } => Expr::Case {
                expr: clone_optional(expr),
                when_then_expr: clone_pairs(when_then_expr),
                else_expr: clone_optional(else_expr),
            },
            Expr::Cast { expr, data_type } => Expr::Cast {
                expr: Box::new((**expr).clone()),
                data_type: clone_data_type(data_type),
            },
            Expr::TryCast { expr, data_type } => Expr::TryCast {
                expr: Box::new((**expr).clone()),
                data_type: clone_data_type(data_type),
            },
            Expr::Sort { expr, asc, nulls_first } => Expr::Sort {
                expr: Box::new((**expr).clone()),
                asc: *asc,
                nulls_first: *nulls_first,
            },
            Expr::ScalarFunction { fun, args } => Expr::ScalarFunction {
                fun: fun.clone(),
                args: clone_exprs(args.as_slice()),
            },
            Expr::ScalarUDF { fun, args } => Expr::ScalarUDF {
                fun: Arc::clone(fun),
                args: clone_exprs(args.as_slice()),
            },
            Expr::AggregateFunction { fun, args, distinct } => Expr::AggregateFunction {
                fun: *fun,
                args: clone_exprs(args.as_slice()),
                distinct: *distinct,
            },
            Expr::WindowFunction { fun, args, partition_by, order_by, window_frame } =>
                Expr::WindowFunction {
                fun: *fun,
                args: clone_exprs(args.as_slice()),
                partition_by: clone_exprs(partition_by.as_slice()),
                order_by: clone_exprs(order_by.as_slice()),
                window_frame: *window_frame,
            },
            Expr::AggregateUDF { fun, args } => Expr::AggregateUDF {
                fun: Arc::clone(fun),
                args: clone_exprs(args.as_slice()),
            },
            Expr::InList { expr, list, negated } => Expr::InList {
                expr: Box::new((**expr).clone()),
                list: clone_exprs(list.as_slice()),
                negated: *negated,
            },
            Expr::Wildcard => Expr::Wildcard,
        }
    }
}

/// The literal of a string.
pub fn lit(text: &str) -> (expr: Expr)
    ensures
        expr@ == literal(text@),
{
    Expr::Literal(ScalarValue::Utf8(Some(text.to_owned())))
}

/// The model of the literal of a string.
pub open spec fn literal(text: Seq<char>) -> ExprModel {
    ExprModel::Literal(ScalarModel::Utf8(Some(text)))
}

/// Expressions with the same model are of the same kind and the same in every part.
pub proof fn law_model_tells_expressions_apart(left: Expr, right: Expr)
    requires
        left@ == right@,
    ensures
        match (left, right) {
            (Expr::Alias(l, l_alias), Expr::Alias(r, r_alias)) => (*l)@ == (*r)@ && l_alias@
                == r_alias@,
            (Expr::Column(l), Expr::Column(r)) => {
                &&& l.name@ == r.name@
                &&& l.relation is Some <==> r.relation is Some
                &&& l.relation is Some ==> l.relation->0@ == r.relation->0@
            },
            (Expr::ScalarVariable(l), Expr::ScalarVariable(r)) => {
                &&& l@.len() == r@.len()
                &&& forall|i: int| 0 <= i < l@.len() ==> (#[trigger] l@[i])@ == r@[i]@
            },
            (Expr::Literal(l), Expr::Literal(r)) => l@ == r@,
            (
                Expr::BinaryExpr { left: l1, op: l_op, right: l2 },
                Expr::BinaryExpr { left: r1, op: r_op, right: r2 },
            ) => (*l1)@ == (*r1)@ && l_op == r_op && (*l2)@ == (*r2)@,
            (Expr::Not(l), Expr::Not(r)) => (*l)@ == (*r)@,
            (Expr::IsNotNull(l), Expr::IsNotNull(r)) => (*l)@ == (*r)@,
            (Expr::IsNull(l), Expr::IsNull(r)) => (*l)@ == (*r)@,
            (Expr::Negative(l), Expr::Negative(r)) => (*l)@ == (*r)@,
            (
                Expr::Between { expr: l, negated: l_negated, low: l_low, high: l_high },
                Expr::Between { expr: r, negated: r_negated, low: r_low, high: r_high },
            ) => {
                &&& (*l)@ == (*r)@
                &&& l_negated == r_negated
                &&& (*l_low)@ == (*r_low)@
                &&& (*l_high)@ == (*r_high)@
            },
            (
                Expr::Case { expr: l_base, when_then_expr: l, else_expr: l_else },
                Expr::Case { expr: r_base, when_then_expr: r, else_expr: r_else },
            ) => {
                &&& l_base is Some <==> r_base is Some
                &&& l_base is Some ==> (*l_base->0)@ == (*r_base->0)@
                &&& l@.len() == r@.len()
                &&& forall|i: int|
                    0 <= i < l@.len() ==> (*(#[trigger] l@[i]).0)@ == (*r@[i].0)@ && (*l@[i].1)@
                        == (*r@[i].1)@
                &&& l_else is Some <==> r_else is Some
                &&& l_else is Some ==> (*l_else->0)@ == (*r_else->0)@
            },
            (
                Expr::Cast { expr: l, data_type: l_type },
                Expr::Cast { expr: r, data_type: r_type },
            ) => (*l)@ == (*r)@ && l_type == r_type,
            (
                Expr::TryCast { expr: l, data_type: l_type },
                Expr::TryCast { expr: r, data_type: r_type },
            ) => (*l)@ == (*r)@ && l_type == r_type,
            (
                Expr::Sort { expr: l, asc: l_asc, nulls_first: l_first },
                Expr::Sort { expr: r, asc: r_asc, nulls_first: r_first },
            ) => (*l)@ == (*r)@ && l_asc == r_asc && l_first == r_first,
            (
                Expr::ScalarFunction { fun: l_fun, args: l },
                Expr::ScalarFunction { fun: r_fun, args: r },
            ) => {
                &&& l_fun.name@ == r_fun.name@
                &&& l@.len() == r@.len()
                &&& forall|i: int| 0 <= i < l@.len() ==> (#[trigger] l@[i])@ == r@[i]@
            },
            (Expr::ScalarUDF { fun: l_fun, args: l }, Expr::ScalarUDF { fun: r_fun, args: r }) => {
                &&& (*l_fun).name@ == (*r_fun).name@
                &&& l@.len() == r@.len()
                &&& forall|i: int| 0 <= i < l@.len() ==> (#[trigger] l@[i])@ == r@[i]@
            },
            (
                Expr::AggregateFunction { fun: l_fun, args: l, distinct: l_distinct },
                Expr::AggregateFunction { fun: r_fun, args: r, distinct: r_distinct },
            ) => {
                &&& l_fun == r_fun
                &&& l_distinct == r_distinct
                &&& l@.len() == r@.len()
                &&& forall|i: int| 0 <= i < l@.len() ==> (#[trigger] l@[i])@ == r@[i]@
            },
            (
                Expr::WindowFunction {
                    fun: l_fun,
                    args: l,
                    partition_by: l_by,
                    order_by: l_order,
                    window_frame: l_frame,
                },
                Expr::WindowFunction {
                    fun: r_fun,
                    args: r,
                    partition_by: r_by,
                    order_by: r_order,
                    window_frame: r_frame,
                },
            ) => {
                &&& l_fun == r_fun
                &&& l_frame == r_frame
                &&& l@.len() == r@.len()
                &&& forall|i: int| 0 <= i < l@.len() ==> (#[trigger] l@[i])@ == r@[i]@
                &&& l_by@.len() == r_by@.len()
                &&& forall|i: int| 0 <= i < l_by@.len() ==> (#[trigger] l_by@[i])@ == r_by@[i]@
                &&& l_order@.len() == r_order@.len()
                &&& forall|i: int|
                    0 <= i < l_order@.len() ==> (#[trigger] l_order@[i])@ == r_order@[i]@
            },
            (
                Expr::AggregateUDF { fun: l_fun, args: l },
                Expr::AggregateUDF { fun: r_fun, args: r },
            ) => {
                &&& (*l_fun).name@ == (*r_fun).name@
                &&& l@.len() == r@.len()
                &&& forall|i: int| 0 <= i < l@.len() ==> (#[trigger] l@[i])@ == r@[i]@
            },
            (
                Expr::InList { expr: l_sought, list: l, negated: l_negated },
                Expr::InList { expr: r_sought, list: r, negated: r_negated },
            ) => {
                &&& (*l_sought)@ == (*r_sought)@
                &&& l_negated == r_negated
                &&& l@.len() == r@.len()
                &&& forall|i: int| 0 <= i < l@.len() ==> (#[trigger] l@[i])@ == r@[i]@
            },
            (Expr::Wildcard, Expr::Wildcard) => true,
            _ => false,
        },
{
    match (left, right) {
        (Expr::ScalarVariable(l), Expr::ScalarVariable(r)) => {
            assert(strings_model(l@).len() == l@.len());
            assert(strings_model(r@).len() == r@.len());
            assert forall|i: int| 0 <= i < l@.len() implies (#[trigger] l@[i])@ == r@[i]@ by {
                assert(strings_model(l@)[i] == strings_model(r@)[i]);
            }
        },
        (
            Expr::Case { expr: l_base, when_then_expr: l, else_expr: l_else },
            Expr::Case { expr: r_base, when_then_expr: r, else_expr: r_else },
        ) => {
            assert(optional_model(l_base) == optional_model(r_base));
            assert(optional_model(l_else) == optional_model(r_else));
            assert(pairs_model(l@).len() == l@.len());
            assert(pairs_model(r@).len() == r@.len());
            assert forall|i: int| 0 <= i < l@.len() implies (*(#[trigger] l@[i]).0)@ == (
            *r@[i].0)@ && (*l@[i].1)@ == (*r@[i].1)@ by {
                assert(pairs_model(l@)[i] == pairs_model(r@)[i]);
            }
        },
        (Expr::ScalarFunction { args: l, .. }, Expr::ScalarFunction { args: r, .. })
        | (Expr::ScalarUDF { args: l, .. }, Expr::ScalarUDF { args: r, .. })
        | (Expr::AggregateUDF { args: l, .. }, Expr::AggregateUDF { args: r, .. }) => {
            lemma_same_members(l@, r@);
        },
        (Expr::AggregateFunction { args: l, .. }, Expr::AggregateFunction { args: r, .. }) => {
            lemma_same_members(l@, r@);
        },
        (Expr::InList { list: l, .. }, Expr::InList { list: r, .. }) => {
            lemma_same_members(l@, r@);
        },
        (
            Expr::WindowFunction { args: l, partition_by: l_by, order_by: l_order, .. },
            Expr::WindowFunction { args: r, partition_by: r_by, order_by: r_order, .. },
        ) => {
            lemma_same_members(l@, r@);
            lemma_same_members(l_by@, r_by@);
            lemma_same_members(l_order@, r_order@);
        },
        _ => {},
    }
}

} // verus!
