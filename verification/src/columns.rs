//! Collecting the columns that expressions refer to.
use vstd::prelude::*;

use crate::error::DataFusionError;
use crate::expr::{
    exprs_model, lemma_exprs_model_index, lemma_exprs_model_len, optional_model, pairs_model,
    Column, ColumnModel, Expr, ExprModel,
};
use crate::text::{join, joined};

verus! {

/// The models of a sequence of columns, one for one.
pub open spec fn columns_model(columns: Seq<Column>) -> Seq<ColumnModel> {
    columns.map_values(|column: Column| column@)
}

/// A set of columns. They are kept in the order in which they came, none of them twice.
#[derive(Debug)]
pub struct ColumnSet {
    columns: Vec<Column>,
}

impl View for ColumnSet {
    type V = Set<ColumnModel>;

    closed spec fn view(&self) -> Set<ColumnModel> {
        columns_model(self.columns@).to_set()
    }
}

impl ColumnSet {
    #[verifier::type_invariant]
    spec fn no_column_twice(self) -> bool {
        columns_model(self.columns@).no_duplicates()
    }

    /// The set without columns.
    pub fn new() -> (set: ColumnSet)
        ensures
            set@ == Set::<ColumnModel>::empty(),
    {
        let columns: Vec<Column> = Vec::new();
        assert(columns_model(columns@).to_set() =~= Set::<ColumnModel>::empty());
        ColumnSet { columns }
    }

    /// How many columns the set holds.
    pub fn len(&self) -> (len: usize)
        ensures
            len == self@.len(),
    {
        proof {
            use_type_invariant(self);
            columns_model(self.columns@).unique_seq_to_set();
        }
        self.columns.len()
    }

    /// The columns of the set, none of them twice.
    pub fn columns(&self) -> (columns: &Vec<Column>)
        ensures
            columns_model(columns@).to_set() == self@,
            columns_model(columns@).no_duplicates(),
    {
        proof {
            use_type_invariant(self);
        }
        &self.columns
    }

    /// Whether the set holds a column.
    pub fn contains(&self, column: &Column) -> (found: bool)
        ensures
            found == self@.contains(column@),
    {
        let mut i: usize = 0;
        while i < self.columns.len()
            invariant
                i <= self.columns.len(),
                forall|j: int| 0 <= j < i ==> columns_model(self.columns@)[j] != column@,
            decreases self.columns.len() - i,
        {
            if self.columns[i].same(column) {
                assert(columns_model(self.columns@)[i as int] == column@);
                return true;
            }
            i += 1;
        }
        false
    }

    /// Adds a column and says whether it is new to the set.
    pub fn insert(&mut self, column: Column) -> (new: bool)
        ensures
            final(self)@ == old(self)@.insert(column@),
            new == !old(self)@.contains(column@),
    {
        if self.contains(&column) {
            assert(self@ =~= self@.insert(column@));
            return false;
        }
        proof {
            use_type_invariant(&*self);
        }
        let mut columns: Vec<Column> = Vec::new();
        std::mem::swap(&mut columns, &mut self.columns);
        let ghost before = columns_model(columns@);
        columns.push(column);
        assert(columns_model(columns@) =~= before.push(column@));
        assert(columns_model(columns@).to_set() =~= before.to_set().insert(column@)) by {
            assert forall|c: ColumnModel| before.to_set().insert(column@).contains(
                c,
            ) implies columns_model(columns@).contains(c) by {
                if c == column@ {
                    assert(columns_model(columns@).last() == c);
                } else {
                    let j = choose|j: int| 0 <= j < before.len() && before[j] == c;
                    assert(columns_model(columns@)[j] == c);
                }
            }
        }
        self.columns = columns;
        true
    }
}

/// The column that an expression refers to by itself, not through a child: a column reference,
/// or a variable, whose name is its parts with dots between them.
pub open spec fn own_columns(expr: ExprModel) -> Set<ColumnModel> {
    match expr {
        ExprModel::Column(column) => Set::empty().insert(column),
        ExprModel::ScalarVariable(names) => Set::empty().insert(
            ColumnModel { relation: None, name: joined(names, "."@) },
        ),
        _ => Set::empty(),
    }
}

/// The columns that an expression refers to, anywhere inside it.
pub open spec fn columns(expr: ExprModel) -> Set<ColumnModel>
    decreases expr,
{
    match expr {
        ExprModel::Column(_)
        | ExprModel::ScalarVariable(_)
        | ExprModel::Literal(_)
        | ExprModel::Wildcard => own_columns(expr),
        ExprModel::Alias(inner, _) => columns(*inner),
        ExprModel::Not(inner) => columns(*inner),
        ExprModel::IsNotNull(inner) => columns(*inner),
        ExprModel::IsNull(inner) => columns(*inner),
        ExprModel::Negative(inner) => columns(*inner),
        ExprModel::Cast { expr: inner, .. } => columns(*inner),
        ExprModel::TryCast { expr: inner, .. } => columns(*inner),
        ExprModel::Sort { expr: inner, .. } => columns(*inner),
        ExprModel::BinaryExpr { left, right, .. } => columns(*left).union(columns(*right)),
        ExprModel::Between { expr: inner, low, high, .. } => columns(*inner).union(
            columns(*low),
        ).union(columns(*high)),
        ExprModel::Case { expr: base, when_then_expr, else_expr } => optional_columns(base).union(
            pairs_columns(when_then_expr),
        ).union(optional_columns(else_expr)),
        ExprModel::ScalarFunction { args, .. } => list_columns(args),
        ExprModel::ScalarUDF { args, .. } => list_columns(args),
        ExprModel::AggregateFunction { args, .. } => list_columns(args),
        ExprModel::AggregateUDF { args, .. } => list_columns(args),
        ExprModel::WindowFunction { args, partition_by, order_by, .. } => list_columns(args).union(
            list_columns(partition_by),
        ).union(list_columns(order_by)),
        ExprModel::InList { expr: inner, list, .. } => columns(*inner).union(list_columns(list)),
    }
}

/// The columns that any expression of a list refers to.
pub open spec fn list_columns(exprs: Seq<ExprModel>) -> Set<ColumnModel>
    decreases exprs,
{
    if exprs.len() == 0 {
        Set::empty()
    } else {
        list_columns(exprs.drop_last()).union(columns(exprs.last()))
    }
}

/// The columns that any member of the pairs refers to.
pub open spec fn pairs_columns(pairs: Seq<(ExprModel, ExprModel)>) -> Set<ColumnModel>
    decreases pairs,
{
    if pairs.len() == 0 {
        Set::empty()
    } else {
        pairs_columns(pairs.drop_last()).union(columns(pairs.last().0)).union(
            columns(pairs.last().1),
        )
    }
}

/// The columns that an expression refers to, where there is one.
pub open spec fn optional_columns(expr: Option<Box<ExprModel>>) -> Set<ColumnModel>
    decreases expr,
{
    match expr {
        Some(inner) => columns(*inner),
        None => Set::empty(),
    }
}

/// Whether a walk over an expression goes on into its children.
enum Recursion<V> {
    /// Visit the children.
    Continue(V),
    /// Leave the children out.
    Stop(V),
}

/// Collects the columns of the expressions that it visits.
struct ColumnNameVisitor<'a> {
    accum: &'a mut ColumnSet,
}

impl<'a> ColumnNameVisitor<'a> {
    /// The columns that have been collected so far.
    spec fn collected(self) -> Set<ColumnModel> {
        (*self.accum)@
    }

    /// Adds the column that `expr` itself refers to, and asks for its children.
    fn pre_visit(self, expr: &Expr) -> (result: Result<Recursion<Self>, DataFusionError>)
        ensures
            result matches Ok(Recursion::Continue(visitor)) && {
                &&& visitor.collected() == self.collected().union(own_columns(expr@))
                &&& *final(visitor.accum) == *final(self.accum)
            },
    {
        match expr {
            Expr::Column(column) => {
                self.accum.insert(column.clone());
            },
            Expr::ScalarVariable(names) => {
                self.accum.insert(Column::from_name(join(names, ".")));
            },
            Expr::Alias(_, _) => {},
            Expr::Literal(_) => {},
            Expr::BinaryExpr { .. } => {},
            Expr::Not(_) => {},
            Expr::IsNotNull(_) => {},
            Expr::IsNull(_) => {},
            Expr::Negative(_) => {},
            Expr::Between { .. } => {},
            Expr::Case { .. } => {},
            Expr::Cast { .. } => {},
            Expr::TryCast { .. } => {},
            Expr::Sort { .. } => {},
            Expr::ScalarFunction { .. } => {},
            Expr::ScalarUDF { .. } => {},
            Expr::WindowFunction { .. } => {},
            Expr::AggregateFunction { .. } => {},
            Expr::AggregateUDF { .. } => {},
            Expr::InList { .. } => {},
            Expr::Wildcard => {},
        }
        Ok(Recursion::Continue(self))
    }
}

impl Expr {
    /// Visits the expression, then its children from left to right.
    fn accept<'a>(&self, visitor: ColumnNameVisitor<'a>) -> (result: Result<
        ColumnNameVisitor<'a>,
        DataFusionError,
    >)
        ensures
            result matches Ok(after) && {
                &&& after.collected() == visitor.collected().union(columns(self@))
                &&& *final(after.accum) == *final(visitor.accum)
            },
        decreases self,
    {
        let visitor = match visitor.pre_visit(self) {
            Ok(Recursion::Continue(visitor)) => visitor,
            Ok(Recursion::Stop(visitor)) => return Ok(visitor),
            Err(error) => return Err(error),
        };
        match self {
            Expr::Alias(expr, _) => expr.accept(visitor),
            Expr::Column(_) => Ok(visitor),
            Expr::ScalarVariable(_) => Ok(visitor),
            Expr::Literal(_) => Ok(visitor),
            Expr::BinaryExpr { left, right, .. } => {
                let visitor = left.accept(visitor)?;
                right.accept(visitor)
            },
            Expr::Not(expr) => expr.accept(visitor),
            Expr::IsNotNull(expr) => expr.accept(visitor),
            Expr::IsNull(expr) => expr.accept(visitor),
            Expr::Negative(expr) => expr.accept(visitor),
            Expr::Between { expr, low, high, .. } => {
                let visitor = expr.accept(visitor)?;
                let visitor = low.accept(visitor)?;
                high.accept(visitor)
            },
            Expr::Case { expr, when_then_expr, else_expr } => {
                let visitor = accept_optional(expr, visitor)?;
                let visitor = accept_pairs(when_then_expr, visitor)?;
                accept_optional(else_expr, visitor)
            },
            Expr::Cast { expr, .. } => expr.accept(visitor),
            Expr::TryCast { expr, .. } => expr.accept(visitor),
            Expr::Sort { expr, .. } => expr.accept(visitor),
            Expr::ScalarFunction { args, .. } => accept_all(args.as_slice(), visitor),
            Expr::ScalarUDF { args, .. } => accept_all(args.as_slice(), visitor),
            Expr::WindowFunction { args, partition_by, order_by, .. } => {
                let visitor = accept_all(args.as_slice(), visitor)?;
                let visitor = accept_all(partition_by.as_slice(), visitor)?;
                accept_all(order_by.as_slice(), visitor)
            },
            Expr::AggregateFunction { args, .. } => accept_all(args.as_slice(), visitor),
            Expr::AggregateUDF { args, .. } => accept_all(args.as_slice(), visitor),
            Expr::InList { expr, list, .. } => {
                let visitor = expr.accept(visitor)?;
                accept_all(list.as_slice(), visitor)
            },
            Expr::Wildcard => Ok(visitor),
        }
    }
}

fn accept_all<'a>(exprs: &[Expr], visitor: ColumnNameVisitor<'a>) -> (result: Result<
    ColumnNameVisitor<'a>,
    DataFusionError,
>)
    ensures
        result matches Ok(after) && {
            &&& after.collected() == visitor.collected().union(list_columns(exprs_model(exprs@)))
            &&& *final(after.accum) == *final(visitor.accum)
        },
    decreases exprs@,
{
    broadcast use {lemma_exprs_model_len, lemma_exprs_model_index};

    let ghost start = visitor;
    let ghost all = exprs_model(exprs@);
    let mut visitor = visitor;
    let mut i: usize = 0;
    while i < exprs.len()
        invariant
            i <= exprs.len(),
            all == exprs_model(exprs@),
            visitor.collected() == start.collected().union(list_columns(all.take(i as int))),
            *final(visitor.accum) == *final(start.accum),
        decreases exprs.len() - i,
    {
        visitor = exprs[i].accept(visitor)?;
        assert(all.take(i + 1).drop_last() =~= all.take(i as int));
        i += 1;
    }
    assert(all.take(i as int) =~= all);
    Ok(visitor)
}

fn accept_pairs<'a>(
    pairs: &Vec<(Box<Expr>, Box<Expr>)>,
    visitor: ColumnNameVisitor<'a>,
) -> (result: Result<ColumnNameVisitor<'a>, DataFusionError>)
    ensures
        result matches Ok(after) && {
            &&& after.collected() == visitor.collected().union(pairs_columns(pairs_model(pairs@)))
            &&& *final(after.accum) == *final(visitor.accum)
        },
    decreases pairs,
{
    let ghost start = visitor;
    let ghost all = pairs_model(pairs@);
    let mut visitor = visitor;
    let mut i: usize = 0;
    while i < pairs.len()
        invariant
            i <= pairs.len(),
            all == pairs_model(pairs@),
            visitor.collected() == start.collected().union(pairs_columns(all.take(i as int))),
            *final(visitor.accum) == *final(start.accum),
        decreases pairs.len() - i,
    {
        visitor = pairs[i].0.accept(visitor)?;
        visitor = pairs[i].1.accept(visitor)?;
        assert(all.take(i + 1).drop_last() =~= all.take(i as int));
        i += 1;
    }
    assert(all.take(i as int) =~= all);
    Ok(visitor)
}

fn accept_optional<'a>(expr: &Option<Box<Expr>>, visitor: ColumnNameVisitor<'a>) -> (result: Result<
    ColumnNameVisitor<'a>,
    DataFusionError,
>)
    ensures
        result matches Ok(after) && {
            &&& after.collected() == visitor.collected().union(
                optional_columns(optional_model(*expr)),
            )
            &&& *final(after.accum) == *final(visitor.accum)
        },
    decreases expr,
{
    match expr {
        Some(inner) => inner.accept(visitor),
        None => Ok(visitor),
    }
}

/// Adds to `accum` the columns that an expression refers to.
pub fn expr_to_columns(expr: &Expr, accum: &mut ColumnSet) -> (result: Result<(), DataFusionError>)
    ensures
        result is Ok,
        final(accum)@ == old(accum)@.union(columns(expr@)),
{
    expr.accept(ColumnNameVisitor { accum })?;
    Ok(())
}

/// Adds to `accum` the columns that any expression of a list refers to.
pub fn exprlist_to_columns(expr: &[Expr], accum: &mut ColumnSet) -> (result: Result<
    (),
    DataFusionError,
>)
    ensures
        result is Ok,
        final(accum)@ == old(accum)@.union(list_columns(exprs_model(expr@))),
{
    broadcast use {lemma_exprs_model_len, lemma_exprs_model_index};

    let ghost all = exprs_model(expr@);
    let mut i: usize = 0;
    while i < expr.len()
        invariant
            i <= expr.len(),
            all == exprs_model(expr@),
            accum@ == old(accum)@.union(list_columns(all.take(i as int))),
        decreases expr.len() - i,
    {
        expr_to_columns(&expr[i], accum)?;
        assert(all.take(i + 1).drop_last() =~= all.take(i as int));
        i += 1;
    }
    assert(all.take(i as int) =~= all);
    Ok(())
}

} // verus!
