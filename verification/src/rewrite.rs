//! Taking an expression apart into its children, and rebuilding it around new children.
use std::sync::Arc;
use vstd::prelude::*;

use crate::error::{outcome, DataFusionError, ErrorModel};
use crate::expr::{
    clone_exprs, clone_range, expr_model, exprs_model, group_exprs_model, lemma_exprs_model_index,
    lemma_exprs_model_len, lemma_exprs_model_push, lit, literal, optional_model, pairs_model, Expr,
    ExprModel, Operator, WindowFrame, WindowFunction,
};
use crate::scalar::{clone_data_type, ScalarValue};

verus! {

/// Stands before the base expression of a `CASE` in its list of children.
pub const CASE_EXPR_MARKER: &'static str = "__DATAFUSION_CASE_EXPR__";

/// Stands before the `ELSE` expression of a `CASE` in its list of children.
pub const CASE_ELSE_MARKER: &'static str = "__DATAFUSION_CASE_ELSE__";

/// Stands between the arguments and the partitioning of a window function in its list of
/// children.
pub const WINDOW_PARTITION_MARKER: &'static str = "__DATAFUSION_WINDOW_PARTITION__";

/// Stands between the partitioning and the ordering of a window function in its list of
/// children.
pub const WINDOW_SORT_MARKER: &'static str = "__DATAFUSION_WINDOW_SORT__";

/// The model of a list of expressions, or of the error in its place.
pub open spec fn exprs_outcome(result: Result<Vec<Expr>, DataFusionError>) -> Result<
    Seq<ExprModel>,
    ErrorModel,
> {
    match result {
        Ok(exprs) => Ok(exprs_model(exprs@)),
        Err(error) => Err(error@),
    }
}

/// The error for a wildcard, which a plan may not hold any more.
pub open spec fn wildcard_error() -> ErrorModel {
    ErrorModel::Internal("Wildcard expressions are not valid in a logical query plan"@)
}

/// The expression behind its marker, or nothing where there is no expression.
pub open spec fn marked(marker: Seq<char>, expr: Option<Box<ExprModel>>) -> Seq<ExprModel> {
    match expr {
        Some(inner) => seq![literal(marker), *inner],
        None => Seq::empty(),
    }
}

/// The members of the pairs in a row: both of the first pair, both of the second, and so on.
pub open spec fn flattened(pairs: Seq<(ExprModel, ExprModel)>) -> Seq<ExprModel> {
    Seq::new(
        2 * pairs.len(),
        |i: int|
            if i % 2 == 0 {
                pairs[i / 2].0
            } else {
                pairs[i / 2].1
            },
    )
}

/// The direct children of an expression in their order, with markers between the parts of a
/// `CASE` and of a window function.
pub open spec fn sub_expressions(expr: ExprModel) -> Result<Seq<ExprModel>, ErrorModel> {
    match expr {
        ExprModel::Column(_) | ExprModel::Literal(_) | ExprModel::ScalarVariable(_) => Ok(
            Seq::empty(),
        ),
        ExprModel::Alias(inner, _) => Ok(seq![*inner]),
        ExprModel::Not(inner) => Ok(seq![*inner]),
        ExprModel::Negative(inner) => Ok(seq![*inner]),
        ExprModel::IsNull(inner) => Ok(seq![*inner]),
        ExprModel::IsNotNull(inner) => Ok(seq![*inner]),
        ExprModel::Cast { expr: inner, .. } => Ok(seq![*inner]),
        ExprModel::TryCast { expr: inner, .. } => Ok(seq![*inner]),
        ExprModel::Sort { expr: inner, .. } => Ok(seq![*inner]),
        ExprModel::BinaryExpr { left, right, .. } => Ok(seq![*left, *right]),
        ExprModel::Between { expr: inner, low, high, .. } => Ok(seq![*inner, *low, *high]),
        ExprModel::InList { expr: inner, list, .. } => Ok(seq![*inner] + list),
        ExprModel::ScalarFunction { args, .. } => Ok(args),
        ExprModel::ScalarUDF { args, .. } => Ok(args),
        ExprModel::AggregateFunction { args, .. } => Ok(args),
        ExprModel::AggregateUDF { args, .. } => Ok(args),
        ExprModel::WindowFunction { args, partition_by, order_by, .. } => Ok(
            args + seq![literal(WINDOW_PARTITION_MARKER@)] + partition_by + seq![
                literal(WINDOW_SORT_MARKER@),
            ] + order_by,
        ),
        ExprModel::Case { expr: base, when_then_expr, else_expr } => Ok(
            marked(CASE_EXPR_MARKER@, base) + flattened(when_then_expr) + marked(
                CASE_ELSE_MARKER@,
                else_expr,
            ),
        ),
        ExprModel::Wildcard => Err(wildcard_error()),
    }
}

fn one_child(expr: &Box<Expr>) -> (children: Vec<Expr>)
    ensures
        exprs_model(children@) == seq![expr_model(**expr)],
{
    broadcast use group_exprs_model;

    let mut children: Vec<Expr> = Vec::new();
    children.push((**expr).clone());
    assert(exprs_model(children@) =~= seq![expr_model(**expr)]);
    children
}

fn push_marked(children: &mut Vec<Expr>, marker: &str, expr: &Option<Box<Expr>>)
    ensures
        exprs_model(final(children)@) == exprs_model(old(children)@) + marked(
            marker@,
            optional_model(*expr),
        ),
{
    broadcast use group_exprs_model;

    match expr {
        Some(inner) => {
            children.push(lit(marker));
            children.push((**inner).clone());
            assert(exprs_model(children@) =~= exprs_model(old(children)@) + marked(
                marker@,
                optional_model(*expr),
            ));
        },
        None => {
            assert(exprs_model(children@) =~= exprs_model(old(children)@) + marked(
                marker@,
                optional_model(*expr),
            ));
        },
    }
}

fn push_pairs(children: &mut Vec<Expr>, pairs: &Vec<(Box<Expr>, Box<Expr>)>)
    ensures
        exprs_model(final(children)@) == exprs_model(old(children)@) + flattened(
            pairs_model(pairs@),
        ),
{
    broadcast use group_exprs_model;

    let ghost before = exprs_model(children@);
    let ghost all = pairs_model(pairs@);
    assert(flattened(all.take(0)) =~= Seq::<ExprModel>::empty());
    assert(before + Seq::<ExprModel>::empty() =~= before);
    let mut i: usize = 0;
    while i < pairs.len()
        invariant
            i <= pairs.len(),
            all == pairs_model(pairs@),
            exprs_model(children@) == before + flattened(all.take(i as int)),
        decreases pairs.len() - i,
    {
        let first = (*pairs[i].0).clone();
        let second = (*pairs[i].1).clone();
        proof {
            lemma_exprs_model_push(children@, first);
            lemma_exprs_model_push(children@.push(first), second);
            assert(all[i as int] == (first@, second@));
            assert(before + flattened(all.take(i + 1)) =~= (before + flattened(
                all.take(i as int),
            )).push(first@).push(second@));
        }
        children.push(first);
        children.push(second);
        i += 1;
    }
    assert(all.take(i as int) =~= all);
}

fn append(children: &mut Vec<Expr>, more: &Vec<Expr>)
    ensures
        exprs_model(final(children)@) == exprs_model(old(children)@) + exprs_model(more@),
{
    broadcast use group_exprs_model;

    let mut copy = clone_exprs(more.as_slice());
    children.append(&mut copy);
}

/// Returns all direct children of `expr`. Of `(a + 1) + 1` these are `a + 1` and `1`.
pub fn expr_sub_expressions(expr: &Expr) -> (result: Result<Vec<Expr>, DataFusionError>)
    ensures
        exprs_outcome(result) == sub_expressions(expr@),
{
    broadcast use group_exprs_model;

    match expr {
        Expr::BinaryExpr { left, right, .. } => {
            let mut children: Vec<Expr> = Vec::new();
            children.push((**left).clone());
            children.push((**right).clone());
            assert(exprs_model(children@) =~= seq![expr_model(**left), expr_model(**right)]);
            Ok(children)
        },
        Expr::IsNull(inner) => Ok(one_child(inner)),
        Expr::IsNotNull(inner) => Ok(one_child(inner)),
        Expr::ScalarFunction { args, .. } => Ok(clone_exprs(args.as_slice())),
        Expr::ScalarUDF { args, .. } => Ok(clone_exprs(args.as_slice())),
        Expr::WindowFunction { args, partition_by, order_by, .. } => {
            let mut children: Vec<Expr> = clone_exprs(args.as_slice());
            children.push(lit(WINDOW_PARTITION_MARKER));
            append(&mut children, partition_by);
            children.push(lit(WINDOW_SORT_MARKER));
            append(&mut children, order_by);
            assert(exprs_model(children@) =~= exprs_model(args@) + seq![
                literal(WINDOW_PARTITION_MARKER@),
            ] + exprs_model(partition_by@) + seq![literal(WINDOW_SORT_MARKER@)] + exprs_model(
                order_by@,
            ));
            Ok(children)
        },
        Expr::AggregateFunction { args, .. } => Ok(clone_exprs(args.as_slice())),
        Expr::AggregateUDF { args, .. } => Ok(clone_exprs(args.as_slice())),
        Expr::Case { expr: base, when_then_expr, else_expr } => {
            let mut children: Vec<Expr> = Vec::new();
            push_marked(&mut children, CASE_EXPR_MARKER, base);
            push_pairs(&mut children, when_then_expr);
            push_marked(&mut children, CASE_ELSE_MARKER, else_expr);
            assert(exprs_model(children@) =~= marked(CASE_EXPR_MARKER@, optional_model(*base))
                + flattened(pairs_model(when_then_expr@)) + marked(
                CASE_ELSE_MARKER@,
                optional_model(*else_expr),
            ));
            Ok(children)
        },
        Expr::Cast { expr: inner, .. } => Ok(one_child(inner)),
        Expr::TryCast { expr: inner, .. } => Ok(one_child(inner)),
        Expr::Column(_) => Ok(Vec::new()),
        Expr::Alias(inner, _) => Ok(one_child(inner)),
        Expr::Literal(_) => Ok(Vec::new()),
        Expr::ScalarVariable(_) => Ok(Vec::new()),
        Expr::Not(inner) => Ok(one_child(inner)),
        Expr::Negative(inner) => Ok(one_child(inner)),
        Expr::Sort { expr: inner, .. } => Ok(one_child(inner)),
        Expr::Between { expr: inner, low, high, .. } => {
            let mut children: Vec<Expr> = Vec::new();
            children.push((**inner).clone());
            children.push((**low).clone());
            children.push((**high).clone());
            assert(exprs_model(children@) =~= seq![
                expr_model(**inner),
                expr_model(**low),
                expr_model(**high),
            ]);
            Ok(children)
        },
        Expr::InList { expr: inner, list, .. } => {
            let mut children: Vec<Expr> = one_child(inner);
            append(&mut children, list);
            Ok(children)
        },
        Expr::Wildcard => Err(
            DataFusionError::Internal(
                "Wildcard expressions are not valid in a logical query plan".to_owned(),
            ),
        ),
    }
}

/// The first position of an expression in a list.
pub open spec fn position(exprs: Seq<ExprModel>, expr: ExprModel) -> Option<int> {
    exprs.index_of_first(expr)
}

/// The list cut into pairs of neighbours, from the front.
pub open spec fn neighbours(exprs: Seq<ExprModel>) -> Seq<(ExprModel, ExprModel)> {
    Seq::new(exprs.len() / 2, |i: int| (exprs[2 * i], exprs[2 * i + 1]))
}

/// What the last of the pairs that start with `key` ends with.
pub open spec fn last_behind(pairs: Seq<(ExprModel, ExprModel)>, key: ExprModel) -> Option<
    Box<ExprModel>,
>
    decreases pairs.len(),
{
    if pairs.len() == 0 {
        None
    } else if pairs.last().0 == key {
        Some(Box::new(pairs.last().1))
    } else {
        last_behind(pairs.drop_last(), key)
    }
}

/// Whether an expression is one of the two markers of a `CASE`.
pub open spec fn is_case_marker(expr: ExprModel) -> bool {
    expr == literal(CASE_EXPR_MARKER@) || expr == literal(CASE_ELSE_MARKER@)
}

/// The pairs that do not start with a marker of a `CASE`.
pub open spec fn unmarked(pairs: Seq<(ExprModel, ExprModel)>) -> Seq<(ExprModel, ExprModel)> {
    pairs.filter(|pair: (ExprModel, ExprModel)| !is_case_marker(pair.0))
}

/// The bounds test that an expression between two others stands for.
pub open spec fn within(expr: ExprModel, low: ExprModel, high: ExprModel) -> ExprModel {
    ExprModel::BinaryExpr {
        left: Box::new(
            ExprModel::BinaryExpr {
                left: Box::new(expr),
                op: Operator::GtEq,
                right: Box::new(low),
            },
        ),
        op: Operator::And,
        right: Box::new(
            ExprModel::BinaryExpr {
                left: Box::new(expr),
                op: Operator::LtEq,
                right: Box::new(high),
            },
        ),
    }
}

/// Whether a list holds enough expressions to rebuild `expr` from: as many as it has operands,
/// and for a `CASE`, whose list is read in pairs, an even number. Where the number of children
/// is free, any list will do.
pub open spec fn rewritable(expr: ExprModel, expressions: Seq<ExprModel>) -> bool {
    match expr {
        ExprModel::BinaryExpr { .. } => expressions.len() >= 2,
        ExprModel::Between { .. } => expressions.len() >= 3,
        ExprModel::Case { .. } => expressions.len() % 2 == 0,
        ExprModel::Alias(..)
        | ExprModel::Not(_)
        | ExprModel::Negative(_)
        | ExprModel::IsNull(_)
        | ExprModel::IsNotNull(_)
        | ExprModel::Cast { .. }
        | ExprModel::TryCast { .. }
        | ExprModel::Sort { .. } => expressions.len() >= 1,
        _ => true,
    }
}

/// A window function with the parts of the list between the markers in place of its own, or
/// the error where the markers are missing or stand in the wrong order.
pub open spec fn rewritten_window(
    fun: WindowFunction,
    window_frame: Option<WindowFrame>,
    expressions: Seq<ExprModel>,
) -> Result<ExprModel, ErrorModel> {
    match (
        position(expressions, literal(WINDOW_PARTITION_MARKER@)),
        position(expressions, literal(WINDOW_SORT_MARKER@)),
    ) {
        (None, _) => Err(
            ErrorModel::Internal("Ill-formed window function expressions: unexpected marker"@),
        ),
        (Some(_), None) => Err(ErrorModel::Internal("Ill-formed window function expressions"@)),
        (Some(partition), Some(sort)) => if partition >= sort {
            Err(
                ErrorModel::Internal(
                    "Ill-formed window function expressions: partition index too large"@,
                ),
            )
        } else {
            Ok(
                ExprModel::WindowFunction {
                    fun,
                    args: expressions.subrange(0, partition),
                    partition_by: expressions.subrange(partition + 1, sort),
                    order_by: expressions.subrange(sort + 1, expressions.len() as int),
                    window_frame,
                },
            )
        },
    }
}

/// The expression with the expressions of the list in place of its children. Everything else
/// about it stays, but for a `BETWEEN`, which turns into the two comparisons that it stands for.
/// Of the list for an `IN`, the first expression is the one that is looked for; where the list is
/// empty, there is nothing to replace and the `IN` stays as it is.
pub open spec fn rewritten(expr: ExprModel, expressions: Seq<ExprModel>) -> Result<
    ExprModel,
    ErrorModel,
> {
    match expr {
        ExprModel::Column(_)
        | ExprModel::Literal(_)
        | ExprModel::ScalarVariable(_) => Ok(expr),
        ExprModel::InList { negated, .. } => if expressions.len() == 0 {
            Ok(expr)
        } else {
            Ok(
                ExprModel::InList {
                    expr: Box::new(expressions[0]),
                    list: expressions.subrange(1, expressions.len() as int),
                    negated,
                },
            )
        },
        ExprModel::Alias(_, alias) => Ok(ExprModel::Alias(Box::new(expressions[0]), alias)),
        ExprModel::Not(_) => Ok(ExprModel::Not(Box::new(expressions[0]))),
        ExprModel::Negative(_) => Ok(ExprModel::Negative(Box::new(expressions[0]))),
        ExprModel::IsNull(_) => Ok(ExprModel::IsNull(Box::new(expressions[0]))),
        ExprModel::IsNotNull(_) => Ok(ExprModel::IsNotNull(Box::new(expressions[0]))),
        ExprModel::Cast { data_type, .. } => Ok(
            ExprModel::Cast { expr: Box::new(expressions[0]), data_type },
        ),
        ExprModel::TryCast { data_type, .. } => Ok(
            ExprModel::TryCast { expr: Box::new(expressions[0]), data_type },
        ),
        ExprModel::Sort { asc, nulls_first, .. } => Ok(
            ExprModel::Sort { expr: Box::new(expressions[0]), asc, nulls_first },
        ),
        ExprModel::BinaryExpr { op, .. } => Ok(
            ExprModel::BinaryExpr {
                left: Box::new(expressions[0]),
                op,
                right: Box::new(expressions[1]),
            },
        ),
        ExprModel::Between { negated, .. } => {
            let test = within(expressions[0], expressions[1], expressions[2]);
            if negated {
                Ok(ExprModel::Not(Box::new(test)))
            } else {
                Ok(test)
            }
        },
        ExprModel::ScalarFunction { fun, .. } => Ok(
            ExprModel::ScalarFunction { fun, args: expressions },
        ),
        ExprModel::ScalarUDF { fun, .. } => Ok(ExprModel::ScalarUDF { fun, args: expressions }),
        ExprModel::AggregateFunction { fun, distinct, .. } => Ok(
            ExprModel::AggregateFunction { fun, args: expressions, distinct },
        ),
        ExprModel::AggregateUDF { fun, .. } => Ok(
            ExprModel::AggregateUDF { fun, args: expressions },
        ),
        ExprModel::WindowFunction { fun, window_frame, .. } => rewritten_window(
            fun,
            window_frame,
            expressions,
        ),
        ExprModel::Case { .. } => Ok(
            ExprModel::Case {
                expr: last_behind(neighbours(expressions), literal(CASE_EXPR_MARKER@)),
                when_then_expr: unmarked(neighbours(expressions)),
                else_expr: last_behind(neighbours(expressions), literal(CASE_ELSE_MARKER@)),
            },
        ),
        ExprModel::Wildcard => Err(wildcard_error()),
    }
}

/// No marker of a `CASE` is the other one.
pub(crate) proof fn lemma_case_markers_differ()
    ensures
        CASE_EXPR_MARKER@ != CASE_ELSE_MARKER@,
{
    reveal_strlit("__DATAFUSION_CASE_EXPR__");
    reveal_strlit("__DATAFUSION_CASE_ELSE__");
    assert(CASE_EXPR_MARKER@[19] == 'X');
    assert(CASE_ELSE_MARKER@[19] == 'L');
}

fn is_marker(expr: &Expr, marker: &str) -> (is: bool)
    ensures
        is == (expr@ == literal(marker@)),
{
    match expr {
        Expr::Literal(ScalarValue::Utf8(Some(text))) => *text == marker.to_owned(),
        _ => false,
    }
}

fn find_marker(expressions: &[Expr], marker: &str) -> (found: Option<usize>)
    ensures
        match found {
            Some(i) => position(exprs_model(expressions@), literal(marker@)) == Some(i as int),
            None => position(exprs_model(expressions@), literal(marker@)) is None,
        },
        found matches Some(i) ==> i < expressions@.len(),
{
    broadcast use group_exprs_model;

    let ghost all = exprs_model(expressions@);
    let ghost key = literal(marker@);
    proof {
        all.index_of_first_ensures(key);
    }
    let mut i: usize = 0;
    while i < expressions.len()
        invariant
            i <= expressions.len(),
            all == exprs_model(expressions@),
            key == literal(marker@),
            forall|j: int| 0 <= j < i ==> all[j] != key,
            match all.index_of_first(key) {
                Some(index) => {
                    &&& 0 <= index < all.len()
                    &&& all[index] == key
                    &&& forall|j: int| 0 <= j < index < all.len() ==> all[j] != key
                },
                None => !all.contains(key),
            },
        decreases expressions.len() - i,
    {
        if is_marker(&expressions[i], marker) {
            assert(all[i as int] == key);
            return Some(i);
        }
        i += 1;
    }
    None
}

fn rewrite_case(expressions: &[Expr]) -> (case: Expr)
    requires
        expressions@.len() % 2 == 0,
    ensures
        case@ == (ExprModel::Case {
            expr: last_behind(neighbours(exprs_model(expressions@)), literal(CASE_EXPR_MARKER@)),
            when_then_expr: unmarked(neighbours(exprs_model(expressions@))),
            else_expr: last_behind(
                neighbours(exprs_model(expressions@)),
                literal(CASE_ELSE_MARKER@),
            ),
        }),
{
    broadcast use group_exprs_model;

    let ghost pairs = neighbours(exprs_model(expressions@));
    let ghost base_key = literal(CASE_EXPR_MARKER@);
    let ghost else_key = literal(CASE_ELSE_MARKER@);
    let mut base_expr: Option<Box<Expr>> = None;
    let mut when_then: Vec<(Box<Expr>, Box<Expr>)> = Vec::new();
    let mut else_expr: Option<Box<Expr>> = None;
    let mut i: usize = 0;
    proof {
        lemma_case_markers_differ();
        assert(pairs.take(0).len() == 0);
        assert(pairs_model(when_then@) =~= unmarked(pairs.take(0)));
    }
    while i < expressions.len()
        invariant
            i <= expressions@.len(),
            i % 2 == 0,
            expressions@.len() % 2 == 0,
            base_key != else_key,
            base_key == literal(CASE_EXPR_MARKER@),
            else_key == literal(CASE_ELSE_MARKER@),
            pairs == neighbours(exprs_model(expressions@)),
            optional_model(base_expr) == last_behind(pairs.take((i / 2) as int), base_key),
            optional_model(else_expr) == last_behind(pairs.take((i / 2) as int), else_key),
            pairs_model(when_then@) == unmarked(pairs.take((i / 2) as int)),
        decreases expressions.len() - i,
    {
        let ghost k = (i / 2) as int;
        let ghost next = pairs.take(k + 1);
        assert(next.drop_last() =~= pairs.take(k));
        assert(next.last() == (expressions@[i as int]@, expressions@[i + 1]@));
        let value = Box::new(expressions[i + 1].clone());
        if is_marker(&expressions[i], CASE_EXPR_MARKER) {
            base_expr = Some(value);
        } else if is_marker(&expressions[i], CASE_ELSE_MARKER) {
            else_expr = Some(value);
        } else {
            let key = Box::new(expressions[i].clone());
            let ghost before = when_then@;
            when_then.push((key, value));
            assert(pairs_model(when_then@) =~= pairs_model(before).push(next.last()));
        }
        proof {
            reveal_with_fuel(Seq::filter, 2);
        }
        i += 2;
    }
    assert(pairs.take((i / 2) as int) =~= pairs);
    Expr::Case { expr: base_expr, when_then_expr: when_then, else_expr }
}

fn rewrite_between(negated: bool, expressions: &[Expr]) -> (rewritten: Expr)
    requires
        expressions@.len() >= 3,
    ensures
        rewritten@ == {
            let all = exprs_model(expressions@);
            let test = within(all[0], all[1], all[2]);
            if negated {
                ExprModel::Not(Box::new(test))
            } else {
                test
            }
        },
{
    let lower = Expr::BinaryExpr {
        left: Box::new(expressions[0].clone()),
        op: Operator::GtEq,
        right: Box::new(expressions[1].clone()),
    };
    let upper = Expr::BinaryExpr {
        left: Box::new(expressions[0].clone()),
        op: Operator::LtEq,
        right: Box::new(expressions[2].clone()),
    };
    proof {
        reveal_with_fuel(expr_model, 4);
    }
    let test = Expr::BinaryExpr {
        left: Box::new(lower),
        op: Operator::And,
        right: Box::new(upper),
    };
    if negated {
        Expr::Not(Box::new(test))
    } else {
        test
    }
}

fn rewrite_window(
    fun: WindowFunction,
    window_frame: Option<WindowFrame>,
    expressions: &[Expr],
) -> (result: Result<Expr, DataFusionError>)
    ensures
        outcome(result) == rewritten_window(fun, window_frame, exprs_model(expressions@)),
{
    let partition_index: usize = match find_marker(expressions, WINDOW_PARTITION_MARKER) {
        Some(index) => index,
        None => {
            return Err(
                DataFusionError::Internal(
                    "Ill-formed window function expressions: unexpected marker".to_owned(),
                ),
            );
        },
    };
    let sort_index: usize = match find_marker(expressions, WINDOW_SORT_MARKER) {
        Some(index) => index,
        None => {
            return Err(
                DataFusionError::Internal("Ill-formed window function expressions".to_owned()),
            );
        },
    };
    let len: usize = expressions.len();
    if partition_index >= sort_index {
        Err(
            DataFusionError::Internal(
                "Ill-formed window function expressions: partition index too large".to_owned(),
            ),
        )
    } else {
        Ok(
            Expr::WindowFunction {
                fun,
                args: clone_range(expressions, 0, partition_index),
                partition_by: clone_range(expressions, partition_index + 1, sort_index),
                order_by: clone_range(expressions, sort_index + 1, len),
                window_frame,
            },
        )
    }
}

/// Returns a new expression where the children of `expr` are replaced by the ones in
/// `expressions`. Together with [`expr_sub_expressions`] this rewrites expressions.
pub fn rewrite_expression(expr: &Expr, expressions: &[Expr]) -> (result: Result<
    Expr,
    DataFusionError,
>)
    requires
        rewritable(expr@, exprs_model(expressions@)),
    ensures
        outcome(result) == rewritten(expr@, exprs_model(expressions@)),
{
    broadcast use {lemma_exprs_model_len, lemma_exprs_model_index};

    match expr {
        Expr::BinaryExpr { op, .. } => Ok(
            Expr::BinaryExpr {
                left: Box::new(expressions[0].clone()),
                op: *op,
                right: Box::new(expressions[1].clone()),
            },
        ),
        Expr::IsNull(_) => Ok(Expr::IsNull(Box::new(expressions[0].clone()))),
        Expr::IsNotNull(_) => Ok(Expr::IsNotNull(Box::new(expressions[0].clone()))),
        Expr::ScalarFunction { fun, .. } => Ok(
            Expr::ScalarFunction { fun: fun.clone(), args: clone_exprs(expressions) },
        ),
        Expr::ScalarUDF { fun, .. } => Ok(
            Expr::ScalarUDF { fun: Arc::clone(fun), args: clone_exprs(expressions) },
        ),
        Expr::WindowFunction { fun, window_frame, .. } => rewrite_window(
            *fun,
            *window_frame,
            expressions,
        ),
        Expr::AggregateFunction { fun, distinct, .. } => Ok(
            Expr::AggregateFunction {
                fun: *fun,
                args: clone_exprs(expressions),
                distinct: *distinct,
            },
        ),
        Expr::AggregateUDF { fun, .. } => Ok(
            Expr::AggregateUDF { fun: Arc::clone(fun), args: clone_exprs(expressions) },
        ),
        Expr::Case { .. } => Ok(rewrite_case(expressions)),
        Expr::Cast { data_type, .. } => Ok(
            Expr::Cast {
                expr: Box::new(expressions[0].clone()),
                data_type: clone_data_type(data_type),
            },
        ),
        Expr::TryCast { data_type, .. } => Ok(
            Expr::TryCast {
                expr: Box::new(expressions[0].clone()),
                data_type: clone_data_type(data_type),
            },
        ),
        Expr::Alias(_, alias) => Ok(
            Expr::Alias(Box::new(expressions[0].clone()), alias.clone()),
        ),
        Expr::Not(_) => Ok(Expr::Not(Box::new(expressions[0].clone()))),
        Expr::Negative(_) => Ok(Expr::Negative(Box::new(expressions[0].clone()))),
        Expr::Column(_) => Ok(expr.clone()),
        Expr::Literal(_) => Ok(expr.clone()),
        Expr::ScalarVariable(_) => Ok(expr.clone()),
        Expr::Sort { asc, nulls_first, .. } => Ok(
            Expr::Sort {
                expr: Box::new(expressions[0].clone()),
                asc: *asc,
                nulls_first: *nulls_first,
            },
        ),
        Expr::Between { negated, .. } => Ok(rewrite_between(*negated, expressions)),
        Expr::InList { negated, .. } => if expressions.len() == 0 {
            Ok(expr.clone())
        } else {
            Ok(
                Expr::InList {
                    expr: Box::new(expressions[0].clone()),
                    list: clone_range(expressions, 1, expressions.len()),
                    negated: *negated,
                },
            )
        },
        Expr::Wildcard => Err(
            DataFusionError::Internal(
                "Wildcard expressions are not valid in a logical query plan".to_owned(),
            ),
        ),
    }
}

} // verus!
