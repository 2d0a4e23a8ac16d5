//! What holds of the columns that expressions refer to.
use vstd::prelude::*;

use crate::columns::{
    columns, columns_model, expr_to_columns, exprlist_to_columns, list_columns, optional_columns,
    own_columns, pairs_columns, ColumnSet,
};
use crate::error::{DataFusionError, ErrorModel};
use crate::expr::{
    exprs_model, lemma_exprs_model_index, lemma_exprs_model_len, literal, Column, ColumnModel,
    Expr, ExprModel,
};
use crate::rewrite::{
    flattened, is_case_marker, last_behind, lemma_case_markers_differ, marked, neighbours,
    rewritable, rewritten, sub_expressions, unmarked, within, CASE_ELSE_MARKER, CASE_EXPR_MARKER,
    WINDOW_PARTITION_MARKER, WINDOW_SORT_MARKER,
};
use crate::rewrite_laws::{law_rebuilt_has_given_children, lemma_last_behind_none, takes_list};
use crate::text::joined;

verus! {

/// A list refers to a column exactly if one of its expressions does.
pub proof fn law_list_refers_through_members(exprs: Seq<ExprModel>, column: ColumnModel)
    ensures
        list_columns(exprs).contains(column) <==> exists|i: int|
            0 <= i < exprs.len() && columns(#[trigger] exprs[i]).contains(column),
    decreases exprs.len(),
{
    if exprs.len() > 0 {
        let front = exprs.drop_last();
        law_list_refers_through_members(front, column);
        if list_columns(exprs).contains(column) {
            if columns(exprs.last()).contains(column) {
                assert(columns(exprs[exprs.len() - 1]).contains(column));
            } else {
                let i = choose|i: int|
                    0 <= i < front.len() && columns(#[trigger] front[i]).contains(column);
                assert(columns(exprs[i]).contains(column));
            }
        }
        if exists|i: int| 0 <= i < exprs.len() && columns(#[trigger] exprs[i]).contains(column) {
            let i = choose|i: int|
                0 <= i < exprs.len() && columns(#[trigger] exprs[i]).contains(column);
            if i < front.len() {
                assert(columns(front[i]).contains(column));
            }
        }
    }
}

/// Two lists one behind the other refer to the columns of both, whichever comes first.
pub proof fn law_lists_add_up(left: Seq<ExprModel>, right: Seq<ExprModel>)
    ensures
        list_columns(left + right) == list_columns(left).union(list_columns(right)),
        list_columns(left + right) == list_columns(right + left),
{
    lemma_list_columns_add(left, right);
    lemma_list_columns_add(right, left);
    assert(list_columns(left).union(list_columns(right)) =~= list_columns(right).union(
        list_columns(left),
    ));
}

proof fn lemma_list_columns_add(left: Seq<ExprModel>, right: Seq<ExprModel>)
    ensures
        list_columns(left + right) == list_columns(left).union(list_columns(right)),
    decreases right.len(),
{
    if right.len() == 0 {
        assert(left + right =~= left);
        assert(list_columns(left).union(list_columns(right)) =~= list_columns(left));
    } else {
        assert((left + right).drop_last() =~= left + right.drop_last());
        lemma_list_columns_add(left, right.drop_last());
        assert(list_columns(left + right) =~= list_columns(left).union(list_columns(right)));
    }
}

proof fn lemma_list_columns_one(expr: ExprModel)
    ensures
        list_columns(seq![expr]) == columns(expr),
{
    let list = seq![expr];
    assert(list.drop_last() =~= Seq::<ExprModel>::empty());
    assert(list_columns(list.drop_last()) =~= Set::<ColumnModel>::empty());
    assert(list_columns(list) =~= columns(expr));
}

proof fn lemma_list_columns_two(first: ExprModel, second: ExprModel)
    ensures
        list_columns(seq![first, second]) == columns(first).union(columns(second)),
{
    assert(seq![first, second] =~= seq![first] + seq![second]);
    lemma_list_columns_add(seq![first], seq![second]);
    lemma_list_columns_one(first);
    lemma_list_columns_one(second);
}

proof fn lemma_literal_has_no_columns(text: Seq<char>)
    ensures
        list_columns(seq![literal(text)]) == Set::<ColumnModel>::empty(),
{
    lemma_list_columns_one(literal(text));
}

proof fn lemma_marked_columns(marker: Seq<char>, expr: Option<Box<ExprModel>>)
    ensures
        list_columns(marked(marker, expr)) == optional_columns(expr),
{
    match expr {
        Some(inner) => {
            lemma_list_columns_two(literal(marker), *inner);
            assert(columns(literal(marker)).union(columns(*inner)) =~= columns(*inner));
        },
        None => {},
    }
}

proof fn lemma_flattened_columns(pairs: Seq<(ExprModel, ExprModel)>)
    ensures
        list_columns(flattened(pairs)) == pairs_columns(pairs),
    decreases pairs.len(),
{
    if pairs.len() == 0 {
        assert(flattened(pairs) =~= Seq::<ExprModel>::empty());
    } else {
        let front = pairs.drop_last();
        let pair = pairs.last();
        lemma_flattened_columns(front);
        assert(flattened(pairs) =~= flattened(front) + seq![pair.0, pair.1]);
        lemma_list_columns_add(flattened(front), seq![pair.0, pair.1]);
        lemma_list_columns_two(pair.0, pair.1);
        assert(list_columns(flattened(pairs)) =~= pairs_columns(pairs));
    }
}

/// An expression refers to the columns that its children refer to, and to the one that it
/// stands for itself.
pub proof fn law_columns_come_from_children(expr: ExprModel, children: Seq<ExprModel>)
    requires
        sub_expressions(expr) == Ok::<Seq<ExprModel>, ErrorModel>(children),
    ensures
        columns(expr) == own_columns(expr).union(list_columns(children)),
{
    match expr {
        ExprModel::Column(_) | ExprModel::Literal(_) | ExprModel::ScalarVariable(_) => {},
        ExprModel::Alias(inner, _)
        | ExprModel::Not(inner)
        | ExprModel::Negative(inner)
        | ExprModel::IsNull(inner)
        | ExprModel::IsNotNull(inner) => {
            lemma_list_columns_one(*inner);
        },
        ExprModel::Cast { expr: inner, .. } => {
            lemma_list_columns_one(*inner);
        },
        ExprModel::TryCast { expr: inner, .. } => {
            lemma_list_columns_one(*inner);
        },
        ExprModel::Sort { expr: inner, .. } => {
            lemma_list_columns_one(*inner);
        },
        ExprModel::BinaryExpr { left, right, .. } => {
            lemma_list_columns_two(*left, *right);
        },
        ExprModel::Between { expr: inner, low, high, .. } => {
            assert(children =~= seq![*inner, *low] + seq![*high]);
            lemma_list_columns_add(seq![*inner, *low], seq![*high]);
            lemma_list_columns_two(*inner, *low);
            lemma_list_columns_one(*high);
        },
        ExprModel::InList { expr: inner, list, .. } => {
            lemma_list_columns_add(seq![*inner], list);
            lemma_list_columns_one(*inner);
        },
        ExprModel::ScalarFunction { .. }
        | ExprModel::ScalarUDF { .. }
        | ExprModel::AggregateFunction { .. }
        | ExprModel::AggregateUDF { .. } => {},
        ExprModel::WindowFunction { args, partition_by, order_by, .. } => {
            let p = seq![literal(WINDOW_PARTITION_MARKER@)];
            let s = seq![literal(WINDOW_SORT_MARKER@)];
            lemma_list_columns_add(args + p + partition_by + s, order_by);
            lemma_list_columns_add(args + p + partition_by, s);
            lemma_list_columns_add(args + p, partition_by);
            lemma_list_columns_add(args, p);
            lemma_literal_has_no_columns(WINDOW_PARTITION_MARKER@);
            lemma_literal_has_no_columns(WINDOW_SORT_MARKER@);
        },
        ExprModel::Case { expr: base, when_then_expr, else_expr } => {
            let first = marked(CASE_EXPR_MARKER@, base);
            let middle = flattened(when_then_expr);
            let last = marked(CASE_ELSE_MARKER@, else_expr);
            lemma_list_columns_add(first + middle, last);
            lemma_list_columns_add(first, middle);
            lemma_marked_columns(CASE_EXPR_MARKER@, base);
            lemma_marked_columns(CASE_ELSE_MARKER@, else_expr);
            lemma_flattened_columns(when_then_expr);
        },
        ExprModel::Wildcard => {},
    }
    assert(columns(expr) =~= own_columns(expr).union(list_columns(children)));
}

/// Collecting the columns of an expression a second time adds nothing.
pub proof fn law_collecting_again_adds_nothing(collected: Set<ColumnModel>, expr: ExprModel)
    ensures
        collected.union(columns(expr)).union(columns(expr)) == collected.union(columns(expr)),
{
    assert(collected.union(columns(expr)).union(columns(expr)) =~= collected.union(columns(expr)));
}

/// Whether every expression of a list finds its place when an expression is rebuilt from it. It
/// does where the list becomes the list of children. A `BETWEEN` has places for three, and in the
/// list of a `CASE` the second of two equal markers pushes out what stood behind the first.
pub open spec fn uses_list(expr: ExprModel, expressions: Seq<ExprModel>) -> bool {
    match expr {
        ExprModel::Between { .. } => expressions.len() == 3,
        ExprModel::Case { .. } => no_marker_twice(neighbours(expressions)),
        _ => takes_list(expr, expressions),
    }
}

/// Whether no two of the pairs start with the same marker of a `CASE`.
pub open spec fn no_marker_twice(pairs: Seq<(ExprModel, ExprModel)>) -> bool {
    forall|i: int, j: int|
        0 <= i < j < pairs.len() && (#[trigger] pairs[i]).0 == (#[trigger] pairs[j]).0
            ==> !is_case_marker(pairs[i].0)
}

/// What a `CASE` reads from pairs without a double marker refers to the columns of all pairs.
proof fn lemma_case_columns(pairs: Seq<(ExprModel, ExprModel)>)
    requires
        no_marker_twice(pairs),
    ensures
        optional_columns(last_behind(pairs, literal(CASE_EXPR_MARKER@))).union(
            pairs_columns(unmarked(pairs)),
        ).union(optional_columns(last_behind(pairs, literal(CASE_ELSE_MARKER@)))) == pairs_columns(
            pairs,
        ),
    decreases pairs.len(),
{
    let base_key = literal(CASE_EXPR_MARKER@);
    let else_key = literal(CASE_ELSE_MARKER@);
    lemma_case_markers_differ();
    reveal_with_fuel(Seq::filter, 2);
    if pairs.len() == 0 {
        assert(optional_columns(last_behind(pairs, base_key)).union(
            pairs_columns(unmarked(pairs)),
        ).union(optional_columns(last_behind(pairs, else_key))) =~= pairs_columns(pairs));
    } else {
        let front = pairs.drop_last();
        let last = pairs.last();
        assert(no_marker_twice(front)) by {
            assert forall|i: int, j: int|
                0 <= i < j < front.len() && (#[trigger] front[i]).0 == (#[trigger] front[j]).0
                    implies !is_case_marker(front[i].0) by {
                assert(front[i] == pairs[i] && front[j] == pairs[j]);
            }
        }
        lemma_case_columns(front);
        assert forall|i: int| 0 <= i < front.len() && is_case_marker(last.0) implies (
        #[trigger] front[i]).0 != last.0 by {
            assert(front[i] == pairs[i] && last == pairs[pairs.len() - 1]);
        }
        if is_case_marker(last.0) {
            lemma_last_behind_none(front, last.0);
            assert(unmarked(pairs) == unmarked(front));
            assert(columns(last.0) =~= Set::<ColumnModel>::empty());
        } else {
            assert(unmarked(pairs) == unmarked(front).push(last));
            assert(unmarked(pairs).drop_last() =~= unmarked(front));
        }
        assert(optional_columns(last_behind(pairs, base_key)).union(
            pairs_columns(unmarked(pairs)),
        ).union(optional_columns(last_behind(pairs, else_key))) =~= pairs_columns(pairs));
    }
}

proof fn lemma_neighbours_columns(exprs: Seq<ExprModel>)
    requires
        exprs.len() % 2 == 0,
    ensures
        pairs_columns(neighbours(exprs)) == list_columns(exprs),
{
    lemma_flattened_columns(neighbours(exprs));
    assert(flattened(neighbours(exprs)) =~= exprs);
}

/// An expression that was rebuilt from a list refers to the columns of the list and to the one
/// that it stands for itself, where [`uses_list`] says that the whole list is used.
pub proof fn law_rebuilt_refers_to_given_columns(
    expr: ExprModel,
    expressions: Seq<ExprModel>,
    rebuilt: ExprModel,
)
    requires
        rewritable(expr, expressions),
        uses_list(expr, expressions),
        rewritten(expr, expressions) == Ok::<ExprModel, ErrorModel>(rebuilt),
    ensures
        columns(rebuilt) == own_columns(expr).union(list_columns(expressions)),
{
    if expr is Between {
        let (x, low, high) = (expressions[0], expressions[1], expressions[2]);
        assert(expressions =~= seq![x, low] + seq![high]);
        lemma_list_columns_add(seq![x, low], seq![high]);
        lemma_list_columns_two(x, low);
        lemma_list_columns_one(high);
        reveal_with_fuel(columns, 4);
        assert(columns(within(x, low, high)) =~= columns(x).union(columns(low)).union(
            columns(high),
        ));
        assert(columns(rebuilt) =~= own_columns(expr).union(list_columns(expressions)));
    } else if expr is Case {
        lemma_case_columns(neighbours(expressions));
        lemma_neighbours_columns(expressions);
        assert(columns(rebuilt) =~= own_columns(expr).union(list_columns(expressions)));
    } else {
        law_rebuilt_has_given_children(expr, expressions, rebuilt);
        law_columns_come_from_children(rebuilt, expressions);
        assert(own_columns(rebuilt) == own_columns(expr));
    }
}

/// Collecting from a column adds that very column, with its relation and its name. Collecting
/// from a variable adds the column whose name is the parts of the variable's name with dots
/// between them, and other expressions without children add nothing.
pub proof fn law_column_is_collected_as_it_is(
    expr: &Expr,
    accum: &mut ColumnSet,
    result: Result<(), DataFusionError>,
)
    requires
        call_ensures(expr_to_columns, (expr, accum), result),
    ensures
        result is Ok,
        *expr matches Expr::Column(column) ==> final(accum)@ == old(accum)@.insert(
            ColumnModel {
                relation: match column.relation {
                    Some(relation) => Some(relation@),
                    None => None,
                },
                name: column.name@,
            },
        ),
        *expr matches Expr::ScalarVariable(names) ==> final(accum)@ == old(accum)@.insert(
            ColumnModel {
                relation: None,
                name: joined(names@.map_values(|name: String| name@), "."@),
            },
        ),
        *expr is Literal || *expr is Wildcard ==> final(accum)@ == old(accum)@,
{
}

/// The expression that a path leads to, where each step names a child by its number.
pub open spec fn at_path(expr: ExprModel, path: Seq<int>) -> Option<ExprModel>
    decreases path.len(),
{
    if path.len() == 0 {
        Some(expr)
    } else {
        match sub_expressions(expr) {
            Ok(children) => if 0 <= path[0] < children.len() {
                at_path(children[path[0]], path.drop_first())
            } else {
                None
            },
            Err(_) => None,
        }
    }
}

/// Whether an expression is a reference to a column, or a variable whose dotted name is that of
/// the column.
pub open spec fn names_column(expr: ExprModel, column: ColumnModel) -> bool {
    ||| expr == ExprModel::Column(column)
    ||| expr matches ExprModel::ScalarVariable(names) && column == (ColumnModel {
        relation: None,
        name: joined(names, "."@),
    })
}

/// Whether a column is named somewhere inside an expression.
pub open spec fn occurs(expr: ExprModel, column: ColumnModel) -> bool {
    exists|path: Seq<int>|
        (#[trigger] at_path(expr, path)) matches Some(part) && names_column(part, column)
}

proof fn lemma_reached_column_is_collected(expr: ExprModel, path: Seq<int>, column: ColumnModel)
    requires
        at_path(expr, path) matches Some(part) && names_column(part, column),
    ensures
        columns(expr).contains(column),
    decreases path.len(),
{
    if path.len() > 0 {
        let children = sub_expressions(expr)->Ok_0;
        lemma_reached_column_is_collected(children[path[0]], path.drop_first(), column);
        law_list_refers_through_members(children, column);
        law_columns_come_from_children(expr, children);
    }
}

proof fn lemma_child_is_smaller(expr: ExprModel, children: Seq<ExprModel>, i: int)
    requires
        sub_expressions(expr) == Ok::<Seq<ExprModel>, ErrorModel>(children),
        0 <= i < children.len(),
        children[i] !is Literal,
    ensures
        decreases_to!(expr => children[i]),
{
    match expr {
        ExprModel::ScalarFunction { args, .. }
        | ExprModel::ScalarUDF { args, .. }
        | ExprModel::AggregateUDF { args, .. } => {
            assert(decreases_to!(expr => args[i]));
        },
        ExprModel::AggregateFunction { args, .. } => {
            assert(decreases_to!(expr => args[i]));
        },
        ExprModel::InList { list, .. } => {
            if i > 0 {
                assert(decreases_to!(expr => list[i - 1]));
            }
        },
        ExprModel::WindowFunction { args, partition_by, order_by, .. } => {
            let p = args.len() as int;
            let s = p + 1 + partition_by.len();
            if i < p {
                assert(children[i] == args[i]);
                assert(decreases_to!(expr => args[i]));
            } else if p < i < s {
                assert(children[i] == partition_by[i - p - 1]);
                assert(decreases_to!(expr => partition_by[i - p - 1]));
            } else if s < i {
                assert(children[i] == order_by[i - s - 1]);
                assert(decreases_to!(expr => order_by[i - s - 1]));
            }
        },
        ExprModel::Case { expr: base, when_then_expr, else_expr } => {
            let b: int = if base is Some {
                2
            } else {
                0
            };
            let e = b + 2 * when_then_expr.len();
            if i < b {
                assert(decreases_to!(expr => *base->0));
            } else if i < e {
                let k = (i - b) / 2;
                assert(children[i] == flattened(when_then_expr)[i - b]);
                assert(decreases_to!(expr => when_then_expr[k]));
                assert(decreases_to!(when_then_expr[k] => when_then_expr[k].0));
                assert(decreases_to!(when_then_expr[k] => when_then_expr[k].1));
            } else {
                assert(decreases_to!(expr => *else_expr->0));
            }
        },
        _ => {},
    }
}

proof fn lemma_collected_column_is_reached(expr: ExprModel, column: ColumnModel) -> (path: Seq<
    int,
>)
    requires
        columns(expr).contains(column),
    ensures
        at_path(expr, path) matches Some(part) && names_column(part, column),
    decreases expr,
{
    if own_columns(expr).contains(column) {
        Seq::empty()
    } else {
        let children = sub_expressions(expr)->Ok_0;
        law_columns_come_from_children(expr, children);
        law_list_refers_through_members(children, column);
        let i = choose|i: int|
            0 <= i < children.len() && columns(#[trigger] children[i]).contains(column);
        lemma_child_is_smaller(expr, children, i);
        let rest = lemma_collected_column_is_reached(children[i], column);
        let path = seq![i] + rest;
        assert(path.drop_first() =~= rest);
        path
    }
}

/// A column is collected from an expression exactly if it was collected before or is named, with
/// its relation, somewhere inside the expression.
pub proof fn law_collected_columns_are_those_that_occur(
    expr: &Expr,
    accum: &mut ColumnSet,
    result: Result<(), DataFusionError>,
    column: ColumnModel,
)
    requires
        call_ensures(expr_to_columns, (expr, accum), result),
    ensures
        final(accum)@.contains(column) <==> old(accum)@.contains(column) || occurs(expr@, column),
{
    lemma_collected_iff_occurs(expr@, column);
}

proof fn lemma_collected_iff_occurs(expr: ExprModel, column: ColumnModel)
    ensures
        columns(expr).contains(column) <==> occurs(expr, column),
{
    if columns(expr).contains(column) {
        let path = lemma_collected_column_is_reached(expr, column);
        assert(at_path(expr, path) is Some);
    }
    if occurs(expr, column) {
        let path = choose|path: Seq<int>|
            (#[trigger] at_path(expr, path)) matches Some(part) && names_column(part, column);
        lemma_reached_column_is_collected(expr, path, column);
    }
}

/// A column is collected from a list exactly if it was collected before or is named, with its
/// relation, somewhere inside a member of the list.
pub proof fn law_list_collects_what_occurs(
    exprs: &[Expr],
    accum: &mut ColumnSet,
    result: Result<(), DataFusionError>,
    column: ColumnModel,
)
    requires
        call_ensures(exprlist_to_columns, (exprs, accum), result),
    ensures
        result is Ok,
        final(accum)@.contains(column) <==> old(accum)@.contains(column) || exists|i: int|
            0 <= i < exprs@.len() && occurs((#[trigger] exprs@[i])@, column),
{
    broadcast use {lemma_exprs_model_len, lemma_exprs_model_index};

    let all = exprs_model(exprs@);
    law_list_refers_through_members(all, column);
    if list_columns(all).contains(column) {
        let i = choose|i: int| 0 <= i < all.len() && columns(#[trigger] all[i]).contains(column);
        lemma_collected_iff_occurs(exprs@[i]@, column);
        assert(occurs(exprs@[i]@, column));
    }
    if exists|i: int| 0 <= i < exprs@.len() && occurs((#[trigger] exprs@[i])@, column) {
        let i = choose|i: int| 0 <= i < exprs@.len() && occurs((#[trigger] exprs@[i])@, column);
        lemma_collected_iff_occurs(exprs@[i]@, column);
        assert(columns(all[i]).contains(column));
    }
}

/// A set hands out exactly the columns that it holds, each of them once.
pub proof fn law_set_hands_out_what_it_holds(
    set: &ColumnSet,
    members: &Vec<Column>,
    column: ColumnModel,
)
    requires
        call_ensures(ColumnSet::columns, (set,), members),
    ensures
        set@.contains(column) <==> exists|i: int|
            0 <= i < members@.len() && (#[trigger] members@[i])@ == column,
        forall|i: int, j: int|
            0 <= i < j < members@.len() ==> (#[trigger] members@[i])@ != (#[trigger] members@[j])@,
{
    let models = columns_model(members@);
    assert(models.len() == members@.len());
    assert forall|i: int| 0 <= i < models.len() implies models[i] == (#[trigger] members@[i])@ by {}
    if set@.contains(column) {
        assert(models.contains(column));
        let i = choose|i: int| 0 <= i < models.len() && models[i] == column;
        assert(members@[i]@ == column);
    }
    if exists|i: int| 0 <= i < members@.len() && (#[trigger] members@[i])@ == column {
        let i = choose|i: int| 0 <= i < members@.len() && (#[trigger] members@[i])@ == column;
        assert(models[i] == column);
        assert(models.contains(column));
    }
    assert forall|i: int, j: int| 0 <= i < j < members@.len() implies (#[trigger] members@[i])@ != (
    #[trigger] members@[j])@ by {
        assert(models[i] != models[j]);
    }
}

} // verus!
