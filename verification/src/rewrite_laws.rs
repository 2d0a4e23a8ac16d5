//! What holds between taking an expression apart and rebuilding it.
use vstd::prelude::*;

use crate::error::{DataFusionError, ErrorModel};
use crate::expr::{
    exprs_model, lemma_exprs_model_index, lemma_exprs_model_len, lemma_same_members,
    literal, optional_model, pairs_model, strings_model, Expr, ExprModel, Operator,
};
use crate::rewrite::{
    expr_sub_expressions, flattened, is_case_marker, last_behind, lemma_case_markers_differ, marked,
    neighbours, position, rewritable, rewrite_expression, rewritten, sub_expressions, unmarked,
    within, CASE_ELSE_MARKER, CASE_EXPR_MARKER, WINDOW_PARTITION_MARKER, WINDOW_SORT_MARKER,
};
use crate::scalar::ScalarModel;

verus! {

/// Whether an expression comes back unchanged when it is rebuilt from its own children. A
/// `BETWEEN` never does, since it turns into two comparisons. A `CASE` does unless one of its
/// conditions reads as a marker; a window function does unless a marker stands among the
/// arguments, or the second one among the partitioning expressions.
pub open spec fn comes_back(expr: ExprModel) -> bool {
    match expr {
        ExprModel::Between { .. } => false,
        ExprModel::Case { when_then_expr, .. } => forall|i: int|
            0 <= i < when_then_expr.len() ==> !is_case_marker((#[trigger] when_then_expr[i]).0),
        ExprModel::WindowFunction { args, partition_by, .. } => {
            &&& !args.contains(literal(WINDOW_PARTITION_MARKER@))
            &&& !args.contains(literal(WINDOW_SORT_MARKER@))
            &&& !partition_by.contains(literal(WINDOW_SORT_MARKER@))
        },
        _ => true,
    }
}

/// A list as long as the list of an expression's own children is one to rebuild it from.
pub proof fn law_right_length_suffices(
    expr: ExprModel,
    children: Seq<ExprModel>,
    expressions: Seq<ExprModel>,
)
    requires
        sub_expressions(expr) == Ok::<Seq<ExprModel>, ErrorModel>(children),
        expressions.len() == children.len(),
    ensures
        rewritable(expr, expressions),
{
}

proof fn lemma_neighbours_of_case(
    base: Option<Box<ExprModel>>,
    pairs: Seq<(ExprModel, ExprModel)>,
    else_expr: Option<Box<ExprModel>>,
)
    ensures
        ({
            let list = marked(CASE_EXPR_MARKER@, base) + flattened(pairs) + marked(
                CASE_ELSE_MARKER@,
                else_expr,
            );
            &&& list.len() % 2 == 0
            &&& neighbours(list) == marked_pair(CASE_EXPR_MARKER@, base) + pairs + marked_pair(
                CASE_ELSE_MARKER@,
                else_expr,
            )
        }),
{
    let list = marked(CASE_EXPR_MARKER@, base) + flattened(pairs) + marked(
        CASE_ELSE_MARKER@,
        else_expr,
    );
    let parts = marked_pair(CASE_EXPR_MARKER@, base) + pairs + marked_pair(
        CASE_ELSE_MARKER@,
        else_expr,
    );
    assert(neighbours(list) =~= parts);
}

/// A marker and what stands behind it as a pair, where there is anything.
spec fn marked_pair(marker: Seq<char>, expr: Option<Box<ExprModel>>) -> Seq<
    (ExprModel, ExprModel),
> {
    match expr {
        Some(inner) => seq![(literal(marker), *inner)],
        None => Seq::empty(),
    }
}

proof fn lemma_unmarked_add(left: Seq<(ExprModel, ExprModel)>, right: Seq<(ExprModel, ExprModel)>)
    ensures
        unmarked(left + right) == unmarked(left) + unmarked(right),
{
    Seq::filter_distributes_over_add(
        left,
        right,
        |pair: (ExprModel, ExprModel)| !is_case_marker(pair.0),
    );
}

proof fn lemma_unmarked_of_marked_pair(marker: Seq<char>, expr: Option<Box<ExprModel>>)
    requires
        is_case_marker(literal(marker)),
    ensures
        unmarked(marked_pair(marker, expr)) == Seq::<(ExprModel, ExprModel)>::empty(),
{
    reveal_with_fuel(Seq::filter, 2);
    assert(unmarked(marked_pair(marker, expr)) =~= Seq::<(ExprModel, ExprModel)>::empty());
}

/// Nothing is left out of pairs that do not start with a marker, and only of those.
proof fn lemma_unmarked_keeps_all(pairs: Seq<(ExprModel, ExprModel)>)
    ensures
        unmarked(pairs) == pairs <==> forall|i: int|
            0 <= i < pairs.len() ==> !is_case_marker((#[trigger] pairs[i]).0),
        unmarked(pairs).len() <= pairs.len(),
    decreases pairs.len(),
{
    reveal_with_fuel(Seq::filter, 2);
    if pairs.len() > 0 {
        let front = pairs.drop_last();
        lemma_unmarked_keeps_all(front);
        assert(front.push(pairs.last()) =~= pairs);
        if is_case_marker(pairs.last().0) {
            assert(unmarked(pairs) == unmarked(front));
            assert(unmarked(pairs).len() < pairs.len());
        } else {
            assert(unmarked(pairs) == unmarked(front).push(pairs.last()));
            if unmarked(pairs) == pairs {
                assert(unmarked(front) =~= unmarked(pairs).drop_last());
            }
            assert(forall|i: int| 0 <= i < front.len() ==> (#[trigger] front[i]) == pairs[i]);
        }
    } else {
        assert(unmarked(pairs) =~= pairs);
    }
}

proof fn lemma_last_behind_add(
    left: Seq<(ExprModel, ExprModel)>,
    right: Seq<(ExprModel, ExprModel)>,
    key: ExprModel,
)
    ensures
        last_behind(left + right, key) == (if last_behind(right, key) is Some {
            last_behind(right, key)
        } else {
            last_behind(left, key)
        }),
    decreases right.len(),
{
    if right.len() == 0 {
        assert(left + right =~= left);
    } else {
        assert((left + right).drop_last() =~= left + right.drop_last());
        lemma_last_behind_add(left, right.drop_last(), key);
    }
}

pub(crate) proof fn lemma_last_behind_none(pairs: Seq<(ExprModel, ExprModel)>, key: ExprModel)
    requires
        forall|i: int| 0 <= i < pairs.len() ==> (#[trigger] pairs[i]).0 != key,
    ensures
        last_behind(pairs, key) is None,
    decreases pairs.len(),
{
    if pairs.len() > 0 {
        assert(pairs.last() == pairs[pairs.len() - 1]);
        lemma_last_behind_none(pairs.drop_last(), key);
    }
}

proof fn lemma_last_behind_marked_pair(
    marker: Seq<char>,
    expr: Option<Box<ExprModel>>,
    key: ExprModel,
)
    ensures
        last_behind(marked_pair(marker, expr), key) == (if key == literal(marker) {
            expr
        } else {
            None
        }),
{
    reveal_with_fuel(last_behind, 2);
}

/// What is read from the pairs of a `CASE` with its marked pairs at both ends: the conditions
/// are those that are no marker, and where none is, nothing gets lost.
proof fn lemma_case_parts(
    base: Option<Box<ExprModel>>,
    pairs: Seq<(ExprModel, ExprModel)>,
    else_expr: Option<Box<ExprModel>>,
)
    ensures
        ({
            let all = marked_pair(CASE_EXPR_MARKER@, base) + pairs + marked_pair(
                CASE_ELSE_MARKER@,
                else_expr,
            );
            let clear = forall|i: int|
                0 <= i < pairs.len() ==> !is_case_marker((#[trigger] pairs[i]).0);
            &&& unmarked(all) == pairs <==> clear
            &&& clear ==> last_behind(all, literal(CASE_EXPR_MARKER@)) == base
            &&& clear ==> last_behind(all, literal(CASE_ELSE_MARKER@)) == else_expr
        }),
{
    let first = marked_pair(CASE_EXPR_MARKER@, base);
    let last = marked_pair(CASE_ELSE_MARKER@, else_expr);
    let base_key = literal(CASE_EXPR_MARKER@);
    let else_key = literal(CASE_ELSE_MARKER@);
    lemma_case_markers_differ();
    lemma_unmarked_add(first + pairs, last);
    lemma_unmarked_add(first, pairs);
    lemma_unmarked_of_marked_pair(CASE_EXPR_MARKER@, base);
    lemma_unmarked_of_marked_pair(CASE_ELSE_MARKER@, else_expr);
    lemma_unmarked_keeps_all(pairs);
    assert(unmarked(first + pairs + last) =~= unmarked(pairs));
    if forall|i: int| 0 <= i < pairs.len() ==> !is_case_marker((#[trigger] pairs[i]).0) {
        lemma_last_behind_none(pairs, base_key);
        lemma_last_behind_none(pairs, else_key);
        lemma_last_behind_add(first + pairs, last, base_key);
        lemma_last_behind_add(first, pairs, base_key);
        lemma_last_behind_add(first + pairs, last, else_key);
        lemma_last_behind_add(first, pairs, else_key);
        lemma_last_behind_marked_pair(CASE_EXPR_MARKER@, base, base_key);
        lemma_last_behind_marked_pair(CASE_EXPR_MARKER@, base, else_key);
        lemma_last_behind_marked_pair(CASE_ELSE_MARKER@, else_expr, base_key);
        lemma_last_behind_marked_pair(CASE_ELSE_MARKER@, else_expr, else_key);
    }
}

proof fn lemma_case_comes_back(
    base: Option<Box<ExprModel>>,
    pairs: Seq<(ExprModel, ExprModel)>,
    else_expr: Option<Box<ExprModel>>,
)
    ensures
        ({
            let expr = ExprModel::Case { expr: base, when_then_expr: pairs, else_expr };
            rewritten(expr, sub_expressions(expr)->Ok_0) == Ok::<ExprModel, ErrorModel>(expr)
                <==> comes_back(expr)
        }),
{
    lemma_neighbours_of_case(base, pairs, else_expr);
    lemma_case_parts(base, pairs, else_expr);
}

proof fn lemma_window_comes_back(expr: ExprModel)
    requires
        expr is WindowFunction,
    ensures
        rewritten(expr, sub_expressions(expr)->Ok_0) == Ok::<ExprModel, ErrorModel>(expr)
            <==> comes_back(expr),
{
    match expr {
        ExprModel::WindowFunction { fun, args, partition_by, order_by, window_frame } => {
            let partition_key = literal(WINDOW_PARTITION_MARKER@);
            let sort_key = literal(WINDOW_SORT_MARKER@);
            let list = args + seq![partition_key] + partition_by + seq![sort_key] + order_by;
            let p = args.len() as int;
            let s = p + 1 + partition_by.len();
            lemma_window_markers_differ();
            list.index_of_first_ensures(partition_key);
            list.index_of_first_ensures(sort_key);
            assert(list[p] == partition_key);
            assert(list[s] == sort_key);
            assert(forall|i: int| 0 <= i < p ==> list[i] == args[i]);
            assert(forall|i: int| p < i < s ==> list[i] == partition_by[i - p - 1]);
            let found_p = position(list, partition_key)->0;
            let found_s = position(list, sort_key)->0;
            if comes_back(expr) {
                assert(found_p == p);
                assert(found_s == s) by {
                    if found_s < p {
                        assert(args[found_s] == sort_key);
                    } else if p < found_s < s {
                        assert(partition_by[found_s - p - 1] == sort_key);
                    }
                }
                assert(list.subrange(0, p) =~= args);
                assert(list.subrange(p + 1, s) =~= partition_by);
                assert(list.subrange(s + 1, list.len() as int) =~= order_by);
            } else {
                assert(list.contains(partition_key));
                assert(list.contains(sort_key));
                if rewritten(expr, list) == Ok::<ExprModel, ErrorModel>(expr) {
                    assert(list.subrange(0, found_p).len() == found_p);
                    assert(found_p == p);
                    assert(list.subrange(found_p + 1, found_s).len() == found_s - found_p - 1);
                    assert(found_s == s);
                    if args.contains(partition_key) {
                        let i = choose|i: int| 0 <= i < args.len() && args[i] == partition_key;
                        assert(list[i] == partition_key);
                    } else if args.contains(sort_key) {
                        let i = choose|i: int| 0 <= i < args.len() && args[i] == sort_key;
                        assert(list[i] == sort_key);
                    } else {
                        let i = choose|i: int|
                            0 <= i < partition_by.len() && partition_by[i] == sort_key;
                        assert(list[p + 1 + i] == sort_key);
                    }
                }
            }
        },
        _ => {},
    }
}

/// The two markers of a window function are not the same.
proof fn lemma_window_markers_differ()
    ensures
        WINDOW_PARTITION_MARKER@ != WINDOW_SORT_MARKER@,
{
    reveal_strlit("__DATAFUSION_WINDOW_PARTITION__");
    reveal_strlit("__DATAFUSION_WINDOW_SORT__");
    assert(WINDOW_PARTITION_MARKER@.len() != WINDOW_SORT_MARKER@.len());
}

/// Rebuilding an expression from its own children gives the expression back, exactly where
/// [`comes_back`] says so.
pub proof fn law_own_children_give_it_back(expr: ExprModel, children: Seq<ExprModel>)
    requires
        sub_expressions(expr) == Ok::<Seq<ExprModel>, ErrorModel>(children),
    ensures
        rewritten(expr, children) == Ok::<ExprModel, ErrorModel>(expr) <==> comes_back(expr),
{
    match expr {
        ExprModel::Case { expr: base, when_then_expr, else_expr } => {
            lemma_case_comes_back(base, when_then_expr, else_expr);
        },
        ExprModel::WindowFunction { .. } => {
            lemma_window_comes_back(expr);
        },
        ExprModel::InList { list, .. } => {
            assert(children.subrange(1, children.len() as int) =~= list);
        },
        _ => {},
    }
}

/// Whether an expression that is rebuilt from a list has exactly that list as its children. A
/// `BETWEEN` never does, since it turns into something else. Where the number of children is
/// fixed, the list must be just as long, and an `IN` needs the expression that it looks for. In
/// the list of a `CASE` the base expression must come first and the `ELSE` expression last.
pub open spec fn takes_list(expr: ExprModel, expressions: Seq<ExprModel>) -> bool {
    match expr {
        ExprModel::Between { .. } => false,
        ExprModel::Column(_) | ExprModel::Literal(_) | ExprModel::ScalarVariable(_) =>
            expressions.len() == 0,
        ExprModel::Alias(..)
        | ExprModel::Not(_)
        | ExprModel::Negative(_)
        | ExprModel::IsNull(_)
        | ExprModel::IsNotNull(_)
        | ExprModel::Cast { .. }
        | ExprModel::TryCast { .. }
        | ExprModel::Sort { .. } => expressions.len() == 1,
        ExprModel::BinaryExpr { .. } => expressions.len() == 2,
        ExprModel::InList { .. } => expressions.len() >= 1,
        ExprModel::Case { .. } => markers_at_ends(neighbours(expressions)),
        _ => true,
    }
}

/// Whether the marker of the base expression starts no pair but the first, and that of the `ELSE`
/// expression none but the last.
pub open spec fn markers_at_ends(pairs: Seq<(ExprModel, ExprModel)>) -> bool {
    &&& forall|i: int|
        0 < i < pairs.len() ==> (#[trigger] pairs[i]).0 != literal(CASE_EXPR_MARKER@)
    &&& forall|i: int|
        0 <= i < pairs.len() - 1 ==> (#[trigger] pairs[i]).0 != literal(CASE_ELSE_MARKER@)
}

proof fn lemma_neighbours_determine(left: Seq<ExprModel>, right: Seq<ExprModel>)
    requires
        left.len() % 2 == 0,
        right.len() % 2 == 0,
        neighbours(left) == neighbours(right),
    ensures
        left == right,
{
    assert(neighbours(left).len() == left.len() / 2);
    assert(neighbours(right).len() == right.len() / 2);
    assert forall|i: int| 0 <= i < left.len() implies left[i] == right[i] by {
        let k = i / 2;
        assert(neighbours(left)[k] == (left[2 * k], left[2 * k + 1]));
        assert(neighbours(right)[k] == (right[2 * k], right[2 * k + 1]));
        assert(i == 2 * k || i == 2 * k + 1);
    }
    assert(left =~= right);
}

/// The value of a pair, where its key is a marker.
spec fn behind(pair: (ExprModel, ExprModel), marker: Seq<char>) -> Option<Box<ExprModel>> {
    if pair.0 == literal(marker) {
        Some(Box::new(pair.1))
    } else {
        None
    }
}

/// Pairs with markers at the ends only are a marked pair, pairs without markers, and a marked
/// pair, where each end may be missing.
proof fn lemma_split_case_pairs(pairs: Seq<(ExprModel, ExprModel)>) -> (parts: (
    Option<Box<ExprModel>>,
    Seq<(ExprModel, ExprModel)>,
    Option<Box<ExprModel>>,
))
    requires
        markers_at_ends(pairs),
    ensures
        pairs == marked_pair(CASE_EXPR_MARKER@, parts.0) + parts.1 + marked_pair(
            CASE_ELSE_MARKER@,
            parts.2,
        ),
        forall|i: int| 0 <= i < parts.1.len() ==> !is_case_marker((#[trigger] parts.1[i]).0),
{
    lemma_case_markers_differ();
    if pairs.len() == 0 {
        assert(pairs =~= marked_pair(CASE_EXPR_MARKER@, None) + pairs + marked_pair(
            CASE_ELSE_MARKER@,
            None,
        ));
        (None, pairs, None)
    } else {
        let n = pairs.len() as int;
        let base = behind(pairs[0], CASE_EXPR_MARKER@);
        let else_expr = behind(pairs[n - 1], CASE_ELSE_MARKER@);
        let first = marked_pair(CASE_EXPR_MARKER@, base);
        let last = marked_pair(CASE_ELSE_MARKER@, else_expr);
        let middle = pairs.subrange(first.len() as int, n - last.len());
        assert(pairs =~= first + middle + last);
        assert forall|i: int| 0 <= i < middle.len() implies !is_case_marker(
            (#[trigger] middle[i]).0,
        ) by {
            assert(middle[i] == pairs[i + first.len()]);
        }
        (base, middle, else_expr)
    }
}

/// No pair that a `CASE` takes for a branch starts with a marker.
proof fn lemma_unmarked_has_no_marker(pairs: Seq<(ExprModel, ExprModel)>)
    ensures
        forall|i: int|
            0 <= i < unmarked(pairs).len() ==> !is_case_marker((#[trigger] unmarked(pairs)[i]).0),
    decreases pairs.len(),
{
    reveal_with_fuel(Seq::filter, 2);
    if pairs.len() > 0 {
        lemma_unmarked_has_no_marker(pairs.drop_last());
    }
}

/// The list that a `CASE` hands out has its markers at the ends.
proof fn lemma_case_list_has_markers_at_ends(
    base: Option<Box<ExprModel>>,
    pairs: Seq<(ExprModel, ExprModel)>,
    else_expr: Option<Box<ExprModel>>,
)
    requires
        forall|i: int| 0 <= i < pairs.len() ==> !is_case_marker((#[trigger] pairs[i]).0),
    ensures
        markers_at_ends(
            marked_pair(CASE_EXPR_MARKER@, base) + pairs + marked_pair(
                CASE_ELSE_MARKER@,
                else_expr,
            ),
        ),
{
    lemma_case_markers_differ();
    let first = marked_pair(CASE_EXPR_MARKER@, base);
    let last = marked_pair(CASE_ELSE_MARKER@, else_expr);
    let all = first + pairs + last;
    assert forall|i: int| 0 < i < all.len() implies (#[trigger] all[i]).0 != literal(
        CASE_EXPR_MARKER@,
    ) by {
        if i < first.len() + pairs.len() {
            assert(all[i] == pairs[i - first.len()]);
        }
    }
    assert forall|i: int| 0 <= i < all.len() - 1 implies (#[trigger] all[i]).0 != literal(
        CASE_ELSE_MARKER@,
    ) by {
        if first.len() <= i {
            assert(all[i] == pairs[i - first.len()]);
        }
    }
}

proof fn lemma_case_takes_list(expressions: Seq<ExprModel>)
    requires
        expressions.len() % 2 == 0,
        markers_at_ends(neighbours(expressions)),
    ensures
        marked(
            CASE_EXPR_MARKER@,
            last_behind(neighbours(expressions), literal(CASE_EXPR_MARKER@)),
        ) + flattened(unmarked(neighbours(expressions))) + marked(
            CASE_ELSE_MARKER@,
            last_behind(neighbours(expressions), literal(CASE_ELSE_MARKER@)),
        ) == expressions,
{
    let pairs = neighbours(expressions);
    let (base, middle, else_expr) = lemma_split_case_pairs(pairs);
    assert(unmarked(pairs) == middle && last_behind(pairs, literal(CASE_EXPR_MARKER@)) == base
        && last_behind(pairs, literal(CASE_ELSE_MARKER@)) == else_expr) by {
        lemma_case_parts(base, middle, else_expr);
    }
    let list = marked(CASE_EXPR_MARKER@, base) + flattened(middle) + marked(
        CASE_ELSE_MARKER@,
        else_expr,
    );
    assert(list == expressions) by {
        lemma_neighbours_of_case(base, middle, else_expr);
        lemma_neighbours_determine(list, expressions);
    }
}

/// An expression that was rebuilt from a list has that list as its children, exactly where
/// [`takes_list`] says so.
pub proof fn law_rebuilt_has_given_children(
    expr: ExprModel,
    expressions: Seq<ExprModel>,
    rebuilt: ExprModel,
)
    requires
        rewritable(expr, expressions),
        rewritten(expr, expressions) == Ok::<ExprModel, ErrorModel>(rebuilt),
    ensures
        sub_expressions(rebuilt) == Ok::<Seq<ExprModel>, ErrorModel>(expressions) <==> takes_list(
            expr,
            expressions,
        ),
{
    match expr {
        ExprModel::Case { .. } => {
            let pairs = neighbours(expressions);
            if markers_at_ends(pairs) {
                lemma_case_takes_list(expressions);
            } else {
                let base = last_behind(pairs, literal(CASE_EXPR_MARKER@));
                let else_expr = last_behind(pairs, literal(CASE_ELSE_MARKER@));
                lemma_unmarked_has_no_marker(pairs);
                lemma_neighbours_of_case(base, unmarked(pairs), else_expr);
                lemma_case_list_has_markers_at_ends(base, unmarked(pairs), else_expr);
            }
        },
        ExprModel::WindowFunction { .. } => {
            let partition_key = literal(WINDOW_PARTITION_MARKER@);
            let sort_key = literal(WINDOW_SORT_MARKER@);
            expressions.index_of_first_ensures(partition_key);
            expressions.index_of_first_ensures(sort_key);
            assert(sub_expressions(rebuilt)->Ok_0 =~= expressions);
        },
        _ => {
            if takes_list(expr, expressions) {
                assert(sub_expressions(rebuilt)->Ok_0 =~= expressions);
            } else {
                assert(sub_expressions(rebuilt)->Ok_0.len() != expressions.len());
            }
        },
    }
}

/// Of two rewrites one after the other, the second one decides: it gives what it would have
/// given at once. A `BETWEEN` is left out, since the first rewrite turns it into something else,
/// and so is an `IN` that the first rewrite changed where the second has nothing to put in.
pub proof fn law_second_rewrite_decides(
    expr: ExprModel,
    expressions: Seq<ExprModel>,
    rebuilt: ExprModel,
    others: Seq<ExprModel>,
)
    requires
        expr !is Between,
        expr is InList && others.len() == 0 ==> rebuilt == expr,
        rewritten(expr, expressions) == Ok::<ExprModel, ErrorModel>(rebuilt),
    ensures
        rewritable(rebuilt, others) == rewritable(expr, others),
        rewritten(rebuilt, others) == rewritten(expr, others),
{
}

/// A `BETWEEN` that is rebuilt from its own children turns into the test that it stands for.
pub proof fn law_between_is_spelled_out(expr: ExprModel, children: Seq<ExprModel>)
    requires
        sub_expressions(expr) == Ok::<Seq<ExprModel>, ErrorModel>(children),
    ensures
        expr matches ExprModel::Between { expr: inner, negated, low, high } ==> rewritten(
            expr,
            children,
        ) == Ok::<ExprModel, ErrorModel>(
            if negated {
                ExprModel::Not(Box::new(within(*inner, *low, *high)))
            } else {
                within(*inner, *low, *high)
            },
        ),
{
}

/// Rewriting an expression that has one child replaces the child and nothing else.
pub proof fn law_one_child_is_replaced(
    expr: &Expr,
    expressions: &[Expr],
    result: Result<Expr, DataFusionError>,
)
    requires
        call_ensures(rewrite_expression, (expr, expressions), result),
        expressions@.len() >= 1,
    ensures
        *expr matches Expr::Alias(_, alias) ==> {
            &&& result matches Ok(Expr::Alias(child, kept))
            &&& (*child)@ == expressions@[0]@
            &&& kept@ == alias@
        },
        *expr is Not ==> {
            &&& result matches Ok(Expr::Not(child))
            &&& (*child)@ == expressions@[0]@
        },
        *expr is Negative ==> {
            &&& result matches Ok(Expr::Negative(child))
            &&& (*child)@ == expressions@[0]@
        },
        *expr is IsNull ==> {
            &&& result matches Ok(Expr::IsNull(child))
            &&& (*child)@ == expressions@[0]@
        },
        *expr is IsNotNull ==> {
            &&& result matches Ok(Expr::IsNotNull(child))
            &&& (*child)@ == expressions@[0]@
        },
        *expr matches Expr::Cast { data_type, .. } ==> {
            &&& result matches Ok(Expr::Cast { expr: child, data_type: kept })
            &&& (*child)@ == expressions@[0]@
            &&& kept == data_type
        },
        *expr matches Expr::TryCast { data_type, .. } ==> {
            &&& result matches Ok(Expr::TryCast { expr: child, data_type: kept })
            &&& (*child)@ == expressions@[0]@
            &&& kept == data_type
        },
        *expr matches Expr::Sort { asc, nulls_first, .. } ==> {
            &&& result matches Ok(Expr::Sort { expr: child, asc: up, nulls_first: first })
            &&& (*child)@ == expressions@[0]@
            &&& up == asc
            &&& first == nulls_first
        },
{
    broadcast use {lemma_exprs_model_len, lemma_exprs_model_index};

}

/// Rewriting a binary expression replaces both sides, each by its own, and keeps the operator.
pub proof fn law_both_sides_are_replaced(
    expr: &Expr,
    expressions: &[Expr],
    result: Result<Expr, DataFusionError>,
)
    requires
        call_ensures(rewrite_expression, (expr, expressions), result),
        expressions@.len() >= 2,
    ensures
        *expr matches Expr::BinaryExpr { op, .. } ==> {
            &&& result matches Ok(Expr::BinaryExpr { left, op: kept, right })
            &&& (*left)@ == expressions@[0]@
            &&& kept == op
            &&& (*right)@ == expressions@[1]@
        },
{
    broadcast use {lemma_exprs_model_len, lemma_exprs_model_index};

}

/// An expression without children stays as it is, whatever list is given, and a wildcard is
/// refused.
pub proof fn law_leaves_stay(
    expr: &Expr,
    expressions: &[Expr],
    result: Result<Expr, DataFusionError>,
)
    requires
        call_ensures(rewrite_expression, (expr, expressions), result),
    ensures
        *expr matches Expr::Column(column) ==> {
            &&& result matches Ok(Expr::Column(kept))
            &&& kept@ == column@
        },
        *expr matches Expr::Literal(value) ==> {
            &&& result matches Ok(Expr::Literal(kept))
            &&& kept@ == value@
        },
        *expr matches Expr::ScalarVariable(names) ==> {
            &&& result matches Ok(Expr::ScalarVariable(kept))
            &&& kept@.len() == names@.len()
            &&& forall|i: int| 0 <= i < names@.len() ==> (#[trigger] kept@[i])@ == names@[i]@
        },
        *expr is Wildcard ==> {
            &&& result matches Err(DataFusionError::Internal(message))
            &&& message@ == "Wildcard expressions are not valid in a logical query plan"@
        },
{
    if let Expr::ScalarVariable(names) = *expr {
        if let Ok(Expr::ScalarVariable(kept)) = result {
            assert(result->Ok_0@ == expr@);
            assert(strings_model(kept@) == strings_model(names@));
            assert forall|i: int| 0 <= i < names@.len() implies (#[trigger] kept@[i])@
                == names@[i]@ by {
                assert(strings_model(kept@)[i] == strings_model(names@)[i]);
            }
        }
    }
}

/// Rewriting a call of a function gives a call of the same function with the given expressions
/// as its arguments, however many there are.
pub proof fn law_arguments_are_replaced(
    expr: &Expr,
    expressions: &[Expr],
    result: Result<Expr, DataFusionError>,
)
    requires
        call_ensures(rewrite_expression, (expr, expressions), result),
    ensures
        *expr matches Expr::ScalarFunction { fun, .. } ==> {
            &&& result matches Ok(Expr::ScalarFunction { fun: kept, args })
            &&& kept.name@ == fun.name@
            &&& args@.len() == expressions@.len()
            &&& forall|i: int|
                0 <= i < args@.len() ==> (#[trigger] args@[i])@ == expressions@[i]@
        },
        *expr matches Expr::ScalarUDF { fun, .. } ==> {
            &&& result matches Ok(Expr::ScalarUDF { fun: kept, args })
            &&& (*kept).name@ == (*fun).name@
            &&& args@.len() == expressions@.len()
            &&& forall|i: int|
                0 <= i < args@.len() ==> (#[trigger] args@[i])@ == expressions@[i]@
        },
        *expr matches Expr::AggregateFunction { fun, distinct, .. } ==> {
            &&& result matches Ok(Expr::AggregateFunction { fun: kept, args, distinct: once })
            &&& kept == fun
            &&& once == distinct
            &&& args@.len() == expressions@.len()
            &&& forall|i: int|
                0 <= i < args@.len() ==> (#[trigger] args@[i])@ == expressions@[i]@
        },
        *expr matches Expr::AggregateUDF { fun, .. } ==> {
            &&& result matches Ok(Expr::AggregateUDF { fun: kept, args })
            &&& (*kept).name@ == (*fun).name@
            &&& args@.len() == expressions@.len()
            &&& forall|i: int|
                0 <= i < args@.len() ==> (#[trigger] args@[i])@ == expressions@[i]@
        },
{
    if let Ok(made) = result {
        match made {
            Expr::ScalarFunction { args, .. }
            | Expr::ScalarUDF { args, .. }
            | Expr::AggregateUDF { args, .. } => lemma_same_members(args@, expressions@),
            Expr::AggregateFunction { args, .. } => lemma_same_members(args@, expressions@),
            _ => {},
        }
    }
}

/// Rewriting an `IN` looks for the first of the given expressions among the others.
pub proof fn law_in_list_is_replaced(
    expr: &Expr,
    expressions: &[Expr],
    result: Result<Expr, DataFusionError>,
)
    requires
        call_ensures(rewrite_expression, (expr, expressions), result),
        *expr is InList,
        expressions@.len() >= 1,
    ensures
        *expr matches Expr::InList { negated, .. } && {
            &&& result matches Ok(Expr::InList { expr: sought, list, negated: kept })
            &&& kept == negated
            &&& (*sought)@ == expressions@[0]@
            &&& list@.len() == expressions@.len() - 1
            &&& forall|i: int|
                0 <= i < list@.len() ==> (#[trigger] list@[i])@ == expressions@[i + 1]@
        },
{
    broadcast use {lemma_exprs_model_len, lemma_exprs_model_index};

    if let Ok(Expr::InList { list, .. }) = result {
        let all = exprs_model(expressions@);
        assert(exprs_model(list@) == all.subrange(1, all.len() as int));
        assert(exprs_model(list@).len() == list@.len());
        assert forall|i: int| 0 <= i < list@.len() implies (#[trigger] list@[i])@ == expressions@[i
            + 1]@ by {
            assert(exprs_model(list@)[i] == all[i + 1]);
        }
    }
}

/// Rewriting a `BETWEEN` tests that the first of the given expressions is at least the second and
/// at most the third, both bounds included, or that this is not so where the `BETWEEN` was
/// negated.
pub proof fn law_between_tests_both_bounds(
    expr: &Expr,
    expressions: &[Expr],
    result: Result<Expr, DataFusionError>,
)
    requires
        call_ensures(rewrite_expression, (expr, expressions), result),
        *expr is Between,
        expressions@.len() >= 3,
    ensures
        *expr matches Expr::Between { negated, .. } && {
            let test = if negated {
                *result->Ok_0->Not_0
            } else {
                result->Ok_0
            };
            &&& result is Ok
            &&& negated ==> result->Ok_0 is Not
            &&& test matches Expr::BinaryExpr { left: lower, op: Operator::And, right: upper }
            &&& *lower matches Expr::BinaryExpr { left: first, op: Operator::GtEq, right: low }
            &&& *upper matches Expr::BinaryExpr { left: again, op: Operator::LtEq, right: high }
            &&& (*first)@ == expressions@[0]@
            &&& (*low)@ == expressions@[1]@
            &&& (*again)@ == expressions@[0]@
            &&& (*high)@ == expressions@[2]@
        },
{
    let x = expressions@[0]@;
    let lower = ExprModel::BinaryExpr {
        left: Box::new(x),
        op: Operator::GtEq,
        right: Box::new(expressions@[1]@),
    };
    let upper = ExprModel::BinaryExpr {
        left: Box::new(x),
        op: Operator::LtEq,
        right: Box::new(expressions@[2]@),
    };
    lemma_between_model(expr, expressions, result);
    if let Expr::Between { negated, .. } = *expr {
        if negated {
            assert(result->Ok_0 is Not);
        }
        let test = if negated {
            *result->Ok_0->Not_0
        } else {
            result->Ok_0
        };
        lemma_sides_of_binary(test, lower, Operator::And, upper);
        if let Expr::BinaryExpr { left, right, .. } = test {
            lemma_sides_of_binary(*left, x, Operator::GtEq, expressions@[1]@);
            lemma_sides_of_binary(*right, x, Operator::LtEq, expressions@[2]@);
        }
    }
}

proof fn lemma_sides_of_binary(expr: Expr, left: ExprModel, op: Operator, right: ExprModel)
    requires
        expr@ == (ExprModel::BinaryExpr { left: Box::new(left), op, right: Box::new(right) }),
    ensures
        expr matches Expr::BinaryExpr { left: l, op: o, right: r } && (*l)@ == left && o == op && (
        *r)@ == right,
{
}

/// The model of a rewritten `BETWEEN`.
proof fn lemma_between_model(
    expr: &Expr,
    expressions: &[Expr],
    result: Result<Expr, DataFusionError>,
)
    requires
        call_ensures(rewrite_expression, (expr, expressions), result),
        *expr is Between,
        expressions@.len() >= 3,
    ensures
        result is Ok,
        ({
            let test = ExprModel::BinaryExpr {
                left: Box::new(
                    ExprModel::BinaryExpr {
                        left: Box::new(expressions@[0]@),
                        op: Operator::GtEq,
                        right: Box::new(expressions@[1]@),
                    },
                ),
                op: Operator::And,
                right: Box::new(
                    ExprModel::BinaryExpr {
                        left: Box::new(expressions@[0]@),
                        op: Operator::LtEq,
                        right: Box::new(expressions@[2]@),
                    },
                ),
            };
            result->Ok_0@ == (if (*expr)->Between_negated {
                ExprModel::Not(Box::new(test))
            } else {
                test
            })
        }),
{
    broadcast use {lemma_exprs_model_len, lemma_exprs_model_index};

}

/// Under any meaning of expressions that reads the operators as usual, a rewritten `BETWEEN` is
/// true exactly if the value lies within the bounds, and a negated one exactly if it does not.
pub proof fn law_between_means_within_bounds(
    expr: &Expr,
    expressions: &[Expr],
    result: Result<Expr, DataFusionError>,
    holds: spec_fn(ExprModel) -> bool,
    number: spec_fn(ExprModel) -> int,
)
    requires
        call_ensures(rewrite_expression, (expr, expressions), result),
        *expr is Between,
        expressions@.len() >= 3,
        forall|test: ExprModel| #[trigger] holds(ExprModel::Not(Box::new(test))) <==> !holds(test),
        forall|l: ExprModel, r: ExprModel| #[trigger]
            holds(
                ExprModel::BinaryExpr { left: Box::new(l), op: Operator::And, right: Box::new(r) },
            ) <==> holds(l) && holds(r),
        forall|l: ExprModel, r: ExprModel| #[trigger]
            holds(
                ExprModel::BinaryExpr { left: Box::new(l), op: Operator::GtEq, right: Box::new(r) },
            ) <==> number(l) >= number(r),
        forall|l: ExprModel, r: ExprModel| #[trigger]
            holds(
                ExprModel::BinaryExpr { left: Box::new(l), op: Operator::LtEq, right: Box::new(r) },
            ) <==> number(l) <= number(r),
    ensures
        *expr matches Expr::Between { negated, .. } && (holds(result->Ok_0@) <==> (negated != (
        number(expressions@[1]@) <= number(expressions@[0]@) <= number(expressions@[2]@)))),
{
    let lower = ExprModel::BinaryExpr {
        left: Box::new(expressions@[0]@),
        op: Operator::GtEq,
        right: Box::new(expressions@[1]@),
    };
    let upper = ExprModel::BinaryExpr {
        left: Box::new(expressions@[0]@),
        op: Operator::LtEq,
        right: Box::new(expressions@[2]@),
    };
    let test = ExprModel::BinaryExpr {
        left: Box::new(lower),
        op: Operator::And,
        right: Box::new(upper),
    };
    lemma_between_model(expr, expressions, result);
    assert(holds(test) <==> holds(lower) && holds(upper));
}

/// A list without one of the two markers is no list for a window function, and the error says
/// which one is missing first.
pub proof fn law_window_needs_both_markers(
    expr: &Expr,
    expressions: &[Expr],
    result: Result<Expr, DataFusionError>,
)
    requires
        call_ensures(rewrite_expression, (expr, expressions), result),
        *expr is WindowFunction,
    ensures
        (forall|i: int|
            0 <= i < expressions@.len() ==> (#[trigger] expressions@[i])@ != ExprModel::Literal(
                ScalarModel::Utf8(Some(WINDOW_PARTITION_MARKER@)),
            )) ==> {
            &&& result matches Err(DataFusionError::Internal(message))
            &&& message@ == "Ill-formed window function expressions: unexpected marker"@
        },
        ((exists|i: int|
            0 <= i < expressions@.len() && (#[trigger] expressions@[i])@ == ExprModel::Literal(
                ScalarModel::Utf8(Some(WINDOW_PARTITION_MARKER@)),
            )) && (forall|i: int|
            0 <= i < expressions@.len() ==> (#[trigger] expressions@[i])@ != ExprModel::Literal(
                ScalarModel::Utf8(Some(WINDOW_SORT_MARKER@)),
            ))) ==> {
            &&& result matches Err(DataFusionError::Internal(message))
            &&& message@ == "Ill-formed window function expressions"@
        },
{
    broadcast use {lemma_exprs_model_len, lemma_exprs_model_index};

    let all = exprs_model(expressions@);
    let partition_key = ExprModel::Literal(ScalarModel::Utf8(Some(WINDOW_PARTITION_MARKER@)));
    let sort_key = ExprModel::Literal(ScalarModel::Utf8(Some(WINDOW_SORT_MARKER@)));
    all.index_of_first_ensures(partition_key);
    all.index_of_first_ensures(sort_key);
    if exists|i: int|
        0 <= i < expressions@.len() && (#[trigger] expressions@[i])@ == partition_key {
        let i = choose|i: int|
            0 <= i < expressions@.len() && (#[trigger] expressions@[i])@ == partition_key;
        assert(all[i] == partition_key);
    }
}

/// The list for a window function is cut at the first marker of each sort: before the one are the
/// arguments, between them the partitioning, behind the other the ordering. Everything else about
/// the window function stays. Markers the wrong way round are refused.
#[verifier::spinoff_prover]
#[verifier::rlimit(40)]
pub proof fn law_window_is_cut_at_first_markers(
    expr: &Expr,
    expressions: &[Expr],
    result: Result<Expr, DataFusionError>,
    p: int,
    s: int,
)
    requires
        call_ensures(rewrite_expression, (expr, expressions), result),
        *expr is WindowFunction,
        0 <= p < expressions@.len(),
        0 <= s < expressions@.len(),
        expressions@[p]@ == ExprModel::Literal(
            ScalarModel::Utf8(Some(WINDOW_PARTITION_MARKER@)),
        ),
        expressions@[s]@ == ExprModel::Literal(ScalarModel::Utf8(Some(WINDOW_SORT_MARKER@))),
        forall|i: int|
            0 <= i < p ==> (#[trigger] expressions@[i])@ != ExprModel::Literal(
                ScalarModel::Utf8(Some(WINDOW_PARTITION_MARKER@)),
            ),
        forall|i: int|
            0 <= i < s ==> (#[trigger] expressions@[i])@ != ExprModel::Literal(
                ScalarModel::Utf8(Some(WINDOW_SORT_MARKER@)),
            ),
    ensures
        p > s ==> {
            &&& result matches Err(DataFusionError::Internal(message))
            &&& message@ == "Ill-formed window function expressions: partition index too large"@
        },
        p != s,
        p < s ==> (*expr matches Expr::WindowFunction { fun, window_frame, .. } && {
            &&& result matches Ok(
                Expr::WindowFunction {
                    fun: kept,
                    args,
                    partition_by,
                    order_by,
                    window_frame: frame,
                },
            )
            &&& kept == fun
            &&& frame == window_frame
            &&& args@.len() == p
            &&& forall|i: int|
                0 <= i < args@.len() ==> (#[trigger] args@[i])@ == expressions@[i]@
            &&& partition_by@.len() == s - p - 1
            &&& forall|i: int|
                0 <= i < partition_by@.len() ==> (#[trigger] partition_by@[i])@ == expressions@[p
                    + 1 + i]@
            &&& order_by@.len() == expressions@.len() - s - 1
            &&& forall|i: int|
                0 <= i < order_by@.len() ==> (#[trigger] order_by@[i])@ == expressions@[s + 1 + i]@
        }),
{
    broadcast use {lemma_exprs_model_len, lemma_exprs_model_index};

    let all = exprs_model(expressions@);
    let partition_key = ExprModel::Literal(ScalarModel::Utf8(Some(WINDOW_PARTITION_MARKER@)));
    let sort_key = ExprModel::Literal(ScalarModel::Utf8(Some(WINDOW_SORT_MARKER@)));
    lemma_window_markers_differ();
    all.index_of_first_ensures(partition_key);
    all.index_of_first_ensures(sort_key);
    assert(all[p] == partition_key);
    assert(all[s] == sort_key);
    assert(position(all, partition_key) == Some(p));
    assert(position(all, sort_key) == Some(s));
    if p < s {
        if let Ok(Expr::WindowFunction { args, partition_by, order_by, .. }) = result {
            lemma_members_of_range(args@, expressions@, 0, p);
            lemma_members_of_range(partition_by@, expressions@, p + 1, s);
            lemma_members_of_range(order_by@, expressions@, s + 1, expressions@.len() as int);
        }
    }
}

pub(crate) proof fn lemma_members_of_range(part: Seq<Expr>, all: Seq<Expr>, from: int, to: int)
    requires
        0 <= from <= to <= all.len(),
        exprs_model(part) == exprs_model(all).subrange(from, to),
    ensures
        part.len() == to - from,
        forall|i: int| 0 <= i < part.len() ==> (#[trigger] part[i])@ == all[from + i]@,
{
    assert(exprs_model(part).len() == part.len());
    assert forall|i: int| 0 <= i < part.len() implies (#[trigger] part[i])@ == all[from + i]@ by {
        assert(exprs_model(part)[i] == exprs_model(all)[from + i]);
    }
}

/// From an empty list a `CASE` without anything in it is made.
pub proof fn law_case_of_nothing(
    expr: &Expr,
    expressions: &[Expr],
    result: Result<Expr, DataFusionError>,
)
    requires
        call_ensures(rewrite_expression, (expr, expressions), result),
        *expr is Case,
        expressions@.len() == 0,
    ensures
        result matches Ok(Expr::Case { expr: None, when_then_expr, else_expr: None })
            && when_then_expr@.len() == 0,
{
    broadcast use {lemma_exprs_model_len, lemma_exprs_model_index};

    reveal_with_fuel(Seq::filter, 2);
    if let Ok(Expr::Case { expr: base, when_then_expr, else_expr }) = result {
        assert(pairs_model(when_then_expr@).len() == when_then_expr@.len());
        assert(optional_model(base) is None);
        assert(optional_model(else_expr) is None);
    }
}

/// One more pair at the end of the list for a `CASE` changes one thing: behind the first marker
/// stands the base expression, behind the second one the `ELSE` expression, and any other pair is
/// one more branch behind those that there were.
#[verifier::spinoff_prover]
#[verifier::rlimit(40)]
pub proof fn law_case_takes_one_more_pair(
    expr: &Expr,
    shorter: &[Expr],
    longer: &[Expr],
    before: Result<Expr, DataFusionError>,
    after: Result<Expr, DataFusionError>,
)
    requires
        call_ensures(rewrite_expression, (expr, shorter), before),
        call_ensures(rewrite_expression, (expr, longer), after),
        *expr is Case,
        shorter@.len() % 2 == 0,
        longer@.len() == shorter@.len() + 2,
        forall|i: int| 0 <= i < shorter@.len() ==> (#[trigger] longer@[i])@ == shorter@[i]@,
    ensures
        ({
            let key = longer@[shorter@.len() as int]@;
            let value = longer@[longer@.len() - 1]@;
            let for_base = key == ExprModel::Literal(ScalarModel::Utf8(Some(CASE_EXPR_MARKER@)));
            let for_else = key == ExprModel::Literal(ScalarModel::Utf8(Some(CASE_ELSE_MARKER@)));
            &&& before matches Ok(Expr::Case { expr: base, when_then_expr: branches, else_expr })
            &&& after matches Ok(
                Expr::Case { expr: new_base, when_then_expr: new_branches, else_expr: new_else },
            )
            &&& if for_base {
                new_base matches Some(inner) && (*inner)@ == value
            } else {
                optional_model(new_base) == optional_model(base)
            }
            &&& if for_else {
                new_else matches Some(inner) && (*inner)@ == value
            } else {
                optional_model(new_else) == optional_model(else_expr)
            }
            &&& if for_base || for_else {
                new_branches@.len() == branches@.len()
            } else {
                &&& new_branches@.len() == branches@.len() + 1
                &&& (*new_branches@.last().0)@ == key
                &&& (*new_branches@.last().1)@ == value
            }
            &&& forall|i: int|
                0 <= i < branches@.len() ==> (*(#[trigger] new_branches@[i]).0)@ == (
                *branches@[i].0)@ && (*new_branches@[i].1)@ == (*branches@[i].1)@
        }),
{
    broadcast use {lemma_exprs_model_len, lemma_exprs_model_index};

    lemma_case_markers_differ();
    let short_pairs = neighbours(exprs_model(shorter@));
    let long_pairs = neighbours(exprs_model(longer@));
    let n = short_pairs.len() as int;
    assert forall|i: int| 0 <= i < n implies #[trigger] short_pairs[i] == long_pairs[i] by {
        assert(longer@[2 * i]@ == shorter@[2 * i]@);
        assert(longer@[2 * i + 1]@ == shorter@[2 * i + 1]@);
    }
    assert(long_pairs.drop_last() =~= short_pairs);
    assert(long_pairs.last() == (longer@[2 * n]@, longer@[2 * n + 1]@));
    reveal_with_fuel(Seq::filter, 2);
    if let Ok(Expr::Case { when_then_expr: branches, .. }) = before {
        if let Ok(Expr::Case { when_then_expr: new_branches, .. }) = after {
            let old_model = pairs_model(branches@);
            let new_model = pairs_model(new_branches@);
            assert(old_model.len() == branches@.len());
            assert(new_model.len() == new_branches@.len());
            assert(old_model == unmarked(short_pairs));
            assert(new_model == unmarked(long_pairs));
            assert forall|i: int| 0 <= i < branches@.len() implies (*(
            #[trigger] new_branches@[i]).0)@ == (*branches@[i].0)@ && (*new_branches@[i].1)@ == (
            *branches@[i].1)@ by {
                assert(new_model[i] == old_model[i]);
            }
            if new_branches@.len() > branches@.len() {
                assert(new_model.last() == long_pairs.last());
                assert(new_model.last() == new_model[new_branches@.len() - 1]);
            }
        }
    }
}


/// The children of an expression are what stands in its fields, in their order.
pub proof fn law_children_are_the_fields(expr: &Expr, result: Result<Vec<Expr>, DataFusionError>)
    requires
        call_ensures(expr_sub_expressions, (expr,), result),
    ensures
        *expr is Column || *expr is Literal || *expr is ScalarVariable ==> {
            &&& result matches Ok(children)
            &&& children@.len() == 0
        },
        *expr matches Expr::Alias(child, _) ==> {
            &&& result matches Ok(children)
            &&& children@.len() == 1
            &&& children@[0]@ == (*child)@
        },
        *expr matches Expr::Not(child) ==> {
            &&& result matches Ok(children)
            &&& children@.len() == 1
            &&& children@[0]@ == (*child)@
        },
        *expr matches Expr::Negative(child) ==> {
            &&& result matches Ok(children)
            &&& children@.len() == 1
            &&& children@[0]@ == (*child)@
        },
        *expr matches Expr::IsNull(child) ==> {
            &&& result matches Ok(children)
            &&& children@.len() == 1
            &&& children@[0]@ == (*child)@
        },
        *expr matches Expr::IsNotNull(child) ==> {
            &&& result matches Ok(children)
            &&& children@.len() == 1
            &&& children@[0]@ == (*child)@
        },
        *expr matches Expr::Cast { expr: child, .. } ==> {
            &&& result matches Ok(children)
            &&& children@.len() == 1
            &&& children@[0]@ == (*child)@
        },
        *expr matches Expr::TryCast { expr: child, .. } ==> {
            &&& result matches Ok(children)
            &&& children@.len() == 1
            &&& children@[0]@ == (*child)@
        },
        *expr matches Expr::Sort { expr: child, .. } ==> {
            &&& result matches Ok(children)
            &&& children@.len() == 1
            &&& children@[0]@ == (*child)@
        },
        *expr matches Expr::BinaryExpr { left, right, .. } ==> {
            &&& result matches Ok(children)
            &&& children@.len() == 2
            &&& children@[0]@ == (*left)@
            &&& children@[1]@ == (*right)@
        },
        *expr matches Expr::Between { expr: child, low, high, .. } ==> {
            &&& result matches Ok(children)
            &&& children@.len() == 3
            &&& children@[0]@ == (*child)@
            &&& children@[1]@ == (*low)@
            &&& children@[2]@ == (*high)@
        },
        *expr is Wildcard ==> {
            &&& result matches Err(DataFusionError::Internal(message))
            &&& message@ == "Wildcard expressions are not valid in a logical query plan"@
        },
{
    broadcast use {lemma_exprs_model_len, lemma_exprs_model_index};

    if let Ok(children) = result {
        assert(exprs_model(children@).len() == children@.len());
        assert(children@.len() > 0 ==> exprs_model(children@)[0] == children@[0]@);
        assert(children@.len() > 1 ==> exprs_model(children@)[1] == children@[1]@);
        assert(children@.len() > 2 ==> exprs_model(children@)[2] == children@[2]@);
    }
}

/// The children of a call are its arguments, and those of an `IN` the expression that it looks
/// for and the list.
pub proof fn law_children_are_the_lists(expr: &Expr, result: Result<Vec<Expr>, DataFusionError>)
    requires
        call_ensures(expr_sub_expressions, (expr,), result),
    ensures
        *expr matches Expr::ScalarFunction { args, .. } ==> {
            &&& result matches Ok(children)
            &&& children@.len() == args@.len()
            &&& forall|i: int| 0 <= i < args@.len() ==> (#[trigger] children@[i])@ == args@[i]@
        },
        *expr matches Expr::ScalarUDF { args, .. } ==> {
            &&& result matches Ok(children)
            &&& children@.len() == args@.len()
            &&& forall|i: int| 0 <= i < args@.len() ==> (#[trigger] children@[i])@ == args@[i]@
        },
        *expr matches Expr::AggregateFunction { args, .. } ==> {
            &&& result matches Ok(children)
            &&& children@.len() == args@.len()
            &&& forall|i: int| 0 <= i < args@.len() ==> (#[trigger] children@[i])@ == args@[i]@
        },
        *expr matches Expr::AggregateUDF { args, .. } ==> {
            &&& result matches Ok(children)
            &&& children@.len() == args@.len()
            &&& forall|i: int| 0 <= i < args@.len() ==> (#[trigger] children@[i])@ == args@[i]@
        },
        *expr matches Expr::InList { expr: sought, list, .. } ==> {
            &&& result matches Ok(children)
            &&& children@.len() == list@.len() + 1
            &&& children@[0]@ == (*sought)@
            &&& forall|i: int| 0 <= i < list@.len() ==> children@[i + 1]@ == (#[trigger] list@[i])@
        },
{
    broadcast use {lemma_exprs_model_len, lemma_exprs_model_index};

    if let Ok(children) = result {
        assert(exprs_model(children@).len() == children@.len());
        match *expr {
            Expr::ScalarFunction { args, .. }
            | Expr::ScalarUDF { args, .. }
            | Expr::AggregateUDF { args, .. } => lemma_same_members(children@, args@),
            Expr::AggregateFunction { args, .. } => lemma_same_members(children@, args@),
            Expr::InList { expr: sought, list, .. } => {
                assert(exprs_model(children@) == seq![(*sought)@] + exprs_model(list@));
                assert(exprs_model(children@)[0] == children@[0]@);
                assert forall|i: int| 0 <= i < list@.len() implies children@[i + 1]@ == (
                #[trigger] list@[i])@ by {
                    assert(exprs_model(children@)[i + 1] == exprs_model(list@)[i]);
                }
            },
            _ => {},
        }
    }
}

/// The children of a window function are its arguments, a marker, its partitioning, another
/// marker and its ordering.
#[verifier::spinoff_prover]
#[verifier::rlimit(40)]
pub proof fn law_children_of_a_window_function(
    expr: &Expr,
    result: Result<Vec<Expr>, DataFusionError>,
)
    requires
        call_ensures(expr_sub_expressions, (expr,), result),
        *expr is WindowFunction,
    ensures
        *expr matches Expr::WindowFunction { args, partition_by, order_by, .. } && {
            let p = args@.len() as int;
            let s = p + 1 + partition_by@.len();
            &&& result matches Ok(children)
            &&& children@.len() == s + 1 + order_by@.len()
            &&& children@[p]@ == ExprModel::Literal(
                ScalarModel::Utf8(Some(WINDOW_PARTITION_MARKER@)),
            )
            &&& children@[s]@ == ExprModel::Literal(ScalarModel::Utf8(Some(WINDOW_SORT_MARKER@)))
            &&& forall|i: int| 0 <= i < p ==> children@[i]@ == (#[trigger] args@[i])@
            &&& forall|i: int|
                0 <= i < partition_by@.len() ==> children@[p + 1 + i]@ == (
                #[trigger] partition_by@[i])@
            &&& forall|i: int|
                0 <= i < order_by@.len() ==> children@[s + 1 + i]@ == (#[trigger] order_by@[i])@
        },
{
    broadcast use {lemma_exprs_model_len, lemma_exprs_model_index};

    if let Expr::WindowFunction { args, partition_by, order_by, .. } = *expr {
        if let Ok(children) = result {
            let all = exprs_model(children@);
            let p = args@.len() as int;
            let s = p + 1 + partition_by@.len();
            assert(all == exprs_model(args@) + seq![
                ExprModel::Literal(ScalarModel::Utf8(Some(WINDOW_PARTITION_MARKER@))),
            ] + exprs_model(partition_by@) + seq![
                ExprModel::Literal(ScalarModel::Utf8(Some(WINDOW_SORT_MARKER@))),
            ] + exprs_model(order_by@));
            assert(all.len() == children@.len());
            assert(all[p] == children@[p]@);
            assert(all[s] == children@[s]@);
            assert forall|i: int| 0 <= i < p implies children@[i]@ == (#[trigger] args@[i])@ by {
                assert(all[i] == exprs_model(args@)[i]);
            }
            assert forall|i: int| 0 <= i < partition_by@.len() implies children@[p + 1 + i]@ == (
            #[trigger] partition_by@[i])@ by {
                assert(all[p + 1 + i] == exprs_model(partition_by@)[i]);
            }
            assert forall|i: int| 0 <= i < order_by@.len() implies children@[s + 1 + i]@ == (
            #[trigger] order_by@[i])@ by {
                assert(all[s + 1 + i] == exprs_model(order_by@)[i]);
            }
        }
    }
}

/// The children of a `CASE` are its base expression behind a marker, the members of its branches
/// in a row, and its `ELSE` expression behind another marker.
#[verifier::spinoff_prover]
#[verifier::rlimit(40)]
pub proof fn law_children_of_a_case(expr: &Expr, result: Result<Vec<Expr>, DataFusionError>)
    requires
        call_ensures(expr_sub_expressions, (expr,), result),
        *expr is Case,
    ensures
        *expr matches Expr::Case { expr: base, when_then_expr: branches, else_expr } && {
            let b: int = if base is Some {
                2
            } else {
                0
            };
            let e = b + 2 * branches@.len();
            &&& result matches Ok(children)
            &&& children@.len() == e + (if else_expr is Some {
                2int
            } else {
                0
            })
            &&& base matches Some(inner) ==> {
                &&& children@[0]@ == ExprModel::Literal(ScalarModel::Utf8(Some(CASE_EXPR_MARKER@)))
                &&& children@[1]@ == (*inner)@
            }
            &&& forall|i: int|
                0 <= i < branches@.len() ==> {
                    &&& children@[b + 2 * i]@ == (*(#[trigger] branches@[i]).0)@
                    &&& children@[b + 2 * i + 1]@ == (*branches@[i].1)@
                }
            &&& else_expr matches Some(inner) ==> {
                &&& children@[e]@ == ExprModel::Literal(ScalarModel::Utf8(Some(CASE_ELSE_MARKER@)))
                &&& children@[e + 1]@ == (*inner)@
            }
        },
{
    if let Expr::Case { expr: base, when_then_expr: branches, else_expr } = *expr {
        let pairs = pairs_model(branches@);
        let children = result->Ok_0@;
        let all = exprs_model(children);
        let b: int = if base is Some {
            2
        } else {
            0
        };
        let e = b + 2 * branches@.len();
        lemma_children_of_case_model(expr, result);
        lemma_case_list_by_position(optional_model(base), pairs, optional_model(else_expr));
        assert(pairs.len() == branches@.len());
        lemma_exprs_model_len(children);
        if base is Some {
            lemma_exprs_model_index(children, 0);
            lemma_exprs_model_index(children, 1);
        }
        if else_expr is Some {
            lemma_exprs_model_index(children, e);
            lemma_exprs_model_index(children, e + 1);
        }
        assert forall|i: int| 0 <= i < branches@.len() implies {
            &&& children[b + 2 * i]@ == (*(#[trigger] branches@[i]).0)@
            &&& children[b + 2 * i + 1]@ == (*branches@[i].1)@
        } by {
            assert(pairs[i] == ((*branches@[i].0)@, (*branches@[i].1)@));
            lemma_exprs_model_index(children, b + 2 * i);
            lemma_exprs_model_index(children, b + 2 * i + 1);
        }
    }
}

proof fn lemma_children_of_case_model(expr: &Expr, result: Result<Vec<Expr>, DataFusionError>)
    requires
        call_ensures(expr_sub_expressions, (expr,), result),
    ensures
        *expr matches Expr::Case { expr: base, when_then_expr: branches, else_expr } ==> {
            &&& result is Ok
            &&& exprs_model(result->Ok_0@) == marked(CASE_EXPR_MARKER@, optional_model(base))
                + flattened(pairs_model(branches@)) + marked(
                CASE_ELSE_MARKER@,
                optional_model(else_expr),
            )
        },
{
}

/// Where the parts of a `CASE` stand in the list of its children.
#[verifier::spinoff_prover]
#[verifier::rlimit(40)]
proof fn lemma_case_list_by_position(
    base: Option<Box<ExprModel>>,
    pairs: Seq<(ExprModel, ExprModel)>,
    else_expr: Option<Box<ExprModel>>,
)
    ensures
        ({
            let list = marked(CASE_EXPR_MARKER@, base) + flattened(pairs) + marked(
                CASE_ELSE_MARKER@,
                else_expr,
            );
            let b: int = if base is Some {
                2
            } else {
                0
            };
            let e = b + 2 * pairs.len();
            &&& list.len() == e + (if else_expr is Some {
                2int
            } else {
                0
            })
            &&& base matches Some(inner) ==> list[0] == literal(CASE_EXPR_MARKER@) && list[1]
                == *inner
            &&& forall|i: int|
                0 <= i < pairs.len() ==> list[b + 2 * i] == (#[trigger] pairs[i]).0 && list[b + 2
                    * i + 1] == pairs[i].1
            &&& else_expr matches Some(inner) ==> list[e] == literal(CASE_ELSE_MARKER@) && list[e
                + 1] == *inner
        }),
{
    let first = marked(CASE_EXPR_MARKER@, base);
    let middle = flattened(pairs);
    let last = marked(CASE_ELSE_MARKER@, else_expr);
    let list = first + middle + last;
    let b = first.len() as int;
    assert forall|i: int| 0 <= i < pairs.len() implies list[b + 2 * i] == (#[trigger] pairs[i]).0
        && list[b + 2 * i + 1] == pairs[i].1 by {
        lemma_flattened_pair(pairs, i);
        assert(list[b + 2 * i] == middle[2 * i]);
        assert(list[b + 2 * i + 1] == middle[2 * i + 1]);
    }
}

proof fn lemma_flattened_pair(pairs: Seq<(ExprModel, ExprModel)>, i: int)
    requires
        0 <= i < pairs.len(),
    ensures
        flattened(pairs)[2 * i] == pairs[i].0,
        flattened(pairs)[2 * i + 1] == pairs[i].1,
{
    assert((2 * i + 1) / 2 == i && (2 * i + 1) % 2 == 1);
}

/// An expression can be rewritten from any list that has an expression for each of its operands,
/// or for a `CASE` any list of pairs; elsewhere from any list at all. Its children can always be
/// asked for.
pub proof fn law_rewriting_asks_for_operands_only(expr: &Expr, expressions: &[Expr])
    requires
        match *expr {
            Expr::BinaryExpr { .. } => expressions@.len() >= 2,
            Expr::Between { .. } => expressions@.len() >= 3,
            Expr::Case { .. } => expressions@.len() % 2 == 0,
            Expr::Alias(..)
            | Expr::Not(_)
            | Expr::Negative(_)
            | Expr::IsNull(_)
            | Expr::IsNotNull(_)
            | Expr::Cast { .. }
            | Expr::TryCast { .. }
            | Expr::Sort { .. } => expressions@.len() >= 1,
            _ => true,
        },
    ensures
        call_requires(rewrite_expression, (expr, expressions)),
        call_requires(expr_sub_expressions, (expr,)),
{
    assert(exprs_model(expressions@).len() == expressions@.len());
}

} // verus!
