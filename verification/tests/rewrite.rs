use arrow::datatypes::DataType;
use plan_rewrite::error::DataFusionError;
use plan_rewrite::expr::{
    lit, AggregateFunction, AggregateUDF, BuiltInWindowFunction, BuiltinScalarFunction, Column,
    Expr, Operator, ScalarUDF, WindowFrame, WindowFrameBound, WindowFrameUnits, WindowFunction,
};
use plan_rewrite::rewrite::{expr_sub_expressions, rewrite_expression};
use plan_rewrite::scalar::ScalarValue;
use std::sync::Arc;

fn col(name: &str) -> Expr {
    Expr::Column(Column::from_name(name.to_owned()))
}

fn boxed(name: &str) -> Box<Expr> {
    Box::new(col(name))
}

fn binary(left: Expr, op: Operator, right: Expr) -> Expr {
    Expr::BinaryExpr { left: Box::new(left), op, right: Box::new(right) }
}

fn number(n: i64) -> Expr {
    Expr::Literal(ScalarValue::Int64(Some(n)))
}

fn partition_marker() -> Expr {
    lit("__DATAFUSION_WINDOW_PARTITION__")
}

fn sort_marker() -> Expr {
    lit("__DATAFUSION_WINDOW_SORT__")
}

fn base_marker() -> Expr {
    lit("__DATAFUSION_CASE_EXPR__")
}

fn else_marker() -> Expr {
    lit("__DATAFUSION_CASE_ELSE__")
}

fn window(args: Vec<Expr>, partition_by: Vec<Expr>, order_by: Vec<Expr>) -> Expr {
    Expr::WindowFunction {
        fun: WindowFunction::BuiltInWindowFunction(BuiltInWindowFunction::Lag),
        args,
        partition_by,
        order_by,
        window_frame: Some(WindowFrame {
            units: WindowFrameUnits::Rows,
            start_bound: WindowFrameBound::Preceding(Some(2)),
            end_bound: WindowFrameBound::CurrentRow,
        }),
    }
}

fn case(base: Option<Expr>, branches: Vec<(Expr, Expr)>, other: Option<Expr>) -> Expr {
    Expr::Case {
        expr: base.map(Box::new),
        when_then_expr: branches.into_iter().map(|(w, t)| (Box::new(w), Box::new(t))).collect(),
        else_expr: other.map(Box::new),
    }
}

fn between(negated: bool) -> Expr {
    Expr::Between { expr: boxed("a"), negated, low: boxed("b"), high: boxed("c") }
}

fn wildcard_error() -> DataFusionError {
    DataFusionError::Internal(
        "Wildcard expressions are not valid in a logical query plan".to_owned(),
    )
}

/// Expressions that come back when they are rebuilt from their own children, with the children.
fn coming_back() -> Vec<(Expr, Vec<Expr>)> {
    vec![
        (Expr::Alias(boxed("a"), "b".to_owned()), vec![col("a")]),
        (col("a"), vec![]),
        (Expr::ScalarVariable(vec!["@@a".to_owned()]), vec![]),
        (number(3), vec![]),
        (binary(col("a"), Operator::Plus, col("b")), vec![col("a"), col("b")]),
        (Expr::Not(boxed("a")), vec![col("a")]),
        (Expr::IsNotNull(boxed("a")), vec![col("a")]),
        (Expr::IsNull(boxed("a")), vec![col("a")]),
        (Expr::Negative(boxed("a")), vec![col("a")]),
        (Expr::Cast { expr: boxed("a"), data_type: DataType::Int8 }, vec![col("a")]),
        (Expr::TryCast { expr: boxed("a"), data_type: DataType::Utf8 }, vec![col("a")]),
        (Expr::Sort { expr: boxed("a"), asc: true, nulls_first: false }, vec![col("a")]),
        (
            Expr::ScalarFunction {
                fun: BuiltinScalarFunction { name: "concat".to_owned() },
                args: vec![col("a"), col("b")],
            },
            vec![col("a"), col("b")],
        ),
        (
            Expr::ScalarUDF {
                fun: Arc::new(ScalarUDF { name: "f".to_owned() }),
                args: vec![col("a")],
            },
            vec![col("a")],
        ),
        (
            Expr::AggregateFunction {
                fun: AggregateFunction::Sum,
                args: vec![col("a")],
                distinct: true,
            },
            vec![col("a")],
        ),
        (
            Expr::AggregateUDF {
                fun: Arc::new(AggregateUDF { name: "g".to_owned() }),
                args: vec![],
            },
            vec![],
        ),
        (
            window(vec![col("a")], vec![col("b"), col("c")], vec![col("d")]),
            vec![
                col("a"),
                partition_marker(),
                col("b"),
                col("c"),
                sort_marker(),
                col("d"),
            ],
        ),
        (window(vec![], vec![], vec![]), vec![partition_marker(), sort_marker()]),
        (
            case(Some(col("a")), vec![(number(1), col("b")), (number(2), col("c"))], Some(col("d"))),
            vec![
                base_marker(),
                col("a"),
                number(1),
                col("b"),
                number(2),
                col("c"),
                else_marker(),
                col("d"),
            ],
        ),
        (case(None, vec![(col("a"), col("b"))], None), vec![col("a"), col("b")]),
        (case(None, vec![], None), vec![]),
        (
            Expr::InList { expr: boxed("a"), list: vec![number(1), number(2)], negated: true },
            vec![col("a"), number(1), number(2)],
        ),
    ]
}

#[test]
fn children_of_a_sum() {
    // (a + 1) + 1
    let inner = binary(col("a"), Operator::Plus, number(1));
    let outer = binary(inner.clone(), Operator::Plus, number(1));
    assert_eq!(expr_sub_expressions(&outer), Ok(vec![inner, number(1)]));
}

#[test]
fn children_come_in_order_with_markers() {
    for (expr, children) in coming_back() {
        assert_eq!(expr_sub_expressions(&expr), Ok(children));
    }
    assert_eq!(expr_sub_expressions(&between(false)), Ok(vec![col("a"), col("b"), col("c")]));
}

#[test]
fn wildcard_has_no_children() {
    assert_eq!(expr_sub_expressions(&Expr::Wildcard), Err(wildcard_error()));
}

#[test]
fn wildcard_cannot_be_rewritten() {
    assert_eq!(rewrite_expression(&Expr::Wildcard, &[]), Err(wildcard_error()));
    assert_eq!(rewrite_expression(&Expr::Wildcard, &[col("a")]), Err(wildcard_error()));
}

#[test]
fn own_children_give_it_back() {
    for (expr, children) in coming_back() {
        assert_eq!(rewrite_expression(&expr, &children), Ok(expr));
    }
}

#[test]
fn right_length_suffices() {
    for (expr, children) in coming_back() {
        let others: Vec<Expr> = children.iter().map(|_| col("x")).collect();
        let rewritten = rewrite_expression(&expr, &others);
        match expr {
            Expr::WindowFunction { .. } => assert!(rewritten.is_err()),
            _ => assert!(rewritten.is_ok()),
        }
    }
}

#[test]
fn everything_else_stays() {
    let x = [col("x"), col("y")];
    let boxed_x = boxed("x");
    assert_eq!(
        rewrite_expression(&Expr::Alias(boxed("a"), "b".to_owned()), &x),
        Ok(Expr::Alias(boxed_x.clone(), "b".to_owned()))
    );
    assert_eq!(
        rewrite_expression(&binary(col("a"), Operator::Like, col("b")), &x),
        Ok(binary(col("x"), Operator::Like, col("y")))
    );
    assert_eq!(
        rewrite_expression(&Expr::Cast { expr: boxed("a"), data_type: DataType::Int16 }, &x),
        Ok(Expr::Cast { expr: boxed_x.clone(), data_type: DataType::Int16 })
    );
    assert_eq!(
        rewrite_expression(&Expr::TryCast { expr: boxed("a"), data_type: DataType::Date32 }, &x),
        Ok(Expr::TryCast { expr: boxed_x.clone(), data_type: DataType::Date32 })
    );
    assert_eq!(
        rewrite_expression(&Expr::Sort { expr: boxed("a"), asc: false, nulls_first: true }, &x),
        Ok(Expr::Sort { expr: boxed_x.clone(), asc: false, nulls_first: true })
    );
    assert_eq!(rewrite_expression(&Expr::Not(boxed("a")), &x), Ok(Expr::Not(boxed_x.clone())));
    assert_eq!(
        rewrite_expression(&Expr::Negative(boxed("a")), &x),
        Ok(Expr::Negative(boxed_x.clone()))
    );
    assert_eq!(
        rewrite_expression(&Expr::IsNull(boxed("a")), &x),
        Ok(Expr::IsNull(boxed_x.clone()))
    );
    assert_eq!(
        rewrite_expression(&Expr::IsNotNull(boxed("a")), &x),
        Ok(Expr::IsNotNull(boxed_x))
    );
    assert_eq!(
        rewrite_expression(
            &Expr::AggregateFunction {
                fun: AggregateFunction::Count,
                args: vec![col("a")],
                distinct: true,
            },
            &x
        ),
        Ok(Expr::AggregateFunction {
            fun: AggregateFunction::Count,
            args: vec![col("x"), col("y")],
            distinct: true,
        })
    );
}

#[test]
fn leaves_ignore_the_list() {
    let x = [col("x")];
    assert_eq!(rewrite_expression(&col("a"), &x), Ok(col("a")));
    assert_eq!(rewrite_expression(&number(1), &x), Ok(number(1)));
    let variable = Expr::ScalarVariable(vec!["@@a".to_owned()]);
    assert_eq!(rewrite_expression(&variable, &x), Ok(variable));
}

#[test]
fn in_list_takes_the_given_expressions() {
    let expr = Expr::InList { expr: boxed("a"), list: vec![number(1)], negated: true };
    assert_eq!(
        rewrite_expression(&expr, &[col("b"), number(2), number(3)]),
        Ok(Expr::InList { expr: boxed("b"), list: vec![number(2), number(3)], negated: true })
    );
    assert_eq!(
        rewrite_expression(&expr, &[col("b")]),
        Ok(Expr::InList { expr: boxed("b"), list: vec![], negated: true })
    );
    // Without anything to put in, nothing is replaced.
    assert_eq!(rewrite_expression(&expr, &[]), Ok(expr));
}

#[test]
fn between_is_spelled_out() {
    let children = expr_sub_expressions(&between(false)).unwrap();
    let test = binary(
        binary(col("a"), Operator::GtEq, col("b")),
        Operator::And,
        binary(col("a"), Operator::LtEq, col("c")),
    );
    assert_eq!(rewrite_expression(&between(false), &children), Ok(test.clone()));
    assert_eq!(rewrite_expression(&between(true), &children), Ok(Expr::Not(Box::new(test))));
}

#[test]
fn window_function_is_cut_at_its_markers() {
    let expr = window(vec![col("a")], vec![], vec![]);
    let list = vec![
        col("x"),
        col("y"),
        partition_marker(),
        col("z"),
        sort_marker(),
        col("v"),
        col("w"),
    ];
    assert_eq!(
        rewrite_expression(&expr, &list),
        Ok(window(vec![col("x"), col("y")], vec![col("z")], vec![col("v"), col("w")]))
    );
}

#[test]
fn window_function_without_partition_marker() {
    let expr = window(vec![], vec![], vec![]);
    let error = DataFusionError::Internal(
        "Ill-formed window function expressions: unexpected marker".to_owned(),
    );
    assert_eq!(rewrite_expression(&expr, &[sort_marker()]), Err(error));
}

#[test]
fn window_function_without_sort_marker() {
    let expr = window(vec![], vec![], vec![]);
    let error = DataFusionError::Internal("Ill-formed window function expressions".to_owned());
    assert_eq!(rewrite_expression(&expr, &[partition_marker()]), Err(error));
}

#[test]
fn window_function_with_markers_the_wrong_way_round() {
    let expr = window(vec![], vec![], vec![]);
    let error = DataFusionError::Internal(
        "Ill-formed window function expressions: partition index too large".to_owned(),
    );
    assert_eq!(rewrite_expression(&expr, &[sort_marker(), partition_marker()]), Err(error));
}

#[test]
fn window_function_with_a_marker_among_its_arguments() {
    // The first marker of a kind counts, so this one does not come back.
    let expr = window(vec![partition_marker(), col("a")], vec![col("b")], vec![]);
    let children = expr_sub_expressions(&expr).unwrap();
    assert_eq!(
        rewrite_expression(&expr, &children),
        Ok(window(vec![], vec![col("a"), partition_marker(), col("b")], vec![]))
    );
}

#[test]
fn case_is_read_in_pairs() {
    let expr = case(None, vec![(col("a"), col("b"))], None);
    let list = vec![
        else_marker(),
        col("v"),
        col("w"),
        col("x"),
        base_marker(),
        col("y"),
        base_marker(),
        col("z"),
    ];
    assert_eq!(
        rewrite_expression(&expr, &list),
        Ok(case(Some(col("z")), vec![(col("w"), col("x"))], Some(col("v"))))
    );
    // A marker in the place of a value is a value.
    assert_eq!(
        rewrite_expression(&expr, &[col("a"), else_marker()]),
        Ok(case(None, vec![(col("a"), else_marker())], None))
    );
}

#[test]
fn case_with_a_marker_among_its_conditions() {
    let expr = case(None, vec![(else_marker(), col("a"))], None);
    let children = expr_sub_expressions(&expr).unwrap();
    assert_eq!(rewrite_expression(&expr, &children), Ok(case(None, vec![], Some(col("a")))));
}

#[test]
fn rebuilt_has_given_children() {
    let sum = binary(col("a"), Operator::Plus, col("b"));
    let list = vec![col("x"), col("y")];
    let rebuilt = rewrite_expression(&sum, &list).unwrap();
    assert_eq!(expr_sub_expressions(&rebuilt), Ok(list));

    let whole = case(Some(col("a")), vec![(number(1), col("b"))], Some(col("c")));
    let list =
        vec![base_marker(), col("x"), number(7), col("y"), else_marker(), col("z")];
    let rebuilt = rewrite_expression(&whole, &list).unwrap();
    assert_eq!(expr_sub_expressions(&rebuilt), Ok(list));

    let ranked = window(vec![col("a")], vec![col("b")], vec![col("c")]);
    let list = vec![col("x"), partition_marker(), col("y"), sort_marker(), col("z")];
    let rebuilt = rewrite_expression(&ranked, &list).unwrap();
    assert_eq!(expr_sub_expressions(&rebuilt), Ok(list));
}

#[test]
fn rebuilt_has_more_or_fewer_children() {
    let call = Expr::ScalarFunction {
        fun: BuiltinScalarFunction { name: "concat".to_owned() },
        args: vec![col("a")],
    };
    let list = vec![col("x"), col("y"), col("z")];
    let rebuilt = rewrite_expression(&call, &list).unwrap();
    assert_eq!(expr_sub_expressions(&rebuilt), Ok(list));

    let ranked = window(vec![col("a")], vec![col("b")], vec![col("c")]);
    let list = vec![partition_marker(), col("x"), col("y"), sort_marker()];
    let rebuilt = rewrite_expression(&ranked, &list).unwrap();
    assert_eq!(expr_sub_expressions(&rebuilt), Ok(list));

    let member = Expr::InList { expr: boxed("a"), list: vec![number(1)], negated: false };
    let list = vec![col("x"), number(2), number(3)];
    let rebuilt = rewrite_expression(&member, &list).unwrap();
    assert_eq!(expr_sub_expressions(&rebuilt), Ok(list));
}

#[test]
fn rebuilt_does_not_have_what_it_cannot_take() {
    let not = Expr::Not(boxed("a"));
    let rebuilt = rewrite_expression(&not, &[col("x"), col("y")]).unwrap();
    assert_eq!(expr_sub_expressions(&rebuilt), Ok(vec![col("x")]));

    let whole = case(None, vec![(col("a"), col("b"))], Some(col("c")));
    let list = vec![else_marker(), col("x"), col("y"), col("z")];
    let rebuilt = rewrite_expression(&whole, &list).unwrap();
    assert_eq!(
        expr_sub_expressions(&rebuilt),
        Ok(vec![col("y"), col("z"), else_marker(), col("x")])
    );
}

#[test]
fn second_rewrite_decides() {
    let sum = binary(col("a"), Operator::Plus, col("b"));
    let first = rewrite_expression(&sum, &[col("v"), col("w")]).unwrap();
    let second = [col("x"), col("y")];
    assert_eq!(rewrite_expression(&first, &second), rewrite_expression(&sum, &second));

    let member = Expr::InList { expr: boxed("a"), list: vec![number(1)], negated: false };
    let first = rewrite_expression(&member, &[col("v"), number(2), number(3)]).unwrap();
    assert_eq!(rewrite_expression(&first, &second), rewrite_expression(&member, &second));
}
