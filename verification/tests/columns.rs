use arrow::datatypes::DataType;
use plan_rewrite::columns::{expr_to_columns, exprlist_to_columns, ColumnSet};
use plan_rewrite::error::DataFusionError;
use plan_rewrite::expr::{
    lit, AggregateFunction, AggregateUDF, BuiltinScalarFunction, Column, Expr, Operator, ScalarUDF,
    WindowFunction,
};
use plan_rewrite::rewrite::{expr_sub_expressions, rewrite_expression};
use std::sync::Arc;

fn col(name: &str) -> Expr {
    Expr::Column(Column::from_name(name.to_owned()))
}

fn column(name: &str) -> Column {
    Column::from_name(name.to_owned())
}

fn boxed(name: &str) -> Box<Expr> {
    Box::new(col(name))
}

fn qualified(relation: &str, name: &str) -> Column {
    Column { relation: Some(relation.to_owned()), name: name.to_owned() }
}

fn collect(expr: &Expr) -> ColumnSet {
    let mut accum = ColumnSet::new();
    assert_eq!(expr_to_columns(expr, &mut accum), Ok(()));
    accum
}

fn assert_refers(expr: &Expr, names: &[&str]) {
    let accum = collect(expr);
    assert_eq!(accum.len(), names.len());
    for name in names {
        assert!(accum.contains(&column(name)), "{} is missing in {:?}", name, accum);
    }
}

fn one_of_each() -> Vec<(Expr, Vec<&'static str>)> {
    vec![
        (Expr::Alias(boxed("a"), "b".to_owned()), vec!["a"]),
        (col("a"), vec!["a"]),
        (Expr::ScalarVariable(vec!["@@a".to_owned(), "b".to_owned()]), vec!["@@a.b"]),
        (lit("a"), vec![]),
        (
            Expr::BinaryExpr { left: boxed("a"), op: Operator::Plus, right: boxed("b") },
            vec!["a", "b"],
        ),
        (Expr::Not(boxed("a")), vec!["a"]),
        (Expr::IsNotNull(boxed("a")), vec!["a"]),
        (Expr::IsNull(boxed("a")), vec!["a"]),
        (Expr::Negative(boxed("a")), vec!["a"]),
        (
            Expr::Between { expr: boxed("a"), negated: true, low: boxed("b"), high: boxed("c") },
            vec!["a", "b", "c"],
        ),
        (
            Expr::Case {
                expr: Some(boxed("a")),
                when_then_expr: vec![(boxed("b"), boxed("c")), (boxed("d"), boxed("e"))],
                else_expr: Some(boxed("f")),
            },
            vec!["a", "b", "c", "d", "e", "f"],
        ),
        (Expr::Cast { expr: boxed("a"), data_type: DataType::Int8 }, vec!["a"]),
        (Expr::TryCast { expr: boxed("a"), data_type: DataType::Int8 }, vec!["a"]),
        (Expr::Sort { expr: boxed("a"), asc: true, nulls_first: false }, vec!["a"]),
        (
            Expr::ScalarFunction {
                fun: BuiltinScalarFunction { name: "concat".to_owned() },
                args: vec![col("a"), col("b")],
            },
            vec!["a", "b"],
        ),
        (
            Expr::ScalarUDF {
                fun: Arc::new(ScalarUDF { name: "f".to_owned() }),
                args: vec![col("a"), col("b")],
            },
            vec!["a", "b"],
        ),
        (
            Expr::AggregateFunction {
                fun: AggregateFunction::Sum,
                args: vec![col("a")],
                distinct: false,
            },
            vec!["a"],
        ),
        (
            Expr::WindowFunction {
                fun: WindowFunction::AggregateFunction(AggregateFunction::Max),
                args: vec![col("a")],
                partition_by: vec![col("b")],
                order_by: vec![col("c")],
                window_frame: None,
            },
            vec!["a", "b", "c"],
        ),
        (
            Expr::AggregateUDF {
                fun: Arc::new(AggregateUDF { name: "g".to_owned() }),
                args: vec![col("a"), col("b")],
            },
            vec!["a", "b"],
        ),
        (
            Expr::InList { expr: boxed("a"), list: vec![col("b"), col("c")], negated: false },
            vec!["a", "b", "c"],
        ),
    ]
}

#[test]
fn test_collect_expr() -> Result<(), DataFusionError> {
    let mut accum: ColumnSet = ColumnSet::new();
    expr_to_columns(
        &Expr::Cast { expr: Box::new(col("a")), data_type: DataType::Float64 },
        &mut accum,
    )?;
    expr_to_columns(
        &Expr::Cast { expr: Box::new(col("a")), data_type: DataType::Float64 },
        &mut accum,
    )?;
    assert_eq!(1, accum.len());
    assert!(accum.contains(&Column::from_name("a".to_owned())));
    Ok(())
}

#[test]
fn every_kind_of_expression_is_walked() {
    for (expr, names) in one_of_each() {
        assert_refers(&expr, &names);
    }
    assert_refers(&Expr::Wildcard, &[]);
}

#[test]
fn variable_is_named_by_its_parts() {
    let names = vec!["@@session".to_owned(), "time".to_owned(), "zone".to_owned()];
    assert_refers(&Expr::ScalarVariable(names), &["@@session.time.zone"]);
    assert_refers(&Expr::ScalarVariable(vec![]), &[""]);
    assert_refers(&Expr::ScalarVariable(vec!["@@x".to_owned()]), &["@@x"]);
}

#[test]
fn relation_tells_columns_apart() {
    let expr = Expr::BinaryExpr {
        left: Box::new(Expr::Column(qualified("t", "a"))),
        op: Operator::Eq,
        right: Box::new(Expr::BinaryExpr {
            left: Box::new(Expr::Column(qualified("u", "a"))),
            op: Operator::Eq,
            right: boxed("a"),
        }),
    };
    let accum = collect(&expr);
    assert_eq!(accum.len(), 3);
    assert!(accum.contains(&qualified("t", "a")));
    assert!(accum.contains(&qualified("u", "a")));
    assert!(accum.contains(&column("a")));
    assert!(!accum.contains(&qualified("v", "a")));
    assert!(!accum.contains(&qualified("t", "b")));
}

#[test]
fn collected_columns_stay() {
    let mut accum = ColumnSet::new();
    assert!(accum.insert(column("z")));
    assert!(!accum.insert(column("z")));
    assert_eq!(expr_to_columns(&col("a"), &mut accum), Ok(()));
    assert_eq!(accum.len(), 2);
    assert!(accum.contains(&column("z")));
    assert!(accum.contains(&column("a")));
    assert!(!accum.contains(&column("b")));
}

#[test]
fn list_refers_to_columns_of_its_members() {
    let list = vec![col("a"), Expr::Not(boxed("b")), lit("c"), col("a")];
    let mut accum = ColumnSet::new();
    assert_eq!(exprlist_to_columns(&list, &mut accum), Ok(()));
    assert_eq!(accum.len(), 2);
    assert!(accum.contains(&column("a")));
    assert!(accum.contains(&column("b")));

    let mut none = ColumnSet::new();
    assert_eq!(exprlist_to_columns(&[], &mut none), Ok(()));
    assert_eq!(none.len(), 0);
}

#[test]
fn lists_add_up_in_any_order() {
    let (first, second) = (vec![col("a"), col("b")], vec![col("b"), col("c")]);
    let mut forwards = ColumnSet::new();
    assert_eq!(exprlist_to_columns(&first, &mut forwards), Ok(()));
    assert_eq!(exprlist_to_columns(&second, &mut forwards), Ok(()));
    let mut backwards = ColumnSet::new();
    assert_eq!(exprlist_to_columns(&second, &mut backwards), Ok(()));
    assert_eq!(exprlist_to_columns(&first, &mut backwards), Ok(()));
    for accum in [&forwards, &backwards] {
        assert_eq!(accum.len(), 3);
        for name in ["a", "b", "c"] {
            assert!(accum.contains(&column(name)));
        }
    }
}

#[test]
fn columns_come_from_children() {
    for (expr, names) in one_of_each() {
        if matches!(expr, Expr::Column(_) | Expr::ScalarVariable(_)) {
            continue;
        }
        let children = expr_sub_expressions(&expr).unwrap();
        let mut accum = ColumnSet::new();
        assert_eq!(exprlist_to_columns(&children, &mut accum), Ok(()));
        assert_eq!(accum.len(), names.len());
        for name in names {
            assert!(accum.contains(&column(name)));
        }
    }
}

#[test]
fn rebuilt_refers_to_given_columns() {
    let sum = Expr::BinaryExpr { left: boxed("a"), op: Operator::Plus, right: boxed("b") };
    assert_refers(&rewrite_expression(&sum, &[col("x"), col("y")]).unwrap(), &["x", "y"]);
    let between =
        Expr::Between { expr: boxed("a"), negated: true, low: boxed("b"), high: boxed("c") };
    let rebuilt = rewrite_expression(&between, &[col("x"), col("y"), col("z")]).unwrap();
    assert_refers(&rebuilt, &["x", "y", "z"]);
    let member = Expr::InList { expr: boxed("a"), list: vec![col("b")], negated: false };
    let rebuilt = rewrite_expression(&member, &[col("x"), col("y"), col("z")]).unwrap();
    assert_refers(&rebuilt, &["x", "y", "z"]);
    let call = Expr::ScalarFunction {
        fun: BuiltinScalarFunction { name: "concat".to_owned() },
        args: vec![col("a"), col("b")],
    };
    assert_refers(&rewrite_expression(&call, &[col("x")]).unwrap(), &["x"]);
}

#[test]
fn set_hands_out_its_columns() {
    let sum = Expr::BinaryExpr { left: boxed("b"), op: Operator::Plus, right: boxed("a") };
    let mut accum = ColumnSet::new();
    assert!(accum.columns().is_empty());
    assert_eq!(exprlist_to_columns(&[sum, col("b"), col("c")], &mut accum), Ok(()));
    assert_eq!(accum.columns(), &vec![column("b"), column("a"), column("c")]);
}
