use arrow::datatypes::{DataType, TimeUnit};
use plan_rewrite::expr::{
    lit, AggregateFunction, AggregateUDF, BuiltInWindowFunction, BuiltinScalarFunction, Column,
    Expr, Operator, ScalarUDF, WindowFrame, WindowFrameBound, WindowFrameUnits, WindowFunction,
};
use plan_rewrite::scalar::ScalarValue;
use std::sync::Arc;

fn col(name: &str) -> Expr {
    Expr::Column(Column::from_name(name.to_owned()))
}

fn boxed(name: &str) -> Box<Expr> {
    Box::new(col(name))
}

fn value(value: ScalarValue) -> String {
    Expr::Literal(value).text()
}

#[test]
fn text_of_columns() {
    assert_eq!(col("a").text(), "#a");
    let column = Column { relation: Some("t".to_owned()), name: "a".to_owned() };
    assert_eq!(Expr::Column(column).text(), "#t.a");
    let variable = Expr::ScalarVariable(vec!["@@a".to_owned(), "b".to_owned()]);
    assert_eq!(variable.text(), "@@a.b");
}

#[test]
fn text_of_types() {
    let cast = Expr::Cast { expr: boxed("a"), data_type: DataType::Float64 };
    assert_eq!(cast.text(), "CAST(#a AS Float64)");
    let timestamp = DataType::Timestamp(TimeUnit::Second, None);
    let cast = Expr::TryCast { expr: boxed("a"), data_type: timestamp };
    assert_eq!(cast.text(), "TRY_CAST(#a AS Timestamp(Second, None))");
}

#[test]
fn text_of_numbers() {
    assert_eq!(value(ScalarValue::Int64(Some(0))), "Int64(0)");
    assert_eq!(value(ScalarValue::Int64(Some(1203))), "Int64(1203)");
    assert_eq!(value(ScalarValue::Int64(Some(i64::MAX))), "Int64(9223372036854775807)");
    assert_eq!(value(ScalarValue::Int64(Some(i64::MIN))), "Int64(-9223372036854775808)");
    assert_eq!(value(ScalarValue::UInt64(Some(u64::MAX))), "UInt64(18446744073709551615)");
    assert_eq!(value(ScalarValue::Int8(Some(-128))), "Int8(-128)");
    assert_eq!(value(ScalarValue::Int16(Some(-1))), "Int16(-1)");
    assert_eq!(value(ScalarValue::Int32(Some(70))), "Int32(70)");
    assert_eq!(value(ScalarValue::UInt8(Some(255))), "UInt8(255)");
    assert_eq!(value(ScalarValue::UInt16(Some(9))), "UInt16(9)");
    assert_eq!(value(ScalarValue::UInt32(Some(10))), "UInt32(10)");
    assert_eq!(value(ScalarValue::Float32(Some("1.5".to_owned()))), "Float32(1.5)");
    assert_eq!(value(ScalarValue::Float64(Some("-0.1".to_owned()))), "Float64(-0.1)");
}

#[test]
fn text_of_other_values() {
    assert_eq!(value(ScalarValue::Boolean(Some(true))), "Boolean(true)");
    assert_eq!(value(ScalarValue::Boolean(Some(false))), "Boolean(false)");
    assert_eq!(value(ScalarValue::Utf8(Some("x y".to_owned()))), "Utf8(\"x y\")");
    assert_eq!(value(ScalarValue::LargeUtf8(Some(String::new()))), "LargeUtf8(\"\")");
    assert_eq!(value(ScalarValue::Binary(Some(vec![1, 20, 0]))), "Binary(\"1,20,0\")");
    assert_eq!(value(ScalarValue::LargeBinary(Some(vec![7]))), "LargeBinary(\"7\")");
    assert_eq!(value(ScalarValue::Date32(Some(-3))), "Date32(\"-3\")");
    assert_eq!(value(ScalarValue::Date64(Some(4))), "Date64(\"4\")");
    assert_eq!(value(ScalarValue::TimestampSecond(Some(5))), "TimestampSecond(5)");
    assert_eq!(value(ScalarValue::TimestampMillisecond(Some(5))), "TimestampMillisecond(5)");
    assert_eq!(value(ScalarValue::TimestampMicrosecond(Some(5))), "TimestampMicrosecond(5)");
    assert_eq!(value(ScalarValue::TimestampNanosecond(Some(5))), "TimestampNanosecond(5)");
    assert_eq!(value(ScalarValue::IntervalYearMonth(Some(13))), "IntervalYearMonth(\"13\")");
    assert_eq!(value(ScalarValue::IntervalDayTime(Some(-1))), "IntervalDayTime(\"-1\")");
    let items = vec![ScalarValue::Int32(Some(1)), ScalarValue::Int32(None)];
    assert_eq!(value(ScalarValue::List(Some(items), DataType::Int32)), "List([1,NULL])");
}

#[test]
fn text_of_nulls() {
    assert_eq!(value(ScalarValue::Boolean(None)), "Boolean(NULL)");
    assert_eq!(value(ScalarValue::Float64(None)), "Float64(NULL)");
    assert_eq!(value(ScalarValue::Int64(None)), "Int64(NULL)");
    assert_eq!(value(ScalarValue::Utf8(None)), "Utf8(NULL)");
    assert_eq!(value(ScalarValue::LargeUtf8(None)), "LargeUtf8(NULL)");
    assert_eq!(value(ScalarValue::Binary(None)), "Binary(NULL)");
    assert_eq!(value(ScalarValue::LargeBinary(None)), "LargeBinary(NULL)");
    assert_eq!(value(ScalarValue::Date32(None)), "Date32(\"NULL\")");
    assert_eq!(value(ScalarValue::List(None, DataType::Int32)), "List([NULL])");
}

#[test]
fn text_of_operators() {
    let all = [
        (Operator::Eq, "="),
        (Operator::NotEq, "!="),
        (Operator::Lt, "<"),
        (Operator::LtEq, "<="),
        (Operator::Gt, ">"),
        (Operator::GtEq, ">="),
        (Operator::Plus, "+"),
        (Operator::Minus, "-"),
        (Operator::Multiply, "*"),
        (Operator::Divide, "/"),
        (Operator::Modulo, "%"),
        (Operator::And, "AND"),
        (Operator::Or, "OR"),
        (Operator::Like, "LIKE"),
        (Operator::NotLike, "NOT LIKE"),
        (Operator::RegexMatch, "~"),
        (Operator::RegexIMatch, "~*"),
        (Operator::RegexNotMatch, "!~"),
        (Operator::RegexNotIMatch, "!~*"),
    ];
    for (op, text) in all {
        let expr = Expr::BinaryExpr { left: boxed("a"), op, right: Box::new(lit("x")) };
        assert_eq!(expr.text(), format!("#a {} Utf8(\"x\")", text));
    }
}

#[test]
fn text_of_small_expressions() {
    assert_eq!(Expr::Alias(boxed("a"), "b".to_owned()).text(), "#a AS b");
    assert_eq!(Expr::Not(boxed("a")).text(), "NOT #a");
    assert_eq!(Expr::Negative(boxed("a")).text(), "(- #a)");
    assert_eq!(Expr::IsNull(boxed("a")).text(), "#a IS NULL");
    assert_eq!(Expr::IsNotNull(boxed("a")).text(), "#a IS NOT NULL");
    assert_eq!(Expr::Wildcard.text(), "*");
    let sort = Expr::Sort { expr: boxed("a"), asc: false, nulls_first: true };
    assert_eq!(sort.text(), "#a DESC NULLS FIRST");
    let between =
        |negated| Expr::Between { expr: boxed("a"), negated, low: boxed("b"), high: boxed("c") };
    assert_eq!(between(false).text(), "#a BETWEEN #b AND #c");
    assert_eq!(between(true).text(), "#a NOT BETWEEN #b AND #c");
    let listed =
        |negated| Expr::InList { expr: boxed("a"), list: vec![col("b"), col("c")], negated };
    assert_eq!(listed(false).text(), "#a IN ([#b, #c])");
    assert_eq!(listed(true).text(), "#a NOT IN ([#b, #c])");
}

#[test]
fn text_of_functions() {
    let args = vec![col("a"), col("b")];
    let builtin = Expr::ScalarFunction {
        fun: BuiltinScalarFunction { name: "concat".to_owned() },
        args: args.clone(),
    };
    assert_eq!(builtin.text(), "concat(#a, #b)");
    let user =
        Expr::ScalarUDF { fun: Arc::new(ScalarUDF { name: "f".to_owned() }), args: args.clone() };
    assert_eq!(user.text(), "f(#a, #b)");
    let user =
        Expr::AggregateUDF { fun: Arc::new(AggregateUDF { name: "g".to_owned() }), args: vec![] };
    assert_eq!(user.text(), "g()");
    let count = |distinct| Expr::AggregateFunction {
        fun: AggregateFunction::Count,
        args: vec![col("a")],
        distinct,
    };
    assert_eq!(count(false).text(), "COUNT(#a)");
    assert_eq!(count(true).text(), "COUNT(DISTINCT #a)");
}

#[test]
fn text_of_window_functions() {
    let bare = Expr::WindowFunction {
        fun: WindowFunction::AggregateFunction(AggregateFunction::Max),
        args: vec![col("a")],
        partition_by: vec![],
        order_by: vec![],
        window_frame: None,
    };
    assert_eq!(bare.text(), "MAX(#a)");
    let full = Expr::WindowFunction {
        fun: WindowFunction::BuiltInWindowFunction(BuiltInWindowFunction::NthValue),
        args: vec![col("a")],
        partition_by: vec![col("b"), col("c")],
        order_by: vec![col("d")],
        window_frame: Some(WindowFrame {
            units: WindowFrameUnits::Rows,
            start_bound: WindowFrameBound::Preceding(Some(12)),
            end_bound: WindowFrameBound::Following(None),
        }),
    };
    assert_eq!(
        full.text(),
        "NTH_VALUE(#a) PARTITION BY [#b, #c] ORDER BY [#d] ROWS BETWEEN 12 PRECEDING AND \
         UNBOUNDED FOLLOWING"
    );
}

#[test]
fn text_of_cases() {
    let full = Expr::Case {
        expr: Some(boxed("a")),
        when_then_expr: vec![(boxed("b"), boxed("c")), (boxed("d"), boxed("e"))],
        else_expr: Some(boxed("f")),
    };
    assert_eq!(full.text(), "CASE #a WHEN #b THEN #c WHEN #d THEN #e ELSE #f END");
    let bare =
        Expr::Case { expr: None, when_then_expr: vec![(boxed("b"), boxed("c"))], else_expr: None };
    assert_eq!(bare.text(), "CASE WHEN #b THEN #c END");
}
