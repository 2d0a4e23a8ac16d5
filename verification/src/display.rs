//! The text of expressions and plans, as `EXPLAIN` shows it.
use arrow::datatypes::DataType;
use vstd::prelude::*;
use vstd::string::StringExecFns;

use crate::expr::{
    exprs_model, lemma_exprs_model_index, lemma_exprs_model_len, optional_model, pairs_model,
    strings_model, AggregateFunction, BuiltInWindowFunction, Column, ColumnModel, Expr, ExprModel,
    Operator, WindowFrame, WindowFrameBound, WindowFrameUnits, WindowFunction,
};
use crate::plan::{
    borrowed_model, join_keys_model, plan_height, plan_inputs, plans_height, projection_model,
    JoinConstraint, LogicalPlan, Partitioning, PartitioningModel, PlanModel, UserDefinedLogicalNode,
};
use crate::scalar::{scalars_model, ScalarModel, ScalarValue};
use crate::text::{decimal, decimal_text, join, joined, signed_decimal, signed_decimal_text};

verus! {

/// How a type is written.
pub uninterp spec fn data_type_text(data_type: DataType) -> Seq<char>;

/// Calls `<DataType as Debug>::fmt` through `format!`: what it writes depends on the type alone.
#[verifier::external_body]
fn write_data_type(data_type: &DataType) -> (text: String)
    ensures
        text@ == data_type_text(*data_type),
{
    format!("{:?}", data_type)
}

/// How a string is written between quotes, with escapes.
pub uninterp spec fn quoted(text: Seq<char>) -> Seq<char>;

/// Calls `<str as Debug>::fmt` through `format!`: what it writes depends on the string alone.
#[verifier::external_body]
fn write_quoted(text: &str) -> (written: String)
    ensures
        written@ == quoted(text@),
{
    format!("{:?}", text)
}

/// How an operator is written.
pub open spec fn operator_text(op: Operator) -> Seq<char> {
    match op {
        Operator::Eq => "="@,
        Operator::NotEq => "!="@,
        Operator::Lt => "<"@,
        Operator::LtEq => "<="@,
        Operator::Gt => ">"@,
        Operator::GtEq => ">="@,
        Operator::Plus => "+"@,
        Operator::Minus => "-"@,
        Operator::Multiply => "*"@,
        Operator::Divide => "/"@,
        Operator::Modulo => "%"@,
        Operator::And => "AND"@,
        Operator::Or => "OR"@,
        Operator::Like => "LIKE"@,
        Operator::NotLike => "NOT LIKE"@,
        Operator::RegexMatch => "~"@,
        Operator::RegexIMatch => "~*"@,
        Operator::RegexNotMatch => "!~"@,
        Operator::RegexNotIMatch => "!~*"@,
    }
}

fn write_operator(op: Operator) -> (text: &'static str)
    ensures
        text@ == operator_text(op),
{
    match op {
        Operator::Eq => "=",
        Operator::NotEq => "!=",
        Operator::Lt => "<",
        Operator::LtEq => "<=",
        Operator::Gt => ">",
        Operator::GtEq => ">=",
        Operator::Plus => "+",
        Operator::Minus => "-",
        Operator::Multiply => "*",
        Operator::Divide => "/",
        Operator::Modulo => "%",
        Operator::And => "AND",
        Operator::Or => "OR",
        Operator::Like => "LIKE",
        Operator::NotLike => "NOT LIKE",
        Operator::RegexMatch => "~",
        Operator::RegexIMatch => "~*",
        Operator::RegexNotMatch => "!~",
        Operator::RegexNotIMatch => "!~*",
    }
}

/// The name of an aggregate function.
pub open spec fn aggregate_text(fun: AggregateFunction) -> Seq<char> {
    match fun {
        AggregateFunction::Count => "COUNT"@,
        AggregateFunction::Sum => "SUM"@,
        AggregateFunction::Min => "MIN"@,
        AggregateFunction::Max => "MAX"@,
        AggregateFunction::Avg => "AVG"@,
        AggregateFunction::ApproxDistinct => "APPROXDISTINCT"@,
        AggregateFunction::ArrayAgg => "ARRAYAGG"@,
    }
}

fn write_aggregate(fun: AggregateFunction) -> (text: &'static str)
    ensures
        text@ == aggregate_text(fun),
{
    match fun {
        AggregateFunction::Count => "COUNT",
        AggregateFunction::Sum => "SUM",
        AggregateFunction::Min => "MIN",
        AggregateFunction::Max => "MAX",
        AggregateFunction::Avg => "AVG",
        AggregateFunction::ApproxDistinct => "APPROXDISTINCT",
        AggregateFunction::ArrayAgg => "ARRAYAGG",
    }
}

/// The name of a window function that is no aggregate.
pub open spec fn builtin_window_text(fun: BuiltInWindowFunction) -> Seq<char> {
    match fun {
        BuiltInWindowFunction::RowNumber => "ROW_NUMBER"@,
        BuiltInWindowFunction::Rank => "RANK"@,
        BuiltInWindowFunction::DenseRank => "DENSE_RANK"@,
        BuiltInWindowFunction::PercentRank => "PERCENT_RANK"@,
        BuiltInWindowFunction::CumeDist => "CUME_DIST"@,
        BuiltInWindowFunction::Ntile => "NTILE"@,
        BuiltInWindowFunction::Lag => "LAG"@,
        BuiltInWindowFunction::Lead => "LEAD"@,
        BuiltInWindowFunction::FirstValue => "FIRST_VALUE"@,
        BuiltInWindowFunction::LastValue => "LAST_VALUE"@,
        BuiltInWindowFunction::NthValue => "NTH_VALUE"@,
    }
}

fn write_builtin_window(fun: BuiltInWindowFunction) -> (text: &'static str)
    ensures
        text@ == builtin_window_text(fun),
{
    match fun {
        BuiltInWindowFunction::RowNumber => "ROW_NUMBER",
        BuiltInWindowFunction::Rank => "RANK",
        BuiltInWindowFunction::DenseRank => "DENSE_RANK",
        BuiltInWindowFunction::PercentRank => "PERCENT_RANK",
        BuiltInWindowFunction::CumeDist => "CUME_DIST",
        BuiltInWindowFunction::Ntile => "NTILE",
        BuiltInWindowFunction::Lag => "LAG",
        BuiltInWindowFunction::Lead => "LEAD",
        BuiltInWindowFunction::FirstValue => "FIRST_VALUE",
        BuiltInWindowFunction::LastValue => "LAST_VALUE",
        BuiltInWindowFunction::NthValue => "NTH_VALUE",
    }
}

/// How the unit of a window frame is written.
pub open spec fn units_text(units: WindowFrameUnits) -> Seq<char> {
    match units {
        WindowFrameUnits::Range => "RANGE"@,
        WindowFrameUnits::Rows => "ROWS"@,
        WindowFrameUnits::Groups => "GROUPS"@,
    }
}

fn write_units(units: WindowFrameUnits) -> (text: &'static str)
    ensures
        text@ == units_text(units),
{
    match units {
        WindowFrameUnits::Range => "RANGE",
        WindowFrameUnits::Rows => "ROWS",
        WindowFrameUnits::Groups => "GROUPS",
    }
}

/// The name of a window function.
pub open spec fn window_text(fun: WindowFunction) -> Seq<char> {
    match fun {
        WindowFunction::AggregateFunction(aggregate) => aggregate_text(aggregate),
        WindowFunction::BuiltInWindowFunction(builtin) => builtin_window_text(builtin),
    }
}

fn write_window(fun: WindowFunction) -> (text: &'static str)
    ensures
        text@ == window_text(fun),
{
    match fun {
        WindowFunction::AggregateFunction(aggregate) => write_aggregate(aggregate),
        WindowFunction::BuiltInWindowFunction(builtin) => write_builtin_window(builtin),
    }
}

/// How a bound of a window frame is written.
pub open spec fn bound_text(bound: WindowFrameBound) -> Seq<char> {
    match bound {
        WindowFrameBound::CurrentRow => "CURRENT ROW"@,
        WindowFrameBound::Preceding(None) => "UNBOUNDED PRECEDING"@,
        WindowFrameBound::Following(None) => "UNBOUNDED FOLLOWING"@,
        WindowFrameBound::Preceding(Some(n)) => decimal(n as int) + " PRECEDING"@,
        WindowFrameBound::Following(Some(n)) => decimal(n as int) + " FOLLOWING"@,
    }
}

fn write_bound(bound: WindowFrameBound) -> (text: String)
    ensures
        text@ == bound_text(bound),
{
    match bound {
        WindowFrameBound::CurrentRow => "CURRENT ROW".to_owned(),
        WindowFrameBound::Preceding(None) => "UNBOUNDED PRECEDING".to_owned(),
        WindowFrameBound::Following(None) => "UNBOUNDED FOLLOWING".to_owned(),
        WindowFrameBound::Preceding(Some(n)) => decimal_text(n).concat(" PRECEDING"),
        WindowFrameBound::Following(Some(n)) => decimal_text(n).concat(" FOLLOWING"),
    }
}

/// How a column is written: its name, behind its relation where that is known.
pub open spec fn column_text(column: ColumnModel) -> Seq<char> {
    match column.relation {
        Some(relation) => "#"@ + relation + "."@ + column.name,
        None => "#"@ + column.name,
    }
}

fn write_column(column: &Column) -> (text: String)
    ensures
        text@ == column_text(column@),
{
    let text: String = "#".to_owned();
    match &column.relation {
        Some(relation) => text.concat(relation.as_str()).concat(".").concat(column.name.as_str()),
        None => text.concat(column.name.as_str()),
    }
}

/// A value without its type, or `NULL`.
pub open spec fn value_text(value: ScalarModel) -> Seq<char>
    decreases value,
{
    match value {
        ScalarModel::Boolean(Some(v)) => if v {
            "true"@
        } else {
            "false"@
        },
        ScalarModel::Float32(Some(v)) => v,
        ScalarModel::Float64(Some(v)) => v,
        ScalarModel::Utf8(Some(v)) => v,
        ScalarModel::LargeUtf8(Some(v)) => v,
        ScalarModel::Int8(Some(v)) => signed_decimal(v as int),
        ScalarModel::Int16(Some(v)) => signed_decimal(v as int),
        ScalarModel::Int32(Some(v)) => signed_decimal(v as int),
        ScalarModel::Int64(Some(v)) => signed_decimal(v as int),
        ScalarModel::UInt8(Some(v)) => signed_decimal(v as int),
        ScalarModel::UInt16(Some(v)) => signed_decimal(v as int),
        ScalarModel::UInt32(Some(v)) => signed_decimal(v as int),
        ScalarModel::UInt64(Some(v)) => signed_decimal(v as int),
        ScalarModel::Date32(Some(v)) => signed_decimal(v as int),
        ScalarModel::Date64(Some(v)) => signed_decimal(v as int),
        ScalarModel::TimestampSecond(Some(v)) => signed_decimal(v as int),
        ScalarModel::TimestampMillisecond(Some(v)) => signed_decimal(v as int),
        ScalarModel::TimestampMicrosecond(Some(v)) => signed_decimal(v as int),
        ScalarModel::TimestampNanosecond(Some(v)) => signed_decimal(v as int),
        ScalarModel::IntervalYearMonth(Some(v)) => signed_decimal(v as int),
        ScalarModel::IntervalDayTime(Some(v)) => signed_decimal(v as int),
        ScalarModel::Binary(Some(v)) => joined(bytes_text(v), ","@),
        ScalarModel::LargeBinary(Some(v)) => joined(bytes_text(v), ","@),
        ScalarModel::List(Some(v), _) => joined(values_text(v), ","@),
        _ => "NULL"@,
    }
}

/// The texts of a list of values, one for one.
pub open spec fn values_text(values: Seq<ScalarModel>) -> Seq<Seq<char>>
    decreases values,
{
    Seq::new(
        values.len(),
        |i: int|
            if 0 <= i < values.len() {
                value_text(values[i])
            } else {
                arbitrary()
            },
    )
}

/// The texts of a list of bytes, one for one.
pub open spec fn bytes_text(bytes: Seq<u8>) -> Seq<Seq<char>> {
    numbers_text(bytes.map_values(|b: u8| b as int))
}

/// The texts of a list of numbers, one for one.
pub open spec fn numbers_text(numbers: Seq<int>) -> Seq<Seq<char>> {
    numbers.map_values(|n: int| signed_decimal(n))
}

/// A value with its type.
pub open spec fn scalar_text(value: ScalarModel) -> Seq<char> {
    match value {
        ScalarModel::Boolean(_) => "Boolean("@ + value_text(value) + ")"@,
        ScalarModel::Float32(_) => "Float32("@ + value_text(value) + ")"@,
        ScalarModel::Float64(_) => "Float64("@ + value_text(value) + ")"@,
        ScalarModel::Int8(_) => "Int8("@ + value_text(value) + ")"@,
        ScalarModel::Int16(_) => "Int16("@ + value_text(value) + ")"@,
        ScalarModel::Int32(_) => "Int32("@ + value_text(value) + ")"@,
        ScalarModel::Int64(_) => "Int64("@ + value_text(value) + ")"@,
        ScalarModel::UInt8(_) => "UInt8("@ + value_text(value) + ")"@,
        ScalarModel::UInt16(_) => "UInt16("@ + value_text(value) + ")"@,
        ScalarModel::UInt32(_) => "UInt32("@ + value_text(value) + ")"@,
        ScalarModel::UInt64(_) => "UInt64("@ + value_text(value) + ")"@,
        ScalarModel::TimestampSecond(_) => "TimestampSecond("@ + value_text(value) + ")"@,
        ScalarModel::TimestampMillisecond(_) => "TimestampMillisecond("@ + value_text(value) + ")"@,
        ScalarModel::TimestampMicrosecond(_) => "TimestampMicrosecond("@ + value_text(value) + ")"@,
        ScalarModel::TimestampNanosecond(_) => "TimestampNanosecond("@ + value_text(value) + ")"@,
        ScalarModel::Date32(_) => "Date32(\""@ + value_text(value) + "\")"@,
        ScalarModel::Date64(_) => "Date64(\""@ + value_text(value) + "\")"@,
        ScalarModel::IntervalYearMonth(_) => "IntervalYearMonth(\""@ + value_text(value) + "\")"@,
        ScalarModel::IntervalDayTime(_) => "IntervalDayTime(\""@ + value_text(value) + "\")"@,
        ScalarModel::Utf8(None) => "Utf8("@ + value_text(value) + ")"@,
        ScalarModel::Utf8(Some(_)) => "Utf8(\""@ + value_text(value) + "\")"@,
        ScalarModel::LargeUtf8(None) => "LargeUtf8("@ + value_text(value) + ")"@,
        ScalarModel::LargeUtf8(Some(_)) => "LargeUtf8(\""@ + value_text(value) + "\")"@,
        ScalarModel::Binary(None) => "Binary("@ + value_text(value) + ")"@,
        ScalarModel::Binary(Some(_)) => "Binary(\""@ + value_text(value) + "\")"@,
        ScalarModel::LargeBinary(None) => "LargeBinary("@ + value_text(value) + ")"@,
        ScalarModel::LargeBinary(Some(_)) => "LargeBinary(\""@ + value_text(value) + "\")"@,
        ScalarModel::List(_, _) => "List(["@ + value_text(value) + "])"@,
    }
}

fn write_value(value: &ScalarValue) -> (text: String)
    ensures
        text@ == value_text(value@),
    decreases value,
{
    match value {
        ScalarValue::Boolean(Some(v)) => if *v {
            "true".to_owned()
        } else {
            "false".to_owned()
        },
        ScalarValue::Float32(Some(v)) => v.clone(),
        ScalarValue::Float64(Some(v)) => v.clone(),
        ScalarValue::Utf8(Some(v)) => v.clone(),
        ScalarValue::LargeUtf8(Some(v)) => v.clone(),
        ScalarValue::Int8(Some(v)) => signed_decimal_text(*v as i64),
        ScalarValue::Int16(Some(v)) => signed_decimal_text(*v as i64),
        ScalarValue::Int32(Some(v)) => signed_decimal_text(*v as i64),
        ScalarValue::Int64(Some(v)) => signed_decimal_text(*v),
        ScalarValue::UInt8(Some(v)) => signed_decimal_text(*v as i64),
        ScalarValue::UInt16(Some(v)) => signed_decimal_text(*v as i64),
        ScalarValue::UInt32(Some(v)) => signed_decimal_text(*v as i64),
        ScalarValue::UInt64(Some(v)) => decimal_text(*v),
        ScalarValue::Date32(Some(v)) => signed_decimal_text(*v as i64),
        ScalarValue::Date64(Some(v)) => signed_decimal_text(*v),
        ScalarValue::TimestampSecond(Some(v)) => signed_decimal_text(*v),
        ScalarValue::TimestampMillisecond(Some(v)) => signed_decimal_text(*v),
        ScalarValue::TimestampMicrosecond(Some(v)) => signed_decimal_text(*v),
        ScalarValue::TimestampNanosecond(Some(v)) => signed_decimal_text(*v),
        ScalarValue::IntervalYearMonth(Some(v)) => signed_decimal_text(*v as i64),
        ScalarValue::IntervalDayTime(Some(v)) => signed_decimal_text(*v),
        ScalarValue::Binary(Some(v)) => join(&write_bytes(v), ","),
        ScalarValue::LargeBinary(Some(v)) => join(&write_bytes(v), ","),
        ScalarValue::List(Some(v), _) => join(&write_values(v), ","),
        _ => "NULL".to_owned(),
    }
}

fn write_bytes(bytes: &Vec<u8>) -> (texts: Vec<String>)
    ensures
        strings_model(texts@) == bytes_text(bytes@),
{
    let mut texts: Vec<String> = Vec::new();
    let ghost all = bytes_text(bytes@);
    let mut i: usize = 0;
    while i < bytes.len()
        invariant
            i <= bytes@.len(),
            all == bytes_text(bytes@),
            strings_model(texts@) == all.take(i as int),
        decreases bytes.len() - i,
    {
        let ghost before = texts@;
        texts.push(decimal_text(bytes[i] as u64));
        assert(strings_model(texts@) =~= strings_model(before).push(all[i as int]));
        assert(all.take(i + 1) =~= all.take(i as int).push(all[i as int]));
        i += 1;
    }
    assert(all.take(i as int) =~= all);
    texts
}

fn write_values(values: &Vec<ScalarValue>) -> (texts: Vec<String>)
    ensures
        strings_model(texts@) == values_text(scalars_model(values@)),
    decreases values,
{
    let mut texts: Vec<String> = Vec::new();
    let ghost all = values_text(scalars_model(values@));
    let mut i: usize = 0;
    while i < values.len()
        invariant
            i <= values@.len(),
            all == values_text(scalars_model(values@)),
            strings_model(texts@) == all.take(i as int),
        decreases values.len() - i,
    {
        let ghost before = texts@;
        texts.push(write_value(&values[i]));
        assert(strings_model(texts@) =~= strings_model(before).push(all[i as int]));
        assert(all.take(i + 1) =~= all.take(i as int).push(all[i as int]));
        i += 1;
    }
    assert(all.take(i as int) =~= all);
    texts
}

fn write_scalar(value: &ScalarValue) -> (text: String)
    ensures
        text@ == scalar_text(value@),
{
    let inner: String = write_value(value);
    match value {
        ScalarValue::Boolean(_) => enclosed("Boolean(", inner, ")"),
        ScalarValue::Float32(_) => enclosed("Float32(", inner, ")"),
        ScalarValue::Float64(_) => enclosed("Float64(", inner, ")"),
        ScalarValue::Int8(_) => enclosed("Int8(", inner, ")"),
        ScalarValue::Int16(_) => enclosed("Int16(", inner, ")"),
        ScalarValue::Int32(_) => enclosed("Int32(", inner, ")"),
        ScalarValue::Int64(_) => enclosed("Int64(", inner, ")"),
        ScalarValue::UInt8(_) => enclosed("UInt8(", inner, ")"),
        ScalarValue::UInt16(_) => enclosed("UInt16(", inner, ")"),
        ScalarValue::UInt32(_) => enclosed("UInt32(", inner, ")"),
        ScalarValue::UInt64(_) => enclosed("UInt64(", inner, ")"),
        ScalarValue::TimestampSecond(_) => enclosed("TimestampSecond(", inner, ")"),
        ScalarValue::TimestampMillisecond(_) => enclosed("TimestampMillisecond(", inner, ")"),
        ScalarValue::TimestampMicrosecond(_) => enclosed("TimestampMicrosecond(", inner, ")"),
        ScalarValue::TimestampNanosecond(_) => enclosed("TimestampNanosecond(", inner, ")"),
        ScalarValue::Date32(_) => enclosed("Date32(\"", inner, "\")"),
        ScalarValue::Date64(_) => enclosed("Date64(\"", inner, "\")"),
        ScalarValue::IntervalYearMonth(_) => enclosed("IntervalYearMonth(\"", inner, "\")"),
        ScalarValue::IntervalDayTime(_) => enclosed("IntervalDayTime(\"", inner, "\")"),
        ScalarValue::Utf8(None) => enclosed("Utf8(", inner, ")"),
        ScalarValue::Utf8(Some(_)) => enclosed("Utf8(\"", inner, "\")"),
        ScalarValue::LargeUtf8(None) => enclosed("LargeUtf8(", inner, ")"),
        ScalarValue::LargeUtf8(Some(_)) => enclosed("LargeUtf8(\"", inner, "\")"),
        ScalarValue::Binary(None) => enclosed("Binary(", inner, ")"),
        ScalarValue::Binary(Some(_)) => enclosed("Binary(\"", inner, "\")"),
        ScalarValue::LargeBinary(None) => enclosed("LargeBinary(", inner, ")"),
        ScalarValue::LargeBinary(Some(_)) => enclosed("LargeBinary(\"", inner, "\")"),
        ScalarValue::List(_, _) => enclosed("List([", inner, "])"),
    }
}

fn enclosed(before: &str, inner: String, after: &str) -> (text: String)
    ensures
        text@ == before@ + inner@ + after@,
{
    before.to_owned().concat(inner.as_str()).concat(after)
}

/// The rows around the current row that a window function sees, where they are given.
pub open spec fn frame_text(frame: Option<WindowFrame>) -> Seq<char> {
    match frame {
        Some(frame) => " "@ + units_text(frame.units) + " BETWEEN "@ + bound_text(frame.start_bound)
            + " AND "@ + bound_text(frame.end_bound),
        None => Seq::empty(),
    }
}

fn write_frame(frame: &Option<WindowFrame>) -> (text: String)
    ensures
        text@ == frame_text(*frame),
{
    match frame {
        Some(frame) => " ".to_owned().concat(write_units(frame.units)).concat(" BETWEEN ").concat(
            write_bound(frame.start_bound).as_str(),
        ).concat(" AND ").concat(write_bound(frame.end_bound).as_str()),
        None => String::new(),
    }
}

/// How an expression is written.
pub open spec fn expr_text(expr: ExprModel) -> Seq<char>
    decreases expr,
{
    match expr {
        ExprModel::Alias(inner, alias) => expr_text(*inner) + " AS "@ + alias,
        ExprModel::Column(column) => column_text(column),
        ExprModel::ScalarVariable(names) => joined(names, "."@),
        ExprModel::Literal(value) => scalar_text(value),
        ExprModel::BinaryExpr { left, op, right } => expr_text(*left) + " "@ + operator_text(op)
            + " "@ + expr_text(*right),
        ExprModel::Not(inner) => "NOT "@ + expr_text(*inner),
        ExprModel::Negative(inner) => "(- "@ + expr_text(*inner) + ")"@,
        ExprModel::IsNull(inner) => expr_text(*inner) + " IS NULL"@,
        ExprModel::IsNotNull(inner) => expr_text(*inner) + " IS NOT NULL"@,
        ExprModel::Cast { expr: inner, data_type } => "CAST("@ + expr_text(*inner) + " AS "@
            + data_type_text(data_type) + ")"@,
        ExprModel::TryCast { expr: inner, data_type } => "TRY_CAST("@ + expr_text(*inner) + " AS "@
            + data_type_text(data_type) + ")"@,
        ExprModel::Sort { expr: inner, asc, nulls_first } => expr_text(*inner)
            + (if asc { " ASC"@ } else { " DESC"@ })
            + (if nulls_first { " NULLS FIRST"@ } else { " NULLS LAST"@ }),
        ExprModel::Between { expr: inner, negated, low, high } => expr_text(*inner)
            + (if negated { " NOT BETWEEN "@ } else { " BETWEEN "@ }) + expr_text(*low) + " AND "@
            + expr_text(*high),
        ExprModel::InList { expr: inner, list, negated } => expr_text(*inner)
            + (if negated { " NOT IN (["@ } else { " IN (["@ }) + joined(exprs_text(list), ", "@)
            + "])"@,
        ExprModel::ScalarFunction { fun, args } => fun + "("@ + joined(exprs_text(args), ", "@)
            + ")"@,
        ExprModel::ScalarUDF { fun, args } => fun + "("@ + joined(exprs_text(args), ", "@) + ")"@,
        ExprModel::AggregateUDF { fun, args } => fun + "("@ + joined(exprs_text(args), ", "@)
            + ")"@,
        ExprModel::AggregateFunction { fun, args, distinct } => aggregate_text(fun)
            + (if distinct { "(DISTINCT "@ } else { "("@ }) + joined(exprs_text(args), ", "@)
            + ")"@,
        ExprModel::WindowFunction { fun, args, partition_by, order_by, window_frame } =>
            window_text(fun) + "("@ + joined(exprs_text(args), ", "@) + ")"@
            + keyword_text(" PARTITION BY ["@, exprs_text(partition_by))
            + keyword_text(" ORDER BY ["@, exprs_text(order_by)) + frame_text(window_frame),
        ExprModel::Case { expr: base, when_then_expr, else_expr } => "CASE "@
            + optional_text(""@, base) + branches_text(when_then_expr)
            + optional_text("ELSE "@, else_expr) + "END"@,
        ExprModel::Wildcard => "*"@,
    }
}

/// The texts of a list of expressions, one for one.
pub open spec fn exprs_text(exprs: Seq<ExprModel>) -> Seq<Seq<char>>
    decreases exprs,
{
    Seq::new(
        exprs.len(),
        |i: int|
            if 0 <= i < exprs.len() {
                expr_text(exprs[i])
            } else {
                arbitrary()
            },
    )
}

/// A keyword and the list that it opens, where there is anything in the list.
pub open spec fn keyword_text(keyword: Seq<char>, texts: Seq<Seq<char>>) -> Seq<char> {
    if texts.len() == 0 {
        Seq::empty()
    } else {
        keyword + joined(texts, ", "@) + "]"@
    }
}

/// A keyword and the expression behind it, where there is one.
pub open spec fn optional_text(keyword: Seq<char>, expr: Option<Box<ExprModel>>) -> Seq<char>
    decreases expr,
{
    match expr {
        Some(inner) => keyword + expr_text(*inner) + " "@,
        None => Seq::empty(),
    }
}

/// The branches of a `CASE`.
pub open spec fn branches_text(branches: Seq<(ExprModel, ExprModel)>) -> Seq<char>
    decreases branches,
{
    if branches.len() == 0 {
        Seq::empty()
    } else {
        branches_text(branches.drop_last()) + "WHEN "@ + expr_text(branches.last().0) + " THEN "@
            + expr_text(branches.last().1) + " "@
    }
}

impl Expr {
    /// Writes the expression.
    pub fn text(&self) -> (text: String)
        ensures
            text@ == expr_text(self@),
        decreases self,
    {
        match self {
            Expr::Alias(inner, alias) => inner.text().concat(" AS ").concat(alias.as_str()),
            Expr::Column(column) => write_column(column),
            Expr::ScalarVariable(names) => join(names, "."),
            Expr::Literal(value) => write_scalar(value),
            Expr::BinaryExpr { left, op, right } => left.text().concat(" ")
                .concat(write_operator(*op)).concat(" ").concat(right.text().as_str()),
            Expr::Not(inner) => "NOT ".to_owned().concat(inner.text().as_str()),
            Expr::Negative(inner) => "(- ".to_owned().concat(inner.text().as_str()).concat(")"),
            Expr::IsNull(inner) => inner.text().concat(" IS NULL"),
            Expr::IsNotNull(inner) => inner.text().concat(" IS NOT NULL"),
            Expr::Cast { expr: inner, data_type } => "CAST(".to_owned()
                .concat(inner.text().as_str()).concat(" AS ")
                .concat(write_data_type(data_type).as_str()).concat(")"),
            Expr::TryCast { expr: inner, data_type } => "TRY_CAST(".to_owned()
                .concat(inner.text().as_str()).concat(" AS ")
                .concat(write_data_type(data_type).as_str()).concat(")"),
            Expr::Sort { expr: inner, asc, nulls_first } => inner.text()
                .concat(if *asc { " ASC" } else { " DESC" })
                .concat(if *nulls_first { " NULLS FIRST" } else { " NULLS LAST" }),
            Expr::Between { expr: inner, negated, low, high } => inner.text()
                .concat(if *negated { " NOT BETWEEN " } else { " BETWEEN " })
                .concat(low.text().as_str()).concat(" AND ").concat(high.text().as_str()),
            Expr::InList { expr: inner, list, negated } => inner.text()
                .concat(if *negated { " NOT IN ([" } else { " IN ([" })
                .concat(join(&write_exprs(list.as_slice()), ", ").as_str()).concat("])"),
            Expr::ScalarFunction { fun, args } => fun.name.as_str().to_owned().concat("(")
                .concat(join(&write_exprs(args.as_slice()), ", ").as_str()).concat(")"),
            Expr::ScalarUDF { fun, args } => fun.name.as_str().to_owned().concat("(")
                .concat(join(&write_exprs(args.as_slice()), ", ").as_str()).concat(")"),
            Expr::AggregateUDF { fun, args } => fun.name.as_str().to_owned().concat("(")
                .concat(join(&write_exprs(args.as_slice()), ", ").as_str()).concat(")"),
            Expr::AggregateFunction { fun, args, distinct } => write_aggregate(*fun).to_owned()
                .concat(if *distinct { "(DISTINCT " } else { "(" })
                .concat(join(&write_exprs(args.as_slice()), ", ").as_str()).concat(")"),
            Expr::WindowFunction { fun, args, partition_by, order_by, window_frame } =>
                write_window(*fun).to_owned().concat("(")
                .concat(join(&write_exprs(args.as_slice()), ", ").as_str()).concat(")")
                .concat(write_keyword(" PARTITION BY [", &write_exprs(partition_by)).as_str())
                .concat(write_keyword(" ORDER BY [", &write_exprs(order_by)).as_str())
                .concat(write_frame(window_frame).as_str()),
            Expr::Case { expr: base, when_then_expr, else_expr } => "CASE ".to_owned()
                .concat(write_optional("", base).as_str())
                .concat(write_branches(when_then_expr).as_str())
                .concat(write_optional("ELSE ", else_expr).as_str()).concat("END"),
            Expr::Wildcard => "*".to_owned(),
        }
    }
}

fn write_exprs(exprs: &[Expr]) -> (texts: Vec<String>)
    ensures
        strings_model(texts@) == exprs_text(exprs_model(exprs@)),
    decreases exprs@,
{
    broadcast use {lemma_exprs_model_len, lemma_exprs_model_index};

    let mut texts: Vec<String> = Vec::new();
    let ghost all = exprs_text(exprs_model(exprs@));
    let mut i: usize = 0;
    while i < exprs.len()
        invariant
            i <= exprs@.len(),
            all == exprs_text(exprs_model(exprs@)),
            strings_model(texts@) == all.take(i as int),
        decreases exprs.len() - i,
    {
        let ghost before = texts@;
        texts.push(exprs[i].text());
        assert(strings_model(texts@) =~= strings_model(before).push(all[i as int]));
        assert(all.take(i + 1) =~= all.take(i as int).push(all[i as int]));
        i += 1;
    }
    assert(all.take(i as int) =~= all);
    texts
}

fn write_keyword(keyword: &str, texts: &Vec<String>) -> (text: String)
    ensures
        text@ == keyword_text(keyword@, strings_model(texts@)),
{
    if texts.len() == 0 {
        String::new()
    } else {
        keyword.to_owned().concat(join(texts, ", ").as_str()).concat("]")
    }
}

fn write_optional(keyword: &str, expr: &Option<Box<Expr>>) -> (text: String)
    ensures
        text@ == optional_text(keyword@, optional_model(*expr)),
    decreases expr,
{
    match expr {
        Some(inner) => keyword.to_owned().concat(inner.text().as_str()).concat(" "),
        None => String::new(),
    }
}

fn write_branches(branches: &Vec<(Box<Expr>, Box<Expr>)>) -> (text: String)
    ensures
        text@ == branches_text(pairs_model(branches@)),
    decreases branches,
{
    let mut text = String::new();
    let ghost all = pairs_model(branches@);
    let mut i: usize = 0;
    while i < branches.len()
        invariant
            i <= branches@.len(),
            all == pairs_model(branches@),
            text@ == branches_text(all.take(i as int)),
        decreases branches.len() - i,
    {
        assert(all.take(i + 1).drop_last() =~= all.take(i as int));
        text.append("WHEN ");
        text.append(branches[i].0.text().as_str());
        text.append(" THEN ");
        text.append(branches[i].1.text().as_str());
        text.append(" ");
        i += 1;
    }
    assert(all.take(i as int) =~= all);
    text
}

/// The columns that a scan reads, by their numbers.
pub open spec fn projection_text(projection: Option<Seq<usize>>) -> Seq<char> {
    match projection {
        Some(indices) => "Some(["@ + joined(
            numbers_text(indices.map_values(|n: usize| n as int)),
            ", "@,
        ) + "])"@,
        None => "None"@,
    }
}

/// The number of rows that a scan stops at, where there is one.
pub open spec fn scan_limit_text(limit: Option<usize>) -> Seq<char> {
    match limit {
        Some(n) => ", limit="@ + decimal(n as int),
        None => Seq::empty(),
    }
}

/// The columns that a join compares, pair by pair.
pub open spec fn join_keys_text(on: Seq<(ColumnModel, ColumnModel)>) -> Seq<Seq<char>> {
    on.map_values(
        |keys: (ColumnModel, ColumnModel)| column_text(keys.0) + " = "@ + column_text(keys.1),
    )
}

/// How the rows are spread over partitions.
pub open spec fn partitioning_text(partitioning: PartitioningModel) -> Seq<char> {
    match partitioning {
        PartitioningModel::RoundRobinBatch(n) => "Repartition: RoundRobinBatch partition_count="@
            + decimal(n as int),
        PartitioningModel::Hash(exprs, n) => "Repartition: Hash("@ + joined(
            exprs_text(exprs),
            ", "@,
        ) + ") partition_count="@ + decimal(n as int),
    }
}

/// The line that shows a plan node, without its inputs.
pub open spec fn plan_line<N: UserDefinedLogicalNode>(plan: PlanModel<N>) -> Seq<char> {
    match plan {
        PlanModel::EmptyRelation { .. } => "EmptyRelation"@,
        PlanModel::TableScan { table_name, projection, filters, limit, .. } => "TableScan: "@
            + table_name + " projection="@ + projection_text(projection) + keyword_text(
            ", filters=["@,
            exprs_text(filters),
        ) + scan_limit_text(limit),
        PlanModel::Projection { expr, .. } => "Projection: "@ + joined(exprs_text(expr), ", "@),
        PlanModel::Filter { predicate, .. } => "Filter: "@ + expr_text(predicate),
        PlanModel::Window { window_expr, .. } => "WindowAggr: windowExpr=[["@ + joined(
            exprs_text(window_expr),
            ", "@,
        ) + "]]"@,
        PlanModel::Aggregate { group_expr, aggr_expr, .. } => "Aggregate: groupBy=[["@ + joined(
            exprs_text(group_expr),
            ", "@,
        ) + "]], aggr=[["@ + joined(exprs_text(aggr_expr), ", "@) + "]]"@,
        PlanModel::Sort { expr, .. } => "Sort: "@ + joined(exprs_text(expr), ", "@),
        PlanModel::Join { on, join_constraint: JoinConstraint::On, .. } => "Join: "@ + joined(
            join_keys_text(on),
            ", "@,
        ),
        PlanModel::Join { on, join_constraint: JoinConstraint::Using, .. } => "Join: Using "@
            + joined(join_keys_text(on), ", "@),
        PlanModel::CrossJoin { .. } => "CrossJoin:"@,
        PlanModel::Repartition { partitioning_scheme, .. } => partitioning_text(
            partitioning_scheme,
        ),
        PlanModel::Limit { n, .. } => "Limit: "@ + decimal(n as int),
        PlanModel::CreateExternalTable { name, .. } => "CreateExternalTable: "@ + quoted(name),
        PlanModel::Explain { .. } => "Explain"@,
        PlanModel::Union { .. } => "Union"@,
        PlanModel::Extension { node } => node.spec_text(),
    }
}

/// A line below another, one step further in.
pub open spec fn line_below(indent: Seq<char>, text: Seq<char>) -> Seq<char> {
    "\n"@ + indent + "  "@ + text
}

/// The text of a plan where lines below the first one start with `indent`: the line of its root,
/// and below it the texts of its inputs, one step further in. The inputs of a plan are always
/// lower than the plan itself.
pub open spec fn indented<N: UserDefinedLogicalNode>(
    plan: PlanModel<N>,
    indent: Seq<char>,
) -> Seq<char>
    decreases plan_height(plan), 0nat,
{
    if plans_height(plan_inputs(plan)) < plan_height(plan) {
        plan_line(plan) + all_below(plan_inputs(plan), indent)
    } else {
        plan_line(plan)
    }
}

/// The texts of plans below a line, one after the other.
pub open spec fn all_below<N: UserDefinedLogicalNode>(
    plans: Seq<PlanModel<N>>,
    indent: Seq<char>,
) -> Seq<char>
    decreases plans_height(plans), plans.len() + 1,
{
    if plans.len() == 0 {
        Seq::empty()
    } else {
        all_below(plans.drop_last(), indent) + line_below(
            indent,
            indented(plans.last(), indent + "  "@),
        )
    }
}

/// The text of a plan as a tree, every input one step further in than the node above it.
pub open spec fn plan_text<N: UserDefinedLogicalNode>(plan: PlanModel<N>) -> Seq<char> {
    indented(plan, ""@)
}

proof fn lemma_member_is_no_higher<N: UserDefinedLogicalNode>(plans: Seq<PlanModel<N>>, i: int)
    requires
        0 <= i < plans.len(),
    ensures
        plan_height(plans[i]) <= plans_height(plans),
    decreases plans.len(),
{
    if i < plans.len() - 1 {
        lemma_member_is_no_higher(plans.drop_last(), i);
    }
}

fn write_indices(indices: &Vec<usize>) -> (texts: Vec<String>)
    ensures
        strings_model(texts@) == numbers_text(indices@.map_values(|n: usize| n as int)),
{
    let mut texts: Vec<String> = Vec::new();
    let ghost all = numbers_text(indices@.map_values(|n: usize| n as int));
    let mut i: usize = 0;
    while i < indices.len()
        invariant
            i <= indices@.len(),
            all == numbers_text(indices@.map_values(|n: usize| n as int)),
            strings_model(texts@) == all.take(i as int),
        decreases indices.len() - i,
    {
        let ghost before = texts@;
        texts.push(decimal_text(indices[i] as u64));
        assert(strings_model(texts@) =~= strings_model(before).push(all[i as int]));
        assert(all.take(i + 1) =~= all.take(i as int).push(all[i as int]));
        i += 1;
    }
    assert(all.take(i as int) =~= all);
    texts
}

fn write_projection(projection: &Option<Vec<usize>>) -> (text: String)
    ensures
        text@ == projection_text(projection_model(*projection)),
{
    match projection {
        Some(indices) => enclosed("Some([", join(&write_indices(indices), ", "), "])"),
        None => "None".to_owned(),
    }
}

fn write_scan_limit(limit: &Option<usize>) -> (text: String)
    ensures
        text@ == scan_limit_text(*limit),
{
    match limit {
        Some(n) => ", limit=".to_owned().concat(decimal_text(*n as u64).as_str()),
        None => String::new(),
    }
}

fn write_join_keys(on: &Vec<(Column, Column)>) -> (texts: Vec<String>)
    ensures
        strings_model(texts@) == join_keys_text(join_keys_model(on@)),
{
    let mut texts: Vec<String> = Vec::new();
    let ghost all = join_keys_text(join_keys_model(on@));
    let mut i: usize = 0;
    while i < on.len()
        invariant
            i <= on@.len(),
            all == join_keys_text(join_keys_model(on@)),
            strings_model(texts@) == all.take(i as int),
        decreases on.len() - i,
    {
        let ghost before = texts@;
        texts.push(
            write_column(&on[i].0).concat(" = ").concat(write_column(&on[i].1).as_str()),
        );
        assert(strings_model(texts@) =~= strings_model(before).push(all[i as int]));
        assert(all.take(i + 1) =~= all.take(i as int).push(all[i as int]));
        i += 1;
    }
    assert(all.take(i as int) =~= all);
    texts
}

fn write_partitioning(partitioning: &Partitioning) -> (text: String)
    ensures
        text@ == partitioning_text(partitioning@),
{
    match partitioning {
        Partitioning::RoundRobinBatch(n) =>
            "Repartition: RoundRobinBatch partition_count=".to_owned().concat(
            decimal_text(*n as u64).as_str(),
        ),
        Partitioning::Hash(exprs, n) => enclosed(
            "Repartition: Hash(",
            write_list(exprs),
            ") partition_count=",
        ).concat(decimal_text(*n as u64).as_str()),
    }
}

fn write_list(exprs: &Vec<Expr>) -> (text: String)
    ensures
        text@ == joined(exprs_text(exprs_model(exprs@)), ", "@),
{
    join(&write_exprs(exprs.as_slice()), ", ")
}

impl<N: UserDefinedLogicalNode> LogicalPlan<N> {
    /// Writes the line that shows the node, without its inputs.
    fn line(&self) -> (text: String)
        ensures
            text@ == plan_line(self@),
    {
        match self {
            LogicalPlan::EmptyRelation { .. } => "EmptyRelation".to_owned(),
            LogicalPlan::TableScan { table_name, projection, filters, limit, .. } =>
                "TableScan: ".to_owned().concat(table_name.as_str()).concat(" projection=").concat(
                write_projection(projection).as_str(),
            ).concat(
                write_keyword(", filters=[", &write_exprs(filters.as_slice())).as_str(),
            ).concat(write_scan_limit(limit).as_str()),
            LogicalPlan::Projection { expr, .. } => "Projection: ".to_owned().concat(
                write_list(expr).as_str(),
            ),
            LogicalPlan::Filter { predicate, .. } => "Filter: ".to_owned().concat(
                predicate.text().as_str(),
            ),
            LogicalPlan::Window { window_expr, .. } => enclosed(
                "WindowAggr: windowExpr=[[",
                write_list(window_expr),
                "]]",
            ),
            LogicalPlan::Aggregate { group_expr, aggr_expr, .. } => enclosed(
                "Aggregate: groupBy=[[",
                write_list(group_expr),
                "]], aggr=[[",
            ).concat(write_list(aggr_expr).as_str()).concat("]]"),
            LogicalPlan::Sort { expr, .. } => "Sort: ".to_owned().concat(
                write_list(expr).as_str(),
            ),
            LogicalPlan::Join { on, join_constraint, .. } => {
                let keys: String = join(&write_join_keys(on), ", ");
                match join_constraint {
                    JoinConstraint::On => "Join: ".to_owned().concat(keys.as_str()),
                    JoinConstraint::Using => "Join: Using ".to_owned().concat(keys.as_str()),
                }
            },
            LogicalPlan::CrossJoin { .. } => "CrossJoin:".to_owned(),
            LogicalPlan::Repartition { partitioning_scheme, .. } => write_partitioning(
                partitioning_scheme,
            ),
            LogicalPlan::Limit { n, .. } => "Limit: ".to_owned().concat(
                decimal_text(*n as u64).as_str(),
            ),
            LogicalPlan::CreateExternalTable { name, .. } =>
                "CreateExternalTable: ".to_owned().concat(write_quoted(name.as_str()).as_str()),
            LogicalPlan::Explain { .. } => "Explain".to_owned(),
            LogicalPlan::Union { .. } => "Union".to_owned(),
            LogicalPlan::Extension { node } => node.fmt_for_explain(),
        }
    }

    /// Writes the plan where lines below the first one start with `indent`.
    pub fn indented(&self, indent: &str) -> (text: String)
        ensures
            text@ == indented(self@, indent@),
        decreases plan_height(self@),
    {
        let mut text: String = self.line();
        let inner: String = indent.to_owned().concat("  ");
        let inputs = self.inputs();
        let ghost all = plan_inputs(self@);
        let mut i: usize = 0;
        while i < inputs.len()
            invariant
                i <= inputs@.len(),
                all == borrowed_model(inputs@),
                plans_height(all) < plan_height(self@),
                inner@ == indent@ + "  "@,
                text@ == plan_line(self@) + all_below(all.take(i as int), indent@),
            decreases inputs.len() - i,
        {
            proof {
                lemma_member_is_no_higher(all, i as int);
                assert(all.take(i + 1).drop_last() =~= all.take(i as int));
            }
            let below: String = inputs[i].indented(inner.as_str());
            text.append("\n");
            text.append(indent);
            text.append("  ");
            text.append(below.as_str());
            assert(text@ =~= plan_line(self@) + all_below(all.take(i + 1), indent@));
            i += 1;
        }
        assert(all.take(i as int) =~= all);
        text
    }

    /// Writes the plan as a tree, every input one step further in than the node above it.
    pub fn display_indent(&self) -> (text: String)
        ensures
            text@ == plan_text(self@),
    {
        self.indented("")
    }
}

/// The text of a plan is the line of its node, and below it the texts of its inputs in their
/// order, each on a line of its own and one step further in, whatever the inputs are.
pub proof fn law_text_shows_every_input<N: UserDefinedLogicalNode>(
    plan: &LogicalPlan<N>,
    indent: &str,
    text: String,
    inputs: Vec<&LogicalPlan<N>>,
)
    requires
        call_ensures(LogicalPlan::<N>::indented, (plan, indent), text),
        call_ensures(LogicalPlan::<N>::inputs, (plan,), inputs),
    ensures
        text@ == plan_line(plan@) + joined(
            Seq::new(
                inputs@.len(),
                |i: int| "\n"@ + indent@ + "  "@ + indented(inputs@[i]@, indent@ + "  "@),
            ),
            Seq::empty(),
        ),
{
    let all = borrowed_model(inputs@);
    lemma_all_below_in_a_row(all, indent@);
    assert(below_texts(all, indent@) =~= Seq::new(
        inputs@.len(),
        |i: int| "\n"@ + indent@ + "  "@ + indented(inputs@[i]@, indent@ + "  "@),
    ));
}

spec fn below_texts<N: UserDefinedLogicalNode>(plans: Seq<PlanModel<N>>, indent: Seq<char>) -> Seq<
    Seq<char>,
> {
    plans.map_values(
        |plan: PlanModel<N>| "\n"@ + indent + "  "@ + indented(plan, indent + "  "@),
    )
}

proof fn lemma_all_below_in_a_row<N: UserDefinedLogicalNode>(
    plans: Seq<PlanModel<N>>,
    indent: Seq<char>,
)
    ensures
        all_below(plans, indent) == joined(below_texts(plans, indent), Seq::empty()),
    decreases plans.len(),
{
    if plans.len() > 0 {
        let front = plans.drop_last();
        let texts = below_texts(plans, indent);
        lemma_all_below_in_a_row(front, indent);
        assert(texts.drop_last() =~= below_texts(front, indent));
        assert(texts.last() == line_below(indent, indented(plans.last(), indent + "  "@)));
        assert(all_below(plans, indent) =~= joined(texts, Seq::empty()));
    }
}

/// What the line of each node says of the node.
pub proof fn law_line_says_what_the_node_does<N: UserDefinedLogicalNode>(plan: PlanModel<N>)
    ensures
        plan is EmptyRelation ==> plan_line(plan) == "EmptyRelation"@,
        plan is CrossJoin ==> plan_line(plan) == "CrossJoin:"@,
        plan is Union ==> plan_line(plan) == "Union"@,
        plan is Explain ==> plan_line(plan) == "Explain"@,
        plan matches PlanModel::Limit { n, .. } ==> plan_line(plan) == "Limit: "@ + decimal(
            n as int,
        ),
        plan matches PlanModel::Filter { predicate, .. } ==> plan_line(plan) == "Filter: "@
            + expr_text(predicate),
        plan matches PlanModel::Projection { expr, .. } ==> plan_line(plan) == "Projection: "@
            + joined(expr.map_values(|e: ExprModel| expr_text(e)), ", "@),
        plan matches PlanModel::Sort { expr, .. } ==> plan_line(plan) == "Sort: "@ + joined(
            expr.map_values(|e: ExprModel| expr_text(e)),
            ", "@,
        ),
        plan matches PlanModel::Window { window_expr, .. } ==> plan_line(plan)
            == "WindowAggr: windowExpr=[["@ + joined(
            window_expr.map_values(|e: ExprModel| expr_text(e)),
            ", "@,
        ) + "]]"@,
        plan matches PlanModel::Aggregate { group_expr, aggr_expr, .. } ==> plan_line(plan)
            == "Aggregate: groupBy=[["@ + joined(
            group_expr.map_values(|e: ExprModel| expr_text(e)),
            ", "@,
        ) + "]], aggr=[["@ + joined(aggr_expr.map_values(|e: ExprModel| expr_text(e)), ", "@)
            + "]]"@,
        plan matches PlanModel::Join { on, join_constraint, .. } ==> plan_line(plan) == (
        if join_constraint == JoinConstraint::Using {
            "Join: Using "@
        } else {
            "Join: "@
        }) + joined(
            on.map_values(
                |keys: (ColumnModel, ColumnModel)|
                    column_text(keys.0) + " = "@ + column_text(keys.1),
            ),
            ", "@,
        ),
        plan matches PlanModel::Repartition {
            partitioning_scheme: PartitioningModel::RoundRobinBatch(n),
            ..
        } ==> plan_line(plan) == "Repartition: RoundRobinBatch partition_count="@ + decimal(
            n as int,
        ),
        plan matches PlanModel::Repartition {
            partitioning_scheme: PartitioningModel::Hash(expr, n),
            ..
        } ==> plan_line(plan) == "Repartition: Hash("@ + joined(
            expr.map_values(|e: ExprModel| expr_text(e)),
            ", "@,
        ) + ") partition_count="@ + decimal(n as int),
        plan matches PlanModel::TableScan { table_name, projection, filters, limit, .. }
            ==> plan_line(plan) == "TableScan: "@ + table_name + " projection="@ + (
        match projection {
            Some(indices) => "Some(["@ + joined(
                indices.map_values(|n: usize| decimal(n as int)),
                ", "@,
            ) + "])"@,
            None => "None"@,
        }) + (if filters.len() == 0 {
            Seq::empty()
        } else {
            ", filters=["@ + joined(filters.map_values(|e: ExprModel| expr_text(e)), ", "@) + "]"@
        }) + (match limit {
            Some(n) => ", limit="@ + decimal(n as int),
            None => Seq::empty(),
        }),
        plan matches PlanModel::CreateExternalTable { name, .. } ==> plan_line(plan)
            == "CreateExternalTable: "@ + quoted(name),
        plan matches PlanModel::Extension { node } ==> plan_line(plan) == node.spec_text(),
{
    match plan {
        PlanModel::Projection { expr, .. } => lemma_exprs_text(expr),
        PlanModel::Sort { expr, .. } => lemma_exprs_text(expr),
        PlanModel::Window { window_expr, .. } => lemma_exprs_text(window_expr),
        PlanModel::Aggregate { group_expr, aggr_expr, .. } => {
            lemma_exprs_text(group_expr);
            lemma_exprs_text(aggr_expr);
        },
        PlanModel::Repartition {
            partitioning_scheme: PartitioningModel::Hash(expr, _),
            ..
        } => lemma_exprs_text(expr),
        PlanModel::TableScan { projection, filters, .. } => {
            lemma_exprs_text(filters);
            if let Some(indices) = projection {
                assert(numbers_text(indices.map_values(|n: usize| n as int))
                    =~= indices.map_values(|n: usize| decimal(n as int)));
            }
        },
        PlanModel::Join { on, .. } => {
            assert(join_keys_text(on) =~= on.map_values(
                |keys: (ColumnModel, ColumnModel)|
                    column_text(keys.0) + " = "@ + column_text(keys.1),
            ));
        },
        _ => {},
    }
}

proof fn lemma_exprs_text(exprs: Seq<ExprModel>)
    ensures
        exprs_text(exprs) == exprs.map_values(|e: ExprModel| expr_text(e)),
{
    assert(exprs_text(exprs) =~= exprs.map_values(|e: ExprModel| expr_text(e)));
}

/// The text of an expression is put together from the texts of its parts.
pub proof fn law_text_shows_every_part(expr: &Expr, text: String)
    requires
        call_ensures(Expr::text, (expr,), text),
    ensures
        *expr matches Expr::Alias(e, alias) ==> text@ == expr_text((*e)@) + " AS "@ + alias@,
        *expr matches Expr::Column(column) ==> text@ == "#"@ + (match column.relation {
            Some(relation) => relation@ + "."@,
            None => Seq::empty(),
        }) + column.name@,
        *expr matches Expr::ScalarVariable(names) ==> text@ == joined(
            names@.map_values(|name: String| name@),
            "."@,
        ),
        *expr matches Expr::Literal(ScalarValue::Int64(Some(n))) ==> text@ == "Int64("@
            + signed_decimal(n as int) + ")"@,
        *expr matches Expr::Literal(ScalarValue::Utf8(Some(s))) ==> text@ == "Utf8(\""@ + s@
            + "\")"@,
        *expr matches Expr::BinaryExpr { left, op, right } ==> text@ == expr_text((*left)@) + " "@
            + operator_text(op) + " "@ + expr_text((*right)@),
        *expr matches Expr::Not(e) ==> text@ == "NOT "@ + expr_text((*e)@),
        *expr matches Expr::Negative(e) ==> text@ == "(- "@ + expr_text((*e)@) + ")"@,
        *expr matches Expr::IsNull(e) ==> text@ == expr_text((*e)@) + " IS NULL"@,
        *expr matches Expr::IsNotNull(e) ==> text@ == expr_text((*e)@) + " IS NOT NULL"@,
        *expr matches Expr::Cast { expr: e, data_type } ==> text@ == "CAST("@ + expr_text((*e)@)
            + " AS "@ + data_type_text(data_type) + ")"@,
        *expr matches Expr::TryCast { expr: e, data_type } ==> text@ == "TRY_CAST("@ + expr_text(
            (*e)@,
        ) + " AS "@ + data_type_text(data_type) + ")"@,
        *expr matches Expr::Sort { expr: e, asc, nulls_first } ==> text@ == expr_text((*e)@) + (
        if asc {
            " ASC"@
        } else {
            " DESC"@
        }) + (if nulls_first {
            " NULLS FIRST"@
        } else {
            " NULLS LAST"@
        }),
        *expr matches Expr::Between { expr: e, negated, low, high } ==> text@ == expr_text((*e)@)
            + (if negated {
            " NOT BETWEEN "@
        } else {
            " BETWEEN "@
        }) + expr_text((*low)@) + " AND "@ + expr_text((*high)@),
        *expr is Wildcard ==> text@ == "*"@,
{
    if let Expr::Column(column) = *expr {
        assert(text@ =~= "#"@ + (match column.relation {
            Some(relation) => relation@ + "."@,
            None => Seq::empty(),
        }) + column.name@);
    }
}

/// The text of a call shows its function and each of its arguments, and that of an `IN` each
/// member of its list.
pub proof fn law_text_shows_every_argument(expr: &Expr, text: String)
    requires
        call_ensures(Expr::text, (expr,), text),
    ensures
        *expr matches Expr::InList { expr: e, list, negated } ==> text@ == expr_text((*e)@) + (
        if negated {
            " NOT IN (["@
        } else {
            " IN (["@
        }) + joined(list@.map_values(|arg: Expr| expr_text(arg@)), ", "@) + "])"@,
        *expr matches Expr::ScalarFunction { fun, args } ==> text@ == fun.name@ + "("@ + joined(
            args@.map_values(|arg: Expr| expr_text(arg@)),
            ", "@,
        ) + ")"@,
        *expr matches Expr::ScalarUDF { fun, args } ==> text@ == (*fun).name@ + "("@ + joined(
            args@.map_values(|arg: Expr| expr_text(arg@)),
            ", "@,
        ) + ")"@,
        *expr matches Expr::AggregateUDF { fun, args } ==> text@ == (*fun).name@ + "("@ + joined(
            args@.map_values(|arg: Expr| expr_text(arg@)),
            ", "@,
        ) + ")"@,
        *expr matches Expr::AggregateFunction { fun, args, distinct } ==> text@ == aggregate_text(
            fun,
        ) + (if distinct {
            "(DISTINCT "@
        } else {
            "("@
        }) + joined(args@.map_values(|arg: Expr| expr_text(arg@)), ", "@) + ")"@,
{
    match *expr {
        Expr::InList { list, .. } => lemma_texts_of_members(list@),
        Expr::ScalarFunction { args, .. }
        | Expr::ScalarUDF { args, .. }
        | Expr::AggregateUDF { args, .. } => lemma_texts_of_members(args@),
        Expr::AggregateFunction { args, .. } => lemma_texts_of_members(args@),
        _ => {},
    }
}

proof fn lemma_texts_of_members(exprs: Seq<Expr>)
    ensures
        exprs_text(exprs_model(exprs)) == exprs.map_values(|arg: Expr| expr_text(arg@)),
{
    assert(exprs_text(exprs_model(exprs)) =~= exprs.map_values(|arg: Expr| expr_text(arg@)));
}

/// No two operators are written alike.
pub proof fn law_operators_are_told_apart(left: Operator, right: Operator)
    ensures
        operator_text(left) == operator_text(right) ==> left == right,
{
    reveal_strlit("=");
    reveal_strlit("!=");
    reveal_strlit("<");
    reveal_strlit("<=");
    reveal_strlit(">");
    reveal_strlit(">=");
    reveal_strlit("+");
    reveal_strlit("-");
    reveal_strlit("*");
    reveal_strlit("/");
    reveal_strlit("%");
    reveal_strlit("AND");
    reveal_strlit("OR");
    reveal_strlit("LIKE");
    reveal_strlit("NOT LIKE");
    reveal_strlit("~");
    reveal_strlit("~*");
    reveal_strlit("!~");
    reveal_strlit("!~*");
    let (l, r) = (operator_text(left), operator_text(right));
    assert(l.len() > 0 && r.len() > 0);
    if l == r {
        assert(l.len() == r.len());
        assert(l[0] == r[0]);
        assert(l.last() == r.last());
    }
}

} // verus!
