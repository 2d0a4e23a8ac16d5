//! Single values, as they occur in literals.
use arrow::datatypes::DataType;
use vstd::prelude::*;

verus! {

/// The logical type of a column or a value. The planner hands these on and never looks inside.
#[verifier::external_type_specification]
#[verifier::external_body]
pub struct ExDataType(arrow::datatypes::DataType);

/// Calls `<DataType as Clone>::clone`, which copies every part of the type: the copy is the
/// same type.
#[verifier::external_body]
pub(crate) fn clone_data_type(data_type: &DataType) -> (copy: DataType)
    ensures
        copy == *data_type,
{
    data_type.clone()
}

/// A single value of a known type, or the null of that type.
#[derive(Debug, PartialEq, Eq)]
pub enum ScalarValue {
    Boolean(Option<bool>),
    /// The shortest decimal text that reads back as the same single-precision number.
    Float32(Option<String>),
    /// The shortest decimal text that reads back as the same double-precision number.
    Float64(Option<String>),
    Int8(Option<i8>),
    Int16(Option<i16>),
    Int32(Option<i32>),
    Int64(Option<i64>),
    UInt8(Option<u8>),
    UInt16(Option<u16>),
    UInt32(Option<u32>),
    UInt64(Option<u64>),
    Utf8(Option<String>),
    LargeUtf8(Option<String>),
    Binary(Option<Vec<u8>>),
    LargeBinary(Option<Vec<u8>>),
    List(Option<Vec<ScalarValue>>, DataType),
    /// Days since the epoch.
    Date32(Option<i32>),
    /// Milliseconds since the epoch.
    Date64(Option<i64>),
    TimestampSecond(Option<i64>),
    TimestampMillisecond(Option<i64>),
    TimestampMicrosecond(Option<i64>),
    TimestampNanosecond(Option<i64>),
    /// Whole months.
    IntervalYearMonth(Option<i32>),
    /// Days in the upper half, milliseconds in the lower half.
    IntervalDayTime(Option<i64>),
}

/// A [`ScalarValue`] with strings and vectors as sequences.
#[verifier::ext_equal]
pub enum ScalarModel {
    Boolean(Option<bool>),
    Float32(Option<Seq<char>>),
    Float64(Option<Seq<char>>),
    Int8(Option<i8>),
    Int16(Option<i16>),
    Int32(Option<i32>),
    Int64(Option<i64>),
    UInt8(Option<u8>),
    UInt16(Option<u16>),
    UInt32(Option<u32>),
    UInt64(Option<u64>),
    Utf8(Option<Seq<char>>),
    LargeUtf8(Option<Seq<char>>),
    Binary(Option<Seq<u8>>),
    LargeBinary(Option<Seq<u8>>),
    List(Option<Seq<ScalarModel>>, DataType),
    Date32(Option<i32>),
    Date64(Option<i64>),
    TimestampSecond(Option<i64>),
    TimestampMillisecond(Option<i64>),
    TimestampMicrosecond(Option<i64>),
    TimestampNanosecond(Option<i64>),
    IntervalYearMonth(Option<i32>),
    IntervalDayTime(Option<i64>),
}

/// The characters of an optional string.
pub open spec fn text_model(text: Option<String>) -> Option<Seq<char>> {
    match text {
        Some(s) => Some(s@),
        None => None,
    }
}

/// The bytes of an optional byte string.
pub open spec fn bytes_model(bytes: Option<Vec<u8>>) -> Option<Seq<u8>> {
    match bytes {
        Some(b) => Some(b@),
        None => None,
    }
}

/// The model of a value.
pub open spec fn scalar_model(value: ScalarValue) -> ScalarModel
    decreases value,
{
    match value {
        ScalarValue::Boolean(v) => ScalarModel::Boolean(v),
        ScalarValue::Float32(v) => ScalarModel::Float32(text_model(v)),
        ScalarValue::Float64(v) => ScalarModel::Float64(text_model(v)),
        ScalarValue::Int8(v) => ScalarModel::Int8(v),
        ScalarValue::Int16(v) => ScalarModel::Int16(v),
        ScalarValue::Int32(v) => ScalarModel::Int32(v),
        ScalarValue::Int64(v) => ScalarModel::Int64(v),
        ScalarValue::UInt8(v) => ScalarModel::UInt8(v),
        ScalarValue::UInt16(v) => ScalarModel::UInt16(v),
        ScalarValue::UInt32(v) => ScalarModel::UInt32(v),
        ScalarValue::UInt64(v) => ScalarModel::UInt64(v),
        ScalarValue::Utf8(v) => ScalarModel::Utf8(text_model(v)),
        ScalarValue::LargeUtf8(v) => ScalarModel::LargeUtf8(text_model(v)),
        ScalarValue::Binary(v) => ScalarModel::Binary(bytes_model(v)),
        ScalarValue::LargeBinary(v) => ScalarModel::LargeBinary(bytes_model(v)),
        ScalarValue::List(v, data_type) => ScalarModel::List(
            match v {
                Some(items) => Some(scalars_model(items@)),
                None => None,
            },
            data_type,
        ),
        ScalarValue::Date32(v) => ScalarModel::Date32(v),
        ScalarValue::Date64(v) => ScalarModel::Date64(v),
        ScalarValue::TimestampSecond(v) => ScalarModel::TimestampSecond(v),
        ScalarValue::TimestampMillisecond(v) => ScalarModel::TimestampMillisecond(v),
        ScalarValue::TimestampMicrosecond(v) => ScalarModel::TimestampMicrosecond(v),
        ScalarValue::TimestampNanosecond(v) => ScalarModel::TimestampNanosecond(v),
        ScalarValue::IntervalYearMonth(v) => ScalarModel::IntervalYearMonth(v),
        ScalarValue::IntervalDayTime(v) => ScalarModel::IntervalDayTime(v),
    }
}

/// The models of a sequence of values, one for one.
pub open spec fn scalars_model(values: Seq<ScalarValue>) -> Seq<ScalarModel>
    decreases values,
{
    Seq::new(
        values.len(),
        |i: int|
            if 0 <= i < values.len() {
                scalar_model(values[i])
            } else {
                arbitrary()
            },
    )
}

impl View for ScalarValue {
    type V = ScalarModel;

    open spec fn view(&self) -> ScalarModel {
        scalar_model(*self)
    }
}

proof fn lemma_scalars_model_push(values: Seq<ScalarValue>, value: ScalarValue)
    ensures
        scalars_model(values.push(value)) == scalars_model(values).push(scalar_model(value)),
{
    assert(scalars_model(values.push(value)) =~= scalars_model(values).push(scalar_model(value)));
}

proof fn lemma_scalars_model_take(values: Seq<ScalarValue>, i: int)
    requires
        0 <= i < values.len(),
    ensures
        scalars_model(values).take(i + 1) == scalars_model(values).take(i).push(
            scalar_model(values[i]),
        ),
{
    assert(scalars_model(values).take(i + 1) =~= scalars_model(values).take(i).push(
        scalar_model(values[i]),
    ));
}

/// A copy of an optional string.
pub(crate) fn clone_text(text: &Option<String>) -> (copy: Option<String>)
    ensures
        text_model(copy) == text_model(*text),
{
    match text {
        Some(s) => Some(s.clone()),
        None => None,
    }
}

/// Whether two optional strings are the same.
pub(crate) fn same_text(left: &Option<String>, right: &Option<String>) -> (same: bool)
    ensures
        same == (text_model(*left) == text_model(*right)),
{
    match (left, right) {
        (Some(l), Some(r)) => *l == *r,
        (None, None) => true,
        _ => false,
    }
}

fn clone_bytes(bytes: &Option<Vec<u8>>) -> (copy: Option<Vec<u8>>)
    ensures
        bytes_model(copy) == bytes_model(*bytes),
{
    match bytes {
        Some(b) => Some(b.clone()),
        None => None,
    }
}

fn clone_scalars(values: &Vec<ScalarValue>) -> (copy: Vec<ScalarValue>)
    ensures
        scalars_model(copy@) == scalars_model(values@),
    decreases values,
{
    let mut copy: Vec<ScalarValue> = Vec::new();
    let mut i: usize = 0;
    while i < values.len()
        invariant
            i <= values.len(),
            scalars_model(copy@) == scalars_model(values@).take(i as int),
        decreases values.len() - i,
    {
        proof {
            lemma_scalars_model_take(values@, i as int);
        }
        let item = values[i].clone();
        proof {
            lemma_scalars_model_push(copy@, item);
        }
        copy.push(item);
        i += 1;
    }
    copy
}

impl Clone for ScalarValue {
    fn clone(&self) -> (copy: Self)
        ensures
            copy@ == self@,
        decreases self,
    {
        match self {
            ScalarValue::Boolean(v) => ScalarValue::Boolean(*v),
            ScalarValue::Float32(v) => ScalarValue::Float32(clone_text(v)),
            ScalarValue::Float64(v) => ScalarValue::Float64(clone_text(v)),
            ScalarValue::Int8(v) => ScalarValue::Int8(*v),
            ScalarValue::Int16(v) => ScalarValue::Int16(*v),
            ScalarValue::Int32(v) => ScalarValue::Int32(*v),
            ScalarValue::Int64(v) => ScalarValue::Int64(*v),
            ScalarValue::UInt8(v) => ScalarValue::UInt8(*v),
            ScalarValue::UInt16(v) => ScalarValue::UInt16(*v),
            ScalarValue::UInt32(v) => ScalarValue::UInt32(*v),
            ScalarValue::UInt64(v) => ScalarValue::UInt64(*v),
            ScalarValue::Utf8(v) => ScalarValue::Utf8(clone_text(v)),
            ScalarValue::LargeUtf8(v) => ScalarValue::LargeUtf8(clone_text(v)),
            ScalarValue::Binary(v) => ScalarValue::Binary(clone_bytes(v)),
            ScalarValue::LargeBinary(v) => ScalarValue::LargeBinary(clone_bytes(v)),
            ScalarValue::List(v, data_type) => {
                let items: Option<Vec<ScalarValue>> = match v {
                    Some(items) => Some(clone_scalars(items)),
                    None => None,
                };
                ScalarValue::List(items, clone_data_type(data_type))
            },
            ScalarValue::Date32(v) => ScalarValue::Date32(*v),
            ScalarValue::Date64(v) => ScalarValue::Date64(*v),
            ScalarValue::TimestampSecond(v) => ScalarValue::TimestampSecond(*v),
            ScalarValue::TimestampMillisecond(v) => ScalarValue::TimestampMillisecond(*v),
            ScalarValue::TimestampMicrosecond(v) => ScalarValue::TimestampMicrosecond(*v),
            ScalarValue::TimestampNanosecond(v) => ScalarValue::TimestampNanosecond(*v),
            ScalarValue::IntervalYearMonth(v) => ScalarValue::IntervalYearMonth(*v),
            ScalarValue::IntervalDayTime(v) => ScalarValue::IntervalDayTime(*v),
        }
    }
}

/// Values with the same model are of the same type and hold the same.
pub proof fn law_model_tells_values_apart(left: ScalarValue, right: ScalarValue)
    requires
        left@ == right@,
    ensures
        match (left, right) {
            (ScalarValue::Boolean(l), ScalarValue::Boolean(r)) => l == r,
            (ScalarValue::Float32(l), ScalarValue::Float32(r)) => {
                &&& l is Some <==> r is Some
                &&& l is Some ==> l->0@ == r->0@
            },
            (ScalarValue::Float64(l), ScalarValue::Float64(r)) => {
                &&& l is Some <==> r is Some
                &&& l is Some ==> l->0@ == r->0@
            },
            (ScalarValue::Int8(l), ScalarValue::Int8(r)) => l == r,
            (ScalarValue::Int16(l), ScalarValue::Int16(r)) => l == r,
            (ScalarValue::Int32(l), ScalarValue::Int32(r)) => l == r,
            (ScalarValue::Int64(l), ScalarValue::Int64(r)) => l == r,
            (ScalarValue::UInt8(l), ScalarValue::UInt8(r)) => l == r,
            (ScalarValue::UInt16(l), ScalarValue::UInt16(r)) => l == r,
            (ScalarValue::UInt32(l), ScalarValue::UInt32(r)) => l == r,
            (ScalarValue::UInt64(l), ScalarValue::UInt64(r)) => l == r,
            (ScalarValue::Utf8(l), ScalarValue::Utf8(r)) => {
                &&& l is Some <==> r is Some
                &&& l is Some ==> l->0@ == r->0@
            },
            (ScalarValue::LargeUtf8(l), ScalarValue::LargeUtf8(r)) => {
                &&& l is Some <==> r is Some
                &&& l is Some ==> l->0@ == r->0@
            },
            (ScalarValue::Binary(l), ScalarValue::Binary(r)) => {
                &&& l is Some <==> r is Some
                &&& l is Some ==> l->0@ == r->0@
            },
            (ScalarValue::LargeBinary(l), ScalarValue::LargeBinary(r)) => {
                &&& l is Some <==> r is Some
                &&& l is Some ==> l->0@ == r->0@
            },
            (ScalarValue::Date32(l), ScalarValue::Date32(r)) => l == r,
            (ScalarValue::Date64(l), ScalarValue::Date64(r)) => l == r,
            (ScalarValue::TimestampSecond(l), ScalarValue::TimestampSecond(r)) => l == r,
            (ScalarValue::TimestampMillisecond(l), ScalarValue::TimestampMillisecond(r)) => l == r,
            (ScalarValue::TimestampMicrosecond(l), ScalarValue::TimestampMicrosecond(r)) => l == r,
            (ScalarValue::TimestampNanosecond(l), ScalarValue::TimestampNanosecond(r)) => l == r,
            (ScalarValue::IntervalYearMonth(l), ScalarValue::IntervalYearMonth(r)) => l == r,
            (ScalarValue::IntervalDayTime(l), ScalarValue::IntervalDayTime(r)) => l == r,
            (ScalarValue::List(l, l_type), ScalarValue::List(r, r_type)) => {
                &&& l_type == r_type
                &&& l is Some <==> r is Some
                &&& l is Some ==> l->0@.len() == r->0@.len() && forall|i: int|
                    0 <= i < l->0@.len() ==> (#[trigger] l->0@[i])@ == r->0@[i]@
            },
            _ => false,
        },
{
    if let (ScalarValue::List(Some(l), _), ScalarValue::List(Some(r), _)) = (left, right) {
        assert(scalars_model(l@) == scalars_model(r@));
        assert(scalars_model(l@).len() == l@.len());
        assert(scalars_model(r@).len() == r@.len());
        assert forall|i: int| 0 <= i < l@.len() implies (#[trigger] l@[i])@ == r@[i]@ by {
            assert(scalars_model(l@)[i] == scalars_model(r@)[i]);
        }
    }
}

} // verus!
