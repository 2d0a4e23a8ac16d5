//! The error type of the planner.
use vstd::prelude::*;

verus! {

/// What can go wrong while a query is planned.
#[derive(Debug, PartialEq, Eq)]
pub enum DataFusionError {
    /// A feature that the planner does not have.
    NotImplemented(String),
    /// A broken expectation inside the planner.
    Internal(String),
    /// A query that makes no sense.
    Plan(String),
    /// A failure while an expression was evaluated.
    Execution(String),
}

/// A [`DataFusionError`] with its message as a sequence of characters.
#[verifier::ext_equal]
pub enum ErrorModel {
    NotImplemented(Seq<char>),
    Internal(Seq<char>),
    Plan(Seq<char>),
    Execution(Seq<char>),
}

impl View for DataFusionError {
    type V = ErrorModel;

    open spec fn view(&self) -> ErrorModel {
        match *self {
            DataFusionError::NotImplemented(message) => ErrorModel::NotImplemented(message@),
            DataFusionError::Internal(message) => ErrorModel::Internal(message@),
            DataFusionError::Plan(message) => ErrorModel::Plan(message@),
            DataFusionError::Execution(message) => ErrorModel::Execution(message@),
        }
    }
}

/// The model of a result: the model of the value, or the model of the error.
pub open spec fn outcome<T: View>(result: Result<T, DataFusionError>) -> Result<T::V, ErrorModel> {
    match result {
        Ok(value) => Ok(value@),
        Err(error) => Err(error@),
    }
}

/// Errors with the same model are of the same kind and say the same.
pub proof fn law_model_tells_errors_apart(left: DataFusionError, right: DataFusionError)
    requires
        left@ == right@,
    ensures
        match (left, right) {
            (DataFusionError::NotImplemented(l), DataFusionError::NotImplemented(r)) => l@ == r@,
            (DataFusionError::Internal(l), DataFusionError::Internal(r)) => l@ == r@,
            (DataFusionError::Plan(l), DataFusionError::Plan(r)) => l@ == r@,
            (DataFusionError::Execution(l), DataFusionError::Execution(r)) => l@ == r@,
            _ => false,
        },
{
}

} // verus!
