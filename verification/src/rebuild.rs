//! Rebuilding a plan node around other expressions and inputs.
use std::sync::Arc;
use vstd::prelude::*;

use crate::error::{outcome, DataFusionError, ErrorModel};
use crate::expr::{
    clone_exprs, clone_range, exprs_model, lemma_exprs_model_index, lemma_exprs_model_len, Expr,
    ExprModel,
};
use crate::plan::{
    clone_join_keys, clone_plans, cross_joined, lemma_plans_model_index, lemma_plans_model_len,
    plan_schema, plans_model, same_type, LogicalPlan, LogicalPlanBuilder, Partitioning,
    PartitioningModel, PlanModel, UserDefinedLogicalNode,
};
use crate::scalar::clone_text;
use crate::schema::{build_join_schema, checked_schema, join_fields};

verus! {

/// Whether there are enough expressions and inputs to rebuild a plan node from.
pub open spec fn rebuildable<N>(
    plan: PlanModel<N>,
    exprs: Seq<ExprModel>,
    inputs: Seq<PlanModel<N>>,
) -> bool {
    match plan {
        PlanModel::Filter { .. } => exprs.len() >= 1 && inputs.len() >= 1,
        PlanModel::Window { window_expr, .. } => exprs.len() >= window_expr.len() && inputs.len()
            >= 1,
        PlanModel::Aggregate { group_expr, .. } => exprs.len() >= group_expr.len() && inputs.len()
            >= 1,
        PlanModel::Projection { .. }
        | PlanModel::Repartition { .. }
        | PlanModel::Sort { .. }
        | PlanModel::Limit { .. } => inputs.len() >= 1,
        PlanModel::Join { .. } | PlanModel::CrossJoin { .. } => inputs.len() >= 2,
        PlanModel::Extension { .. }
        | PlanModel::Union { .. }
        | PlanModel::EmptyRelation { .. }
        | PlanModel::TableScan { .. }
        | PlanModel::CreateExternalTable { .. }
        | PlanModel::Explain { .. } => true,
    }
}

/// The plan node with other expressions and inputs. A join works its schema out anew, which
/// fails where the fields of its inputs clash; a join keeps the columns that it compares, and a
/// node without inputs stays as it is. What becomes of a user's node, the node itself decides.
pub open spec fn rebuilt<N: UserDefinedLogicalNode>(
    plan: PlanModel<N>,
    exprs: Seq<ExprModel>,
    inputs: Seq<PlanModel<N>>,
) -> Result<PlanModel<N>, ErrorModel>
    recommends
        plan !is Extension,
{
    match plan {
        PlanModel::Projection { schema, .. } => Ok(
            PlanModel::Projection { expr: exprs, input: Box::new(inputs[0]), schema },
        ),
        PlanModel::Filter { .. } => Ok(
            PlanModel::Filter { predicate: exprs[0], input: Box::new(inputs[0]) },
        ),
        PlanModel::Repartition { partitioning_scheme, .. } => Ok(
            PlanModel::Repartition {
                input: Box::new(inputs[0]),
                partitioning_scheme: match partitioning_scheme {
                    PartitioningModel::RoundRobinBatch(n) => PartitioningModel::RoundRobinBatch(n),
                    PartitioningModel::Hash(_, n) => PartitioningModel::Hash(exprs, n),
                },
            },
        ),
        PlanModel::Window { window_expr, schema, .. } => Ok(
            PlanModel::Window {
                input: Box::new(inputs[0]),
                window_expr: exprs.subrange(0, window_expr.len() as int),
                schema,
            },
        ),
        PlanModel::Aggregate { group_expr, schema, .. } => Ok(
            PlanModel::Aggregate {
                input: Box::new(inputs[0]),
                group_expr: exprs.subrange(0, group_expr.len() as int),
                aggr_expr: exprs.subrange(group_expr.len() as int, exprs.len() as int),
                schema,
            },
        ),
        PlanModel::Sort { .. } => Ok(PlanModel::Sort { expr: exprs, input: Box::new(inputs[0]) }),
        PlanModel::Join { join_type, join_constraint, on, .. } => match checked_schema(
            join_fields(plan_schema(inputs[0]), plan_schema(inputs[1]), join_type),
        ) {
            Ok(schema) => Ok(
                PlanModel::Join {
                    left: Box::new(inputs[0]),
                    right: Box::new(inputs[1]),
                    on,
                    join_type,
                    join_constraint,
                    schema,
                },
            ),
            Err(error) => Err(error),
        },
        PlanModel::CrossJoin { .. } => cross_joined(inputs[0], inputs[1]),
        PlanModel::Limit { n, .. } => Ok(PlanModel::Limit { n, input: Box::new(inputs[0]) }),
        PlanModel::Extension { .. } => arbitrary(),
        PlanModel::Union { schema, alias, .. } => Ok(PlanModel::Union { inputs, schema, alias }),
        PlanModel::EmptyRelation { .. }
        | PlanModel::TableScan { .. }
        | PlanModel::CreateExternalTable { .. }
        | PlanModel::Explain { .. } => Ok(plan),
    }
}

/// Returns a new logical plan based on the original one with inputs and expressions replaced.
pub fn from_plan<N: UserDefinedLogicalNode>(
    plan: &LogicalPlan<N>,
    expr: &[Expr],
    inputs: &[LogicalPlan<N>],
) -> (result: Result<LogicalPlan<N>, DataFusionError>)
    requires
        rebuildable(plan@, exprs_model(expr@), plans_model(inputs@)),
    ensures
        plan@ !is Extension ==> outcome(result) == rebuilt(
            plan@,
            exprs_model(expr@),
            plans_model(inputs@),
        ),
        plan@ matches PlanModel::Extension { node } ==> {
            &&& result matches Ok(LogicalPlan::Extension { node: made })
            &&& call_ensures(N::from_template, (&node, expr, inputs), made)
        },
        result matches Ok(rebuilt) ==> same_type(plan@, rebuilt@),
{
    broadcast use {
        lemma_exprs_model_len,
        lemma_exprs_model_index,
        lemma_plans_model_len,
        lemma_plans_model_index,
    };

    match plan {
        LogicalPlan::Projection { schema, .. } => Ok(
            LogicalPlan::Projection {
                expr: clone_exprs(expr),
                input: Arc::new(inputs[0].clone()),
                schema: Arc::clone(schema),
            },
        ),
        LogicalPlan::Filter { .. } => Ok(
            LogicalPlan::Filter {
                predicate: expr[0].clone(),
                input: Arc::new(inputs[0].clone()),
            },
        ),
        LogicalPlan::Repartition { partitioning_scheme, .. } => match partitioning_scheme {
            Partitioning::RoundRobinBatch(n) => Ok(
                LogicalPlan::Repartition {
                    partitioning_scheme: Partitioning::RoundRobinBatch(*n),
                    input: Arc::new(inputs[0].clone()),
                },
            ),
            Partitioning::Hash(_, n) => Ok(
                LogicalPlan::Repartition {
                    partitioning_scheme: Partitioning::Hash(clone_exprs(expr), *n),
                    input: Arc::new(inputs[0].clone()),
                },
            ),
        },
        LogicalPlan::Window { window_expr, schema, .. } => Ok(
            LogicalPlan::Window {
                input: Arc::new(inputs[0].clone()),
                window_expr: clone_range(expr, 0, window_expr.len()),
                schema: Arc::clone(schema),
            },
        ),
        LogicalPlan::Aggregate { group_expr, schema, .. } => Ok(
            LogicalPlan::Aggregate {
                group_expr: clone_range(expr, 0, group_expr.len()),
                aggr_expr: clone_range(expr, group_expr.len(), expr.len()),
                input: Arc::new(inputs[0].clone()),
                schema: Arc::clone(schema),
            },
        ),
        LogicalPlan::Sort { .. } => Ok(
            LogicalPlan::Sort { expr: clone_exprs(expr), input: Arc::new(inputs[0].clone()) },
        ),
        LogicalPlan::Join { join_type, join_constraint, on, .. } => {
            let schema = build_join_schema(inputs[0].schema(), inputs[1].schema(), join_type)?;
            Ok(
                LogicalPlan::Join {
                    left: Arc::new(inputs[0].clone()),
                    right: Arc::new(inputs[1].clone()),
                    join_type: *join_type,
                    join_constraint: *join_constraint,
                    on: clone_join_keys(on),
                    schema: Arc::new(schema),
                },
            )
        },
        LogicalPlan::CrossJoin { .. } => {
            let left = inputs[0].clone();
            let right = &inputs[1];
            LogicalPlanBuilder::from(left).cross_join(right)?.build()
        },
        LogicalPlan::Limit { n, .. } => Ok(
            LogicalPlan::Limit { n: *n, input: Arc::new(inputs[0].clone()) },
        ),
        LogicalPlan::Extension { node } => {
            let made = node.from_template(expr, inputs);
            Ok(LogicalPlan::Extension { node: made })
        },
        LogicalPlan::Union { schema, alias, .. } => Ok(
            LogicalPlan::Union {
                inputs: clone_plans(inputs),
                schema: Arc::clone(schema),
                alias: clone_text(alias),
            },
        ),
        LogicalPlan::EmptyRelation { .. }
        | LogicalPlan::TableScan { .. }
        | LogicalPlan::CreateExternalTable { .. }
        | LogicalPlan::Explain { .. } => Ok(plan.clone()),
    }
}

/// Whether rebuilding a plan node around expressions and inputs may end with `result`: as
/// [`rebuilt`] says, and for a user's node with the node that it makes of them.
pub open spec fn may_rebuild<N: UserDefinedLogicalNode>(
    plan: PlanModel<N>,
    exprs: Seq<ExprModel>,
    inputs: Seq<PlanModel<N>>,
    result: Result<PlanModel<N>, ErrorModel>,
) -> bool {
    match plan {
        PlanModel::Extension { node } => exists|
            expr_slice: &[Expr],
            input_slice: &[LogicalPlan<N>],
            made: Arc<N>,
        |
            {
                &&& #[trigger] call_ensures(
                    N::from_template,
                    (&node, expr_slice, input_slice),
                    made,
                )
                &&& exprs_model(expr_slice@) == exprs
                &&& plans_model(input_slice@) == inputs
                &&& result == Ok::<PlanModel<N>, ErrorModel>(PlanModel::Extension { node: *made })
            },
        _ => result == rebuilt(plan, exprs, inputs),
    }
}

} // verus!
