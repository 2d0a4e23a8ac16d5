//! What holds between taking a plan node apart and rebuilding it.
use arrow::datatypes::Schema;
use std::sync::Arc;
use vstd::prelude::*;

use crate::display::plan_text;
use crate::error::{outcome, DataFusionError, ErrorModel};
use crate::expr::{
    exprs_model, lemma_exprs_model_index, lemma_exprs_model_len, lemma_same_members, Expr,
    ExprModel,
};
use crate::optimize::{
    answered_plans, explained, has_failed, may_answer, may_answer_all, may_explain,
    optimize_children, optimize_explain, ExecutionProps, OptimizerRule,
};
use crate::plan::{
    borrowed_model, join_keys_model, lemma_plans_model_index, lemma_plans_model_len,
    plan_expressions, plan_inputs, plan_schema, plans_model, same_type, stringified_model,
    LogicalPlan, Partitioning, PlanModel, PlanType, PlanTypeModel, StringifiedPlan,
    StringifiedPlanModel, UserDefinedLogicalNode,
};
use crate::rebuild::{from_plan, may_rebuild, rebuildable, rebuilt};
use crate::rewrite_laws::lemma_members_of_range;
use crate::schema::{
    checked_schema, described, df_fields_model, first_ambiguous, first_repeat, is_ambiguous,
    join_fields, repeats, schema_fields, unqualified, DFField, DFFieldModel, DFSchema, FieldModel,
    JoinType,
};

verus! {

/// Whether a plan node records the schema that its inputs give. Only joins work their schema out
/// from their inputs; any other node just records one.
pub open spec fn schema_fits<N: UserDefinedLogicalNode>(plan: PlanModel<N>) -> bool {
    match plan {
        PlanModel::Join { left, right, join_type, schema, .. } => checked_schema(
            join_fields(plan_schema(*left), plan_schema(*right), join_type),
        ) == Ok::<Seq<DFFieldModel>, ErrorModel>(schema),
        PlanModel::CrossJoin { left, right, schema } => checked_schema(
            plan_schema(*left) + plan_schema(*right),
        ) == Ok::<Seq<DFFieldModel>, ErrorModel>(schema),
        _ => true,
    }
}

/// As many expressions and inputs as a plan node has are enough to rebuild it from.
pub proof fn law_right_numbers_suffice<N: UserDefinedLogicalNode>(
    plan: PlanModel<N>,
    exprs: Seq<ExprModel>,
    inputs: Seq<PlanModel<N>>,
)
    requires
        exprs.len() == plan_expressions(plan).len(),
        inputs.len() == plan_inputs(plan).len(),
    ensures
        rebuildable(plan, exprs, inputs),
{
}

/// Rebuilding a plan node from its own expressions and inputs gives the node back, exactly if it
/// records the schema that its inputs give. What a user's node makes of its own parts is up to
/// the node.
pub proof fn law_own_parts_give_it_back<N: UserDefinedLogicalNode>(plan: PlanModel<N>)
    requires
        plan !is Extension,
    ensures
        rebuilt(plan, plan_expressions(plan), plan_inputs(plan)) == Ok::<
            PlanModel<N>,
            ErrorModel,
        >(plan) <==> schema_fits(plan),
{
    match plan {
        PlanModel::Window { window_expr, .. } => {
            assert(window_expr.subrange(0, window_expr.len() as int) =~= window_expr);
        },
        PlanModel::Aggregate { group_expr, aggr_expr, .. } => {
            let all = group_expr + aggr_expr;
            assert(all.subrange(0, group_expr.len() as int) =~= group_expr);
            assert(all.subrange(group_expr.len() as int, all.len() as int) =~= aggr_expr);
        },
        _ => {},
    }
}

/// A plan node that was rebuilt from as many expressions and inputs as it has is of the same
/// type, stands over the given inputs and holds the given expressions. A join keeps the columns
/// that it compares instead, and an `EXPLAIN`, which stays as it is, its own input.
pub proof fn law_rebuilt_has_given_parts<N: UserDefinedLogicalNode>(
    plan: PlanModel<N>,
    exprs: Seq<ExprModel>,
    inputs: Seq<PlanModel<N>>,
    result: PlanModel<N>,
)
    requires
        plan !is Extension,
        exprs.len() == plan_expressions(plan).len(),
        inputs.len() == plan_inputs(plan).len(),
        rebuilt(plan, exprs, inputs) == Ok::<PlanModel<N>, ErrorModel>(result),
    ensures
        same_type(plan, result),
        plan !is Join ==> plan_expressions(result) == exprs,
        plan is Join ==> plan_expressions(result) == plan_expressions(plan),
        plan !is Explain ==> plan_inputs(result) == inputs,
        plan is Explain ==> result == plan,
{
    if plan !is Join {
        assert(plan_expressions(result) =~= exprs);
    }
    if plan !is Explain {
        assert(plan_inputs(result) =~= inputs);
    }
}

/// A plan node other than a join records the same schema when it is rebuilt, where it records one
/// at all.
pub proof fn law_recorded_schema_stays<N: UserDefinedLogicalNode>(
    plan: PlanModel<N>,
    exprs: Seq<ExprModel>,
    inputs: Seq<PlanModel<N>>,
    result: PlanModel<N>,
)
    requires
        plan is Projection || plan is Window || plan is Aggregate || plan is Union || plan
            is TableScan || plan is EmptyRelation || plan is CreateExternalTable || plan is Explain,
        rebuilt(plan, exprs, inputs) == Ok::<PlanModel<N>, ErrorModel>(result),
    ensures
        plan_schema(result) == plan_schema(plan),
{
}

/// A rebuilt join has the schema that its new inputs give, whichever schema it had before.
pub proof fn law_join_schema_follows_inputs<N: UserDefinedLogicalNode>(
    plan: PlanModel<N>,
    exprs: Seq<ExprModel>,
    inputs: Seq<PlanModel<N>>,
    result: PlanModel<N>,
)
    requires
        plan is Join || plan is CrossJoin,
        rebuildable(plan, exprs, inputs),
        rebuilt(plan, exprs, inputs) == Ok::<PlanModel<N>, ErrorModel>(result),
    ensures
        schema_fits(result),
{
}

/// Under a rule that leaves every input as it is, a plan node stays as it is, if it records the
/// schema that its inputs give. An `EXPLAIN` is not among these nodes: it gains a text.
pub proof fn law_idle_rule_changes_nothing<O: OptimizerRule>(
    optimizer: &O,
    plan: PlanModel<O::Node>,
    execution_props: &ExecutionProps,
    answers: Seq<Result<LogicalPlan<O::Node>, DataFusionError>>,
    result: Result<PlanModel<O::Node>, ErrorModel>,
)
    requires
        plan !is Extension,
        plan !is Explain,
        schema_fits(plan),
        may_answer_all(optimizer, plan_inputs(plan), execution_props, answers),
        forall|input: &LogicalPlan<O::Node>, answer: Result<LogicalPlan<O::Node>, DataFusionError>|
            #[trigger] call_ensures(O::optimize, (optimizer, input, execution_props), answer)
                ==> answer is Ok && answer->Ok_0@ == input@,
        may_rebuild(plan, plan_expressions(plan), answered_plans(answers), result),
    ensures
        !has_failed(answers),
        result == Ok::<PlanModel<O::Node>, ErrorModel>(plan),
{
    let inputs = plan_inputs(plan);
    assert forall|i: int| 0 <= i < answers.len() implies (#[trigger] answers[i]) is Ok
        && answers[i]->Ok_0@ == inputs[i] by {
        assert(may_answer(optimizer, inputs[i], execution_props, answers[i]));
    }
    if answers.len() > 0 {
        assert(answers.last() == answers[answers.len() - 1]);
    }
    assert(answered_plans(answers) =~= inputs);
    law_own_parts_give_it_back(plan);
}

proof fn lemma_no_first_repeat(fields: Seq<DFFieldModel>, n: int)
    ensures
        match first_repeat(fields, n) {
            Some(i) => 0 <= i < n && repeats(fields, i),
            None => forall|i: int| 0 <= i < n ==> !repeats(fields, i),
        },
    decreases n,
{
    if n > 0 {
        lemma_no_first_repeat(fields, n - 1);
    }
}

proof fn lemma_no_first_ambiguous(fields: Seq<DFFieldModel>, n: int)
    ensures
        match first_ambiguous(fields, n) {
            Some(i) => 0 <= i < n && is_ambiguous(fields, i),
            None => forall|i: int| 0 <= i < n ==> !is_ambiguous(fields, i),
        },
    decreases n,
{
    if n > 0 {
        lemma_no_first_ambiguous(fields, n - 1);
    }
}

/// Fields make a schema exactly if no two of them that have the same name have the same relation,
/// or one of them none.
pub proof fn law_schema_has_clear_names(fields: Seq<DFFieldModel>)
    ensures
        checked_schema(fields) is Ok <==> forall|i: int, j: int|
            0 <= i < j < fields.len() && (#[trigger] fields[i]).field.name == (
            #[trigger] fields[j]).field.name ==> fields[i].qualifier != fields[j].qualifier
                && fields[i].qualifier is Some && fields[j].qualifier is Some,
        checked_schema(fields) is Ok ==> checked_schema(fields)->Ok_0 == fields,
{
    let n = fields.len() as int;
    lemma_no_first_repeat(fields, n);
    lemma_no_first_ambiguous(fields, n);
    if checked_schema(fields) is Ok {
        assert forall|i: int, j: int|
            0 <= i < j < fields.len() && (#[trigger] fields[i]).field.name == (
            #[trigger] fields[j]).field.name implies fields[i].qualifier != fields[j].qualifier
            && fields[i].qualifier is Some && fields[j].qualifier is Some by {
            assert(!repeats(fields, j));
            assert(!is_ambiguous(fields, i));
            assert(!is_ambiguous(fields, j));
        }
    }
}

/// Explaining an optimized plan keeps the texts that were there and adds one at the end: the text
/// of the optimized plan, under the name of the rule.
pub proof fn law_explaining_adds_one_text<N: UserDefinedLogicalNode>(
    verbose: bool,
    optimized: PlanModel<N>,
    optimizer_name: Seq<char>,
    texts: Seq<StringifiedPlanModel>,
    fields: Seq<FieldModel>,
    result: PlanModel<N>,
)
    requires
        explained(verbose, optimized, optimizer_name, texts, fields) == Ok::<
            PlanModel<N>,
            ErrorModel,
        >(result),
    ensures
        plan_inputs(result) == seq![optimized],
        result matches PlanModel::Explain { verbose: shown, stringified_plans, .. } && {
            &&& shown == verbose
            &&& stringified_plans.len() == texts.len() + 1
            &&& stringified_plans.take(texts.len() as int) == texts
            &&& stringified_plans.last() == (StringifiedPlanModel {
                plan_type: PlanTypeModel::OptimizedLogicalPlan { optimizer_name },
                plan: plan_text(optimized),
            })
        },
{
    match result {
        PlanModel::Explain { stringified_plans, .. } => {
            assert(stringified_plans.take(texts.len() as int) =~= texts);
        },
        _ => {},
    }
}

/// An `EXPLAIN` whose fields belong to no relation keeps its schema when its plan is optimized,
/// and never fails on account of it.
pub proof fn law_explain_schema_stays<N: UserDefinedLogicalNode>(
    verbose: bool,
    optimized: PlanModel<N>,
    optimizer_name: Seq<char>,
    texts: Seq<StringifiedPlanModel>,
    schema: Seq<DFFieldModel>,
)
    requires
        checked_schema(schema) is Ok,
        forall|i: int| 0 <= i < schema.len() ==> (#[trigger] schema[i]).qualifier is None,
    ensures
        explained(
            verbose,
            optimized,
            optimizer_name,
            texts,
            schema.map_values(|field: DFFieldModel| described(field)),
        ) matches Ok(result) && plan_schema(result) == schema,
{
    assert(schema.map_values(|field: DFFieldModel| described(field)).map_values(
        |field: FieldModel| unqualified(field),
    ) =~= schema);
}

/// Rebuilding a node that has one input and records no schema puts it over the given input and
/// keeps everything about it that is no expression.
pub proof fn law_rebuilt_over_given_input<N: UserDefinedLogicalNode>(
    plan: &LogicalPlan<N>,
    exprs: &[Expr],
    inputs: &[LogicalPlan<N>],
    result: Result<LogicalPlan<N>, DataFusionError>,
)
    requires
        call_ensures(from_plan::<N>, (plan, exprs, inputs), result),
        inputs@.len() >= 1,
    ensures
        *plan is Filter && exprs@.len() >= 1 ==> {
            &&& result matches Ok(LogicalPlan::Filter { predicate, input })
            &&& predicate@ == exprs@[0]@
            &&& (*input)@ == inputs@[0]@
        },
        *plan is Sort ==> {
            &&& result matches Ok(LogicalPlan::Sort { expr, input })
            &&& expr@.len() == exprs@.len()
            &&& forall|i: int| 0 <= i < exprs@.len() ==> (#[trigger] expr@[i])@ == exprs@[i]@
            &&& (*input)@ == inputs@[0]@
        },
        *plan matches LogicalPlan::Limit { n, .. } ==> {
            &&& result matches Ok(LogicalPlan::Limit { n: kept, input })
            &&& kept == n
            &&& (*input)@ == inputs@[0]@
        },
        *plan matches LogicalPlan::Repartition {
            partitioning_scheme: Partitioning::RoundRobinBatch(n),
            ..
        } ==> {
            &&& result matches Ok(
                LogicalPlan::Repartition {
                    input,
                    partitioning_scheme: Partitioning::RoundRobinBatch(kept),
                },
            )
            &&& kept == n
            &&& (*input)@ == inputs@[0]@
        },
        *plan matches LogicalPlan::Repartition {
            partitioning_scheme: Partitioning::Hash(_, n),
            ..
        } ==> {
            &&& result matches Ok(
                LogicalPlan::Repartition {
                    input,
                    partitioning_scheme: Partitioning::Hash(expr, kept),
                },
            )
            &&& kept == n
            &&& expr@.len() == exprs@.len()
            &&& forall|i: int| 0 <= i < exprs@.len() ==> (#[trigger] expr@[i])@ == exprs@[i]@
            &&& (*input)@ == inputs@[0]@
        },
{
    broadcast use {
        lemma_exprs_model_len,
        lemma_exprs_model_index,
        lemma_plans_model_len,
        lemma_plans_model_index,
    };

    if let Ok(made) = result {
        match made {
            LogicalPlan::Sort { expr, .. } => {
                lemma_same_members(expr@, exprs@);
            },
            LogicalPlan::Repartition {
                partitioning_scheme: Partitioning::Hash(expr, _),
                ..
            } => {
                lemma_same_members(expr@, exprs@);
            },
            _ => {},
        }
    }
}

/// Rebuilding a node that records a schema keeps the schema, whatever it is rebuilt from, and
/// cuts the given expressions where the node has its own: a window behind as many as it has, an
/// aggregate behind as many as it groups by.
#[verifier::spinoff_prover]
#[verifier::rlimit(40)]
pub proof fn law_rebuilt_under_its_schema<N: UserDefinedLogicalNode>(
    plan: &LogicalPlan<N>,
    exprs: &[Expr],
    inputs: &[LogicalPlan<N>],
    result: Result<LogicalPlan<N>, DataFusionError>,
)
    requires
        call_ensures(from_plan::<N>, (plan, exprs, inputs), result),
    ensures
        *plan matches LogicalPlan::Projection { schema, .. } ==> inputs@.len() >= 1 ==> {
            &&& result matches Ok(LogicalPlan::Projection { expr, input, schema: kept })
            &&& expr@.len() == exprs@.len()
            &&& forall|i: int| 0 <= i < exprs@.len() ==> (#[trigger] expr@[i])@ == exprs@[i]@
            &&& (*input)@ == inputs@[0]@
            &&& (*kept)@ == (*schema)@
        },
        *plan matches LogicalPlan::Window { window_expr, schema, .. } ==> inputs@.len() >= 1
            && exprs@.len() >= window_expr@.len() ==> {
            &&& result matches Ok(LogicalPlan::Window { input, window_expr: expr, schema: kept })
            &&& expr@.len() == window_expr@.len()
            &&& forall|i: int| 0 <= i < expr@.len() ==> (#[trigger] expr@[i])@ == exprs@[i]@
            &&& (*input)@ == inputs@[0]@
            &&& (*kept)@ == (*schema)@
        },
        *plan matches LogicalPlan::Aggregate { group_expr, schema, .. } ==> inputs@.len() >= 1
            && exprs@.len() >= group_expr@.len() ==> {
            &&& result matches Ok(
                LogicalPlan::Aggregate { input, group_expr: groups, aggr_expr, schema: kept },
            )
            &&& groups@.len() == group_expr@.len()
            &&& groups@.len() + aggr_expr@.len() == exprs@.len()
            &&& forall|i: int| 0 <= i < groups@.len() ==> (#[trigger] groups@[i])@ == exprs@[i]@
            &&& forall|i: int|
                0 <= i < aggr_expr@.len() ==> (#[trigger] aggr_expr@[i])@ == exprs@[groups@.len()
                    + i]@
            &&& (*input)@ == inputs@[0]@
            &&& (*kept)@ == (*schema)@
        },
        *plan matches LogicalPlan::Union { schema, alias, .. } ==> {
            &&& result matches Ok(LogicalPlan::Union { inputs: made, schema: kept, alias: name })
            &&& made@.len() == inputs@.len()
            &&& forall|i: int| 0 <= i < inputs@.len() ==> (#[trigger] made@[i])@ == inputs@[i]@
            &&& (*kept)@ == (*schema)@
            &&& name is Some <==> alias is Some
            &&& alias is Some ==> name->0@ == alias->0@
        },
        *plan is TableScan || *plan is EmptyRelation || *plan is CreateExternalTable || *plan
            is Explain ==> {
            &&& result matches Ok(kept)
            &&& kept@ == plan@
        },
{
    broadcast use {
        lemma_exprs_model_len,
        lemma_exprs_model_index,
        lemma_plans_model_len,
        lemma_plans_model_index,
    };

    if let Ok(made) = result {
        match made {
            LogicalPlan::Projection { expr, .. } => {
                lemma_same_members(expr@, exprs@);
            },
            LogicalPlan::Window { window_expr: expr, .. } => {
                if let LogicalPlan::Window { window_expr, .. } = *plan {
                    if exprs@.len() >= window_expr@.len() {
                        lemma_members_of_range(expr@, exprs@, 0, window_expr@.len() as int);
                    }
                }
            },
            LogicalPlan::Aggregate { group_expr: groups, aggr_expr, .. } => {
                if let LogicalPlan::Aggregate { group_expr, .. } = *plan {
                    let n = group_expr@.len() as int;
                    if exprs@.len() >= n {
                        lemma_members_of_range(groups@, exprs@, 0, n);
                        lemma_members_of_range(aggr_expr@, exprs@, n, exprs@.len() as int);
                    }
                }
            },
            LogicalPlan::Union { inputs: plans, .. } => {
                if *plan is Union {
                    assert(plans_model(plans@) == plans_model(inputs@));
                    assert(plans_model(plans@).len() == plans@.len());
                    assert forall|i: int| 0 <= i < inputs@.len() implies (#[trigger] plans@[i])@
                        == inputs@[i]@ by {
                        assert(plans_model(plans@)[i] == plans_model(inputs@)[i]);
                    }
                }
            },
            _ => {},
        }
    }
}

/// A rebuilt join stands over the given inputs and joins them as it did: it keeps the rows that
/// it kept, and compares the columns that it compared, written as they were. Its fields are those
/// of both inputs side by side, or of the left one alone for a semi or an anti join. It fails
/// only where these make no schema.
#[verifier::spinoff_prover]
#[verifier::rlimit(40)]
pub proof fn law_rebuilt_join_joins_as_before<N: UserDefinedLogicalNode>(
    plan: &LogicalPlan<N>,
    exprs: &[Expr],
    inputs: &[LogicalPlan<N>],
    result: Result<LogicalPlan<N>, DataFusionError>,
)
    requires
        call_ensures(from_plan::<N>, (plan, exprs, inputs), result),
        inputs@.len() >= 2,
        *plan is Join,
    ensures
        *plan matches LogicalPlan::Join { on, join_type, join_constraint, .. } && {
            let left_fields = plan_schema(inputs@[0]@);
            let right_fields = plan_schema(inputs@[1]@);
            let fields = if join_type == JoinType::Semi || join_type == JoinType::Anti {
                left_fields
            } else {
                left_fields + right_fields
            };
            &&& result is Ok <==> has_clear_names(fields)
            &&& result matches Err(error) ==> error is Plan
            &&& result matches Ok(made) ==> {
                &&& made matches LogicalPlan::Join {
                    left,
                    right,
                    on: kept_on,
                    join_type: kept_type,
                    join_constraint: kept_constraint,
                    schema,
                }
                &&& (*left)@ == inputs@[0]@
                &&& (*right)@ == inputs@[1]@
                &&& kept_type == join_type
                &&& kept_constraint == join_constraint
                &&& kept_on@.len() == on@.len()
                &&& forall|i: int|
                    0 <= i < on@.len() ==> (#[trigger] kept_on@[i]).0@ == on@[i].0@
                        && kept_on@[i].1@ == on@[i].1@
                &&& (*schema)@ == fields
            }
        },
{
    broadcast use {
        lemma_exprs_model_len,
        lemma_exprs_model_index,
        lemma_plans_model_len,
        lemma_plans_model_index,
    };

    if let LogicalPlan::Join { on, join_type, .. } = *plan {
        let left_fields = plan_schema(inputs@[0]@);
        let right_fields = plan_schema(inputs@[1]@);
        law_schema_has_clear_names(left_fields);
        law_schema_has_clear_names(left_fields + right_fields);
        if let Ok(LogicalPlan::Join { on: kept_on, .. }) = result {
            assert(join_keys_model(kept_on@) == join_keys_model(on@));
            assert(join_keys_model(kept_on@).len() == kept_on@.len());
            assert forall|i: int| 0 <= i < on@.len() implies (#[trigger] kept_on@[i]).0@
                == on@[i].0@ && kept_on@[i].1@ == on@[i].1@ by {
                assert(join_keys_model(kept_on@)[i] == join_keys_model(on@)[i]);
            }
        }
    }
}

/// A rebuilt cross join stands over the given inputs and has the fields of both side by side. It
/// fails only where these make no schema.
pub proof fn law_rebuilt_cross_join_has_both_sides<N: UserDefinedLogicalNode>(
    plan: &LogicalPlan<N>,
    exprs: &[Expr],
    inputs: &[LogicalPlan<N>],
    result: Result<LogicalPlan<N>, DataFusionError>,
)
    requires
        call_ensures(from_plan::<N>, (plan, exprs, inputs), result),
        inputs@.len() >= 2,
        *plan is CrossJoin,
    ensures
        result is Ok <==> has_clear_names(plan_schema(inputs@[0]@) + plan_schema(inputs@[1]@)),
        result matches Err(error) ==> error is Plan,
        result matches Ok(made) ==> {
            &&& made matches LogicalPlan::CrossJoin { left, right, schema }
            &&& (*left)@ == inputs@[0]@
            &&& (*right)@ == inputs@[1]@
            &&& (*schema)@ == plan_schema(inputs@[0]@) + plan_schema(inputs@[1]@)
        },
{
    broadcast use {lemma_plans_model_len, lemma_plans_model_index};

    law_schema_has_clear_names(plan_schema(inputs@[0]@) + plan_schema(inputs@[1]@));
}

/// Whether no two of the fields that have the same name have the same relation, or one of them
/// none.
pub open spec fn has_clear_names(fields: Seq<DFFieldModel>) -> bool {
    forall|i: int, j: int|
        0 <= i < j < fields.len() && (#[trigger] fields[i]).field.name == (
        #[trigger] fields[j]).field.name ==> fields[i].qualifier != fields[j].qualifier
            && fields[i].qualifier is Some && fields[j].qualifier is Some
}

/// The fields of a plan are those that its node records, or, where it records none, those of its
/// input.
pub proof fn law_fields_are_recorded_or_passed_on<N: UserDefinedLogicalNode>(
    plan: &LogicalPlan<N>,
    schema: &Arc<DFSchema>,
    input: &LogicalPlan<N>,
    below: &Arc<DFSchema>,
)
    requires
        call_ensures(LogicalPlan::<N>::schema, (plan,), schema),
        call_ensures(LogicalPlan::<N>::schema, (input,), below),
    ensures
        *plan matches LogicalPlan::Projection { schema: own, .. } ==> (**schema)@ == (*own)@,
        *plan matches LogicalPlan::Window { schema: own, .. } ==> (**schema)@ == (*own)@,
        *plan matches LogicalPlan::Aggregate { schema: own, .. } ==> (**schema)@ == (*own)@,
        *plan matches LogicalPlan::Join { schema: own, .. } ==> (**schema)@ == (*own)@,
        *plan matches LogicalPlan::CrossJoin { schema: own, .. } ==> (**schema)@ == (*own)@,
        *plan matches LogicalPlan::Union { schema: own, .. } ==> (**schema)@ == (*own)@,
        *plan matches LogicalPlan::TableScan { projected_schema: own, .. } ==> (**schema)@
            == (*own)@,
        *plan matches LogicalPlan::EmptyRelation { schema: own, .. } ==> (**schema)@ == (*own)@,
        *plan matches LogicalPlan::CreateExternalTable { schema: own, .. } ==> (**schema)@
            == (*own)@,
        *plan matches LogicalPlan::Explain { schema: own, .. } ==> (**schema)@ == (*own)@,
        *plan matches LogicalPlan::Filter { input: own, .. } && *own == *input ==> (**schema)@
            == (**below)@,
        *plan matches LogicalPlan::Sort { input: own, .. } && *own == *input ==> (**schema)@
            == (**below)@,
        *plan matches LogicalPlan::Repartition { input: own, .. } && *own == *input ==> (
        **schema)@ == (**below)@,
        *plan matches LogicalPlan::Limit { input: own, .. } && *own == *input ==> (**schema)@
            == (**below)@,
{
}

/// The inputs of a plan node are the plans in its fields, the left one before the right one.
pub proof fn law_inputs_are_the_fields<N: UserDefinedLogicalNode>(
    plan: &LogicalPlan<N>,
    inputs: Vec<&LogicalPlan<N>>,
)
    requires
        call_ensures(LogicalPlan::<N>::inputs, (plan,), inputs),
    ensures
        *plan matches LogicalPlan::Projection { input, .. } ==> inputs@.len() == 1 && inputs@[0]@
            == (*input)@,
        *plan matches LogicalPlan::Filter { input, .. } ==> inputs@.len() == 1 && inputs@[0]@
            == (*input)@,
        *plan matches LogicalPlan::Window { input, .. } ==> inputs@.len() == 1 && inputs@[0]@
            == (*input)@,
        *plan matches LogicalPlan::Aggregate { input, .. } ==> inputs@.len() == 1 && inputs@[0]@
            == (*input)@,
        *plan matches LogicalPlan::Sort { input, .. } ==> inputs@.len() == 1 && inputs@[0]@
            == (*input)@,
        *plan matches LogicalPlan::Repartition { input, .. } ==> inputs@.len() == 1 && inputs@[0]@
            == (*input)@,
        *plan matches LogicalPlan::Limit { input, .. } ==> inputs@.len() == 1 && inputs@[0]@
            == (*input)@,
        *plan matches LogicalPlan::Explain { plan: input, .. } ==> inputs@.len() == 1
            && inputs@[0]@ == (*input)@,
        *plan matches LogicalPlan::Join { left, right, .. } ==> inputs@.len() == 2 && inputs@[0]@
            == (*left)@ && inputs@[1]@ == (*right)@,
        *plan matches LogicalPlan::CrossJoin { left, right, .. } ==> inputs@.len() == 2
            && inputs@[0]@ == (*left)@ && inputs@[1]@ == (*right)@,
        *plan matches LogicalPlan::Union { inputs: own, .. } ==> {
            &&& inputs@.len() == own@.len()
            &&& forall|i: int| 0 <= i < own@.len() ==> (#[trigger] inputs@[i])@ == own@[i]@
        },
        *plan is TableScan || *plan is EmptyRelation || *plan is CreateExternalTable
            ==> inputs@.len() == 0,
{
    let all = borrowed_model(inputs@);
    assert(all == plan_inputs(plan@));
    assert(all.len() == inputs@.len());
    assert forall|i: int| 0 <= i < all.len() implies all[i] == (#[trigger] inputs@[i])@ by {}
    if let LogicalPlan::Union { inputs: own, .. } = *plan {
        assert(plans_model(own@).len() == own@.len());
        assert forall|i: int| 0 <= i < own@.len() implies (#[trigger] inputs@[i])@ == own@[i]@ by {
            assert(plans_model(own@)[i] == all[i]);
        }
    }
}

/// The expressions of a plan node are those in its fields: of an aggregate first what it groups
/// by, of a join the columns that it compares pair by pair.
pub proof fn law_expressions_are_the_fields<N: UserDefinedLogicalNode>(
    plan: &LogicalPlan<N>,
    exprs: Vec<Expr>,
)
    requires
        call_ensures(LogicalPlan::<N>::expressions, (plan,), exprs),
    ensures
        *plan matches LogicalPlan::Projection { expr, .. } ==> {
            &&& exprs@.len() == expr@.len()
            &&& forall|i: int| 0 <= i < expr@.len() ==> (#[trigger] exprs@[i])@ == expr@[i]@
        },
        *plan matches LogicalPlan::Filter { predicate, .. } ==> exprs@.len() == 1 && exprs@[0]@
            == predicate@,
        *plan matches LogicalPlan::Repartition {
            partitioning_scheme: Partitioning::Hash(expr, _),
            ..
        } ==> {
            &&& exprs@.len() == expr@.len()
            &&& forall|i: int| 0 <= i < expr@.len() ==> (#[trigger] exprs@[i])@ == expr@[i]@
        },
        *plan matches LogicalPlan::Window { window_expr: expr, .. } ==> {
            &&& exprs@.len() == expr@.len()
            &&& forall|i: int| 0 <= i < expr@.len() ==> (#[trigger] exprs@[i])@ == expr@[i]@
        },
        *plan matches LogicalPlan::Sort { expr, .. } ==> {
            &&& exprs@.len() == expr@.len()
            &&& forall|i: int| 0 <= i < expr@.len() ==> (#[trigger] exprs@[i])@ == expr@[i]@
        },
        *plan matches LogicalPlan::Aggregate { group_expr, aggr_expr, .. } ==> {
            &&& exprs@.len() == group_expr@.len() + aggr_expr@.len()
            &&& forall|i: int|
                0 <= i < group_expr@.len() ==> exprs@[i]@ == (#[trigger] group_expr@[i])@
            &&& forall|i: int|
                0 <= i < aggr_expr@.len() ==> exprs@[group_expr@.len() + i]@ == (
                #[trigger] aggr_expr@[i])@
        },
        *plan matches LogicalPlan::Join { on, .. } ==> {
            &&& exprs@.len() == 2 * on@.len()
            &&& forall|i: int|
                0 <= i < on@.len() ==> {
                    &&& exprs@[2 * i]@ == ExprModel::Column((#[trigger] on@[i]).0@)
                    &&& exprs@[2 * i + 1]@ == ExprModel::Column(on@[i].1@)
                }
        },
        *plan matches LogicalPlan::Repartition {
            partitioning_scheme: Partitioning::RoundRobinBatch(_),
            ..
        } ==> exprs@.len() == 0,
        *plan is CrossJoin || *plan is Union || *plan is TableScan || *plan is EmptyRelation
            || *plan is Limit || *plan is CreateExternalTable || *plan is Explain ==> exprs@.len()
            == 0,
{
    broadcast use {lemma_exprs_model_len, lemma_exprs_model_index};

    let all = exprs_model(exprs@);
    assert(all == plan_expressions(plan@));
    assert(all.len() == exprs@.len());
    match *plan {
        LogicalPlan::Projection { expr, .. } => {
            lemma_same_members(exprs@, expr@);
        },
        LogicalPlan::Sort { expr, .. } => {
            lemma_same_members(exprs@, expr@);
        },
        LogicalPlan::Window { window_expr, .. } => {
            lemma_same_members(exprs@, window_expr@);
        },
        LogicalPlan::Repartition { partitioning_scheme: Partitioning::Hash(expr, _), .. } => {
            lemma_same_members(exprs@, expr@);
        },
        LogicalPlan::Filter { .. } => {
            assert(all[0] == exprs@[0]@);
        },
        LogicalPlan::Aggregate { group_expr, aggr_expr, .. } => {
            assert forall|i: int| 0 <= i < group_expr@.len() implies exprs@[i]@ == (
            #[trigger] group_expr@[i])@ by {
                assert(all[i] == exprs_model(group_expr@)[i]);
            }
            assert forall|i: int| 0 <= i < aggr_expr@.len() implies exprs@[group_expr@.len()
                + i]@ == (#[trigger] aggr_expr@[i])@ by {
                assert(all[group_expr@.len() + i] == exprs_model(aggr_expr@)[i]);
            }
        },
        LogicalPlan::Join { on, .. } => {
            assert forall|i: int| 0 <= i < on@.len() implies {
                &&& exprs@[2 * i]@ == ExprModel::Column((#[trigger] on@[i]).0@)
                &&& exprs@[2 * i + 1]@ == ExprModel::Column(on@[i].1@)
            } by {
                assert(all[2 * i] == exprs@[2 * i]@);
                assert(all[2 * i + 1] == exprs@[2 * i + 1]@);
                assert((2 * i + 1) / 2 == i && (2 * i + 1) % 2 == 1);
            }
        },
        _ => {},
    }
}

/// The answers of the rule that stand behind the result of optimizing the children of a plan.
proof fn lemma_answers<O: OptimizerRule>(
    optimizer: &O,
    plan: &LogicalPlan<O::Node>,
    execution_props: &ExecutionProps,
    result: Result<LogicalPlan<O::Node>, DataFusionError>,
) -> (answers: Seq<Result<LogicalPlan<O::Node>, DataFusionError>>)
    requires
        call_ensures(optimize_children::<O>, (optimizer, plan, execution_props), result),
        *plan !is Explain,
    ensures
        may_answer_all(optimizer, plan_inputs(plan@), execution_props, answers),
        has_failed(answers) ==> outcome(result) == Err::<PlanModel<O::Node>, ErrorModel>(
            answers.last()->Err_0@,
        ),
        !has_failed(answers) ==> may_rebuild(
            plan@,
            plan_expressions(plan@),
            answered_plans(answers),
            outcome(result),
        ),
{
    choose|answers: Seq<Result<LogicalPlan<O::Node>, DataFusionError>>|
        {
            &&& #[trigger] may_answer_all(optimizer, plan_inputs(plan@), execution_props, answers)
            &&& if has_failed(answers) {
                outcome(result) == Err::<PlanModel<O::Node>, ErrorModel>(answers.last()->Err_0@)
            } else {
                may_rebuild(
                    plan@,
                    plan_expressions(plan@),
                    answered_plans(answers),
                    outcome(result),
                )
            }
        }
}

/// Where the rule did not fail, it answered to every input with a plan.
proof fn lemma_input_is_answered<O: OptimizerRule>(
    optimizer: &O,
    inputs: Seq<PlanModel<O::Node>>,
    execution_props: &ExecutionProps,
    answers: Seq<Result<LogicalPlan<O::Node>, DataFusionError>>,
    i: int,
)
    requires
        may_answer_all(optimizer, inputs, execution_props, answers),
        !has_failed(answers),
        0 <= i < inputs.len(),
    ensures
        answers.len() == inputs.len(),
        exists|child: &LogicalPlan<O::Node>, made: LogicalPlan<O::Node>|
            {
                &&& child@ == inputs[i]
                &&& #[trigger] call_ensures(
                    O::optimize,
                    (optimizer, child, execution_props),
                    Ok::<LogicalPlan<O::Node>, DataFusionError>(made),
                )
                &&& made@ == answered_plans(answers)[i]
            },
{
    assert(may_answer(optimizer, inputs[i], execution_props, answers[i]));
    assert(answers[i] is Ok) by {
        if i == answers.len() - 1 {
            assert(answers.last() == answers[i]);
        }
    }
    let child = choose|child: &LogicalPlan<O::Node>|
        child@ == inputs[i] && #[trigger] call_ensures(
            O::optimize,
            (optimizer, child, execution_props),
            answers[i],
        );
    let made = answers[i]->Ok_0;
    assert(answers[i] == Ok::<LogicalPlan<O::Node>, DataFusionError>(made));
    assert(made@ == answered_plans(answers)[i]);
}

/// A node that was rebuilt from its own expressions and other inputs has these inputs.
proof fn lemma_children_are_replaced<N: UserDefinedLogicalNode>(
    plan: PlanModel<N>,
    inputs: Seq<PlanModel<N>>,
    result: PlanModel<N>,
)
    requires
        plan !is Extension,
        plan !is Explain,
        inputs.len() == plan_inputs(plan).len(),
        may_rebuild(
            plan,
            plan_expressions(plan),
            inputs,
            Ok::<PlanModel<N>, ErrorModel>(result),
        ),
    ensures
        plan_inputs(result) == inputs,
        plan_expressions(result) == plan_expressions(plan),
{
    law_rebuilt_has_given_parts(plan, plan_expressions(plan), inputs, result);
}

/// When the children of a plan that is no `EXPLAIN` and no user's node are optimized, every input
/// of the result, whatever it is, is what the rule made of the input in that place.
#[verifier::spinoff_prover]
#[verifier::rlimit(40)]
pub proof fn law_every_child_goes_through_the_rule<O: OptimizerRule>(
    optimizer: &O,
    plan: &LogicalPlan<O::Node>,
    execution_props: &ExecutionProps,
    result: Result<LogicalPlan<O::Node>, DataFusionError>,
    i: int,
)
    requires
        call_ensures(optimize_children::<O>, (optimizer, plan, execution_props), result),
        *plan !is Explain,
        *plan !is Extension,
        result is Ok,
        0 <= i < plan_inputs(plan@).len(),
    ensures
        plan_inputs(result->Ok_0@).len() == plan_inputs(plan@).len(),
        exists|child: &LogicalPlan<O::Node>, made: LogicalPlan<O::Node>|
            {
                &&& child@ == plan_inputs(plan@)[i]
                &&& #[trigger] call_ensures(
                    O::optimize,
                    (optimizer, child, execution_props),
                    Ok::<LogicalPlan<O::Node>, DataFusionError>(made),
                )
                &&& made@ == plan_inputs(result->Ok_0@)[i]
            },
        plan_expressions(result->Ok_0@) == plan_expressions(plan@),
{
    let answers = lemma_answers(optimizer, plan, execution_props, result);
    lemma_input_is_answered(optimizer, plan_inputs(plan@), execution_props, answers, i);
    lemma_children_are_replaced(plan@, answered_plans(answers), result->Ok_0@);
}

/// Under a rule that gives the same answer `f` to plans with the same model, the inputs are
/// answered one by one from the left: the first error is the result, and where there is none, the
/// result is what rebuilding the plan from its own expressions and the answers gives.
#[verifier::spinoff_prover]
#[verifier::rlimit(40)]
pub proof fn law_rule_decides_child_by_child<O: OptimizerRule>(
    optimizer: &O,
    plan: &LogicalPlan<O::Node>,
    execution_props: &ExecutionProps,
    result: Result<LogicalPlan<O::Node>, DataFusionError>,
    f: spec_fn(PlanModel<O::Node>) -> Result<PlanModel<O::Node>, ErrorModel>,
    exprs: &[Expr],
    inputs: &[LogicalPlan<O::Node>],
    rebuilt_plan: Result<LogicalPlan<O::Node>, DataFusionError>,
)
    requires
        call_ensures(optimize_children::<O>, (optimizer, plan, execution_props), result),
        *plan !is Explain,
        forall|child: &LogicalPlan<O::Node>, answer: Result<LogicalPlan<O::Node>, DataFusionError>|
            #[trigger] call_ensures(O::optimize, (optimizer, child, execution_props), answer)
                ==> outcome(answer) == f(child@),
    ensures
        forall|i: int|
            0 <= i < plan_inputs(plan@).len() && #[trigger] f(plan_inputs(plan@)[i]) is Err && (
            forall|j: int| 0 <= j < i ==> #[trigger] f(plan_inputs(plan@)[j]) is Ok) ==> {
                &&& result is Err
                &&& result->Err_0@ == f(plan_inputs(plan@)[i])->Err_0
            },
        ({
            &&& *plan !is Extension
            &&& forall|i: int|
                0 <= i < plan_inputs(plan@).len() ==> #[trigger] f(plan_inputs(plan@)[i]) is Ok
            &&& call_ensures(from_plan::<O::Node>, (plan, exprs, inputs), rebuilt_plan)
            &&& exprs_model(exprs@) == plan_expressions(plan@)
            &&& plans_model(inputs@).len() == plan_inputs(plan@).len()
            &&& forall|i: int|
                0 <= i < inputs@.len() ==> (#[trigger] inputs@[i])@ == f(
                    plan_inputs(plan@)[i],
                )->Ok_0
        }) ==> outcome(result) == outcome(rebuilt_plan),
{
    let children = plan_inputs(plan@);
    let answers = lemma_answers(optimizer, plan, execution_props, result);
    assert forall|i: int| 0 <= i < answers.len() implies outcome(#[trigger] answers[i]) == f(
        children[i],
    ) by {
        assert(may_answer(optimizer, children[i], execution_props, answers[i]));
    }
    if answers.len() > 0 {
        assert(answers.last() == answers[answers.len() - 1]);
    }
    assert forall|i: int|
        0 <= i < children.len() && #[trigger] f(children[i]) is Err && (forall|j: int|
            0 <= j < i ==> #[trigger] f(children[j]) is Ok) implies {
        &&& result is Err
        &&& result->Err_0@ == f(children[i])->Err_0
    } by {
        let last = answers.len() - 1;
        if i < answers.len() {
            assert(outcome(answers[i]) == f(children[i]));
            assert(answers[i] is Err);
            assert(i == last);
        } else {
            assert(outcome(answers[last]) == f(children[last]));
            assert(f(children[last]) is Ok);
        }
    }
    if *plan !is Extension && (forall|i: int|
        0 <= i < children.len() ==> #[trigger] f(children[i]) is Ok) && plans_model(inputs@).len()
        == children.len() && (forall|i: int|
        0 <= i < inputs@.len() ==> (#[trigger] inputs@[i])@ == f(children[i])->Ok_0) {
        assert(plans_model(inputs@).len() == inputs@.len());
        if answers.len() > 0 {
            assert(outcome(answers[answers.len() - 1]) == f(children[answers.len() - 1]));
        }
        assert(!has_failed(answers));
        assert(answers.len() == children.len());
        assert forall|i: int| 0 <= i < answers.len() implies #[trigger] answered_plans(answers)[i]
            == plans_model(inputs@)[i] by {
            assert(outcome(answers[i]) == f(children[i]));
            assert(inputs@[i]@ == f(children[i])->Ok_0);
            assert(f(children[i]) is Ok);
        }
        assert(answered_plans(answers) =~= plans_model(inputs@));
    }
}

/// An error of optimizing the children of a plan is the rule's own answer to one of them, or says
/// of a join that the fields of its new inputs clash.
pub proof fn law_no_error_out_of_nothing<O: OptimizerRule>(
    optimizer: &O,
    plan: &LogicalPlan<O::Node>,
    execution_props: &ExecutionProps,
    result: Result<LogicalPlan<O::Node>, DataFusionError>,
)
    requires
        call_ensures(optimize_children::<O>, (optimizer, plan, execution_props), result),
        *plan !is Explain,
        result is Err,
    ensures
        ((*plan is Join || *plan is CrossJoin) && result->Err_0 is Plan) || exists|
            i: int,
            child: &LogicalPlan<O::Node>,
            failure: DataFusionError,
        |
            {
                &&& 0 <= i < plan_inputs(plan@).len()
                &&& child@ == #[trigger] plan_inputs(plan@)[i]
                &&& #[trigger] call_ensures(
                    O::optimize,
                    (optimizer, child, execution_props),
                    Err::<LogicalPlan<O::Node>, DataFusionError>(failure),
                )
                &&& result->Err_0@ == failure@
            },
{
    let children = plan_inputs(plan@);
    let answers = lemma_answers(optimizer, plan, execution_props, result);
    if has_failed(answers) {
        let i = answers.len() - 1;
        assert(answers.last() == answers[i]);
        assert(may_answer(optimizer, children[i], execution_props, answers[i]));
        let child = choose|child: &LogicalPlan<O::Node>|
            child@ == children[i] && #[trigger] call_ensures(
                O::optimize,
                (optimizer, child, execution_props),
                answers[i],
            );
        let failure = answers[i]->Err_0;
        assert(answers[i] == Err::<LogicalPlan<O::Node>, DataFusionError>(failure));
        assert(child@ == plan_inputs(plan@)[i]);
    } else {
        assert(outcome(result)->Err_0 is Plan);
    }
}

/// Explaining a plan under a rule gives an `EXPLAIN` of what the rule made of the plan. It keeps
/// every text that was there, in its place, and has one more behind them: the text of the
/// optimized plan, under the name of the rule. Its fields are those of the given schema, of no
/// relation.
pub proof fn law_explaining_keeps_every_text<O: OptimizerRule>(
    optimizer: &O,
    verbose: bool,
    plan: &LogicalPlan<O::Node>,
    texts: &[StringifiedPlan],
    schema: &Schema,
    execution_props: &ExecutionProps,
    result: Result<LogicalPlan<O::Node>, DataFusionError>,
)
    requires
        call_ensures(
            optimize_explain::<O>,
            (optimizer, verbose, plan, texts, schema, execution_props),
            result,
        ),
        result is Ok,
    ensures
        result->Ok_0 matches LogicalPlan::Explain {
            verbose: shown,
            plan: optimized,
            stringified_plans,
            schema: fields,
        } && {
            let last = stringified_plans@[stringified_plans@.len() - 1];
            &&& shown == verbose
            &&& exists|made: LogicalPlan<O::Node>| #[trigger]
                call_ensures(
                    O::optimize,
                    (optimizer, plan, execution_props),
                    Ok::<LogicalPlan<O::Node>, DataFusionError>(made),
                ) && made@ == (*optimized)@
            &&& stringified_plans@.len() == texts@.len() + 1
            &&& forall|i: int|
                0 <= i < texts@.len() ==> (#[trigger] stringified_plans@[i]).plan_type@
                    == texts@[i].plan_type@ && (*stringified_plans@[i].plan)@ == (*texts@[i].plan)@
            &&& last.plan_type matches PlanType::OptimizedLogicalPlan { optimizer_name }
            &&& exists|name: &str| #[trigger]
                call_ensures(O::name, (optimizer,), name) && name@ == optimizer_name@
            &&& (*last.plan)@ == plan_text((*optimized)@)
            &&& (*fields)@.len() == schema_fields(*schema).len()
            &&& forall|i: int|
                0 <= i < schema_fields(*schema).len() ==> (#[trigger] (*fields)@[i]) == (
                DFFieldModel { qualifier: None, field: schema_fields(*schema)[i] })
        },
{
    lemma_explained(
        optimizer,
        verbose,
        plan,
        texts@,
        schema_fields(*schema),
        execution_props,
        result->Ok_0,
    );
}

/// What an explanation holds, read off the explanation itself.
proof fn lemma_explained<O: OptimizerRule>(
    optimizer: &O,
    verbose: bool,
    plan: &LogicalPlan<O::Node>,
    texts: Seq<StringifiedPlan>,
    fields: Seq<FieldModel>,
    execution_props: &ExecutionProps,
    made: LogicalPlan<O::Node>,
)
    requires
        may_explain(
            optimizer,
            verbose,
            plan,
            stringified_model(texts),
            fields,
            execution_props,
            Ok::<PlanModel<O::Node>, ErrorModel>(made@),
        ),
    ensures
        made matches LogicalPlan::Explain {
            verbose: shown,
            plan: optimized,
            stringified_plans,
            schema,
        } && {
            let last = stringified_plans@[stringified_plans@.len() - 1];
            &&& shown == verbose
            &&& exists|answer: LogicalPlan<O::Node>| #[trigger]
                call_ensures(
                    O::optimize,
                    (optimizer, plan, execution_props),
                    Ok::<LogicalPlan<O::Node>, DataFusionError>(answer),
                ) && answer@ == (*optimized)@
            &&& stringified_plans@.len() == texts.len() + 1
            &&& forall|i: int|
                0 <= i < texts.len() ==> (#[trigger] stringified_plans@[i]).plan_type@
                    == texts[i].plan_type@ && (*stringified_plans@[i].plan)@ == (*texts[i].plan)@
            &&& last.plan_type matches PlanType::OptimizedLogicalPlan { optimizer_name }
            &&& exists|name: &str| #[trigger]
                call_ensures(O::name, (optimizer,), name) && name@ == optimizer_name@
            &&& (*last.plan)@ == plan_text((*optimized)@)
            &&& (*schema)@.len() == fields.len()
            &&& forall|i: int|
                0 <= i < fields.len() ==> (#[trigger] (*schema)@[i]) == (DFFieldModel {
                    qualifier: None,
                    field: fields[i],
                })
        },
{
    let answer = choose|answer: Result<LogicalPlan<O::Node>, DataFusionError>|
        {
            &&& #[trigger] call_ensures(O::optimize, (optimizer, plan, execution_props), answer)
            &&& match answer {
                Err(error) => Ok::<PlanModel<O::Node>, ErrorModel>(made@) == Err::<
                    PlanModel<O::Node>,
                    ErrorModel,
                >(error@),
                Ok(optimized) => exists|name: &str|
                    {
                        &&& #[trigger] call_ensures(O::name, (optimizer,), name)
                        &&& Ok::<PlanModel<O::Node>, ErrorModel>(made@) == explained(
                            verbose,
                            optimized@,
                            name@,
                            stringified_model(texts),
                            fields,
                        )
                    },
            }
        };
    let optimized = answer->Ok_0;
    assert(answer == Ok::<LogicalPlan<O::Node>, DataFusionError>(optimized));
    let name = choose|name: &str|
        {
            &&& #[trigger] call_ensures(O::name, (optimizer,), name)
            &&& Ok::<PlanModel<O::Node>, ErrorModel>(made@) == explained(
                verbose,
                optimized@,
                name@,
                stringified_model(texts),
                fields,
            )
        };
    if let LogicalPlan::Explain { stringified_plans, schema, .. } = made {
        let all = stringified_model(stringified_plans@);
        assert(all.len() == stringified_plans@.len());
        assert(all.last() == stringified_plans@[stringified_plans@.len() - 1]@);
        assert forall|i: int| 0 <= i < texts.len() implies (
        #[trigger] stringified_plans@[i]).plan_type@ == texts[i].plan_type@ && (
        *stringified_plans@[i].plan)@ == (*texts[i].plan)@ by {
            assert(all[i] == stringified_plans@[i]@);
            assert(all[i] == stringified_model(texts)[i]);
        }
        law_schema_has_clear_names(fields.map_values(|field: FieldModel| unqualified(field)));
    }
}

/// Optimizing the children of an `EXPLAIN` explains its plan again: it keeps every text that was
/// there, in its place, and has one more behind them, the text of the optimized plan under the
/// name of the rule. Its fields keep their names and types and lose their relations.
pub proof fn law_optimized_explain_keeps_every_text<O: OptimizerRule>(
    optimizer: &O,
    plan: &LogicalPlan<O::Node>,
    execution_props: &ExecutionProps,
    result: Result<LogicalPlan<O::Node>, DataFusionError>,
)
    requires
        call_ensures(optimize_children::<O>, (optimizer, plan, execution_props), result),
        *plan is Explain,
        result is Ok,
    ensures
        *plan matches LogicalPlan::Explain {
            verbose,
            plan: inner,
            stringified_plans: texts,
            schema: old_fields,
        } && {
            &&& result->Ok_0 matches LogicalPlan::Explain {
                verbose: shown,
                plan: optimized,
                stringified_plans,
                schema: fields,
            }
            &&& shown == verbose
            &&& exists|made: LogicalPlan<O::Node>| #[trigger]
                call_ensures(
                    O::optimize,
                    (optimizer, &*inner, execution_props),
                    Ok::<LogicalPlan<O::Node>, DataFusionError>(made),
                ) && made@ == (*optimized)@
            &&& stringified_plans@.len() == texts@.len() + 1
            &&& forall|i: int|
                0 <= i < texts@.len() ==> (#[trigger] stringified_plans@[i]).plan_type@
                    == texts@[i].plan_type@ && (*stringified_plans@[i].plan)@ == (*texts@[i].plan)@
            &&& stringified_plans@[texts@.len() as int].plan_type
                matches PlanType::OptimizedLogicalPlan { optimizer_name }
            &&& exists|name: &str| #[trigger]
                call_ensures(O::name, (optimizer,), name) && name@ == optimizer_name@
            &&& (*stringified_plans@[texts@.len() as int].plan)@ == plan_text((*optimized)@)
            &&& (*fields)@.len() == (*old_fields)@.len()
            &&& forall|i: int|
                0 <= i < (*old_fields)@.len() ==> {
                    let field = #[trigger] (*fields)@[i];
                    let old_field = (*old_fields)@[i];
                    &&& field.qualifier is None
                    &&& field.field.name == old_field.field.name
                    &&& field.field.data_type == old_field.field.data_type
                    &&& field.field.nullable == old_field.field.nullable
                    &&& old_field.qualifier is None ==> field == old_field
                    &&& old_field.qualifier is Some ==> {
                        &&& field.field.metadata is None
                        &&& field.field.dict_id is Some <==> old_field.field.dict_id is Some
                        &&& field.field.dict_id matches Some(id) ==> id == 0
                        &&& field.field.dict_is_ordered is Some
                            <==> old_field.field.dict_is_ordered is Some
                        &&& field.field.dict_is_ordered matches Some(ordered) ==> !ordered
                    }
                }
        },
{
    if let LogicalPlan::Explain { verbose, plan: inner, stringified_plans, schema } = *plan {
        lemma_explained(
            optimizer,
            verbose,
            &*inner,
            stringified_plans@,
            (*schema)@.map_values(|field: DFFieldModel| described(field)),
            execution_props,
            result->Ok_0,
        );
    }
}

/// Explaining fails only with the rule's own error, or where two fields of the schema have the
/// same name.
#[verifier::spinoff_prover]
#[verifier::rlimit(40)]
pub proof fn law_explaining_fails_with_the_rule<O: OptimizerRule>(
    optimizer: &O,
    verbose: bool,
    plan: &LogicalPlan<O::Node>,
    texts: &[StringifiedPlan],
    schema: &Schema,
    execution_props: &ExecutionProps,
    result: Result<LogicalPlan<O::Node>, DataFusionError>,
)
    requires
        call_ensures(
            optimize_explain::<O>,
            (optimizer, verbose, plan, texts, schema, execution_props),
            result,
        ),
    ensures
        result is Err ==> ({
            ||| exists|failure: DataFusionError| #[trigger]
                call_ensures(
                    O::optimize,
                    (optimizer, plan, execution_props),
                    Err::<LogicalPlan<O::Node>, DataFusionError>(failure),
                ) && failure@ == result->Err_0@
            ||| result->Err_0 is Plan && exists|i: int, j: int|
                0 <= i < j < schema_fields(*schema).len() && (
                #[trigger] schema_fields(*schema)[i]).name == (
                #[trigger] schema_fields(*schema)[j]).name
        }),
        (exists|i: int, j: int|
            0 <= i < j < schema_fields(*schema).len() && (#[trigger] schema_fields(*schema)[i]).name
                == (#[trigger] schema_fields(*schema)[j]).name) ==> result is Err,
        (forall|answer: Result<LogicalPlan<O::Node>, DataFusionError>| #[trigger]
            call_ensures(O::optimize, (optimizer, plan, execution_props), answer) ==> answer is Err)
            ==> result is Err,
{
    let fields = schema_fields(*schema);
    let all = fields.map_values(|field: FieldModel| unqualified(field));
    law_schema_has_clear_names(all);
    let answer = choose|answer: Result<LogicalPlan<O::Node>, DataFusionError>|
        {
            &&& #[trigger] call_ensures(O::optimize, (optimizer, plan, execution_props), answer)
            &&& match answer {
                Err(error) => outcome(result) == Err::<PlanModel<O::Node>, ErrorModel>(error@),
                Ok(optimized) => exists|name: &str|
                    {
                        &&& #[trigger] call_ensures(O::name, (optimizer,), name)
                        &&& outcome(result) == explained(
                            verbose,
                            optimized@,
                            name@,
                            stringified_model(texts@),
                            fields,
                        )
                    },
            }
        };
    if exists|i: int, j: int|
        0 <= i < j < fields.len() && (#[trigger] fields[i]).name == (#[trigger] fields[j]).name {
        let (i, j) = choose|i: int, j: int|
            0 <= i < j < fields.len() && (#[trigger] fields[i]).name == (#[trigger] fields[j]).name;
        assert(all[i].field.name == all[j].field.name);
    }
    match answer {
        Err(error) => {
            assert(answer == Err::<LogicalPlan<O::Node>, DataFusionError>(error));
        },
        Ok(_) => {
            if result is Err {
                assert(checked_schema(all) is Err);
                let (i, j) = choose|i: int, j: int|
                    0 <= i < j < all.len() && (#[trigger] all[i]).field.name == (
                    #[trigger] all[j]).field.name;
                assert(fields[i].name == fields[j].name);
                assert(outcome(result)->Err_0 is Plan);
            }
        },
    }
}

/// When the children of a user's node are optimized, the node makes its own successor: from its
/// own expressions and from what the rule made of each of its inputs.
pub proof fn law_users_node_makes_its_successor<O: OptimizerRule>(
    optimizer: &O,
    plan: &LogicalPlan<O::Node>,
    execution_props: &ExecutionProps,
    result: Result<LogicalPlan<O::Node>, DataFusionError>,
)
    requires
        call_ensures(optimize_children::<O>, (optimizer, plan, execution_props), result),
        *plan is Extension,
        result is Ok,
    ensures
        *plan matches LogicalPlan::Extension { node } && {
            &&& result->Ok_0 matches LogicalPlan::Extension { node: successor }
            &&& exists|exprs: &[Expr], inputs: &[LogicalPlan<O::Node>]|
                {
                    &&& #[trigger] call_ensures(
                        O::Node::from_template,
                        (&*node, exprs, inputs),
                        successor,
                    )
                    &&& exprs_model(exprs@) == node.spec_expressions()
                    &&& inputs@.len() == node.spec_inputs().len()
                    &&& forall|i: int|
                        0 <= i < inputs@.len() ==> is_answer(
                            optimizer,
                            node.spec_inputs()[i],
                            execution_props,
                            (#[trigger] inputs@[i])@,
                        )
                }
        },
{
    let answers = lemma_answers(optimizer, plan, execution_props, result);
    if let LogicalPlan::Extension { node } = *plan {
        let children = plan_inputs(plan@);
        let successor = result->Ok_0->Extension_node;
        let (exprs, inputs, made) = choose|
            exprs: &[Expr],
            inputs: &[LogicalPlan<O::Node>],
            made: Arc<O::Node>,
        |
            {
                &&& #[trigger] call_ensures(O::Node::from_template, (&*node, exprs, inputs), made)
                &&& exprs_model(exprs@) == plan_expressions(plan@)
                &&& plans_model(inputs@) == answered_plans(answers)
                &&& outcome(result) == Ok::<PlanModel<O::Node>, ErrorModel>(
                    PlanModel::Extension { node: *made },
                )
            };
        assert(successor == made);
        assert(plans_model(inputs@).len() == inputs@.len());
        assert(answers.len() == children.len());
        assert forall|i: int| 0 <= i < inputs@.len() implies is_answer(
            optimizer,
            children[i],
            execution_props,
            (#[trigger] inputs@[i])@,
        ) by {
            lemma_input_is_answered(optimizer, children, execution_props, answers, i);
            assert(plans_model(inputs@)[i] == inputs@[i]@);
        }
    }
}

/// Whether the rule may make a plan with the second model of a plan with the first one.
pub open spec fn is_answer<O: OptimizerRule>(
    optimizer: &O,
    input: PlanModel<O::Node>,
    execution_props: &ExecutionProps,
    output: PlanModel<O::Node>,
) -> bool {
    exists|child: &LogicalPlan<O::Node>, made: LogicalPlan<O::Node>|
        {
            &&& child@ == input
            &&& #[trigger] call_ensures(
                O::optimize,
                (optimizer, child, execution_props),
                Ok::<LogicalPlan<O::Node>, DataFusionError>(made),
            )
            &&& made@ == output
        }
}

/// A schema holds the fields that it was made of, in their order. It is refused exactly if names
/// clash, and the error names a field that does: the first that has the name and the relation of
/// one before it, or else one that shares its name with a field of no relation.
pub proof fn law_schema_holds_its_fields(
    fields: Vec<DFField>,
    result: Result<DFSchema, DataFusionError>,
)
    requires
        call_ensures(DFSchema::new, (fields,), result),
    ensures
        ({
            let models = fields@.map_values(|field: DFField| field@);
            &&& result is Ok <==> has_clear_names(models)
            &&& result matches Ok(schema) ==> schema@ == models
            &&& result matches Err(error) ==> {
                ||| exists|i: int, j: int|
                    {
                        &&& 0 <= j < i < models.len()
                        &&& same_name(#[trigger] models[j], #[trigger] models[i])
                        &&& forall|k: int, l: int|
                            0 <= k < l < i ==> !same_name(
                                #[trigger] models[k],
                                #[trigger] models[l],
                            )
                        &&& error@ == match models[i].qualifier {
                            Some(relation) => ErrorModel::Plan(
                                "Schema contains duplicate qualified field name '"@ + relation
                                    + "."@ + models[i].field.name + "'"@,
                            ),
                            None => ErrorModel::Plan(
                                "Schema contains duplicate unqualified field name '"@
                                    + models[i].field.name + "'"@,
                            ),
                        }
                    }
                ||| exists|i: int, j: int|
                    {
                        &&& 0 <= i < models.len()
                        &&& 0 <= j < models.len()
                        &&& (#[trigger] models[i]).field.name == (#[trigger] models[j]).field.name
                        &&& models[j].qualifier is None
                        &&& models[i].qualifier matches Some(relation)
                        &&& error@ == ErrorModel::Plan(
                            "Schema contains qualified field name '"@ + relation + "."@
                                + models[i].field.name + "' and unqualified field name '"@
                                + models[i].field.name + "' which would be ambiguous"@,
                        )
                    }
            }
        }),
{
    let models = fields@.map_values(|field: DFField| field@);
    let n = models.len() as int;
    assert(models == df_fields_model(fields@));
    law_schema_has_clear_names(models);
    lemma_no_first_repeat(models, n);
    lemma_no_first_ambiguous(models, n);
    if let Some(i) = first_repeat(models, n) {
        lemma_nothing_repeats_before(models, n);
        let j = choose|j: int|
            0 <= j < i && (#[trigger] models[j]).qualifier == models[i].qualifier
                && models[j].field.name == models[i].field.name;
        assert(same_name(models[j], models[i]));
        assert forall|k: int, l: int| 0 <= k < l < i implies !same_name(
            #[trigger] models[k],
            #[trigger] models[l],
        ) by {
            assert(!repeats(models, l));
        }
    } else if let Some(i) = first_ambiguous(models, n) {
        let j = choose|j: int|
            0 <= j < models.len() && (#[trigger] models[j]).qualifier is None
                && models[j].field.name == models[i].field.name;
        assert(models[i].field.name == models[j].field.name);
    }
}

/// Whether two fields have the same name and the same relation.
pub open spec fn same_name(left: DFFieldModel, right: DFFieldModel) -> bool {
    left.qualifier == right.qualifier && left.field.name == right.field.name
}

proof fn lemma_nothing_repeats_before(fields: Seq<DFFieldModel>, n: int)
    ensures
        first_repeat(fields, n) matches Some(i) ==> forall|l: int|
            0 <= l < i ==> !repeats(fields, l),
    decreases n,
{
    if n > 0 {
        lemma_nothing_repeats_before(fields, n - 1);
        lemma_no_first_repeat(fields, n - 1);
    }
}

/// A user's node is rebuilt by the node itself, from the very expressions and inputs given.
pub proof fn law_users_node_is_asked<N: UserDefinedLogicalNode>(
    plan: &LogicalPlan<N>,
    exprs: &[Expr],
    inputs: &[LogicalPlan<N>],
    result: Result<LogicalPlan<N>, DataFusionError>,
)
    requires
        call_ensures(from_plan::<N>, (plan, exprs, inputs), result),
        *plan is Extension,
    ensures
        *plan matches LogicalPlan::Extension { node } && {
            &&& result matches Ok(LogicalPlan::Extension { node: made })
            &&& call_ensures(N::from_template, (&*node, exprs, inputs), made)
        },
{
}

/// A plan node can be rebuilt from any lists that have an input for each of its inputs and an
/// expression for each place that must be filled. The children of any plan can be optimized.
pub proof fn law_rebuilding_asks_for_places_only<O: OptimizerRule>(
    optimizer: &O,
    plan: &LogicalPlan<O::Node>,
    exprs: &[Expr],
    inputs: &[LogicalPlan<O::Node>],
    execution_props: &ExecutionProps,
)
    requires
        match *plan {
            LogicalPlan::Filter { .. } => exprs@.len() >= 1 && inputs@.len() >= 1,
            LogicalPlan::Window { window_expr, .. } => exprs@.len() >= window_expr@.len()
                && inputs@.len() >= 1,
            LogicalPlan::Aggregate { group_expr, .. } => exprs@.len() >= group_expr@.len()
                && inputs@.len() >= 1,
            LogicalPlan::Projection { .. }
            | LogicalPlan::Repartition { .. }
            | LogicalPlan::Sort { .. }
            | LogicalPlan::Limit { .. } => inputs@.len() >= 1,
            LogicalPlan::Join { .. } | LogicalPlan::CrossJoin { .. } => inputs@.len() >= 2,
            _ => true,
        },
    ensures
        call_requires(from_plan::<O::Node>, (plan, exprs, inputs)),
        call_requires(optimize_children::<O>, (optimizer, plan, execution_props)),
{
    broadcast use {lemma_exprs_model_len, lemma_plans_model_len};

}

} // verus!
