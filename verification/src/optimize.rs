//! Applying an optimizer rule to a plan whose own kind of node the rule leaves alone.
use arrow::datatypes::Schema;
use std::sync::Arc;
use vstd::prelude::*;

use crate::display::plan_text;
use crate::error::{outcome, DataFusionError, ErrorModel};
use crate::plan::{
    borrowed_model, clone_stringified, lemma_plans_model_len, lemma_plans_model_push,
    plan_expressions, plan_inputs, plans_model, same_type, stringified_model, LogicalPlan,
    PlanModel, PlanType, PlanTypeModel, StringifiedPlan, StringifiedPlanModel,
    UserDefinedLogicalNode,
};
use crate::rebuild::{from_plan, may_rebuild};
use crate::rebuild_laws::law_right_numbers_suffice;
use crate::schema::{
    checked_schema, described, fields_model, read_fields, schema_fields, unqualified, DFFieldModel,
    DFSchema, Field, FieldModel,
};

verus! {

/// What holds for the whole run of a query.
#[derive(Debug)]
pub struct ExecutionProps {
    /// When the query started, in nanoseconds since the epoch.
    pub query_execution_start_time: i64,
}

/// A rule that turns a plan into an equivalent one.
pub trait OptimizerRule {
    /// The steps that a user adds to the plans that the rule works on.
    type Node: UserDefinedLogicalNode;

    /// Returns the plan that the rule makes of `plan`.
    fn optimize(
        &self,
        plan: &LogicalPlan<Self::Node>,
        execution_props: &ExecutionProps,
    ) -> Result<LogicalPlan<Self::Node>, DataFusionError>;

    /// Returns the name of the rule.
    fn name(&self) -> &str;
}

/// The plan that explains an optimized plan: the texts that were there before, and behind them
/// the text of the optimized plan under the name of the rule. It fails where the fields make no
/// schema.
pub open spec fn explained<N: UserDefinedLogicalNode>(
    verbose: bool,
    optimized: PlanModel<N>,
    optimizer_name: Seq<char>,
    stringified_plans: Seq<StringifiedPlanModel>,
    fields: Seq<FieldModel>,
) -> Result<PlanModel<N>, ErrorModel> {
    match checked_schema(fields.map_values(|field: FieldModel| unqualified(field))) {
        Ok(schema) => Ok(
            PlanModel::Explain {
                verbose,
                plan: Box::new(optimized),
                stringified_plans: stringified_plans.push(
                    StringifiedPlanModel {
                        plan_type: PlanTypeModel::OptimizedLogicalPlan { optimizer_name },
                        plan: plan_text(optimized),
                    },
                ),
                schema,
            },
        ),
        Err(error) => Err(error),
    }
}

/// Explains an optimized plan.
pub fn explain_optimized<N: UserDefinedLogicalNode>(
    verbose: bool,
    optimized: LogicalPlan<N>,
    optimizer_name: &str,
    stringified_plans: &[StringifiedPlan],
    fields: Vec<Field>,
) -> (result: Result<LogicalPlan<N>, DataFusionError>)
    ensures
        outcome(result) == explained(
            verbose,
            optimized@,
            optimizer_name@,
            stringified_model(stringified_plans@),
            fields_model(fields@),
        ),
{
    let plan = Arc::new(optimized);
    let mut texts: Vec<StringifiedPlan> = clone_stringified(stringified_plans);
    let ghost before = texts@;
    let text = StringifiedPlan::new(
        PlanType::OptimizedLogicalPlan { optimizer_name: optimizer_name.to_owned() },
        plan.display_indent(),
    );
    texts.push(text);
    assert(stringified_model(texts@) =~= stringified_model(before).push(text@));
    let schema = DFSchema::from_fields(fields)?;
    Ok(
        LogicalPlan::Explain {
            verbose,
            plan,
            stringified_plans: texts,
            schema: Arc::new(schema),
        },
    )
}

/// Whether explaining a plan under a rule may end with `result`: with the rule's own error, or
/// with the explanation of what the rule made of the plan.
pub open spec fn may_explain<O: OptimizerRule>(
    optimizer: &O,
    verbose: bool,
    plan: &LogicalPlan<O::Node>,
    stringified_plans: Seq<StringifiedPlanModel>,
    fields: Seq<FieldModel>,
    execution_props: &ExecutionProps,
    result: Result<PlanModel<O::Node>, ErrorModel>,
) -> bool {
    exists|optimized: Result<LogicalPlan<O::Node>, DataFusionError>|
        {
            &&& #[trigger] call_ensures(O::optimize, (optimizer, plan, execution_props), optimized)
            &&& match optimized {
                Err(error) => result == Err::<PlanModel<O::Node>, ErrorModel>(error@),
                Ok(optimized) => exists|name: &str|
                    {
                        &&& #[trigger] call_ensures(O::name, (optimizer,), name)
                        &&& result == explained(
                            verbose,
                            optimized@,
                            name@,
                            stringified_plans,
                            fields,
                        )
                    },
            }
        }
}

fn explain_with_fields<O: OptimizerRule>(
    optimizer: &O,
    verbose: bool,
    plan: &LogicalPlan<O::Node>,
    stringified_plans: &[StringifiedPlan],
    fields: Vec<Field>,
    execution_props: &ExecutionProps,
) -> (result: Result<LogicalPlan<O::Node>, DataFusionError>)
    ensures
        may_explain(
            optimizer,
            verbose,
            plan,
            stringified_model(stringified_plans@),
            fields_model(fields@),
            execution_props,
            outcome(result),
        ),
{
    match optimizer.optimize(plan, execution_props) {
        Ok(optimized) => explain_optimized(
            verbose,
            optimized,
            optimizer.name(),
            stringified_plans,
            fields,
        ),
        Err(error) => Err(error),
    }
}

/// Creates a [`LogicalPlan::Explain`] node by running `optimizer` on the input plan and
/// capturing the resulting plan string.
pub fn optimize_explain<O: OptimizerRule>(
    optimizer: &O,
    verbose: bool,
    plan: &LogicalPlan<O::Node>,
    stringified_plans: &[StringifiedPlan],
    schema: &Schema,
    execution_props: &ExecutionProps,
) -> (result: Result<LogicalPlan<O::Node>, DataFusionError>)
    ensures
        may_explain(
            optimizer,
            verbose,
            plan,
            stringified_model(stringified_plans@),
            schema_fields(*schema),
            execution_props,
            outcome(result),
        ),
{
    explain_with_fields(
        optimizer,
        verbose,
        plan,
        stringified_plans,
        read_fields(schema),
        execution_props,
    )
}

/// Whether `answer` is what the rule may say of a plan with that model.
pub open spec fn may_answer<O: OptimizerRule>(
    optimizer: &O,
    input: PlanModel<O::Node>,
    execution_props: &ExecutionProps,
    answer: Result<LogicalPlan<O::Node>, DataFusionError>,
) -> bool {
    exists|plan: &LogicalPlan<O::Node>|
        plan@ == input && #[trigger] call_ensures(
            O::optimize,
            (optimizer, plan, execution_props),
            answer,
        )
}

/// Whether the rule may give these answers when it is asked about the inputs one by one, until
/// they are through or it fails.
pub open spec fn may_answer_all<O: OptimizerRule>(
    optimizer: &O,
    inputs: Seq<PlanModel<O::Node>>,
    execution_props: &ExecutionProps,
    answers: Seq<Result<LogicalPlan<O::Node>, DataFusionError>>,
) -> bool {
    &&& answers.len() <= inputs.len()
    &&& forall|i: int|
        0 <= i < answers.len() ==> may_answer(
            optimizer,
            inputs[i],
            execution_props,
            #[trigger] answers[i],
        )
    &&& forall|i: int| 0 <= i < answers.len() - 1 ==> (#[trigger] answers[i]) is Ok
    &&& answers.len() < inputs.len() ==> answers.len() > 0 && answers.last() is Err
}

/// The plans among the answers of a rule that did not fail.
pub open spec fn answered_plans<N>(
    answers: Seq<Result<LogicalPlan<N>, DataFusionError>>,
) -> Seq<PlanModel<N>> {
    answers.map_values(|answer: Result<LogicalPlan<N>, DataFusionError>| answer->Ok_0@)
}

/// Whether the last answer of a rule is an error.
pub open spec fn has_failed<N>(answers: Seq<Result<LogicalPlan<N>, DataFusionError>>) -> bool {
    answers.len() > 0 && answers.last() is Err
}

fn optimize_inputs<O: OptimizerRule>(
    optimizer: &O,
    inputs: &Vec<&LogicalPlan<O::Node>>,
    execution_props: &ExecutionProps,
) -> (result: Result<Vec<LogicalPlan<O::Node>>, DataFusionError>)
    ensures
        exists|answers: Seq<Result<LogicalPlan<O::Node>, DataFusionError>>|
            {
                &&& #[trigger] may_answer_all(
                    optimizer,
                    borrowed_model(inputs@),
                    execution_props,
                    answers,
                )
                &&& match result {
                    Ok(plans) => !has_failed(answers) && plans_model(plans@) == answered_plans(
                        answers,
                    ),
                    Err(error) => has_failed(answers) && error == answers.last()->Err_0,
                }
            },
{
    let mut plans: Vec<LogicalPlan<O::Node>> = Vec::new();
    let ghost models = borrowed_model(inputs@);
    let ghost mut answers: Seq<Result<LogicalPlan<O::Node>, DataFusionError>> = Seq::empty();
    assert(plans_model(plans@) =~= answered_plans(answers));
    let mut i: usize = 0;
    while i < inputs.len()
        invariant
            i <= inputs@.len(),
            models == borrowed_model(inputs@),
            answers.len() == i,
            forall|j: int| 0 <= j < i ==> (#[trigger] answers[j]) is Ok,
            forall|j: int|
                0 <= j < i ==> may_answer(
                    optimizer,
                    models[j],
                    execution_props,
                    #[trigger] answers[j],
                ),
            plans_model(plans@) == answered_plans(answers),
        decreases inputs.len() - i,
    {
        let input = inputs[i];
        let answer = optimizer.optimize(input, execution_props);
        let ghost before = answers;
        proof {
            assert(models[i as int] == input@);
            assert(may_answer(optimizer, models[i as int], execution_props, answer));
            answers = answers.push(answer);
        }
        match answer {
            Ok(plan) => {
                proof {
                    lemma_plans_model_push(plans@, plan);
                    assert(answered_plans(answers) =~= answered_plans(before).push(plan@));
                }
                plans.push(plan);
            },
            Err(error) => {
                assert(may_answer_all(optimizer, models, execution_props, answers));
                return Err(error);
            },
        }
        i += 1;
    }
    assert(may_answer_all(optimizer, models, execution_props, answers));
    Ok(plans)
}

/// Convenience rule for writing optimizers: invokes `optimizer` on the plan's children and then
/// returns a node of the same type. Useful for optimizer rules which want to leave the type of
/// plan unchanged but still apply to the children. This also handles the case when the `plan` is
/// a [`LogicalPlan::Explain`].
pub fn optimize_children<O: OptimizerRule>(
    optimizer: &O,
    plan: &LogicalPlan<O::Node>,
    execution_props: &ExecutionProps,
) -> (result: Result<LogicalPlan<O::Node>, DataFusionError>)
    ensures
        *plan matches LogicalPlan::Explain { verbose, plan: inner, stringified_plans, schema }
            ==> may_explain(
            optimizer,
            verbose,
            &*inner,
            stringified_model(stringified_plans@),
            (*schema)@.map_values(|field: DFFieldModel| described(field)),
            execution_props,
            outcome(result),
        ),
        *plan !is Explain ==> exists|answers: Seq<Result<LogicalPlan<O::Node>, DataFusionError>>|
            {
                &&& #[trigger] may_answer_all(
                    optimizer,
                    plan_inputs(plan@),
                    execution_props,
                    answers,
                )
                &&& if has_failed(answers) {
                    outcome(result) == Err::<PlanModel<O::Node>, ErrorModel>(answers.last()->Err_0@)
                } else {
                    may_rebuild(
                        plan@,
                        plan_expressions(plan@),
                        answered_plans(answers),
                        outcome(result),
                    )
                }
            },
        result matches Ok(optimized) ==> same_type(plan@, optimized@),
{
    if let LogicalPlan::Explain { verbose, plan, stringified_plans, schema } = plan {
        return explain_with_fields(
            optimizer,
            *verbose,
            &**plan,
            stringified_plans.as_slice(),
            schema.to_fields(),
            execution_props,
        );
    }
    let new_exprs = plan.expressions();
    let inputs = plan.inputs();
    let new_inputs = optimize_inputs(optimizer, &inputs, execution_props)?;
    proof {
        broadcast use lemma_plans_model_len;

        let answers = choose|answers: Seq<Result<LogicalPlan<O::Node>, DataFusionError>>|
            {
                &&& #[trigger] may_answer_all(
                    optimizer,
                    borrowed_model(inputs@),
                    execution_props,
                    answers,
                )
                &&& !has_failed(answers)
                &&& plans_model(new_inputs@) == answered_plans(answers)
            };
        law_right_numbers_suffice(plan@, plan_expressions(plan@), plans_model(new_inputs@));
    }
    from_plan(plan, new_exprs.as_slice(), new_inputs.as_slice())
}

} // verus!
