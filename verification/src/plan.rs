//! Logical plans, their mathematical model, and what a plan node is made of.
use std::sync::Arc;
use vstd::prelude::*;

use crate::error::{outcome, DataFusionError, ErrorModel};
use crate::expr::{
    clone_exprs, exprs_model, group_exprs_model, lemma_exprs_model_push, Column, ColumnModel, Expr,
    ExprModel,
};
use crate::scalar::{clone_text, text_model};
use crate::schema::{checked_schema, DFFieldModel, DFSchema, JoinType};

verus! {

/// How the rows of a plan are spread over partitions.
#[derive(Debug, PartialEq, Eq)]
pub enum Partitioning {
    /// Batches go to so many partitions in turn.
    RoundRobinBatch(usize),
    /// Rows go to so many partitions by the hash of expressions.
    Hash(Vec<Expr>, usize),
}

/// A [`Partitioning`] with its expressions as a sequence.
#[verifier::ext_equal]
pub enum PartitioningModel {
    RoundRobinBatch(usize),
    Hash(Seq<ExprModel>, usize),
}

impl View for Partitioning {
    type V = PartitioningModel;

    open spec fn view(&self) -> PartitioningModel {
        match *self {
            Partitioning::RoundRobinBatch(n) => PartitioningModel::RoundRobinBatch(n),
            Partitioning::Hash(exprs, n) => PartitioningModel::Hash(exprs_model(exprs@), n),
        }
    }
}

impl Clone for Partitioning {
    fn clone(&self) -> (copy: Self)
        ensures
            copy@ == self@,
    {
        match self {
            Partitioning::RoundRobinBatch(n) => Partitioning::RoundRobinBatch(*n),
            Partitioning::Hash(exprs, n) => Partitioning::Hash(clone_exprs(exprs.as_slice()), *n),
        }
    }
}

/// How the condition of a join was written.
#[derive(Clone, Copy, Debug, PartialEq, Eq, Structural)]
pub enum JoinConstraint {
    On,
    Using,
}

/// The format of the files of an external table.
#[derive(Clone, Copy, Debug, PartialEq, Eq, Structural)]
pub enum FileType {
    Parquet,
    NdJson,
    CSV,
}

/// A table of the catalog, which finds it by its number.
#[derive(Clone, Copy, Debug, PartialEq, Eq, Structural)]
pub struct TableSource {
    pub id: u64,
}

/// Which stage of planning a plan text shows.
#[derive(Debug, PartialEq, Eq)]
pub enum PlanType {
    /// The plan as the query gave it.
    LogicalPlan,
    /// The plan after an optimizer rule.
    OptimizedLogicalPlan { optimizer_name: String },
    /// The plan that is run.
    PhysicalPlan,
}

/// A [`PlanType`] with the name of the rule as a sequence of characters.
#[verifier::ext_equal]
pub enum PlanTypeModel {
    LogicalPlan,
    OptimizedLogicalPlan { optimizer_name: Seq<char> },
    PhysicalPlan,
}

impl View for PlanType {
    type V = PlanTypeModel;

    open spec fn view(&self) -> PlanTypeModel {
        match *self {
            PlanType::LogicalPlan => PlanTypeModel::LogicalPlan,
            PlanType::OptimizedLogicalPlan { optimizer_name } =>
                PlanTypeModel::OptimizedLogicalPlan { optimizer_name: optimizer_name@ },
            PlanType::PhysicalPlan => PlanTypeModel::PhysicalPlan,
        }
    }
}

impl Clone for PlanType {
    fn clone(&self) -> (copy: Self)
        ensures
            copy@ == self@,
    {
        match self {
            PlanType::LogicalPlan => PlanType::LogicalPlan,
            PlanType::OptimizedLogicalPlan { optimizer_name } => PlanType::OptimizedLogicalPlan {
                optimizer_name: optimizer_name.clone(),
            },
            PlanType::PhysicalPlan => PlanType::PhysicalPlan,
        }
    }
}

/// The text of a plan, and the stage of planning that it shows.
#[derive(Debug, PartialEq, Eq)]
pub struct StringifiedPlan {
    pub plan_type: PlanType,
    pub plan: Arc<String>,
}

/// A [`StringifiedPlan`] with its strings as sequences of characters.
#[verifier::ext_equal]
pub struct StringifiedPlanModel {
    pub plan_type: PlanTypeModel,
    pub plan: Seq<char>,
}

impl View for StringifiedPlan {
    type V = StringifiedPlanModel;

    open spec fn view(&self) -> StringifiedPlanModel {
        StringifiedPlanModel { plan_type: self.plan_type@, plan: (*self.plan)@ }
    }
}

impl Clone for StringifiedPlan {
    fn clone(&self) -> (copy: Self)
        ensures
            copy@ == self@,
    {
        StringifiedPlan { plan_type: self.plan_type.clone(), plan: Arc::clone(&self.plan) }
    }
}

impl StringifiedPlan {
    /// The text of a plan at a stage of planning.
    pub fn new(plan_type: PlanType, plan: String) -> (stringified: StringifiedPlan)
        ensures
            stringified@ == (StringifiedPlanModel { plan_type: plan_type@, plan: plan@ }),
    {
        StringifiedPlan { plan_type, plan: Arc::new(plan) }
    }
}

/// The models of a sequence of plan texts, one for one.
pub open spec fn stringified_model(plans: Seq<StringifiedPlan>) -> Seq<StringifiedPlanModel> {
    plans.map_values(|plan: StringifiedPlan| plan@)
}

/// A copy of a slice of plan texts.
pub(crate) fn clone_stringified(plans: &[StringifiedPlan]) -> (copy: Vec<StringifiedPlan>)
    ensures
        stringified_model(copy@) == stringified_model(plans@),
{
    let mut copy: Vec<StringifiedPlan> = Vec::new();
    let ghost all = stringified_model(plans@);
    let mut i: usize = 0;
    while i < plans.len()
        invariant
            i <= plans@.len(),
            all == stringified_model(plans@),
            stringified_model(copy@) == all.take(i as int),
        decreases plans.len() - i,
    {
        let ghost before = copy@;
        copy.push(plans[i].clone());
        assert(stringified_model(copy@) =~= stringified_model(before).push(all[i as int]));
        assert(all.take(i + 1) =~= all.take(i as int).push(all[i as int]));
        i += 1;
    }
    assert(all.take(i as int) =~= all);
    copy
}

/// The models of the pairs of columns that a join compares, one for one.
pub open spec fn join_keys_model(on: Seq<(Column, Column)>) -> Seq<(ColumnModel, ColumnModel)> {
    on.map_values(|keys: (Column, Column)| (keys.0@, keys.1@))
}

pub(crate) fn clone_join_keys(on: &Vec<(Column, Column)>) -> (copy: Vec<(Column, Column)>)
    ensures
        join_keys_model(copy@) == join_keys_model(on@),
{
    let mut copy: Vec<(Column, Column)> = Vec::new();
    let ghost all = join_keys_model(on@);
    let mut i: usize = 0;
    while i < on.len()
        invariant
            i <= on@.len(),
            all == join_keys_model(on@),
            join_keys_model(copy@) == all.take(i as int),
        decreases on.len() - i,
    {
        let ghost before = copy@;
        copy.push((on[i].0.clone(), on[i].1.clone()));
        assert(join_keys_model(copy@) =~= join_keys_model(before).push(all[i as int]));
        assert(all.take(i + 1) =~= all.take(i as int).push(all[i as int]));
        i += 1;
    }
    assert(all.take(i as int) =~= all);
    copy
}

/// A step of a query, over the steps that give it its rows. `N` is the type of the steps that a
/// user adds.
#[derive(Debug, PartialEq, Eq)]
#[allow(inconsistent_fields)]
pub enum LogicalPlan<N> {
    /// Computes expressions.
    Projection { expr: Vec<Expr>, input: Arc<LogicalPlan<N>>, schema: Arc<DFSchema> },
    /// Keeps the rows that meet a predicate.
    Filter { predicate: Expr, input: Arc<LogicalPlan<N>> },
    /// Computes window functions beside the columns of the input.
    Window { input: Arc<LogicalPlan<N>>, window_expr: Vec<Expr>, schema: Arc<DFSchema> },
    /// Groups rows and computes aggregates of each group.
    Aggregate {
        input: Arc<LogicalPlan<N>>,
        group_expr: Vec<Expr>,
        aggr_expr: Vec<Expr>,
        schema: Arc<DFSchema>,
    },
    /// Sorts the rows.
    Sort { expr: Vec<Expr>, input: Arc<LogicalPlan<N>> },
    /// Joins two inputs on equal columns.
    Join {
        left: Arc<LogicalPlan<N>>,
        right: Arc<LogicalPlan<N>>,
        on: Vec<(Column, Column)>,
        join_type: JoinType,
        join_constraint: JoinConstraint,
        schema: Arc<DFSchema>,
    },
    /// Joins every row of one input with every row of the other.
    CrossJoin { left: Arc<LogicalPlan<N>>, right: Arc<LogicalPlan<N>>, schema: Arc<DFSchema> },
    /// Spreads the rows over partitions.
    Repartition { input: Arc<LogicalPlan<N>>, partitioning_scheme: Partitioning },
    /// Gives the rows of all inputs.
    Union { inputs: Vec<LogicalPlan<N>>, schema: Arc<DFSchema>, alias: Option<String> },
    /// Reads a table.
    TableScan {
        table_name: String,
        source: TableSource,
        projection: Option<Vec<usize>>,
        projected_schema: Arc<DFSchema>,
        filters: Vec<Expr>,
        limit: Option<usize>,
    },
    /// Gives no row, or a single one.
    EmptyRelation { produce_one_row: bool, schema: Arc<DFSchema> },
    /// Gives the first rows only.
    Limit { n: usize, input: Arc<LogicalPlan<N>> },
    /// Registers files as a table.
    CreateExternalTable {
        schema: Arc<DFSchema>,
        name: String,
        location: String,
        file_type: FileType,
        has_header: bool,
    },
    /// Gives the texts of a plan at the stages of planning.
    Explain {
        verbose: bool,
        plan: Arc<LogicalPlan<N>>,
        stringified_plans: Vec<StringifiedPlan>,
        schema: Arc<DFSchema>,
    },
    /// A step that a user adds.
    Extension { node: Arc<N> },
}

/// A [`LogicalPlan`] as a mathematical tree: strings and vectors are sequences, and a schema is
/// the sequence of its fields.
#[verifier::ext_equal]
#[allow(inconsistent_fields)]
pub enum PlanModel<N> {
    Projection { expr: Seq<ExprModel>, input: Box<PlanModel<N>>, schema: Seq<DFFieldModel> },
    Filter { predicate: ExprModel, input: Box<PlanModel<N>> },
    Window { input: Box<PlanModel<N>>, window_expr: Seq<ExprModel>, schema: Seq<DFFieldModel> },
    Aggregate {
        input: Box<PlanModel<N>>,
        group_expr: Seq<ExprModel>,
        aggr_expr: Seq<ExprModel>,
        schema: Seq<DFFieldModel>,
    },
    Sort { expr: Seq<ExprModel>, input: Box<PlanModel<N>> },
    Join {
        left: Box<PlanModel<N>>,
        right: Box<PlanModel<N>>,
        on: Seq<(ColumnModel, ColumnModel)>,
        join_type: JoinType,
        join_constraint: JoinConstraint,
        schema: Seq<DFFieldModel>,
    },
    CrossJoin { left: Box<PlanModel<N>>, right: Box<PlanModel<N>>, schema: Seq<DFFieldModel> },
    Repartition { input: Box<PlanModel<N>>, partitioning_scheme: PartitioningModel },
    Union { inputs: Seq<PlanModel<N>>, schema: Seq<DFFieldModel>, alias: Option<Seq<char>> },
    TableScan {
        table_name: Seq<char>,
        source: TableSource,
        projection: Option<Seq<usize>>,
        projected_schema: Seq<DFFieldModel>,
        filters: Seq<ExprModel>,
        limit: Option<usize>,
    },
    EmptyRelation { produce_one_row: bool, schema: Seq<DFFieldModel> },
    Limit { n: usize, input: Box<PlanModel<N>> },
    CreateExternalTable {
        schema: Seq<DFFieldModel>,
        name: Seq<char>,
        location: Seq<char>,
        file_type: FileType,
        has_header: bool,
    },
    Explain {
        verbose: bool,
        plan: Box<PlanModel<N>>,
        stringified_plans: Seq<StringifiedPlanModel>,
        schema: Seq<DFFieldModel>,
    },
    Extension { node: N },
}

/// The columns that a scan reads, by their numbers.
pub open spec fn projection_model(projection: Option<Vec<usize>>) -> Option<Seq<usize>> {
    match projection {
        Some(indices) => Some(indices@),
        None => None,
    }
}

/// The model of a plan.
pub open spec fn plan_model<N>(plan: LogicalPlan<N>) -> PlanModel<N>
    decreases plan,
{
    match plan {
        LogicalPlan::Projection { expr, input, schema } => PlanModel::Projection {
            expr: exprs_model(expr@),
            input: Box::new(plan_model(*input)),
            schema: (*schema)@,
        },
        LogicalPlan::Filter { predicate, input } => PlanModel::Filter {
            predicate: predicate@,
            input: Box::new(plan_model(*input)),
        },
        LogicalPlan::Window { input, window_expr, schema } => PlanModel::Window {
            input: Box::new(plan_model(*input)),
            window_expr: exprs_model(window_expr@),
            schema: (*schema)@,
        },
        LogicalPlan::Aggregate { input, group_expr, aggr_expr, schema } => PlanModel::Aggregate {
            input: Box::new(plan_model(*input)),
            group_expr: exprs_model(group_expr@),
            aggr_expr: exprs_model(aggr_expr@),
            schema: (*schema)@,
        },
        LogicalPlan::Sort { expr, input } => PlanModel::Sort {
            expr: exprs_model(expr@),
            input: Box::new(plan_model(*input)),
        },
        LogicalPlan::Join { left, right, on, join_type, join_constraint, schema } =>
            PlanModel::Join {
            left: Box::new(plan_model(*left)),
            right: Box::new(plan_model(*right)),
            on: join_keys_model(on@),
            join_type,
            join_constraint,
            schema: (*schema)@,
        },
        LogicalPlan::CrossJoin { left, right, schema } => PlanModel::CrossJoin {
            left: Box::new(plan_model(*left)),
            right: Box::new(plan_model(*right)),
            schema: (*schema)@,
        },
        LogicalPlan::Repartition { input, partitioning_scheme } => PlanModel::Repartition {
            input: Box::new(plan_model(*input)),
            partitioning_scheme: partitioning_scheme@,
        },
        LogicalPlan::Union { inputs, schema, alias } => PlanModel::Union {
            inputs: plans_model(inputs@),
            schema: (*schema)@,
            alias: text_model(alias),
        },
        LogicalPlan::TableScan {
            table_name,
            source,
            projection,
            projected_schema,
            filters,
            limit,
        } => PlanModel::TableScan {
            table_name: table_name@,
            source,
            projection: projection_model(projection),
            projected_schema: (*projected_schema)@,
            filters: exprs_model(filters@),
            limit,
        },
        LogicalPlan::EmptyRelation { produce_one_row, schema } => PlanModel::EmptyRelation {
            produce_one_row,
            schema: (*schema)@,
        },
        LogicalPlan::Limit { n, input } => PlanModel::Limit {
            n,
            input: Box::new(plan_model(*input)),
        },
        LogicalPlan::CreateExternalTable { schema, name, location, file_type, has_header } =>
            PlanModel::CreateExternalTable {
            schema: (*schema)@,
            name: name@,
            location: location@,
            file_type,
            has_header,
        },
        LogicalPlan::Explain { verbose, plan: explained, stringified_plans, schema } =>
            PlanModel::Explain {
            verbose,
            plan: Box::new(plan_model(*explained)),
            stringified_plans: stringified_model(stringified_plans@),
            schema: (*schema)@,
        },
        LogicalPlan::Extension { node } => PlanModel::Extension { node: *node },
    }
}

/// The models of a sequence of plans, one for one.
pub open spec fn plans_model<N>(plans: Seq<LogicalPlan<N>>) -> Seq<PlanModel<N>>
    decreases plans,
{
    Seq::new(
        plans.len(),
        |i: int|
            if 0 <= i < plans.len() {
                plan_model(plans[i])
            } else {
                arbitrary()
            },
    )
}

impl<N> View for LogicalPlan<N> {
    type V = PlanModel<N>;

    open spec fn view(&self) -> PlanModel<N> {
        plan_model(*self)
    }
}

pub broadcast proof fn lemma_plans_model_len<N>(plans: Seq<LogicalPlan<N>>)
    ensures
        #[trigger] plans_model(plans).len() == plans.len(),
{
}

pub broadcast proof fn lemma_plans_model_index<N>(plans: Seq<LogicalPlan<N>>, i: int)
    requires
        0 <= i < plans.len(),
    ensures
        #[trigger] plans_model(plans)[i] == plans[i]@,
{
}

pub(crate) proof fn lemma_plans_model_push<N>(plans: Seq<LogicalPlan<N>>, plan: LogicalPlan<N>)
    ensures
        plans_model(plans.push(plan)) == plans_model(plans).push(plan@),
{
    assert(plans_model(plans.push(plan)) =~= plans_model(plans).push(plan@));
}

/// A copy of a slice of plans.
pub(crate) fn clone_plans<N>(plans: &[LogicalPlan<N>]) -> (copy: Vec<LogicalPlan<N>>)
    ensures
        plans_model(copy@) == plans_model(plans@),
    decreases plans@,
{
    let mut copy: Vec<LogicalPlan<N>> = Vec::new();
    let mut i: usize = 0;
    while i < plans.len()
        invariant
            i <= plans.len(),
            plans_model(copy@) == plans_model(plans@.take(i as int)),
        decreases plans.len() - i,
    {
        let item = plans[i].clone();
        proof {
            assert(plans@.take(i + 1) == plans@.take(i as int).push(plans@[i as int]));
            lemma_plans_model_push(plans@.take(i as int), plans@[i as int]);
            lemma_plans_model_push(copy@, item);
        }
        copy.push(item);
        i += 1;
    }
    assert(plans@.take(i as int) == plans@);
    copy
}

fn clone_projection(projection: &Option<Vec<usize>>) -> (copy: Option<Vec<usize>>)
    ensures
        projection_model(copy) == projection_model(*projection),
{
    match projection {
        Some(indices) => Some(indices.clone()),
        None => None,
    }
}

impl<N> Clone for LogicalPlan<N> {
    fn clone(&self) -> (copy: Self)
        ensures
            copy@ == self@,
        decreases self,
    {
        match self {
            LogicalPlan::Projection { expr, input, schema } => LogicalPlan::Projection {
                expr: clone_exprs(expr.as_slice()),
                input: Arc::clone(input),
                schema: Arc::clone(schema),
            },
            LogicalPlan::Filter { predicate, input } => LogicalPlan::Filter {
                predicate: predicate.clone(),
                input: Arc::clone(input),
            },
            LogicalPlan::Window { input, window_expr, schema } => LogicalPlan::Window {
                input: Arc::clone(input),
                window_expr: clone_exprs(window_expr.as_slice()),
                schema: Arc::clone(schema),
            },
            LogicalPlan::Aggregate { input, group_expr, aggr_expr, schema } =>
                LogicalPlan::Aggregate {
                input: Arc::clone(input),
                group_expr: clone_exprs(group_expr.as_slice()),
                aggr_expr: clone_exprs(aggr_expr.as_slice()),
                schema: Arc::clone(schema),
            },
            LogicalPlan::Sort { expr, input } => LogicalPlan::Sort {
                expr: clone_exprs(expr.as_slice()),
                input: Arc::clone(input),
            },
            LogicalPlan::Join { left, right, on, join_type, join_constraint, schema } =>
                LogicalPlan::Join {
                left: Arc::clone(left),
                right: Arc::clone(right),
                on: clone_join_keys(on),
                join_type: *join_type,
                join_constraint: *join_constraint,
                schema: Arc::clone(schema),
            },
            LogicalPlan::CrossJoin { left, right, schema } => LogicalPlan::CrossJoin {
                left: Arc::clone(left),
                right: Arc::clone(right),
                schema: Arc::clone(schema),
            },
            LogicalPlan::Repartition { input, partitioning_scheme } => LogicalPlan::Repartition {
                input: Arc::clone(input),
                partitioning_scheme: partitioning_scheme.clone(),
            },
            LogicalPlan::Union { inputs, schema, alias } => LogicalPlan::Union {
                inputs: clone_plans(inputs.as_slice()),
                schema: Arc::clone(schema),
                alias: clone_text(alias),
            },
            LogicalPlan::TableScan {
                table_name,
                source,
                projection,
                projected_schema,
                filters,
                limit,
            } => LogicalPlan::TableScan {
                table_name: table_name.clone(),
                source: *source,
                projection: clone_projection(projection),
                projected_schema: Arc::clone(projected_schema),
                filters: clone_exprs(filters.as_slice()),
                limit: *limit,
            },
            LogicalPlan::EmptyRelation { produce_one_row, schema } => LogicalPlan::EmptyRelation {
                produce_one_row: *produce_one_row,
                schema: Arc::clone(schema),
            },
            LogicalPlan::Limit { n, input } => LogicalPlan::Limit {
                n: *n,
                input: Arc::clone(input),
            },
            LogicalPlan::CreateExternalTable { schema, name, location, file_type, has_header } =>
                LogicalPlan::CreateExternalTable {
                schema: Arc::clone(schema),
                name: name.clone(),
                location: location.clone(),
                file_type: *file_type,
                has_header: *has_header,
            },
            LogicalPlan::Explain { verbose, plan, stringified_plans, schema } =>
                LogicalPlan::Explain {
                verbose: *verbose,
                plan: Arc::clone(plan),
                stringified_plans: clone_stringified(stringified_plans.as_slice()),
                schema: Arc::clone(schema),
            },
            LogicalPlan::Extension { node } => LogicalPlan::Extension { node: Arc::clone(node) },
        }
    }
}

/// Whether two plan nodes are of the same type.
pub open spec fn same_type<N>(left: PlanModel<N>, right: PlanModel<N>) -> bool {
    match left {
        PlanModel::Projection { .. } => right is Projection,
        PlanModel::Filter { .. } => right is Filter,
        PlanModel::Window { .. } => right is Window,
        PlanModel::Aggregate { .. } => right is Aggregate,
        PlanModel::Sort { .. } => right is Sort,
        PlanModel::Join { .. } => right is Join,
        PlanModel::CrossJoin { .. } => right is CrossJoin,
        PlanModel::Repartition { .. } => right is Repartition,
        PlanModel::Union { .. } => right is Union,
        PlanModel::TableScan { .. } => right is TableScan,
        PlanModel::EmptyRelation { .. } => right is EmptyRelation,
        PlanModel::Limit { .. } => right is Limit,
        PlanModel::CreateExternalTable { .. } => right is CreateExternalTable,
        PlanModel::Explain { .. } => right is Explain,
        PlanModel::Extension { .. } => right is Extension,
    }
}

/// The models of a sequence of borrowed plans, one for one.
pub open spec fn borrowed_model<N>(plans: Seq<&LogicalPlan<N>>) -> Seq<PlanModel<N>> {
    plans.map_values(|plan: &LogicalPlan<N>| plan@)
}

/// What stands at a height above what it is built on.
pub trait Layered: Sized {
    /// How many steps stand on top of one another from here downwards. An implementation that is
    /// to be verified says how many.
    open spec fn spec_height(&self) -> nat {
        arbitrary()
    }
}

/// A step that a user adds to plans. What a node says of itself stays the same as long as the
/// node does; an implementation that is to be verified says what that is.
pub trait UserDefinedLogicalNode: Layered {
    /// The steps that give the node its rows.
    open spec fn spec_inputs(&self) -> Seq<PlanModel<Self>> {
        arbitrary()
    }

    /// The expressions that the node holds.
    open spec fn spec_expressions(&self) -> Seq<ExprModel> {
        arbitrary()
    }

    /// The fields that the node produces.
    open spec fn spec_schema(&self) -> Seq<DFFieldModel> {
        arbitrary()
    }

    /// The text of the node, without its inputs.
    open spec fn spec_text(&self) -> Seq<char> {
        arbitrary()
    }

    /// Returns the steps that give the node its rows, all of them lower than the node itself.
    fn inputs(&self) -> (inputs: Vec<&LogicalPlan<Self>>)
        ensures
            borrowed_model(inputs@) == self.spec_inputs(),
            plans_height(self.spec_inputs()) < self.spec_height(),
    ;

    /// Returns the expressions that the node holds.
    fn expressions(&self) -> (expressions: Vec<Expr>)
        ensures
            exprs_model(expressions@) == self.spec_expressions(),
    ;

    /// Returns the schema that the node produces.
    fn schema(&self) -> (schema: &Arc<DFSchema>)
        ensures
            (**schema)@ == self.spec_schema(),
    ;

    /// Writes the node, without its inputs, for `EXPLAIN`.
    fn fmt_for_explain(&self) -> (text: String)
        ensures
            text@ == self.spec_text(),
    ;

    /// Makes a node like this one with other expressions and inputs.
    fn from_template(&self, exprs: &[Expr], inputs: &[LogicalPlan<Self>]) -> Arc<Self>;
}

/// The expressions of a join: both columns of the first pair, both of the second, and so on.
pub open spec fn join_expressions(on: Seq<(ColumnModel, ColumnModel)>) -> Seq<ExprModel> {
    Seq::new(
        2 * on.len(),
        |i: int|
            ExprModel::Column(
                if i % 2 == 0 {
                    on[i / 2].0
                } else {
                    on[i / 2].1
                },
            ),
    )
}

/// The expressions that a plan node itself holds, without those of its inputs.
pub open spec fn plan_expressions<N: UserDefinedLogicalNode>(plan: PlanModel<N>) -> Seq<ExprModel> {
    match plan {
        PlanModel::Projection { expr, .. } => expr,
        PlanModel::Filter { predicate, .. } => seq![predicate],
        PlanModel::Repartition { partitioning_scheme, .. } => match partitioning_scheme {
            PartitioningModel::Hash(expr, _) => expr,
            PartitioningModel::RoundRobinBatch(_) => Seq::empty(),
        },
        PlanModel::Window { window_expr, .. } => window_expr,
        PlanModel::Aggregate { group_expr, aggr_expr, .. } => group_expr + aggr_expr,
        PlanModel::Join { on, .. } => join_expressions(on),
        PlanModel::Sort { expr, .. } => expr,
        PlanModel::Extension { node } => node.spec_expressions(),
        PlanModel::TableScan { .. }
        | PlanModel::EmptyRelation { .. }
        | PlanModel::Limit { .. }
        | PlanModel::CreateExternalTable { .. }
        | PlanModel::CrossJoin { .. }
        | PlanModel::Explain { .. }
        | PlanModel::Union { .. } => Seq::empty(),
    }
}

/// The plans right below a plan node.
pub open spec fn plan_inputs<N: UserDefinedLogicalNode>(plan: PlanModel<N>) -> Seq<PlanModel<N>> {
    match plan {
        PlanModel::Projection { input, .. } => seq![*input],
        PlanModel::Filter { input, .. } => seq![*input],
        PlanModel::Repartition { input, .. } => seq![*input],
        PlanModel::Window { input, .. } => seq![*input],
        PlanModel::Aggregate { input, .. } => seq![*input],
        PlanModel::Sort { input, .. } => seq![*input],
        PlanModel::Limit { input, .. } => seq![*input],
        PlanModel::Join { left, right, .. } => seq![*left, *right],
        PlanModel::CrossJoin { left, right, .. } => seq![*left, *right],
        PlanModel::Union { inputs, .. } => inputs,
        PlanModel::Explain { plan: explained, .. } => seq![*explained],
        PlanModel::Extension { node } => node.spec_inputs(),
        PlanModel::TableScan { .. }
        | PlanModel::EmptyRelation { .. }
        | PlanModel::CreateExternalTable { .. } => Seq::empty(),
    }
}

/// How many steps stand on top of one another from the root of a plan downwards.
pub open spec fn plan_height<N: Layered>(plan: PlanModel<N>) -> nat
    decreases plan,
{
    match plan {
        PlanModel::Projection { input, .. } => plan_height(*input) + 1,
        PlanModel::Filter { input, .. } => plan_height(*input) + 1,
        PlanModel::Repartition { input, .. } => plan_height(*input) + 1,
        PlanModel::Window { input, .. } => plan_height(*input) + 1,
        PlanModel::Aggregate { input, .. } => plan_height(*input) + 1,
        PlanModel::Sort { input, .. } => plan_height(*input) + 1,
        PlanModel::Limit { input, .. } => plan_height(*input) + 1,
        PlanModel::Explain { plan: explained, .. } => plan_height(*explained) + 1,
        PlanModel::Join { left, right, .. } => higher(plan_height(*left), plan_height(*right)) + 1,
        PlanModel::CrossJoin { left, right, .. } => higher(plan_height(*left), plan_height(*right))
            + 1,
        PlanModel::Union { inputs, .. } => plans_height(inputs) + 1,
        PlanModel::TableScan { .. }
        | PlanModel::EmptyRelation { .. }
        | PlanModel::CreateExternalTable { .. } => 1,
        PlanModel::Extension { node } => node.spec_height(),
    }
}

/// The larger of two heights.
pub open spec fn higher(left: nat, right: nat) -> nat {
    if left <= right {
        right
    } else {
        left
    }
}

/// The height of the highest of the plans.
pub open spec fn plans_height<N: Layered>(plans: Seq<PlanModel<N>>) -> nat
    decreases plans,
{
    if plans.len() == 0 {
        0
    } else {
        higher(plans_height(plans.drop_last()), plan_height(plans.last()))
    }
}

proof fn lemma_inputs_are_lower<N: UserDefinedLogicalNode>(plan: PlanModel<N>)
    requires
        plan !is Extension,
    ensures
        plans_height(plan_inputs(plan)) < plan_height(plan),
{
    reveal_with_fuel(plans_height, 3);
}

/// The fields that a plan produces.
pub open spec fn plan_schema<N: UserDefinedLogicalNode>(plan: PlanModel<N>) -> Seq<DFFieldModel>
    decreases plan,
{
    match plan {
        PlanModel::Projection { schema, .. } => schema,
        PlanModel::Window { schema, .. } => schema,
        PlanModel::Aggregate { schema, .. } => schema,
        PlanModel::Join { schema, .. } => schema,
        PlanModel::CrossJoin { schema, .. } => schema,
        PlanModel::Union { schema, .. } => schema,
        PlanModel::TableScan { projected_schema, .. } => projected_schema,
        PlanModel::EmptyRelation { schema, .. } => schema,
        PlanModel::CreateExternalTable { schema, .. } => schema,
        PlanModel::Explain { schema, .. } => schema,
        PlanModel::Filter { input, .. } => plan_schema(*input),
        PlanModel::Sort { input, .. } => plan_schema(*input),
        PlanModel::Repartition { input, .. } => plan_schema(*input),
        PlanModel::Limit { input, .. } => plan_schema(*input),
        PlanModel::Extension { node } => node.spec_schema(),
    }
}

fn column_exprs(on: &Vec<(Column, Column)>) -> (exprs: Vec<Expr>)
    ensures
        exprs_model(exprs@) == join_expressions(join_keys_model(on@)),
{
    broadcast use group_exprs_model;

    let mut exprs: Vec<Expr> = Vec::new();
    let ghost all = join_keys_model(on@);
    assert(exprs_model(exprs@) =~= join_expressions(all.take(0)));
    let mut i: usize = 0;
    while i < on.len()
        invariant
            i <= on@.len(),
            all == join_keys_model(on@),
            exprs_model(exprs@) == join_expressions(all.take(i as int)),
        decreases on.len() - i,
    {
        let left = Expr::Column(on[i].0.clone());
        let right = Expr::Column(on[i].1.clone());
        proof {
            lemma_exprs_model_push(exprs@, left);
            lemma_exprs_model_push(exprs@.push(left), right);
            assert(join_expressions(all.take(i + 1)) =~= join_expressions(all.take(i as int)).push(
                left@,
            ).push(right@));
        }
        exprs.push(left);
        exprs.push(right);
        i += 1;
    }
    assert(all.take(i as int) =~= all);
    exprs
}

fn one_input<'a, N>(input: &'a Arc<LogicalPlan<N>>) -> (inputs: Vec<&'a LogicalPlan<N>>)
    ensures
        borrowed_model(inputs@) == seq![(**input)@],
{
    let mut inputs: Vec<&'a LogicalPlan<N>> = Vec::new();
    inputs.push(&**input);
    assert(borrowed_model(inputs@) =~= seq![(**input)@]);
    inputs
}

fn two_inputs<'a, N>(left: &'a Arc<LogicalPlan<N>>, right: &'a Arc<LogicalPlan<N>>) -> (inputs: Vec<
    &'a LogicalPlan<N>,
>)
    ensures
        borrowed_model(inputs@) == seq![(**left)@, (**right)@],
{
    let mut inputs: Vec<&'a LogicalPlan<N>> = Vec::new();
    inputs.push(&**left);
    inputs.push(&**right);
    assert(borrowed_model(inputs@) =~= seq![(**left)@, (**right)@]);
    inputs
}

fn borrow_all<'a, N>(plans: &'a Vec<LogicalPlan<N>>) -> (inputs: Vec<&'a LogicalPlan<N>>)
    ensures
        borrowed_model(inputs@) == plans_model(plans@),
{
    let mut inputs: Vec<&'a LogicalPlan<N>> = Vec::new();
    let mut i: usize = 0;
    while i < plans.len()
        invariant
            i <= plans@.len(),
            inputs@.len() == i,
            forall|j: int| 0 <= j < i ==> *(#[trigger] inputs@[j]) == plans@[j],
        decreases plans.len() - i,
    {
        inputs.push(&plans[i]);
        i += 1;
    }
    assert(borrowed_model(inputs@) =~= plans_model(plans@));
    inputs
}

impl<N: UserDefinedLogicalNode> LogicalPlan<N> {
    /// Returns the expressions that the node itself holds.
    pub fn expressions(&self) -> (expressions: Vec<Expr>)
        ensures
            exprs_model(expressions@) == plan_expressions(self@),
    {
        broadcast use group_exprs_model;

        match self {
            LogicalPlan::Projection { expr, .. } => clone_exprs(expr.as_slice()),
            LogicalPlan::Filter { predicate, .. } => {
                let mut expressions: Vec<Expr> = Vec::new();
                expressions.push(predicate.clone());
                assert(exprs_model(expressions@) =~= seq![predicate@]);
                expressions
            },
            LogicalPlan::Repartition { partitioning_scheme, .. } => match partitioning_scheme {
                Partitioning::Hash(expr, _) => clone_exprs(expr.as_slice()),
                Partitioning::RoundRobinBatch(_) => Vec::new(),
            },
            LogicalPlan::Window { window_expr, .. } => clone_exprs(window_expr.as_slice()),
            LogicalPlan::Aggregate { group_expr, aggr_expr, .. } => {
                let mut expressions = clone_exprs(group_expr.as_slice());
                let mut aggregates = clone_exprs(aggr_expr.as_slice());
                expressions.append(&mut aggregates);
                expressions
            },
            LogicalPlan::Join { on, .. } => column_exprs(on),
            LogicalPlan::Sort { expr, .. } => clone_exprs(expr.as_slice()),
            LogicalPlan::Extension { node } => node.expressions(),
            LogicalPlan::TableScan { .. }
            | LogicalPlan::EmptyRelation { .. }
            | LogicalPlan::Limit { .. }
            | LogicalPlan::CreateExternalTable { .. }
            | LogicalPlan::CrossJoin { .. }
            | LogicalPlan::Explain { .. }
            | LogicalPlan::Union { .. } => Vec::new(),
        }
    }

    /// Returns the plans right below the node, all of them lower than the plan itself.
    pub fn inputs(&self) -> (inputs: Vec<&LogicalPlan<N>>)
        ensures
            borrowed_model(inputs@) == plan_inputs(self@),
            plans_height(plan_inputs(self@)) < plan_height(self@),
    {
        proof {
            if self@ !is Extension {
                lemma_inputs_are_lower(self@);
            }
        }
        match self {
            LogicalPlan::Projection { input, .. } => one_input(input),
            LogicalPlan::Filter { input, .. } => one_input(input),
            LogicalPlan::Repartition { input, .. } => one_input(input),
            LogicalPlan::Window { input, .. } => one_input(input),
            LogicalPlan::Aggregate { input, .. } => one_input(input),
            LogicalPlan::Sort { input, .. } => one_input(input),
            LogicalPlan::Join { left, right, .. } => two_inputs(left, right),
            LogicalPlan::CrossJoin { left, right, .. } => two_inputs(left, right),
            LogicalPlan::Limit { input, .. } => one_input(input),
            LogicalPlan::Extension { node } => node.inputs(),
            LogicalPlan::Union { inputs, .. } => borrow_all(inputs),
            LogicalPlan::Explain { plan, .. } => one_input(plan),
            LogicalPlan::TableScan { .. }
            | LogicalPlan::EmptyRelation { .. }
            | LogicalPlan::CreateExternalTable { .. } => {
                let inputs: Vec<&LogicalPlan<N>> = Vec::new();
                assert(borrowed_model(inputs@) =~= Seq::<PlanModel<N>>::empty());
                inputs
            },
        }
    }

    /// Returns the schema that the plan produces.
    pub fn schema(&self) -> (schema: &Arc<DFSchema>)
        ensures
            (**schema)@ == plan_schema(self@),
        decreases self,
    {
        match self {
            LogicalPlan::EmptyRelation { schema, .. } => schema,
            LogicalPlan::TableScan { projected_schema, .. } => projected_schema,
            LogicalPlan::Projection { schema, .. } => schema,
            LogicalPlan::Filter { input, .. } => input.schema(),
            LogicalPlan::Window { schema, .. } => schema,
            LogicalPlan::Aggregate { schema, .. } => schema,
            LogicalPlan::Sort { input, .. } => input.schema(),
            LogicalPlan::Join { schema, .. } => schema,
            LogicalPlan::CrossJoin { schema, .. } => schema,
            LogicalPlan::Repartition { input, .. } => input.schema(),
            LogicalPlan::Limit { input, .. } => input.schema(),
            LogicalPlan::CreateExternalTable { schema, .. } => schema,
            LogicalPlan::Explain { schema, .. } => schema,
            LogicalPlan::Extension { node } => node.schema(),
            LogicalPlan::Union { schema, .. } => schema,
        }
    }
}

/// Puts plans together step by step.
pub struct LogicalPlanBuilder<N> {
    plan: LogicalPlan<N>,
}

impl<N> View for LogicalPlanBuilder<N> {
    type V = PlanModel<N>;

    closed spec fn view(&self) -> PlanModel<N> {
        self.plan@
    }
}

/// The cross join of two plans, unless the fields of both together make no schema.
pub open spec fn cross_joined<N: UserDefinedLogicalNode>(
    left: PlanModel<N>,
    right: PlanModel<N>,
) -> Result<PlanModel<N>, ErrorModel> {
    match checked_schema(plan_schema(left) + plan_schema(right)) {
        Ok(schema) => Ok(
            PlanModel::CrossJoin { left: Box::new(left), right: Box::new(right), schema },
        ),
        Err(error) => Err(error),
    }
}

impl<N: UserDefinedLogicalNode> LogicalPlanBuilder<N> {
    /// Starts from a plan.
    pub fn from(plan: LogicalPlan<N>) -> (builder: LogicalPlanBuilder<N>)
        ensures
            builder@ == plan@,
    {
        LogicalPlanBuilder { plan }
    }

    /// Starts from a relation without columns, of no row or of one.
    pub fn empty(produce_one_row: bool) -> (builder: LogicalPlanBuilder<N>)
        ensures
            builder@ == (PlanModel::<N>::EmptyRelation {
                produce_one_row,
                schema: Seq::<DFFieldModel>::empty(),
            }),
    {
        LogicalPlanBuilder {
            plan: LogicalPlan::EmptyRelation {
                produce_one_row,
                schema: Arc::new(DFSchema::empty()),
            },
        }
    }

    /// Joins every row with every row of another plan.
    pub fn cross_join(self, right: &LogicalPlan<N>) -> (result: Result<
        LogicalPlanBuilder<N>,
        DataFusionError,
    >)
        ensures
            outcome(result) == cross_joined(self@, right@),
    {
        let schema = self.plan.schema().join(right.schema())?;
        Ok(
            LogicalPlanBuilder {
                plan: LogicalPlan::CrossJoin {
                    left: Arc::new(self.plan),
                    right: Arc::new(right.clone()),
                    schema: Arc::new(schema),
                },
            },
        )
    }

    /// Hands the plan out.
    pub fn build(self) -> (result: Result<LogicalPlan<N>, DataFusionError>)
        ensures
            outcome(result) == Ok::<PlanModel<N>, ErrorModel>(self@),
    {
        Ok(self.plan)
    }
}

/// Plans with the same model are of the same type and the same in every part.
pub proof fn law_model_tells_plans_apart<N>(left: LogicalPlan<N>, right: LogicalPlan<N>)
    requires
        left@ == right@,
    ensures
        match (left, right) {
            (
                LogicalPlan::Projection { expr: l, input: l_in, schema: l_schema },
                LogicalPlan::Projection { expr: r, input: r_in, schema: r_schema },
            ) => {
                &&& exprs_model(l@) == exprs_model(r@)
                &&& (*l_in)@ == (*r_in)@
                &&& (*l_schema)@ == (*r_schema)@
            },
            (
                LogicalPlan::Filter { predicate: l, input: l_in },
                LogicalPlan::Filter { predicate: r, input: r_in },
            ) => l@ == r@ && (*l_in)@ == (*r_in)@,
            (
                LogicalPlan::Window { input: l_in, window_expr: l, schema: l_schema },
                LogicalPlan::Window { input: r_in, window_expr: r, schema: r_schema },
            ) => {
                &&& exprs_model(l@) == exprs_model(r@)
                &&& (*l_in)@ == (*r_in)@
                &&& (*l_schema)@ == (*r_schema)@
            },
            (
                LogicalPlan::Aggregate {
                    input: l_in,
                    group_expr: l,
                    aggr_expr: l_aggr,
                    schema: l_schema,
                },
                LogicalPlan::Aggregate {
                    input: r_in,
                    group_expr: r,
                    aggr_expr: r_aggr,
                    schema: r_schema,
                },
            ) => {
                &&& exprs_model(l@) == exprs_model(r@)
                &&& exprs_model(l_aggr@) == exprs_model(r_aggr@)
                &&& (*l_in)@ == (*r_in)@
                &&& (*l_schema)@ == (*r_schema)@
            },
            (
                LogicalPlan::Sort { expr: l, input: l_in },
                LogicalPlan::Sort { expr: r, input: r_in },
            ) => exprs_model(l@) == exprs_model(r@) && (*l_in)@ == (*r_in)@,
            (
                LogicalPlan::Join {
                    left: l1,
                    right: l2,
                    on: l_on,
                    join_type: l_type,
                    join_constraint: l_constraint,
                    schema: l_schema,
                },
                LogicalPlan::Join {
                    left: r1,
                    right: r2,
                    on: r_on,
                    join_type: r_type,
                    join_constraint: r_constraint,
                    schema: r_schema,
                },
            ) => {
                &&& (*l1)@ == (*r1)@
                &&& (*l2)@ == (*r2)@
                &&& l_on@.len() == r_on@.len()
                &&& forall|i: int|
                    0 <= i < l_on@.len() ==> (#[trigger] l_on@[i]).0@ == r_on@[i].0@ && l_on@[i].1@
                        == r_on@[i].1@
                &&& l_type == r_type
                &&& l_constraint == r_constraint
                &&& (*l_schema)@ == (*r_schema)@
            },
            (
                LogicalPlan::CrossJoin { left: l1, right: l2, schema: l_schema },
                LogicalPlan::CrossJoin { left: r1, right: r2, schema: r_schema },
            ) => (*l1)@ == (*r1)@ && (*l2)@ == (*r2)@ && (*l_schema)@ == (*r_schema)@,
            (
                LogicalPlan::Repartition { input: l_in, partitioning_scheme: l },
                LogicalPlan::Repartition { input: r_in, partitioning_scheme: r },
            ) => {
                &&& (*l_in)@ == (*r_in)@
                &&& match (l, r) {
                    (
                        Partitioning::RoundRobinBatch(l_n),
                        Partitioning::RoundRobinBatch(r_n),
                    ) => l_n == r_n,
                    (Partitioning::Hash(l_exprs, l_n), Partitioning::Hash(r_exprs, r_n)) => {
                        &&& exprs_model(l_exprs@) == exprs_model(r_exprs@)
                        &&& l_n == r_n
                    },
                    _ => false,
                }
            },
            (
                LogicalPlan::Union { inputs: l, schema: l_schema, alias: l_alias },
                LogicalPlan::Union { inputs: r, schema: r_schema, alias: r_alias },
            ) => {
                &&& l@.len() == r@.len()
                &&& forall|i: int| 0 <= i < l@.len() ==> (#[trigger] l@[i])@ == r@[i]@
                &&& (*l_schema)@ == (*r_schema)@
                &&& l_alias is Some <==> r_alias is Some
                &&& l_alias is Some ==> l_alias->0@ == r_alias->0@
            },
            (
                LogicalPlan::TableScan {
                    table_name: l_name,
                    source: l_source,
                    projection: l,
                    projected_schema: l_schema,
                    filters: l_filters,
                    limit: l_limit,
                },
                LogicalPlan::TableScan {
                    table_name: r_name,
                    source: r_source,
                    projection: r,
                    projected_schema: r_schema,
                    filters: r_filters,
                    limit: r_limit,
                },
            ) => {
                &&& l_name@ == r_name@
                &&& l_source.id == r_source.id
                &&& l is Some <==> r is Some
                &&& l is Some ==> l->0@ == r->0@
                &&& (*l_schema)@ == (*r_schema)@
                &&& exprs_model(l_filters@) == exprs_model(r_filters@)
                &&& l_limit == r_limit
            },
            (
                LogicalPlan::EmptyRelation { produce_one_row: l, schema: l_schema },
                LogicalPlan::EmptyRelation { produce_one_row: r, schema: r_schema },
            ) => l == r && (*l_schema)@ == (*r_schema)@,
            (
                LogicalPlan::Limit { n: l, input: l_in },
                LogicalPlan::Limit { n: r, input: r_in },
            ) => l == r && (*l_in)@ == (*r_in)@,
            (
                LogicalPlan::CreateExternalTable {
                    schema: l_schema,
                    name: l_name,
                    location: l_location,
                    file_type: l_type,
                    has_header: l_header,
                },
                LogicalPlan::CreateExternalTable {
                    schema: r_schema,
                    name: r_name,
                    location: r_location,
                    file_type: r_type,
                    has_header: r_header,
                },
            ) => {
                &&& (*l_schema)@ == (*r_schema)@
                &&& l_name@ == r_name@
                &&& l_location@ == r_location@
                &&& l_type == r_type
                &&& l_header == r_header
            },
            (
                LogicalPlan::Explain {
                    verbose: l_verbose,
                    plan: l_in,
                    stringified_plans: l,
                    schema: l_schema,
                },
                LogicalPlan::Explain {
                    verbose: r_verbose,
                    plan: r_in,
                    stringified_plans: r,
                    schema: r_schema,
                },
            ) => {
                &&& l_verbose == r_verbose
                &&& (*l_in)@ == (*r_in)@
                &&& l@.len() == r@.len()
                &&& forall|i: int|
                    0 <= i < l@.len() ==> (#[trigger] l@[i]).plan_type@ == r@[i].plan_type@ && (
                    *l@[i].plan)@ == (*r@[i].plan)@
                &&& (*l_schema)@ == (*r_schema)@
            },
            (LogicalPlan::Extension { node: l }, LogicalPlan::Extension { node: r }) => *l == *r,
            _ => false,
        },
{
    match (left, right) {
        (LogicalPlan::Join { on: l, .. }, LogicalPlan::Join { on: r, .. }) => {
            assert(join_keys_model(l@).len() == l@.len());
            assert(join_keys_model(r@).len() == r@.len());
            assert forall|i: int| 0 <= i < l@.len() implies (#[trigger] l@[i]).0@ == r@[i].0@
                && l@[i].1@ == r@[i].1@ by {
                assert(join_keys_model(l@)[i] == join_keys_model(r@)[i]);
            }
        },
        (LogicalPlan::Union { inputs: l, .. }, LogicalPlan::Union { inputs: r, .. }) => {
            assert(plans_model(l@).len() == l@.len());
            assert(plans_model(r@).len() == r@.len());
            assert forall|i: int| 0 <= i < l@.len() implies (#[trigger] l@[i])@ == r@[i]@ by {
                assert(plans_model(l@)[i] == plans_model(r@)[i]);
            }
        },
        (
            LogicalPlan::Explain { stringified_plans: l, .. },
            LogicalPlan::Explain { stringified_plans: r, .. },
        ) => {
            assert(stringified_model(l@).len() == l@.len());
            assert(stringified_model(r@).len() == r@.len());
            assert forall|i: int| 0 <= i < l@.len() implies (#[trigger] l@[i]).plan_type@
                == r@[i].plan_type@ && (*l@[i].plan)@ == (*r@[i].plan)@ by {
                assert(stringified_model(l@)[i] == stringified_model(r@)[i]);
            }
        },
        _ => {},
    }
}

/// Plan texts with the same model are of the same stage and say the same.
pub proof fn law_model_tells_texts_apart(left: StringifiedPlan, right: StringifiedPlan)
    requires
        left@ == right@,
    ensures
        (*left.plan)@ == (*right.plan)@,
        match (left.plan_type, right.plan_type) {
            (PlanType::LogicalPlan, PlanType::LogicalPlan) => true,
            (
                PlanType::OptimizedLogicalPlan { optimizer_name: l },
                PlanType::OptimizedLogicalPlan { optimizer_name: r },
            ) => l@ == r@,
            (PlanType::PhysicalPlan, PlanType::PhysicalPlan) => true,
            _ => false,
        },
{
}

} // verus!
