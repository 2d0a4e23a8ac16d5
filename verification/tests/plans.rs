use arrow::datatypes::{DataType, Field as ArrowField, Schema};
use plan_rewrite::error::DataFusionError;
use plan_rewrite::expr::{lit, AggregateFunction, Column, Expr, Operator};
use plan_rewrite::optimize::{
    explain_optimized, optimize_children, optimize_explain, ExecutionProps, OptimizerRule,
};
use plan_rewrite::plan::{
    FileType, JoinConstraint, Layered, LogicalPlan, LogicalPlanBuilder, Partitioning, PlanType,
    StringifiedPlan, TableSource, UserDefinedLogicalNode,
};
use plan_rewrite::rebuild::from_plan;
use plan_rewrite::schema::{build_join_schema, DFField, DFSchema, Field, JoinType};
use std::collections::BTreeMap;
use std::sync::Arc;

/// Keeps the largest rows by an expression.
#[derive(Debug, PartialEq, Eq)]
struct TopNode {
    k: usize,
    by: Expr,
    input: LogicalPlan<TopNode>,
}

impl Layered for TopNode {}

impl UserDefinedLogicalNode for TopNode {
    fn inputs(&self) -> Vec<&LogicalPlan<TopNode>> {
        vec![&self.input]
    }

    fn expressions(&self) -> Vec<Expr> {
        vec![self.by.clone()]
    }

    fn schema(&self) -> &Arc<DFSchema> {
        self.input.schema()
    }

    fn fmt_for_explain(&self) -> String {
        format!("Top: k={}, by={}", self.k, self.by.text())
    }

    fn from_template(&self, exprs: &[Expr], inputs: &[LogicalPlan<TopNode>]) -> Arc<TopNode> {
        Arc::new(TopNode { k: self.k, by: exprs[0].clone(), input: inputs[0].clone() })
    }
}

type Plan = LogicalPlan<TopNode>;

fn col(name: &str) -> Expr {
    Expr::Column(Column::from_name(name.to_owned()))
}

fn key(relation: &str, name: &str) -> Column {
    Column { relation: Some(relation.to_owned()), name: name.to_owned() }
}

fn field(name: &str) -> Field {
    Field {
        name: name.to_owned(),
        data_type: DataType::Int32,
        nullable: true,
        dict_id: None,
        dict_is_ordered: None,
        metadata: None,
    }
}

fn of(relation: &str, name: &str) -> DFField {
    DFField { qualifier: Some(relation.to_owned()), field: field(name) }
}

fn of_none(name: &str) -> DFField {
    DFField { qualifier: None, field: field(name) }
}

fn schema(fields: Vec<DFField>) -> Arc<DFSchema> {
    Arc::new(DFSchema::new(fields).unwrap())
}

/// A scan of a table with one column.
fn scan(table: &str, column: &str) -> Plan {
    LogicalPlan::TableScan {
        table_name: table.to_owned(),
        source: TableSource { id: 1 },
        projection: Some(vec![0]),
        projected_schema: schema(vec![of(table, column)]),
        filters: vec![],
        limit: None,
    }
}

fn join(join_type: JoinType, left: Plan, right: Plan, recorded: Arc<DFSchema>) -> Plan {
    LogicalPlan::Join {
        left: Arc::new(left),
        right: Arc::new(right),
        on: vec![(key("t", "a"), key("u", "b"))],
        join_type,
        join_constraint: JoinConstraint::On,
        schema: recorded,
    }
}

fn props() -> ExecutionProps {
    ExecutionProps { query_execution_start_time: 0 }
}

fn plan_error(message: &str) -> DataFusionError {
    DataFusionError::Plan(message.to_owned())
}

/// One node of each type that has expressions or inputs, over scans, each with a schema that
/// fits its inputs.
fn nodes() -> Vec<Plan> {
    let recorded = schema(vec![of("t", "a")]);
    let input = Arc::new(scan("t", "a"));
    vec![
        LogicalPlan::Projection {
            expr: vec![col("a"), lit("x")],
            input: input.clone(),
            schema: recorded.clone(),
        },
        LogicalPlan::Filter { predicate: Expr::IsNull(Box::new(col("a"))), input: input.clone() },
        LogicalPlan::Window {
            input: input.clone(),
            window_expr: vec![col("a"), col("b")],
            schema: recorded.clone(),
        },
        LogicalPlan::Aggregate {
            input: input.clone(),
            group_expr: vec![col("a")],
            aggr_expr: vec![col("b"), col("c")],
            schema: recorded.clone(),
        },
        LogicalPlan::Sort { expr: vec![col("a")], input: input.clone() },
        join(
            JoinType::Inner,
            scan("t", "a"),
            scan("u", "b"),
            schema(vec![of("t", "a"), of("u", "b")]),
        ),
        join(JoinType::Semi, scan("t", "a"), scan("u", "b"), schema(vec![of("t", "a")])),
        LogicalPlan::CrossJoin {
            left: Arc::new(scan("t", "a")),
            right: Arc::new(scan("u", "b")),
            schema: schema(vec![of("t", "a"), of("u", "b")]),
        },
        LogicalPlan::Repartition {
            input: input.clone(),
            partitioning_scheme: Partitioning::RoundRobinBatch(3),
        },
        LogicalPlan::Repartition {
            input: input.clone(),
            partitioning_scheme: Partitioning::Hash(vec![col("a"), col("b")], 4),
        },
        LogicalPlan::Union {
            inputs: vec![scan("t", "a"), scan("u", "a"), scan("v", "a")],
            schema: recorded.clone(),
            alias: Some("all".to_owned()),
        },
        LogicalPlan::Limit { n: 10, input: input.clone() },
        scan("t", "a"),
        LogicalPlan::EmptyRelation { produce_one_row: true, schema: recorded.clone() },
        LogicalPlan::CreateExternalTable {
            schema: recorded,
            name: "t".to_owned(),
            location: "/data/t.csv".to_owned(),
            file_type: FileType::CSV,
            has_header: true,
        },
        LogicalPlan::Extension {
            node: Arc::new(TopNode { k: 5, by: col("a"), input: scan("t", "a") }),
        },
    ]
}

fn inputs_of(plan: &Plan) -> Vec<Plan> {
    plan.inputs().into_iter().cloned().collect()
}

/// Leaves a plan as it is.
struct TestOptimizer {}

impl OptimizerRule for TestOptimizer {
    type Node = TopNode;

    fn optimize(&self, plan: &Plan, _: &ExecutionProps) -> Result<Plan, DataFusionError> {
        Ok(plan.clone())
    }

    fn name(&self) -> &str {
        "test_optimizer"
    }
}

/// Puts a limit over a plan.
struct Limiter {}

impl OptimizerRule for Limiter {
    type Node = TopNode;

    fn optimize(&self, plan: &Plan, _: &ExecutionProps) -> Result<Plan, DataFusionError> {
        Ok(LogicalPlan::Limit { n: 1, input: Arc::new(plan.clone()) })
    }

    fn name(&self) -> &str {
        "limiter"
    }
}

/// Fails on every scan, with the name of the table.
struct Failing {}

impl OptimizerRule for Failing {
    type Node = TopNode;

    fn optimize(&self, plan: &Plan, _: &ExecutionProps) -> Result<Plan, DataFusionError> {
        match plan {
            LogicalPlan::TableScan { table_name, .. } => {
                Err(DataFusionError::NotImplemented(table_name.clone()))
            }
            other => Ok(other.clone()),
        }
    }

    fn name(&self) -> &str {
        "failing"
    }
}

fn explain_schema() -> Schema {
    Schema::new(vec![
        ArrowField::new("plan_type", DataType::Utf8, false),
        ArrowField::new("plan", DataType::Utf8, false),
    ])
}

#[test]
fn test_optimize_explain() -> Result<(), DataFusionError> {
    let optimizer = TestOptimizer {};

    let empty_plan = LogicalPlanBuilder::<TopNode>::empty(false).build()?;
    let schema = explain_schema();

    let optimized_explain = optimize_explain(
        &optimizer,
        true,
        &empty_plan,
        &[StringifiedPlan::new(PlanType::LogicalPlan, "...".to_owned())],
        &schema,
        &props(),
    )?;

    match &optimized_explain {
        LogicalPlan::Explain { verbose, stringified_plans, .. } => {
            assert!(*verbose);

            let expected_stringified_plans = vec![
                StringifiedPlan::new(PlanType::LogicalPlan, "...".to_owned()),
                StringifiedPlan::new(
                    PlanType::OptimizedLogicalPlan {
                        optimizer_name: "test_optimizer".to_owned(),
                    },
                    "EmptyRelation".to_owned(),
                ),
            ];
            assert_eq!(*stringified_plans, expected_stringified_plans);
        }
        _ => panic!("Expected explain plan but got {:?}", optimized_explain),
    }

    Ok(())
}

#[test]
fn explain_takes_the_fields_of_the_schema() {
    let mut entries = BTreeMap::new();
    entries.insert("z".to_owned(), "1".to_owned());
    entries.insert("y".to_owned(), "2".to_owned());
    let mut noted = ArrowField::new("noted", DataType::Float64, true);
    noted.set_metadata(Some(entries));
    let words = DataType::Dictionary(Box::new(DataType::Int8), Box::new(DataType::Utf8));
    let schema = Schema::new(vec![
        ArrowField::new("plain", DataType::Utf8, false),
        noted,
        ArrowField::new_dict("word", words.clone(), true, 7, true),
    ]);
    let plan = scan("t", "a");
    let explained =
        optimize_explain(&TestOptimizer {}, false, &plan, &[], &schema, &props()).unwrap();
    let expected = vec![
        DFField {
            qualifier: None,
            field: Field {
                name: "plain".to_owned(),
                data_type: DataType::Utf8,
                nullable: false,
                dict_id: None,
                dict_is_ordered: None,
                metadata: None,
            },
        },
        DFField {
            qualifier: None,
            field: Field {
                name: "noted".to_owned(),
                data_type: DataType::Float64,
                nullable: true,
                dict_id: None,
                dict_is_ordered: None,
                metadata: Some(vec![
                    ("y".to_owned(), "2".to_owned()),
                    ("z".to_owned(), "1".to_owned()),
                ]),
            },
        },
        DFField {
            qualifier: None,
            field: Field {
                name: "word".to_owned(),
                data_type: words,
                nullable: true,
                dict_id: Some(7),
                dict_is_ordered: Some(true),
                metadata: None,
            },
        },
    ];
    assert_eq!(explained.schema().fields(), &expected);
    assert_eq!(inputs_of(&explained), vec![plan]);
}

#[test]
fn explain_fails_on_fields_of_one_name() {
    let schema = Schema::new(vec![
        ArrowField::new("plan", DataType::Utf8, false),
        ArrowField::new("plan", DataType::Int8, false),
    ]);
    assert_eq!(
        optimize_explain(&TestOptimizer {}, false, &scan("t", "a"), &[], &schema, &props()),
        Err(plan_error("Schema contains duplicate unqualified field name 'plan'"))
    );
}

#[test]
fn explain_hands_on_the_error_of_the_rule() {
    assert_eq!(
        optimize_explain(&Failing {}, true, &scan("t", "a"), &[], &explain_schema(), &props()),
        Err(DataFusionError::NotImplemented("t".to_owned()))
    );
}

#[test]
fn explaining_adds_one_text() {
    let before = [
        StringifiedPlan::new(PlanType::LogicalPlan, "first".to_owned()),
        StringifiedPlan::new(PlanType::PhysicalPlan, "second".to_owned()),
    ];
    let limit: Plan = LogicalPlan::Limit { n: 7, input: Arc::new(scan("t", "a")) };
    let explained =
        explain_optimized(false, limit.clone(), "rule", &before, vec![field("plan")]).unwrap();
    let mut texts = before.to_vec();
    texts.push(StringifiedPlan::new(
        PlanType::OptimizedLogicalPlan { optimizer_name: "rule".to_owned() },
        "Limit: 7\n  TableScan: t projection=Some([0])".to_owned(),
    ));
    assert_eq!(
        explained,
        LogicalPlan::Explain {
            verbose: false,
            plan: Arc::new(limit),
            stringified_plans: texts,
            schema: schema(vec![of_none("plan")]),
        }
    );
}

#[test]
fn children_are_optimized_and_the_node_stays() {
    for plan in nodes() {
        let optimized = optimize_children(&Limiter {}, &plan, &props()).unwrap();
        let limited: Vec<Plan> = inputs_of(&plan)
            .into_iter()
            .map(|input| LogicalPlan::Limit { n: 1, input: Arc::new(input) })
            .collect();
        assert_eq!(inputs_of(&optimized), limited);
        assert_eq!(optimized.expressions(), plan.expressions());
        assert_eq!(optimized.schema(), plan.schema());
        assert_eq!(
            std::mem::discriminant(&optimized),
            std::mem::discriminant(&plan)
        );
    }
}

#[test]
fn idle_rule_changes_nothing() {
    for plan in nodes() {
        assert_eq!(optimize_children(&TestOptimizer {}, &plan, &props()), Ok(plan));
    }
}

#[test]
fn first_failing_child_decides() {
    let union: Plan = LogicalPlan::Union {
        inputs: vec![
            LogicalPlanBuilder::empty(false).build().unwrap(),
            scan("u", "a"),
            scan("v", "a"),
        ],
        schema: Arc::new(DFSchema::empty()),
        alias: None,
    };
    assert_eq!(
        optimize_children(&Failing {}, &union, &props()),
        Err(DataFusionError::NotImplemented("u".to_owned()))
    );
    assert_eq!(optimize_children(&Failing {}, &scan("t", "a"), &props()), Ok(scan("t", "a")));
}

#[test]
fn optimizing_an_explain_adds_a_text() {
    let texts = vec![StringifiedPlan::new(PlanType::LogicalPlan, "...".to_owned())];
    let explain: Plan = LogicalPlan::Explain {
        verbose: true,
        plan: Arc::new(scan("t", "a")),
        stringified_plans: texts.clone(),
        schema: schema(vec![of_none("plan_type"), of_none("plan")]),
    };
    let mut expected = texts;
    expected.push(StringifiedPlan::new(
        PlanType::OptimizedLogicalPlan { optimizer_name: "limiter".to_owned() },
        "Limit: 1\n  TableScan: t projection=Some([0])".to_owned(),
    ));
    assert_eq!(
        optimize_children(&Limiter {}, &explain, &props()),
        Ok(LogicalPlan::Explain {
            verbose: true,
            plan: Arc::new(LogicalPlan::Limit { n: 1, input: Arc::new(scan("t", "a")) }),
            stringified_plans: expected,
            schema: schema(vec![of_none("plan_type"), of_none("plan")]),
        })
    );
}

#[test]
fn optimizing_an_explain_drops_relations() {
    let explain: Plan = LogicalPlan::Explain {
        verbose: false,
        plan: Arc::new(scan("t", "a")),
        stringified_plans: vec![],
        schema: schema(vec![of("t", "plan_type"), of("u", "plan")]),
    };
    let optimized = optimize_children(&TestOptimizer {}, &explain, &props()).unwrap();
    assert_eq!(*optimized.schema(), schema(vec![of_none("plan_type"), of_none("plan")]));

    let clash: Plan = LogicalPlan::Explain {
        verbose: false,
        plan: Arc::new(scan("t", "a")),
        stringified_plans: vec![],
        schema: schema(vec![of("t", "plan"), of("u", "plan")]),
    };
    assert_eq!(
        optimize_children(&TestOptimizer {}, &clash, &props()),
        Err(plan_error("Schema contains duplicate unqualified field name 'plan'"))
    );
}

#[test]
fn optimizing_an_explain_describes_fields_of_relations_afresh() {
    let entries = Some(vec![("k".to_owned(), "v".to_owned())]);
    let word = |qualifier: Option<String>, name: &str, id: i64, ordered: bool| DFField {
        qualifier,
        field: Field {
            name: name.to_owned(),
            data_type: DataType::Dictionary(Box::new(DataType::Int8), Box::new(DataType::Utf8)),
            nullable: true,
            dict_id: Some(id),
            dict_is_ordered: Some(ordered),
            metadata: None,
        },
    };
    let mut kept = word(None, "kept", 3, true);
    kept.field.metadata = entries.clone();
    let mut afresh = word(Some("t".to_owned()), "afresh", 4, true);
    afresh.field.metadata = entries;
    let explain: Plan = LogicalPlan::Explain {
        verbose: false,
        plan: Arc::new(scan("t", "a")),
        stringified_plans: vec![],
        schema: schema(vec![kept.clone(), afresh]),
    };
    let optimized = optimize_children(&TestOptimizer {}, &explain, &props()).unwrap();
    assert_eq!(optimized.schema().fields(), &vec![kept, word(None, "afresh", 0, false)]);
}

#[test]
fn failing_rule_fails_an_explain() {
    let explain: Plan = LogicalPlan::Explain {
        verbose: false,
        plan: Arc::new(scan("t", "a")),
        stringified_plans: vec![],
        schema: schema(vec![of_none("plan")]),
    };
    assert_eq!(
        optimize_children(&Failing {}, &explain, &props()),
        Err(DataFusionError::NotImplemented("t".to_owned()))
    );
}

#[test]
fn own_parts_give_it_back() {
    for plan in nodes() {
        assert_eq!(from_plan(&plan, &plan.expressions(), &inputs_of(&plan)), Ok(plan));
    }
}

#[test]
fn rebuilt_has_given_parts() {
    for plan in nodes() {
        let exprs: Vec<Expr> =
            (0..plan.expressions().len()).map(|i| col(&format!("x{}", i))).collect();
        let inputs: Vec<Plan> =
            (0..plan.inputs().len()).map(|i| scan(&format!("r{}", i), "y")).collect();
        let rebuilt = from_plan(&plan, &exprs, &inputs).unwrap();
        assert_eq!(inputs_of(&rebuilt), inputs);
        match &plan {
            LogicalPlan::Join { .. } => assert_eq!(rebuilt.expressions(), plan.expressions()),
            _ => assert_eq!(rebuilt.expressions(), exprs),
        }
        match &plan {
            LogicalPlan::Projection { .. }
            | LogicalPlan::Window { .. }
            | LogicalPlan::Aggregate { .. }
            | LogicalPlan::Union { .. } => assert_eq!(rebuilt.schema(), plan.schema()),
            _ => {}
        }
    }
}

#[test]
fn parts_are_cut_by_the_old_lengths() {
    let recorded = schema(vec![of("t", "a")]);
    let aggregate: Plan = LogicalPlan::Aggregate {
        input: Arc::new(scan("t", "a")),
        group_expr: vec![col("a"), col("b")],
        aggr_expr: vec![col("c")],
        schema: recorded.clone(),
    };
    let exprs = vec![col("v"), col("w"), col("x"), col("y")];
    assert_eq!(
        from_plan(&aggregate, &exprs, &[scan("u", "b")]),
        Ok(LogicalPlan::Aggregate {
            input: Arc::new(scan("u", "b")),
            group_expr: vec![col("v"), col("w")],
            aggr_expr: vec![col("x"), col("y")],
            schema: recorded.clone(),
        })
    );
    let window: Plan = LogicalPlan::Window {
        input: Arc::new(scan("t", "a")),
        window_expr: vec![col("a")],
        schema: recorded.clone(),
    };
    assert_eq!(
        from_plan(&window, &exprs, &[scan("u", "b")]),
        Ok(LogicalPlan::Window {
            input: Arc::new(scan("u", "b")),
            window_expr: vec![col("v")],
            schema: recorded,
        })
    );
}

#[test]
fn partitioning_keeps_its_number() {
    let hash: Plan = LogicalPlan::Repartition {
        input: Arc::new(scan("t", "a")),
        partitioning_scheme: Partitioning::Hash(vec![col("a")], 8),
    };
    assert_eq!(
        from_plan(&hash, &[col("x"), col("y")], &[scan("u", "b")]),
        Ok(LogicalPlan::Repartition {
            input: Arc::new(scan("u", "b")),
            partitioning_scheme: Partitioning::Hash(vec![col("x"), col("y")], 8),
        })
    );
    let turn: Plan = LogicalPlan::Repartition {
        input: Arc::new(scan("t", "a")),
        partitioning_scheme: Partitioning::RoundRobinBatch(8),
    };
    assert_eq!(
        from_plan(&turn, &[col("x")], &[scan("u", "b")]),
        Ok(LogicalPlan::Repartition {
            input: Arc::new(scan("u", "b")),
            partitioning_scheme: Partitioning::RoundRobinBatch(8),
        })
    );
}

#[test]
fn explain_and_leaves_are_not_rebuilt() {
    let explain: Plan = LogicalPlan::Explain {
        verbose: true,
        plan: Arc::new(scan("t", "a")),
        stringified_plans: vec![],
        schema: schema(vec![of_none("plan")]),
    };
    assert_eq!(from_plan(&explain, &[col("x")], &[scan("u", "b")]), Ok(explain));
    assert_eq!(from_plan(&scan("t", "a"), &[col("x")], &[scan("u", "b")]), Ok(scan("t", "a")));
}

#[test]
fn union_takes_any_number_of_inputs() {
    let union: Plan = LogicalPlan::Union {
        inputs: vec![scan("t", "a")],
        schema: schema(vec![of("t", "a")]),
        alias: Some("all".to_owned()),
    };
    assert_eq!(
        from_plan(&union, &[], &[scan("u", "b"), scan("v", "c")]),
        Ok(LogicalPlan::Union {
            inputs: vec![scan("u", "b"), scan("v", "c")],
            schema: schema(vec![of("t", "a")]),
            alias: Some("all".to_owned()),
        })
    );
}

#[test]
fn join_works_its_schema_out_anew() {
    let stale = schema(vec![of_none("stale")]);
    for join_type in [JoinType::Inner, JoinType::Left, JoinType::Right, JoinType::Full] {
        let plan = join(join_type, scan("t", "a"), scan("u", "b"), stale.clone());
        assert_eq!(
            from_plan(&plan, &[], &[scan("v", "c"), scan("w", "d")]),
            Ok(join(
                join_type,
                scan("v", "c"),
                scan("w", "d"),
                schema(vec![of("v", "c"), of("w", "d")])
            ))
        );
    }
    for join_type in [JoinType::Semi, JoinType::Anti] {
        let plan = join(join_type, scan("t", "a"), scan("u", "b"), stale.clone());
        let rebuilt = from_plan(&plan, &[], &[scan("v", "c"), scan("w", "d")]).unwrap();
        assert_eq!(*rebuilt.schema(), schema(vec![of("v", "c")]));
    }
}

#[test]
fn join_of_a_plan_with_itself_fails() {
    let error = plan_error("Schema contains duplicate qualified field name 't.a'");
    let recorded = schema(vec![of("t", "a"), of("u", "b")]);
    let plan = join(JoinType::Inner, scan("t", "a"), scan("u", "b"), recorded.clone());
    assert_eq!(
        from_plan(&plan, &plan.expressions(), &[scan("t", "a"), scan("t", "a")]),
        Err(error)
    );
    let cross: Plan = LogicalPlan::CrossJoin {
        left: Arc::new(scan("t", "a")),
        right: Arc::new(scan("u", "b")),
        schema: recorded,
    };
    assert_eq!(
        from_plan(&cross, &[], &[scan("t", "a"), scan("t", "a")]),
        Err(plan_error("Schema contains duplicate qualified field name 't.a'"))
    );
    // A semi join has the fields of its left side only.
    let semi = join(JoinType::Semi, scan("t", "a"), scan("u", "b"), schema(vec![of("t", "a")]));
    assert!(from_plan(&semi, &[], &[scan("t", "a"), scan("t", "a")]).is_ok());
}

#[test]
fn users_node_makes_its_own_successor() {
    let plan: Plan = LogicalPlan::Extension {
        node: Arc::new(TopNode { k: 5, by: col("a"), input: scan("t", "a") }),
    };
    assert_eq!(
        from_plan(&plan, &[col("b")], &[scan("u", "b")]),
        Ok(LogicalPlan::Extension {
            node: Arc::new(TopNode { k: 5, by: col("b"), input: scan("u", "b") }),
        })
    );
}

#[test]
fn expressions_of_a_join_are_its_columns() {
    let mut plan = join(
        JoinType::Inner,
        scan("t", "a"),
        scan("u", "b"),
        schema(vec![of("t", "a"), of("u", "b")]),
    );
    if let LogicalPlan::Join { on, .. } = &mut plan {
        on.push((key("t", "c"), key("u", "d")));
    }
    assert_eq!(
        plan.expressions(),
        vec![
            Expr::Column(key("t", "a")),
            Expr::Column(key("u", "b")),
            Expr::Column(key("t", "c")),
            Expr::Column(key("u", "d")),
        ]
    );
}

#[test]
fn builder_joins_plans() {
    let built = LogicalPlanBuilder::from(scan("t", "a"))
        .cross_join(&scan("u", "b"))
        .unwrap()
        .build()
        .unwrap();
    assert_eq!(
        built,
        LogicalPlan::CrossJoin {
            left: Arc::new(scan("t", "a")),
            right: Arc::new(scan("u", "b")),
            schema: schema(vec![of("t", "a"), of("u", "b")]),
        }
    );
    let single = LogicalPlanBuilder::<TopNode>::empty(true).build().unwrap();
    assert_eq!(
        single,
        LogicalPlan::EmptyRelation { produce_one_row: true, schema: Arc::new(DFSchema::empty()) }
    );
}

#[test]
fn schema_has_clear_names() {
    assert!(DFSchema::new(vec![]).is_ok());
    assert!(DFSchema::new(vec![of("t", "a"), of("u", "a"), of_none("b")]).is_ok());
    assert_eq!(
        DFSchema::new(vec![of("t", "a"), of_none("b"), of("t", "a")]),
        Err(plan_error("Schema contains duplicate qualified field name 't.a'"))
    );
    assert_eq!(
        DFSchema::new(vec![of_none("a"), of_none("a")]),
        Err(plan_error("Schema contains duplicate unqualified field name 'a'"))
    );
    assert_eq!(
        DFSchema::new(vec![of_none("a"), of("t", "a")]),
        Err(plan_error(
            "Schema contains qualified field name 't.a' and unqualified field name 'a' which \
             would be ambiguous"
        ))
    );
}

#[test]
fn join_schema_puts_fields_side_by_side() {
    let left = DFSchema::new(vec![of("t", "a"), of("t", "b")]).unwrap();
    let right = DFSchema::new(vec![of("u", "a")]).unwrap();
    assert_eq!(
        build_join_schema(&left, &right, &JoinType::Full).unwrap().fields(),
        &vec![of("t", "a"), of("t", "b"), of("u", "a")]
    );
    assert_eq!(build_join_schema(&left, &right, &JoinType::Anti), Ok(left.clone()));
    assert!(build_join_schema(&left, &left, &JoinType::Inner).is_err());
}

#[test]
fn text_of_a_plan_is_a_tree() {
    let sum = Expr::AggregateFunction {
        fun: AggregateFunction::Sum,
        args: vec![col("b")],
        distinct: false,
    };
    let joined = LogicalPlanBuilder::from(join(
        JoinType::Inner,
        scan("t", "a"),
        scan("u", "b"),
        schema(vec![of("t", "a"), of("u", "b")]),
    ))
    .cross_join(&LogicalPlan::Extension {
        node: Arc::new(TopNode { k: 2, by: col("c"), input: scan("v", "c") }),
    })
    .unwrap()
    .build()
    .unwrap();
    let plan: Plan = LogicalPlan::Sort {
        expr: vec![Expr::Sort { expr: Box::new(col("a")), asc: true, nulls_first: false }],
        input: Arc::new(LogicalPlan::Aggregate {
            input: Arc::new(LogicalPlan::Filter {
                predicate: Expr::BinaryExpr {
                    left: Box::new(col("a")),
                    op: Operator::NotEq,
                    right: Box::new(lit("x")),
                },
                input: Arc::new(joined),
            }),
            group_expr: vec![col("a"), col("c")],
            aggr_expr: vec![sum],
            schema: schema(vec![of("t", "a")]),
        }),
    };
    assert_eq!(
        plan.display_indent(),
        "Sort: #a ASC NULLS LAST\
         \n  Aggregate: groupBy=[[#a, #c]], aggr=[[SUM(#b)]]\
         \n    Filter: #a != Utf8(\"x\")\
         \n      CrossJoin:\
         \n        Join: #t.a = #u.b\
         \n          TableScan: t projection=Some([0])\
         \n          TableScan: u projection=Some([0])\
         \n        Top: k=2, by=#c\
         \n          TableScan: v projection=Some([0])"
    );
}

#[test]
fn text_of_each_node() {
    let input: Arc<Plan> = Arc::new(LogicalPlanBuilder::empty(false).build().unwrap());
    let below = |line: &str| format!("{}\n  EmptyRelation", line);
    let none = Arc::new(DFSchema::empty());
    let full: Plan = LogicalPlan::TableScan {
        table_name: "t".to_owned(),
        source: TableSource { id: 9 },
        projection: Some(vec![1, 20, 3]),
        projected_schema: none.clone(),
        filters: vec![col("a"), Expr::Not(Box::new(col("b")))],
        limit: Some(100),
    };
    assert_eq!(
        full.display_indent(),
        "TableScan: t projection=Some([1, 20, 3]), filters=[#a, NOT #b], limit=100"
    );
    let bare: Plan = LogicalPlan::TableScan {
        table_name: "t".to_owned(),
        source: TableSource { id: 9 },
        projection: None,
        projected_schema: none.clone(),
        filters: vec![],
        limit: None,
    };
    assert_eq!(bare.display_indent(), "TableScan: t projection=None");
    let projection: Plan = LogicalPlan::Projection {
        expr: vec![col("a"), col("b")],
        input: input.clone(),
        schema: none.clone(),
    };
    assert_eq!(projection.display_indent(), below("Projection: #a, #b"));
    let window: Plan = LogicalPlan::Window {
        input: input.clone(),
        window_expr: vec![col("a")],
        schema: none.clone(),
    };
    assert_eq!(window.display_indent(), below("WindowAggr: windowExpr=[[#a]]"));
    let turn: Plan = LogicalPlan::Repartition {
        input: input.clone(),
        partitioning_scheme: Partitioning::RoundRobinBatch(10),
    };
    assert_eq!(
        turn.display_indent(),
        below("Repartition: RoundRobinBatch partition_count=10")
    );
    let hash: Plan = LogicalPlan::Repartition {
        input: input.clone(),
        partitioning_scheme: Partitioning::Hash(vec![col("a"), col("b")], 3),
    };
    assert_eq!(hash.display_indent(), below("Repartition: Hash(#a, #b) partition_count=3"));
    let using: Plan = LogicalPlan::Join {
        left: input.clone(),
        right: input.clone(),
        on: vec![(key("t", "a"), key("u", "a")), (key("t", "b"), key("u", "b"))],
        join_type: JoinType::Left,
        join_constraint: JoinConstraint::Using,
        schema: none.clone(),
    };
    assert_eq!(
        using.display_indent(),
        "Join: Using #t.a = #u.a, #t.b = #u.b\n  EmptyRelation\n  EmptyRelation"
    );
    let union: Plan = LogicalPlan::Union {
        inputs: vec![(*input).clone(), (*input).clone()],
        schema: none.clone(),
        alias: None,
    };
    assert_eq!(union.display_indent(), "Union\n  EmptyRelation\n  EmptyRelation");
    let table: Plan = LogicalPlan::CreateExternalTable {
        schema: none.clone(),
        name: "my \"own\" table".to_owned(),
        location: "/data".to_owned(),
        file_type: FileType::Parquet,
        has_header: false,
    };
    assert_eq!(table.display_indent(), "CreateExternalTable: \"my \\\"own\\\" table\"");
    let explain: Plan = LogicalPlan::Explain {
        verbose: false,
        plan: input,
        stringified_plans: vec![],
        schema: none,
    };
    assert_eq!(explain.display_indent(), below("Explain"));
}
