use polars_lazy::builder::LogicalPlanBuilder;
use polars_lazy::dtypes::{DataType, Operator};
use polars_lazy::error::PlanError;
use polars_lazy::expr::{AggExpr, Expr};
use polars_lazy::literal::LiteralValue;
use polars_lazy::plan::LogicalPlan;
use polars_lazy::rewrite::rewrite_projections;
use polars_lazy::schema::{Field, Schema};
use polars_lazy::utils::expr_to_root_column_name;
use polars_lazy::dtypes::Context;

fn wc_col(name: &str) -> Expr {
    Expr::Column(name.to_string())
}

fn abc_schema() -> Schema {
    Schema::new(vec![
        Field::new("a".to_string(), DataType::Int32),
        Field::new("b".to_string(), DataType::Int64),
        Field::new("c".to_string(), DataType::Utf8),
    ])
}

fn wildcard_times_two() -> Expr {
    Expr::BinaryExpr {
        left: Box::new(Expr::Wildcard),
        op: Operator::Multiply,
        right: Box::new(Expr::Literal(LiteralValue::Int32(2))),
    }
}

#[test]
fn wildcard_fans_out_in_schema_order() {
    let out = rewrite_projections(&vec![wildcard_times_two()], &abc_schema()).unwrap();
    assert_eq!(out.len(), 3);
    let roots: Vec<String> = out
        .iter()
        .map(|e| expr_to_root_column_name(e).unwrap())
        .collect();
    assert_eq!(roots, vec!["a", "b", "c"]);
    for e in &out {
        match e {
            Expr::BinaryExpr { left, op, right } => {
                assert!(matches!(**left, Expr::Column(_)));
                assert_eq!(*op, Operator::Multiply);
                assert!(matches!(**right, Expr::Literal(LiteralValue::Int32(2))));
            }
            other => panic!("expected a binary expression, got {:?}", root_of(other)),
        }
    }
}

fn root_of(e: &Expr) -> String {
    expr_to_root_column_name(e).unwrap_or_else(|_| "?".to_string())
}

#[test]
fn count_wildcard_collapses_to_one_aliased_count() {
    let count_star = Expr::Agg(AggExpr::Count(Box::new(Expr::Wildcard)));
    let out = rewrite_projections(&vec![count_star], &abc_schema()).unwrap();
    assert_eq!(out.len(), 1);
    match &out[0] {
        Expr::Alias(inner, name) => {
            assert_eq!(name, "count");
            match &**inner {
                Expr::Agg(AggExpr::Count(e)) => match &**e {
                    Expr::Column(n) => assert_eq!(n, "a"),
                    other => panic!("expected the first column, got {}", root_of(other)),
                },
                _ => panic!("expected a count aggregation"),
            }
        }
        _ => panic!("expected an alias"),
    }
}

#[test]
fn except_removes_a_root() {
    let exprs = vec![
        Expr::Wildcard,
        Expr::Except(Box::new(wc_col("b"))),
    ];
    let out = rewrite_projections(&exprs, &abc_schema()).unwrap();
    let roots: Vec<String> = out
        .iter()
        .map(|e| expr_to_root_column_name(e).unwrap())
        .collect();
    assert_eq!(roots, vec!["a", "c"]);
}

#[test]
fn except_over_a_non_column_is_refused() {
    let exprs = vec![Expr::Except(Box::new(Expr::Wildcard))];
    match rewrite_projections(&exprs, &abc_schema()) {
        Err(PlanError::InvalidArgument(msg)) => {
            assert_eq!(msg, "Except expression should have column name")
        }
        Err(_) => panic!("wrong error variant"),
        Ok(_) => panic!("a malformed exception must be refused"),
    }
}

#[test]
fn filter_under_a_wildcard_is_refused() {
    let bad = Expr::BinaryExpr {
        left: Box::new(Expr::Wildcard),
        op: Operator::Plus,
        right: Box::new(Expr::Filter {
            input: Box::new(wc_col("a")),
            by: Box::new(wc_col("b")),
        }),
    };
    assert!(rewrite_projections(&vec![bad], &abc_schema()).is_err());
}

#[test]
fn plain_expressions_pass_through_unchanged() {
    let exprs = vec![wc_col("c"), wc_col("a")];
    let out = rewrite_projections(&exprs, &abc_schema()).unwrap();
    let roots: Vec<String> = out
        .iter()
        .map(|e| expr_to_root_column_name(e).unwrap())
        .collect();
    assert_eq!(roots, vec!["c", "a"]);
}

#[test]
fn filter_with_wildcard_becomes_an_and_chain() {
    let is_not_null_star = Expr::IsNotNull(Box::new(Expr::Wildcard));
    let lp = LogicalPlanBuilder::from_existing_df(abc_schema())
        .filter(is_not_null_star)
        .unwrap()
        .build();
    match lp {
        LogicalPlan::Selection { predicate, .. } => match predicate {
            Expr::BinaryExpr { left, op, right } => {
                assert_eq!(op, Operator::And);
                // right leg is the copy for the last column, c
                match *right {
                    Expr::IsNotNull(inner) => match *inner {
                        Expr::Column(n) => assert_eq!(n, "c"),
                        _ => panic!("expected a column"),
                    },
                    _ => panic!("expected an is-not-null copy"),
                }
                assert!(matches!(*left, Expr::BinaryExpr { .. }));
            }
            _ => panic!("expected an AND chain"),
        },
        other => panic!("expected a selection, got {}", other.describe()),
    }
}

#[test]
fn projection_of_the_whole_schema_by_wildcard() {
    let lp = LogicalPlanBuilder::from_existing_df(abc_schema())
        .project(vec![Expr::Wildcard])
        .unwrap()
        .build();
    let s = lp.schema();
    let names: Vec<String> = s.fields().iter().map(|f| f.name().clone()).collect();
    assert_eq!(names, vec!["a", "b", "c"]);
    assert_eq!(s.field(1).data_type(), DataType::Int64);
}

#[test]
fn join_on_an_unnamed_expression_is_refused() {
    let lp = LogicalPlanBuilder::from_existing_df(abc_schema());
    let other = LogicalPlanBuilder::from_existing_df(abc_schema()).build();
    let unnamed = Expr::Literal(LiteralValue::Int32(1));
    match lp.join(
        other,
        polars_lazy::dtypes::JoinType::Inner,
        vec![wc_col("a")],
        vec![unnamed],
        false,
        false,
    ) {
        Err(PlanError::InvalidOperation(_)) => (),
        Err(_) => panic!("wrong error variant"),
        Ok(_) => panic!("a join key must have an output name"),
    }
}

#[test]
fn missing_column_reports_not_found() {
    let e = wc_col("nope");
    match e.to_field(&abc_schema(), Context::Default) {
        Err(PlanError::NotFound(name)) => assert_eq!(name, "nope"),
        Err(_) => panic!("wrong error variant"),
        Ok(_) => panic!("an absent column has no field"),
    }
}

#[test]
fn projection_on_a_missing_column_is_refused() {
    let lp = LogicalPlanBuilder::from_existing_df(abc_schema());
    assert!(lp.project(vec![wc_col("nope")]).is_err());
}
