use polars_lazy::builder::LogicalPlanBuilder;
use polars_lazy::dtypes::{DataType, JoinType, Operator};
use polars_lazy::expr::Expr;
use polars_lazy::format::{fmt_predicate, i64_string, u64_string};
use polars_lazy::literal::LiteralValue;
use polars_lazy::schema::{Field, Schema};

fn r_col(name: &str) -> Expr {
    Expr::Column(name.to_string())
}

fn days_frame() -> Schema {
    Schema::new(vec![
        Field::new("days".to_string(), DataType::Int32),
        Field::new("temp".to_string(), DataType::Float64),
        Field::new("rain".to_string(), DataType::Float64),
    ])
}

#[test]
fn test_dot() {
    let mut s = String::new();
    LogicalPlanBuilder::from_existing_df(days_frame())
        .project(vec![r_col("days")])
        .unwrap()
        .build()
        .dot(&mut s, (0, 0), "");
    assert_eq!(
        s,
        "graph  polars_query {\n\"π 1/3 [(0, 0)]\" -- \"TABLE\nπ */3;\nσ -\n[(0, 1)]\"\n"
    );
    assert!(s.contains("graph  polars_query {"));
    assert!(s.contains("π 1/3 [(0, 0)]"));
    assert!(s.contains("[(0, 1)]"));
}

#[test]
fn dot_of_a_scan_root_writes_its_label() {
    let mut s = String::new();
    LogicalPlanBuilder::from_existing_df(days_frame())
        .build()
        .dot(&mut s, (0, 0), "");
    assert_eq!(
        s,
        "graph  polars_query {\n\"TABLE\nπ */3;\nσ -\n[(0, 0)]\""
    );
}

#[test]
fn dot_numbers_join_branches_apart() {
    let mut s = String::new();
    LogicalPlanBuilder::from_existing_df(days_frame())
        .join(
            LogicalPlanBuilder::from_existing_df(days_frame()).build(),
            JoinType::Left,
            vec![r_col("days")],
            vec![r_col("days")],
            true,
            false,
        )
        .unwrap()
        .build()
        .dot(&mut s, (0, 0), "");
    let join_label = "JOIN left [col(\"days\")]; right: [col(\"days\")] [0]";
    let left_label = "TABLE\nπ */3;\nσ -\n[(10, 1)]";
    let right_label = "TABLE\nπ */3;\nσ -\n[(20, 1)]";
    assert!(s.starts_with("graph  polars_query {\n"));
    assert!(s.contains(&format!("\"{}\" -- \"{}\"\n", join_label, left_label)));
    assert!(s.contains(&format!("\"{}\" -- \"{}\"\n", join_label, right_label)));
}

#[test]
fn dot_edges_reference_labelled_nodes() {
    // every edge's two endpoints must appear as node labels of the graph;
    // here the parent's label is itself an edge endpoint one level up
    let mut s = String::new();
    LogicalPlanBuilder::from_existing_df(days_frame())
        .filter(Expr::BinaryExpr {
            left: Box::new(r_col("temp")),
            op: Operator::Gt,
            right: Box::new(Expr::Literal(LiteralValue::Int32(0))),
        })
        .unwrap()
        .project(vec![r_col("days")])
        .unwrap()
        .build()
        .dot(&mut s, (0, 0), "");
    let edges: Vec<&str> = s.matches("\" -- \"").collect();
    assert_eq!(edges.len(), 2);
    assert!(s.contains("π 1/3 [(0, 0)]"));
    assert!(s.contains("FILTER BY "));
    assert!(s.contains("[(0, 1)]"));
    assert!(s.contains("[(0, 2)]"));
}

#[test]
fn describe_is_pure() {
    let lp = LogicalPlanBuilder::from_existing_df(days_frame())
        .project(vec![r_col("days")])
        .unwrap()
        .build();
    assert_eq!(lp.describe(), lp.describe());
}

#[test]
fn describe_of_a_filtered_table() {
    let lp = LogicalPlanBuilder::from_existing_df(days_frame())
        .filter(Expr::BinaryExpr {
            left: Box::new(r_col("temp")),
            op: Operator::Lt,
            right: Box::new(Expr::Literal(LiteralValue::Int32(3))),
        })
        .unwrap()
        .build();
    assert_eq!(
        lp.describe(),
        "FILTER\n\t[(col(\"temp\")) < (3i32)]\nFROM\n\tTABLE: [\"days\", \"temp\", \"rain\"]; \
         PROJECT */3 COLUMNS; SELECTION: None"
    );
}

#[test]
fn describe_previews_four_names_at_most() {
    let wide = Schema::new(vec![
        Field::new("c1".to_string(), DataType::Int32),
        Field::new("c2".to_string(), DataType::Int32),
        Field::new("c3".to_string(), DataType::Int32),
        Field::new("c4".to_string(), DataType::Int32),
        Field::new("c5".to_string(), DataType::Int32),
    ]);
    let lp = LogicalPlanBuilder::from_existing_df(wide).build();
    assert_eq!(
        lp.describe(),
        "TABLE: [\"c1\", \"c2\", \"c3\", \"c4\"]; PROJECT */5 COLUMNS; SELECTION: None"
    );
}

#[test]
fn predicate_formatting_strips_and_clips() {
    let pred = Expr::BinaryExpr {
        left: Box::new(r_col("sepal.width")),
        op: Operator::Lt,
        right: Box::new(Expr::Literal(LiteralValue::Int32(3))),
    };
    let full = "(col(\"sepal.width\")) < (3i32)";
    let expected = format!("{}...", &full[..25]);
    assert_eq!(fmt_predicate(Some(&pred)), expected);
    assert_eq!(fmt_predicate(None), "-");
}

#[test]
fn short_predicates_stay_whole() {
    let pred = Expr::IsNull(Box::new(r_col("a")));
    assert_eq!(fmt_predicate(Some(&pred)), "col(\"a\").is_null()");
}

#[test]
fn decimal_rendering() {
    assert_eq!(u64_string(0), "0");
    assert_eq!(u64_string(42), "42");
    assert_eq!(u64_string(1234567890), "1234567890");
    assert_eq!(i64_string(-42), "-42");
    assert_eq!(i64_string(7), "7");
    assert_eq!(i64_string(i64::MIN), "-9223372036854775808");
}

#[test]
fn describe_of_slice_and_sort() {
    let lp = LogicalPlanBuilder::from_existing_df(days_frame())
        .slice(-3, 10)
        .sort(vec![r_col("days")], vec![false])
        .build();
    assert_eq!(
        lp.describe(),
        "SORT SLICE TABLE: [\"days\", \"temp\", \"rain\"]; PROJECT */3 COLUMNS; SELECTION: None, \
         offset: -3, len: 10 BY [col(\"days\")]"
    );
}
