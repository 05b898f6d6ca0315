use polars_lazy::builder::LogicalPlanBuilder;
use polars_lazy::dtypes::{Context, DataType, JoinType};
use polars_lazy::expr::{AggExpr, Expr};
use polars_lazy::literal::LiteralValue;
use polars_lazy::plan::LogicalPlan;
use polars_lazy::schema::{Field, Schema};
use polars_lazy::builder::AllowedOptimizations;
use polars_lazy::plan::UdfHandle;

fn field(name: &str, dtype: DataType) -> Field {
    Field::new(name.to_string(), dtype)
}

fn col(name: &str) -> Expr {
    Expr::Column(name.to_string())
}

fn lit_i32(v: i32) -> Expr {
    Expr::Literal(LiteralValue::Int32(v))
}

fn lit_f64(v: f64) -> Expr {
    Expr::Literal(LiteralValue::Float64(v.to_bits()))
}

fn alias(e: Expr, name: &str) -> Expr {
    Expr::Alias(Box::new(e), name.to_string())
}

fn binary(l: Expr, op: polars_lazy::dtypes::Operator, r: Expr) -> Expr {
    Expr::BinaryExpr {
        left: Box::new(l),
        op,
        right: Box::new(r),
    }
}

/// The iris-like table the arithmetic and schema tests start from.
fn get_df_schema() -> Schema {
    Schema::new(vec![
        field("sepal.length", DataType::Float64),
        field("sepal.width", DataType::Float64),
        field("petal.length", DataType::Float64),
        field("petal.width", DataType::Float64),
        field("variety", DataType::Utf8),
    ])
}

fn left_frame() -> Schema {
    Schema::new(vec![
        field("days", DataType::Int32),
        field("temp", DataType::Float64),
        field("rain", DataType::Float64),
    ])
}

fn right_frame() -> Schema {
    Schema::new(vec![
        field("days", DataType::Int32),
        field("rain", DataType::Float64),
    ])
}

fn schema_names(s: &Schema) -> Vec<String> {
    s.fields().iter().map(|f| f.name().clone()).collect()
}

#[test]
fn test_lazy_arithmetic() {
    let lp = LogicalPlanBuilder::from_existing_df(get_df_schema())
        .project(vec![alias(
            binary(
                col("sepal.width"),
                polars_lazy::dtypes::Operator::Multiply,
                lit_i32(100),
            ),
            "super_wide",
        )])
        .unwrap()
        .sort(vec![col("super_wide")], vec![false])
        .build();
    let s = lp.schema();
    assert_eq!(s.len(), 1);
    assert_eq!(s.field(0).name(), "super_wide");
    assert_eq!(s.field(0).data_type(), DataType::Float64);
}

#[test]
fn test_lazy_logical_plan_filter_and_alias_combined() {
    let lp = LogicalPlanBuilder::from_existing_df(get_df_schema())
        .filter(binary(
            col("sepal.width"),
            polars_lazy::dtypes::Operator::Lt,
            lit_f64(3.5),
        ))
        .unwrap()
        .project(vec![alias(col("variety"), "foo")])
        .unwrap()
        .build();
    let s = lp.schema();
    assert_eq!(schema_names(s), vec!["foo".to_string()]);
    assert_eq!(s.field(0).data_type(), DataType::Utf8);
}

#[test]
fn test_lazy_logical_plan_schema() {
    let lp = LogicalPlanBuilder::from_existing_df(get_df_schema())
        .project(vec![alias(col("variety"), "foo")])
        .unwrap()
        .build();
    assert!(lp.schema().field_with_name(&"foo".to_string()).is_some());

    let lp = LogicalPlanBuilder::from_existing_df(get_df_schema())
        .groupby(
            vec![col("variety")],
            vec![Expr::Agg(AggExpr::Min(Box::new(col("sepal.width"))))],
            None,
        )
        .unwrap()
        .build();
    assert!(lp
        .schema()
        .field_with_name(&"sepal.width_min".to_string())
        .is_some());
}

#[test]
fn test_lazy_logical_plan_join() {
    // without a selection
    let joined = LogicalPlanBuilder::from_existing_df(left_frame())
        .join(
            LogicalPlanBuilder::from_existing_df(right_frame()).build(),
            JoinType::Left,
            vec![col("days")],
            vec![col("days")],
            true,
            false,
        )
        .unwrap();
    assert_eq!(
        schema_names(joined.0.schema()),
        vec!["days", "temp", "rain", "rain_right"]
    );

    // with a selection
    let lp = LogicalPlanBuilder::from_existing_df(left_frame())
        .join(
            LogicalPlanBuilder::from_existing_df(right_frame()).build(),
            JoinType::Left,
            vec![col("days")],
            vec![col("days")],
            true,
            false,
        )
        .unwrap()
        .project(vec![col("temp")])
        .unwrap()
        .build();
    assert_eq!(schema_names(lp.schema()), vec!["temp"]);
    assert_eq!(lp.schema().field(0).data_type(), DataType::Float64);

    // selection of a column renamed by the join
    let lp = LogicalPlanBuilder::from_existing_df(left_frame())
        .join(
            LogicalPlanBuilder::from_existing_df(right_frame()).build(),
            JoinType::Left,
            vec![col("days")],
            vec![col("days")],
            true,
            false,
        )
        .unwrap()
        .project(vec![col("temp"), col("rain_right")])
        .unwrap()
        .build();
    assert_eq!(schema_names(lp.schema()), vec!["temp", "rain_right"]);
    assert_eq!(lp.schema().field(1).data_type(), DataType::Float64);
}

#[test]
fn join_keeps_right_dtype_on_rename() {
    // right side rain is Utf8 here, so rain_right must be Utf8
    let right = Schema::new(vec![
        field("days", DataType::Int32),
        field("rain", DataType::Utf8),
    ]);
    let joined = LogicalPlanBuilder::from_existing_df(left_frame())
        .join(
            LogicalPlanBuilder::from_existing_df(right).build(),
            JoinType::Inner,
            vec![col("days")],
            vec![col("days")],
            false,
            false,
        )
        .unwrap()
        .build();
    let s = joined.schema();
    let f = s.field_with_name(&"rain_right".to_string()).unwrap();
    assert_eq!(f.data_type(), DataType::Utf8);
}

#[test]
fn melt_schema_appends_variable_and_value() {
    let schema = Schema::new(vec![
        field("a", DataType::Int32),
        field("b", DataType::Utf8),
        field("temp", DataType::Float64),
    ]);
    let lp = LogicalPlanBuilder::from_existing_df(schema)
        .melt(vec!["a".to_string()], vec!["temp".to_string()])
        .unwrap()
        .build();
    let s = lp.schema();
    assert_eq!(schema_names(s), vec!["a", "b", "variable", "value"]);
    assert_eq!(s.field(2).data_type(), DataType::Utf8);
    assert_eq!(s.field(3).data_type(), DataType::Float64);
}

#[test]
fn melt_missing_value_var_is_refused() {
    let lp = LogicalPlanBuilder::from_existing_df(left_frame());
    assert!(lp.melt(vec![], vec!["nope".to_string()]).is_err());
}

#[test]
fn empty_projection_is_identity() {
    let before = LogicalPlanBuilder::from_existing_df(left_frame()).build();
    let before_text = before.describe();
    let after = LogicalPlanBuilder(before).project(vec![]).unwrap().build();
    assert_eq!(after.describe(), before_text);
    assert_eq!(schema_names(after.schema()), vec!["days", "temp", "rain"]);
}

#[test]
fn default_plan_is_an_empty_table() {
    let lp = LogicalPlan::default();
    assert_eq!(lp.schema().len(), 0);
    assert_eq!(lp.describe(), "TABLE: []; PROJECT */0 COLUMNS; SELECTION: None");
}

#[test]
fn groupby_needs_keys() {
    let lp = LogicalPlanBuilder::from_existing_df(left_frame());
    assert!(lp
        .groupby(vec![], vec![col("temp")], None)
        .is_err());
}

#[test]
fn with_columns_upserts_by_name() {
    let lp = LogicalPlanBuilder::from_existing_df(left_frame())
        .with_columns(vec![
            alias(col("days"), "temp"),
            alias(col("days"), "fresh"),
        ])
        .unwrap()
        .build();
    let s = lp.schema();
    assert_eq!(schema_names(s), vec!["days", "temp", "rain", "fresh"]);
    // temp was replaced in place by a column of days' dtype
    assert_eq!(s.field(1).data_type(), DataType::Int32);
    assert_eq!(s.field(3).data_type(), DataType::Int32);
}

#[test]
fn groupby_agg_dtypes() {
    let lp = LogicalPlanBuilder::from_existing_df(left_frame())
        .groupby(
            vec![col("days")],
            vec![
                Expr::Agg(AggExpr::Mean(Box::new(col("temp")))),
                Expr::Agg(AggExpr::Count(Box::new(col("rain")))),
            ],
            None,
        )
        .unwrap()
        .build();
    let s = lp.schema();
    assert_eq!(schema_names(s), vec!["days", "temp_mean", "rain_count"]);
    assert_eq!(s.field(1).data_type(), DataType::Float64);
    assert_eq!(s.field(2).data_type(), DataType::UInt32);
}

#[test]
fn to_field_comparison_is_boolean() {
    let schema = left_frame();
    let e = binary(
        col("temp"),
        polars_lazy::dtypes::Operator::Gt,
        lit_f64(1.0),
    );
    let f = e.to_field(&schema, Context::Default).unwrap();
    assert_eq!(f.name(), "temp");
    assert_eq!(f.data_type(), DataType::Boolean);
}

#[test]
fn to_field_missing_column_is_refused() {
    let schema = left_frame();
    assert!(col("nope").to_field(&schema, Context::Default).is_err());
}

#[test]
fn literal_datatypes() {
    assert_eq!(
        LiteralValue::Boolean(true).get_datatype(),
        DataType::Boolean
    );
    assert_eq!(LiteralValue::Int32(7).get_datatype(), DataType::Int32);
    assert_eq!(
        LiteralValue::Float64(2.5f64.to_bits()).get_datatype(),
        DataType::Float64
    );
    assert_eq!(
        LiteralValue::Utf8("x".to_string()).get_datatype(),
        DataType::Utf8
    );
    assert_eq!(
        LiteralValue::Range {
            low: 0,
            high: 5,
            data_type: DataType::UInt32
        }
        .get_datatype(),
        DataType::UInt32
    );
    assert_eq!(LiteralValue::Null.get_datatype(), DataType::Null);
}

#[test]
fn scan_csv_stores_its_parameters() {
    let lp = LogicalPlanBuilder::scan_csv(
        "data/iris.csv".to_string(),
        b',',
        true,
        false,
        0,
        Some(100),
        false,
        Schema::new(vec![field("sepal.width", DataType::Float64)]),
        false,
    )
    .build();
    assert_eq!(
        lp.describe(),
        "CSV SCAN data/iris.csv; PROJECT */1 COLUMNS; SELECTION: None"
    );
    assert_eq!(schema_names(lp.schema()), vec!["sepal.width"]);
}

#[test]
fn scan_parquet_stores_its_schema() {
    let lp = LogicalPlanBuilder::scan_parquet(
        "data/iris.parquet".to_string(),
        None,
        true,
        Schema::new(vec![field("variety", DataType::Utf8)]),
    )
    .build();
    assert_eq!(
        lp.describe(),
        "PARQUET SCAN data/iris.parquet; PROJECT */1 COLUMNS; SELECTION: None"
    );
}

#[test]
fn fill_none_keeps_the_schema() {
    let lp = LogicalPlanBuilder::from_existing_df(left_frame())
        .fill_none(lit_i32(0))
        .unwrap()
        .build();
    assert_eq!(schema_names(lp.schema()), vec!["days", "temp", "rain"]);
    match lp {
        LogicalPlan::LocalProjection { expr, .. } => assert_eq!(expr.len(), 3),
        other => panic!("expected a local projection, got {}", other.describe()),
    }
}

#[test]
fn schema_merge_refuses_a_dtype_clash() {
    let a = Schema::new(vec![field("x", DataType::Int32)]);
    let b = Schema::new(vec![field("x", DataType::Utf8)]);
    assert!(a.try_merge(&b).is_err());
    let c = Schema::new(vec![field("x", DataType::Int32), field("y", DataType::Utf8)]);
    let merged = a.try_merge(&c).unwrap();
    assert_eq!(schema_names(&merged), vec!["x", "y"]);
}

#[test]
fn lowering_into_an_arena_is_post_order() {
    let lp = LogicalPlanBuilder::from_existing_df(left_frame())
        .join(
            LogicalPlanBuilder::from_existing_df(right_frame()).build(),
            JoinType::Inner,
            vec![col("days")],
            vec![col("days")],
            true,
            false,
        )
        .unwrap()
        .filter(binary(
            col("temp"),
            polars_lazy::dtypes::Operator::Gt,
            lit_f64(0.0),
        ))
        .unwrap()
        .build();
    let (root, arena) = lp.into_alp();
    assert_eq!(arena.len(), 4);
    assert_eq!(root, 3);
    match &arena[root] {
        polars_lazy::arena::ALogicalPlan::Selection { input, .. } => {
            assert_eq!(*input, 2);
            match &arena[*input] {
                polars_lazy::arena::ALogicalPlan::Join {
                    input_left,
                    input_right,
                    ..
                } => {
                    assert_eq!(*input_left, 0);
                    assert_eq!(*input_right, 1);
                }
                _ => panic!("expected the join below the filter"),
            }
        }
        _ => panic!("expected the filter at the root"),
    }
}

#[test]
fn wrapper_nodes_nest_in_order() {
    let lp = LogicalPlanBuilder::from(LogicalPlan::default())
        .cache()
        .explode(vec!["xs".to_string()])
        .drop_duplicates(true, Some(vec!["xs".to_string()]))
        .map(
            UdfHandle { id: 0 },
            AllowedOptimizations::default(),
            None,
        )
        .build();
    assert_eq!(
        lp.describe(),
        "UDF DISTINCT EXPLODE COLUMN(S) [\"xs\"] OF CACHE TABLE: []; PROJECT */0 COLUMNS; \
         SELECTION: None"
    );
    assert_eq!(lp.schema().len(), 0);
}
