//! The logical plan: a sum-typed tree of relational operators, each
//! non-leaf caching the schema its derivation rule produces.

use vstd::prelude::*;
use crate::dtypes::{Context, JoinType};
use crate::expr::{Expr, ExprV, view_expr, view_exprs};
use crate::field_infer::spec_exprs_fields;
use crate::schema::{FieldV, Schema, spec_contains_name, spec_field_with_name, spec_merge};
use crate::utils::{spec_output_names, view_strs};

verus! {

/// A handle to a user-defined dataframe function.  The plan only carries
/// it; the callable itself is registered with the execution engine under
/// this identifier.
#[derive(Clone, Copy, PartialEq, Eq, Structural, Debug)]
pub struct UdfHandle {
    pub id: usize,
}

/// Spec-level image of a [`LogicalPlan`].
pub enum PlanV {
    Selection { input: Box<PlanV>, predicate: ExprV },
    Cache { input: Box<PlanV> },
    CsvScan {
        path: Seq<char>,
        schema: Seq<FieldV>,
        has_header: bool,
        delimiter: u8,
        ignore_errors: bool,
        skip_rows: usize,
        stop_after_n_rows: Option<usize>,
        with_columns: Option<Seq<Seq<char>>>,
        predicate: Option<ExprV>,
        aggregate: Seq<ExprV>,
        cache: bool,
        low_memory: bool,
    },
    ParquetScan {
        path: Seq<char>,
        schema: Seq<FieldV>,
        with_columns: Option<Seq<Seq<char>>>,
        predicate: Option<ExprV>,
        aggregate: Seq<ExprV>,
        stop_after_n_rows: Option<usize>,
        cache: bool,
    },
    DataFrameScan {
        schema: Seq<FieldV>,
        projection: Option<Seq<ExprV>>,
        selection: Option<ExprV>,
    },
    LocalProjection { expr: Seq<ExprV>, input: Box<PlanV>, schema: Seq<FieldV> },
    Projection { expr: Seq<ExprV>, input: Box<PlanV>, schema: Seq<FieldV> },
    Aggregate {
        input: Box<PlanV>,
        keys: Seq<ExprV>,
        aggs: Seq<ExprV>,
        schema: Seq<FieldV>,
        apply: Option<UdfHandle>,
    },
    Join {
        input_left: Box<PlanV>,
        input_right: Box<PlanV>,
        schema: Seq<FieldV>,
        how: JoinType,
        left_on: Seq<ExprV>,
        right_on: Seq<ExprV>,
        allow_par: bool,
        force_par: bool,
    },
    HStack { input: Box<PlanV>, exprs: Seq<ExprV>, schema: Seq<FieldV> },
    Distinct { input: Box<PlanV>, maintain_order: bool, subset: Option<Seq<Seq<char>>> },
    Sort { input: Box<PlanV>, by_column: Seq<ExprV>, reverse: Seq<bool> },
    Explode { input: Box<PlanV>, columns: Seq<Seq<char>> },
    Slice { input: Box<PlanV>, offset: i64, len: usize },
    Melt {
        input: Box<PlanV>,
        id_vars: Seq<Seq<char>>,
        value_vars: Seq<Seq<char>>,
        schema: Seq<FieldV>,
    },
    Udf {
        input: Box<PlanV>,
        function: UdfHandle,
        predicate_pd: bool,
        projection_pd: bool,
        schema: Option<Seq<FieldV>>,
    },
}

/// The logical plan: the sum-typed operator tree this crate is about.
///
/// Every variant that may alter the schema caches the resulting schema;
/// the builder keeps that cache consistent with the variant's fields.
/// The dataframe a `DataFrameScan` reads is held by the execution engine;
/// the plan carries its schema.
pub enum LogicalPlan {
    /// Filter on a boolean mask.
    Selection { input: Box<LogicalPlan>, predicate: Expr },
    /// Cache the input at this point in the plan.
    Cache { input: Box<LogicalPlan> },
    /// Scan a CSV file.
    CsvScan {
        path: String,
        schema: Schema,
        has_header: bool,
        delimiter: u8,
        ignore_errors: bool,
        skip_rows: usize,
        stop_after_n_rows: Option<usize>,
        with_columns: Option<Vec<String>>,
        /// Filters at the scan level.
        predicate: Option<Expr>,
        /// Aggregations at the scan level.
        aggregate: Vec<Expr>,
        cache: bool,
        low_memory: bool,
    },
    /// Scan a Parquet file.
    ParquetScan {
        path: String,
        schema: Schema,
        with_columns: Option<Vec<String>>,
        predicate: Option<Expr>,
        aggregate: Vec<Expr>,
        stop_after_n_rows: Option<usize>,
        cache: bool,
    },
    /// An in-memory table, tracked by its schema.
    DataFrameScan {
        schema: Schema,
        projection: Option<Vec<Expr>>,
        selection: Option<Expr>,
    },
    /// A projection the optimizer must not push further down.
    LocalProjection { expr: Vec<Expr>, input: Box<LogicalPlan>, schema: Schema },
    /// Column selection.
    Projection { expr: Vec<Expr>, input: Box<LogicalPlan>, schema: Schema },
    /// Groupby aggregation.
    Aggregate {
        input: Box<LogicalPlan>,
        keys: Vec<Expr>,
        aggs: Vec<Expr>,
        schema: Schema,
        apply: Option<UdfHandle>,
    },
    /// Join operation.
    Join {
        input_left: Box<LogicalPlan>,
        input_right: Box<LogicalPlan>,
        schema: Schema,
        how: JoinType,
        left_on: Vec<Expr>,
        right_on: Vec<Expr>,
        allow_par: bool,
        force_par: bool,
    },
    /// Adding columns to the table without a join.
    HStack { input: Box<LogicalPlan>, exprs: Vec<Expr>, schema: Schema },
    /// Remove duplicates from the table.
    Distinct { input: Box<LogicalPlan>, maintain_order: bool, subset: Option<Vec<String>> },
    /// Sort the table.
    Sort { input: Box<LogicalPlan>, by_column: Vec<Expr>, reverse: Vec<bool> },
    /// An explode operation.
    Explode { input: Box<LogicalPlan>, columns: Vec<String> },
    /// Slice the table.
    Slice { input: Box<LogicalPlan>, offset: i64, len: usize },
    /// An unpivot operation.
    Melt {
        input: Box<LogicalPlan>,
        id_vars: Vec<String>,
        value_vars: Vec<String>,
        schema: Schema,
    },
    /// A user-defined function over the whole table.
    Udf {
        input: Box<LogicalPlan>,
        function: UdfHandle,
        /// Allow predicate pushdown optimizations.
        predicate_pd: bool,
        /// Allow projection pushdown optimizations.
        projection_pd: bool,
        schema: Option<Schema>,
    },
}

/// The view of an optional expression.
pub open spec fn view_opt_expr(o: Option<Expr>) -> Option<ExprV> {
    match o {
        Some(e) => Some(view_expr(e)),
        None => None,
    }
}

/// The view of an optional name list.
pub open spec fn view_opt_strs(o: Option<Vec<String>>) -> Option<Seq<Seq<char>>> {
    match o {
        Some(v) => Some(view_strs(v@)),
        None => None,
    }
}

/// The view of a [`LogicalPlan`].
pub open spec fn view_plan(p: LogicalPlan) -> PlanV
    decreases p,
{
    match p {
        LogicalPlan::Selection { input, predicate } => PlanV::Selection {
            input: Box::new(view_plan(*input)),
            predicate: view_expr(predicate),
        },
        LogicalPlan::Cache { input } => PlanV::Cache { input: Box::new(view_plan(*input)) },
        LogicalPlan::CsvScan {
            path,
            schema,
            has_header,
            delimiter,
            ignore_errors,
            skip_rows,
            stop_after_n_rows,
            with_columns,
            predicate,
            aggregate,
            cache,
            low_memory,
        } => PlanV::CsvScan {
            path: path@,
            schema: schema@,
            has_header,
            delimiter,
            ignore_errors,
            skip_rows,
            stop_after_n_rows,
            with_columns: view_opt_strs(with_columns),
            predicate: view_opt_expr(predicate),
            aggregate: view_exprs(aggregate@),
            cache,
            low_memory,
        },
        LogicalPlan::ParquetScan {
            path,
            schema,
            with_columns,
            predicate,
            aggregate,
            stop_after_n_rows,
            cache,
        } => PlanV::ParquetScan {
            path: path@,
            schema: schema@,
            with_columns: view_opt_strs(with_columns),
            predicate: view_opt_expr(predicate),
            aggregate: view_exprs(aggregate@),
            stop_after_n_rows,
            cache,
        },
        LogicalPlan::DataFrameScan { schema, projection, selection } => PlanV::DataFrameScan {
            schema: schema@,
            projection: match projection {
                Some(es) => Some(view_exprs(es@)),
                None => None,
            },
            selection: view_opt_expr(selection),
        },
        LogicalPlan::LocalProjection { expr, input, schema } => PlanV::LocalProjection {
            expr: view_exprs(expr@),
            input: Box::new(view_plan(*input)),
            schema: schema@,
        },
        LogicalPlan::Projection { expr, input, schema } => PlanV::Projection {
            expr: view_exprs(expr@),
            input: Box::new(view_plan(*input)),
            schema: schema@,
        },
        LogicalPlan::Aggregate { input, keys, aggs, schema, apply } => PlanV::Aggregate {
            input: Box::new(view_plan(*input)),
            keys: view_exprs(keys@),
            aggs: view_exprs(aggs@),
            schema: schema@,
            apply,
        },
        LogicalPlan::Join {
            input_left,
            input_right,
            schema,
            how,
            left_on,
            right_on,
            allow_par,
            force_par,
        } => PlanV::Join {
            input_left: Box::new(view_plan(*input_left)),
            input_right: Box::new(view_plan(*input_right)),
            schema: schema@,
            how,
            left_on: view_exprs(left_on@),
            right_on: view_exprs(right_on@),
            allow_par,
            force_par,
        },
        LogicalPlan::HStack { input, exprs, schema } => PlanV::HStack {
            input: Box::new(view_plan(*input)),
            exprs: view_exprs(exprs@),
            schema: schema@,
        },
        LogicalPlan::Distinct { input, maintain_order, subset } => PlanV::Distinct {
            input: Box::new(view_plan(*input)),
            maintain_order,
            subset: view_opt_strs(subset),
        },
        LogicalPlan::Sort { input, by_column, reverse } => PlanV::Sort {
            input: Box::new(view_plan(*input)),
            by_column: view_exprs(by_column@),
            reverse: reverse@,
        },
        LogicalPlan::Explode { input, columns } => PlanV::Explode {
            input: Box::new(view_plan(*input)),
            columns: view_strs(columns@),
        },
        LogicalPlan::Slice { input, offset, len } => PlanV::Slice {
            input: Box::new(view_plan(*input)),
            offset,
            len,
        },
        LogicalPlan::Melt { input, id_vars, value_vars, schema } => PlanV::Melt {
            input: Box::new(view_plan(*input)),
            id_vars: view_strs(id_vars@),
            value_vars: view_strs(value_vars@),
            schema: schema@,
        },
        LogicalPlan::Udf { input, function, predicate_pd, projection_pd, schema } => PlanV::Udf {
            input: Box::new(view_plan(*input)),
            function,
            predicate_pd,
            projection_pd,
            schema: match schema {
                Some(s) => Some(s@),
                None => None,
            },
        },
    }
}

impl View for LogicalPlan {
    type V = PlanV;

    open spec fn view(&self) -> PlanV {
        view_plan(*self)
    }
}

/// The schema a node reports: the cached one where the variant stores it,
/// the input's otherwise.
pub open spec fn spec_schema_of(p: PlanV) -> Seq<FieldV>
    decreases p,
{
    match p {
        PlanV::Selection { input, .. } => spec_schema_of(*input),
        PlanV::Cache { input } => spec_schema_of(*input),
        PlanV::CsvScan { schema, .. } => schema,
        PlanV::ParquetScan { schema, .. } => schema,
        PlanV::DataFrameScan { schema, .. } => schema,
        PlanV::LocalProjection { schema, .. } => schema,
        PlanV::Projection { schema, .. } => schema,
        PlanV::Aggregate { schema, .. } => schema,
        PlanV::Join { schema, .. } => schema,
        PlanV::HStack { schema, .. } => schema,
        PlanV::Distinct { input, .. } => spec_schema_of(*input),
        PlanV::Sort { input, .. } => spec_schema_of(*input),
        PlanV::Explode { input, .. } => spec_schema_of(*input),
        PlanV::Slice { input, .. } => spec_schema_of(*input),
        PlanV::Melt { schema, .. } => schema,
        PlanV::Udf { input, schema, .. } => match schema {
            Some(s) => s,
            None => spec_schema_of(*input),
        },
    }
}

impl LogicalPlan {
    /// The schema of this node, in constant time for cached variants and
    /// one hop per transparent variant.
    pub fn schema(&self) -> (r: &Schema)
        ensures
            r@ == spec_schema_of(self@),
        decreases self,
    {
        match self {
            LogicalPlan::Selection { input, .. } => input.schema(),
            LogicalPlan::Cache { input } => input.schema(),
            LogicalPlan::CsvScan { schema, .. } => schema,
            LogicalPlan::ParquetScan { schema, .. } => schema,
            LogicalPlan::DataFrameScan { schema, .. } => schema,
            LogicalPlan::LocalProjection { schema, .. } => schema,
            LogicalPlan::Projection { schema, .. } => schema,
            LogicalPlan::Aggregate { schema, .. } => schema,
            LogicalPlan::Join { schema, .. } => schema,
            LogicalPlan::HStack { schema, .. } => schema,
            LogicalPlan::Distinct { input, .. } => input.schema(),
            LogicalPlan::Sort { input, .. } => input.schema(),
            LogicalPlan::Explode { input, .. } => input.schema(),
            LogicalPlan::Slice { input, .. } => input.schema(),
            LogicalPlan::Melt { schema, .. } => schema,
            LogicalPlan::Udf { input, schema, .. } => match schema {
                Some(s) => s,
                None => input.schema(),
            },
        }
    }
}

impl Default for LogicalPlan {
    /// The default plan: a scan of an empty in-memory table, with the
    /// empty schema, no projection and no selection.
    fn default() -> (r: Self)
        ensures
            r@ == (PlanV::DataFrameScan {
                schema: Seq::<FieldV>::empty(),
                projection: None,
                selection: None,
            }),
    {
        LogicalPlan::DataFrameScan { schema: Schema::empty(), projection: None, selection: None }
    }
}

/// The fields the right side contributes to a join's schema: a right
/// field named like a join key collapses into the left key; one named
/// like a left column is renamed with `_right`; any other passes through.
pub open spec fn spec_join_right_fields(
    left: Seq<FieldV>,
    right: Seq<FieldV>,
    right_on: Seq<Seq<char>>,
) -> Seq<FieldV>
    decreases right,
{
    if right.len() == 0 {
        Seq::empty()
    } else {
        let rest = spec_join_right_fields(left, right.drop_last(), right_on);
        let f = right.last();
        if right_on.contains(f.name) {
            rest
        } else if spec_contains_name(left, f.name) {
            rest.push(FieldV { name: f.name + "_right"@, dtype: f.dtype })
        } else {
            rest.push(f)
        }
    }
}

/// A join's schema: all left fields in order, then the filtered and
/// renamed right fields in order.
pub open spec fn spec_join_schema(
    left: Seq<FieldV>,
    right: Seq<FieldV>,
    right_on: Seq<Seq<char>>,
) -> Seq<FieldV> {
    left + spec_join_right_fields(left, right, right_on)
}

/// The schema after horizontally stacking `exprs` onto `schema`: each
/// expression's field (derived against the input schema) upserted by name,
/// in place at an existing name, appended otherwise.
pub open spec fn spec_hstack_fields(schema: Seq<FieldV>, exprs: Seq<ExprV>) -> Option<Seq<FieldV>>
    decreases exprs,
{
    if exprs.len() == 0 {
        Some(schema)
    } else {
        match (
            spec_hstack_fields(schema, exprs.drop_last()),
            crate::field_infer::spec_to_field(exprs.last(), schema, Context::Default),
        ) {
            (Some(acc), Some(f)) => match crate::schema::spec_index_of(schema, f.name) {
                Some(i) => Some(acc.update(i, f)),
                None => Some(acc.push(f)),
            },
            _ => None,
        }
    }
}

/// The input fields that are not value variables, in order.
pub open spec fn spec_melt_kept(schema: Seq<FieldV>, value_vars: Seq<Seq<char>>) -> Seq<FieldV>
    decreases schema,
{
    if schema.len() == 0 {
        Seq::empty()
    } else {
        let rest = spec_melt_kept(schema.drop_last(), value_vars);
        if value_vars.contains(schema.last().name) {
            rest
        } else {
            rest.push(schema.last())
        }
    }
}

/// A melt's schema: the kept fields, then `("variable": Utf8)` and
/// `("value": dtype of the first value variable)`.  `None` when there is
/// no value variable or the first one is missing from the input.
pub open spec fn spec_melt_schema(schema: Seq<FieldV>, value_vars: Seq<Seq<char>>) -> Option<
    Seq<FieldV>,
> {
    if value_vars.len() == 0 {
        None
    } else {
        match spec_field_with_name(schema, value_vars[0]) {
            Some(f) => Some(
                spec_melt_kept(schema, value_vars).push(
                    FieldV { name: "variable"@, dtype: crate::dtypes::DataType::Utf8 },
                ).push(FieldV { name: "value"@, dtype: f.dtype }),
            ),
            None => None,
        }
    }
}

/// An aggregation's schema: the keys' fields in `Default` context merged
/// with the aggregations' fields in `Aggregation` context.
pub open spec fn spec_groupby_schema(
    schema: Seq<FieldV>,
    keys: Seq<ExprV>,
    aggs: Seq<ExprV>,
) -> Option<Seq<FieldV>> {
    match (
        spec_exprs_fields(keys, schema, Context::Default),
        spec_exprs_fields(aggs, schema, Context::Aggregation),
    ) {
        (Some(a), Some(b)) => spec_merge(a, b),
        _ => None,
    }
}

/// Well-formedness of a plan: every cached schema equals what the
/// variant's derivation rule produces from its children, all the way
/// down.  The builder establishes this at every construction step.
pub open spec fn wf_plan(p: PlanV) -> bool
    decreases p,
{
    match p {
        PlanV::Selection { input, .. } => wf_plan(*input),
        PlanV::Cache { input } => wf_plan(*input),
        PlanV::CsvScan { .. } => true,
        PlanV::ParquetScan { .. } => true,
        PlanV::DataFrameScan { .. } => true,
        PlanV::LocalProjection { expr, input, schema } => wf_plan(*input) && spec_exprs_fields(
            expr,
            spec_schema_of(*input),
            Context::Default,
        ) == Some(schema),
        PlanV::Projection { expr, input, schema } => wf_plan(*input) && spec_exprs_fields(
            expr,
            spec_schema_of(*input),
            Context::Default,
        ) == Some(schema),
        PlanV::Aggregate { input, keys, aggs, schema, .. } => wf_plan(*input) && keys.len() > 0
            && spec_groupby_schema(spec_schema_of(*input), keys, aggs) == Some(schema),
        PlanV::Join { input_left, input_right, schema, right_on, .. } => wf_plan(*input_left)
            && wf_plan(*input_right) && (match spec_output_names(right_on) {
            Some(ns) => schema == spec_join_schema(
                spec_schema_of(*input_left),
                spec_schema_of(*input_right),
                ns,
            ),
            None => false,
        }),
        PlanV::HStack { input, exprs, schema } => wf_plan(*input) && spec_hstack_fields(
            spec_schema_of(*input),
            exprs,
        ) == Some(schema),
        PlanV::Distinct { input, .. } => wf_plan(*input),
        PlanV::Sort { input, by_column, reverse } => wf_plan(*input) && by_column.len()
            == reverse.len(),
        PlanV::Explode { input, .. } => wf_plan(*input),
        PlanV::Slice { input, .. } => wf_plan(*input),
        PlanV::Melt { input, value_vars, schema, .. } => wf_plan(*input) && spec_melt_schema(
            spec_schema_of(*input),
            value_vars,
        ) == Some(schema),
        PlanV::Udf { input, .. } => wf_plan(*input),
    }
}

} // verus!
