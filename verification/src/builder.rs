//! The fluent, move-consuming plan builder.  Every method wraps the
//! current root in a new node whose schema is derived eagerly, so that
//! [`LogicalPlan::schema`] never re-derives anything.

use vstd::prelude::*;
use vstd::string::StringExecFns;
use crate::dtypes::{Context, JoinType};
use crate::error::PlanError;
use crate::expr::{Expr, ExprV, clone_expr, view_expr, view_exprs};
use crate::field_infer::expressions_to_schema;
use crate::plan::{LogicalPlan, PlanV, UdfHandle, spec_groupby_schema, spec_hstack_fields,
    spec_join_right_fields, spec_join_schema, spec_melt_kept, spec_melt_schema, spec_schema_of,
    view_plan, wf_plan};
use crate::rewrite::{prepare_projection, rewrite_projections, replace_wildcard_with_column,
    spec_prepare, spec_replace, spec_rewrite};
use crate::schema::{Field, FieldV, Schema, lemma_index_of_properties, view_fields};
use crate::utils::{NodeKind, has_expr, spec_has, view_strs};

verus! {

/// The optimizer passes a UDF node lets through.  Both flags default to
/// allowing the pass; a UDF that computes across rows opts out.
#[derive(Clone, Copy, PartialEq, Eq, Structural, Debug)]
pub struct AllowedOptimizations {
    /// Allow predicate pushdown through this node.
    pub predicate_pushdown: bool,
    /// Allow projection pushdown through this node.
    pub projection_pushdown: bool,
}

impl Default for AllowedOptimizations {
    /// Both pushdowns allowed.
    fn default() -> (r: Self)
        ensures
            r == (AllowedOptimizations { predicate_pushdown: true, projection_pushdown: true }),
    {
        AllowedOptimizations { predicate_pushdown: true, projection_pushdown: true }
    }
}

/// A fluent builder wrapping the current plan root.
pub struct LogicalPlanBuilder(pub LogicalPlan);

impl View for LogicalPlanBuilder {
    type V = PlanV;

    open spec fn view(&self) -> PlanV {
        self.0@
    }
}

impl From<LogicalPlan> for LogicalPlanBuilder {
    fn from(lp: LogicalPlan) -> (r: Self) {
        LogicalPlanBuilder(lp)
    }
}

impl vstd::std_specs::convert::FromSpecImpl<LogicalPlan> for LogicalPlanBuilder {
    open spec fn obeys_from_spec() -> bool {
        true
    }

    open spec fn from_spec(lp: LogicalPlan) -> Self {
        LogicalPlanBuilder(lp)
    }
}

impl LogicalPlanBuilder {
    /// Yield the owned root.
    pub fn build(self) -> (r: LogicalPlan)
        ensures
            r@ == self@,
    {
        self.0
    }

    /// Start from an in-memory table with the given schema; the table
    /// itself stays with the execution engine.
    pub fn from_existing_df(df_schema: Schema) -> (r: Self)
        ensures
            r@ == (PlanV::DataFrameScan { schema: df_schema@, projection: None, selection: None }),
            wf_plan(r@),
    {
        LogicalPlanBuilder(
            LogicalPlan::DataFrameScan { schema: df_schema, projection: None, selection: None },
        )
    }

    /// Start from a CSV scan.  The caller resolves the schema — reading
    /// or sampling the file is the application's part — and the node
    /// stores it with all scan parameters.
    pub fn scan_csv(
        path: String,
        delimiter: u8,
        has_header: bool,
        ignore_errors: bool,
        skip_rows: usize,
        stop_after_n_rows: Option<usize>,
        cache: bool,
        schema: Schema,
        low_memory: bool,
    ) -> (r: Self)
        ensures
            r@ == (PlanV::CsvScan {
                path: path@,
                schema: schema@,
                has_header,
                delimiter,
                ignore_errors,
                skip_rows,
                stop_after_n_rows,
                with_columns: None,
                predicate: None,
                aggregate: Seq::empty(),
                cache,
                low_memory,
            }),
            wf_plan(r@),
    {
        let aggregate: Vec<Expr> = Vec::new();
        proof {
            assert(view_exprs(aggregate@) =~= Seq::<ExprV>::empty());
        }
        LogicalPlanBuilder(
            LogicalPlan::CsvScan {
                path,
                schema,
                has_header,
                delimiter,
                ignore_errors,
                skip_rows,
                stop_after_n_rows,
                with_columns: None,
                predicate: None,
                aggregate,
                cache,
                low_memory,
            },
        )
    }

    /// Start from a Parquet scan.  As with CSV, the caller resolves the
    /// schema from the file's metadata.
    pub fn scan_parquet(path: String, stop_after_n_rows: Option<usize>, cache: bool, schema: Schema) -> (r:
        Self)
        ensures
            r@ == (PlanV::ParquetScan {
                path: path@,
                schema: schema@,
                with_columns: None,
                predicate: None,
                aggregate: Seq::empty(),
                stop_after_n_rows,
                cache,
            }),
            wf_plan(r@),
    {
        let aggregate: Vec<Expr> = Vec::new();
        proof {
            assert(view_exprs(aggregate@) =~= Seq::<ExprV>::empty());
        }
        LogicalPlanBuilder(
            LogicalPlan::ParquetScan {
                path,
                schema,
                with_columns: None,
                predicate: None,
                aggregate,
                stop_after_n_rows,
                cache,
            },
        )
    }

    /// Cache the current root.
    pub fn cache(self) -> (r: Self)
        ensures
            r@ == (PlanV::Cache { input: Box::new(self@) }),
            wf_plan(self@) ==> wf_plan(r@),
    {
        LogicalPlanBuilder(LogicalPlan::Cache { input: Box::new(self.0) })
    }

    /// Sort the table.  The per-column `reverse` flags must pair up with
    /// the sort expressions.
    pub fn sort(self, by_column: Vec<Expr>, reverse: Vec<bool>) -> (r: Self)
        requires
            by_column@.len() == reverse@.len(),
        ensures
            r@ == (PlanV::Sort {
                input: Box::new(self@),
                by_column: view_exprs(by_column@),
                reverse: reverse@,
            }),
            wf_plan(self@) ==> wf_plan(r@),
    {
        proof {
            crate::expr::lemma_view_exprs_len(by_column@);
        }
        LogicalPlanBuilder(LogicalPlan::Sort { input: Box::new(self.0), by_column, reverse })
    }

    /// Explode the given list columns.
    pub fn explode(self, columns: Vec<String>) -> (r: Self)
        ensures
            r@ == (PlanV::Explode { input: Box::new(self@), columns: view_strs(columns@) }),
            wf_plan(self@) ==> wf_plan(r@),
    {
        LogicalPlanBuilder(LogicalPlan::Explode { input: Box::new(self.0), columns })
    }

    /// Slice the table.
    pub fn slice(self, offset: i64, len: usize) -> (r: Self)
        ensures
            r@ == (PlanV::Slice { input: Box::new(self@), offset, len }),
            wf_plan(self@) ==> wf_plan(r@),
    {
        LogicalPlanBuilder(LogicalPlan::Slice { input: Box::new(self.0), offset, len })
    }

    /// Remove duplicate rows, optionally over a subset of columns.
    pub fn drop_duplicates(self, maintain_order: bool, subset: Option<Vec<String>>) -> (r: Self)
        ensures
            r@ == (PlanV::Distinct {
                input: Box::new(self@),
                maintain_order,
                subset: crate::plan::view_opt_strs(subset),
            }),
            wf_plan(self@) ==> wf_plan(r@),
    {
        LogicalPlanBuilder(
            LogicalPlan::Distinct { input: Box::new(self.0), maintain_order, subset },
        )
    }

    /// Wrap the plan in a user-defined function node; the optimization
    /// flags are this node's opt-out signals to the optimizer.
    pub fn map(
        self,
        function: UdfHandle,
        optimizations: AllowedOptimizations,
        schema: Option<Schema>,
    ) -> (r: Self)
        ensures
            r@ == (PlanV::Udf {
                input: Box::new(self@),
                function,
                predicate_pd: optimizations.predicate_pushdown,
                projection_pd: optimizations.projection_pushdown,
                schema: match schema {
                    Some(s) => Some(s@),
                    None => None,
                },
            }),
            wf_plan(self@) ==> wf_plan(r@),
    {
        LogicalPlanBuilder(
            LogicalPlan::Udf {
                input: Box::new(self.0),
                function,
                predicate_pd: optimizations.predicate_pushdown,
                projection_pd: optimizations.projection_pushdown,
                schema,
            },
        )
    }
}

} // verus!

verus! {

/// The predicate a frame filter stores: unchanged without a wildcard;
/// with one, the `AND` of one copy per schema field.  `None` over an
/// empty schema or when the copying meets a `Filter` expression.
pub open spec fn spec_filter_pred(v: ExprV, s: Seq<FieldV>) -> Option<ExprV> {
    if !spec_has(v, NodeKind::Wildcard) {
        Some(v)
    } else if s.len() == 0 {
        None
    } else if crate::rewrite::spec_replace_ok(v) {
        Some(crate::utils::spec_combine(crate::rewrite::spec_fanout(v, s)))
    } else {
        None
    }
}

/// The expressions a `fill_none` projects: per field `c`, the value where
/// `col(c)` is null, else `col(c)`, aliased back to `c`.
pub open spec fn spec_fill_exprs(s: Seq<FieldV>, v: ExprV) -> Seq<ExprV> {
    Seq::new(
        s.len(),
        |i: int|
            ExprV::Alias(
                Box::new(
                    ExprV::Ternary {
                        predicate: Box::new(ExprV::IsNull(Box::new(ExprV::Column(s[i].name)))),
                        truthy: Box::new(v),
                        falsy: Box::new(ExprV::Column(s[i].name)),
                    },
                ),
                s[i].name,
            ),
    )
}

/// What a `groupby` stores: the rewritten aggregations and the merged
/// schema.  `None` on empty keys or any derivation failure.
pub open spec fn spec_groupby(
    keys: Seq<ExprV>,
    aggs: Seq<ExprV>,
    s: Seq<FieldV>,
) -> Option<(Seq<ExprV>, Seq<FieldV>)> {
    if keys.len() == 0 {
        None
    } else {
        match spec_rewrite(aggs, s) {
            Some(ra) => match spec_groupby_schema(s, keys, ra) {
                Some(m) => Some((ra, m)),
                None => None,
            },
            None => None,
        }
    }
}

impl LogicalPlanBuilder {
    /// Select columns and computed expressions.  An empty canonical list
    /// is a select-all: the builder comes back unchanged.
    pub fn project(self, exprs: Vec<Expr>) -> (r: Result<Self, PlanError>)
        ensures
            match r {
                Ok(b) => match spec_prepare(view_exprs(exprs@), spec_schema_of(self@)) {
                    Some(p) => (if p.0.len() == 0 {
                        b@ == self@
                    } else {
                        b@ == (PlanV::Projection {
                            expr: p.0,
                            input: Box::new(self@),
                            schema: p.1,
                        })
                    }) && (wf_plan(self@) ==> wf_plan(b@)),
                    None => false,
                },
                Err(_) => spec_prepare(view_exprs(exprs@), spec_schema_of(self@)) is None,
            },
    {
        let prepared = prepare_projection(&exprs, self.0.schema());
        match prepared {
            Ok((es, sch)) => {
                proof {
                    crate::expr::lemma_view_exprs_len(es@);
                }
                if es.len() != 0 {
                    Ok(
                        LogicalPlanBuilder(
                            LogicalPlan::Projection {
                                expr: es,
                                input: Box::new(self.0),
                                schema: sch,
                            },
                        ),
                    )
                } else {
                    Ok(self)
                }
            },
            Err(err) => Err(err),
        }
    }

    /// Like [`LogicalPlanBuilder::project`], but the node is marked local:
    /// the optimizer must not push it down.
    pub fn project_local(self, exprs: Vec<Expr>) -> (r: Result<Self, PlanError>)
        ensures
            match r {
                Ok(b) => match spec_prepare(view_exprs(exprs@), spec_schema_of(self@)) {
                    Some(p) => (if p.0.len() == 0 {
                        b@ == self@
                    } else {
                        b@ == (PlanV::LocalProjection {
                            expr: p.0,
                            input: Box::new(self@),
                            schema: p.1,
                        })
                    }) && (wf_plan(self@) ==> wf_plan(b@)),
                    None => false,
                },
                Err(_) => spec_prepare(view_exprs(exprs@), spec_schema_of(self@)) is None,
            },
    {
        let prepared = prepare_projection(&exprs, self.0.schema());
        match prepared {
            Ok((es, sch)) => {
                proof {
                    crate::expr::lemma_view_exprs_len(es@);
                }
                if es.len() != 0 {
                    Ok(
                        LogicalPlanBuilder(
                            LogicalPlan::LocalProjection {
                                expr: es,
                                input: Box::new(self.0),
                                schema: sch,
                            },
                        ),
                    )
                } else {
                    Ok(self)
                }
            },
            Err(err) => Err(err),
        }
    }

    /// Replace null cells of every column by `fill_value`, keeping each
    /// column's name, through a local projection.
    #[verifier::loop_isolation(false)]
    pub fn fill_none(self, fill_value: Expr) -> (r: Result<Self, PlanError>)
        ensures
            match r {
                Ok(b) => match spec_prepare(
                    spec_fill_exprs(spec_schema_of(self@), view_expr(fill_value)),
                    spec_schema_of(self@),
                ) {
                    Some(p) => (if p.0.len() == 0 {
                        b@ == self@
                    } else {
                        b@ == (PlanV::LocalProjection {
                            expr: p.0,
                            input: Box::new(self@),
                            schema: p.1,
                        })
                    }) && (wf_plan(self@) ==> wf_plan(b@)),
                    None => false,
                },
                Err(_) => spec_prepare(
                    spec_fill_exprs(spec_schema_of(self@), view_expr(fill_value)),
                    spec_schema_of(self@),
                ) is None,
            },
    {
        let ghost fills = spec_fill_exprs(spec_schema_of(self@), view_expr(fill_value));
        let mut exprs: Vec<Expr> = Vec::new();
        let mut i: usize = 0;
        proof {
            assert(view_exprs(exprs@) =~= fills.take(0));
        }
        let n = self.0.schema().len();
        while i < n
            invariant
                0 <= i <= n,
                n == spec_schema_of(self@).len(),
                fills.len() == n,
                view_exprs(exprs@) == fills.take(i as int),
            decreases n - i,
        {
            let field = self.0.schema().field(i);
            let name = field.name().clone();
            let col_pred = Expr::Column(name.clone());
            let col_fallback = Expr::Column(name.clone());
            proof {
                assert(view_expr(col_pred) == ExprV::Column(name@));
                assert(view_expr(col_fallback) == ExprV::Column(name@));
            }
            let is_null = Expr::IsNull(Box::new(col_pred));
            proof {
                assert(view_expr(is_null) == ExprV::IsNull(
                    Box::new(ExprV::Column(name@)),
                ));
            }
            let ternary = Expr::Ternary {
                predicate: Box::new(is_null),
                truthy: Box::new(clone_expr(&fill_value)),
                falsy: Box::new(col_fallback),
            };
            proof {
                assert(view_expr(ternary) == ExprV::Ternary {
                    predicate: Box::new(ExprV::IsNull(Box::new(ExprV::Column(name@)))),
                    truthy: Box::new(view_expr(fill_value)),
                    falsy: Box::new(ExprV::Column(name@)),
                });
            }
            let e = Expr::Alias(Box::new(ternary), name);
            proof {
                crate::expr::lemma_view_exprs_push(exprs@, e);
                assert(fills[i as int] == view_expr(e));
                assert(fills.take(i + 1) =~= fills.take(i as int).push(fills[i as int]));
            }
            exprs.push(e);
            i += 1;
        }
        proof {
            assert(fills.take(fills.len() as int) =~= fills);
        }
        self.project_local(exprs)
    }

    /// Apply a filter.  A wildcard predicate becomes the `AND` of one
    /// copy per column of the schema.
    #[verifier::loop_isolation(false)]
    pub fn filter(self, predicate: Expr) -> (r: Result<Self, PlanError>)
        ensures
            match r {
                Ok(b) => match spec_filter_pred(view_expr(predicate), spec_schema_of(self@)) {
                    Some(pv) => b@ == (PlanV::Selection {
                        input: Box::new(self@),
                        predicate: pv,
                    }) && (wf_plan(self@) ==> wf_plan(b@)),
                    None => false,
                },
                Err(_) => spec_filter_pred(view_expr(predicate), spec_schema_of(self@)) is None,
            },
    {
        let pred = if has_expr(&predicate, NodeKind::Wildcard) {
            if self.0.schema().len() == 0 {
                return Err(
                    PlanError::InvalidArgument(
                        String::from_str("cannot filter by a wildcard over an empty schema"),
                    ),
                );
            }
            let ghost fan = crate::rewrite::spec_fanout(
                view_expr(predicate),
                spec_schema_of(self@),
            );
            let mut copies: Vec<Expr> = Vec::new();
            let mut j: usize = 0;
            proof {
                assert(view_exprs(copies@) =~= fan.take(0));
            }
            let n = self.0.schema().len();
            while j < n
                invariant
                    0 <= j <= n,
                    n == spec_schema_of(self@).len(),
                    fan.len() == n,
                    view_exprs(copies@) == fan.take(j as int),
                    j == 0 || crate::rewrite::spec_replace_ok(view_expr(predicate)),
                decreases n - j,
            {
                let fname = self.0.schema().field(j).name().clone();
                match replace_wildcard_with_column(&predicate, &fname) {
                    Ok(x) => {
                        proof {
                            crate::expr::lemma_view_exprs_push(copies@, x);
                            assert(fan[j as int] == spec_replace(
                                view_expr(predicate),
                                spec_schema_of(self@)[j as int].name,
                            ));
                            assert(fan.take(j + 1) =~= fan.take(j as int).push(fan[j as int]));
                        }
                        copies.push(x);
                    },
                    Err(err) => {
                        return Err(err);
                    },
                }
                j += 1;
            }
            proof {
                assert(fan.take(fan.len() as int) =~= fan);
                crate::expr::lemma_view_exprs_len(copies@);
            }
            crate::utils::combine_predicates_expr(copies)
        } else {
            predicate
        };
        Ok(
            LogicalPlanBuilder(
                LogicalPlan::Selection { input: Box::new(self.0), predicate: pred },
            ),
        )
    }

    /// Group by the key expressions and aggregate.  The keys must not be
    /// empty; the aggregations go through the wildcard rewriter.
    pub fn groupby(self, keys: Vec<Expr>, aggs: Vec<Expr>, apply: Option<UdfHandle>) -> (r: Result<
        Self,
        PlanError,
    >)
        ensures
            match r {
                Ok(b) => match spec_groupby(
                    view_exprs(keys@),
                    view_exprs(aggs@),
                    spec_schema_of(self@),
                ) {
                    Some(p) => b@ == (PlanV::Aggregate {
                        input: Box::new(self@),
                        keys: view_exprs(keys@),
                        aggs: p.0,
                        schema: p.1,
                        apply,
                    }) && (wf_plan(self@) ==> wf_plan(b@)),
                    None => false,
                },
                Err(_) => spec_groupby(
                    view_exprs(keys@),
                    view_exprs(aggs@),
                    spec_schema_of(self@),
                ) is None,
            },
    {
        proof {
            crate::expr::lemma_view_exprs_len(keys@);
        }
        if keys.len() == 0 {
            return Err(
                PlanError::InvalidArgument(String::from_str("a groupby needs at least one key")),
            );
        }
        let aggs2 = match rewrite_projections(&aggs, self.0.schema()) {
            Ok(a) => a,
            Err(err) => {
                return Err(err);
            },
        };
        let schema1 = match expressions_to_schema(&keys, self.0.schema(), Context::Default) {
            Ok(s) => s,
            Err(err) => {
                return Err(err);
            },
        };
        let schema2 = match expressions_to_schema(&aggs2, self.0.schema(), Context::Aggregation) {
            Ok(s) => s,
            Err(err) => {
                return Err(err);
            },
        };
        let merged = match schema1.try_merge(&schema2) {
            Ok(s) => s,
            Err(err) => {
                return Err(err);
            },
        };
        Ok(
            LogicalPlanBuilder(
                LogicalPlan::Aggregate {
                    input: Box::new(self.0),
                    keys,
                    aggs: aggs2,
                    schema: merged,
                    apply,
                },
            ),
        )
    }

    /// Append or replace computed columns: each expression's field is
    /// upserted into the schema by name.
    #[verifier::loop_isolation(false)]
    pub fn with_columns(self, exprs: Vec<Expr>) -> (r: Result<Self, PlanError>)
        ensures
            match r {
                Ok(b) => match spec_hstack_fields(spec_schema_of(self@), view_exprs(exprs@)) {
                    Some(fs) => b@ == (PlanV::HStack {
                        input: Box::new(self@),
                        exprs: view_exprs(exprs@),
                        schema: fs,
                    }) && (wf_plan(self@) ==> wf_plan(b@)),
                    None => false,
                },
                Err(_) => spec_hstack_fields(spec_schema_of(self@), view_exprs(exprs@)) is None,
            },
    {
        let ghost s0 = spec_schema_of(self@);
        let schema_fields = self.0.schema().fields();
        let mut new_fields: Vec<Field> = schema_fields.clone();
        proof {
            crate::schema::lemma_cloned_fields_view(schema_fields@, new_fields@);
            assert(view_exprs(exprs@.take(0)) =~= Seq::<ExprV>::empty());
        }
        let mut i: usize = 0;
        while i < exprs.len()
            invariant
                0 <= i <= exprs.len(),
                spec_hstack_fields(s0, view_exprs(exprs@.take(i as int))) == Some(
                    view_fields(new_fields@),
                ),
                view_fields(new_fields@).len() >= s0.len(),
            decreases exprs.len() - i,
        {
            let ghost t = view_exprs(exprs@.take(i as int));
            proof {
                crate::expr::lemma_view_exprs_len(exprs@);
                crate::expr::lemma_view_exprs_index(exprs@, i as int);
                assert(exprs@.take(i + 1).drop_last() =~= exprs@.take(i as int));
                assert(exprs@.take(i + 1).last() == exprs@[i as int]);
                assert(view_exprs(exprs@.take(i + 1)) == t.push(view_expr(exprs@[i as int])));
                assert(view_exprs(exprs@.take(i + 1)).drop_last() =~= t);
            }
            let f = match exprs[i].to_field(self.0.schema(), Context::Default) {
                Ok(f) => f,
                Err(err) => {
                    proof {
                        lemma_hstack_none_prefix(s0, view_exprs(exprs@), i as int);
                    }
                    return Err(err);
                },
            };
            match self.0.schema().index_of(f.name()) {
                Some(idx) => {
                    proof {
                        lemma_index_of_properties(s0, f@.name);
                    }
                    let ghost before = view_fields(new_fields@);
                    vstd::pervasive::VecAdditionalExecFns::set(&mut new_fields, idx, f);
                    proof {
                        assert(view_fields(new_fields@) =~= before.update(
                            idx as int,
                            new_fields@[idx as int]@,
                        ));
                    }
                },
                None => {
                    let ghost before = view_fields(new_fields@);
                    new_fields.push(f);
                    proof {
                        assert(view_fields(new_fields@) =~= before.push(
                            new_fields@.last()@,
                        ));
                    }
                },
            }
            i += 1;
        }
        proof {
            assert(exprs@.take(exprs@.len() as int) =~= exprs@);
        }
        Ok(
            LogicalPlanBuilder(
                LogicalPlan::HStack {
                    input: Box::new(self.0),
                    exprs,
                    schema: Schema::new(new_fields),
                },
            ),
        )
    }

    /// Unpivot: keep everything but the value variables, then add the
    /// `variable` and `value` columns.
    #[verifier::loop_isolation(false)]
    pub fn melt(self, id_vars: Vec<String>, value_vars: Vec<String>) -> (r: Result<
        Self,
        PlanError,
    >)
        ensures
            match r {
                Ok(b) => match spec_melt_schema(spec_schema_of(self@), view_strs(value_vars@)) {
                    Some(fs) => b@ == (PlanV::Melt {
                        input: Box::new(self@),
                        id_vars: view_strs(id_vars@),
                        value_vars: view_strs(value_vars@),
                        schema: fs,
                    }) && (wf_plan(self@) ==> wf_plan(b@)),
                    None => false,
                },
                Err(_) => spec_melt_schema(spec_schema_of(self@), view_strs(value_vars@)) is None,
            },
    {
        let ghost s0 = spec_schema_of(self@);
        let ghost vv = view_strs(value_vars@);
        if value_vars.len() == 0 {
            return Err(
                PlanError::InvalidArgument(String::from_str("a melt needs a value variable")),
            );
        }
        let value_dtype = match self.0.schema().field_with_name(&value_vars[0]) {
            Some(f) => f.data_type(),
            None => {
                return Err(PlanError::NotFound(value_vars[0].clone()));
            },
        };
        let mut fields: Vec<Field> = Vec::new();
        let mut i: usize = 0;
        proof {
            assert(view_fields(fields@) =~= spec_melt_kept(s0.take(0), vv));
        }
        let n = self.0.schema().len();
        while i < n
            invariant
                0 <= i <= n,
                n == s0.len(),
                view_fields(fields@) == spec_melt_kept(s0.take(i as int), vv),
            decreases n - i,
        {
            let field = self.0.schema().field(i);
            proof {
                assert(s0.take(i + 1).drop_last() =~= s0.take(i as int));
                assert(s0.take(i + 1).last() == s0[i as int]);
            }
            if !crate::utils::contains_str(&value_vars, field.name()) {
                let ghost before = view_fields(fields@);
                let fc = field.clone();
                fields.push(fc);
                proof {
                    assert(view_fields(fields@) =~= before.push(fields@.last()@));
                }
            }
            i += 1;
        }
        proof {
            assert(s0.take(s0.len() as int) =~= s0);
        }
        let ghost kept = view_fields(fields@);
        fields.push(Field::new(String::from_str("variable"), crate::dtypes::DataType::Utf8));
        proof {
            assert(view_fields(fields@) =~= kept.push(
                FieldV { name: "variable"@, dtype: crate::dtypes::DataType::Utf8 },
            ));
        }
        let ghost kept2 = view_fields(fields@);
        fields.push(Field::new(String::from_str("value"), value_dtype));
        proof {
            assert(view_fields(fields@) =~= kept2.push(
                FieldV { name: "value"@, dtype: value_dtype },
            ));
        }
        Ok(
            LogicalPlanBuilder(
                LogicalPlan::Melt {
                    input: Box::new(self.0),
                    id_vars,
                    value_vars,
                    schema: Schema::new(fields),
                },
            ),
        )
    }

    /// Join this plan with another.  Every `right_on` expression must
    /// yield an output name; a right column named like a left one and not
    /// part of the join keys is renamed with `_right`.
    #[verifier::loop_isolation(false)]
    pub fn join(
        self,
        other: LogicalPlan,
        how: JoinType,
        left_on: Vec<Expr>,
        right_on: Vec<Expr>,
        allow_par: bool,
        force_par: bool,
    ) -> (r: Result<Self, PlanError>)
        ensures
            match r {
                Ok(b) => match crate::utils::spec_output_names(view_exprs(right_on@)) {
                    Some(ns) => b@ == (PlanV::Join {
                        input_left: Box::new(self@),
                        input_right: Box::new(other@),
                        schema: spec_join_schema(
                            spec_schema_of(self@),
                            spec_schema_of(other@),
                            ns,
                        ),
                        how,
                        left_on: view_exprs(left_on@),
                        right_on: view_exprs(right_on@),
                        allow_par,
                        force_par,
                    }) && (wf_plan(self@) && wf_plan(other@) ==> wf_plan(b@)),
                    None => false,
                },
                Err(_) => crate::utils::spec_output_names(view_exprs(right_on@)) is None,
            },
    {
        let ghost ls = spec_schema_of(self@);
        let ghost rs = spec_schema_of(other@);
        let right_names = match crate::utils::output_names(&right_on) {
            Ok(ns) => ns,
            Err(err) => {
                return Err(err);
            },
        };
        let ghost ns = view_strs(right_names@);
        let left_fields = self.0.schema().fields();
        let mut fields: Vec<Field> = left_fields.clone();
        proof {
            crate::schema::lemma_cloned_fields_view(left_fields@, fields@);
            assert(spec_join_right_fields(ls, rs.take(0), ns) =~= Seq::<FieldV>::empty());
            assert(view_fields(fields@) =~= ls + spec_join_right_fields(ls, rs.take(0), ns));
        }
        let mut i: usize = 0;
        let n = other.schema().len();
        while i < n
            invariant
                0 <= i <= n,
                n == rs.len(),
                view_fields(fields@) == ls + spec_join_right_fields(ls, rs.take(i as int), ns),
            decreases n - i,
        {
            let field = other.schema().field(i);
            proof {
                assert(rs.take(i + 1).drop_last() =~= rs.take(i as int));
                assert(rs.take(i + 1).last() == rs[i as int]);
            }
            if !crate::utils::contains_str(&right_names, field.name()) {
                let in_left = match self.0.schema().index_of(field.name()) {
                    Some(_) => true,
                    None => false,
                };
                proof {
                    lemma_index_of_properties(ls, rs[i as int].name);
                }
                if in_left {
                    let new_name = field.name().clone().concat("_right");
                    let ghost before = view_fields(fields@);
                    fields.push(Field::new(new_name, field.data_type()));
                    proof {
                        assert(view_fields(fields@) =~= before.push(fields@.last()@));
                    }
                } else {
                    let ghost before = view_fields(fields@);
                    let fc = field.clone();
                    fields.push(fc);
                    proof {
                        assert(view_fields(fields@) =~= before.push(fields@.last()@));
                    }
                }
            }
            i += 1;
        }
        proof {
            assert(rs.take(rs.len() as int) =~= rs);
        }
        Ok(
            LogicalPlanBuilder(
                LogicalPlan::Join {
                    input_left: Box::new(self.0),
                    input_right: Box::new(other),
                    schema: Schema::new(fields),
                    how,
                    left_on,
                    right_on,
                    allow_par,
                    force_par,
                },
            ),
        )
    }
}

/// Once one expression of the list has no field, the stack has no schema.
proof fn lemma_hstack_none_prefix(s: Seq<FieldV>, vs: Seq<ExprV>, i: int)
    requires
        0 <= i < vs.len(),
        crate::field_infer::spec_to_field(vs[i], s, Context::Default) is None,
    ensures
        spec_hstack_fields(s, vs) is None,
    decreases vs,
{
    if i < vs.len() - 1 {
        assert(vs.drop_last()[i] == vs[i]);
        lemma_hstack_none_prefix(s, vs.drop_last(), i);
    }
}

} // verus!
