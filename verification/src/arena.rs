//! The index-based mirror of a plan: operator nodes in one growable
//! arena, children replaced by indices, for the optimizer's in-place
//! rewrites.  Expressions and schemas ride along by value inside their
//! node.

use vstd::prelude::*;
use crate::dtypes::JoinType;
use crate::expr::{Expr, view_expr, view_exprs};
use crate::plan::{LogicalPlan, PlanV, UdfHandle, view_opt_expr, view_opt_strs, view_plan};
use crate::schema::Schema;
use crate::utils::view_strs;

verus! {

/// One operator node of the arena form.  Every child is the index of an
/// earlier node, so a node's subtree lies entirely below it.
pub enum ALogicalPlan {
    Selection { input: usize, predicate: Expr },
    Cache { input: usize },
    CsvScan {
        path: String,
        schema: Schema,
        has_header: bool,
        delimiter: u8,
        ignore_errors: bool,
        skip_rows: usize,
        stop_after_n_rows: Option<usize>,
        with_columns: Option<Vec<String>>,
        predicate: Option<Expr>,
        aggregate: Vec<Expr>,
        cache: bool,
        low_memory: bool,
    },
    ParquetScan {
        path: String,
        schema: Schema,
        with_columns: Option<Vec<String>>,
        predicate: Option<Expr>,
        aggregate: Vec<Expr>,
        stop_after_n_rows: Option<usize>,
        cache: bool,
    },
    DataFrameScan { schema: Schema, projection: Option<Vec<Expr>>, selection: Option<Expr> },
    LocalProjection { expr: Vec<Expr>, input: usize, schema: Schema },
    Projection { expr: Vec<Expr>, input: usize, schema: Schema },
    Aggregate {
        input: usize,
        keys: Vec<Expr>,
        aggs: Vec<Expr>,
        schema: Schema,
        apply: Option<UdfHandle>,
    },
    Join {
        input_left: usize,
        input_right: usize,
        schema: Schema,
        how: JoinType,
        left_on: Vec<Expr>,
        right_on: Vec<Expr>,
        allow_par: bool,
        force_par: bool,
    },
    HStack { input: usize, exprs: Vec<Expr>, schema: Schema },
    Distinct { input: usize, maintain_order: bool, subset: Option<Vec<String>> },
    Sort { input: usize, by_column: Vec<Expr>, reverse: Vec<bool> },
    Explode { input: usize, columns: Vec<String> },
    Slice { input: usize, offset: i64, len: usize },
    Melt { input: usize, id_vars: Vec<String>, value_vars: Vec<String>, schema: Schema },
    Udf {
        input: usize,
        function: UdfHandle,
        predicate_pd: bool,
        projection_pd: bool,
        schema: Option<Schema>,
    },
}

/// The stand-in a malformed child index lifts to; a lowering produced by
/// [`LogicalPlan::into_alp`] never reaches it.
pub open spec fn lift_default() -> PlanV {
    PlanV::DataFrameScan { schema: Seq::empty(), projection: None, selection: None }
}

/// The child at `c`, lifted, provided it lies below `i`.
pub open spec fn lift_child(nodes: Seq<ALogicalPlan>, c: usize, i: int) -> PlanV
    decreases i, 0int,
{
    if c < i {
        lift(nodes, c as int)
    } else {
        lift_default()
    }
}

/// Reading the tree back out of the arena, from the node at `i` down.
pub open spec fn lift(nodes: Seq<ALogicalPlan>, i: int) -> PlanV
    decreases i, 1int,
{
    if 0 <= i < nodes.len() {
        match nodes[i] {
            ALogicalPlan::Selection { input, predicate } => PlanV::Selection {
                input: Box::new(lift_child(nodes, input, i)),
                predicate: view_expr(predicate),
            },
            ALogicalPlan::Cache { input } => PlanV::Cache {
                input: Box::new(lift_child(nodes, input, i)),
            },
            ALogicalPlan::CsvScan {
                path,
                schema,
                has_header,
                delimiter,
                ignore_errors,
                skip_rows,
                stop_after_n_rows,
                with_columns,
                predicate,
                aggregate,
                cache,
                low_memory,
            } => PlanV::CsvScan {
                path: path@,
                schema: schema@,
                has_header,
                delimiter,
                ignore_errors,
                skip_rows,
                stop_after_n_rows,
                with_columns: view_opt_strs(with_columns),
                predicate: view_opt_expr(predicate),
                aggregate: view_exprs(aggregate@),
                cache,
                low_memory,
            },
            ALogicalPlan::ParquetScan {
                path,
                schema,
                with_columns,
                predicate,
                aggregate,
                stop_after_n_rows,
                cache,
            } => PlanV::ParquetScan {
                path: path@,
                schema: schema@,
                with_columns: view_opt_strs(with_columns),
                predicate: view_opt_expr(predicate),
                aggregate: view_exprs(aggregate@),
                stop_after_n_rows,
                cache,
            },
            ALogicalPlan::DataFrameScan { schema, projection, selection } =>
                PlanV::DataFrameScan {
                schema: schema@,
                projection: match projection {
                    Some(es) => Some(view_exprs(es@)),
                    None => None,
                },
                selection: view_opt_expr(selection),
            },
            ALogicalPlan::LocalProjection { expr, input, schema } => PlanV::LocalProjection {
                expr: view_exprs(expr@),
                input: Box::new(lift_child(nodes, input, i)),
                schema: schema@,
            },
            ALogicalPlan::Projection { expr, input, schema } => PlanV::Projection {
                expr: view_exprs(expr@),
                input: Box::new(lift_child(nodes, input, i)),
                schema: schema@,
            },
            ALogicalPlan::Aggregate { input, keys, aggs, schema, apply } => PlanV::Aggregate {
                input: Box::new(lift_child(nodes, input, i)),
                keys: view_exprs(keys@),
                aggs: view_exprs(aggs@),
                schema: schema@,
                apply,
            },
            ALogicalPlan::Join {
                input_left,
                input_right,
                schema,
                how,
                left_on,
                right_on,
                allow_par,
                force_par,
            } => PlanV::Join {
                input_left: Box::new(lift_child(nodes, input_left, i)),
                input_right: Box::new(lift_child(nodes, input_right, i)),
                schema: schema@,
                how,
                left_on: view_exprs(left_on@),
                right_on: view_exprs(right_on@),
                allow_par,
                force_par,
            },
            ALogicalPlan::HStack { input, exprs, schema } => PlanV::HStack {
                input: Box::new(lift_child(nodes, input, i)),
                exprs: view_exprs(exprs@),
                schema: schema@,
            },
            ALogicalPlan::Distinct { input, maintain_order, subset } => PlanV::Distinct {
                input: Box::new(lift_child(nodes, input, i)),
                maintain_order,
                subset: view_opt_strs(subset),
            },
            ALogicalPlan::Sort { input, by_column, reverse } => PlanV::Sort {
                input: Box::new(lift_child(nodes, input, i)),
                by_column: view_exprs(by_column@),
                reverse: reverse@,
            },
            ALogicalPlan::Explode { input, columns } => PlanV::Explode {
                input: Box::new(lift_child(nodes, input, i)),
                columns: view_strs(columns@),
            },
            ALogicalPlan::Slice { input, offset, len } => PlanV::Slice {
                input: Box::new(lift_child(nodes, input, i)),
                offset,
                len,
            },
            ALogicalPlan::Melt { input, id_vars, value_vars, schema } => PlanV::Melt {
                input: Box::new(lift_child(nodes, input, i)),
                id_vars: view_strs(id_vars@),
                value_vars: view_strs(value_vars@),
                schema: schema@,
            },
            ALogicalPlan::Udf { input, function, predicate_pd, projection_pd, schema } =>
                PlanV::Udf {
                input: Box::new(lift_child(nodes, input, i)),
                function,
                predicate_pd,
                projection_pd,
                schema: match schema {
                    Some(s) => Some(s@),
                    None => None,
                },
            },
        }
    } else {
        lift_default()
    }
}

/// Growing the arena to the right does not change what an existing node
/// lifts to.
pub proof fn lemma_lift_extend(a: Seq<ALogicalPlan>, b: Seq<ALogicalPlan>, i: int)
    requires
        0 <= i < a.len(),
        a.len() <= b.len(),
        forall|j: int| 0 <= j < a.len() ==> a[j] == #[trigger] b[j],
    ensures
        lift(b, i) == lift(a, i),
    decreases i,
{
    assert(b[i] == a[i]);
    match a[i] {
        ALogicalPlan::Selection { input, .. } => {
            if input < i {
                lemma_lift_extend(a, b, input as int);
            }
        },
        ALogicalPlan::Cache { input } => {
            if input < i {
                lemma_lift_extend(a, b, input as int);
            }
        },
        ALogicalPlan::LocalProjection { input, .. } => {
            if input < i {
                lemma_lift_extend(a, b, input as int);
            }
        },
        ALogicalPlan::Projection { input, .. } => {
            if input < i {
                lemma_lift_extend(a, b, input as int);
            }
        },
        ALogicalPlan::Aggregate { input, .. } => {
            if input < i {
                lemma_lift_extend(a, b, input as int);
            }
        },
        ALogicalPlan::Join { input_left, input_right, .. } => {
            if input_left < i {
                lemma_lift_extend(a, b, input_left as int);
            }
            if input_right < i {
                lemma_lift_extend(a, b, input_right as int);
            }
        },
        ALogicalPlan::HStack { input, .. } => {
            if input < i {
                lemma_lift_extend(a, b, input as int);
            }
        },
        ALogicalPlan::Distinct { input, .. } => {
            if input < i {
                lemma_lift_extend(a, b, input as int);
            }
        },
        ALogicalPlan::Sort { input, .. } => {
            if input < i {
                lemma_lift_extend(a, b, input as int);
            }
        },
        ALogicalPlan::Explode { input, .. } => {
            if input < i {
                lemma_lift_extend(a, b, input as int);
            }
        },
        ALogicalPlan::Slice { input, .. } => {
            if input < i {
                lemma_lift_extend(a, b, input as int);
            }
        },
        ALogicalPlan::Melt { input, .. } => {
            if input < i {
                lemma_lift_extend(a, b, input as int);
            }
        },
        ALogicalPlan::Udf { input, .. } => {
            if input < i {
                lemma_lift_extend(a, b, input as int);
            }
        },
        _ => (),
    }
}

impl LogicalPlan {
    /// Move this tree into `lp_arena`, post-order, and return the root's
    /// index.  The lowering is total and order-preserving, and invertible:
    /// lifting the returned index out of the grown arena gives this tree
    /// back.  Nodes already in the arena stay as they were.
    #[verifier::rlimit(100)]
    pub fn to_alp(self, lp_arena: &mut Vec<ALogicalPlan>) -> (r: usize)
        ensures
            final(lp_arena)@.len() == old(lp_arena)@.len() + spec_node_count(self@),
            r == final(lp_arena)@.len() - 1,
            forall|j: int| #![trigger final(lp_arena)@[j]]
                0 <= j < old(lp_arena)@.len() ==> old(lp_arena)@[j] == final(lp_arena)@[j],
            lift(final(lp_arena)@, r as int) == self@,
        decreases self,
    {
        match self {
            LogicalPlan::Selection { input, predicate } => {
                let ci = (*input).to_alp(lp_arena);
                let ghost mid = lp_arena@;
                lp_arena.push(ALogicalPlan::Selection { input: ci, predicate });
                proof {
                    lemma_lift_extend(mid, lp_arena@, ci as int);
                }
                lp_arena.len() - 1
            },
            LogicalPlan::Cache { input } => {
                let ci = (*input).to_alp(lp_arena);
                let ghost mid = lp_arena@;
                lp_arena.push(ALogicalPlan::Cache { input: ci });
                proof {
                    lemma_lift_extend(mid, lp_arena@, ci as int);
                }
                lp_arena.len() - 1
            },
            LogicalPlan::CsvScan {
                path,
                schema,
                has_header,
                delimiter,
                ignore_errors,
                skip_rows,
                stop_after_n_rows,
                with_columns,
                predicate,
                aggregate,
                cache,
                low_memory,
            } => {
                lp_arena.push(
                    ALogicalPlan::CsvScan {
                        path,
                        schema,
                        has_header,
                        delimiter,
                        ignore_errors,
                        skip_rows,
                        stop_after_n_rows,
                        with_columns,
                        predicate,
                        aggregate,
                        cache,
                        low_memory,
                    },
                );
                lp_arena.len() - 1
            },
            LogicalPlan::ParquetScan {
                path,
                schema,
                with_columns,
                predicate,
                aggregate,
                stop_after_n_rows,
                cache,
            } => {
                lp_arena.push(
                    ALogicalPlan::ParquetScan {
                        path,
                        schema,
                        with_columns,
                        predicate,
                        aggregate,
                        stop_after_n_rows,
                        cache,
                    },
                );
                lp_arena.len() - 1
            },
            LogicalPlan::DataFrameScan { schema, projection, selection } => {
                lp_arena.push(ALogicalPlan::DataFrameScan { schema, projection, selection });
                lp_arena.len() - 1
            },
            LogicalPlan::LocalProjection { expr, input, schema } => {
                let ci = (*input).to_alp(lp_arena);
                let ghost mid = lp_arena@;
                lp_arena.push(ALogicalPlan::LocalProjection { expr, input: ci, schema });
                proof {
                    lemma_lift_extend(mid, lp_arena@, ci as int);
                }
                lp_arena.len() - 1
            },
            LogicalPlan::Projection { expr, input, schema } => {
                let ci = (*input).to_alp(lp_arena);
                let ghost mid = lp_arena@;
                lp_arena.push(ALogicalPlan::Projection { expr, input: ci, schema });
                proof {
                    lemma_lift_extend(mid, lp_arena@, ci as int);
                }
                lp_arena.len() - 1
            },
            LogicalPlan::Aggregate { input, keys, aggs, schema, apply } => {
                let ci = (*input).to_alp(lp_arena);
                let ghost mid = lp_arena@;
                lp_arena.push(ALogicalPlan::Aggregate { input: ci, keys, aggs, schema, apply });
                proof {
                    lemma_lift_extend(mid, lp_arena@, ci as int);
                }
                lp_arena.len() - 1
            },
            LogicalPlan::Join {
                input_left,
                input_right,
                schema,
                how,
                left_on,
                right_on,
                allow_par,
                force_par,
            } => {
                let cl = (*input_left).to_alp(lp_arena);
                let ghost mid1 = lp_arena@;
                let cr = (*input_right).to_alp(lp_arena);
                let ghost mid2 = lp_arena@;
                proof {
                    lemma_lift_extend(mid1, mid2, cl as int);
                }
                lp_arena.push(
                    ALogicalPlan::Join {
                        input_left: cl,
                        input_right: cr,
                        schema,
                        how,
                        left_on,
                        right_on,
                        allow_par,
                        force_par,
                    },
                );
                proof {
                    lemma_lift_extend(mid2, lp_arena@, cl as int);
                    lemma_lift_extend(mid2, lp_arena@, cr as int);
                }
                lp_arena.len() - 1
            },
            LogicalPlan::HStack { input, exprs, schema } => {
                let ci = (*input).to_alp(lp_arena);
                let ghost mid = lp_arena@;
                lp_arena.push(ALogicalPlan::HStack { input: ci, exprs, schema });
                proof {
                    lemma_lift_extend(mid, lp_arena@, ci as int);
                }
                lp_arena.len() - 1
            },
            LogicalPlan::Distinct { input, maintain_order, subset } => {
                let ci = (*input).to_alp(lp_arena);
                let ghost mid = lp_arena@;
                lp_arena.push(ALogicalPlan::Distinct { input: ci, maintain_order, subset });
                proof {
                    lemma_lift_extend(mid, lp_arena@, ci as int);
                }
                lp_arena.len() - 1
            },
            LogicalPlan::Sort { input, by_column, reverse } => {
                let ci = (*input).to_alp(lp_arena);
                let ghost mid = lp_arena@;
                lp_arena.push(ALogicalPlan::Sort { input: ci, by_column, reverse });
                proof {
                    lemma_lift_extend(mid, lp_arena@, ci as int);
                }
                lp_arena.len() - 1
            },
            LogicalPlan::Explode { input, columns } => {
                let ci = (*input).to_alp(lp_arena);
                let ghost mid = lp_arena@;
                lp_arena.push(ALogicalPlan::Explode { input: ci, columns });
                proof {
                    lemma_lift_extend(mid, lp_arena@, ci as int);
                }
                lp_arena.len() - 1
            },
            LogicalPlan::Slice { input, offset, len } => {
                let ci = (*input).to_alp(lp_arena);
                let ghost mid = lp_arena@;
                lp_arena.push(ALogicalPlan::Slice { input: ci, offset, len });
                proof {
                    lemma_lift_extend(mid, lp_arena@, ci as int);
                }
                lp_arena.len() - 1
            },
            LogicalPlan::Melt { input, id_vars, value_vars, schema } => {
                let ci = (*input).to_alp(lp_arena);
                let ghost mid = lp_arena@;
                lp_arena.push(ALogicalPlan::Melt { input: ci, id_vars, value_vars, schema });
                proof {
                    lemma_lift_extend(mid, lp_arena@, ci as int);
                }
                lp_arena.len() - 1
            },
            LogicalPlan::Udf { input, function, predicate_pd, projection_pd, schema } => {
                let ci = (*input).to_alp(lp_arena);
                let ghost mid = lp_arena@;
                lp_arena.push(
                    ALogicalPlan::Udf { input: ci, function, predicate_pd, projection_pd, schema },
                );
                proof {
                    lemma_lift_extend(mid, lp_arena@, ci as int);
                }
                lp_arena.len() - 1
            },
        }
    }

    /// Lower this tree into a fresh arena; the root comes back with it.
    pub fn into_alp(self) -> (r: (usize, Vec<ALogicalPlan>))
        ensures
            r.1@.len() == spec_node_count(self@),
            r.0 == r.1@.len() - 1,
            lift(r.1@, r.0 as int) == self@,
    {
        let mut lp_arena: Vec<ALogicalPlan> = Vec::new();
        let root = self.to_alp(&mut lp_arena);
        (root, lp_arena)
    }
}

/// The number of operator nodes of a tree.
pub open spec fn spec_node_count(p: PlanV) -> nat
    decreases p,
{
    match p {
        PlanV::CsvScan { .. } => 1,
        PlanV::ParquetScan { .. } => 1,
        PlanV::DataFrameScan { .. } => 1,
        PlanV::Selection { input, .. } => 1 + spec_node_count(*input),
        PlanV::Cache { input } => 1 + spec_node_count(*input),
        PlanV::LocalProjection { input, .. } => 1 + spec_node_count(*input),
        PlanV::Projection { input, .. } => 1 + spec_node_count(*input),
        PlanV::Aggregate { input, .. } => 1 + spec_node_count(*input),
        PlanV::Join { input_left, input_right, .. } => 1 + spec_node_count(*input_left)
            + spec_node_count(*input_right),
        PlanV::HStack { input, .. } => 1 + spec_node_count(*input),
        PlanV::Distinct { input, .. } => 1 + spec_node_count(*input),
        PlanV::Sort { input, .. } => 1 + spec_node_count(*input),
        PlanV::Explode { input, .. } => 1 + spec_node_count(*input),
        PlanV::Slice { input, .. } => 1 + spec_node_count(*input),
        PlanV::Melt { input, .. } => 1 + spec_node_count(*input),
        PlanV::Udf { input, .. } => 1 + spec_node_count(*input),
    }
}

} // verus!
