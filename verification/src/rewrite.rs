//! The wildcard/exception rewriter: normalizes a user expression list
//! against a schema by expanding `Wildcard`, collapsing a counted wildcard
//! to one column, and applying `Except` exclusions.

use vstd::prelude::*;
use vstd::string::StringExecFns;
use crate::error::PlanError;
use crate::expr::{AggExpr, AggExprV, Expr, ExprV, clone_expr, view_agg, view_expr, view_exprs};
use crate::schema::{FieldV, Schema};
use crate::utils::{NodeKind, has_expr, rename_expr_root_name, spec_has, spec_rename,
    spec_root_name, view_strs};

verus! {

/// The deep copy of `v` with every `Wildcard` replaced by `Column(n)`.
///
/// The substitution passes through every rewritten position: both sides of
/// a binary expression, each input of an n-ary function, the function of a
/// window (its partition and order stay), all three legs of a ternary, the
/// input of every aggregation, flag operation, sort, shift, slice and cast.
/// `Column`, `Literal` and `Except` stay; a `Take` index stays.  A `Filter`
/// node is left in place here; reaching one is the error the executable
/// rewriter reports.
pub open spec fn spec_replace(v: ExprV, n: Seq<char>) -> ExprV
    decreases v,
{
    match v {
        ExprV::Wildcard => ExprV::Column(n),
        ExprV::Column(_) => v,
        ExprV::Literal(_) => v,
        ExprV::Except(_) => v,
        ExprV::Filter { .. } => v,
        ExprV::Alias(e, a) => ExprV::Alias(Box::new(spec_replace(*e, n)), a),
        ExprV::BinaryExpr { left, op, right } => ExprV::BinaryExpr {
            left: Box::new(spec_replace(*left, n)),
            op,
            right: Box::new(spec_replace(*right, n)),
        },
        ExprV::Not(e) => ExprV::Not(Box::new(spec_replace(*e, n))),
        ExprV::IsNotNull(e) => ExprV::IsNotNull(Box::new(spec_replace(*e, n))),
        ExprV::IsNull(e) => ExprV::IsNull(Box::new(spec_replace(*e, n))),
        ExprV::Cast { expr, data_type } => ExprV::Cast {
            expr: Box::new(spec_replace(*expr, n)),
            data_type,
        },
        ExprV::Sort { expr, reverse } => ExprV::Sort {
            expr: Box::new(spec_replace(*expr, n)),
            reverse,
        },
        ExprV::Take { expr, idx } => ExprV::Take { expr: Box::new(spec_replace(*expr, n)), idx },
        ExprV::SortBy { expr, by, reverse } => ExprV::SortBy {
            expr: Box::new(spec_replace(*expr, n)),
            by,
            reverse,
        },
        ExprV::Agg(a) => ExprV::Agg(spec_replace_agg(a, n)),
        ExprV::Ternary { predicate, truthy, falsy } => ExprV::Ternary {
            predicate: Box::new(spec_replace(*predicate, n)),
            truthy: Box::new(spec_replace(*truthy, n)),
            falsy: Box::new(spec_replace(*falsy, n)),
        },
        ExprV::Function { inputs, output_type } => ExprV::Function {
            inputs: spec_replace_list(inputs, n),
            output_type,
        },
        ExprV::BinaryFunction { input_a, input_b, output_field } => ExprV::BinaryFunction {
            input_a: Box::new(spec_replace(*input_a, n)),
            input_b: Box::new(spec_replace(*input_b, n)),
            output_field,
        },
        ExprV::Shift { input, periods } => ExprV::Shift {
            input: Box::new(spec_replace(*input, n)),
            periods,
        },
        ExprV::Reverse(e) => ExprV::Reverse(Box::new(spec_replace(*e, n))),
        ExprV::Duplicated(e) => ExprV::Duplicated(Box::new(spec_replace(*e, n))),
        ExprV::IsUnique(e) => ExprV::IsUnique(Box::new(spec_replace(*e, n))),
        ExprV::Explode(e) => ExprV::Explode(Box::new(spec_replace(*e, n))),
        ExprV::Window { function, partition_by, order_by } => ExprV::Window {
            function: Box::new(spec_replace(*function, n)),
            partition_by,
            order_by,
        },
        ExprV::Slice { input, offset, length } => ExprV::Slice {
            input: Box::new(spec_replace(*input, n)),
            offset,
            length,
        },
    }
}

/// The substitution through an aggregation's input.
pub open spec fn spec_replace_agg(a: AggExprV, n: Seq<char>) -> AggExprV
    decreases a,
{
    match a {
        AggExprV::Min(e) => AggExprV::Min(Box::new(spec_replace(*e, n))),
        AggExprV::Max(e) => AggExprV::Max(Box::new(spec_replace(*e, n))),
        AggExprV::Median(e) => AggExprV::Median(Box::new(spec_replace(*e, n))),
        AggExprV::NUnique(e) => AggExprV::NUnique(Box::new(spec_replace(*e, n))),
        AggExprV::First(e) => AggExprV::First(Box::new(spec_replace(*e, n))),
        AggExprV::Last(e) => AggExprV::Last(Box::new(spec_replace(*e, n))),
        AggExprV::Mean(e) => AggExprV::Mean(Box::new(spec_replace(*e, n))),
        AggExprV::List(e) => AggExprV::List(Box::new(spec_replace(*e, n))),
        AggExprV::Count(e) => AggExprV::Count(Box::new(spec_replace(*e, n))),
        AggExprV::Quantile { expr, quantile } => AggExprV::Quantile {
            expr: Box::new(spec_replace(*expr, n)),
            quantile,
        },
        AggExprV::Sum(e) => AggExprV::Sum(Box::new(spec_replace(*e, n))),
        AggExprV::AggGroups(e) => AggExprV::AggGroups(Box::new(spec_replace(*e, n))),
        AggExprV::Std(e) => AggExprV::Std(Box::new(spec_replace(*e, n))),
        AggExprV::Var(e) => AggExprV::Var(Box::new(spec_replace(*e, n))),
    }
}

/// The substitution applied to each element of `s`.
pub open spec fn spec_replace_list(s: Seq<ExprV>, n: Seq<char>) -> Seq<ExprV>
    decreases s,
{
    if s.len() == 0 {
        Seq::empty()
    } else {
        spec_replace_list(s.drop_last(), n).push(spec_replace(s.last(), n))
    }
}

/// True when the substitution walk through `v` meets no `Filter` node.
pub open spec fn spec_replace_ok(v: ExprV) -> bool
    decreases v,
{
    match v {
        ExprV::Wildcard => true,
        ExprV::Column(_) => true,
        ExprV::Literal(_) => true,
        ExprV::Except(_) => true,
        ExprV::Filter { .. } => false,
        ExprV::Alias(e, _) => spec_replace_ok(*e),
        ExprV::BinaryExpr { left, right, .. } => spec_replace_ok(*left) && spec_replace_ok(*right),
        ExprV::Not(e) => spec_replace_ok(*e),
        ExprV::IsNotNull(e) => spec_replace_ok(*e),
        ExprV::IsNull(e) => spec_replace_ok(*e),
        ExprV::Cast { expr, .. } => spec_replace_ok(*expr),
        ExprV::Sort { expr, .. } => spec_replace_ok(*expr),
        ExprV::Take { expr, .. } => spec_replace_ok(*expr),
        ExprV::SortBy { expr, .. } => spec_replace_ok(*expr),
        ExprV::Agg(a) => spec_replace_ok(spec_agg_arg(a)),
        ExprV::Ternary { predicate, truthy, falsy } => spec_replace_ok(*predicate)
            && spec_replace_ok(*truthy) && spec_replace_ok(*falsy),
        ExprV::Function { inputs, .. } => spec_replace_list_ok(inputs),
        ExprV::BinaryFunction { input_a, input_b, .. } => spec_replace_ok(*input_a)
            && spec_replace_ok(*input_b),
        ExprV::Shift { input, .. } => spec_replace_ok(*input),
        ExprV::Reverse(e) => spec_replace_ok(*e),
        ExprV::Duplicated(e) => spec_replace_ok(*e),
        ExprV::IsUnique(e) => spec_replace_ok(*e),
        ExprV::Explode(e) => spec_replace_ok(*e),
        ExprV::Window { function, .. } => spec_replace_ok(*function),
        ExprV::Slice { input, .. } => spec_replace_ok(*input),
    }
}

/// The input expression of an aggregation (spec convenience).
pub open spec fn spec_agg_arg(a: AggExprV) -> ExprV {
    crate::field_infer::spec_agg_inner(a)
}

/// True when the walk through every element of `s` meets no `Filter`.
pub open spec fn spec_replace_list_ok(s: Seq<ExprV>) -> bool
    decreases s,
{
    if s.len() == 0 {
        true
    } else {
        spec_replace_list_ok(s.drop_last()) && spec_replace_ok(s.last())
    }
}

/// Rebuild `e` with every `Wildcard` replaced by a column named
/// `column_name`, as [`spec_replace`] says.  The error comes exactly when
/// the walk meets a `Filter` expression: a frame-level filter must be used
/// instead.
pub fn replace_wildcard_with_column(e: &Expr, column_name: &String) -> (r: Result<Expr, PlanError>)
    ensures
        match r {
            Ok(x) => spec_replace_ok(e@) && x@ == spec_replace(e@, column_name@),
            Err(_) => !spec_replace_ok(e@),
        },
    decreases e, 1int,
{
    match e {
        Expr::Wildcard => Ok(Expr::Column(column_name.clone())),
        Expr::Column(n) => Ok(Expr::Column(n.clone())),
        Expr::Literal(v) => Ok(Expr::Literal(crate::literal::clone_literal(v))),
        Expr::Except(x) => Ok(Expr::Except(Box::new(clone_expr(x)))),
        Expr::Filter { .. } => Err(
            PlanError::InvalidOperation(
                String::from_str(
                    "a filter expression may not be used with a wildcard; filter the frame instead",
                ),
            ),
        ),
        Expr::Alias(inner, a) => match replace_wildcard_with_column(inner, column_name) {
            Ok(x) => Ok(Expr::Alias(Box::new(x), a.clone())),
            Err(err) => Err(err),
        },
        Expr::BinaryExpr { left, op, right } => {
            match (
                replace_wildcard_with_column(left, column_name),
                replace_wildcard_with_column(right, column_name),
            ) {
                (Ok(l2), Ok(r2)) => Ok(
                    Expr::BinaryExpr { left: Box::new(l2), op: *op, right: Box::new(r2) },
                ),
                (Err(err), _) => Err(err),
                (_, Err(err)) => Err(err),
            }
        },
        Expr::Not(x) => match replace_wildcard_with_column(x, column_name) {
            Ok(y) => Ok(Expr::Not(Box::new(y))),
            Err(err) => Err(err),
        },
        Expr::IsNotNull(x) => match replace_wildcard_with_column(x, column_name) {
            Ok(y) => Ok(Expr::IsNotNull(Box::new(y))),
            Err(err) => Err(err),
        },
        Expr::IsNull(x) => match replace_wildcard_with_column(x, column_name) {
            Ok(y) => Ok(Expr::IsNull(Box::new(y))),
            Err(err) => Err(err),
        },
        Expr::Cast { expr, data_type } => match replace_wildcard_with_column(expr, column_name) {
            Ok(y) => Ok(Expr::Cast { expr: Box::new(y), data_type: *data_type }),
            Err(err) => Err(err),
        },
        Expr::Sort { expr, reverse } => match replace_wildcard_with_column(expr, column_name) {
            Ok(y) => Ok(Expr::Sort { expr: Box::new(y), reverse: *reverse }),
            Err(err) => Err(err),
        },
        Expr::Take { expr, idx } => match replace_wildcard_with_column(expr, column_name) {
            Ok(y) => Ok(Expr::Take { expr: Box::new(y), idx: Box::new(clone_expr(idx)) }),
            Err(err) => Err(err),
        },
        Expr::SortBy { expr, by, reverse } => match replace_wildcard_with_column(
            expr,
            column_name,
        ) {
            Ok(y) => Ok(
                Expr::SortBy {
                    expr: Box::new(y),
                    by: Box::new(clone_expr(by)),
                    reverse: *reverse,
                },
            ),
            Err(err) => Err(err),
        },
        Expr::Agg(a) => match replace_wildcard_in_agg(a, column_name) {
            Ok(x) => Ok(Expr::Agg(x)),
            Err(err) => Err(err),
        },
        Expr::Ternary { predicate, truthy, falsy } => {
            match (
                replace_wildcard_with_column(predicate, column_name),
                replace_wildcard_with_column(truthy, column_name),
                replace_wildcard_with_column(falsy, column_name),
            ) {
                (Ok(p2), Ok(t2), Ok(f2)) => Ok(
                    Expr::Ternary {
                        predicate: Box::new(p2),
                        truthy: Box::new(t2),
                        falsy: Box::new(f2),
                    },
                ),
                (Err(err), _, _) => Err(err),
                (_, Err(err), _) => Err(err),
                (_, _, Err(err)) => Err(err),
            }
        },
        Expr::Function { inputs, output_type } => {
            proof {
                let g: Expr = *e;
                assert(decreases_to!(g => g->inputs));
            }
            match replace_wildcard_in_list(inputs, column_name) {
                Ok(xs) => Ok(
                    Expr::Function {
                        inputs: xs,
                        output_type: match output_type {
                            Some(d) => Some(*d),
                            None => None,
                        },
                    },
                ),
                Err(err) => Err(err),
            }
        },
        Expr::BinaryFunction { input_a, input_b, output_field } => {
            match (
                replace_wildcard_with_column(input_a, column_name),
                replace_wildcard_with_column(input_b, column_name),
            ) {
                (Ok(a2), Ok(b2)) => Ok(
                    Expr::BinaryFunction {
                        input_a: Box::new(a2),
                        input_b: Box::new(b2),
                        output_field: match output_field {
                            Some(f) => Some(f.clone()),
                            None => None,
                        },
                    },
                ),
                (Err(err), _) => Err(err),
                (_, Err(err)) => Err(err),
            }
        },
        Expr::Shift { input, periods } => match replace_wildcard_with_column(input, column_name) {
            Ok(y) => Ok(Expr::Shift { input: Box::new(y), periods: *periods }),
            Err(err) => Err(err),
        },
        Expr::Reverse(x) => match replace_wildcard_with_column(x, column_name) {
            Ok(y) => Ok(Expr::Reverse(Box::new(y))),
            Err(err) => Err(err),
        },
        Expr::Duplicated(x) => match replace_wildcard_with_column(x, column_name) {
            Ok(y) => Ok(Expr::Duplicated(Box::new(y))),
            Err(err) => Err(err),
        },
        Expr::IsUnique(x) => match replace_wildcard_with_column(x, column_name) {
            Ok(y) => Ok(Expr::IsUnique(Box::new(y))),
            Err(err) => Err(err),
        },
        Expr::Explode(x) => match replace_wildcard_with_column(x, column_name) {
            Ok(y) => Ok(Expr::Explode(Box::new(y))),
            Err(err) => Err(err),
        },
        Expr::Window { function, partition_by, order_by } => {
            match replace_wildcard_with_column(function, column_name) {
                Ok(y) => Ok(
                    Expr::Window {
                        function: Box::new(y),
                        partition_by: Box::new(clone_expr(partition_by)),
                        order_by: match order_by {
                            Some(o) => Some(Box::new(clone_expr(o))),
                            None => None,
                        },
                    },
                ),
                Err(err) => Err(err),
            }
        },
        Expr::Slice { input, offset, length } => {
            match replace_wildcard_with_column(input, column_name) {
                Ok(y) => Ok(
                    Expr::Slice { input: Box::new(y), offset: *offset, length: *length },
                ),
                Err(err) => Err(err),
            }
        },
    }
}

/// The substitution through an aggregation's input.
fn replace_wildcard_in_agg(a: &AggExpr, column_name: &String) -> (r: Result<AggExpr, PlanError>)
    ensures
        match r {
            Ok(x) => spec_replace_ok(ExprV::Agg(view_agg(*a))) && view_agg(x) == spec_replace_agg(
                view_agg(*a),
                column_name@,
            ),
            Err(_) => !spec_replace_ok(ExprV::Agg(view_agg(*a))),
        },
    decreases a, 1int,
{
    match a {
        AggExpr::Min(x) => match replace_wildcard_with_column(x, column_name) {
            Ok(y) => Ok(AggExpr::Min(Box::new(y))),
            Err(err) => Err(err),
        },
        AggExpr::Max(x) => match replace_wildcard_with_column(x, column_name) {
            Ok(y) => Ok(AggExpr::Max(Box::new(y))),
            Err(err) => Err(err),
        },
        AggExpr::Median(x) => match replace_wildcard_with_column(x, column_name) {
            Ok(y) => Ok(AggExpr::Median(Box::new(y))),
            Err(err) => Err(err),
        },
        AggExpr::NUnique(x) => match replace_wildcard_with_column(x, column_name) {
            Ok(y) => Ok(AggExpr::NUnique(Box::new(y))),
            Err(err) => Err(err),
        },
        AggExpr::First(x) => match replace_wildcard_with_column(x, column_name) {
            Ok(y) => Ok(AggExpr::First(Box::new(y))),
            Err(err) => Err(err),
        },
        AggExpr::Last(x) => match replace_wildcard_with_column(x, column_name) {
            Ok(y) => Ok(AggExpr::Last(Box::new(y))),
            Err(err) => Err(err),
        },
        AggExpr::Mean(x) => match replace_wildcard_with_column(x, column_name) {
            Ok(y) => Ok(AggExpr::Mean(Box::new(y))),
            Err(err) => Err(err),
        },
        AggExpr::List(x) => match replace_wildcard_with_column(x, column_name) {
            Ok(y) => Ok(AggExpr::List(Box::new(y))),
            Err(err) => Err(err),
        },
        AggExpr::Count(x) => match replace_wildcard_with_column(x, column_name) {
            Ok(y) => Ok(AggExpr::Count(Box::new(y))),
            Err(err) => Err(err),
        },
        AggExpr::Quantile { expr, quantile } => match replace_wildcard_with_column(
            expr,
            column_name,
        ) {
            Ok(y) => Ok(AggExpr::Quantile { expr: Box::new(y), quantile: *quantile }),
            Err(err) => Err(err),
        },
        AggExpr::Sum(x) => match replace_wildcard_with_column(x, column_name) {
            Ok(y) => Ok(AggExpr::Sum(Box::new(y))),
            Err(err) => Err(err),
        },
        AggExpr::AggGroups(x) => match replace_wildcard_with_column(x, column_name) {
            Ok(y) => Ok(AggExpr::AggGroups(Box::new(y))),
            Err(err) => Err(err),
        },
        AggExpr::Std(x) => match replace_wildcard_with_column(x, column_name) {
            Ok(y) => Ok(AggExpr::Std(Box::new(y))),
            Err(err) => Err(err),
        },
        AggExpr::Var(x) => match replace_wildcard_with_column(x, column_name) {
            Ok(y) => Ok(AggExpr::Var(Box::new(y))),
            Err(err) => Err(err),
        },
    }
}

/// The substitution applied to each element of `es`.
fn replace_wildcard_in_list(es: &Vec<Expr>, column_name: &String) -> (r: Result<
    Vec<Expr>,
    PlanError,
>)
    ensures
        match r {
            Ok(xs) => spec_replace_list_ok(view_exprs(es@)) && view_exprs(xs@)
                == spec_replace_list(view_exprs(es@), column_name@),
            Err(_) => !spec_replace_list_ok(view_exprs(es@)),
        },
    decreases es, 0int,
{
    let mut out: Vec<Expr> = Vec::new();
    let mut i: usize = 0;
    proof {
        assert(view_exprs(es@.take(0)) =~= Seq::<ExprV>::empty());
        assert(view_exprs(out@) =~= Seq::<ExprV>::empty());
    }
    while i < es.len()
        invariant
            0 <= i <= es.len(),
            spec_replace_list_ok(view_exprs(es@.take(i as int))),
            view_exprs(out@) == spec_replace_list(view_exprs(es@.take(i as int)), column_name@),
        decreases es.len() - i,
    {
        proof {
            vstd::std_specs::vec::axiom_vec_index_decreases::<Expr>(*es, i as int);
        }
        let ghost t = view_exprs(es@.take(i as int));
        proof {
            assert(es@.take(i + 1).drop_last() =~= es@.take(i as int));
            assert(es@.take(i + 1).last() == es@[i as int]);
            assert(view_exprs(es@.take(i + 1)) == t.push(view_expr(es@[i as int])));
            assert(view_exprs(es@.take(i + 1)).drop_last() =~= t);
        }
        match replace_wildcard_with_column(&es[i], column_name) {
            Ok(x) => {
                let ghost before = view_exprs(out@);
                proof {
                    crate::expr::lemma_view_exprs_push(out@, x);
                }
                out.push(x);
            },
            Err(err) => {
                proof {
                    crate::expr::lemma_view_exprs_len(es@);
                    crate::expr::lemma_view_exprs_index(es@, i as int);
                    lemma_replace_list_not_ok(view_exprs(es@), i as int);
                }
                return Err(err);
            },
        }
        i += 1;
    }
    proof {
        assert(es@.take(es@.len() as int) =~= es@);
    }
    Ok(out)
}

/// If the walk fails on one element it fails on the list.
proof fn lemma_replace_list_not_ok(vs: Seq<ExprV>, i: int)
    requires
        0 <= i < vs.len(),
        !spec_replace_ok(vs[i]),
    ensures
        !spec_replace_list_ok(vs),
    decreases vs,
{
    if i < vs.len() - 1 {
        assert(vs.drop_last()[i] == vs[i]);
        lemma_replace_list_not_ok(vs.drop_last(), i);
    }
}

} // verus!

verus! {

/// The alias a collapsed counted wildcard gets: the expression itself when
/// already aliased, else wrapped in `Alias("count")`.
pub open spec fn spec_count_alias(x: ExprV) -> ExprV {
    if x is Alias {
        x
    } else {
        ExprV::Alias(Box::new(x), "count"@)
    }
}

/// One copy of `v` per field of `s`, each with the wildcard replaced by
/// that field's column.
pub open spec fn spec_fanout(v: ExprV, s: Seq<FieldV>) -> Seq<ExprV> {
    Seq::new(s.len(), |i: int| spec_replace(v, s[i].name))
}

/// What one input expression contributes to the rewritten list: nothing
/// for an `Except` shell, one renamed and aliased copy for a counted
/// wildcard, one copy per schema field for any other wildcard-bearing
/// expression, and the expression itself otherwise.  `None` on an `Except`
/// over a non-column, a wildcard count over an empty schema, a count whose
/// root cannot be renamed, or a `Filter` met during substitution.
pub open spec fn spec_emit_one(v: ExprV, s: Seq<FieldV>) -> Option<Seq<ExprV>> {
    match v {
        ExprV::Except(inner) => match *inner {
            ExprV::Column(_) => Some(Seq::empty()),
            _ => None,
        },
        _ => if spec_has(v, NodeKind::Wildcard) {
            if spec_has(v, NodeKind::CountAgg) {
                if s.len() == 0 {
                    None
                } else {
                    match spec_rename(v, s[0].name) {
                        Some(x) => Some(seq![spec_count_alias(x)]),
                        None => None,
                    }
                }
            } else {
                if s.len() == 0 || spec_replace_ok(v) {
                    Some(spec_fanout(v, s))
                } else {
                    None
                }
            }
        } else {
            Some(seq![v])
        },
    }
}

/// The rewritten list before exclusions: the contributions of the inputs,
/// in input order.
pub open spec fn spec_emitted(vs: Seq<ExprV>, s: Seq<FieldV>) -> Option<Seq<ExprV>>
    decreases vs,
{
    if vs.len() == 0 {
        Some(Seq::empty())
    } else {
        match (spec_emitted(vs.drop_last(), s), spec_emit_one(vs.last(), s)) {
            (Some(a), Some(b)) => Some(a + b),
            _ => None,
        }
    }
}

/// The excluded column names, in input order; `None` on an `Except` over a
/// non-column.
pub open spec fn spec_excluded(vs: Seq<ExprV>) -> Option<Seq<Seq<char>>>
    decreases vs,
{
    if vs.len() == 0 {
        Some(Seq::empty())
    } else {
        match spec_excluded(vs.drop_last()) {
            None => None,
            Some(ns) => match vs.last() {
                ExprV::Except(inner) => match *inner {
                    ExprV::Column(n) => Some(ns.push(n)),
                    _ => None,
                },
                _ => Some(ns),
            },
        }
    }
}

/// The position of the first expression of `rs` whose root column is `n`.
pub open spec fn spec_first_root_idx(rs: Seq<ExprV>, n: Seq<char>) -> Option<int>
    decreases rs.len(),
{
    if rs.len() == 0 {
        None
    } else if spec_root_name(rs[0]) == Some(n) {
        Some(0int)
    } else {
        match spec_first_root_idx(rs.drop_first(), n) {
            Some(i) => Some(i + 1),
            None => None,
        }
    }
}

/// Remove the first expression rooted at `n`, if any.
pub open spec fn spec_remove_one(rs: Seq<ExprV>, n: Seq<char>) -> Seq<ExprV> {
    match spec_first_root_idx(rs, n) {
        Some(i) => rs.remove(i),
        None => rs,
    }
}

/// Apply the exclusions in order: for each name one expression rooted at
/// it, if present, leaves the list.
pub open spec fn spec_remove_excluded(rs: Seq<ExprV>, ns: Seq<Seq<char>>) -> Seq<ExprV>
    decreases ns.len(),
{
    if ns.len() == 0 {
        rs
    } else {
        spec_remove_excluded(spec_remove_one(rs, ns[0]), ns.drop_first())
    }
}

/// The canonical expression list of a projection or aggregation: the
/// emitted copies of the inputs with the excluded roots removed.
pub open spec fn spec_rewrite(vs: Seq<ExprV>, s: Seq<FieldV>) -> Option<Seq<ExprV>> {
    match (spec_emitted(vs, s), spec_excluded(vs)) {
        (Some(rs), Some(ns)) => Some(spec_remove_excluded(rs, ns)),
        _ => None,
    }
}

/// Once one input's contribution fails, the emitted list fails.
proof fn lemma_emitted_none_prefix(vs: Seq<ExprV>, s: Seq<FieldV>, i: int)
    requires
        0 <= i < vs.len(),
        spec_emit_one(vs[i], s) is None,
    ensures
        spec_emitted(vs, s) is None,
    decreases vs,
{
    if i < vs.len() - 1 {
        assert(vs.drop_last()[i] == vs[i]);
        lemma_emitted_none_prefix(vs.drop_last(), s, i);
    }
}

/// Once one `Except` is malformed, the exclusion list fails.
proof fn lemma_excluded_none_prefix(vs: Seq<ExprV>, i: int)
    requires
        0 <= i < vs.len(),
        vs[i] matches ExprV::Except(inner) && !(*inner is Column),
    ensures
        spec_excluded(vs) is None,
    decreases vs,
{
    if i < vs.len() - 1 {
        assert(vs.drop_last()[i] == vs[i]);
        lemma_excluded_none_prefix(vs.drop_last(), i);
    }
}

/// The position of the first expression of `es` whose root column is
/// `name`, as [`spec_first_root_idx`] says.
fn find_first_root_idx(es: &Vec<Expr>, name: &String) -> (r: Option<usize>)
    ensures
        match r {
            Some(i) => spec_first_root_idx(view_exprs(es@), name@) == Some(i as int) && i
                < es@.len(),
            None => spec_first_root_idx(view_exprs(es@), name@) is None,
        },
{
    let ghost cur = view_exprs(es@);
    proof {
        crate::expr::lemma_view_exprs_len(es@);
        assert(cur.skip(0) =~= cur);
    }
    let mut j: usize = 0;
    while j < es.len()
        invariant
            0 <= j <= es.len(),
            cur == view_exprs(es@),
            cur.len() == es@.len(),
            spec_first_root_idx(cur, name@) == match spec_first_root_idx(
                cur.skip(j as int),
                name@,
            ) {
                Some(m) => Some(m + j),
                None => None::<int>,
            },
        decreases es.len() - j,
    {
        proof {
            crate::expr::lemma_view_exprs_index(es@, j as int);
        }
        let is_match = match crate::utils::expr_to_root_column_name(&es[j]) {
            Ok(root) => root.eq(name),
            Err(_) => false,
        };
        if is_match {
            proof {
                assert(cur.skip(j as int)[0] == cur[j as int]);
            }
            return Some(j);
        }
        proof {
            lemma_first_root_skip(cur, name@, j as int);
        }
        j += 1;
    }
    proof {
        assert(cur.skip(cur.len() as int) =~= Seq::<ExprV>::empty());
    }
    None
}

/// Unfolding step for the first-root search from position `j` on.
proof fn lemma_first_root_skip(rs: Seq<ExprV>, n: Seq<char>, j: int)
    requires
        0 <= j < rs.len(),
        spec_root_name(rs[j]) != Some(n),
    ensures
        spec_first_root_idx(rs.skip(j), n) == match spec_first_root_idx(rs.skip(j + 1), n) {
            Some(k) => Some(k + 1),
            None => None::<int>,
        },
{
    assert(rs.skip(j).len() != 0);
    assert(rs.skip(j)[0] == rs[j]);
    assert(rs.skip(j).drop_first() =~= rs.skip(j + 1));
}

/// In case of a single `col("*")` nothing need be selected; in other cases
/// the wildcard is expanded to one expression per column, a counted
/// wildcard collapses to one aliased count, and excluded roots are removed,
/// as [`spec_rewrite`] says.  The error says which input was refused.
#[verifier::loop_isolation(false)]
pub fn rewrite_projections(exprs: &Vec<Expr>, schema: &Schema) -> (r: Result<Vec<Expr>, PlanError>)
    ensures
        match r {
            Ok(out) => spec_rewrite(view_exprs(exprs@), schema@) == Some(view_exprs(out@)),
            Err(_) => spec_rewrite(view_exprs(exprs@), schema@) is None,
        },
{
    let mut result: Vec<Expr> = Vec::new();
    let mut exclude: Vec<String> = Vec::new();
    let mut i: usize = 0;
    proof {
        assert(view_exprs(exprs@.take(0)) =~= Seq::<ExprV>::empty());
        assert(view_exprs(result@) =~= Seq::<ExprV>::empty());
        assert(view_strs(exclude@) =~= Seq::<Seq<char>>::empty());
    }
    while i < exprs.len()
        invariant
            0 <= i <= exprs.len(),
            spec_emitted(view_exprs(exprs@.take(i as int)), schema@) == Some(
                view_exprs(result@),
            ),
            spec_excluded(view_exprs(exprs@.take(i as int))) == Some(view_strs(exclude@)),
        decreases exprs.len() - i,
    {
        let ghost t = view_exprs(exprs@.take(i as int));
        let ghost full = view_exprs(exprs@);
        proof {
            crate::expr::lemma_view_exprs_len(exprs@);
            crate::expr::lemma_view_exprs_index(exprs@, i as int);
            crate::expr::lemma_view_variants(exprs@[i as int]);
            assert(exprs@.take(i + 1).drop_last() =~= exprs@.take(i as int));
            assert(exprs@.take(i + 1).last() == exprs@[i as int]);
            assert(view_exprs(exprs@.take(i + 1)) == t.push(view_expr(exprs@[i as int])));
            assert(view_exprs(exprs@.take(i + 1)).drop_last() =~= t);
        }
        let e = &exprs[i];
        let mut handled = false;
        match e {
            Expr::Except(column) => {
                handled = true;
                match &**column {
                    Expr::Column(name) => {
                        proof {
                            assert(view_expr(**column) == ExprV::Column(name@));
                        }
                        let ghost before = view_strs(exclude@);
                        exclude.push(name.clone());
                        proof {
                            assert(view_strs(exclude@) =~= before.push(name@));
                            assert(view_exprs(result@) + Seq::<ExprV>::empty() =~= view_exprs(
                                result@,
                            ));
                            assert(spec_emit_one(view_expr(exprs@[i as int]), schema@) == Some(
                                Seq::<ExprV>::empty(),
                            ));
                            assert(spec_emitted(view_exprs(exprs@.take(i + 1)), schema@) == Some(
                                view_exprs(result@),
                            ));
                            assert(spec_excluded(view_exprs(exprs@.take(i + 1))) == Some(
                                view_strs(exclude@),
                            ));
                        }
                    },
                    _ => {
                        proof {
                            crate::expr::lemma_view_variants(**column);
                        }
                        proof {
                            lemma_excluded_none_prefix(full, i as int);
                        }
                        return Err(
                            PlanError::InvalidArgument(
                                String::from_str("Except expression should have column name"),
                            ),
                        );
                    },
                }
            },
            _ => (),
        }
        if !handled {
            if has_expr(e, NodeKind::Wildcard) {
                if has_expr(e, NodeKind::CountAgg) {
                    if schema.len() == 0 {
                        proof {
                            lemma_emitted_none_prefix(full, schema@, i as int);
                        }
                        return Err(
                            PlanError::InvalidArgument(
                                String::from_str(
                                    "cannot count a wildcard over an empty schema",
                                ),
                            ),
                        );
                    }
                    let first_name = schema.field(0).name().clone();
                    match rename_expr_root_name(e, &first_name) {
                        Ok(renamed) => {
                            proof {
                                crate::expr::lemma_view_variants(renamed);
                            }
                            let aliased = match &renamed {
                                Expr::Alias(_, _) => renamed,
                                _ => Expr::Alias(
                                    Box::new(renamed),
                                    String::from_str("count"),
                                ),
                            };
                            let ghost before = view_exprs(result@);
                            proof {
                                crate::expr::lemma_view_exprs_push(result@, aliased);
                            }
                            result.push(aliased);
                            proof {
                                assert(view_exprs(result@) =~= before + seq![
                                    spec_count_alias(
                                        spec_rename(view_expr(exprs@[i as int]), schema@[0].name)
                                            .unwrap(),
                                    ),
                                ]);
                                assert(spec_emitted(view_exprs(exprs@.take(i + 1)), schema@)
                                    == Some(view_exprs(result@)));
                            }
                        },
                        Err(err) => {
                            proof {
                                lemma_emitted_none_prefix(full, schema@, i as int);
                            }
                            return Err(err);
                        },
                    }
                } else {
                    let ghost fan = spec_fanout(view_expr(exprs@[i as int]), schema@);
                    let mut j: usize = 0;
                    let ghost mid0 = view_exprs(result@);
                    proof {
                        assert(fan.take(0) =~= Seq::<ExprV>::empty());
                        assert(view_exprs(result@) =~= mid0 + fan.take(0));
                    }
                    while j < schema.len()
                        invariant
                            0 <= j <= schema@.len(),
                            0 <= i < exprs@.len(),
                            full == view_exprs(exprs@),
                            full.len() == exprs@.len(),
                            full[i as int] == view_expr(exprs@[i as int]),
                            fan == spec_fanout(view_expr(exprs@[i as int]), schema@),
                            fan.len() == schema@.len(),
                            view_exprs(result@) == mid0 + fan.take(j as int),
                            j == 0 || spec_replace_ok(view_expr(exprs@[i as int])),
                        decreases schema@.len() - j,
                    {
                        let fname = schema.field(j).name().clone();
                        match replace_wildcard_with_column(&exprs[i], &fname) {
                            Ok(x) => {
                                proof {
                                    crate::expr::lemma_view_exprs_push(result@, x);
                                    assert(fan[j as int] == spec_replace(
                                        view_expr(exprs@[i as int]),
                                        schema@[j as int].name,
                                    ));
                                    assert(fan.take(j + 1) =~= fan.take(j as int).push(
                                        fan[j as int],
                                    ));
                                }
                                result.push(x);
                                proof {
                                    assert(view_exprs(result@) =~= mid0 + fan.take(j + 1));
                                }
                            },
                            Err(err) => {
                                proof {
                                    lemma_emitted_none_prefix(full, schema@, i as int);
                                }
                                return Err(err);
                            },
                        }
                        j += 1;
                    }
                    proof {
                        assert(fan.take(fan.len() as int) =~= fan);
                        if schema@.len() == 0 {
                            assert(view_exprs(result@) =~= mid0 + fan);
                        }
                        assert(spec_emit_one(view_expr(exprs@[i as int]), schema@) == Some(fan));
                        assert(spec_emitted(view_exprs(exprs@.take(i + 1)), schema@) == Some(
                            view_exprs(result@),
                        ));
                    }
                }
            } else {
                let c = clone_expr(e);
                let ghost before = view_exprs(result@);
                proof {
                    crate::expr::lemma_view_exprs_push(result@, c);
                }
                result.push(c);
                proof {
                    assert(view_exprs(result@) =~= before + seq![view_expr(exprs@[i as int])]);
                    assert(spec_emit_one(view_expr(exprs@[i as int]), schema@) == Some(
                        seq![view_expr(exprs@[i as int])],
                    ));
                    assert(spec_emitted(view_exprs(exprs@.take(i + 1)), schema@) == Some(
                        view_exprs(result@),
                    ));
                }
            }
        }
        i += 1;
    }
    proof {
        assert(exprs@.take(exprs@.len() as int) =~= exprs@);
    }
    // apply the exclusions, one removal per excluded name
    let ghost names = view_strs(exclude@);
    let ghost emitted = view_exprs(result@);
    let mut k: usize = 0;
    proof {
        assert(names.skip(0) =~= names);
    }
    while k < exclude.len()
        invariant
            0 <= k <= exclude.len(),
            names == view_strs(exclude@),
            names.len() == exclude@.len(),
            spec_remove_excluded(emitted, names) == spec_remove_excluded(
                view_exprs(result@),
                names.skip(k as int),
            ),
        decreases exclude.len() - k,
    {
        let name = &exclude[k];
        assert(names[k as int] == name@);
        let ghost cur = view_exprs(result@);
        proof {
            crate::expr::lemma_view_exprs_len(result@);
        }
        match find_first_root_idx(&result, name) {
            Some(idx) => {
                let ghost before = view_exprs(result@);
                let ghost before_vec = result@;
                let _removed = result.remove(idx);
                proof {
                    crate::expr::lemma_view_exprs_remove(before_vec, idx as int);
                    assert(spec_remove_one(before, names[k as int]) == before.remove(idx as int));
                }
            },
            None => {
                proof {
                    assert(spec_remove_one(cur, names[k as int]) == cur);
                }
            },
        }
        proof {
            assert(names.skip(k as int)[0] == names[k as int]);
            assert(names.skip(k as int).drop_first() =~= names.skip(k + 1));
        }
        k += 1;
    }
    proof {
        assert(names.skip(names.len() as int) =~= Seq::<Seq<char>>::empty());
    }
    Ok(result)
}

} // verus!

verus! {

/// The canonical expressions of a projection paired with the schema they
/// report, in `Default` context.
pub open spec fn spec_prepare(vs: Seq<ExprV>, s: Seq<FieldV>) -> Option<(Seq<ExprV>, Seq<FieldV>)> {
    match spec_rewrite(vs, s) {
        Some(rs) => match crate::field_infer::spec_exprs_fields(
            rs,
            s,
            crate::dtypes::Context::Default,
        ) {
            Some(fs) => Some((rs, fs)),
            None => None,
        },
        None => None,
    }
}

/// Run the rewriter, then derive the output schema of the canonical list.
pub fn prepare_projection(exprs: &Vec<Expr>, schema: &Schema) -> (r: Result<
    (Vec<Expr>, Schema),
    PlanError,
>)
    ensures
        match r {
            Ok(p) => spec_prepare(view_exprs(exprs@), schema@) == Some(
                (view_exprs(p.0@), p.1@),
            ),
            Err(_) => spec_prepare(view_exprs(exprs@), schema@) is None,
        },
{
    match rewrite_projections(exprs, schema) {
        Ok(out) => match crate::field_infer::expressions_to_schema(
            &out,
            schema,
            crate::dtypes::Context::Default,
        ) {
            Ok(s2) => Ok((out, s2)),
            Err(err) => Err(err),
        },
        Err(err) => Err(err),
    }
}

} // verus!
