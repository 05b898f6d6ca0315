//! Read-only expression traversals: subterm search, root-column collection,
//! output naming, root renaming and predicate combination.

use vstd::prelude::*;
use crate::dtypes::Operator;
use crate::error::PlanError;
use crate::expr::{AggExpr, AggExprV, Expr, ExprV, clone_expr, view_agg, view_expr, view_exprs};
use vstd::string::StringExecFns;

verus! {

/// The shapes of subterm that plan construction searches expressions for.
#[derive(Clone, Copy, PartialEq, Eq, Structural, Debug)]
pub enum NodeKind {
    /// A `Wildcard` placeholder.
    Wildcard,
    /// A `Count` aggregation, over any inner expression.
    CountAgg,
    /// A `Filter` expression node.
    FilterNode,
}

/// True when the root of `v` itself is of kind `k`.
pub open spec fn node_matches(v: ExprV, k: NodeKind) -> bool {
    match k {
        NodeKind::Wildcard => v is Wildcard,
        NodeKind::CountAgg => v matches ExprV::Agg(AggExprV::Count(_)),
        NodeKind::FilterNode => v matches ExprV::Filter { .. },
    }
}

/// True when some subterm of the aggregation's input is of kind `k`.
pub open spec fn spec_agg_has(a: AggExprV, k: NodeKind) -> bool
    decreases a,
{
    match a {
        AggExprV::Min(e) => spec_has(*e, k),
        AggExprV::Max(e) => spec_has(*e, k),
        AggExprV::Median(e) => spec_has(*e, k),
        AggExprV::NUnique(e) => spec_has(*e, k),
        AggExprV::First(e) => spec_has(*e, k),
        AggExprV::Last(e) => spec_has(*e, k),
        AggExprV::Mean(e) => spec_has(*e, k),
        AggExprV::List(e) => spec_has(*e, k),
        AggExprV::Count(e) => spec_has(*e, k),
        AggExprV::Quantile { expr, .. } => spec_has(*expr, k),
        AggExprV::Sum(e) => spec_has(*e, k),
        AggExprV::AggGroups(e) => spec_has(*e, k),
        AggExprV::Std(e) => spec_has(*e, k),
        AggExprV::Var(e) => spec_has(*e, k),
    }
}

/// True when some subterm of `v`, the root included, is of kind `k`.
pub open spec fn spec_has(v: ExprV, k: NodeKind) -> bool
    decreases v,
{
    node_matches(v, k) || match v {
        ExprV::Alias(e, _) => spec_has(*e, k),
        ExprV::Column(_) => false,
        ExprV::Literal(_) => false,
        ExprV::BinaryExpr { left, right, .. } => spec_has(*left, k) || spec_has(*right, k),
        ExprV::Not(e) => spec_has(*e, k),
        ExprV::IsNotNull(e) => spec_has(*e, k),
        ExprV::IsNull(e) => spec_has(*e, k),
        ExprV::Cast { expr, .. } => spec_has(*expr, k),
        ExprV::Sort { expr, .. } => spec_has(*expr, k),
        ExprV::Take { expr, idx } => spec_has(*expr, k) || spec_has(*idx, k),
        ExprV::SortBy { expr, by, .. } => spec_has(*expr, k) || spec_has(*by, k),
        ExprV::Agg(a) => spec_agg_has(a, k),
        ExprV::Ternary { predicate, truthy, falsy } => spec_has(*predicate, k) || spec_has(
            *truthy,
            k,
        ) || spec_has(*falsy, k),
        ExprV::Function { inputs, .. } => spec_any_has(inputs, k),
        ExprV::BinaryFunction { input_a, input_b, .. } => spec_has(*input_a, k) || spec_has(
            *input_b,
            k,
        ),
        ExprV::Shift { input, .. } => spec_has(*input, k),
        ExprV::Reverse(e) => spec_has(*e, k),
        ExprV::Duplicated(e) => spec_has(*e, k),
        ExprV::IsUnique(e) => spec_has(*e, k),
        ExprV::Explode(e) => spec_has(*e, k),
        ExprV::Filter { input, by } => spec_has(*input, k) || spec_has(*by, k),
        ExprV::Window { function, partition_by, order_by } => spec_has(*function, k) || spec_has(
            *partition_by,
            k,
        ) || (match order_by {
            Some(o) => spec_has(*o, k),
            None => false,
        }),
        ExprV::Wildcard => false,
        ExprV::Slice { input, .. } => spec_has(*input, k),
        ExprV::Except(e) => spec_has(*e, k),
    }
}

/// True when some element of `s` has a subterm of kind `k`.
pub open spec fn spec_any_has(s: Seq<ExprV>, k: NodeKind) -> bool
    decreases s,
{
    if s.len() == 0 {
        false
    } else {
        spec_any_has(s.drop_last(), k) || spec_has(s.last(), k)
    }
}

/// Executable twin of [`spec_agg_has`].
fn agg_has(a: &AggExpr, k: NodeKind) -> (r: bool)
    ensures
        r == spec_agg_has(view_agg(*a), k),
    decreases a,
{
    match a {
        AggExpr::Min(e) => has_expr(e, k),
        AggExpr::Max(e) => has_expr(e, k),
        AggExpr::Median(e) => has_expr(e, k),
        AggExpr::NUnique(e) => has_expr(e, k),
        AggExpr::First(e) => has_expr(e, k),
        AggExpr::Last(e) => has_expr(e, k),
        AggExpr::Mean(e) => has_expr(e, k),
        AggExpr::List(e) => has_expr(e, k),
        AggExpr::Count(e) => has_expr(e, k),
        AggExpr::Quantile { expr, .. } => has_expr(expr, k),
        AggExpr::Sum(e) => has_expr(e, k),
        AggExpr::AggGroups(e) => has_expr(e, k),
        AggExpr::Std(e) => has_expr(e, k),
        AggExpr::Var(e) => has_expr(e, k),
    }
}

/// True when some subterm of `e`, the root included, is of kind `k`.
pub fn has_expr(e: &Expr, k: NodeKind) -> (r: bool)
    ensures
        r == spec_has(e@, k),
    decreases e,
{
    let root: bool = match (k, e) {
        (NodeKind::Wildcard, Expr::Wildcard) => true,
        (NodeKind::CountAgg, Expr::Agg(AggExpr::Count(_))) => true,
        (NodeKind::FilterNode, Expr::Filter { .. }) => true,
        _ => false,
    };
    if root {
        return true;
    }
    match e {
        Expr::Alias(inner, _) => has_expr(inner, k),
        Expr::Column(_) => false,
        Expr::Literal(_) => false,
        Expr::BinaryExpr { left, right, .. } => has_expr(left, k) || has_expr(right, k),
        Expr::Not(x) => has_expr(x, k),
        Expr::IsNotNull(x) => has_expr(x, k),
        Expr::IsNull(x) => has_expr(x, k),
        Expr::Cast { expr, .. } => has_expr(expr, k),
        Expr::Sort { expr, .. } => has_expr(expr, k),
        Expr::Take { expr, idx } => has_expr(expr, k) || has_expr(idx, k),
        Expr::SortBy { expr, by, .. } => has_expr(expr, k) || has_expr(by, k),
        Expr::Agg(a) => agg_has(a, k),
        Expr::Ternary { predicate, truthy, falsy } => has_expr(predicate, k) || has_expr(truthy, k)
            || has_expr(falsy, k),
        Expr::Function { inputs, .. } => {
            proof {
                let g: Expr = *e;
                assert(decreases_to!(g => g->inputs));
            }
            any_has(inputs, k)
        },
        Expr::BinaryFunction { input_a, input_b, .. } => has_expr(input_a, k) || has_expr(
            input_b,
            k,
        ),
        Expr::Shift { input, .. } => has_expr(input, k),
        Expr::Reverse(x) => has_expr(x, k),
        Expr::Duplicated(x) => has_expr(x, k),
        Expr::IsUnique(x) => has_expr(x, k),
        Expr::Explode(x) => has_expr(x, k),
        Expr::Filter { input, by } => has_expr(input, k) || has_expr(by, k),
        Expr::Window { function, partition_by, order_by } => {
            if has_expr(function, k) {
                true
            } else if has_expr(partition_by, k) {
                true
            } else {
                match order_by {
                    Some(o) => has_expr(o, k),
                    None => false,
                }
            }
        },
        Expr::Wildcard => false,
        Expr::Slice { input, .. } => has_expr(input, k),
        Expr::Except(x) => has_expr(x, k),
    }
}

/// Executable twin of [`spec_any_has`] over a vector of expressions.
fn any_has(es: &Vec<Expr>, k: NodeKind) -> (r: bool)
    ensures
        r == spec_any_has(view_exprs(es@), k),
    decreases es,
{
    let mut i: usize = 0;
    proof {
        assert(view_exprs(es@.take(0)) =~= Seq::<ExprV>::empty());
    }
    while i < es.len()
        invariant
            0 <= i <= es.len(),
            !spec_any_has(view_exprs(es@.take(i as int)), k),
        decreases es.len() - i,
    {
        proof {
            vstd::std_specs::vec::axiom_vec_index_decreases::<Expr>(*es, i as int);
        }
        let ghost pre = view_exprs(es@.take(i as int));
        proof {
            assert(es@.take(i + 1).drop_last() =~= es@.take(i as int));
            assert(es@.take(i + 1).last() == es@[i as int]);
            assert(view_exprs(es@.take(i + 1)) == pre.push(view_expr(es@[i as int])));
            assert(view_exprs(es@.take(i + 1)).drop_last() =~= pre);
        }
        if has_expr(&es[i], k) {
            proof {
                crate::expr::lemma_view_exprs_len(es@);
                crate::expr::lemma_view_exprs_index(es@, i as int);
                spec_any_has_somewhere(view_exprs(es@), i as int, k);
            }
            return true;
        }
        i += 1;
    }
    proof {
        assert(es@.take(es@.len() as int) =~= es@);
    }
    false
}

/// If position `i` of `s` has kind `k`, the whole list has it.
proof fn spec_any_has_somewhere(s: Seq<ExprV>, i: int, k: NodeKind)
    requires
        0 <= i < s.len(),
        spec_has(s[i], k),
    ensures
        spec_any_has(s, k),
    decreases s,
{
    if i < s.len() - 1 {
        assert(s.drop_last()[i] == s[i]);
        spec_any_has_somewhere(s.drop_last(), i, k);
    }
}

/// The strings of `s`, viewed elementwise.
pub open spec fn view_strs(s: Seq<String>) -> Seq<Seq<char>> {
    s.map_values(|x: String| x@)
}

/// The names of the column leaves of `v`, left to right.  A `Wildcard`
/// contributes nothing.
pub open spec fn spec_roots(v: ExprV) -> Seq<Seq<char>>
    decreases v,
{
    match v {
        ExprV::Column(n) => seq![n],
        ExprV::Literal(_) => Seq::empty(),
        ExprV::Wildcard => Seq::empty(),
        ExprV::Alias(e, _) => spec_roots(*e),
        ExprV::BinaryExpr { left, right, .. } => spec_roots(*left) + spec_roots(*right),
        ExprV::Not(e) => spec_roots(*e),
        ExprV::IsNotNull(e) => spec_roots(*e),
        ExprV::IsNull(e) => spec_roots(*e),
        ExprV::Cast { expr, .. } => spec_roots(*expr),
        ExprV::Sort { expr, .. } => spec_roots(*expr),
        ExprV::Take { expr, idx } => spec_roots(*expr) + spec_roots(*idx),
        ExprV::SortBy { expr, by, .. } => spec_roots(*expr) + spec_roots(*by),
        ExprV::Agg(a) => spec_agg_roots(a),
        ExprV::Ternary { predicate, truthy, falsy } => spec_roots(*predicate) + spec_roots(*truthy)
            + spec_roots(*falsy),
        ExprV::Function { inputs, .. } => spec_roots_list(inputs),
        ExprV::BinaryFunction { input_a, input_b, .. } => spec_roots(*input_a) + spec_roots(
            *input_b,
        ),
        ExprV::Shift { input, .. } => spec_roots(*input),
        ExprV::Reverse(e) => spec_roots(*e),
        ExprV::Duplicated(e) => spec_roots(*e),
        ExprV::IsUnique(e) => spec_roots(*e),
        ExprV::Explode(e) => spec_roots(*e),
        ExprV::Filter { input, by } => spec_roots(*input) + spec_roots(*by),
        ExprV::Window { function, partition_by, order_by } => spec_roots(*function) + spec_roots(
            *partition_by,
        ) + (match order_by {
            Some(o) => spec_roots(*o),
            None => Seq::empty(),
        }),
        ExprV::Slice { input, .. } => spec_roots(*input),
        ExprV::Except(e) => spec_roots(*e),
    }
}

/// The column leaves of an aggregation's input.
pub open spec fn spec_agg_roots(a: AggExprV) -> Seq<Seq<char>>
    decreases a,
{
    match a {
        AggExprV::Min(e) => spec_roots(*e),
        AggExprV::Max(e) => spec_roots(*e),
        AggExprV::Median(e) => spec_roots(*e),
        AggExprV::NUnique(e) => spec_roots(*e),
        AggExprV::First(e) => spec_roots(*e),
        AggExprV::Last(e) => spec_roots(*e),
        AggExprV::Mean(e) => spec_roots(*e),
        AggExprV::List(e) => spec_roots(*e),
        AggExprV::Count(e) => spec_roots(*e),
        AggExprV::Quantile { expr, .. } => spec_roots(*expr),
        AggExprV::Sum(e) => spec_roots(*e),
        AggExprV::AggGroups(e) => spec_roots(*e),
        AggExprV::Std(e) => spec_roots(*e),
        AggExprV::Var(e) => spec_roots(*e),
    }
}

/// The column leaves of each element of `s`, concatenated.
pub open spec fn spec_roots_list(s: Seq<ExprV>) -> Seq<Seq<char>>
    decreases s,
{
    if s.len() == 0 {
        Seq::empty()
    } else {
        spec_roots_list(s.drop_last()) + spec_roots(s.last())
    }
}

/// Append the names of the column leaves of `e` to `out`, left to right.
pub fn collect_roots(e: &Expr, out: &mut Vec<String>)
    ensures
        view_strs(final(out)@) == view_strs(old(out)@) + spec_roots(e@),
    decreases e,
{
    let ghost pre = view_strs(out@);
    match e {
        Expr::Column(n) => {
            out.push(n.clone());
            assert(view_strs(out@) =~= pre + spec_roots(e@));
        },
        Expr::Literal(_) => {
            assert(view_strs(out@) =~= pre + spec_roots(e@));
        },
        Expr::Wildcard => {
            assert(view_strs(out@) =~= pre + spec_roots(e@));
        },
        Expr::Alias(inner, _) => {
            collect_roots(inner, out);
        },
        Expr::BinaryExpr { left, right, .. } => {
            collect_roots(left, out);
            collect_roots(right, out);
            assert(view_strs(out@) =~= pre + spec_roots(e@));
        },
        Expr::Not(x) => collect_roots(x, out),
        Expr::IsNotNull(x) => collect_roots(x, out),
        Expr::IsNull(x) => collect_roots(x, out),
        Expr::Cast { expr, .. } => collect_roots(expr, out),
        Expr::Sort { expr, .. } => collect_roots(expr, out),
        Expr::Take { expr, idx } => {
            collect_roots(expr, out);
            collect_roots(idx, out);
            assert(view_strs(out@) =~= pre + spec_roots(e@));
        },
        Expr::SortBy { expr, by, .. } => {
            collect_roots(expr, out);
            collect_roots(by, out);
            assert(view_strs(out@) =~= pre + spec_roots(e@));
        },
        Expr::Agg(a) => collect_agg_roots(a, out),
        Expr::Ternary { predicate, truthy, falsy } => {
            collect_roots(predicate, out);
            collect_roots(truthy, out);
            collect_roots(falsy, out);
            assert(view_strs(out@) =~= pre + spec_roots(e@));
        },
        Expr::Function { inputs, .. } => {
            proof {
                let g: Expr = *e;
                assert(decreases_to!(g => g->inputs));
            }
            collect_roots_list(inputs, out);
        },
        Expr::BinaryFunction { input_a, input_b, .. } => {
            collect_roots(input_a, out);
            collect_roots(input_b, out);
            assert(view_strs(out@) =~= pre + spec_roots(e@));
        },
        Expr::Shift { input, .. } => collect_roots(input, out),
        Expr::Reverse(x) => collect_roots(x, out),
        Expr::Duplicated(x) => collect_roots(x, out),
        Expr::IsUnique(x) => collect_roots(x, out),
        Expr::Explode(x) => collect_roots(x, out),
        Expr::Filter { input, by } => {
            collect_roots(input, out);
            collect_roots(by, out);
            assert(view_strs(out@) =~= pre + spec_roots(e@));
        },
        Expr::Window { function, partition_by, order_by } => {
            collect_roots(function, out);
            collect_roots(partition_by, out);
            match order_by {
                Some(o) => collect_roots(o, out),
                None => (),
            }
            assert(view_strs(out@) =~= pre + spec_roots(e@));
        },
        Expr::Slice { input, .. } => collect_roots(input, out),
        Expr::Except(x) => collect_roots(x, out),
    }
}

/// Append the column leaves of an aggregation's input to `out`.
fn collect_agg_roots(a: &AggExpr, out: &mut Vec<String>)
    ensures
        view_strs(final(out)@) == view_strs(old(out)@) + spec_agg_roots(view_agg(*a)),
    decreases a,
{
    match a {
        AggExpr::Min(e) => collect_roots(e, out),
        AggExpr::Max(e) => collect_roots(e, out),
        AggExpr::Median(e) => collect_roots(e, out),
        AggExpr::NUnique(e) => collect_roots(e, out),
        AggExpr::First(e) => collect_roots(e, out),
        AggExpr::Last(e) => collect_roots(e, out),
        AggExpr::Mean(e) => collect_roots(e, out),
        AggExpr::List(e) => collect_roots(e, out),
        AggExpr::Count(e) => collect_roots(e, out),
        AggExpr::Quantile { expr, .. } => collect_roots(expr, out),
        AggExpr::Sum(e) => collect_roots(e, out),
        AggExpr::AggGroups(e) => collect_roots(e, out),
        AggExpr::Std(e) => collect_roots(e, out),
        AggExpr::Var(e) => collect_roots(e, out),
    }
}

/// Append the column leaves of each element of `es` to `out`.
fn collect_roots_list(es: &Vec<Expr>, out: &mut Vec<String>)
    ensures
        view_strs(final(out)@) == view_strs(old(out)@) + spec_roots_list(view_exprs(es@)),
    decreases es,
{
    let ghost pre = view_strs(out@);
    let mut i: usize = 0;
    proof {
        assert(view_exprs(es@.take(0)) =~= Seq::<ExprV>::empty());
        assert(view_strs(out@) =~= pre + spec_roots_list(view_exprs(es@.take(0))));
    }
    while i < es.len()
        invariant
            0 <= i <= es.len(),
            view_strs(out@) == pre + spec_roots_list(view_exprs(es@.take(i as int))),
        decreases es.len() - i,
    {
        proof {
            vstd::std_specs::vec::axiom_vec_index_decreases::<Expr>(*es, i as int);
        }
        let ghost prelist = view_exprs(es@.take(i as int));
        collect_roots(&es[i], out);
        proof {
            assert(es@.take(i + 1).drop_last() =~= es@.take(i as int));
            assert(es@.take(i + 1).last() == es@[i as int]);
            let nxt = view_exprs(es@.take(i + 1));
            assert(nxt == prelist.push(view_expr(es@[i as int])));
            assert(nxt.drop_last() =~= prelist);
            assert(view_strs(out@) =~= pre + spec_roots_list(nxt));
        }
        i += 1;
    }
    proof {
        assert(es@.take(es@.len() as int) =~= es@);
    }
}

/// The root column name, defined exactly when `v` has one column leaf.
pub open spec fn spec_root_name(v: ExprV) -> Option<Seq<char>> {
    if spec_roots(v).len() == 1 {
        Some(spec_roots(v)[0])
    } else {
        None
    }
}

/// The name of the single column leaf of `e`; an error when there is none
/// or more than one.
pub fn expr_to_root_column_name(e: &Expr) -> (r: Result<String, PlanError>)
    ensures
        match r {
            Ok(n) => spec_root_name(e@) == Some(n@),
            Err(_) => spec_root_name(e@) is None,
        },
{
    let mut out: Vec<String> = Vec::new();
    collect_roots(e, &mut out);
    proof {
        assert(view_strs(out@) =~= spec_roots(e@));
    }
    if out.len() == 1 {
        let ghost before = out@;
        match out.pop() {
            Some(n) => {
                proof {
                    assert(n == before.last());
                    assert(view_strs(before)[0] == before[0]@);
                }
                Ok(n)
            },
            None => {
                Err(PlanError::InvalidOperation(String::from_str("no root column name found")))
            },
        }
    } else {
        Err(PlanError::InvalidOperation(String::from_str("expected a single root column")))
    }
}

/// The names of all column leaves of `e`, left to right.
pub fn expr_to_root_column_names(e: &Expr) -> (r: Vec<String>)
    ensures
        view_strs(r@) == spec_roots(e@),
{
    let mut out: Vec<String> = Vec::new();
    collect_roots(e, &mut out);
    proof {
        assert(view_strs(out@) =~= spec_roots(e@));
    }
    out
}

} // verus!

verus! {

/// Renaming the root column of an aggregation's input.
pub open spec fn spec_rename_agg(a: AggExprV, n: Seq<char>) -> Option<AggExprV>
    decreases a,
{
    match a {
        AggExprV::Min(e) => match spec_rename(*e, n) {
            Some(x) => Some(AggExprV::Min(Box::new(x))),
            None => None,
        },
        AggExprV::Max(e) => match spec_rename(*e, n) {
            Some(x) => Some(AggExprV::Max(Box::new(x))),
            None => None,
        },
        AggExprV::Median(e) => match spec_rename(*e, n) {
            Some(x) => Some(AggExprV::Median(Box::new(x))),
            None => None,
        },
        AggExprV::NUnique(e) => match spec_rename(*e, n) {
            Some(x) => Some(AggExprV::NUnique(Box::new(x))),
            None => None,
        },
        AggExprV::First(e) => match spec_rename(*e, n) {
            Some(x) => Some(AggExprV::First(Box::new(x))),
            None => None,
        },
        AggExprV::Last(e) => match spec_rename(*e, n) {
            Some(x) => Some(AggExprV::Last(Box::new(x))),
            None => None,
        },
        AggExprV::Mean(e) => match spec_rename(*e, n) {
            Some(x) => Some(AggExprV::Mean(Box::new(x))),
            None => None,
        },
        AggExprV::List(e) => match spec_rename(*e, n) {
            Some(x) => Some(AggExprV::List(Box::new(x))),
            None => None,
        },
        AggExprV::Count(e) => match spec_rename(*e, n) {
            Some(x) => Some(AggExprV::Count(Box::new(x))),
            None => None,
        },
        AggExprV::Quantile { expr, quantile } => match spec_rename(*expr, n) {
            Some(x) => Some(AggExprV::Quantile { expr: Box::new(x), quantile }),
            None => None,
        },
        AggExprV::Sum(e) => match spec_rename(*e, n) {
            Some(x) => Some(AggExprV::Sum(Box::new(x))),
            None => None,
        },
        AggExprV::AggGroups(e) => match spec_rename(*e, n) {
            Some(x) => Some(AggExprV::AggGroups(Box::new(x))),
            None => None,
        },
        AggExprV::Std(e) => match spec_rename(*e, n) {
            Some(x) => Some(AggExprV::Std(Box::new(x))),
            None => None,
        },
        AggExprV::Var(e) => match spec_rename(*e, n) {
            Some(x) => Some(AggExprV::Var(Box::new(x))),
            None => None,
        },
    }
}

/// Renaming the root of `v` to the column name `n`: the root `Column` or
/// `Wildcard` under the chain of wrappers becomes `Column(n)`.  `None` when
/// `v` has no such root.
pub open spec fn spec_rename(v: ExprV, n: Seq<char>) -> Option<ExprV>
    decreases v,
{
    match v {
        ExprV::Column(_) => Some(ExprV::Column(n)),
        ExprV::Wildcard => Some(ExprV::Column(n)),
        ExprV::Alias(e, a) => match spec_rename(*e, n) {
            Some(x) => Some(ExprV::Alias(Box::new(x), a)),
            None => None,
        },
        ExprV::Not(e) => match spec_rename(*e, n) {
            Some(x) => Some(ExprV::Not(Box::new(x))),
            None => None,
        },
        ExprV::IsNotNull(e) => match spec_rename(*e, n) {
            Some(x) => Some(ExprV::IsNotNull(Box::new(x))),
            None => None,
        },
        ExprV::IsNull(e) => match spec_rename(*e, n) {
            Some(x) => Some(ExprV::IsNull(Box::new(x))),
            None => None,
        },
        ExprV::Cast { expr, data_type } => match spec_rename(*expr, n) {
            Some(x) => Some(ExprV::Cast { expr: Box::new(x), data_type }),
            None => None,
        },
        ExprV::Sort { expr, reverse } => match spec_rename(*expr, n) {
            Some(x) => Some(ExprV::Sort { expr: Box::new(x), reverse }),
            None => None,
        },
        ExprV::Take { expr, idx } => match spec_rename(*expr, n) {
            Some(x) => Some(ExprV::Take { expr: Box::new(x), idx }),
            None => None,
        },
        ExprV::SortBy { expr, by, reverse } => match spec_rename(*expr, n) {
            Some(x) => Some(ExprV::SortBy { expr: Box::new(x), by, reverse }),
            None => None,
        },
        ExprV::Agg(a) => match spec_rename_agg(a, n) {
            Some(x) => Some(ExprV::Agg(x)),
            None => None,
        },
        ExprV::Ternary { predicate, truthy, falsy } => match spec_rename(*truthy, n) {
            Some(x) => Some(ExprV::Ternary { predicate, truthy: Box::new(x), falsy }),
            None => None,
        },
        ExprV::Shift { input, periods } => match spec_rename(*input, n) {
            Some(x) => Some(ExprV::Shift { input: Box::new(x), periods }),
            None => None,
        },
        ExprV::Reverse(e) => match spec_rename(*e, n) {
            Some(x) => Some(ExprV::Reverse(Box::new(x))),
            None => None,
        },
        ExprV::Duplicated(e) => match spec_rename(*e, n) {
            Some(x) => Some(ExprV::Duplicated(Box::new(x))),
            None => None,
        },
        ExprV::IsUnique(e) => match spec_rename(*e, n) {
            Some(x) => Some(ExprV::IsUnique(Box::new(x))),
            None => None,
        },
        ExprV::Explode(e) => match spec_rename(*e, n) {
            Some(x) => Some(ExprV::Explode(Box::new(x))),
            None => None,
        },
        ExprV::Slice { input, offset, length } => match spec_rename(*input, n) {
            Some(x) => Some(ExprV::Slice { input: Box::new(x), offset, length }),
            None => None,
        },
        ExprV::Window { function, partition_by, order_by } => match spec_rename(*function, n) {
            Some(x) => Some(
                ExprV::Window { function: Box::new(x), partition_by, order_by },
            ),
            None => None,
        },
        ExprV::BinaryExpr { left, op, right } => match spec_rename(*left, n) {
            Some(l2) => Some(ExprV::BinaryExpr { left: Box::new(l2), op, right }),
            None => match spec_rename(*right, n) {
                Some(r2) => Some(ExprV::BinaryExpr { left, op, right: Box::new(r2) }),
                None => None,
            },
        },
        ExprV::Literal(_) => None,
        ExprV::Filter { .. } => None,
        ExprV::Function { .. } => None,
        ExprV::BinaryFunction { .. } => None,
        ExprV::Except(_) => None,
    }
}

/// Rebuild `e` with its root column renamed to `new_name` as
/// [`spec_rename`] says; an error when `e` has no root column.
pub fn rename_expr_root_name(e: &Expr, new_name: &String) -> (r: Result<Expr, PlanError>)
    ensures
        match r {
            Ok(x) => spec_rename(e@, new_name@) == Some(x@),
            Err(_) => spec_rename(e@, new_name@) is None,
        },
    decreases e,
{
    match e {
        Expr::Column(_) => Ok(Expr::Column(new_name.clone())),
        Expr::Wildcard => Ok(Expr::Column(new_name.clone())),
        Expr::Alias(inner, a) => match rename_expr_root_name(inner, new_name) {
            Ok(x) => Ok(Expr::Alias(Box::new(x), a.clone())),
            Err(err) => Err(err),
        },
        Expr::Not(x) => match rename_expr_root_name(x, new_name) {
            Ok(y) => Ok(Expr::Not(Box::new(y))),
            Err(err) => Err(err),
        },
        Expr::IsNotNull(x) => match rename_expr_root_name(x, new_name) {
            Ok(y) => Ok(Expr::IsNotNull(Box::new(y))),
            Err(err) => Err(err),
        },
        Expr::IsNull(x) => match rename_expr_root_name(x, new_name) {
            Ok(y) => Ok(Expr::IsNull(Box::new(y))),
            Err(err) => Err(err),
        },
        Expr::Cast { expr, data_type } => match rename_expr_root_name(expr, new_name) {
            Ok(y) => Ok(Expr::Cast { expr: Box::new(y), data_type: *data_type }),
            Err(err) => Err(err),
        },
        Expr::Sort { expr, reverse } => match rename_expr_root_name(expr, new_name) {
            Ok(y) => Ok(Expr::Sort { expr: Box::new(y), reverse: *reverse }),
            Err(err) => Err(err),
        },
        Expr::Take { expr, idx } => match rename_expr_root_name(expr, new_name) {
            Ok(y) => Ok(Expr::Take { expr: Box::new(y), idx: Box::new(clone_expr(idx)) }),
            Err(err) => Err(err),
        },
        Expr::SortBy { expr, by, reverse } => match rename_expr_root_name(expr, new_name) {
            Ok(y) => Ok(
                Expr::SortBy {
                    expr: Box::new(y),
                    by: Box::new(clone_expr(by)),
                    reverse: *reverse,
                },
            ),
            Err(err) => Err(err),
        },
        Expr::Agg(a) => match rename_agg_root_name(a, new_name) {
            Ok(x) => Ok(Expr::Agg(x)),
            Err(err) => Err(err),
        },
        Expr::Ternary { predicate, truthy, falsy } => match rename_expr_root_name(
            truthy,
            new_name,
        ) {
            Ok(t2) => Ok(
                Expr::Ternary {
                    predicate: Box::new(clone_expr(predicate)),
                    truthy: Box::new(t2),
                    falsy: Box::new(clone_expr(falsy)),
                },
            ),
            Err(err) => Err(err),
        },
        Expr::Shift { input, periods } => match rename_expr_root_name(input, new_name) {
            Ok(y) => Ok(Expr::Shift { input: Box::new(y), periods: *periods }),
            Err(err) => Err(err),
        },
        Expr::Reverse(x) => match rename_expr_root_name(x, new_name) {
            Ok(y) => Ok(Expr::Reverse(Box::new(y))),
            Err(err) => Err(err),
        },
        Expr::Duplicated(x) => match rename_expr_root_name(x, new_name) {
            Ok(y) => Ok(Expr::Duplicated(Box::new(y))),
            Err(err) => Err(err),
        },
        Expr::IsUnique(x) => match rename_expr_root_name(x, new_name) {
            Ok(y) => Ok(Expr::IsUnique(Box::new(y))),
            Err(err) => Err(err),
        },
        Expr::Explode(x) => match rename_expr_root_name(x, new_name) {
            Ok(y) => Ok(Expr::Explode(Box::new(y))),
            Err(err) => Err(err),
        },
        Expr::Slice { input, offset, length } => match rename_expr_root_name(input, new_name) {
            Ok(y) => Ok(Expr::Slice { input: Box::new(y), offset: *offset, length: *length }),
            Err(err) => Err(err),
        },
        Expr::Window { function, partition_by, order_by } => match rename_expr_root_name(
            function,
            new_name,
        ) {
            Ok(y) => Ok(
                Expr::Window {
                    function: Box::new(y),
                    partition_by: Box::new(clone_expr(partition_by)),
                    order_by: match order_by {
                        Some(o) => Some(Box::new(clone_expr(o))),
                        None => None,
                    },
                },
            ),
            Err(err) => Err(err),
        },
        Expr::BinaryExpr { left, op, right } => match rename_expr_root_name(left, new_name) {
            Ok(l2) => Ok(
                Expr::BinaryExpr {
                    left: Box::new(l2),
                    op: *op,
                    right: Box::new(clone_expr(right)),
                },
            ),
            Err(_) => match rename_expr_root_name(right, new_name) {
                Ok(r2) => Ok(
                    Expr::BinaryExpr {
                        left: Box::new(clone_expr(left)),
                        op: *op,
                        right: Box::new(r2),
                    },
                ),
                Err(err) => Err(err),
            },
        },
        Expr::Literal(_) => Err(
            PlanError::InvalidOperation(String::from_str("no root column to rename")),
        ),
        Expr::Filter { .. } => Err(
            PlanError::InvalidOperation(String::from_str("no root column to rename")),
        ),
        Expr::Function { .. } => Err(
            PlanError::InvalidOperation(String::from_str("no root column to rename")),
        ),
        Expr::BinaryFunction { .. } => Err(
            PlanError::InvalidOperation(String::from_str("no root column to rename")),
        ),
        Expr::Except(_) => Err(
            PlanError::InvalidOperation(String::from_str("no root column to rename")),
        ),
    }
}

/// Rebuild an aggregation with its input's root column renamed.
fn rename_agg_root_name(a: &AggExpr, new_name: &String) -> (r: Result<AggExpr, PlanError>)
    ensures
        match r {
            Ok(x) => spec_rename_agg(view_agg(*a), new_name@) == Some(view_agg(x)),
            Err(_) => spec_rename_agg(view_agg(*a), new_name@) is None,
        },
    decreases a,
{
    match a {
        AggExpr::Min(e) => match rename_expr_root_name(e, new_name) {
            Ok(x) => Ok(AggExpr::Min(Box::new(x))),
            Err(err) => Err(err),
        },
        AggExpr::Max(e) => match rename_expr_root_name(e, new_name) {
            Ok(x) => Ok(AggExpr::Max(Box::new(x))),
            Err(err) => Err(err),
        },
        AggExpr::Median(e) => match rename_expr_root_name(e, new_name) {
            Ok(x) => Ok(AggExpr::Median(Box::new(x))),
            Err(err) => Err(err),
        },
        AggExpr::NUnique(e) => match rename_expr_root_name(e, new_name) {
            Ok(x) => Ok(AggExpr::NUnique(Box::new(x))),
            Err(err) => Err(err),
        },
        AggExpr::First(e) => match rename_expr_root_name(e, new_name) {
            Ok(x) => Ok(AggExpr::First(Box::new(x))),
            Err(err) => Err(err),
        },
        AggExpr::Last(e) => match rename_expr_root_name(e, new_name) {
            Ok(x) => Ok(AggExpr::Last(Box::new(x))),
            Err(err) => Err(err),
        },
        AggExpr::Mean(e) => match rename_expr_root_name(e, new_name) {
            Ok(x) => Ok(AggExpr::Mean(Box::new(x))),
            Err(err) => Err(err),
        },
        AggExpr::List(e) => match rename_expr_root_name(e, new_name) {
            Ok(x) => Ok(AggExpr::List(Box::new(x))),
            Err(err) => Err(err),
        },
        AggExpr::Count(e) => match rename_expr_root_name(e, new_name) {
            Ok(x) => Ok(AggExpr::Count(Box::new(x))),
            Err(err) => Err(err),
        },
        AggExpr::Quantile { expr, quantile } => match rename_expr_root_name(expr, new_name) {
            Ok(x) => Ok(AggExpr::Quantile { expr: Box::new(x), quantile: *quantile }),
            Err(err) => Err(err),
        },
        AggExpr::Sum(e) => match rename_expr_root_name(e, new_name) {
            Ok(x) => Ok(AggExpr::Sum(Box::new(x))),
            Err(err) => Err(err),
        },
        AggExpr::AggGroups(e) => match rename_expr_root_name(e, new_name) {
            Ok(x) => Ok(AggExpr::AggGroups(Box::new(x))),
            Err(err) => Err(err),
        },
        AggExpr::Std(e) => match rename_expr_root_name(e, new_name) {
            Ok(x) => Ok(AggExpr::Std(Box::new(x))),
            Err(err) => Err(err),
        },
        AggExpr::Var(e) => match rename_expr_root_name(e, new_name) {
            Ok(x) => Ok(AggExpr::Var(Box::new(x))),
            Err(err) => Err(err),
        },
    }
}

/// The left fold of `s` under `And`: `((s[0] && s[1]) && s[2]) ...`.
pub open spec fn spec_combine(s: Seq<ExprV>) -> ExprV
    decreases s,
{
    if s.len() <= 1 {
        s[0]
    } else {
        ExprV::BinaryExpr {
            left: Box::new(spec_combine(s.drop_last())),
            op: Operator::And,
            right: Box::new(s.last()),
        }
    }
}

/// Combine the given predicates into one `AND` chain, left to right.
pub fn combine_predicates_expr(exprs: Vec<Expr>) -> (r: Expr)
    requires
        exprs@.len() > 0,
    ensures
        r@ == spec_combine(view_exprs(exprs@)),
{
    proof {
        crate::expr::lemma_view_exprs_len(exprs@);
    }
    let mut acc = clone_expr(&exprs[0]);
    proof {
        assert(exprs@.take(1).drop_last() =~= exprs@.take(0));
        assert(exprs@.take(1).last() == exprs@[0]);
        assert(view_exprs(exprs@.take(0)) =~= Seq::<ExprV>::empty());
        assert(view_exprs(exprs@.take(1)) =~= Seq::<ExprV>::empty().push(view_expr(exprs@[0])));
        assert(spec_combine(view_exprs(exprs@.take(1))) == view_expr(exprs@[0]));
    }
    let mut i: usize = 1;
    while i < exprs.len()
        invariant
            1 <= i <= exprs@.len(),
            view_exprs(exprs@).len() == exprs@.len(),
            acc@ == spec_combine(view_exprs(exprs@.take(i as int))),
        decreases exprs.len() - i,
    {
        let next = clone_expr(&exprs[i]);
        proof {
            let t = view_exprs(exprs@.take(i as int));
            assert(exprs@.take(i + 1).drop_last() =~= exprs@.take(i as int));
            assert(exprs@.take(i + 1).last() == exprs@[i as int]);
            assert(view_exprs(exprs@.take(i + 1)) == t.push(view_expr(exprs@[i as int])));
            assert(view_exprs(exprs@.take(i + 1)).drop_last() =~= t);
            crate::expr::lemma_view_exprs_len(exprs@.take(i as int));
        }
        acc = Expr::BinaryExpr { left: Box::new(acc), op: Operator::And, right: Box::new(next) };
        i += 1;
    }
    proof {
        assert(exprs@.take(exprs@.len() as int) =~= exprs@);
    }
    acc
}

} // verus!

verus! {

/// The output-column name of `v`: its alias, or the column under a chain
/// of sorts and casts.
pub open spec fn spec_output_name(v: ExprV) -> Option<Seq<char>>
    decreases v,
{
    match v {
        ExprV::Column(n) => Some(n),
        ExprV::Alias(_, n) => Some(n),
        ExprV::Sort { expr, .. } => spec_output_name(*expr),
        ExprV::Cast { expr, .. } => spec_output_name(*expr),
        _ => None,
    }
}

/// The output-column name of each element of `vs`; `None` as soon as one
/// has none.
pub open spec fn spec_output_names(vs: Seq<ExprV>) -> Option<Seq<Seq<char>>>
    decreases vs,
{
    if vs.len() == 0 {
        Some(Seq::empty())
    } else {
        match (spec_output_names(vs.drop_last()), spec_output_name(vs.last())) {
            (Some(ns), Some(n)) => Some(ns.push(n)),
            _ => None,
        }
    }
}

/// The output-column name of `e`, as [`spec_output_name`] says.
pub fn output_name(e: &Expr) -> (r: Result<String, PlanError>)
    ensures
        match r {
            Ok(n) => spec_output_name(e@) == Some(n@),
            Err(_) => spec_output_name(e@) is None,
        },
    decreases e,
{
    match e {
        Expr::Column(n) => Ok(n.clone()),
        Expr::Alias(_, n) => Ok(n.clone()),
        Expr::Sort { expr, .. } => output_name(expr),
        Expr::Cast { expr, .. } => output_name(expr),
        _ => Err(
            PlanError::InvalidOperation(
                String::from_str("cannot determine an output name for this expression"),
            ),
        ),
    }
}

} // verus!

verus! {

/// True when one of the strings of `v` reads `name`.
pub fn contains_str(v: &Vec<String>, name: &String) -> (r: bool)
    ensures
        r == view_strs(v@).contains(name@),
{
    let mut i: usize = 0;
    while i < v.len()
        invariant
            0 <= i <= v.len(),
            forall|j: int| 0 <= j < i ==> view_strs(v@)[j] != name@,
        decreases v.len() - i,
    {
        assert(view_strs(v@)[i as int] == v@[i as int]@);
        if v[i].eq(name) {
            assert(view_strs(v@).contains(name@));
            return true;
        }
        i += 1;
    }
    proof {
        assert(forall|j: int| 0 <= j < view_strs(v@).len() ==> view_strs(v@)[j] != name@);
    }
    false
}

/// The output names of the given expressions, as [`spec_output_names`]
/// says; the error names the first expression without one.
pub fn output_names(es: &Vec<Expr>) -> (r: Result<Vec<String>, PlanError>)
    ensures
        match r {
            Ok(ns) => spec_output_names(view_exprs(es@)) == Some(view_strs(ns@)),
            Err(_) => spec_output_names(view_exprs(es@)) is None,
        },
{
    let mut out: Vec<String> = Vec::new();
    let mut i: usize = 0;
    proof {
        assert(view_exprs(es@.take(0)) =~= Seq::<ExprV>::empty());
        assert(view_strs(out@) =~= Seq::<Seq<char>>::empty());
    }
    while i < es.len()
        invariant
            0 <= i <= es.len(),
            spec_output_names(view_exprs(es@.take(i as int))) == Some(view_strs(out@)),
        decreases es.len() - i,
    {
        let ghost t = view_exprs(es@.take(i as int));
        proof {
            crate::expr::lemma_view_exprs_len(es@);
            crate::expr::lemma_view_exprs_index(es@, i as int);
            assert(es@.take(i + 1).drop_last() =~= es@.take(i as int));
            assert(es@.take(i + 1).last() == es@[i as int]);
            assert(view_exprs(es@.take(i + 1)) == t.push(view_expr(es@[i as int])));
            assert(view_exprs(es@.take(i + 1)).drop_last() =~= t);
        }
        match output_name(&es[i]) {
            Ok(n) => {
                let ghost before = view_strs(out@);
                out.push(n);
                proof {
                    assert(view_strs(out@) =~= before.push(out@.last()@));
                }
            },
            Err(err) => {
                proof {
                    lemma_output_names_none_prefix(view_exprs(es@), i as int);
                }
                return Err(err);
            },
        }
        i += 1;
    }
    proof {
        assert(es@.take(es@.len() as int) =~= es@);
    }
    Ok(out)
}

/// Once one expression has no output name, the list has none.
proof fn lemma_output_names_none_prefix(vs: Seq<ExprV>, i: int)
    requires
        0 <= i < vs.len(),
        spec_output_name(vs[i]) is None,
    ensures
        spec_output_names(vs) is None,
    decreases vs,
{
    if i < vs.len() - 1 {
        assert(vs.drop_last()[i] == vs[i]);
        lemma_output_names_none_prefix(vs.drop_last(), i);
    }
}

} // verus!
