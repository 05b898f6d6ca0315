//! The expression IR: scalar, aggregate and window expressions, their
//! spec-level views, and a verified deep copy.

use vstd::prelude::*;
use crate::dtypes::{DataType, Operator};
use crate::literal::{LiteralValue, LiteralV};
use crate::schema::{Field, FieldV};

verus! {

broadcast use vstd::std_specs::vec::axiom_vec_index_decreases;

/// Spec-level image of an [`AggExpr`].
pub enum AggExprV {
    Min(Box<ExprV>),
    Max(Box<ExprV>),
    Median(Box<ExprV>),
    NUnique(Box<ExprV>),
    First(Box<ExprV>),
    Last(Box<ExprV>),
    Mean(Box<ExprV>),
    List(Box<ExprV>),
    Count(Box<ExprV>),
    Quantile { expr: Box<ExprV>, quantile: u64 },
    Sum(Box<ExprV>),
    AggGroups(Box<ExprV>),
    Std(Box<ExprV>),
    Var(Box<ExprV>),
}

/// Spec-level image of an [`Expr`].
pub enum ExprV {
    Alias(Box<ExprV>, Seq<char>),
    Column(Seq<char>),
    Literal(LiteralV),
    BinaryExpr { left: Box<ExprV>, op: Operator, right: Box<ExprV> },
    Not(Box<ExprV>),
    IsNotNull(Box<ExprV>),
    IsNull(Box<ExprV>),
    Cast { expr: Box<ExprV>, data_type: DataType },
    Sort { expr: Box<ExprV>, reverse: bool },
    Take { expr: Box<ExprV>, idx: Box<ExprV> },
    SortBy { expr: Box<ExprV>, by: Box<ExprV>, reverse: bool },
    Agg(AggExprV),
    Ternary { predicate: Box<ExprV>, truthy: Box<ExprV>, falsy: Box<ExprV> },
    Function { inputs: Seq<ExprV>, output_type: Option<DataType> },
    BinaryFunction { input_a: Box<ExprV>, input_b: Box<ExprV>, output_field: Option<FieldV> },
    Shift { input: Box<ExprV>, periods: i64 },
    Reverse(Box<ExprV>),
    Duplicated(Box<ExprV>),
    IsUnique(Box<ExprV>),
    Explode(Box<ExprV>),
    Filter { input: Box<ExprV>, by: Box<ExprV> },
    Window { function: Box<ExprV>, partition_by: Box<ExprV>, order_by: Option<Box<ExprV>> },
    Wildcard,
    Slice { input: Box<ExprV>, offset: i64, length: usize },
    Except(Box<ExprV>),
}

/// An aggregation over the rows of a group.
pub enum AggExpr {
    Min(Box<Expr>),
    Max(Box<Expr>),
    Median(Box<Expr>),
    NUnique(Box<Expr>),
    First(Box<Expr>),
    Last(Box<Expr>),
    Mean(Box<Expr>),
    List(Box<Expr>),
    Count(Box<Expr>),
    /// The quantile is carried as the IEEE-754 bit pattern of the requested
    /// fraction; the plan never computes with it.
    Quantile { expr: Box<Expr>, quantile: u64 },
    Sum(Box<Expr>),
    AggGroups(Box<Expr>),
    Std(Box<Expr>),
    Var(Box<Expr>),
}

/// A scalar, aggregate or window expression over the columns of a schema.
///
/// `Function` and `BinaryFunction` stand for user-defined series functions;
/// the plan carries what schema synthesis needs (the declared output type or
/// field), while the callable itself lives with the execution engine.
pub enum Expr {
    Alias(Box<Expr>, String),
    Column(String),
    Literal(LiteralValue),
    BinaryExpr { left: Box<Expr>, op: Operator, right: Box<Expr> },
    Not(Box<Expr>),
    IsNotNull(Box<Expr>),
    IsNull(Box<Expr>),
    Cast { expr: Box<Expr>, data_type: DataType },
    Sort { expr: Box<Expr>, reverse: bool },
    Take { expr: Box<Expr>, idx: Box<Expr> },
    SortBy { expr: Box<Expr>, by: Box<Expr>, reverse: bool },
    Agg(AggExpr),
    Ternary { predicate: Box<Expr>, truthy: Box<Expr>, falsy: Box<Expr> },
    Function { inputs: Vec<Expr>, output_type: Option<DataType> },
    BinaryFunction { input_a: Box<Expr>, input_b: Box<Expr>, output_field: Option<Field> },
    Shift { input: Box<Expr>, periods: i64 },
    Reverse(Box<Expr>),
    Duplicated(Box<Expr>),
    IsUnique(Box<Expr>),
    Explode(Box<Expr>),
    Filter { input: Box<Expr>, by: Box<Expr> },
    Window { function: Box<Expr>, partition_by: Box<Expr>, order_by: Option<Box<Expr>> },
    Wildcard,
    Slice { input: Box<Expr>, offset: i64, length: usize },
    Except(Box<Expr>),
}

/// The view of an [`AggExpr`].
pub open spec fn view_agg(a: AggExpr) -> AggExprV
    decreases a,
{
    match a {
        AggExpr::Min(e) => AggExprV::Min(Box::new(view_expr(*e))),
        AggExpr::Max(e) => AggExprV::Max(Box::new(view_expr(*e))),
        AggExpr::Median(e) => AggExprV::Median(Box::new(view_expr(*e))),
        AggExpr::NUnique(e) => AggExprV::NUnique(Box::new(view_expr(*e))),
        AggExpr::First(e) => AggExprV::First(Box::new(view_expr(*e))),
        AggExpr::Last(e) => AggExprV::Last(Box::new(view_expr(*e))),
        AggExpr::Mean(e) => AggExprV::Mean(Box::new(view_expr(*e))),
        AggExpr::List(e) => AggExprV::List(Box::new(view_expr(*e))),
        AggExpr::Count(e) => AggExprV::Count(Box::new(view_expr(*e))),
        AggExpr::Quantile { expr, quantile } => AggExprV::Quantile {
            expr: Box::new(view_expr(*expr)),
            quantile,
        },
        AggExpr::Sum(e) => AggExprV::Sum(Box::new(view_expr(*e))),
        AggExpr::AggGroups(e) => AggExprV::AggGroups(Box::new(view_expr(*e))),
        AggExpr::Std(e) => AggExprV::Std(Box::new(view_expr(*e))),
        AggExpr::Var(e) => AggExprV::Var(Box::new(view_expr(*e))),
    }
}

/// The view of an [`Expr`].
pub open spec fn view_expr(e: Expr) -> ExprV
    decreases e,
{
    match e {
        Expr::Alias(inner, name) => ExprV::Alias(Box::new(view_expr(*inner)), name@),
        Expr::Column(name) => ExprV::Column(name@),
        Expr::Literal(v) => ExprV::Literal(v@),
        Expr::BinaryExpr { left, op, right } => ExprV::BinaryExpr {
            left: Box::new(view_expr(*left)),
            op,
            right: Box::new(view_expr(*right)),
        },
        Expr::Not(e) => ExprV::Not(Box::new(view_expr(*e))),
        Expr::IsNotNull(e) => ExprV::IsNotNull(Box::new(view_expr(*e))),
        Expr::IsNull(e) => ExprV::IsNull(Box::new(view_expr(*e))),
        Expr::Cast { expr, data_type } => ExprV::Cast {
            expr: Box::new(view_expr(*expr)),
            data_type,
        },
        Expr::Sort { expr, reverse } => ExprV::Sort { expr: Box::new(view_expr(*expr)), reverse },
        Expr::Take { expr, idx } => ExprV::Take {
            expr: Box::new(view_expr(*expr)),
            idx: Box::new(view_expr(*idx)),
        },
        Expr::SortBy { expr, by, reverse } => ExprV::SortBy {
            expr: Box::new(view_expr(*expr)),
            by: Box::new(view_expr(*by)),
            reverse,
        },
        Expr::Agg(a) => ExprV::Agg(view_agg(a)),
        Expr::Ternary { predicate, truthy, falsy } => ExprV::Ternary {
            predicate: Box::new(view_expr(*predicate)),
            truthy: Box::new(view_expr(*truthy)),
            falsy: Box::new(view_expr(*falsy)),
        },
        Expr::Function { inputs, output_type } => ExprV::Function {
            inputs: view_exprs(inputs@),
            output_type,
        },
        Expr::BinaryFunction { input_a, input_b, output_field } => ExprV::BinaryFunction {
            input_a: Box::new(view_expr(*input_a)),
            input_b: Box::new(view_expr(*input_b)),
            output_field: match output_field {
                Some(f) => Some(f@),
                None => None,
            },
        },
        Expr::Shift { input, periods } => ExprV::Shift {
            input: Box::new(view_expr(*input)),
            periods,
        },
        Expr::Reverse(e) => ExprV::Reverse(Box::new(view_expr(*e))),
        Expr::Duplicated(e) => ExprV::Duplicated(Box::new(view_expr(*e))),
        Expr::IsUnique(e) => ExprV::IsUnique(Box::new(view_expr(*e))),
        Expr::Explode(e) => ExprV::Explode(Box::new(view_expr(*e))),
        Expr::Filter { input, by } => ExprV::Filter {
            input: Box::new(view_expr(*input)),
            by: Box::new(view_expr(*by)),
        },
        Expr::Window { function, partition_by, order_by } => ExprV::Window {
            function: Box::new(view_expr(*function)),
            partition_by: Box::new(view_expr(*partition_by)),
            order_by: match order_by {
                Some(o) => Some(Box::new(view_expr(*o))),
                None => None,
            },
        },
        Expr::Wildcard => ExprV::Wildcard,
        Expr::Slice { input, offset, length } => ExprV::Slice {
            input: Box::new(view_expr(*input)),
            offset,
            length,
        },
        Expr::Except(e) => ExprV::Except(Box::new(view_expr(*e))),
    }
}

/// The elementwise view of a sequence of expressions.
pub open spec fn view_exprs(s: Seq<Expr>) -> Seq<ExprV>
    decreases s,
{
    if s.len() == 0 {
        Seq::empty()
    } else {
        view_exprs(s.drop_last()).push(view_expr(s.last()))
    }
}

impl View for Expr {
    type V = ExprV;

    open spec fn view(&self) -> ExprV {
        view_expr(*self)
    }
}

pub broadcast proof fn lemma_view_exprs_len(s: Seq<Expr>)
    ensures
        #[trigger] view_exprs(s).len() == s.len(),
    decreases s,
{
    if s.len() != 0 {
        lemma_view_exprs_len(s.drop_last());
    }
}

pub broadcast proof fn lemma_view_exprs_index(s: Seq<Expr>, i: int)
    requires
        0 <= i < s.len(),
    ensures
        #[trigger] view_exprs(s)[i] == view_expr(s[i]),
    decreases s,
{
    lemma_view_exprs_len(s);
    if s.len() != 0 {
        lemma_view_exprs_len(s.drop_last());
        if i < s.len() - 1 {
            lemma_view_exprs_index(s.drop_last(), i);
        }
    }
}

/// Appending one expression appends its view.
pub broadcast proof fn lemma_view_exprs_push(s: Seq<Expr>, e: Expr)
    ensures
        #[trigger] view_exprs(s.push(e)) == view_exprs(s).push(view_expr(e)),
{
    assert(s.push(e).drop_last() =~= s);
    assert(s.push(e).last() == e);
}

/// An expression's view is of its own variant's image.
pub proof fn lemma_view_variants(e: Expr)
    ensures
        (view_expr(e) is Column) == (e is Column),
        (view_expr(e) is Alias) == (e is Alias),
        (view_expr(e) is Except) == (e is Except),
{
}

/// Removing one element removes its view.
pub proof fn lemma_view_exprs_remove(s: Seq<Expr>, i: int)
    requires
        0 <= i < s.len(),
    ensures
        view_exprs(s.remove(i)) == view_exprs(s).remove(i),
{
    lemma_view_exprs_len(s);
    lemma_view_exprs_len(s.remove(i));
    assert forall|m: int| 0 <= m < s.remove(i).len() implies view_exprs(s.remove(i))[m]
        == view_exprs(s).remove(i)[m] by {
        lemma_view_exprs_index(s.remove(i), m);
        if m < i {
            lemma_view_exprs_index(s, m);
        } else {
            lemma_view_exprs_index(s, m + 1);
        }
    }
    assert(view_exprs(s.remove(i)) =~= view_exprs(s).remove(i));
}

/// A deep copy of an expression, equal in view.
pub fn clone_expr(e: &Expr) -> (r: Expr)
    ensures
        r@ == e@,
    decreases e,
{
    match e {
        Expr::Alias(inner, name) => Expr::Alias(Box::new(clone_expr(inner)), name.clone()),
        Expr::Column(name) => Expr::Column(name.clone()),
        Expr::Literal(v) => Expr::Literal(crate::literal::clone_literal(v)),
        Expr::BinaryExpr { left, op, right } => Expr::BinaryExpr {
            left: Box::new(clone_expr(left)),
            op: *op,
            right: Box::new(clone_expr(right)),
        },
        Expr::Not(x) => Expr::Not(Box::new(clone_expr(x))),
        Expr::IsNotNull(x) => Expr::IsNotNull(Box::new(clone_expr(x))),
        Expr::IsNull(x) => Expr::IsNull(Box::new(clone_expr(x))),
        Expr::Cast { expr, data_type } => Expr::Cast {
            expr: Box::new(clone_expr(expr)),
            data_type: *data_type,
        },
        Expr::Sort { expr, reverse } => Expr::Sort {
            expr: Box::new(clone_expr(expr)),
            reverse: *reverse,
        },
        Expr::Take { expr, idx } => Expr::Take {
            expr: Box::new(clone_expr(expr)),
            idx: Box::new(clone_expr(idx)),
        },
        Expr::SortBy { expr, by, reverse } => Expr::SortBy {
            expr: Box::new(clone_expr(expr)),
            by: Box::new(clone_expr(by)),
            reverse: *reverse,
        },
        Expr::Agg(a) => Expr::Agg(clone_agg(a)),
        Expr::Ternary { predicate, truthy, falsy } => Expr::Ternary {
            predicate: Box::new(clone_expr(predicate)),
            truthy: Box::new(clone_expr(truthy)),
            falsy: Box::new(clone_expr(falsy)),
        },
        Expr::Function { inputs, output_type } => {
            proof {
                let g: Expr = *e;
                assert(decreases_to!(g => g->inputs));
            }
            Expr::Function {
                inputs: clone_exprs(inputs),
                output_type: match output_type {
                    Some(d) => Some(*d),
                    None => None,
                },
            }
        },
        Expr::BinaryFunction { input_a, input_b, output_field } => Expr::BinaryFunction {
            input_a: Box::new(clone_expr(input_a)),
            input_b: Box::new(clone_expr(input_b)),
            output_field: match output_field {
                Some(f) => Some(f.clone()),
                None => None,
            },
        },
        Expr::Shift { input, periods } => Expr::Shift {
            input: Box::new(clone_expr(input)),
            periods: *periods,
        },
        Expr::Reverse(x) => Expr::Reverse(Box::new(clone_expr(x))),
        Expr::Duplicated(x) => Expr::Duplicated(Box::new(clone_expr(x))),
        Expr::IsUnique(x) => Expr::IsUnique(Box::new(clone_expr(x))),
        Expr::Explode(x) => Expr::Explode(Box::new(clone_expr(x))),
        Expr::Filter { input, by } => Expr::Filter {
            input: Box::new(clone_expr(input)),
            by: Box::new(clone_expr(by)),
        },
        Expr::Window { function, partition_by, order_by } => Expr::Window {
            function: Box::new(clone_expr(function)),
            partition_by: Box::new(clone_expr(partition_by)),
            order_by: match order_by {
                Some(o) => Some(Box::new(clone_expr(o))),
                None => None,
            },
        },
        Expr::Wildcard => Expr::Wildcard,
        Expr::Slice { input, offset, length } => Expr::Slice {
            input: Box::new(clone_expr(input)),
            offset: *offset,
            length: *length,
        },
        Expr::Except(x) => Expr::Except(Box::new(clone_expr(x))),
    }
}

/// A deep copy of a list of expressions, elementwise equal in view.
pub fn clone_exprs(es: &Vec<Expr>) -> (r: Vec<Expr>)
    ensures
        view_exprs(r@) == view_exprs(es@),
    decreases es,
{
    let mut out: Vec<Expr> = Vec::new();
    let mut i: usize = 0;
    proof {
        assert(view_exprs(es@.take(0)) =~= view_exprs(out@));
    }
    while i < es.len()
        invariant
            0 <= i <= es.len(),
            view_exprs(out@) == view_exprs(es@.take(i as int)),
        decreases es.len() - i,
    {
        proof {
            vstd::std_specs::vec::axiom_vec_index_decreases::<Expr>(*es, i as int);
        }
        let c = clone_expr(&es[i]);
        proof {
            lemma_view_exprs_push(out@, c);
            assert(es@.take(i + 1).drop_last() =~= es@.take(i as int));
            assert(es@.take(i + 1).last() == es@[i as int]);
        }
        out.push(c);
        i += 1;
    }
    proof {
        assert(es@.take(es@.len() as int) =~= es@);
    }
    out
}

/// A deep copy of an aggregation, equal in view.
pub fn clone_agg(a: &AggExpr) -> (r: AggExpr)
    ensures
        view_agg(r) == view_agg(*a),
    decreases a,
{
    match a {
        AggExpr::Min(e) => AggExpr::Min(Box::new(clone_expr(e))),
        AggExpr::Max(e) => AggExpr::Max(Box::new(clone_expr(e))),
        AggExpr::Median(e) => AggExpr::Median(Box::new(clone_expr(e))),
        AggExpr::NUnique(e) => AggExpr::NUnique(Box::new(clone_expr(e))),
        AggExpr::First(e) => AggExpr::First(Box::new(clone_expr(e))),
        AggExpr::Last(e) => AggExpr::Last(Box::new(clone_expr(e))),
        AggExpr::Mean(e) => AggExpr::Mean(Box::new(clone_expr(e))),
        AggExpr::List(e) => AggExpr::List(Box::new(clone_expr(e))),
        AggExpr::Count(e) => AggExpr::Count(Box::new(clone_expr(e))),
        AggExpr::Quantile { expr, quantile } => AggExpr::Quantile {
            expr: Box::new(clone_expr(expr)),
            quantile: *quantile,
        },
        AggExpr::Sum(e) => AggExpr::Sum(Box::new(clone_expr(e))),
        AggExpr::AggGroups(e) => AggExpr::AggGroups(Box::new(clone_expr(e))),
        AggExpr::Std(e) => AggExpr::Std(Box::new(clone_expr(e))),
        AggExpr::Var(e) => AggExpr::Var(Box::new(clone_expr(e))),
    }
}

} // verus!
