//! Per-expression output field inference: the name and data type an
//! expression contributes to a schema, per context.

use vstd::prelude::*;
use vstd::string::{StrSliceExecFns, StringExecFns};
use crate::dtypes::{Context, DataType, spec_supertype, supertype};
use crate::error::PlanError;
use crate::expr::{AggExpr, AggExprV, Expr, ExprV, view_agg, view_expr, view_exprs};
use crate::literal::spec_lit_datatype;
use crate::schema::{Field, FieldV, Schema, spec_field_with_name};

verus! {

/// The name suffix an aggregation appends in `Aggregation` context.
pub open spec fn spec_agg_suffix(a: AggExprV) -> Seq<char> {
    match a {
        AggExprV::Min(_) => "_min"@,
        AggExprV::Max(_) => "_max"@,
        AggExprV::Median(_) => "_median"@,
        AggExprV::NUnique(_) => "_n_unique"@,
        AggExprV::First(_) => "_first"@,
        AggExprV::Last(_) => "_last"@,
        AggExprV::Mean(_) => "_mean"@,
        AggExprV::List(_) => "_agg_list"@,
        AggExprV::Count(_) => "_count"@,
        AggExprV::Quantile { .. } => "_quantile"@,
        AggExprV::Sum(_) => "_sum"@,
        AggExprV::AggGroups(_) => "_agg_groups"@,
        AggExprV::Std(_) => "_std"@,
        AggExprV::Var(_) => "_var"@,
    }
}

/// The inner expression of an aggregation.
pub open spec fn spec_agg_inner(a: AggExprV) -> ExprV {
    match a {
        AggExprV::Min(e) => *e,
        AggExprV::Max(e) => *e,
        AggExprV::Median(e) => *e,
        AggExprV::NUnique(e) => *e,
        AggExprV::First(e) => *e,
        AggExprV::Last(e) => *e,
        AggExprV::Mean(e) => *e,
        AggExprV::List(e) => *e,
        AggExprV::Count(e) => *e,
        AggExprV::Quantile { expr, .. } => *expr,
        AggExprV::Sum(e) => *e,
        AggExprV::AggGroups(e) => *e,
        AggExprV::Std(e) => *e,
        AggExprV::Var(e) => *e,
    }
}

/// The data type an aggregation reports, from its input's type: order
/// statistics keep it, moments go to `Float64`, counts to `UInt32`, and
/// grouping aggregations yield lists.
pub open spec fn spec_agg_dtype(a: AggExprV, inner: DataType) -> DataType {
    match a {
        AggExprV::Min(_) => inner,
        AggExprV::Max(_) => inner,
        AggExprV::Sum(_) => inner,
        AggExprV::First(_) => inner,
        AggExprV::Last(_) => inner,
        AggExprV::Median(_) => DataType::Float64,
        AggExprV::Mean(_) => DataType::Float64,
        AggExprV::Std(_) => DataType::Float64,
        AggExprV::Var(_) => DataType::Float64,
        AggExprV::Quantile { .. } => DataType::Float64,
        AggExprV::NUnique(_) => DataType::UInt32,
        AggExprV::Count(_) => DataType::UInt32,
        AggExprV::AggGroups(_) => DataType::List,
        AggExprV::List(_) => DataType::List,
    }
}

/// The output field of `v` against schema `s` in context `ctxt`; `None`
/// when a referenced column is missing or `v` has no field in this place.
///
/// In `Aggregation` context an aggregation renames its input's field by
/// its suffix; in `Default` context the name stays.
pub open spec fn spec_to_field(v: ExprV, s: Seq<FieldV>, ctxt: Context) -> Option<FieldV>
    decreases v,
{
    match v {
        ExprV::Column(n) => spec_field_with_name(s, n),
        ExprV::Alias(e, a) => match spec_to_field(*e, s, ctxt) {
            Some(f) => Some(FieldV { name: a, dtype: f.dtype }),
            None => None,
        },
        ExprV::Literal(lv) => Some(FieldV { name: "literal"@, dtype: spec_lit_datatype(lv) }),
        ExprV::BinaryExpr { left, op, right } => if op.spec_is_comparison() {
            match spec_to_field(*left, s, ctxt) {
                Some(f) => Some(FieldV { name: f.name, dtype: DataType::Boolean }),
                None => None,
            }
        } else {
            match (spec_to_field(*left, s, ctxt), spec_to_field(*right, s, ctxt)) {
                (Some(lf), Some(rf)) => Some(
                    FieldV { name: lf.name, dtype: spec_supertype(lf.dtype, rf.dtype) },
                ),
                _ => None,
            }
        },
        ExprV::Not(e) => match spec_to_field(*e, s, ctxt) {
            Some(f) => Some(FieldV { name: f.name, dtype: DataType::Boolean }),
            None => None,
        },
        ExprV::IsNull(e) => match spec_to_field(*e, s, ctxt) {
            Some(f) => Some(FieldV { name: f.name, dtype: DataType::Boolean }),
            None => None,
        },
        ExprV::IsNotNull(e) => match spec_to_field(*e, s, ctxt) {
            Some(f) => Some(FieldV { name: f.name, dtype: DataType::Boolean }),
            None => None,
        },
        ExprV::IsUnique(e) => match spec_to_field(*e, s, ctxt) {
            Some(f) => Some(FieldV { name: f.name, dtype: DataType::Boolean }),
            None => None,
        },
        ExprV::Duplicated(e) => match spec_to_field(*e, s, ctxt) {
            Some(f) => Some(FieldV { name: f.name, dtype: DataType::Boolean }),
            None => None,
        },
        ExprV::Cast { expr, data_type } => match spec_to_field(*expr, s, ctxt) {
            Some(f) => Some(FieldV { name: f.name, dtype: data_type }),
            None => None,
        },
        ExprV::Sort { expr, .. } => spec_to_field(*expr, s, ctxt),
        ExprV::SortBy { expr, .. } => spec_to_field(*expr, s, ctxt),
        ExprV::Reverse(e) => spec_to_field(*e, s, ctxt),
        ExprV::Explode(e) => spec_to_field(*e, s, ctxt),
        ExprV::Shift { input, .. } => spec_to_field(*input, s, ctxt),
        ExprV::Slice { input, .. } => spec_to_field(*input, s, ctxt),
        ExprV::Take { expr, .. } => spec_to_field(*expr, s, ctxt),
        ExprV::Ternary { truthy, .. } => spec_to_field(*truthy, s, ctxt),
        ExprV::Window { function, .. } => spec_to_field(*function, s, ctxt),
        ExprV::Function { inputs, output_type } => if inputs.len() == 0 {
            None
        } else {
            match spec_to_field(inputs[0], s, ctxt) {
                Some(f) => Some(
                    FieldV {
                        name: f.name,
                        dtype: match output_type {
                            Some(d) => d,
                            None => f.dtype,
                        },
                    },
                ),
                None => None,
            }
        },
        ExprV::BinaryFunction { input_a, output_field, .. } => match output_field {
            Some(f) => Some(f),
            None => spec_to_field(*input_a, s, ctxt),
        },
        ExprV::Agg(a) => match spec_to_field(spec_agg_inner(a), s, ctxt) {
            Some(f) => Some(
                FieldV {
                    name: match ctxt {
                        Context::Aggregation => f.name + spec_agg_suffix(a),
                        Context::Default => f.name,
                    },
                    dtype: spec_agg_dtype(a, f.dtype),
                },
            ),
            None => None,
        },
        ExprV::Wildcard => None,
        ExprV::Except(_) => None,
        ExprV::Filter { .. } => None,
    }
}

impl Expr {
    /// The output field of this expression against `schema` in `ctxt`, as
    /// [`spec_to_field`] says; an error when it has none.
    #[verifier::rlimit(100)]
    pub fn to_field(&self, schema: &Schema, ctxt: Context) -> (r: Result<Field, PlanError>)
        ensures
            match r {
                Ok(f) => spec_to_field(self@, schema@, ctxt) == Some(f@),
                Err(_) => spec_to_field(self@, schema@, ctxt) is None,
            },
        decreases self, 1int,
    {
        match self {
            Expr::Column(n) => match schema.field_with_name(n) {
                Some(f) => Ok(f.clone()),
                None => Err(PlanError::NotFound(n.clone())),
            },
            Expr::Alias(inner, a) => match inner.to_field(schema, ctxt) {
                Ok(f) => Ok(Field::new(a.clone(), f.data_type())),
                Err(err) => Err(err),
            },
            Expr::Literal(lv) => Ok(
                Field::new(String::from_str("literal"), lv.get_datatype()),
            ),
            Expr::BinaryExpr { left, op, right } => {
                if op.is_comparison() {
                    match left.to_field(schema, ctxt) {
                        Ok(f) => Ok(Field::new(f.name().clone(), DataType::Boolean)),
                        Err(err) => Err(err),
                    }
                } else {
                    match (left.to_field(schema, ctxt), right.to_field(schema, ctxt)) {
                        (Ok(lf), Ok(rf)) => Ok(
                            Field::new(
                                lf.name().clone(),
                                supertype(lf.data_type(), rf.data_type()),
                            ),
                        ),
                        (Err(err), _) => Err(err),
                        (_, Err(err)) => Err(err),
                    }
                }
            },
            Expr::Not(x) => match x.to_field(schema, ctxt) {
                Ok(f) => Ok(Field::new(f.name().clone(), DataType::Boolean)),
                Err(err) => Err(err),
            },
            Expr::IsNull(x) => match x.to_field(schema, ctxt) {
                Ok(f) => Ok(Field::new(f.name().clone(), DataType::Boolean)),
                Err(err) => Err(err),
            },
            Expr::IsNotNull(x) => match x.to_field(schema, ctxt) {
                Ok(f) => Ok(Field::new(f.name().clone(), DataType::Boolean)),
                Err(err) => Err(err),
            },
            Expr::IsUnique(x) => match x.to_field(schema, ctxt) {
                Ok(f) => Ok(Field::new(f.name().clone(), DataType::Boolean)),
                Err(err) => Err(err),
            },
            Expr::Duplicated(x) => match x.to_field(schema, ctxt) {
                Ok(f) => Ok(Field::new(f.name().clone(), DataType::Boolean)),
                Err(err) => Err(err),
            },
            Expr::Cast { expr, data_type } => match expr.to_field(schema, ctxt) {
                Ok(f) => Ok(Field::new(f.name().clone(), *data_type)),
                Err(err) => Err(err),
            },
            _ => self.to_field_rest(schema, ctxt),
        }
    }

    /// The arms of [`Expr::to_field`] for the remaining variants.
    #[verifier::rlimit(100)]
    fn to_field_rest(&self, schema: &Schema, ctxt: Context) -> (r: Result<Field, PlanError>)
        requires
            !(self@ is Column),
            !(self@ is Alias),
            !(self@ is Literal),
            !(self@ is BinaryExpr),
            !(self@ is Not),
            !(self@ is IsNull),
            !(self@ is IsNotNull),
            !(self@ is IsUnique),
            !(self@ is Duplicated),
            !(self@ is Cast),
        ensures
            match r {
                Ok(f) => spec_to_field(self@, schema@, ctxt) == Some(f@),
                Err(_) => spec_to_field(self@, schema@, ctxt) is None,
            },
        decreases self, 0int,
    {
        match self {
            Expr::Sort { expr, .. } => expr.to_field(schema, ctxt),
            Expr::SortBy { expr, .. } => expr.to_field(schema, ctxt),
            Expr::Reverse(x) => x.to_field(schema, ctxt),
            Expr::Explode(x) => x.to_field(schema, ctxt),
            Expr::Shift { input, .. } => input.to_field(schema, ctxt),
            Expr::Slice { input, .. } => input.to_field(schema, ctxt),
            Expr::Take { expr, .. } => expr.to_field(schema, ctxt),
            Expr::Ternary { truthy, .. } => truthy.to_field(schema, ctxt),
            Expr::Window { function, .. } => function.to_field(schema, ctxt),
            Expr::Function { inputs, output_type } => {
                if inputs.len() == 0 {
                    proof {
                        crate::expr::lemma_view_exprs_len(inputs@);
                    }
                    Err(
                        PlanError::InvalidOperation(
                            String::from_str("a function expression needs an input"),
                        ),
                    )
                } else {
                    proof {
                        let g: Expr = *self;
                        assert(decreases_to!(g => g->inputs));
                        vstd::std_specs::vec::axiom_vec_index_decreases::<Expr>(*inputs, 0int);
                        crate::expr::lemma_view_exprs_len(inputs@);
                        crate::expr::lemma_view_exprs_index(inputs@, 0int);
                    }
                    match inputs[0].to_field(schema, ctxt) {
                        Ok(f) => Ok(
                            Field::new(
                                f.name().clone(),
                                match output_type {
                                    Some(d) => *d,
                                    None => f.data_type(),
                                },
                            ),
                        ),
                        Err(err) => Err(err),
                    }
                }
            },
            Expr::BinaryFunction { input_a, output_field, .. } => match output_field {
                Some(f) => Ok(f.clone()),
                None => input_a.to_field(schema, ctxt),
            },
            Expr::Agg(a) => {
                let inner = agg_input(a);
                proof {
                    let g: Expr = *self;
                    assert(decreases_to!(g => g->Agg_0));
                }
                match inner.to_field(schema, ctxt) {
                    Ok(f) => {
                        let name = match ctxt {
                            Context::Aggregation => f.name().clone().concat(agg_suffix(a)),
                            Context::Default => f.name().clone(),
                        };
                        Ok(Field::new(name, agg_dtype(a, f.data_type())))
                    },
                    Err(err) => Err(err),
                }
            },
            Expr::Wildcard => Err(
                PlanError::InvalidOperation(
                    String::from_str("wildcard has no field; expand it first"),
                ),
            ),
            Expr::Except(_) => Err(
                PlanError::InvalidOperation(String::from_str("an exception names no field")),
            ),
            Expr::Filter { .. } => Err(
                PlanError::InvalidOperation(String::from_str("a filter expression has no field")),
            ),
            _ => {
                proof {
                    assert(false);
                }
                Err(PlanError::InvalidOperation(String::from_str("no field")))
            },
        }
    }
}

/// The inner expression of an aggregation.
fn agg_input(a: &AggExpr) -> (r: &Expr)
    ensures
        r@ == spec_agg_inner(view_agg(*a)),
        decreases_to!(*a => *r),
{
    match a {
        AggExpr::Min(e) => e,
        AggExpr::Max(e) => e,
        AggExpr::Median(e) => e,
        AggExpr::NUnique(e) => e,
        AggExpr::First(e) => e,
        AggExpr::Last(e) => e,
        AggExpr::Mean(e) => e,
        AggExpr::List(e) => e,
        AggExpr::Count(e) => e,
        AggExpr::Quantile { expr, .. } => expr,
        AggExpr::Sum(e) => e,
        AggExpr::AggGroups(e) => e,
        AggExpr::Std(e) => e,
        AggExpr::Var(e) => e,
    }
}

/// Executable twin of [`spec_agg_suffix`].
fn agg_suffix(a: &AggExpr) -> (r: &'static str)
    ensures
        r@ == spec_agg_suffix(view_agg(*a)),
{
    match a {
        AggExpr::Min(_) => "_min",
        AggExpr::Max(_) => "_max",
        AggExpr::Median(_) => "_median",
        AggExpr::NUnique(_) => "_n_unique",
        AggExpr::First(_) => "_first",
        AggExpr::Last(_) => "_last",
        AggExpr::Mean(_) => "_mean",
        AggExpr::List(_) => "_agg_list",
        AggExpr::Count(_) => "_count",
        AggExpr::Quantile { .. } => "_quantile",
        AggExpr::Sum(_) => "_sum",
        AggExpr::AggGroups(_) => "_agg_groups",
        AggExpr::Std(_) => "_std",
        AggExpr::Var(_) => "_var",
    }
}

/// Executable twin of [`spec_agg_dtype`].
fn agg_dtype(a: &AggExpr, inner: DataType) -> (r: DataType)
    ensures
        r == spec_agg_dtype(view_agg(*a), inner),
{
    match a {
        AggExpr::Min(_) => inner,
        AggExpr::Max(_) => inner,
        AggExpr::Sum(_) => inner,
        AggExpr::First(_) => inner,
        AggExpr::Last(_) => inner,
        AggExpr::Median(_) => DataType::Float64,
        AggExpr::Mean(_) => DataType::Float64,
        AggExpr::Std(_) => DataType::Float64,
        AggExpr::Var(_) => DataType::Float64,
        AggExpr::Quantile { .. } => DataType::Float64,
        AggExpr::NUnique(_) => DataType::UInt32,
        AggExpr::Count(_) => DataType::UInt32,
        AggExpr::AggGroups(_) => DataType::List,
        AggExpr::List(_) => DataType::List,
    }
}

/// The output fields of a list of expressions, in order; `None` as soon as
/// one of them has none.
pub open spec fn spec_exprs_fields(vs: Seq<ExprV>, s: Seq<FieldV>, ctxt: Context) -> Option<
    Seq<FieldV>,
>
    decreases vs,
{
    if vs.len() == 0 {
        Some(Seq::empty())
    } else {
        match (spec_exprs_fields(vs.drop_last(), s, ctxt), spec_to_field(vs.last(), s, ctxt)) {
            (Some(fs), Some(f)) => Some(fs.push(f)),
            _ => None,
        }
    }
}

/// The schema reported by a list of expressions against `schema`, as
/// [`spec_exprs_fields`] says; an error when one expression has no field.
pub fn expressions_to_schema(exprs: &Vec<Expr>, schema: &Schema, ctxt: Context) -> (r: Result<
    Schema,
    PlanError,
>)
    ensures
        match r {
            Ok(s) => spec_exprs_fields(view_exprs(exprs@), schema@, ctxt) == Some(s@),
            Err(_) => spec_exprs_fields(view_exprs(exprs@), schema@, ctxt) is None,
        },
{
    let mut fields: Vec<Field> = Vec::new();
    let mut i: usize = 0;
    proof {
        assert(view_exprs(exprs@.take(0)) =~= Seq::<ExprV>::empty());
        assert(crate::schema::view_fields(fields@) =~= Seq::<FieldV>::empty());
    }
    while i < exprs.len()
        invariant
            0 <= i <= exprs.len(),
            spec_exprs_fields(view_exprs(exprs@.take(i as int)), schema@, ctxt) == Some(
                crate::schema::view_fields(fields@),
            ),
        decreases exprs.len() - i,
    {
        let ghost t = view_exprs(exprs@.take(i as int));
        proof {
            assert(exprs@.take(i + 1).drop_last() =~= exprs@.take(i as int));
            assert(exprs@.take(i + 1).last() == exprs@[i as int]);
            assert(view_exprs(exprs@.take(i + 1)) == t.push(view_expr(exprs@[i as int])));
            assert(view_exprs(exprs@.take(i + 1)).drop_last() =~= t);
        }
        match exprs[i].to_field(schema, ctxt) {
            Ok(f) => {
                let ghost before = crate::schema::view_fields(fields@);
                fields.push(f);
                proof {
                    assert(crate::schema::view_fields(fields@) =~= before.push(
                        fields@.last()@,
                    ));
                }
            },
            Err(err) => {
                proof {
                    crate::expr::lemma_view_exprs_len(exprs@);
                    crate::expr::lemma_view_exprs_index(exprs@, i as int);
                    lemma_exprs_fields_none_prefix(view_exprs(exprs@), schema@, ctxt, i as int);
                }
                return Err(err);
            },
        }
        i += 1;
    }
    proof {
        assert(exprs@.take(exprs@.len() as int) =~= exprs@);
    }
    Ok(Schema::new(fields))
}

/// Once one expression of the list has no field, the list has no schema.
proof fn lemma_exprs_fields_none_prefix(vs: Seq<ExprV>, s: Seq<FieldV>, ctxt: Context, i: int)
    requires
        0 <= i < vs.len(),
        spec_to_field(vs[i], s, ctxt) is None,
    ensures
        spec_exprs_fields(vs, s, ctxt) is None,
    decreases vs,
{
    if i < vs.len() - 1 {
        assert(vs.drop_last()[i] == vs[i]);
        lemma_exprs_fields_none_prefix(vs.drop_last(), s, ctxt, i);
    }
}

} // verus!
